use rpc_checker::{
    failure_messages, get_speed_rating, summarize, summarize_probe, Outcome, ProbeKind,
    RateBand, SpeedRating,
};

fn ok(p: ProbeKind, d: u64) -> Outcome {
    Outcome::success(p, d)
}

fn fail(p: ProbeKind, d: u64, e: &str) -> Outcome {
    Outcome::failure(p, d, e.to_string())
}

#[test]
fn three_slot_successes() {
    let session = vec![
        ok(ProbeKind::Slot, 50),
        ok(ProbeKind::Slot, 150),
        ok(ProbeKind::Slot, 250),
    ];
    let s = summarize(&session);
    assert_eq!(s.probes.len(), 1);
    let p = s.probes[0];
    assert_eq!(p.probe, ProbeKind::Slot);
    assert_eq!(p.probe.name(), "getSlot");
    assert_eq!(p.avg_duration, 150);
    assert_eq!(p.speed_rating, SpeedRating::Good);
    assert_eq!(p.speed_rating.label(), "Good");
    assert_eq!(p.min_duration, 50);
    assert_eq!(p.max_duration, 250);
    assert_eq!(p.succeeded_count, 3);
    assert_eq!(p.total, 3);
    assert!(p.all_succeeded());
    assert_eq!(p.rate_band(), RateBand::Full);
}

#[test]
fn block_half_success() {
    let session = vec![
        ok(ProbeKind::Block, 400),
        fail(ProbeKind::Block, 0, "failed to resolve slot"),
    ];
    let s = summarize(&session);
    assert_eq!(s.probes.len(), 1);
    let p = s.probes[0];
    assert_eq!(p.succeeded_count, 1);
    assert_eq!(p.total, 2);
    assert_eq!(p.succeeded_count * 2, p.total);
    assert!(!p.all_succeeded());
    assert_eq!(p.avg_duration, 400);
    assert_eq!(p.min_duration, 400);
    assert_eq!(p.max_duration, 400);
    assert_eq!(p.speed_rating, SpeedRating::Average);
    assert_eq!(p.speed_rating.label(), "Average");
    assert_eq!(p.rate_band(), RateBand::Medium);
    assert_eq!(
        failure_messages(&session, ProbeKind::Block),
        vec!["failed to resolve slot".to_string()]
    );
}

#[test]
fn no_success_probe_sorts_after_partial_success() {
    // The failing probe comes first in the registry and in the session.
    let session = vec![
        fail(ProbeKind::LatestBlockhash, 30, "timeout"),
        ok(ProbeKind::Health, 900),
        fail(ProbeKind::LatestBlockhash, 40, "timeout"),
        fail(ProbeKind::Health, 20, "refused"),
    ];
    let s = summarize(&session);
    assert_eq!(s.probes.len(), 2);
    assert_eq!(s.probes[0].probe, ProbeKind::Health);
    assert_eq!(s.probes[1].probe, ProbeKind::LatestBlockhash);
    let last = s.probes[1];
    assert_eq!(last.succeeded_count, 0);
    assert_eq!(last.avg_duration, 0);
    assert_eq!(last.min_duration, 0);
    assert_eq!(last.max_duration, 0);
    assert_eq!(last.rate_band(), RateBand::Low);
}

#[test]
fn ranking_by_average_with_ties_in_registry_order() {
    let session = vec![
        ok(ProbeKind::Health, 100),
        ok(ProbeKind::Balance, 300),
        ok(ProbeKind::Slot, 100),
        ok(ProbeKind::TokenAccountsByOwner, 50),
    ];
    let s = summarize(&session);
    let order: Vec<ProbeKind> = s.probes.iter().map(|p| p.probe).collect();
    assert_eq!(
        order,
        vec![
            ProbeKind::TokenAccountsByOwner,
            ProbeKind::Slot,
            ProbeKind::Health,
            ProbeKind::Balance
        ]
    );
}

#[test]
fn overall_mean_is_flat_over_successes() {
    // Slot: one success of 100; Balance: three successes of 400.
    // Flat mean: (100 + 1200) / 4 = 325; mean of per-probe means would be 250.
    let session = vec![
        ok(ProbeKind::Slot, 100),
        ok(ProbeKind::Balance, 400),
        ok(ProbeKind::Balance, 400),
        fail(ProbeKind::Slot, 10, "boom"),
        ok(ProbeKind::Balance, 400),
    ];
    let s = summarize(&session);
    assert_eq!(s.total, 5);
    assert_eq!(s.succeeded, 4);
    assert_eq!(s.overall_avg_duration, 325);
    assert_eq!(s.overall_rating, SpeedRating::Average);
    assert_eq!(s.rate_band(), RateBand::High);
}

#[test]
fn mean_rounds_down() {
    let session = vec![ok(ProbeKind::Slot, 1), ok(ProbeKind::Slot, 2)];
    let p = summarize_probe(&session, ProbeKind::Slot);
    assert_eq!(p.avg_duration, 1);
}

#[test]
fn empty_session() {
    let session: Vec<Outcome> = Vec::new();
    let s = summarize(&session);
    assert_eq!(s.total, 0);
    assert_eq!(s.succeeded, 0);
    assert_eq!(s.overall_avg_duration, 0);
    assert!(s.probes.is_empty());
}

#[test]
fn largest_durations_do_not_overflow() {
    let session = vec![ok(ProbeKind::Slot, u64::MAX), ok(ProbeKind::Slot, u64::MAX)];
    let s = summarize(&session);
    assert_eq!(s.overall_avg_duration, u64::MAX);
    assert_eq!(s.probes[0].max_duration, u64::MAX);
    assert_eq!(s.overall_rating, SpeedRating::VerySlow);
}

#[test]
fn shuffled_session_gives_same_summary() {
    let a = vec![
        ok(ProbeKind::Slot, 120),
        fail(ProbeKind::Block, 5, "x"),
        ok(ProbeKind::Block, 700),
        ok(ProbeKind::Slot, 80),
        ok(ProbeKind::Health, 100),
    ];
    let b = vec![
        ok(ProbeKind::Health, 100),
        ok(ProbeKind::Slot, 80),
        ok(ProbeKind::Block, 700),
        fail(ProbeKind::Block, 5, "x"),
        ok(ProbeKind::Slot, 120),
    ];
    let sa = summarize(&a);
    let sb = summarize(&b);
    assert_eq!(sa.total, sb.total);
    assert_eq!(sa.succeeded, sb.succeeded);
    assert_eq!(sa.overall_avg_duration, sb.overall_avg_duration);
    assert_eq!(sa.overall_rating, sb.overall_rating);
    assert_eq!(sa.probes, sb.probes);
}

#[test]
fn success_rate_full_only_when_all_succeed() {
    let all = vec![ok(ProbeKind::Balance, 10), ok(ProbeKind::Balance, 20)];
    let p = summarize_probe(&all, ProbeKind::Balance);
    assert!(p.all_succeeded());
    assert!(p.succeeded_count <= p.total);
    let some = vec![ok(ProbeKind::Balance, 10), fail(ProbeKind::Balance, 20, "e")];
    let q = summarize_probe(&some, ProbeKind::Balance);
    assert!(!q.all_succeeded());
    assert!(q.succeeded_count <= q.total);
}

#[test]
fn speed_rating_boundaries() {
    assert_eq!(get_speed_rating(0), SpeedRating::Excellent);
    assert_eq!(get_speed_rating(100), SpeedRating::Excellent);
    assert_eq!(get_speed_rating(101), SpeedRating::Good);
    assert_eq!(get_speed_rating(300), SpeedRating::Good);
    assert_eq!(get_speed_rating(301), SpeedRating::Average);
    assert_eq!(get_speed_rating(600), SpeedRating::Average);
    assert_eq!(get_speed_rating(601), SpeedRating::Slow);
    assert_eq!(get_speed_rating(1000), SpeedRating::Slow);
    assert_eq!(get_speed_rating(1001), SpeedRating::VerySlow);
    assert_eq!(get_speed_rating(1001).label(), "Very Slow");
    assert_eq!(get_speed_rating(1000).color(), "yellow");
    assert_eq!(get_speed_rating(5).color(), "bright_green");
}

#[test]
fn failure_messages_keep_order_and_duplicates() {
    let session = vec![
        fail(ProbeKind::Slot, 1, "a"),
        fail(ProbeKind::Balance, 1, "other"),
        ok(ProbeKind::Slot, 1),
        fail(ProbeKind::Slot, 1, "a"),
        fail(ProbeKind::Slot, 1, "b"),
    ];
    assert_eq!(
        failure_messages(&session, ProbeKind::Slot),
        vec!["a".to_string(), "a".to_string(), "b".to_string()]
    );
    assert!(failure_messages(&session, ProbeKind::Health).is_empty());
}
