use rpc_checker::{
    block_target_slot, health_outcome, health_verdict, join_units, planned_invocations,
    rate_band, registry, Outcome, ProbeKind, RateBand, Runner, UnitReport, PROBE_COUNT,
};

fn battery(p: ProbeKind, n: usize) -> Vec<Outcome> {
    let mut r = Runner::new(p, n);
    while !r.is_done() {
        r.record(Outcome::success(p, 10));
    }
    r.into_outcomes()
}

#[test]
fn runner_records_exactly_iterations() {
    let mut r = Runner::new(ProbeKind::Slot, 3);
    assert!(!r.is_done());
    r.record(Outcome::success(ProbeKind::Slot, 5));
    r.record_error("task failed".to_string());
    assert_eq!(r.completed(), 2);
    assert!(!r.is_done());
    r.record(Outcome::failure(ProbeKind::Slot, 7, "rpc".to_string()));
    assert!(r.is_done());
    let out = r.into_outcomes();
    assert_eq!(out.len(), 3);
    assert!(out[0].succeeded);
    assert!(!out[1].succeeded);
    assert_eq!(out[1].duration_ms, 0);
    assert_eq!(out[1].error_detail.as_deref(), Some("task failed"));
    assert_eq!(out[2].duration_ms, 7);
}

#[test]
fn zero_iterations_is_done_at_once() {
    let r = Runner::new(ProbeKind::Health, 0);
    assert!(r.is_done());
    assert!(r.into_outcomes().is_empty());
}

#[test]
fn crashed_unit_collapses_to_one_failure() {
    let units = vec![
        UnitReport { probe: ProbeKind::Slot, result: Ok(battery(ProbeKind::Slot, 3)) },
        UnitReport { probe: ProbeKind::Block, result: Err("task panicked".to_string()) },
        UnitReport { probe: ProbeKind::Health, result: Ok(battery(ProbeKind::Health, 3)) },
    ];
    let session = join_units(units);
    assert_eq!(session.len(), 7);
    assert_eq!(session.iter().filter(|o| o.probe == ProbeKind::Slot).count(), 3);
    assert_eq!(session.iter().filter(|o| o.probe == ProbeKind::Health).count(), 3);
    let crashed: Vec<&Outcome> = session.iter().filter(|o| o.probe == ProbeKind::Block).collect();
    assert_eq!(crashed.len(), 1);
    assert!(!crashed[0].succeeded);
    assert_eq!(crashed[0].duration_ms, 0);
    assert_eq!(crashed[0].error_detail.as_deref(), Some("task panicked"));
}

#[test]
fn sequential_session_length_is_sum_of_batteries() {
    let units: Vec<UnitReport> = registry()
        .into_iter()
        .map(|p| UnitReport { probe: p, result: Ok(battery(p, 4)) })
        .collect();
    let session = join_units(units);
    assert_eq!(session.len(), PROBE_COUNT * 4);
    assert_eq!(session[0].probe, ProbeKind::LatestBlockhash);
    assert_eq!(session[27].probe, ProbeKind::Health);
}

#[test]
fn registry_order_and_names() {
    let names: Vec<&str> = registry().iter().map(|p| p.name()).collect();
    assert_eq!(
        names,
        vec![
            "getLatestBlockhash",
            "getSlot",
            "getBalance",
            "getAccountInfo",
            "getBlock",
            "getTokenAccountsByOwner",
            "getHealth"
        ]
    );
    for (i, p) in registry().into_iter().enumerate() {
        assert_eq!(p.index(), i);
        assert_eq!(ProbeKind::from_index(i), p);
    }
}

#[test]
fn outcome_from_call() {
    let a = Outcome::from_call(ProbeKind::Balance, Ok(()), 42);
    assert!(a.succeeded);
    assert_eq!(a.duration_ms, 42);
    assert!(a.error_detail.is_none());
    let b = Outcome::from_call(ProbeKind::Balance, Err("dns".to_string()), 9);
    assert!(!b.succeeded);
    assert_eq!(b.duration_ms, 9);
    assert_eq!(b.error_detail.as_deref(), Some("dns"));
}

#[test]
fn slot_resolution_failure_is_untimed() {
    let o = Outcome::slot_resolution_failed("connection reset");
    assert_eq!(o.probe, ProbeKind::Block);
    assert!(!o.succeeded);
    assert_eq!(o.duration_ms, 0);
    assert_eq!(o.error_detail.as_deref(), Some("failed to resolve slot: connection reset"));
}

#[test]
fn block_slot_margin_clamps_at_zero() {
    assert_eq!(block_target_slot(1000), 990);
    assert_eq!(block_target_slot(10), 0);
    assert_eq!(block_target_slot(3), 0);
    assert_eq!(block_target_slot(0), 0);
}

#[test]
fn healthy_body_succeeds() {
    let o = health_outcome(Ok(r#"{"jsonrpc":"2.0","result":"ok","id":1}"#.to_string()), 55);
    assert_eq!(o.probe, ProbeKind::Health);
    assert!(o.succeeded);
    assert_eq!(o.duration_ms, 55);
    assert!(o.error_detail.is_none());
}

#[test]
fn unhealthy_body_echoes_payload() {
    let body = r#"{"jsonrpc":"2.0","error":{"code":-32005,"message":"Node is behind"},"id":1}"#;
    let o = health_outcome(Ok(body.to_string()), 70);
    assert!(!o.succeeded);
    assert_eq!(o.duration_ms, 70);
    assert_eq!(o.error_detail, Some(format!("unexpected response: {}", body)));
    let other = r#"{"result":"behind"}"#;
    let p = health_outcome(Ok(other.to_string()), 1);
    assert!(!p.succeeded);
    assert_eq!(p.error_detail, Some(format!("unexpected response: {}", other)));
}

#[test]
fn non_json_body_fails_with_parser_message() {
    let o = health_outcome(Ok("ok".to_string()), 12);
    assert!(!o.succeeded);
    assert_eq!(o.duration_ms, 12);
    let msg = o.error_detail.unwrap();
    assert!(!msg.is_empty());
    assert!(!msg.starts_with("unexpected response"));
}

#[test]
fn transport_failure_keeps_message() {
    let o = health_outcome(Err("connection refused".to_string()), 3);
    assert!(!o.succeeded);
    assert_eq!(o.error_detail.as_deref(), Some("connection refused"));
}

#[test]
fn health_verdict_cases() {
    assert!(health_verdict(Ok(Some("ok".to_string())), "b", 1).succeeded);
    let v = health_verdict(Ok(Some("OK".to_string())), "b", 1);
    assert_eq!(v.error_detail.as_deref(), Some("unexpected response: b"));
    let n = health_verdict(Ok(None), "{}", 2);
    assert_eq!(n.error_detail.as_deref(), Some("unexpected response: {}"));
    let e = health_verdict(Err("eof".to_string()), "", 2);
    assert_eq!(e.error_detail.as_deref(), Some("eof"));
    assert_eq!(e.duration_ms, 2);
}

#[test]
fn planned_invocations_counts_every_probe() {
    assert_eq!(planned_invocations(3), Some(21));
    assert_eq!(planned_invocations(0), Some(0));
    assert_eq!(planned_invocations(usize::MAX), None);
}

#[test]
fn rate_bands() {
    assert_eq!(rate_band(5, 5), RateBand::Full);
    assert_eq!(rate_band(4, 5), RateBand::High);
    assert_eq!(rate_band(1, 2), RateBand::Medium);
    assert_eq!(rate_band(1, 3), RateBand::Low);
    assert_eq!(rate_band(0, 0), RateBand::Full);
}
