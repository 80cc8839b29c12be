use vstd::prelude::*;
use crate::outcome::Outcome;
use crate::probe::{probe_at, ProbeKind, PROBE_COUNT};
use crate::session::{joined, unit_count, units_count, UnitReport};
use crate::stats::{
    lemma_all_succeeded, lemma_tally_bounds, lemma_tally_permutation, selects, tally,
};
use crate::summary::{
    is_ranked, lemma_insert_keeps_ranked, lemma_insert_ranked_at,
    probe_summary_of, ranked, ranked_upto, ranks_before, summary_of,
};

verus! {

/// No outcome is lost when units are joined: the session holds exactly as
/// many outcomes as the units contribute, a crashed unit counting once.
pub proof fn lemma_session_length(us: Seq<UnitReport>)
    ensures
        joined(us).len() == units_count(us),
    decreases us.len(),
{
    if us.len() > 0 {
        lemma_session_length(us.drop_first());
    }
}

/// When every unit finished its battery of `n` invocations, the session
/// holds `n` outcomes per unit.
pub proof fn lemma_full_batteries(us: Seq<UnitReport>, n: nat)
    requires
        forall|i: int| 0 <= i < us.len() ==> unit_count(#[trigger] us[i]) == n && us[i].result is Ok,
    ensures
        joined(us).len() == us.len() * n,
    decreases us.len(),
{
    lemma_session_length(us);
    if us.len() > 0 {
        assert forall|i: int| 0 <= i < us.drop_first().len() implies unit_count(#[trigger] us.drop_first()[i]) == n
            && us.drop_first()[i].result is Ok by {
            assert(us.drop_first()[i] == us[i + 1]);
        }
        lemma_full_batteries(us.drop_first(), n);
        assert(unit_count(us[0]) == n);
        assert(us.len() * n == n + (us.len() - 1) * n) by (nonlinear_arith);
    }
}

/// A probe's success rate lies in `[0, 1]`, and is 1 exactly when every
/// outcome of that probe succeeded.
pub proof fn lemma_success_rate(s: Seq<Outcome>, p: ProbeKind)
    requires
        s.len() <= usize::MAX,
    ensures
        probe_summary_of(s, p).succeeded_count <= probe_summary_of(s, p).total,
        probe_summary_of(s, p).succeeded_count == probe_summary_of(s, p).total <==> (forall|i: int|
            0 <= i < s.len() && (#[trigger] s[i]).probe == p ==> s[i].succeeded),
{
    lemma_tally_bounds(s, Some(p));
    lemma_all_succeeded(s, Some(p));
    assert((forall|i: int| 0 <= i < s.len() && (#[trigger] s[i]).probe == p ==> s[i].succeeded)
        == (forall|i: int| 0 <= i < s.len() && selects(#[trigger] s[i], Some(p)) ==> s[i].succeeded));
}

/// The position at which `insert_ranked` places `x`.
spec fn ahead_index(q: Seq<crate::summary::ProbeSummary>, x: crate::summary::ProbeSummary) -> int
    decreases q.len(),
{
    if q.len() == 0 {
        0
    } else if ranks_before(x, q[0]) {
        0
    } else {
        1 + ahead_index(q.drop_first(), x)
    }
}

proof fn lemma_ahead_index(q: Seq<crate::summary::ProbeSummary>, x: crate::summary::ProbeSummary)
    ensures
        0 <= ahead_index(q, x) <= q.len(),
        forall|k: int| 0 <= k < ahead_index(q, x) ==> !ranks_before(x, #[trigger] q[k]),
        ahead_index(q, x) == q.len() || ranks_before(x, q[ahead_index(q, x)]),
    decreases q.len(),
{
    if q.len() > 0 && !ranks_before(x, q[0]) {
        let d = q.drop_first();
        lemma_ahead_index(d, x);
        assert forall|k: int| 0 <= k < ahead_index(q, x) implies !ranks_before(x, #[trigger] q[k]) by {
            if k > 0 {
                assert(q[k] == d[k - 1]);
            }
        }
        if ahead_index(d, x) < d.len() {
            assert(q[ahead_index(q, x)] == d[ahead_index(d, x)]);
        }
    }
}

proof fn lemma_ranked_upto_is_ranked(s: Seq<Outcome>, n: nat)
    ensures
        is_ranked(ranked_upto(s, n)),
    decreases n,
{
    if n > 0 {
        let prev = ranked_upto(s, (n - 1) as nat);
        lemma_ranked_upto_is_ranked(s, (n - 1) as nat);
        let ps = probe_summary_of(s, probe_at(n - 1));
        if ps.total > 0 {
            lemma_ahead_index(prev, ps);
            lemma_insert_ranked_at(prev, ps, ahead_index(prev, ps));
            lemma_insert_keeps_ranked(prev, ps, ahead_index(prev, ps));
        }
    }
}

/// A probe without successes has no timing data (average, minimum and
/// maximum are zero) and ranks after every probe that has some.
pub proof fn lemma_no_success_ranks_last(s: Seq<Outcome>)
    requires
        s.len() <= usize::MAX,
    ensures
        forall|i: int| 0 <= i < ranked(s).len() && (#[trigger] ranked(s)[i]).succeeded_count == 0 ==> (
            ranked(s)[i].avg_duration == 0 && ranked(s)[i].min_duration == 0
                && ranked(s)[i].max_duration == 0),
        forall|i: int, j: int|
            0 <= i < j < ranked(s).len() && (#[trigger] ranked(s)[i]).succeeded_count == 0
                ==> (#[trigger] ranked(s)[j]).succeeded_count == 0,
{
    lemma_ranked_upto_is_ranked(s, PROBE_COUNT as nat);
    lemma_ranked_members(s, PROBE_COUNT as nat);
    assert forall|i: int| 0 <= i < ranked(s).len() && (#[trigger] ranked(s)[i]).succeeded_count
        == 0 implies ranked(s)[i].avg_duration == 0 && ranked(s)[i].min_duration == 0
        && ranked(s)[i].max_duration == 0 by {
        lemma_tally_bounds(s, Some(ranked(s)[i].probe));
    }
}

/// Every entry of a ranking is the summary of its probe.
proof fn lemma_ranked_members(s: Seq<Outcome>, n: nat)
    ensures
        forall|i: int| 0 <= i < ranked_upto(s, n).len() ==> #[trigger] ranked_upto(s, n)[i]
            == probe_summary_of(s, ranked_upto(s, n)[i].probe),
    decreases n,
{
    if n > 0 {
        let prev = ranked_upto(s, (n - 1) as nat);
        lemma_ranked_members(s, (n - 1) as nat);
        let ps = probe_summary_of(s, probe_at(n - 1));
        if ps.total > 0 {
            lemma_ahead_index(prev, ps);
            lemma_insert_ranked_at(prev, ps, ahead_index(prev, ps));
            let r = prev.insert(ahead_index(prev, ps), ps);
            assert forall|i: int| 0 <= i < r.len() implies #[trigger] r[i] == probe_summary_of(
                s,
                r[i].probe,
            ) by {
                let j = ahead_index(prev, ps);
                if i < j {
                    assert(r[i] == prev[i]);
                } else if i > j {
                    assert(r[i] == prev[i - 1]);
                }
            }
        }
    }
}

proof fn lemma_ranked_upto_permutation(s1: Seq<Outcome>, s2: Seq<Outcome>, n: nat)
    requires
        s1.to_multiset() == s2.to_multiset(),
    ensures
        ranked_upto(s1, n) == ranked_upto(s2, n),
    decreases n,
{
    if n > 0 {
        lemma_ranked_upto_permutation(s1, s2, (n - 1) as nat);
        lemma_tally_permutation(s1, s2, Some(probe_at(n - 1)));
    }
}

/// Aggregation ignores the order of the outcomes: any reordering of a
/// session has the same summary.
pub proof fn lemma_summary_order_independent(s1: Seq<Outcome>, s2: Seq<Outcome>)
    requires
        s1.to_multiset() == s2.to_multiset(),
    ensures
        summary_of(s1) == summary_of(s2),
{
    vstd::seq_lib::to_multiset_len(s1);
    vstd::seq_lib::to_multiset_len(s2);
    lemma_tally_permutation(s1, s2, None);
    lemma_ranked_upto_permutation(s1, s2, PROBE_COUNT as nat);
}

/// Sum over the seven probes of a per-probe quantity.
pub open spec fn over_probes(g: spec_fn(ProbeKind) -> nat) -> nat {
    g(ProbeKind::LatestBlockhash) + g(ProbeKind::Slot) + g(ProbeKind::Balance) + g(
        ProbeKind::AccountInfo,
    ) + g(ProbeKind::Block) + g(ProbeKind::TokenAccountsByOwner) + g(ProbeKind::Health)
}

/// The session's overall figures pool every outcome: the succeeded count and
/// the duration sum behind the overall mean are the sums of the per-probe
/// ones, so the overall mean weighs each succeeded outcome once rather than
/// averaging the per-probe means.
pub proof fn lemma_overall_pools_probes(s: Seq<Outcome>)
    ensures
        tally(s, None).succeeded == over_probes(|p: ProbeKind| tally(s, Some(p)).succeeded),
        tally(s, None).sum == over_probes(|p: ProbeKind| tally(s, Some(p)).sum),
        summary_of(s).overall_avg_duration == crate::stats::mean_of(tally(s, None)),
    decreases s.len(),
{
    if s.len() > 0 {
        lemma_overall_pools_probes(s.drop_last());
    }
}

} // verus!
