use vstd::prelude::*;
use vstd::seq_lib::{to_multiset_contains, to_multiset_len, to_multiset_remove};
use crate::outcome::Outcome;
use crate::probe::ProbeKind;

verus! {

/// The largest duration an outcome can carry.
pub open spec fn max_duration() -> nat {
    0xFFFF_FFFF_FFFF_FFFFnat
}

/// Running statistics over the outcomes a filter selects: how many there
/// were, how many succeeded, and the sum, minimum and maximum of the
/// succeeded durations (minimum and maximum stay zero while none succeeded).
pub struct Tally {
    pub total: nat,
    pub succeeded: nat,
    pub sum: nat,
    pub min: nat,
    pub max: nat,
}

/// Whether an outcome passes the filter: `None` selects the whole session,
/// `Some(p)` only the outcomes of probe `p`.
pub open spec fn selects(o: Outcome, f: Option<ProbeKind>) -> bool {
    f matches Some(p) ==> o.probe == p
}

pub open spec fn empty_tally() -> Tally {
    Tally { total: 0, succeeded: 0, sum: 0, min: 0, max: 0 }
}

/// The tally after one more outcome.
pub open spec fn tally_step(t: Tally, o: Outcome, f: Option<ProbeKind>) -> Tally {
    if !selects(o, f) {
        t
    } else if !o.succeeded {
        Tally { total: t.total + 1, ..t }
    } else {
        let d = o.duration_ms as nat;
        Tally {
            total: t.total + 1,
            succeeded: t.succeeded + 1,
            sum: t.sum + d,
            min: if t.succeeded == 0 || d < t.min { d } else { t.min },
            max: if t.succeeded == 0 || d > t.max { d } else { t.max },
        }
    }
}

/// The tally of a sequence of outcomes.
pub open spec fn tally(s: Seq<Outcome>, f: Option<ProbeKind>) -> Tally
    decreases s.len(),
{
    if s.len() == 0 {
        empty_tally()
    } else {
        tally_step(tally(s.drop_last(), f), s.last(), f)
    }
}

/// Mean of the succeeded durations, rounded down; zero when none succeeded.
pub open spec fn mean_of(t: Tally) -> nat {
    if t.succeeded == 0 {
        0
    } else {
        t.sum / t.succeeded
    }
}

proof fn lemma_step_commutes(t: Tally, x: Outcome, y: Outcome, f: Option<ProbeKind>)
    ensures
        tally_step(tally_step(t, x, f), y, f) == tally_step(tally_step(t, y, f), x, f),
{
}

proof fn lemma_tally_remove(s: Seq<Outcome>, i: int, f: Option<ProbeKind>)
    requires
        0 <= i < s.len(),
    ensures
        tally(s, f) == tally_step(tally(s.remove(i), f), s[i], f),
    decreases s.len(),
{
    if i == s.len() - 1 {
        assert(s.remove(i) =~= s.drop_last());
    } else {
        let d = s.drop_last();
        lemma_tally_remove(d, i, f);
        assert(s.remove(i).drop_last() =~= d.remove(i));
        assert(s.remove(i).last() == s.last());
        lemma_step_commutes(tally(d.remove(i), f), s[i], s.last(), f);
    }
}

/// Tallies depend on the outcomes of a session, not on their order.
pub proof fn lemma_tally_permutation(s1: Seq<Outcome>, s2: Seq<Outcome>, f: Option<ProbeKind>)
    requires
        s1.to_multiset() == s2.to_multiset(),
    ensures
        tally(s1, f) == tally(s2, f),
    decreases s1.len(),
{
    to_multiset_len(s1);
    to_multiset_len(s2);
    if s1.len() > 0 {
        let x = s1.last();
        to_multiset_contains(s1, x);
        to_multiset_contains(s2, x);
        assert(s1.contains(x)) by {
            assert(s1[s1.len() - 1] == x);
        }
        let i = choose|i: int| 0 <= i < s2.len() && s2[i] == x;
        to_multiset_remove(s1, s1.len() - 1);
        to_multiset_remove(s2, i);
        assert(s1.remove(s1.len() - 1) =~= s1.drop_last());
        lemma_tally_permutation(s1.drop_last(), s2.remove(i), f);
        lemma_tally_remove(s2, i, f);
    }
}

/// Counts stay within the session, the sum within what the succeeded
/// durations allow, and the extremes within the duration range.
pub proof fn lemma_tally_bounds(s: Seq<Outcome>, f: Option<ProbeKind>)
    ensures
        tally(s, f).succeeded <= tally(s, f).total,
        tally(s, f).total <= s.len(),
        tally(s, f).sum <= tally(s, f).succeeded * max_duration(),
        tally(s, f).min <= max_duration(),
        tally(s, f).max <= max_duration(),
        tally(s, f).succeeded == 0 ==> tally(s, f).min == 0 && tally(s, f).max == 0
            && tally(s, f).sum == 0,
    decreases s.len(),
{
    if s.len() > 0 {
        lemma_tally_bounds(s.drop_last(), f);
    }
}

/// The mean of a tally fits the duration range.
pub proof fn lemma_mean_bound(s: Seq<Outcome>, f: Option<ProbeKind>)
    ensures
        mean_of(tally(s, f)) <= max_duration(),
{
    lemma_tally_bounds(s, f);
    let t = tally(s, f);
    if t.succeeded > 0 {
        let m = max_duration();
        assert(t.sum / t.succeeded <= m) by (nonlinear_arith)
            requires
                t.sum <= t.succeeded * m,
                t.succeeded > 0,
        ;
    }
}

/// Every selected outcome succeeded exactly when the succeeded count
/// reaches the total.
pub proof fn lemma_all_succeeded(s: Seq<Outcome>, f: Option<ProbeKind>)
    ensures
        tally(s, f).succeeded == tally(s, f).total <==> (forall|i: int|
            0 <= i < s.len() && selects(#[trigger] s[i], f) ==> s[i].succeeded),
    decreases s.len(),
{
    if s.len() > 0 {
        let d = s.drop_last();
        lemma_all_succeeded(d, f);
        lemma_tally_bounds(d, f);
        if tally(s, f).succeeded == tally(s, f).total {
            assert forall|i: int| 0 <= i < s.len() && selects(#[trigger] s[i], f) implies s[i].succeeded by {
                if i < s.len() - 1 {
                    assert(d[i] == s[i]);
                }
            }
        } else {
            if selects(s.last(), f) && s.last().succeeded {
                let j = choose|j: int| 0 <= j < d.len() && selects(#[trigger] d[j], f) && !d[j].succeeded;
                assert(s[j] == d[j]);
            } else if selects(s.last(), f) {
                assert(!s[s.len() - 1].succeeded);
            } else {
                let j = choose|j: int| 0 <= j < d.len() && selects(#[trigger] d[j], f) && !d[j].succeeded;
                assert(s[j] == d[j]);
            }
        }
    }
}

} // verus!
