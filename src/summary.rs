use vstd::prelude::*;
use crate::outcome::Outcome;
use crate::probe::{probe_at, ProbeKind, PROBE_COUNT};
use crate::rating::{get_speed_rating, rate_band, rate_band_of, rating_of, RateBand, SpeedRating};
use crate::stats::{
    lemma_mean_bound, lemma_tally_bounds, max_duration, mean_of, tally, Tally,
};

verus! {

/// Aggregated statistics of one probe over a session.
#[derive(Clone, Copy, Debug, PartialEq, Eq, Structural)]
pub struct ProbeSummary {
    pub probe: ProbeKind,
    pub total: usize,
    pub succeeded_count: usize,
    /// Mean of the succeeded durations, rounded down; zero without successes.
    pub avg_duration: u64,
    /// Zero without successes.
    pub min_duration: u64,
    /// Zero without successes.
    pub max_duration: u64,
    pub speed_rating: SpeedRating,
}

/// The summary of probe `p` over session `s`.
pub open spec fn probe_summary_of(s: Seq<Outcome>, p: ProbeKind) -> ProbeSummary {
    let t = tally(s, Some(p));
    ProbeSummary {
        probe: p,
        total: t.total as usize,
        succeeded_count: t.succeeded as usize,
        avg_duration: mean_of(t) as u64,
        min_duration: t.min as u64,
        max_duration: t.max as u64,
        speed_rating: rating_of(mean_of(t)),
    }
}

/// `a` ranks strictly ahead of `b`: it has timing data and `b` has none,
/// or both have and `a` is faster on average.
pub open spec fn ranks_before(a: ProbeSummary, b: ProbeSummary) -> bool {
    a.succeeded_count > 0 && (b.succeeded_count == 0 || a.avg_duration < b.avg_duration)
}

/// Inserts `x` after every entry that `x` does not rank strictly ahead of.
pub open spec fn insert_ranked(q: Seq<ProbeSummary>, x: ProbeSummary) -> Seq<ProbeSummary>
    decreases q.len(),
{
    if q.len() == 0 {
        seq![x]
    } else if ranks_before(x, q[0]) {
        seq![x] + q
    } else {
        seq![q[0]] + insert_ranked(q.drop_first(), x)
    }
}

/// Ranked summaries of the first `n` registry probes that occur in `s`.
pub open spec fn ranked_upto(s: Seq<Outcome>, n: nat) -> Seq<ProbeSummary>
    decreases n,
{
    if n == 0 {
        seq![]
    } else {
        let prev = ranked_upto(s, (n - 1) as nat);
        let ps = probe_summary_of(s, probe_at(n - 1));
        if ps.total > 0 {
            insert_ranked(prev, ps)
        } else {
            prev
        }
    }
}

/// Summaries of the probes that occur in `s`, by ascending average duration,
/// probes without successes last, ties in registry order.
pub open spec fn ranked(s: Seq<Outcome>) -> Seq<ProbeSummary> {
    ranked_upto(s, PROBE_COUNT as nat)
}

/// No entry ranks strictly ahead of an earlier one.
pub open spec fn is_ranked(q: Seq<ProbeSummary>) -> bool {
    forall|i: int, j: int| 0 <= i < j < q.len() ==> !ranks_before(#[trigger] q[j], #[trigger] q[i])
}

/// What a session summary states.
pub struct SummaryModel {
    pub total: nat,
    pub succeeded: nat,
    pub overall_avg_duration: nat,
    pub overall_rating: SpeedRating,
    pub probes: Seq<ProbeSummary>,
}

/// The summary of a session: counts and mean over the whole pool of
/// outcomes, and the ranked per-probe summaries.
pub open spec fn summary_of(s: Seq<Outcome>) -> SummaryModel {
    let t = tally(s, None);
    SummaryModel {
        total: s.len(),
        succeeded: t.succeeded,
        overall_avg_duration: mean_of(t),
        overall_rating: rating_of(mean_of(t)),
        probes: ranked(s),
    }
}

/// Aggregated statistics of a whole session.
#[derive(Clone, Debug)]
pub struct SessionSummary {
    pub total: usize,
    pub succeeded: usize,
    /// Flat mean over every succeeded outcome of the session, rounded down.
    pub overall_avg_duration: u64,
    pub overall_rating: SpeedRating,
    /// One entry per probe that occurs in the session, ranked.
    pub probes: Vec<ProbeSummary>,
}

impl View for SessionSummary {
    type V = SummaryModel;

    open spec fn view(&self) -> SummaryModel {
        SummaryModel {
            total: self.total as nat,
            succeeded: self.succeeded as nat,
            overall_avg_duration: self.overall_avg_duration as nat,
            overall_rating: self.overall_rating,
            probes: self.probes@,
        }
    }
}

struct TallyExec {
    total: usize,
    succeeded: usize,
    sum: u128,
    min: u64,
    max: u64,
}

impl View for TallyExec {
    type V = Tally;

    closed spec fn view(&self) -> Tally {
        Tally {
            total: self.total as nat,
            succeeded: self.succeeded as nat,
            sum: self.sum as nat,
            min: self.min as nat,
            max: self.max as nat,
        }
    }
}

fn tally_session(session: &Vec<Outcome>, f: Option<ProbeKind>) -> (r: TallyExec)
    ensures
        r@ == tally(session@, f),
{
    let mut t = TallyExec { total: 0, succeeded: 0, sum: 0, min: 0, max: 0 };
    let mut i: usize = 0;
    assert(session@.take(0) =~= Seq::<Outcome>::empty());
    while i < session.len()
        invariant
            i <= session@.len(),
            t@ == tally(session@.take(i as int), f),
        decreases session@.len() - i,
    {
        let o = &session[i];
        proof {
            let s = session@.take(i as int);
            assert(session@.take(i + 1).drop_last() =~= s);
            assert(session@.take(i + 1).last() == session@[i as int]);
            lemma_tally_bounds(s, f);
        }
        let hit = match f {
            Some(p) => o.probe == p,
            None => true,
        };
        if hit {
            t.total = t.total + 1;
            if o.succeeded {
                let d = o.duration_ms;
                t.min = if t.succeeded == 0 || d < t.min { d } else { t.min };
                t.max = if t.succeeded == 0 || d > t.max { d } else { t.max };
                proof {
                    assert(t.sum + d <= (t.succeeded + 1) * max_duration());
                }
                t.sum = t.sum + d as u128;
                t.succeeded = t.succeeded + 1;
            }
        }
        i = i + 1;
    }
    assert(session@.take(i as int) =~= session@);
    t
}

/// The mean of an exact tally.
fn mean(t: &TallyExec, Ghost(s): Ghost<Seq<Outcome>>, Ghost(f): Ghost<Option<ProbeKind>>) -> (r: u64)
    requires
        t@ == tally(s, f),
    ensures
        r == mean_of(tally(s, f)),
{
    proof {
        lemma_mean_bound(s, f);
    }
    if t.succeeded == 0 {
        0
    } else {
        (t.sum / (t.succeeded as u128)) as u64
    }
}

/// Summarizes the outcomes of probe `probe` in `session`.
pub fn summarize_probe(session: &Vec<Outcome>, probe: ProbeKind) -> (r: ProbeSummary)
    ensures
        r == probe_summary_of(session@, probe),
{
    let t = tally_session(session, Some(probe));
    proof {
        lemma_tally_bounds(session@, Some(probe));
    }
    let avg = mean(&t, Ghost(session@), Ghost(Some(probe)));
    ProbeSummary {
        probe,
        total: t.total,
        succeeded_count: t.succeeded,
        avg_duration: avg,
        min_duration: t.min,
        max_duration: t.max,
        speed_rating: get_speed_rating(avg),
    }
}

pub(crate) proof fn lemma_insert_ranked_at(q: Seq<ProbeSummary>, x: ProbeSummary, j: int)
    requires
        0 <= j <= q.len(),
        forall|k: int| 0 <= k < j ==> !ranks_before(x, #[trigger] q[k]),
        j == q.len() || ranks_before(x, q[j]),
    ensures
        insert_ranked(q, x) == q.insert(j, x),
    decreases q.len(),
{
    if q.len() == 0 {
        assert(q.insert(j, x) =~= seq![x]);
    } else if j == 0 {
        assert(q.insert(j, x) =~= seq![x] + q);
    } else {
        let d = q.drop_first();
        assert forall|k: int| 0 <= k < j - 1 implies !ranks_before(x, #[trigger] d[k]) by {
            assert(d[k] == q[k + 1]);
        }
        assert(!ranks_before(x, q[0]));
        if j < q.len() {
            assert(d[j - 1] == q[j]);
        }
        lemma_insert_ranked_at(d, x, j - 1);
        assert(q.insert(j, x) =~= seq![q[0]] + d.insert(j - 1, x));
    }
}

/// Inserting at the first entry that `x` ranks ahead of keeps a ranked list ranked.
pub(crate) proof fn lemma_insert_keeps_ranked(q: Seq<ProbeSummary>, x: ProbeSummary, j: int)
    requires
        is_ranked(q),
        0 <= j <= q.len(),
        forall|k: int| 0 <= k < j ==> !ranks_before(x, #[trigger] q[k]),
        j == q.len() || ranks_before(x, q[j]),
    ensures
        is_ranked(q.insert(j, x)),
{
    let r = q.insert(j, x);
    assert forall|a: int, b: int| 0 <= a < b < r.len() implies !ranks_before(
        #[trigger] r[b],
        #[trigger] r[a],
    ) by {
        if b < j {
            assert(r[a] == q[a] && r[b] == q[b]);
        } else if b == j {
            assert(r[a] == q[a]);
        } else if a == j {
            assert(r[b] == q[b - 1]);
            if b - 1 > j {
                assert(!ranks_before(q[b - 1], q[j]));
            }
        } else if a < j {
            assert(r[a] == q[a] && r[b] == q[b - 1]);
        } else {
            assert(r[a] == q[a - 1] && r[b] == q[b - 1]);
        }
    }
}

/// Ranks the summaries of the probes that occur in `session`.
fn rank_probes(session: &Vec<Outcome>) -> (r: Vec<ProbeSummary>)
    ensures
        r@ == ranked(session@),
        is_ranked(r@),
{
    let mut out: Vec<ProbeSummary> = Vec::new();
    let mut i: usize = 0;
    while i < PROBE_COUNT
        invariant
            i <= PROBE_COUNT,
            out@ == ranked_upto(session@, i as nat),
            is_ranked(out@),
        decreases PROBE_COUNT - i,
    {
        let ps = summarize_probe(session, ProbeKind::from_index(i));
        if ps.total > 0 {
            let mut j: usize = 0;
            while j < out.len() && !(ps.succeeded_count > 0 && (out[j].succeeded_count == 0
                || ps.avg_duration < out[j].avg_duration))
                invariant
                    j <= out@.len(),
                    forall|k: int| 0 <= k < j ==> !ranks_before(ps, #[trigger] out@[k]),
                decreases out@.len() - j,
            {
                j = j + 1;
            }
            proof {
                lemma_insert_ranked_at(out@, ps, j as int);
                lemma_insert_keeps_ranked(out@, ps, j as int);
            }
            out.insert(j, ps);
        }
        i = i + 1;
    }
    out
}

/// Aggregates a session: pool-wide counts and mean, and the ranked
/// per-probe summaries. The result depends only on the session's content.
pub fn summarize(session: &Vec<Outcome>) -> (r: SessionSummary)
    ensures
        r@ == summary_of(session@),
{
    let t = tally_session(session, None);
    proof {
        lemma_tally_bounds(session@, None);
        assert(tally(session@, None).total == session@.len()) by {
            lemma_total_all(session@);
        }
    }
    let avg = mean(&t, Ghost(session@), Ghost(None));
    let probes = rank_probes(session);
    SessionSummary {
        total: session.len(),
        succeeded: t.succeeded,
        overall_avg_duration: avg,
        overall_rating: get_speed_rating(avg),
        probes,
    }
}

/// Without a filter every outcome is counted.
proof fn lemma_total_all(s: Seq<Outcome>)
    ensures
        tally(s, None).total == s.len(),
    decreases s.len(),
{
    if s.len() > 0 {
        lemma_total_all(s.drop_last());
    }
}

impl ProbeSummary {
    /// Whether every outcome of the probe succeeded.
    pub fn all_succeeded(&self) -> (r: bool)
        ensures
            r == (self.succeeded_count == self.total),
    {
        self.succeeded_count == self.total
    }

    /// Color band of the probe's success rate.
    pub fn rate_band(&self) -> (r: RateBand)
        requires
            self.succeeded_count <= self.total,
        ensures
            r == rate_band_of(self.succeeded_count as nat, self.total as nat),
    {
        rate_band(self.succeeded_count, self.total)
    }
}

impl SessionSummary {
    /// Color band of the session's overall success rate.
    pub fn rate_band(&self) -> (r: RateBand)
        requires
            self.succeeded <= self.total,
        ensures
            r == rate_band_of(self.succeeded as nat, self.total as nat),
    {
        rate_band(self.succeeded, self.total)
    }
}

/// The error details of the failed outcomes of probe `p` in `s`, in session
/// order, each as it was recorded (nothing is deduplicated).
pub open spec fn failures_of(s: Seq<Outcome>, p: ProbeKind) -> Seq<String>
    decreases s.len(),
{
    if s.len() == 0 {
        seq![]
    } else {
        let prev = failures_of(s.drop_last(), p);
        let o = s.last();
        if o.probe == p && !o.succeeded && o.error_detail is Some {
            prev.push(o.error_detail->Some_0)
        } else {
            prev
        }
    }
}

/// Lists the error details of the failed outcomes of one probe.
pub fn failure_messages(session: &Vec<Outcome>, probe: ProbeKind) -> (r: Vec<String>)
    ensures
        r@ == failures_of(session@, probe),
{
    let mut out: Vec<String> = Vec::new();
    let mut i: usize = 0;
    assert(session@.take(0) =~= Seq::<Outcome>::empty());
    while i < session.len()
        invariant
            i <= session@.len(),
            out@ == failures_of(session@.take(i as int), probe),
        decreases session@.len() - i,
    {
        let o = &session[i];
        proof {
            assert(session@.take(i + 1).drop_last() =~= session@.take(i as int));
            assert(session@.take(i + 1).last() == session@[i as int]);
        }
        if o.probe == probe && !o.succeeded {
            match &o.error_detail {
                Some(e) => {
                    out.push(e.clone());
                },
                None => {},
            }
        }
        i = i + 1;
    }
    assert(session@.take(i as int) =~= session@);
    out
}

} // verus!
