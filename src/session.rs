use vstd::prelude::*;
use crate::outcome::Outcome;
use crate::probe::ProbeKind;

verus! {

/// Drives one probe through a fixed number of invocations, strictly in
/// sequence, keeping every outcome in invocation order. The caller performs
/// each invocation (and the idle pause after it) and hands the result back.
pub struct Runner {
    pub probe: ProbeKind,
    pub iterations: usize,
    pub outcomes: Vec<Outcome>,
}

/// The outcome that stands for an invocation that failed before producing
/// one of its own: no timing, and the error message.
pub open spec fn lost_invocation(probe: ProbeKind, error: String) -> Outcome {
    Outcome { probe, succeeded: false, duration_ms: 0, error_detail: Some(error) }
}

impl Runner {
    /// Never more outcomes than invocations planned.
    pub open spec fn wf(&self) -> bool {
        self.outcomes@.len() <= self.iterations
    }

    /// A runner that has invoked nothing yet.
    pub fn new(probe: ProbeKind, iterations: usize) -> (r: Runner)
        ensures
            r.wf(),
            r.probe == probe,
            r.iterations == iterations,
            r.outcomes@ == Seq::<Outcome>::empty(),
    {
        Runner { probe, iterations, outcomes: Vec::new() }
    }

    /// Whether every planned invocation has been recorded.
    pub fn is_done(&self) -> (r: bool)
        ensures
            r == (self.outcomes@.len() >= self.iterations),
    {
        self.outcomes.len() >= self.iterations
    }

    /// Number of invocations recorded so far (the progress position).
    pub fn completed(&self) -> (r: usize)
        ensures
            r == self.outcomes@.len(),
    {
        self.outcomes.len()
    }

    /// Records the outcome of the next invocation.
    pub fn record(&mut self, outcome: Outcome)
        requires
            old(self).wf(),
            old(self).outcomes@.len() < old(self).iterations,
        ensures
            final(self).wf(),
            final(self).probe == old(self).probe,
            final(self).iterations == old(self).iterations,
            final(self).outcomes@ == old(self).outcomes@.push(outcome),
    {
        self.outcomes.push(outcome);
    }

    /// Records an invocation that failed before producing an outcome of its own.
    pub fn record_error(&mut self, error: String)
        requires
            old(self).wf(),
            old(self).outcomes@.len() < old(self).iterations,
        ensures
            final(self).wf(),
            final(self).probe == old(self).probe,
            final(self).iterations == old(self).iterations,
            final(self).outcomes@ == old(self).outcomes@.push(lost_invocation(old(self).probe, error)),
    {
        let o = Outcome::failure(self.probe, 0, error);
        self.outcomes.push(o);
    }

    /// The outcomes of a finished battery: exactly one per planned invocation.
    pub fn into_outcomes(self) -> (r: Vec<Outcome>)
        requires
            self.wf(),
            self.outcomes@.len() >= self.iterations,
        ensures
            r@ == self.outcomes@,
            r@.len() == self.iterations,
    {
        self.outcomes
    }
}

/// What an independently scheduled unit handed back at the join: the
/// outcomes of its battery, or the reason it terminated abnormally.
pub struct UnitReport {
    pub probe: ProbeKind,
    pub result: Result<Vec<Outcome>, String>,
}

/// The outcomes a unit contributes to the session: its own, or one
/// synthetic failure for the whole unit when it crashed.
pub open spec fn unit_outcomes(u: UnitReport) -> Seq<Outcome> {
    match u.result {
        Ok(v) => v@,
        Err(e) => seq![lost_invocation(u.probe, e)],
    }
}

/// The number of outcomes a unit contributes.
pub open spec fn unit_count(u: UnitReport) -> nat {
    match u.result {
        Ok(v) => v@.len(),
        Err(_) => 1,
    }
}

/// The session built from units, in the order they were joined.
pub open spec fn joined(us: Seq<UnitReport>) -> Seq<Outcome>
    decreases us.len(),
{
    if us.len() == 0 {
        seq![]
    } else {
        unit_outcomes(us[0]) + joined(us.drop_first())
    }
}

/// The total count the units contribute.
pub open spec fn units_count(us: Seq<UnitReport>) -> nat
    decreases us.len(),
{
    if us.len() == 0 {
        0
    } else {
        unit_count(us[0]) + units_count(us.drop_first())
    }
}

/// Builds the session from the units' reports: every outcome of every unit
/// that finished, and one synthetic failure for each unit that crashed.
pub fn join_units(units: Vec<UnitReport>) -> (r: Vec<Outcome>)
    ensures
        r@ == joined(units@),
{
    let mut rest = units;
    let mut out: Vec<Outcome> = Vec::new();
    assert(out@ + joined(rest@) =~= joined(units@));
    while rest.len() > 0
        invariant
            out@ + joined(rest@) == joined(units@),
        decreases rest@.len(),
    {
        let ghost prev = rest@;
        let u = rest.remove(0);
        proof {
            assert(rest@ =~= prev.drop_first());
        }
        let ghost before = out@;
        let UnitReport { probe, result } = u;
        match result {
            Ok(v) => {
                let mut v = v;
                out.append(&mut v);
            },
            Err(e) => {
                out.push(Outcome::failure(probe, 0, e));
            },
        }
        proof {
            assert(out@ =~= before + unit_outcomes(prev[0]));
            assert(out@ + joined(rest@) =~= before + (unit_outcomes(u) + joined(rest@)));
        }
    }
    assert(out@ =~= joined(units@));
    out
}

} // verus!
