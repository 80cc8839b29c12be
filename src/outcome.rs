use vstd::prelude::*;
use crate::probe::ProbeKind;

verus! {

/// The timed result of one probe invocation.
#[derive(Clone, Debug)]
pub struct Outcome {
    pub probe: ProbeKind,
    pub succeeded: bool,
    /// Elapsed milliseconds from dispatch to completion (zero when a
    /// precondition failed before the timed call started).
    pub duration_ms: u64,
    /// Present exactly when the invocation failed.
    pub error_detail: Option<String>,
}

/// Prefix of the error detail of a block probe whose slot lookup failed.
pub open spec fn slot_failure_prefix() -> Seq<char> {
    "failed to resolve slot: "@
}

/// How far behind the current slot the block probe reads.
pub const BLOCK_SLOT_MARGIN: u64 = 10;

impl Outcome {
    /// An outcome carries an error detail exactly when it failed.
    pub open spec fn wf(&self) -> bool {
        self.error_detail.is_some() == !self.succeeded
    }

    /// A successful invocation that took `duration_ms`.
    pub fn success(probe: ProbeKind, duration_ms: u64) -> (r: Outcome)
        ensures
            r.wf(),
            r.probe == probe,
            r.succeeded,
            r.duration_ms == duration_ms,
    {
        Outcome { probe, succeeded: true, duration_ms, error_detail: None }
    }

    /// A failed invocation that took `duration_ms`, with its error message.
    pub fn failure(probe: ProbeKind, duration_ms: u64, error: String) -> (r: Outcome)
        ensures
            r.wf(),
            r.probe == probe,
            !r.succeeded,
            r.duration_ms == duration_ms,
            r.error_detail == Some(error),
    {
        Outcome { probe, succeeded: false, duration_ms, error_detail: Some(error) }
    }

    /// The outcome of one timed call: success when the call returned a value,
    /// failure with the call's error message otherwise.
    pub fn from_call(probe: ProbeKind, call: Result<(), String>, duration_ms: u64) -> (r: Outcome)
        ensures
            r.wf(),
            r.probe == probe,
            r.duration_ms == duration_ms,
            r.succeeded == call.is_ok(),
            call matches Err(e) ==> r.error_detail == Some(e),
    {
        match call {
            Ok(()) => Outcome::success(probe, duration_ms),
            Err(e) => Outcome::failure(probe, duration_ms, e),
        }
    }

    /// A block probe whose untimed slot lookup failed: no timing, and the
    /// lookup's error behind a distinguishing prefix.
    pub fn slot_resolution_failed(error: &str) -> (r: Outcome)
        ensures
            r.wf(),
            r.probe == ProbeKind::Block,
            !r.succeeded,
            r.duration_ms == 0,
            r.error_detail matches Some(d) && d@ == slot_failure_prefix() + error@,
    {
        let msg = String::from_str("failed to resolve slot: ").concat(error);
        Outcome::failure(ProbeKind::Block, 0, msg)
    }
}

/// The slot the block probe fetches: `current_slot - 10`, clamped at zero.
pub fn block_target_slot(current_slot: u64) -> (r: u64)
    ensures
        r == if current_slot >= BLOCK_SLOT_MARGIN { current_slot - BLOCK_SLOT_MARGIN } else { 0 },
{
    current_slot.saturating_sub(BLOCK_SLOT_MARGIN)
}

} // verus!
