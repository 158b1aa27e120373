//! Cooperative cancellation, observed once per loop iteration.

use vstd::prelude::*;

verus! {

/// Whether a loop may start another iteration. The cancellation token
/// is a shared flag owned by the controlling collaborator; both loops
/// poll it between frames, never mid-read or mid-write, so a set token
/// stops the session before any further frame is captured, sent or
/// read, within at most one frame-processing cycle.
pub enum LoopGate {
    Proceed,
    StopCancelled,
}

/// Decide from the polled token whether to run one more iteration. A
/// stop on a set token is a clean termination, not an error.
pub fn poll_cancellation(cancelled: bool) -> (r: LoopGate)
    ensures
        cancelled <==> r is StopCancelled,
        !cancelled <==> r is Proceed,
{
    if cancelled {
        LoopGate::StopCancelled
    } else {
        LoopGate::Proceed
    }
}

} // verus!
