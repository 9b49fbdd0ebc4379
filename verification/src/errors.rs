//! Caller usage errors: requests that contradict the tracer's current
//! state.  They are fatal to the offending request only — the dispatcher
//! reports them and drops the request instead of faulting the host VM.

use vstd::prelude::*;

verus! {

/// A request the tracer refuses because of its current state.
#[derive(Clone, Copy, Debug, PartialEq, Eq, Structural)]
pub enum UsageError {
    /// `expectRevert` while an earlier expectation is still armed.
    ExpectRevertAlreadyArmed,
    /// A counted `expectCall` for a calldata prefix already registered.
    CountedCallAlreadyRegistered,
    /// An uncounted `expectCall` on top of a counted registration.
    CannotOverwriteCountedCall,
    /// An uncounted `expectCall` whose required count cannot grow further.
    ExpectedCallCountOverflow,
    /// `startPrank` while a broadcast is active.
    PrankDuringBroadcast,
    /// `startBroadcast` while a prank is active.
    BroadcastDuringPrank,
    /// A fork operation while a broadcast is active.
    ForkDuringBroadcast,
}

} // verus!
