//! Persistent contexts: caller impersonation (prank), broadcast recording,
//! and a pending immediate return.  A prank and a broadcast are mutually
//! exclusive; each stays active until explicitly stopped or until the call
//! stack unwinds past its activation depth.

use vstd::prelude::*;

use crate::addrs::Addr;

verus! {

/// An active prank: the impersonated sender, and the origin value to
/// restore when an origin override was requested.
#[derive(Clone, Copy, Debug)]
pub struct StartPrankOpts {
    /// The sender every outside call observes while the prank is active.
    pub sender: Addr,
    /// The pre-prank origin to restore at `stopPrank`, when the prank
    /// also overrode the transaction origin.
    pub origin: Option<Addr>,
}

/// An active broadcast: the origins involved and the depth it watches.
#[derive(Clone, Copy, Debug)]
pub struct BroadcastOpts {
    /// The origin stored before the broadcast started.
    pub original_origin: Addr,
    /// The caller that started the broadcast.
    pub original_caller: Addr,
    /// The origin transactions are sent from.
    pub new_origin: Addr,
    /// The call-stack depth at activation.
    pub depth: usize,
}

/// A pending immediate return, armed by a matched mock call.
#[derive(Debug)]
pub struct ImmediateReturnOpts {
    /// The program counter at which the return fires.
    pub trigger_pc: u16,
    /// The preset return bytes.
    pub return_data: Vec<u8>,
    /// The continuation program counter.
    pub continue_pc: u16,
    /// The frame's base memory page.
    pub base_memory_page: u32,
    /// The frame's code page.
    pub code_page: u32,
}

/// The persistent contexts carried across cycles.
#[derive(Debug)]
pub struct PermanentContext {
    /// The active prank, if any.
    pub start_prank: Option<StartPrankOpts>,
    /// The active broadcast, if any.
    pub broadcast: Option<BroadcastOpts>,
    /// The pending immediate return, if any.
    pub immediate_return: Option<ImmediateReturnOpts>,
}

impl PermanentContext {
    /// No context active.
    pub fn idle() -> (r: PermanentContext)
        ensures
            r.start_prank is None,
            r.broadcast is None,
            r.immediate_return is None,
    {
        PermanentContext { start_prank: None, broadcast: None, immediate_return: None }
    }
}

} // verus!
