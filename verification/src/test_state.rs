//! The outer test function's lifecycle, derived purely from call-stack
//! depth transitions in the instruction stream.

use vstd::prelude::*;

use crate::addrs::{test_address, Addr};

verus! {

/// Whether the outer test function has started, is running, or returned.
#[derive(Clone, Copy, Debug, PartialEq, Eq, Structural)]
pub enum FoundryTestState {
    /// The test function has not been entered yet.
    NotStarted,
    /// The test function is running; entered at this call depth.
    Running {
        /// The call-stack depth observed when the test call started.
        call_depth: usize,
    },
    /// The test function has returned.
    Finished,
}

/// The lifecycle transition for one observed instruction: an outside call
/// into the test address starts the test; a return that pops back to the
/// entry depth finishes it (the stack is already popped when observed, so
/// the entry depth equals the observed depth plus one).
pub open spec fn next_test_status(
    cur: FoundryTestState,
    is_far_call: bool,
    is_ret: bool,
    code_address: Addr,
    depth: usize,
) -> FoundryTestState {
    if is_far_call && cur == FoundryTestState::NotStarted && code_address == test_address() {
        FoundryTestState::Running { call_depth: depth }
    } else if is_ret && (cur matches FoundryTestState::Running { call_depth } && call_depth
        == depth + 1) {
        FoundryTestState::Finished
    } else {
        cur
    }
}

} // verus!
