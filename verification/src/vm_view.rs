//! Plain views of the host VM's state, as handed to the hook functions.
//!
//! The host extracts these from its machine state once per instruction;
//! the tracer never touches raw VM structures itself.

use vstd::prelude::*;

use crate::actions::FatPtr;
use crate::addrs::Addr;
use crate::dispatch::CheatcodeCall;
use crate::revert::RetKind;
use crate::words::Word;

verus! {

/// One call-stack frame, reduced to the fields the tracer reads.
#[derive(Clone, Copy, Debug)]
pub struct CallFrameView {
    /// The address whose code runs in this frame.
    pub code_address: Addr,
    /// The address the frame executes as.
    pub this_address: Addr,
    /// The caller the frame observes.
    pub msg_sender: Addr,
    /// The frame's program counter.
    pub pc: u16,
    /// Where execution continues on an exception.
    pub exception_handler_location: u16,
    /// The frame's base memory page.
    pub base_memory_page: u32,
    /// The frame's code page.
    pub code_page: u32,
    /// Gas remaining in the frame.
    pub ergs_remaining: u32,
    /// Whether this is a near-call frame.
    pub is_local_frame: bool,
    /// The value passed with the call.
    pub context_u128_value: u128,
}

/// The VM-local state a hook observes.
#[derive(Clone, Copy, Debug)]
pub struct VmStateView {
    /// Current call-stack depth.
    pub depth: usize,
    /// Current logical timestamp.
    pub timestamp: u32,
    /// The current frame.
    pub current: CallFrameView,
    /// The frame below the current one, if any.
    pub parent: Option<CallFrameView>,
}

/// The instruction classes the tracer reacts to.
#[derive(Clone, Copy, Debug, PartialEq, Eq, Structural)]
pub enum OpcodeVariant {
    /// An outside (far) call.
    FarCall,
    /// A near call.
    NearCall,
    /// A return, of the given kind.
    Ret(RetKind),
    /// Anything else.
    Other,
}

/// The decoded instruction a hook observes.
#[derive(Clone, Copy, Debug)]
pub struct OpcodeView {
    /// Which instruction class this is.
    pub variant: OpcodeVariant,
    /// Whether a return jumps to a label rather than the saved counter.
    pub ret_to_label: bool,
    /// The instruction's first immediate, the label target.
    pub imm_0: u16,
}

/// What the host resolves for an observed outside call: the calldata, its
/// decode as a cheatcode request when the reserved address is targeted,
/// and the values broadcasts read.
#[derive(Debug)]
pub struct FarCallInfo {
    /// The call's calldata, read through the calldata fat pointer.
    pub calldata: Vec<u8>,
    /// The decoded cheatcode request, when the call targets the reserved
    /// address and its calldata decodes; ABI decoding is the host's.
    pub decoded: Option<CheatcodeCall>,
    /// The active fork's RPC URL, if any, for broadcast records.
    pub active_fork_url: Option<String>,
    /// The first system-ABI register, holding the simulated transfer value
    /// when the call routes through the value simulator.
    pub value_sim_value: Word,
    /// The second system-ABI register, holding the real destination when
    /// the call routes through the value simulator.
    pub value_sim_address: Word,
}

/// What the host resolves for an observed return instruction.
#[derive(Debug)]
pub struct RetInfo {
    /// The return-data register's fat pointer, when it holds one.
    pub ret_params_ptr: Option<FatPtr>,
    /// The bytes behind that pointer, when the tracer may need them for a
    /// revert-reason comparison.
    pub return_data: Option<Vec<u8>>,
}

} // verus!
