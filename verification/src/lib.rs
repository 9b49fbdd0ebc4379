//! Instrumentation core for a test-harness "cheatcode" layer inside a
//! zkEVM-style interpreter loop.
//!
//! The host virtual machine drives three hooks (before an instruction, after
//! an instruction, at the end of an execution cycle).  This crate holds the
//! verified decision logic behind those hooks: dispatching calls that target
//! the reserved cheatcode address, scheduling deferred state mutations,
//! tracking call/revert/emit expectations keyed by call-stack depth, managing
//! prank/broadcast contexts, and bookkeeping snapshots and forks.  Everything
//! the host must actually perform on raw machine state is handed back to it
//! as plain directive values.

pub mod actions;
pub mod addrs;
pub mod bytes;
pub mod context;
pub mod dispatch;
pub mod encode;
pub mod errors;
pub mod events;
pub mod expect_call;
pub mod ffi;
pub mod fork;
pub mod jsonobj;
pub mod mock;
pub mod revert;
pub mod snapshots;
pub mod storage;
pub mod test_state;
pub mod tracer;
pub mod vm_view;
pub mod words;
