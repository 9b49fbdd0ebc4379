//! The decoded cheatcode requests and the dispatcher's outcome reporting.
//!
//! ABI decoding of the calldata that arrives at the reserved address is the
//! host's concern; the tracer receives the decoded request and routes it to
//! exactly one handler.  For requests whose storage location is a hashed
//! mapping slot (balances, nonces), the slot is obtained through the
//! storage interface, which owns the hashing.

use vstd::prelude::*;

use crate::addrs::Addr;
use crate::errors::UsageError;
use crate::events::EmitChecks;
use crate::expect_call::ExpectedCallFailure;
use crate::words::Word;

verus! {

/// A decoded cheatcode request.
#[derive(Debug)]
pub enum CheatcodeCall {
    /// Set an account's ether balance.
    Deal {
        /// The account.
        account: Addr,
        /// The balance to install.
        new_balance: Word,
    },
    /// Arm a revert expectation, with an optional required reason.
    ExpectRevert {
        /// The required revert payload, if any.
        reason: Option<Vec<u8>>,
    },
    /// Register an expected call.
    ExpectCall {
        /// The target address.
        callee: Addr,
        /// The calldata prefix to match.
        calldata: Vec<u8>,
        /// The transfer value to require, if any.
        value: Option<Word>,
        /// An exact required count, or `None` for one-more-at-least.
        count: Option<u64>,
    },
    /// Open an expected-emit window with the given field checks.
    ExpectEmit {
        /// Which log fields to compare.
        checks: EmitChecks,
    },
    /// Read an account's transaction nonce.
    GetNonce {
        /// The account.
        account: Addr,
    },
    /// Read a storage slot.
    Load {
        /// The account to read from.
        target: Addr,
        /// The slot.
        slot: Word,
    },
    /// Mark accounts as persistent across fork swaps.
    MakePersistent {
        /// The accounts to mark.
        accounts: Vec<Addr>,
    },
    /// Register a mocked call.
    MockCall {
        /// The mocked target.
        callee: Addr,
        /// The exact calldata to intercept.
        calldata: Vec<u8>,
        /// The canned return bytes.
        return_data: Vec<u8>,
    },
    /// Start recording event logs.
    RecordLogs,
    /// Report the current caller mode, sender and origin.
    ReadCallers,
    /// Revert to a snapshot.
    RevertTo {
        /// The snapshot identifier.
        snapshot_id: Word,
    },
    /// Remove accounts' persistence marks.
    RevokePersistent {
        /// The accounts to unmark.
        accounts: Vec<Addr>,
    },
    /// Set the current block number.
    Roll {
        /// The new block number.
        new_height: u64,
    },
    /// Roll a fork to a block.
    RollFork {
        /// The target block number.
        block_number: Word,
        /// The fork to roll, or the active one.
        fork_id: Option<Word>,
    },
    /// Store a boolean under a key in a named serialized object.
    SerializeBool {
        /// The object to store into.
        object_key: String,
        /// The key within the object.
        value_key: String,
        /// The value.
        value: bool,
    },
    /// Set an account's nonces.
    SetNonce {
        /// The account.
        account: Addr,
        /// The nonce to install, for both parts.
        new_nonce: u64,
    },
    /// Capture a snapshot of the modified-storage delta.
    Snapshot,
    /// Start a broadcast, optionally from a given origin.
    StartBroadcast {
        /// The origin to send from, or the stored one.
        origin: Option<Addr>,
    },
    /// Start impersonating a sender, optionally overriding the origin.
    StartPrank {
        /// The sender to impersonate.
        sender: Addr,
        /// The origin to install while pranking, if any.
        origin: Option<Addr>,
    },
    /// Stop the active broadcast.
    StopBroadcast,
    /// Stop the active prank.
    StopPrank,
    /// Write a storage slot.
    Store {
        /// The account to write to.
        target: Addr,
        /// The slot.
        slot: Word,
        /// The value to write.
        value: Word,
    },
    /// Render bytes as a `0x`-prefixed hexadecimal string.
    ToStringBytes {
        /// The bytes to render.
        value: Vec<u8>,
    },
    /// Render a boolean as `"true"` or `"false"`.
    ToStringBool {
        /// The value to render.
        value: bool,
    },
    /// Set the current block timestamp.
    Warp {
        /// The new timestamp.
        new_timestamp: u64,
    },
    /// Create a fork and select it.
    CreateSelectFork {
        /// RPC URL or alias.
        url_or_alias: String,
        /// Block to fork at, or latest.
        block_number: Option<u64>,
    },
    /// Create a fork without selecting it.
    CreateFork {
        /// RPC URL or alias.
        url_or_alias: String,
        /// Block to fork at, or latest.
        block_number: Option<u64>,
    },
    /// Select an existing fork.
    SelectFork {
        /// The fork identifier.
        fork_id: Word,
    },
}

/// How the dispatcher disposed of a request.
#[derive(Clone, Copy, Debug, PartialEq, Eq, Structural)]
pub enum DispatchOutcome {
    /// The request was handled.
    Handled,
    /// The request contradicted the tracer's state and was dropped.
    Refused(UsageError),
    /// The stored block-info slot could not be unpacked; the request was
    /// dropped.
    MalformedBlockInfo,
    /// The request needs an enclosing call frame it does not have; it was
    /// dropped.
    DepthTooShallow,
    /// The request's payload is too large to encode; it was dropped.
    DataTooLarge,
}

/// What the after-instruction hook reports back to the host.
#[derive(Debug)]
pub struct AfterExecutionReport {
    /// Whether this instruction finished the outer test function.
    pub test_finished: bool,
    /// The expected-call failures found at test finish; a nonempty list
    /// fails the test.
    pub call_failures: Vec<ExpectedCallFailure>,
    /// The dispatcher's outcome, when a cheatcode request was dispatched.
    pub dispatch: Option<DispatchOutcome>,
    /// A call targeted the reserved address but its calldata did not
    /// decode as a request.
    pub decode_failed: bool,
    /// A call targeted the reserved address without gas or code page; it
    /// was ignored.
    pub missing_gas_or_code: bool,
}

} // verus!
