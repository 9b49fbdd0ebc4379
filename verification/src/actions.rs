//! Deferred one-shot actions and the directives handed to the host at the
//! end of each execution cycle.
//!
//! Mutating VM state mid-instruction is unsafe, so every handler effect is
//! queued as a one-shot action and drained at the end-of-cycle hook.  The
//! drain turns each action into a plain directive value that the host
//! applies to raw machine state; each action is consumed exactly once.

use vstd::prelude::*;

use crate::addrs::Addr;
use crate::revert::RevertError;
use crate::snapshots::SnapshotStore;
use crate::storage::{StorageKey, StorageMap};
use crate::words::Word;

verus! {

/// A fat pointer into VM memory, as the return-data register holds it.
#[derive(Clone, Copy, Debug, PartialEq, Eq, Structural)]
pub struct FatPtr {
    /// Offset within the pointed-at slice.
    pub offset: u32,
    /// The memory page.
    pub memory_page: u32,
    /// Start byte within the page.
    pub start: u32,
    /// Length in bytes.
    pub length: u32,
}

/// A one-shot action queued during a cycle and applied at its end.
#[derive(Debug)]
pub enum OneTimeAction {
    /// Write a storage slot, remembering the prior value.
    StorageWrite {
        /// The slot to write.
        key: StorageKey,
        /// The value read before the write, for undo bookkeeping.
        read_value: Word,
        /// The value to write.
        write_value: Word,
    },
    /// Register a factory dependency (bytecode) with the VM.
    StoreFactoryDep {
        /// The bytecode hash.
        hash: Word,
        /// The bytecode, in words.
        bytecode: Vec<Word>,
    },
    /// Redirect the current call to its exception handler with an error
    /// payload.
    ForceRevert {
        /// Why the forced revert happens.
        error: RevertError,
        /// The exception handler program counter to jump to.
        exception_handler: u16,
    },
    /// Make the current call return successfully with the given data.
    ForceReturn {
        /// The raw bytes to return.
        data: Vec<u8>,
        /// The continuation program counter to jump to.
        continue_pc: u16,
    },
    /// Rewrite the current frame to return preset data immediately.
    SetImmediateReturn {
        /// The raw bytes to return.
        data: Vec<u8>,
        /// The continuation program counter.
        continue_pc: u16,
        /// The frame's base memory page.
        base_memory_page: u32,
        /// The frame's code page.
        code_page: u32,
    },
    /// Create a fork and select it.
    CreateSelectFork {
        /// RPC URL or alias.
        url_or_alias: String,
        /// Block to fork at, or latest.
        block_number: Option<u64>,
    },
    /// Create a fork without selecting it.
    CreateFork {
        /// RPC URL or alias.
        url_or_alias: String,
        /// Block to fork at, or latest.
        block_number: Option<u64>,
    },
    /// Roll a fork to a block.
    RollFork {
        /// The target block number.
        block_number: Word,
        /// The fork to roll, or the active one.
        fork_id: Option<Word>,
    },
    /// Select an existing fork.
    SelectFork {
        /// The fork to select.
        fork_id: Word,
    },
    /// Restore the delta captured under a snapshot identifier.
    RevertToSnapshot {
        /// The snapshot to restore.
        snapshot_id: Word,
    },
    /// Capture the current delta under a fresh identifier.
    Snapshot,
    /// Override the transaction origin.
    SetOrigin {
        /// The origin to install.
        origin: Addr,
    },
    /// Mark accounts as persistent across fork swaps.
    MakePersistentAccounts {
        /// The accounts to mark.
        accounts: Vec<Addr>,
    },
    /// Remove accounts' persistence marks.
    RevokePersistentAccounts {
        /// The accounts to unmark.
        accounts: Vec<Addr>,
    },
}

/// What the host must perform on raw machine state after a cycle's drain.
/// Directives are emitted in application order.
#[derive(Debug)]
pub enum HostDirective {
    /// Write a storage slot through the host's storage log.
    WriteStorage {
        /// The slot to write.
        key: StorageKey,
        /// The prior value, as recorded at enqueue time.
        read_value: Word,
        /// The value to write.
        write_value: Word,
    },
    /// Register a factory dependency with the VM's decommitter.
    StoreFactoryDep {
        /// The bytecode hash.
        hash: Word,
        /// The bytecode, in words.
        bytecode: Vec<Word>,
    },
    /// Write the return words through the current return pointer and jump
    /// to the continuation.
    ForceReturn {
        /// The return payload, in words.
        data: Vec<Word>,
        /// The continuation program counter.
        continue_pc: u16,
    },
    /// Write the error payload through the current return pointer and jump
    /// to the exception handler.
    ForceRevert {
        /// Why the forced revert happens; the host renders the message.
        error: RevertError,
        /// The exception handler program counter.
        exception_handler: u16,
    },
    /// Install preset return data in a fresh page, point the return-data
    /// register at it, and patch the frame's program counter and pages.
    ImmediateReturn {
        /// The return payload, in words.
        data: Vec<Word>,
        /// The fat pointer to install in the return-data register.
        return_ptr: FatPtr,
        /// The continuation program counter.
        continue_pc: u16,
        /// The frame's base memory page.
        base_memory_page: u32,
        /// The frame's code page.
        code_page: u32,
    },
    /// Create a fork and select it; the host must then report the new
    /// fork identifier back through `record_fork_id`.
    CreateSelectFork {
        /// The backend request.
        request: crate::fork::ForkRequest,
        /// The merged delta to re-apply on the new view, and to install as
        /// the pending modified keys.
        modified_storage: StorageMap,
        /// The merged bytecodes to register.
        modified_bytecodes: Vec<(Word, Vec<u8>)>,
    },
    /// Create a fork without selecting it; the host must then report the
    /// new fork identifier back through `record_fork_id`.
    CreateFork {
        /// The backend request.
        request: crate::fork::ForkRequest,
    },
    /// Roll a fork to a block.
    RollFork {
        /// The target block number.
        block_number: Word,
        /// The fork to roll, or the active one.
        fork_id: Option<Word>,
        /// The merged delta to re-apply, and the new pending modified keys.
        modified_storage: StorageMap,
        /// The merged bytecodes to register.
        modified_bytecodes: Vec<(Word, Vec<u8>)>,
    },
    /// Select an existing fork.
    SelectFork {
        /// The fork to select.
        fork_id: Word,
        /// The merged delta to re-apply, and the new pending modified keys.
        modified_storage: StorageMap,
        /// The merged bytecodes to register.
        modified_bytecodes: Vec<(Word, Vec<u8>)>,
    },
    /// Revert the backend to a snapshot and install the restored delta as
    /// the pending modified keys.
    RevertToSnapshot {
        /// The snapshot to revert to.
        snapshot_id: Word,
        /// The delta captured when the snapshot was taken.
        restored_storage: StorageMap,
        /// The merged delta the backend state is reverted under.
        modified_storage: StorageMap,
    },
    /// Ask the backend for a snapshot of the merged delta; the host must
    /// then report the new identifier back through `record_snapshot_id`.
    TakeSnapshot {
        /// The merged delta to capture, and the new pending modified keys.
        modified_storage: StorageMap,
    },
    /// A snapshot identifier was reverted to twice; no safe state remains
    /// and the current test must be aborted.
    FatalSnapshotMissing {
        /// The unknown identifier.
        snapshot_id: Word,
    },
    /// Install the transaction origin: the parent frame's address and the
    /// system-context origin slot.
    SetOrigin {
        /// The origin to install.
        origin: Addr,
    },
    /// Mark accounts as persistent across fork swaps.
    MakePersistentAccounts {
        /// The accounts to mark.
        accounts: Vec<Addr>,
    },
    /// Remove accounts' persistence marks.
    RevokePersistentAccounts {
        /// The accounts to unmark.
        accounts: Vec<Addr>,
    },
    /// Write pending return data through the saved return pointer.
    SetReturnData {
        /// The saved return pointer, its length updated to the payload.
        return_ptr: FatPtr,
        /// The return payload, in words.
        data: Vec<Word>,
    },
    /// Overwrite the current frame's recorded caller with the prank
    /// sender.
    SetMsgSender {
        /// The impersonated sender.
        sender: Addr,
    },
    /// Compare the two emit windows; the host queries its event log for
    /// the four timestamp bounds and calls `check_expected_emits`, failing
    /// the test when it returns false.
    AssertEmits {
        /// Opening timestamp of the expected window.
        expect_since: u32,
        /// Closing timestamp of the expected window.
        expect_until: u32,
        /// Opening timestamp of the actual window.
        call_since: u32,
        /// Closing timestamp of the actual window.
        call_until: u32,
        /// The configured field checks.
        checks: crate::events::EmitChecks,
    },
}

/// The description of one plain directive: a drained action whose
/// content the host directive must carry exactly, with payloads chunked
/// into return words where the directive carries words.  Directives that
/// carry storage merges (forks, snapshots) are described by [`BackendOp`]
/// instead.
pub enum PlainDirective {
    /// A storage write passed through.
    Write { key: StorageKey, read_value: Word, write_value: Word },
    /// A factory dependency passed through.
    Dep { hash: Word, bytecode: Seq<Word> },
    /// A forced return, its payload chunked into words.
    Return { data: Seq<Word>, continue_pc: u16 },
    /// A forced revert passed through.
    Revert { error: RevertError, exception_handler: u16 },
    /// A preset immediate return: chunked payload, the installed fat
    /// pointer, and the frame patches.
    Immediate {
        data: Seq<Word>,
        return_ptr: FatPtr,
        continue_pc: u16,
        base_memory_page: u32,
        code_page: u32,
    },
    /// An origin install passed through.
    Origin { origin: Addr },
    /// Persistence marks passed through.
    MakeAcc { accounts: Seq<Addr> },
    /// Persistence unmarks passed through.
    RevokeAcc { accounts: Seq<Addr> },
}

/// The plain directive one action must produce; `None` when the action
/// produces a backend operation instead, or when its sizes do not fit
/// the machine word widths and the action is dropped.
pub open spec fn plain_of_action(a: OneTimeAction) -> Option<PlainDirective> {
    match a {
        OneTimeAction::StorageWrite { key, read_value, write_value } => Option::Some(
            PlainDirective::Write { key, read_value, write_value },
        ),
        OneTimeAction::StoreFactoryDep { hash, bytecode } => Option::Some(
            PlainDirective::Dep { hash, bytecode: bytecode@ },
        ),
        OneTimeAction::ForceRevert { error, exception_handler } => Option::Some(
            PlainDirective::Revert { error, exception_handler },
        ),
        OneTimeAction::ForceReturn { data, continue_pc } => {
            if data@.len() + 63 <= usize::MAX {
                Option::Some(
                    PlainDirective::Return {
                        data: crate::encode::return_words_of(data@),
                        continue_pc,
                    },
                )
            } else {
                Option::None
            }
        },
        OneTimeAction::SetImmediateReturn { data, continue_pc, base_memory_page, code_page } => {
            if data@.len() + 63 <= usize::MAX && base_memory_page + 2 <= u32::MAX
                && crate::encode::word_count_of(data@.len()) * 32 <= u32::MAX {
                Option::Some(
                    PlainDirective::Immediate {
                        data: crate::encode::return_words_of(data@),
                        return_ptr: FatPtr {
                            offset: 0u32,
                            memory_page: (base_memory_page + 2) as u32,
                            start: 0u32,
                            length: (crate::encode::word_count_of(data@.len()) * 32) as u32,
                        },
                        continue_pc,
                        base_memory_page,
                        code_page,
                    },
                )
            } else {
                Option::None
            }
        },
        OneTimeAction::SetOrigin { origin } => Option::Some(PlainDirective::Origin { origin }),
        OneTimeAction::MakePersistentAccounts { accounts } => Option::Some(
            PlainDirective::MakeAcc { accounts: accounts@ },
        ),
        OneTimeAction::RevokePersistentAccounts { accounts } => Option::Some(
            PlainDirective::RevokeAcc { accounts: accounts@ },
        ),
        _ => Option::None,
    }
}

/// The plain directive a host directive carries, if it is one.
pub open spec fn plain_of_directive(d: HostDirective) -> Option<PlainDirective> {
    match d {
        HostDirective::WriteStorage { key, read_value, write_value } => Option::Some(
            PlainDirective::Write { key, read_value, write_value },
        ),
        HostDirective::StoreFactoryDep { hash, bytecode } => Option::Some(
            PlainDirective::Dep { hash, bytecode: bytecode@ },
        ),
        HostDirective::ForceReturn { data, continue_pc } => Option::Some(
            PlainDirective::Return { data: data@, continue_pc },
        ),
        HostDirective::ForceRevert { error, exception_handler } => Option::Some(
            PlainDirective::Revert { error, exception_handler },
        ),
        HostDirective::ImmediateReturn {
            data,
            return_ptr,
            continue_pc,
            base_memory_page,
            code_page,
        } => Option::Some(
            PlainDirective::Immediate {
                data: data@,
                return_ptr,
                continue_pc,
                base_memory_page,
                code_page,
            },
        ),
        HostDirective::SetOrigin { origin } => Option::Some(PlainDirective::Origin { origin }),
        HostDirective::MakePersistentAccounts { accounts } => Option::Some(
            PlainDirective::MakeAcc { accounts: accounts@ },
        ),
        HostDirective::RevokePersistentAccounts { accounts } => Option::Some(
            PlainDirective::RevokeAcc { accounts: accounts@ },
        ),
        _ => Option::None,
    }
}

/// A singleton or empty description sequence.
pub open spec fn opt_seq<T>(o: Option<T>) -> Seq<T> {
    match o {
        Option::Some(x) => seq![x],
        Option::None => Seq::empty(),
    }
}

/// The plain directives the queued actions owe, in application (reverse
/// enqueue) order: the entry at index 0 was enqueued last and is applied
/// first.
pub open spec fn queued_plain(q: Seq<OneTimeAction>) -> Seq<PlainDirective>
    decreases q.len(),
{
    if q.len() == 0 {
        Seq::empty()
    } else {
        queued_plain(q.skip(1)) + opt_seq(plain_of_action(q[0]))
    }
}

/// The plain directives among an emitted sequence, in emission order.
pub open spec fn directive_plain(out: Seq<HostDirective>) -> Seq<PlainDirective>
    decreases out.len(),
{
    if out.len() == 0 {
        Seq::empty()
    } else {
        directive_plain(out.drop_last()) + opt_seq(plain_of_directive(out.last()))
    }
}

/// One backend operation: what a fork or snapshot directive asks of the
/// external backend.  A snapshot revert records whether the identifier
/// was still stored when its action was drained (`found`); an unknown
/// identifier is fatal instead.
pub enum BackendOp {
    /// Create a fork and select it.
    CreateSelect { url: Seq<char>, block_number: Option<u64> },
    /// Create a fork without selecting it.
    Create { url: Seq<char>, block_number: Option<u64> },
    /// Roll a fork to a block.
    Roll { block_number: Word, fork_id: Option<Word> },
    /// Select an existing fork.
    Select { fork_id: Word },
    /// Capture a snapshot.
    TakeSnapshot,
    /// Revert to a snapshot, or fail fatally when it is gone.
    RevertSnap { snapshot_id: Word, found: bool },
}

/// The snapshot identifiers drained by the revert actions of `q`.
pub open spec fn drained_snapshot_ids(q: Seq<OneTimeAction>) -> Set<Word>
    decreases q.len(),
{
    if q.len() == 0 {
        Set::empty()
    } else {
        match q[0] {
            OneTimeAction::RevertToSnapshot { snapshot_id } => drained_snapshot_ids(
                q.skip(1),
            ).insert(snapshot_id),
            _ => drained_snapshot_ids(q.skip(1)),
        }
    }
}

/// The backend operation one action owes, against the snapshot store as
/// the test left it (`store`) and the identifiers drained earlier in the
/// same cycle (`drained`).  Fork creations are dropped while no
/// environment was captured.
pub open spec fn backend_step(
    a: OneTimeAction,
    has_env: bool,
    store: SnapshotStore,
    drained: Set<Word>,
) -> Seq<BackendOp> {
    match a {
        OneTimeAction::CreateSelectFork { url_or_alias, block_number } => {
            if has_env {
                seq![BackendOp::CreateSelect { url: url_or_alias@, block_number }]
            } else {
                Seq::empty()
            }
        },
        OneTimeAction::CreateFork { url_or_alias, block_number } => {
            if has_env {
                seq![BackendOp::Create { url: url_or_alias@, block_number }]
            } else {
                Seq::empty()
            }
        },
        OneTimeAction::RollFork { block_number, fork_id } => seq![
            BackendOp::Roll { block_number, fork_id },
        ],
        OneTimeAction::SelectFork { fork_id } => seq![BackendOp::Select { fork_id }],
        OneTimeAction::Snapshot => seq![BackendOp::TakeSnapshot],
        OneTimeAction::RevertToSnapshot { snapshot_id } => seq![
            BackendOp::RevertSnap {
                snapshot_id,
                found: store.contains(snapshot_id) && !drained.contains(snapshot_id),
            },
        ],
        _ => Seq::empty(),
    }
}

/// The backend operations the queued actions owe, in application
/// (reverse enqueue) order; by the time the action at index `i` is
/// applied, everything at larger indices has been drained.
pub open spec fn queued_backend(
    q: Seq<OneTimeAction>,
    has_env: bool,
    store: SnapshotStore,
) -> Seq<BackendOp>
    decreases q.len(),
{
    if q.len() == 0 {
        Seq::empty()
    } else {
        queued_backend(q.skip(1), has_env, store) + backend_step(
            q[0],
            has_env,
            store,
            drained_snapshot_ids(q.skip(1)),
        )
    }
}

/// The backend operation a host directive asks for, if any.
pub open spec fn backend_of_directive(d: HostDirective) -> Option<BackendOp> {
    match d {
        HostDirective::CreateSelectFork { request, .. } => Option::Some(
            BackendOp::CreateSelect {
                url: request.url_or_alias@,
                block_number: request.block_number,
            },
        ),
        HostDirective::CreateFork { request } => Option::Some(
            BackendOp::Create { url: request.url_or_alias@, block_number: request.block_number },
        ),
        HostDirective::RollFork { block_number, fork_id, .. } => Option::Some(
            BackendOp::Roll { block_number, fork_id },
        ),
        HostDirective::SelectFork { fork_id, .. } => Option::Some(BackendOp::Select { fork_id }),
        HostDirective::TakeSnapshot { .. } => Option::Some(BackendOp::TakeSnapshot),
        HostDirective::RevertToSnapshot { snapshot_id, .. } => Option::Some(
            BackendOp::RevertSnap { snapshot_id, found: true },
        ),
        HostDirective::FatalSnapshotMissing { snapshot_id } => Option::Some(
            BackendOp::RevertSnap { snapshot_id, found: false },
        ),
        _ => Option::None,
    }
}

/// The backend operations among an emitted sequence, in emission order.
pub open spec fn directive_backend(out: Seq<HostDirective>) -> Seq<BackendOp>
    decreases out.len(),
{
    if out.len() == 0 {
        Seq::empty()
    } else {
        directive_backend(out.drop_last()) + opt_seq(backend_of_directive(out.last()))
    }
}

/// Each backend operation of a drain comes from a directive that asks
/// for it.
pub proof fn lemma_directive_backend_member(out: Seq<HostDirective>, i: int)
    requires
        0 <= i < directive_backend(out).len(),
    ensures
        exists|j: int|
            0 <= j < out.len() && backend_of_directive(#[trigger] out[j]) == Option::Some(
                directive_backend(out)[i],
            ),
    decreases out.len(),
{
    if out.len() == 0 {
    } else {
        let head = directive_backend(out.drop_last());
        if i < head.len() {
            lemma_directive_backend_member(out.drop_last(), i);
            let j = choose|j: int|
                0 <= j < out.drop_last().len() && backend_of_directive(
                    #[trigger] out.drop_last()[j],
                ) == Option::Some(head[i]);
            assert(out[j] == out.drop_last()[j]);
            assert(backend_of_directive(out[j]) == Option::Some(directive_backend(out)[i]));
        } else {
            assert(backend_of_directive(out[out.len() - 1]) == Option::Some(
                directive_backend(out)[i],
            ));
        }
    }
}

/// Pending return data after the drain: a drained fork selection
/// overwrites it with the selected identifier, and the selection at the
/// lowest index is applied last.
pub open spec fn rd_after(q: Seq<OneTimeAction>, rd0: Option<Seq<Word>>) -> Option<Seq<Word>>
    decreases q.len(),
{
    if q.len() == 0 {
        rd0
    } else {
        match q[0] {
            OneTimeAction::SelectFork { fork_id } => Option::Some(seq![fork_id]),
            _ => rd_after(q.skip(1), rd0),
        }
    }
}

/// Draining one action from the back of the queue folds into the
/// pending-return-data account: the later-drained actions see whatever
/// the drained one left.
pub proof fn lemma_rd_after_step(s: Seq<OneTimeAction>, cur: Option<Seq<Word>>)
    requires
        s.len() > 0,
    ensures
        rd_after(s, cur) == rd_after(
            s.drop_last(),
            match s.last() {
                OneTimeAction::SelectFork { fork_id } => Option::Some(seq![fork_id]),
                _ => cur,
            },
        ),
    decreases s.len(),
{
    let step = (match s.last() {
        OneTimeAction::SelectFork { fork_id } => Option::Some(seq![fork_id]),
        _ => cur,
    });
    if s.len() == 1 {
        assert(s.drop_last() =~= Seq::<OneTimeAction>::empty());
        assert(s[0] == s.last());
        assert(rd_after(s.drop_last(), step) == step);
    } else {
        assert(s.drop_last()[0] == s[0]);
        match s[0] {
            OneTimeAction::SelectFork { fork_id } => {
                assert(rd_after(s, cur) == Option::Some(seq![fork_id]));
                assert(rd_after(s.drop_last(), step) == Option::Some(seq![fork_id]));
            },
            _ => {
                assert(s.skip(1).last() == s.last());
                lemma_rd_after_step(s.skip(1), cur);
                assert(s.skip(1).drop_last() =~= s.drop_last().skip(1));
                assert(rd_after(s, cur) == rd_after(s.skip(1), cur));
                assert(rd_after(s.drop_last(), step) == rd_after(s.drop_last().skip(1), step));
            },
        }
    }
}

} // verus!
