//! The cheatcode tracer: the state behind the three VM hooks and the
//! handlers the dispatcher routes to.
//!
//! The tracer never touches raw machine state.  It consumes plain views of
//! the VM, queues one-shot actions, and hands the host directives at the
//! end of each cycle.

use vstd::prelude::*;

use crate::actions::{FatPtr, HostDirective, OneTimeAction};
use crate::addrs::Addr;
use crate::context::{BroadcastOpts, ImmediateReturnOpts, PermanentContext, StartPrankOpts};
use crate::dispatch::{AfterExecutionReport, CheatcodeCall, DispatchOutcome};
use crate::errors::UsageError;
use crate::events::EmitConfig;
use crate::expect_call::ExpectedCalls;
use crate::fork::{BroadcastableTx, EraEnv};
use crate::mock::MockCall;
use crate::revert::{ActionOnReturn, NextReturnAction, RetKind};
use crate::snapshots::SnapshotStore;
use crate::storage::{StorageKey, StorageMap, StorageSource};
use crate::test_state::FoundryTestState;
use crate::vm_view::{CallFrameView, OpcodeVariant, OpcodeView, VmStateView};
use crate::words::Word;

verus! {

/// The storage changes a test has accumulated before this tracer run:
/// modified keys and registered bytecodes.
#[derive(Debug)]
pub struct StorageModifications {
    /// Modified storage keys and their values.
    pub keys: StorageMap,
    /// Registered bytecodes: hash and bytes.
    pub bytecodes: Vec<(Word, Vec<u8>)>,
}

/// The instruction snapshot cached by the before-instruction hook for
/// later diagnostics.
#[derive(Clone, Copy, Debug)]
pub struct CurrentOpcode {
    /// The instruction class observed.
    pub variant: OpcodeVariant,
    /// The program counter at observation.
    pub pc: u16,
    /// The frame's base memory page.
    pub base_page: u32,
    /// The frame's code page.
    pub code_page: u32,
}

/// The instrumentation core's whole state.
#[derive(Debug)]
pub struct CheatcodeTracer {
    /// The test-wide storage delta, merged into fork and snapshot
    /// captures.
    pub storage_modifications: StorageModifications,
    /// Queued one-shot actions, drained at cycle end.
    pub one_time_actions: Vec<OneTimeAction>,
    /// The armed expected-revert action, if any.
    pub next_return_action: Option<NextReturnAction>,
    /// Prank, broadcast and immediate-return contexts.
    pub permanent_actions: PermanentContext,
    /// Return words pending for the cheatcode caller.
    pub return_data: Option<Vec<Word>>,
    /// The saved return pointer to write pending return words through.
    pub return_ptr: Option<FatPtr>,
    /// Near calls entered since return data became pending.
    pub near_calls: usize,
    /// Serialized JSON objects by name; later entries override earlier.
    pub serialized_objects: Vec<(String, String)>,
    /// The environment captured at initialisation.
    pub env: Option<EraEnv>,
    /// Whether event logs are being recorded.
    pub recording_logs: bool,
    /// The timestamp recording started at.
    pub recording_timestamp: u32,
    /// The expected-call tracker.
    pub expected_calls: ExpectedCalls,
    /// The outer test function's lifecycle.
    pub test_status: FoundryTestState,
    /// The expected-emit machine.
    pub emit_config: EmitConfig,
    /// Captured snapshots by identifier.
    pub saved_snapshots: SnapshotStore,
    /// A capture awaiting its backend identifier.
    pub pending_snapshot_capture: Option<StorageMap>,
    /// Transactions recorded during broadcasts.
    pub broadcastable_transactions: Vec<BroadcastableTx>,
    /// Registered mocked calls.
    pub mock_calls: Vec<MockCall>,
    /// The frame of the last observed outside call.
    pub active_farcall_stack: Option<CallFrameView>,
    /// The cached instruction snapshot.
    pub current_opcode: Option<CurrentOpcode>,
}

/// The trackers that most handlers leave alone.
pub open spec fn same_trackers(a: CheatcodeTracer, b: CheatcodeTracer) -> bool {
    &&& a.expected_calls == b.expected_calls
    &&& a.next_return_action == b.next_return_action
    &&& a.emit_config == b.emit_config
    &&& a.test_status == b.test_status
    &&& a.mock_calls == b.mock_calls
}

/// The contexts that most handlers leave alone.
pub open spec fn same_contexts(a: CheatcodeTracer, b: CheatcodeTracer) -> bool {
    &&& a.permanent_actions == b.permanent_actions
    &&& a.broadcastable_transactions == b.broadcastable_transactions
    &&& a.env == b.env
    &&& a.recording_logs == b.recording_logs
    &&& a.recording_timestamp == b.recording_timestamp
    &&& a.serialized_objects == b.serialized_objects
    &&& a.active_farcall_stack == b.active_farcall_stack
    &&& a.current_opcode == b.current_opcode
}

/// The return-channel state.
pub open spec fn same_returns(a: CheatcodeTracer, b: CheatcodeTracer) -> bool {
    &&& a.return_data == b.return_data
    &&& a.return_ptr == b.return_ptr
    &&& a.near_calls == b.near_calls
}

/// The storage bookkeeping.
pub open spec fn same_storage_state(a: CheatcodeTracer, b: CheatcodeTracer) -> bool {
    &&& a.storage_modifications == b.storage_modifications
    &&& a.saved_snapshots == b.saved_snapshots
    &&& a.pending_snapshot_capture == b.pending_snapshot_capture
}

/// The action queue.
pub open spec fn same_queue(a: CheatcodeTracer, b: CheatcodeTracer) -> bool {
    a.one_time_actions == b.one_time_actions
}

impl CheatcodeTracer {
    /// Validity of the tracker structures.
    pub open spec fn wf(self) -> bool {
        &&& self.storage_modifications.keys.wf()
        &&& self.expected_calls.wf()
        &&& self.saved_snapshots.wf()
        &&& match self.pending_snapshot_capture {
            Option::Some(m) => m.wf(),
            Option::None => true,
        }
    }

    /// A fresh tracer over the given accumulated storage changes.
    pub fn new(storage_modifications: StorageModifications) -> (r: CheatcodeTracer)
        requires
            storage_modifications.keys.wf(),
        ensures
            r.wf(),
            r.storage_modifications == storage_modifications,
            r.one_time_actions@.len() == 0,
            r.next_return_action is None,
            r.permanent_actions.start_prank is None,
            r.permanent_actions.broadcast is None,
            r.permanent_actions.immediate_return is None,
            r.return_data is None,
            r.return_ptr is None,
            r.near_calls == 0,
            r.env is None,
            !r.recording_logs,
            r.expected_calls.entries@.len() == 0,
            r.test_status == FoundryTestState::NotStarted,
            r.emit_config.expected_emit_state
                == crate::events::ExpectedEmitState::NotStarted,
            forall|id: Word| !(#[trigger] r.saved_snapshots.contains(id)),
            r.pending_snapshot_capture is None,
            r.broadcastable_transactions@.len() == 0,
            r.mock_calls@.len() == 0,
            r.active_farcall_stack is None,
            r.current_opcode is None,
    {
        CheatcodeTracer {
            storage_modifications,
            one_time_actions: Vec::new(),
            next_return_action: None,
            permanent_actions: PermanentContext::idle(),
            return_data: None,
            return_ptr: None,
            near_calls: 0,
            serialized_objects: Vec::new(),
            env: None,
            recording_logs: false,
            recording_timestamp: 0,
            expected_calls: ExpectedCalls::new(),
            test_status: FoundryTestState::NotStarted,
            emit_config: EmitConfig::idle(),
            saved_snapshots: SnapshotStore::new(),
            pending_snapshot_capture: None,
            broadcastable_transactions: Vec::new(),
            mock_calls: Vec::new(),
            active_farcall_stack: None,
            current_opcode: None,
        }
    }

    /// Captures the execution environment; only the first call takes.
    pub fn initialize_tracer(&mut self, env: EraEnv)
        ensures
            final(self).env == (if old(self).env is None {
                Option::Some(env)
            } else {
                old(self).env
            }),
            same_trackers(*final(self), *old(self)),
            same_returns(*final(self), *old(self)),
            same_storage_state(*final(self), *old(self)),
            same_queue(*final(self), *old(self)),
            final(self).permanent_actions == old(self).permanent_actions,
            final(self).broadcastable_transactions == old(self).broadcastable_transactions,
            final(self).recording_logs == old(self).recording_logs,
            final(self).recording_timestamp == old(self).recording_timestamp,
            final(self).serialized_objects == old(self).serialized_objects,
            final(self).active_farcall_stack == old(self).active_farcall_stack,
            final(self).current_opcode == old(self).current_opcode,
            final(self).wf() == old(self).wf(),
    {
        if self.env.is_none() {
            self.env = Some(env);
        }
    }

    /// Resets the test lifecycle to not-started.
    pub fn reset_test_status(&mut self)
        ensures
            final(self).test_status == FoundryTestState::NotStarted,
            same_contexts(*final(self), *old(self)),
            same_returns(*final(self), *old(self)),
            same_storage_state(*final(self), *old(self)),
            same_queue(*final(self), *old(self)),
            final(self).expected_calls == old(self).expected_calls,
            final(self).next_return_action == old(self).next_return_action,
            final(self).emit_config == old(self).emit_config,
            final(self).mock_calls == old(self).mock_calls,
            final(self).wf() == old(self).wf(),
    {
        self.test_status = FoundryTestState::NotStarted;
    }

    /// Advances the test lifecycle for one observed instruction and
    /// returns the new status; see
    /// [`crate::test_state::next_test_status`].
    pub fn update_test_status(&mut self, state: &VmStateView, op: &OpcodeView) -> (r:
        FoundryTestState)
        ensures
            final(self).test_status == crate::test_state::next_test_status(
                old(self).test_status,
                op.variant == OpcodeVariant::FarCall,
                op.variant matches OpcodeVariant::Ret(_),
                state.current.code_address,
                state.depth,
            ),
            r == final(self).test_status,
            same_contexts(*final(self), *old(self)),
            same_returns(*final(self), *old(self)),
            same_storage_state(*final(self), *old(self)),
            same_queue(*final(self), *old(self)),
            final(self).expected_calls == old(self).expected_calls,
            final(self).next_return_action == old(self).next_return_action,
            final(self).emit_config == old(self).emit_config,
            final(self).mock_calls == old(self).mock_calls,
            final(self).wf() == old(self).wf(),
    {
        match op.variant {
            OpcodeVariant::FarCall => {
                let test_addr = crate::addrs::make_test_address();
                let not_started = match self.test_status {
                    FoundryTestState::NotStarted => true,
                    _ => false,
                };
                if not_started && state.current.code_address == test_addr {
                    self.test_status = FoundryTestState::Running { call_depth: state.depth };
                }
            },
            OpcodeVariant::Ret(_) => {
                match self.test_status {
                    FoundryTestState::Running { call_depth } => {
                        if state.depth < usize::MAX && call_depth == state.depth + 1 {
                            self.test_status = FoundryTestState::Finished;
                        }
                    },
                    _ => {},
                }
            },
            _ => {},
        }
        self.test_status
    }

    /// Queues registering a factory dependency.
    pub fn store_factory_dep(&mut self, hash: Word, bytecode: Vec<Word>)
        ensures
            final(self).one_time_actions@ == old(self).one_time_actions@.push(
                OneTimeAction::StoreFactoryDep { hash, bytecode },
            ),
            same_trackers(*final(self), *old(self)),
            same_contexts(*final(self), *old(self)),
            same_returns(*final(self), *old(self)),
            same_storage_state(*final(self), *old(self)),
            final(self).wf() == old(self).wf(),
    {
        self.one_time_actions.push(OneTimeAction::StoreFactoryDep { hash, bytecode });
    }

    /// Queues a storage write, recording the slot's prior value through
    /// the storage interface; all storage mutation patterns route through
    /// this one primitive so snapshot bookkeeping stays centralised.
    pub fn write_storage<S: StorageSource>(&mut self, key: StorageKey, write_value: Word, storage: &mut S)
        ensures
            final(self).one_time_actions@ == old(self).one_time_actions@.push(
                OneTimeAction::StorageWrite {
                    key,
                    read_value: old(storage).value_at(key),
                    write_value,
                },
            ),
            forall|k: StorageKey| #[trigger]
                final(storage).value_at(k) == old(storage).value_at(k),
            same_trackers(*final(self), *old(self)),
            same_contexts(*final(self), *old(self)),
            same_returns(*final(self), *old(self)),
            same_storage_state(*final(self), *old(self)),
            final(self).wf() == old(self).wf(),
    {
        let read_value = storage.read_value(&key);
        self.one_time_actions.push(OneTimeAction::StorageWrite { key, read_value, write_value });
    }

    /// Reads an account's two-part nonce at the given nonce slot:
    /// (transaction nonce, deployment nonce).
    pub fn get_nonce_at<S: StorageSource>(storage: &mut S, key: &StorageKey) -> (r: (Word, Word))
        ensures
            r.0.as_int() == old(storage).value_at(*key).lo,
            r.1.as_int() == old(storage).value_at(*key).hi,
            r.0.hi == 0 && r.1.hi == 0,
            forall|k: StorageKey| #[trigger]
                final(storage).value_at(k) == old(storage).value_at(k),
    {
        let full = storage.read_value(key);
        crate::words::decompose_full_nonce(&full)
    }

    /// Reads an account's two-part nonce, locating the slot through the
    /// storage interface.
    pub fn get_nonce<S: StorageSource>(account: Addr, storage: &mut S) -> (r: (Word, Word))
        ensures
            r.0.hi == 0 && r.1.hi == 0,
            forall|k: StorageKey| #[trigger]
                final(storage).value_at(k) == old(storage).value_at(k),
    {
        let key = storage.nonce_key(&account);
        Self::get_nonce_at(storage, &key)
    }

    /// Sets an account's nonces at the given slot.  Each requested part
    /// must exceed the stored one; otherwise nothing changes and `None`
    /// is returned.  On success the new (transaction, deployment) pair is
    /// returned and the combined write is queued.
    pub fn set_nonce_at<S: StorageSource>(
        &mut self,
        key: StorageKey,
        tx_nonce: Option<Word>,
        deploy_nonce: Option<Word>,
        storage: &mut S,
    ) -> (r: Option<(Word, Word)>)
        requires
            (tx_nonce matches Option::Some(t) ==> t.hi == 0),
            (deploy_nonce matches Option::Some(d) ==> d.hi == 0),
        ensures
            forall|k: StorageKey| #[trigger]
                final(storage).value_at(k) == old(storage).value_at(k),
            same_trackers(*final(self), *old(self)),
            same_contexts(*final(self), *old(self)),
            same_returns(*final(self), *old(self)),
            same_storage_state(*final(self), *old(self)),
            final(self).wf() == old(self).wf(),
            ({
                let full = old(storage).value_at(key);
                let tx_blocked = tx_nonce matches Option::Some(t) && full.lo >= t.lo;
                let deploy_blocked = deploy_nonce matches Option::Some(d) && full.hi >= d.lo;
                if tx_blocked || deploy_blocked {
                    r is None && final(self).one_time_actions == old(self).one_time_actions
                } else {
                    let new_tx: u128 = (match tx_nonce {
                        Option::Some(t) => t.lo,
                        Option::None => full.lo,
                    });
                    let new_deploy: u128 = (match deploy_nonce {
                        Option::Some(d) => d.lo,
                        Option::None => full.hi,
                    });
                    &&& r == Option::Some(
                        (Word { hi: 0, lo: new_tx }, Word { hi: 0, lo: new_deploy }),
                    )
                    &&& final(self).one_time_actions@ == old(self).one_time_actions@.push(
                        OneTimeAction::StorageWrite {
                            key,
                            read_value: full,
                            write_value: Word { hi: new_deploy, lo: new_tx },
                        },
                    )
                }
            }),
    {
        let (account_nonce, deployment_nonce) = Self::get_nonce_at(storage, &key);
        let mut new_tx = account_nonce.lo;
        let mut new_deploy = deployment_nonce.lo;
        match tx_nonce {
            Some(t) => {
                if new_tx >= t.lo {
                    return None;
                }
                new_tx = t.lo;
            },
            None => {},
        }
        match deploy_nonce {
            Some(d) => {
                if new_deploy >= d.lo {
                    return None;
                }
                new_deploy = d.lo;
            },
            None => {},
        }
        let write_value = Word { hi: new_deploy, lo: new_tx };
        let ghost full = old(storage).value_at(key);
        let read_value = storage.read_value(&key);
        self.one_time_actions.push(OneTimeAction::StorageWrite { key, read_value, write_value });
        Some((Word { hi: 0, lo: new_tx }, Word { hi: 0, lo: new_deploy }))
    }

    /// Sets an account's nonces, locating the slot through the storage
    /// interface.
    pub fn set_nonce<S: StorageSource>(
        &mut self,
        account: Addr,
        tx_nonce: Option<Word>,
        deploy_nonce: Option<Word>,
        storage: &mut S,
    ) -> (r: Option<(Word, Word)>)
        requires
            (tx_nonce matches Option::Some(t) ==> t.hi == 0),
            (deploy_nonce matches Option::Some(d) ==> d.hi == 0),
        ensures
            forall|k: StorageKey| #[trigger]
                final(storage).value_at(k) == old(storage).value_at(k),
            same_trackers(*final(self), *old(self)),
            same_contexts(*final(self), *old(self)),
            same_returns(*final(self), *old(self)),
            same_storage_state(*final(self), *old(self)),
            final(self).wf() == old(self).wf(),
            final(self).one_time_actions@.len() >= old(self).one_time_actions@.len(),
            old(self).one_time_actions@.is_prefix_of(final(self).one_time_actions@),
            // At most one action is appended: the combined write of the
            // requested nonce parts at the account's nonce slot, each
            // requested part strictly above the stored one; `r` reports
            // the installed pair.  The slot itself is the storage
            // interface's derivation.
            match r {
                Option::None => final(self).one_time_actions == old(self).one_time_actions,
                Option::Some(pair) => {
                    &&& pair.0.hi == 0 && pair.1.hi == 0
                    &&& (tx_nonce matches Option::Some(t) ==> pair.0.lo == t.lo)
                    &&& (deploy_nonce matches Option::Some(d) ==> pair.1.lo == d.lo)
                    &&& exists|k: StorageKey|
                        ({
                            let full = #[trigger] old(storage).value_at(k);
                            &&& (match tx_nonce {
                                Option::Some(t) => full.lo < t.lo,
                                Option::None => pair.0.lo == full.lo,
                            })
                            &&& (match deploy_nonce {
                                Option::Some(d) => full.hi < d.lo,
                                Option::None => pair.1.lo == full.hi,
                            })
                            &&& final(self).one_time_actions@ == old(self).one_time_actions@.push(
                                OneTimeAction::StorageWrite {
                                    key: k,
                                    read_value: full,
                                    write_value: Word { hi: pair.1.lo, lo: pair.0.lo },
                                },
                            )
                        })
                },
            },
    {
        let key = storage.nonce_key(&account);
        let r = self.set_nonce_at(key, tx_nonce, deploy_nonce, storage);
        proof {
            assert(old(self).one_time_actions@ =~= self.one_time_actions@.subrange(
                0,
                old(self).one_time_actions@.len() as int,
            ));
        }
        r
    }

    /// The armed expected-revert action, if any.
    pub fn current_expect_revert(&mut self) -> (r: Option<&mut ActionOnReturn>)
        ensures
            old(self).next_return_action is None <==> r is None,
            // Whatever the caller does to the returned action is what
            // happens to the armed action; everything else is unchanged.
            (match r {
                Option::Some(a) => {
                    &&& (old(self).next_return_action matches Option::Some(n) && *a == n.action)
                    &&& (final(self).next_return_action matches Option::Some(n2) && ({
                        &&& n2.action == *final(a)
                        &&& (old(self).next_return_action matches Option::Some(n3) && ({
                            &&& n2.target_depth == n3.target_depth
                            &&& n2.returns_to_skip == n3.returns_to_skip
                        }))
                    }))
                },
                Option::None => final(self).next_return_action is None,
            }),
            same_contexts(*final(self), *old(self)),
            same_returns(*final(self), *old(self)),
            same_storage_state(*final(self), *old(self)),
            same_queue(*final(self), *old(self)),
            final(self).expected_calls == old(self).expected_calls,
            final(self).emit_config == old(self).emit_config,
            final(self).test_status == old(self).test_status,
            final(self).mock_calls == old(self).mock_calls,
            final(self).wf() == old(self).wf(),
    {
        match &mut self.next_return_action {
            Some(action) => Some(&mut action.action),
            None => None,
        }
    }

    /// Arms a revert expectation fired at `depth`: the watched return
    /// happens one frame below, after skipping the cheatcode's own
    /// return.  Refused while an expectation is already armed.
    pub fn add_expect_revert(&mut self, reason: Option<Vec<u8>>, depth: usize) -> (r: Result<
        (),
        UsageError,
    >)
        requires
            depth >= 1,
        ensures
            match r {
                Ok(()) => {
                    &&& old(self).next_return_action is None
                    &&& final(self).next_return_action matches Option::Some(n) && ({
                        &&& n.target_depth == depth - 1
                        &&& n.returns_to_skip == 1
                        &&& (n.action matches ActionOnReturn::ExpectRevert {
                            reason: r2,
                            depth: d2,
                            prev_continue_pc,
                            prev_exception_handler_pc,
                        } && ({
                            &&& r2 == reason
                            &&& d2 == depth - 1
                            &&& prev_continue_pc is None
                            &&& prev_exception_handler_pc is None
                        }))
                    })
                },
                Err(e) => {
                    &&& e == UsageError::ExpectRevertAlreadyArmed
                    &&& old(self).next_return_action is Some
                    &&& final(self).next_return_action == old(self).next_return_action
                },
            },
            same_contexts(*final(self), *old(self)),
            same_returns(*final(self), *old(self)),
            same_storage_state(*final(self), *old(self)),
            same_queue(*final(self), *old(self)),
            final(self).expected_calls == old(self).expected_calls,
            final(self).emit_config == old(self).emit_config,
            final(self).test_status == old(self).test_status,
            final(self).mock_calls == old(self).mock_calls,
            final(self).wf() == old(self).wf(),
    {
        if self.next_return_action.is_some() {
            return Err(UsageError::ExpectRevertAlreadyArmed);
        }
        let action = ActionOnReturn::ExpectRevert {
            reason,
            depth: depth - 1,
            prev_continue_pc: None,
            prev_exception_handler_pc: None,
        };
        self.next_return_action = Some(
            NextReturnAction { target_depth: depth - 1, action, returns_to_skip: 1 },
        );
        Ok(())
    }
}

/// The storage slot of the transaction origin in the system context.
pub open spec fn tx_origin_key() -> StorageKey {
    StorageKey {
        addr: crate::addrs::system_context_address(),
        slot: Word { hi: 0, lo: 10 },
    }
}

/// Runtime value of [`tx_origin_key`].
pub fn make_tx_origin_key() -> (r: StorageKey)
    ensures
        r == tx_origin_key(),
{
    StorageKey {
        addr: crate::addrs::make_system_context_address(),
        slot: Word { hi: 0, lo: 10 },
    }
}

/// The storage slot of the current virtual block info in the system
/// context.
pub open spec fn block_info_key() -> StorageKey {
    StorageKey {
        addr: crate::addrs::system_context_address(),
        slot: Word { hi: 0, lo: 11 },
    }
}

/// Runtime value of [`block_info_key`].
pub fn make_block_info_key() -> (r: StorageKey)
    ensures
        r == block_info_key(),
{
    StorageKey {
        addr: crate::addrs::make_system_context_address(),
        slot: Word { hi: 0, lo: 11 },
    }
}

impl CheatcodeTracer {
    /// Starts impersonating `sender`, optionally overriding the stored
    /// transaction origin (whose prior value is remembered for restore).
    /// Refused while a broadcast is active.
    pub fn start_prank<S: StorageSource>(
        &mut self,
        storage: &mut S,
        sender: Addr,
        origin: Option<Addr>,
    ) -> (r: Result<(), UsageError>)
        ensures
            forall|k: StorageKey| #[trigger]
                final(storage).value_at(k) == old(storage).value_at(k),
            same_storage_state(*final(self), *old(self)),
            final(self).wf() == old(self).wf(),
            final(self).expected_calls == old(self).expected_calls,
            final(self).next_return_action == old(self).next_return_action,
            final(self).emit_config == old(self).emit_config,
            final(self).test_status == old(self).test_status,
            final(self).mock_calls == old(self).mock_calls,
            same_returns(*final(self), *old(self)),
            final(self).permanent_actions.broadcast == old(self).permanent_actions.broadcast,
            final(self).permanent_actions.immediate_return == old(self).permanent_actions.immediate_return,
            final(self).broadcastable_transactions == old(self).broadcastable_transactions,
            final(self).env == old(self).env,
            final(self).recording_logs == old(self).recording_logs,
            final(self).recording_timestamp == old(self).recording_timestamp,
            final(self).serialized_objects == old(self).serialized_objects,
            final(self).active_farcall_stack == old(self).active_farcall_stack,
            final(self).current_opcode == old(self).current_opcode,
            match r {
                Ok(()) => {
                    &&& old(self).permanent_actions.broadcast is None
                    &&& (final(self).permanent_actions.start_prank matches Option::Some(p) && ({
                        &&& p.sender == sender
                        &&& (match origin {
                            Option::Some(_) => p.origin == Option::Some(
                                crate::addrs::Addr {
                                    hi: (old(storage).value_at(tx_origin_key()).hi
                                        % 0x1_0000_0000) as u32,
                                    lo: old(storage).value_at(tx_origin_key()).lo,
                                },
                            ),
                            Option::None => p.origin is None,
                        })
                    }))
                    &&& (match origin {
                        Option::Some(o) => final(self).one_time_actions@ == old(self).one_time_actions@.push(
                            OneTimeAction::StorageWrite {
                                key: tx_origin_key(),
                                read_value: old(storage).value_at(tx_origin_key()),
                                write_value: Word { hi: o.hi as u128, lo: o.lo },
                            },
                        ),
                        Option::None => final(self).one_time_actions == old(self).one_time_actions,
                    })
                },
                Err(e) => {
                    &&& e == UsageError::PrankDuringBroadcast
                    &&& old(self).permanent_actions.broadcast is Some
                    &&& final(self).permanent_actions == old(self).permanent_actions
                    &&& final(self).one_time_actions == old(self).one_time_actions
                },
            },
    {
        if self.permanent_actions.broadcast.is_some() {
            return Err(UsageError::PrankDuringBroadcast);
        }
        match origin {
            None => {
                self.permanent_actions.start_prank = Some(
                    StartPrankOpts { sender, origin: None },
                );
            },
            Some(tx_origin) => {
                let key = make_tx_origin_key();
                let original_tx_origin = storage.read_value(&key);
                self.write_storage(key, crate::addrs::word_of_addr(&tx_origin), storage);
                let saved = crate::addrs::addr_of_word(&original_tx_origin);
                self.permanent_actions.start_prank = Some(
                    StartPrankOpts { sender, origin: Some(saved) },
                );
            },
        }
        Ok(())
    }

    /// Stops the active prank, restoring the pre-prank origin when the
    /// prank overrode it.
    pub fn stop_prank<S: StorageSource>(&mut self, storage: &mut S)
        ensures
            forall|k: StorageKey| #[trigger]
                final(storage).value_at(k) == old(storage).value_at(k),
            final(self).permanent_actions.start_prank is None,
            final(self).permanent_actions.broadcast == old(self).permanent_actions.broadcast,
            final(self).permanent_actions.immediate_return == old(self).permanent_actions.immediate_return,
            (match old(self).permanent_actions.start_prank {
                Option::Some(p) => match p.origin {
                    Option::Some(orig) => final(self).one_time_actions@ == old(self).one_time_actions@.push(
                        OneTimeAction::StorageWrite {
                            key: tx_origin_key(),
                            read_value: old(storage).value_at(tx_origin_key()),
                            write_value: Word { hi: orig.hi as u128, lo: orig.lo },
                        },
                    ),
                    Option::None => final(self).one_time_actions == old(self).one_time_actions,
                },
                Option::None => final(self).one_time_actions == old(self).one_time_actions,
            }),
            same_storage_state(*final(self), *old(self)),
            same_returns(*final(self), *old(self)),
            final(self).wf() == old(self).wf(),
            final(self).expected_calls == old(self).expected_calls,
            final(self).next_return_action == old(self).next_return_action,
            final(self).emit_config == old(self).emit_config,
            final(self).test_status == old(self).test_status,
            final(self).mock_calls == old(self).mock_calls,
            final(self).broadcastable_transactions == old(self).broadcastable_transactions,
            final(self).env == old(self).env,
            final(self).recording_logs == old(self).recording_logs,
            final(self).recording_timestamp == old(self).recording_timestamp,
            final(self).serialized_objects == old(self).serialized_objects,
            final(self).active_farcall_stack == old(self).active_farcall_stack,
            final(self).current_opcode == old(self).current_opcode,
    {
        let prank = self.permanent_actions.start_prank.take();
        match prank {
            Some(p) => {
                match p.origin {
                    Some(original_tx_origin) => {
                        let key = make_tx_origin_key();
                        self.write_storage(
                            key,
                            crate::addrs::word_of_addr(&original_tx_origin),
                            storage,
                        );
                    },
                    None => {},
                }
            },
            None => {},
        }
    }

    /// Starts a broadcast: records the stored origin, the caller and the
    /// activation depth.  Refused while a prank is active.
    pub fn start_broadcast<S: StorageSource>(
        &mut self,
        storage: &mut S,
        state: &VmStateView,
        new_origin: Option<Addr>,
    ) -> (r: Result<(), UsageError>)
        ensures
            forall|k: StorageKey| #[trigger]
                final(storage).value_at(k) == old(storage).value_at(k),
            same_storage_state(*final(self), *old(self)),
            same_returns(*final(self), *old(self)),
            same_queue(*final(self), *old(self)),
            final(self).wf() == old(self).wf(),
            final(self).expected_calls == old(self).expected_calls,
            final(self).next_return_action == old(self).next_return_action,
            final(self).emit_config == old(self).emit_config,
            final(self).test_status == old(self).test_status,
            final(self).mock_calls == old(self).mock_calls,
            final(self).permanent_actions.start_prank == old(self).permanent_actions.start_prank,
            final(self).permanent_actions.immediate_return == old(self).permanent_actions.immediate_return,
            final(self).broadcastable_transactions == old(self).broadcastable_transactions,
            final(self).env == old(self).env,
            final(self).recording_logs == old(self).recording_logs,
            final(self).recording_timestamp == old(self).recording_timestamp,
            final(self).serialized_objects == old(self).serialized_objects,
            final(self).active_farcall_stack == old(self).active_farcall_stack,
            final(self).current_opcode == old(self).current_opcode,
            match r {
                Ok(()) => {
                    &&& old(self).permanent_actions.start_prank is None
                    &&& (final(self).permanent_actions.broadcast matches Option::Some(b) && ({
                        let stored = old(storage).value_at(tx_origin_key());
                        let stored_addr = crate::addrs::Addr {
                            hi: (stored.hi % 0x1_0000_0000) as u32,
                            lo: stored.lo,
                        };
                        &&& b.original_origin == stored_addr
                        &&& b.original_caller == state.current.msg_sender
                        &&& b.depth == state.depth
                        &&& b.new_origin == (match new_origin {
                            Option::Some(o) => o,
                            Option::None => stored_addr,
                        })
                    }))
                },
                Err(e) => {
                    &&& e == UsageError::BroadcastDuringPrank
                    &&& old(self).permanent_actions.start_prank is Some
                    &&& final(self).permanent_actions == old(self).permanent_actions
                },
            },
    {
        if self.permanent_actions.start_prank.is_some() {
            return Err(UsageError::BroadcastDuringPrank);
        }
        let key = make_tx_origin_key();
        let original_tx_origin = storage.read_value(&key);
        let stored_addr = crate::addrs::addr_of_word(&original_tx_origin);
        let new_origin_addr = match new_origin {
            Some(o) => o,
            None => stored_addr,
        };
        self.permanent_actions.broadcast = Some(
            BroadcastOpts {
                original_origin: stored_addr,
                original_caller: state.current.msg_sender,
                new_origin: new_origin_addr,
                depth: state.depth,
            },
        );
        Ok(())
    }

    /// Stops the active broadcast and queues restoring the original
    /// origin.
    pub fn stop_broadcast(&mut self)
        ensures
            final(self).permanent_actions.broadcast is None,
            final(self).permanent_actions.start_prank == old(self).permanent_actions.start_prank,
            final(self).permanent_actions.immediate_return == old(self).permanent_actions.immediate_return,
            (match old(self).permanent_actions.broadcast {
                Option::Some(b) => final(self).one_time_actions@ == old(self).one_time_actions@.push(OneTimeAction::SetOrigin { origin: b.original_origin }),
                Option::None => final(self).one_time_actions == old(self).one_time_actions,
            }),
            same_storage_state(*final(self), *old(self)),
            same_returns(*final(self), *old(self)),
            final(self).wf() == old(self).wf(),
            final(self).expected_calls == old(self).expected_calls,
            final(self).next_return_action == old(self).next_return_action,
            final(self).emit_config == old(self).emit_config,
            final(self).test_status == old(self).test_status,
            final(self).mock_calls == old(self).mock_calls,
            final(self).broadcastable_transactions == old(self).broadcastable_transactions,
            final(self).env == old(self).env,
            final(self).recording_logs == old(self).recording_logs,
            final(self).recording_timestamp == old(self).recording_timestamp,
            final(self).serialized_objects == old(self).serialized_objects,
            final(self).active_farcall_stack == old(self).active_farcall_stack,
            final(self).current_opcode == old(self).current_opcode,
    {
        let broadcast = self.permanent_actions.broadcast.take();
        match broadcast {
            Some(b) => {
                self.one_time_actions.push(
                    OneTimeAction::SetOrigin { origin: b.original_origin },
                );
            },
            None => {},
        }
    }

    /// The test-wide delta merged with the pending one, excluding
    /// system-context keys; the pending side wins on shared keys.
    pub fn get_modified_storage(&self, pending: &StorageMap) -> (r: StorageMap)
        requires
            self.wf(),
            pending.wf(),
        ensures
            r.wf(),
            forall|k: StorageKey|
                (#[trigger] r@.contains_key(k) <==> crate::storage::merged_view(
                    self.storage_modifications.keys@,
                    pending@,
                    k,
                ) is Some),
            forall|k: StorageKey|
                r@.contains_key(k) ==> Option::Some(#[trigger] r@[k])
                    == crate::storage::merged_view(
                    self.storage_modifications.keys@,
                    pending@,
                    k,
                ),
    {
        crate::storage::merge_excluding_system_context(&self.storage_modifications.keys, pending)
    }

    /// The test-wide bytecodes merged with this transaction's; later
    /// entries override earlier ones when replayed.
    pub fn get_modified_bytecodes(&self, tx_bytecodes: &Vec<(Word, Vec<u8>)>) -> (r: Vec<
        (Word, Vec<u8>),
    >)
        ensures
            r@.len() == self.storage_modifications.bytecodes@.len() + tx_bytecodes@.len(),
            forall|i: int|
                0 <= i < self.storage_modifications.bytecodes@.len() ==> (#[trigger] r@[i]).0
                    == self.storage_modifications.bytecodes@[i].0 && r@[i].1@
                    == self.storage_modifications.bytecodes@[i].1@,
            forall|i: int|
                0 <= i < tx_bytecodes@.len()
                    ==> (#[trigger] r@[self.storage_modifications.bytecodes@.len() + i]).0
                    == tx_bytecodes@[i].0
                    && r@[self.storage_modifications.bytecodes@.len() + i].1@
                    == tx_bytecodes@[i].1@,
    {
        let base = &self.storage_modifications.bytecodes;
        let mut out: Vec<(Word, Vec<u8>)> = Vec::new();
        let mut i: usize = 0;
        while i < base.len()
            invariant
                i <= base@.len(),
                out@.len() == i,
                forall|j: int|
                    0 <= j < i ==> (#[trigger] out@[j]).0 == base@[j].0 && out@[j].1@
                        == base@[j].1@,
            decreases base@.len() - i,
        {
            let hash = base[i].0;
            let code = crate::bytes::copy_bytes(&base[i].1);
            out.push((hash, code));
            i = i + 1;
        }
        let mut j: usize = 0;
        while j < tx_bytecodes.len()
            invariant
                j <= tx_bytecodes@.len(),
                out@.len() == base@.len() + j,
                forall|k2: int|
                    0 <= k2 < base@.len() ==> (#[trigger] out@[k2]).0 == base@[k2].0
                        && out@[k2].1@ == base@[k2].1@,
                forall|k2: int|
                    0 <= k2 < j ==> (#[trigger] out@[base@.len() + k2]).0 == tx_bytecodes@[k2].0
                        && out@[base@.len() + k2].1@ == tx_bytecodes@[k2].1@,
            decreases tx_bytecodes@.len() - j,
        {
            let hash = tx_bytecodes[j].0;
            let code = crate::bytes::copy_bytes(&tx_bytecodes[j].1);
            out.push((hash, code));
            j = j + 1;
        }
        out
    }
}

impl CheatcodeTracer {
    /// The before-instruction hook: caches the current opcode snapshot,
    /// remembers the frame of an outside call, and — while a revert
    /// expectation is armed — records the continuation and
    /// exception-handler program counters from every observed return, so
    /// they are still known when the watched return is confirmed.
    pub fn before_execution(&mut self, state: &VmStateView, op: &OpcodeView)
        ensures
            final(self).current_opcode == Option::Some(
                CurrentOpcode {
                    variant: op.variant,
                    pc: state.current.pc,
                    base_page: state.current.base_memory_page,
                    code_page: state.current.code_page,
                },
            ),
            final(self).active_farcall_stack == (if op.variant == OpcodeVariant::FarCall {
                Option::Some(state.current)
            } else {
                old(self).active_farcall_stack
            }),
            ({
                let capture = op.variant matches OpcodeVariant::Ret(_)
                    && old(self).next_return_action is Some && state.parent is Some;
                if capture {
                    old(self).next_return_action matches Option::Some(n)
                        && n.action matches ActionOnReturn::ExpectRevert {
                        reason,
                        depth,
                        ..
                    } && final(self).next_return_action == Option::Some(
                        NextReturnAction {
                            target_depth: n.target_depth,
                            returns_to_skip: n.returns_to_skip,
                            action: ActionOnReturn::ExpectRevert {
                                reason,
                                depth,
                                prev_continue_pc: Option::Some(
                                    if op.ret_to_label && state.current.is_local_frame {
                                        op.imm_0
                                    } else {
                                        (match state.parent {
                                            Option::Some(p) => p.pc,
                                            Option::None => 0u16,
                                        })
                                    },
                                ),
                                prev_exception_handler_pc: Option::Some(
                                    state.current.exception_handler_location,
                                ),
                            },
                        },
                    )
                } else {
                    final(self).next_return_action == old(self).next_return_action
                }
            }),
            same_returns(*final(self), *old(self)),
            same_storage_state(*final(self), *old(self)),
            same_queue(*final(self), *old(self)),
            final(self).wf() == old(self).wf(),
            final(self).expected_calls == old(self).expected_calls,
            final(self).emit_config == old(self).emit_config,
            final(self).test_status == old(self).test_status,
            final(self).mock_calls == old(self).mock_calls,
            final(self).permanent_actions == old(self).permanent_actions,
            final(self).broadcastable_transactions == old(self).broadcastable_transactions,
            final(self).env == old(self).env,
            final(self).recording_logs == old(self).recording_logs,
            final(self).recording_timestamp == old(self).recording_timestamp,
            final(self).serialized_objects == old(self).serialized_objects,
    {
        self.current_opcode = Some(
            CurrentOpcode {
                variant: op.variant,
                pc: state.current.pc,
                base_page: state.current.base_memory_page,
                code_page: state.current.code_page,
            },
        );
        match op.variant {
            OpcodeVariant::FarCall => {
                self.active_farcall_stack = Some(state.current);
            },
            _ => {},
        }
        let is_ret = match op.variant {
            OpcodeVariant::Ret(_) => true,
            _ => false,
        };
        if is_ret {
            match (&mut self.next_return_action, &state.parent) {
                (Some(next_action), Some(parent)) => {
                    let continue_pc = if op.ret_to_label && state.current.is_local_frame {
                        op.imm_0
                    } else {
                        parent.pc
                    };
                    match &mut next_action.action {
                        ActionOnReturn::ExpectRevert {
                            prev_continue_pc,
                            prev_exception_handler_pc,
                            ..
                        } => {
                            *prev_continue_pc = Some(continue_pc);
                            *prev_exception_handler_pc = Some(
                                state.current.exception_handler_location,
                            );
                        },
                    }
                },
                _ => {},
            }
        }
    }

    /// The expected-revert resolution step of the after-instruction hook:
    /// on the watched return at the armed depth — after skipping the
    /// declared number of intermediate returns — schedules a forced
    /// return when the expectation is satisfied and a forced revert
    /// carrying the failure report when it is not.  A panic return, or
    /// missing saved continuations, leaves the expectation untouched.
    pub fn handle_return(&mut self, state: &VmStateView, op: &OpcodeView, ret_info: Option<&crate::vm_view::RetInfo>)
        ensures
            same_returns(*final(self), *old(self)),
            same_storage_state(*final(self), *old(self)),
            final(self).wf() == old(self).wf(),
            final(self).expected_calls == old(self).expected_calls,
            final(self).emit_config == old(self).emit_config,
            final(self).test_status == old(self).test_status,
            final(self).mock_calls == old(self).mock_calls,
            final(self).permanent_actions == old(self).permanent_actions,
            final(self).broadcastable_transactions == old(self).broadcastable_transactions,
            final(self).env == old(self).env,
            final(self).recording_logs == old(self).recording_logs,
            final(self).recording_timestamp == old(self).recording_timestamp,
            final(self).serialized_objects == old(self).serialized_objects,
            final(self).active_farcall_stack == old(self).active_farcall_stack,
            final(self).current_opcode == old(self).current_opcode,
            ({
                let untouched = final(self).next_return_action == old(self).next_return_action
                    && final(self).one_time_actions == old(self).one_time_actions;
                match old(self).next_return_action {
                    Option::None => untouched,
                    Option::Some(n) => {
                        if state.depth != n.target_depth || !(op.variant
                            matches OpcodeVariant::Ret(_)) {
                            untouched
                        } else if n.returns_to_skip != 0 {
                            &&& final(self).one_time_actions == old(self).one_time_actions
                            &&& final(self).next_return_action == Option::Some(
                                NextReturnAction {
                                    target_depth: n.target_depth,
                                    returns_to_skip: (n.returns_to_skip - 1) as usize,
                                    action: n.action,
                                },
                            )
                        } else {
                            n.action matches ActionOnReturn::ExpectRevert {
                                reason,
                                prev_continue_pc,
                                prev_exception_handler_pc,
                                ..
                            } && (op.variant matches OpcodeVariant::Ret(k) && ({
                                let retdata = (match ret_info {
                                    Option::Some(ri) => match ri.return_data {
                                        Option::Some(d) => d@,
                                        Option::None => Seq::<u8>::empty(),
                                    },
                                    Option::None => Seq::<u8>::empty(),
                                });
                                let reason_v = (match reason {
                                    Option::Some(rv) => Option::Some(rv@),
                                    Option::None => Option::<Seq<u8>>::None,
                                });
                                match k {
                                    RetKind::Panic => untouched,
                                    RetKind::Revert => {
                                        if prev_continue_pc is None
                                            || prev_exception_handler_pc is None {
                                            untouched
                                        } else {
                                            &&& final(self).next_return_action is None
                                            &&& final(self).one_time_actions@.len() == old(self).one_time_actions@.len() + 1
                                            &&& final(self).one_time_actions@.take(
                                                old(self).one_time_actions@.len() as int,
                                            ) == old(self).one_time_actions@
                                            &&& (if crate::revert::expect_revert_satisfied(
                                                reason_v,
                                                k,
                                                retdata,
                                            ) {
                                                final(self).one_time_actions@.last()
                                                    matches OneTimeAction::ForceReturn {
                                                    data,
                                                    continue_pc,
                                                } && data@ == seq![0xdeu8, 0xadu8, 0xbeu8, 0xefu8]
                                                    && Option::Some(continue_pc)
                                                    == prev_continue_pc
                                            } else {
                                                final(self).one_time_actions@.last()
                                                    matches OneTimeAction::ForceRevert {
                                                    error,
                                                    exception_handler,
                                                } && crate::revert::revert_error_describes(
                                                    error,
                                                    reason_v,
                                                    k,
                                                    retdata,
                                                ) && Option::Some(exception_handler)
                                                    == prev_exception_handler_pc
                                            })
                                        }
                                    },
                                    RetKind::Normal => {
                                        if prev_exception_handler_pc is None {
                                            untouched
                                        } else {
                                            &&& final(self).next_return_action is None
                                            &&& final(self).one_time_actions@.len() == old(self).one_time_actions@.len() + 1
                                            &&& final(self).one_time_actions@.take(
                                                old(self).one_time_actions@.len() as int,
                                            ) == old(self).one_time_actions@
                                            &&& (final(self).one_time_actions@.last()
                                                matches OneTimeAction::ForceRevert {
                                                error,
                                                exception_handler,
                                            } && crate::revert::revert_error_describes(
                                                error,
                                                reason_v,
                                                k,
                                                retdata,
                                            ) && Option::Some(exception_handler)
                                                == prev_exception_handler_pc)
                                        }
                                    },
                                }
                            }))
                        }
                    },
                }
            }),
    {
        let armed = match &self.next_return_action {
            Some(n) => state.depth == n.target_depth,
            None => false,
        };
        if !armed {
            return ;
        }
        let k = match op.variant {
            OpcodeVariant::Ret(k) => k,
            _ => {
                return ;
            },
        };
        let skip = match &self.next_return_action {
            Some(n) => n.returns_to_skip,
            None => 0,
        };
        if skip != 0 {
            match &mut self.next_return_action {
                Some(n) => {
                    n.returns_to_skip = n.returns_to_skip - 1;
                },
                None => {},
            }
            proof {
                assert(final(self).next_return_action matches Option::Some(n2)
                    && old(self).next_return_action matches Option::Some(n) && n2
                    == NextReturnAction {
                    target_depth: n.target_depth,
                    returns_to_skip: (n.returns_to_skip - 1) as usize,
                    action: n.action,
                });
            }
            return ;
        }
        let empty: Vec<u8> = Vec::new();
        let retdata: &Vec<u8> = match ret_info {
            Some(ri) => match &ri.return_data {
                Some(d) => d,
                None => &empty,
            },
            None => &empty,
        };
        match k {
            RetKind::Panic => {},
            RetKind::Revert => {
                let (continue_pc, exception_handler) = match &self.next_return_action {
                    Some(n) => match &n.action {
                        ActionOnReturn::ExpectRevert {
                            prev_continue_pc,
                            prev_exception_handler_pc,
                            ..
                        } => (*prev_continue_pc, *prev_exception_handler_pc),
                    },
                    None => (None, None),
                };
                match (continue_pc, exception_handler) {
                    (Some(cpc), Some(ehp)) => {
                        let outcome = match &self.next_return_action {
                            Some(n) => match &n.action {
                                ActionOnReturn::ExpectRevert { reason, .. } => {
                                    crate::revert::handle_except_revert(
                                        reason.as_ref(),
                                        k,
                                        retdata,
                                    )
                                },
                            },
                            None => Ok(()),
                        };
                        match outcome {
                            Ok(()) => {
                                let mut data: Vec<u8> = Vec::new();
                                data.push(0xde);
                                data.push(0xad);
                                data.push(0xbe);
                                data.push(0xef);
                                proof {
                                    assert(data@ =~= seq![0xdeu8, 0xadu8, 0xbeu8, 0xefu8]);
                                }
                                self.one_time_actions.push(
                                    OneTimeAction::ForceReturn { data, continue_pc: cpc },
                                );
                            },
                            Err(error) => {
                                self.one_time_actions.push(
                                    OneTimeAction::ForceRevert {
                                        error,
                                        exception_handler: ehp,
                                    },
                                );
                            },
                        }
                        self.next_return_action = None;
                        proof {
                            assert(final(self).one_time_actions@.take(
                                old(self).one_time_actions@.len() as int,
                            ) =~= old(self).one_time_actions@);
                        }
                    },
                    _ => {},
                }
            },
            RetKind::Normal => {
                let exception_handler = match &self.next_return_action {
                    Some(n) => match &n.action {
                        ActionOnReturn::ExpectRevert { prev_exception_handler_pc, .. } => {
                            *prev_exception_handler_pc
                        },
                    },
                    None => None,
                };
                match exception_handler {
                    Some(ehp) => {
                        let outcome = match &self.next_return_action {
                            Some(n) => match &n.action {
                                ActionOnReturn::ExpectRevert { reason, .. } => {
                                    crate::revert::handle_except_revert(
                                        reason.as_ref(),
                                        k,
                                        retdata,
                                    )
                                },
                            },
                            None => Ok(()),
                        };
                        match outcome {
                            Ok(()) => {},
                            Err(error) => {
                                self.one_time_actions.push(
                                    OneTimeAction::ForceRevert {
                                        error,
                                        exception_handler: ehp,
                                    },
                                );
                            },
                        }
                        self.next_return_action = None;
                        proof {
                            assert(final(self).one_time_actions@.take(
                                old(self).one_time_actions@.len() as int,
                            ) =~= old(self).one_time_actions@);
                        }
                    },
                    _ => {},
                }
            },
        }
    }
}

/// Whether a request variant queues one-shot actions.
pub open spec fn call_may_queue(call: CheatcodeCall) -> bool {
    ||| call matches CheatcodeCall::Deal { .. }
    ||| call matches CheatcodeCall::MakePersistent { .. }
    ||| call matches CheatcodeCall::RevokePersistent { .. }
    ||| call matches CheatcodeCall::Roll { .. }
    ||| call matches CheatcodeCall::Warp { .. }
    ||| call matches CheatcodeCall::RollFork { .. }
    ||| call matches CheatcodeCall::Snapshot
    ||| call matches CheatcodeCall::RevertTo { .. }
    ||| call matches CheatcodeCall::Store { .. }
    ||| call matches CheatcodeCall::CreateFork { .. }
    ||| call matches CheatcodeCall::CreateSelectFork { .. }
    ||| call matches CheatcodeCall::SelectFork { .. }
    ||| call matches CheatcodeCall::SetNonce { .. }
    ||| call matches CheatcodeCall::StartPrank { .. }
    ||| call matches CheatcodeCall::StopPrank
    ||| call matches CheatcodeCall::StopBroadcast
}

/// Whether a request variant sets pending return data.
pub open spec fn call_may_return_data(call: CheatcodeCall) -> bool {
    ||| call matches CheatcodeCall::GetNonce { .. }
    ||| call matches CheatcodeCall::Load { .. }
    ||| call matches CheatcodeCall::ReadCallers
    ||| call matches CheatcodeCall::RevertTo { .. }
    ||| call matches CheatcodeCall::SerializeBool { .. }
    ||| call matches CheatcodeCall::ToStringBytes { .. }
    ||| call matches CheatcodeCall::ToStringBool { .. }
}

/// The dispatcher's whole contract, as a relation between the tracer
/// before (`pre`) and after (`post`) routing one request, the storage
/// view `s` the handler read, the VM state, the request and the reported
/// outcome.  The after-instruction hook's contract reuses this relation,
/// so a caller of the hook learns exactly what a dispatched request did.
pub open spec fn dispatch_post<S: StorageSource>(
    pre: CheatcodeTracer,
    post: CheatcodeTracer,
    s: S,
    state: VmStateView,
    call: CheatcodeCall,
    r: DispatchOutcome,
) -> bool {
    &&& same_storage_state(post, pre)
    &&& post.test_status == pre.test_status
    &&& post.return_ptr == pre.return_ptr
    &&& post.near_calls == pre.near_calls
    &&& post.env == pre.env
    &&& post.active_farcall_stack == pre.active_farcall_stack
    &&& post.current_opcode == pre.current_opcode
    &&& post.broadcastable_transactions == pre.broadcastable_transactions
    &&& (!(call matches CheatcodeCall::ExpectCall { .. }) ==> post.expected_calls
        == pre.expected_calls)
    &&& (!(call matches CheatcodeCall::MockCall { .. }) ==> post.mock_calls == pre.mock_calls)
    &&& (!(call matches CheatcodeCall::ExpectEmit { .. }) ==> post.emit_config == pre.emit_config)
    &&& (!(call matches CheatcodeCall::ExpectRevert { .. }) ==> post.next_return_action
        == pre.next_return_action)
    &&& (!(call matches CheatcodeCall::StartPrank { .. }) && !(call
        matches CheatcodeCall::StopPrank) && !(call matches CheatcodeCall::StartBroadcast { .. })
        && !(call matches CheatcodeCall::StopBroadcast) ==> post.permanent_actions
        == pre.permanent_actions)
    &&& (!(call matches CheatcodeCall::RecordLogs) ==> post.recording_logs == pre.recording_logs
        && post.recording_timestamp == pre.recording_timestamp)
    &&& (!(call matches CheatcodeCall::SerializeBool { .. }) ==> post.serialized_objects
        == pre.serialized_objects)
    &&& (!call_may_return_data(call) ==> post.return_data == pre.return_data)
    &&& (!call_may_queue(call) ==> post.one_time_actions == pre.one_time_actions)
    &&& post.one_time_actions@.len() >= pre.one_time_actions@.len()
    &&& match call {
        CheatcodeCall::Deal { account, new_balance } => {
            &&& r == DispatchOutcome::Handled
            &&& post.one_time_actions@.len() == pre.one_time_actions@.len() + 1
            &&& post.one_time_actions@.take(pre.one_time_actions@.len() as int)
                == pre.one_time_actions@
            &&& (post.one_time_actions@.last() matches OneTimeAction::StorageWrite {
                key,
                read_value,
                write_value,
            } && write_value == new_balance && read_value == s.value_at(key))
        },
        CheatcodeCall::ExpectRevert { reason } => {
            if state.depth == 0 {
                r == DispatchOutcome::DepthTooShallow && post.next_return_action
                    == pre.next_return_action
            } else {
                match r {
                    DispatchOutcome::Handled => {
                        &&& pre.next_return_action is None
                        &&& (post.next_return_action matches Option::Some(n) && ({
                            &&& n.target_depth == state.depth - 1
                            &&& n.returns_to_skip == 1
                            &&& (n.action matches ActionOnReturn::ExpectRevert {
                                reason: r2,
                                prev_continue_pc,
                                prev_exception_handler_pc,
                                ..
                            } && r2 == reason && prev_continue_pc is None
                                && prev_exception_handler_pc is None)
                        }))
                    },
                    DispatchOutcome::Refused(e) => {
                        &&& e == UsageError::ExpectRevertAlreadyArmed
                        &&& pre.next_return_action is Some
                        &&& post.next_return_action == pre.next_return_action
                    },
                    _ => false,
                }
            }
        },
        CheatcodeCall::ExpectCall { callee, calldata, value, count } => {
            match r {
                DispatchOutcome::Handled => {
                    &&& post.expected_calls.has_registration(callee, calldata@)
                    &&& (match count {
                        Option::Some(c) => {
                            &&& !pre.expected_calls.has_registration(callee, calldata@)
                            &&& post.expected_calls.registration_for(callee, calldata@).data.count
                                == c
                            &&& post.expected_calls.registration_for(
                                callee,
                                calldata@,
                            ).data.call_type == crate::expect_call::ExpectedCallType::Exact
                            &&& post.expected_calls.registration_for(callee, calldata@).actual == 0
                        },
                        Option::None => {
                            if pre.expected_calls.has_registration(callee, calldata@) {
                                &&& pre.expected_calls.registration_for(
                                    callee,
                                    calldata@,
                                ).data.call_type == crate::expect_call::ExpectedCallType::AtLeast
                                &&& pre.expected_calls.registration_for(callee, calldata@).data.count
                                    < u64::MAX
                                &&& post.expected_calls.registration_for(
                                    callee,
                                    calldata@,
                                ).data.count == pre.expected_calls.registration_for(
                                    callee,
                                    calldata@,
                                ).data.count + 1
                            } else {
                                post.expected_calls.registration_for(callee, calldata@).data.count
                                    == 1 && post.expected_calls.registration_for(
                                    callee,
                                    calldata@,
                                ).data.call_type == crate::expect_call::ExpectedCallType::AtLeast
                            }
                        },
                    })
                },
                DispatchOutcome::Refused(e) => {
                    &&& post.expected_calls == pre.expected_calls
                    &&& (e == UsageError::CountedCallAlreadyRegistered <==> (count is Some
                        && pre.expected_calls.has_registration(callee, calldata@)))
                    &&& (e == UsageError::CannotOverwriteCountedCall <==> (count is None
                        && pre.expected_calls.has_registration(callee, calldata@)
                        && pre.expected_calls.registration_for(callee, calldata@).data.call_type
                        == crate::expect_call::ExpectedCallType::Exact))
                    &&& (e == UsageError::ExpectedCallCountOverflow <==> (count is None
                        && pre.expected_calls.has_registration(callee, calldata@)
                        && pre.expected_calls.registration_for(callee, calldata@).data.call_type
                        == crate::expect_call::ExpectedCallType::AtLeast
                        && pre.expected_calls.registration_for(callee, calldata@).data.count
                        == u64::MAX))
                },
                _ => false,
            }
        },
        CheatcodeCall::ExpectEmit { checks } => {
            &&& r == DispatchOutcome::Handled
            &&& post.emit_config.expected_emit_state
                == crate::events::ExpectedEmitState::ExpectedEmitTriggered
            &&& post.emit_config.expect_emits_since == state.timestamp
            &&& post.emit_config.checks == checks
            &&& post.emit_config.call_depth == (if checks.address is Some {
                state.depth
            } else {
                pre.emit_config.call_depth
            })
        },
        CheatcodeCall::GetNonce { .. } => {
            &&& r == DispatchOutcome::Handled
            &&& (post.return_data matches Option::Some(d) && d@.len() == 1 && d@[0].hi == 0)
        },
        CheatcodeCall::Load { target, slot } => {
            &&& r == DispatchOutcome::Handled
            &&& (post.return_data matches Option::Some(d) && d@.len() == 1 && d@[0] == (if target
                == crate::addrs::cheatcode_address() {
                Word { hi: 0, lo: 0 }
            } else {
                s.value_at(StorageKey { addr: target, slot })
            }))
        },
        CheatcodeCall::MakePersistent { accounts } => {
            &&& r == DispatchOutcome::Handled
            &&& post.one_time_actions@ == pre.one_time_actions@.push(
                OneTimeAction::MakePersistentAccounts { accounts },
            )
        },
        CheatcodeCall::MockCall { callee, calldata, return_data } => {
            &&& r == DispatchOutcome::Handled
            &&& post.mock_calls@.len() == pre.mock_calls@.len() + 1
            &&& post.mock_calls@.take(pre.mock_calls@.len() as int) == pre.mock_calls@
            &&& post.mock_calls@.last().filter.address == callee
            &&& post.mock_calls@.last().filter.calldata@ == calldata@
            &&& post.mock_calls@.last().filter.return_data@ == return_data@
            &&& post.mock_calls@.last().mock_next is None
        },
        CheatcodeCall::RecordLogs => {
            &&& r == DispatchOutcome::Handled
            &&& post.recording_logs
            &&& post.recording_timestamp == state.timestamp
        },
        CheatcodeCall::ReadCallers => {
            &&& r == DispatchOutcome::Handled
            &&& (post.return_data matches Option::Some(d) && ({
                let origin = s.value_at(tx_origin_key());
                &&& d@.len() == 3
                &&& d@[0].as_int() == (match pre.permanent_actions.start_prank {
                    Option::Some(_) => 4int,
                    Option::None => 0int,
                })
                &&& d@[1] == (match pre.permanent_actions.start_prank {
                    Option::Some(p) => Word { hi: p.sender.hi as u128, lo: p.sender.lo },
                    Option::None => origin,
                })
                &&& d@[2] == origin
            }))
        },
        CheatcodeCall::RevertTo { snapshot_id } => {
            &&& r == DispatchOutcome::Handled
            &&& post.one_time_actions@ == pre.one_time_actions@.push(
                OneTimeAction::RevertToSnapshot { snapshot_id },
            )
            &&& (post.return_data matches Option::Some(d) && d@.len() == 1 && d@[0].as_int() == 1)
        },
        CheatcodeCall::RevokePersistent { accounts } => {
            &&& r == DispatchOutcome::Handled
            &&& post.one_time_actions@ == pre.one_time_actions@.push(
                OneTimeAction::RevokePersistentAccounts { accounts },
            )
        },
        CheatcodeCall::Roll { new_height } => {
            let stored = s.value_at(block_info_key());
            if stored.halves_fit_u64() {
                &&& r == DispatchOutcome::Handled
                &&& post.one_time_actions@ == pre.one_time_actions@.push(
                    OneTimeAction::StorageWrite {
                        key: block_info_key(),
                        read_value: stored,
                        write_value: Word { hi: new_height as u128, lo: stored.lo },
                    },
                )
            } else {
                r == DispatchOutcome::MalformedBlockInfo && post.one_time_actions
                    == pre.one_time_actions
            }
        },
        CheatcodeCall::RollFork { block_number, fork_id } => {
            if pre.permanent_actions.broadcast is Some {
                r == DispatchOutcome::Refused(UsageError::ForkDuringBroadcast)
                    && post.one_time_actions == pre.one_time_actions
            } else {
                &&& r == DispatchOutcome::Handled
                &&& post.one_time_actions@ == pre.one_time_actions@.push(
                    OneTimeAction::RollFork { block_number, fork_id },
                )
            }
        },
        CheatcodeCall::SerializeBool { object_key, value_key, value } => {
            &&& r == DispatchOutcome::Handled
            &&& post.serialized_objects@.len() == pre.serialized_objects@.len() + 1
            &&& post.serialized_objects@.take(pre.serialized_objects@.len() as int)
                == pre.serialized_objects@
            &&& post.serialized_objects@.last().0@ == object_key@
            &&& post.serialized_objects@.last().1@ == crate::jsonobj::json_bool_object(
                value_key@,
                value,
            )
            &&& (post.return_data matches Option::Some(d) && ({
                let text = crate::encode::bool_text_bytes(value);
                &&& d@.len() == 3
                &&& d@[0].as_int() == 32
                &&& d@[1].as_int() == text.len()
                &&& d@[2].as_int() == crate::bytes::be_int(crate::encode::padded_chunk(text, 0))
            }))
        },
        CheatcodeCall::SetNonce { account, new_nonce } => {
            &&& r == DispatchOutcome::Handled
            &&& (post.one_time_actions == pre.one_time_actions || exists|k: StorageKey|
                ({
                    let full = #[trigger] s.value_at(k);
                    &&& full.lo < new_nonce && full.hi < new_nonce
                    &&& post.one_time_actions@ == pre.one_time_actions@.push(
                        OneTimeAction::StorageWrite {
                            key: k,
                            read_value: full,
                            write_value: Word { hi: new_nonce as u128, lo: new_nonce as u128 },
                        },
                    )
                }))
        },
        CheatcodeCall::Snapshot => {
            &&& r == DispatchOutcome::Handled
            &&& post.one_time_actions@ == pre.one_time_actions@.push(OneTimeAction::Snapshot)
        },
        CheatcodeCall::StartBroadcast { .. } => {
            match r {
                DispatchOutcome::Handled => post.permanent_actions.broadcast is Some,
                DispatchOutcome::Refused(e) => e == UsageError::BroadcastDuringPrank
                    && post.permanent_actions == pre.permanent_actions,
                _ => false,
            }
        },
        CheatcodeCall::StartPrank { sender, origin } => {
            match r {
                DispatchOutcome::Handled => {
                    &&& pre.permanent_actions.broadcast is None
                    &&& (post.permanent_actions.start_prank matches Option::Some(p) && p.sender
                        == sender && (p.origin is Some <==> origin is Some))
                },
                DispatchOutcome::Refused(e) => e == UsageError::PrankDuringBroadcast
                    && post.permanent_actions == pre.permanent_actions,
                _ => false,
            }
        },
        CheatcodeCall::StopBroadcast => {
            &&& r == DispatchOutcome::Handled
            &&& post.permanent_actions.broadcast is None
        },
        CheatcodeCall::StopPrank => {
            &&& r == DispatchOutcome::Handled
            &&& post.permanent_actions.start_prank is None
        },
        CheatcodeCall::Store { target, slot, value } => {
            &&& r == DispatchOutcome::Handled
            &&& post.one_time_actions@ == pre.one_time_actions@.push(
                OneTimeAction::StorageWrite {
                    key: StorageKey { addr: target, slot },
                    read_value: s.value_at(StorageKey { addr: target, slot }),
                    write_value: value,
                },
            )
        },
        CheatcodeCall::ToStringBytes { value } => {
            &&& (r == DispatchOutcome::DataTooLarge <==> value@.len() > (usize::MAX - 65) / 2)
            &&& match r {
                DispatchOutcome::Handled => post.return_data matches Option::Some(d) && ({
                    let text = crate::encode::char_bytes(
                        seq!['0', 'x'] + crate::encode::hex_of(value@),
                    );
                    &&& d@.len() == 2 + crate::encode::word_count_of(text.len())
                    &&& d@[0].as_int() == 32
                    &&& d@[1].as_int() == text.len()
                    &&& (forall|w: int|
                        2 <= w < d@.len() ==> (#[trigger] d@[w]).as_int() == crate::bytes::be_int(
                            crate::encode::padded_chunk(text, 32 * (w - 2)),
                        ))
                }),
                DispatchOutcome::DataTooLarge => post.return_data == pre.return_data,
                _ => false,
            }
        },
        CheatcodeCall::ToStringBool { value } => {
            &&& r == DispatchOutcome::Handled
            &&& (post.return_data matches Option::Some(d) && ({
                let text = crate::encode::bool_text_bytes(value);
                &&& d@.len() == 3
                &&& d@[0].as_int() == 32
                &&& d@[1].as_int() == text.len()
                &&& d@[2].as_int() == crate::bytes::be_int(crate::encode::padded_chunk(text, 0))
            }))
        },
        CheatcodeCall::Warp { new_timestamp } => {
            let stored = s.value_at(block_info_key());
            if stored.halves_fit_u64() {
                &&& r == DispatchOutcome::Handled
                &&& post.one_time_actions@ == pre.one_time_actions@.push(
                    OneTimeAction::StorageWrite {
                        key: block_info_key(),
                        read_value: stored,
                        write_value: Word { hi: stored.hi, lo: new_timestamp as u128 },
                    },
                )
            } else {
                r == DispatchOutcome::MalformedBlockInfo && post.one_time_actions
                    == pre.one_time_actions
            }
        },
        CheatcodeCall::CreateSelectFork { url_or_alias, block_number } => {
            if pre.permanent_actions.broadcast is Some {
                r == DispatchOutcome::Refused(UsageError::ForkDuringBroadcast)
                    && post.one_time_actions == pre.one_time_actions
            } else {
                &&& r == DispatchOutcome::Handled
                &&& post.one_time_actions@ == pre.one_time_actions@.push(
                    OneTimeAction::CreateSelectFork { url_or_alias, block_number },
                )
            }
        },
        CheatcodeCall::CreateFork { url_or_alias, block_number } => {
            if pre.permanent_actions.broadcast is Some {
                r == DispatchOutcome::Refused(UsageError::ForkDuringBroadcast)
                    && post.one_time_actions == pre.one_time_actions
            } else {
                &&& r == DispatchOutcome::Handled
                &&& post.one_time_actions@ == pre.one_time_actions@.push(
                    OneTimeAction::CreateFork { url_or_alias, block_number },
                )
            }
        },
        CheatcodeCall::SelectFork { fork_id } => {
            if pre.permanent_actions.broadcast is Some {
                r == DispatchOutcome::Refused(UsageError::ForkDuringBroadcast)
                    && post.one_time_actions == pre.one_time_actions
            } else {
                &&& r == DispatchOutcome::Handled
                &&& post.one_time_actions@ == pre.one_time_actions@.push(
                    OneTimeAction::SelectFork { fork_id },
                )
            }
        },
    }
}

/// The tracer as the dispatcher observes it within the after-instruction
/// hook: before routing a request the hook has advanced the test
/// lifecycle (resetting it and making the emit assertion due on a
/// finish); nothing else has moved.
pub open spec fn pre_dispatch_state(
    t: CheatcodeTracer,
    state: VmStateView,
    op: OpcodeView,
) -> CheatcodeTracer {
    let next = crate::test_state::next_test_status(
        t.test_status,
        op.variant == OpcodeVariant::FarCall,
        op.variant matches OpcodeVariant::Ret(_),
        state.current.code_address,
        state.depth,
    );
    if next == FoundryTestState::Finished {
        CheatcodeTracer {
            test_status: FoundryTestState::NotStarted,
            emit_config: crate::events::EmitConfig {
                expected_emit_state: crate::events::ExpectedEmitState::Assert,
                ..t.emit_config
            },
            ..t
        }
    } else {
        CheatcodeTracer { test_status: next, ..t }
    }
}

impl CheatcodeTracer {
    /// Routes one decoded request to its handler.  Each handler queues
    /// deferred actions, sets pending return data, or both; requests that
    /// contradict the current state are reported and dropped.
    pub fn dispatch_cheatcode<S: StorageSource>(
        &mut self,
        state: &VmStateView,
        storage: &mut S,
        call: CheatcodeCall,
    ) -> (r: DispatchOutcome)
        requires
            old(self).wf(),
        ensures
            final(self).wf(),
            forall|k: StorageKey| #[trigger]
                final(storage).value_at(k) == old(storage).value_at(k),
            dispatch_post(*old(self), *final(self), *old(storage), *state, call, r),
    {
        match call {
            CheatcodeCall::Deal { account, new_balance } => {
                let key = storage.balance_key(&account);
                self.write_storage(key, new_balance, storage);
                proof {
                    assert(self.one_time_actions@.take(old(self).one_time_actions@.len() as int)
                        =~= old(self).one_time_actions@);
                }
                DispatchOutcome::Handled
            },
            CheatcodeCall::ExpectRevert { reason } => {
                if state.depth == 0 {
                    return DispatchOutcome::DepthTooShallow;
                }
                match self.add_expect_revert(reason, state.depth) {
                    Ok(()) => DispatchOutcome::Handled,
                    Err(e) => DispatchOutcome::Refused(e),
                }
            },
            CheatcodeCall::ExpectCall { callee, calldata, value, count } => {
                let outcome = match count {
                    Some(c) => self.expected_calls.register(
                        callee,
                        calldata,
                        value,
                        c,
                        crate::expect_call::ExpectedCallType::Exact,
                    ),
                    None => self.expected_calls.register(
                        callee,
                        calldata,
                        value,
                        1,
                        crate::expect_call::ExpectedCallType::AtLeast,
                    ),
                };
                match outcome {
                    Ok(()) => DispatchOutcome::Handled,
                    Err(e) => DispatchOutcome::Refused(e),
                }
            },
            CheatcodeCall::ExpectEmit { checks } => {
                self.emit_config.expected_emit_state =
                    crate::events::ExpectedEmitState::ExpectedEmitTriggered;
                self.emit_config.expect_emits_since = state.timestamp;
                let has_emitter = checks.address.is_some();
                self.emit_config.checks = checks;
                if has_emitter {
                    self.emit_config.call_depth = state.depth;
                }
                DispatchOutcome::Handled
            },
            CheatcodeCall::GetNonce { account } => {
                let (account_nonce, _) = Self::get_nonce(account, storage);
                let mut d: Vec<Word> = Vec::new();
                d.push(account_nonce);
                self.return_data = Some(d);
                DispatchOutcome::Handled
            },
            CheatcodeCall::Load { target, slot } => {
                let cheat_addr = crate::addrs::make_cheatcode_address();
                let mut d: Vec<Word> = Vec::new();
                if target == cheat_addr {
                    d.push(Word::zero());
                } else {
                    let key = StorageKey { addr: target, slot };
                    let v = storage.read_value(&key);
                    d.push(v);
                }
                self.return_data = Some(d);
                DispatchOutcome::Handled
            },
            CheatcodeCall::MakePersistent { accounts } => {
                self.one_time_actions.push(OneTimeAction::MakePersistentAccounts { accounts });
                DispatchOutcome::Handled
            },
            CheatcodeCall::MockCall { callee, calldata, return_data } => {
                self.mock_calls.push(
                    MockCall {
                        filter: crate::mock::FilterOps {
                            address: callee,
                            calldata,
                            return_data,
                        },
                        mock_next: None,
                    },
                );
                proof {
                    assert(final(self).mock_calls@.take(old(self).mock_calls@.len() as int)
                        =~= old(self).mock_calls@);
                }
                DispatchOutcome::Handled
            },
            CheatcodeCall::RecordLogs => {
                self.recording_timestamp = state.timestamp;
                self.recording_logs = true;
                DispatchOutcome::Handled
            },
            CheatcodeCall::ReadCallers => {
                let key = make_tx_origin_key();
                let current_origin = storage.read_value(&key);
                let mut mode: u64 = 0;
                let mut new_caller = current_origin;
                match &self.permanent_actions.start_prank {
                    Some(prank) => {
                        mode = 4;
                        new_caller = crate::addrs::word_of_addr(&prank.sender);
                    },
                    None => {},
                }
                let mut d: Vec<Word> = Vec::new();
                d.push(Word::from_u64(mode));
                d.push(new_caller);
                d.push(current_origin);
                self.return_data = Some(d);
                DispatchOutcome::Handled
            },
            CheatcodeCall::RevertTo { snapshot_id } => {
                self.one_time_actions.push(OneTimeAction::RevertToSnapshot { snapshot_id });
                let mut d: Vec<Word> = Vec::new();
                d.push(Word::from_u64(1));
                self.return_data = Some(d);
                DispatchOutcome::Handled
            },
            CheatcodeCall::RevokePersistent { accounts } => {
                self.one_time_actions.push(OneTimeAction::RevokePersistentAccounts { accounts });
                DispatchOutcome::Handled
            },
            CheatcodeCall::Roll { new_height } => {
                let key = make_block_info_key();
                let stored = storage.read_value(&key);
                if !stored.check_halves_fit_u64() {
                    return DispatchOutcome::MalformedBlockInfo;
                }
                let (_, block_timestamp) = crate::words::unpack_block_info(&stored);
                let packed = crate::words::pack_block_info(new_height, block_timestamp);
                self.write_storage(key, packed, storage);
                DispatchOutcome::Handled
            },
            CheatcodeCall::RollFork { block_number, fork_id } => {
                if self.permanent_actions.broadcast.is_some() {
                    return DispatchOutcome::Refused(UsageError::ForkDuringBroadcast);
                }
                self.one_time_actions.push(OneTimeAction::RollFork { block_number, fork_id });
                DispatchOutcome::Handled
            },
            CheatcodeCall::SerializeBool { object_key, value_key, value } => {
                let json = crate::jsonobj::json_object_with_bool(&value_key, value);
                self.serialized_objects.push((object_key, json));
                proof {
                    assert(self.serialized_objects@.take(
                        old(self).serialized_objects@.len() as int,
                    ) =~= old(self).serialized_objects@);
                }
                let text = crate::encode::bool_to_text_bytes(value);
                self.return_data = Some(crate::encode::encode_bytes_return(&text));
                DispatchOutcome::Handled
            },
            CheatcodeCall::SetNonce { account, new_nonce } => {
                let w = Word::from_u64(new_nonce);
                let _ = self.set_nonce(account, Some(w), Some(w), storage);
                DispatchOutcome::Handled
            },
            CheatcodeCall::Snapshot => {
                self.one_time_actions.push(OneTimeAction::Snapshot);
                DispatchOutcome::Handled
            },
            CheatcodeCall::StartBroadcast { origin } => {
                match self.start_broadcast(storage, state, origin) {
                    Ok(()) => DispatchOutcome::Handled,
                    Err(e) => DispatchOutcome::Refused(e),
                }
            },
            CheatcodeCall::StartPrank { sender, origin } => {
                match self.start_prank(storage, sender, origin) {
                    Ok(()) => DispatchOutcome::Handled,
                    Err(e) => DispatchOutcome::Refused(e),
                }
            },
            CheatcodeCall::StopBroadcast => {
                self.stop_broadcast();
                DispatchOutcome::Handled
            },
            CheatcodeCall::StopPrank => {
                self.stop_prank(storage);
                DispatchOutcome::Handled
            },
            CheatcodeCall::Store { target, slot, value } => {
                let key = StorageKey { addr: target, slot };
                self.write_storage(key, value, storage);
                DispatchOutcome::Handled
            },
            CheatcodeCall::ToStringBytes { value } => {
                if value.len() > (usize::MAX - 65) / 2 {
                    return DispatchOutcome::DataTooLarge;
                }
                let text = crate::encode::bytes_to_hex_bytes(&value);
                self.return_data = Some(crate::encode::encode_bytes_return(&text));
                DispatchOutcome::Handled
            },
            CheatcodeCall::ToStringBool { value } => {
                let text = crate::encode::bool_to_text_bytes(value);
                self.return_data = Some(crate::encode::encode_bytes_return(&text));
                DispatchOutcome::Handled
            },
            CheatcodeCall::Warp { new_timestamp } => {
                let key = make_block_info_key();
                let stored = storage.read_value(&key);
                if !stored.check_halves_fit_u64() {
                    return DispatchOutcome::MalformedBlockInfo;
                }
                let (block_number, _) = crate::words::unpack_block_info(&stored);
                let packed = crate::words::pack_block_info(block_number, new_timestamp);
                self.write_storage(key, packed, storage);
                DispatchOutcome::Handled
            },
            CheatcodeCall::CreateSelectFork { url_or_alias, block_number } => {
                if self.permanent_actions.broadcast.is_some() {
                    return DispatchOutcome::Refused(UsageError::ForkDuringBroadcast);
                }
                self.one_time_actions.push(
                    OneTimeAction::CreateSelectFork { url_or_alias, block_number },
                );
                DispatchOutcome::Handled
            },
            CheatcodeCall::CreateFork { url_or_alias, block_number } => {
                if self.permanent_actions.broadcast.is_some() {
                    return DispatchOutcome::Refused(UsageError::ForkDuringBroadcast);
                }
                self.one_time_actions.push(
                    OneTimeAction::CreateFork { url_or_alias, block_number },
                );
                DispatchOutcome::Handled
            },
            CheatcodeCall::SelectFork { fork_id } => {
                if self.permanent_actions.broadcast.is_some() {
                    return DispatchOutcome::Refused(UsageError::ForkDuringBroadcast);
                }
                self.one_time_actions.push(OneTimeAction::SelectFork { fork_id });
                DispatchOutcome::Handled
            },
        }
    }
}

impl CheatcodeTracer {
    /// The after-instruction hook: advances the emit and test-lifecycle
    /// machines, resolves armed revert expectations, counts expected
    /// calls, arms mocked returns, maintains the return channel, records
    /// broadcast transactions, and dispatches cheatcode requests.
    ///
    /// `far_call` must be supplied for outside-call instructions and
    /// `ret_info` for returns; what the host failed to resolve is skipped.
    pub fn after_execution<S: StorageSource>(
        &mut self,
        state: &VmStateView,
        op: &OpcodeView,
        far_call: Option<crate::vm_view::FarCallInfo>,
        ret_info: Option<&crate::vm_view::RetInfo>,
        storage: &mut S,
    ) -> (r: AfterExecutionReport)
        requires
            old(self).wf(),
        ensures
            final(self).wf(),
            forall|k: StorageKey| #[trigger]
                final(storage).value_at(k) == old(storage).value_at(k),
            same_storage_state(*final(self), *old(self)),
            final(self).env == old(self).env,
            final(self).active_farcall_stack == old(self).active_farcall_stack,
            final(self).current_opcode == old(self).current_opcode,
            final(self).one_time_actions@.len() >= old(self).one_time_actions@.len(),
            // The test lifecycle advances by one instruction; at finish the
            // expected-call registrations are checked and the lifecycle
            // resets.
            // Emit-window transitions: on an outside call while the
            // expected window is open, the expected window closes and the
            // actual window opens at the current timestamp; unwinding
            // below the watched depth closes the actual window; a test
            // finish makes the assertion due.
            ({
                let outside = state.current.code_address != crate::addrs::cheatcode_address()
                    && !crate::addrs::is_internal_address(state.current.code_address)
                    && !crate::addrs::is_reserved_address(state.current.code_address);
                let ec0 = old(self).emit_config;
                let opened = outside && op.variant == OpcodeVariant::FarCall
                    && ec0.expected_emit_state
                    == crate::events::ExpectedEmitState::ExpectedEmitTriggered;
                let ec1 = (if opened {
                    crate::events::EmitConfig {
                        call_emits_since: state.timestamp,
                        expect_emits_until: state.timestamp,
                        expected_emit_state: crate::events::ExpectedEmitState::CallTriggered,
                        call_depth: state.depth,
                        ..ec0
                    }
                } else {
                    ec0
                });
                let closing = outside && ec1.expected_emit_state
                    == crate::events::ExpectedEmitState::CallTriggered && state.depth
                    < ec1.call_depth;
                let ec2 = (if closing {
                    crate::events::EmitConfig { call_emits_until: state.timestamp, ..ec1 }
                } else {
                    ec1
                });
                let finished = crate::test_state::next_test_status(
                    old(self).test_status,
                    op.variant == OpcodeVariant::FarCall,
                    op.variant matches OpcodeVariant::Ret(_),
                    state.current.code_address,
                    state.depth,
                ) == FoundryTestState::Finished;
                let ec3 = (if finished {
                    crate::events::EmitConfig {
                        expected_emit_state: crate::events::ExpectedEmitState::Assert,
                        ..ec2
                    }
                } else {
                    ec2
                });
                let dispatched_emit = op.variant == OpcodeVariant::FarCall
                    && state.current.code_address == crate::addrs::cheatcode_address() && (
                far_call matches Option::Some(i2) && i2.decoded is Some);
                !dispatched_emit ==> final(self).emit_config == ec3
            }),
            // The return channel: while return data is pending, the first
            // return not nested in a near call saves its return pointer
            // for the end-of-cycle flush; near calls are counted in
            // between.
            (match op.variant {
                OpcodeVariant::Ret(_) => {
                    if old(self).return_data is Some {
                        if old(self).near_calls == 0 {
                            &&& final(self).near_calls == old(self).near_calls
                            &&& final(self).return_ptr == (match ret_info {
                                Option::Some(ri) => if ri.ret_params_ptr is Some {
                                    ri.ret_params_ptr
                                } else {
                                    old(self).return_ptr
                                },
                                Option::None => old(self).return_ptr,
                            })
                        } else {
                            &&& final(self).near_calls == old(self).near_calls - 1
                            &&& final(self).return_ptr == old(self).return_ptr
                        }
                    } else {
                        &&& final(self).near_calls == old(self).near_calls
                        &&& final(self).return_ptr == old(self).return_ptr
                    }
                },
                OpcodeVariant::NearCall => {
                    &&& final(self).return_ptr == old(self).return_ptr
                    &&& final(self).near_calls == (if old(self).return_data is Some && old(
                        self,
                    ).near_calls < usize::MAX {
                        old(self).near_calls + 1
                    } else {
                        old(self).near_calls as int
                    })
                },
                OpcodeVariant::Other => {
                    &&& final(self).return_ptr == old(self).return_ptr
                    &&& final(self).near_calls == old(self).near_calls
                },
                OpcodeVariant::FarCall => {
                    &&& final(self).return_ptr == old(self).return_ptr
                    &&& final(self).near_calls == old(self).near_calls
                },
            }),
            // A return unwinding to an active broadcast's depth queues
            // restoring the original origin.
            ({
                let unwinds = op.variant matches OpcodeVariant::Ret(_)
                    && state.current.code_address != crate::addrs::cheatcode_address() && (old(
                    self,
                ).permanent_actions.broadcast matches Option::Some(b) && state.depth == b.depth);
                unwinds ==> (old(self).permanent_actions.broadcast matches Option::Some(b) && ({
                    &&& final(self).one_time_actions@.len() >= 1
                    &&& final(self).one_time_actions@.last() == OneTimeAction::SetOrigin {
                        origin: b.original_origin,
                    }
                }))
            }),
            // Gating of cheatcode dispatch, as reported to the host.
            (match (op.variant, &far_call) {
                (OpcodeVariant::FarCall, Option::Some(info)) => {
                    &&& r.missing_gas_or_code == (state.current.code_address
                        == crate::addrs::cheatcode_address() && (state.current.code_page == 0
                        || state.current.ergs_remaining == 0))
                    &&& r.decode_failed == (state.current.code_address
                        == crate::addrs::cheatcode_address() && !r.missing_gas_or_code
                        && info.decoded is None)
                    &&& ((r.dispatch is Some) == (state.current.code_address
                        == crate::addrs::cheatcode_address() && !r.missing_gas_or_code
                        && info.decoded is Some))
                },
                _ => {
                    &&& !r.missing_gas_or_code
                    &&& !r.decode_failed
                    &&& r.dispatch is None
                },
            }),
            ({
                let next = crate::test_state::next_test_status(
                    old(self).test_status,
                    op.variant == OpcodeVariant::FarCall,
                    op.variant matches OpcodeVariant::Ret(_),
                    state.current.code_address,
                    state.depth,
                );
                &&& r.test_finished == (next == FoundryTestState::Finished)
                &&& final(self).test_status == (if next == FoundryTestState::Finished {
                    FoundryTestState::NotStarted
                } else {
                    next
                })
                &&& (r.test_finished ==> ({
                    let fs = crate::expect_call::failures_of(old(self).expected_calls.entries@);
                    &&& r.call_failures@.len() == fs.len()
                    &&& (forall|k: int|
                        0 <= k < fs.len() ==> {
                            let f = #[trigger] r.call_failures@[k];
                            &&& f.callee == fs[k].0
                            &&& f.calldata@ == fs[k].1
                            &&& f.expected == fs[k].2
                            &&& f.actual == fs[k].3
                        })
                }))
                &&& (!r.test_finished ==> r.call_failures@.len() == 0)
            }),
            // Expected-call counting: an observed outside call bumps every
            // matching registration; a call to the reserved address leaves
            // the tracker alone unless it dispatched an `expectCall`
            // request (see the dispatch clause below).
            (match (op.variant, &far_call) {
                (OpcodeVariant::FarCall, Option::Some(info)) => {
                    if state.current.code_address != crate::addrs::cheatcode_address() {
                        crate::expect_call::noted_call(
                            old(self).expected_calls.entries@,
                            final(self).expected_calls.entries@,
                            state.current.code_address,
                            info.calldata@,
                            Word { hi: 0, lo: state.current.context_u128_value },
                        )
                    } else {
                        r.dispatch is None ==> final(self).expected_calls == old(self).expected_calls
                    }
                },
                _ => final(self).expected_calls == old(self).expected_calls,
            }),
            // A reserved-address call dropped for missing gas/code or a
            // failed decode leaves every tracker, the queue and the return
            // channel unchanged.
            (r.missing_gas_or_code || r.decode_failed) ==> ({
                &&& final(self).one_time_actions == old(self).one_time_actions
                &&& final(self).return_data == old(self).return_data
                &&& final(self).expected_calls == old(self).expected_calls
                &&& final(self).mock_calls == old(self).mock_calls
                &&& final(self).next_return_action == old(self).next_return_action
                &&& final(self).permanent_actions == old(self).permanent_actions
                &&& final(self).serialized_objects == old(self).serialized_objects
                &&& final(self).recording_logs == old(self).recording_logs
                &&& final(self).recording_timestamp == old(self).recording_timestamp
                &&& final(self).broadcastable_transactions == old(self).broadcastable_transactions
            }),
            // A dispatched request's whole effect on the tracer is the
            // dispatcher's contract, relative to the tracer as this hook
            // had advanced it (test lifecycle, due emit assertion).
            r.dispatch matches Option::Some(outcome) ==> (far_call matches Option::Some(info)
                && info.decoded matches Option::Some(c) && dispatch_post(
                pre_dispatch_state(*old(self), *state, *op),
                *final(self),
                *old(storage),
                *state,
                c,
                outcome,
            )),
            // Broadcast capture: an outside call at the active broadcast's
            // depth from its original caller appends exactly one
            // broadcastable transaction (unwrapping the value-simulator
            // convention) and queues installing the broadcast origin.
            (match (op.variant, &far_call) {
                (OpcodeVariant::FarCall, Option::Some(info)) => {
                    if state.current.code_address != crate::addrs::cheatcode_address() {
                        let active = (match (old(self).permanent_actions.broadcast, state.parent) {
                            (Option::Some(b), Option::Some(prev)) => state.depth == b.depth
                                && prev.this_address == b.original_caller,
                            _ => false,
                        });
                        if active {
                            old(self).permanent_actions.broadcast matches Option::Some(b) && ({
                                &&& final(self).broadcastable_transactions@.len() == old(self).broadcastable_transactions@.len() + 1
                                &&& final(self).broadcastable_transactions@.take(
                                    old(self).broadcastable_transactions@.len() as int,
                                ) == old(self).broadcastable_transactions@
                                &&& ({
                                    let tx = final(self).broadcastable_transactions@.last();
                                    let sim = state.current.code_address
                                        == crate::addrs::msg_value_simulator_address();
                                    &&& tx.from == b.new_origin
                                    &&& tx.gas == state.current.ergs_remaining
                                    &&& tx.data@ == info.calldata@
                                    &&& tx.nonce.hi == 0
                                    &&& (sim ==> tx.value == Option::Some(info.value_sim_value)
                                        && tx.to.lo == info.value_sim_address.lo)
                                    &&& (!sim ==> tx.value is None && tx.to
                                        == state.current.code_address)
                                })
                                &&& final(self).one_time_actions@.len() >= old(self).one_time_actions@.len() + 1
                                &&& final(self).one_time_actions@[old(self).one_time_actions@.len() as int]
                                    == OneTimeAction::SetOrigin { origin: b.new_origin }
                            })
                        } else {
                            final(self).broadcastable_transactions == old(self).broadcastable_transactions
                        }
                    } else {
                        final(self).broadcastable_transactions == old(self).broadcastable_transactions
                    }
                },
                _ => final(self).broadcastable_transactions == old(self).broadcastable_transactions,
            }),
            // An expected-call count mismatch found at test finish is
            // surfaced as a forced-revert action carrying the first
            // failing registration with both counts, aimed at the current
            // frame's exception handler.
            ({
                let next = crate::test_state::next_test_status(
                    old(self).test_status,
                    op.variant == OpcodeVariant::FarCall,
                    op.variant matches OpcodeVariant::Ret(_),
                    state.current.code_address,
                    state.depth,
                );
                let fs = crate::expect_call::failures_of(old(self).expected_calls.entries@);
                (next == FoundryTestState::Finished && (op.variant matches OpcodeVariant::Ret(_))
                    && fs.len() > 0) ==> ({
                    &&& final(self).one_time_actions@.len() > old(self).one_time_actions@.len()
                    &&& (final(self).one_time_actions@[old(self).one_time_actions@.len() as int]
                        matches OneTimeAction::ForceRevert { error, exception_handler } && ({
                        &&& (error matches crate::revert::RevertError::CallCountMismatch {
                            callee,
                            calldata,
                            expected_count,
                            actual_count,
                        } && ({
                            &&& callee == fs[0].0
                            &&& calldata@ == fs[0].1
                            &&& expected_count == fs[0].2
                            &&& actual_count == fs[0].3
                        }))
                        &&& exception_handler == state.current.exception_handler_location
                    }))
                })
            }),
            // Mock arming: an observed outside call hitting a registered
            // mock arms an immediate return carrying the mock's canned
            // data, continuing after the recorded call-site counter.
            (match (op.variant, &far_call) {
                (OpcodeVariant::FarCall, Option::Some(info)) => {
                    if state.current.code_address != crate::addrs::cheatcode_address() && (
                    exists|j: int|
                        0 <= j < old(self).mock_calls@.len() && crate::mock::mock_matches(
                            #[trigger] old(self).mock_calls@[j],
                            state.current.code_address,
                            info.calldata@,
                        )) {
                        (match old(self).active_farcall_stack {
                            Option::Some(frame) => {
                                frame.pc < u16::MAX ==> (final(self).permanent_actions.immediate_return matches Option::Some(opts)
                                    && ({
                                    let m = old(self).mock_calls@[crate::mock::last_mock_index(
                                        old(self).mock_calls@,
                                        state.current.code_address,
                                        info.calldata@,
                                    )];
                                    &&& opts.return_data@ == m.filter.return_data@
                                    &&& opts.trigger_pc == 0
                                    &&& opts.continue_pc == frame.pc + 1
                                    &&& opts.base_memory_page == frame.base_memory_page
                                    &&& opts.code_page == frame.code_page
                                }))
                            },
                            Option::None => final(self).permanent_actions.immediate_return
                                == old(self).permanent_actions.immediate_return,
                        })
                    } else {
                        true
                    }
                },
                _ => true,
            }),
    {
        let cheat_addr = crate::addrs::make_cheatcode_address();
        let is_outside_addr = !(state.current.code_address == cheat_addr)
            && !crate::addrs::check_internal_address(&state.current.code_address)
            && !crate::addrs::check_reserved_address(&state.current.code_address);
        if is_outside_addr {
            let is_far_call = match op.variant {
                OpcodeVariant::FarCall => true,
                _ => false,
            };
            let triggered = match self.emit_config.expected_emit_state {
                crate::events::ExpectedEmitState::ExpectedEmitTriggered => true,
                _ => false,
            };
            if triggered && is_far_call {
                self.emit_config.call_emits_since = state.timestamp;
                self.emit_config.expect_emits_until = state.timestamp;
                self.emit_config.expected_emit_state =
                    crate::events::ExpectedEmitState::CallTriggered;
                self.emit_config.call_depth = state.depth;
            }
            let call_triggered = match self.emit_config.expected_emit_state {
                crate::events::ExpectedEmitState::CallTriggered => true,
                _ => false,
            };
            if call_triggered && state.depth < self.emit_config.call_depth {
                self.emit_config.call_emits_until = state.timestamp;
            }
        }
        let mut report = AfterExecutionReport {
            test_finished: false,
            call_failures: Vec::new(),
            dispatch: None,
            decode_failed: false,
            missing_gas_or_code: false,
        };
        let status = self.update_test_status(state, op);
        let finished = match status {
            FoundryTestState::Finished => true,
            _ => false,
        };
        if finished {
            self.emit_config.expected_emit_state = crate::events::ExpectedEmitState::Assert;
            report.test_finished = true;
            report.call_failures = self.expected_calls.failures();
            self.reset_test_status();
            let is_ret = match op.variant {
                OpcodeVariant::Ret(_) => true,
                _ => false,
            };
            if is_ret && report.call_failures.len() > 0 {
                let f = &report.call_failures[0];
                proof {
                    let fs = crate::expect_call::failures_of(old(self).expected_calls.entries@);
                    assert(report.call_failures@[0].callee == fs[0].0);
                    assert(report.call_failures@[0].calldata@ == fs[0].1);
                    assert(report.call_failures@[0].expected == fs[0].2);
                    assert(report.call_failures@[0].actual == fs[0].3);
                }
                self.one_time_actions.push(
                    OneTimeAction::ForceRevert {
                        error: crate::revert::RevertError::CallCountMismatch {
                            callee: f.callee,
                            calldata: crate::bytes::copy_bytes(&f.calldata),
                            expected_count: f.expected,
                            actual_count: f.actual,
                        },
                        exception_handler: state.current.exception_handler_location,
                    },
                );
            }
        }
        let ghost queue_after_finish = self.one_time_actions@;
        self.handle_return(state, op, ret_info);
        proof {
            // Whatever the revert-expectation step appended, the actions
            // queued before it keep their positions.
            assert forall|i: int|
                0 <= i < queue_after_finish.len() implies self.one_time_actions@[i]
                == queue_after_finish[i] by {
                if self.one_time_actions@ != queue_after_finish {
                    assert(self.one_time_actions@.take(queue_after_finish.len() as int)
                        == queue_after_finish);
                    assert(self.one_time_actions@.take(queue_after_finish.len() as int)[i]
                        == self.one_time_actions@[i]);
                }
            }
        }
        match op.variant {
            OpcodeVariant::FarCall => {
                let info = match far_call {
                    Some(i) => i,
                    None => {
                        return report;
                    },
                };
                let ghost pre_call = *self;
                let (dispatched, decode_failed, missing_gas_or_code) = self.handle_far_call(
                    state,
                    info,
                    storage,
                );
                proof {
                    if dispatched is Some {
                        let mid = pre_dispatch_state(*old(self), *state, *op);
                        assert(pre_call.test_status == mid.test_status);
                        assert(pre_call.emit_config == mid.emit_config);
                        assert(pre_call == mid);
                    }
                }
                report.dispatch = dispatched;
                report.decode_failed = decode_failed;
                report.missing_gas_or_code = missing_gas_or_code;
            },
            OpcodeVariant::Ret(_) => {
                if self.return_data.is_some() {
                    if self.near_calls == 0 {
                        match ret_info {
                            Some(ri) => {
                                match ri.ret_params_ptr {
                                    Some(ptr) => {
                                        self.return_ptr = Some(ptr);
                                    },
                                    None => {},
                                }
                            },
                            None => {},
                        }
                    } else {
                        self.near_calls = self.near_calls - 1;
                    }
                }
                if !(state.current.code_address == cheat_addr) {
                    let restore = match &self.permanent_actions.broadcast {
                        Some(b) => {
                            if state.depth == b.depth {
                                Some(b.original_origin)
                            } else {
                                None
                            }
                        },
                        None => None,
                    };
                    match restore {
                        Some(origin) => {
                            self.one_time_actions.push(OneTimeAction::SetOrigin { origin });
                        },
                        None => {},
                    }
                }
            },
            OpcodeVariant::NearCall => {
                if self.return_data.is_some() && self.near_calls < usize::MAX {
                    self.near_calls = self.near_calls + 1;
                }
            },
            OpcodeVariant::Other => {},
        }
        proof {
            // The forced revert queued at test finish keeps its position
            // through whatever the later steps appended.
            let next = crate::test_state::next_test_status(
                old(self).test_status,
                op.variant == OpcodeVariant::FarCall,
                op.variant matches OpcodeVariant::Ret(_),
                state.current.code_address,
                state.depth,
            );
            let fs = crate::expect_call::failures_of(old(self).expected_calls.entries@);
            if next == FoundryTestState::Finished && (op.variant matches OpcodeVariant::Ret(_))
                && fs.len() > 0 {
                let n = old(self).one_time_actions@.len() as int;
                assert(queue_after_finish.len() == n + 1);
                assert(self.one_time_actions@.len() > n);
                assert(self.one_time_actions@[n] == queue_after_finish[n]);
            }
        }
        report
    }

    /// Records a broadcast transaction for an observed outside call at
    /// the broadcast's depth from its original caller: installs the
    /// broadcast origin, synthesises the transaction (unwrapping the real
    /// destination and value when the call routes through the value
    /// simulator), and bumps the sender's nonce.
    fn record_broadcast_call<S: StorageSource>(
        &mut self,
        state: &VmStateView,
        info: crate::vm_view::FarCallInfo,
        storage: &mut S,
    )
        requires
            old(self).wf(),
        ensures
            final(self).wf(),
            forall|k: StorageKey| #[trigger]
                final(storage).value_at(k) == old(storage).value_at(k),
            same_storage_state(*final(self), *old(self)),
            final(self).expected_calls == old(self).expected_calls,
            final(self).next_return_action == old(self).next_return_action,
            final(self).emit_config == old(self).emit_config,
            final(self).test_status == old(self).test_status,
            final(self).mock_calls == old(self).mock_calls,
            final(self).permanent_actions == old(self).permanent_actions,
            same_returns(*final(self), *old(self)),
            final(self).env == old(self).env,
            final(self).recording_logs == old(self).recording_logs,
            final(self).recording_timestamp == old(self).recording_timestamp,
            final(self).serialized_objects == old(self).serialized_objects,
            final(self).active_farcall_stack == old(self).active_farcall_stack,
            final(self).current_opcode == old(self).current_opcode,
            old(self).one_time_actions@.is_prefix_of(final(self).one_time_actions@),
            ({
                let active = (match (old(self).permanent_actions.broadcast, state.parent) {
                    (Option::Some(b), Option::Some(prev)) => state.depth == b.depth
                        && prev.this_address == b.original_caller,
                    _ => false,
                });
                if active {
                    old(self).permanent_actions.broadcast matches Option::Some(b) && ({
                        &&& final(self).broadcastable_transactions@.len() == old(self).broadcastable_transactions@.len() + 1
                        &&& final(self).broadcastable_transactions@.take(
                            old(self).broadcastable_transactions@.len() as int,
                        ) == old(self).broadcastable_transactions@
                        &&& ({
                            let tx = final(self).broadcastable_transactions@.last();
                            let sim = state.current.code_address
                                == crate::addrs::msg_value_simulator_address();
                            &&& tx.from == b.new_origin
                            &&& tx.gas == state.current.ergs_remaining
                            &&& tx.data@ == info.calldata@
                            &&& tx.nonce.hi == 0
                            &&& (sim ==> tx.value == Option::Some(info.value_sim_value)
                                && tx.to.lo == info.value_sim_address.lo)
                            &&& (!sim ==> tx.value is None && tx.to
                                == state.current.code_address)
                        })
                        &&& final(self).one_time_actions@.len() >= old(self).one_time_actions@.len() + 1
                        &&& final(self).one_time_actions@[old(self).one_time_actions@.len() as int]
                            == OneTimeAction::SetOrigin { origin: b.new_origin }
                    })
                } else {
                    final(self).broadcastable_transactions == old(self).broadcastable_transactions
                        && final(self).one_time_actions == old(self).one_time_actions
                }
            }),
    {
        let (depth_match, new_origin) = match (
            &self.permanent_actions.broadcast,
            &state.parent,
        ) {
            (Some(b), Some(prev)) => (
                state.depth == b.depth && prev.this_address == b.original_caller,
                b.new_origin,
            ),
            _ => {
                return ;
            },
        };
        if !depth_match {
            return ;
        }
        self.one_time_actions.push(OneTimeAction::SetOrigin { origin: new_origin });
        let (nonce, _) = Self::get_nonce(new_origin, storage);
        let gas_limit = state.current.ergs_remaining;
        let sim_addr = crate::addrs::make_msg_value_simulator_address();
        let (tx_value, to) = if state.current.code_address == sim_addr {
            (Some(info.value_sim_value), crate::addrs::addr_of_word(&info.value_sim_address))
        } else {
            (None, state.current.code_address)
        };
        let tx = BroadcastableTx {
            rpc: info.active_fork_url,
            from: new_origin,
            to,
            gas: gas_limit,
            value: tx_value,
            data: info.calldata,
            nonce,
        };
        self.broadcastable_transactions.push(tx);
        proof {
            assert(self.broadcastable_transactions@.take(
                old(self).broadcastable_transactions@.len() as int,
            ) =~= old(self).broadcastable_transactions@);
        }
        let ghost mid = self.one_time_actions@;
        if nonce.lo < u128::MAX {
            let bumped = Word { hi: 0, lo: nonce.lo + 1 };
            let _ = self.set_nonce(new_origin, Some(bumped), None, storage);
        }
        proof {
            let oldlen = old(self).one_time_actions@.len() as int;
            assert(mid[oldlen] == OneTimeAction::SetOrigin { origin: new_origin });
            if self.one_time_actions@ == mid {
                assert(self.one_time_actions@[oldlen] == mid[oldlen]);
            } else {
                assert(mid =~= self.one_time_actions@.subrange(0, mid.len() as int));
                assert(self.one_time_actions@.subrange(0, mid.len() as int)[oldlen]
                    == self.one_time_actions@[oldlen]);
            }
            assert forall|i: int| 0 <= i < oldlen implies old(self).one_time_actions@[i]
                == self.one_time_actions@[i] by {
                assert(mid[i] == old(self).one_time_actions@[i]);
                if self.one_time_actions@ != mid {
                    assert(self.one_time_actions@.subrange(0, mid.len() as int)[i]
                        == self.one_time_actions@[i]);
                }
            }
            assert(old(self).one_time_actions@ =~= self.one_time_actions@.subrange(0, oldlen));
        }
    }
}

impl CheatcodeTracer {
    /// The outside-call step of the after-instruction hook: counts
    /// expected calls, arms mocked returns, bumps the intermediate-return
    /// skip count for account-code-storage calls, records broadcast
    /// transactions, and dispatches cheatcode requests.
    fn handle_far_call<S: StorageSource>(
        &mut self,
        state: &VmStateView,
        info: crate::vm_view::FarCallInfo,
        storage: &mut S,
    ) -> (r: (Option<DispatchOutcome>, bool, bool))
        requires
            old(self).wf(),
        ensures
            final(self).wf(),
            forall|k: StorageKey| #[trigger]
                final(storage).value_at(k) == old(storage).value_at(k),
            same_storage_state(*final(self), *old(self)),
            final(self).env == old(self).env,
            final(self).test_status == old(self).test_status,
            final(self).active_farcall_stack == old(self).active_farcall_stack,
            final(self).current_opcode == old(self).current_opcode,
            final(self).return_ptr == old(self).return_ptr,
            final(self).near_calls == old(self).near_calls,
            final(self).one_time_actions@.len() >= old(self).one_time_actions@.len(),
            (state.current.code_address != crate::addrs::cheatcode_address()
                || info.decoded is None) ==> final(self).emit_config == old(self).emit_config,
            // Gating: a request is dispatched exactly when the call targets
            // the reserved address with gas and a code page and its
            // calldata decoded.
            r.2 == (state.current.code_address == crate::addrs::cheatcode_address() && (
            state.current.code_page == 0 || state.current.ergs_remaining == 0)),
            r.1 == (state.current.code_address == crate::addrs::cheatcode_address() && !r.2
                && info.decoded is None),
            (r.0 is Some) == (state.current.code_address == crate::addrs::cheatcode_address()
                && !r.2 && info.decoded is Some),
            // A reserved-address call dropped for missing gas/code or a
            // failed decode changes nothing.
            (r.1 || r.2) ==> *final(self) == *old(self),
            // A dispatched request's whole effect is the dispatcher's
            // contract: nothing moves before or after the routing.
            r.0 matches Option::Some(outcome) ==> (info.decoded matches Option::Some(c)
                && dispatch_post(*old(self), *final(self), *old(storage), *state, c, outcome)),
            state.current.code_address != crate::addrs::cheatcode_address()
                ==> crate::expect_call::noted_call(
                old(self).expected_calls.entries@,
                final(self).expected_calls.entries@,
                state.current.code_address,
                info.calldata@,
                Word { hi: 0, lo: state.current.context_u128_value },
            ),
            state.current.code_address != crate::addrs::cheatcode_address() ==> final(self).mock_calls == old(self).mock_calls,
            // An outside call at an active broadcast's depth from its
            // original caller is recorded as a broadcastable transaction
            // (unwrapping the value-simulator convention) and the
            // broadcast origin install is queued; otherwise nothing is
            // recorded.
            (if state.current.code_address != crate::addrs::cheatcode_address() {
                let active = (match (old(self).permanent_actions.broadcast, state.parent) {
                    (Option::Some(b), Option::Some(prev)) => state.depth == b.depth
                        && prev.this_address == b.original_caller,
                    _ => false,
                });
                if active {
                    old(self).permanent_actions.broadcast matches Option::Some(b) && ({
                        &&& final(self).broadcastable_transactions@.len() == old(self).broadcastable_transactions@.len() + 1
                        &&& final(self).broadcastable_transactions@.take(
                            old(self).broadcastable_transactions@.len() as int,
                        ) == old(self).broadcastable_transactions@
                        &&& ({
                            let tx = final(self).broadcastable_transactions@.last();
                            let sim = state.current.code_address
                                == crate::addrs::msg_value_simulator_address();
                            &&& tx.from == b.new_origin
                            &&& tx.gas == state.current.ergs_remaining
                            &&& tx.data@ == info.calldata@
                            &&& tx.nonce.hi == 0
                            &&& (sim ==> tx.value == Option::Some(info.value_sim_value)
                                && tx.to.lo == info.value_sim_address.lo)
                            &&& (!sim ==> tx.value is None && tx.to
                                == state.current.code_address)
                        })
                        &&& final(self).one_time_actions@.len() >= old(self).one_time_actions@.len() + 1
                        &&& final(self).one_time_actions@[old(self).one_time_actions@.len() as int]
                            == OneTimeAction::SetOrigin { origin: b.new_origin }
                    })
                } else {
                    final(self).broadcastable_transactions == old(self).broadcastable_transactions
                        && final(self).one_time_actions == old(self).one_time_actions
                }
            } else {
                final(self).broadcastable_transactions == old(self).broadcastable_transactions
            }),
            (if state.current.code_address != crate::addrs::cheatcode_address() && (exists|j: int|
                0 <= j < old(self).mock_calls@.len() && crate::mock::mock_matches(
                    #[trigger] old(self).mock_calls@[j],
                    state.current.code_address,
                    info.calldata@,
                )) {
                (match old(self).active_farcall_stack {
                    Option::Some(frame) => {
                        frame.pc < u16::MAX ==> (final(self).permanent_actions.immediate_return
                            matches Option::Some(opts) && ({
                            let m = old(self).mock_calls@[crate::mock::last_mock_index(
                                old(self).mock_calls@,
                                state.current.code_address,
                                info.calldata@,
                            )];
                            &&& opts.return_data@ == m.filter.return_data@
                            &&& opts.trigger_pc == 0
                            &&& opts.continue_pc == frame.pc + 1
                            &&& opts.base_memory_page == frame.base_memory_page
                            &&& opts.code_page == frame.code_page
                        }))
                    },
                    Option::None => final(self).permanent_actions.immediate_return == old(self).permanent_actions.immediate_return,
                })
            } else {
                true
            }),
    {
        let cheat_addr = crate::addrs::make_cheatcode_address();
        let is_cheat = state.current.code_address == cheat_addr;
        if !is_cheat {
            let value = Word::from_u128(state.current.context_u128_value);
            self.expected_calls.note_call(&state.current.code_address, &info.calldata, &value);
            match crate::mock::find_last_matching_mock(
                &self.mock_calls,
                &state.current.code_address,
                &info.calldata,
            ) {
                Some(m) => {
                    proof {
                        crate::mock::lemma_last_mock_index(
                            self.mock_calls@,
                            state.current.code_address,
                            info.calldata@,
                            m as int,
                        );
                    }
                    match &self.active_farcall_stack {
                        Some(frame) => {
                            if frame.pc < u16::MAX {
                                let return_data = crate::bytes::copy_bytes(
                                    &self.mock_calls[m].filter.return_data,
                                );
                                self.permanent_actions.immediate_return = Some(
                                    ImmediateReturnOpts {
                                        trigger_pc: 0,
                                        return_data,
                                        continue_pc: frame.pc + 1,
                                        base_memory_page: frame.base_memory_page,
                                        code_page: frame.code_page,
                                    },
                                );
                            }
                        },
                        None => {},
                    }
                },
                None => {},
            }
        }
        let acs_addr = crate::addrs::make_account_code_storage_address();
        if state.current.code_address == acs_addr {
            match &mut self.next_return_action {
                Some(action) => {
                    if action.target_depth < usize::MAX && action.target_depth + 1 == state.depth
                        && action.returns_to_skip < usize::MAX {
                        action.returns_to_skip = action.returns_to_skip + 1;
                    }
                },
                None => {},
            }
        }
        if !(state.current.code_address == cheat_addr) {
            self.record_broadcast_call(state, info, storage);
            return (None, false, false);
        }
        if state.current.code_page == 0 || state.current.ergs_remaining == 0 {
            return (None, false, true);
        }
        match info.decoded {
            Some(call) => {
                let outcome = self.dispatch_cheatcode(state, storage, call);
                (Some(outcome), false, false)
            },
            None => (None, true, false),
        }
    }
}

/// Builds the immediate-return directive for preset return bytes: the
/// payload chunked into words, installed in a fresh page above the frame's
/// base page, with the continuation and pages to patch.  `None` when the
/// sizes do not fit the machine word widths.
pub fn make_immediate_return_directive(
    data: &Vec<u8>,
    continue_pc: u16,
    base_memory_page: u32,
    code_page: u32,
) -> (r: Option<HostDirective>)
    ensures
        (r is Some) == (data@.len() + 63 <= usize::MAX && base_memory_page + 2 <= u32::MAX
            && crate::encode::word_count_of(data@.len()) * 32 <= u32::MAX),
        match r {
            Option::Some(d) => d matches HostDirective::ImmediateReturn {
                data: words,
                return_ptr,
                continue_pc: cpc,
                base_memory_page: bmp,
                code_page: cp,
            } && ({
                &&& words@.len() == crate::encode::word_count_of(data@.len())
                &&& words@ == crate::encode::return_words_of(data@)
                &&& (forall|w: int|
                    0 <= w < words@.len() ==> (#[trigger] words@[w]).as_int()
                        == crate::bytes::be_int(crate::encode::padded_chunk(data@, 32 * w)))
                &&& return_ptr == (FatPtr {
                    offset: 0u32,
                    memory_page: (base_memory_page + 2) as u32,
                    start: 0u32,
                    length: (words@.len() * 32) as u32,
                })
                &&& cpc == continue_pc
                &&& bmp == base_memory_page
                &&& cp == code_page
            }),
            Option::None => data@.len() + 63 > usize::MAX || base_memory_page + 2 > u32::MAX
                || crate::encode::word_count_of(data@.len()) * 32 > u32::MAX,
        },
{
    if data.len() > usize::MAX - 63 {
        return None;
    }
    if base_memory_page > u32::MAX - 2 {
        return None;
    }
    let words = crate::encode::to_return_data(data);
    if words.len() > (u32::MAX / 32) as usize {
        return None;
    }
    let length: u32 = (words.len() as u32) * 32;
    Some(
        HostDirective::ImmediateReturn {
            data: words,
            return_ptr: FatPtr {
                offset: 0,
                memory_page: base_memory_page + 2,
                start: 0,
                length,
            },
            continue_pc,
            base_memory_page,
            code_page,
        },
    )
}

/// Pending return data, as word sequences.
pub open spec fn rd_view(d: Option<Vec<Word>>) -> Option<Seq<Word>> {
    match d {
        Option::Some(v) => Option::Some(v@),
        Option::None => Option::None,
    }
}

/// `m` holds exactly the test-wide delta merged with the pending keys:
/// the pending side wins on shared keys and system-context keys are
/// excluded.
pub open spec fn map_is_merge(
    m: StorageMap,
    base: Map<StorageKey, Word>,
    pending: Map<StorageKey, Word>,
) -> bool {
    &&& m.wf()
    &&& (forall|k: StorageKey|
        (#[trigger] m@.contains_key(k) <==> crate::storage::merged_view(base, pending, k) is Some))
    &&& (forall|k: StorageKey|
        m@.contains_key(k) ==> Option::Some(#[trigger] m@[k]) == crate::storage::merged_view(
            base,
            pending,
            k,
        ))
}

/// `v` is the test-wide bytecodes followed by the transaction's.
pub open spec fn bytecodes_are_merge(
    v: Seq<(Word, Vec<u8>)>,
    base: Seq<(Word, Vec<u8>)>,
    tx: Seq<(Word, Vec<u8>)>,
) -> bool {
    &&& v.len() == base.len() + tx.len()
    &&& (forall|i: int|
        0 <= i < base.len() ==> (#[trigger] v[i]).0 == base[i].0 && v[i].1@ == base[i].1@)
    &&& (forall|i: int|
        0 <= i < tx.len() ==> (#[trigger] v[base.len() + i]).0 == tx[i].0 && v[base.len() + i].1@
            == tx[i].1@)
}

/// The content every merge-carrying directive of one drain must hold:
/// fork and snapshot directives all carry the same merged delta and
/// bytecodes, fork requests carry the captured environment, and a
/// snapshot revert carries exactly the delta stored under its identifier
/// by the store as the cycle began.
pub open spec fn directive_carries_merge(
    d: HostDirective,
    base: Map<StorageKey, Word>,
    pending: Map<StorageKey, Word>,
    base_bytecodes: Seq<(Word, Vec<u8>)>,
    tx_bytecodes: Seq<(Word, Vec<u8>)>,
    env: Option<EraEnv>,
    store: SnapshotStore,
) -> bool {
    match d {
        HostDirective::CreateSelectFork { request, modified_storage, modified_bytecodes } => {
            &&& map_is_merge(modified_storage, base, pending)
            &&& bytecodes_are_merge(modified_bytecodes@, base_bytecodes, tx_bytecodes)
            &&& (env matches Option::Some(e) && request.env == crate::fork::block_env_of(e))
        },
        HostDirective::CreateFork { request } => env matches Option::Some(e) && request.env
            == crate::fork::block_env_of(e),
        HostDirective::RollFork { modified_storage, modified_bytecodes, .. } => {
            &&& map_is_merge(modified_storage, base, pending)
            &&& bytecodes_are_merge(modified_bytecodes@, base_bytecodes, tx_bytecodes)
        },
        HostDirective::SelectFork { modified_storage, modified_bytecodes, .. } => {
            &&& map_is_merge(modified_storage, base, pending)
            &&& bytecodes_are_merge(modified_bytecodes@, base_bytecodes, tx_bytecodes)
        },
        HostDirective::TakeSnapshot { modified_storage } => map_is_merge(
            modified_storage,
            base,
            pending,
        ),
        HostDirective::RevertToSnapshot { snapshot_id, restored_storage, modified_storage } => {
            &&& store.contains(snapshot_id)
            &&& restored_storage@ == store.stored_for(snapshot_id).modified_storage@
            &&& map_is_merge(modified_storage, base, pending)
        },
        _ => true,
    }
}

impl CheatcodeTracer {
    /// The end-of-cycle hook: drains the one-shot action queue in
    /// reverse-of-enqueue order into host directives, triggers the
    /// expected-emit assertion, flushes pending return data through the
    /// saved return pointer, applies the prank sender override, and arms
    /// a matched mock's immediate return for the next cycle.
    ///
    /// `pending_modified` is the host's current modified-keys delta and
    /// `tx_bytecodes` the bytecodes of the last transaction, both already
    /// in plain form; fork and snapshot directives carry the merges.  The
    /// tracer never asks the host to halt: whatever the directives say,
    /// execution continues.
    pub fn finish_cycle(
        &mut self,
        view: &VmStateView,
        pending_modified: &StorageMap,
        tx_bytecodes: &Vec<(Word, Vec<u8>)>,
    ) -> (out: Vec<HostDirective>)
        requires
            old(self).wf(),
            pending_modified.wf(),
        ensures
            final(self).wf(),
            final(self).expected_calls == old(self).expected_calls,
            final(self).mock_calls == old(self).mock_calls,
            final(self).next_return_action == old(self).next_return_action,
            final(self).test_status == old(self).test_status,
            final(self).env == old(self).env,
            final(self).recording_logs == old(self).recording_logs,
            final(self).recording_timestamp == old(self).recording_timestamp,
            final(self).serialized_objects == old(self).serialized_objects,
            final(self).broadcastable_transactions == old(self).broadcastable_transactions,
            final(self).active_farcall_stack == old(self).active_farcall_stack,
            final(self).current_opcode == old(self).current_opcode,
            final(self).storage_modifications == old(self).storage_modifications,
            final(self).permanent_actions.start_prank == old(self).permanent_actions.start_prank,
            final(self).permanent_actions.broadcast == old(self).permanent_actions.broadcast,
            // The emit assertion fires exactly once, first, when due.
            ({
                if old(self).emit_config.expected_emit_state
                    == crate::events::ExpectedEmitState::Assert {
                    &&& final(self).emit_config.expected_emit_state
                        == crate::events::ExpectedEmitState::Finished
                    &&& out@.len() >= 1
                    &&& out@[0] == (HostDirective::AssertEmits {
                        expect_since: old(self).emit_config.expect_emits_since,
                        expect_until: old(self).emit_config.expect_emits_until,
                        call_since: old(self).emit_config.call_emits_since,
                        call_until: old(self).emit_config.call_emits_until,
                        checks: old(self).emit_config.checks,
                    })
                } else {
                    final(self).emit_config == old(self).emit_config && forall|i: int|
                        0 <= i < out@.len() ==> !(#[trigger] out@[i]
                            matches HostDirective::AssertEmits { .. })
                }
            }),
            // The prank sender override: issued exactly when a prank is
            // active and the executing address is not internal, carrying
            // the impersonated sender, as the last directive.
            ({
                match old(self).permanent_actions.start_prank {
                    Option::Some(p) => {
                        if !crate::addrs::is_internal_address(view.current.this_address) {
                            out@.len() >= 1 && out@.last() == (HostDirective::SetMsgSender {
                                sender: p.sender,
                            })
                        } else {
                            forall|i: int|
                                0 <= i < out@.len() ==> !(#[trigger] out@[i]
                                    matches HostDirective::SetMsgSender { .. })
                        }
                    },
                    Option::None => forall|i: int|
                        0 <= i < out@.len() ==> !(#[trigger] out@[i]
                            matches HostDirective::SetMsgSender { .. }),
                }
            }),
            // A drained snapshot action leaves its capture awaiting the
            // backend identifier; the capture is the merged delta.
            ({
                if (exists|j: int|
                    0 <= j < old(self).one_time_actions@.len() && #[trigger] old(self).one_time_actions@[j] matches OneTimeAction::Snapshot) {
                    final(self).pending_snapshot_capture matches Option::Some(m) && ({
                        &&& m.wf()
                        &&& (forall|k: StorageKey|
                            (#[trigger] m@.contains_key(k) <==> crate::storage::merged_view(
                                old(self).storage_modifications.keys@,
                                pending_modified@,
                                k,
                            ) is Some))
                        &&& (forall|k: StorageKey|
                            m@.contains_key(k) ==> Option::Some(#[trigger] m@[k])
                                == crate::storage::merged_view(
                                old(self).storage_modifications.keys@,
                                pending_modified@,
                                k,
                            ))
                    })
                } else {
                    final(self).pending_snapshot_capture == old(self).pending_snapshot_capture
                }
            }),
            // The saved return pointer is consumed.
            final(self).return_ptr is None,
            old(self).return_ptr is None ==> forall|i: int|
                0 <= i < out@.len() ==> !(#[trigger] out@[i]
                    matches HostDirective::SetReturnData { .. }),
            // Every queued action passes through to its directive,
            // content and order pinned, in reverse of enqueue order:
            // plain directives one-for-one (payloads chunked into
            // words), and backend operations, with fork creations
            // dropped while no environment was captured and a snapshot
            // identifier no longer stored turned fatal.
            crate::actions::directive_plain(out@) == crate::actions::queued_plain(
                old(self).one_time_actions@,
            ),
            crate::actions::directive_backend(out@) == crate::actions::queued_backend(
                old(self).one_time_actions@,
                old(self).env is Some,
                old(self).saved_snapshots,
            ),
            // Every merge-carrying directive carries the merged delta
            // and bytecodes, fork requests the captured environment, and
            // a snapshot revert exactly the capture stored under its
            // identifier.
            forall|i: int|
                0 <= i < out@.len() ==> directive_carries_merge(
                    #[trigger] out@[i],
                    old(self).storage_modifications.keys@,
                    pending_modified@,
                    old(self).storage_modifications.bytecodes@,
                    tx_bytecodes@,
                    old(self).env,
                    old(self).saved_snapshots,
                ),
            // Drained snapshot identifiers are discarded — a second
            // revert to one fails — and the rest of the store is kept.
            forall|o: Word|
                (#[trigger] final(self).saved_snapshots.contains(o) <==> (old(self).saved_snapshots.contains(o)
                    && !crate::actions::drained_snapshot_ids(old(self).one_time_actions@).contains(
                    o,
                ))),
            forall|o: Word|
                final(self).saved_snapshots.contains(o) ==> #[trigger] final(self).saved_snapshots.stored_for(o)
                    == old(self).saved_snapshots.stored_for(o),
            // Pending return data — a drained fork selection overwrites
            // it with the selected identifier — is flushed through the
            // saved return pointer as one directive just before the
            // prank override, its pointer's length covering the payload;
            // without a pointer the data stays pending.
            ({
                let rd_final = crate::actions::rd_after(
                    old(self).one_time_actions@,
                    rd_view(old(self).return_data),
                );
                match old(self).return_ptr {
                    Option::Some(ptr) => {
                        &&& final(self).return_data is None
                        &&& (match rd_final {
                            Option::Some(d) => {
                                let tail: int = (if old(self).permanent_actions.start_prank
                                    is Some && !crate::addrs::is_internal_address(
                                    view.current.this_address,
                                ) {
                                    1int
                                } else {
                                    0int
                                });
                                if d.len() <= (u32::MAX / 32) as int {
                                    &&& out@.len() >= 1 + tail
                                    &&& (out@[out@.len() - 1 - tail]
                                        matches HostDirective::SetReturnData {
                                        return_ptr,
                                        data,
                                    } && ({
                                        &&& data@ == d
                                        &&& return_ptr == (FatPtr {
                                            offset: ptr.offset,
                                            memory_page: ptr.memory_page,
                                            start: ptr.start,
                                            length: (d.len() * 32) as u32,
                                        })
                                    }))
                                } else {
                                    forall|i: int|
                                        0 <= i < out@.len() ==> !(#[trigger] out@[i]
                                            matches HostDirective::SetReturnData { .. })
                                }
                            },
                            Option::None => forall|i: int|
                                0 <= i < out@.len() ==> !(#[trigger] out@[i]
                                    matches HostDirective::SetReturnData { .. }),
                        })
                    },
                    Option::None => rd_view(final(self).return_data) == rd_final,
                }
            }),
            // A pending immediate return fires when the frame sits at its
            // trigger counter: it is requeued as the sole one-shot action
            // for the next cycle and the context is cleared.
            ({
                let triggered = old(self).permanent_actions.immediate_return
                    matches Option::Some(imm) && imm.trigger_pc == view.current.pc;
                if triggered {
                    &&& final(self).permanent_actions.immediate_return is None
                    &&& final(self).one_time_actions@.len() == 1
                    &&& (old(self).permanent_actions.immediate_return matches Option::Some(imm)
                        && final(self).one_time_actions@[0]
                        matches OneTimeAction::SetImmediateReturn {
                        data,
                        continue_pc,
                        base_memory_page,
                        code_page,
                    } && ({
                        &&& data@ == imm.return_data@
                        &&& continue_pc == imm.continue_pc
                        &&& base_memory_page == imm.base_memory_page
                        &&& code_page == imm.code_page
                    }))
                } else {
                    &&& final(self).permanent_actions.immediate_return == old(self).permanent_actions.immediate_return
                    &&& final(self).one_time_actions@.len() == 0
                }
            }),
    {
        let mut out: Vec<HostDirective> = Vec::new();
        let is_assert = match self.emit_config.expected_emit_state {
            crate::events::ExpectedEmitState::Assert => true,
            _ => false,
        };
        if is_assert {
            self.emit_config.expected_emit_state = crate::events::ExpectedEmitState::Finished;
            out.push(
                HostDirective::AssertEmits {
                    expect_since: self.emit_config.expect_emits_since,
                    expect_until: self.emit_config.expect_emits_until,
                    call_since: self.emit_config.call_emits_since,
                    call_until: self.emit_config.call_emits_until,
                    checks: self.emit_config.checks,
                },
            );
        }
        let ghost q0 = self.one_time_actions@;
        let ghost store0 = old(self).saved_snapshots;
        let ghost has_env = old(self).env is Some;
        proof {
            assert(q0.skip(q0.len() as int) =~= Seq::<OneTimeAction>::empty());
            assert(crate::actions::queued_plain(Seq::<OneTimeAction>::empty()) == Seq::<
                crate::actions::PlainDirective,
            >::empty());
            assert(crate::actions::queued_backend(Seq::<OneTimeAction>::empty(), has_env, store0)
                == Seq::<crate::actions::BackendOp>::empty());
            assert(crate::actions::directive_plain(Seq::<HostDirective>::empty()) == Seq::<
                crate::actions::PlainDirective,
            >::empty());
            assert(crate::actions::directive_backend(Seq::<HostDirective>::empty()) == Seq::<
                crate::actions::BackendOp,
            >::empty());
            assert(crate::actions::drained_snapshot_ids(Seq::<OneTimeAction>::empty())
                == Set::<Word>::empty());
            if out@.len() == 1 {
                assert(out@.drop_last() =~= Seq::<HostDirective>::empty());
            } else {
                assert(out@ =~= Seq::<HostDirective>::empty());
            }
            assert(crate::actions::directive_plain(out@) =~= crate::actions::queued_plain(
                q0.skip(q0.len() as int),
            ));
            assert(crate::actions::directive_backend(out@) =~= crate::actions::queued_backend(
                q0.skip(q0.len() as int),
                has_env,
                store0,
            ));
        }
        while self.one_time_actions.len() > 0
            invariant
                self.wf(),
                pending_modified.wf(),
                has_env == (old(self).env is Some),
                store0 == old(self).saved_snapshots,
                q0 == old(self).one_time_actions@,
                crate::actions::directive_plain(out@) == crate::actions::queued_plain(
                    q0.skip(self.one_time_actions@.len() as int),
                ),
                crate::actions::directive_backend(out@) == crate::actions::queued_backend(
                    q0.skip(self.one_time_actions@.len() as int),
                    has_env,
                    store0,
                ),
                forall|i: int|
                    0 <= i < out@.len() ==> directive_carries_merge(
                        #[trigger] out@[i],
                        old(self).storage_modifications.keys@,
                        pending_modified@,
                        old(self).storage_modifications.bytecodes@,
                        tx_bytecodes@,
                        old(self).env,
                        store0,
                    ),
                forall|o: Word|
                    (#[trigger] self.saved_snapshots.contains(o) <==> (store0.contains(o)
                        && !crate::actions::drained_snapshot_ids(
                        q0.skip(self.one_time_actions@.len() as int),
                    ).contains(o))),
                forall|o: Word|
                    self.saved_snapshots.contains(o)
                        ==> #[trigger] self.saved_snapshots.stored_for(o) == store0.stored_for(o),
                crate::actions::rd_after(self.one_time_actions@, rd_view(self.return_data))
                    == crate::actions::rd_after(q0, rd_view(old(self).return_data)),
                self.one_time_actions@ == q0.take(self.one_time_actions@.len() as int),
                self.one_time_actions@.len() <= q0.len(),
                self.expected_calls == old(self).expected_calls,
                self.mock_calls == old(self).mock_calls,
                self.next_return_action == old(self).next_return_action,
                self.test_status == old(self).test_status,
                self.env == old(self).env,
                self.recording_logs == old(self).recording_logs,
                self.recording_timestamp == old(self).recording_timestamp,
                self.serialized_objects == old(self).serialized_objects,
                self.broadcastable_transactions == old(self).broadcastable_transactions,
                self.active_farcall_stack == old(self).active_farcall_stack,
                self.current_opcode == old(self).current_opcode,
                self.storage_modifications == old(self).storage_modifications,
                self.permanent_actions == old(self).permanent_actions,
                self.return_ptr == old(self).return_ptr,
                self.emit_config.expect_emits_since == old(self).emit_config.expect_emits_since,
                self.emit_config.expect_emits_until == old(self).emit_config.expect_emits_until,
                self.emit_config.call_emits_since == old(self).emit_config.call_emits_since,
                self.emit_config.call_emits_until == old(self).emit_config.call_emits_until,
                self.emit_config.checks == old(self).emit_config.checks,
                self.emit_config.call_depth == old(self).emit_config.call_depth,
                self.emit_config.expected_emit_state == (if old(self).emit_config.expected_emit_state == crate::events::ExpectedEmitState::Assert {
                    crate::events::ExpectedEmitState::Finished
                } else {
                    old(self).emit_config.expected_emit_state
                }),
                (if old(self).emit_config.expected_emit_state
                    == crate::events::ExpectedEmitState::Assert {
                    out@.len() >= 1 && out@[0] == (HostDirective::AssertEmits {
                        expect_since: old(self).emit_config.expect_emits_since,
                        expect_until: old(self).emit_config.expect_emits_until,
                        call_since: old(self).emit_config.call_emits_since,
                        call_until: old(self).emit_config.call_emits_until,
                        checks: old(self).emit_config.checks,
                    })
                } else {
                    forall|i: int|
                        0 <= i < out@.len() ==> !(#[trigger] out@[i]
                            matches HostDirective::AssertEmits { .. })
                }),
                forall|i: int|
                    0 <= i < out@.len() ==> !(#[trigger] out@[i]
                        matches HostDirective::SetMsgSender { .. }),
                forall|i: int|
                    0 <= i < out@.len() ==> !(#[trigger] out@[i]
                        matches HostDirective::SetReturnData { .. }),
                (if (exists|j: int|
                    self.one_time_actions@.len() <= j < q0.len() && #[trigger] q0[j]
                        matches OneTimeAction::Snapshot) {
                    self.pending_snapshot_capture matches Option::Some(m) && ({
                        &&& m.wf()
                        &&& (forall|k: StorageKey|
                            (#[trigger] m@.contains_key(k) <==> crate::storage::merged_view(
                                old(self).storage_modifications.keys@,
                                pending_modified@,
                                k,
                            ) is Some))
                        &&& (forall|k: StorageKey|
                            m@.contains_key(k) ==> Option::Some(#[trigger] m@[k])
                                == crate::storage::merged_view(
                                old(self).storage_modifications.keys@,
                                pending_modified@,
                                k,
                            ))
                    })
                } else {
                    self.pending_snapshot_capture == old(self).pending_snapshot_capture
                }),
            decreases self.one_time_actions@.len(),
        {
            let ghost qpre = self.one_time_actions@;
            let ghost rd_pre = rd_view(self.return_data);
            let action = self.one_time_actions.pop();
            let ghost aspec = action;
            proof {
                assert(self.one_time_actions@ =~= q0.take(self.one_time_actions@.len() as int));
            }
            let directive: Option<HostDirective> = match action {
                Some(a) => {
                    match a {
                        OneTimeAction::StorageWrite { key, read_value, write_value } => {
                            Some(HostDirective::WriteStorage { key, read_value, write_value })
                        },
                        OneTimeAction::StoreFactoryDep { hash, bytecode } => {
                            Some(HostDirective::StoreFactoryDep { hash, bytecode })
                        },
                        OneTimeAction::ForceRevert { error, exception_handler } => {
                            Some(HostDirective::ForceRevert { error, exception_handler })
                        },
                        OneTimeAction::ForceReturn { data, continue_pc } => {
                            if data.len() <= usize::MAX - 63 {
                                let words = crate::encode::to_return_data(&data);
                                Some(HostDirective::ForceReturn { data: words, continue_pc })
                            } else {
                                None
                            }
                        },
                        OneTimeAction::SetImmediateReturn {
                            data,
                            continue_pc,
                            base_memory_page,
                            code_page,
                        } => {
                            make_immediate_return_directive(
                                &data,
                                continue_pc,
                                base_memory_page,
                                code_page,
                            )
                        },
                        OneTimeAction::CreateSelectFork { url_or_alias, block_number } => {
                            match &self.env {
                                Some(env) => {
                                    let request = crate::fork::create_fork_request(
                                        env,
                                        block_number,
                                        &url_or_alias,
                                    );
                                    let modified_storage = self.get_modified_storage(
                                        pending_modified,
                                    );
                                    let modified_bytecodes = self.get_modified_bytecodes(
                                        tx_bytecodes,
                                    );
                                    Some(
                                        HostDirective::CreateSelectFork {
                                            request,
                                            modified_storage,
                                            modified_bytecodes,
                                        },
                                    )
                                },
                                None => None,
                            }
                        },
                        OneTimeAction::CreateFork { url_or_alias, block_number } => {
                            match &self.env {
                                Some(env) => {
                                    let request = crate::fork::create_fork_request(
                                        env,
                                        block_number,
                                        &url_or_alias,
                                    );
                                    Some(HostDirective::CreateFork { request })
                                },
                                None => None,
                            }
                        },
                        OneTimeAction::RollFork { block_number, fork_id } => {
                            let modified_storage = self.get_modified_storage(pending_modified);
                            let modified_bytecodes = self.get_modified_bytecodes(tx_bytecodes);
                            Some(
                                HostDirective::RollFork {
                                    block_number,
                                    fork_id,
                                    modified_storage,
                                    modified_bytecodes,
                                },
                            )
                        },
                        OneTimeAction::SelectFork { fork_id } => {
                            let modified_storage = self.get_modified_storage(pending_modified);
                            let modified_bytecodes = self.get_modified_bytecodes(tx_bytecodes);
                            let mut d: Vec<Word> = Vec::new();
                            d.push(fork_id);
                            proof {
                                assert(d@ =~= seq![fork_id]);
                            }
                            self.return_data = Some(d);
                            Some(
                                HostDirective::SelectFork {
                                    fork_id,
                                    modified_storage,
                                    modified_bytecodes,
                                },
                            )
                        },
                        OneTimeAction::RevertToSnapshot { snapshot_id } => {
                            let modified_storage = self.get_modified_storage(pending_modified);
                            match self.saved_snapshots.take(&snapshot_id) {
                                Some(snapshot) => Some(
                                    HostDirective::RevertToSnapshot {
                                        snapshot_id,
                                        restored_storage: snapshot.modified_storage,
                                        modified_storage,
                                    },
                                ),
                                None => Some(HostDirective::FatalSnapshotMissing { snapshot_id }),
                            }
                        },
                        OneTimeAction::Snapshot => {
                            let modified_storage = self.get_modified_storage(pending_modified);
                            let capture = modified_storage.duplicate();
                            self.pending_snapshot_capture = Some(capture);
                            Some(HostDirective::TakeSnapshot { modified_storage })
                        },
                        OneTimeAction::SetOrigin { origin } => {
                            Some(HostDirective::SetOrigin { origin })
                        },
                        OneTimeAction::MakePersistentAccounts { accounts } => {
                            Some(HostDirective::MakePersistentAccounts { accounts })
                        },
                        OneTimeAction::RevokePersistentAccounts { accounts } => {
                            Some(HostDirective::RevokePersistentAccounts { accounts })
                        },
                    }
                },
                None => None,
            };
            let ghost dspec = directive;
            let ghost out_pre = out@;
            match directive {
                Some(d) => {
                    out.push(d);
                },
                None => {},
            }
            proof {
                let j = qpre.len() as int;
                assert(qpre == q0.take(j));
                let x = q0[j - 1];
                assert(aspec == Option::Some(x));
                let rest = q0.skip(j);
                // Unfold each projection one step on the drained action.
                assert(q0.skip(j - 1).len() == q0.len() - j + 1);
                assert(q0.skip(j - 1)[0] == x);
                assert(q0.skip(j - 1).skip(1) =~= rest);
                assert(crate::actions::queued_plain(q0.skip(j - 1))
                    == crate::actions::queued_plain(rest) + crate::actions::opt_seq(
                    crate::actions::plain_of_action(x),
                ));
                assert(crate::actions::queued_backend(q0.skip(j - 1), has_env, store0)
                    == crate::actions::queued_backend(rest, has_env, store0)
                    + crate::actions::backend_step(
                    x,
                    has_env,
                    store0,
                    crate::actions::drained_snapshot_ids(rest),
                ));
                match dspec {
                    Option::Some(d) => {
                        assert(out@.drop_last() =~= out_pre);
                        assert(crate::actions::directive_plain(out@)
                            == crate::actions::directive_plain(out_pre) + crate::actions::opt_seq(
                            crate::actions::plain_of_directive(d),
                        ));
                        assert(crate::actions::directive_backend(out@)
                            == crate::actions::directive_backend(out_pre)
                            + crate::actions::opt_seq(crate::actions::backend_of_directive(d)));
                    },
                    Option::None => {},
                }
                // The drained action's owed description equals what was
                // emitted, case by case.
                let pd = (match dspec {
                    Option::Some(dd) => crate::actions::opt_seq(
                        crate::actions::plain_of_directive(dd),
                    ),
                    Option::None => Seq::<crate::actions::PlainDirective>::empty(),
                });
                let bd = (match dspec {
                    Option::Some(dd) => crate::actions::opt_seq(
                        crate::actions::backend_of_directive(dd),
                    ),
                    Option::None => Seq::<crate::actions::BackendOp>::empty(),
                });
                let drained = crate::actions::drained_snapshot_ids(rest);
                match x {
                    OneTimeAction::StorageWrite { .. } => {
                        assert(pd =~= crate::actions::opt_seq(crate::actions::plain_of_action(x)));
                        assert(bd =~= crate::actions::backend_step(x, has_env, store0, drained));
                    },
                    OneTimeAction::StoreFactoryDep { .. } => {
                        assert(pd =~= crate::actions::opt_seq(crate::actions::plain_of_action(x)));
                        assert(bd =~= crate::actions::backend_step(x, has_env, store0, drained));
                    },
                    OneTimeAction::ForceRevert { .. } => {
                        assert(pd =~= crate::actions::opt_seq(crate::actions::plain_of_action(x)));
                        assert(bd =~= crate::actions::backend_step(x, has_env, store0, drained));
                    },
                    OneTimeAction::ForceReturn { .. } => {
                        assert(pd =~= crate::actions::opt_seq(crate::actions::plain_of_action(x)));
                        assert(bd =~= crate::actions::backend_step(x, has_env, store0, drained));
                    },
                    OneTimeAction::SetImmediateReturn { .. } => {
                        assert(pd =~= crate::actions::opt_seq(crate::actions::plain_of_action(x)));
                        assert(bd =~= crate::actions::backend_step(x, has_env, store0, drained));
                    },
                    OneTimeAction::CreateSelectFork { .. } => {
                        assert(pd =~= crate::actions::opt_seq(crate::actions::plain_of_action(x)));
                        assert(bd =~= crate::actions::backend_step(x, has_env, store0, drained));
                    },
                    OneTimeAction::CreateFork { .. } => {
                        assert(pd =~= crate::actions::opt_seq(crate::actions::plain_of_action(x)));
                        assert(bd =~= crate::actions::backend_step(x, has_env, store0, drained));
                    },
                    OneTimeAction::RollFork { .. } => {
                        assert(pd =~= crate::actions::opt_seq(crate::actions::plain_of_action(x)));
                        assert(bd =~= crate::actions::backend_step(x, has_env, store0, drained));
                    },
                    OneTimeAction::SelectFork { .. } => {
                        assert(pd =~= crate::actions::opt_seq(crate::actions::plain_of_action(x)));
                        assert(bd =~= crate::actions::backend_step(x, has_env, store0, drained));
                    },
                    OneTimeAction::RevertToSnapshot { .. } => {
                        assert(pd =~= crate::actions::opt_seq(crate::actions::plain_of_action(x)));
                        assert(bd =~= crate::actions::backend_step(x, has_env, store0, drained));
                    },
                    OneTimeAction::Snapshot => {
                        assert(pd =~= crate::actions::opt_seq(crate::actions::plain_of_action(x)));
                        assert(bd =~= crate::actions::backend_step(x, has_env, store0, drained));
                    },
                    OneTimeAction::SetOrigin { .. } => {
                        assert(pd =~= crate::actions::opt_seq(crate::actions::plain_of_action(x)));
                        assert(bd =~= crate::actions::backend_step(x, has_env, store0, drained));
                    },
                    OneTimeAction::MakePersistentAccounts { .. } => {
                        assert(pd =~= crate::actions::opt_seq(crate::actions::plain_of_action(x)));
                        assert(bd =~= crate::actions::backend_step(x, has_env, store0, drained));
                    },
                    OneTimeAction::RevokePersistentAccounts { .. } => {
                        assert(pd =~= crate::actions::opt_seq(crate::actions::plain_of_action(x)));
                        assert(bd =~= crate::actions::backend_step(x, has_env, store0, drained));
                    },
                }
                assert(crate::actions::directive_plain(out@) =~= crate::actions::queued_plain(
                    q0.skip(self.one_time_actions@.len() as int),
                ));
                assert(crate::actions::directive_backend(out@)
                    =~= crate::actions::queued_backend(
                    q0.skip(self.one_time_actions@.len() as int),
                    has_env,
                    store0,
                ));
                // The snapshot store sheds exactly the drained identifier.
                assert(crate::actions::drained_snapshot_ids(q0.skip(j - 1)) == (match x {
                    OneTimeAction::RevertToSnapshot { snapshot_id } =>
                        crate::actions::drained_snapshot_ids(rest).insert(snapshot_id),
                    _ => crate::actions::drained_snapshot_ids(rest),
                }));
                // The pending-return-data account folds over the drain.
                crate::actions::lemma_rd_after_step(qpre, rd_pre);
                assert(qpre.drop_last() =~= self.one_time_actions@);
            }
        }
        proof {
            assert(q0.take(0) =~= Seq::<OneTimeAction>::empty());
            assert(q0.skip(0) =~= q0);
            assert(crate::actions::rd_after(self.one_time_actions@, rd_view(self.return_data))
                == rd_view(self.return_data));
        }
        let flush_ptr = self.return_ptr.take();
        match flush_ptr {
            Some(ptr) => {
                let pending = self.return_data.take();
                match pending {
                    Some(data) => {
                        if data.len() <= (u32::MAX / 32) as usize {
                            let patched = FatPtr {
                                offset: ptr.offset,
                                memory_page: ptr.memory_page,
                                start: ptr.start,
                                length: (data.len() as u32) * 32,
                            };
                            let ghost before_flush = out@;
                            out.push(
                                HostDirective::SetReturnData { return_ptr: patched, data },
                            );
                            proof {
                                assert(out@.drop_last() =~= before_flush);
                                assert(crate::actions::directive_plain(out@)
                                    =~= crate::actions::directive_plain(before_flush));
                                assert(crate::actions::directive_backend(out@)
                                    =~= crate::actions::directive_backend(before_flush));
                            }
                        }
                    },
                    None => {},
                }
            },
            None => {},
        }
        match &self.permanent_actions.start_prank {
            Some(prank) => {
                if !crate::addrs::check_internal_address(&view.current.this_address) {
                    let ghost before_prank = out@;
                    out.push(HostDirective::SetMsgSender { sender: prank.sender });
                    proof {
                        assert(out@.drop_last() =~= before_prank);
                        assert(crate::actions::directive_plain(out@)
                            =~= crate::actions::directive_plain(before_prank));
                        assert(crate::actions::directive_backend(out@)
                            =~= crate::actions::directive_backend(before_prank));
                    }
                }
            },
            None => {},
        }
        let triggered = match &self.permanent_actions.immediate_return {
            Some(imm) => imm.trigger_pc == view.current.pc,
            None => false,
        };
        if triggered {
            let imm_taken = self.permanent_actions.immediate_return.take();
            match imm_taken {
                Some(imm) => {
                    self.one_time_actions.push(
                        OneTimeAction::SetImmediateReturn {
                            data: imm.return_data,
                            continue_pc: imm.continue_pc,
                            base_memory_page: imm.base_memory_page,
                            code_page: imm.code_page,
                        },
                    );
                },
                None => {},
            }
        }
        out
    }

    /// Reports the backend identifier of the snapshot just taken: the
    /// awaiting capture is stored under it and the identifier becomes the
    /// cheatcode's return value.  Without an awaiting capture nothing
    /// changes.
    pub fn record_snapshot_id(&mut self, id: Word)
        requires
            old(self).wf(),
        ensures
            final(self).wf(),
            (match old(self).pending_snapshot_capture {
                Option::Some(m) => {
                    &&& final(self).saved_snapshots.contains(id)
                    &&& final(self).saved_snapshots.stored_for(id).modified_storage@ == m@
                    &&& final(self).pending_snapshot_capture is None
                    &&& (forall|o: Word|
                        o != id ==> (#[trigger] final(self).saved_snapshots.contains(o) <==> old(self).saved_snapshots.contains(o)))
                    &&& (forall|o: Word|
                        o != id && old(self).saved_snapshots.contains(o)
                            ==> #[trigger] final(self).saved_snapshots.stored_for(o) == old(self).saved_snapshots.stored_for(o))
                    &&& (final(self).return_data matches Option::Some(d) && d@.len() == 1
                        && d@[0] == id)
                },
                Option::None => *final(self) == *old(self),
            }),
            final(self).expected_calls == old(self).expected_calls,
            final(self).mock_calls == old(self).mock_calls,
            final(self).one_time_actions == old(self).one_time_actions,
            final(self).permanent_actions == old(self).permanent_actions,
            final(self).test_status == old(self).test_status,
            final(self).storage_modifications == old(self).storage_modifications,
    {
        let capture = self.pending_snapshot_capture.take();
        match capture {
            Some(m) => {
                self.saved_snapshots.save(id, crate::snapshots::SavedSnapshot {
                    modified_storage: m,
                });
                let mut d: Vec<Word> = Vec::new();
                d.push(id);
                self.return_data = Some(d);
            },
            None => {},
        }
    }

    /// Reports the backend identifier of a fork just created or selected:
    /// the identifier becomes the cheatcode's return value.
    pub fn record_fork_id(&mut self, id: Word)
        ensures
            final(self).return_data matches Option::Some(d) && d@.len() == 1 && d@[0] == id,
            final(self).wf() == old(self).wf(),
            same_trackers(*final(self), *old(self)),
            same_contexts(*final(self), *old(self)),
            same_storage_state(*final(self), *old(self)),
            same_queue(*final(self), *old(self)),
            final(self).return_ptr == old(self).return_ptr,
            final(self).near_calls == old(self).near_calls,
    {
        let mut d: Vec<Word> = Vec::new();
        d.push(id);
        self.return_data = Some(d);
    }
}

/// Law: a snapshot immediately reverted to, with no intervening writes,
/// is a no-op on storage at the cycle-end hook.  When the queue drained
/// by [`CheatcodeTracer::finish_cycle`] holds exactly the revert of a
/// stored identifier, what its contract guarantees of the emitted
/// directives forces one revert directive whose reinstalled delta is
/// exactly the captured one — so the host reinstates the storage view
/// from capture time — and the identifier is gone afterwards, so a
/// second revert to it fails.
pub proof fn lemma_snapshot_revert_roundtrip_at_hook(
    pre: CheatcodeTracer,
    post: CheatcodeTracer,
    out: Seq<HostDirective>,
    base: Map<StorageKey, Word>,
    pending: Map<StorageKey, Word>,
    base_bytecodes: Seq<(Word, Vec<u8>)>,
    tx_bytecodes: Seq<(Word, Vec<u8>)>,
    id: Word,
    capture: Map<StorageKey, Word>,
)
    requires
        pre.one_time_actions@ == seq![OneTimeAction::RevertToSnapshot { snapshot_id: id }],
        pre.saved_snapshots.contains(id),
        pre.saved_snapshots.stored_for(id).modified_storage@ == capture,
        crate::actions::directive_backend(out) == crate::actions::queued_backend(
            pre.one_time_actions@,
            pre.env is Some,
            pre.saved_snapshots,
        ),
        forall|i: int|
            0 <= i < out.len() ==> directive_carries_merge(
                #[trigger] out[i],
                base,
                pending,
                base_bytecodes,
                tx_bytecodes,
                pre.env,
                pre.saved_snapshots,
            ),
        forall|o: Word|
            (#[trigger] post.saved_snapshots.contains(o) <==> (pre.saved_snapshots.contains(o)
                && !crate::actions::drained_snapshot_ids(pre.one_time_actions@).contains(o))),
    ensures
        exists|i: int|
            0 <= i < out.len() && (#[trigger] out[i] matches HostDirective::RevertToSnapshot {
                snapshot_id,
                restored_storage,
                ..
            } && snapshot_id == id && restored_storage@ == capture),
        !post.saved_snapshots.contains(id),
{
    let q = pre.one_time_actions@;
    let e = pre.env is Some;
    let store = pre.saved_snapshots;
    assert(q.skip(1) =~= Seq::<OneTimeAction>::empty());
    assert(crate::actions::queued_backend(Seq::<OneTimeAction>::empty(), e, store) == Seq::<
        crate::actions::BackendOp,
    >::empty());
    assert(crate::actions::drained_snapshot_ids(Seq::<OneTimeAction>::empty())
        == Set::<Word>::empty());
    assert(q[0] == (OneTimeAction::RevertToSnapshot { snapshot_id: id }));
    assert(crate::actions::queued_backend(q, e, store) =~= seq![
        crate::actions::BackendOp::RevertSnap { snapshot_id: id, found: true },
    ]);
    crate::actions::lemma_directive_backend_member(out, 0);
    let j = choose|j: int|
        0 <= j < out.len() && crate::actions::backend_of_directive(#[trigger] out[j])
            == Option::Some(crate::actions::directive_backend(out)[0]);
    assert(out[j] matches HostDirective::RevertToSnapshot { snapshot_id, restored_storage, .. }
        && snapshot_id == id && restored_storage@ == capture);
    assert(crate::actions::drained_snapshot_ids(q).contains(id));
}

} // verus!
