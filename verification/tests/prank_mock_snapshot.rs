use era_cheatcodes::actions::{HostDirective, OneTimeAction};
use era_cheatcodes::addrs::{make_cheatcode_address, Addr};
use era_cheatcodes::dispatch::{CheatcodeCall, DispatchOutcome};
use era_cheatcodes::errors::UsageError;
use era_cheatcodes::storage::{StorageKey, StorageMap, StorageSource};
use era_cheatcodes::tracer::{make_tx_origin_key, CheatcodeTracer, StorageModifications};
use era_cheatcodes::vm_view::{
    CallFrameView, FarCallInfo, OpcodeVariant, OpcodeView, VmStateView,
};
use era_cheatcodes::words::Word;

fn frame(code_address: Addr, pc: u16) -> CallFrameView {
    CallFrameView {
        code_address,
        this_address: code_address,
        msg_sender: Addr { hi: 0, lo: 0x1111 },
        pc,
        exception_handler_location: 77,
        base_memory_page: 100,
        code_page: 200,
        ergs_remaining: 1_000_000,
        is_local_frame: false,
        context_u128_value: 0,
    }
}

fn view(code_address: Addr, depth: usize) -> VmStateView {
    VmStateView { depth, timestamp: 10, current: frame(code_address, 7), parent: None }
}

fn far_op() -> OpcodeView {
    OpcodeView { variant: OpcodeVariant::FarCall, ret_to_label: false, imm_0: 0 }
}

fn info(calldata: Vec<u8>, decoded: Option<CheatcodeCall>) -> FarCallInfo {
    FarCallInfo {
        calldata,
        decoded,
        active_fork_url: None,
        value_sim_value: Word { hi: 0, lo: 0 },
        value_sim_address: Word { hi: 0, lo: 0 },
    }
}

fn new_tracer() -> CheatcodeTracer {
    CheatcodeTracer::new(StorageModifications { keys: StorageMap::new(), bytecodes: Vec::new() })
}

fn dispatch(t: &mut CheatcodeTracer, storage: &mut StorageMap, call: CheatcodeCall) -> DispatchOutcome {
    let cheat = view(make_cheatcode_address(), 2);
    let r = t.after_execution(&cheat, &far_op(), Some(info(Vec::new(), Some(call))), None, storage);
    r.dispatch.expect("cheatcode was dispatched")
}

#[test]
fn prank_overrides_sender_for_outside_addresses() {
    let mut t = new_tracer();
    let mut storage = StorageMap::new();
    let sender = Addr { hi: 0, lo: 0xCC };
    let r = dispatch(&mut t, &mut storage, CheatcodeCall::StartPrank { sender, origin: None });
    assert!(matches!(r, DispatchOutcome::Handled));
    // an ordinary executing address observes the impersonated sender
    let outside = view(Addr { hi: 0, lo: 0xEE00 }, 1);
    let directives = t.finish_cycle(&outside, &StorageMap::new(), &Vec::new());
    assert!(matches!(
        directives.last(),
        Some(HostDirective::SetMsgSender { sender: s }) if *s == sender
    ));
    // an internal system address must not be pranked
    let internal = view(Addr { hi: 0, lo: 0x800b }, 1);
    let directives = t.finish_cycle(&internal, &StorageMap::new(), &Vec::new());
    assert!(!directives.iter().any(|d| matches!(d, HostDirective::SetMsgSender { .. })));
    // after stopPrank subsequent cycles observe the normal sender again
    let r = dispatch(&mut t, &mut storage, CheatcodeCall::StopPrank);
    assert!(matches!(r, DispatchOutcome::Handled));
    let directives = t.finish_cycle(&outside, &StorageMap::new(), &Vec::new());
    assert!(!directives.iter().any(|d| matches!(d, HostDirective::SetMsgSender { .. })));
}

#[test]
fn prank_with_origin_override_restores_on_stop() {
    let mut t = new_tracer();
    let mut storage = StorageMap::new();
    let origin_key = make_tx_origin_key();
    storage.write(origin_key, Word { hi: 0, lo: 0xAB });
    let sender = Addr { hi: 0, lo: 0xCC };
    let new_origin = Addr { hi: 0, lo: 0xDD };
    dispatch(&mut t, &mut storage, CheatcodeCall::StartPrank { sender, origin: Some(new_origin) });
    // the queued write installs the override, remembering the prior value
    assert!(matches!(
        t.one_time_actions.last(),
        Some(OneTimeAction::StorageWrite { key, read_value, write_value })
            if *key == origin_key
                && *read_value == Word { hi: 0, lo: 0xAB }
                && *write_value == Word { hi: 0, lo: 0xDD }
    ));
    dispatch(&mut t, &mut storage, CheatcodeCall::StopPrank);
    assert!(matches!(
        t.one_time_actions.last(),
        Some(OneTimeAction::StorageWrite { key, write_value, .. })
            if *key == origin_key && *write_value == Word { hi: 0, lo: 0xAB }
    ));
}

#[test]
fn prank_and_broadcast_are_mutually_exclusive() {
    let mut t = new_tracer();
    let mut storage = StorageMap::new();
    dispatch(
        &mut t,
        &mut storage,
        CheatcodeCall::StartPrank { sender: Addr { hi: 0, lo: 1 }, origin: None },
    );
    let r = dispatch(&mut t, &mut storage, CheatcodeCall::StartBroadcast { origin: None });
    assert!(matches!(r, DispatchOutcome::Refused(UsageError::BroadcastDuringPrank)));
    dispatch(&mut t, &mut storage, CheatcodeCall::StopPrank);
    let r = dispatch(&mut t, &mut storage, CheatcodeCall::StartBroadcast { origin: None });
    assert!(matches!(r, DispatchOutcome::Handled));
    let r = dispatch(
        &mut t,
        &mut storage,
        CheatcodeCall::StartPrank { sender: Addr { hi: 0, lo: 1 }, origin: None },
    );
    assert!(matches!(r, DispatchOutcome::Refused(UsageError::PrankDuringBroadcast)));
}

#[test]
fn fork_selection_is_refused_during_broadcast() {
    let mut t = new_tracer();
    let mut storage = StorageMap::new();
    dispatch(&mut t, &mut storage, CheatcodeCall::StartBroadcast { origin: None });
    let r = dispatch(
        &mut t,
        &mut storage,
        CheatcodeCall::CreateSelectFork { url_or_alias: String::from("mainnet"), block_number: None },
    );
    assert!(matches!(r, DispatchOutcome::Refused(UsageError::ForkDuringBroadcast)));
    let r = dispatch(&mut t, &mut storage, CheatcodeCall::SelectFork { fork_id: Word { hi: 0, lo: 1 } });
    assert!(matches!(r, DispatchOutcome::Refused(UsageError::ForkDuringBroadcast)));
    let r = dispatch(
        &mut t,
        &mut storage,
        CheatcodeCall::CreateFork { url_or_alias: String::from("mainnet"), block_number: None },
    );
    assert!(matches!(r, DispatchOutcome::Refused(UsageError::ForkDuringBroadcast)));
    let r = dispatch(
        &mut t,
        &mut storage,
        CheatcodeCall::RollFork { block_number: Word { hi: 0, lo: 5 }, fork_id: None },
    );
    assert!(matches!(r, DispatchOutcome::Refused(UsageError::ForkDuringBroadcast)));
}

#[test]
fn mocked_call_returns_preset_data() {
    let mut t = new_tracer();
    let mut storage = StorageMap::new();
    let target = Addr { hi: 0, lo: 0xBB };
    let r = dispatch(
        &mut t,
        &mut storage,
        CheatcodeCall::MockCall {
            callee: target,
            calldata: vec![9],
            return_data: vec![0xAA, 0xBB],
        },
    );
    assert!(matches!(r, DispatchOutcome::Handled));
    // the call site is remembered by the before-instruction hook
    let call_site = view(target, 3);
    t.before_execution(&call_site, &far_op());
    t.after_execution(&call_site, &far_op(), Some(info(vec![9], None)), None, &mut storage);
    // the pending immediate return fires at its trigger counter and is
    // queued for the next cycle
    let mut at_trigger = view(target, 3);
    at_trigger.current.pc = 0;
    let directives = t.finish_cycle(&at_trigger, &StorageMap::new(), &Vec::new());
    assert!(!directives.iter().any(|d| matches!(d, HostDirective::ImmediateReturn { .. })));
    let directives = t.finish_cycle(&at_trigger, &StorageMap::new(), &Vec::new());
    let found = directives.iter().any(|d| match d {
        HostDirective::ImmediateReturn { data, return_ptr, continue_pc, base_memory_page, code_page } => {
            let mut chunk = [0u8; 16];
            chunk[0] = 0xAA;
            chunk[1] = 0xBB;
            data.len() == 1
                && data[0] == Word { hi: u128::from_be_bytes(chunk), lo: 0 }
                && return_ptr.memory_page == 102
                && return_ptr.length == 32
                && *continue_pc == 8
                && *base_memory_page == 100
                && *code_page == 200
        },
        _ => false,
    });
    assert!(found);
}

#[test]
fn unmatched_calldata_does_not_arm_a_mock() {
    let mut t = new_tracer();
    let mut storage = StorageMap::new();
    let target = Addr { hi: 0, lo: 0xBB };
    dispatch(
        &mut t,
        &mut storage,
        CheatcodeCall::MockCall { callee: target, calldata: vec![9], return_data: vec![1] },
    );
    let call_site = view(target, 3);
    t.before_execution(&call_site, &far_op());
    // different calldata: the mock filter requires equality
    t.after_execution(&call_site, &far_op(), Some(info(vec![8], None)), None, &mut storage);
    assert!(t.permanent_actions.immediate_return.is_none());
}

#[test]
fn snapshot_then_revert_restores_the_captured_delta() {
    let mut mods = StorageMap::new();
    let k1 = StorageKey { addr: Addr { hi: 0, lo: 0x10 }, slot: Word { hi: 0, lo: 1 } };
    mods.write(k1, Word { hi: 0, lo: 111 });
    let mut t = CheatcodeTracer::new(StorageModifications { keys: mods, bytecodes: Vec::new() });
    let mut storage = StorageMap::new();
    let mut pending = StorageMap::new();
    let k2 = StorageKey { addr: Addr { hi: 0, lo: 0x20 }, slot: Word { hi: 0, lo: 2 } };
    pending.write(k2, Word { hi: 0, lo: 222 });
    // take the snapshot
    dispatch(&mut t, &mut storage, CheatcodeCall::Snapshot);
    let directives = t.finish_cycle(&view(Addr { hi: 0, lo: 1 }, 1), &pending, &Vec::new());
    let captured: Vec<(StorageKey, Word)> = directives
        .iter()
        .find_map(|d| match d {
            HostDirective::TakeSnapshot { modified_storage } => {
                Some(modified_storage.as_vec().clone())
            },
            _ => None,
        })
        .expect("snapshot directive");
    // the capture is the merge of the test-wide and pending deltas
    assert_eq!(captured.len(), 2);
    let id = Word { hi: 0, lo: 42 };
    t.record_snapshot_id(id);
    assert!(matches!(&t.return_data, Some(d) if d.len() == 1 && d[0] == id));
    // revert to it, with no intervening writes: the restored delta is
    // exactly the captured one
    dispatch(&mut t, &mut storage, CheatcodeCall::RevertTo { snapshot_id: id });
    let directives = t.finish_cycle(&view(Addr { hi: 0, lo: 1 }, 1), &pending, &Vec::new());
    let restored: Vec<(StorageKey, Word)> = directives
        .iter()
        .find_map(|d| match d {
            HostDirective::RevertToSnapshot { snapshot_id, restored_storage, .. } => {
                assert_eq!(*snapshot_id, id);
                Some(restored_storage.as_vec().clone())
            },
            _ => None,
        })
        .expect("revert directive");
    assert_eq!(restored, captured);
    // a snapshot is single-use: reverting to the same identifier again fails
    dispatch(&mut t, &mut storage, CheatcodeCall::RevertTo { snapshot_id: id });
    let directives = t.finish_cycle(&view(Addr { hi: 0, lo: 1 }, 1), &pending, &Vec::new());
    assert!(directives.iter().any(|d| matches!(
        d,
        HostDirective::FatalSnapshotMissing { snapshot_id } if *snapshot_id == id
    )));
}

#[test]
fn read_value_sees_latest_write() {
    let mut storage = StorageMap::new();
    let k = StorageKey { addr: Addr { hi: 0, lo: 5 }, slot: Word { hi: 0, lo: 6 } };
    assert_eq!(storage.read_value(&k), Word { hi: 0, lo: 0 });
    storage.write(k, Word { hi: 0, lo: 44 });
    assert_eq!(storage.read_value(&k), Word { hi: 0, lo: 44 });
}
