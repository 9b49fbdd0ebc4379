use era_cheatcodes::actions::HostDirective;
use era_cheatcodes::addrs::{make_cheatcode_address, make_test_address, Addr};
use era_cheatcodes::dispatch::CheatcodeCall;
use era_cheatcodes::revert::{RetKind, RevertError};
use era_cheatcodes::storage::StorageMap;
use era_cheatcodes::tracer::{CheatcodeTracer, StorageModifications};
use era_cheatcodes::vm_view::{
    CallFrameView, FarCallInfo, OpcodeVariant, OpcodeView, RetInfo, VmStateView,
};
use era_cheatcodes::words::Word;

fn frame(code_address: Addr, pc: u16) -> CallFrameView {
    CallFrameView {
        code_address,
        this_address: code_address,
        msg_sender: Addr { hi: 0, lo: 0x1111 },
        pc,
        exception_handler_location: 77,
        base_memory_page: 100,
        code_page: 1,
        ergs_remaining: 1_000_000,
        is_local_frame: false,
        context_u128_value: 0,
    }
}

fn view(code_address: Addr, depth: usize) -> VmStateView {
    VmStateView { depth, timestamp: 10, current: frame(code_address, 7), parent: None }
}

fn far_op() -> OpcodeView {
    OpcodeView { variant: OpcodeVariant::FarCall, ret_to_label: false, imm_0: 0 }
}

fn ret_op(kind: RetKind) -> OpcodeView {
    OpcodeView { variant: OpcodeVariant::Ret(kind), ret_to_label: false, imm_0: 0 }
}

fn info(calldata: Vec<u8>, decoded: Option<CheatcodeCall>) -> FarCallInfo {
    FarCallInfo {
        calldata,
        decoded,
        active_fork_url: None,
        value_sim_value: Word { hi: 0, lo: 0 },
        value_sim_address: Word { hi: 0, lo: 0 },
    }
}

fn new_tracer() -> CheatcodeTracer {
    CheatcodeTracer::new(StorageModifications { keys: StorageMap::new(), bytecodes: Vec::new() })
}

fn error_string_payload(msg: &[u8]) -> Vec<u8> {
    let mut b = vec![0x08, 0xc3, 0x79, 0xa0];
    let mut offset = vec![0u8; 32];
    offset[31] = 32;
    b.extend_from_slice(&offset);
    let mut len = vec![0u8; 32];
    len[24..32].copy_from_slice(&(msg.len() as u64).to_be_bytes());
    b.extend_from_slice(&len);
    b.extend_from_slice(msg);
    while b.len() % 32 != 4 {
        b.push(0);
    }
    b
}

/// Runs an expectCall registration through the dispatcher, `calls` matching
/// calls, and a test finish; returns the failure reports.
fn expect_call_scenario(calls: usize) -> Vec<era_cheatcodes::expect_call::ExpectedCallFailure> {
    let mut t = new_tracer();
    let mut storage = StorageMap::new();
    // the outer test function starts at depth 1
    let start = view(make_test_address(), 1);
    let r = t.after_execution(&start, &far_op(), None, None, &mut storage);
    assert!(!r.test_finished);
    // register expectCall(0xAA, [0x01, 0x02], count = 2, exact)
    let cheat = view(make_cheatcode_address(), 2);
    let call = CheatcodeCall::ExpectCall {
        callee: Addr { hi: 0, lo: 0xAA },
        calldata: vec![0x01, 0x02],
        value: None,
        count: Some(2),
    };
    let r = t.after_execution(&cheat, &far_op(), Some(info(Vec::new(), Some(call))), None, &mut storage);
    assert!(matches!(
        r.dispatch,
        Some(era_cheatcodes::dispatch::DispatchOutcome::Handled)
    ));
    // perform the matching calls: calldata starts with the registered prefix
    for _ in 0..calls {
        let target = view(Addr { hi: 0, lo: 0xAA }, 2);
        t.after_execution(
            &target,
            &far_op(),
            Some(info(vec![0x01, 0x02, 0xFF], None)),
            None,
            &mut storage,
        );
    }
    // the test function returns: depth drops back below the entry depth
    let finish = view(Addr { hi: 0, lo: 0x55 }, 0);
    let r = t.after_execution(&finish, &ret_op(RetKind::Normal), None, None, &mut storage);
    assert!(r.test_finished);
    r.call_failures
}

#[test]
fn exact_expect_call_with_exact_count_passes() {
    let failures = expect_call_scenario(2);
    assert!(failures.is_empty());
}

#[test]
fn exact_expect_call_with_too_few_calls_fails_with_counts() {
    let failures = expect_call_scenario(1);
    assert_eq!(failures.len(), 1);
    assert_eq!(failures[0].callee, Addr { hi: 0, lo: 0xAA });
    assert_eq!(failures[0].calldata, vec![0x01, 0x02]);
    assert_eq!(failures[0].expected, 2);
    assert_eq!(failures[0].actual, 1);
}

#[test]
fn value_filter_gates_counting() {
    let mut t = new_tracer();
    let mut storage = StorageMap::new();
    let cheat = view(make_cheatcode_address(), 2);
    let call = CheatcodeCall::ExpectCall {
        callee: Addr { hi: 0, lo: 0xAB },
        calldata: vec![0x01],
        value: Some(Word { hi: 0, lo: 5 }),
        count: Some(1),
    };
    t.after_execution(&cheat, &far_op(), Some(info(Vec::new(), Some(call))), None, &mut storage);
    // a call carrying the wrong value does not count
    let mut target = view(Addr { hi: 0, lo: 0xAB }, 2);
    target.current.context_u128_value = 4;
    t.after_execution(&target, &far_op(), Some(info(vec![0x01], None)), None, &mut storage);
    assert_eq!(t.expected_calls.entries[0].actual, 0);
    // the right value counts
    target.current.context_u128_value = 5;
    t.after_execution(&target, &far_op(), Some(info(vec![0x01], None)), None, &mut storage);
    assert_eq!(t.expected_calls.entries[0].actual, 1);
}

fn run_expect_revert(
    reason: Option<Vec<u8>>,
    ret_kind: RetKind,
    payload: Option<Vec<u8>>,
) -> Vec<HostDirective> {
    let mut t = new_tracer();
    let mut storage = StorageMap::new();
    // arm at depth 2; the watched return then happens at depth 1
    let cheat = view(make_cheatcode_address(), 2);
    let call = CheatcodeCall::ExpectRevert { reason };
    let r = t.after_execution(&cheat, &far_op(), Some(info(Vec::new(), Some(call))), None, &mut storage);
    assert!(matches!(
        r.dispatch,
        Some(era_cheatcodes::dispatch::DispatchOutcome::Handled)
    ));
    // the cheatcode's own frame returns first and is skipped; the hook
    // records the continuation counters from each observed return
    let mut at_depth1 = view(Addr { hi: 0, lo: 0x77 }, 1);
    at_depth1.parent = Some(frame(Addr { hi: 0, lo: 0x88 }, 55));
    t.before_execution(&at_depth1, &ret_op(RetKind::Normal));
    t.after_execution(&at_depth1, &ret_op(RetKind::Normal), None, None, &mut storage);
    // the watched return
    t.before_execution(&at_depth1, &ret_op(ret_kind));
    let ret = RetInfo { ret_params_ptr: None, return_data: payload };
    t.after_execution(&at_depth1, &ret_op(ret_kind), None, Some(&ret), &mut storage);
    t.finish_cycle(&view(Addr { hi: 0, lo: 0x77 }, 1), &StorageMap::new(), &Vec::new())
}

#[test]
fn expected_revert_with_matching_reason_forces_return() {
    let directives = run_expect_revert(
        Some(b"bad".to_vec()),
        RetKind::Revert,
        Some(error_string_payload(b"bad")),
    );
    assert!(directives.iter().any(|d| matches!(
        d,
        HostDirective::ForceReturn { data, continue_pc: 55 }
            if data.len() == 1
    )));
}

#[test]
fn expected_revert_with_any_reason_forces_return() {
    let directives = run_expect_revert(None, RetKind::Revert, Some(vec![1, 2, 3, 4, 5]));
    assert!(directives.iter().any(|d| matches!(d, HostDirective::ForceReturn { .. })));
}

#[test]
fn expected_revert_with_wrong_reason_forces_revert_with_diff() {
    let directives = run_expect_revert(
        Some(b"want".to_vec()),
        RetKind::Revert,
        Some(error_string_payload(b"got")),
    );
    let found = directives.iter().any(|d| match d {
        HostDirective::ForceRevert {
            error: RevertError::ReasonMismatch { actual, expected },
            exception_handler: 77,
        } => actual == &b"got".to_vec() && expected == &b"want".to_vec(),
        _ => false,
    });
    assert!(found);
}

#[test]
fn expected_revert_on_success_forces_revert() {
    let directives = run_expect_revert(Some(b"x".to_vec()), RetKind::Normal, None);
    assert!(directives.iter().any(|d| matches!(
        d,
        HostDirective::ForceRevert { error: RevertError::SucceededButRevertExpected, .. }
    )));
}

#[test]
fn arming_expect_revert_twice_is_refused() {
    let mut t = new_tracer();
    let mut storage = StorageMap::new();
    let cheat = view(make_cheatcode_address(), 2);
    let first = CheatcodeCall::ExpectRevert { reason: None };
    let r = t.after_execution(&cheat, &far_op(), Some(info(Vec::new(), Some(first))), None, &mut storage);
    assert!(matches!(
        r.dispatch,
        Some(era_cheatcodes::dispatch::DispatchOutcome::Handled)
    ));
    let second = CheatcodeCall::ExpectRevert { reason: None };
    let r = t.after_execution(&cheat, &far_op(), Some(info(Vec::new(), Some(second))), None, &mut storage);
    assert!(matches!(
        r.dispatch,
        Some(era_cheatcodes::dispatch::DispatchOutcome::Refused(
            era_cheatcodes::errors::UsageError::ExpectRevertAlreadyArmed
        ))
    ));
}

#[test]
fn cheatcode_call_without_gas_is_ignored() {
    let mut t = new_tracer();
    let mut storage = StorageMap::new();
    let mut cheat = view(make_cheatcode_address(), 2);
    cheat.current.ergs_remaining = 0;
    let call = CheatcodeCall::Snapshot;
    let r = t.after_execution(&cheat, &far_op(), Some(info(Vec::new(), Some(call))), None, &mut storage);
    assert!(r.missing_gas_or_code);
    assert!(r.dispatch.is_none());
    assert_eq!(t.one_time_actions.len(), 0);
}

#[test]
fn undecodable_cheatcode_calldata_is_reported() {
    let mut t = new_tracer();
    let mut storage = StorageMap::new();
    let cheat = view(make_cheatcode_address(), 2);
    let r = t.after_execution(&cheat, &far_op(), Some(info(vec![0xFF], None)), None, &mut storage);
    assert!(r.decode_failed);
}

#[test]
fn cheatcode_return_data_is_flushed_through_the_saved_pointer() {
    let mut t = new_tracer();
    let mut storage = StorageMap::new();
    // a cheatcode leaves return data pending
    let cheat = view(make_cheatcode_address(), 2);
    let call = CheatcodeCall::Load {
        target: Addr { hi: 0, lo: 0x42 },
        slot: Word { hi: 0, lo: 1 },
    };
    t.after_execution(&cheat, &far_op(), Some(info(Vec::new(), Some(call))), None, &mut storage);
    // a near call in between defers the capture
    t.after_execution(
        &cheat,
        &OpcodeView { variant: OpcodeVariant::NearCall, ret_to_label: false, imm_0: 0 },
        None,
        None,
        &mut storage,
    );
    let ptr = era_cheatcodes::actions::FatPtr { offset: 0, memory_page: 55, start: 0, length: 0 };
    let with_ptr = RetInfo { ret_params_ptr: Some(ptr), return_data: None };
    // the near call's own return is skipped
    t.after_execution(&cheat, &ret_op(RetKind::Normal), None, Some(&with_ptr), &mut storage);
    assert!(t.return_ptr.is_none());
    // the outer return's pointer is saved
    t.after_execution(&cheat, &ret_op(RetKind::Normal), None, Some(&with_ptr), &mut storage);
    assert_eq!(t.return_ptr, Some(ptr));
    // the cycle end writes the pending words through it, length patched
    let directives = t.finish_cycle(&view(cheat.current.code_address, 1), &StorageMap::new(), &Vec::new());
    let found = directives.iter().any(|d| match d {
        HostDirective::SetReturnData { return_ptr, data } => {
            return_ptr.memory_page == 55 && return_ptr.length == 32 && data.len() == 1
        },
        _ => false,
    });
    assert!(found);
    assert!(t.return_ptr.is_none());
}

#[test]
fn broadcast_records_a_transaction_for_the_watched_call() {
    let mut t = new_tracer();
    let mut storage = StorageMap::new();
    let origin = Addr { hi: 0, lo: 0xD0 };
    // start the broadcast at depth 2 from caller 0x1111
    let mut at_start = view(make_cheatcode_address(), 2);
    at_start.current.msg_sender = Addr { hi: 0, lo: 0x1111 };
    let call = CheatcodeCall::StartBroadcast { origin: Some(origin) };
    t.after_execution(&at_start, &far_op(), Some(info(Vec::new(), Some(call))), None, &mut storage);
    // an outside call at the broadcast depth from the recorded caller
    let target = Addr { hi: 0, lo: 0xB0B };
    let mut outside = view(target, 2);
    outside.parent = Some(frame(Addr { hi: 0, lo: 0x1111 }, 3));
    let mut call_info = info(vec![0xCA, 0x11], None);
    call_info.active_fork_url = Some(String::from("http://localhost:8011"));
    t.after_execution(&outside, &far_op(), Some(call_info), None, &mut storage);
    assert_eq!(t.broadcastable_transactions.len(), 1);
    let tx = &t.broadcastable_transactions[0];
    assert_eq!(tx.from, origin);
    assert_eq!(tx.to, target);
    assert_eq!(tx.value, None);
    assert_eq!(tx.data, vec![0xCA, 0x11]);
    assert_eq!(tx.nonce, Word { hi: 0, lo: 0 });
    assert_eq!(tx.rpc.as_deref(), Some("http://localhost:8011"));
    // the broadcast origin is installed and the sender's nonce bumped
    assert!(t.one_time_actions.iter().any(|a| matches!(
        a,
        era_cheatcodes::actions::OneTimeAction::SetOrigin { origin: o } if *o == origin
    )));
    assert!(t.one_time_actions.iter().any(|a| matches!(
        a,
        era_cheatcodes::actions::OneTimeAction::StorageWrite { write_value, .. }
            if *write_value == Word { hi: 0, lo: 1 }
    )));
    // a call from a different caller is not recorded
    let mut other = view(target, 2);
    other.parent = Some(frame(Addr { hi: 0, lo: 0x2222 }, 3));
    t.after_execution(&other, &far_op(), Some(info(vec![0xCA], None)), None, &mut storage);
    assert_eq!(t.broadcastable_transactions.len(), 1);
}

#[test]
fn broadcast_unwraps_the_value_simulator_calling_convention() {
    let mut t = new_tracer();
    let mut storage = StorageMap::new();
    let origin = Addr { hi: 0, lo: 0xD0 };
    let mut at_start = view(make_cheatcode_address(), 2);
    at_start.current.msg_sender = Addr { hi: 0, lo: 0x1111 };
    let call = CheatcodeCall::StartBroadcast { origin: Some(origin) };
    t.after_execution(&at_start, &far_op(), Some(info(Vec::new(), Some(call))), None, &mut storage);
    // value transfer routed through the simulator: the real destination
    // and value sit in the system registers
    let sim = era_cheatcodes::addrs::make_msg_value_simulator_address();
    let mut outside = view(sim, 2);
    outside.parent = Some(frame(Addr { hi: 0, lo: 0x1111 }, 3));
    let mut call_info = info(vec![0x01], None);
    call_info.value_sim_value = Word { hi: 0, lo: 1_000_000 };
    call_info.value_sim_address = Word { hi: 0, lo: 0xFEED };
    t.after_execution(&outside, &far_op(), Some(call_info), None, &mut storage);
    assert_eq!(t.broadcastable_transactions.len(), 1);
    let tx = &t.broadcastable_transactions[0];
    assert_eq!(tx.to, Addr { hi: 0, lo: 0xFEED });
    assert_eq!(tx.value, Some(Word { hi: 0, lo: 1_000_000 }));
}

#[test]
fn emit_windows_are_tracked_and_asserted_at_cycle_end() {
    let mut t = new_tracer();
    let mut storage = StorageMap::new();
    // start the test so the finish transition can fire later
    t.after_execution(&view(make_test_address(), 1), &far_op(), None, None, &mut storage);
    // declare the expected emit at timestamp 20
    let mut cheat = view(make_cheatcode_address(), 2);
    cheat.timestamp = 20;
    let call = CheatcodeCall::ExpectEmit {
        checks: era_cheatcodes::events::EmitChecks {
            address: None,
            topic1: true,
            topic2: false,
            topic3: false,
            data: true,
        },
    };
    t.after_execution(&cheat, &far_op(), Some(info(Vec::new(), Some(call))), None, &mut storage);
    // the next outside call closes the expected window and opens the
    // actual one
    let mut outside = view(Addr { hi: 0, lo: 0xAAA00 }, 3);
    outside.timestamp = 25;
    t.after_execution(&outside, &far_op(), Some(info(vec![1], None)), None, &mut storage);
    // the call unwinds: depth drops below the watched call's depth
    let mut unwound = view(Addr { hi: 0, lo: 0xAAA00 }, 2);
    unwound.timestamp = 30;
    t.after_execution(&unwound, &ret_op(RetKind::Normal), None, None, &mut storage);
    // the test finishes, so the assertion is due at cycle end
    let finish = view(Addr { hi: 0, lo: 0x55 }, 0);
    let r = t.after_execution(&finish, &ret_op(RetKind::Normal), None, None, &mut storage);
    assert!(r.test_finished);
    let directives = t.finish_cycle(&view(Addr { hi: 0, lo: 1 }, 0), &StorageMap::new(), &Vec::new());
    match &directives[0] {
        HostDirective::AssertEmits { expect_since, expect_until, call_since, call_until, checks } => {
            assert_eq!(*expect_since, 20);
            assert_eq!(*expect_until, 25);
            assert_eq!(*call_since, 25);
            assert_eq!(*call_until, 30);
            assert!(checks.topic1 && checks.data && !checks.topic2);
        },
        other => panic!("expected the emit assertion first, got {:?}", other),
    }
    // it fires once: the next cycle does not assert again
    let directives = t.finish_cycle(&view(Addr { hi: 0, lo: 1 }, 0), &StorageMap::new(), &Vec::new());
    assert!(!directives.iter().any(|d| matches!(d, HostDirective::AssertEmits { .. })));
}

#[test]
fn account_code_storage_calls_bump_the_skip_count() {
    let mut t = new_tracer();
    let mut storage = StorageMap::new();
    // arm at depth 2: the watched return sits at depth 1 with one return
    // to skip
    let cheat = view(make_cheatcode_address(), 2);
    let call = CheatcodeCall::ExpectRevert { reason: None };
    t.after_execution(&cheat, &far_op(), Some(info(Vec::new(), Some(call))), None, &mut storage);
    // a system call into account code storage at one above the target
    // depth adds an extra return to skip
    let acs = era_cheatcodes::addrs::Addr { hi: 0, lo: 0x8002 };
    let sys = view(acs, 2);
    t.after_execution(&sys, &far_op(), Some(info(Vec::new(), None)), None, &mut storage);
    match &t.next_return_action {
        Some(n) => {
            assert_eq!(n.target_depth, 1);
            assert_eq!(n.returns_to_skip, 2);
        },
        None => panic!("expectation should still be armed"),
    }
}
