//! External-process output normalisation, and assertion failures
//! surfaced as forced-revert directives.

use era_cheatcodes::actions::HostDirective;
use era_cheatcodes::addrs::{make_cheatcode_address, make_test_address, Addr};
use era_cheatcodes::dispatch::{CheatcodeCall, DispatchOutcome};
use era_cheatcodes::ffi::normalize_ffi_stdout;
use era_cheatcodes::revert::{RetKind, RevertError};
use era_cheatcodes::storage::{StorageKey, StorageMap, StorageSource};
use era_cheatcodes::tracer::{CheatcodeTracer, StorageModifications};
use era_cheatcodes::vm_view::{CallFrameView, FarCallInfo, OpcodeVariant, OpcodeView, VmStateView};
use era_cheatcodes::words::Word;

fn frame(code_address: Addr) -> CallFrameView {
    CallFrameView {
        code_address,
        this_address: code_address,
        msg_sender: Addr { hi: 0, lo: 0x1111 },
        pc: 7,
        exception_handler_location: 77,
        base_memory_page: 100,
        code_page: 1,
        ergs_remaining: 1_000_000,
        is_local_frame: false,
        context_u128_value: 0,
    }
}

fn view(code_address: Addr, depth: usize) -> VmStateView {
    VmStateView { depth, timestamp: 10, current: frame(code_address), parent: None }
}

fn far_op() -> OpcodeView {
    OpcodeView { variant: OpcodeVariant::FarCall, ret_to_label: false, imm_0: 0 }
}

fn ret_op() -> OpcodeView {
    OpcodeView { variant: OpcodeVariant::Ret(RetKind::Normal), ret_to_label: false, imm_0: 0 }
}

fn info(calldata: Vec<u8>, decoded: Option<CheatcodeCall>) -> FarCallInfo {
    FarCallInfo {
        calldata,
        decoded,
        active_fork_url: None,
        value_sim_value: Word { hi: 0, lo: 0 },
        value_sim_address: Word { hi: 0, lo: 0 },
    }
}

fn new_tracer() -> CheatcodeTracer {
    CheatcodeTracer::new(StorageModifications { keys: StorageMap::new(), bytecodes: Vec::new() })
}

#[test]
fn ffi_output_hex_decodes_with_marker() {
    let out = normalize_ffi_stdout(&b"  0xdeadBEEF\n".to_vec());
    assert_eq!(out, vec![0xde, 0xad, 0xbe, 0xef]);
}

#[test]
fn ffi_output_hex_decodes_without_marker() {
    let out = normalize_ffi_stdout(&b"0102ff".to_vec());
    assert_eq!(out, vec![0x01, 0x02, 0xff]);
}

#[test]
fn ffi_output_strips_repeated_markers() {
    let out = normalize_ffi_stdout(&b"0x0x12".to_vec());
    assert_eq!(out, vec![0x12]);
}

#[test]
fn ffi_output_non_hex_is_trimmed_verbatim() {
    let out = normalize_ffi_stdout(&b"\t hello world \r\n".to_vec());
    assert_eq!(out, b"hello world".to_vec());
}

#[test]
fn ffi_output_odd_hex_run_is_verbatim_with_marker() {
    // an odd digit count does not decode; the trimmed text keeps its marker
    let out = normalize_ffi_stdout(&b"0xabc".to_vec());
    assert_eq!(out, b"0xabc".to_vec());
}

#[test]
fn ffi_output_empty_becomes_empty() {
    let out = normalize_ffi_stdout(&b"   ".to_vec());
    assert_eq!(out, Vec::<u8>::new());
}

/// A failing exact expectation at test finish is surfaced as a forced
/// revert carrying the registration and both counts.
#[test]
fn call_count_mismatch_is_surfaced_as_forced_revert() {
    let mut t = new_tracer();
    let mut storage = StorageMap::new();
    let start = view(make_test_address(), 1);
    t.after_execution(&start, &far_op(), None, None, &mut storage);
    let cheat = view(make_cheatcode_address(), 2);
    let call = CheatcodeCall::ExpectCall {
        callee: Addr { hi: 0, lo: 0xAA },
        calldata: vec![0x01, 0x02],
        value: None,
        count: Some(2),
    };
    let r = t.after_execution(&cheat, &far_op(), Some(info(Vec::new(), Some(call))), None, &mut storage);
    assert!(matches!(r.dispatch, Some(DispatchOutcome::Handled)));
    // only one matching call is performed
    let target = view(Addr { hi: 0, lo: 0xAA }, 2);
    t.after_execution(&target, &far_op(), Some(info(vec![0x01, 0x02], None)), None, &mut storage);
    let finish = view(Addr { hi: 0, lo: 0x55 }, 0);
    let r = t.after_execution(&finish, &ret_op(), None, None, &mut storage);
    assert!(r.test_finished);
    assert_eq!(r.call_failures.len(), 1);
    let out = t.finish_cycle(&finish, &StorageMap::new(), &Vec::new());
    let forced: Vec<&HostDirective> = out
        .iter()
        .filter(|d| matches!(d, HostDirective::ForceRevert { .. }))
        .collect();
    assert_eq!(forced.len(), 1);
    match forced[0] {
        HostDirective::ForceRevert { error, exception_handler } => {
            assert_eq!(*exception_handler, 77);
            match error {
                RevertError::CallCountMismatch { callee, calldata, expected_count, actual_count } => {
                    assert_eq!(*callee, Addr { hi: 0, lo: 0xAA });
                    assert_eq!(calldata.as_slice(), &[0x01, 0x02]);
                    assert_eq!(*expected_count, 2);
                    assert_eq!(*actual_count, 1);
                }
                other => panic!("wrong error: {:?}", other),
            }
        }
        _ => unreachable!(),
    }
}

/// A passing exact expectation schedules no forced revert at finish.
#[test]
fn clean_finish_schedules_no_forced_revert() {
    let mut t = new_tracer();
    let mut storage = StorageMap::new();
    let start = view(make_test_address(), 1);
    t.after_execution(&start, &far_op(), None, None, &mut storage);
    let finish = view(Addr { hi: 0, lo: 0x55 }, 0);
    let r = t.after_execution(&finish, &ret_op(), None, None, &mut storage);
    assert!(r.test_finished);
    let out = t.finish_cycle(&finish, &StorageMap::new(), &Vec::new());
    assert!(out.iter().all(|d| !matches!(d, HostDirective::ForceRevert { .. })));
}

/// The revert directive for a recorded snapshot carries exactly the
/// captured delta; the identifier is single-use, a second revert is
/// fatal.
#[test]
fn snapshot_revert_directive_restores_the_capture_once() {
    let mut t = new_tracer();
    let mut storage = StorageMap::new();
    let key = StorageKey { addr: Addr { hi: 0, lo: 0xBB }, slot: Word { hi: 0, lo: 5 } };
    let mut pending = StorageMap::new();
    pending.write(key, Word { hi: 0, lo: 42 });
    let anywhere = view(Addr { hi: 0, lo: 0x55 }, 1);
    // capture a snapshot of the pending delta
    let r = t.dispatch_cheatcode(&anywhere, &mut storage, CheatcodeCall::Snapshot);
    assert_eq!(r, DispatchOutcome::Handled);
    let out = t.finish_cycle(&anywhere, &pending, &Vec::new());
    assert!(out.iter().any(|d| matches!(d, HostDirective::TakeSnapshot { .. })));
    t.record_snapshot_id(Word { hi: 0, lo: 9 });
    // revert to it: the directive reinstalls the captured delta
    let r = t.dispatch_cheatcode(
        &anywhere,
        &mut storage,
        CheatcodeCall::RevertTo { snapshot_id: Word { hi: 0, lo: 9 } },
    );
    assert_eq!(r, DispatchOutcome::Handled);
    let out = t.finish_cycle(&anywhere, &pending, &Vec::new());
    let mut seen = false;
    for d in out {
        if let HostDirective::RevertToSnapshot { snapshot_id, mut restored_storage, .. } = d {
            assert_eq!(snapshot_id, Word { hi: 0, lo: 9 });
            assert_eq!(restored_storage.read_value(&key), Word { hi: 0, lo: 42 });
            seen = true;
        }
    }
    assert!(seen);
    // the identifier is gone: a second revert fails fatally
    let r = t.dispatch_cheatcode(
        &anywhere,
        &mut storage,
        CheatcodeCall::RevertTo { snapshot_id: Word { hi: 0, lo: 9 } },
    );
    assert_eq!(r, DispatchOutcome::Handled);
    let out = t.finish_cycle(&anywhere, &pending, &Vec::new());
    assert!(out.iter().any(|d| matches!(
        d,
        HostDirective::FatalSnapshotMissing { snapshot_id } if *snapshot_id == Word { hi: 0, lo: 9 }
    )));
}
