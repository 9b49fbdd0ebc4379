use era_cheatcodes::actions::HostDirective;
use era_cheatcodes::addrs::{make_cheatcode_address, Addr};
use era_cheatcodes::dispatch::{CheatcodeCall, DispatchOutcome};
use era_cheatcodes::encode::{bool_to_string, bytes_to_hex_string};
use era_cheatcodes::errors::UsageError;
use era_cheatcodes::storage::{StorageKey, StorageMap};
use era_cheatcodes::tracer::{
    make_block_info_key, make_tx_origin_key, CheatcodeTracer, StorageModifications,
};
use era_cheatcodes::vm_view::{
    CallFrameView, FarCallInfo, OpcodeVariant, OpcodeView, VmStateView,
};
use era_cheatcodes::fork::{create_fork_request, EraEnv};
use era_cheatcodes::words::{pack_block_info, Word};

fn view(code_address: Addr, depth: usize) -> VmStateView {
    VmStateView {
        depth,
        timestamp: 10,
        current: CallFrameView {
            code_address,
            this_address: code_address,
            msg_sender: Addr { hi: 0, lo: 0x1111 },
            pc: 7,
            exception_handler_location: 77,
            base_memory_page: 100,
            code_page: 200,
            ergs_remaining: 1_000_000,
            is_local_frame: false,
            context_u128_value: 0,
        },
        parent: None,
    }
}

fn new_tracer() -> CheatcodeTracer {
    CheatcodeTracer::new(StorageModifications { keys: StorageMap::new(), bytecodes: Vec::new() })
}

fn dispatch(t: &mut CheatcodeTracer, storage: &mut StorageMap, call: CheatcodeCall) -> DispatchOutcome {
    let cheat = view(make_cheatcode_address(), 2);
    t.dispatch_cheatcode(&cheat, storage, call)
}

/// Applies the cycle's storage-write directives to the given map, as the
/// host would apply them to its storage log.
fn apply_writes(directives: &[HostDirective], storage: &mut StorageMap) {
    for d in directives {
        if let HostDirective::WriteStorage { key, write_value, .. } = d {
            storage.write(*key, *write_value);
        }
    }
}

#[test]
fn store_then_load_round_trip() {
    let mut t = new_tracer();
    let mut storage = StorageMap::new();
    let target = Addr { hi: 0, lo: 0x55 };
    let slot = Word { hi: 0, lo: 9 };
    let value = Word { hi: 0, lo: 77 };
    let r = dispatch(&mut t, &mut storage, CheatcodeCall::Store { target, slot, value });
    assert!(matches!(r, DispatchOutcome::Handled));
    let directives = t.finish_cycle(&view(target, 1), &StorageMap::new(), &Vec::new());
    apply_writes(&directives, &mut storage);
    assert_eq!(storage.read(&StorageKey { addr: target, slot }), Some(value));
    let r = dispatch(&mut t, &mut storage, CheatcodeCall::Load { target, slot });
    assert!(matches!(r, DispatchOutcome::Handled));
    assert_eq!(t.return_data, Some(vec![value]));
}

#[test]
fn load_of_the_reserved_address_reads_zero() {
    let mut t = new_tracer();
    let mut storage = StorageMap::new();
    let r = dispatch(
        &mut t,
        &mut storage,
        CheatcodeCall::Load { target: make_cheatcode_address(), slot: Word { hi: 0, lo: 1 } },
    );
    assert!(matches!(r, DispatchOutcome::Handled));
    assert_eq!(t.return_data, Some(vec![Word { hi: 0, lo: 0 }]));
}

#[test]
fn roll_keeps_timestamp_and_warp_keeps_block_number() {
    let mut t = new_tracer();
    let mut storage = StorageMap::new();
    storage.write(make_block_info_key(), pack_block_info(10, 1000));
    let r = dispatch(&mut t, &mut storage, CheatcodeCall::Roll { new_height: 42 });
    assert!(matches!(r, DispatchOutcome::Handled));
    let directives = t.finish_cycle(&view(Addr { hi: 0, lo: 1 }, 1), &StorageMap::new(), &Vec::new());
    apply_writes(&directives, &mut storage);
    assert_eq!(storage.read(&make_block_info_key()), Some(pack_block_info(42, 1000)));
    let r = dispatch(&mut t, &mut storage, CheatcodeCall::Warp { new_timestamp: 5555 });
    assert!(matches!(r, DispatchOutcome::Handled));
    let directives = t.finish_cycle(&view(Addr { hi: 0, lo: 1 }, 1), &StorageMap::new(), &Vec::new());
    apply_writes(&directives, &mut storage);
    assert_eq!(storage.read(&make_block_info_key()), Some(pack_block_info(42, 5555)));
}

#[test]
fn roll_with_malformed_block_info_is_dropped() {
    let mut t = new_tracer();
    let mut storage = StorageMap::new();
    storage.write(make_block_info_key(), Word { hi: u128::MAX, lo: 0 });
    let r = dispatch(&mut t, &mut storage, CheatcodeCall::Roll { new_height: 42 });
    assert!(matches!(r, DispatchOutcome::MalformedBlockInfo));
    assert!(t.one_time_actions.is_empty());
}

#[test]
fn deal_queues_a_balance_write() {
    let mut t = new_tracer();
    let mut storage = StorageMap::new();
    let account = Addr { hi: 0, lo: 0x77 };
    let balance = Word { hi: 1, lo: 2 };
    let r = dispatch(&mut t, &mut storage, CheatcodeCall::Deal { account, new_balance: balance });
    assert!(matches!(r, DispatchOutcome::Handled));
    let directives = t.finish_cycle(&view(account, 1), &StorageMap::new(), &Vec::new());
    let found = directives.iter().any(|d| matches!(
        d,
        HostDirective::WriteStorage { write_value, .. } if *write_value == balance
    ));
    assert!(found);
}

#[test]
fn set_nonce_must_increase() {
    let mut t = new_tracer();
    let mut storage = StorageMap::new();
    let account = Addr { hi: 0, lo: 0x99 };
    let five = Word { hi: 0, lo: 5 };
    let r = t.set_nonce(account, Some(five), Some(five), &mut storage);
    assert_eq!(r, Some((Word { hi: 0, lo: 5 }, Word { hi: 0, lo: 5 })));
    let directives = t.finish_cycle(&view(account, 1), &StorageMap::new(), &Vec::new());
    apply_writes(&directives, &mut storage);
    let (tx_nonce, deploy_nonce) = CheatcodeTracer::get_nonce(account, &mut storage);
    assert_eq!(tx_nonce, Word { hi: 0, lo: 5 });
    assert_eq!(deploy_nonce, Word { hi: 0, lo: 5 });
    // a nonce can only move forward
    let r = t.set_nonce(account, Some(five), Some(five), &mut storage);
    assert_eq!(r, None);
}

#[test]
fn get_nonce_via_dispatch_returns_the_stored_nonce() {
    let mut t = new_tracer();
    let mut storage = StorageMap::new();
    let account = Addr { hi: 0, lo: 0x99 };
    let seven = Word { hi: 0, lo: 7 };
    t.set_nonce(account, Some(seven), None, &mut storage);
    let directives = t.finish_cycle(&view(account, 1), &StorageMap::new(), &Vec::new());
    apply_writes(&directives, &mut storage);
    let r = dispatch(&mut t, &mut storage, CheatcodeCall::GetNonce { account });
    assert!(matches!(r, DispatchOutcome::Handled));
    assert_eq!(t.return_data, Some(vec![Word { hi: 0, lo: 7 }]));
}

#[test]
fn read_callers_reports_prank_mode() {
    let mut t = new_tracer();
    let mut storage = StorageMap::new();
    storage.write(make_tx_origin_key(), Word { hi: 0, lo: 0xAB });
    let r = dispatch(&mut t, &mut storage, CheatcodeCall::ReadCallers);
    assert!(matches!(r, DispatchOutcome::Handled));
    assert_eq!(
        t.return_data,
        Some(vec![
            Word { hi: 0, lo: 0 },
            Word { hi: 0, lo: 0xAB },
            Word { hi: 0, lo: 0xAB },
        ])
    );
    let sender = Addr { hi: 0, lo: 0xCC };
    dispatch(&mut t, &mut storage, CheatcodeCall::StartPrank { sender, origin: None });
    dispatch(&mut t, &mut storage, CheatcodeCall::ReadCallers);
    assert_eq!(
        t.return_data,
        Some(vec![
            Word { hi: 0, lo: 4 },
            Word { hi: 0, lo: 0xCC },
            Word { hi: 0, lo: 0xAB },
        ])
    );
}

#[test]
fn to_string_renders_bytes_as_prefixed_hex() {
    assert_eq!(bytes_to_hex_string(&vec![0xde, 0xad, 0xbe, 0xef]), "0xdeadbeef");
    assert_eq!(bytes_to_hex_string(&Vec::new()), "0x");
    assert_eq!(bool_to_string(true), "true");
    assert_eq!(bool_to_string(false), "false");
    let mut t = new_tracer();
    let mut storage = StorageMap::new();
    let r = dispatch(
        &mut t,
        &mut storage,
        CheatcodeCall::ToStringBytes { value: vec![0xde, 0xad, 0xbe, 0xef] },
    );
    assert!(matches!(r, DispatchOutcome::Handled));
    let words = t.return_data.clone().expect("return data");
    assert_eq!(words.len(), 3);
    assert_eq!(words[0], Word { hi: 0, lo: 32 });
    assert_eq!(words[1], Word { hi: 0, lo: 10 });
    let mut chunk = [0u8; 16];
    chunk[..10].copy_from_slice(b"0xdeadbeef");
    assert_eq!(words[2], Word { hi: u128::from_be_bytes(chunk), lo: 0 });
}

#[test]
fn serialize_bool_stores_the_json_object() {
    let mut t = new_tracer();
    let mut storage = StorageMap::new();
    let r = dispatch(
        &mut t,
        &mut storage,
        CheatcodeCall::SerializeBool {
            object_key: String::from("obj1"),
            value_key: String::from("ok"),
            value: true,
        },
    );
    assert!(matches!(r, DispatchOutcome::Handled));
    assert_eq!(t.serialized_objects.len(), 1);
    assert_eq!(t.serialized_objects[0].0, "obj1");
    assert_eq!(t.serialized_objects[0].1, "{\"ok\":true}");
    let words = t.return_data.clone().expect("return data");
    assert_eq!(words[1], Word { hi: 0, lo: 4 });
    let mut chunk = [0u8; 16];
    chunk[..4].copy_from_slice(b"true");
    assert_eq!(words[2], Word { hi: u128::from_be_bytes(chunk), lo: 0 });
}

#[test]
fn exact_registration_cannot_be_repeated() {
    let mut t = new_tracer();
    let mut storage = StorageMap::new();
    let callee = Addr { hi: 0, lo: 0xAA };
    let call = CheatcodeCall::ExpectCall {
        callee,
        calldata: vec![1],
        value: None,
        count: Some(2),
    };
    assert!(matches!(dispatch(&mut t, &mut storage, call), DispatchOutcome::Handled));
    let again = CheatcodeCall::ExpectCall {
        callee,
        calldata: vec![1],
        value: None,
        count: Some(3),
    };
    assert!(matches!(
        dispatch(&mut t, &mut storage, again),
        DispatchOutcome::Refused(UsageError::CountedCallAlreadyRegistered)
    ));
    let uncounted = CheatcodeCall::ExpectCall { callee, calldata: vec![1], value: None, count: None };
    assert!(matches!(
        dispatch(&mut t, &mut storage, uncounted),
        DispatchOutcome::Refused(UsageError::CannotOverwriteCountedCall)
    ));
}

#[test]
fn uncounted_registrations_accumulate() {
    let mut t = new_tracer();
    let mut storage = StorageMap::new();
    let callee = Addr { hi: 0, lo: 0xAA };
    for _ in 0..3 {
        let call = CheatcodeCall::ExpectCall { callee, calldata: vec![1], value: None, count: None };
        assert!(matches!(dispatch(&mut t, &mut storage, call), DispatchOutcome::Handled));
    }
    assert_eq!(t.expected_calls.entries.len(), 1);
    assert_eq!(t.expected_calls.entries[0].data.count, 3);
}

#[test]
fn fork_request_carries_the_environment() {
    let env = EraEnv {
        first_l2_block_number: 12,
        first_l2_block_timestamp: 34,
        fee_account: Addr { hi: 0, lo: 0x8001 },
        gas_limit: 1000,
        chain_id: 324,
        base_fee: 250,
    };
    let req = create_fork_request(&env, Some(77), &String::from("mainnet"));
    assert_eq!(req.url_or_alias, "mainnet");
    assert_eq!(req.block_number, Some(77));
    assert_eq!(req.env.number, 12);
    assert_eq!(req.env.timestamp, 34);
    assert_eq!(req.env.chain_id, 324);
    assert_eq!(req.env.basefee, 250);
}

#[test]
fn select_fork_sets_the_return_value() {
    let mut t = new_tracer();
    let mut storage = StorageMap::new();
    t.initialize_tracer(EraEnv {
        first_l2_block_number: 1,
        first_l2_block_timestamp: 2,
        fee_account: Addr { hi: 0, lo: 0x8001 },
        gas_limit: 3,
        chain_id: 4,
        base_fee: 5,
    });
    let id = Word { hi: 0, lo: 9 };
    let r = dispatch(&mut t, &mut storage, CheatcodeCall::SelectFork { fork_id: id });
    assert!(matches!(r, DispatchOutcome::Handled));
    let directives = t.finish_cycle(&view(Addr { hi: 0, lo: 1 }, 1), &StorageMap::new(), &Vec::new());
    assert!(directives.iter().any(|d| matches!(
        d,
        HostDirective::SelectFork { fork_id, .. } if *fork_id == id
    )));
    assert_eq!(t.return_data, Some(vec![id]));
}

#[test]
fn queued_writes_apply_in_reverse_enqueue_order() {
    let mut t = new_tracer();
    let mut storage = StorageMap::new();
    let target = Addr { hi: 0, lo: 0x55 };
    let slot = Word { hi: 0, lo: 9 };
    dispatch(
        &mut t,
        &mut storage,
        CheatcodeCall::Store { target, slot, value: Word { hi: 0, lo: 1 } },
    );
    dispatch(
        &mut t,
        &mut storage,
        CheatcodeCall::Store { target, slot, value: Word { hi: 0, lo: 2 } },
    );
    let directives = t.finish_cycle(&view(target, 1), &StorageMap::new(), &Vec::new());
    let writes: Vec<Word> = directives
        .iter()
        .filter_map(|d| match d {
            HostDirective::WriteStorage { write_value, .. } => Some(*write_value),
            _ => None,
        })
        .collect();
    // the later-enqueued write is applied first
    assert_eq!(writes, vec![Word { hi: 0, lo: 2 }, Word { hi: 0, lo: 1 }]);
}

#[test]
fn uncounted_count_cannot_grow_past_its_limit() {
    let mut t = new_tracer();
    let callee = Addr { hi: 0, lo: 0xAA };
    let r = t.expected_calls.register(
        callee,
        vec![1],
        None,
        u64::MAX,
        era_cheatcodes::expect_call::ExpectedCallType::AtLeast,
    );
    assert_eq!(r, Ok(()));
    let r = t.expected_calls.register(
        callee,
        vec![1],
        None,
        1,
        era_cheatcodes::expect_call::ExpectedCallType::AtLeast,
    );
    assert_eq!(r, Err(UsageError::ExpectedCallCountOverflow));
}

#[test]
fn expect_revert_needs_an_enclosing_frame() {
    let mut t = new_tracer();
    let mut storage = StorageMap::new();
    let mut cheat = view(make_cheatcode_address(), 0);
    cheat.depth = 0;
    let r = t.dispatch_cheatcode(&cheat, &mut storage, CheatcodeCall::ExpectRevert { reason: None });
    assert!(matches!(r, DispatchOutcome::DepthTooShallow));
}
