use era_cheatcodes::revert::{decode_revert_payload, handle_except_revert, RetKind, RevertError};

/// The standard `Error(string)` revert encoding for a message.
fn error_string_payload(msg: &[u8]) -> Vec<u8> {
    let mut b = vec![0x08, 0xc3, 0x79, 0xa0];
    let mut offset = vec![0u8; 32];
    offset[31] = 32;
    b.extend_from_slice(&offset);
    let mut len = vec![0u8; 32];
    len[24..32].copy_from_slice(&(msg.len() as u64).to_be_bytes());
    b.extend_from_slice(&len);
    b.extend_from_slice(msg);
    // pad to a word boundary as the ABI encoder would
    while b.len() % 32 != 4 {
        b.push(0);
    }
    b
}

#[test]
fn decode_error_string_yields_message() {
    let payload = error_string_payload(b"out of funds");
    assert_eq!(decode_revert_payload(&payload), b"out of funds".to_vec());
}

#[test]
fn decode_unknown_selector_yields_tail() {
    let payload = vec![0x11, 0x22, 0x33, 0x44, 0xAA, 0xBB];
    assert_eq!(decode_revert_payload(&payload), vec![0xAA, 0xBB]);
}

#[test]
fn decode_short_payload_yields_empty() {
    assert_eq!(decode_revert_payload(&vec![0x08, 0xc3]), Vec::<u8>::new());
}

#[test]
fn decode_bad_offset_falls_back_to_tail() {
    let mut payload = error_string_payload(b"x");
    payload[35] = 64; // not the standard offset of 32
    let expected: Vec<u8> = payload[4..].to_vec();
    assert_eq!(decode_revert_payload(&payload), expected);
}

#[test]
fn decode_oversized_length_falls_back_to_tail() {
    let mut payload = error_string_payload(b"x");
    payload[67] = 200; // declared length larger than the payload
    let expected: Vec<u8> = payload[4..].to_vec();
    assert_eq!(decode_revert_payload(&payload), expected);
}

#[test]
fn revert_with_matching_reason_passes() {
    let reason = b"boom".to_vec();
    let payload = error_string_payload(b"boom");
    assert!(handle_except_revert(Some(&reason), RetKind::Revert, &payload).is_ok());
}

#[test]
fn revert_with_any_reason_passes_when_none_declared() {
    let payload = error_string_payload(b"whatever");
    assert!(handle_except_revert(None, RetKind::Revert, &payload).is_ok());
    assert!(handle_except_revert(None, RetKind::Revert, &Vec::new()).is_ok());
}

#[test]
fn revert_with_mismatched_reason_fails_with_diff() {
    let reason = b"expected this".to_vec();
    let payload = error_string_payload(b"got that");
    match handle_except_revert(Some(&reason), RetKind::Revert, &payload) {
        Err(RevertError::ReasonMismatch { actual, expected }) => {
            assert_eq!(actual, b"got that".to_vec());
            assert_eq!(expected, b"expected this".to_vec());
        },
        other => panic!("unexpected outcome: {:?}", other),
    }
}

#[test]
fn revert_without_data_fails_when_reason_declared() {
    let reason = b"something".to_vec();
    match handle_except_revert(Some(&reason), RetKind::Revert, &Vec::new()) {
        Err(RevertError::RevertedWithoutData) => {},
        other => panic!("unexpected outcome: {:?}", other),
    }
}

#[test]
fn success_fails_a_revert_expectation() {
    match handle_except_revert(None, RetKind::Normal, &Vec::new()) {
        Err(RevertError::SucceededButRevertExpected) => {},
        other => panic!("unexpected outcome: {:?}", other),
    }
}

#[test]
fn panic_fails_a_revert_expectation() {
    match handle_except_revert(None, RetKind::Panic, &Vec::new()) {
        Err(RevertError::Panicked) => {},
        other => panic!("unexpected outcome: {:?}", other),
    }
}
