//! The expected-revert machinery: decoding a revert payload and deciding
//! whether the watched call behaved as declared.
//!
//! A revert payload is compared against the declared reason after decoding:
//! a well-formed `Error(string)` encoding contributes its message bytes,
//! anything else contributes the bytes after the four-byte selector.

use vstd::prelude::*;

use crate::addrs::Addr;
use crate::bytes::{be_int, copy_bytes, lemma_be_int_bound, lemma_be_int_digit_weight,
    lemma_be_int_leading_zeros, lemma_be_int_zero, lemma_pow256_at_least_base,
    lemma_pow256_monotone, pow256};

verus! {

/// The states of the expected-revert tracker carried between hook calls:
/// the declared reason, the depth the cheatcode fired at, and the
/// continuation / exception-handler program counters captured from the
/// return instruction that matters.
#[derive(Debug)]
pub enum ActionOnReturn {
    /// A revert expectation armed by `expectRevert`.
    ExpectRevert {
        /// The declared reason, if one was given.
        reason: Option<Vec<u8>>,
        /// The depth the expectation watches.
        depth: usize,
        /// Saved continuation program counter, once seen.
        prev_continue_pc: Option<u16>,
        /// Saved exception-handler program counter, once seen.
        prev_exception_handler_pc: Option<u16>,
    },
}

/// A pending on-return action: what to do when the watched return at
/// `target_depth` is reached, after skipping `returns_to_skip` returns.
#[derive(Debug)]
pub struct NextReturnAction {
    /// The call-stack depth at which the watched return happens.
    pub target_depth: usize,
    /// What to do there.
    pub action: ActionOnReturn,
    /// Intermediate returns at the target depth to ignore first.
    pub returns_to_skip: usize,
}

/// How the watched call's return instruction ended.
#[derive(Clone, Copy, Debug, PartialEq, Eq, Structural)]
pub enum RetKind {
    /// A normal return.
    Normal,
    /// A revert.
    Revert,
    /// A VM panic.
    Panic,
}

/// Why an expectation failed; carried by the forced revert that reports
/// it, so the failure surfaces as an ordinary call revert with a
/// descriptive message rather than a harness fault.
#[derive(Debug)]
pub enum RevertError {
    /// The call reverted as expected, but with no payload although a
    /// reason was declared.
    RevertedWithoutData,
    /// The decoded payload differs from the declared reason.
    ReasonMismatch {
        /// What the payload decoded to.
        actual: Vec<u8>,
        /// The declared reason.
        expected: Vec<u8>,
    },
    /// The call succeeded although a revert was declared.
    SucceededButRevertExpected,
    /// The call panicked instead of reverting.
    Panicked,
    /// An expected-call registration failed its count check at test
    /// finish.
    CallCountMismatch {
        /// The registration's target address.
        callee: Addr,
        /// Its calldata prefix.
        calldata: Vec<u8>,
        /// The required count.
        expected_count: u64,
        /// The matching calls actually seen.
        actual_count: u64,
    },
    /// The expected-emit comparison failed at the cycle boundary.  Only
    /// the host can decide it, against its event log, when it applies
    /// the emit-assertion directive; it then performs the forced revert
    /// with this error.
    EmitsMismatch,
}

/// The selector of the standard `Error(string)` revert encoding.
pub open spec fn error_selector() -> Seq<u8> {
    seq![0x08u8, 0xc3u8, 0x79u8, 0xa0u8]
}

/// Whether `b` starts with the `Error(string)` selector.
pub open spec fn has_error_selector(b: Seq<u8>) -> bool {
    b.len() >= 4 && b.subrange(0, 4) == error_selector()
}

/// Whether `b` is a well-formed `Error(string)` encoding: selector, the
/// standard offset of 32, and a length that fits in the payload.
pub open spec fn wellformed_error_string(b: Seq<u8>) -> bool {
    &&& b.len() >= 68
    &&& has_error_selector(b)
    &&& be_int(b.subrange(4, 36)) == 32
    &&& 68 + be_int(b.subrange(36, 68)) <= b.len()
}

/// The message bytes of a well-formed `Error(string)` encoding.
pub open spec fn error_string_msg(b: Seq<u8>) -> Seq<u8> {
    b.subrange(68, 68 + be_int(b.subrange(36, 68)))
}

/// The bytes a revert payload is compared by: the decoded message of a
/// well-formed `Error(string)` encoding, else whatever follows the
/// selector.
pub open spec fn revert_comparand(b: Seq<u8>) -> Seq<u8> {
    if wellformed_error_string(b) {
        error_string_msg(b)
    } else if b.len() >= 4 {
        b.skip(4)
    } else {
        Seq::empty()
    }
}

/// Whether `v[start..end]` is all zero.
fn range_all_zero(v: &Vec<u8>, start: usize, end: usize) -> (r: bool)
    requires
        start <= end <= v@.len(),
    ensures
        r == forall|i: int| start <= i < end ==> v@[i] == 0,
{
    let mut i: usize = start;
    while i < end
        invariant
            start <= i <= end <= v@.len(),
            forall|j: int| start <= j < i ==> v@[j] == 0,
        decreases end - i,
    {
        if v[i] != 0 {
            return false;
        }
        i = i + 1;
    }
    true
}

/// Folds `v[start..start + 8]` as a big-endian 64-bit integer.
fn read_be_u64(v: &Vec<u8>, start: usize) -> (r: u64)
    requires
        start + 8 <= v@.len(),
    ensures
        r == be_int(v@.subrange(start as int, start + 8)),
{
    proof {
        reveal_with_fuel(pow256, 9);
    }
    let n = v.len();
    let mut acc: u64 = 0;
    let mut i: usize = 0;
    while i < 8
        invariant
            i <= 8,
            start + 8 <= n == v@.len(),
            acc == be_int(v@.subrange(start as int, start + i)),
            acc < pow256(i as nat),
        decreases 8 - i,
    {
        proof {
            reveal_with_fuel(pow256, 9);
            assert(v@.subrange(start as int, start + i + 1).drop_last() =~= v@.subrange(
                start as int,
                start + i,
            ));
            lemma_be_int_bound(v@.subrange(start as int, start + i));
        }
        acc = acc * 256 + (v[start + i] as u64);
        i = i + 1;
    }
    acc
}

/// Decodes a revert payload into the bytes it is compared by; see
/// [`revert_comparand`].
pub fn decode_revert_payload(b: &Vec<u8>) -> (r: Vec<u8>)
    ensures
        r@ == revert_comparand(b@),
{
    if b.len() < 4 {
        proof {
            assert(Seq::<u8>::empty() =~= revert_comparand(b@));
        }
        return Vec::new();
    }
    let selector_match = b[0] == 0x08 && b[1] == 0xc3 && b[2] == 0x79 && b[3] == 0xa0;
    proof {
        assert(b@.skip(4) =~= b@.subrange(4, b@.len() as int));
        if selector_match {
            assert(b@.subrange(0, 4) =~= error_selector());
        } else {
            assert(b@.subrange(0, 4) != error_selector()) by {
                if b@.subrange(0, 4) == error_selector() {
                    assert(b@[0] == 0x08 && b@[1] == 0xc3 && b@[2] == 0x79 && b@[3] == 0xa0);
                }
            }
        }
    }
    if !selector_match || b.len() < 68 {
        return crate::bytes::copy_range(b, 4, b.len());
    }
    // The offset word must denote exactly 32.
    let offset_ok = range_all_zero(b, 4, 35) && b[35] == 32;
    proof {
        let w = b@.subrange(4, 36);
        if offset_ok {
            assert(w.drop_last() =~= b@.subrange(4, 35));
            lemma_be_int_zero(w.drop_last());
            assert(be_int(w) == 32);
        } else {
            if b@[35] != 32 && (forall|i: int| 4 <= i < 35 ==> b@[i] == 0) {
                assert(w.drop_last() =~= b@.subrange(4, 35));
                lemma_be_int_zero(w.drop_last());
                assert(be_int(w) == b@[35]);
            } else {
                let i = choose|i: int| 4 <= i < 35 && b@[i] != 0;
                assert(w[i - 4] == b@[i]);
                lemma_be_int_digit_weight(w, i - 4);
                assert(pow256((36 - 1 - i) as nat) >= 256) by {
                    lemma_pow256_at_least_base((36 - 1 - i) as nat);
                }
            }
        }
    }
    if !offset_ok {
        return crate::bytes::copy_range(b, 4, b.len());
    }
    // The length word must fit: its upper 24 bytes must be zero and the
    // remaining 64-bit value must leave the message inside the payload.
    let len_hi_zero = range_all_zero(b, 36, 60);
    proof {
        let w = b@.subrange(36, 68);
        if !len_hi_zero {
            let i = choose|i: int| 36 <= i < 60 && b@[i] != 0;
            assert(w[i - 36] == b@[i]);
            lemma_be_int_digit_weight(w, i - 36);
            assert(pow256((68 - 1 - i) as nat) >= pow256(8)) by {
                lemma_pow256_monotone(8, (68 - 1 - i) as nat);
            }
            assert(pow256(8) == 0x1_0000_0000_0000_0000) by {
                reveal_with_fuel(pow256, 9);
            }
            assert(b@.len() < pow256(8)) by {
                reveal_with_fuel(pow256, 9);
            }
        }
    }
    if !len_hi_zero {
        return crate::bytes::copy_range(b, 4, b.len());
    }
    let strlen = read_be_u64(b, 60);
    proof {
        let w = b@.subrange(36, 68);
        let zeros = b@.subrange(36, 60);
        let tail = b@.subrange(60, 68);
        assert(w =~= zeros + tail);
        lemma_be_int_leading_zeros(zeros, tail);
        assert(be_int(w) == strlen);
    }
    if strlen <= (b.len() - 68) as u64 {
        let end = 68 + (strlen as usize);
        crate::bytes::copy_range(b, 68, end)
    } else {
        crate::bytes::copy_range(b, 4, b.len())
    }
}

/// Whether the watched return satisfies the armed expectation: it must be
/// a revert, and when a reason was declared the decoded payload must equal
/// it byte for byte (a declared nonempty reason is never satisfied by an
/// empty payload).
pub open spec fn expect_revert_satisfied(
    reason: Option<Seq<u8>>,
    op: RetKind,
    retdata: Seq<u8>,
) -> bool {
    op == RetKind::Revert && match reason {
        Option::Some(expected) => revert_comparand(retdata) == expected && !(expected.len() > 0
            && retdata.len() == 0),
        Option::None => true,
    }
}

/// Whether `e` is the correct report for an unsatisfied expectation.
pub open spec fn revert_error_describes(
    e: RevertError,
    reason: Option<Seq<u8>>,
    op: RetKind,
    retdata: Seq<u8>,
) -> bool {
    match e {
        RevertError::RevertedWithoutData => {
            &&& op == RetKind::Revert
            &&& reason matches Option::Some(expected) && expected.len() > 0 && retdata.len() == 0
        },
        RevertError::ReasonMismatch { actual, expected } => {
            &&& op == RetKind::Revert
            &&& reason matches Option::Some(declared) && declared == expected@
            &&& actual@ == revert_comparand(retdata)
            &&& actual@ != expected@
            &&& !(expected@.len() > 0 && retdata.len() == 0)
        },
        RevertError::SucceededButRevertExpected => op == RetKind::Normal,
        RevertError::Panicked => op == RetKind::Panic,
        RevertError::CallCountMismatch { .. } => false,
        RevertError::EmitsMismatch => false,
    }
}

/// The declared reason as byte strings.
pub open spec fn reason_view(reason: Option<&Vec<u8>>) -> Option<Seq<u8>> {
    match reason {
        Option::Some(r) => Option::Some(r@),
        Option::None => Option::None,
    }
}

/// Decides whether the watched return satisfies the armed expectation, as
/// declared: any revert passes when no reason was given; with a declared
/// reason the decoded payload must equal it byte for byte; success or a
/// panic never satisfies a revert expectation.
pub fn handle_except_revert(reason: Option<&Vec<u8>>, op: RetKind, retdata: &Vec<u8>) -> (r: Result<
    (),
    RevertError,
>)
    ensures
        match r {
            Ok(()) => expect_revert_satisfied(reason_view(reason), op, retdata@),
            Err(e) => !expect_revert_satisfied(reason_view(reason), op, retdata@)
                && revert_error_describes(e, reason_view(reason), op, retdata@),
        },
{
    match op {
        RetKind::Revert => {
            match reason {
                Some(expected) => {
                    if expected.len() > 0 && retdata.len() == 0 {
                        return Err(RevertError::RevertedWithoutData);
                    }
                    let actual = decode_revert_payload(retdata);
                    if crate::bytes::bytes_equal(&actual, expected) {
                        Ok(())
                    } else {
                        Err(
                            RevertError::ReasonMismatch {
                                actual,
                                expected: copy_bytes(expected),
                            },
                        )
                    }
                },
                None => Ok(()),
            }
        },
        RetKind::Normal => Err(RevertError::SucceededButRevertExpected),
        RetKind::Panic => Err(RevertError::Panicked),
    }
}

} // verus!
