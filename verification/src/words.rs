//! 256-bit machine words, modelled as two 128-bit halves.
//!
//! The host VM computes on 256-bit registers and storage slots.  The tracer
//! only ever moves these values around, compares them, and packs/unpacks a
//! few fixed layouts (the block-info slot and the two-part account nonce), so
//! a pair of `u128` halves with an integer view is enough.

use vstd::prelude::*;

verus! {

/// A 256-bit word: `hi * 2^128 + lo`.
#[derive(Clone, Copy, Debug, PartialEq, Eq, Structural)]
pub struct Word {
    pub hi: u128,
    pub lo: u128,
}

/// 2^128, the weight of the high half of a [`Word`].
pub open spec fn word_base() -> int {
    0x1_0000_0000_0000_0000_0000_0000_0000_0000int
}

/// 2^64, the range of values the host can read back as a 64-bit integer.
pub open spec fn u64_bound() -> int {
    0x1_0000_0000_0000_0000
}

impl Word {
    /// The mathematical value of this word.
    pub open spec fn as_int(self) -> int {
        self.hi * word_base() + self.lo
    }

    /// The all-zero word.
    pub fn zero() -> (r: Word)
        ensures
            r.as_int() == 0,
            r == (Word { hi: 0u128, lo: 0u128 }),
    {
        Word { hi: 0, lo: 0 }
    }

    /// A word holding a 64-bit value.
    pub fn from_u64(v: u64) -> (r: Word)
        ensures
            r.as_int() == v,
    {
        Word { hi: 0, lo: v as u128 }
    }

    /// A word holding a 128-bit value.
    pub fn from_u128(v: u128) -> (r: Word)
        ensures
            r.as_int() == v,
    {
        Word { hi: 0, lo: v }
    }

    /// Whether both halves fit in 64 bits, so the host can unpack the word
    /// into a pair of 64-bit integers without truncation.
    pub open spec fn halves_fit_u64(self) -> bool {
        self.hi < u64_bound() && self.lo < u64_bound()
    }

    /// Runtime test for [`Word::halves_fit_u64`].
    pub fn check_halves_fit_u64(&self) -> (r: bool)
        ensures
            r == self.halves_fit_u64(),
    {
        self.hi < 0x1_0000_0000_0000_0000u128 && self.lo < 0x1_0000_0000_0000_0000u128
    }
}

/// Packs a virtual block number and timestamp into the single block-info
/// storage slot: `number * 2^128 + timestamp`.
pub fn pack_block_info(block_number: u64, block_timestamp: u64) -> (r: Word)
    ensures
        r.as_int() == block_number * word_base() + block_timestamp,
        r.halves_fit_u64(),
{
    Word { hi: block_number as u128, lo: block_timestamp as u128 }
}

/// Splits a block-info slot back into `(block number, timestamp)`.
///
/// The host reads both parts as 64-bit integers, so the word must hold
/// values in range; [`Word::check_halves_fit_u64`] tests for that.
pub fn unpack_block_info(w: &Word) -> (r: (u64, u64))
    requires
        w.halves_fit_u64(),
    ensures
        r.0 == w.hi,
        r.1 == w.lo,
        w.as_int() == r.0 * word_base() + r.1,
{
    (w.hi as u64, w.lo as u64)
}

/// Splits a full nonce slot into `(transaction nonce, deployment nonce)`.
/// The deployment nonce is stored with weight 2^128.
pub fn decompose_full_nonce(w: &Word) -> (r: (Word, Word))
    ensures
        r.0.as_int() == w.lo,
        r.1.as_int() == w.hi,
        w.as_int() == r.1.as_int() * word_base() + r.0.as_int(),
{
    (Word { hi: 0, lo: w.lo }, Word { hi: 0, lo: w.hi })
}

/// Reassembles a full nonce slot from its two parts.
///
/// Each part must itself fit in 128 bits; the tracer only ever stores
/// transaction and deployment nonces in that range.
pub fn nonces_to_full_nonce(tx_nonce: &Word, deploy_nonce: &Word) -> (r: Word)
    requires
        tx_nonce.hi == 0,
        deploy_nonce.hi == 0,
    ensures
        r.as_int() == deploy_nonce.as_int() * word_base() + tx_nonce.as_int(),
        r.lo == tx_nonce.lo,
        r.hi == deploy_nonce.lo,
{
    Word { hi: deploy_nonce.lo, lo: tx_nonce.lo }
}

/// The 64-bit limb of a word, most significant first: limb 0 holds bits
/// 255..192, limb 3 holds bits 63..0.  This is how the raw instruction
/// word is sliced when a code word is read back from memory.
pub fn word_limb_u64(value: &Word, index: u32) -> (r: u64)
    requires
        index < 4,
    ensures
        index == 0 ==> r == value.hi / 0x1_0000_0000_0000_0000,
        index == 1 ==> r == value.hi % 0x1_0000_0000_0000_0000,
        index == 2 ==> r == value.lo / 0x1_0000_0000_0000_0000,
        index == 3 ==> r == value.lo % 0x1_0000_0000_0000_0000,
{
    match index {
        0 => (value.hi / 0x1_0000_0000_0000_0000u128) as u64,
        1 => (value.hi % 0x1_0000_0000_0000_0000u128) as u64,
        2 => (value.lo / 0x1_0000_0000_0000_0000u128) as u64,
        _ => (value.lo % 0x1_0000_0000_0000_0000u128) as u64,
    }
}

} // verus!
