//! Return-data encoding: packing byte strings into 256-bit return words,
//! and rendering bytes as hexadecimal strings.
//!
//! The host VM hands return data back to callers as a vector of 256-bit
//! words; byte payloads are zero-padded to a multiple of 32 and chunked
//! big-endian, and dynamic payloads are prefixed by the standard offset and
//! length head words.

use vstd::prelude::*;
use vstd::string::StrSliceExecFns;

use crate::bytes::{be_int, lemma_be_int_bound, pow256};
use crate::words::Word;

verus! {

/// Byte `i` of `s` extended with infinite zero padding.
pub open spec fn padded_byte(s: Seq<u8>, i: int) -> u8 {
    if 0 <= i < s.len() {
        s[i]
    } else {
        0
    }
}

/// The 32-byte chunk of the zero-padded `s` starting at byte `start`.
pub open spec fn padded_chunk(s: Seq<u8>, start: int) -> Seq<u8> {
    Seq::new(32, |k: int| padded_byte(s, start + k))
}

/// How many 32-byte words the padded form of `n` bytes occupies.
pub open spec fn word_count_of(n: nat) -> nat {
    ((n + 31) / 32) as nat
}

/// The 256-bit word denoted by the 32 zero-padded bytes of `s` starting
/// at byte `start`.
pub open spec fn chunk_word(s: Seq<u8>, start: int) -> Word {
    Word {
        hi: be_int(Seq::new(16, |k: int| padded_byte(s, start + k))) as u128,
        lo: be_int(Seq::new(16, |k: int| padded_byte(s, start + 16 + k))) as u128,
    }
}

/// The return words a byte payload packs into: zero-padded to a multiple
/// of 32 and chunked big-endian, one word per chunk.
pub open spec fn return_words_of(s: Seq<u8>) -> Seq<Word> {
    Seq::new(word_count_of(s.len()), |w: int| chunk_word(s, 32 * w))
}

/// Concatenation weights digits by position.
pub proof fn lemma_be_int_concat(a: Seq<u8>, b: Seq<u8>)
    ensures
        be_int(a + b) == be_int(a) * pow256(b.len()) + be_int(b),
    decreases b.len(),
{
    if b.len() == 0 {
        assert(a + b =~= a);
    } else {
        assert((a + b).drop_last() =~= a + b.drop_last());
        lemma_be_int_concat(a, b.drop_last());
        let p = pow256((b.len() - 1) as nat);
        assert(be_int(a) * p * 256 == be_int(a) * (256 * p)) by (nonlinear_arith);
    }
}

/// Folds 16 zero-padded bytes starting at `start` into a big-endian 128-bit
/// integer.
fn fold_be_16(v: &Vec<u8>, start: usize) -> (r: u128)
    requires
        start + 16 <= usize::MAX,
    ensures
        r == be_int(Seq::new(16, |k: int| padded_byte(v@, start + k))),
{
    proof {
        reveal_with_fuel(pow256, 17);
    }
    let mut acc: u128 = 0;
    let mut i: usize = 0;
    while i < 16
        invariant
            i <= 16,
            start + 16 <= usize::MAX,
            acc == be_int(Seq::new(i as nat, |k: int| padded_byte(v@, start + k))),
            acc < pow256(i as nat),
        decreases 16 - i,
    {
        proof {
            reveal_with_fuel(pow256, 17);
            let cur = Seq::new(i as nat, |k: int| padded_byte(v@, start + k));
            let nxt = Seq::new((i + 1) as nat, |k: int| padded_byte(v@, start + k));
            assert(nxt.drop_last() =~= cur);
            lemma_be_int_bound(cur);
        }
        let idx = start + i;
        let byte = if idx < v.len() {
            v[idx]
        } else {
            0
        };
        acc = acc * 256 + (byte as u128);
        i = i + 1;
    }
    acc
}

/// The 256-bit word denoted by the 32 zero-padded bytes at `start`.
fn word_from_chunk(v: &Vec<u8>, start: usize) -> (r: Word)
    requires
        start + 32 <= usize::MAX,
    ensures
        r.as_int() == be_int(padded_chunk(v@, start as int)),
        r == chunk_word(v@, start as int),
{
    let hi = fold_be_16(v, start);
    let lo = fold_be_16(v, start + 16);
    proof {
        let hiseq = Seq::new(16, |k: int| padded_byte(v@, start + k));
        let loseq = Seq::new(16, |k: int| padded_byte(v@, start + 16 + k));
        assert(padded_chunk(v@, start as int) =~= hiseq + loseq);
        lemma_be_int_concat(hiseq, loseq);
        assert(pow256(16) == 0x1_0000_0000_0000_0000_0000_0000_0000_0000int) by {
            reveal_with_fuel(pow256, 17);
        }
    }
    Word { hi, lo }
}

/// Packs a byte payload into return words: zero-padded to a multiple of 32
/// and chunked big-endian, one word per chunk.
pub fn to_return_data(data: &Vec<u8>) -> (r: Vec<Word>)
    requires
        data@.len() + 63 <= usize::MAX,
    ensures
        r@.len() == word_count_of(data@.len()),
        forall|w: int|
            0 <= w < r@.len() ==> (#[trigger] r@[w]).as_int() == be_int(
                padded_chunk(data@, 32 * w),
            ),
        r@ == return_words_of(data@),
{
    let words = (data.len() + 31) / 32;
    let mut out: Vec<Word> = Vec::new();
    let mut w: usize = 0;
    while w < words
        invariant
            w <= words,
            words == word_count_of(data@.len()),
            data@.len() + 63 <= usize::MAX,
            out@.len() == w,
            forall|k: int|
                0 <= k < w ==> (#[trigger] out@[k]).as_int() == be_int(
                    padded_chunk(data@, 32 * k),
                ),
            forall|k: int| 0 <= k < w ==> #[trigger] out@[k] == chunk_word(data@, 32 * k),
        decreases words - w,
    {
        out.push(word_from_chunk(data, 32 * w));
        w = w + 1;
    }
    proof {
        assert(out@ =~= return_words_of(data@));
    }
    out
}

/// Packs a byte payload as the standard dynamic-bytes return encoding: an
/// offset word of 32, the byte length, then the padded chunks.
pub fn encode_bytes_return(data: &Vec<u8>) -> (r: Vec<Word>)
    requires
        data@.len() + 63 <= usize::MAX,
    ensures
        r@.len() == 2 + word_count_of(data@.len()),
        r@[0].as_int() == 32,
        r@[1].as_int() == data@.len(),
        forall|w: int|
            2 <= w < r@.len() ==> (#[trigger] r@[w]).as_int() == be_int(
                padded_chunk(data@, 32 * (w - 2)),
            ),
{
    let mut out: Vec<Word> = Vec::new();
    out.push(Word::from_u64(32));
    out.push(Word { hi: 0, lo: data.len() as u128 });
    let body = to_return_data(data);
    let mut i: usize = 0;
    while i < body.len()
        invariant
            i <= body@.len(),
            body@.len() == word_count_of(data@.len()),
            out@.len() == 2 + i,
            out@[0].as_int() == 32,
            out@[1].as_int() == data@.len(),
            forall|k: int|
                0 <= k < body@.len() ==> (#[trigger] body@[k]).as_int() == be_int(
                    padded_chunk(data@, 32 * k),
                ),
            forall|w: int|
                2 <= w < out@.len() ==> (#[trigger] out@[w]).as_int() == be_int(
                    padded_chunk(data@, 32 * (w - 2)),
                ),
        decreases body@.len() - i,
    {
        out.push(body[i]);
        i = i + 1;
    }
    out
}

/// The single return word for a boolean.
pub fn encode_bool_return(value: bool) -> (r: Vec<Word>)
    ensures
        r@.len() == 1,
        r@[0].as_int() == (if value {
            1int
        } else {
            0int
        }),
{
    let mut out: Vec<Word> = Vec::new();
    if value {
        out.push(Word::from_u64(1));
    } else {
        out.push(Word::from_u64(0));
    }
    out
}

/// The hexadecimal digit for a value below 16, lowercase.
pub open spec fn hex_digit(n: int) -> char {
    if n == 0 {
        '0'
    } else if n == 1 {
        '1'
    } else if n == 2 {
        '2'
    } else if n == 3 {
        '3'
    } else if n == 4 {
        '4'
    } else if n == 5 {
        '5'
    } else if n == 6 {
        '6'
    } else if n == 7 {
        '7'
    } else if n == 8 {
        '8'
    } else if n == 9 {
        '9'
    } else if n == 10 {
        'a'
    } else if n == 11 {
        'b'
    } else if n == 12 {
        'c'
    } else if n == 13 {
        'd'
    } else if n == 14 {
        'e'
    } else {
        'f'
    }
}

/// The lowercase hexadecimal rendering of a byte string: two digits per
/// byte, high nibble first.
pub open spec fn hex_of(s: Seq<u8>) -> Seq<char> {
    Seq::new(
        2 * s.len(),
        |i: int|
            if i % 2 == 0 {
                hex_digit((s[i / 2] as int) / 16)
            } else {
                hex_digit((s[i / 2] as int) % 16)
            },
    )
}

/// Relies on `hex::encode`: each byte becomes two lowercase hexadecimal
/// digits, high nibble first, in input order.
#[verifier::external_body]
fn hex_encode(data: &Vec<u8>) -> (r: String)
    ensures
        r@ == hex_of(data@),
{
    hex::encode(data.as_slice())
}

/// Renders bytes as a `0x`-prefixed lowercase hexadecimal string.
pub fn bytes_to_hex_string(value: &Vec<u8>) -> (r: String)
    ensures
        r@ == seq!['0', 'x'] + hex_of(value@),
{
    let mut s = String::from_str("0x");
    proof {
        reveal_strlit("0x");
        assert(s@ =~= seq!['0', 'x']);
    }
    let h = hex_encode(value);
    s.append(h.as_str());
    s
}

/// The bytes of an ASCII character sequence, character by character.
pub open spec fn char_bytes(c: Seq<char>) -> Seq<u8> {
    Seq::new(c.len(), |i: int| c[i] as u8)
}

/// A `0x`-prefixed hexadecimal rendering is pure ASCII.
pub proof fn lemma_hex_string_ascii(s: Seq<u8>)
    ensures
        vstd::utf8::is_ascii_chars(seq!['0', 'x'] + hex_of(s)),
{
    let t = seq!['0', 'x'] + hex_of(s);
    assert forall|i: int| 0 <= i < t.len() implies '\0' <= #[trigger] t[i] <= '\u{7f}' by {
        if i >= 2 {
            assert(t[i] == hex_of(s)[i - 2]);
        }
    }
}

/// The same rendering as [`bytes_to_hex_string`], as ASCII bytes, for the
/// return-data channel.
pub fn bytes_to_hex_bytes(value: &Vec<u8>) -> (r: Vec<u8>)
    ensures
        r@ == char_bytes(seq!['0', 'x'] + hex_of(value@)),
{
    let s = bytes_to_hex_string(value);
    proof {
        lemma_hex_string_ascii(value@);
        vstd::utf8::is_ascii_chars_encode_utf8(s@);
    }
    let b = s.as_str().as_bytes_vec();
    proof {
        assert(b@ =~= char_bytes(seq!['0', 'x'] + hex_of(value@)));
    }
    b
}

/// The ASCII rendering of a boolean.
pub open spec fn bool_text_bytes(b: bool) -> Seq<u8> {
    if b {
        seq![0x74u8, 0x72u8, 0x75u8, 0x65u8]
    } else {
        seq![0x66u8, 0x61u8, 0x6cu8, 0x73u8, 0x65u8]
    }
}

/// Renders a boolean as the ASCII bytes of `"true"` or `"false"`.
pub fn bool_to_text_bytes(value: bool) -> (r: Vec<u8>)
    ensures
        r@ == bool_text_bytes(value),
{
    let mut out: Vec<u8> = Vec::new();
    if value {
        out.push(0x74);
        out.push(0x72);
        out.push(0x75);
        out.push(0x65);
        proof {
            assert(out@ =~= bool_text_bytes(true));
        }
    } else {
        out.push(0x66);
        out.push(0x61);
        out.push(0x6c);
        out.push(0x73);
        out.push(0x65);
        proof {
            assert(out@ =~= bool_text_bytes(false));
        }
    }
    out
}

/// Renders a boolean as a string, as the boolean-to-string conversion
/// cheatcode returns it.
pub fn bool_to_string(value: bool) -> (r: String)
    ensures
        r@ == (if value {
            seq!['t', 'r', 'u', 'e']
        } else {
            seq!['f', 'a', 'l', 's', 'e']
        }),
{
    if value {
        let s = String::from_str("true");
        proof {
            reveal_strlit("true");
            assert(s@ =~= seq!['t', 'r', 'u', 'e']);
        }
        s
    } else {
        let s = String::from_str("false");
        proof {
            reveal_strlit("false");
            assert(s@ =~= seq!['f', 'a', 'l', 's', 'e']);
        }
        s
    }
}

/// Converts hashed bytecodes into the word-chunked form the VM's
/// decommitter is populated with: each bytecode zero-padded to a multiple
/// of 32 and chunked big-endian.
pub fn into_word_bytecodes(bytecodes: &Vec<(Word, Vec<u8>)>) -> (r: Vec<(Word, Vec<Word>)>)
    requires
        forall|i: int|
            0 <= i < bytecodes@.len() ==> (#[trigger] bytecodes@[i]).1@.len() + 63 <= usize::MAX,
    ensures
        r@.len() == bytecodes@.len(),
        forall|i: int|
            0 <= i < bytecodes@.len() ==> {
                let (hash, words) = #[trigger] r@[i];
                &&& hash == bytecodes@[i].0
                &&& words@.len() == word_count_of(bytecodes@[i].1@.len())
                &&& (forall|w: int|
                    0 <= w < words@.len() ==> (#[trigger] words@[w]).as_int() == be_int(
                        padded_chunk(bytecodes@[i].1@, 32 * w),
                    ))
            },
{
    let mut out: Vec<(Word, Vec<Word>)> = Vec::new();
    let mut i: usize = 0;
    while i < bytecodes.len()
        invariant
            i <= bytecodes@.len(),
            out@.len() == i,
            forall|j: int|
                0 <= j < bytecodes@.len() ==> (#[trigger] bytecodes@[j]).1@.len() + 63
                    <= usize::MAX,
            forall|j: int|
                0 <= j < i ==> {
                    let (hash, words) = #[trigger] out@[j];
                    &&& hash == bytecodes@[j].0
                    &&& words@.len() == word_count_of(bytecodes@[j].1@.len())
                    &&& (forall|w: int|
                        0 <= w < words@.len() ==> (#[trigger] words@[w]).as_int() == be_int(
                            padded_chunk(bytecodes@[j].1@, 32 * w),
                        ))
                },
        decreases bytecodes@.len() - i,
    {
        let hash = bytecodes[i].0;
        let words = to_return_data(&bytecodes[i].1);
        out.push((hash, words));
        i = i + 1;
    }
    out
}

} // verus!
