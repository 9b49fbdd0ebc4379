//! Normalisation of an external process's standard output, as the
//! external-process cheatcode hands it back to the test: ASCII whitespace
//! trimmed from both ends, then decoded from hexadecimal — with any
//! number of leading `0x` markers removed — when the remainder parses as
//! hex digits, else the trimmed bytes verbatim.  Only the spawn itself is
//! the host's.

use vstd::prelude::*;

verus! {

/// ASCII whitespace, as trimming removes it.
pub open spec fn is_ascii_space(b: u8) -> bool {
    b == 32 || (9 <= b && b <= 13)
}

/// `s` without its leading ASCII whitespace.
pub open spec fn trim_front(s: Seq<u8>) -> Seq<u8>
    decreases s.len(),
{
    if s.len() > 0 && is_ascii_space(s[0]) {
        trim_front(s.skip(1))
    } else {
        s
    }
}

/// `s` without its trailing ASCII whitespace.
pub open spec fn trim_back(s: Seq<u8>) -> Seq<u8>
    decreases s.len(),
{
    if s.len() > 0 && is_ascii_space(s.last()) {
        trim_back(s.drop_last())
    } else {
        s
    }
}

/// `s` with ASCII whitespace trimmed from both ends.
pub open spec fn trimmed(s: Seq<u8>) -> Seq<u8> {
    trim_back(trim_front(s))
}

/// `s` without its leading `0x` markers, however many.
pub open spec fn strip_hex_markers(s: Seq<u8>) -> Seq<u8>
    decreases s.len(),
{
    if s.len() >= 2 && s[0] == 0x30 && s[1] == 0x78 {
        strip_hex_markers(s.skip(2))
    } else {
        s
    }
}

/// A hexadecimal digit, either case.
pub open spec fn is_hex_digit(b: u8) -> bool {
    (0x30 <= b && b <= 0x39) || (0x61 <= b && b <= 0x66) || (0x41 <= b && b <= 0x46)
}

/// The value of a hexadecimal digit.
pub open spec fn hex_val(b: u8) -> int {
    if 0x30 <= b && b <= 0x39 {
        b - 0x30
    } else if 0x61 <= b && b <= 0x66 {
        b - 0x61 + 10
    } else {
        b - 0x41 + 10
    }
}

/// Whether every byte of `s` is a hexadecimal digit.
pub open spec fn all_hex(s: Seq<u8>) -> bool {
    forall|i: int| 0 <= i < s.len() ==> is_hex_digit(#[trigger] s[i])
}

/// The bytes an even-length hexadecimal digit string decodes to.
pub open spec fn hex_decoded(s: Seq<u8>) -> Seq<u8> {
    Seq::new((s.len() / 2) as nat, |i: int| (hex_val(s[2 * i]) * 16 + hex_val(s[2 * i + 1])) as u8)
}

/// What the external-process cheatcode hands back for raw standard
/// output `s`.
pub open spec fn ffi_normalized(s: Seq<u8>) -> Seq<u8> {
    let t = trimmed(s);
    let h = strip_hex_markers(t);
    if h.len() % 2 == 0 && all_hex(h) {
        hex_decoded(h)
    } else {
        t
    }
}

/// Runtime test for [`is_ascii_space`].
fn check_ascii_space(b: u8) -> (r: bool)
    ensures
        r == is_ascii_space(b),
{
    b == 32 || (9 <= b && b <= 13)
}

/// Normalises an external process's standard output: trims ASCII
/// whitespace, strips leading `0x` markers, and hex-decodes the
/// remainder when it is an even run of hexadecimal digits, handing the
/// trimmed bytes back verbatim otherwise.
pub fn normalize_ffi_stdout(stdout: &Vec<u8>) -> (r: Vec<u8>)
    ensures
        r@ == ffi_normalized(stdout@),
{
    let s = stdout;
    let n = s.len();
    proof {
        assert(s@.skip(0) =~= s@);
    }
    let mut lo: usize = 0;
    while lo < n && check_ascii_space(s[lo])
        invariant
            lo <= n == s@.len(),
            trim_front(s@) == trim_front(s@.skip(lo as int)),
        decreases n - lo,
    {
        proof {
            assert(s@.skip(lo as int)[0] == s@[lo as int]);
            assert(s@.skip(lo as int).skip(1) =~= s@.skip(lo + 1));
        }
        lo = lo + 1;
    }
    proof {
        if lo < n {
            assert(s@.skip(lo as int)[0] == s@[lo as int]);
        }
        assert(trim_front(s@) == s@.skip(lo as int));
    }
    let mut hi: usize = n;
    while hi > lo && check_ascii_space(s[hi - 1])
        invariant
            lo <= hi <= n == s@.len(),
            trim_front(s@) == s@.skip(lo as int),
            trim_back(s@.skip(lo as int)) == trim_back(
                s@.subrange(lo as int, hi as int),
            ),
        decreases hi,
    {
        proof {
            let cur = s@.subrange(lo as int, hi as int);
            assert(cur.last() == s@[hi - 1]);
            assert(cur.drop_last() =~= s@.subrange(lo as int, hi - 1));
        }
        hi = hi - 1;
    }
    proof {
        let cur = s@.subrange(lo as int, hi as int);
        if hi > lo {
            assert(cur.last() == s@[hi - 1]);
        }
        assert(trim_back(cur) == cur);
        assert(trimmed(s@) == s@.subrange(lo as int, hi as int));
    }
    let t = crate::bytes::copy_range(s, lo, hi);
    proof {
        assert(t@.skip(0) =~= t@);
    }
    // Strip however many leading `0x` markers.
    let mut k: usize = 0;
    while t.len() - k >= 2 && t[k] == 0x30 && t[k + 1] == 0x78
        invariant
            k <= t@.len(),
            strip_hex_markers(t@) == strip_hex_markers(t@.skip(k as int)),
        decreases t@.len() - k,
    {
        proof {
            assert(t@.skip(k as int)[0] == t@[k as int]);
            assert(t@.skip(k as int)[1] == t@[k + 1]);
            assert(t@.skip(k as int).skip(2) =~= t@.skip(k + 2));
        }
        k = k + 2;
    }
    proof {
        if t@.len() - k >= 2 {
            assert(t@.skip(k as int)[0] == t@[k as int]);
            assert(t@.skip(k as int)[1] == t@[k + 1]);
        }
        assert(strip_hex_markers(t@) == t@.skip(k as int));
    }
    let h_len = t.len() - k;
    // Decode only an even run of hexadecimal digits.
    let mut hex_ok = h_len % 2 == 0;
    let mut i: usize = k;
    while i < t.len()
        invariant
            k <= i <= t@.len(),
            h_len == t@.len() - k,
            strip_hex_markers(t@) == t@.skip(k as int),
            hex_ok ==> (t@.len() - k) % 2 == 0,
            hex_ok ==> forall|j: int| k <= j < i ==> is_hex_digit(#[trigger] t@[j]),
            !hex_ok ==> !(strip_hex_markers(t@).len() % 2 == 0 && all_hex(strip_hex_markers(t@))),
        decreases t@.len() - i,
    {
        let b = t[i];
        let is_digit = (0x30 <= b && b <= 0x39) || (0x61 <= b && b <= 0x66) || (0x41 <= b && b
            <= 0x46);
        if !is_digit && hex_ok {
            proof {
                assert(strip_hex_markers(t@)[i - k] == t@[i as int]);
                assert(!all_hex(strip_hex_markers(t@)));
            }
            hex_ok = false;
        }
        i = i + 1;
    }
    if hex_ok {
        proof {
            assert(forall|j: int|
                0 <= j < strip_hex_markers(t@).len() ==> #[trigger] strip_hex_markers(t@)[j]
                    == t@[j + k]);
            assert(all_hex(strip_hex_markers(t@)));
        }
        let mut out: Vec<u8> = Vec::new();
        let pairs = h_len / 2;
        let mut p: usize = 0;
        while p < pairs
            invariant
                p <= pairs,
                pairs == (t@.len() - k) / 2,
                (t@.len() - k) % 2 == 0,
                k <= t@.len(),
                k + 2 * pairs <= t@.len(),
                strip_hex_markers(t@) == t@.skip(k as int),
                all_hex(strip_hex_markers(t@)),
                out@.len() == p,
                forall|j: int|
                    0 <= j < p ==> #[trigger] out@[j] == (hex_val(t@[k + 2 * j]) * 16 + hex_val(
                        t@[k + 2 * j + 1],
                    )) as u8,
            decreases pairs - p,
        {
            proof {
                assert(2 * p + 2 <= 2 * pairs) by (nonlinear_arith)
                    requires
                        p < pairs,
                ;
                assert(k + 2 * p + 1 < t@.len());
            }
            let a = t[k + 2 * p];
            let b = t[k + 2 * p + 1];
            proof {
                assert(strip_hex_markers(t@)[2 * p] == t@[k + 2 * p]);
                assert(strip_hex_markers(t@)[2 * p + 1] == t@[k + 2 * p + 1]);
            }
            let va: u8 = if 0x30 <= a && a <= 0x39 {
                a - 0x30
            } else if 0x61 <= a && a <= 0x66 {
                a - 0x61 + 10
            } else {
                a - 0x41 + 10
            };
            let vb: u8 = if 0x30 <= b && b <= 0x39 {
                b - 0x30
            } else if 0x61 <= b && b <= 0x66 {
                b - 0x61 + 10
            } else {
                b - 0x41 + 10
            };
            out.push(va * 16 + vb);
            p = p + 1;
        }
        proof {
            let h = strip_hex_markers(t@);
            assert(forall|j: int| 0 <= j < h.len() ==> #[trigger] h[j] == t@[j + k]);
            assert(out@ =~= hex_decoded(h));
        }
        out
    } else {
        t
    }
}

} // verus!
