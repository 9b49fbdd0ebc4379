//! Small byte-vector helpers shared by the trackers: copying, equality and
//! prefix tests with view-level contracts.

use vstd::prelude::*;

verus! {

/// A fresh vector with the same bytes.
pub fn copy_bytes(v: &Vec<u8>) -> (r: Vec<u8>)
    ensures
        r@ == v@,
{
    let mut out: Vec<u8> = Vec::new();
    let mut i: usize = 0;
    while i < v.len()
        invariant
            i <= v@.len(),
            out@ == v@.take(i as int),
        decreases v@.len() - i,
    {
        out.push(v[i]);
        proof {
            assert(out@ =~= v@.take(i + 1 as int));
        }
        i = i + 1;
    }
    proof {
        assert(out@ =~= v@);
    }
    out
}

/// A fresh vector holding `v[start..end]`.
pub fn copy_range(v: &Vec<u8>, start: usize, end: usize) -> (r: Vec<u8>)
    requires
        start <= end <= v@.len(),
    ensures
        r@ == v@.subrange(start as int, end as int),
{
    let mut out: Vec<u8> = Vec::new();
    let mut i: usize = start;
    while i < end
        invariant
            start <= i <= end <= v@.len(),
            out@ == v@.subrange(start as int, i as int),
        decreases end - i,
    {
        out.push(v[i]);
        proof {
            assert(out@ =~= v@.subrange(start as int, i + 1 as int));
        }
        i = i + 1;
    }
    out
}

/// Whether `a` is a prefix of `b`.
pub fn bytes_prefix_of(a: &Vec<u8>, b: &Vec<u8>) -> (r: bool)
    ensures
        r == a@.is_prefix_of(b@),
{
    if a.len() > b.len() {
        return false;
    }
    let mut i: usize = 0;
    while i < a.len()
        invariant
            i <= a@.len(),
            a@.len() <= b@.len(),
            forall|j: int| 0 <= j < i ==> a@[j] == b@[j],
        decreases a@.len() - i,
    {
        if a[i] != b[i] {
            return false;
        }
        i = i + 1;
    }
    proof {
        assert(a@ =~= b@.subrange(0, a@.len() as int));
    }
    true
}

/// Whether `a` and `b` hold the same bytes.
pub fn bytes_equal(a: &Vec<u8>, b: &Vec<u8>) -> (r: bool)
    ensures
        r == (a@ == b@),
{
    if a.len() != b.len() {
        return false;
    }
    let mut i: usize = 0;
    while i < a.len()
        invariant
            i <= a@.len(),
            a@.len() == b@.len(),
            forall|j: int| 0 <= j < i ==> a@[j] == b@[j],
        decreases a@.len() - i,
    {
        if a[i] != b[i] {
            return false;
        }
        i = i + 1;
    }
    proof {
        assert(a@ =~= b@);
    }
    true
}

/// The integer a big-endian byte string denotes.
pub open spec fn be_int(s: Seq<u8>) -> int
    decreases s.len(),
{
    if s.len() == 0 {
        0
    } else {
        be_int(s.drop_last()) * 256 + s.last()
    }
}

/// 256^n.
pub open spec fn pow256(n: nat) -> int
    decreases n,
{
    if n == 0 {
        1
    } else {
        256 * pow256((n - 1) as nat)
    }
}

/// A big-endian byte string denotes less than 256^length.
pub proof fn lemma_be_int_bound(s: Seq<u8>)
    ensures
        0 <= be_int(s) < pow256(s.len()),
    decreases s.len(),
{
    if s.len() == 0 {
    } else {
        lemma_be_int_bound(s.drop_last());
    }
}

/// An all-zero byte string denotes zero.
pub proof fn lemma_be_int_zero(s: Seq<u8>)
    requires
        forall|i: int| 0 <= i < s.len() ==> s[i] == 0,
    ensures
        be_int(s) == 0,
    decreases s.len(),
{
    if s.len() == 0 {
    } else {
        lemma_be_int_zero(s.drop_last());
    }
}

/// A nonzero digit bounds the denoted integer from below by its weight.
pub proof fn lemma_be_int_digit_weight(s: Seq<u8>, i: int)
    requires
        0 <= i < s.len(),
        s[i] >= 1,
    ensures
        be_int(s) >= pow256((s.len() - 1 - i) as nat),
    decreases s.len(),
{
    if i == s.len() - 1 {
        lemma_be_int_bound(s.drop_last());
    } else {
        lemma_be_int_digit_weight(s.drop_last(), i);
    }
}

/// 256^n is at least 256 for positive n.
pub proof fn lemma_pow256_at_least_base(n: nat)
    requires
        n >= 1,
    ensures
        pow256(n) >= 256,
    decreases n,
{
    if n == 1 {
        assert(pow256(0) == 1);
    } else {
        lemma_pow256_at_least_base((n - 1) as nat);
    }
}

/// 256^n is monotone in n.
pub proof fn lemma_pow256_monotone(a: nat, b: nat)
    requires
        a <= b,
    ensures
        pow256(a) <= pow256(b),
    decreases b,
{
    if a == b {
    } else {
        lemma_pow256_monotone(a, (b - 1) as nat);
        assert(pow256(b) == 256 * pow256((b - 1) as nat));
        assert(pow256((b - 1) as nat) >= 1) by {
            lemma_be_int_bound(Seq::<u8>::empty());
            lemma_pow256_positive((b - 1) as nat);
        }
    }
}

/// 256^n is positive.
pub proof fn lemma_pow256_positive(n: nat)
    ensures
        pow256(n) >= 1,
    decreases n,
{
    if n == 0 {
    } else {
        lemma_pow256_positive((n - 1) as nat);
    }
}

/// A zero prefix does not change the denoted integer.
pub proof fn lemma_be_int_leading_zeros(zeros: Seq<u8>, tail: Seq<u8>)
    requires
        forall|i: int| 0 <= i < zeros.len() ==> zeros[i] == 0,
    ensures
        be_int(zeros + tail) == be_int(tail),
    decreases tail.len(),
{
    if tail.len() == 0 {
        assert(zeros + tail =~= zeros);
        lemma_be_int_zero(zeros);
    } else {
        assert((zeros + tail).drop_last() =~= zeros + tail.drop_last());
        lemma_be_int_leading_zeros(zeros, tail.drop_last());
        assert((zeros + tail).last() == tail.last());
    }
}

} // verus!
