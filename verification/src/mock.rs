//! Mocked calls: a registered (target, calldata) filter makes any later
//! call with exactly that target and calldata return preset data instead of
//! executing the target's code.

use vstd::prelude::*;

use crate::addrs::Addr;
use crate::words::Word;

verus! {

/// What a mock matches on and what it returns.
#[derive(Debug)]
pub struct FilterOps {
    /// The mocked target address.
    pub address: Addr,
    /// The exact calldata to intercept.
    pub calldata: Vec<u8>,
    /// The bytes such a call returns instead of executing.
    pub return_data: Vec<u8>,
}

/// One registered mock.
#[derive(Debug)]
pub struct MockCall {
    /// The match filter and canned return data.
    pub filter: FilterOps,
    /// Return words staged for the next cycle, when armed.
    pub mock_next: Option<Vec<Word>>,
}

/// Whether a call to `address` with `calldata` hits mock `m`: the target
/// and the full calldata must be equal.
pub open spec fn mock_matches(m: MockCall, address: Addr, calldata: Seq<u8>) -> bool {
    m.filter.address == address && m.filter.calldata@ == calldata
}

/// The position of the last registered mock a call hits; meaningful when
/// some mock matches.
pub open spec fn last_mock_index(s: Seq<MockCall>, address: Addr, calldata: Seq<u8>) -> int {
    choose|i: int|
        0 <= i < s.len() && mock_matches(#[trigger] s[i], address, calldata) && forall|j: int|
            i < j < s.len() ==> !mock_matches(#[trigger] s[j], address, calldata)
}

/// A hit index with no later hit is the last mock index.
pub proof fn lemma_last_mock_index(s: Seq<MockCall>, address: Addr, calldata: Seq<u8>, i: int)
    requires
        0 <= i < s.len(),
        mock_matches(s[i], address, calldata),
        forall|j: int| i < j < s.len() ==> !mock_matches(#[trigger] s[j], address, calldata),
    ensures
        last_mock_index(s, address, calldata) == i,
{
    let w = last_mock_index(s, address, calldata);
    assert(0 <= w < s.len() && mock_matches(s[w], address, calldata) && forall|j: int|
        w < j < s.len() ==> !mock_matches(#[trigger] s[j], address, calldata));
    if w < i {
        assert(mock_matches(s[i], address, calldata));
        assert(false);
    }
    if i < w {
        assert(mock_matches(s[w], address, calldata));
        assert(false);
    }
}

/// The position of the last registered mock the call hits, if any; later
/// registrations win.
pub fn find_last_matching_mock(mocks: &Vec<MockCall>, address: &Addr, calldata: &Vec<u8>) -> (r:
    Option<usize>)
    ensures
        match r {
            Some(i) => i < mocks@.len() && mock_matches(mocks@[i as int], *address, calldata@)
                && forall|j: int|
                i < j < mocks@.len() ==> !mock_matches(#[trigger] mocks@[j], *address, calldata@),
            None => forall|j: int|
                0 <= j < mocks@.len() ==> !mock_matches(#[trigger] mocks@[j], *address, calldata@),
        },
{
    let mut i: usize = mocks.len();
    while i > 0
        invariant
            i <= mocks@.len(),
            forall|j: int|
                i <= j < mocks@.len() ==> !mock_matches(#[trigger] mocks@[j], *address, calldata@),
        decreases i,
    {
        i = i - 1;
        if mocks[i].filter.address == *address && crate::bytes::bytes_equal(
            &mocks[i].filter.calldata,
            calldata,
        ) {
            return Some(i);
        }
    }
    None
}

} // verus!
