//! The expected-call tracker.
//!
//! Each registration keys on (target address, calldata prefix) and records
//! an optional required transfer value, a required count, and whether that
//! count is exact or a lower bound.  Every observed outside call bumps the
//! actual count of each registration whose prefix and value match; at test
//! finish every registration is checked.

use vstd::prelude::*;

use crate::addrs::Addr;
use crate::bytes::{bytes_prefix_of, copy_bytes};
use crate::errors::UsageError;
use crate::words::Word;

verus! {

/// Whether a registration's required count is exact or a lower bound.
#[derive(Clone, Copy, Debug, PartialEq, Eq, Structural)]
pub enum ExpectedCallType {
    /// The call must be seen at least `count` times.
    AtLeast,
    /// The call must be seen exactly `count` times.
    Exact,
}

/// What a registration requires of matching calls.
#[derive(Clone, Copy, Debug)]
pub struct ExpectedCallData {
    /// The transfer value a call must carry to match, if constrained.
    pub value: Option<Word>,
    /// The required number of matching calls.
    pub count: u64,
    /// Whether `count` is exact or a lower bound.
    pub call_type: ExpectedCallType,
}

/// One registration, with the count of matching calls seen so far.
#[derive(Debug)]
pub struct ExpectedCallEntry {
    /// The target address.
    pub callee: Addr,
    /// The calldata prefix a call must start with to match.
    pub calldata: Vec<u8>,
    /// The requirement.
    pub data: ExpectedCallData,
    /// Matching calls observed so far.
    pub actual: u64,
}

/// A failed registration, as reported at test finish.
#[derive(Debug)]
pub struct ExpectedCallFailure {
    /// The target address of the failed registration.
    pub callee: Addr,
    /// Its calldata prefix.
    pub calldata: Vec<u8>,
    /// The required count.
    pub expected: u64,
    /// The matching calls actually seen.
    pub actual: u64,
}

/// Whether an observed call to `callee` carrying `calldata` and transfer
/// `value` matches registration `e`: same target, registered prefix, and
/// the required value if one was registered.
pub open spec fn call_matches_entry(
    e: ExpectedCallEntry,
    callee: Addr,
    calldata: Seq<u8>,
    value: Word,
) -> bool {
    &&& e.callee == callee
    &&& e.calldata@.is_prefix_of(calldata)
    &&& match e.data.value {
        Option::Some(v) => v == value,
        Option::None => true,
    }
}

/// Whether a registration fails at test finish.
pub open spec fn entry_failed(e: ExpectedCallEntry) -> bool {
    match e.data.call_type {
        ExpectedCallType::Exact => e.data.count != e.actual,
        ExpectedCallType::AtLeast => e.data.count > e.actual,
    }
}

/// The failure reports for `s`, in registration order.
pub open spec fn failures_of(s: Seq<ExpectedCallEntry>) -> Seq<(Addr, Seq<u8>, u64, u64)>
    decreases s.len(),
{
    if s.len() == 0 {
        Seq::empty()
    } else {
        failures_of(s.drop_last()) + (if entry_failed(s.last()) {
            seq![(s.last().callee, s.last().calldata@, s.last().data.count, s.last().actual)]
        } else {
            Seq::empty()
        })
    }
}

/// No failure reports means every registration passed — in particular
/// every exact registration was seen exactly its required count, and every
/// lower-bound registration at least its required count.
pub proof fn lemma_no_failures_means_all_passed(s: Seq<ExpectedCallEntry>)
    ensures
        failures_of(s).len() == 0 <==> forall|i: int| 0 <= i < s.len() ==> !entry_failed(#[trigger] s[i]),
    decreases s.len(),
{
    if s.len() == 0 {
    } else {
        lemma_no_failures_means_all_passed(s.drop_last());
        assert(forall|i: int| 0 <= i < s.len() - 1 ==> s.drop_last()[i] == s[i]);
        if failures_of(s).len() == 0 {
            assert(forall|i: int|
                0 <= i < s.len() - 1 ==> !entry_failed(#[trigger] s[i]));
            assert(!entry_failed(s[s.len() - 1]));
        }
    }
}

/// Law: after test completion with an empty failure report, every exact
/// registration's actual count equals its required count, and every
/// lower-bound registration's actual count is at least its required count;
/// conversely, any violating registration appears in the report with its
/// target address, calldata prefix and both counts.
pub proof fn lemma_exact_counts_on_clean_finish(s: Seq<ExpectedCallEntry>)
    ensures
        failures_of(s).len() == 0 ==> forall|i: int|
            0 <= i < s.len() && (#[trigger] s[i]).data.call_type == ExpectedCallType::Exact
                ==> s[i].actual == s[i].data.count,
        failures_of(s).len() == 0 ==> forall|i: int|
            0 <= i < s.len() && (#[trigger] s[i]).data.call_type == ExpectedCallType::AtLeast
                ==> s[i].actual >= s[i].data.count,
        (exists|i: int| 0 <= i < s.len() && entry_failed(#[trigger] s[i])) ==> failures_of(
            s,
        ).len() > 0,
{
    lemma_no_failures_means_all_passed(s);
}

/// Two registrations on the same target and prefix.
pub open spec fn same_registration(a: ExpectedCallEntry, b: ExpectedCallEntry) -> bool {
    a.callee == b.callee && a.calldata@ == b.calldata@
}

/// Whether some entry of `s` is registered for (`callee`, `calldata`).
pub open spec fn has_reg(s: Seq<ExpectedCallEntry>, callee: Addr, calldata: Seq<u8>) -> bool {
    exists|i: int|
        0 <= i < s.len() && (#[trigger] s[i]).callee == callee && s[i].calldata@ == calldata
}

/// An index of the entry registered for (`callee`, `calldata`); meaningful
/// when [`has_reg`] holds.
pub open spec fn reg_index(s: Seq<ExpectedCallEntry>, callee: Addr, calldata: Seq<u8>) -> int {
    choose|i: int|
        0 <= i < s.len() && (#[trigger] s[i]).callee == callee && s[i].calldata@ == calldata
}

/// The relation between a tracker's registrations before and after one
/// observed call: every matching registration's actual count is bumped
/// (saturating), everything else is untouched.
pub open spec fn noted_call(
    s0: Seq<ExpectedCallEntry>,
    s1: Seq<ExpectedCallEntry>,
    callee: Addr,
    calldata: Seq<u8>,
    value: Word,
) -> bool {
    &&& s1.len() == s0.len()
    &&& forall|i: int|
        0 <= i < s0.len() ==> {
            let e0 = s0[i];
            let e1 = #[trigger] s1[i];
            &&& e1.callee == e0.callee
            &&& e1.calldata@ == e0.calldata@
            &&& e1.data == e0.data
            &&& e1.actual == (if call_matches_entry(e0, callee, calldata, value) {
                if e0.actual == u64::MAX {
                    u64::MAX as int
                } else {
                    e0.actual + 1
                }
            } else {
                e0.actual as int
            })
        }
}

/// The expected-call tracker: all registrations, unique per (target,
/// prefix) pair.
#[derive(Debug)]
pub struct ExpectedCalls {
    /// The registrations; [`ExpectedCalls::wf`] keeps the (target, prefix)
    /// pairs unique.
    pub entries: Vec<ExpectedCallEntry>,
}

impl ExpectedCalls {
    /// Well-formedness: no (target, prefix) pair registered twice.
    pub open spec fn wf(self) -> bool {
        forall|i: int, j: int|
            0 <= i < j < self.entries@.len() ==> !same_registration(
                self.entries@[i],
                self.entries@[j],
            )
    }

    /// Whether some registration covers (`callee`, `calldata`).
    pub open spec fn has_registration(self, callee: Addr, calldata: Seq<u8>) -> bool {
        has_reg(self.entries@, callee, calldata)
    }

    /// The registration covering (`callee`, `calldata`).
    pub open spec fn registration_for(self, callee: Addr, calldata: Seq<u8>) -> ExpectedCallEntry {
        self.entries@[reg_index(self.entries@, callee, calldata)]
    }

    /// An empty tracker.
    pub fn new() -> (r: ExpectedCalls)
        ensures
            r.wf(),
            r.entries@.len() == 0,
    {
        ExpectedCalls { entries: Vec::new() }
    }

    /// The position of the registration for (`callee`, `calldata`), if any.
    fn find(&self, callee: &Addr, calldata: &Vec<u8>) -> (r: Option<usize>)
        ensures
            match r {
                Some(i) => i < self.entries@.len() && self.entries@[i as int].callee == *callee
                    && self.entries@[i as int].calldata@ == calldata@,
                None => forall|i: int|
                    0 <= i < self.entries@.len() ==> !((#[trigger] self.entries@[i]).callee
                        == *callee && self.entries@[i].calldata@ == calldata@),
            },
    {
        let mut i: usize = 0;
        while i < self.entries.len()
            invariant
                i <= self.entries@.len(),
                forall|j: int|
                    0 <= j < i ==> !((#[trigger] self.entries@[j]).callee == *callee
                        && self.entries@[j].calldata@ == calldata@),
            decreases self.entries@.len() - i,
        {
            if self.entries[i].callee == *callee && crate::bytes::bytes_equal(
                &self.entries[i].calldata,
                calldata,
            ) {
                return Some(i);
            }
            i = i + 1;
        }
        None
    }

    /// Registers an expectation, as the `expectCall` cheatcode does.
    ///
    /// An exact registration must be the first for its (target, prefix)
    /// pair, and cannot later be joined by an uncounted one.  Uncounted
    /// registrations accumulate: each repeat raises the required count by
    /// one.  Refused requests change nothing.
    pub fn register(
        &mut self,
        callee: Addr,
        calldata: Vec<u8>,
        value: Option<Word>,
        count: u64,
        call_type: ExpectedCallType,
    ) -> (r: Result<(), UsageError>)
        requires
            old(self).wf(),
        ensures
            final(self).wf(),
            match r {
                Ok(()) => {
                    &&& final(self).has_registration(callee, calldata@)
                    &&& (match call_type {
                        ExpectedCallType::Exact => {
                            &&& !old(self).has_registration(callee, calldata@)
                            &&& final(self).registration_for(callee, calldata@).data.count == count
                            &&& final(self).registration_for(callee, calldata@).data.call_type
                                == ExpectedCallType::Exact
                            &&& final(self).registration_for(callee, calldata@).actual == 0
                            &&& final(self).entries@ == old(self).entries@.push(
                                final(self).entries@.last(),
                            )
                        },
                        ExpectedCallType::AtLeast => {
                            if old(self).has_registration(callee, calldata@) {
                                &&& old(self).registration_for(
                                    callee,
                                    calldata@,
                                ).data.call_type == ExpectedCallType::AtLeast
                                &&& final(self).registration_for(callee, calldata@).data.count
                                    == old(self).registration_for(callee, calldata@).data.count + 1
                                &&& final(self).registration_for(callee, calldata@).actual == old(
                                    self,
                                ).registration_for(callee, calldata@).actual
                                &&& final(self).entries@.len() == old(self).entries@.len()
                            } else {
                                &&& final(self).registration_for(callee, calldata@).data.count
                                    == count
                                &&& final(self).registration_for(callee, calldata@).data.call_type
                                    == ExpectedCallType::AtLeast
                                &&& final(self).registration_for(callee, calldata@).actual == 0
                                &&& final(self).entries@ == old(self).entries@.push(
                                    final(self).entries@.last(),
                                )
                            }
                        },
                    })
                    &&& forall|i: int, j: int|
                        0 <= i < old(self).entries@.len() && 0 <= j < final(self).entries@.len()
                            && same_registration(old(self).entries@[i], final(self).entries@[j])
                            && !(old(self).entries@[i].callee == callee
                            && old(self).entries@[i].calldata@ == calldata@)
                            ==> final(self).entries@[j] == old(self).entries@[i]
                },
                Err(e) => {
                    &&& *final(self) == *old(self)
                    &&& (e == UsageError::CountedCallAlreadyRegistered ==> call_type
                        == ExpectedCallType::Exact && old(self).has_registration(
                        callee,
                        calldata@,
                    ))
                    &&& (e == UsageError::CannotOverwriteCountedCall ==> call_type
                        == ExpectedCallType::AtLeast && old(self).has_registration(
                        callee,
                        calldata@,
                    ) && old(self).registration_for(callee, calldata@).data.call_type
                        == ExpectedCallType::Exact)
                    &&& (e == UsageError::ExpectedCallCountOverflow || e
                        == UsageError::CountedCallAlreadyRegistered || e
                        == UsageError::CannotOverwriteCountedCall)
                },
            },
            // Each refusal happens exactly on its condition, so success is
            // owed on every other input.
            (r == Result::<(), UsageError>::Err(UsageError::CountedCallAlreadyRegistered) <==> (
            call_type == ExpectedCallType::Exact && old(self).has_registration(callee, calldata@))),
            (r == Result::<(), UsageError>::Err(UsageError::CannotOverwriteCountedCall) <==> (
            call_type == ExpectedCallType::AtLeast && old(self).has_registration(callee, calldata@)
                && old(self).registration_for(callee, calldata@).data.call_type
                == ExpectedCallType::Exact)),
            (r == Result::<(), UsageError>::Err(UsageError::ExpectedCallCountOverflow) <==> (
            call_type == ExpectedCallType::AtLeast && old(self).has_registration(callee, calldata@)
                && old(self).registration_for(callee, calldata@).data.call_type
                == ExpectedCallType::AtLeast && old(self).registration_for(
                callee,
                calldata@,
            ).data.count == u64::MAX)),
    {
        let found = self.find(&callee, &calldata);
        match call_type {
            ExpectedCallType::Exact => {
                match found {
                    Some(_) => {
                        proof {
                            lemma_registration_at(*self, choose|i: int|
                                0 <= i < self.entries@.len() && (#[trigger] self.entries@[i]).callee
                                    == callee && self.entries@[i].calldata@ == calldata@);
                        }
                        Err(UsageError::CountedCallAlreadyRegistered)
                    },
                    None => {
                        let entry = ExpectedCallEntry {
                            callee,
                            calldata,
                            data: ExpectedCallData { value, count, call_type },
                            actual: 0,
                        };
                        let ghost s0 = self.entries@;
                        self.entries.push(entry);
                        proof {
                            assert(self.entries@.drop_last() =~= s0);
                            self.lemma_after_push(s0, callee, calldata@);
                        }
                        Ok(())
                    },
                }
            },
            ExpectedCallType::AtLeast => {
                match found {
                    Some(i) => {
                        proof {
                            lemma_registration_at(*self, i as int);
                        }
                        match self.entries[i].data.call_type {
                            ExpectedCallType::Exact => Err(
                                UsageError::CannotOverwriteCountedCall,
                            ),
                            ExpectedCallType::AtLeast => {
                                if self.entries[i].data.count == u64::MAX {
                                    return Err(UsageError::ExpectedCallCountOverflow);
                                }
                                let ghost s0 = self.entries@;
                                let old_entry = &self.entries[i];
                                let bumped = ExpectedCallEntry {
                                    callee: old_entry.callee,
                                    calldata: copy_bytes(&old_entry.calldata),
                                    data: ExpectedCallData {
                                        value: old_entry.data.value,
                                        count: old_entry.data.count + 1,
                                        call_type: ExpectedCallType::AtLeast,
                                    },
                                    actual: old_entry.actual,
                                };
                                self.entries[i] = bumped;
                                proof {
                                    self.lemma_after_update(s0, i as int, callee, calldata@);
                                }
                                Ok(())
                            },
                        }
                    },
                    None => {
                        let entry = ExpectedCallEntry {
                            callee,
                            calldata,
                            data: ExpectedCallData { value, count, call_type },
                            actual: 0,
                        };
                        let ghost s0 = self.entries@;
                        self.entries.push(entry);
                        proof {
                            assert(self.entries@.drop_last() =~= s0);
                            self.lemma_after_push(s0, callee, calldata@);
                        }
                        Ok(())
                    },
                }
            },
        }
    }

    /// Bumps the actual count of every registration the observed call
    /// matches; counts saturate rather than wrap.
    pub fn note_call(&mut self, callee: &Addr, calldata: &Vec<u8>, value: &Word)
        requires
            old(self).wf(),
        ensures
            final(self).wf(),
            noted_call(old(self).entries@, final(self).entries@, *callee, calldata@, *value),
    {
        let ghost s0 = self.entries@;
        let mut i: usize = 0;
        while i < self.entries.len()
            invariant
                i <= s0.len(),
                self.entries@.len() == s0.len(),
                forall|j: int|
                    0 <= j < s0.len() ==> {
                        let e0 = s0[j];
                        let e1 = #[trigger] self.entries@[j];
                        &&& e1.callee == e0.callee
                        &&& e1.calldata@ == e0.calldata@
                        &&& e1.data == e0.data
                        &&& e1.actual == (if j < i && call_matches_entry(
                            e0,
                            *callee,
                            calldata@,
                            *value,
                        ) {
                            if e0.actual == u64::MAX {
                                u64::MAX as int
                            } else {
                                e0.actual + 1
                            }
                        } else {
                            e0.actual as int
                        })
                    },
            decreases s0.len() - i,
        {
            let matches_target = self.entries[i].callee == *callee;
            let matches_prefix = bytes_prefix_of(&self.entries[i].calldata, calldata);
            let matches_value = match self.entries[i].data.value {
                Some(v) => v == *value,
                None => true,
            };
            if matches_target && matches_prefix && matches_value {
                if self.entries[i].actual < u64::MAX {
                    let bumped = self.entries[i].actual + 1;
                    let e = &mut self.entries[i];
                    e.actual = bumped;
                }
            }
            i = i + 1;
        }
        proof {
            assert forall|i2: int, j2: int|
                0 <= i2 < j2 < self.entries@.len() implies !same_registration(
                self.entries@[i2],
                self.entries@[j2],
            ) by {
                assert(!same_registration(s0[i2], s0[j2]));
            }
        }
    }

    /// The failure reports for all registrations, in order: exact
    /// registrations whose actual count differs from the required one, and
    /// lower-bound registrations seen too few times.
    pub fn failures(&self) -> (r: Vec<ExpectedCallFailure>)
        ensures
            r@.len() == failures_of(self.entries@).len(),
            forall|k: int|
                0 <= k < r@.len() ==> {
                    let f = #[trigger] r@[k];
                    let m = failures_of(self.entries@)[k];
                    &&& f.callee == m.0
                    &&& f.calldata@ == m.1
                    &&& f.expected == m.2
                    &&& f.actual == m.3
                },
    {
        let mut out: Vec<ExpectedCallFailure> = Vec::new();
        let mut i: usize = 0;
        while i < self.entries.len()
            invariant
                i <= self.entries@.len(),
                out@.len() == failures_of(self.entries@.take(i as int)).len(),
                forall|k: int|
                    0 <= k < out@.len() ==> {
                        let f = #[trigger] out@[k];
                        let m = failures_of(self.entries@.take(i as int))[k];
                        &&& f.callee == m.0
                        &&& f.calldata@ == m.1
                        &&& f.expected == m.2
                        &&& f.actual == m.3
                    },
            decreases self.entries@.len() - i,
        {
            let ghost prefix = self.entries@.take(i as int);
            let e = &self.entries[i];
            let failed = match e.data.call_type {
                ExpectedCallType::Exact => e.data.count != e.actual,
                ExpectedCallType::AtLeast => e.data.count > e.actual,
            };
            if failed {
                out.push(
                    ExpectedCallFailure {
                        callee: e.callee,
                        calldata: copy_bytes(&e.calldata),
                        expected: e.data.count,
                        actual: e.actual,
                    },
                );
            }
            proof {
                let next = self.entries@.take(i + 1 as int);
                assert(next.drop_last() =~= prefix);
                assert(next.last() == self.entries@[i as int]);
            }
            i = i + 1;
        }
        proof {
            assert(self.entries@.take(self.entries@.len() as int) =~= self.entries@);
        }
        out
    }
}

/// Under well-formedness, the entry at a hit index is the registration.
pub proof fn lemma_registration_at(t: ExpectedCalls, i: int)
    requires
        t.wf(),
        0 <= i < t.entries@.len(),
    ensures
        t.has_registration(t.entries@[i].callee, t.entries@[i].calldata@),
        t.registration_for(t.entries@[i].callee, t.entries@[i].calldata@) == t.entries@[i],
{
    let s = t.entries@;
    let callee = s[i].callee;
    let calldata = s[i].calldata@;
    assert(has_reg(s, callee, calldata));
    let j = reg_index(s, callee, calldata);
    assert(0 <= j < s.len() && s[j].callee == callee && s[j].calldata@ == calldata);
    if j != i {
        if i < j {
            assert(same_registration(s[i], s[j]));
        } else {
            assert(same_registration(s[j], s[i]));
        }
        assert(false);
    }
}

impl ExpectedCalls {
    /// After pushing a fresh registration: well-formed, and lookups behave.
    proof fn lemma_after_push(&self, s0: Seq<ExpectedCallEntry>, callee: Addr, calldata: Seq<u8>)
        requires
            self.entries@.len() == s0.len() + 1,
            self.entries@.drop_last() == s0,
            forall|i: int, j: int| 0 <= i < j < s0.len() ==> !same_registration(s0[i], s0[j]),
            forall|i: int|
                0 <= i < s0.len() ==> !((#[trigger] s0[i]).callee == callee && s0[i].calldata@
                    == calldata),
            self.entries@.last().callee == callee,
            self.entries@.last().calldata@ == calldata,
        ensures
            self.wf(),
            self.has_registration(callee, calldata),
            self.registration_for(callee, calldata) == self.entries@.last(),
            forall|i: int, j: int|
                0 <= i < s0.len() && 0 <= j < self.entries@.len() && same_registration(
                    s0[i],
                    self.entries@[j],
                ) && !(s0[i].callee == callee && s0[i].calldata@ == calldata) ==> self.entries@[j]
                    == s0[i],
    {
        let s1 = self.entries@;
        let n = s1.len() - 1;
        assert forall|i: int, j: int| 0 <= i < j < s1.len() implies !same_registration(
            s1[i],
            s1[j],
        ) by {
            if j < n {
                assert(s1[i] == s0[i] && s1[j] == s0[j]);
            } else {
                assert(s1[i] == s0[i]);
            }
        }
        lemma_registration_at(*self, n);
        assert forall|i: int, j: int|
            0 <= i < s0.len() && 0 <= j < s1.len() && same_registration(s0[i], s1[j]) && !(
            s0[i].callee == callee && s0[i].calldata@ == calldata) implies s1[j] == s0[i] by {
            if j < n {
                assert(s1[j] == s0[j]);
                if j != i {
                    assert(!same_registration(s0[if i < j {
                        i
                    } else {
                        j
                    }], s0[if i < j {
                        j
                    } else {
                        i
                    }]));
                }
            }
        }
    }

    /// After bumping the registration at `i` in place: well-formed, and
    /// lookups behave.
    proof fn lemma_after_update(
        &self,
        s0: Seq<ExpectedCallEntry>,
        i: int,
        callee: Addr,
        calldata: Seq<u8>,
    )
        requires
            0 <= i < s0.len(),
            self.entries@.len() == s0.len(),
            forall|j: int| 0 <= j < s0.len() && j != i ==> #[trigger] self.entries@[j] == s0[j],
            forall|a: int, b: int| 0 <= a < b < s0.len() ==> !same_registration(s0[a], s0[b]),
            s0[i].callee == callee,
            s0[i].calldata@ == calldata,
            self.entries@[i].callee == callee,
            self.entries@[i].calldata@ == calldata,
        ensures
            self.wf(),
            self.has_registration(callee, calldata),
            self.registration_for(callee, calldata) == self.entries@[i],
            forall|a: int, j: int|
                0 <= a < s0.len() && 0 <= j < self.entries@.len() && same_registration(
                    s0[a],
                    self.entries@[j],
                ) && !(s0[a].callee == callee && s0[a].calldata@ == calldata) ==> self.entries@[j]
                    == s0[a],
    {
        let s1 = self.entries@;
        assert forall|a: int, b: int| 0 <= a < b < s1.len() implies !same_registration(
            s1[a],
            s1[b],
        ) by {
            if a != i {
                assert(s1[a] == s0[a]);
            }
            if b != i {
                assert(s1[b] == s0[b]);
            }
            assert(!same_registration(s0[a], s0[b]));
        }
        lemma_registration_at(*self, i);
        assert forall|a: int, j: int|
            0 <= a < s0.len() && 0 <= j < s1.len() && same_registration(s0[a], s1[j]) && !(
            s0[a].callee == callee && s0[a].calldata@ == calldata) implies s1[j] == s0[a] by {
            assert(j != i);
            assert(s1[j] == s0[j]);
            if j != a {
                assert(!same_registration(s0[if a < j {
                    a
                } else {
                    j
                }], s0[if a < j {
                    j
                } else {
                    a
                }]));
            }
        }
    }
}

} // verus!
