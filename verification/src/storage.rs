//! Storage keys, the tracer's own key/value delta maps, and the interface
//! through which the tracer reads the host's storage view.
//!
//! The host owns the real backing store.  The tracer keeps association-list
//! maps of modified keys (the test-wide delta, snapshot captures, and the
//! per-fork pending delta), viewed in specifications as a `Map` from key to
//! word.

use vstd::map::*;
use vstd::prelude::*;

use crate::addrs::{system_context_address, Addr};
use crate::words::Word;

verus! {

/// A storage location: an account address and a 256-bit slot index.
#[derive(Clone, Copy, Debug, PartialEq, Eq, Structural)]
pub struct StorageKey {
    pub addr: Addr,
    pub slot: Word,
}

/// The map denoted by an association list, later entries overriding earlier
/// ones.
pub open spec fn map_of(s: Seq<(StorageKey, Word)>) -> Map<StorageKey, Word>
    decreases s.len(),
{
    if s.len() == 0 {
        Map::empty()
    } else {
        map_of(s.drop_last()).insert(s.last().0, s.last().1)
    }
}

/// No two entries of `s` share a key.
pub open spec fn unique_keys(s: Seq<(StorageKey, Word)>) -> bool {
    forall|i: int, j: int| 0 <= i < j < s.len() ==> s[i].0 != s[j].0
}

/// The value the association list holds for `k`, scanning from the latest
/// entry; meaningful even when keys repeat.
pub open spec fn lookup(s: Seq<(StorageKey, Word)>, k: StorageKey) -> Option<Word>
    decreases s.len(),
{
    if s.len() == 0 {
        Option::None
    } else if s.last().0 == k {
        Option::Some(s.last().1)
    } else {
        lookup(s.drop_last(), k)
    }
}

/// Latest-entry lookup agrees with the denoted map.
pub proof fn lemma_lookup_matches_map_of(s: Seq<(StorageKey, Word)>, k: StorageKey)
    ensures
        map_of(s).contains_key(k) <==> lookup(s, k) is Some,
        map_of(s).contains_key(k) ==> Option::Some(map_of(s)[k]) == lookup(s, k),
    decreases s.len(),
{
    if s.len() == 0 {
    } else if s.last().0 == k {
    } else {
        lemma_lookup_matches_map_of(s.drop_last(), k);
    }
}

/// A key is in the denoted map exactly when some entry holds it.
pub proof fn lemma_map_of_contains(s: Seq<(StorageKey, Word)>, k: StorageKey)
    ensures
        map_of(s).contains_key(k) <==> exists|i: int| 0 <= i < s.len() && s[i].0 == k,
    decreases s.len(),
{
    if s.len() == 0 {
    } else {
        lemma_map_of_contains(s.drop_last(), k);
        if s.last().0 == k {
            assert(s[s.len() - 1].0 == k);
        } else {
            if map_of(s).contains_key(k) {
                let i = choose|i: int| 0 <= i < s.drop_last().len() && s.drop_last()[i].0 == k;
                assert(s[i].0 == k);
            }
            if exists|i: int| 0 <= i < s.len() && s[i].0 == k {
                let i = choose|i: int| 0 <= i < s.len() && s[i].0 == k;
                assert(i < s.len() - 1);
                assert(s.drop_last()[i].0 == k);
            }
        }
    }
}

/// Under unique keys, each entry's value is the denoted map's value.
pub proof fn lemma_map_of_value(s: Seq<(StorageKey, Word)>, i: int)
    requires
        unique_keys(s),
        0 <= i < s.len(),
    ensures
        map_of(s).contains_key(s[i].0),
        map_of(s)[s[i].0] == s[i].1,
    decreases s.len(),
{
    if i == s.len() - 1 {
    } else {
        assert(unique_keys(s.drop_last())) by {
            assert(forall|a: int, b: int|
                0 <= a < b < s.drop_last().len() ==> s.drop_last()[a] == s[a] && s.drop_last()[b]
                    == s[b]);
        }
        lemma_map_of_value(s.drop_last(), i);
        assert(s.drop_last()[i] == s[i]);
        assert(s[i].0 != s.last().0);
    }
}

/// Overwriting the entry that holds `key` denotes insertion into the map.
pub proof fn lemma_map_of_update(s0: Seq<(StorageKey, Word)>, i: int, key: StorageKey, value: Word)
    requires
        unique_keys(s0),
        0 <= i < s0.len(),
        s0[i].0 == key,
    ensures
        unique_keys(s0.update(i, (key, value))),
        map_of(s0.update(i, (key, value))) == map_of(s0).insert(key, value),
{
    let s1 = s0.update(i, (key, value));
    assert forall|a: int, b: int| 0 <= a < b < s1.len() implies s1[a].0 != s1[b].0 by {
        if a == i {
            assert(s1[b] == s0[b]);
        } else if b == i {
            assert(s1[a] == s0[a]);
        } else {
            assert(s1[a] == s0[a] && s1[b] == s0[b]);
        }
    }
    let m1 = map_of(s1);
    let m2 = map_of(s0).insert(key, value);
    assert forall|k: StorageKey| #[trigger] m1.dom().contains(k) implies m2.dom().contains(k)
        && m1[k] == m2[k] by {
        lemma_map_of_contains(s1, k);
        let j = choose|j: int| 0 <= j < s1.len() && s1[j].0 == k;
        lemma_map_of_value(s1, j);
        if j != i {
            assert(s1[j] == s0[j]);
            assert(s0[j].0 != s0[i].0);
            lemma_map_of_value(s0, j);
        }
    }
    assert forall|k: StorageKey| #[trigger] m2.dom().contains(k) implies m1.dom().contains(k) by {
        if k == key {
            lemma_map_of_value(s1, i);
        } else {
            lemma_map_of_contains(s0, k);
            let j = choose|j: int| 0 <= j < s0.len() && s0[j].0 == k;
            assert(s1[j].0 == k);
            lemma_map_of_contains(s1, k);
        }
    }
    assert(m1 =~= m2);
}

/// A delta map from storage keys to words, with unique keys.
#[derive(Debug)]
pub struct StorageMap {
    /// The underlying entries; [`StorageMap::wf`] keeps their keys unique.
    pub entries: Vec<(StorageKey, Word)>,
}

impl StorageMap {
    /// Well-formedness: no key occurs twice.
    pub open spec fn wf(self) -> bool {
        unique_keys(self.entries@)
    }

    /// The entries as a sequence, in insertion order.
    pub open spec fn entries_seq(self) -> Seq<(StorageKey, Word)> {
        self.entries@
    }

    /// The denoted key/value map.
    pub open spec fn view(self) -> Map<StorageKey, Word> {
        map_of(self.entries@)
    }

    /// An empty delta.
    pub fn new() -> (r: StorageMap)
        ensures
            r.wf(),
            r@ == Map::<StorageKey, Word>::empty(),
            r.entries_seq().len() == 0,
    {
        StorageMap { entries: Vec::new() }
    }

    /// The raw entries, for a host that must replay the delta.
    pub fn as_vec(&self) -> (r: &Vec<(StorageKey, Word)>)
        ensures
            r@ == self.entries_seq(),
    {
        &self.entries
    }

    /// The number of distinct keys in the delta.
    pub fn len(&self) -> (r: usize)
        requires
            self.wf(),
        ensures
            r == self.entries_seq().len(),
            r == self@.dom().len(),
    {
        proof {
            lemma_entries_dom_len(self.entries@);
        }
        self.entries.len()
    }

    /// The position of `key` among the entries, if present.
    fn find_index(&self, key: &StorageKey) -> (r: Option<usize>)
        ensures
            match r {
                Some(i) => i < self.entries@.len() && self.entries@[i as int].0 == *key,
                None => forall|i: int| 0 <= i < self.entries@.len() ==> self.entries@[i].0 != *key,
            },
    {
        let mut i: usize = 0;
        while i < self.entries.len()
            invariant
                i <= self.entries@.len(),
                forall|j: int| 0 <= j < i ==> self.entries@[j].0 != *key,
            decreases self.entries@.len() - i,
        {
            if self.entries[i].0 == *key {
                return Some(i);
            }
            i = i + 1;
        }
        None
    }

    /// Whether `key` is present, and its value if so.
    pub fn read(&self, key: &StorageKey) -> (r: Option<Word>)
        requires
            self.wf(),
        ensures
            match r {
                Some(v) => self@.contains_key(*key) && v == self@[*key],
                None => !self@.contains_key(*key),
            },
    {
        proof {
            lemma_map_of_contains(self.entries@, *key);
        }
        match self.find_index(key) {
            Some(i) => {
                proof {
                    lemma_map_of_value(self.entries@, i as int);
                }
                Some(self.entries[i].1)
            },
            None => None,
        }
    }

    /// Inserts or overwrites `key`.
    pub fn write(&mut self, key: StorageKey, value: Word)
        requires
            old(self).wf(),
        ensures
            final(self).wf(),
            final(self)@ == old(self)@.insert(key, value),
            final(self)@.contains_key(key),
            final(self)@[key] == value,
    {
        let ghost s0 = self.entries@;
        match self.find_index(&key) {
            Some(i) => {
                self.entries[i] = (key, value);
                proof {
                    assert(self.entries@ == s0.update(i as int, (key, value)));
                    lemma_map_of_update(s0, i as int, key, value);
                }
            },
            None => {
                self.entries.push((key, value));
                proof {
                    let s1 = self.entries@;
                    assert(s1.drop_last() == s0);
                    assert(unique_keys(s1)) by {
                        assert(forall|a: int, b: int|
                            0 <= a < b < s1.len() && b < s1.len() - 1 ==> s1[a] == s0[a] && s1[b]
                                == s0[b]);
                        assert(forall|a: int|
                            0 <= a < s1.len() - 1 ==> s1[a] == s0[a] && s0[a].0 != key);
                    }
                }
            },
        }
    }

    /// A copy with the same entries.
    pub fn duplicate(&self) -> (r: StorageMap)
        ensures
            r.entries_seq() == self.entries_seq(),
            r@ == self@,
            r.wf() == self.wf(),
    {
        let mut out: Vec<(StorageKey, Word)> = Vec::new();
        let mut i: usize = 0;
        while i < self.entries.len()
            invariant
                i <= self.entries@.len(),
                out@ == self.entries@.take(i as int),
            decreases self.entries@.len() - i,
        {
            out.push(self.entries[i]);
            proof {
                assert(out@ =~= self.entries@.take(i + 1 as int));
            }
            i = i + 1;
        }
        proof {
            assert(out@ =~= self.entries@);
        }
        StorageMap { entries: out }
    }
}

/// With unique keys, the denoted map has exactly one entry per list entry.
pub proof fn lemma_entries_dom_len(s: Seq<(StorageKey, Word)>)
    requires
        unique_keys(s),
    ensures
        map_of(s).dom().len() == s.len(),
        map_of(s).dom().finite(),
    decreases s.len(),
{
    if s.len() == 0 {
        assert(map_of(s).dom() =~= Set::<StorageKey>::empty());
    } else {
        assert(unique_keys(s.drop_last())) by {
            assert(forall|a: int, b: int|
                0 <= a < b < s.drop_last().len() ==> s.drop_last()[a] == s[a] && s.drop_last()[b]
                    == s[b]);
        }
        lemma_entries_dom_len(s.drop_last());
        lemma_map_of_contains(s.drop_last(), s.last().0);
        assert(!map_of(s.drop_last()).contains_key(s.last().0)) by {
            assert(forall|i: int|
                0 <= i < s.len() - 1 ==> s.drop_last()[i] == s[i] && s[i].0 != s.last().0);
        }
        assert(map_of(s).dom() =~= map_of(s.drop_last()).dom().insert(s.last().0));
    }
}

/// The merge of two deltas, dropping every key that belongs to the
/// system-context contract; where both hold a key, `overlay` wins.
pub open spec fn merged_view(
    base: Map<StorageKey, Word>,
    overlay: Map<StorageKey, Word>,
    k: StorageKey,
) -> Option<Word> {
    if k.addr == system_context_address() {
        Option::None
    } else if overlay.contains_key(k) {
        Option::Some(overlay[k])
    } else if base.contains_key(k) {
        Option::Some(base[k])
    } else {
        Option::None
    }
}

/// Merges `base` and `overlay` into a fresh delta, excluding system-context
/// keys; `overlay` wins on shared keys.
pub fn merge_excluding_system_context(base: &StorageMap, overlay: &StorageMap) -> (r: StorageMap)
    requires
        base.wf(),
        overlay.wf(),
    ensures
        r.wf(),
        forall|k: StorageKey|
            (#[trigger] r@.contains_key(k) <==> merged_view(base@, overlay@, k) is Some),
        forall|k: StorageKey|
            r@.contains_key(k) ==> Option::Some(#[trigger] r@[k]) == merged_view(
                base@,
                overlay@,
                k,
            ),
{
    let mut r = StorageMap::new();
    let sc = crate::addrs::make_system_context_address();
    let bvec = base.as_vec();
    let mut i: usize = 0;
    while i < bvec.len()
        invariant
            i <= bvec@.len(),
            bvec@ == base.entries_seq(),
            unique_keys(base.entries_seq()),
            r.wf(),
            sc == system_context_address(),
            forall|k: StorageKey|
                #[trigger] r@.contains_key(k) ==> k.addr != system_context_address()
                    && base@.contains_key(k) && r@[k] == base@[k],
            forall|j: int|
                0 <= j < i && bvec@[j].0.addr != system_context_address() ==> r@.contains_key(
                    bvec@[j].0,
                ),
        decreases bvec@.len() - i,
    {
        let (k, v) = bvec[i];
        if !(k.addr == sc) {
            proof {
                lemma_map_of_value(base.entries_seq(), i as int);
            }
            r.write(k, v);
        }
        i = i + 1;
    }
    proof {
        assert forall|k: StorageKey|
            k.addr != system_context_address() && #[trigger] base@.contains_key(
                k,
            ) implies r@.contains_key(k) by {
            lemma_map_of_contains(base.entries_seq(), k);
            let j = choose|j: int| 0 <= j < base.entries_seq().len() && base.entries_seq()[j].0
                == k;
            lemma_map_of_value(base.entries_seq(), j);
        }
    }
    let ovec = overlay.as_vec();
    let mut i2: usize = 0;
    while i2 < ovec.len()
        invariant
            i2 <= ovec@.len(),
            ovec@ == overlay.entries_seq(),
            unique_keys(overlay.entries_seq()),
            r.wf(),
            sc == system_context_address(),
            forall|k: StorageKey|
                #[trigger] r@.contains_key(k) ==> k.addr != system_context_address() && (
                overlay@.contains_key(k) || base@.contains_key(k)),
            forall|k: StorageKey|
                #[trigger] r@.contains_key(k) && !overlay@.contains_key(k) ==> base@.contains_key(
                    k,
                ) && r@[k] == base@[k],
            forall|k: StorageKey|
                k.addr != system_context_address() && #[trigger] base@.contains_key(k)
                    ==> r@.contains_key(k),
            forall|j: int|
                0 <= j < i2 && ovec@[j].0.addr != system_context_address() ==> r@.contains_key(
                    ovec@[j].0,
                ) && r@[ovec@[j].0] == overlay@[ovec@[j].0],
            forall|k: StorageKey|
                #[trigger] r@.contains_key(k) && overlay@.contains_key(k) && !(exists|j: int|
                    0 <= j < i2 && ovec@[j].0 == k) ==> base@.contains_key(k) && r@[k] == base@[k],
        decreases ovec@.len() - i2,
    {
        let (k, v) = ovec[i2];
        if !(k.addr == sc) {
            proof {
                lemma_map_of_value(overlay.entries_seq(), i2 as int);
            }
            r.write(k, v);
        }
        i2 = i2 + 1;
    }
    proof {
        assert forall|k: StorageKey|
            k.addr != system_context_address() && #[trigger] overlay@.contains_key(
                k,
            ) implies r@.contains_key(k) && r@[k] == overlay@[k] by {
            lemma_map_of_contains(overlay.entries_seq(), k);
            let j = choose|j: int| 0 <= j < overlay.entries_seq().len()
                && overlay.entries_seq()[j].0 == k;
            lemma_map_of_value(overlay.entries_seq(), j);
        }
    }
    r
}

/// The host's storage view, as consumed by the tracer.
///
/// The tracer reads single values through it and asks it where an account's
/// hashed mapping slots (nonce, ether balance) live; the derivation hashes
/// the account address, which only the host can compute.  An implementation
/// over the real backing store is the host's responsibility; this crate
/// implements it for [`StorageMap`] so the logic can be exercised directly.
pub trait StorageSource {
    /// The word currently visible at `key`.
    spec fn value_at(&self, key: StorageKey) -> Word;

    /// Reads the word at `key` without changing what is visible.
    fn read_value(&mut self, key: &StorageKey) -> (r: Word)
        ensures
            r == old(self).value_at(*key),
            forall|k: StorageKey| #[trigger] final(self).value_at(k) == old(self).value_at(k),
    ;

    /// The storage location of `account`'s two-part nonce.
    fn nonce_key(&mut self, account: &Addr) -> (r: StorageKey)
        ensures
            forall|k: StorageKey| #[trigger] final(self).value_at(k) == old(self).value_at(k),
    ;

    /// The storage location of `account`'s ether balance.
    fn balance_key(&mut self, account: &Addr) -> (r: StorageKey)
        ensures
            forall|k: StorageKey| #[trigger] final(self).value_at(k) == old(self).value_at(k),
    ;
}

impl StorageSource for StorageMap {
    /// Missing keys read as zero, as an untouched backing slot does; the
    /// latest entry for a key wins, which under [`StorageMap::wf`] agrees
    /// with the denoted map (see [`lemma_lookup_matches_map_of`]).
    open spec fn value_at(&self, key: StorageKey) -> Word {
        match lookup(self.entries@, key) {
            Option::Some(v) => v,
            Option::None => Word { hi: 0, lo: 0 },
        }
    }

    fn read_value(&mut self, key: &StorageKey) -> (r: Word) {
        let ghost full = self.entries@;
        proof {
            assert(full.take(full.len() as int) =~= full);
        }
        let mut i: usize = self.entries.len();
        while i > 0
            invariant
                i <= self.entries@.len(),
                self.entries@ == full,
                lookup(full, *key) == lookup(full.take(i as int), *key),
            decreases i,
        {
            proof {
                assert(full.take(i as int).drop_last() =~= full.take(i - 1));
            }
            if self.entries[i - 1].0 == *key {
                return self.entries[i - 1].1;
            }
            i = i - 1;
        }
        proof {
            assert(full.take(0) =~= Seq::<(StorageKey, Word)>::empty());
        }
        Word::zero()
    }

    /// A direct, unhashed stand-in layout: the nonce of `account` sits in
    /// the nonce-holder contract at slot `account`.
    fn nonce_key(&mut self, account: &Addr) -> (r: StorageKey) {
        StorageKey {
            addr: Addr { hi: 0, lo: 0x8003 },
            slot: Word { hi: account.hi as u128, lo: account.lo },
        }
    }

    /// A direct, unhashed stand-in layout: the balance of `account` sits in
    /// the ether-token contract at slot `account`.
    fn balance_key(&mut self, account: &Addr) -> (r: StorageKey) {
        StorageKey {
            addr: Addr { hi: 0, lo: 0x800a },
            slot: Word { hi: account.hi as u128, lo: account.lo },
        }
    }
}

} // verus!
