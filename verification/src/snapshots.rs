//! The snapshot store: captured storage deltas saved under backend-issued
//! identifiers.
//!
//! Taking a snapshot captures the merged modified-storage delta under a
//! fresh identifier; reverting restores exactly that delta and discards the
//! entry, so each snapshot can be used once.

use vstd::prelude::*;

use crate::storage::StorageMap;
use crate::words::Word;

verus! {

/// A captured storage delta, stored until its snapshot is reverted to.
#[derive(Debug)]
pub struct SavedSnapshot {
    /// The modified-storage delta at capture time.
    pub modified_storage: StorageMap,
}

/// Whether some entry of `s` carries identifier `id`.
pub open spec fn has_id(s: Seq<(Word, SavedSnapshot)>, id: Word) -> bool {
    exists|i: int| 0 <= i < s.len() && s[i].0 == id
}

/// The snapshot stored under `id`; meaningful when `has_id` holds and the
/// identifiers are unique.
pub open spec fn stored(s: Seq<(Word, SavedSnapshot)>, id: Word) -> SavedSnapshot {
    s[choose|i: int| 0 <= i < s.len() && s[i].0 == id].1
}

/// No two entries share an identifier.
pub open spec fn unique_ids(s: Seq<(Word, SavedSnapshot)>) -> bool {
    forall|i: int, j: int| 0 <= i < j < s.len() ==> s[i].0 != s[j].0
}

/// Under unique identifiers, the entry at a hit index is the stored one.
pub proof fn lemma_stored_at(s: Seq<(Word, SavedSnapshot)>, i: int)
    requires
        unique_ids(s),
        0 <= i < s.len(),
    ensures
        has_id(s, s[i].0),
        stored(s, s[i].0) == s[i].1,
{
    let id = s[i].0;
    assert(has_id(s, id));
    let j = choose|j: int| 0 <= j < s.len() && s[j].0 == id;
    assert(j == i);
}

/// The map from snapshot identifiers to captured deltas.
#[derive(Debug)]
pub struct SnapshotStore {
    /// The saved snapshots; [`SnapshotStore::wf`] keeps identifiers unique.
    pub entries: Vec<(Word, SavedSnapshot)>,
}

impl SnapshotStore {
    /// Well-formedness: identifiers are unique and every stored delta is.
    pub open spec fn wf(self) -> bool {
        unique_ids(self.entries@) && forall|i: int|
            0 <= i < self.entries@.len() ==> (#[trigger] self.entries@[i].1).modified_storage.wf()
    }

    /// Whether `id` is currently stored.
    pub open spec fn contains(self, id: Word) -> bool {
        has_id(self.entries@, id)
    }

    /// The snapshot stored under `id`.
    pub open spec fn stored_for(self, id: Word) -> SavedSnapshot {
        stored(self.entries@, id)
    }

    /// An empty store.
    pub fn new() -> (r: SnapshotStore)
        ensures
            r.wf(),
            forall|id: Word| !(#[trigger] r.contains(id)),
    {
        SnapshotStore { entries: Vec::new() }
    }

    /// The position of `id` among the entries, if present.
    fn find_id(&self, id: &Word) -> (r: Option<usize>)
        ensures
            match r {
                Some(i) => i < self.entries@.len() && self.entries@[i as int].0 == *id,
                None => forall|i: int| 0 <= i < self.entries@.len() ==> self.entries@[i].0 != *id,
            },
    {
        let mut i: usize = 0;
        while i < self.entries.len()
            invariant
                i <= self.entries@.len(),
                forall|j: int| 0 <= j < i ==> self.entries@[j].0 != *id,
            decreases self.entries@.len() - i,
        {
            if self.entries[i].0 == *id {
                return Some(i);
            }
            i = i + 1;
        }
        None
    }

    /// Saves `snapshot` under `id`, replacing any earlier capture with the
    /// same identifier.
    pub fn save(&mut self, id: Word, snapshot: SavedSnapshot)
        requires
            old(self).wf(),
            snapshot.modified_storage.wf(),
        ensures
            final(self).wf(),
            final(self).contains(id),
            final(self).stored_for(id) == snapshot,
            forall|o: Word|
                o != id ==> (#[trigger] final(self).contains(o) <==> old(self).contains(o)),
            forall|o: Word|
                o != id && old(self).contains(o) ==> #[trigger] final(self).stored_for(o) == old(
                    self,
                ).stored_for(o),
    {
        let ghost s0 = self.entries@;
        match self.find_id(&id) {
            Some(i) => {
                self.entries[i] = (id, snapshot);
                proof {
                    let s1 = self.entries@;
                    assert(s1 == s0.update(i as int, (id, snapshot)));
                    assert forall|a: int, b: int| 0 <= a < b < s1.len() implies s1[a].0
                        != s1[b].0 by {
                        if a != i {
                            assert(s1[a] == s0[a]);
                        }
                        if b != i {
                            assert(s1[b] == s0[b]);
                        }
                    }
                    lemma_stored_at(s1, i as int);
                    assert forall|o: Word| o != id implies (has_id(s1, o) <==> has_id(s0, o)) by {
                        if has_id(s1, o) {
                            let j = choose|j: int| 0 <= j < s1.len() && s1[j].0 == o;
                            assert(j != i);
                            assert(s0[j].0 == o);
                        }
                        if has_id(s0, o) {
                            let j = choose|j: int| 0 <= j < s0.len() && s0[j].0 == o;
                            assert(j != i);
                            assert(s1[j].0 == o);
                        }
                    }
                    assert forall|o: Word| o != id && has_id(s0, o) implies stored(s1, o)
                        == stored(s0, o) by {
                        let j = choose|j: int| 0 <= j < s0.len() && s0[j].0 == o;
                        assert(j != i);
                        assert(s1[j] == s0[j]);
                        lemma_stored_at(s1, j);
                        lemma_stored_at(s0, j);
                    }
                }
            },
            None => {
                self.entries.push((id, snapshot));
                proof {
                    let s1 = self.entries@;
                    let n = s1.len() - 1;
                    assert forall|a: int, b: int| 0 <= a < b < s1.len() implies s1[a].0
                        != s1[b].0 by {
                        if b < n {
                            assert(s1[a] == s0[a] && s1[b] == s0[b]);
                        } else {
                            assert(s1[a] == s0[a]);
                        }
                    }
                    lemma_stored_at(s1, n);
                    assert forall|o: Word| o != id implies (has_id(s1, o) <==> has_id(s0, o)) by {
                        if has_id(s1, o) {
                            let j = choose|j: int| 0 <= j < s1.len() && s1[j].0 == o;
                            assert(j != n);
                            assert(s0[j].0 == o);
                        }
                        if has_id(s0, o) {
                            let j = choose|j: int| 0 <= j < s0.len() && s0[j].0 == o;
                            assert(s1[j].0 == o);
                        }
                    }
                    assert forall|o: Word| o != id && has_id(s0, o) implies stored(s1, o)
                        == stored(s0, o) by {
                        let j = choose|j: int| 0 <= j < s0.len() && s0[j].0 == o;
                        assert(s1[j] == s0[j]);
                        lemma_stored_at(s1, j);
                        lemma_stored_at(s0, j);
                    }
                }
            },
        }
    }

    /// Removes and returns the capture stored under `id`, if any; a
    /// snapshot can therefore be reverted to only once.
    pub fn take(&mut self, id: &Word) -> (r: Option<SavedSnapshot>)
        requires
            old(self).wf(),
        ensures
            final(self).wf(),
            match r {
                Some(snapshot) => {
                    &&& old(self).contains(*id)
                    &&& snapshot == old(self).stored_for(*id)
                    &&& snapshot.modified_storage.wf()
                    &&& !final(self).contains(*id)
                },
                None => {
                    &&& !old(self).contains(*id)
                    &&& *final(self) == *old(self)
                },
            },
            forall|o: Word|
                o != *id ==> (#[trigger] final(self).contains(o) <==> old(self).contains(o)),
            forall|o: Word|
                o != *id && old(self).contains(o) ==> #[trigger] final(self).stored_for(o) == old(
                    self,
                ).stored_for(o),
    {
        let ghost s0 = self.entries@;
        match self.find_id(id) {
            Some(i) => {
                proof {
                    lemma_stored_at(s0, i as int);
                }
                let (_, snapshot) = self.entries.remove(i);
                proof {
                    let s1 = self.entries@;
                    assert(s1 == s0.remove(i as int));
                    assert forall|a: int, b: int| 0 <= a < b < s1.len() implies s1[a].0
                        != s1[b].0 by {
                        assert(s1[a] == if a < i {
                            s0[a]
                        } else {
                            s0[a + 1]
                        });
                        assert(s1[b] == if b < i {
                            s0[b]
                        } else {
                            s0[b + 1]
                        });
                    }
                    assert forall|j: int| 0 <= j < s1.len() implies s1[j].0 != *id by {
                        assert(s1[j] == if j < i {
                            s0[j]
                        } else {
                            s0[j + 1]
                        });
                    }
                    assert forall|o: Word| o != *id implies (has_id(s1, o) <==> has_id(s0, o)) by {
                        if has_id(s1, o) {
                            let j = choose|j: int| 0 <= j < s1.len() && s1[j].0 == o;
                            assert(s1[j] == if j < i {
                                s0[j]
                            } else {
                                s0[j + 1]
                            });
                        }
                        if has_id(s0, o) {
                            let j = choose|j: int| 0 <= j < s0.len() && s0[j].0 == o;
                            assert(j != i);
                            if j < i {
                                assert(s1[j].0 == o);
                            } else {
                                assert(s1[j - 1].0 == o);
                            }
                        }
                    }
                    assert forall|o: Word| o != *id && has_id(s0, o) implies stored(s1, o)
                        == stored(s0, o) by {
                        let j = choose|j: int| 0 <= j < s0.len() && s0[j].0 == o;
                        assert(j != i);
                        lemma_stored_at(s0, j);
                        if j < i {
                            assert(s1[j] == s0[j]);
                            lemma_stored_at(s1, j);
                        } else {
                            assert(s1[j - 1] == s0[j]);
                            lemma_stored_at(s1, j - 1);
                        }
                    }
                }
                Some(snapshot)
            },
            None => None,
        }
    }
}

/// Law: a snapshot immediately reverted to, with no intervening writes, is
/// a no-op on storage.  Whatever store state saving the capture produced,
/// the reverting take hands back exactly the captured delta, so the host
/// reinstalls the same modified-storage view that was in force when the
/// snapshot was taken; and the identifier is gone afterwards, so a second
/// revert to it fails.
pub proof fn lemma_snapshot_revert_roundtrip(
    s1: SnapshotStore,
    id: Word,
    capture: StorageMap,
    r: Option<SavedSnapshot>,
    s2: SnapshotStore,
)
    requires
        s1.contains(id),
        s1.stored_for(id).modified_storage@ == capture@,
        (match r {
            Option::Some(snapshot) => snapshot == s1.stored_for(id) && !s2.contains(id),
            Option::None => !s1.contains(id),
        }),
    ensures
        r matches Option::Some(snapshot) && snapshot.modified_storage@ == capture@,
        !s2.contains(id),
{
}

} // verus!
