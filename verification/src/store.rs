//! The store of cached renditions.
//!
//! A bounded collection of entries, at most one per key, kept in the order
//! in which they were last written. When a new key arrives at a full store,
//! the entry written longest ago makes room. Reading changes nothing.

use vstd::prelude::*;
use crate::key::{CacheKey, KeyModel};

verus! {

/// One cached rendition as a mathematical value.
pub ghost struct EntryModel {
    pub key: KeyModel,
    pub payload: Seq<u8>,
}

/// The store as a mathematical value: its entries, oldest write first, and
/// the number of entries it may hold.
pub ghost struct CacheModel {
    pub entries: Seq<EntryModel>,
    pub capacity: nat,
}

/// The entries that survive the invalidation of `resource_id`.
pub open spec fn survives(resource_id: u64) -> spec_fn(EntryModel) -> bool {
    |entry: EntryModel| entry.key.resource_id != resource_id
}

impl CacheModel {
    /// Room for at least one entry, no more entries than room, and no key
    /// twice.
    pub open spec fn wf(self) -> bool {
        &&& self.capacity >= 1
        &&& self.entries.len() <= self.capacity
        &&& distinct_keys(self.entries)
    }

    /// The entry at position `i` is the one for `key`.
    pub open spec fn holds_at(self, key: KeyModel, i: int) -> bool {
        0 <= i < self.entries.len() && self.entries[i].key == key
    }

    /// Some entry is stored under `key`.
    pub open spec fn holds(self, key: KeyModel) -> bool {
        exists|i: int| self.holds_at(key, i)
    }

    /// Where the entry for `key` stands, if there is one.
    pub open spec fn slot(self, key: KeyModel) -> int {
        choose|i: int| self.holds_at(key, i)
    }

    /// The payload stored under `key`.
    pub open spec fn lookup(self, key: KeyModel) -> Option<Seq<u8>> {
        if self.holds(key) {
            Some(self.entries[self.slot(key)].payload)
        } else {
            None
        }
    }

    /// No further key fits without eviction.
    pub open spec fn is_full(self) -> bool {
        self.entries.len() >= self.capacity
    }

    /// Writing `key` evicts the oldest entry: the key is new and the store is
    /// full.
    pub open spec fn evicts(self, key: KeyModel) -> bool {
        !self.holds(key) && self.is_full()
    }

    /// The store after `payload` is written under `key`. A key already
    /// present gives up its old entry; otherwise a full store gives up its
    /// oldest. The new entry is the most recent.
    pub open spec fn set(self, key: KeyModel, payload: Seq<u8>) -> CacheModel {
        let kept = if self.holds(key) {
            self.entries.remove(self.slot(key))
        } else if self.is_full() {
            self.entries.drop_first()
        } else {
            self.entries
        };
        CacheModel { entries: kept.push(EntryModel { key, payload }), capacity: self.capacity }
    }

    /// The store without any entry of `resource_id`; the others keep their
    /// order.
    pub open spec fn invalidate(self, resource_id: u64) -> CacheModel {
        CacheModel {
            entries: self.entries.filter(survives(resource_id)),
            capacity: self.capacity,
        }
    }

    /// In a well-formed store a key stands at one position only.
    pub proof fn lemma_slot(self, key: KeyModel, i: int)
        requires
            self.wf(),
            self.holds_at(key, i),
        ensures
            self.holds(key),
            self.slot(key) == i,
            self.lookup(key) == Some(self.entries[i].payload),
    {
        let j = self.slot(key);
        assert(self.holds_at(key, j));
        if i < j {
            assert(self.entries[i].key != self.entries[j].key);
        } else if j < i {
            assert(self.entries[j].key != self.entries[i].key);
        }
    }
}


/// No two entries of `entries` share a key.
pub open spec fn distinct_keys(entries: Seq<EntryModel>) -> bool {
    forall|i: int, j: int|
        0 <= i < j < entries.len() ==> (#[trigger] entries[i]).key != (#[trigger] entries[j]).key
}

/// Dropping the entries of one resource leaves the remaining keys distinct.
proof fn lemma_survivors_distinct(entries: Seq<EntryModel>, resource_id: u64)
    requires
        distinct_keys(entries),
    ensures
        distinct_keys(entries.filter(survives(resource_id))),
    decreases entries.len(),
{
    let keep = survives(resource_id);
    if entries.len() == 0 {
        entries.lemma_filter_len(keep);
    } else {
        let init = entries.drop_last();
        let last = entries.last();
        assert(entries =~= init.push(last));
        lemma_survivors_distinct(init, resource_id);
        init.lemma_filter_push(last, keep);
        let kept = init.filter(keep);
        if keep(last) {
            let all = kept.push(last);
            assert forall|i: int, j: int| 0 <= i < j < all.len() implies (#[trigger] all[i]).key != (
            #[trigger] all[j]).key by {
                if j == kept.len() {
                    assert(kept.contains(kept[i]));
                    init.lemma_filter_contains_rev(keep, kept[i]);
                    let m = choose|m: int| 0 <= m < init.len() && init[m] == kept[i];
                    assert(entries[m].key != entries[entries.len() - 1].key);
                } else {
                    assert(kept[i].key != kept[j].key);
                }
            }
        }
    }
}

impl CacheModel {
    /// Writing keeps the store well formed and makes the written payload the
    /// one found under its key. Every other key keeps what it had, except
    /// the oldest when the write evicts it.
    pub proof fn lemma_set(self, key: KeyModel, payload: Seq<u8>)
        requires
            self.wf(),
        ensures
            self.set(key, payload).wf(),
            self.set(key, payload).lookup(key) == Some(payload),
            forall|other: KeyModel|
                other != key ==> #[trigger] self.set(key, payload).lookup(other) == (if self.evicts(
                    key,
                ) && self.entries[0].key == other {
                    None
                } else {
                    self.lookup(other)
                }),
    {
        let after = self.set(key, payload);
        let entry = EntryModel { key, payload };
        let kept = after.entries.drop_last();
        assert(after.entries.last() == entry);
        // Where each kept entry stood before the write.
        let shift = |i: int|
            if self.holds(key) {
                if i < self.slot(key) {
                    i
                } else {
                    i + 1
                }
            } else if self.is_full() {
                i + 1
            } else {
                i
            };
        if self.holds(key) {
            assert(self.holds_at(key, self.slot(key)));
            assert(kept =~= self.entries.remove(self.slot(key)));
        } else if self.is_full() {
            assert(kept =~= self.entries.drop_first());
        } else {
            assert(kept =~= self.entries);
        }
        assert forall|i: int| 0 <= i < kept.len() implies 0 <= shift(i) < self.entries.len()
            && #[trigger] kept[i] == self.entries[shift(i)] && kept[i].key != key by {
            if self.holds(key) {
                self.lemma_slot(key, self.slot(key));
                if shift(i) < self.slot(key) {
                    assert(self.entries[shift(i)].key != self.entries[self.slot(key)].key);
                } else {
                    assert(self.entries[self.slot(key)].key != self.entries[shift(i)].key);
                }
            } else {
                assert(!self.holds_at(key, shift(i)));
            }
        }
        assert forall|i: int, j: int| 0 <= i < j < after.entries.len() implies (
        #[trigger] after.entries[i]).key != (#[trigger] after.entries[j]).key by {
            if j < kept.len() {
                assert(kept[i] == self.entries[shift(i)]);
                assert(kept[j] == self.entries[shift(j)]);
                assert(self.entries[shift(i)].key != self.entries[shift(j)].key);
            } else {
                assert(kept[i].key != key);
            }
        }
        assert(after.wf());
        after.lemma_slot(key, after.entries.len() - 1);
        assert forall|other: KeyModel| other != key implies #[trigger] after.lookup(other) == (
        if self.evicts(key) && self.entries[0].key == other {
            None
        } else {
            self.lookup(other)
        }) by {
            if after.holds(other) {
                let j = after.slot(other);
                assert(after.holds_at(other, j));
                after.lemma_slot(other, j);
                assert(kept[j] == self.entries[shift(j)]);
                self.lemma_slot(other, shift(j));
                if self.evicts(key) && self.entries[0].key == other {
                    assert(self.entries[0].key != self.entries[shift(j)].key);
                }
            } else if self.holds(other) {
                let m = self.slot(other);
                assert(self.holds_at(other, m));
                self.lemma_slot(other, m);
                if self.holds(key) {
                    let at = self.slot(key);
                    let j = if m < at {
                        m
                    } else {
                        m - 1
                    };
                    assert(kept[j] == self.entries[shift(j)]);
                    assert(after.holds_at(other, j));
                } else if self.is_full() {
                    if m > 0 {
                        assert(kept[m - 1] == self.entries[shift(m - 1)]);
                        assert(after.holds_at(other, m - 1));
                    }
                } else {
                    assert(kept[m] == self.entries[shift(m)]);
                    assert(after.holds_at(other, m));
                }
            }
        }
    }

    /// Invalidation keeps the store well formed, leaves nothing under the
    /// resource, and leaves every other key what it had.
    pub proof fn lemma_invalidate(self, resource_id: u64)
        requires
            self.wf(),
        ensures
            self.invalidate(resource_id).wf(),
            forall|key: KeyModel| #[trigger]
                self.invalidate(resource_id).lookup(key) == (if key.resource_id == resource_id {
                    None
                } else {
                    self.lookup(key)
                }),
    {
        let keep = survives(resource_id);
        let after = self.invalidate(resource_id);
        self.entries.lemma_filter_len(keep);
        lemma_survivors_distinct(self.entries, resource_id);
        assert(after.wf());
        assert forall|key: KeyModel| #[trigger]
            after.lookup(key) == (if key.resource_id == resource_id {
                None
            } else {
                self.lookup(key)
            }) by {
            if after.holds(key) {
                let j = after.slot(key);
                assert(after.holds_at(key, j));
                after.lemma_slot(key, j);
                self.entries.lemma_filter_pred(keep, j);
                assert(after.entries.contains(after.entries[j]));
                self.entries.lemma_filter_contains_rev(keep, after.entries[j]);
                let m = choose|m: int| 0 <= m < self.entries.len() && self.entries[m] == after.entries[j];
                self.lemma_slot(key, m);
            } else if self.holds(key) && key.resource_id != resource_id {
                let m = self.slot(key);
                assert(self.holds_at(key, m));
                self.entries.lemma_filter_contains(keep, m);
                let j = choose|j: int| 0 <= j < after.entries.len() && after.entries[j] == self.entries[m];
                assert(after.holds_at(key, j));
            }
        }
    }
}


/// One cached rendition.
#[derive(Debug)]
struct CacheEntry {
    key: CacheKey,
    payload: Vec<u8>,
}

impl View for CacheEntry {
    type V = EntryModel;

    closed spec fn view(&self) -> EntryModel {
        EntryModel { key: self.key@, payload: self.payload@ }
    }
}

/// The entries of a backing list as mathematical values, in the same order.
spec fn models(entries: Seq<CacheEntry>) -> Seq<EntryModel> {
    Seq::new(entries.len(), |i: int| entries[i]@)
}

/// Finds the position of the entry for `key` in a backing list.
fn position(entries: &Vec<CacheEntry>, key: &CacheKey) -> (at: Option<usize>)
    ensures
        match at {
            Some(i) => i < entries.len() && models(entries@)[i as int].key == key@,
            None => forall|j: int| 0 <= j < entries.len() ==> models(entries@)[j].key != key@,
        },
{
    let mut i: usize = 0;
    while i < entries.len()
        invariant
            i <= entries.len(),
            forall|j: int| 0 <= j < i ==> models(entries@)[j].key != key@,
        decreases entries.len() - i,
    {
        if entries[i].key == *key {
            return Some(i);
        }
        i += 1;
    }
    None
}

/// Removes from a backing list every entry of `resource_id`.
fn purge(entries: &mut Vec<CacheEntry>, resource_id: u64)
    ensures
        models(final(entries)@) == models(old(entries)@).filter(survives(resource_id)),
{
    let ghost before = models(entries@);
    let ghost keep = survives(resource_id);
    let ghost seen: int = 0;
    let mut i: usize = 0;
    proof {
        assert(before.take(0) =~= Seq::<EntryModel>::empty());
        before.take(0).lemma_filter_len(keep);
        assert(models(entries@) =~= before.take(0).filter(keep) + before.skip(0));
    }
    while i < entries.len()
        invariant
            0 <= seen <= before.len(),
            keep == survives(resource_id),
            i == before.take(seen).filter(keep).len(),
            models(entries@) == before.take(seen).filter(keep) + before.skip(seen),
        decreases before.len() - seen,
    {
        let ghost current = models(entries@);
        let ghost done = before.take(seen).filter(keep);
        proof {
            assert(current[i as int] == before.skip(seen)[0]);
            assert(before.take(seen + 1) =~= before.take(seen).push(before[seen]));
            before.take(seen).lemma_filter_push(before[seen], keep);
        }
        if entries[i].key.resource_id == resource_id {
            entries.remove(i);
            proof {
                assert(models(entries@) =~= current.remove(i as int));
                assert(models(entries@) =~= done + before.skip(seen + 1));
            }
        } else {
            i += 1;
            proof {
                assert(models(entries@) =~= done.push(before[seen]) + before.skip(seen + 1));
            }
        }
        proof {
            seen = seen + 1;
        }
    }
    proof {
        assert(before.take(seen) =~= before);
        assert(models(entries@) =~= before.filter(keep));
    }
}

/// A bounded store of renditions, one entry per key.
#[derive(Debug)]
pub struct CacheStore {
    entries: Vec<CacheEntry>,
    capacity: usize,
}

impl View for CacheStore {
    type V = CacheModel;

    closed spec fn view(&self) -> CacheModel {
        CacheModel { entries: models(self.entries@), capacity: self.capacity as nat }
    }
}

impl CacheStore {
    /// Every store is well formed: it has room for at least one entry, holds
    /// no more than it has room for, and holds no key twice.
    #[verifier::type_invariant]
    pub open spec fn well_formed(&self) -> bool {
        self@.wf()
    }

    /// An empty store with room for `capacity` entries.
    pub fn new(capacity: usize) -> (store: CacheStore)
        requires
            capacity >= 1,
        ensures
            store@.wf(),
            store@.entries == Seq::<EntryModel>::empty(),
            store@.capacity == capacity,
    {
        let store = CacheStore { entries: Vec::new(), capacity };
        assert(store@.entries =~= Seq::<EntryModel>::empty());
        store
    }

    /// The number of entries the store may hold; at least one.
    pub fn capacity(&self) -> (capacity: usize)
        ensures
            capacity == self@.capacity,
            capacity >= 1,
    {
        proof {
            use_type_invariant(self);
        }
        self.capacity
    }

    /// The number of entries the store holds; never more than its capacity.
    pub fn len(&self) -> (len: usize)
        ensures
            len == self@.entries.len(),
            len <= self@.capacity,
    {
        proof {
            use_type_invariant(self);
        }
        self.entries.len()
    }

    /// The payload cached under `key`, copied out; `None` where the store
    /// has no entry for it. The store is left as it was.
    pub fn get(&self, key: &CacheKey) -> (found: Option<Vec<u8>>)
        ensures
            match found {
                Some(payload) => self@.lookup(key@) == Some(payload@),
                None => self@.lookup(key@) is None,
            },
    {
        proof {
            use_type_invariant(self);
        }
        match position(&self.entries, key) {
            Some(i) => {
                proof {
                    self@.lemma_slot(key@, i as int);
                }
                Some(self.entries[i].payload.clone())
            },
            None => None,
        }
    }

    /// Whether the store has an entry for `key`.
    pub fn contains(&self, key: &CacheKey) -> (present: bool)
        ensures
            present == self@.holds(key@),
    {
        let at = position(&self.entries, key);
        proof {
            match at {
                Some(i) => {
                    assert(self@.holds_at(key@, i as int));
                },
                None => {
                    assert forall|j: int| !self@.holds_at(key@, j) by {}
                },
            }
        }
        at.is_some()
    }

    /// Caches `payload` under `key`, replacing what the key had. Never
    /// refuses: a new key at a full store takes the place of the entry
    /// written longest ago.
    pub fn set(&mut self, key: CacheKey, payload: Vec<u8>)
        ensures
            final(self)@.wf(),
            final(self)@ == old(self)@.set(key@, payload@),
            final(self)@.lookup(key@) == Some(payload@),
    {
        proof {
            use_type_invariant(&*self);
        }
        let ghost before = self@;
        let mut entries: Vec<CacheEntry> = Vec::new();
        std::mem::swap(&mut self.entries, &mut entries);
        match position(&entries, &key) {
            Some(i) => {
                proof {
                    before.lemma_slot(key@, i as int);
                }
                entries.remove(i);
                assert(models(entries@) =~= before.entries.remove(i as int));
            },
            None => {
                if entries.len() >= self.capacity {
                    entries.remove(0);
                    assert(models(entries@) =~= before.entries.drop_first());
                }
            },
        }
        let ghost kept = models(entries@);
        entries.push(CacheEntry { key, payload });
        proof {
            assert(models(entries@) =~= kept.push(EntryModel { key: key@, payload: payload@ }));
            before.lemma_set(key@, payload@);
        }
        self.entries = entries;
    }

    /// Drops every entry of `resource_id`, whatever its preset and format.
    pub fn invalidate(&mut self, resource_id: u64)
        ensures
            final(self)@.wf(),
            final(self)@ == old(self)@.invalidate(resource_id),
            forall|key: KeyModel|
                key.resource_id == resource_id ==> (#[trigger] final(self)@.lookup(key)) is None,
    {
        proof {
            use_type_invariant(&*self);
        }
        let ghost before = self@;
        let mut entries: Vec<CacheEntry> = Vec::new();
        std::mem::swap(&mut self.entries, &mut entries);
        purge(&mut entries, resource_id);
        proof {
            before.lemma_invalidate(resource_id);
        }
        self.entries = entries;
    }
}

} // verus!
