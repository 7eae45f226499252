//! The account store: records keyed by their derived address, where creating
//! a record at an occupied address fails.
use crate::address::Address;
use vstd::prelude::*;

verus! {

/// Records of one kind, each under its own address.
pub struct Store<T> {
    pub entries: Vec<(Address, T)>,
}

impl<T> Store<T> {
    /// No two entries share an address.
    pub open spec fn wf(&self) -> bool {
        forall|i: int, j: int|
            0 <= i < self.entries@.len() && 0 <= j < self.entries@.len() && i != j
                ==> (#[trigger] self.entries@[i]).0@ != (#[trigger] self.entries@[j]).0@
    }

    /// Whether a record is stored at `key`.
    pub open spec fn has(&self, key: Seq<u8>) -> bool {
        exists|i: int| 0 <= i < self.entries@.len() && (#[trigger] self.entries@[i]).0@ == key
    }

    /// The position of the record stored at `key`.
    pub open spec fn slot(&self, key: Seq<u8>) -> int {
        choose|i: int| 0 <= i < self.entries@.len() && (#[trigger] self.entries@[i]).0@ == key
    }

    /// The records by address.
    pub open spec fn records(&self) -> Map<Seq<u8>, T> {
        Map::new(|k: Seq<u8>| self.has(k), |k: Seq<u8>| self.entries@[self.slot(k)].1)
    }

    pub proof fn lemma_slot(&self, i: int)
        requires
            self.wf(),
            0 <= i < self.entries@.len(),
        ensures
            self.has(self.entries@[i].0@),
            self.slot(self.entries@[i].0@) == i,
            self.records()[self.entries@[i].0@] == self.entries@[i].1,
    {
        let k = self.entries@[i].0@;
        assert(self.has(k));
        let s = self.slot(k);
        assert(self.entries@[s].0@ == k);
    }

    /// An empty store.
    pub fn new() -> (r: Store<T>)
        ensures
            r.wf(),
            r.records() == Map::<Seq<u8>, T>::empty(),
    {
        let r = Store { entries: Vec::new() };
        assert(r.records() =~= Map::<Seq<u8>, T>::empty());
        r
    }

    /// The position of the record at `key`, if there is one.
    pub fn find(&self, key: &Address) -> (r: Option<usize>)
        requires
            self.wf(),
        ensures
            match r {
                Some(i) => i < self.entries@.len() && self.entries@[i as int].0@ == key@
                    && self.has(key@) && self.records()[key@] == self.entries@[i as int].1,
                None => !self.has(key@) && !self.records().contains_key(key@),
            },
    {
        let mut i: usize = 0;
        while i < self.entries.len()
            invariant
                self.wf(),
                i <= self.entries@.len(),
                forall|j: int| 0 <= j < i ==> (#[trigger] self.entries@[j]).0@ != key@,
            decreases self.entries@.len() - i,
        {
            if self.entries[i].0.same_as(key) {
                proof {
                    self.lemma_slot(i as int);
                }
                return Some(i);
            }
            i = i + 1;
        }
        None
    }

    /// Whether a record is stored at `key`.
    pub fn contains(&self, key: &Address) -> (r: bool)
        requires
            self.wf(),
        ensures
            r == self.records().contains_key(key@),
    {
        self.find(key).is_some()
    }

    /// The record at `key`, if there is one.
    pub fn get(&self, key: &Address) -> (r: Option<&T>)
        requires
            self.wf(),
        ensures
            match r {
                Some(v) => self.records().contains_key(key@) && *v == self.records()[key@],
                None => !self.records().contains_key(key@),
            },
    {
        match self.find(key) {
            Some(i) => Some(&self.entries[i].1),
            None => None,
        }
    }

    /// Stores `value` at `key`, which must be free.
    pub fn create(&mut self, key: Address, value: T)
        requires
            old(self).wf(),
            !old(self).records().contains_key(key@),
        ensures
            final(self).wf(),
            final(self).records() == old(self).records().insert(key@, value),
    {
        let ghost before = *self;
        self.entries.push((key, value));
        proof {
            let n = before.entries@.len() as int;
            assert forall|i: int, j: int|
                0 <= i < self.entries@.len() && 0 <= j < self.entries@.len() && i != j
                    implies (#[trigger] self.entries@[i]).0@ != (#[trigger] self.entries@[j]).0@ by {
                if i < n && j < n {
                    assert(before.entries@[i] == self.entries@[i]);
                    assert(before.entries@[j] == self.entries@[j]);
                } else if i < n {
                    assert(before.entries@[i] == self.entries@[i]);
                    assert(!before.has(key@));
                } else {
                    assert(before.entries@[j] == self.entries@[j]);
                    assert(!before.has(key@));
                }
            }
            assert forall|k: Seq<u8>| #[trigger] self.has(k) == (before.has(k) || k == key@) by {
                if self.has(k) {
                    let i = choose|i: int| 0 <= i < self.entries@.len() && (#[trigger] self.entries@[i]).0@ == k;
                    if i < n {
                        assert(before.entries@[i] == self.entries@[i]);
                    }
                }
                if before.has(k) {
                    let i = choose|i: int| 0 <= i < before.entries@.len() && (#[trigger] before.entries@[i]).0@ == k;
                    assert(before.entries@[i] == self.entries@[i]);
                }
                if k == key@ {
                    assert(self.entries@[n].0@ == k);
                }
            }
            assert forall|k: Seq<u8>| self.has(k) implies #[trigger] self.records()[k] == old(self).records().insert(key@, value)[k] by {
                if k == key@ {
                    self.lemma_slot(n);
                } else {
                    let i = before.slot(k);
                    before.lemma_slot(i);
                    assert(before.entries@[i] == self.entries@[i]);
                    self.lemma_slot(i);
                }
            }
            assert(self.records() =~= old(self).records().insert(key@, value));
        }
    }

    /// Setting the record at position `i` keeps the addresses distinct and
    /// changes the record at that address alone.
    pub proof fn lemma_set(&self, after: &Store<T>, i: int, value: T)
        requires
            self.wf(),
            0 <= i < self.entries@.len(),
            after.entries@ == self.entries@.update(i, (self.entries@[i].0, value)),
        ensures
            after.wf(),
            after.records() == self.records().insert(self.entries@[i].0@, value),
    {
        let k0 = self.entries@[i].0@;
        assert forall|a: int, b: int|
            0 <= a < after.entries@.len() && 0 <= b < after.entries@.len() && a != b
                implies (#[trigger] after.entries@[a]).0@ != (#[trigger] after.entries@[b]).0@ by {
            assert(after.entries@[a].0@ == self.entries@[a].0@);
            assert(after.entries@[b].0@ == self.entries@[b].0@);
        }
        assert forall|k: Seq<u8>| #[trigger] after.has(k) == self.has(k) by {
            if after.has(k) {
                let j = choose|j: int| 0 <= j < after.entries@.len() && (#[trigger] after.entries@[j]).0@ == k;
                assert(self.entries@[j].0@ == k);
            }
            if self.has(k) {
                let j = choose|j: int| 0 <= j < self.entries@.len() && (#[trigger] self.entries@[j]).0@ == k;
                assert(after.entries@[j].0@ == k);
            }
        }
        self.lemma_slot(i);
        assert forall|k: Seq<u8>| after.has(k) implies #[trigger] after.records()[k] == self.records().insert(k0, value)[k] by {
            let j = self.slot(k);
            self.lemma_slot(j);
            after.lemma_slot(j);
        }
        assert(after.records() =~= self.records().insert(k0, value));
    }

    /// Replaces the record at position `i`, keeping its address.
    pub fn replace(&mut self, i: usize, value: T)
        requires
            old(self).wf(),
            i < old(self).entries@.len(),
        ensures
            final(self).wf(),
            final(self).records() == old(self).records().insert(old(self).entries@[i as int].0@, value),
    {
        let ghost before = *self;
        let key = self.entries[i].0;
        self.entries.set(i, (key, value));
        proof {
            before.lemma_set(self, i as int, value);
        }
    }

    /// The record at position `i`, to change in place; its address stays.
    pub fn record_mut(&mut self, i: usize) -> (r: &mut T)
        requires
            i < old(self).entries@.len(),
        ensures
            *r == old(self).entries@[i as int].1,
            final(self).entries@ == old(self).entries@.update(i as int, (old(self).entries@[i as int].0, *final(r))),
    {
        &mut self.entries[i].1
    }
}

} // verus!
