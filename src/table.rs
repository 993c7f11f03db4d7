//! A finite map keyed by 32-byte values, held as a list of distinct keys.

use vstd::prelude::*;
use crate::bytes::{Bytes32, bytes_eq};

verus! {

/// A finite map from 32-byte keys to values.
pub struct Table<V> {
    entries: Vec<(Bytes32, V)>,
    model: Ghost<Map<Bytes32, V>>,
}

impl<V: Copy> Table<V> {
    /// The map that the table holds.
    pub closed spec fn view(&self) -> Map<Bytes32, V> {
        self.model@
    }

    /// The entries have distinct keys and hold exactly the map.
    pub closed spec fn wf(&self) -> bool {
        &&& forall|i: int|
            0 <= i < self.entries@.len() ==> #[trigger] self.model@.contains_key(self.entries@[i].0)
                && self.model@[self.entries@[i].0] == self.entries@[i].1
        &&& forall|k: Bytes32|
            #[trigger] self.model@.contains_key(k) ==> exists|i: int|
                0 <= i < self.entries@.len() && #[trigger] self.entries@[i].0 == k
        &&& forall|i: int, j: int|
            0 <= i < self.entries@.len() && 0 <= j < self.entries@.len() && i != j
                ==> #[trigger] self.entries@[i].0 != #[trigger] self.entries@[j].0
    }

    /// An empty table.
    pub fn new() -> (r: Self)
        ensures
            r.wf(),
            r@ == Map::<Bytes32, V>::empty(),
    {
        Table { entries: Vec::new(), model: Ghost(Map::empty()) }
    }

    /// The position of `k` among the entries, if it is there.
    fn find(&self, k: &Bytes32) -> (r: Option<usize>)
        requires
            self.wf(),
        ensures
            match r {
                Some(i) => i < self.entries@.len() && self.entries@[i as int].0 == *k,
                None => !self@.contains_key(*k),
            },
    {
        let mut i: usize = 0;
        while i < self.entries.len()
            invariant
                self.wf(),
                0 <= i <= self.entries@.len(),
                forall|j: int| 0 <= j < i ==> self.entries@[j].0 != *k,
            decreases self.entries@.len() - i,
        {
            if bytes_eq(&self.entries[i].0, k) {
                return Some(i);
            }
            i = i + 1;
        }
        None
    }

    /// The value stored under `k`.
    pub fn get(&self, k: &Bytes32) -> (r: Option<V>)
        requires
            self.wf(),
        ensures
            r == (if self@.contains_key(*k) { Some(self@[*k]) } else { None::<V> }),
    {
        match self.find(k) {
            Some(i) => Some(self.entries[i].1),
            None => None,
        }
    }

    /// Whether a value is stored under `k`.
    pub fn contains(&self, k: &Bytes32) -> (r: bool)
        requires
            self.wf(),
        ensures
            r == self@.contains_key(*k),
    {
        self.find(k).is_some()
    }

    /// Stores `v` under `k`, replacing what was there.
    pub fn insert(&mut self, k: Bytes32, v: V)
        requires
            old(self).wf(),
        ensures
            final(self).wf(),
            final(self)@ == old(self)@.insert(k, v),
    {
        let ghost new_model = self.model@.insert(k, v);
        match self.find(&k) {
            Some(i) => {
                let ghost old_entries = self.entries@;
                self.entries.set(i, (k, v));
                self.model = Ghost(new_model);
                assert forall|j: int| 0 <= j < self.entries@.len() implies #[trigger] self.model@.contains_key(self.entries@[j].0)
                    && self.model@[self.entries@[j].0] == self.entries@[j].1 by {
                    if j != i {
                        assert(old_entries[j].0 != old_entries[i as int].0);
                        assert(self.entries@[j] == old_entries[j]);
                    }
                }
                assert forall|a: int, b: int|
                    0 <= a < self.entries@.len() && 0 <= b < self.entries@.len() && a != b
                        implies #[trigger] self.entries@[a].0 != #[trigger] self.entries@[b].0 by {
                    assert(old_entries[a].0 != old_entries[b].0);
                }
                assert forall|q: Bytes32| #[trigger] self.model@.contains_key(q) implies exists|j: int|
                    0 <= j < self.entries@.len() && #[trigger] self.entries@[j].0 == q by {
                    if q != k {
                        let j = choose|j: int| 0 <= j < old(self).entries@.len() && #[trigger] old(self).entries@[j].0 == q;
                        assert(self.entries@[j].0 == q);
                    } else {
                        assert(self.entries@[i as int].0 == q);
                    }
                }
            },
            None => {
                let ghost old_entries = self.entries@;
                self.entries.push((k, v));
                self.model = Ghost(new_model);
                let ghost n = self.entries@.len() - 1;
                assert forall|j: int| 0 <= j < n implies old_entries[j].0 != k by {
                    assert(old(self).model@.contains_key(old_entries[j].0));
                }
                assert forall|j: int| 0 <= j < self.entries@.len() implies #[trigger] self.model@.contains_key(self.entries@[j].0)
                    && self.model@[self.entries@[j].0] == self.entries@[j].1 by {
                    if j < n {
                        assert(self.entries@[j] == old_entries[j]);
                    }
                }
                assert forall|a: int, b: int|
                    0 <= a < self.entries@.len() && 0 <= b < self.entries@.len() && a != b
                        implies #[trigger] self.entries@[a].0 != #[trigger] self.entries@[b].0 by {
                    if a < n && b < n {
                        assert(old_entries[a].0 != old_entries[b].0);
                    } else if a < n {
                        assert(self.entries@[a] == old_entries[a]);
                    } else {
                        assert(self.entries@[b] == old_entries[b]);
                    }
                }
                assert forall|q: Bytes32| #[trigger] self.model@.contains_key(q) implies exists|j: int|
                    0 <= j < self.entries@.len() && #[trigger] self.entries@[j].0 == q by {
                    if q != k {
                        let j = choose|j: int| 0 <= j < old(self).entries@.len() && #[trigger] old(self).entries@[j].0 == q;
                        assert(self.entries@[j].0 == q);
                    } else {
                        assert(self.entries@[n].0 == q);
                    }
                }
            },
        }
    }

    /// Removes whatever is stored under `k`.
    pub fn remove(&mut self, k: &Bytes32)
        requires
            old(self).wf(),
        ensures
            final(self).wf(),
            final(self)@ == old(self)@.remove(*k),
    {
        match self.find(k) {
            Some(i) => {
                let ghost old_entries = self.entries@;
                self.entries.remove(i);
                self.model = Ghost(self.model@.remove(*k));
                assert forall|j: int| 0 <= j < self.entries@.len() implies #[trigger] self.model@.contains_key(self.entries@[j].0)
                    && self.model@[self.entries@[j].0] == self.entries@[j].1 by {
                    let oj = if j < i { j } else { j + 1 };
                    assert(self.entries@[j] == old_entries[oj]);
                    assert(old_entries[oj].0 != old_entries[i as int].0);
                    assert(old(self).model@.contains_key(old_entries[oj].0));
                }
                assert forall|q: Bytes32| #[trigger] self.model@.contains_key(q) implies exists|j: int|
                    0 <= j < self.entries@.len() && #[trigger] self.entries@[j].0 == q by {
                    let j = choose|j: int| 0 <= j < old_entries.len() && #[trigger] old_entries[j].0 == q;
                    if j < i {
                        assert(self.entries@[j].0 == q);
                    } else {
                        assert(j != i);
                        assert(self.entries@[j - 1].0 == q);
                    }
                }
                assert forall|a: int, b: int|
                    0 <= a < self.entries@.len() && 0 <= b < self.entries@.len() && a != b
                        implies #[trigger] self.entries@[a].0 != #[trigger] self.entries@[b].0 by {
                    let oa = if a < i { a } else { a + 1 };
                    let ob = if b < i { b } else { b + 1 };
                    assert(self.entries@[a] == old_entries[oa]);
                    assert(self.entries@[b] == old_entries[ob]);
                }
            },
            None => {
                assert(self.model@.remove(*k) =~= self.model@);
            },
        }
    }
}

} // verus!
