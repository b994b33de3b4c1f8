//! A keyed storage table: the in-memory form of one storage map of the pallet.

use vstd::prelude::*;

verus! {

/// A key of a storage table: a plain value whose equality can be decided at run time.
pub trait TableKey: Sized {
    fn same_key(&self, other: &Self) -> (r: bool)
        ensures
            r == (*self == *other),
    ;
}

impl TableKey for u32 {
    fn same_key(&self, other: &Self) -> (r: bool) {
        *self == *other
    }
}

/// A finite map from keys to values, kept as a list of entries without repeated keys.
#[verifier::reject_recursive_types(K)]
pub struct StorageTable<K, V> {
    entries: Vec<(K, V)>,
    contents: Ghost<Map<K, V>>,
}

impl<K: TableKey, V: Copy> View for StorageTable<K, V> {
    type V = Map<K, V>;

    closed spec fn view(&self) -> Map<K, V> {
        self.contents@
    }
}

impl<K: TableKey, V: Copy> StorageTable<K, V> {
    /// The entries hold each key at most once, and they list exactly the pairs of the map.
    pub closed spec fn wf(&self) -> bool {
        &&& forall|i: int, j: int|
            #![trigger self.entries@[i], self.entries@[j]]
            0 <= i < self.entries@.len() && 0 <= j < self.entries@.len() && i != j
                ==> self.entries@[i].0 != self.entries@[j].0
        &&& forall|i: int|
            #![trigger self.entries@[i]]
            0 <= i < self.entries@.len() ==> self.contents@.contains_key(self.entries@[i].0)
                && self.contents@[self.entries@[i].0] == self.entries@[i].1
        &&& forall|k: K|
            #![trigger self.contents@.contains_key(k)]
            self.contents@.contains_key(k) ==> exists|i: int|
                #![trigger self.entries@[i]]
                0 <= i < self.entries@.len() && self.entries@[i].0 == k
    }

    /// An empty table.
    pub fn new() -> (t: Self)
        ensures
            t.wf(),
            t@ == Map::<K, V>::empty(),
    {
        StorageTable { entries: Vec::new(), contents: Ghost(Map::empty()) }
    }

    fn find(&self, k: &K) -> (r: Option<usize>)
        requires
            self.wf(),
        ensures
            match r {
                Some(i) => i < self.entries@.len() && self.entries@[i as int].0 == *k,
                None => !self@.contains_key(*k),
            },
    {
        let mut i: usize = 0;
        while i < self.entries.len()
            invariant
                self.wf(),
                i <= self.entries@.len(),
                forall|j: int| 0 <= j < i ==> #[trigger] self.entries@[j].0 != *k,
            decreases self.entries@.len() - i,
        {
            if self.entries[i].0.same_key(k) {
                return Some(i);
            }
            i = i + 1;
        }
        None
    }

    /// Whether the table holds a value under `k`.
    pub fn contains_key(&self, k: &K) -> (r: bool)
        requires
            self.wf(),
        ensures
            r == self@.contains_key(*k),
    {
        match self.find(k) {
            Some(_) => true,
            None => false,
        }
    }

    /// The value under `k`, if there is one.
    pub fn get(&self, k: &K) -> (r: Option<V>)
        requires
            self.wf(),
        ensures
            r == self@.get(*k),
    {
        match self.find(k) {
            Some(i) => Some(self.entries[i].1),
            None => None,
        }
    }

    /// Puts `v` under `k`, replacing what was there.
    pub fn insert(&mut self, k: K, v: V)
        requires
            old(self).wf(),
        ensures
            final(self).wf(),
            final(self)@ == old(self)@.insert(k, v),
    {
        let ghost mut pos: int = 0;
        match self.find(&k) {
            Some(i) => {
                self.entries.set(i, (k, v));
                proof {
                    pos = i as int;
                }
            },
            None => {
                self.entries.push((k, v));
                proof {
                    pos = self.entries@.len() - 1;
                }
            },
        }
        self.contents = Ghost(self.contents@.insert(k, v));
        assert forall|key: K| #[trigger] self.contents@.contains_key(key) implies exists|i: int|
            #![trigger self.entries@[i]]
            0 <= i < self.entries@.len() && self.entries@[i].0 == key by {
            if key != k {
                assert(old(self)@.contains_key(key));
                let j = choose|j: int| 0 <= j < old(self).entries@.len() && #[trigger] old(self).entries@[j].0 == key;
                assert(self.entries@[j].0 == key);
            } else {
                assert(self.entries@[pos].0 == key);
            }
        }
    }

    /// Takes out whatever is under `k`.
    pub fn remove(&mut self, k: &K)
        requires
            old(self).wf(),
        ensures
            final(self).wf(),
            final(self)@ == old(self)@.remove(*k),
    {
        match self.find(k) {
            Some(i) => {
                let last = self.entries.len() - 1;
                self.entries.swap_remove(i);
                self.contents = Ghost(self.contents@.remove(*k));
                assert forall|key: K| #[trigger] self.contents@.contains_key(key) implies exists|j: int|
                    #![trigger self.entries@[j]]
                    0 <= j < self.entries@.len() && self.entries@[j].0 == key by {
                    assert(old(self)@.contains_key(key));
                    let j = choose|j: int| 0 <= j < old(self).entries@.len() && #[trigger] old(self).entries@[j].0 == key;
                    if j == last {
                        assert(self.entries@[i as int].0 == key);
                    } else {
                        assert(self.entries@[j].0 == key);
                    }
                }
            },
            None => {
                assert(self.contents@.remove(*k) =~= self.contents@);
            },
        }
    }
}

} // verus!
