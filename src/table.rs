use vstd::prelude::*;
use crate::account::Key;

verus! {

/// A finite keyed store: each key maps to at most one value.
#[verifier::reject_recursive_types(K)]
pub struct Table<K, V> {
    entries: Vec<(K, V)>,
    model: Ghost<Map<K, V>>,
}

impl<K: Key, V: Copy> Table<K, V> {
    /// What the table holds.
    pub closed spec fn view(&self) -> Map<K, V> {
        self.model@
    }

    /// Keys are unique, and the entries are exactly the mapping of the model.
    pub closed spec fn wf(&self) -> bool {
        &&& self.model@.dom().finite()
        &&& forall|i: int, j: int|
            0 <= i < j < self.entries@.len() ==> self.entries@[i].0 != self.entries@[j].0
        &&& forall|i: int|
            0 <= i < self.entries@.len() ==> #[trigger] self.model@.contains_key(
                self.entries@[i].0,
            ) && self.model@[self.entries@[i].0] == self.entries@[i].1
        &&& forall|k: K|
            #[trigger] self.model@.contains_key(k) ==> exists|i: int|
                0 <= i < self.entries@.len() && self.entries@[i].0 == k
    }

    pub proof fn lemma_wf_finite(&self)
        requires
            self.wf(),
        ensures
            self@.dom().finite(),
    {
    }

    pub fn new() -> (r: Self)
        ensures
            r.wf(),
            r@ == Map::<K, V>::empty(),
    {
        Table { entries: Vec::new(), model: Ghost(Map::empty()) }
    }

    /// Position of `k` among the entries, if it is there.
    fn find(&self, k: &K) -> (r: Option<usize>)
        requires
            self.wf(),
        ensures
            match r {
                Some(i) => i < self.entries@.len() && self.entries@[i as int].0 == *k,
                None => !self@.contains_key(*k),
            },
    {
        let mut i: usize = 0;
        while i < self.entries.len()
            invariant
                self.wf(),
                0 <= i <= self.entries@.len(),
                forall|j: int| 0 <= j < i ==> self.entries@[j].0 != *k,
            decreases self.entries@.len() - i,
        {
            if self.entries[i].0.same(k) {
                return Some(i);
            }
            i = i + 1;
        }
        None
    }

    pub fn get(&self, k: &K) -> (r: Option<V>)
        requires
            self.wf(),
        ensures
            r == (if self@.contains_key(*k) {
                Some(self@[*k])
            } else {
                None::<V>
            }),
    {
        match self.find(k) {
            Some(i) => Some(self.entries[i].1),
            None => None,
        }
    }

    pub fn insert(&mut self, k: K, v: V)
        requires
            old(self).wf(),
        ensures
            final(self).wf(),
            final(self)@ == old(self)@.insert(k, v),
    {
        let ghost before = self.entries@;
        let ghost m = self.model@.insert(k, v);
        match self.find(&k) {
            Some(i) => {
                assert forall|j: int| 0 <= j < before.len() && j != i implies before[j].0 != k by {
                    if before[j].0 == k {
                        if j < i {
                            assert(before[j].0 != before[i as int].0);
                        } else {
                            assert(before[i as int].0 != before[j].0);
                        }
                    }
                }
                self.entries.set(i, (k, v));
                self.model = Ghost(m);
                assert forall|key: K| #[trigger] m.contains_key(key) implies exists|j: int|
                    0 <= j < self.entries@.len() && self.entries@[j].0 == key by {
                    if key != k {
                        let j = choose|j: int| 0 <= j < before.len() && before[j].0 == key;
                        assert(self.entries@[j].0 == key);
                    } else {
                        assert(self.entries@[i as int].0 == key);
                    }
                }
            },
            None => {
                assert forall|j: int| 0 <= j < before.len() implies before[j].0 != k by {
                    assert(self.model@.contains_key(before[j].0));
                }
                self.entries.push((k, v));
                self.model = Ghost(m);
                assert forall|key: K| #[trigger] m.contains_key(key) implies exists|j: int|
                    0 <= j < self.entries@.len() && self.entries@[j].0 == key by {
                    if key != k {
                        let j = choose|j: int| 0 <= j < before.len() && before[j].0 == key;
                        assert(self.entries@[j].0 == key);
                    } else {
                        assert(self.entries@[before.len() as int].0 == key);
                    }
                }
            },
        }
    }
}

} // verus!
