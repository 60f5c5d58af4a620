use vstd::prelude::*;

verus! {

/// Keys of a `Table`: plain values whose executable comparison agrees with
/// equality of values.
pub trait TableKey: Copy {
    fn same(&self, other: &Self) -> (b: bool)
        ensures
            b == (*self == *other),
    ;
}

impl TableKey for u32 {
    fn same(&self, other: &Self) -> (b: bool) {
        *self == *other
    }
}

/// A key-value table with unique keys, kept as an association list.
/// It stands for one family of storage entries of a contract, such as all
/// entries under `Course(id)`.
pub struct Table<K: TableKey, Val> {
    entries: Vec<(K, Val)>,
}

impl<K: TableKey, Val> View for Table<K, Val> {
    type V = Map<K, Val>;

    closed spec fn view(&self) -> Map<K, Val> {
        Map::new(
            |k: K| exists|i: int| 0 <= i < self.entries.len() && self.entries@[i].0 == k,
            |k: K|
                self.entries@[choose|i: int|
                    0 <= i < self.entries.len() && self.entries@[i].0 == k].1,
        )
    }
}

impl<K: TableKey, Val> Table<K, Val> {
    #[verifier::type_invariant]
    spec fn keys_unique(self) -> bool {
        forall|i: int, j: int|
            0 <= i < self.entries.len() && 0 <= j < self.entries.len() && i != j
                ==> #[trigger] self.entries@[i].0 != #[trigger] self.entries@[j].0
    }

    proof fn lemma_view_at(&self, i: int)
        requires
            0 <= i < self.entries.len(),
            self.keys_unique(),
        ensures
            self@.contains_key(self.entries@[i].0),
            self@[self.entries@[i].0] == self.entries@[i].1,
    {
        let k = self.entries@[i].0;
        assert(self@.contains_key(k));
        let j = choose|j: int| 0 <= j < self.entries.len() && self.entries@[j].0 == k;
        assert(self.entries@[j].0 == k);
        assert(i == j);
    }

    /// An empty table.
    pub fn new() -> (t: Self)
        ensures
            t@ == Map::<K, Val>::empty(),
    {
        let t = Table { entries: Vec::new() };
        assert(t@ =~= Map::<K, Val>::empty());
        t
    }

    fn find(&self, k: &K) -> (r: Option<usize>)
        ensures
            match r {
                Some(i) => i < self.entries.len() && self.entries@[i as int].0 == *k,
                None => !self@.contains_key(*k),
            },
    {
        let mut i: usize = 0;
        while i < self.entries.len()
            invariant
                i <= self.entries.len(),
                forall|j: int| 0 <= j < i ==> self.entries@[j].0 != *k,
            decreases self.entries.len() - i,
        {
            if self.entries[i].0.same(k) {
                return Some(i);
            }
            i = i + 1;
        }
        None
    }

    /// Whether an entry is stored under `k`.
    pub fn contains(&self, k: &K) -> (b: bool)
        ensures
            b == self@.contains_key(*k),
    {
        proof { use_type_invariant(self); }
        match self.find(k) {
            Some(i) => {
                proof { self.lemma_view_at(i as int); }
                true
            },
            None => false,
        }
    }

    /// The entry stored under `k`, if any.
    pub fn get(&self, k: &K) -> (r: Option<&Val>)
        ensures
            match r {
                Some(v) => self@.contains_key(*k) && self@[*k] == *v,
                None => !self@.contains_key(*k),
            },
    {
        proof { use_type_invariant(self); }
        match self.find(k) {
            Some(i) => {
                proof { self.lemma_view_at(i as int); }
                Some(&self.entries[i].1)
            },
            None => None,
        }
    }

    /// Stores `v` under `k`, replacing what was there.
    pub fn insert(&mut self, k: K, v: Val)
        ensures
            final(self)@ == old(self)@.insert(k, v),
    {
        proof { use_type_invariant(&*self); }
        let ghost old_map = self@;
        match self.find(&k) {
            Some(i) => {
                let mut entries = Vec::new();
                std::mem::swap(&mut entries, &mut self.entries);
                let ghost before = entries@;
                entries.set(i, (k, v));
                proof {
                    assert forall|a: int, b: int|
                        0 <= a < entries.len() && 0 <= b < entries.len() && a != b
                            implies #[trigger] entries@[a].0 != #[trigger] entries@[b].0 by {
                        assert(before[a].0 == entries@[a].0 || a == i);
                    }
                }
                self.entries = entries;
                proof {
                    assert forall|key: K| #[trigger] self@.contains_key(key)
                        implies old_map.insert(k, v).contains_key(key)
                            && self@[key] == old_map.insert(k, v)[key] by {
                        let j = choose|j: int| 0 <= j < self.entries.len() && self.entries@[j].0 == key;
                        self.lemma_view_at(j);
                        if j != i {
                            assert(before[j].0 == key);
                        }
                    }
                    assert forall|key: K| #[trigger] old_map.insert(k, v).contains_key(key)
                        implies self@.contains_key(key) by {
                        if key != k {
                            let j = choose|j: int| 0 <= j < before.len() && before[j].0 == key;
                            assert(self.entries@[j].0 == key);
                        } else {
                            assert(self.entries@[i as int].0 == key);
                        }
                    }
                    assert(self@ =~= old_map.insert(k, v));
                }
            },
            None => {
                let mut entries = Vec::new();
                std::mem::swap(&mut entries, &mut self.entries);
                let ghost before = entries@;
                entries.push((k, v));
                self.entries = entries;
                proof {
                    let n = before.len() as int;
                    assert forall|key: K| #[trigger] self@.contains_key(key)
                        implies old_map.insert(k, v).contains_key(key)
                            && self@[key] == old_map.insert(k, v)[key] by {
                        let j = choose|j: int| 0 <= j < self.entries.len() && self.entries@[j].0 == key;
                        self.lemma_view_at(j);
                        if j != n {
                            assert(before[j].0 == key);
                            assert(old_map.contains_key(key));
                        }
                    }
                    assert forall|key: K| #[trigger] old_map.insert(k, v).contains_key(key)
                        implies self@.contains_key(key) by {
                        if key != k {
                            let j = choose|j: int| 0 <= j < before.len() && before[j].0 == key;
                            assert(self.entries@[j].0 == key);
                        } else {
                            assert(self.entries@[n].0 == key);
                        }
                    }
                    assert(self@ =~= old_map.insert(k, v));
                }
            },
        }
    }

    /// Removes the entry stored under `k`, if any.
    pub fn remove(&mut self, k: &K)
        ensures
            final(self)@ == old(self)@.remove(*k),
    {
        proof { use_type_invariant(&*self); }
        let ghost old_map = self@;
        match self.find(k) {
            Some(i) => {
                let mut entries = Vec::new();
                std::mem::swap(&mut entries, &mut self.entries);
                let ghost before = entries@;
                let _ = entries.remove(i);
                proof {
                    assert forall|a: int| 0 <= a < entries.len()
                        implies #[trigger] entries@[a] == (if a < i { before[a] } else { before[a + 1] }) by {}
                    assert forall|a: int, b: int|
                        0 <= a < entries.len() && 0 <= b < entries.len() && a != b
                            implies #[trigger] entries@[a].0 != #[trigger] entries@[b].0 by {
                        let a2 = if a < i { a } else { a + 1 };
                        let b2 = if b < i { b } else { b + 1 };
                        assert(entries@[a] == before[a2]);
                        assert(entries@[b] == before[b2]);
                    }
                }
                self.entries = entries;
                proof {
                    assert forall|key: K| #[trigger] self@.contains_key(key)
                        implies old_map.remove(*k).contains_key(key)
                            && self@[key] == old_map.remove(*k)[key] by {
                        let j = choose|j: int| 0 <= j < self.entries.len() && self.entries@[j].0 == key;
                        self.lemma_view_at(j);
                        let j2 = if j < i { j } else { j + 1 };
                        assert(self.entries@[j] == before[j2]);
                        assert(before[j2].0 == key);
                        assert(key != *k);
                    }
                    assert forall|key: K| #[trigger] old_map.remove(*k).contains_key(key)
                        implies self@.contains_key(key) by {
                        let j = choose|j: int| 0 <= j < before.len() && before[j].0 == key;
                        assert(j != i);
                        let j2 = if j < i { j } else { j - 1 };
                        assert(self.entries@[j2] == before[j]);
                    }
                    assert(self@ =~= old_map.remove(*k));
                }
            },
            None => {
                assert(self@ =~= old_map.remove(*k));
            },
        }
    }
}

} // verus!
