//! A small keyed store: a vector of entries whose keys are distinct, seen as a
//! finite map from key views to values.
use vstd::prelude::*;

verus! {

/// A key that can be compared and copied in executable code in agreement with
/// its view.
pub trait TableKey: View + Sized {
    fn same_key(&self, other: &Self) -> (r: bool)
        ensures
            r == (self@ == other@),
    ;

    fn copy_key(&self) -> (r: Self)
        ensures
            r@ == self@,
    ;
}

pub struct Table<K: TableKey, V: Copy> {
    entries: Vec<(K, V)>,
    contents: Ghost<Map<K::V, V>>,
}

impl<K: TableKey, V: Copy> View for Table<K, V> {
    type V = Map<K::V, V>;

    closed spec fn view(&self) -> Map<K::V, V> {
        self.contents@
    }
}

impl<K: TableKey, V: Copy> Table<K, V> {
    /// Every entry is in the map with its value, every key of the map has an
    /// entry, and no two entries share a key.
    pub closed spec fn wf(&self) -> bool {
        &&& forall|i: int|
            0 <= i < self.entries@.len() ==> #[trigger] self.contents@.contains_key(
                self.entries@[i].0@,
            ) && self.contents@[self.entries@[i].0@] == self.entries@[i].1
        &&& forall|k: K::V|
            #[trigger] self.contents@.contains_key(k) ==> exists|i: int|
                0 <= i < self.entries@.len() && #[trigger] self.entries@[i].0@ == k
        &&& forall|i: int, j: int|
            0 <= i < j < self.entries@.len() ==> #[trigger] self.entries@[i].0@
                != #[trigger] self.entries@[j].0@
    }

    /// The value stored under `k`, or `d` where there is none.
    pub open spec fn value_or(&self, k: K::V, d: V) -> V {
        if self@.contains_key(k) {
            self@[k]
        } else {
            d
        }
    }

    pub fn new() -> (r: Self)
        ensures
            r.wf(),
            r@ == Map::<K::V, V>::empty(),
    {
        Table { entries: Vec::new(), contents: Ghost(Map::empty()) }
    }

    /// The position of the entry for `k`, if there is one.
    fn find(&self, k: &K) -> (r: Option<usize>)
        requires
            self.wf(),
        ensures
            match r {
                Some(i) => i < self.entries@.len() && self.entries@[i as int].0@ == k@,
                None => !self@.contains_key(k@),
            },
    {
        let mut i: usize = 0;
        while i < self.entries.len()
            invariant
                self.wf(),
                i <= self.entries@.len(),
                forall|j: int| 0 <= j < i ==> self.entries@[j].0@ != k@,
            decreases self.entries@.len() - i,
        {
            if self.entries[i].0.same_key(k) {
                return Some(i);
            }
            i = i + 1;
        }
        proof {
            if self@.contains_key(k@) {
                let j = choose|j: int| 0 <= j < self.entries@.len() && self.entries@[j].0@ == k@;
                assert(self.entries@[j].0@ != k@);
            }
        }
        None
    }

    pub fn get(&self, k: &K) -> (r: Option<V>)
        requires
            self.wf(),
        ensures
            r == (if self@.contains_key(k@) {
                Some(self@[k@])
            } else {
                None
            }),
    {
        match self.find(k) {
            Some(i) => {
                let e = &self.entries[i];
                Some(e.1)
            },
            None => None,
        }
    }

    /// The value stored under `k`, or `d` where there is none.
    pub fn get_or(&self, k: &K, d: V) -> (r: V)
        requires
            self.wf(),
        ensures
            r == self.value_or(k@, d),
    {
        match self.get(k) {
            Some(v) => v,
            None => d,
        }
    }

    pub fn insert(&mut self, k: &K, v: V)
        requires
            old(self).wf(),
        ensures
            final(self).wf(),
            final(self)@ == old(self)@.insert(k@, v),
    {
        let ghost m = self.contents@.insert(k@, v);
        match self.find(k) {
            Some(i) => {
                let key = k.copy_key();
                self.entries.set(i, (key, v));
                self.contents = Ghost(m);
                assert forall|k2: K::V| #[trigger] self.contents@.contains_key(k2) implies exists|
                    j: int,
                | 0 <= j < self.entries@.len() && #[trigger] self.entries@[j].0@ == k2 by {
                    if k2 == k@ {
                        assert(self.entries@[i as int].0@ == k2);
                    } else {
                        assert(old(self).contents@.contains_key(k2));
                        let j = choose|j: int|
                            0 <= j < old(self).entries@.len() && old(self).entries@[j].0@ == k2;
                        assert(self.entries@[j].0@ == k2);
                    }
                }
                assert forall|a: int, b: int|
                    0 <= a < b < self.entries@.len() implies #[trigger] self.entries@[a].0@
                    != #[trigger] self.entries@[b].0@ by {
                    if a == i {
                        assert(old(self).entries@[a].0@ == k@);
                    }
                    if b == i {
                        assert(old(self).entries@[b].0@ == k@);
                    }
                }
                assert forall|a: int| 0 <= a < self.entries@.len() implies #[trigger] self.contents@.contains_key(
                    self.entries@[a].0@,
                ) && self.contents@[self.entries@[a].0@] == self.entries@[a].1 by {
                    if a != i {
                        assert(old(self).entries@[a].0@ != old(self).entries@[i as int].0@);
                    }
                }
            },
            None => {
                let key = k.copy_key();
                self.entries.push((key, v));
                self.contents = Ghost(m);
                let ghost n = self.entries@.len() - 1;
                assert forall|k2: K::V| #[trigger] self.contents@.contains_key(k2) implies exists|
                    j: int,
                | 0 <= j < self.entries@.len() && #[trigger] self.entries@[j].0@ == k2 by {
                    if k2 == k@ {
                        assert(self.entries@[n].0@ == k2);
                    } else {
                        assert(old(self).contents@.contains_key(k2));
                        let j = choose|j: int|
                            0 <= j < old(self).entries@.len() && old(self).entries@[j].0@ == k2;
                        assert(self.entries@[j].0@ == k2);
                    }
                }
                assert forall|i: int, j: int|
                    0 <= i < j < self.entries@.len() implies #[trigger] self.entries@[i].0@
                    != #[trigger] self.entries@[j].0@ by {
                    if j == n {
                        assert(old(self).contents@.contains_key(old(self).entries@[i].0@));
                    }
                }
            },
        }
    }
}

} // verus!
