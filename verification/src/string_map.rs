//! A small map keyed by text. Its entries can be walked by index, and no key
//! occurs twice.

use vstd::prelude::*;

verus! {

/// A map from text keys to values.
#[derive(Debug)]
pub struct StringMap<V> {
    entries: Vec<(String, V)>,
}

impl<V> View for StringMap<V> {
    type V = Map<Seq<char>, V>;

    closed spec fn view(&self) -> Map<Seq<char>, V> {
        Map::new(
            |key: Seq<char>| Self::position(self.entries@, key) is Some,
            |key: Seq<char>| self.entries@[Self::position(self.entries@, key)->0].1,
        )
    }
}

impl<V> StringMap<V> {
    /// Where `key` stands among `entries`, if it does.
    closed spec fn position(entries: Seq<(String, V)>, key: Seq<char>) -> Option<int> {
        if exists|i: int| 0 <= i < entries.len() && entries[i].0@ == key {
            Some(choose|i: int| 0 <= i < entries.len() && entries[i].0@ == key)
        } else {
            None
        }
    }

    closed spec fn distinct(entries: Seq<(String, V)>) -> bool {
        forall|i: int, j: int|
            0 <= i < entries.len() && 0 <= j < entries.len() && i != j ==> entries[i].0@
                != entries[j].0@
    }

    /// The invariant of the type: no key occurs twice.
    pub closed spec fn wf(&self) -> bool {
        Self::distinct(self.entries@)
    }

    /// The keys in the order in which they are walked.
    pub closed spec fn keys(&self) -> Seq<Seq<char>> {
        Seq::new(self.entries@.len(), |i: int| self.entries@[i].0@)
    }

    /// The values in the order in which they are walked.
    pub closed spec fn values(&self) -> Seq<V> {
        Seq::new(self.entries@.len(), |i: int| self.entries@[i].1)
    }

    /// Whether keys, values and the map agree: the keys are distinct, they
    /// are the map's domain, and the value beside each key is the one the
    /// map gives it.
    pub open spec fn consistent(&self) -> bool {
        &&& self.keys().len() == self.values().len()
        &&& self.keys().no_duplicates()
        &&& forall|key: Seq<char>| self@.contains_key(key) <==> self.keys().contains(key)
        &&& forall|i: int|
            0 <= i < self.keys().len() ==> self@.contains_key(#[trigger] self.keys()[i])
                && self@[self.keys()[i]] == self.values()[i]
    }

    proof fn lemma_position(entries: Seq<(String, V)>, i: int)
        requires
            Self::distinct(entries),
            0 <= i < entries.len(),
        ensures
            Self::position(entries, entries[i].0@) == Some(i),
    {
    }

    /// A well-formed map is consistent.
    pub proof fn lemma_consistent(&self)
        requires
            self.wf(),
        ensures
            self.consistent(),
    {
        let entries = self.entries@;
        assert forall|key: Seq<char>| self@.contains_key(key) implies self.keys().contains(
            key,
        ) by {
            let i = Self::position(entries, key)->0;
            assert(self.keys()[i] == key);
        }
        assert forall|i: int| 0 <= i < self.keys().len() implies self@.contains_key(
            #[trigger] self.keys()[i],
        ) && self@[self.keys()[i]] == self.values()[i] by {
            Self::lemma_position(entries, i);
        }
    }

    /// An empty map.
    pub fn new() -> (map: Self)
        ensures
            map@ == Map::<Seq<char>, V>::empty(),
            map.keys() == Seq::<Seq<char>>::empty(),
            map.values() == Seq::<V>::empty(),
            map.wf(),
    {
        let map = StringMap { entries: Vec::new() };
        assert(map@ =~= Map::<Seq<char>, V>::empty());
        assert(map.keys() =~= Seq::<Seq<char>>::empty());
        assert(map.values() =~= Seq::<V>::empty());
        map
    }

    /// The number of entries.
    pub fn len(&self) -> (count: usize)
        requires
            self.wf(),
        ensures
            count == self.keys().len(),
            count == self.values().len(),
            count == self@.dom().len(),
    {
        proof {
            self.lemma_consistent();
            self.keys().unique_seq_to_set();
            assert(self.keys().to_set() =~= self@.dom());
        }
        self.entries.len()
    }

    /// The key of the entry at `index` in walking order.
    pub fn key_at(&self, index: usize) -> (key: &String)
        requires
            index < self.keys().len(),
        ensures
            key@ == self.keys()[index as int],
    {
        &self.entries[index].0
    }

    /// The value of the entry at `index` in walking order.
    pub fn value_at(&self, index: usize) -> (value: &V)
        requires
            index < self.values().len(),
        ensures
            *value == self.values()[index as int],
    {
        &self.entries[index].1
    }

    fn find(&self, key: &str) -> (found: Option<usize>)
        ensures
            match found {
                Some(i) => i < self.entries@.len() && self.entries@[i as int].0@ == key@,
                None => forall|i: int| 0 <= i < self.entries@.len() ==> self.entries@[i].0@ != key@,
            },
    {
        let mut i: usize = 0;
        while i < self.entries.len()
            invariant
                i <= self.entries@.len(),
                forall|j: int| 0 <= j < i ==> self.entries@[j].0@ != key@,
            decreases self.entries@.len() - i,
        {
            if crate::version::str_eq(self.entries[i].0.as_str(), key) {
                return Some(i);
            }
            i = i + 1;
        }
        None
    }

    /// Whether `key` has an entry.
    pub fn contains_key(&self, key: &str) -> (present: bool)
        ensures
            present == self@.contains_key(key@),
    {
        self.find(key).is_some()
    }

    /// The value stored under `key`, if any.
    pub fn get(&self, key: &str) -> (value: Option<&V>)
        requires
            self.wf(),
        ensures
            match value {
                Some(v) => self@.contains_key(key@) && *v == self@[key@],
                None => !self@.contains_key(key@),
            },
    {
        match self.find(key) {
            Some(i) => {
                proof {
                    Self::lemma_position(self.entries@, i as int);
                }
                Some(&self.entries[i].1)
            },
            None => None,
        }
    }

    /// Stores `value` under `key` and hands back the value that stood there
    /// before.
    pub fn insert(&mut self, key: String, value: V) -> (previous: Option<V>)
        requires
            old(self).wf(),
        ensures
            final(self).wf(),
            final(self)@ == old(self)@.insert(key@, value),
            previous == if old(self)@.contains_key(key@) {
                Some(old(self)@[key@])
            } else {
                None
            },
    {
        let ghost before = self.entries@;
        let previous = match self.find(key.as_str()) {
            Some(i) => {
                proof {
                    Self::lemma_position(before, i as int);
                }
                let (_, was) = self.entries.remove(i);
                proof {
                    let after = self.entries@;
                    assert(Self::distinct(after)) by {
                        assert forall|a: int, b: int|
                            0 <= a < after.len() && 0 <= b < after.len() && a != b implies after[a].0@
                            != after[b].0@ by {
                            let a0 = if a < i { a } else { a + 1 };
                            let b0 = if b < i { b } else { b + 1 };
                            assert(after[a] == before[a0]);
                            assert(after[b] == before[b0]);
                        }
                    }
                    assert forall|a: int| 0 <= a < after.len() implies after[a].0@ != key@ by {
                        let a0 = if a < i { a } else { a + 1 };
                        assert(after[a] == before[a0]);
                    }
                }
                Some(was)
            },
            None => None,
        };
        let ghost middle = self.entries@;
        self.entries.push((key, value));
        proof {
            let after = self.entries@;
            assert(Self::distinct(after));
            assert(final(self)@ =~= old(self)@.insert(key@, value)) by {
                assert forall|k: Seq<char>| #[trigger]
                    final(self)@.contains_key(k) == old(self)@.insert(key@, value).contains_key(
                        k,
                    ) by {
                    if k == key@ {
                        assert(after[after.len() - 1].0@ == k);
                    } else if old(self)@.contains_key(k) {
                        let p = Self::position(before, k)->0;
                        if previous is Some {
                            let i = Self::position(before, key@)->0;
                            let q = if p < i { p } else { p - 1 };
                            assert(middle[q] == before[p]);
                            assert(after[q].0@ == k);
                        } else {
                            assert(after[p].0@ == k);
                        }
                    } else if final(self)@.contains_key(k) {
                        let q = Self::position(after, k)->0;
                        assert(q < middle.len());
                        if previous is Some {
                            let i = Self::position(before, key@)->0;
                            let p = if q < i { q } else { q + 1 };
                            assert(middle[q] == before[p]);
                        } else {
                            assert(before[q].0@ == k);
                        }
                    }
                }
                assert forall|k: Seq<char>| #[trigger]
                    final(self)@.contains_key(k) implies final(self)@[k] == old(self)@.insert(
                    key@,
                    value,
                )[k] by {
                    let q = Self::position(after, k)->0;
                    Self::lemma_position(after, q);
                    if k == key@ {
                        Self::lemma_position(after, after.len() - 1);
                    } else {
                        assert(q < middle.len());
                        if previous is Some {
                            let i = Self::position(before, key@)->0;
                            let p = if q < i { q } else { q + 1 };
                            assert(middle[q] == before[p]);
                            Self::lemma_position(before, p);
                        } else {
                            Self::lemma_position(before, q);
                        }
                    }
                }
            }
        }
        previous
    }

    /// Removes the entry under `key`, if any, and hands its value back.
    pub fn remove(&mut self, key: &str) -> (removed: Option<V>)
        requires
            old(self).wf(),
        ensures
            final(self).wf(),
            final(self)@ == old(self)@.remove(key@),
            removed == if old(self)@.contains_key(key@) {
                Some(old(self)@[key@])
            } else {
                None
            },
    {
        let ghost before = self.entries@;
        match self.find(key) {
            Some(i) => {
                proof {
                    Self::lemma_position(before, i as int);
                }
                let (_, was) = self.entries.remove(i);
                proof {
                    let after = self.entries@;
                    assert forall|a: int| 0 <= a < after.len() implies after[a] == before[if a
                        < i {
                        a
                    } else {
                        a + 1
                    }] by {}
                    assert(Self::distinct(after)) by {
                        assert forall|a: int, b: int|
                            0 <= a < after.len() && 0 <= b < after.len() && a != b implies after[a].0@
                            != after[b].0@ by {
                            let a0 = if a < i { a } else { a + 1 };
                            let b0 = if b < i { b } else { b + 1 };
                            assert(after[a] == before[a0]);
                            assert(after[b] == before[b0]);
                        }
                    }
                    assert(final(self)@ =~= old(self)@.remove(key@)) by {
                        assert forall|k: Seq<char>| #[trigger]
                            final(self)@.contains_key(k) == old(self)@.remove(key@).contains_key(
                                k,
                            ) by {
                            if k != key@ && old(self)@.contains_key(k) {
                                let p = Self::position(before, k)->0;
                                let q = if p < i { p } else { p - 1 };
                                assert(after[q] == before[p]);
                            } else if final(self)@.contains_key(k) {
                                let q = Self::position(after, k)->0;
                                let p = if q < i { q } else { q + 1 };
                                assert(after[q] == before[p]);
                            }
                        }
                        assert forall|k: Seq<char>| #[trigger]
                            final(self)@.contains_key(k) implies final(self)@[k] == old(
                            self,
                        )@.remove(key@)[k] by {
                            let q = Self::position(after, k)->0;
                            Self::lemma_position(after, q);
                            let p = if q < i { q } else { q + 1 };
                            assert(after[q] == before[p]);
                            Self::lemma_position(before, p);
                        }
                    }
                }
                Some(was)
            },
            None => {
                proof {
                    assert(final(self)@ =~= old(self)@.remove(key@));
                }
                None
            },
        }
    }
}

} // verus!
