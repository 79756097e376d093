use vstd::prelude::*;
use crate::text::same_text;

verus! {

/// A map from text keys to values, kept as a list of entries in the order
/// in which the keys first came in. No key occurs twice.
pub struct StrMap<V> {
    entries: Vec<(String, V)>,
}

impl<V> View for StrMap<V> {
    type V = Map<Seq<char>, V>;

    closed spec fn view(&self) -> Map<Seq<char>, V> {
        Map::new(
            |k: Seq<char>| self.key_seq().contains(k),
            |k: Seq<char>| self.entries@[self.key_seq().index_of(k)].1,
        )
    }
}

impl<V> StrMap<V> {
    /// The keys in the order of their entries.
    pub closed spec fn key_seq(self) -> Seq<Seq<char>> {
        Seq::new(self.entries@.len(), |i: int| self.entries@[i].0@)
    }

    /// No key has two entries.
    #[verifier::type_invariant]
    closed spec fn distinct_keys(self) -> bool {
        self.key_seq().no_duplicates()
    }

    /// Each entry is what the map holds for its key.
    proof fn lemma_entry(self, i: int)
        requires
            self.distinct_keys(),
            0 <= i < self.entries@.len(),
        ensures
            self@.dom().contains(self.entries@[i].0@),
            self@[self.entries@[i].0@] == self.entries@[i].1,
            self.key_seq()[i] == self.entries@[i].0@,
    {
        let k = self.entries@[i].0@;
        assert(self.key_seq()[i] == k);
        let j = self.key_seq().index_of(k);
        assert(self.key_seq()[j] == k);
    }

    /// A key that no entry has is no key of the map.
    proof fn lemma_absent(self, k: Seq<char>)
        requires
            forall|i: int| 0 <= i < self.entries@.len() ==> self.entries@[i].0@ != k,
        ensures
            !self@.dom().contains(k),
    {
        if self.key_seq().contains(k) {
            let j = choose|j: int| 0 <= j < self.key_seq().len() && self.key_seq()[j] == k;
            assert(self.entries@[j].0@ == k);
        }
    }

    /// A key of the map is the key of some entry.
    proof fn lemma_present(self, k: Seq<char>)
        requires
            self@.dom().contains(k),
        ensures
            exists|i: int| 0 <= i < self.entries@.len() && #[trigger] self.entries@[i].0@ == k,
    {
        let j = choose|j: int| 0 <= j < self.key_seq().len() && self.key_seq()[j] == k;
        assert(self.entries@[j].0@ == k);
    }

    /// A map without entries.
    pub fn new() -> (m: Self)
        ensures
            m@ == Map::<Seq<char>, V>::empty(),
            m.key_seq() == Seq::<Seq<char>>::empty(),
    {
        let m = StrMap { entries: Vec::new() };
        proof {
            assert(m.key_seq() =~= Seq::<Seq<char>>::empty());
            assert(m@ =~= Map::<Seq<char>, V>::empty());
        }
        m
    }

    /// The number of entries. The list of keys names every key of the map
    /// once.
    pub fn len(&self) -> (n: usize)
        ensures
            n == self@.dom().len(),
            n == self.key_seq().len(),
            self@.dom().finite(),
            self.key_seq().no_duplicates(),
            self.key_seq().to_set() == self@.dom(),
    {
        proof {
            use_type_invariant(self);
            assert(self.key_seq().to_set() =~= self@.dom());
            vstd::seq_lib::seq_to_set_is_finite(self.key_seq());
            self.key_seq().unique_seq_to_set();
        }
        self.entries.len()
    }

    /// Whether the map has no entry.
    pub fn is_empty(&self) -> (empty: bool)
        ensures
            empty == (self@ == Map::<Seq<char>, V>::empty()),
    {
        proof {
            use_type_invariant(self);
            if self.entries@.len() == 0 {
                assert(self@ =~= Map::<Seq<char>, V>::empty());
            } else {
                self.lemma_entry(0);
            }
        }
        self.entries.len() == 0
    }

    /// The place of the entry of `key`, if it has one.
    fn find(&self, key: &str) -> (at: Option<usize>)
        ensures
            at is Some == self@.dom().contains(key@),
            at is Some ==> at->0 < self.entries@.len() && self.entries@[at->0 as int].0@ == key@,
    {
        let mut i: usize = 0;
        while i < self.entries.len()
            invariant
                i <= self.entries@.len(),
                forall|j: int| 0 <= j < i ==> self.entries@[j].0@ != key@,
            decreases self.entries@.len() - i,
        {
            if same_text(self.entries[i].0.as_str(), key) {
                proof {
                    use_type_invariant(self);
                    self.lemma_entry(i as int);
                }
                return Some(i);
            }
            i = i + 1;
        }
        proof {
            self.lemma_absent(key@);
        }
        None
    }

    /// Whether `key` has an entry.
    pub fn contains_key(&self, key: &str) -> (found: bool)
        ensures
            found == self@.dom().contains(key@),
    {
        self.find(key).is_some()
    }

    /// The value of `key`, if it has one.
    pub fn get(&self, key: &str) -> (value: Option<&V>)
        ensures
            value == (if self@.dom().contains(key@) {
                Some(&self@[key@])
            } else {
                None
            }),
    {
        match self.find(key) {
            Some(i) => {
                proof {
                    use_type_invariant(self);
                    self.lemma_entry(i as int);
                }
                Some(&self.entries[i].1)
            },
            None => None,
        }
    }

    /// Gives `key` the value `value`. A key that is new goes to the end of
    /// the list of keys; one that is known keeps its place.
    pub fn insert(&mut self, key: String, value: V)
        ensures
            final(self)@ == old(self)@.insert(key@, value),
            final(self).key_seq() == (if old(self)@.dom().contains(key@) {
                old(self).key_seq()
            } else {
                old(self).key_seq().push(key@)
            }),
    {
        proof {
            use_type_invariant(&*self);
        }
        let ghost before = *self;
        let found = self.find(key.as_str());
        let ghost k = key@;
        match found {
            Some(i) => {
                let mut entries: Vec<(String, V)> = Vec::new();
                core::mem::swap(&mut self.entries, &mut entries);
                entries.set(i, (key, value));
                proof {
                    assert forall|a: int, b: int|
                        0 <= a < entries@.len() && 0 <= b < entries@.len() && a != b implies entries@[a].0@
                        != entries@[b].0@ by {
                        assert(before.key_seq()[a] != before.key_seq()[b]);
                    }
                    assert((StrMap { entries }).key_seq() =~= before.key_seq());
                }
                core::mem::swap(&mut self.entries, &mut entries);
                proof {
                    assert(self.key_seq() =~= before.key_seq());
                    self.lemma_entry(i as int);
                    before.lemma_entry(i as int);
                    assert(self@.dom() =~= before@.dom());
                    assert forall|k2: Seq<char>| #[trigger]
                        self@.dom().contains(k2) == before@.insert(k, value).dom().contains(
                            k2,
                        ) && (self@.dom().contains(k2) ==> self@[k2] == before@.insert(
                            k,
                            value,
                        )[k2]) by {
                        if self@.dom().contains(k2) {
                            self.lemma_present(k2);
                            let j = choose|j: int|
                                0 <= j < self.entries@.len() && #[trigger] self.entries@[j].0@
                                    == k2;
                            self.lemma_entry(j);
                            before.lemma_entry(j);
                        }
                    }
                    assert(self@ =~= before@.insert(k, value));
                }
            },
            None => {
                let mut entries: Vec<(String, V)> = Vec::new();
                core::mem::swap(&mut self.entries, &mut entries);
                entries.push((key, value));
                proof {
                    let after = StrMap { entries };
                    assert(after.key_seq() =~= before.key_seq().push(k));
                    assert(after.key_seq().no_duplicates()) by {
                        assert forall|a: int, b: int|
                            0 <= a < after.key_seq().len() && 0 <= b < after.key_seq().len() && a
                                != b implies after.key_seq()[a] != after.key_seq()[b] by {
                            if a < before.key_seq().len() && b < before.key_seq().len() {
                                assert(before.key_seq()[a] != before.key_seq()[b]);
                            } else if a < before.key_seq().len() {
                                assert(before.key_seq().contains(before.key_seq()[a]));
                            } else {
                                assert(before.key_seq().contains(before.key_seq()[b]));
                            }
                        }
                    }
                }
                core::mem::swap(&mut self.entries, &mut entries);
                proof {
                    let last = before.entries@.len() as int;
                    self.lemma_entry(last);
                    assert forall|k2: Seq<char>| #[trigger]
                        self@.dom().contains(k2) == before@.insert(k, value).dom().contains(
                            k2,
                        ) && (self@.dom().contains(k2) ==> self@[k2] == before@.insert(
                            k,
                            value,
                        )[k2]) by {
                        if self@.dom().contains(k2) {
                            self.lemma_present(k2);
                            let j = choose|j: int|
                                0 <= j < self.entries@.len() && #[trigger] self.entries@[j].0@
                                    == k2;
                            self.lemma_entry(j);
                            if j < last {
                                before.lemma_entry(j);
                            }
                        } else if before@.dom().contains(k2) {
                            before.lemma_present(k2);
                            let j = choose|j: int|
                                0 <= j < before.entries@.len() && #[trigger] before.entries@[j].0@
                                    == k2;
                            self.lemma_entry(j);
                        }
                    }
                    assert(self@ =~= before@.insert(k, value));
                }
            },
        }
    }

    /// Takes the entry of `key` out and gives its value, if it had one. The
    /// other keys keep their order.
    pub fn remove(&mut self, key: &str) -> (value: Option<V>)
        ensures
            final(self)@ == old(self)@.remove(key@),
            value == (if old(self)@.dom().contains(key@) {
                Some(old(self)@[key@])
            } else {
                None
            }),
            final(self).key_seq() == (if old(self)@.dom().contains(key@) {
                old(self).key_seq().remove(old(self).key_seq().index_of(key@))
            } else {
                old(self).key_seq()
            }),
    {
        proof {
            use_type_invariant(&*self);
        }
        let ghost before = *self;
        let found = self.find(key);
        match found {
            Some(i) => {
                let mut entries: Vec<(String, V)> = Vec::new();
                core::mem::swap(&mut self.entries, &mut entries);
                let entry = entries.remove(i);
                proof {
                    let after = StrMap { entries };
                    before.lemma_entry(i as int);
                    assert(after.key_seq() =~= before.key_seq().remove(i as int));
                    assert(after.key_seq().no_duplicates()) by {
                        assert forall|a: int, b: int|
                            0 <= a < after.key_seq().len() && 0 <= b < after.key_seq().len() && a
                                != b implies after.key_seq()[a] != after.key_seq()[b] by {
                            let a0 = if a < i { a } else { a + 1 };
                            let b0 = if b < i { b } else { b + 1 };
                            assert(before.key_seq()[a0] != before.key_seq()[b0]);
                        }
                    }
                }
                core::mem::swap(&mut self.entries, &mut entries);
                proof {
                    assert(before.key_seq()[i as int] == key@);
                    assert(before.key_seq().index_of(key@) == i) by {
                        let c = before.key_seq().index_of(key@);
                        assert(before.key_seq()[c] == key@);
                    }
                    assert forall|k2: Seq<char>| #[trigger]
                        self@.dom().contains(k2) == before@.remove(key@).dom().contains(k2) && (
                        self@.dom().contains(k2) ==> self@[k2] == before@.remove(key@)[k2]) by {
                        if self@.dom().contains(k2) {
                            self.lemma_present(k2);
                            let j = choose|j: int|
                                0 <= j < self.entries@.len() && #[trigger] self.entries@[j].0@
                                    == k2;
                            self.lemma_entry(j);
                            let j0 = if j < i { j } else { j + 1 };
                            before.lemma_entry(j0);
                            assert(before.key_seq()[j0] != before.key_seq()[i as int]);
                        } else if before@.dom().contains(k2) && k2 != key@ {
                            before.lemma_present(k2);
                            let j0 = choose|j: int|
                                0 <= j < before.entries@.len() && #[trigger] before.entries@[j].0@
                                    == k2;
                            let j = if j0 < i { j0 } else { j0 - 1 };
                            self.lemma_entry(j);
                        }
                    }
                    assert(self@ =~= before@.remove(key@));
                }
                Some(entry.1)
            },
            None => {
                proof {
                    assert(self@ =~= before@.remove(key@));
                }
                None
            },
        }
    }

    /// The key of the entry at place `i`.
    pub fn key_at(&self, i: usize) -> (key: &String)
        requires
            i < self.key_seq().len(),
        ensures
            key@ == self.key_seq()[i as int],
            self@.dom().contains(key@),
    {
        proof {
            use_type_invariant(self);
            self.lemma_entry(i as int);
        }
        &self.entries[i].0
    }

    /// The value of the entry at place `i`.
    pub fn value_at(&self, i: usize) -> (value: &V)
        requires
            i < self.key_seq().len(),
        ensures
            self@.dom().contains(self.key_seq()[i as int]),
            *value == self@[self.key_seq()[i as int]],
    {
        proof {
            use_type_invariant(self);
            self.lemma_entry(i as int);
        }
        &self.entries[i].1
    }
}

} // verus!
