//! A small map from text keys to values, kept as a list in which no key
//! occurs twice.

use vstd::prelude::*;

verus! {

/// A map keyed by text. New keys go to the end of the list; a key that is
/// put again keeps its place and takes the new value.
#[derive(Debug)]
pub struct StringMap<V> {
    entries: Vec<(String, V)>,
}

impl<V> StringMap<V> {
    /// The keys and values in the order in which the keys first came.
    pub closed spec fn entries(&self) -> Seq<(String, V)> {
        self.entries@
    }

    /// No key occurs twice.
    #[verifier::type_invariant]
    pub open spec fn wf(&self) -> bool {
        forall|i: int, j: int|
            0 <= i < j < self.entries().len() ==> self.entries()[i].0@ != self.entries()[j].0@
    }

    /// Whether the list holds `key` at place `i`.
    pub open spec fn holds_at(&self, key: Seq<char>, i: int) -> bool {
        0 <= i < self.entries().len() && self.entries()[i].0@ == key
    }

    /// The map that the list stands for.
    pub open spec fn view(&self) -> Map<Seq<char>, V> {
        Map::new(
            |key: Seq<char>| exists|i: int| self.holds_at(key, i),
            |key: Seq<char>| self.entries()[choose|i: int| self.holds_at(key, i)].1,
        )
    }

    /// The empty map.
    pub fn new() -> (map: Self)
        ensures
            map.entries().len() == 0,
            map@ == Map::<Seq<char>, V>::empty(),
    {
        let map = StringMap { entries: Vec::new() };
        assert(map@ =~= Map::<Seq<char>, V>::empty());
        map
    }

    /// How many keys the map has.
    pub fn len(&self) -> (n: usize)
        ensures
            n == self.entries().len(),
    {
        self.entries.len()
    }

    /// The key and value at place `i`.
    pub fn entry(&self, i: usize) -> (pair: &(String, V))
        requires
            i < self.entries().len(),
        ensures
            *pair == self.entries()[i as int],
    {
        &self.entries[i]
    }

    /// In a well-formed list a key that is held at a place has the value
    /// at that place.
    pub proof fn lemma_value_at(&self, key: Seq<char>, i: int)
        requires
            self.wf(),
            self.holds_at(key, i),
        ensures
            self@.contains_key(key),
            self@[key] == self.entries()[i].1,
    {
        let w = choose|w: int| self.holds_at(key, w);
        if w < i {
            assert(self.entries()[w].0@ != self.entries()[i].0@);
        } else if i < w {
            assert(self.entries()[i].0@ != self.entries()[w].0@);
        }
    }

    /// Where `key` is held, if it is.
    fn position_of(&self, key: &str) -> (found: Option<usize>)
        ensures
            match found {
                Some(i) => self.holds_at(key@, i as int),
                None => forall|i: int| !self.holds_at(key@, i),
            },
    {
        let wanted = key.to_owned();
        let mut i: usize = 0;
        while i < self.entries.len()
            invariant
                i <= self.entries().len(),
                wanted@ == key@,
                forall|j: int| 0 <= j < i ==> !self.holds_at(key@, j),
            decreases self.entries().len() - i,
        {
            if self.entries[i].0 == wanted {
                return Some(i);
            }
            i += 1;
        }
        None
    }

    /// The value of `key`, if it has one.
    pub fn get(&self, key: &str) -> (value: Option<&V>)
        ensures
            match value {
                Some(v) => self@.contains_key(key@) && *v == self@[key@],
                None => !self@.contains_key(key@),
            },
    {
        proof {
            use_type_invariant(self);
        }
        match self.position_of(key) {
            Some(i) => {
                proof {
                    self.lemma_value_at(key@, i as int);
                }
                Some(&self.entries[i].1)
            },
            None => None,
        }
    }

    /// A new key at the end of a well-formed list gives a well-formed list
    /// that stands for the map with one more key.
    proof fn lemma_push(before: Self, after: Self, key: String, value: V)
        requires
            before.wf(),
            forall|i: int| !before.holds_at(key@, i),
            after.entries() == before.entries().push((key, value)),
        ensures
            after.wf(),
            after@ == before@.insert(key@, value),
    {
        let last = before.entries().len() as int;
        assert(after.holds_at(key@, last));
        assert forall|i: int, j: int| 0 <= i < j < after.entries().len() implies after.entries()[i].0@
            != after.entries()[j].0@ by {
            if j == last {
                assert(!before.holds_at(key@, i));
            } else {
                assert(before.entries()[i].0@ != before.entries()[j].0@);
            }
        }
        after.lemma_value_at(key@, last);
        assert forall|k: Seq<char>| #[trigger]
            after@.contains_key(k) == before@.insert(key@, value).contains_key(k) by {
            if after@.contains_key(k) && k != key@ {
                let w = choose|w: int| after.holds_at(k, w);
                assert(before.holds_at(k, w));
            }
            if before@.contains_key(k) {
                let w = choose|w: int| before.holds_at(k, w);
                assert(after.holds_at(k, w));
            }
        }
        assert forall|k: Seq<char>| #[trigger] after@.contains_key(k) && k != key@ implies after@[k]
            == before@[k] by {
            let w = choose|w: int| after.holds_at(k, w);
            assert(before.holds_at(k, w));
            after.lemma_value_at(k, w);
            before.lemma_value_at(k, w);
        }
        assert(after@ =~= before@.insert(key@, value));
    }

    /// A new value at the place of a key in a well-formed list gives a
    /// well-formed list that stands for the map with that key's value
    /// replaced.
    proof fn lemma_replace(before: Self, after: Self, i: int, value: V)
        requires
            before.wf(),
            0 <= i < before.entries().len(),
            after.entries() == before.entries().update(i, (before.entries()[i].0, value)),
        ensures
            after.wf(),
            after@ == before@.insert(before.entries()[i].0@, value),
    {
        let key = before.entries()[i].0@;
        assert forall|k: Seq<char>, j: int| #[trigger]
            after.holds_at(k, j) == before.holds_at(k, j) by {}
        assert forall|a: int, b: int| 0 <= a < b < after.entries().len() implies after.entries()[a].0@
            != after.entries()[b].0@ by {
            assert(before.entries()[a].0@ != before.entries()[b].0@);
        }
        assert(after.holds_at(key, i));
        after.lemma_value_at(key, i);
        assert forall|k: Seq<char>| #[trigger]
            after@.contains_key(k) == before@.insert(key, value).contains_key(k) by {
            if after@.contains_key(k) {
                let w = choose|w: int| after.holds_at(k, w);
                assert(before.holds_at(k, w));
            }
            if before@.contains_key(k) {
                let w = choose|w: int| before.holds_at(k, w);
                assert(after.holds_at(k, w));
            }
        }
        assert forall|k: Seq<char>| #[trigger] after@.contains_key(k) && k != key implies after@[k]
            == before@[k] by {
            let w = choose|w: int| after.holds_at(k, w);
            assert(before.holds_at(k, w));
            after.lemma_value_at(k, w);
            before.lemma_value_at(k, w);
        }
        assert(after@ =~= before@.insert(key, value));
    }

    /// Gives `key` the value `value`, and returns the value it had.
    pub fn insert(&mut self, key: String, value: V) -> (previous: Option<V>)
        ensures
            final(self)@ == old(self)@.insert(key@, value),
            match previous {
                Some(v) => old(self)@.contains_key(key@) && v == old(self)@[key@]
                    && final(self).entries().len() == old(self).entries().len(),
                None => !old(self)@.contains_key(key@) && final(self).entries() == old(
                    self,
                ).entries().push((key, value)),
            },
    {
        proof {
            use_type_invariant(&*self);
        }
        let ghost before = *self;
        let found = self.position_of(key.as_str());
        // The list leaves the map while it is changed, and comes back well formed.
        let mut entries: Vec<(String, V)> = Vec::new();
        std::mem::swap(&mut self.entries, &mut entries);
        let previous = match found {
            Some(i) => {
                let mut value = value;
                std::mem::swap(&mut entries[i].1, &mut value);
                proof {
                    before.lemma_value_at(key@, i as int);
                    assert(entries@ =~= before.entries().update(
                        i as int,
                        (before.entries()[i as int].0, entries@[i as int].1),
                    ));
                    Self::lemma_replace(
                        before,
                        StringMap { entries },
                        i as int,
                        entries@[i as int].1,
                    );
                }
                Some(value)
            },
            None => {
                entries.push((key, value));
                proof {
                    Self::lemma_push(before, StringMap { entries }, key, value);
                }
                None
            },
        };
        std::mem::swap(&mut self.entries, &mut entries);
        previous
    }
}

impl<V: Copy> StringMap<V> {
    /// A copy of the map, with the keys in the same order.
    pub fn duplicate(&self) -> (copy: Self)
        ensures
            copy@ == self@,
            copy.entries().len() == self.entries().len(),
    {
        proof {
            use_type_invariant(self);
        }
        let mut entries: Vec<(String, V)> = Vec::new();
        let mut i: usize = 0;
        while i < self.entries.len()
            invariant
                i <= self.entries@.len(),
                entries@.len() == i,
                forall|j: int|
                    0 <= j < i ==> entries@[j].0@ == self.entries@[j].0@ && entries@[j].1
                        == self.entries@[j].1,
            decreases self.entries@.len() - i,
        {
            entries.push((self.entries[i].0.clone(), self.entries[i].1));
            i += 1;
        }
        proof {
            assert forall|a: int, b: int| 0 <= a < b < entries@.len() implies entries@[a].0@
                != entries@[b].0@ by {
                assert(self.entries()[a].0@ != self.entries()[b].0@);
            }
        }
        let copy = StringMap { entries };
        proof {
            assert forall|k: Seq<char>, j: int| #[trigger]
                copy.holds_at(k, j) == self.holds_at(k, j) by {}
            assert forall|k: Seq<char>| #[trigger] copy@.contains_key(k) == self@.contains_key(
                k,
            ) by {
                if copy@.contains_key(k) {
                    let w = choose|w: int| copy.holds_at(k, w);
                    assert(self.holds_at(k, w));
                }
                if self@.contains_key(k) {
                    let w = choose|w: int| self.holds_at(k, w);
                    assert(copy.holds_at(k, w));
                }
            }
            assert forall|k: Seq<char>| #[trigger] self@.contains_key(k) implies copy@[k]
                == self@[k] by {
                let w = choose|w: int| self.holds_at(k, w);
                assert(copy.holds_at(k, w));
                self.lemma_value_at(k, w);
                copy.lemma_value_at(k, w);
            }
            assert(copy@ =~= self@);
        }
        copy
    }
}

} // verus!
