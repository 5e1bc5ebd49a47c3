use vstd::prelude::*;
use crate::text::str_eq;

verus! {

/// The map that two parallel sequences describe: `keys[i]` leads to `values[i]`.
pub open spec fn paired<V>(keys: Seq<Seq<char>>, values: Seq<V>) -> Map<Seq<char>, V> {
    Map::new(|k: Seq<char>| keys.contains(k), |k: Seq<char>| values[keys.index_of(k)])
}

/// A finite map from strings to values that keeps its keys in the order in
/// which they first arrived. No key occurs twice.
#[derive(Debug)]
pub struct Table<V> {
    entries: Vec<(String, V)>,
}

impl<V> View for Table<V> {
    type V = Map<Seq<char>, V>;

    open spec fn view(&self) -> Map<Seq<char>, V> {
        paired(self.keys(), self.values())
    }
}

impl<V> Table<V> {
    #[verifier::type_invariant]
    spec fn distinct_keys(&self) -> bool {
        forall|i: int, j: int|
            0 <= i < j < self.entries@.len() ==> self.entries@[i].0@ != self.entries@[j].0@
    }

    /// The keys, oldest first.
    pub closed spec fn keys(&self) -> Seq<Seq<char>> {
        Seq::new(self.entries@.len(), |i: int| self.entries@[i].0@)
    }

    /// The values, each at the index of its key.
    pub closed spec fn values(&self) -> Seq<V> {
        Seq::new(self.entries@.len(), |i: int| self.entries@[i].1)
    }

    /// An empty table.
    pub fn new() -> (table: Self)
        ensures
            table.keys() == Seq::<Seq<char>>::empty(),
            table.values() == Seq::<V>::empty(),
            table@ == Map::<Seq<char>, V>::empty(),
    {
        let table = Table { entries: Vec::new() };
        assert(table.keys() =~= Seq::<Seq<char>>::empty());
        assert(table.values() =~= Seq::<V>::empty());
        assert(table@ =~= Map::<Seq<char>, V>::empty());
        table
    }

    /// How many keys the table holds.
    pub fn len(&self) -> (n: usize)
        ensures
            n == self.keys().len(),
            self.values().len() == self.keys().len(),
            self.keys().no_duplicates(),
    {
        proof {
            use_type_invariant(self);
        }
        self.entries.len()
    }

    /// The key at a position.
    pub fn key(&self, i: usize) -> (k: &String)
        requires
            i < self.keys().len(),
        ensures
            k@ == self.keys()[i as int],
    {
        &self.entries[i].0
    }

    /// The value at a position.
    pub fn value(&self, i: usize) -> (v: &V)
        requires
            i < self.keys().len(),
        ensures
            *v == self.values()[i as int],
            self@.contains_key(self.keys()[i as int]),
            self@[self.keys()[i as int]] == *v,
    {
        proof {
            use_type_invariant(self);
            self.lemma_index_of(i as int);
        }
        &self.entries[i].1
    }

    proof fn lemma_index_of(&self, i: int)
        requires
            self.distinct_keys(),
            0 <= i < self.keys().len(),
        ensures
            self.keys().contains(self.keys()[i]),
            self.keys().index_of(self.keys()[i]) == i,
    {
        let keys = self.keys();
        assert(keys[i] == keys[i]);
        let j = keys.index_of(keys[i]);
        assert(0 <= j < keys.len() && keys[j] == keys[i]);
        if j != i {
            assert(self.entries@[j].0@ == self.entries@[i].0@);
        }
    }

    /// Where a key stands, if the table holds it.
    pub fn position(&self, key: &str) -> (at: Option<usize>)
        ensures
            match at {
                Some(i) => i < self.keys().len() && self.keys()[i as int] == key@,
                None => !self.keys().contains(key@),
            },
    {
        let mut i: usize = 0;
        while i < self.entries.len()
            invariant
                i <= self.entries@.len(),
                forall|j: int| 0 <= j < i ==> self.entries@[j].0@ != key@,
            decreases self.entries@.len() - i,
        {
            if str_eq(self.entries[i].0.as_str(), key) {
                return Some(i);
            }
            i += 1;
        }
        None
    }

    /// The value that a key leads to.
    pub fn get(&self, key: &str) -> (found: Option<&V>)
        ensures
            match found {
                Some(v) => self@.contains_key(key@) && *v == self@[key@],
                None => !self@.contains_key(key@),
            },
    {
        match self.position(key) {
            Some(i) => Some(self.value(i)),
            None => None,
        }
    }

    /// Binds `key` to `value`. A key that is already there keeps its place and
    /// gets the new value; a new key goes to the end.
    pub fn insert(&mut self, key: String, value: V)
        ensures
            final(self)@ == old(self)@.insert(key@, value),
            old(self).keys().contains(key@) ==> final(self).keys() == old(self).keys()
                && final(self).values() == old(self).values().update(
                old(self).keys().index_of(key@),
                value,
            ),
            !old(self).keys().contains(key@) ==> final(self).keys() == old(self).keys().push(key@)
                && final(self).values() == old(self).values().push(value),
            final(self).keys().no_duplicates(),
            final(self).values().len() == final(self).keys().len(),
    {
        proof {
            use_type_invariant(&*self);
        }
        let ghost before = *self;
        let at = self.position(key.as_str());
        let mut entries: Vec<(String, V)> = Vec::new();
        std::mem::swap(&mut self.entries, &mut entries);
        match at {
            Some(i) => {
                entries.set(i, (key, value));
            },
            None => {
                entries.push((key, value));
            },
        }
        assert forall|i: int, j: int| 0 <= i < j < entries@.len() implies entries@[i].0@
            != entries@[j].0@ by {
            assert(before.keys()[i] == before.entries@[i].0@);
            if j < before.entries@.len() {
                assert(before.keys()[j] == before.entries@[j].0@);
            }
        }
        std::mem::swap(&mut self.entries, &mut entries);
        proof {
            if at is None {
                assert(self.entries@.drop_last() =~= before.entries@);
            }
            self.lemma_insert(before, key@, value);
        }
    }

    proof fn lemma_insert(&self, before: Self, key: Seq<char>, value: V)
        requires
            self.distinct_keys(),
            before.distinct_keys(),
            before.keys().contains(key) ==> self.entries@ == before.entries@.update(
                before.keys().index_of(key),
                (self.entries@[before.keys().index_of(key)].0, value),
            ) && self.entries@[before.keys().index_of(key)].0@ == key,
            !before.keys().contains(key) ==> self.entries@.len() == before.entries@.len() + 1
                && self.entries@.drop_last() == before.entries@ && self.entries@.last().0@ == key
                && self.entries@.last().1 == value,
        ensures
            self@ == before@.insert(key, value),
            before.keys().contains(key) ==> self.keys() == before.keys() && self.values()
                == before.values().update(before.keys().index_of(key), value),
            !before.keys().contains(key) ==> self.keys() == before.keys().push(key)
                && self.values() == before.values().push(value),
    {
        if before.keys().contains(key) {
            let i = before.keys().index_of(key);
            before.lemma_index_of(i);
            assert(self.keys() =~= before.keys());
            assert(self.values() =~= before.values().update(i, value));
            assert forall|k: Seq<char>| self.keys().contains(k) implies #[trigger] self@[k]
                == before@.insert(key, value)[k] by {
                if k != key {
                    let j = before.keys().index_of(k);
                    assert(j != i);
                }
            }
            assert(self@ =~= before@.insert(key, value));
        } else {
            let n = before.keys().len() as int;
            assert forall|j: int| 0 <= j < n implies self.entries@[j] == before.entries@[j] by {
                assert(self.entries@.drop_last()[j] == before.entries@[j]);
            }
            assert(self.keys() =~= before.keys().push(key));
            assert(self.values() =~= before.values().push(value));
            self.lemma_index_of(n);
            assert forall|k: Seq<char>|
                self.keys().contains(k) == (before.keys().contains(k) || k == key) by {
                if before.keys().contains(k) {
                    let j = before.keys().index_of(k);
                    assert(self.keys()[j] == k);
                }
                if k == key {
                    assert(self.keys()[n] == k);
                }
            }
            assert forall|k: Seq<char>| before.keys().contains(k) implies #[trigger] self@[k]
                == before@[k] by {
                let j = before.keys().index_of(k);
                self.lemma_index_of(j);
            }
            assert(self@ =~= before@.insert(key, value));
        }
    }
}

} // verus!
