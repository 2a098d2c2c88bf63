//! A small map with strings as its keys, which remembers the order of insertion.

use vstd::prelude::*;

verus! {

/// A map from strings to values. Walking it visits the entries in the order in which their keys
/// were first inserted.
#[derive(Debug)]
pub struct StringMap<V> {
    entries: Vec<(String, V)>,
}

impl<V> View for StringMap<V> {
    type V = Map<Seq<char>, V>;

    open spec fn view(&self) -> Map<Seq<char>, V> {
        Map::new(
            |k: Seq<char>| exists|i: int| self.is_at(i, k),
            |k: Seq<char>| self.entry_seq()[choose|i: int| self.is_at(i, k)].1,
        )
    }
}

impl<V> StringMap<V> {
    /// The entries in order.
    pub closed spec fn entry_seq(&self) -> Seq<(Seq<char>, V)> {
        self.entries@.map_values(|e: (String, V)| (e.0@, e.1))
    }

    /// Whether the `i`th entry has the key `k`.
    pub open spec fn is_at(&self, i: int, k: Seq<char>) -> bool {
        0 <= i < self.entry_seq().len() && self.entry_seq()[i].0 == k
    }

    /// No key occurs twice. This holds of every map that there is at run time.
    #[verifier::type_invariant]
    pub open spec fn has_distinct_keys(&self) -> bool {
        forall|i: int, j: int|
            0 <= i < self.entry_seq().len() && 0 <= j < self.entry_seq().len() && i != j
                ==> #[trigger] self.entry_seq()[i].0 != #[trigger] self.entry_seq()[j].0
    }

    /// The value of an entry is the one that belongs to its key.
    pub proof fn lemma_at(&self, i: int)
        requires
            self.has_distinct_keys(),
            0 <= i < self.entry_seq().len(),
        ensures
            self@.contains_key(self.entry_seq()[i].0),
            self@[self.entry_seq()[i].0] == self.entry_seq()[i].1,
    {
        let k = self.entry_seq()[i].0;
        assert(self.is_at(i, k));
        let c = choose|c: int| self.is_at(c, k);
        assert(self.entry_seq()[c].0 == self.entry_seq()[i].0);
    }

    /// An empty map.
    pub fn new() -> (r: Self)
        ensures
            r.entry_seq() == Seq::<(Seq<char>, V)>::empty(),
            r@ == Map::<Seq<char>, V>::empty(),
    {
        let r = StringMap { entries: Vec::new() };
        assert(r.entry_seq() =~= Seq::<(Seq<char>, V)>::empty());
        assert(r@ =~= Map::<Seq<char>, V>::empty());
        r
    }

    /// The number of entries.
    pub fn len(&self) -> (r: usize)
        ensures
            r == self.entry_seq().len(),
    {
        self.entries.len()
    }

    /// The `i`th entry.
    pub fn entry(&self, i: usize) -> (r: (&String, &V))
        requires
            i < self.entry_seq().len(),
        ensures
            (r.0@, *r.1) == self.entry_seq()[i as int],
    {
        let e = &self.entries[i];
        (&e.0, &e.1)
    }

    fn find(&self, key: &String) -> (r: Option<usize>)
        ensures
            match r {
                Some(i) => i < self.entries@.len() && self.entries@[i as int].0@ == key@,
                None => forall|i: int|
                    0 <= i < self.entries@.len() ==> #[trigger] self.entries@[i].0@ != key@,
            },
    {
        let mut i: usize = 0;
        while i < self.entries.len()
            invariant
                i <= self.entries@.len(),
                forall|j: int| 0 <= j < i ==> #[trigger] self.entries@[j].0@ != key@,
            decreases self.entries@.len() - i,
        {
            if self.entries[i].0 == *key {
                return Some(i);
            }
            i = i + 1;
        }
        None
    }

    /// The value that belongs to `key`.
    pub fn get(&self, key: &String) -> (r: Option<&V>)
        ensures
            match r {
                Some(v) => self@.contains_key(key@) && *v == self@[key@],
                None => !self@.contains_key(key@),
            },
    {
        proof {
            use_type_invariant(self);
        }
        match self.find(key) {
            Some(i) => {
                proof {
                    self.lemma_at(i as int);
                }
                Some(&self.entries[i].1)
            },
            None => {
                proof {
                    assert forall|i: int| !self.is_at(i, key@) by {
                        if 0 <= i < self.entry_seq().len() {
                            assert(self.entries@[i].0@ != key@);
                        }
                    }
                }
                None
            },
        }
    }

    /// Makes `value` belong to `key`. A key that is already there keeps its place.
    pub fn insert(&mut self, key: String, value: V)
        ensures
            final(self)@ == old(self)@.insert(key@, value),
            old(self)@.contains_key(key@) ==> exists|i: int|
                #[trigger] old(self).is_at(i, key@) && final(self).entry_seq() == old(
                    self,
                ).entry_seq().update(i, (key@, value)),
            !old(self)@.contains_key(key@) ==> final(self).entry_seq()
                == old(self).entry_seq().push((key@, value)),
    {
        proof {
            use_type_invariant(&*self);
        }
        let ghost before = *self;
        let ghost k = key@;
        let found = self.find(&key);
        let mut entries = Vec::new();
        std::mem::swap(&mut entries, &mut self.entries);
        match found {
            Some(i) => {
                entries.set(i, (key, value));
                assert(before.is_at(i as int, k));
            },
            None => {
                entries.push((key, value));
                assert forall|i: int| !before.is_at(i, k) by {
                    if 0 <= i < before.entry_seq().len() {
                        assert(before.entries@[i].0@ != k);
                    }
                }
            },
        }
        assert forall|i: int, j: int|
            0 <= i < entries@.len() && 0 <= j < entries@.len() && i
                != j implies #[trigger] entries@[i].0@ != #[trigger] entries@[j].0@ by {
            if i < before.entry_seq().len() {
                assert(before.entry_seq()[i].0 == before.entries@[i].0@);
            }
            if j < before.entry_seq().len() {
                assert(before.entry_seq()[j].0 == before.entries@[j].0@);
            }
        }
        self.entries = entries;
        proof {
            let after = *self;
            let p: int = match found {
                Some(i) => i as int,
                None => before.entries@.len() as int,
            };
            assert(after.entry_seq()[p] == (k, value));
            assert forall|j: int|
                0 <= j < before.entries@.len() && j != p implies #[trigger] after.entry_seq()[j]
                == before.entry_seq()[j] by {}
            after.lemma_at(p);
            assert forall|x: Seq<char>|
                before@.insert(k, value).contains_key(x) implies #[trigger] after@.contains_key(x)
                && after@[x] == before@.insert(k, value)[x] by {
                if x != k {
                    let j = choose|j: int| before.is_at(j, x);
                    assert(before.is_at(j, x));
                    before.lemma_at(j);
                    assert(after.entry_seq()[j] == before.entry_seq()[j]);
                    after.lemma_at(j);
                }
            }
            assert forall|x: Seq<char>| #[trigger] after@.contains_key(x) implies before@.insert(
                k,
                value,
            ).contains_key(x) by {
                if x != k {
                    let j = choose|j: int| after.is_at(j, x);
                    assert(after.is_at(j, x));
                    assert(after.entry_seq()[j] == before.entry_seq()[j]);
                    assert(before.is_at(j, x));
                }
            }
            assert(after@ =~= before@.insert(k, value));
            assert(found is Some ==> after.entry_seq() =~= before.entry_seq().update(p, (k, value)));
            assert(found is None ==> after.entry_seq() =~= before.entry_seq().push((k, value)));
        }
    }
}

impl<V> Default for StringMap<V> {
    fn default() -> (r: Self)
        ensures
            r.entry_seq() == Seq::<(Seq<char>, V)>::empty(),
            r@ == Map::<Seq<char>, V>::empty(),
    {
        StringMap::new()
    }
}

impl<V: Clone> Clone for StringMap<V> {
    fn clone(&self) -> (r: Self)
        ensures
            r.entry_seq().len() == self.entry_seq().len(),
            forall|i: int|
                0 <= i < self.entry_seq().len() ==> (#[trigger] r.entry_seq()[i]).0
                    == self.entry_seq()[i].0 && cloned(self.entry_seq()[i].1, r.entry_seq()[i].1),
    {
        proof {
            use_type_invariant(self);
        }
        let mut entries: Vec<(String, V)> = Vec::new();
        let mut i: usize = 0;
        while i < self.entries.len()
            invariant
                i <= self.entries@.len(),
                entries@.len() == i,
                forall|j: int|
                    0 <= j < i ==> (#[trigger] entries@[j]).0@ == self.entries@[j].0@ && cloned(
                        self.entries@[j].1,
                        entries@[j].1,
                    ),
            decreases self.entries@.len() - i,
        {
            let e = &self.entries[i];
            entries.push((e.0.clone(), e.1.clone()));
            i = i + 1;
        }
        assert forall|i: int, j: int|
            0 <= i < entries@.len() && 0 <= j < entries@.len() && i
                != j implies #[trigger] entries@[i].0@ != #[trigger] entries@[j].0@ by {
            assert(self.entry_seq()[i].0 == self.entries@[i].0@);
            assert(self.entry_seq()[j].0 == self.entries@[j].0@);
        }
        StringMap { entries }
    }
}

} // verus!
