//! A small table from text keys to values, in which a key occurs once.

use vstd::prelude::*;

use crate::text::str_eq;

verus! {

/// A finite map from text keys to values of `V`, kept as a list in the
/// order in which the keys came.
pub struct Table<V> {
    items: Vec<(String, V)>,
}

impl<V> Table<V> {
    #[verifier::type_invariant]
    closed spec fn distinct(self) -> bool {
        forall|i: int, j: int|
            0 <= i < j < self.items@.len() ==> (#[trigger] self.items@[i]).0@ != (
            #[trigger] self.items@[j]).0@
    }

    /// Whether the entry at `i` has the key `key`.
    closed spec fn at(self, i: int, key: Seq<char>) -> bool {
        0 <= i < self.items@.len() && self.items@[i].0@ == key
    }

    /// The map that the table stands for.
    pub closed spec fn map(self) -> Map<Seq<char>, V> {
        Map::new(
            |key: Seq<char>| exists|i: int| self.at(i, key),
            |key: Seq<char>| self.items@[choose|i: int| self.at(i, key)].1,
        )
    }

    /// The number of entries.
    pub closed spec fn count(self) -> nat {
        self.items@.len()
    }

    /// The key of the entry at `i`, entries counted in the order in which
    /// their keys came.
    pub closed spec fn key_at(self, i: int) -> Seq<char> {
        self.items@[i].0@
    }

    /// The empty table.
    pub fn new() -> (table: Table<V>)
        ensures
            table.map() == Map::<Seq<char>, V>::empty(),
            table.count() == 0,
    {
        let table = Table { items: Vec::new() };
        assert(table.map() =~= Map::<Seq<char>, V>::empty());
        table
    }

    fn position(&self, key: &str) -> (found: Option<usize>)
        ensures
            match found {
                Some(i) => self.at(i as int, key@),
                None => forall|i: int| !self.at(i, key@),
            },
    {
        let mut i: usize = 0;
        while i < self.items.len()
            invariant
                i <= self.items@.len(),
                forall|j: int| 0 <= j < i ==> !self.at(j, key@),
            decreases self.items@.len() - i,
        {
            if str_eq(self.items[i].0.as_str(), key) {
                return Some(i);
            }
            i += 1;
        }
        None
    }

    /// The value under `key`, if there is one.
    pub fn get(&self, key: &str) -> (value: Option<&V>)
        ensures
            match value {
                Some(v) => self.map().contains_key(key@) && self.map()[key@] == *v,
                None => !self.map().contains_key(key@),
            },
    {
        proof {
            use_type_invariant(self);
        }
        match self.position(key) {
            Some(i) => {
                assert(self.at(i as int, key@));
                let ghost chosen = choose|j: int| self.at(j, key@);
                assert(chosen == i);
                Some(&self.items[i].1)
            },
            None => None,
        }
    }

    /// What the map holds for the key of the entry at `i`.
    proof fn lemma_entry(self, i: int)
        requires
            self.distinct(),
            0 <= i < self.items@.len(),
        ensures
            self.map().contains_key(self.items@[i].0@),
            self.map()[self.items@[i].0@] == self.items@[i].1,
    {
        let key = self.items@[i].0@;
        assert(self.at(i, key));
        let chosen = choose|j: int| self.at(j, key);
        assert(self.at(chosen, key));
        assert(chosen == i);
    }

    /// A key of the map is the key of some entry.
    proof fn lemma_key(self, key: Seq<char>) -> (i: int)
        requires
            self.map().contains_key(key),
        ensures
            self.at(i, key),
    {
        choose|j: int| self.at(j, key)
    }

    /// Puts `value` under `key`, in place of what was there. A key that
    /// was there keeps its place, as every other key does; a new key comes
    /// last.
    pub fn insert(&mut self, key: String, value: V)
        ensures
            final(self).map() == old(self).map().insert(key@, value),
            old(self).map().contains_key(key@) ==> final(self).count() == old(self).count(),
            !old(self).map().contains_key(key@) ==> final(self).count() == old(self).count() + 1
                && final(self).key_at(old(self).count() as int) == key@,
            forall|i: int|
                0 <= i < old(self).count() ==> #[trigger] final(self).key_at(i) == old(self).key_at(
                    i,
                ),
    {
        proof {
            use_type_invariant(&*self);
        }
        let ghost before = *self;
        let ghost target = before.map().insert(key@, value);
        let found = self.position(key.as_str());
        let mut items: Vec<(String, V)> = Vec::new();
        core::mem::swap(&mut self.items, &mut items);
        match found {
            Some(i) => {
                items.set(i, (key, value));
            },
            None => {
                items.push((key, value));
            },
        }
        let ghost place = match found {
            Some(i) => i as int,
            None => before.items@.len() as int,
        };
        proof {
            assert(items@[place].0@ == key@);
            assert forall|a: int| 0 <= a < items@.len() && a != place implies items@[a]
                == before.items@[a] && !before.at(a, key@) by {
                if found is Some {
                    assert(before.at(place, key@));
                }
            }
            assert forall|a: int, b: int| 0 <= a < b < items@.len() implies (#[trigger] items@[a]).0@
                != (#[trigger] items@[b]).0@ by {
                if a != place && b != place {
                    assert(before.at(a, items@[a].0@));
                    assert(before.at(b, items@[b].0@));
                }
            }
        }
        self.items = items;
        proof {
            assert forall|k: Seq<char>| target.contains_key(k) implies #[trigger]
                self.map().contains_key(k) && self.map()[k] == target[k] by {
                if k == key@ {
                    self.lemma_entry(place);
                } else {
                    let then = before.lemma_key(k);
                    before.lemma_entry(then);
                    assert(then != place);
                    self.lemma_entry(then);
                }
            }
            assert forall|k: Seq<char>| #[trigger] self.map().contains_key(k) implies
                target.contains_key(k) by {
                let now = self.lemma_key(k);
                if now != place {
                    before.lemma_entry(now);
                }
            }
            assert(self.map() =~= target);
            assert forall|i: int| 0 <= i < before.count() implies #[trigger] self.key_at(i)
                == before.key_at(i) by {
                if i != place {
                    assert(self.items@[i] == before.items@[i]);
                } else {
                    assert(before.at(place, key@));
                }
            }
            if found is Some {
                before.lemma_entry(place);
            } else {
                if before.map().contains_key(key@) {
                    let then = before.lemma_key(key@);
                    assert(false);
                }
            }
        }
    }

    /// The number of entries. The keys of the entries are the keys of the
    /// map, each at one place.
    pub fn len(&self) -> (n: usize)
        ensures
            n == self.count(),
            forall|i: int| 0 <= i < self.count() ==> self.map().contains_key(#[trigger] self.key_at(i)),
            forall|i: int, j: int|
                0 <= i < j < self.count() ==> #[trigger] self.key_at(i) != #[trigger] self.key_at(j),
            forall|key: Seq<char>| #[trigger]
                self.map().contains_key(key) ==> exists|i: int|
                    0 <= i < self.count() && #[trigger] self.key_at(i) == key,
    {
        proof {
            use_type_invariant(self);
            assert forall|i: int| 0 <= i < self.count() implies self.map().contains_key(
                #[trigger] self.key_at(i),
            ) by {
                self.lemma_entry(i);
            }
            assert forall|key: Seq<char>| #[trigger] self.map().contains_key(key) implies exists|
                i: int,
            |
                0 <= i < self.count() && #[trigger] self.key_at(i) == key by {
                let i = self.lemma_key(key);
                assert(self.key_at(i) == key);
            }
        }
        self.items.len()
    }

    /// The entry at `i`, entries counted in the order in which their keys
    /// came: its key, which stands at no other place, and the value that
    /// the map holds for it.
    pub fn entry(&self, i: usize) -> (e: (&String, &V))
        requires
            i < self.count(),
        ensures
            e.0@ == self.key_at(i as int),
            self.map().contains_key(e.0@),
            self.map()[e.0@] == *e.1,
            forall|j: int| 0 <= j < self.count() && j != i ==> #[trigger] self.key_at(j) != e.0@,
    {
        proof {
            use_type_invariant(self);
            self.lemma_entry(i as int);
        }
        (&self.items[i].0, &self.items[i].1)
    }
}

} // verus!
