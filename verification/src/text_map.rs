//! A small map with text keys: a list of entries in which no key occurs twice.
use vstd::prelude::*;
use crate::text::text_eq;

verus! {

/// A map with text keys.
#[derive(Debug)]
pub struct TextMap<V> {
    entries: Vec<(String, V)>,
}

impl<V> View for TextMap<V> {
    type V = Map<Seq<char>, V>;

    closed spec fn view(&self) -> Map<Seq<char>, V> {
        Map::new(
            |k: Seq<char>| exists|i: int| 0 <= i < self.entries@.len() && #[trigger] self.entries@[i].0@ == k,
            |k: Seq<char>| self.entries@[choose|i: int| 0 <= i < self.entries@.len() && #[trigger] self.entries@[i].0@ == k].1,
        )
    }
}

impl<V> TextMap<V> {
    /// No key occurs twice.
    pub closed spec fn wf(&self) -> bool {
        forall|i: int, j: int| 0 <= i < j < self.entries@.len() ==> #[trigger] self.entries@[i].0@ != #[trigger] self.entries@[j].0@
    }

    /// The keys, in the order in which the entries are held.
    pub closed spec fn keys(&self) -> Seq<Seq<char>> {
        Seq::new(self.entries@.len(), |i: int| self.entries@[i].0@)
    }

    /// The list of keys has each key of the map once.
    pub proof fn keys_are_domain(&self)
        requires
            self.wf(),
        ensures
            forall|k: Seq<char>| #![auto] self@.dom().contains(k) <==> self.keys().contains(k),
            forall|i: int| 0 <= i < self.keys().len() ==> self@.dom().contains(#[trigger] self.keys()[i]),
            self.keys().no_duplicates(),
    {
        assert forall|k: Seq<char>| #![auto] self@.dom().contains(k) <==> self.keys().contains(k) by {
            if self@.dom().contains(k) {
                let i = choose|i: int| 0 <= i < self.entries@.len() && #[trigger] self.entries@[i].0@ == k;
                assert(self.keys()[i] == k);
            }
            if self.keys().contains(k) {
                let i = choose|i: int| 0 <= i < self.keys().len() && self.keys()[i] == k;
                assert(self.entries@[i].0@ == k);
            }
        }
        assert forall|i: int| 0 <= i < self.keys().len() implies self@.dom().contains(#[trigger] self.keys()[i]) by {
            assert(self.entries@[i].0@ == self.keys()[i]);
        }
    }

    /// What the map holds under the key of an entry is the entry's value.
    proof fn value_at_entry(&self, i: int)
        requires
            self.wf(),
            0 <= i < self.entries@.len(),
        ensures
            self@.dom().contains(self.entries@[i].0@),
            self@[self.entries@[i].0@] == self.entries@[i].1,
    {
        let k = self.entries@[i].0@;
        let c = choose|c: int| 0 <= c < self.entries@.len() && #[trigger] self.entries@[c].0@ == k;
        assert(self.entries@[i].0@ == k);
        assert(c == i);
    }

    /// The empty map.
    pub fn new() -> (r: Self)
        ensures
            r.wf(),
            r@ == Map::<Seq<char>, V>::empty(),
            r.keys() == Seq::<Seq<char>>::empty(),
    {
        let r = TextMap { entries: Vec::new() };
        assert(r@ =~= Map::empty());
        assert(r.keys() =~= Seq::empty());
        r
    }

    /// The number of entries.
    pub fn len(&self) -> (n: usize)
        ensures
            n == self.keys().len(),
    {
        self.entries.len()
    }

    /// The key of the entry at place `i`.
    pub fn key_at(&self, i: usize) -> (k: &String)
        requires
            i < self.keys().len(),
        ensures
            k@ == self.keys()[i as int],
    {
        &self.entries[i].0
    }

    /// The value of the entry at place `i`.
    pub fn value_at(&self, i: usize) -> (v: &V)
        requires
            self.wf(),
            i < self.keys().len(),
        ensures
            self@.dom().contains(self.keys()[i as int]),
            *v == self@[self.keys()[i as int]],
    {
        proof {
            self.value_at_entry(i as int);
        }
        &self.entries[i].1
    }

    /// The place of the entry with the key, if there is one.
    pub fn find(&self, key: &str) -> (r: Option<usize>)
        requires
            self.wf(),
        ensures
            match r {
                Some(i) => i < self.keys().len() && self.keys()[i as int] == key@ && self@.dom().contains(key@),
                None => !self@.dom().contains(key@),
            },
    {
        let mut i: usize = 0;
        while i < self.entries.len()
            invariant
                i <= self.entries@.len(),
                forall|j: int| 0 <= j < i ==> #[trigger] self.entries@[j].0@ != key@,
            decreases self.entries@.len() - i,
        {
            if text_eq(&self.entries[i].0, key) {
                assert(self.entries@[i as int].0@ == key@);
                return Some(i);
            }
            i += 1;
        }
        None
    }

    /// What the map holds under a key.
    pub fn get(&self, key: &str) -> (r: Option<&V>)
        requires
            self.wf(),
        ensures
            match r {
                Some(v) => self@.dom().contains(key@) && *v == self@[key@],
                None => !self@.dom().contains(key@),
            },
    {
        match self.find(key) {
            Some(i) => Some(self.value_at(i)),
            None => None,
        }
    }

    /// Sets what the map holds under a key.
    pub fn insert(&mut self, key: &str, value: V)
        requires
            old(self).wf(),
        ensures
            final(self).wf(),
            final(self)@ == old(self)@.insert(key@, value),
    {
        match self.find(key) {
            Some(i) => {
                self.entries[i] = (key.to_owned(), value);
                proof {
                    let old_map = old(self);
                    assert forall|a: int| 0 <= a < self.entries@.len() implies #[trigger] self.entries@[a].0@ == old_map.entries@[a].0@ by {
                        if a == i {
                            assert(old_map.keys()[a] == key@);
                        }
                    }
                    assert(self.wf());
                    self.same_as_insert(*old_map, key@, value, i as int);
                }
            },
            None => {
                self.entries.push((key.to_owned(), value));
                proof {
                    let old_map = old(self);
                    let n = old_map.entries@.len() as int;
                    assert forall|a: int| 0 <= a < n implies #[trigger] self.entries@[a].0@ != key@ by {
                        assert(self.entries@[a] == old_map.entries@[a]);
                        assert(old_map.entries@[a].0@ != key@);
                    }
                    assert(self.wf());
                    self.same_as_insert(*old_map, key@, value, n);
                }
            },
        }
    }

    /// A map that differs from another in the one entry at `at` is the other
    /// with that entry inserted.
    proof fn same_as_insert(&self, before: TextMap<V>, key: Seq<char>, value: V, at: int)
        requires
            self.wf(),
            before.wf(),
            0 <= at < self.entries@.len(),
            self.entries@.len() == before.entries@.len() || (at == before.entries@.len() && self.entries@.len() == at + 1),
            self.entries@[at].0@ == key,
            self.entries@[at].1 == value,
            forall|a: int| 0 <= a < before.entries@.len() && a != at ==> #[trigger] self.entries@[a] == before.entries@[a],
            at < before.entries@.len() ==> before.entries@[at].0@ == key,
        ensures
            self@ == before@.insert(key, value),
    {
        let m = before@.insert(key, value);
        assert forall|k: Seq<char>| #[trigger] self@.dom().contains(k) <==> m.dom().contains(k) by {
            if self@.dom().contains(k) && k != key {
                let i = choose|i: int| 0 <= i < self.entries@.len() && #[trigger] self.entries@[i].0@ == k;
                assert(self.entries@[i] == before.entries@[i]);
                assert(before.entries@[i].0@ == k);
            }
            if before@.dom().contains(k) {
                let i = choose|i: int| 0 <= i < before.entries@.len() && #[trigger] before.entries@[i].0@ == k;
                if i != at {
                    assert(self.entries@[i] == before.entries@[i]);
                }
                assert(self.entries@[i].0@ == k);
            }
            if k == key {
                assert(self.entries@[at].0@ == k);
            }
        }
        assert forall|k: Seq<char>| self@.dom().contains(k) implies #[trigger] self@[k] == m[k] by {
            let i = choose|i: int| 0 <= i < self.entries@.len() && #[trigger] self.entries@[i].0@ == k;
            self.value_at_entry(i);
            if k != key {
                assert(self.entries@[i] == before.entries@[i]);
                before.value_at_entry(i);
            } else {
                self.value_at_entry(at);
            }
        }
        assert(self@ =~= m);
    }

    /// Drops the entry at place `i`.
    pub fn remove_at(&mut self, i: usize)
        requires
            old(self).wf(),
            i < old(self).keys().len(),
        ensures
            final(self).wf(),
            final(self).keys() == old(self).keys().remove(i as int),
            final(self)@ == old(self)@.remove(old(self).keys()[i as int]),
    {
        let _gone = self.entries.remove(i);
        proof {
            let before = old(self);
            let key = before.entries@[i as int].0@;
            let m = before@.remove(key);
            assert(self.keys() =~= before.keys().remove(i as int));
            assert forall|a: int, b: int| 0 <= a < b < self.entries@.len() implies #[trigger] self.entries@[a].0@ != #[trigger] self.entries@[b].0@ by {
                let a2 = if a < i { a } else { a + 1 };
                let b2 = if b < i { b } else { b + 1 };
                assert(self.entries@[a] == before.entries@[a2]);
                assert(self.entries@[b] == before.entries@[b2]);
            }
            assert forall|k: Seq<char>| #[trigger] self@.dom().contains(k) <==> m.dom().contains(k) by {
                if self@.dom().contains(k) {
                    let a = choose|a: int| 0 <= a < self.entries@.len() && #[trigger] self.entries@[a].0@ == k;
                    let a2 = if a < i { a } else { a + 1 };
                    assert(self.entries@[a] == before.entries@[a2]);
                    assert(before.entries@[a2].0@ == k);
                    assert(before.entries@[i as int].0@ != before.entries@[a2].0@);
                }
                if m.dom().contains(k) {
                    let a = choose|a: int| 0 <= a < before.entries@.len() && #[trigger] before.entries@[a].0@ == k;
                    assert(a != i);
                    let a2 = if a < i { a } else { a - 1 };
                    assert(self.entries@[a2] == before.entries@[a]);
                    assert(self.entries@[a2].0@ == k);
                }
            }
            assert forall|k: Seq<char>| self@.dom().contains(k) implies #[trigger] self@[k] == m[k] by {
                let a = choose|a: int| 0 <= a < self.entries@.len() && #[trigger] self.entries@[a].0@ == k;
                let a2 = if a < i { a } else { a + 1 };
                assert(self.entries@[a] == before.entries@[a2]);
                self.value_at_entry(a);
                before.value_at_entry(a2);
            }
            assert(self@ =~= m);
        }
    }
}

} // verus!
