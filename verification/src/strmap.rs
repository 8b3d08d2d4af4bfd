//! A map from text to values that remembers the order in which keys arrived.

use vstd::prelude::*;
use crate::text::clone_texts;

verus! {

/// A map keyed by text. No key occurs twice, and entries stay in the order in
/// which their keys were first inserted.
#[derive(Debug)]
pub struct StrMap<V> {
    keys: Vec<String>,
    values: Vec<V>,
}

/// The characters of each text in `texts`.
pub open spec fn views_of(texts: Seq<String>) -> Seq<Seq<char>> {
    Seq::new(texts.len(), |i: int| texts[i]@)
}

/// The keys of a map after `key` was inserted: as before where the key was
/// there, with the key behind the others where it was not.
pub open spec fn placed_keys(keys: Seq<Seq<char>>, key: Seq<char>) -> Seq<Seq<char>> {
    if keys.contains(key) {
        keys
    } else {
        keys.push(key)
    }
}

/// The values of a map after `value` was inserted under `key`: in the place
/// of the key's value where the key was there, behind the others where it was
/// not.
pub open spec fn placed_values<V>(
    keys: Seq<Seq<char>>,
    values: Seq<V>,
    key: Seq<char>,
    value: V,
) -> Seq<V> {
    if keys.contains(key) {
        values.update(keys.index_of(key), value)
    } else {
        values.push(value)
    }
}

/// The values that `map` holds under `keys`, in the order of the keys.
pub open spec fn listed<V>(map: Map<Seq<char>, V>, keys: Seq<Seq<char>>) -> Seq<V> {
    Seq::new(keys.len(), |i: int| map[keys[i]])
}

/// What each value in `values` holds.
pub open spec fn value_views<V: View>(values: Seq<V>) -> Seq<V::V> {
    Seq::new(values.len(), |i: int| values[i]@)
}

/// What each value of `map` holds, under the same keys.
pub open spec fn view_map<V: View>(map: Map<Seq<char>, V>) -> Map<Seq<char>, V::V> {
    Map::new(|key: Seq<char>| map.contains_key(key), |key: Seq<char>| map[key]@)
}

impl<V> View for StrMap<V> {
    type V = Map<Seq<char>, V>;

    open spec fn view(&self) -> Map<Seq<char>, V> {
        Map::new(
            |k: Seq<char>| self.keys().contains(k),
            |k: Seq<char>| self.values()[self.keys().index_of(k)],
        )
    }
}

impl<V> StrMap<V> {
    /// The keys, oldest first.
    pub closed spec fn keys(&self) -> Seq<Seq<char>> {
        views_of(self.keys@)
    }

    /// The values, in the order of their keys.
    pub closed spec fn values(&self) -> Seq<V> {
        self.values@
    }

    /// One value for each key, and no key twice.
    #[verifier::type_invariant]
    pub open spec fn wf(self) -> bool {
        &&& self.keys().len() == self.values().len()
        &&& self.keys().no_duplicates()
    }

    /// What holds of every map: it is well formed, and each entry is found
    /// under its key.
    pub proof fn lemma_entries(&self)
        requires
            self.wf(),
        ensures
            forall|i: int|
                0 <= i < self.keys().len() ==> {
                    &&& #[trigger] self@.contains_key(self.keys()[i])
                    &&& self.keys().index_of(self.keys()[i]) == i
                    &&& self@[self.keys()[i]] == self.values()[i]
                },
            forall|k: Seq<char>| #[trigger] self@.contains_key(k) <==> self.keys().contains(k),
    {
        assert forall|i: int| 0 <= i < self.keys().len() implies {
            &&& #[trigger] self@.contains_key(self.keys()[i])
            &&& self.keys().index_of(self.keys()[i]) == i
            &&& self@[self.keys()[i]] == self.values()[i]
        } by {
            let k = self.keys()[i];
            assert(self.keys().contains(k));
            let j = self.keys().index_of(k);
            assert(self.keys()[j] == k);
        }
    }

    /// The values are what the map holds under the keys, in their order.
    pub proof fn lemma_listed(&self)
        requires
            self.wf(),
        ensures
            self.values() == listed(self@, self.keys()),
    {
        self.lemma_entries();
        assert(self.values() =~= listed(self@, self.keys()));
    }

    /// There are as many keys as entries.
    pub proof fn lemma_len(&self)
        requires
            self.wf(),
        ensures
            self@.dom().finite(),
            self@.dom().len() == self.keys().len(),
    {
        self.lemma_entries();
        assert(self@.dom() =~= self.keys().to_set());
        self.keys().unique_seq_to_set();
    }

    /// A key that differs from every key of the map has no entry.
    pub proof fn lemma_absent(&self, key: Seq<char>)
        requires
            forall|i: int| 0 <= i < self.keys().len() ==> self.keys()[i] != key,
        ensures
            !self@.contains_key(key),
            !self.keys().contains(key),
    {
    }

    /// An empty map.
    pub fn new() -> (m: Self)
        ensures
            m.keys() == Seq::<Seq<char>>::empty(),
            m.values() == Seq::<V>::empty(),
            m@ == Map::<Seq<char>, V>::empty(),
            m.wf(),
    {
        let m = StrMap { keys: Vec::new(), values: Vec::new() };
        assert(m.keys() =~= Seq::<Seq<char>>::empty());
        assert(m@ =~= Map::<Seq<char>, V>::empty());
        m
    }

    /// The number of entries.
    pub fn len(&self) -> (n: usize)
        ensures
            n == self.keys().len(),
            n == self.values().len(),
    {
        proof {
            use_type_invariant(self);
        }
        self.keys.len()
    }

    /// Whether the map holds nothing.
    pub fn is_empty(&self) -> (r: bool)
        ensures
            r == (self.keys().len() == 0),
    {
        self.keys.len() == 0
    }

    /// Where `key` stands among the keys.
    pub fn position(&self, key: &str) -> (r: Option<usize>)
        ensures
            self.wf(),
            match r {
                Some(i) => i < self.keys().len() && self.keys()[i as int] == key@
                    && self.keys().index_of(key@) == i && self@.contains_key(key@),
                None => !self.keys().contains(key@) && !self@.contains_key(key@),
            },
    {
        proof {
            use_type_invariant(self);
            self.lemma_entries();
        }
        let wanted = key.to_string();
        let mut i: usize = 0;
        while i < self.keys.len()
            invariant
                i <= self.keys.len(),
                wanted@ == key@,
                self.wf(),
                forall|j: int| 0 <= j < i ==> self.keys()[j] != key@,
            decreases self.keys.len() - i,
        {
            if self.keys[i] == wanted {
                proof {
                    assert(self.keys()[i as int] == key@);
                    self.lemma_entries();
                }
                return Some(i);
            }
            i += 1;
        }
        None
    }

    /// Whether `key` has an entry.
    pub fn contains_key(&self, key: &str) -> (r: bool)
        ensures
            r == self@.contains_key(key@),
    {
        self.position(key).is_some()
    }

    /// The value under `key`.
    pub fn get(&self, key: &str) -> (r: Option<&V>)
        ensures
            match r {
                Some(v) => self@.contains_key(key@) && *v == self@[key@],
                None => !self@.contains_key(key@),
            },
    {
        match self.position(key) {
            Some(i) => {
                proof {
                    use_type_invariant(self);
                }
                Some(&self.values[i])
            },
            None => None,
        }
    }

    /// The key of entry `i`.
    pub fn key_at(&self, i: usize) -> (k: &String)
        requires
            i < self.keys().len(),
        ensures
            k@ == self.keys()[i as int],
    {
        &self.keys[i]
    }

    /// The value of entry `i`.
    pub fn value_at(&self, i: usize) -> (v: &V)
        requires
            i < self.values().len(),
        ensures
            *v == self.values()[i as int],
    {
        &self.values[i]
    }

    fn with_entry(self, key: String, value: V) -> (m: Self)
        ensures
            m.wf(),
            m@ == self@.insert(key@, value),
            self@.contains_key(key@) ==> m.keys() == self.keys() && m.values()
                == self.values().update(self.keys().index_of(key@), value),
            !self@.contains_key(key@) ==> m.keys() == self.keys().push(key@) && m.values()
                == self.values().push(value),
            m.values().len() == if self@.contains_key(key@) {
                self.values().len()
            } else {
                self.values().len() + 1
            },
            m.keys() == placed_keys(self.keys(), key@),
            m.values() == placed_values(self.keys(), self.values(), key@, value),
    {
        proof {
            use_type_invariant(&self);
            self.lemma_entries();
        }
        let found = self.position(key.as_str());
        let ghost before = self;
        let StrMap { keys, values } = self;
        let mut keys = keys;
        let mut values = values;
        match found {
            Some(i) => {
                values.set(i, value);
            },
            None => {
                keys.push(key);
                values.push(value);
            },
        }
        proof {
            match found {
                Some(i) => {
                    assert(views_of(keys@) =~= before.keys());
                },
                None => {
                    assert(views_of(keys@) =~= before.keys().push(key@));
                    assert forall|a: int, b: int|
                        0 <= a < b < views_of(keys@).len() implies views_of(keys@)[a] != views_of(
                        keys@,
                    )[b] by {
                        if b == before.keys().len() {
                            assert(before.keys().contains(before.keys()[a]));
                        }
                    }
                },
            }
        }
        let m = StrMap { keys, values };
        proof {
            m.lemma_entries();
            assert forall|k: Seq<char>| m@.contains_key(k) <==> before@.insert(
                key@,
                value,
            ).contains_key(k) by {
                if before.keys().contains(k) {
                    let j = before.keys().index_of(k);
                    assert(m.keys()[j] == k);
                }
                if m.keys().contains(k) && k != key@ {
                    let j = m.keys().index_of(k);
                    assert(before.keys()[j] == k);
                }
                if k == key@ {
                    match found {
                        Some(i) => {
                            assert(m.keys()[i as int] == k);
                        },
                        None => {
                            assert(m.keys()[before.keys().len() as int] == k);
                        },
                    }
                }
            }
            assert forall|k: Seq<char>| m@.contains_key(k) implies m@[k] == before@.insert(
                key@,
                value,
            )[k] by {
                let j = m.keys().index_of(k);
                assert(m.keys()[j] == k);
                if k != key@ {
                    assert(before.keys()[j] == k);
                    assert(before.keys().index_of(k) == j);
                }
            }
            assert(m@ =~= before@.insert(key@, value));
        }
        m
    }

    /// Puts `value` under `key`: in place of the value that was there, or as
    /// the newest entry.
    pub fn insert(&mut self, key: String, value: V)
        ensures
            final(self).wf(),
            final(self)@ == old(self)@.insert(key@, value),
            old(self)@.contains_key(key@) ==> final(self).keys() == old(self).keys()
                && final(self).values() == old(self).values().update(
                old(self).keys().index_of(key@),
                value,
            ),
            !old(self)@.contains_key(key@) ==> final(self).keys() == old(self).keys().push(key@)
                && final(self).values() == old(self).values().push(value),
            final(self).values().len() == if old(self)@.contains_key(key@) {
                old(self).values().len()
            } else {
                old(self).values().len() + 1
            },
            final(self).keys() == placed_keys(old(self).keys(), key@),
            final(self).values() == placed_values(old(self).keys(), old(self).values(), key@, value),
    {
        let mut taken = StrMap::new();
        core::mem::swap(self, &mut taken);
        *self = taken.with_entry(key, value);
    }

    fn with_value_at(self, i: usize, value: V) -> (r: (Self, V))
        requires
            i < self.values().len(),
        ensures
            r.0.wf(),
            r.0.keys() == self.keys(),
            r.0.values() == self.values().update(i as int, value),
            r.0@ == self@.insert(self.keys()[i as int], value),
            r.1 == self.values()[i as int],
    {
        proof {
            use_type_invariant(&self);
            self.lemma_entries();
        }
        let ghost before = self;
        let StrMap { keys, values } = self;
        let mut values = values;
        values.push(value);
        let previous = values.swap_remove(i);
        assert(values@ =~= before.values().update(i as int, value));
        let m = StrMap { keys, values };
        proof {
            m.lemma_entries();
            let key = before.keys()[i as int];
            assert forall|k: Seq<char>| m@.contains_key(k) implies m@[k] == before@.insert(
                key,
                value,
            )[k] by {
                let j = m.keys().index_of(k);
                assert(m.keys()[j] == k);
            }
            assert(m@ =~= before@.insert(key, value));
        }
        (m, previous)
    }

    /// Puts `value` in place of the value of entry `i`, and hands back the
    /// value that was there.
    pub fn replace_at(&mut self, i: usize, value: V) -> (previous: V)
        requires
            i < old(self).values().len(),
        ensures
            final(self).wf(),
            final(self).keys() == old(self).keys(),
            final(self).values() == old(self).values().update(i as int, value),
            final(self)@ == old(self)@.insert(old(self).keys()[i as int], value),
            previous == old(self).values()[i as int],
    {
        let mut taken = StrMap::new();
        core::mem::swap(self, &mut taken);
        let (m, previous) = taken.with_value_at(i, value);
        *self = m;
        previous
    }
}

impl<V: View> StrMap<V> {
    /// What the values hold is what the map holds under the keys, in their
    /// order.
    pub proof fn lemma_listed_views(&self)
        requires
            self.wf(),
        ensures
            value_views(self.values()) == listed(view_map(self@), self.keys()),
    {
        self.lemma_entries();
        assert(value_views(self.values()) =~= listed(view_map(self@), self.keys()));
    }
}

impl<V: Clone> Clone for StrMap<V> {
    fn clone(&self) -> (m: Self)
        ensures
            m.wf(),
            m.keys() == self.keys(),
            m.values().len() == self.values().len(),
            forall|i: int|
                0 <= i < self.values().len() ==> cloned::<V>(
                    #[trigger] self.values()[i],
                    m.values()[i],
                ),
    {
        proof {
            use_type_invariant(self);
        }
        let keys = clone_texts(&self.keys);
        let mut values: Vec<V> = Vec::new();
        let mut i: usize = 0;
        while i < self.values.len()
            invariant
                i <= self.values.len(),
                values.len() == i,
                forall|j: int| 0 <= j < i ==> cloned::<V>(#[trigger] self.values@[j], values@[j]),
            decreases self.values.len() - i,
        {
            values.push(self.values[i].clone());
            i += 1;
        }
        assert(views_of(keys@) =~= self.keys());
        StrMap { keys, values }
    }
}

impl<V> StrMap<V> {
    /// Two maps with the same keys and the same values, in the same order,
    /// hold the same.
    pub proof fn lemma_same_entries(&self, other: &Self)
        requires
            self.keys() == other.keys(),
            self.values() == other.values(),
        ensures
            self@ == other@,
    {
        assert(self@ =~= other@);
    }
}

/// A copy of a map of numbers holds what the map holds.
pub fn clone_numbers(m: &StrMap<i64>) -> (r: StrMap<i64>)
    ensures
        r.wf(),
        r.keys() == m.keys(),
        r.values() == m.values(),
        r@ == m@,
{
    let r = m.clone();
    assert(r.values() =~= m.values());
    proof {
        r.lemma_same_entries(m);
    }
    r
}

/// A copy of a map of texts holds what the map holds.
pub fn clone_text_map(m: &StrMap<String>) -> (r: StrMap<String>)
    ensures
        r.wf(),
        r.keys() == m.keys(),
        r.values() == m.values(),
        r@ == m@,
{
    let r = m.clone();
    assert(r.values() =~= m.values());
    proof {
        r.lemma_same_entries(m);
    }
    r
}

} // verus!
