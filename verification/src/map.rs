//! An insertion-ordered map from module specifiers to values.
//!
//! Bundles, source sets and the built-in registry are all small maps keyed by
//! specifier text. This one keeps its entries in the order in which their keys
//! were first inserted, so that walking it is repeatable, and never holds a key
//! twice.

use vstd::prelude::*;

verus! {

struct Entry<V> {
    key: String,
    value: V,
}

/// A finite map keyed by specifier text, viewed as a `Map<Seq<char>, V>`.
pub struct SpecifierMap<V> {
    entries: Vec<Entry<V>>,
}

/// A map of byte vectors as a map of byte sequences.
pub open spec fn byte_views(m: Map<Seq<char>, Vec<u8>>) -> Map<Seq<char>, Seq<u8>> {
    Map::new(|k: Seq<char>| m.contains_key(k), |k: Seq<char>| m[k]@)
}

/// A map of strings as a map of character sequences.
pub open spec fn text_views(m: Map<Seq<char>, String>) -> Map<Seq<char>, Seq<char>> {
    Map::new(|k: Seq<char>| m.contains_key(k), |k: Seq<char>| m[k]@)
}

/// In a sequence without duplicates an element is found at its own position.
pub proof fn lemma_index_of_unique<A>(s: Seq<A>, i: int)
    requires
        s.no_duplicates(),
        0 <= i < s.len(),
    ensures
        s.index_of(s[i]) == i,
{
    let j = s.index_of(s[i]);
    assert(0 <= j < s.len() && s[j] == s[i]);
}

impl<V> SpecifierMap<V> {
    /// The keys, in the order of their first insertion.
    pub closed spec fn keys(&self) -> Seq<Seq<char>> {
        Seq::new(self.entries@.len(), |i: int| self.entries@[i].key@)
    }

    /// The values, each at the position of its key in `keys`.
    pub closed spec fn values(&self) -> Seq<V> {
        Seq::new(self.entries@.len(), |i: int| self.entries@[i].value)
    }

    /// No key occurs twice.
    pub open spec fn wf(&self) -> bool {
        &&& self.keys().no_duplicates()
        &&& self.values().len() == self.keys().len()
    }

    /// The set of keys.
    pub open spec fn dom(&self) -> Set<Seq<char>> {
        Set::new(|k: Seq<char>| self.keys().contains(k))
    }

    /// The map from each key to its value.
    pub open spec fn view(&self) -> Map<Seq<char>, V> {
        Map::new(
            |k: Seq<char>| self.keys().contains(k),
            |k: Seq<char>| self.values()[self.keys().index_of(k)],
        )
    }

    /// The map of the first `n` entries.
    pub open spec fn prefix(&self, n: int) -> Map<Seq<char>, V>
        decreases n,
    {
        if n <= 0 {
            Map::empty()
        } else {
            self.prefix(n - 1).insert(self.keys()[n - 1], self.values()[n - 1])
        }
    }

    /// The first `n` entries make up the map that sends each of the first `n`
    /// keys to the value at its position.
    pub proof fn lemma_prefix(&self, n: int)
        requires
            self.wf(),
            0 <= n <= self.keys().len(),
        ensures
            forall|k: Seq<char>| #[trigger]
                self.prefix(n).contains_key(k) <==> exists|i: int|
                    0 <= i < n && self.keys()[i] == k,
            forall|i: int| 0 <= i < n ==> self.prefix(n)[#[trigger] self.keys()[i]] == self.values()[i],
        decreases n,
    {
        if n > 0 {
            self.lemma_prefix(n - 1);
            assert forall|k: Seq<char>| #[trigger]
                self.prefix(n).contains_key(k) <==> exists|i: int|
                    0 <= i < n && self.keys()[i] == k by {
                if self.prefix(n).contains_key(k) {
                    if k == self.keys()[n - 1] {
                    } else {
                        assert(self.prefix(n - 1).contains_key(k));
                        let i = choose|i: int| 0 <= i < n - 1 && self.keys()[i] == k;
                        assert(0 <= i < n && self.keys()[i] == k);
                    }
                }
                if exists|i: int| 0 <= i < n && self.keys()[i] == k {
                    let i = choose|i: int| 0 <= i < n && self.keys()[i] == k;
                    if i < n - 1 {
                        assert(self.prefix(n - 1).contains_key(k));
                    }
                }
            }
            assert forall|i: int| 0 <= i < n implies self.prefix(n)[#[trigger] self.keys()[i]]
                == self.values()[i] by {
                if i < n - 1 {
                    assert(self.keys()[i] != self.keys()[n - 1]);
                }
            }
        }
    }

    /// All the entries make up the map.
    pub proof fn lemma_prefix_is_view(&self)
        requires
            self.wf(),
        ensures
            self.prefix(self.keys().len() as int) == self@,
    {
        let n = self.keys().len() as int;
        self.lemma_prefix(n);
        assert forall|k: Seq<char>| self.prefix(n).contains_key(k) <==> self@.contains_key(k) by {
            if self@.contains_key(k) {
                let i = self.keys().index_of(k);
                assert(0 <= i < n && self.keys()[i] == k);
            }
        }
        assert forall|k: Seq<char>| self@.contains_key(k) implies self.prefix(n)[k] == self@[k] by {
            let i = self.keys().index_of(k);
            assert(self.keys()[i] == k);
        }
        assert(self.prefix(n) =~= self@);
    }

    /// An empty map.
    pub fn new() -> (m: Self)
        ensures
            m.wf(),
            m.keys() == Seq::<Seq<char>>::empty(),
            m@ == Map::<Seq<char>, V>::empty(),
    {
        let m = SpecifierMap { entries: Vec::new() };
        assert(m.keys() =~= Seq::<Seq<char>>::empty());
        assert(m@ =~= Map::<Seq<char>, V>::empty());
        m
    }

    /// The number of entries.
    pub fn len(&self) -> (n: usize)
        ensures
            n == self.keys().len(),
    {
        self.entries.len()
    }

    /// The position of `key` among the keys.
    pub fn position(&self, key: &str) -> (r: Option<usize>)
        requires
            self.wf(),
        ensures
            match r {
                Some(i) => i < self.keys().len() && self.keys()[i as int] == key@
                    && self.keys().index_of(key@) == i,
                None => !self.keys().contains(key@),
            },
    {
        let needle = key.to_owned();
        let mut i: usize = 0;
        while i < self.entries.len()
            invariant
                i <= self.entries.len(),
                needle@ == key@,
                self.wf(),
                forall|j: int| 0 <= j < i ==> self.keys()[j] != key@,
            decreases self.entries.len() - i,
        {
            if self.entries[i].key == needle {
                proof {
                    assert(self.keys()[i as int] == key@);
                    lemma_index_of_unique(self.keys(), i as int);
                }
                return Some(i);
            }
            i += 1;
        }
        None
    }

    /// Whether `key` has an entry.
    pub fn contains_key(&self, key: &str) -> (b: bool)
        requires
            self.wf(),
        ensures
            b == self@.contains_key(key@),
    {
        self.position(key).is_some()
    }

    /// The value stored under `key`.
    pub fn get(&self, key: &str) -> (r: Option<&V>)
        requires
            self.wf(),
        ensures
            match r {
                Some(v) => self@.contains_key(key@) && *v == self@[key@],
                None => !self@.contains_key(key@),
            },
    {
        match self.position(key) {
            Some(i) => Some(&self.entries[i].value),
            None => None,
        }
    }

    /// The key at position `i`.
    pub fn key_at(&self, i: usize) -> (k: &str)
        requires
            i < self.keys().len(),
        ensures
            k@ == self.keys()[i as int],
    {
        self.entries[i].key.as_str()
    }

    /// The value at position `i`.
    pub fn value_at(&self, i: usize) -> (v: &V)
        requires
            i < self.keys().len(),
        ensures
            *v == self.values()[i as int],
    {
        &self.entries[i].value
    }

    /// Stores `value` under `key`. A key that is new goes to the end; one that
    /// is there keeps its place and has its value replaced.
    pub fn insert(&mut self, key: String, value: V)
        requires
            old(self).wf(),
        ensures
            final(self).wf(),
            final(self)@ == old(self)@.insert(key@, value),
            old(self)@.contains_key(key@) ==> final(self).keys() == old(self).keys(),
            !old(self)@.contains_key(key@) ==> final(self).keys() == old(self).keys().push(key@),
            !old(self)@.contains_key(key@) ==> final(self).values() == old(self).values().push(
                value,
            ),
    {
        let ghost before = *self;
        match self.position(key.as_str()) {
            Some(i) => {
                self.entries.set(i, Entry { key, value });
                proof {
                    assert(self.keys() =~= before.keys());
                    assert(self.values() =~= before.values().update(i as int, value));
                    assert forall|k: Seq<char>| before.keys().contains(k) && k != key@ implies
                        before.keys().index_of(k) != i by {
                        let j = before.keys().index_of(k);
                        assert(before.keys()[j] == k);
                    }
                    assert(self@ =~= before@.insert(key@, value));
                }
            },
            None => {
                self.entries.push(Entry { key, value });
                proof {
                    let n = before.keys().len() as int;
                    assert(self.keys() =~= before.keys().push(key@));
                    assert(self.values() =~= before.values().push(value));
                    assert(self.keys().no_duplicates()) by {
                        assert forall|a: int, b: int|
                            0 <= a < self.keys().len() && 0 <= b < self.keys().len() && a != b implies
                            self.keys()[a] != self.keys()[b] by {
                            if a < n && b < n {
                                assert(before.keys()[a] != before.keys()[b]);
                            } else if a < n {
                                assert(before.keys()[a] != key@);
                            } else {
                                assert(before.keys()[b] != key@);
                            }
                        }
                    }
                    assert(self.keys()[n] == key@);
                    lemma_index_of_unique(self.keys(), n);
                    assert forall|k: Seq<char>| before.keys().contains(k) implies self.keys().index_of(
                        k,
                    ) == before.keys().index_of(k) by {
                        let j = before.keys().index_of(k);
                        assert(self.keys()[j] == k);
                        lemma_index_of_unique(self.keys(), j);
                    }
                    assert forall|k: Seq<char>| self.keys().contains(k) implies before.keys().contains(
                        k,
                    ) || k == key@ by {
                        let j = self.keys().index_of(k);
                        if j < n {
                            assert(before.keys()[j] == k);
                        }
                    }
                    assert forall|k: Seq<char>| before.keys().contains(k) || k == key@ implies
                        self.keys().contains(k) by {
                        if k == key@ {
                            assert(self.keys()[n] == k);
                        } else {
                            let j = before.keys().index_of(k);
                            assert(self.keys()[j] == k);
                        }
                    }
                    assert(self@.dom() =~= before@.insert(key@, value).dom());
                    assert(self@ =~= before@.insert(key@, value));
                }
            },
        }
    }

    /// Removes the entry of `key`, if there is one. The other entries keep
    /// their order.
    pub fn remove(&mut self, key: &str)
        requires
            old(self).wf(),
        ensures
            final(self).wf(),
            final(self)@ == old(self)@.remove(key@),
            !old(self)@.contains_key(key@) ==> final(self).keys() == old(self).keys(),
    {
        let ghost before = *self;
        match self.position(key) {
            Some(i) => {
                self.entries.remove(i);
                proof {
                    let at = i as int;
                    let n = before.keys().len() as int;
                    assert(self.keys() =~= before.keys().remove(at));
                    assert(self.values() =~= before.values().remove(at));
                    assert forall|a: int, b: int|
                        0 <= a < self.keys().len() && 0 <= b < self.keys().len() && a != b implies
                        self.keys()[a] != self.keys()[b] by {
                        let a0 = if a < at { a } else { a + 1 };
                        let b0 = if b < at { b } else { b + 1 };
                        assert(before.keys()[a0] != before.keys()[b0]);
                    }
                    assert forall|k: Seq<char>| self.keys().contains(k) implies before.keys().contains(
                        k,
                    ) && k != key@ && self.values()[self.keys().index_of(k)]
                        == before.values()[before.keys().index_of(k)] by {
                        let j = self.keys().index_of(k);
                        let j0 = if j < at { j } else { j + 1 };
                        assert(before.keys()[j0] == k);
                        assert(before.keys()[j0] != before.keys()[at]);
                        lemma_index_of_unique(before.keys(), j0);
                    }
                    assert forall|k: Seq<char>| before.keys().contains(k) && k != key@ implies
                        self.keys().contains(k) by {
                        let j0 = before.keys().index_of(k);
                        let j = if j0 < at { j0 } else { j0 - 1 };
                        assert(self.keys()[j] == k);
                    }
                    assert(self@ =~= before@.remove(key@));
                }
            },
            None => {
                proof {
                    assert(self@ =~= before@.remove(key@));
                }
            },
        }
    }
}

} // verus!
