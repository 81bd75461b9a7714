//! A map keyed by text, kept as a list of entries with distinct keys.

use crate::text::str_eq;
use vstd::prelude::*;

verus! {

/// A map from text keys to values. No key occurs twice.
#[derive(Debug)]
pub struct StrMap<V> {
    entries: Vec<(String, V)>,
}

/// Whether `i` is the position of the entry with key `k`.
pub open spec fn key_at<V>(entries: Seq<(String, V)>, i: int, k: Seq<char>) -> bool {
    0 <= i < entries.len() && entries[i].0@ == k
}

/// No key occurs twice among the entries.
pub open spec fn keys_distinct<V>(entries: Seq<(String, V)>) -> bool {
    forall|i: int, j: int|
        0 <= i < entries.len() && 0 <= j < entries.len() && i != j
            ==> #[trigger] entries[i].0@ != #[trigger] entries[j].0@
}

/// The map that a list of entries with distinct keys stands for.
pub open spec fn map_of<V>(entries: Seq<(String, V)>) -> Map<Seq<char>, V> {
    Map::new(
        |k: Seq<char>| exists|i: int| key_at(entries, i, k),
        |k: Seq<char>| entries[choose|i: int| key_at(entries, i, k)].1,
    )
}

/// In a list with distinct keys, the entry at a key's position holds the
/// value the map gives for that key.
proof fn lemma_lookup<V>(entries: Seq<(String, V)>, i: int, k: Seq<char>)
    requires
        keys_distinct(entries),
        key_at(entries, i, k),
    ensures
        map_of(entries).contains_key(k),
        map_of(entries)[k] == entries[i].1,
{
    let j = choose|j: int| key_at(entries, j, k);
    assert(key_at(entries, j, k));
    assert(i == j);
}

impl<V> StrMap<V> {
    /// No key occurs twice.
    #[verifier::type_invariant]
    closed spec fn distinct_keys(&self) -> bool {
        keys_distinct(self.entries@)
    }

    /// The number of keys.
    pub closed spec fn spec_len(&self) -> nat {
        self.entries@.len()
    }
}

impl<V> View for StrMap<V> {
    type V = Map<Seq<char>, V>;

    closed spec fn view(&self) -> Map<Seq<char>, V> {
        map_of(self.entries@)
    }
}

impl<V> StrMap<V> {
    /// The empty map.
    pub fn new() -> (r: Self)
        ensures
            r@ == Map::<Seq<char>, V>::empty(),
    {
        let r = StrMap { entries: Vec::new() };
        assert(r@ =~= Map::<Seq<char>, V>::empty());
        r
    }

    /// The position of the entry with the given key, if there is one.
    fn find(&self, key: &str) -> (r: Option<usize>)
        ensures
            r matches Some(i) ==> key_at(self.entries@, i as int, key@),
            r is None ==> forall|i: int| !#[trigger] key_at(self.entries@, i, key@),
    {
        let mut i: usize = 0;
        while i < self.entries.len()
            invariant
                i <= self.entries.len(),
                forall|j: int| 0 <= j < i ==> !#[trigger] key_at(self.entries@, j, key@),
            decreases self.entries.len() - i,
        {
            if str_eq(self.entries[i].0.as_str(), key) {
                return Some(i);
            }
            i = i + 1;
        }
        None
    }

    /// The value stored under a key, if any.
    pub fn get(&self, key: &str) -> (r: Option<&V>)
        ensures
            r == (if self@.contains_key(key@) { Some(&self@[key@]) } else { None }),
    {
        match self.find(key) {
            Some(i) => {
                proof {
                    use_type_invariant(self);
                    lemma_lookup(self.entries@, i as int, key@);
                }
                Some(&self.entries[i].1)
            },
            None => {
                assert(!self@.contains_key(key@));
                None
            },
        }
    }

    /// Whether a key is present.
    pub fn contains_key(&self, key: &str) -> (r: bool)
        ensures
            r == self@.contains_key(key@),
    {
        match self.find(key) {
            Some(i) => {
                proof {
                    use_type_invariant(self);
                    lemma_lookup(self.entries@, i as int, key@);
                }
                true
            },
            None => false,
        }
    }

    /// Stores a value under a key, replacing the value stored there before.
    pub fn insert(&mut self, key: String, value: V)
        ensures
            final(self)@ == old(self)@.insert(key@, value),
    {
        proof {
            use_type_invariant(&*self);
        }
        let ghost old_entries = self.entries@;
        let ghost k = key@;
        match self.find(key.as_str()) {
            Some(i) => {
                let mut entries: Vec<(String, V)> = Vec::new();
                std::mem::swap(&mut entries, &mut self.entries);
                entries.set(i, (key, value));
                proof {
                    assert(keys_distinct(entries@));
                }
                self.entries = entries;
                proof {
                    assert(keys_distinct(self.entries@));
                    let m = self@;
                    assert(self.entries@ == old_entries.update(i as int, (self.entries@[i as int].0, value)));
                    assert forall|q: Seq<char>| #[trigger] m.contains_key(q) == old(self)@.insert(k, value).contains_key(q) by {
                        if q == k {
                            assert(key_at(self.entries@, i as int, q));
                        } else if old(self)@.contains_key(q) {
                            let j = choose|j: int| key_at(old_entries, j, q);
                            assert(key_at(self.entries@, j, q));
                        } else if m.contains_key(q) {
                            let j = choose|j: int| key_at(self.entries@, j, q);
                            assert(key_at(old_entries, j, q));
                        }
                    }
                    assert forall|q: Seq<char>| #[trigger] m.contains_key(q) implies m[q] == old(self)@.insert(k, value)[q] by {
                        let j = choose|j: int| key_at(self.entries@, j, q);
                        lemma_lookup(self.entries@, j, q);
                        if q == k {
                            lemma_lookup(self.entries@, i as int, q);
                        } else {
                            assert(key_at(old_entries, j, q));
                            lemma_lookup(old_entries, j, q);
                        }
                    }
                    assert(m =~= old(self)@.insert(k, value));
                }
            },
            None => {
                let mut entries: Vec<(String, V)> = Vec::new();
                std::mem::swap(&mut entries, &mut self.entries);
                entries.push((key, value));
                proof {
                    let n = old_entries.len() as int;
                    assert(entries@[n].0@ == k);
                    assert forall|i: int, j: int|
                        0 <= i < entries@.len() && 0 <= j < entries@.len() && i != j
                            implies #[trigger] entries@[i].0@ != #[trigger] entries@[j].0@ by {
                        if i == n {
                            assert(!key_at(old_entries, j, k));
                        } else if j == n {
                            assert(!key_at(old_entries, i, k));
                        } else {
                            assert(entries@[i] == old_entries[i] && entries@[j] == old_entries[j]);
                        }
                    }
                }
                self.entries = entries;
                proof {
                    assert(keys_distinct(self.entries@));
                    let m = self@;
                    let n = old_entries.len() as int;
                    assert forall|q: Seq<char>| #[trigger] m.contains_key(q) == old(self)@.insert(k, value).contains_key(q) by {
                        if q == k {
                            assert(key_at(self.entries@, n, q));
                        } else if old(self)@.contains_key(q) {
                            let j = choose|j: int| key_at(old_entries, j, q);
                            assert(key_at(self.entries@, j, q));
                        } else if m.contains_key(q) {
                            let j = choose|j: int| key_at(self.entries@, j, q);
                            assert(key_at(old_entries, j, q));
                        }
                    }
                    assert forall|q: Seq<char>| #[trigger] m.contains_key(q) implies m[q] == old(self)@.insert(k, value)[q] by {
                        let j = choose|j: int| key_at(self.entries@, j, q);
                        lemma_lookup(self.entries@, j, q);
                        if q == k {
                            lemma_lookup(self.entries@, n, q);
                        } else {
                            assert(key_at(old_entries, j, q));
                            lemma_lookup(old_entries, j, q);
                        }
                    }
                    assert(m =~= old(self)@.insert(k, value));
                }
            },
        }
    }
}

/// Reading a key gives back what was last stored under it, and storing
/// under one key leaves every other key as it was.
pub proof fn lemma_insert_then_get<V>(m: Map<Seq<char>, V>, k: Seq<char>, v: V, other: Seq<char>)
    requires
        other != k,
    ensures
        m.insert(k, v).contains_key(k),
        m.insert(k, v)[k] == v,
        m.insert(k, v).contains_key(other) == m.contains_key(other),
        m.contains_key(other) ==> m.insert(k, v)[other] == m[other],
{
}

} // verus!
