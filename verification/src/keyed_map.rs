//! A map from string keys to values that keeps its entries in insertion order.
//!
//! Every key occurs at most once; inserting a key that is already present
//! replaces its value in place.
use crate::text::text_eq;
use vstd::prelude::*;

verus! {

/// Whether no key occurs twice among `entries`.
pub open spec fn distinct_keys<V>(entries: Seq<(Seq<char>, V)>) -> bool {
    forall|i: int, j: int|
        0 <= i < entries.len() && 0 <= j < entries.len() && i != j ==> #[trigger] entries[i].0
            != #[trigger] entries[j].0
}

/// Index of the last entry with key `key`, or -1 when there is none.
pub open spec fn key_index<V>(entries: Seq<(Seq<char>, V)>, key: Seq<char>) -> int
    decreases entries.len(),
{
    if entries.len() == 0 {
        -1
    } else if entries.last().0 == key {
        entries.len() - 1
    } else {
        key_index(entries.drop_last(), key)
    }
}

/// The value stored under `key`, if any.
pub open spec fn lookup<V>(entries: Seq<(Seq<char>, V)>, key: Seq<char>) -> Option<V> {
    let i = key_index(entries, key);
    if i >= 0 {
        Some(entries[i].1)
    } else {
        None
    }
}

/// The entries after `key` is set to `value`: the entry of `key` is replaced
/// in place, or a new entry is appended.
pub open spec fn inserted<V>(entries: Seq<(Seq<char>, V)>, key: Seq<char>, value: V) -> Seq<
    (Seq<char>, V),
> {
    let i = key_index(entries, key);
    if i >= 0 {
        entries.update(i, (key, value))
    } else {
        entries.push((key, value))
    }
}

pub proof fn lemma_key_index<V>(entries: Seq<(Seq<char>, V)>, key: Seq<char>)
    ensures
        -1 <= key_index(entries, key) < entries.len(),
        key_index(entries, key) >= 0 ==> entries[key_index(entries, key)].0 == key,
        key_index(entries, key) == -1 <==> forall|j: int|
            0 <= j < entries.len() ==> #[trigger] entries[j].0 != key,
    decreases entries.len(),
{
    if entries.len() > 0 && entries.last().0 != key {
        let t = entries.drop_last();
        lemma_key_index(t, key);
        if key_index(t, key) == -1 {
            assert forall|j: int| 0 <= j < entries.len() implies #[trigger] entries[j].0 != key by {
                if j < entries.len() - 1 {
                    assert(entries[j] == t[j]);
                }
            }
        } else {
            let k = key_index(t, key);
            assert(entries[k] == t[k]);
        }
    }
}

/// With distinct keys, `key_index` finds the one entry that holds `key`.
pub proof fn lemma_key_index_unique<V>(entries: Seq<(Seq<char>, V)>, key: Seq<char>, j: int)
    requires
        distinct_keys(entries),
        0 <= j < entries.len(),
        entries[j].0 == key,
    ensures
        key_index(entries, key) == j,
{
    lemma_key_index(entries, key);
    let i = key_index(entries, key);
    if i != j {
        assert(entries[i].0 != entries[j].0);
    }
}

/// Setting a key keeps the keys distinct, makes the key hold the new value and
/// leaves every other key as it was.
pub proof fn lemma_inserted<V>(entries: Seq<(Seq<char>, V)>, key: Seq<char>, value: V)
    requires
        distinct_keys(entries),
    ensures
        distinct_keys(inserted(entries, key, value)),
        lookup(inserted(entries, key, value), key) == Some(value),
        forall|k: Seq<char>| k != key ==> lookup(inserted(entries, key, value), k) == lookup(entries, k),
        inserted(entries, key, value).len() == entries.len() + (if lookup(entries, key) is Some {
            0int
        } else {
            1int
        }),
{
    let r = inserted(entries, key, value);
    lemma_key_index(entries, key);
    let i = key_index(entries, key);
    if i >= 0 {
        assert forall|a: int, b: int|
            0 <= a < r.len() && 0 <= b < r.len() && a != b implies #[trigger] r[a].0
            != #[trigger] r[b].0 by {
            assert(entries[a].0 != entries[b].0);
        }
        lemma_key_index_unique(r, key, i);
        assert forall|k: Seq<char>| k != key implies lookup(r, k) == lookup(entries, k) by {
            lemma_key_index(entries, k);
            lemma_key_index(r, k);
            let a = key_index(entries, k);
            if a >= 0 {
                lemma_key_index_unique(r, k, a);
            } else {
                let b = key_index(r, k);
                if b >= 0 {
                    assert(r[b].0 == entries[b].0);
                }
            }
        }
    } else {
        assert forall|a: int, b: int|
            0 <= a < r.len() && 0 <= b < r.len() && a != b implies #[trigger] r[a].0
            != #[trigger] r[b].0 by {
            if a < entries.len() && b < entries.len() {
                assert(r[a] == entries[a]);
                assert(r[b] == entries[b]);
            } else if a < entries.len() {
                assert(r[a] == entries[a]);
            } else {
                assert(r[b] == entries[b]);
            }
        }
        lemma_key_index_unique(r, key, entries.len() as int);
        assert forall|k: Seq<char>| k != key implies lookup(r, k) == lookup(entries, k) by {
            lemma_key_index(entries, k);
            let a = key_index(entries, k);
            if a >= 0 {
                assert(r[a] == entries[a]);
                lemma_key_index_unique(r, k, a);
            } else {
                lemma_key_index(r, k);
                let b = key_index(r, k);
                if b >= 0 {
                    assert(r[b] == entries[b]);
                }
            }
        }
    }
}

/// A lookup finds the value of an entry that has the key, and finds nothing
/// exactly when no entry has the key.
pub proof fn lemma_lookup_entry<V>(entries: Seq<(Seq<char>, V)>, key: Seq<char>)
    ensures
        lookup(entries, key) matches Some(v) ==> exists|i: int|
            0 <= i < entries.len() && #[trigger] entries[i] == (key, v),
        lookup(entries, key) is None <==> forall|i: int|
            0 <= i < entries.len() ==> #[trigger] entries[i].0 != key,
{
    lemma_key_index(entries, key);
    let i = key_index(entries, key);
    if i >= 0 {
        assert(entries[i] == (key, entries[i].1));
    }
}

/// Setting a key keeps every entry of another key at its place, and the key's
/// entry holds the new value.
pub proof fn lemma_inserted_keeps_others<V>(entries: Seq<(Seq<char>, V)>, key: Seq<char>, value: V)
    ensures
        inserted(entries, key, value).len() >= entries.len(),
        forall|i: int|
            0 <= i < entries.len() && entries[i].0 != key ==> #[trigger] inserted(
                entries,
                key,
                value,
            )[i] == entries[i],
        exists|i: int|
            0 <= i < inserted(entries, key, value).len() && #[trigger] inserted(
                entries,
                key,
                value,
            )[i] == (key, value),
{
    lemma_key_index(entries, key);
    let i = key_index(entries, key);
    let r = inserted(entries, key, value);
    if i >= 0 {
        assert(r[i] == (key, value));
    } else {
        assert(r[entries.len() as int] == (key, value));
    }
}

/// A map from string keys to values, in insertion order.
#[derive(Debug)]
pub struct KeyedMap<V> {
    entries: Vec<(String, V)>,
}

impl<V> View for KeyedMap<V> {
    type V = Seq<(Seq<char>, V)>;

    closed spec fn view(&self) -> Seq<(Seq<char>, V)> {
        self.entries@.map_values(|e: (String, V)| (e.0@, e.1))
    }
}

impl<V> KeyedMap<V> {
    #[verifier::type_invariant]
    pub(crate) open spec fn keys_are_distinct(self) -> bool {
        distinct_keys(self@)
    }

    /// An empty map.
    pub fn new() -> (m: Self)
        ensures
            m@ == Seq::<(Seq<char>, V)>::empty(),
    {
        let m = KeyedMap { entries: Vec::new() };
        assert(m@ =~= Seq::<(Seq<char>, V)>::empty());
        m
    }

    /// The number of entries.
    pub fn len(&self) -> (n: usize)
        ensures
            n == self@.len(),
    {
        self.entries.len()
    }

    /// The key of the entry at `index`.
    pub fn key_at(&self, index: usize) -> (k: &String)
        requires
            index < self@.len(),
        ensures
            k@ == self@[index as int].0,
    {
        &self.entries[index].0
    }

    /// The value of the entry at `index`.
    pub fn value_at(&self, index: usize) -> (v: &V)
        requires
            index < self@.len(),
        ensures
            *v == self@[index as int].1,
    {
        &self.entries[index].1
    }

    /// The value stored under `key`, if any.
    pub fn get(&self, key: &str) -> (r: Option<&V>)
        ensures
            match r {
                Some(v) => lookup(self@, key@) == Some(*v),
                None => lookup(self@, key@) is None,
            },
    {
        proof {
            use_type_invariant(self);
            lemma_key_index(self@, key@);
        }
        let n = self.entries.len();
        let mut i: usize = 0;
        while i < n
            invariant
                n == self@.len(),
                i <= n,
                distinct_keys(self@),
                forall|j: int| 0 <= j < i ==> #[trigger] self@[j].0 != key@,
            decreases n - i,
        {
            if text_eq(self.entries[i].0.as_str(), key) {
                proof {
                    lemma_key_index_unique(self@, key@, i as int);
                }
                return Some(&self.entries[i].1);
            }
            i = i + 1;
        }
        None
    }

    /// Sets `key` to `value`: replaces the value of an entry with that key, or
    /// appends a new entry.
    pub fn insert(&mut self, key: String, value: V)
        ensures
            final(self)@ == inserted(old(self)@, key@, value),
            lookup(final(self)@, key@) == Some(value),
            forall|k: Seq<char>| k != key@ ==> lookup(final(self)@, k) == lookup(old(self)@, k),
    {
        proof {
            use_type_invariant(&*self);
            lemma_key_index(self@, key@);
            lemma_inserted(self@, key@, value);
        }
        let ghost before = self@;
        let mut entries: Vec<(String, V)> = Vec::new();
        std::mem::swap(&mut entries, &mut self.entries);
        let n = entries.len();
        let mut i: usize = 0;
        while i < n
            invariant
                n == entries@.len(),
                i <= n,
                entries@.map_values(|e: (String, V)| (e.0@, e.1)) == before,
                before == old(self)@,
                distinct_keys(before),
                distinct_keys(inserted(before, key@, value)),
                lookup(inserted(before, key@, value), key@) == Some(value),
                forall|k: Seq<char>|
                    k != key@ ==> lookup(inserted(before, key@, value), k) == lookup(before, k),
                forall|j: int| 0 <= j < i ==> #[trigger] before[j].0 != key@,
            decreases n - i,
        {
            if text_eq(entries[i].0.as_str(), key.as_str()) {
                proof {
                    lemma_key_index_unique(before, key@, i as int);
                }
                entries.set(i, (key, value));
                assert(entries@.map_values(|e: (String, V)| (e.0@, e.1)) =~= inserted(
                    before,
                    key@,
                    value,
                ));
                self.entries = entries;
                assert(self@ =~= inserted(before, key@, value));
                return;
            }
            i = i + 1;
        }
        proof {
            lemma_key_index(before, key@);
        }
        entries.push((key, value));
        assert(entries@.map_values(|e: (String, V)| (e.0@, e.1)) =~= inserted(before, key@, value));
        self.entries = entries;
        assert(self@ =~= inserted(before, key@, value));
    }
}

} // verus!
