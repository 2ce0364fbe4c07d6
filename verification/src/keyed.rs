//! A small map from strings to values, kept as a list of entries. The
//! first entry with a key is the one that counts.

use vstd::prelude::*;

verus! {

/// One entry of a map.
#[derive(Debug)]
pub struct Keyed<V> {
    pub key: String,
    pub value: V,
}

/// A map from strings to values.
#[derive(Debug)]
pub struct StrMap<V> {
    pub entries: Vec<Keyed<V>>,
}

/// The least index at or after `from` of an entry with the key `key`.
pub open spec fn key_index<V>(entries: Seq<Keyed<V>>, key: Seq<char>, from: int) -> Option<int>
    decreases entries.len() - from,
{
    if from < 0 || from >= entries.len() {
        None
    } else if entries[from].key@ == key {
        Some(from)
    } else {
        key_index(entries, key, from + 1)
    }
}

/// `key_index` gives an index of an entry with the key, and no entry
/// between `from` and it has the key; `None` means that no entry at or
/// after `from` has it.
pub proof fn lemma_key_index<V>(entries: Seq<Keyed<V>>, key: Seq<char>, from: int)
    requires
        0 <= from,
    ensures
        match key_index(entries, key, from) {
            Some(i) => from <= i < entries.len() && entries[i].key@ == key && forall|j: int|
                from <= j < i ==> entries[j].key@ != key,
            None => forall|j: int| from <= j < entries.len() ==> entries[j].key@ != key,
        },
    decreases entries.len() - from,
{
    if from < entries.len() && entries[from].key@ != key {
        lemma_key_index(entries, key, from + 1);
    }
}

/// The index at which a key is found is settled by the keys at and before
/// it.
pub proof fn lemma_key_index_found<V>(entries: Seq<Keyed<V>>, key: Seq<char>, from: int, i: int)
    requires
        0 <= from <= i < entries.len(),
        entries[i].key@ == key,
        forall|j: int| from <= j < i ==> entries[j].key@ != key,
    ensures
        key_index(entries, key, from) == Some(i),
    decreases i - from,
{
    if from < i {
        lemma_key_index_found(entries, key, from + 1, i);
    }
}

/// No entry at or after `from` has the key.
pub proof fn lemma_key_index_missing<V>(entries: Seq<Keyed<V>>, key: Seq<char>, from: int)
    requires
        0 <= from,
        forall|j: int| from <= j < entries.len() ==> entries[j].key@ != key,
    ensures
        key_index(entries, key, from) is None,
    decreases entries.len() - from,
{
    if from < entries.len() {
        lemma_key_index_missing(entries, key, from + 1);
    }
}

/// The value under `key` in a list of entries.
pub open spec fn value_of<V>(entries: Seq<Keyed<V>>, key: Seq<char>) -> Option<V> {
    match key_index(entries, key, 0) {
        Some(i) => Some(entries[i].value),
        None => None,
    }
}

/// Replacing the value of the entry at `i` changes the value under its
/// key, where that entry is the one that counts, and nothing else.
pub proof fn lemma_value_replaced<V>(entries: Seq<Keyed<V>>, i: int, value: V, key: Seq<char>)
    requires
        0 <= i < entries.len(),
    ensures
        ({
            let after = entries.update(i, Keyed { key: entries[i].key, value });
            value_of(after, key) == if key_index(entries, key, 0) == Some(i) {
                Some(value)
            } else {
                value_of(entries, key)
            }
        }),
{
    let after = entries.update(i, Keyed { key: entries[i].key, value });
    lemma_key_index(entries, key, 0);
    match key_index(entries, key, 0) {
        Some(k) => {
            assert forall|j: int| 0 <= j < k implies after[j].key@ != key by {
                assert(after[j].key@ == entries[j].key@);
            }
            assert(after[k].key@ == entries[k].key@);
            lemma_key_index_found(after, key, 0, k);
        },
        None => {
            assert forall|j: int| 0 <= j < after.len() implies after[j].key@ != key by {
                assert(after[j].key@ == entries[j].key@);
            }
            lemma_key_index_missing(after, key, 0);
        },
    }
}

/// Replacing the value of an entry moves no key.
pub proof fn lemma_keys_kept<V>(entries: Seq<Keyed<V>>, i: int, value: V, key: Seq<char>)
    requires
        0 <= i < entries.len(),
    ensures
        key_index(entries.update(i, Keyed { key: entries[i].key, value }), key, 0) == key_index(
            entries,
            key,
            0,
        ),
{
    let after = entries.update(i, Keyed { key: entries[i].key, value });
    lemma_key_index(entries, key, 0);
    match key_index(entries, key, 0) {
        Some(k) => {
            assert forall|j: int| 0 <= j < k implies after[j].key@ != key by {
                assert(after[j].key@ == entries[j].key@);
            }
            assert(after[k].key@ == entries[k].key@);
            lemma_key_index_found(after, key, 0, k);
        },
        None => {
            assert forall|j: int| 0 <= j < after.len() implies after[j].key@ != key by {
                assert(after[j].key@ == entries[j].key@);
            }
            lemma_key_index_missing(after, key, 0);
        },
    }
}

/// Adding an entry at the end gives its key a value where it had none,
/// and changes nothing else.
pub proof fn lemma_value_added<V>(entries: Seq<Keyed<V>>, entry: Keyed<V>, key: Seq<char>)
    ensures
        value_of(entries.push(entry), key) == if value_of(entries, key) is Some {
            value_of(entries, key)
        } else if key == entry.key@ {
            Some(entry.value)
        } else {
            None
        },
{
    let after = entries.push(entry);
    lemma_key_index(entries, key, 0);
    match key_index(entries, key, 0) {
        Some(k) => {
            assert forall|j: int| 0 <= j < k implies after[j].key@ != key by {
                assert(after[j] == entries[j]);
            }
            assert(after[k] == entries[k]);
            lemma_key_index_found(after, key, 0, k);
        },
        None => {
            assert forall|j: int| 0 <= j < entries.len() implies after[j].key@ != key by {
                assert(after[j] == entries[j]);
            }
            if key == entry.key@ {
                lemma_key_index_found(after, key, 0, entries.len() as int);
            } else {
                lemma_key_index_missing(after, key, 0);
            }
        },
    }
}

impl<V> StrMap<V> {
    /// The value under `key`, if the map has one.
    pub open spec fn lookup(self, key: Seq<char>) -> Option<V> {
        value_of(self.entries@, key)
    }

    /// The empty map.
    pub fn new() -> (r: StrMap<V>)
        ensures
            forall|key: Seq<char>| r.lookup(key) is None,
            r.entries@.len() == 0,
    {
        StrMap { entries: Vec::new() }
    }

    /// The index of the entry that counts for `key`.
    pub fn index_of(&self, key: &str) -> (r: Option<usize>)
        ensures
            match r {
                Some(i) => key_index(self.entries@, key@, 0) == Some(i as int) && i
                    < self.entries@.len(),
                None => key_index(self.entries@, key@, 0) is None,
            },
    {
        let wanted = key.to_owned();
        let mut i: usize = 0;
        while i < self.entries.len()
            invariant
                i <= self.entries.len(),
                wanted@ == key@,
                key_index(self.entries@, key@, 0) == key_index(self.entries@, key@, i as int),
            decreases self.entries.len() - i,
        {
            if self.entries[i].key == wanted {
                return Some(i);
            }
            i += 1;
        }
        None
    }

    /// The value under `key`.
    pub fn get(&self, key: &str) -> (r: Option<&V>)
        ensures
            match r {
                Some(value) => self.lookup(key@) == Some(*value),
                None => self.lookup(key@) is None,
            },
    {
        match self.index_of(key) {
            Some(i) => Some(&self.entries[i].value),
            None => None,
        }
    }

    /// Whether the map has a value under `key`.
    pub fn contains_key(&self, key: &str) -> (r: bool)
        ensures
            r == self.lookup(key@) is Some,
    {
        self.index_of(key).is_some()
    }

    /// Puts `value` under `key`, in the place of the value that was there,
    /// if any. No other key is touched.
    pub fn insert(&mut self, key: String, value: V)
        ensures
            forall|k: Seq<char>|
                #[trigger] final(self).lookup(k) == if k == key@ {
                    Some(value)
                } else {
                    old(self).lookup(k)
                },
    {
        match self.index_of(key.as_str()) {
            Some(i) => {
                let ghost before = self.entries@;
                let _ = self.swap_value(i, value);
                assert forall|k: Seq<char>| #[trigger]
                    self.lookup(k) == if k == key@ {
                        Some(value)
                    } else {
                        value_of(before, k)
                    } by {
                    lemma_key_index(before, k, 0);
                    lemma_key_index(before, key@, 0);
                }
            },
            None => {
                let ghost before = self.entries@;
                let entry = Keyed { key, value };
                self.entries.push(entry);
                assert forall|k: Seq<char>| #[trigger]
                    self.lookup(k) == if k == key@ {
                        Some(value)
                    } else {
                        value_of(before, k)
                    } by {
                    lemma_value_added(before, entry, k);
                }
            },
        }
    }

    /// Puts `value` in the place of the value of the entry at index `i`
    /// and hands the old value out. No other key is touched.
    pub fn swap_value(&mut self, i: usize, value: V) -> (previous: V)
        requires
            i < old(self).entries@.len(),
        ensures
            previous == old(self).entries@[i as int].value,
            final(self).entries@ == old(self).entries@.update(
                i as int,
                Keyed { key: old(self).entries@[i as int].key, value },
            ),
            forall|k: Seq<char>|
                #[trigger] final(self).lookup(k) == if key_index(old(self).entries@, k, 0) == Some(
                    i as int,
                ) {
                    Some(value)
                } else {
                    old(self).lookup(k)
                },
            forall|k: Seq<char>|
                #[trigger] key_index(final(self).entries@, k, 0) == key_index(
                    old(self).entries@,
                    k,
                    0,
                ),
    {
        let ghost before = self.entries@;
        let entry = self.entries.remove(i);
        let Keyed { key, value: previous } = entry;
        self.entries.insert(i, Keyed { key, value });
        assert(self.entries@ =~= before.update(i as int, Keyed { key: before[i as int].key, value }));
        assert forall|k: Seq<char>| #[trigger]
            self.lookup(k) == if key_index(before, k, 0) == Some(i as int) {
                Some(value)
            } else {
                value_of(before, k)
            } by {
            lemma_value_replaced(before, i as int, value, k);
        }
        assert forall|k: Seq<char>| #[trigger]
            key_index(self.entries@, k, 0) == key_index(before, k, 0) by {
            lemma_keys_kept(before, i as int, value, k);
        }
        previous
    }
}

} // verus!
