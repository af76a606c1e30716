//! Shared registration-time data: an explicit map from names to values of
//! one type, filled during the single-threaded registration pass and read,
//! unchanged, while queries run (for instance a table from type names to
//! functions that look instances up).
use vstd::prelude::*;

verus! {

/// One key of the table.
#[derive(Debug)]
pub struct DataEntry<V> {
    pub key: String,
    pub value: V,
}

/// A table from names to values; each name appears at most once.
#[derive(Debug)]
pub struct SchemaData<V> {
    entries: Vec<DataEntry<V>>,
}

/// The first entry, from `start` on, whose key is `key`.
pub open spec fn find_key<V>(entries: Seq<DataEntry<V>>, key: Seq<char>, start: int) -> Option<int>
    decreases entries.len() - start,
{
    if start < 0 || start >= entries.len() {
        None
    } else if entries[start].key@ == key {
        Some(start)
    } else {
        find_key(entries, key, start + 1)
    }
}

proof fn lemma_find_same_keys<V>(a: Seq<DataEntry<V>>, b: Seq<DataEntry<V>>, key: Seq<char>, start: int)
    requires
        a.len() == b.len(),
        forall|j: int| 0 <= j < a.len() ==> #[trigger] a[j].key == b[j].key,
    ensures
        find_key(a, key, start) == find_key(b, key, start),
    decreases a.len() - start,
{
    if 0 <= start < a.len() {
        lemma_find_same_keys(a, b, key, start + 1);
    }
}

proof fn lemma_find_push<V>(a: Seq<DataEntry<V>>, e: DataEntry<V>, key: Seq<char>, start: int)
    requires
        0 <= start <= a.len(),
    ensures
        find_key(a.push(e), key, start) == match find_key(a, key, start) {
            Some(i) => Some(i),
            None => if e.key@ == key {
                Some(a.len() as int)
            } else {
                None
            },
        },
    decreases a.len() - start,
{
    if start < a.len() {
        assert(a.push(e)[start] == a[start]);
        lemma_find_push(a, e, key, start + 1);
    } else {
        assert(a.push(e)[start] == e);
        assert(find_key(a.push(e), key, start + 1) is None);
    }
}

proof fn lemma_find_found<V>(a: Seq<DataEntry<V>>, key: Seq<char>, start: int)
    ensures
        find_key(a, key, start) matches Some(j) ==> 0 <= j < a.len() && a[j].key@ == key,
    decreases a.len() - start,
{
    if 0 <= start < a.len() {
        lemma_find_found(a, key, start + 1);
    }
}

impl<V> SchemaData<V> {
    /// The value stored under `key`, if any.
    pub closed spec fn lookup(&self, key: Seq<char>) -> Option<V> {
        match find_key(self.entries@, key, 0) {
            Some(i) => Some(self.entries@[i].value),
            None => None,
        }
    }

    /// An empty table.
    pub fn new() -> (r: SchemaData<V>)
        ensures
            forall|k: Seq<char>| #[trigger] r.lookup(k) is None,
    {
        SchemaData { entries: Vec::new() }
    }

    fn index_of(&self, key: &String) -> (r: Option<usize>)
        ensures
            match r {
                Some(i) => i < self.entries@.len() && find_key(self.entries@, key@, 0) == Some(
                    i as int,
                ),
                None => find_key(self.entries@, key@, 0) is None,
            },
    {
        let mut i: usize = 0;
        while i < self.entries.len()
            invariant
                i <= self.entries@.len(),
                find_key(self.entries@, key@, 0) == find_key(self.entries@, key@, i as int),
            decreases self.entries@.len() - i,
        {
            if self.entries[i].key == *key {
                return Some(i);
            }
            i = i + 1;
        }
        None
    }

    /// Stores `value` under `key`, replacing what was stored there; every
    /// other key keeps its value.
    pub fn insert(&mut self, key: String, value: V)
        ensures
            final(self).lookup(key@) == Some(value),
            forall|k: Seq<char>| k != key@ ==> #[trigger] final(self).lookup(k) == old(self).lookup(k),
    {
        match self.index_of(&key) {
            Some(i) => {
                let ghost before = self.entries@;
                let k = self.entries[i].key.clone();
                self.entries.set(i, DataEntry { key: k, value });
                proof {
                    assert forall|k: Seq<char>| k != key@ implies #[trigger] self.lookup(k) == old(
                        self,
                    ).lookup(k) by {
                        lemma_find_same_keys(self.entries@, before, k, 0);
                        lemma_find_found(before, k, 0);
                        lemma_find_found(before, key@, 0);
                        if let Some(j) = find_key(before, k, 0) {
                            assert(j != i);
                            assert(self.entries@[j] == before[j]);
                        }
                    }
                    lemma_find_same_keys(self.entries@, before, key@, 0);
                }
            },
            None => {
                let ghost before = self.entries@;
                self.entries.push(DataEntry { key, value });
                proof {
                    assert(self.entries@ == before.push(self.entries@.last()));
                    assert forall|k: Seq<char>| k != key@ implies #[trigger] self.lookup(k) == old(
                        self,
                    ).lookup(k) by {
                        lemma_find_push(before, self.entries@.last(), k, 0);
                        lemma_find_found(before, k, 0);
                    }
                    lemma_find_push(before, self.entries@.last(), key@, 0);
                }
            },
        }
    }

    /// The value stored under `key`, if any.
    pub fn get(&self, key: &String) -> (r: Option<&V>)
        ensures
            match self.lookup(key@) {
                Some(v) => r == Some(&v),
                None => r is None,
            },
    {
        match self.index_of(key) {
            Some(i) => Some(&self.entries[i].value),
            None => None,
        }
    }
}

} // verus!
