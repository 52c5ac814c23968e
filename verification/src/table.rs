//! A keyed store of fixed-size records.

use vstd::prelude::*;
use crate::key::Key;

verus! {

/// One stored record with the key it is stored under.
pub struct Entry<T> {
    pub key: Key,
    pub value: T,
}

/// A finite map from [`Key`] to records of type `T`. No key occurs twice.
pub struct Table<T> {
    entries: Vec<Entry<T>>,
}

/// Whether some entry of `s` is stored under `k`.
pub open spec fn holds_key<T>(s: Seq<Entry<T>>, k: Key) -> bool {
    exists|i: int| 0 <= i < s.len() && (#[trigger] s[i]).key == k
}

/// The position of an entry of `s` stored under `k`.
pub open spec fn position<T>(s: Seq<Entry<T>>, k: Key) -> int {
    choose|i: int| 0 <= i < s.len() && (#[trigger] s[i]).key == k
}

/// The map that the entries `s` stand for.
pub open spec fn as_map<T>(s: Seq<Entry<T>>) -> Map<Key, T> {
    Map::new(|k: Key| holds_key(s, k), |k: Key| s[position(s, k)].value)
}

/// No two entries of `s` share a key.
pub open spec fn distinct_keys<T>(s: Seq<Entry<T>>) -> bool {
    forall|i: int, j: int|
        0 <= i < j < s.len() ==> (#[trigger] s[i]).key != (#[trigger] s[j]).key
}

impl<T> Table<T> {
    #[verifier::type_invariant]
    spec fn inv(self) -> bool {
        distinct_keys(self.entries@)
    }
}

impl<T: Copy> Table<T> {
    /// The map from keys to records that the table holds.
    pub closed spec fn view(self) -> Map<Key, T> {
        as_map(self.entries@)
    }

    /// The empty table.
    pub fn new() -> (t: Self)
        ensures
            t@ == Map::<Key, T>::empty(),
    {
        let t = Table { entries: Vec::new() };
        assert(t@ =~= Map::<Key, T>::empty());
        t
    }

    fn find(&self, key: &Key) -> (r: Option<usize>)
        ensures
            match r {
                Some(i) => i < self.entries@.len() && self.entries@[i as int].key == *key,
                None => !holds_key(self.entries@, *key),
            },
    {
        let mut i: usize = 0;
        while i < self.entries.len()
            invariant
                i <= self.entries@.len(),
                forall|j: int| 0 <= j < i ==> (#[trigger] self.entries@[j]).key != *key,
            decreases self.entries@.len() - i,
        {
            if self.entries[i].key == *key {
                return Some(i);
            }
            i = i + 1;
        }
        None
    }

    /// The record stored under `key`, if there is one.
    pub fn get(&self, key: &Key) -> (r: Option<T>)
        ensures
            r == (if self@.contains_key(*key) {
                Some(self@[*key])
            } else {
                None
            }),
    {
        proof {
            use_type_invariant(self);
        }
        match self.find(key) {
            Some(i) => {
                assert(holds_key(self.entries@, *key));
                Some(self.entries[i].value)
            },
            None => None,
        }
    }

    /// Whether a record is stored under `key`.
    pub fn contains(&self, key: &Key) -> (r: bool)
        ensures
            r == self@.contains_key(*key),
    {
        match self.find(key) {
            Some(i) => {
                assert(holds_key(self.entries@, *key));
                true
            },
            None => false,
        }
    }

    /// Stores `value` under `key`, replacing what was stored there.
    pub fn put(&mut self, key: Key, value: T)
        ensures
            final(self)@ == old(self)@.insert(key, value),
    {
        proof {
            use_type_invariant(&*self);
        }
        let found = self.find(&key);
        let ghost before = self.entries@;
        let mut entries: Vec<Entry<T>> = Vec::new();
        std::mem::swap(&mut self.entries, &mut entries);
        match found {
            Some(i) => {
                entries[i] = Entry { key, value };
                proof {
                    let after = entries@;
                    assert(after == before.update(i as int, Entry { key, value }));
                    assert forall|k: Key| holds_key(after, k) == holds_key(before, k) by {
                        if holds_key(before, k) {
                            let p = position(before, k);
                            assert(after[p].key == k);
                        }
                        if holds_key(after, k) {
                            let p = position(after, k);
                            assert(before[p].key == k);
                        }
                    }
                    assert(distinct_keys(after));
                    assert forall|k: Key| holds_key(after, k) implies as_map(after)[k] == (
                    if k == key {
                        value
                    } else {
                        as_map(before)[k]
                    }) by {
                        let p = position(after, k);
                        let q = position(before, k);
                        assert(after[p].key == k);
                        assert(before[q].key == k);
                        assert(before[p].key == k);
                        if k == key {
                            assert(after[i as int].key == k);
                        }
                    }
                    assert(holds_key(before, key));
                    assert(as_map(after) =~= as_map(before).insert(key, value));
                }
            },
            None => {
                entries.push(Entry { key, value });
                proof {
                    let after = entries@;
                    assert(after == before.push(Entry { key, value }));
                    assert(distinct_keys(after));
                    assert(after[before.len() as int].key == key);
                    assert forall|k: Key| holds_key(after, k) == (k == key || holds_key(
                        before,
                        k,
                    )) by {
                        if holds_key(before, k) {
                            let p = position(before, k);
                            assert(after[p].key == k);
                        }
                        if holds_key(after, k) && k != key {
                            let p = position(after, k);
                            assert(before[p].key == k);
                        }
                    }
                    assert forall|k: Key| holds_key(after, k) implies as_map(after)[k] == (
                    if k == key {
                        value
                    } else {
                        as_map(before)[k]
                    }) by {
                        let p = position(after, k);
                        assert(after[p].key == k);
                        if k != key {
                            let q = position(before, k);
                            assert(before[q].key == k);
                            assert(after[q].key == k);
                        }
                    }
                    assert(as_map(after) =~= as_map(before).insert(key, value));
                }
            },
        }
        self.entries = entries;
    }

    /// A copy of the table.
    pub fn snapshot(&self) -> (t: Self)
        ensures
            t@ == self@,
    {
        proof {
            use_type_invariant(self);
        }
        let mut entries: Vec<Entry<T>> = Vec::new();
        let mut i: usize = 0;
        while i < self.entries.len()
            invariant
                i <= self.entries@.len(),
                entries@ == self.entries@.subrange(0, i as int),
            decreases self.entries@.len() - i,
        {
            entries.push(Entry { key: self.entries[i].key, value: self.entries[i].value });
            i = i + 1;
            assert(entries@ =~= self.entries@.subrange(0, i as int));
        }
        assert(entries@ =~= self.entries@);
        Table { entries }
    }

    /// The number of records stored.
    pub fn len(&self) -> (n: usize)
        ensures
            n == self@.len(),
    {
        proof {
            use_type_invariant(self);
            Self::lemma_len(self.entries@);
        }
        self.entries.len()
    }

    proof fn lemma_len(s: Seq<Entry<T>>)
        requires
            distinct_keys(s),
        ensures
            as_map(s).dom().finite(),
            as_map(s).len() == s.len(),
        decreases s.len(),
    {
        if s.len() == 0 {
            assert(as_map(s).dom() =~= Set::<Key>::empty());
        } else {
            let head = s.drop_last();
            let last = s.last();
            assert(distinct_keys(head));
            Self::lemma_len(head);
            assert forall|k: Key| holds_key(s, k) == (k == last.key || holds_key(head, k)) by {
                if holds_key(head, k) {
                    let p = position(head, k);
                    assert(s[p].key == k);
                }
                if holds_key(s, k) && k != last.key {
                    let p = position(s, k);
                    assert(head[p].key == k);
                }
                if k == last.key {
                    assert(s[s.len() - 1].key == k);
                }
            }
            assert(!holds_key(head, last.key)) by {
                if holds_key(head, last.key) {
                    let p = position(head, last.key);
                    assert(s[p].key == s[s.len() - 1].key);
                }
            }
            assert(as_map(s).dom() =~= as_map(head).dom().insert(last.key));
        }
    }
}

} // verus!
