//! A table of entries, each under a key of its own.

use crate::address::Address;
use vstd::prelude::*;

verus! {

/// A type whose values can be told apart by their views.
pub trait Key: View + Sized {
    /// Whether two keys are the same.
    fn same(&self, other: &Self) -> (r: bool)
        ensures
            r == (self@ == other@),
    ;
}

impl Key for u32 {
    fn same(&self, other: &u32) -> (r: bool) {
        *self == *other
    }
}

impl Key for u64 {
    fn same(&self, other: &u64) -> (r: bool) {
        *self == *other
    }
}

impl Key for (u64, u32) {
    fn same(&self, other: &(u64, u32)) -> (r: bool) {
        self.0 == other.0 && self.1 == other.1
    }
}

impl Key for Address {
    fn same(&self, other: &Address) -> (r: bool) {
        *self == *other
    }
}

impl Key for String {
    fn same(&self, other: &String) -> (r: bool) {
        *self == *other
    }
}

/// Entries in the order in which their keys first came, one for each key.
#[derive(Debug)]
pub struct Table<K: Key, E: View> {
    entries: Vec<(K, E)>,
}

impl<K: Key, E: View> View for Table<K, E> {
    type V = Map<K::V, E::V>;

    closed spec fn view(&self) -> Map<K::V, E::V> {
        entry_map(self.entries@)
    }
}

/// The keys of a sequence of entries.
spec fn keys<K: Key, E: View>(entries: Seq<(K, E)>) -> Seq<K::V> {
    entries.map_values(|entry: (K, E)| entry.0@)
}

/// The map that a sequence of entries with distinct keys stands for.
spec fn entry_map<K: Key, E: View>(entries: Seq<(K, E)>) -> Map<K::V, E::V> {
    Map::new(
        |k: K::V| keys(entries).contains(k),
        |k: K::V| entries[keys(entries).index_of(k)].1@,
    )
}

/// The entry at a position is the one that the map has under its key.
proof fn lemma_entry<K: Key, E: View>(entries: Seq<(K, E)>, i: int)
    requires
        keys(entries).no_duplicates(),
        0 <= i < entries.len(),
    ensures
        entry_map(entries).contains_key(entries[i].0@),
        entry_map(entries)[entries[i].0@] == entries[i].1@,
{
    let k = entries[i].0@;
    assert(keys(entries)[i] == k);
    assert(keys(entries).contains(k));
    let j = keys(entries).index_of(k);
    assert(0 <= j < keys(entries).len() && keys(entries)[j] == k);
    assert(i == j);
}

/// A key that no entry has is not in the map.
proof fn lemma_no_entry<K: Key, E: View>(entries: Seq<(K, E)>, k: K::V)
    requires
        forall|i: int| 0 <= i < entries.len() ==> (#[trigger] entries[i]).0@ != k,
    ensures
        !entry_map(entries).contains_key(k),
        !keys(entries).contains(k),
{
    if keys(entries).contains(k) {
        let i = keys(entries).index_of(k);
        assert(keys(entries)[i] == k);
        assert(entries[i].0@ == k);
    }
}

/// The entries stand for `m` where each of them is in `m`, and each key of `m` is
/// the key of one of them.
proof fn lemma_map_of<K: Key, E: View>(entries: Seq<(K, E)>, m: Map<K::V, E::V>)
    requires
        keys(entries).no_duplicates(),
        forall|i: int|
            0 <= i < entries.len() ==> m.contains_key((#[trigger] entries[i]).0@) && m[entries[i].0@]
                == entries[i].1@,
        forall|k: K::V| #[trigger]
            m.contains_key(k) ==> exists|i: int|
                0 <= i < entries.len() && (#[trigger] entries[i]).0@ == k,
    ensures
        entry_map(entries) == m,
{
    let e = entry_map(entries);
    assert forall|k: K::V| #[trigger] e.contains_key(k) implies m.contains_key(k) && m[k] == e[k] by {
        let i = keys(entries).index_of(k);
        assert(keys(entries)[i] == k);
        assert(entries[i].0@ == k);
    }
    assert forall|k: K::V| #[trigger] m.contains_key(k) implies e.contains_key(k) by {
        let i = choose|i: int| 0 <= i < entries.len() && (#[trigger] entries[i]).0@ == k;
        lemma_entry(entries, i);
    }
    assert(e =~= m);
}

impl<K: Key, E: View> Table<K, E> {
    #[verifier::type_invariant]
    spec fn distinct(self) -> bool {
        keys(self.entries@).no_duplicates()
    }

    /// A table with no entries.
    pub fn new() -> (table: Table<K, E>)
        ensures
            table@ == Map::<K::V, E::V>::empty(),
    {
        let table = Table { entries: Vec::new() };
        assert(table@ =~= Map::<K::V, E::V>::empty());
        table
    }

    /// The number of entries.
    pub fn len(&self) -> (n: usize)
        ensures
            self@.dom().finite(),
            n == self@.dom().len(),
    {
        proof {
            use_type_invariant(self);
            keys(self.entries@).unique_seq_to_set();
            assert(keys(self.entries@).to_set() =~= self@.dom());
        }
        self.entries.len()
    }

    /// The position of the entry under `key`, or the number of entries.
    fn find(entries: &Vec<(K, E)>, key: &K) -> (at: usize)
        ensures
            at <= entries@.len(),
            at < entries@.len() ==> entries@[at as int].0@ == key@,
            at == entries@.len() ==> forall|i: int|
                0 <= i < entries@.len() ==> (#[trigger] entries@[i]).0@ != key@,
    {
        let mut at: usize = 0;
        while at < entries.len()
            invariant
                at <= entries@.len(),
                forall|i: int| 0 <= i < at ==> (#[trigger] entries@[i]).0@ != key@,
            decreases entries@.len() - at,
        {
            if entries[at].0.same(key) {
                return at;
            }
            at += 1;
        }
        at
    }

    /// The entry under `key`.
    pub fn get(&self, key: &K) -> (entry: Option<&E>)
        ensures
            match entry {
                Some(e) => self@.contains_key(key@) && e@ == self@[key@],
                None => !self@.contains_key(key@),
            },
    {
        proof {
            use_type_invariant(self);
        }
        let at: usize = Self::find(&self.entries, key);
        if at < self.entries.len() {
            proof {
                lemma_entry(self.entries@, at as int);
            }
            Some(&self.entries[at].1)
        } else {
            proof {
                lemma_no_entry(self.entries@, key@);
            }
            None
        }
    }

    /// Puts `entry` under `key`, in place of what was there.
    pub fn insert(&mut self, key: K, entry: E)
        ensures
            final(self)@ == old(self)@.insert(key@, entry@),
    {
        proof {
            use_type_invariant(&*self);
        }
        let ghost before = self.entries@;
        let ghost m = entry_map(before).insert(key@, entry@);
        let mut entries: Vec<(K, E)> = Vec::new();
        std::mem::swap(&mut entries, &mut self.entries);
        let at: usize = Self::find(&entries, &key);
        if at < entries.len() {
            let ghost k = key@;
            entries.set(at, (key, entry));
            proof {
                assert(keys(entries@) =~= keys(before));
                assert forall|i: int| 0 <= i < entries@.len() implies m.contains_key(
                    (#[trigger] entries@[i]).0@,
                ) && m[entries@[i].0@] == entries@[i].1@ by {
                    lemma_entry(before, i);
                    assert(keys(before)[i] == before[i].0@);
                    assert(keys(before)[at as int] == before[at as int].0@);
                }
                assert forall|x: K::V| #[trigger] m.contains_key(x) implies exists|i: int|
                    0 <= i < entries@.len() && (#[trigger] entries@[i]).0@ == x by {
                    if x == k {
                        assert(entries@[at as int].0@ == x);
                    } else {
                        let i = keys(before).index_of(x);
                        assert(keys(before)[i] == x);
                        assert(before[i].0@ == x);
                        assert(entries@[i].0@ == x);
                    }
                }
                lemma_map_of(entries@, m);
            }
        } else {
            let ghost k = key@;
            entries.push((key, entry));
            proof {
                lemma_no_entry(before, k);
                assert(keys(entries@) =~= keys(before).push(k));
                assert forall|i: int| 0 <= i < entries@.len() implies m.contains_key(
                    (#[trigger] entries@[i]).0@,
                ) && m[entries@[i].0@] == entries@[i].1@ by {
                    if i < before.len() {
                        lemma_entry(before, i);
                        assert(entries@[i] == before[i]);
                    }
                }
                assert forall|x: K::V| #[trigger] m.contains_key(x) implies exists|i: int|
                    0 <= i < entries@.len() && (#[trigger] entries@[i]).0@ == x by {
                    if x == k {
                        assert(entries@[before.len() as int].0@ == x);
                    } else {
                        let i = keys(before).index_of(x);
                        assert(keys(before)[i] == x);
                        assert(entries@[i].0@ == x);
                    }
                }
                lemma_map_of(entries@, m);
            }
        }
        self.entries = entries;
    }

    /// Takes the entry under `key` out, if there is one.
    pub fn remove(&mut self, key: &K)
        ensures
            final(self)@ == old(self)@.remove(key@),
    {
        proof {
            use_type_invariant(&*self);
        }
        let ghost before = self.entries@;
        let ghost m = entry_map(before).remove(key@);
        let mut entries: Vec<(K, E)> = Vec::new();
        std::mem::swap(&mut entries, &mut self.entries);
        let at: usize = Self::find(&entries, key);
        if at < entries.len() {
            let _ = entries.remove(at);
            proof {
                let p = at as int;
                assert(forall|i: int|
                    0 <= i < entries@.len() ==> entries@[i] == before[if i < p { i } else { i + 1 }]);
                assert(forall|i: int| 0 <= i < before.len() ==> keys(before)[i] == before[i].0@);
                assert(forall|i: int|
                    0 <= i < entries@.len() ==> keys(entries@)[i] == keys(before)[if i < p {
                        i
                    } else {
                        i + 1
                    }]);
                assert forall|i: int| 0 <= i < entries@.len() implies m.contains_key(
                    (#[trigger] entries@[i]).0@,
                ) && m[entries@[i].0@] == entries@[i].1@ by {
                    let j = if i < p { i } else { i + 1 };
                    lemma_entry(before, j);
                    assert(keys(before)[j] != keys(before)[p]);
                }
                assert forall|x: K::V| #[trigger] m.contains_key(x) implies exists|i: int|
                    0 <= i < entries@.len() && (#[trigger] entries@[i]).0@ == x by {
                    let j = keys(before).index_of(x);
                    assert(keys(before)[j] == x);
                    assert(j != p);
                    let i = if j < p { j } else { j - 1 };
                    assert(entries@[i].0@ == x);
                }
                lemma_map_of(entries@, m);
            }
        } else {
            proof {
                lemma_no_entry(before, key@);
                assert(m =~= entry_map(before));
            }
        }
        self.entries = entries;
    }
}

} // verus!
