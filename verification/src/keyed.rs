//! A store of values keyed by text, in which no key occurs twice.

use vstd::prelude::*;
use vstd::string::*;

verus! {

/// True when some entry of `entries` has the key `k`.
pub open spec fn has_key<V>(entries: Seq<(String, V)>, k: Seq<char>) -> bool {
    exists|i: int| 0 <= i < entries.len() && (#[trigger] entries[i]).0@ == k
}

/// A place at which `entries` holds the key `k`.
pub open spec fn slot_of<V>(entries: Seq<(String, V)>, k: Seq<char>) -> int {
    choose|i: int| 0 <= i < entries.len() && (#[trigger] entries[i]).0@ == k
}

/// True when no two entries share a key.
pub open spec fn distinct_keys<V>(entries: Seq<(String, V)>) -> bool {
    forall|i: int, j: int|
        0 <= i < j < entries.len() ==> (#[trigger] entries[i]).0@ != (#[trigger] entries[j]).0@
}

/// The map that a list of entries with distinct keys stands for.
pub open spec fn entries_map<V>(entries: Seq<(String, V)>) -> Map<Seq<char>, V> {
    Map::new(|k: Seq<char>| has_key(entries, k), |k: Seq<char>| entries[slot_of(entries, k)].1)
}

/// In a list with distinct keys, the key found at a place is found nowhere else.
pub proof fn lemma_slot_is_unique<V>(entries: Seq<(String, V)>, i: int)
    requires
        distinct_keys(entries),
        0 <= i < entries.len(),
    ensures
        has_key(entries, entries[i].0@),
        slot_of(entries, entries[i].0@) == i,
        entries_map(entries).contains_key(entries[i].0@),
        entries_map(entries)[entries[i].0@] == entries[i].1,
{
    let k = entries[i].0@;
    assert(has_key(entries, k));
    let j = slot_of(entries, k);
    assert(0 <= j < entries.len() && entries[j].0@ == k);
    if j < i {
        assert(entries[j].0@ != entries[i].0@);
    } else if i < j {
        assert(entries[i].0@ != entries[j].0@);
    }
}

/// Adding an entry under an unused key adds that key to the map.
pub proof fn lemma_push_entry<V>(entries: Seq<(String, V)>, key: String, value: V)
    requires
        distinct_keys(entries),
        !has_key(entries, key@),
    ensures
        distinct_keys(entries.push((key, value))),
        entries_map(entries.push((key, value))) == entries_map(entries).insert(key@, value),
{
    let after = entries.push((key, value));
    assert forall|i: int, j: int| 0 <= i < j < after.len() implies (#[trigger] after[i]).0@ != (
    #[trigger] after[j]).0@ by {
        if j < entries.len() {
            assert(entries[i].0@ != entries[j].0@);
        } else {
            assert(after[i] == entries[i]);
        }
    }
    assert forall|k: Seq<char>|
        entries_map(after).contains_key(k) == entries_map(entries).insert(key@, value).contains_key(
            k,
        ) by {
        if has_key(after, k) {
            let i = slot_of(after, k);
            if i < entries.len() {
                assert(entries[i] == after[i]);
            }
        }
        if has_key(entries, k) {
            let i = slot_of(entries, k);
            assert(after[i] == entries[i]);
        }
        if k == key@ {
            assert(after[entries.len() as int].0@ == k);
        }
    }
    assert forall|k: Seq<char>| entries_map(after).contains_key(k) implies entries_map(after)[k]
        == entries_map(entries).insert(key@, value)[k] by {
        if k == key@ {
            lemma_slot_is_unique(after, entries.len() as int);
        } else {
            let i = slot_of(after, k);
            assert(i < entries.len());
            assert(after[i] == entries[i]);
            lemma_slot_is_unique(entries, i);
        }
    }
    assert(entries_map(after) =~= entries_map(entries).insert(key@, value));
}

/// Replacing the entry at a place by one with the same key replaces its value in the map.
pub proof fn lemma_replace_entry<V>(entries: Seq<(String, V)>, i: int, key: String, value: V)
    requires
        distinct_keys(entries),
        0 <= i < entries.len(),
        entries[i].0@ == key@,
    ensures
        distinct_keys(entries.update(i, (key, value))),
        entries_map(entries.update(i, (key, value))) == entries_map(entries).insert(key@, value),
{
    let after = entries.update(i, (key, value));
    assert forall|a: int, b: int| 0 <= a < b < after.len() implies (#[trigger] after[a]).0@ != (
    #[trigger] after[b]).0@ by {
        assert(after[a].0@ == entries[a].0@);
        assert(after[b].0@ == entries[b].0@);
        assert(entries[a].0@ != entries[b].0@);
    }
    assert forall|k: Seq<char>| has_key(after, k) == has_key(entries, k) by {
        if has_key(after, k) {
            let j = slot_of(after, k);
            assert(entries[j].0@ == k);
        }
        if has_key(entries, k) {
            let j = slot_of(entries, k);
            assert(after[j].0@ == k);
        }
    }
    lemma_slot_is_unique(entries, i);
    assert forall|k: Seq<char>| entries_map(after).contains_key(k) implies entries_map(after)[k]
        == entries_map(entries).insert(key@, value)[k] by {
        let j = slot_of(after, k);
        lemma_slot_is_unique(after, j);
        if j != i {
            assert(after[j] == entries[j]);
            lemma_slot_is_unique(entries, j);
        }
    }
    assert(entries_map(after) =~= entries_map(entries).insert(key@, value));
}

/// Taking the entry at a place out removes its key from the map and nothing else.
pub proof fn lemma_remove_entry<V>(entries: Seq<(String, V)>, i: int)
    requires
        distinct_keys(entries),
        0 <= i < entries.len(),
    ensures
        distinct_keys(entries.remove(i)),
        entries_map(entries.remove(i)) == entries_map(entries).remove(entries[i].0@),
{
    let after = entries.remove(i);
    let gone = entries[i].0@;
    assert forall|a: int, b: int| 0 <= a < b < after.len() implies (#[trigger] after[a]).0@ != (
    #[trigger] after[b]).0@ by {
        let a0 = if a < i { a } else { a + 1 };
        let b0 = if b < i { b } else { b + 1 };
        assert(after[a] == entries[a0]);
        assert(after[b] == entries[b0]);
        assert(entries[a0].0@ != entries[b0].0@);
    }
    assert forall|k: Seq<char>|
        entries_map(after).contains_key(k) == entries_map(entries).remove(gone).contains_key(
            k,
        ) by {
        if has_key(after, k) {
            let j = slot_of(after, k);
            let j0 = if j < i { j } else { j + 1 };
            assert(after[j] == entries[j0]);
            assert(entries[j0].0@ == k);
            if k == gone {
                lemma_slot_is_unique(entries, i);
                lemma_slot_is_unique(entries, j0);
            }
        }
        if has_key(entries, k) && k != gone {
            let j = slot_of(entries, k);
            let j1 = if j < i { j } else { j - 1 };
            assert(after[j1] == entries[j]);
        }
    }
    assert forall|k: Seq<char>| entries_map(after).contains_key(k) implies entries_map(after)[k]
        == entries_map(entries).remove(gone)[k] by {
        let j = slot_of(after, k);
        let j0 = if j < i { j } else { j + 1 };
        assert(after[j] == entries[j0]);
        lemma_slot_is_unique(after, j);
        lemma_slot_is_unique(entries, j0);
    }
    assert(entries_map(after) =~= entries_map(entries).remove(gone));
}

/// A store of values under text keys. Each key has at most one value.
pub struct KeyedStore<V> {
    entries: Vec<(String, V)>,
}

impl<V> View for KeyedStore<V> {
    type V = Map<Seq<char>, V>;

    closed spec fn view(&self) -> Map<Seq<char>, V> {
        entries_map(self.entries@)
    }
}

impl<V> KeyedStore<V> {
    #[verifier::type_invariant]
    spec fn well_formed(&self) -> bool {
        distinct_keys(self.entries@)
    }

    /// A store that holds nothing.
    pub fn new() -> (store: Self)
        ensures
            store@ == Map::<Seq<char>, V>::empty(),
    {
        let store = KeyedStore { entries: Vec::new() };
        proof {
            assert(store@ =~= Map::<Seq<char>, V>::empty());
        }
        store
    }

    /// The place of `key` among the entries, if it has one.
    fn find(entries: &Vec<(String, V)>, key: &str) -> (r: Option<usize>)
        ensures
            match r {
                Some(i) => i < entries@.len() && entries@[i as int].0@ == key@,
                None => !has_key(entries@, key@),
            },
    {
        let wanted = key.to_owned();
        let mut i: usize = 0;
        while i < entries.len()
            invariant
                wanted@ == key@,
                0 <= i <= entries@.len(),
                forall|j: int| 0 <= j < i ==> (#[trigger] entries@[j]).0@ != key@,
            decreases entries@.len() - i,
        {
            if entries[i].0 == wanted {
                return Some(i);
            }
            i = i + 1;
        }
        None
    }

    /// True when the store holds a value under `key`.
    pub fn contains_key(&self, key: &str) -> (r: bool)
        ensures
            r == self@.contains_key(key@),
    {
        Self::find(&self.entries, key).is_some()
    }

    /// The value under `key`, if there is one.
    pub fn get(&self, key: &str) -> (r: Option<&V>)
        ensures
            match r {
                Some(v) => self@.contains_key(key@) && *v == self@[key@],
                None => !self@.contains_key(key@),
            },
    {
        proof {
            use_type_invariant(&*self);
        }
        match Self::find(&self.entries, key) {
            Some(i) => {
                proof {
                    lemma_slot_is_unique(self.entries@, i as int);
                }
                Some(&self.entries[i].1)
            },
            None => None,
        }
    }

    /// Puts `value` under `key`, in place of any value that was there.
    pub fn insert(&mut self, key: String, value: V)
        ensures
            final(self)@ == old(self)@.insert(key@, value),
    {
        proof {
            use_type_invariant(&*self);
        }
        let mut entries: Vec<(String, V)> = Vec::new();
        std::mem::swap(&mut entries, &mut self.entries);
        match Self::find(&entries, key.as_str()) {
            Some(i) => {
                proof {
                    lemma_replace_entry(entries@, i as int, key, value);
                }
                entries.set(i, (key, value));
            },
            None => {
                proof {
                    lemma_push_entry(entries@, key, value);
                }
                entries.push((key, value));
            },
        }
        self.entries = entries;
    }

    /// Takes the value under `key` out of the store, if there is one.
    pub fn remove(&mut self, key: &str) -> (r: Option<V>)
        ensures
            final(self)@ == old(self)@.remove(key@),
            match r {
                Some(v) => old(self)@.contains_key(key@) && v == old(self)@[key@],
                None => !old(self)@.contains_key(key@),
            },
    {
        proof {
            use_type_invariant(&*self);
        }
        let mut entries: Vec<(String, V)> = Vec::new();
        std::mem::swap(&mut entries, &mut self.entries);
        let found = Self::find(&entries, key);
        let r = match found {
            Some(i) => {
                proof {
                    lemma_slot_is_unique(entries@, i as int);
                    lemma_remove_entry(entries@, i as int);
                }
                let entry = entries.remove(i);
                Some(entry.1)
            },
            None => {
                proof {
                    assert(entries_map(entries@).remove(key@) =~= entries_map(entries@));
                }
                None
            },
        };
        self.entries = entries;
        r
    }

    /// Empties the store.
    pub fn clear(&mut self)
        ensures
            final(self)@ == Map::<Seq<char>, V>::empty(),
    {
        self.entries = Vec::new();
        proof {
            assert(entries_map(self.entries@) =~= Map::<Seq<char>, V>::empty());
        }
    }

    /// The number of keys in the store.
    pub fn len(&self) -> (n: usize)
        ensures
            n == self@.len(),
            self@.dom().finite(),
    {
        proof {
            use_type_invariant(&*self);
            lemma_entries_map_len(self.entries@);
        }
        self.entries.len()
    }
}

/// A list with distinct keys stands for a finite map with as many keys as entries.
pub proof fn lemma_entries_map_len<V>(entries: Seq<(String, V)>)
    requires
        distinct_keys(entries),
    ensures
        entries_map(entries).dom().finite(),
        entries_map(entries).len() == entries.len(),
    decreases entries.len(),
{
    if entries.len() == 0 {
        assert(entries_map(entries) =~= Map::<Seq<char>, V>::empty());
    } else {
        let front = entries.drop_last();
        let last = entries.last();
        assert forall|i: int, j: int| 0 <= i < j < front.len() implies (#[trigger] front[i]).0@ != (
        #[trigger] front[j]).0@ by {
            assert(front[i] == entries[i]);
            assert(front[j] == entries[j]);
        }
        lemma_entries_map_len(front);
        if has_key(front, last.0@) {
            let i = slot_of(front, last.0@);
            assert(front[i] == entries[i]);
            assert(entries[i].0@ != entries[entries.len() - 1].0@);
        }
        lemma_push_entry(front, last.0, last.1);
        assert(front.push((last.0, last.1)) =~= entries);
        assert(!entries_map(front).contains_key(last.0@));
    }
}

} // verus!
