//! The gateway's session map: short-lived values kept in memory under text
//! keys. It has nothing to do with the persistent store.
//!
//! The map is a list of entries in which no key occurs twice; every operation
//! walks the list.

use vstd::prelude::*;

verus! {

/// One key of the session map with its value.
#[derive(Debug)]
struct Entry {
    key: String,
    value: Vec<u8>,
}

/// A map from text keys to byte values.
#[derive(Debug)]
pub struct SessionMap {
    entries: Vec<Entry>,
}

/// True when entry `i` of `entries` is the one for `key`.
spec fn keyed_at(entries: Seq<Entry>, i: int, key: Seq<char>) -> bool {
    0 <= i < entries.len() && entries[i].key@ == key
}

/// True when no key occurs twice in `entries`.
spec fn distinct_keys(entries: Seq<Entry>) -> bool {
    forall|i: int, j: int|
        0 <= i < j < entries.len() ==> #[trigger] entries[i].key@ != #[trigger] entries[j].key@
}

/// What the entries hold, as a map.
spec fn as_map(entries: Seq<Entry>) -> Map<Seq<char>, Seq<u8>> {
    Map::new(
        |key: Seq<char>| exists|i: int| keyed_at(entries, i, key),
        |key: Seq<char>| entries[choose|i: int| keyed_at(entries, i, key)].value@,
    )
}

/// Among distinct keys, an entry is the only one that carries its key, so the
/// map holds exactly its value under that key.
proof fn entry_is_mapped(entries: Seq<Entry>, i: int)
    requires
        distinct_keys(entries),
        0 <= i < entries.len(),
    ensures
        as_map(entries).contains_key(entries[i].key@),
        as_map(entries)[entries[i].key@] == entries[i].value@,
{
    let key = entries[i].key@;
    assert(keyed_at(entries, i, key));
    let chosen = choose|j: int| keyed_at(entries, j, key);
    if chosen < i {
        assert(entries[chosen].key@ != entries[i].key@);
    } else if i < chosen {
        assert(entries[i].key@ != entries[chosen].key@);
    }
}

/// A key of the map is carried by some entry.
proof fn mapped_is_entry(entries: Seq<Entry>, key: Seq<char>) -> (i: int)
    requires
        as_map(entries).contains_key(key),
    ensures
        keyed_at(entries, i, key),
{
    choose|i: int| keyed_at(entries, i, key)
}

/// Putting `entry` in the place of the entry that carries its key keeps the
/// keys distinct and changes the map at that key only.
proof fn replaced_entry(entries: Seq<Entry>, i: int, entry: Entry)
    requires
        distinct_keys(entries),
        keyed_at(entries, i, entry.key@),
    ensures
        distinct_keys(entries.update(i, entry)),
        as_map(entries.update(i, entry)) == as_map(entries).insert(entry.key@, entry.value@),
{
    let after = entries.update(i, entry);
    assert forall|a: int, b: int| 0 <= a < b < after.len() implies after[a].key@
        != after[b].key@ by {
        assert(entries[a].key@ != entries[b].key@);
    }
    let expected = as_map(entries).insert(entry.key@, entry.value@);
    assert forall|key: Seq<char>| as_map(after).contains_key(key) <==> expected.contains_key(
        key,
    ) by {
        if as_map(after).contains_key(key) {
            let j = mapped_is_entry(after, key);
            assert(keyed_at(entries, j, key));
        }
        if expected.contains_key(key) {
            let j = if key == entry.key@ {
                i
            } else {
                mapped_is_entry(entries, key)
            };
            assert(keyed_at(after, j, key));
        }
    }
    assert forall|key: Seq<char>| as_map(after).contains_key(key) implies as_map(after)[key]
        == expected[key] by {
        let j = mapped_is_entry(after, key);
        entry_is_mapped(after, j);
        if j != i {
            entry_is_mapped(entries, j);
        }
    }
    assert(as_map(after) =~= expected);
}

/// Adding an entry whose key no entry carries keeps the keys distinct and
/// adds that key to the map.
proof fn appended_entry(entries: Seq<Entry>, entry: Entry)
    requires
        distinct_keys(entries),
        forall|i: int| !keyed_at(entries, i, entry.key@),
    ensures
        distinct_keys(entries.push(entry)),
        as_map(entries.push(entry)) == as_map(entries).insert(entry.key@, entry.value@),
{
    let after = entries.push(entry);
    let last = entries.len() as int;
    assert forall|a: int, b: int| 0 <= a < b < after.len() implies after[a].key@
        != after[b].key@ by {
        if b == last {
            assert(!keyed_at(entries, a, entry.key@));
        } else {
            assert(entries[a].key@ != entries[b].key@);
        }
    }
    let expected = as_map(entries).insert(entry.key@, entry.value@);
    assert forall|key: Seq<char>| as_map(after).contains_key(key) <==> expected.contains_key(
        key,
    ) by {
        if as_map(after).contains_key(key) {
            let j = mapped_is_entry(after, key);
            if j < last {
                assert(keyed_at(entries, j, key));
            }
        }
        if expected.contains_key(key) {
            let j = if key == entry.key@ {
                last
            } else {
                mapped_is_entry(entries, key)
            };
            assert(keyed_at(after, j, key));
        }
    }
    assert forall|key: Seq<char>| as_map(after).contains_key(key) implies as_map(after)[key]
        == expected[key] by {
        let j = mapped_is_entry(after, key);
        entry_is_mapped(after, j);
        if j < last {
            entry_is_mapped(entries, j);
        }
    }
    assert(as_map(after) =~= expected);
}

/// Taking an entry out keeps the keys distinct and takes its key out of the
/// map.
proof fn removed_entry(entries: Seq<Entry>, i: int)
    requires
        distinct_keys(entries),
        0 <= i < entries.len(),
    ensures
        distinct_keys(entries.remove(i)),
        as_map(entries.remove(i)) == as_map(entries).remove(entries[i].key@),
{
    let after = entries.remove(i);
    let gone = entries[i].key@;
    // Where an entry of `after` sat in `entries`.
    let was = |j: int| if j < i { j } else { j + 1 };
    assert forall|a: int, b: int| 0 <= a < b < after.len() implies after[a].key@
        != after[b].key@ by {
        assert(entries[was(a)].key@ != entries[was(b)].key@);
    }
    let expected = as_map(entries).remove(gone);
    assert forall|key: Seq<char>| as_map(after).contains_key(key) <==> expected.contains_key(
        key,
    ) by {
        if as_map(after).contains_key(key) {
            let j = mapped_is_entry(after, key);
            assert(keyed_at(entries, was(j), key));
            if was(j) < i {
                assert(entries[was(j)].key@ != entries[i].key@);
            } else {
                assert(entries[i].key@ != entries[was(j)].key@);
            }
        }
        if expected.contains_key(key) {
            let j = mapped_is_entry(entries, key);
            assert(keyed_at(after, if j < i { j } else { j - 1 }, key));
        }
    }
    assert forall|key: Seq<char>| as_map(after).contains_key(key) implies as_map(after)[key]
        == expected[key] by {
        let j = mapped_is_entry(after, key);
        entry_is_mapped(after, j);
        entry_is_mapped(entries, was(j));
    }
    assert(as_map(after) =~= expected);
}

/// A key that no entry carries is not in the map.
proof fn absent_key(entries: Seq<Entry>, key: Seq<char>)
    requires
        forall|i: int| !keyed_at(entries, i, key),
    ensures
        !as_map(entries).contains_key(key),
        as_map(entries).remove(key) == as_map(entries),
{
    if as_map(entries).contains_key(key) {
        let i = mapped_is_entry(entries, key);
    }
    assert(as_map(entries).remove(key) =~= as_map(entries));
}

impl View for SessionMap {
    type V = Map<Seq<char>, Seq<u8>>;

    closed spec fn view(&self) -> Map<Seq<char>, Seq<u8>> {
        as_map(self.entries@)
    }
}

impl SessionMap {
    #[verifier::type_invariant]
    spec fn no_key_twice(self) -> bool {
        distinct_keys(self.entries@)
    }

    /// An empty map.
    pub fn new() -> (map: SessionMap)
        ensures
            map@ == Map::<Seq<char>, Seq<u8>>::empty(),
    {
        let map = SessionMap { entries: Vec::new() };
        assert(map@ =~= Map::<Seq<char>, Seq<u8>>::empty()) by {
            assert(forall|key: Seq<char>, i: int| !keyed_at(map.entries@, i, key));
        }
        map
    }

    /// Where the entry for `key` sits, if there is one.
    fn position(&self, key: &str) -> (found: Option<usize>)
        ensures
            match found {
                Some(i) => keyed_at(self.entries@, i as int, key@),
                None => forall|i: int| !keyed_at(self.entries@, i, key@),
            },
    {
        let wanted = key.to_owned();
        let mut i: usize = 0;
        while i < self.entries.len()
            invariant
                i <= self.entries@.len(),
                wanted@ == key@,
                forall|j: int| 0 <= j < i ==> !keyed_at(self.entries@, j, key@),
            decreases self.entries@.len() - i,
        {
            if self.entries[i].key == wanted {
                return Some(i);
            }
            i = i + 1;
        }
        None
    }

    /// The value kept under `key`, if there is one.
    pub fn get(&self, key: &str) -> (found: Option<&Vec<u8>>)
        ensures
            match found {
                Some(value) => self@.contains_key(key@) && self@[key@] == value@,
                None => !self@.contains_key(key@),
            },
    {
        proof {
            use_type_invariant(self);
        }
        match self.position(key) {
            Some(i) => {
                proof {
                    entry_is_mapped(self.entries@, i as int);
                }
                Some(&self.entries[i].value)
            },
            None => {
                proof {
                    absent_key(self.entries@, key@);
                }
                None
            },
        }
    }

    /// Keeps `value` under `key`, in place of whatever was kept there.
    pub fn set(&mut self, key: String, value: Vec<u8>)
        ensures
            final(self)@ == old(self)@.insert(key@, value@),
    {
        proof {
            use_type_invariant(&*self);
        }
        let found = self.position(key.as_str());
        let entry = Entry { key, value };
        // The list is taken out for the change and put back whole.
        let mut entries: Vec<Entry> = Vec::new();
        core::mem::swap(&mut self.entries, &mut entries);
        match found {
            Some(i) => {
                proof {
                    replaced_entry(entries@, i as int, entry);
                }
                entries[i] = entry;
            },
            None => {
                proof {
                    appended_entry(entries@, entry);
                }
                entries.push(entry);
            },
        }
        self.entries = entries;
    }

    /// Forgets `key` and its value. A key that is not there is left not there.
    pub fn delete(&mut self, key: &str)
        ensures
            final(self)@ == old(self)@.remove(key@),
    {
        proof {
            use_type_invariant(&*self);
        }
        match self.position(key) {
            Some(i) => {
                // The list is taken out for the change and put back whole.
                let mut entries: Vec<Entry> = Vec::new();
                core::mem::swap(&mut self.entries, &mut entries);
                proof {
                    removed_entry(entries@, i as int);
                }
                entries.remove(i);
                self.entries = entries;
            },
            None => {
                proof {
                    absent_key(self.entries@, key@);
                }
            },
        }
    }

    /// Every key of the map, each of them once.
    pub fn keys(&self) -> (keys: Vec<String>)
        ensures
            forall|i: int, j: int|
                0 <= i < j < keys@.len() ==> (#[trigger] keys@[i])@ != (#[trigger] keys@[j])@,
            forall|key: Seq<char>|
                self@.contains_key(key) <==> exists|i: int|
                    0 <= i < keys@.len() && (#[trigger] keys@[i])@ == key,
    {
        proof {
            use_type_invariant(self);
        }
        let mut keys: Vec<String> = Vec::new();
        let mut i: usize = 0;
        while i < self.entries.len()
            invariant
                i <= self.entries@.len(),
                keys@.len() == i,
                forall|j: int| 0 <= j < i ==> (#[trigger] keys@[j])@ == self.entries@[j].key@,
            decreases self.entries@.len() - i,
        {
            keys.push(self.entries[i].key.clone());
            i = i + 1;
        }
        proof {
            let entries = self.entries@;
            assert forall|a: int, b: int| 0 <= a < b < keys@.len() implies (#[trigger] keys@[a])@
                != (#[trigger] keys@[b])@ by {
                assert(entries[a].key@ != entries[b].key@);
            }
            assert forall|key: Seq<char>|
                self@.contains_key(key) <==> exists|i: int|
                    0 <= i < keys@.len() && (#[trigger] keys@[i])@ == key by {
                if self@.contains_key(key) {
                    let j = mapped_is_entry(entries, key);
                    assert(keys@[j]@ == key);
                }
                if exists|i: int| 0 <= i < keys@.len() && (#[trigger] keys@[i])@ == key {
                    let j = choose|i: int| 0 <= i < keys@.len() && (#[trigger] keys@[i])@ == key;
                    assert(keyed_at(entries, j, key));
                }
            }
        }
        keys
    }
}

} // verus!
