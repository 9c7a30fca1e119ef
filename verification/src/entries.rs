use vstd::prelude::*;

use crate::text::str_equal;

verus! {

/// The keys of a sequence of entries are pairwise distinct.
pub open spec fn distinct_keys<K, V>(entries: Seq<(K, V)>) -> bool {
    forall|i: int, j: int|
        0 <= i < entries.len() && 0 <= j < entries.len() && i != j ==> (#[trigger] entries[i]).0
            != (#[trigger] entries[j]).0
}

/// Some entry has the key.
pub open spec fn has_key<K, V>(entries: Seq<(K, V)>, key: K) -> bool {
    exists|i: int| 0 <= i < entries.len() && (#[trigger] entries[i]).0 == key
}

/// The map that a sequence of entries with distinct keys stands for.
pub open spec fn entries_map<K, V>(entries: Seq<(K, V)>) -> Map<K, V> {
    Map::new(
        |k: K| has_key(entries, k),
        |k: K| entries[choose|i: int| 0 <= i < entries.len() && (#[trigger] entries[i]).0 == k].1,
    )
}

/// Entries keyed by text, keyed by the text's characters.
pub open spec fn text_keys<V>(entries: Seq<(String, V)>) -> Seq<(Seq<char>, V)> {
    entries.map_values(|entry: (String, V)| (entry.0@, entry.1))
}

/// The entry at `i` is what the map holds for its key.
pub proof fn lemma_entries_map_at<K, V>(entries: Seq<(K, V)>, i: int)
    requires
        distinct_keys(entries),
        0 <= i < entries.len(),
    ensures
        entries_map(entries).contains_key(entries[i].0),
        entries_map(entries)[entries[i].0] == entries[i].1,
{
    let k = entries[i].0;
    assert(has_key(entries, k));
    let j = choose|j: int| 0 <= j < entries.len() && (#[trigger] entries[j]).0 == k;
    assert(entries[j].0 == entries[i].0);
}

/// A key that no entry has is not in the map.
pub proof fn lemma_entries_map_absent<K, V>(entries: Seq<(K, V)>, key: K)
    requires
        forall|i: int| 0 <= i < entries.len() ==> (#[trigger] entries[i]).0 != key,
    ensures
        !entries_map(entries).contains_key(key),
{
}

/// Appending an entry with a new key inserts it into the map.
pub proof fn lemma_entries_map_push<K, V>(entries: Seq<(K, V)>, key: K, value: V)
    requires
        distinct_keys(entries),
        !has_key(entries, key),
    ensures
        distinct_keys(entries.push((key, value))),
        entries_map(entries.push((key, value))) == entries_map(entries).insert(key, value),
{
    let pushed = entries.push((key, value));
    assert forall|i: int, j: int|
        0 <= i < pushed.len() && 0 <= j < pushed.len() && i != j implies (#[trigger] pushed[i]).0
        != (#[trigger] pushed[j]).0 by {
        if i < entries.len() && j < entries.len() {
            assert(pushed[i] == entries[i] && pushed[j] == entries[j]);
        } else if i < entries.len() {
            assert(pushed[i] == entries[i]);
        } else {
            assert(pushed[j] == entries[j]);
        }
    }
    let m = entries_map(pushed);
    let e = entries_map(entries).insert(key, value);
    assert forall|k: K| #[trigger] m.contains_key(k) == e.contains_key(k) by {
        if has_key(entries, k) {
            let i = choose|i: int| 0 <= i < entries.len() && (#[trigger] entries[i]).0 == k;
            assert(pushed[i] == entries[i]);
        }
        if k == key {
            assert(pushed[entries.len() as int].0 == key);
        }
        if has_key(pushed, k) {
            let i = choose|i: int| 0 <= i < pushed.len() && (#[trigger] pushed[i]).0 == k;
            if i < entries.len() {
                assert(pushed[i] == entries[i]);
            }
        }
    }
    assert forall|k: K| #[trigger] m.contains_key(k) implies m[k] == e[k] by {
        if k == key {
            lemma_entries_map_at(pushed, entries.len() as int);
        } else {
            let i = choose|i: int| 0 <= i < pushed.len() && (#[trigger] pushed[i]).0 == k;
            assert(i < entries.len());
            assert(pushed[i] == entries[i]);
            lemma_entries_map_at(pushed, i);
            lemma_entries_map_at(entries, i);
        }
    }
    assert(m =~= e);
}

/// Replacing the value of the entry at `i` updates its key in the map.
pub proof fn lemma_entries_map_update<K, V>(entries: Seq<(K, V)>, i: int, value: V)
    requires
        distinct_keys(entries),
        0 <= i < entries.len(),
    ensures
        distinct_keys(entries.update(i, (entries[i].0, value))),
        entries_map(entries.update(i, (entries[i].0, value))) == entries_map(entries).insert(
            entries[i].0,
            value,
        ),
{
    let key = entries[i].0;
    let updated = entries.update(i, (key, value));
    assert forall|a: int, b: int|
        0 <= a < updated.len() && 0 <= b < updated.len() && a != b implies (
        #[trigger] updated[a]).0 != (#[trigger] updated[b]).0 by {
        assert(updated[a].0 == entries[a].0);
        assert(updated[b].0 == entries[b].0);
    }
    let m = entries_map(updated);
    let e = entries_map(entries).insert(key, value);
    assert forall|k: K| #[trigger] m.contains_key(k) == e.contains_key(k) by {
        if has_key(entries, k) {
            let j = choose|j: int| 0 <= j < entries.len() && (#[trigger] entries[j]).0 == k;
            assert(updated[j].0 == entries[j].0);
        }
        if has_key(updated, k) {
            let j = choose|j: int| 0 <= j < updated.len() && (#[trigger] updated[j]).0 == k;
            assert(updated[j].0 == entries[j].0);
        }
        if k == key {
            assert(updated[i].0 == key);
        }
    }
    assert forall|k: K| #[trigger] m.contains_key(k) implies m[k] == e[k] by {
        let j = choose|j: int| 0 <= j < updated.len() && (#[trigger] updated[j]).0 == k;
        assert(updated[j].0 == entries[j].0);
        lemma_entries_map_at(updated, j);
        if j != i {
            lemma_entries_map_at(entries, j);
        }
    }
    assert(m =~= e);
}

/// Removing the entry at `i` removes its key from the map.
pub proof fn lemma_entries_map_remove<K, V>(entries: Seq<(K, V)>, i: int)
    requires
        distinct_keys(entries),
        0 <= i < entries.len(),
    ensures
        distinct_keys(entries.remove(i)),
        entries_map(entries.remove(i)) == entries_map(entries).remove(entries[i].0),
{
    let key = entries[i].0;
    let removed = entries.remove(i);
    assert forall|a: int, b: int|
        0 <= a < removed.len() && 0 <= b < removed.len() && a != b implies (
        #[trigger] removed[a]).0 != (#[trigger] removed[b]).0 by {
        let a2 = if a < i {
            a
        } else {
            a + 1
        };
        let b2 = if b < i {
            b
        } else {
            b + 1
        };
        assert(removed[a] == entries[a2]);
        assert(removed[b] == entries[b2]);
    }
    let m = entries_map(removed);
    let e = entries_map(entries).remove(key);
    assert forall|k: K| #[trigger] m.contains_key(k) == e.contains_key(k) by {
        if has_key(removed, k) {
            let j = choose|j: int| 0 <= j < removed.len() && (#[trigger] removed[j]).0 == k;
            let j2 = if j < i {
                j
            } else {
                j + 1
            };
            assert(removed[j] == entries[j2]);
        }
        if has_key(entries, k) && k != key {
            let j = choose|j: int| 0 <= j < entries.len() && (#[trigger] entries[j]).0 == k;
            assert(j != i);
            let j2 = if j < i {
                j
            } else {
                j - 1
            };
            assert(removed[j2] == entries[j]);
        }
    }
    assert forall|k: K| #[trigger] m.contains_key(k) implies m[k] == e[k] by {
        let j = choose|j: int| 0 <= j < removed.len() && (#[trigger] removed[j]).0 == k;
        let j2 = if j < i {
            j
        } else {
            j + 1
        };
        assert(removed[j] == entries[j2]);
        lemma_entries_map_at(removed, j);
        lemma_entries_map_at(entries, j2);
    }
    assert(m =~= e);
}

/// The position of the entry keyed by `key`, if any.
pub fn find_text_key<V>(entries: &Vec<(String, V)>, key: &str) -> (found: Option<usize>)
    ensures
        match found {
            Some(i) => i < entries@.len() && entries@[i as int].0@ == key@,
            None => forall|i: int| 0 <= i < entries@.len() ==> (#[trigger] entries@[i]).0@ != key@,
        },
{
    let mut i: usize = 0;
    while i < entries.len()
        invariant
            i <= entries@.len(),
            forall|j: int| 0 <= j < i ==> (#[trigger] entries@[j]).0@ != key@,
        decreases entries@.len() - i,
    {
        if str_equal(entries[i].0.as_str(), key) {
            return Some(i);
        }
        i = i + 1;
    }
    None
}

/// Sets the value of `key`, returning the value it replaced.
pub fn insert_text_entry<V>(entries: &mut Vec<(String, V)>, key: &str, value: V) -> (previous:
    Option<V>)
    requires
        distinct_keys(text_keys(old(entries)@)),
    ensures
        distinct_keys(text_keys(final(entries)@)),
        entries_map(text_keys(final(entries)@)) == entries_map(text_keys(old(entries)@)).insert(
            key@,
            value,
        ),
        previous == (if entries_map(text_keys(old(entries)@)).contains_key(key@) {
            Some(entries_map(text_keys(old(entries)@))[key@])
        } else {
            None
        }),
{
    let ghost before = text_keys(entries@);
    match find_text_key(entries, key) {
        Some(i) => {
            let mut entry = (key.to_string(), value);
            entries.set_and_swap(i, &mut entry);
            proof {
                lemma_entries_map_at(before, i as int);
                lemma_entries_map_update(before, i as int, value);
                assert(text_keys(entries@) =~= before.update(i as int, (before[i as int].0, value)));
            }
            Some(entry.1)
        },
        None => {
            proof {
                lemma_entries_map_absent(before, key@);
                assert(!has_key(before, key@));
                lemma_entries_map_push(before, key@, value);
            }
            entries.push((key.to_string(), value));
            assert(text_keys(entries@) =~= before.push((key@, value)));
            None
        },
    }
}

/// Removes the entry of `key`, returning its value.
pub fn remove_text_entry<V>(entries: &mut Vec<(String, V)>, key: &str) -> (removed: Option<V>)
    requires
        distinct_keys(text_keys(old(entries)@)),
    ensures
        distinct_keys(text_keys(final(entries)@)),
        entries_map(text_keys(final(entries)@)) == entries_map(text_keys(old(entries)@)).remove(
            key@,
        ),
        removed == (if entries_map(text_keys(old(entries)@)).contains_key(key@) {
            Some(entries_map(text_keys(old(entries)@))[key@])
        } else {
            None
        }),
{
    let ghost before = text_keys(entries@);
    match find_text_key(entries, key) {
        Some(i) => {
            proof {
                lemma_entries_map_at(before, i as int);
                lemma_entries_map_remove(before, i as int);
            }
            let entry = entries.remove(i);
            assert(text_keys(entries@) =~= before.remove(i as int));
            Some(entry.1)
        },
        None => {
            proof {
                lemma_entries_map_absent(before, key@);
                assert(entries_map(before).remove(key@) =~= entries_map(before));
            }
            None
        },
    }
}

} // verus!
