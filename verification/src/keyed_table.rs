//! Keyed tables: an append-only list of `(key, value)` pairs in which the
//! latest pair for a key is the one that counts. Its model is a `Map` from
//! key to value.
use vstd::prelude::*;

use crate::text::str_eq;

verus! {

/// The value of the latest pair for `key`.
pub open spec fn latest<V>(entries: Seq<(String, V)>, key: Seq<char>) -> Option<V>
    decreases entries.len(),
{
    if entries.len() == 0 {
        None
    } else if entries.last().0@ == key {
        Some(entries.last().1)
    } else {
        latest(entries.drop_last(), key)
    }
}

/// The table as a map: each key to the value of its latest pair.
pub open spec fn entry_map<V>(entries: Seq<(String, V)>) -> Map<Seq<char>, V> {
    Map::new(|k: Seq<char>| latest(entries, k) is Some, |k: Seq<char>| latest(entries, k)->Some_0)
}

pub proof fn lemma_entry_map_push<V>(entries: Seq<(String, V)>, key: String, value: V)
    ensures
        entry_map(entries.push((key, value))) == entry_map(entries).insert(key@, value),
{
    let pushed = entries.push((key, value));
    assert(pushed.drop_last() =~= entries);
    assert(entry_map(pushed) =~= entry_map(entries).insert(key@, value));
}

/// Where the latest pair for `key` stands, if there is one.
pub fn latest_index<V>(entries: &Vec<(String, V)>, key: &str) -> (r: Option<usize>)
    ensures
        match r {
            Some(i) => i < entries.len() && entry_map(entries@).contains_key(key@) && entry_map(
                entries@,
            )[key@] == entries@[i as int].1,
            None => !entry_map(entries@).contains_key(key@),
        },
{
    let mut i: usize = entries.len();
    assert(entries@.subrange(0, i as int) =~= entries@);
    while i > 0
        invariant
            i <= entries.len(),
            latest(entries@, key@) == latest(entries@.subrange(0, i as int), key@),
        decreases i,
    {
        let ghost pre = entries@.subrange(0, i as int);
        assert(pre.drop_last() =~= entries@.subrange(0, i - 1));
        assert(pre.last() == entries@[i - 1]);
        if str_eq(entries[i - 1].0.as_str(), key) {
            return Some(i - 1);
        }
        i = i - 1;
    }
    None
}

} // verus!
