//! Keyed entries as a data file lists them: `(key, value)` pairs, looked up
//! by the first pair whose key matches (as a map read from the file does).

use vstd::prelude::*;

use crate::text::str_eq;

verus! {

/// `i` is the first position whose key is `key`.
pub open spec fn is_first_with_key<S>(entries: Seq<(String, S)>, key: Seq<char>, i: int) -> bool {
    &&& 0 <= i < entries.len()
    &&& entries[i].0@ == key
    &&& forall|j: int| 0 <= j < i ==> entries[j].0@ != key
}

/// Some entry has the key `key`.
pub open spec fn has_key<S>(entries: Seq<(String, S)>, key: Seq<char>) -> bool {
    exists|i: int| 0 <= i < entries.len() && entries[i].0@ == key
}

/// The first position whose key is `key`.
pub open spec fn first_with_key<S>(entries: Seq<(String, S)>, key: Seq<char>) -> int {
    choose|i: int| is_first_with_key(entries, key, i)
}

/// The value stored under `key`, if any (the first one, where keys repeat).
pub open spec fn lookup<S>(entries: Seq<(String, S)>, key: Seq<char>) -> Option<S> {
    if has_key(entries, key) {
        Some(entries[first_with_key(entries, key)].1)
    } else {
        None
    }
}

/// There is exactly one first position for a present key.
pub proof fn lemma_first_with_key<S>(entries: Seq<(String, S)>, key: Seq<char>, i: int)
    requires
        is_first_with_key(entries, key, i),
    ensures
        has_key(entries, key),
        first_with_key(entries, key) == i,
        lookup(entries, key) == Some(entries[i].1),
{
    assert(is_first_with_key(entries, key, i));
    let k = first_with_key(entries, key);
    assert(is_first_with_key(entries, key, k));
    if k < i {
        assert(entries[k].0@ != key);
    } else if i < k {
        assert(entries[i].0@ != key);
    }
}

/// A key that occurs has a first position.
pub proof fn lemma_key_has_first<S>(entries: Seq<(String, S)>, key: Seq<char>, j: int)
    requires
        0 <= j < entries.len(),
        entries[j].0@ == key,
    ensures
        is_first_with_key(entries, key, first_with_key(entries, key)),
    decreases j,
{
    if exists|k: int| 0 <= k < j && entries[k].0@ == key {
        let k = choose|k: int| 0 <= k < j && entries[k].0@ == key;
        lemma_key_has_first(entries, key, k);
    } else {
        assert(is_first_with_key(entries, key, j));
    }
}

/// Position of the first entry whose key is `key`.
pub fn find_key<S>(entries: &Vec<(String, S)>, key: &str) -> (r: Option<usize>)
    ensures
        r matches Some(i) ==> is_first_with_key(entries@, key@, i as int) && lookup(entries@, key@)
            == Some(entries@[i as int].1),
        r is None <==> !has_key(entries@, key@),
        r is None ==> lookup(entries@, key@) is None,
{
    let mut i: usize = 0;
    while i < entries.len()
        invariant
            i <= entries.len(),
            forall|j: int| 0 <= j < i ==> entries@[j].0@ != key@,
        decreases entries.len() - i,
    {
        if str_eq(entries[i].0.as_str(), key) {
            proof {
                lemma_first_with_key(entries@, key@, i as int);
            }
            return Some(i);
        }
        i += 1;
    }
    None
}

/// No key occurs twice, as in a map read from a data file.
pub open spec fn keys_distinct<S>(entries: Seq<(String, S)>) -> bool {
    forall|i: int, j: int| 0 <= i < j < entries.len() ==> #[trigger] entries[i].0@ != #[trigger] entries[j].0@
}

/// Law: where no key occurs twice, the value looked up under an entry's key
/// is that entry's value.
pub proof fn lemma_distinct_keys_lookup<S>(entries: Seq<(String, S)>, i: int)
    requires
        keys_distinct(entries),
        0 <= i < entries.len(),
    ensures
        lookup(entries, entries[i].0@) == Some(entries[i].1),
{
    assert forall|j: int| 0 <= j < i implies entries[j].0@ != entries[i].0@ by {
        assert(entries[j].0@ != entries[i].0@);
    }
    lemma_first_with_key(entries, entries[i].0@, i);
}

/// No key occurs twice (see [`keys_distinct`]).
pub fn has_distinct_keys<S>(entries: &Vec<(String, S)>) -> (r: bool)
    ensures
        r == keys_distinct(entries@),
{
    let n = entries.len();
    let mut j: usize = 0;
    while j < n
        invariant
            j <= n,
            n == entries@.len(),
            forall|a: int, b: int| 0 <= a < b < j ==> #[trigger] entries@[a].0@ != #[trigger] entries@[b].0@,
        decreases n - j,
    {
        let mut i: usize = 0;
        while i < j
            invariant
                i <= j,
                j < n,
                n == entries@.len(),
                forall|a: int| 0 <= a < i ==> #[trigger] entries@[a].0@ != entries@[j as int].0@,
            decreases j - i,
        {
            if str_eq(entries[i].0.as_str(), entries[j].0.as_str()) {
                assert(entries@[i as int].0@ == entries@[j as int].0@);
                return false;
            }
            i += 1;
        }
        j += 1;
    }
    true
}

} // verus!
