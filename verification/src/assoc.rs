//! Lists of keyed items in which, of two items with one key, the later one
//! counts.

use vstd::prelude::*;

verus! {

/// The position of the last of `keys` that equals `key`.
pub open spec fn last_index_of<K>(keys: Seq<K>, key: K) -> Option<int>
    decreases keys.len(),
{
    if keys.len() == 0 {
        None
    } else if keys.last() == key {
        Some(keys.len() - 1)
    } else {
        last_index_of(keys.drop_last(), key)
    }
}

/// `last_index_of` finds `i` where `key` stands at `i` and nowhere after it.
pub proof fn lemma_last_index_found<K>(keys: Seq<K>, key: K, i: int)
    requires
        0 <= i < keys.len(),
        keys[i] == key,
        forall|j: int| i < j < keys.len() ==> keys[j] != key,
    ensures
        last_index_of(keys, key) == Some(i),
    decreases keys.len(),
{
    if i < keys.len() - 1 {
        lemma_last_index_found(keys.drop_last(), key, i);
    }
}

/// `last_index_of` finds nothing where `key` stands nowhere.
pub proof fn lemma_last_index_absent<K>(keys: Seq<K>, key: K)
    requires
        forall|j: int| 0 <= j < keys.len() ==> keys[j] != key,
    ensures
        last_index_of(keys, key) is None,
    decreases keys.len(),
{
    if keys.len() > 0 {
        lemma_last_index_absent(keys.drop_last(), key);
    }
}

/// Where `last_index_of` finds a position, `key` stands there.
pub proof fn lemma_last_index_in_range<K>(keys: Seq<K>, key: K)
    ensures
        last_index_of(keys, key) matches Some(i) ==> 0 <= i < keys.len() && keys[i] == key,
    decreases keys.len(),
{
    if keys.len() > 0 && keys.last() != key {
        lemma_last_index_in_range(keys.drop_last(), key);
    }
}

/// The ids of a list of items kept by id, in order.
pub open spec fn ids_of<K, T>(entries: Seq<(K, T)>) -> Seq<K> {
    Seq::new(entries.len(), |i: int| entries[i].0)
}

/// A number that items are kept by.
pub trait Id: Copy {
    /// Whether two ids are the same number.
    fn same(self, other: Self) -> (same: bool)
        ensures
            same == (self == other),
    ;
}

impl Id for i32 {
    fn same(self, other: i32) -> (same: bool) {
        self == other
    }
}

impl Id for i64 {
    fn same(self, other: i64) -> (same: bool) {
        self == other
    }
}

impl Id for u64 {
    fn same(self, other: u64) -> (same: bool) {
        self == other
    }
}

/// The position of the last item of `entries` kept under `id`.
pub fn find_id<K: Id, T>(entries: &Vec<(K, T)>, id: K) -> (found: Option<usize>)
    ensures
        match found {
            Some(i) => i < entries@.len() && last_index_of(ids_of(entries@), id) == Some(i as int),
            None => last_index_of(ids_of(entries@), id) is None,
        },
{
    let mut i: usize = entries.len();
    while i > 0
        invariant
            i <= entries@.len(),
            forall|j: int| i <= j < entries@.len() ==> ids_of(entries@)[j] != id,
        decreases i,
    {
        i -= 1;
        if entries[i].0.same(id) {
            proof {
                lemma_last_index_found(ids_of(entries@), id, i as int);
            }
            return Some(i);
        }
    }
    proof {
        lemma_last_index_absent(ids_of(entries@), id);
    }
    None
}

} // verus!
