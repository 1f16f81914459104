//! Where a key stands in a sequence of keys.
//!
//! The ledger keeps its records in the order in which their accounts were
//! first seen, and finds a record by the first position of its account.
use vstd::prelude::*;

verus! {

/// `i` is the first position of `key` in `keys`.
pub open spec fn first_at(keys: Seq<Seq<char>>, key: Seq<char>, i: int) -> bool {
    &&& 0 <= i < keys.len()
    &&& keys[i] == key
    &&& forall|j: int| 0 <= j < i ==> keys[j] != key
}

/// The first position of `key` in `keys`, for a key that occurs there.
pub open spec fn place(keys: Seq<Seq<char>>, key: Seq<char>) -> int {
    choose|i: int| first_at(keys, key, i)
}

/// A key has at most one first position.
pub proof fn lemma_first_unique(keys: Seq<Seq<char>>, key: Seq<char>, i: int, j: int)
    requires
        first_at(keys, key, i),
        first_at(keys, key, j),
    ensures
        i == j,
{
}

proof fn lemma_first_below(keys: Seq<Seq<char>>, key: Seq<char>, k: int)
    requires
        0 <= k < keys.len(),
        keys[k] == key,
    ensures
        exists|i: int| first_at(keys, key, i),
    decreases k,
{
    if forall|j: int| 0 <= j < k ==> keys[j] != key {
        assert(first_at(keys, key, k));
    } else {
        let j = choose|j: int| 0 <= j < k && keys[j] == key;
        lemma_first_below(keys, key, j);
    }
}

/// A key that occurs has a first position, and that is its place.
pub proof fn lemma_place(keys: Seq<Seq<char>>, key: Seq<char>)
    requires
        keys.contains(key),
    ensures
        first_at(keys, key, place(keys, key)),
{
    let k = choose|i: int| 0 <= i < keys.len() && keys[i] == key;
    lemma_first_below(keys, key, k);
}

/// The place of a key is the position that is its first.
pub proof fn lemma_place_is(keys: Seq<Seq<char>>, key: Seq<char>, i: int)
    requires
        first_at(keys, key, i),
    ensures
        keys.contains(key),
        place(keys, key) == i,
{
    assert(keys.contains(key));
    lemma_place(keys, key);
    lemma_first_unique(keys, key, i, place(keys, key));
}

/// A key added at the end takes the last position if it is new, and moves no
/// other key.
pub proof fn lemma_place_push(keys: Seq<Seq<char>>, added: Seq<char>, key: Seq<char>)
    ensures
        keys.push(added).contains(key) == (keys.contains(key) || key == added),
        keys.contains(key) ==> place(keys.push(added), key) == place(keys, key),
        !keys.contains(key) && key == added ==> place(keys.push(added), key) == keys.len(),
{
    let more = keys.push(added);
    let n = keys.len() as int;
    assert(more[n] == added);
    if keys.contains(key) {
        lemma_place(keys, key);
        let i = place(keys, key);
        assert(more[i] == keys[i]);
        assert(first_at(more, key, i)) by {
            assert forall|j: int| 0 <= j < i implies more[j] != key by {
                assert(more[j] == keys[j]);
            }
        }
        lemma_place_is(more, key, i);
    } else if key == added {
        assert(first_at(more, key, n)) by {
            assert forall|j: int| 0 <= j < n implies more[j] != key by {
                assert(more[j] == keys[j]);
            }
        }
        lemma_place_is(more, key, n);
    } else {
        if more.contains(key) {
            let k = choose|k: int| 0 <= k < more.len() && more[k] == key;
            assert(k < n);
            assert(more[k] == keys[k]);
        }
    }
}

} // verus!
