//! Finding a record by its key in a table that is kept in insertion order.

use vstd::prelude::*;

verus! {

/// Whether `at` is the first position of `keys` that holds `key`.
pub open spec fn is_first_at<K>(keys: Seq<K>, key: K, at: int) -> bool {
    &&& 0 <= at < keys.len()
    &&& keys[at] == key
    &&& forall|j: int| 0 <= j < at ==> keys[j] != key
}

/// The first position of `keys` that holds `key`, where there is one.
pub open spec fn first_position<K>(keys: Seq<K>, key: K) -> int {
    choose|at: int| is_first_at(keys, key, at)
}

/// A position that is the first to hold a key is the one that
/// `first_position` names.
pub proof fn first_position_is<K>(keys: Seq<K>, key: K, at: int)
    requires
        is_first_at(keys, key, at),
    ensures
        first_position(keys, key) == at,
        keys.contains(key),
{
    let chosen = first_position(keys, key);
    assert(is_first_at(keys, key, chosen));
    if chosen < at {
        assert(keys[chosen] != key);
    } else if at < chosen {
        assert(keys[at] != key);
    }
}

/// A key that occurs has a first position.
pub proof fn first_position_exists<K>(keys: Seq<K>, key: K)
    requires
        keys.contains(key),
    ensures
        is_first_at(keys, key, first_position(keys, key)),
{
    keys.index_of_first_ensures(key);
    let at = keys.index_of_first(key)->0;
    assert(is_first_at(keys, key, at));
}

/// Appending a key that does not occur yet keeps the keys distinct and the
/// first position of every other key.
pub proof fn push_new_key<K>(keys: Seq<K>, key: K)
    requires
        keys.no_duplicates(),
        !keys.contains(key),
    ensures
        keys.push(key).no_duplicates(),
        first_position(keys.push(key), key) == keys.len(),
        forall|other: K| keys.contains(other) ==> first_position(keys.push(key), other)
            == first_position(keys, other),
{
    let pushed = keys.push(key);
    assert forall|i: int, j: int| 0 <= i < pushed.len() && 0 <= j < pushed.len() && i
        != j implies pushed[i] != pushed[j] by {
        if i < keys.len() {
            assert(keys.contains(keys[i]));
        }
        if j < keys.len() {
            assert(keys.contains(keys[j]));
        }
    }
    assert(is_first_at(pushed, key, keys.len() as int)) by {
        assert forall|j: int| 0 <= j < keys.len() implies pushed[j] != key by {
            assert(keys.contains(keys[j]));
        }
    }
    first_position_is(pushed, key, keys.len() as int);
    assert forall|other: K| keys.contains(other) implies first_position(pushed, other)
        == first_position(keys, other) by {
        first_position_exists(keys, other);
        let at = first_position(keys, other);
        assert(is_first_at(pushed, other, at)) by {
            assert(pushed[at] == keys[at]);
            assert forall|j: int| 0 <= j < at implies pushed[j] != other by {
                assert(pushed[j] == keys[j]);
            }
        }
        first_position_is(pushed, other, at);
    }
}

/// Appending a record under a key that does not occur yet makes it the
/// record of that key and leaves the record of every other key in place.
pub proof fn push_keeps_records<T, K>(records: Seq<T>, keys: Seq<K>, record: T, key: K)
    requires
        keys.len() == records.len(),
        keys.no_duplicates(),
        !keys.contains(key),
    ensures
        keys.push(key).no_duplicates(),
        keys.push(key).contains(key),
        first_position(keys.push(key), key) == keys.len(),
        records.push(record)[first_position(keys.push(key), key)] == record,
        forall|other: K| #[trigger]
            keys.contains(other) ==> keys.push(key).contains(other) && first_position(
                keys.push(key),
                other,
            ) == first_position(keys, other) && 0 <= first_position(keys, other) < keys.len()
                && records.push(record)[first_position(keys.push(key), other)]
                == records[first_position(keys, other)],
{
    push_new_key(keys, key);
    let pushed = keys.push(key);
    assert(pushed[keys.len() as int] == key);
    assert forall|other: K| #[trigger] keys.contains(other) implies pushed.contains(other)
        && first_position(pushed, other) == first_position(keys, other) && 0 <= first_position(
        keys,
        other,
    ) < keys.len() && records.push(record)[first_position(pushed, other)]
        == records[first_position(keys, other)] by {
        first_position_exists(keys, other);
        let at = first_position(keys, other);
        assert(pushed[at] == other);
    }
}

} // verus!
