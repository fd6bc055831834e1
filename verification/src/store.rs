//! The record store's abstraction: each record family is held in a vector
//! and viewed as a map from the record's key to the record. One key space
//! per family keeps the families collision-free structurally.

use vstd::prelude::*;

verus! {

/// The map that a sequence of records denotes, keyed by `key`. A later
/// record with the same key shadows an earlier one; under [`distinct_keys`]
/// there is nothing to shadow.
pub open spec fn assoc_map<K, V>(s: Seq<V>, key: spec_fn(V) -> K) -> Map<K, V>
    decreases s.len(),
{
    if s.len() == 0 {
        Map::empty()
    } else {
        assoc_map(s.drop_last(), key).insert(key(s.last()), s.last())
    }
}

/// No two records of `s` share a key.
pub open spec fn distinct_keys<K, V>(s: Seq<V>, key: spec_fn(V) -> K) -> bool {
    forall|i: int, j: int| 0 <= i < j < s.len() ==> key(s[i]) != key(s[j])
}

/// A key is in the map exactly when some record of the sequence carries it.
pub proof fn lemma_assoc_contains<K, V>(s: Seq<V>, key: spec_fn(V) -> K, k: K)
    ensures
        assoc_map(s, key).contains_key(k) <==> exists|i: int|
            0 <= i < s.len() && key(s[i]) == k,
    decreases s.len(),
{
    if s.len() > 0 {
        lemma_assoc_contains(s.drop_last(), key, k);
        if key(s.last()) == k {
            assert(key(s[s.len() - 1]) == k);
        } else if exists|i: int| 0 <= i < s.drop_last().len() && key(s.drop_last()[i]) == k {
            let i = choose|i: int| 0 <= i < s.drop_last().len() && key(s.drop_last()[i]) == k;
            assert(key(s[i]) == k);
        } else if exists|i: int| 0 <= i < s.len() && key(s[i]) == k {
            let i = choose|i: int| 0 <= i < s.len() && key(s[i]) == k;
            assert(key(s.drop_last()[i]) == k);
        }
    }
}

/// With distinct keys, the map sends each record's key to that record.
pub proof fn lemma_assoc_index<K, V>(s: Seq<V>, key: spec_fn(V) -> K, i: int)
    requires
        distinct_keys(s, key),
        0 <= i < s.len(),
    ensures
        assoc_map(s, key).contains_key(key(s[i])),
        assoc_map(s, key)[key(s[i])] == s[i],
    decreases s.len(),
{
    if i == s.len() - 1 {
        assert(s.last() == s[i]);
    } else {
        assert(distinct_keys(s.drop_last(), key));
        lemma_assoc_index(s.drop_last(), key, i);
        assert(s.drop_last()[i] == s[i]);
        assert(key(s[i]) != key(s[s.len() - 1]));
    }
}

/// Appending a record inserts it into the map.
pub proof fn lemma_assoc_push<K, V>(s: Seq<V>, key: spec_fn(V) -> K, v: V)
    ensures
        assoc_map(s.push(v), key) == assoc_map(s, key).insert(key(v), v),
{
    assert(s.push(v).drop_last() =~= s);
    assert(s.push(v).last() == v);
}

/// Replacing the record at `i` by one with the same key updates the map at
/// that key.
pub proof fn lemma_assoc_update<K, V>(s: Seq<V>, key: spec_fn(V) -> K, i: int, v: V)
    requires
        distinct_keys(s, key),
        0 <= i < s.len(),
        key(v) == key(s[i]),
    ensures
        assoc_map(s.update(i, v), key) == assoc_map(s, key).insert(key(v), v),
    decreases s.len(),
{
    let t = s.update(i, v);
    if i == s.len() - 1 {
        assert(t.drop_last() =~= s.drop_last());
        assert(t.last() == v);
    } else {
        assert(t.drop_last() =~= s.drop_last().update(i, v));
        assert(t.last() == s.last());
        assert(distinct_keys(s.drop_last(), key));
        assert(s.drop_last()[i] == s[i]);
        lemma_assoc_update(s.drop_last(), key, i, v);
        assert(key(v) != key(s.last()));
        assert(assoc_map(t, key) =~= assoc_map(s, key).insert(key(v), v));
    }
}

/// A record's key distinctness survives an update that keeps the key.
pub proof fn lemma_distinct_after_update<K, V>(s: Seq<V>, key: spec_fn(V) -> K, i: int, v: V)
    requires
        distinct_keys(s, key),
        0 <= i < s.len(),
        key(v) == key(s[i]),
    ensures
        distinct_keys(s.update(i, v), key),
{
    let t = s.update(i, v);
    assert forall|a: int, b: int| 0 <= a < b < t.len() implies key(t[a]) != key(t[b]) by {
        assert(key(t[a]) == key(s[a]));
        assert(key(t[b]) == key(s[b]));
    }
}

/// Appending a record with a fresh key keeps the keys distinct.
pub proof fn lemma_distinct_after_push<K, V>(s: Seq<V>, key: spec_fn(V) -> K, v: V)
    requires
        distinct_keys(s, key),
        forall|i: int| 0 <= i < s.len() ==> key(s[i]) != key(v),
    ensures
        distinct_keys(s.push(v), key),
{
    let t = s.push(v);
    assert forall|a: int, b: int| 0 <= a < b < t.len() implies key(t[a]) != key(t[b]) by {
        assert(key(t[a]) == key(s[a]));
        if b < s.len() {
            assert(key(t[b]) == key(s[b]));
        } else {
            assert(t[b] == v);
        }
    }
}

} // verus!
