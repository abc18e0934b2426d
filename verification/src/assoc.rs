//! Association lists: a sequence of keys without repetition beside a sequence
//! of values, read as a map.

use vstd::prelude::*;

verus! {

/// No key occurs twice.
pub open spec fn unique<K>(keys: Seq<K>) -> bool {
    forall|i: int, j: int| 0 <= i < j < keys.len() ==> keys[i] != keys[j]
}

/// The map that takes each key to the value at the key's place.
pub open spec fn assoc<K, V>(keys: Seq<K>, vals: Seq<V>) -> Map<K, V> {
    Map::new(|k: K| keys.contains(k), |k: K| vals[keys.index_of(k)])
}

/// The key at place `i` is mapped to the value at place `i`.
pub proof fn lemma_assoc_get<K, V>(keys: Seq<K>, vals: Seq<V>, i: int)
    requires
        unique(keys),
        keys.len() == vals.len(),
        0 <= i < keys.len(),
    ensures
        assoc(keys, vals).dom().contains(keys[i]),
        assoc(keys, vals)[keys[i]] == vals[i],
{
    assert(keys.contains(keys[i]));
    let j = keys.index_of(keys[i]);
    assert(0 <= j < keys.len() && keys[j] == keys[i]);
    if j < i {
        assert(keys[j] != keys[i]);
    }
    if i < j {
        assert(keys[i] != keys[j]);
    }
}

/// A key that stands nowhere is not mapped.
pub proof fn lemma_assoc_absent<K, V>(keys: Seq<K>, vals: Seq<V>, k: K)
    requires
        forall|i: int| 0 <= i < keys.len() ==> keys[i] != k,
    ensures
        !assoc(keys, vals).dom().contains(k),
{
    if keys.contains(k) {
        let j = choose|j: int| 0 <= j < keys.len() && keys[j] == k;
        assert(keys[j] != k);
    }
}

/// Replacing the value at place `i` remaps the key at place `i`.
pub proof fn lemma_assoc_update<K, V>(keys: Seq<K>, vals: Seq<V>, i: int, v: V)
    requires
        unique(keys),
        keys.len() == vals.len(),
        0 <= i < keys.len(),
    ensures
        assoc(keys, vals.update(i, v)) == assoc(keys, vals).insert(keys[i], v),
{
    let a = assoc(keys, vals.update(i, v));
    let b = assoc(keys, vals).insert(keys[i], v);
    assert forall|k: K| a.dom().contains(k) == b.dom().contains(k) by {
        assert(keys.contains(keys[i]));
    }
    assert forall|k: K| a.dom().contains(k) implies a[k] == b[k] by {
        let j = keys.index_of(k);
        assert(0 <= j < keys.len() && keys[j] == k);
        lemma_assoc_get(keys, vals.update(i, v), j);
        lemma_assoc_get(keys, vals, j);
        if j < i {
            assert(keys[j] != keys[i]);
        }
        if i < j {
            assert(keys[i] != keys[j]);
        }
    }
    assert(a =~= b);
}

/// Appending a key that is new and a value maps the key to the value.
pub proof fn lemma_assoc_push<K, V>(keys: Seq<K>, vals: Seq<V>, k: K, v: V)
    requires
        unique(keys),
        keys.len() == vals.len(),
        forall|i: int| 0 <= i < keys.len() ==> keys[i] != k,
    ensures
        unique(keys.push(k)),
        assoc(keys.push(k), vals.push(v)) == assoc(keys, vals).insert(k, v),
{
    let keys2 = keys.push(k);
    let vals2 = vals.push(v);
    assert(unique(keys2)) by {
        assert forall|i: int, j: int| 0 <= i < j < keys2.len() implies keys2[i] != keys2[j] by {
            if j < keys.len() {
                assert(keys[i] != keys[j]);
            }
        }
    }
    let a = assoc(keys2, vals2);
    let b = assoc(keys, vals).insert(k, v);
    assert forall|x: K| a.dom().contains(x) == b.dom().contains(x) by {
        if keys2.contains(x) {
            let j = choose|j: int| 0 <= j < keys2.len() && keys2[j] == x;
            if j < keys.len() {
                assert(keys[j] == x);
                assert(keys.contains(x));
            }
        }
        if keys.contains(x) {
            let j = choose|j: int| 0 <= j < keys.len() && keys[j] == x;
            assert(keys2[j] == x);
            assert(keys2.contains(x));
        }
        if x == k {
            assert(keys2[keys.len() as int] == k);
            assert(keys2.contains(x));
        }
    }
    assert forall|x: K| a.dom().contains(x) implies a[x] == b[x] by {
        let j = keys2.index_of(x);
        assert(0 <= j < keys2.len() && keys2[j] == x);
        lemma_assoc_get(keys2, vals2, j);
        if j < keys.len() {
            lemma_assoc_get(keys, vals, j);
        }
    }
    assert(a =~= b);
}

} // verus!
