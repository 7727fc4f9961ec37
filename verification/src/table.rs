//! Association tables kept as two sequences of equal length: the keys, no key
//! twice, and the value that belongs to each.

use vstd::prelude::*;

verus! {

/// No key occurs twice.
pub open spec fn distinct<K>(keys: Seq<K>) -> bool {
    forall|i: int, j: int| 0 <= i < j < keys.len() ==> keys[i] != keys[j]
}

/// A position at which `k` stands among `keys`.
pub open spec fn index_of<K>(keys: Seq<K>, k: K) -> int {
    choose|i: int| 0 <= i < keys.len() && keys[i] == k
}

/// The mapping that sends each key to the value at the key's position.
pub open spec fn table<K, V>(keys: Seq<K>, vals: Seq<V>) -> Map<K, V> {
    Map::new(|k: K| keys.contains(k), |k: K| vals[index_of(keys, k)])
}

/// With distinct keys, the table holds at `keys[i]` the value `vals[i]`.
pub proof fn lemma_table_at<K, V>(keys: Seq<K>, vals: Seq<V>, i: int)
    requires
        distinct(keys),
        keys.len() == vals.len(),
        0 <= i < keys.len(),
    ensures
        table(keys, vals).contains_key(keys[i]),
        table(keys, vals)[keys[i]] == vals[i],
{
    assert(keys.contains(keys[i]));
    let j = index_of(keys, keys[i]);
    assert(0 <= j < keys.len() && keys[j] == keys[i]);
    assert(j == i);
}

/// Replacing the value at position `i` is an insertion at `keys[i]`.
pub proof fn lemma_table_update<K, V>(keys: Seq<K>, vals: Seq<V>, i: int, v: V)
    requires
        distinct(keys),
        keys.len() == vals.len(),
        0 <= i < keys.len(),
    ensures
        table(keys, vals.update(i, v)) == table(keys, vals).insert(keys[i], v),
{
    let before = table(keys, vals);
    let after = table(keys, vals.update(i, v));
    assert forall|k: K| #[trigger] after.contains_key(k) implies after[k] == before.insert(
        keys[i],
        v,
    )[k] by {
        let j = index_of(keys, k);
        assert(0 <= j < keys.len() && keys[j] == k);
        if k == keys[i] {
            assert(j == i);
        } else {
            assert(j != i);
        }
    }
    assert(keys.contains(keys[i]));
    assert(after =~= before.insert(keys[i], v));
}

/// Appending a key that is not yet there, with its value, is an insertion.
pub proof fn lemma_table_push<K, V>(keys: Seq<K>, vals: Seq<V>, k: K, v: V)
    requires
        distinct(keys),
        keys.len() == vals.len(),
        !keys.contains(k),
    ensures
        distinct(keys.push(k)),
        !table(keys, vals).contains_key(k),
        table(keys.push(k), vals.push(v)) == table(keys, vals).insert(k, v),
{
    let keys2 = keys.push(k);
    let vals2 = vals.push(v);
    assert forall|i: int, j: int| 0 <= i < j < keys2.len() implies keys2[i] != keys2[j] by {
        if j == keys.len() {
            assert(keys[i] == keys2[i]);
            if keys2[i] == k {
                assert(keys.contains(k));
            }
        }
    }
    let before = table(keys, vals);
    let after = table(keys2, vals2);
    assert forall|x: K| after.contains_key(x) <==> before.insert(k, v).contains_key(x) by {
        if keys2.contains(x) {
            let j = index_of(keys2, x);
            assert(0 <= j < keys2.len() && keys2[j] == x);
            if j < keys.len() {
                assert(keys[j] == x);
            }
        }
        if keys.contains(x) {
            let j = index_of(keys, x);
            assert(keys2[j] == x);
        }
        if x == k {
            assert(keys2[keys.len() as int] == k);
        }
    }
    assert forall|x: K| #[trigger] after.contains_key(x) implies after[x] == before.insert(k, v)[x] by {
        let j = index_of(keys2, x);
        assert(0 <= j < keys2.len() && keys2[j] == x);
        if x == k {
            if j < keys.len() {
                assert(keys[j] == k);
                assert(keys.contains(k));
            }
        } else {
            assert(j < keys.len());
            assert(keys[j] == x);
            let j0 = index_of(keys, x);
            assert(0 <= j0 < keys.len() && keys[j0] == x);
            assert(keys2[j0] == x);
            assert(j0 == j);
        }
    }
    assert(after =~= before.insert(k, v));
}

} // verus!
