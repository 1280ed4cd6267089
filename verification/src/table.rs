//! Keyed tables as mathematical maps.
//!
//! Both stores keep their rows in insertion order, with no key twice. This
//! module says which map such rows stand for, and how appending a row or
//! replacing the value of a row changes that map.

use vstd::prelude::*;

verus! {

/// The map that rows with distinct `keys` and their `values` stand for.
pub open spec fn table<K, V>(keys: Seq<K>, values: Seq<V>) -> Map<K, V> {
    Map::new(|key: K| keys.contains(key), |key: K| values[keys.index_of(key)])
}

/// Among distinct keys, a key stands at one position only.
pub proof fn lemma_position_unique<K>(keys: Seq<K>, i: int)
    requires
        keys.no_duplicates(),
        0 <= i < keys.len(),
    ensures
        keys.contains(keys[i]),
        keys.index_of(keys[i]) == i,
{
    let j = keys.index_of(keys[i]);
    assert(0 <= j < keys.len() && keys[j] == keys[i]);
}

/// The row at position `i` is what the table holds under its key.
pub proof fn lemma_table_row<K, V>(keys: Seq<K>, values: Seq<V>, i: int)
    requires
        keys.no_duplicates(),
        0 <= i < keys.len(),
    ensures
        table(keys, values).contains_key(keys[i]),
        table(keys, values)[keys[i]] == values[i],
{
    lemma_position_unique(keys, i);
}

/// Appending a row under a new key keeps the keys distinct and adds one
/// binding to the table.
pub proof fn lemma_table_push<K, V>(keys: Seq<K>, values: Seq<V>, key: K, value: V)
    requires
        keys.no_duplicates(),
        keys.len() == values.len(),
        !keys.contains(key),
    ensures
        keys.push(key).no_duplicates(),
        table(keys.push(key), values.push(value)) == table(keys, values).insert(key, value),
{
    let keys2 = keys.push(key);
    let values2 = values.push(value);
    assert forall|i: int, j: int|
        0 <= i < keys2.len() && 0 <= j < keys2.len() && i != j implies keys2[i] != keys2[j] by {
        if i < keys.len() && j < keys.len() {
        } else if i < keys.len() {
            assert(keys[i] == keys2[i]);
        } else {
            assert(keys[j] == keys2[j]);
        }
    }
    let target = table(keys, values).insert(key, value);
    assert forall|k: K| table(keys2, values2).contains_key(k) <==> target.contains_key(k) by {
        if keys.contains(k) {
            let i = keys.index_of(k);
            assert(keys2[i] == k);
        }
        if keys2.contains(k) && k != key {
            let i = keys2.index_of(k);
            assert(keys[i] == k);
        }
        assert(keys2[keys.len() as int] == key);
    }
    assert forall|k: K| table(keys2, values2).contains_key(k) implies table(keys2, values2)[k]
        == target[k] by {
        let i = keys2.index_of(k);
        lemma_position_unique(keys2, i);
        if i < keys.len() {
            assert(keys[i] == k);
            lemma_position_unique(keys, i);
        }
    }
    assert(table(keys2, values2) =~= target);
}

/// Replacing the value of the row at position `i` rebinds its key and
/// nothing else.
pub proof fn lemma_table_update<K, V>(keys: Seq<K>, values: Seq<V>, i: int, value: V)
    requires
        keys.no_duplicates(),
        keys.len() == values.len(),
        0 <= i < keys.len(),
    ensures
        table(keys, values.update(i, value)) == table(keys, values).insert(keys[i], value),
{
    let target = table(keys, values).insert(keys[i], value);
    lemma_position_unique(keys, i);
    assert forall|k: K| table(keys, values.update(i, value)).contains_key(k) implies table(
        keys,
        values.update(i, value),
    )[k] == target[k] by {
        let j = keys.index_of(k);
        lemma_position_unique(keys, j);
    }
    assert(table(keys, values.update(i, value)) =~= target);
}

} // verus!
