//! Association lists read as maps: a sequence of keys without repetition
//! beside a sequence of values of the same length.

use vstd::prelude::*;

verus! {

/// The map that sends each key to the value at the same position.
pub open spec fn assoc_map<K, V>(keys: Seq<K>, vals: Seq<V>) -> Map<K, V>
    decreases keys.len(),
{
    if keys.len() == 0 || vals.len() != keys.len() {
        Map::empty()
    } else {
        assoc_map(keys.drop_last(), vals.drop_last()).insert(keys.last(), vals.last())
    }
}

/// Appending a key with its value inserts the pair into the map.
pub proof fn lemma_assoc_push<K, V>(keys: Seq<K>, vals: Seq<V>, k: K, v: V)
    requires
        keys.len() == vals.len(),
    ensures
        assoc_map(keys.push(k), vals.push(v)) == assoc_map(keys, vals).insert(k, v),
{
    assert(keys.push(k).drop_last() =~= keys);
    assert(vals.push(v).drop_last() =~= vals);
}

/// The map is finite and defined exactly on the keys of the list.
pub proof fn lemma_assoc_dom<K, V>(keys: Seq<K>, vals: Seq<V>)
    requires
        keys.len() == vals.len(),
    ensures
        assoc_map(keys, vals).dom().finite(),
        forall|k: K| #[trigger] assoc_map(keys, vals).dom().contains(k) <==> keys.contains(k),
    decreases keys.len(),
{
    if keys.len() > 0 {
        lemma_assoc_dom(keys.drop_last(), vals.drop_last());
        assert forall|k: K| #[trigger]
            assoc_map(keys, vals).dom().contains(k) <==> keys.contains(k) by {
            if keys.contains(k) {
                let i = choose|i: int| 0 <= i < keys.len() && keys[i] == k;
                if i < keys.len() - 1 {
                    assert(keys.drop_last()[i] == k);
                }
            }
            if keys.drop_last().contains(k) {
                let i = choose|i: int| 0 <= i < keys.drop_last().len() && keys.drop_last()[i] == k;
                assert(keys[i] == k);
            }
            if k == keys.last() {
                assert(keys[keys.len() - 1] == k);
            }
        }
    }
}

/// Without repeated keys, each key is sent to the value at its position.
pub proof fn lemma_assoc_lookup<K, V>(keys: Seq<K>, vals: Seq<V>, i: int)
    requires
        keys.len() == vals.len(),
        keys.no_duplicates(),
        0 <= i < keys.len(),
    ensures
        assoc_map(keys, vals).dom().contains(keys[i]),
        assoc_map(keys, vals)[keys[i]] == vals[i],
    decreases keys.len(),
{
    if i < keys.len() - 1 {
        assert(keys.drop_last().no_duplicates());
        lemma_assoc_lookup(keys.drop_last(), vals.drop_last(), i);
        assert(keys[i] != keys[keys.len() - 1]);
    }
}

/// Without repeated keys, replacing the value at a position replaces the
/// value of the key at that position.
pub proof fn lemma_assoc_update<K, V>(keys: Seq<K>, vals: Seq<V>, i: int, v: V)
    requires
        keys.len() == vals.len(),
        keys.no_duplicates(),
        0 <= i < keys.len(),
    ensures
        assoc_map(keys, vals.update(i, v)) == assoc_map(keys, vals).insert(keys[i], v),
    decreases keys.len(),
{
    let last = keys.len() - 1;
    if i < last {
        assert(keys.drop_last().no_duplicates());
        lemma_assoc_update(keys.drop_last(), vals.drop_last(), i, v);
        assert(vals.update(i, v).drop_last() =~= vals.drop_last().update(i, v));
        assert(keys[i] != keys[last]);
        assert(assoc_map(keys, vals.update(i, v)) =~= assoc_map(keys, vals).insert(keys[i], v));
    } else {
        assert(vals.update(i, v).drop_last() =~= vals.drop_last());
        assert(assoc_map(keys, vals.update(i, v)) =~= assoc_map(keys, vals).insert(keys[i], v));
    }
}

/// Without repeated keys, the map has as many entries as the list.
pub proof fn lemma_assoc_len<K, V>(keys: Seq<K>, vals: Seq<V>)
    requires
        keys.len() == vals.len(),
        keys.no_duplicates(),
    ensures
        assoc_map(keys, vals).dom().finite(),
        assoc_map(keys, vals).dom().len() == keys.len(),
{
    lemma_assoc_dom(keys, vals);
    assert(assoc_map(keys, vals).dom() =~= keys.to_set());
    keys.unique_seq_to_set();
}

/// Appending a key that does not occur yet keeps the keys free of repetition.
pub proof fn lemma_push_no_duplicates<K>(keys: Seq<K>, k: K)
    requires
        keys.no_duplicates(),
        !keys.contains(k),
    ensures
        keys.push(k).no_duplicates(),
{
    assert forall|a: int, b: int|
        0 <= a < keys.len() + 1 && 0 <= b < keys.len() + 1 && a != b implies keys.push(k)[a]
        != keys.push(k)[b] by {
        if a < keys.len() && b < keys.len() {
        } else if a < keys.len() {
            assert(keys[a] != k);
        } else {
            assert(keys[b] != k);
        }
    }
}

/// Applying `f` to every value of the list applies it to every value of the map.
pub proof fn lemma_assoc_map_values<K, V, W>(keys: Seq<K>, vals: Seq<V>, f: spec_fn(V) -> W)
    requires
        keys.len() == vals.len(),
    ensures
        assoc_map(keys, vals.map_values(f)) == assoc_map(keys, vals).map_values(f),
    decreases keys.len(),
{
    if keys.len() > 0 {
        lemma_assoc_map_values(keys.drop_last(), vals.drop_last(), f);
        assert(vals.map_values(f).drop_last() =~= vals.drop_last().map_values(f));
        assert(assoc_map(keys, vals.map_values(f)) =~= assoc_map(keys, vals).map_values(f));
    } else {
        assert(assoc_map(keys, vals.map_values(f)) =~= assoc_map(keys, vals).map_values(f));
    }
}

} // verus!
