//! Association lists with distinct keys, and the finite map they describe.
//! Both the incremental cache and the processor registry hold their entries
//! this way, so that every lookup and every overwrite is pinned to the map
//! model.

use vstd::prelude::*;

verus! {

/// The mapping described by a list of key/value entries; a later entry for
/// the same key overrides an earlier one.
pub open spec fn entries_to_map<K, V>(e: Seq<(K, V)>) -> Map<K, V>
    decreases e.len(),
{
    if e.len() == 0 {
        Map::empty()
    } else {
        entries_to_map(e.drop_last()).insert(e.last().0, e.last().1)
    }
}

/// No two entries share a key.
pub open spec fn distinct_keys<K, V>(e: Seq<(K, V)>) -> bool {
    forall|i: int, j: int| 0 <= i < j < e.len() ==> e[i].0 != e[j].0
}

/// A key is in the mapping exactly when some entry carries it.
pub proof fn lemma_entries_to_map_domain<K, V>(e: Seq<(K, V)>, k: K)
    ensures
        entries_to_map(e).contains_key(k) <==> exists|i: int| 0 <= i < e.len() && e[i].0 == k,
    decreases e.len(),
{
    if e.len() == 0 {
    } else {
        lemma_entries_to_map_domain(e.drop_last(), k);
        if e.last().0 == k {
            assert(e[e.len() - 1].0 == k);
        } else {
            if entries_to_map(e).contains_key(k) {
                let i = choose|i: int| 0 <= i < e.drop_last().len() && e.drop_last()[i].0 == k;
                assert(e[i].0 == k);
            }
            if exists|i: int| 0 <= i < e.len() && e[i].0 == k {
                let i = choose|i: int| 0 <= i < e.len() && e[i].0 == k;
                assert(e.drop_last()[i].0 == k);
            }
        }
    }
}

/// With distinct keys, each entry's value is the one the mapping holds.
pub proof fn lemma_entries_to_map_get<K, V>(e: Seq<(K, V)>, i: int)
    requires
        distinct_keys(e),
        0 <= i < e.len(),
    ensures
        entries_to_map(e).contains_key(e[i].0),
        entries_to_map(e)[e[i].0] == e[i].1,
    decreases e.len(),
{
    if i == e.len() - 1 {
    } else {
        assert(e.drop_last()[i] == e[i]);
        lemma_entries_to_map_get(e.drop_last(), i);
        assert(e[i].0 != e.last().0);
    }
}

/// With distinct keys, replacing entry `i`'s value updates the mapping at
/// that entry's key and nothing else.
pub proof fn lemma_entries_to_map_update<K, V>(e: Seq<(K, V)>, i: int, v: V)
    requires
        distinct_keys(e),
        0 <= i < e.len(),
    ensures
        entries_to_map(e.update(i, (e[i].0, v))) == entries_to_map(e).insert(e[i].0, v),
        distinct_keys(e.update(i, (e[i].0, v))),
    decreases e.len(),
{
    let e2 = e.update(i, (e[i].0, v));
    assert(distinct_keys(e2));
    if i == e.len() - 1 {
        assert(e2.drop_last() =~= e.drop_last());
        assert(e2.last() == (e[i].0, v));
        assert(entries_to_map(e2) == entries_to_map(e.drop_last()).insert(e[i].0, v));
        assert(entries_to_map(e).insert(e[i].0, v) =~= entries_to_map(e.drop_last()).insert(
            e.last().0,
            e.last().1,
        ).insert(e[i].0, v));
        assert(entries_to_map(e.drop_last()).insert(e[i].0, v) =~= entries_to_map(
            e.drop_last(),
        ).insert(e.last().0, e.last().1).insert(e[i].0, v));
    } else {
        assert(e2.drop_last() =~= e.drop_last().update(i, (e[i].0, v)));
        assert(e.drop_last()[i] == e[i]);
        assert forall|a: int, b: int|
            0 <= a < b < e.drop_last().len() implies e.drop_last()[a].0 != e.drop_last()[b].0 by {
            assert(e[a].0 != e[b].0);
        }
        lemma_entries_to_map_update(e.drop_last(), i, v);
        assert(e2.last() == e.last());
        assert(e[i].0 != e.last().0);
        assert(entries_to_map(e2) == entries_to_map(e.drop_last()).insert(e[i].0, v).insert(
            e.last().0,
            e.last().1,
        ));
        assert(entries_to_map(e.drop_last()).insert(e[i].0, v).insert(e.last().0, e.last().1)
            =~= entries_to_map(e.drop_last()).insert(e.last().0, e.last().1).insert(e[i].0, v));
    }
}

} // verus!
