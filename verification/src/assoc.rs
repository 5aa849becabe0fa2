use vstd::prelude::*;

verus! {

/// Whether some pair of `pairs` has the key `key`.
pub open spec fn has_key<K, V>(pairs: Seq<(K, V)>, key: K) -> bool {
    exists|i: int| 0 <= i < pairs.len() && (#[trigger] pairs[i]).0 == key
}

/// A position at which `key` stands, where there is one.
pub open spec fn index_of<K, V>(pairs: Seq<(K, V)>, key: K) -> int {
    choose|i: int| 0 <= i < pairs.len() && (#[trigger] pairs[i]).0 == key
}

/// No key stands at two positions.
pub open spec fn distinct_keys<K, V>(pairs: Seq<(K, V)>) -> bool {
    forall|i: int, j: int|
        0 <= i < j < pairs.len() ==> (#[trigger] pairs[i]).0 != (#[trigger] pairs[j]).0
}

/// The keys of `pairs`, in their order.
pub open spec fn keys<K, V>(pairs: Seq<(K, V)>) -> Seq<K> {
    Seq::new(pairs.len(), |i: int| pairs[i].0)
}

/// The finite map that a list of pairs stands for.
pub open spec fn to_map<K, V>(pairs: Seq<(K, V)>) -> Map<K, V> {
    Map::new(|key: K| has_key(pairs, key), |key: K| pairs[index_of(pairs, key)].1)
}

/// With distinct keys, the pair at position `i` is what the map holds under its key.
pub proof fn lemma_to_map_at<K, V>(pairs: Seq<(K, V)>, i: int)
    requires
        distinct_keys(pairs),
        0 <= i < pairs.len(),
    ensures
        has_key(pairs, pairs[i].0),
        index_of(pairs, pairs[i].0) == i,
        to_map(pairs).contains_key(pairs[i].0),
        to_map(pairs)[pairs[i].0] == pairs[i].1,
{
    let key = pairs[i].0;
    assert(has_key(pairs, key));
    let j = index_of(pairs, key);
    assert(0 <= j < pairs.len() && pairs[j].0 == key);
    if j < i {
        assert(pairs[j].0 != pairs[i].0);
    } else if i < j {
        assert(pairs[i].0 != pairs[j].0);
    }
}

/// The empty list stands for the empty map.
pub proof fn lemma_to_map_empty<K, V>()
    ensures
        distinct_keys(Seq::<(K, V)>::empty()),
        to_map(Seq::<(K, V)>::empty()) == Map::<K, V>::empty(),
{
    assert(to_map(Seq::<(K, V)>::empty()) =~= Map::<K, V>::empty());
}

/// Adding a pair with a new key at the end inserts it into the map.
pub proof fn lemma_to_map_push<K, V>(pairs: Seq<(K, V)>, key: K, value: V)
    requires
        distinct_keys(pairs),
        !has_key(pairs, key),
    ensures
        distinct_keys(pairs.push((key, value))),
        to_map(pairs.push((key, value))) == to_map(pairs).insert(key, value),
{
    let after = pairs.push((key, value));
    assert forall|i: int, j: int| 0 <= i < j < after.len() implies (#[trigger] after[i]).0 != (
    #[trigger] after[j]).0 by {
        if j == pairs.len() {
            assert(after[i] == pairs[i]);
        } else {
            assert(after[i] == pairs[i] && after[j] == pairs[j]);
        }
    }
    assert forall|k: K| to_map(after).contains_key(k) <==> to_map(pairs).insert(
        key,
        value,
    ).contains_key(k) by {
        if has_key(after, k) {
            let i = index_of(after, k);
            if i < pairs.len() {
                assert(pairs[i].0 == k);
            }
        }
        if has_key(pairs, k) {
            let i = index_of(pairs, k);
            assert(after[i].0 == k);
        }
        if k == key {
            assert(after[pairs.len() as int].0 == k);
        }
    }
    assert forall|k: K| to_map(after).contains_key(k) implies to_map(after)[k] == to_map(
        pairs,
    ).insert(key, value)[k] by {
        let i = index_of(after, k);
        lemma_to_map_at(after, i);
        if i < pairs.len() {
            assert(after[i] == pairs[i]);
            lemma_to_map_at(pairs, i);
        }
    }
    assert(to_map(after) =~= to_map(pairs).insert(key, value));
}

/// Replacing the value at position `i` replaces it in the map.
pub proof fn lemma_to_map_update<K, V>(pairs: Seq<(K, V)>, i: int, value: V)
    requires
        distinct_keys(pairs),
        0 <= i < pairs.len(),
    ensures
        distinct_keys(pairs.update(i, (pairs[i].0, value))),
        to_map(pairs.update(i, (pairs[i].0, value))) == to_map(pairs).insert(pairs[i].0, value),
{
    let key = pairs[i].0;
    let after = pairs.update(i, (key, value));
    assert forall|a: int, b: int| 0 <= a < b < after.len() implies (#[trigger] after[a]).0 != (
    #[trigger] after[b]).0 by {
        assert(after[a].0 == pairs[a].0 && after[b].0 == pairs[b].0);
    }
    assert forall|k: K| to_map(after).contains_key(k) <==> to_map(pairs).insert(
        key,
        value,
    ).contains_key(k) by {
        if has_key(after, k) {
            let j = index_of(after, k);
            assert(pairs[j].0 == k);
        }
        if has_key(pairs, k) {
            let j = index_of(pairs, k);
            assert(after[j].0 == k);
        }
        if k == key {
            assert(after[i].0 == k);
        }
    }
    assert forall|k: K| to_map(after).contains_key(k) implies to_map(after)[k] == to_map(
        pairs,
    ).insert(key, value)[k] by {
        let j = index_of(after, k);
        lemma_to_map_at(after, j);
        if j != i {
            assert(after[j] == pairs[j]);
            lemma_to_map_at(pairs, j);
        }
    }
    assert(to_map(after) =~= to_map(pairs).insert(key, value));
}

/// Taking the pair at position `i` out removes its key from the map.
pub proof fn lemma_to_map_remove<K, V>(pairs: Seq<(K, V)>, i: int)
    requires
        distinct_keys(pairs),
        0 <= i < pairs.len(),
    ensures
        distinct_keys(pairs.remove(i)),
        to_map(pairs.remove(i)) == to_map(pairs).remove(pairs[i].0),
{
    let key = pairs[i].0;
    let after = pairs.remove(i);
    assert forall|a: int, b: int| 0 <= a < b < after.len() implies (#[trigger] after[a]).0 != (
    #[trigger] after[b]).0 by {
        let pa = if a < i { a } else { a + 1 };
        let pb = if b < i { b } else { b + 1 };
        assert(after[a] == pairs[pa] && after[b] == pairs[pb]);
    }
    assert forall|k: K| to_map(after).contains_key(k) <==> to_map(pairs).remove(key).contains_key(
        k,
    ) by {
        if has_key(after, k) {
            let j = index_of(after, k);
            let pj = if j < i { j } else { j + 1 };
            assert(after[j] == pairs[pj]);
            lemma_to_map_at(pairs, pj);
            lemma_to_map_at(pairs, i);
        }
        if has_key(pairs, k) && k != key {
            let j = index_of(pairs, k);
            let aj = if j < i { j } else { j - 1 };
            assert(after[aj] == pairs[j]);
        }
    }
    assert forall|k: K| to_map(after).contains_key(k) implies to_map(after)[k] == to_map(
        pairs,
    ).remove(key)[k] by {
        let j = index_of(after, k);
        lemma_to_map_at(after, j);
        let pj = if j < i { j } else { j + 1 };
        assert(after[j] == pairs[pj]);
        lemma_to_map_at(pairs, pj);
    }
    assert(to_map(after) =~= to_map(pairs).remove(key));
}

/// The map of a list is finite, and with distinct keys it has as many keys as
/// the list has pairs.
pub proof fn lemma_to_map_finite<K, V>(pairs: Seq<(K, V)>)
    requires
        distinct_keys(pairs),
    ensures
        to_map(pairs).dom().finite(),
        to_map(pairs).dom().len() == pairs.len(),
        keys(pairs).no_duplicates(),
        keys(pairs).to_set() == to_map(pairs).dom(),
    decreases pairs.len(),
{
    if pairs.len() == 0 {
        assert(to_map(pairs).dom() =~= Set::<K>::empty());
        assert(keys(pairs).to_set() =~= Set::<K>::empty());
    } else {
        let last = pairs.len() - 1;
        let front = pairs.drop_last();
        assert forall|i: int, j: int| 0 <= i < j < front.len() implies (#[trigger] front[i]).0 != (
        #[trigger] front[j]).0 by {
            assert(front[i] == pairs[i] && front[j] == pairs[j]);
        }
        lemma_to_map_finite(front);
        assert(!has_key(front, pairs[last].0)) by {
            if has_key(front, pairs[last].0) {
                let i = index_of(front, pairs[last].0);
                assert(front[i] == pairs[i]);
                assert(pairs[i].0 != pairs[last].0);
            }
        }
        lemma_to_map_push(front, pairs[last].0, pairs[last].1);
        assert(front.push((pairs[last].0, pairs[last].1)) =~= pairs);
        assert(to_map(pairs).dom() =~= to_map(front).dom().insert(pairs[last].0));
        assert forall|k: K| keys(pairs).to_set().contains(k) <==> to_map(pairs).dom().contains(
            k,
        ) by {
            if keys(pairs).to_set().contains(k) {
                let i = choose|i: int| 0 <= i < keys(pairs).len() && keys(pairs)[i] == k;
                assert(pairs[i].0 == k);
            }
            if has_key(pairs, k) {
                let i = index_of(pairs, k);
                assert(keys(pairs)[i] == k);
            }
        }
        assert(keys(pairs).to_set() =~= to_map(pairs).dom());
    }
}

} // verus!
