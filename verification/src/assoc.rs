//! Lists of key-value pairs read as maps: of several pairs with one key the
//! first one counts.

use vstd::prelude::*;

verus! {

/// Whether pair `i` is the first pair with `key`.
pub open spec fn is_first_pair<K, V>(pairs: Seq<(K, V)>, key: K, i: int) -> bool {
    &&& 0 <= i < pairs.len()
    &&& pairs[i].0 == key
    &&& forall|j: int| 0 <= j < i ==> pairs[j].0 != key
}

/// Whether some pair has `key`.
pub open spec fn has_key<K, V>(pairs: Seq<(K, V)>, key: K) -> bool {
    exists|i: int| is_first_pair(pairs, key, i)
}

/// The map that a list of pairs spells out.
pub open spec fn map_of_pairs<K, V>(pairs: Seq<(K, V)>) -> Map<K, V> {
    Map::new(
        |key: K| has_key(pairs, key),
        |key: K| pairs[choose|i: int| is_first_pair(pairs, key, i)].1,
    )
}

/// The first pair with a key gives that key's entry in the map.
pub proof fn lemma_first_pair<K, V>(pairs: Seq<(K, V)>, key: K, i: int)
    requires
        is_first_pair(pairs, key, i),
    ensures
        map_of_pairs(pairs).contains_key(key),
        map_of_pairs(pairs)[key] == pairs[i].1,
{
    let chosen = choose|k: int| is_first_pair(pairs, key, k);
    assert(chosen == i);
}

/// A key that no pair has is not in the map.
pub proof fn lemma_key_absent<K, V>(pairs: Seq<(K, V)>, key: K)
    requires
        forall|j: int| 0 <= j < pairs.len() ==> pairs[j].0 != key,
    ensures
        !has_key(pairs, key),
        !map_of_pairs(pairs).contains_key(key),
{
}

/// A key that some pair has, has a first pair.
pub proof fn lemma_key_present<K, V>(pairs: Seq<(K, V)>, key: K, i: int)
    requires
        0 <= i < pairs.len(),
        pairs[i].0 == key,
    ensures
        has_key(pairs, key),
    decreases i,
{
    if exists|j: int| 0 <= j < i && pairs[j].0 == key {
        let j = choose|j: int| 0 <= j < i && pairs[j].0 == key;
        lemma_key_present(pairs, key, j);
    } else {
        assert(is_first_pair(pairs, key, i));
    }
}

/// No pairs spell out the empty map.
pub proof fn lemma_no_pairs<K, V>(pairs: Seq<(K, V)>)
    requires
        pairs.len() == 0,
    ensures
        map_of_pairs(pairs) == Map::<K, V>::empty(),
{
    assert forall|key: K| !has_key(pairs, key) by {
        lemma_key_absent(pairs, key);
    }
}

/// What one more pair at the end does to the map: nothing where its key
/// is there already, one more entry where not.
pub proof fn lemma_pair_pushed<K, V>(pairs: Seq<(K, V)>, pair: (K, V))
    ensures
        map_of_pairs(pairs.push(pair)) == if has_key(pairs, pair.0) {
            map_of_pairs(pairs)
        } else {
            map_of_pairs(pairs).insert(pair.0, pair.1)
        },
{
    let longer = pairs.push(pair);
    let target = if has_key(pairs, pair.0) {
        map_of_pairs(pairs)
    } else {
        map_of_pairs(pairs).insert(pair.0, pair.1)
    };
    assert forall|key: K| #[trigger]
        map_of_pairs(longer).contains_key(key) <==> target.contains_key(key) by {
        if has_key(longer, key) {
            let k = choose|k: int| is_first_pair(longer, key, k);
            if k < pairs.len() {
                assert(is_first_pair(pairs, key, k)) by {
                    assert forall|j: int| 0 <= j < k implies pairs[j].0 != key by {
                        assert(longer[j].0 != key);
                    }
                }
            }
        }
        if has_key(pairs, key) {
            let k = choose|k: int| is_first_pair(pairs, key, k);
            assert(is_first_pair(longer, key, k));
        } else if key == pair.0 {
            assert(is_first_pair(longer, key, pairs.len() as int)) by {
                assert forall|j: int| 0 <= j < pairs.len() implies longer[j].0 != key by {
                    if pairs[j].0 == key {
                        lemma_key_present(pairs, key, j);
                    }
                }
            }
        }
    }
    assert forall|key: K| #[trigger]
        map_of_pairs(longer).contains_key(key) implies map_of_pairs(longer)[key]
        == target[key] by {
        let k = choose|k: int| is_first_pair(longer, key, k);
        lemma_first_pair(longer, key, k);
        if k < pairs.len() {
            assert(is_first_pair(pairs, key, k)) by {
                assert forall|j: int| 0 <= j < k implies pairs[j].0 != key by {
                    assert(longer[j].0 != key);
                }
            }
            lemma_first_pair(pairs, key, k);
        } else {
            assert forall|j: int| 0 <= j < pairs.len() implies pairs[j].0 != key by {
                assert(longer[j].0 != key);
            }
            lemma_key_absent(pairs, key);
        }
    }
}

/// What a new value on the first pair with a key does to the map.
pub proof fn lemma_pair_replaced<K, V>(pairs: Seq<(K, V)>, i: int, pair: (K, V))
    requires
        is_first_pair(pairs, pair.0, i),
    ensures
        map_of_pairs(pairs.update(i, pair)) == map_of_pairs(pairs).insert(pair.0, pair.1),
{
    let after = pairs.update(i, pair);
    let target = map_of_pairs(pairs).insert(pair.0, pair.1);
    assert forall|key: K, k: int| is_first_pair(pairs, key, k) <==> is_first_pair(
        after,
        key,
        k,
    ) by {
        if is_first_pair(after, key, k) {
            assert forall|j: int| 0 <= j < k implies pairs[j].0 != key by {
                assert(after[j].0 != key);
            }
        }
    }
    assert forall|key: K| #[trigger]
        map_of_pairs(after).contains_key(key) implies map_of_pairs(after)[key] == target[key] by {
        let k = choose|k: int| is_first_pair(after, key, k);
        lemma_first_pair(after, key, k);
        lemma_first_pair(pairs, key, k);
        if key == pair.0 {
            lemma_first_pair(after, key, i);
        }
    }
}

/// The keys of a list of pairs, in order.
pub open spec fn keys_of_pairs<K, V>(pairs: Seq<(K, V)>) -> Seq<K> {
    pairs.map_values(|p: (K, V)| p.0)
}

/// Whether no key stands in two pairs.
pub open spec fn distinct_keys<K, V>(pairs: Seq<(K, V)>) -> bool {
    forall|i: int, j: int| 0 <= i < j < pairs.len() ==> pairs[i].0 != pairs[j].0
}

/// With distinct keys, the map has as many entries as there are pairs, and
/// its keys are the keys of the pairs.
pub proof fn lemma_distinct_size<K, V>(pairs: Seq<(K, V)>)
    requires
        distinct_keys(pairs),
    ensures
        map_of_pairs(pairs).dom().finite(),
        map_of_pairs(pairs).dom().len() == pairs.len(),
        forall|key: K|
            keys_of_pairs(pairs).contains(key) <==> map_of_pairs(pairs).contains_key(key),
        keys_of_pairs(pairs).no_duplicates(),
    decreases pairs.len(),
{
    if pairs.len() == 0 {
        lemma_no_pairs(pairs);
    } else {
        let front = pairs.drop_last();
        let last = pairs.last();
        assert(pairs =~= front.push(last));
        lemma_distinct_size(front);
        lemma_key_absent(front, last.0);
        lemma_pair_pushed(front, last);
    }
    assert forall|key: K| keys_of_pairs(pairs).contains(key) <==> map_of_pairs(
        pairs,
    ).contains_key(key) by {
        if keys_of_pairs(pairs).contains(key) {
            let i = choose|i: int| 0 <= i < pairs.len() && keys_of_pairs(pairs)[i] == key;
            lemma_key_present(pairs, key, i);
        }
        if map_of_pairs(pairs).contains_key(key) {
            let i = choose|i: int| is_first_pair(pairs, key, i);
            assert(keys_of_pairs(pairs)[i] == key);
        }
    }
}

} // verus!
