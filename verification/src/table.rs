//! Reading an ordered map of records in the order of its keys.

use vstd::prelude::*;
use std::collections::BTreeMap;
use vstd::std_specs::cmp::OrdSpec;
use vstd::std_specs::iter::IteratorSpec;

verus! {

/// Whether each key is below the next.
pub open spec fn ascending(keys: Seq<u64>) -> bool {
    forall|i: int, j: int| 0 <= i < j < keys.len() ==> keys[i] < keys[j]
}

/// Whether `keys` lists the keys of `domain`, each once, from the lowest
/// to the highest.
pub open spec fn lists_keys(keys: Seq<u64>, domain: Set<u64>) -> bool {
    &&& ascending(keys)
    &&& forall|k: u64| keys.contains(k) <==> domain.contains(k)
}

/// The keys of `map`, from the lowest to the highest.
pub fn keys_in_order<T>(map: &BTreeMap<u64, T>) -> (r: Vec<u64>)
    ensures
        lists_keys(r@, map@.dom()),
        r@.len() == map@.dom().len(),
{
    let mut out: Vec<u64> = Vec::new();
    let ghost all = map.iter().remaining();
    for entry in it: map.iter()
        invariant
            it.seq() == all,
            vstd::std_specs::btree::increasing_seq(all.map_values(|kv: (&u64, &T)| *kv.0)),
            out@.len() == it.index(),
            forall|i: int| 0 <= i < out@.len() ==> out@[i] == *all[i].0,
    {
        out.push(*entry.0);
    }
    proof {
        let keys = all.map_values(|kv: (&u64, &T)| *kv.0);
        vstd::std_specs::btree::axiom_increasing_seq_meaning::<u64>(keys);
        assert forall|i: int, j: int| 0 <= i < j < out@.len() implies out@[i] < out@[j] by {
            assert(keys[i].cmp_spec(&keys[j]) is Less);
        }
        assert forall|k: u64| out@.contains(k) <==> map@.dom().contains(k) by {
            if map@.dom().contains(k) {
                let i = choose|i: int| 0 <= i < all.len() && all[i] == (&k, &map@[k]);
                assert(out@[i] == k);
            }
        }
    }
    out
}

/// Whether `values` are the values of `table`, in the order of their keys.
pub open spec fn is_ordered_listing<V>(values: Seq<V>, table: Map<u64, V>) -> bool {
    exists|keys: Seq<u64>|
        #[trigger] lists_keys(keys, table.dom()) && values.len() == keys.len() && forall|i: int|
            0 <= i < keys.len() ==> values[i] == table[keys[i]]
}

/// The table after each line, in order, has been stored under its key: of
/// two lines with one key the later one stays.
pub open spec fn upsert_all<V>(base: Map<u64, V>, lines: Seq<(u64, V)>) -> Map<u64, V>
    decreases lines.len(),
{
    if lines.len() == 0 {
        base
    } else {
        upsert_all(base, lines.drop_last()).insert(lines.last().0, lines.last().1)
    }
}

/// Storing a table's own entries, key by key, into an empty table gives
/// the table back.
pub proof fn lemma_upsert_listing<V>(keys: Seq<u64>, table: Map<u64, V>, lines: Seq<(u64, V)>)
    requires
        lists_keys(keys, table.dom()),
        lines.len() == keys.len(),
        forall|i: int| 0 <= i < keys.len() ==> lines[i] == (keys[i], table[keys[i]]),
    ensures
        upsert_all(Map::empty(), lines) == table,
    decreases keys.len(),
{
    if keys.len() > 0 {
        let last = keys.last();
        let front = keys.drop_last();
        let rest = table.remove(last);
        assert(keys.contains(last));
        assert forall|k: u64| front.contains(k) <==> rest.dom().contains(k) by {
            if rest.dom().contains(k) {
                let i = choose|i: int| 0 <= i < keys.len() && keys[i] == k;
                assert(front[i] == k);
            }
        }
        lemma_upsert_listing(front, rest, lines.drop_last());
    }
}

/// How many of `keys` meet `pred`.
pub open spec fn count_where(keys: Seq<u64>, pred: spec_fn(u64) -> bool) -> nat
    decreases keys.len(),
{
    if keys.len() == 0 {
        0
    } else {
        count_where(keys.drop_last(), pred) + if pred(keys.last()) {
            1nat
        } else {
            0nat
        }
    }
}

/// Counting along a listing of a set's keys counts the members of the set
/// that meet the predicate.
pub proof fn lemma_count_where(keys: Seq<u64>, domain: Set<u64>, pred: spec_fn(u64) -> bool)
    requires
        lists_keys(keys, domain),
    ensures
        domain.finite(),
        domain.len() == keys.len(),
        count_where(keys, pred) == domain.filter(pred).len(),
    decreases keys.len(),
{
    if keys.len() == 0 {
        assert(domain =~= Set::<u64>::empty());
        assert(domain.filter(pred) =~= Set::<u64>::empty());
    } else {
        let last = keys.last();
        let front = keys.drop_last();
        let rest = domain.remove(last);
        assert(keys.contains(last));
        assert forall|k: u64| front.contains(k) <==> rest.contains(k) by {
            if rest.contains(k) {
                let i = choose|i: int| 0 <= i < keys.len() && keys[i] == k;
                assert(front[i] == k);
            }
        }
        assert(ascending(front));
        lemma_count_where(front, rest, pred);
        rest.lemma_len_filter(pred);
        if pred(last) {
            assert(domain.filter(pred) =~= rest.filter(pred).insert(last));
        } else {
            assert(domain.filter(pred) =~= rest.filter(pred));
        }
    }
}

} // verus!
