//! The index from a holder to the holder's latest policy.

use vstd::prelude::*;
use crate::assoc::{
    distinct_keys,
    is_first_pair,
    lemma_first_pair,
    lemma_key_absent,
    lemma_no_pairs,
    lemma_pair_pushed,
    lemma_pair_replaced,
    map_of_pairs,
};
use crate::identity::Identity;

verus! {

/// One line of the index: a holder and the id of that holder's latest policy.
#[derive(Debug)]
pub struct HolderEntry {
    pub holder: Identity,
    pub policy_id: u64,
}

impl Clone for HolderEntry {
    fn clone(&self) -> (r: HolderEntry)
        ensures
            r.holder@ == self.holder@,
            r.policy_id == self.policy_id,
    {
        HolderEntry { holder: self.holder.clone(), policy_id: self.policy_id }
    }
}

/// The lines as pairs of a holder's bytes and a policy id.
pub open spec fn holder_pairs(entries: Seq<HolderEntry>) -> Seq<(Seq<u8>, u64)> {
    entries.map_values(|e: HolderEntry| (e.holder@, e.policy_id))
}

/// The map that a list of lines spells out. Of several lines about one
/// holder the first one counts.
pub open spec fn index_of_entries(entries: Seq<HolderEntry>) -> Map<Seq<u8>, u64> {
    map_of_pairs(holder_pairs(entries))
}

/// A map from each holder to one policy id: no holder stands on two
/// lines.
#[derive(Debug)]
pub struct HolderIndex {
    entries: Vec<HolderEntry>,
}

impl View for HolderIndex {
    type V = Map<Seq<u8>, u64>;

    closed spec fn view(&self) -> Map<Seq<u8>, u64> {
        index_of_entries(self.entries@)
    }
}

impl HolderIndex {
    #[verifier::type_invariant]
    spec fn holders_are_distinct(self) -> bool {
        distinct_keys(holder_pairs(self.entries@))
    }

    /// An index without entries.
    pub fn new() -> (r: HolderIndex)
        ensures
            r@ == Map::<Seq<u8>, u64>::empty(),
    {
        let r = HolderIndex { entries: Vec::new() };
        proof {
            lemma_no_pairs(holder_pairs(r.entries@));
        }
        r
    }

    fn position(&self, holder: &Identity) -> (r: Option<usize>)
        ensures
            r matches Some(i) ==> is_first_pair(holder_pairs(self.entries@), holder@, i as int),
            r is None ==> forall|j: int|
                0 <= j < self.entries@.len() ==> holder_pairs(self.entries@)[j].0 != holder@,
    {
        let mut i: usize = 0;
        while i < self.entries.len()
            invariant
                i <= self.entries.len(),
                forall|j: int| 0 <= j < i ==> holder_pairs(self.entries@)[j].0 != holder@,
            decreases self.entries.len() - i,
        {
            if self.entries[i].holder.same(holder) {
                return Some(i);
            }
            i = i + 1;
        }
        None
    }

    /// The policy id that `holder` maps to, if any.
    pub fn get(&self, holder: &Identity) -> (r: Option<u64>)
        ensures
            r is Some <==> self@.contains_key(holder@),
            r matches Some(id) ==> id == self@[holder@],
    {
        match self.position(holder) {
            Some(i) => {
                proof {
                    lemma_first_pair(holder_pairs(self.entries@), holder@, i as int);
                }
                Some(self.entries[i].policy_id)
            },
            None => {
                proof {
                    lemma_key_absent(holder_pairs(self.entries@), holder@);
                }
                None
            },
        }
    }

    /// Maps `holder` to `policy_id`, replacing what `holder` mapped to.
    pub fn set(&mut self, holder: &Identity, policy_id: u64)
        ensures
            final(self)@ == old(self)@.insert(holder@, policy_id),
    {
        proof {
            use_type_invariant(&*self);
        }
        let entry = HolderEntry { holder: holder.clone(), policy_id };
        let found = self.position(holder);
        let ghost before = holder_pairs(self.entries@);
        let ghost pair = (holder@, policy_id);
        let mut entries: Vec<HolderEntry> = Vec::new();
        std::mem::swap(&mut self.entries, &mut entries);
        match found {
            Some(i) => {
                entries.set(i, entry);
                proof {
                    lemma_pair_replaced(before, i as int, pair);
                    assert(holder_pairs(entries@) =~= before.update(i as int, pair));
                }
            },
            None => {
                entries.push(entry);
                proof {
                    lemma_key_absent(before, holder@);
                    lemma_pair_pushed(before, pair);
                    assert(holder_pairs(entries@) =~= before.push(pair));
                }
            },
        }
        std::mem::swap(&mut self.entries, &mut entries);
    }

    /// The lines of the index: each holder once.
    pub fn entries(&self) -> (r: Vec<HolderEntry>)
        ensures
            index_of_entries(r@) == self@,
            distinct_keys(holder_pairs(r@)),
    {
        proof {
            use_type_invariant(self);
        }
        let mut out: Vec<HolderEntry> = Vec::new();
        let mut i: usize = 0;
        while i < self.entries.len()
            invariant
                i <= self.entries.len(),
                out@.len() == i,
                forall|j: int|
                    0 <= j < i ==> out@[j].holder@ == self.entries@[j].holder@
                        && out@[j].policy_id == self.entries@[j].policy_id,
            decreases self.entries.len() - i,
        {
            out.push(self.entries[i].clone());
            i = i + 1;
        }
        assert(holder_pairs(out@) =~= holder_pairs(self.entries@));
        out
    }

    /// The index that the lines spell out.
    pub fn from_entries(entries: &Vec<HolderEntry>) -> (r: HolderIndex)
        ensures
            r@ == index_of_entries(entries@),
    {
        let mut index = HolderIndex::new();
        let mut i: usize = 0;
        proof {
            lemma_no_pairs(holder_pairs(entries@.take(0)));
        }
        while i < entries.len()
            invariant
                i <= entries.len(),
                index@ == index_of_entries(entries@.take(i as int)),
            decreases entries.len() - i,
        {
            proof {
                let pair = (entries@[i as int].holder@, entries@[i as int].policy_id);
                assert(holder_pairs(entries@.take(i + 1)) =~= holder_pairs(
                    entries@.take(i as int),
                ).push(pair));
                lemma_pair_pushed(holder_pairs(entries@.take(i as int)), pair);
            }
            if index.get(&entries[i].holder).is_none() {
                index.set(&entries[i].holder, entries[i].policy_id);
            }
            i = i + 1;
        }
        assert(entries@.take(entries.len() as int) =~= entries@);
        index
    }
}

} // verus!
