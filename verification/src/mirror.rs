//! The mirror of policies settled elsewhere: a store by policy id that the
//! dashboard reads. Nothing ties it to the ledger's own policies.

use vstd::prelude::*;
use std::collections::BTreeMap;
use crate::policy::{MirrorPolicy, MirrorPolicyView};
use crate::table::{
    count_where,
    is_ordered_listing,
    keys_in_order,
    lemma_count_where,
    lemma_upsert_listing,
    lists_keys,
    upsert_all,
};

verus! {

/// Each record with the key it is stored under: its policy id.
pub open spec fn keyed_records(records: Seq<MirrorPolicyView>) -> Seq<(u64, MirrorPolicyView)> {
    records.map_values(|r: MirrorPolicyView| (r.policy_id, r))
}

/// The views of stored lines.
pub open spec fn mirror_line_views(lines: Seq<(u64, MirrorPolicy)>) -> Seq<
    (u64, MirrorPolicyView),
> {
    lines.map_values(|l: (u64, MirrorPolicy)| (l.0, l.1@))
}

/// How many records of a table are active.
pub open spec fn mirror_active_count(table: Map<u64, MirrorPolicyView>) -> nat {
    table.dom().filter(|id: u64| table[id].active).len()
}

/// How many records of a table are paid out.
pub open spec fn mirror_paid_out_count(table: Map<u64, MirrorPolicyView>) -> nat {
    table.dom().filter(|id: u64| table[id].paid_out).len()
}

/// The mirror store.
#[derive(Debug)]
pub struct MirrorLedger {
    records: BTreeMap<u64, MirrorPolicy>,
}

impl View for MirrorLedger {
    type V = Map<u64, MirrorPolicyView>;

    closed spec fn view(&self) -> Map<u64, MirrorPolicyView> {
        self.records@.map_values(|p: MirrorPolicy| p@)
    }
}

impl MirrorLedger {
    /// An empty mirror.
    pub fn new() -> (r: MirrorLedger)
        ensures
            r@ == Map::<u64, MirrorPolicyView>::empty(),
    {
        let r = MirrorLedger { records: BTreeMap::new() };
        r
    }

    fn find(&self, key: u64) -> (r: Option<&MirrorPolicy>)
        ensures
            r is Some <==> self@.contains_key(key),
            r matches Some(p) ==> p@ == self@[key],
    {
        self.records.get(&key)
    }

    fn store(&mut self, key: u64, policy: MirrorPolicy)
        ensures
            final(self)@ == old(self)@.insert(key, policy@),
    {
        self.records.insert(key, policy);
    }

    /// Stores a record under its policy id, replacing the one that was
    /// there.
    pub fn upsert(&mut self, policy: MirrorPolicy)
        ensures
            final(self)@ == old(self)@.insert(policy.policy_id, policy@),
    {
        let key = policy.policy_id;
        self.store(key, policy);
    }

    /// Stores each record in turn.
    pub fn upsert_batch(&mut self, policies: Vec<MirrorPolicy>)
        ensures
            final(self)@ == upsert_all(
                old(self)@,
                keyed_records(policies@.map_values(|p: MirrorPolicy| p@)),
            ),
    {
        let ghost lines = keyed_records(policies@.map_values(|p: MirrorPolicy| p@));
        let mut i: usize = 0;
        while i < policies.len()
            invariant
                i <= policies.len(),
                lines == keyed_records(policies@.map_values(|p: MirrorPolicy| p@)),
                self@ == upsert_all(old(self)@, lines.take(i as int)),
            decreases policies.len() - i,
        {
            proof {
                assert(lines.take(i + 1).drop_last() =~= lines.take(i as int));
            }
            self.upsert(policies[i].clone());
            i = i + 1;
        }
        assert(lines.take(policies.len() as int) =~= lines);
    }

    /// Drops every record.
    pub fn clear(&mut self)
        ensures
            final(self)@ == Map::<u64, MirrorPolicyView>::empty(),
    {
        self.records.clear();
    }

    /// Every record with its key, in the order of the keys.
    pub fn lines(&self) -> (r: Vec<(u64, MirrorPolicy)>)
        ensures
            lists_keys(r@.map_values(|l: (u64, MirrorPolicy)| l.0), self@.dom()),
            forall|i: int| 0 <= i < r@.len() ==> (#[trigger] r@[i]).1@ == self@[r@[i].0],
            upsert_all(Map::empty(), mirror_line_views(r@)) == self@,
    {
        let keys = keys_in_order(&self.records);
        let mut out: Vec<(u64, MirrorPolicy)> = Vec::new();
        let mut i: usize = 0;
        while i < keys.len()
            invariant
                i <= keys.len(),
                lists_keys(keys@, self.records@.dom()),
                out@.len() == i,
                forall|j: int|
                    0 <= j < i ==> out@[j].0 == keys@[j] && out@[j].1@ == self@[keys@[j]],
            decreases keys.len() - i,
        {
            match self.find(keys[i]) {
                Some(p) => {
                    out.push((keys[i], p.clone()));
                },
                None => {
                    assert(false);
                },
            }
            i = i + 1;
        }
        proof {
            assert(out@.map_values(|l: (u64, MirrorPolicy)| l.0) =~= keys@);
            assert forall|i: int| 0 <= i < out@.len() implies (#[trigger] out@[i]).1@
                == self@[out@[i].0] by {
                assert(out@[i].0 == keys@[i]);
            }
            lemma_upsert_listing(keys@, self@, mirror_line_views(out@));
        }
        out
    }

    /// The mirror that holds the lines, each under its key.
    pub fn from_lines(lines: Vec<(u64, MirrorPolicy)>) -> (r: MirrorLedger)
        ensures
            r@ == upsert_all(Map::empty(), mirror_line_views(lines@)),
    {
        let mut mirror = MirrorLedger::new();
        let ghost views = mirror_line_views(lines@);
        let mut i: usize = 0;
        while i < lines.len()
            invariant
                i <= lines.len(),
                views == mirror_line_views(lines@),
                mirror@ == upsert_all(Map::empty(), views.take(i as int)),
            decreases lines.len() - i,
        {
            proof {
                assert(views.take(i + 1).drop_last() =~= views.take(i as int));
            }
            mirror.store(lines[i].0, lines[i].1.clone());
            i = i + 1;
        }
        assert(views.take(lines.len() as int) =~= views);
        mirror
    }

    /// Every record, in the order of the policy ids.
    pub fn list(&self) -> (r: Vec<MirrorPolicy>)
        ensures
            is_ordered_listing(r@.map_values(|p: MirrorPolicy| p@), self@),
    {
        let keys = keys_in_order(&self.records);
        let mut out: Vec<MirrorPolicy> = Vec::new();
        let mut i: usize = 0;
        while i < keys.len()
            invariant
                i <= keys.len(),
                lists_keys(keys@, self.records@.dom()),
                out@.len() == i,
                forall|j: int| 0 <= j < i ==> out@[j]@ == self@[keys@[j]],
            decreases keys.len() - i,
        {
            match self.find(keys[i]) {
                Some(p) => {
                    out.push(p.clone());
                },
                None => {
                    assert(false);
                },
            }
            i = i + 1;
        }
        proof {
            assert(lists_keys(keys@, self@.dom()));
        }
        out
    }

    /// How many records there are, how many of them are active, and how
    /// many are paid out.
    pub fn stats(&self) -> (r: (u64, u64, u64))
        ensures
            r.0 == self@.dom().len(),
            r.1 == mirror_active_count(self@),
            r.2 == mirror_paid_out_count(self@),
    {
        let keys = keys_in_order(&self.records);
        let ghost is_active = |id: u64| self@[id].active;
        let ghost is_paid = |id: u64| self@[id].paid_out;
        let mut active: u64 = 0;
        let mut paid_out: u64 = 0;
        let mut i: usize = 0;
        while i < keys.len()
            invariant
                i <= keys.len(),
                lists_keys(keys@, self.records@.dom()),
                is_active == (|id: u64| self@[id].active),
                is_paid == (|id: u64| self@[id].paid_out),
                active == count_where(keys@.take(i as int), is_active),
                paid_out == count_where(keys@.take(i as int), is_paid),
                active <= i,
                paid_out <= i,
            decreases keys.len() - i,
        {
            assert(keys@.take(i + 1).drop_last() =~= keys@.take(i as int));
            match self.find(keys[i]) {
                Some(p) => {
                    if p.active {
                        active = active + 1;
                    }
                    if p.paid_out {
                        paid_out = paid_out + 1;
                    }
                },
                None => {
                    assert(false);
                },
            }
            i = i + 1;
        }
        proof {
            assert(keys@.take(keys.len() as int) =~= keys@);
            lemma_count_where(keys@, self@.dom(), is_active);
            lemma_count_where(keys@, self@.dom(), is_paid);
        }
        (keys.len() as u64, active, paid_out)
    }
}

} // verus!
