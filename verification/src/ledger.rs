//! The policy ledger: policies and their holders, the tracked water level
//! and its payout threshold, the roles that guard them, and the mirror that
//! the dashboard reads.

use vstd::prelude::*;
use std::collections::BTreeMap;
use crate::amount::Amount;
use crate::errors::LedgerError;
use crate::guarantees::{
    consistent,
    consistent_ledger_holds_counter_policies,
    create_keeps_consistent,
    status_changes_keep_consistent,
};
use crate::assoc::distinct_keys;
use crate::holders::{holder_pairs, HolderIndex};
use crate::identity::{
    allow_list_add,
    allow_list_contains,
    allow_list_remove,
    copy_identities,
    identity_views,
    Identity,
};
use crate::level::{
    level_reaches,
    reaches_threshold,
    threshold_in_range,
    DEFAULT_FLOOD_THRESHOLD,
    MAX_FLOOD_THRESHOLD,
};
use crate::mirror::{
    keyed_records,
    mirror_active_count,
    mirror_paid_out_count,
    MirrorLedger,
};
use crate::policy::{MirrorPolicy, MirrorPolicyView, Policy, PolicyView};
use crate::stable::{policy_line_views, StableState, StoredState};
use crate::table::{
    count_where,
    is_ordered_listing,
    keys_in_order,
    lemma_count_where,
    lemma_upsert_listing,
    lists_keys,
    upsert_all,
};

verus! {

/// Nanoseconds in one second.
pub const NANOS_PER_SECOND: u64 = 1_000_000_000;

/// What the ledger holds, as plain mathematics.
#[verifier::ext_equal]
pub struct InsuranceView {
    /// Every policy ever created, by id.
    pub policies: Map<u64, PolicyView>,
    /// The id given out last; 0 before the first.
    pub policy_id_counter: u64,
    /// For each holder, the id of the policy created last.
    pub policyholder_map: Map<Seq<u8>, u64>,
    /// The measured water level, in hundredths of a foot.
    pub flood_level: i64,
    /// The payout threshold, in hundredths of a foot.
    pub flood_threshold: i64,
    pub admin: Seq<u8>,
    /// Who may push water levels, besides the administrator.
    pub oracle_updaters: Seq<Seq<u8>>,
    pub mirror_policies: Map<u64, MirrorPolicyView>,
}

/// The views of the policies of a table.
pub open spec fn policy_views(table: Map<u64, Policy>) -> Map<u64, PolicyView> {
    table.map_values(|p: Policy| p@)
}

impl InsuranceView {
    /// The ledger before anyone has claimed it: nothing in it, the default
    /// threshold, and the anonymous identity as administrator.
    pub open spec fn initial() -> InsuranceView {
        InsuranceView {
            policies: Map::empty(),
            policy_id_counter: 0,
            policyholder_map: Map::empty(),
            flood_level: 0,
            flood_threshold: DEFAULT_FLOOD_THRESHOLD,
            admin: seq![4u8],
            oracle_updaters: Seq::empty(),
            mirror_policies: Map::empty(),
        }
    }

    /// The policy that a lookup by holder finds.
    pub open spec fn holder_policy(self, holder: Seq<u8>) -> Option<PolicyView> {
        if self.policyholder_map.contains_key(holder) && self.policies.contains_key(
            self.policyholder_map[holder],
        ) {
            Some(self.policies[self.policyholder_map[holder]])
        } else {
            None
        }
    }

    /// Whether the holder's latest policy is active.
    pub open spec fn has_active_policy(self, holder: Seq<u8>) -> bool {
        self.holder_policy(holder) matches Some(p) && p.active
    }

    /// Whether the measured level reaches the threshold.
    pub open spec fn threshold_reached(self) -> bool {
        level_reaches(self.flood_level as int, self.flood_threshold as int)
    }

    /// Whether `who` may push water levels.
    pub open spec fn may_push_level(self, who: Seq<u8>) -> bool {
        self.oracle_updaters.contains(who) || self.admin == who
    }

    /// Why `create_policy` refuses, if it does: the holder's latest policy
    /// is active, or the premium or the coverage is zero.
    pub open spec fn create_policy_refusal(
        self,
        caller: Seq<u8>,
        premium: nat,
        coverage: nat,
    ) -> Option<LedgerError> {
        if self.has_active_policy(caller) {
            Some(LedgerError::PolicyAlreadyActive)
        } else if premium == 0 {
            Some(LedgerError::PremiumZero)
        } else if coverage == 0 {
            Some(LedgerError::CoverageZero)
        } else {
            None
        }
    }

    /// What `create_policy` answers: the refusal, or the next id.
    pub open spec fn create_policy_result(
        self,
        caller: Seq<u8>,
        premium: nat,
        coverage: nat,
    ) -> Result<u64, LedgerError> {
        match self.create_policy_refusal(caller, premium, coverage) {
            Some(refusal) => Err(refusal),
            None => Ok((self.policy_id_counter + 1) as u64),
        }
    }

    /// The ledger after `create_policy`.
    pub open spec fn after_create_policy(
        self,
        caller: Seq<u8>,
        premium: nat,
        coverage: nat,
        now_nanos: u64,
    ) -> InsuranceView {
        match self.create_policy_result(caller, premium, coverage) {
            Ok(id) => InsuranceView {
                policies: self.policies.insert(
                    id,
                    PolicyView {
                        policy_id: id,
                        policyholder: caller,
                        premium,
                        coverage,
                        purchase_time: now_nanos / NANOS_PER_SECOND,
                        active: true,
                        paid_out: false,
                    },
                ),
                policy_id_counter: id,
                policyholder_map: self.policyholder_map.insert(caller, id),
                ..self
            },
            Err(_) => self,
        }
    }
}

/// The ledger.
#[derive(Debug)]
pub struct InsuranceState {
    policies: BTreeMap<u64, Policy>,
    policy_id_counter: u64,
    policyholder_map: HolderIndex,
    flood_level: i64,
    flood_threshold: i64,
    admin: Identity,
    oracle_updaters: Vec<Identity>,
    mirror_policies: MirrorLedger,
}

impl View for InsuranceState {
    type V = InsuranceView;

    closed spec fn view(&self) -> InsuranceView {
        InsuranceView {
            policies: policy_views(self.policies@),
            policy_id_counter: self.policy_id_counter,
            policyholder_map: self.policyholder_map@,
            flood_level: self.flood_level,
            flood_threshold: self.flood_threshold,
            admin: self.admin@,
            oracle_updaters: identity_views(self.oracle_updaters@),
            mirror_policies: self.mirror_policies@,
        }
    }
}

impl InsuranceState {
    /// A ledger that nobody has claimed yet.
    pub fn new() -> (r: InsuranceState)
        ensures
            r@ == InsuranceView::initial(),
            consistent(r@),
    {
        let r = InsuranceState {
            policies: BTreeMap::new(),
            policy_id_counter: 0,
            policyholder_map: HolderIndex::new(),
            flood_level: 0,
            flood_threshold: DEFAULT_FLOOD_THRESHOLD,
            admin: Identity::anonymous(),
            oracle_updaters: Vec::new(),
            mirror_policies: MirrorLedger::new(),
        };
        r
    }

    /// Hands the ledger to `caller`, who becomes its administrator and is
    /// added to those who may push water levels.
    pub fn init(&mut self, caller: Identity)
        ensures
            final(self)@ == (InsuranceView {
                admin: caller@,
                oracle_updaters: old(self)@.oracle_updaters.push(caller@),
                ..old(self)@
            }),
    {
        self.admin = caller.clone();
        self.oracle_updaters.push(caller);
    }

    fn find_policy(&self, policy_id: u64) -> (r: Option<&Policy>)
        ensures
            r is Some <==> self@.policies.contains_key(policy_id),
            r matches Some(p) ==> p@ == self@.policies[policy_id],
    {
        self.policies.get(&policy_id)
    }

    fn store_policy(&mut self, key: u64, policy: Policy)
        ensures
            final(self)@ == (InsuranceView {
                policies: old(self)@.policies.insert(key, policy@),
                ..old(self)@
            }),
    {
        self.policies.insert(key, policy);
        assert(policy_views(self.policies@) =~= policy_views(old(self).policies@).insert(
            key,
            policy@,
        ));
    }

    /// Whether the next id can still be given out.
    pub fn has_free_id(&self) -> (r: bool)
        ensures
            r == (self@.policy_id_counter < u64::MAX),
    {
        self.policy_id_counter < u64::MAX
    }

    /// Why `create_policy` would refuse these arguments, if it would.
    pub fn create_policy_refusal(
        &self,
        caller: &Identity,
        premium: &Amount,
        coverage: &Amount,
    ) -> (r: Option<LedgerError>)
        ensures
            r == self@.create_policy_refusal(caller@, premium@, coverage@),
    {
        if let Some(existing_id) = self.policyholder_map.get(caller) {
            let is_active = match self.find_policy(existing_id) {
                Some(p) => p.active,
                None => false,
            };
            if is_active {
                return Some(LedgerError::PolicyAlreadyActive);
            }
        }
        if premium.is_zero() {
            return Some(LedgerError::PremiumZero);
        }
        if coverage.is_zero() {
            return Some(LedgerError::CoverageZero);
        }
        None
    }

    /// Creates a policy for `caller`, who becomes its holder. Refused
    /// while the holder's latest policy is active, and for a premium or a
    /// coverage of zero. The new policy gets the next id, is active and
    /// not paid out, and replaces the holder's entry in the lookup by
    /// holder. A call that is not refused needs a free id.
    pub fn create_policy(
        &mut self,
        caller: &Identity,
        premium: Amount,
        coverage: Amount,
        now_nanos: u64,
    ) -> (r: Result<u64, LedgerError>)
        requires
            old(self)@.create_policy_refusal(caller@, premium@, coverage@) is None ==> old(
                self,
            )@.policy_id_counter < u64::MAX,
        ensures
            r == old(self)@.create_policy_result(caller@, premium@, coverage@),
            final(self)@ == old(self)@.after_create_policy(
                caller@,
                premium@,
                coverage@,
                now_nanos,
            ),
            consistent(old(self)@) ==> consistent(final(self)@),
    {
        proof {
            if consistent(self@) {
                create_keeps_consistent(self@, caller@, premium@, coverage@, now_nanos);
            }
        }
        if let Some(refusal) = self.create_policy_refusal(caller, &premium, &coverage) {
            return Err(refusal);
        }
        let new_policy_id: u64 = self.policy_id_counter + 1;
        self.policy_id_counter = new_policy_id;
        let policy = Policy {
            policy_id: new_policy_id,
            policyholder: caller.clone(),
            premium,
            coverage,
            purchase_time: now_nanos / NANOS_PER_SECOND,
            active: true,
            paid_out: false,
        };
        self.store_policy(new_policy_id, policy);
        self.policyholder_map.set(caller, new_policy_id);
        Ok(new_policy_id)
    }
}

impl InsuranceView {
    /// What `update_policy_status` answers.
    pub open spec fn update_status_result(
        self,
        caller: Seq<u8>,
        policy_id: u64,
        paid_out: bool,
    ) -> Result<(), LedgerError> {
        if !self.policies.contains_key(policy_id) {
            Err(LedgerError::PolicyNotFound)
        } else {
            let existing = self.policies[policy_id];
            if existing.policyholder != caller && self.admin != caller {
                Err(LedgerError::NotHolderOrAdmin)
            } else if paid_out && !existing.active {
                Err(LedgerError::PayoutOnInactive)
            } else if existing.paid_out && paid_out {
                Err(LedgerError::AlreadyPaidOut)
            } else if paid_out && !self.threshold_reached() {
                Err(LedgerError::BelowThreshold)
            } else {
                Ok(())
            }
        }
    }

    /// The ledger after `update_policy_status`: on success the policy has
    /// both flags as given, and nothing else has changed.
    pub open spec fn after_update_status(
        self,
        caller: Seq<u8>,
        policy_id: u64,
        active: bool,
        paid_out: bool,
    ) -> InsuranceView {
        if self.update_status_result(caller, policy_id, paid_out) is Ok {
            InsuranceView {
                policies: self.policies.insert(
                    policy_id,
                    self.policies[policy_id].with_status(active, paid_out),
                ),
                ..self
            }
        } else {
            self
        }
    }

    /// Whether a payout is due to `holder`: the holder's latest policy is
    /// active and not paid out, and the level reaches the threshold.
    pub open spec fn payout_eligible(self, holder: Seq<u8>) -> bool {
        self.holder_policy(holder) matches Some(p) && p.active && !p.paid_out
            && self.threshold_reached()
    }

    /// What `trigger_payout` answers: the coverage, or why not. A policy
    /// that is paid out is refused as that, whether it is active or not.
    pub open spec fn payout_result(self, caller: Seq<u8>) -> Result<nat, LedgerError> {
        if !self.policyholder_map.contains_key(caller) {
            Err(LedgerError::NoPolicyForHolder)
        } else if !self.policies.contains_key(self.policyholder_map[caller]) {
            Err(LedgerError::PolicyNotFound)
        } else {
            let policy = self.policies[self.policyholder_map[caller]];
            if policy.paid_out {
                Err(LedgerError::PayoutAlreadyIssued)
            } else if !policy.active {
                Err(LedgerError::NoActivePolicy)
            } else if !self.threshold_reached() {
                Err(LedgerError::BelowThreshold)
            } else {
                Ok(policy.coverage)
            }
        }
    }

    /// The ledger after `trigger_payout`: on success the caller's policy is
    /// paid out and no longer active, and nothing else has changed.
    pub open spec fn after_payout(self, caller: Seq<u8>) -> InsuranceView {
        if self.payout_result(caller) is Ok {
            let id = self.policyholder_map[caller];
            InsuranceView {
                policies: self.policies.insert(id, self.policies[id].with_status(false, true)),
                ..self
            }
        } else {
            self
        }
    }
}

impl InsuranceState {
    /// The policy with this id, if there is one.
    pub fn get_policy(&self, policy_id: u64) -> (r: Option<Policy>)
        ensures
            r is Some <==> self@.policies.contains_key(policy_id),
            r matches Some(p) ==> p@ == self@.policies[policy_id],
    {
        match self.find_policy(policy_id) {
            Some(p) => Some(p.clone()),
            None => None,
        }
    }

    /// The latest policy of this holder, if there is one.
    pub fn get_policy_by_holder(&self, policyholder: &Identity) -> (r: Option<Policy>)
        ensures
            r is Some <==> self@.holder_policy(policyholder@) is Some,
            r matches Some(p) ==> Some(p@) == self@.holder_policy(policyholder@),
    {
        match self.policyholder_map.get(policyholder) {
            Some(id) => self.get_policy(id),
            None => None,
        }
    }

    /// Sets both status flags of a policy. Only the holder and the
    /// administrator may; a payout flag is refused on a policy that is not
    /// active or is paid out already, and while the level is below the
    /// threshold. The active flag is taken as given.
    pub fn update_policy_status(
        &mut self,
        caller: &Identity,
        policy_id: u64,
        active: bool,
        paid_out: bool,
    ) -> (r: Result<(), LedgerError>)
        ensures
            r == old(self)@.update_status_result(caller@, policy_id, paid_out),
            final(self)@ == old(self)@.after_update_status(caller@, policy_id, active, paid_out),
            consistent(old(self)@) ==> consistent(final(self)@),
    {
        proof {
            if consistent(self@) {
                status_changes_keep_consistent(self@, caller@, policy_id, active, paid_out);
            }
        }
        let reached = reaches_threshold(self.flood_level, self.flood_threshold);
        let mut policy = match self.find_policy(policy_id) {
            Some(p) => p.clone(),
            None => {
                return Err(LedgerError::PolicyNotFound);
            },
        };
        if !policy.policyholder.same(caller) && !self.admin.same(caller) {
            return Err(LedgerError::NotHolderOrAdmin);
        }
        if paid_out && !policy.active {
            return Err(LedgerError::PayoutOnInactive);
        }
        if policy.paid_out && paid_out {
            return Err(LedgerError::AlreadyPaidOut);
        }
        if paid_out && !reached {
            return Err(LedgerError::BelowThreshold);
        }
        policy.active = active;
        policy.paid_out = paid_out;
        self.store_policy(policy_id, policy);
        Ok(())
    }

    /// Whether a payout is due to `policyholder`.
    pub fn is_payout_eligible(&self, policyholder: &Identity) -> (r: bool)
        ensures
            r == self@.payout_eligible(policyholder@),
    {
        if let Some(policy_id) = self.policyholder_map.get(policyholder) {
            if let Some(policy) = self.find_policy(policy_id) {
                if policy.active && !policy.paid_out {
                    return reaches_threshold(self.flood_level, self.flood_threshold);
                }
            }
        }
        false
    }

    /// Pays out the caller's policy: marks it paid out and not active, and
    /// returns its coverage as the amount to pay.
    pub fn trigger_payout(&mut self, caller: &Identity) -> (r: Result<Amount, LedgerError>)
        ensures
            match r {
                Ok(amount) => old(self)@.payout_result(caller@) == Ok::<nat, LedgerError>(amount@),
                Err(e) => old(self)@.payout_result(caller@) == Err::<nat, LedgerError>(e),
            },
            final(self)@ == old(self)@.after_payout(caller@),
            consistent(old(self)@) ==> consistent(final(self)@),
    {
        proof {
            if consistent(self@) {
                status_changes_keep_consistent(self@, caller@, 0, false, false);
            }
        }
        let reached = reaches_threshold(self.flood_level, self.flood_threshold);
        let policy_id = match self.policyholder_map.get(caller) {
            Some(id) => id,
            None => {
                return Err(LedgerError::NoPolicyForHolder);
            },
        };
        let mut policy = match self.find_policy(policy_id) {
            Some(p) => p.clone(),
            None => {
                return Err(LedgerError::PolicyNotFound);
            },
        };
        if policy.paid_out {
            return Err(LedgerError::PayoutAlreadyIssued);
        }
        if !policy.active {
            return Err(LedgerError::NoActivePolicy);
        }
        if !reached {
            return Err(LedgerError::BelowThreshold);
        }
        policy.paid_out = true;
        policy.active = false;
        let amount = policy.coverage.clone();
        self.store_policy(policy_id, policy);
        Ok(amount)
    }
}

impl InsuranceView {
    /// What a call that only the administrator may make answers to `caller`.
    pub open spec fn admin_only(self, caller: Seq<u8>) -> Result<(), LedgerError> {
        if self.admin == caller {
            Ok(())
        } else {
            Err(LedgerError::AdminRequired)
        }
    }

    /// What `set_flood_level` answers.
    pub open spec fn set_level_result(self, caller: Seq<u8>) -> Result<(), LedgerError> {
        if self.may_push_level(caller) {
            Ok(())
        } else {
            Err(LedgerError::UpdaterRequired)
        }
    }

    /// What `set_flood_threshold` answers.
    pub open spec fn set_threshold_result(self, caller: Seq<u8>, threshold: i64) -> Result<
        (),
        LedgerError,
    > {
        if self.admin != caller {
            Err(LedgerError::AdminRequired)
        } else if threshold <= 0 {
            Err(LedgerError::ThresholdNotPositive)
        } else if threshold > MAX_FLOOD_THRESHOLD {
            Err(LedgerError::ThresholdTooHigh { requested: threshold })
        } else {
            Ok(())
        }
    }

    /// How many policies are active.
    pub open spec fn active_count(self) -> nat {
        self.policies.dom().filter(|id: u64| self.policies[id].active).len()
    }

    /// How many policies are paid out.
    pub open spec fn paid_out_count(self) -> nat {
        self.policies.dom().filter(|id: u64| self.policies[id].paid_out).len()
    }
}

impl InsuranceState {
    /// Records a measured water level. Only the administrator and the
    /// registered updaters may; the level itself is not checked.
    pub fn set_flood_level(&mut self, caller: &Identity, flood_level: i64) -> (r: Result<
        (),
        LedgerError,
    >)
        ensures
            r == old(self)@.set_level_result(caller@),
            final(self)@ == if r is Ok {
                InsuranceView { flood_level, ..old(self)@ }
            } else {
                old(self)@
            },
    {
        if !allow_list_contains(&self.oracle_updaters, caller) && !self.admin.same(caller) {
            return Err(LedgerError::UpdaterRequired);
        }
        self.flood_level = flood_level;
        Ok(())
    }

    /// The measured water level, in hundredths of a foot.
    pub fn get_flood_level(&self) -> (r: i64)
        ensures
            r == self@.flood_level,
    {
        self.flood_level
    }

    /// Sets the payout threshold. Only the administrator may, and only to
    /// a threshold above zero and at most 100.00 ft.
    pub fn set_flood_threshold(&mut self, caller: &Identity, threshold: i64) -> (r: Result<
        (),
        LedgerError,
    >)
        ensures
            r == old(self)@.set_threshold_result(caller@, threshold),
            r is Ok <==> old(self)@.admin == caller@ && threshold_in_range(threshold as int),
            final(self)@ == if r is Ok {
                InsuranceView { flood_threshold: threshold, ..old(self)@ }
            } else {
                old(self)@
            },
    {
        if !self.admin.same(caller) {
            return Err(LedgerError::AdminRequired);
        }
        if threshold <= 0 {
            return Err(LedgerError::ThresholdNotPositive);
        }
        if threshold > MAX_FLOOD_THRESHOLD {
            return Err(LedgerError::ThresholdTooHigh { requested: threshold });
        }
        self.flood_threshold = threshold;
        Ok(())
    }

    /// The payout threshold, in hundredths of a foot.
    pub fn get_flood_threshold(&self) -> (r: i64)
        ensures
            r == self@.flood_threshold,
    {
        self.flood_threshold
    }

    /// Lets `oracle` push water levels. Only the administrator may; adding
    /// someone twice changes nothing.
    pub fn add_oracle_updater(&mut self, caller: &Identity, oracle: Identity) -> (r: Result<
        (),
        LedgerError,
    >)
        ensures
            r == old(self)@.admin_only(caller@),
            final(self)@ == if r is Ok && !old(self)@.oracle_updaters.contains(oracle@) {
                InsuranceView {
                    oracle_updaters: old(self)@.oracle_updaters.push(oracle@),
                    ..old(self)@
                }
            } else {
                old(self)@
            },
    {
        if !self.admin.same(caller) {
            return Err(LedgerError::AdminRequired);
        }
        allow_list_add(&mut self.oracle_updaters, oracle);
        Ok(())
    }

    /// Takes from `oracle` the right to push water levels. Only the
    /// administrator may.
    pub fn remove_oracle_updater(&mut self, caller: &Identity, oracle: &Identity) -> (r: Result<
        (),
        LedgerError,
    >)
        ensures
            r == old(self)@.admin_only(caller@),
            final(self)@ == if r is Ok {
                InsuranceView {
                    oracle_updaters: old(self)@.oracle_updaters.filter(
                        |id: Seq<u8>| id != oracle@,
                    ),
                    ..old(self)@
                }
            } else {
                old(self)@
            },
    {
        if !self.admin.same(caller) {
            return Err(LedgerError::AdminRequired);
        }
        allow_list_remove(&mut self.oracle_updaters, oracle);
        Ok(())
    }

    /// Those who may push water levels. Only the administrator may ask.
    pub fn get_oracle_updaters(&self, caller: &Identity) -> (r: Result<Vec<Identity>, LedgerError>)
        ensures
            match r {
                Ok(list) => self@.admin == caller@ && identity_views(list@)
                    == self@.oracle_updaters,
                Err(e) => self@.admin != caller@ && e == LedgerError::AdminRequired,
            },
    {
        if !self.admin.same(caller) {
            return Err(LedgerError::AdminRequired);
        }
        Ok(copy_identities(&self.oracle_updaters))
    }

    /// Makes `new_admin` the administrator. Only the administrator may.
    pub fn transfer_admin(&mut self, caller: &Identity, new_admin: Identity) -> (r: Result<
        (),
        LedgerError,
    >)
        ensures
            r == old(self)@.admin_only(caller@),
            final(self)@ == if r is Ok {
                InsuranceView { admin: new_admin@, ..old(self)@ }
            } else {
                old(self)@
            },
    {
        if !self.admin.same(caller) {
            return Err(LedgerError::AdminRequired);
        }
        self.admin = new_admin;
        Ok(())
    }

    /// The administrator.
    pub fn get_admin(&self) -> (r: Identity)
        ensures
            r@ == self@.admin,
    {
        self.admin.clone()
    }

    /// Every policy, in the order of the ids: as many as the ledger holds,
    /// which in a consistent ledger is the total that the statistics
    /// give. Only the administrator may ask.
    pub fn get_all_policies(&self, caller: &Identity) -> (r: Result<Vec<Policy>, LedgerError>)
        ensures
            match r {
                Ok(list) => self@.admin == caller@ && is_ordered_listing(
                    list@.map_values(|p: Policy| p@),
                    self@.policies,
                ) && list@.len() == self@.policies.dom().len() && (consistent(self@)
                    ==> list@.len() == self@.policy_id_counter),
                Err(e) => self@.admin != caller@ && e == LedgerError::AdminRequired,
            },
    {
        proof {
            if consistent(self@) {
                consistent_ledger_holds_counter_policies(self@);
            }
        }
        if !self.admin.same(caller) {
            return Err(LedgerError::AdminRequired);
        }
        let keys = keys_in_order(&self.policies);
        let mut out: Vec<Policy> = Vec::new();
        let mut i: usize = 0;
        while i < keys.len()
            invariant
                i <= keys.len(),
                lists_keys(keys@, self.policies@.dom()),
                keys@.len() == self.policies@.dom().len(),
                out@.len() == i,
                forall|j: int| 0 <= j < i ==> out@[j]@ == self@.policies[keys@[j]],
            decreases keys.len() - i,
        {
            match self.find_policy(keys[i]) {
                Some(p) => {
                    out.push(p.clone());
                },
                None => {
                    assert(false);
                },
            }
            i = i + 1;
        }
        proof {
            assert(self@.policies.dom() =~= self.policies@.dom());
            assert(lists_keys(keys@, self@.policies.dom()));
        }
        Ok(out)
    }

    /// How many policies were ever created, how many are active, and how
    /// many are paid out.
    pub fn get_policy_stats(&self) -> (r: (u64, u64, u64))
        ensures
            r.0 == self@.policy_id_counter,
            r.1 == self@.active_count(),
            r.2 == self@.paid_out_count(),
    {
        let keys = keys_in_order(&self.policies);
        let ghost is_active = |id: u64| self@.policies[id].active;
        let ghost is_paid = |id: u64| self@.policies[id].paid_out;
        let mut active: u64 = 0;
        let mut paid_out: u64 = 0;
        let mut i: usize = 0;
        while i < keys.len()
            invariant
                i <= keys.len(),
                lists_keys(keys@, self.policies@.dom()),
                is_active == (|id: u64| self@.policies[id].active),
                is_paid == (|id: u64| self@.policies[id].paid_out),
                active == count_where(keys@.take(i as int), is_active),
                paid_out == count_where(keys@.take(i as int), is_paid),
                active <= i,
                paid_out <= i,
            decreases keys.len() - i,
        {
            assert(keys@.take(i + 1).drop_last() =~= keys@.take(i as int));
            match self.find_policy(keys[i]) {
                Some(p) => {
                    if p.active {
                        active = active + 1;
                    }
                    if p.paid_out {
                        paid_out = paid_out + 1;
                    }
                },
                None => {
                    assert(false);
                },
            }
            i = i + 1;
        }
        proof {
            assert(keys@.take(keys.len() as int) =~= keys@);
            lemma_count_where(keys@, self@.policies.dom(), is_active);
            lemma_count_where(keys@, self@.policies.dom(), is_paid);
        }
        (self.policy_id_counter, active, paid_out)
    }
}

impl InsuranceState {
    /// Stores a record in the mirror under its policy id. Only the
    /// administrator may.
    pub fn mirror_upsert_policy(&mut self, caller: &Identity, policy: MirrorPolicy) -> (r: Result<
        (),
        LedgerError,
    >)
        ensures
            r == old(self)@.admin_only(caller@),
            final(self)@ == if r is Ok {
                InsuranceView {
                    mirror_policies: old(self)@.mirror_policies.insert(policy.policy_id, policy@),
                    ..old(self)@
                }
            } else {
                old(self)@
            },
    {
        if !self.admin.same(caller) {
            return Err(LedgerError::AdminRequired);
        }
        self.mirror_policies.upsert(policy);
        Ok(())
    }

    /// Stores each record in the mirror, in turn. Only the administrator
    /// may.
    pub fn mirror_batch_upsert_policies(
        &mut self,
        caller: &Identity,
        policies: Vec<MirrorPolicy>,
    ) -> (r: Result<(), LedgerError>)
        ensures
            r == old(self)@.admin_only(caller@),
            final(self)@ == if r is Ok {
                InsuranceView {
                    mirror_policies: upsert_all(
                        old(self)@.mirror_policies,
                        keyed_records(policies@.map_values(|p: MirrorPolicy| p@)),
                    ),
                    ..old(self)@
                }
            } else {
                old(self)@
            },
    {
        if !self.admin.same(caller) {
            return Err(LedgerError::AdminRequired);
        }
        self.mirror_policies.upsert_batch(policies);
        Ok(())
    }

    /// Empties the mirror. Only the administrator may.
    pub fn mirror_clear_policies(&mut self, caller: &Identity) -> (r: Result<(), LedgerError>)
        ensures
            r == old(self)@.admin_only(caller@),
            final(self)@ == if r is Ok {
                InsuranceView { mirror_policies: Map::empty(), ..old(self)@ }
            } else {
                old(self)@
            },
    {
        if !self.admin.same(caller) {
            return Err(LedgerError::AdminRequired);
        }
        self.mirror_policies.clear();
        Ok(())
    }

    /// Every record of the mirror, in the order of the policy ids.
    pub fn mirror_get_policies(&self) -> (r: Vec<MirrorPolicy>)
        ensures
            is_ordered_listing(r@.map_values(|p: MirrorPolicy| p@), self@.mirror_policies),
    {
        self.mirror_policies.list()
    }

    /// How many records the mirror holds, how many of them are active, and
    /// how many are paid out.
    pub fn mirror_get_policy_stats(&self) -> (r: (u64, u64, u64))
        ensures
            r.0 == self@.mirror_policies.dom().len(),
            r.1 == mirror_active_count(self@.mirror_policies),
            r.2 == mirror_paid_out_count(self@.mirror_policies),
    {
        self.mirror_policies.stats()
    }

    fn policy_lines(&self) -> (r: Vec<(u64, Policy)>)
        ensures
            lists_keys(r@.map_values(|l: (u64, Policy)| l.0), self@.policies.dom()),
            upsert_all(Map::empty(), policy_line_views(r@)) == self@.policies,
    {
        let keys = keys_in_order(&self.policies);
        let mut out: Vec<(u64, Policy)> = Vec::new();
        let mut i: usize = 0;
        while i < keys.len()
            invariant
                i <= keys.len(),
                lists_keys(keys@, self.policies@.dom()),
                out@.len() == i,
                forall|j: int|
                    0 <= j < i ==> out@[j].0 == keys@[j] && out@[j].1@ == self@.policies[keys@[j]],
            decreases keys.len() - i,
        {
            match self.find_policy(keys[i]) {
                Some(p) => {
                    out.push((keys[i], p.clone()));
                },
                None => {
                    assert(false);
                },
            }
            i = i + 1;
        }
        proof {
            assert(out@.map_values(|l: (u64, Policy)| l.0) =~= keys@);
            lemma_upsert_listing(keys@, self@.policies, policy_line_views(out@));
        }
        out
    }

    /// The ledger as it goes to durable storage, in the current layout:
    /// the policies and the mirror in the order of their keys, each holder
    /// once. Restoring what this returns gives the same ledger back.
    pub fn pre_upgrade(&self) -> (r: StableState)
        ensures
            r.restored() == self@,
            StoredState::Current(r).restored() == self@,
            StoredState::Legacy(r.legacy_part()).restored() == (InsuranceView {
                mirror_policies: Map::empty(),
                ..self@
            }),
            distinct_keys(holder_pairs(r.policyholder_map@)),
            lists_keys(r.policies@.map_values(|l: (u64, Policy)| l.0), self@.policies.dom()),
            lists_keys(
                r.mirror_policies@.map_values(|l: (u64, MirrorPolicy)| l.0),
                self@.mirror_policies.dom(),
            ),
    {
        StableState {
            policies: self.policy_lines(),
            policy_id_counter: self.policy_id_counter,
            policyholder_map: self.policyholder_map.entries(),
            flood_level: self.flood_level,
            flood_threshold: self.flood_threshold,
            admin: self.admin.clone(),
            oracle_updaters: copy_identities(&self.oracle_updaters),
            mirror_policies: self.mirror_policies.lines(),
        }
    }

    fn policies_from_lines(lines: Vec<(u64, Policy)>) -> (r: BTreeMap<u64, Policy>)
        ensures
            policy_views(r@) == upsert_all(Map::empty(), policy_line_views(lines@)),
    {
        let mut table: BTreeMap<u64, Policy> = BTreeMap::new();
        let ghost views = policy_line_views(lines@);
        let mut i: usize = 0;
        while i < lines.len()
            invariant
                i <= lines.len(),
                views == policy_line_views(lines@),
                policy_views(table@) == upsert_all(Map::empty(), views.take(i as int)),
            decreases lines.len() - i,
        {
            proof {
                assert(views.take(i + 1).drop_last() =~= views.take(i as int));
            }
            let policy = lines[i].1.clone();
            table.insert(lines[i].0, policy);
            i = i + 1;
        }
        assert(views.take(lines.len() as int) =~= views);
        table
    }

    /// The ledger that stored state describes: every component as it was
    /// stored. State in the earlier layout, which has no mirror, gets an
    /// empty one.
    pub fn post_upgrade(stored: StoredState) -> (r: InsuranceState)
        ensures
            r@ == stored.restored(),
            stored is Legacy ==> r@.mirror_policies == Map::<u64, MirrorPolicyView>::empty(),
            consistent(stored.restored()) ==> consistent(r@),
    {
        match stored {
            StoredState::Current(s) => InsuranceState {
                policies: Self::policies_from_lines(s.policies),
                policy_id_counter: s.policy_id_counter,
                policyholder_map: HolderIndex::from_entries(&s.policyholder_map),
                flood_level: s.flood_level,
                flood_threshold: s.flood_threshold,
                admin: s.admin,
                oracle_updaters: s.oracle_updaters,
                mirror_policies: MirrorLedger::from_lines(s.mirror_policies),
            },
            StoredState::Legacy(s) => InsuranceState {
                policies: Self::policies_from_lines(s.policies),
                policy_id_counter: s.policy_id_counter,
                policyholder_map: HolderIndex::from_entries(&s.policyholder_map),
                flood_level: s.flood_level,
                flood_threshold: s.flood_threshold,
                admin: s.admin,
                oracle_updaters: s.oracle_updaters,
                mirror_policies: MirrorLedger::new(),
            },
        }
    }
}

} // verus!
