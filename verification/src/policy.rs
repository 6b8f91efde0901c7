//! Policy records, and the records of the mirror kept for the dashboard.

use vstd::prelude::*;
use crate::amount::Amount;
use crate::identity::Identity;

verus! {

/// A policy as the ledger holds it.
#[derive(Debug)]
pub struct Policy {
    pub policy_id: u64,
    pub policyholder: Identity,
    pub premium: Amount,
    pub coverage: Amount,
    /// Seconds since the epoch.
    pub purchase_time: u64,
    pub active: bool,
    pub paid_out: bool,
}

/// What a policy says: the holder as bytes, the amounts as numbers.
pub struct PolicyView {
    pub policy_id: u64,
    pub policyholder: Seq<u8>,
    pub premium: nat,
    pub coverage: nat,
    pub purchase_time: u64,
    pub active: bool,
    pub paid_out: bool,
}

impl View for Policy {
    type V = PolicyView;

    open spec fn view(&self) -> PolicyView {
        PolicyView {
            policy_id: self.policy_id,
            policyholder: self.policyholder@,
            premium: self.premium@,
            coverage: self.coverage@,
            purchase_time: self.purchase_time,
            active: self.active,
            paid_out: self.paid_out,
        }
    }
}

impl Clone for Policy {
    fn clone(&self) -> (r: Policy)
        ensures
            r@ == self@,
    {
        Policy {
            policy_id: self.policy_id,
            policyholder: self.policyholder.clone(),
            premium: self.premium.clone(),
            coverage: self.coverage.clone(),
            purchase_time: self.purchase_time,
            active: self.active,
            paid_out: self.paid_out,
        }
    }
}

impl PolicyView {
    /// The same policy with other status flags.
    pub open spec fn with_status(self, active: bool, paid_out: bool) -> PolicyView {
        PolicyView { active, paid_out, ..self }
    }
}

/// A policy settled elsewhere, mirrored for display.
#[derive(Debug)]
pub struct MirrorPolicy {
    pub policy_id: u64,
    /// The holder's address on the other chain, in hexadecimal.
    pub policyholder_eth: String,
    pub premium_wei: Amount,
    pub coverage_wei: Amount,
    pub purchase_time: u64,
    pub active: bool,
    pub paid_out: bool,
}

/// What a mirrored policy says.
pub struct MirrorPolicyView {
    pub policy_id: u64,
    pub policyholder_eth: Seq<char>,
    pub premium_wei: nat,
    pub coverage_wei: nat,
    pub purchase_time: u64,
    pub active: bool,
    pub paid_out: bool,
}

impl View for MirrorPolicy {
    type V = MirrorPolicyView;

    open spec fn view(&self) -> MirrorPolicyView {
        MirrorPolicyView {
            policy_id: self.policy_id,
            policyholder_eth: self.policyholder_eth@,
            premium_wei: self.premium_wei@,
            coverage_wei: self.coverage_wei@,
            purchase_time: self.purchase_time,
            active: self.active,
            paid_out: self.paid_out,
        }
    }
}

impl Clone for MirrorPolicy {
    fn clone(&self) -> (r: MirrorPolicy)
        ensures
            r@ == self@,
    {
        MirrorPolicy {
            policy_id: self.policy_id,
            policyholder_eth: self.policyholder_eth.clone(),
            premium_wei: self.premium_wei.clone(),
            coverage_wei: self.coverage_wei.clone(),
            purchase_time: self.purchase_time,
            active: self.active,
            paid_out: self.paid_out,
        }
    }
}

} // verus!
