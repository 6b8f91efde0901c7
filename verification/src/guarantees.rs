//! What holds of the policy ledger across calls, proved over its model.

use vstd::prelude::*;
use crate::errors::{ErrorKind, LedgerError};
use crate::ledger::InsuranceView;
use crate::level::threshold_in_range;
use crate::stable::{StableState, StoredState};

verus! {

/// Whether the ids fit the counter and the lookup by holder fits the
/// policies: the ledger holds a policy under each id from 1 to the
/// counter and under no other, each policy is stored under its own id,
/// and every holder in the lookup maps to a policy of that holder.
pub open spec fn consistent(s: InsuranceView) -> bool {
    &&& forall|id: u64| #[trigger]
        s.policies.contains_key(id) <==> 1 <= id <= s.policy_id_counter
    &&& forall|id: u64| #[trigger] s.policies.contains_key(id) ==> s.policies[id].policy_id == id
    &&& forall|holder: Seq<u8>| #[trigger]
        s.policyholder_map.contains_key(holder) ==> s.policies.contains_key(
            s.policyholder_map[holder],
        ) && s.policies[s.policyholder_map[holder]].policyholder == holder
}

/// An unclaimed ledger is consistent.
pub proof fn initial_is_consistent()
    ensures
        consistent(InsuranceView::initial()),
{
}

/// Consistency is about the policies, the counter and the lookup by
/// holder alone: a call that leaves these three as they are, as every
/// call but `create_policy`, `update_policy_status` and `trigger_payout`
/// does, keeps a ledger consistent.
pub proof fn others_keep_consistent(s: InsuranceView, t: InsuranceView)
    requires
        t.policies == s.policies,
        t.policy_id_counter == s.policy_id_counter,
        t.policyholder_map == s.policyholder_map,
    ensures
        consistent(t) == consistent(s),
{
}

/// The ids from 1 to `n`.
pub open spec fn ids_up_to(n: u64) -> Set<u64> {
    Set::new(|id: u64| 1 <= id <= n)
}

/// There are `n` ids from 1 to `n`.
pub proof fn lemma_ids_up_to(n: u64)
    ensures
        ids_up_to(n).finite(),
        ids_up_to(n).len() == n,
    decreases n,
{
    if n == 0 {
        assert(ids_up_to(n) =~= Set::<u64>::empty());
    } else {
        let below = (n - 1) as u64;
        lemma_ids_up_to(below);
        assert(ids_up_to(n) =~= ids_up_to(below).insert(n));
    }
}

/// A consistent ledger holds as many policies as its counter says: the
/// listing of all policies is as long as the total that the statistics
/// give.
pub proof fn consistent_ledger_holds_counter_policies(s: InsuranceView)
    requires
        consistent(s),
    ensures
        s.policies.dom() == ids_up_to(s.policy_id_counter),
        s.policies.dom().finite(),
        s.policies.dom().len() == s.policy_id_counter,
{
    assert(s.policies.dom() =~= ids_up_to(s.policy_id_counter));
    lemma_ids_up_to(s.policy_id_counter);
}

/// Creating a policy keeps a ledger consistent, and changes no policy
/// that was there. A call that is not refused needs a free id.
pub proof fn create_keeps_consistent(
    s: InsuranceView,
    caller: Seq<u8>,
    premium: nat,
    coverage: nat,
    now_nanos: u64,
)
    requires
        consistent(s),
        s.create_policy_refusal(caller, premium, coverage) is None ==> s.policy_id_counter
            < u64::MAX,
    ensures
        consistent(s.after_create_policy(caller, premium, coverage, now_nanos)),
        forall|id: u64| #[trigger]
            s.policies.contains_key(id) ==> s.after_create_policy(
                caller,
                premium,
                coverage,
                now_nanos,
            ).policies.contains_key(id) && s.after_create_policy(
                caller,
                premium,
                coverage,
                now_nanos,
            ).policies[id] == s.policies[id],
{
}

/// Status updates and payouts keep a ledger consistent: they change only
/// the two flags of one policy.
pub proof fn status_changes_keep_consistent(
    s: InsuranceView,
    caller: Seq<u8>,
    policy_id: u64,
    active: bool,
    paid_out: bool,
)
    requires
        consistent(s),
    ensures
        consistent(s.after_update_status(caller, policy_id, active, paid_out)),
        consistent(s.after_payout(caller)),
{
}

/// The threshold of an unclaimed ledger is in range, and no call moves it
/// out of range: a new threshold is accepted exactly from the
/// administrator and in range.
pub proof fn threshold_stays_in_range(s: InsuranceView, caller: Seq<u8>, threshold: i64)
    ensures
        threshold_in_range(InsuranceView::initial().flood_threshold as int),
        s.set_threshold_result(caller, threshold) is Ok <==> s.admin == caller
            && threshold_in_range(threshold as int),
        s.set_threshold_result(caller, threshold) matches Err(e) ==> e.kind_of() == (if s.admin
            != caller {
            ErrorKind::Unauthorized
        } else {
            ErrorKind::Validation
        }),
{
}

/// A policy that was just created is found under its id, active and not
/// paid out, with the holder and the amounts it was created with; the
/// lookup by holder finds the same policy.
pub proof fn created_policy_is_found(
    s: InsuranceView,
    caller: Seq<u8>,
    premium: nat,
    coverage: nat,
    now_nanos: u64,
)
    requires
        premium > 0,
        coverage > 0,
        !s.has_active_policy(caller),
    ensures
        s.create_policy_result(caller, premium, coverage) is Ok,
        ({
            let id = s.create_policy_result(caller, premium, coverage)->Ok_0;
            let t = s.after_create_policy(caller, premium, coverage, now_nanos);
            &&& t.policies.contains_key(id)
            &&& t.policies[id].policy_id == id
            &&& t.policies[id].policyholder == caller
            &&& t.policies[id].premium == premium
            &&& t.policies[id].coverage == coverage
            &&& t.policies[id].active
            &&& !t.policies[id].paid_out
            &&& t.holder_policy(caller) == Some(t.policies[id])
        }),
{
}

/// While a holder's policy is active, the holder cannot create another.
pub proof fn second_policy_conflicts(
    s: InsuranceView,
    caller: Seq<u8>,
    premium: nat,
    coverage: nat,
)
    requires
        s.has_active_policy(caller),
    ensures
        s.create_policy_result(caller, premium, coverage) == Err::<u64, LedgerError>(
            LedgerError::PolicyAlreadyActive,
        ),
        s.create_policy_result(caller, premium, coverage)->Err_0.kind_of() == ErrorKind::Conflict,
        s.after_create_policy(caller, premium, coverage, 0) == s,
{
}

/// Once a holder's policy is no longer active, the holder can create
/// another. The lookup by holder then finds the new policy; in a
/// consistent ledger with a free id the new id is above the old one, and
/// the old policy is still found under its id, unchanged.
pub proof fn inactive_policy_is_superseded(
    s: InsuranceView,
    caller: Seq<u8>,
    premium: nat,
    coverage: nat,
    now_nanos: u64,
)
    requires
        s.holder_policy(caller) matches Some(p) && !p.active,
        premium > 0,
        coverage > 0,
    ensures
        s.create_policy_result(caller, premium, coverage) is Ok,
        ({
            let id = s.create_policy_result(caller, premium, coverage)->Ok_0;
            let t = s.after_create_policy(caller, premium, coverage, now_nanos);
            &&& t.policyholder_map[caller] == id
            &&& t.holder_policy(caller) == Some(t.policies[id])
            &&& t.policies[id].active
            &&& consistent(s) && s.policy_id_counter < u64::MAX ==> {
                let old_id = s.policyholder_map[caller];
                &&& old_id < id
                &&& t.policies.contains_key(old_id)
                &&& t.policies[old_id] == s.policies[old_id]
            }
        }),
{
}

/// A payout succeeds exactly when one is due: the caller's latest policy
/// is active and not paid out, and the level reaches the threshold. It
/// then returns the coverage, and leaves the policy paid out and not
/// active; a second attempt is refused as already paid out, which is an
/// invalid state.
pub proof fn payout_succeeds_once(s: InsuranceView, caller: Seq<u8>)
    ensures
        s.payout_result(caller) is Ok <==> s.payout_eligible(caller),
        s.payout_result(caller) is Ok ==> {
            let t = s.after_payout(caller);
            let before = s.holder_policy(caller)->Some_0;
            &&& s.payout_result(caller)->Ok_0 == before.coverage
            &&& t.holder_policy(caller) == Some(before.with_status(false, true))
            &&& !t.payout_eligible(caller)
            &&& t.payout_result(caller) == Err::<nat, LedgerError>(
                LedgerError::PayoutAlreadyIssued,
            )
            &&& t.payout_result(caller)->Err_0.kind_of() == ErrorKind::InvalidState
        },
        !(s.payout_result(caller) is Ok) ==> s.after_payout(caller) == s,
{
}

/// No step marks a policy paid out unless that policy was active and not
/// paid out before the step and the level reached the threshold.
pub proof fn payout_is_gated(
    s: InsuranceView,
    caller: Seq<u8>,
    policy_id: u64,
    active: bool,
    paid_out: bool,
    id: u64,
)
    requires
        s.policies.contains_key(id),
    ensures
        ({
            let t = s.after_update_status(caller, policy_id, active, paid_out);
            t.policies[id].paid_out && !s.policies[id].paid_out ==> s.policies[id].active
                && s.threshold_reached()
        }),
        ({
            let t = s.after_payout(caller);
            t.policies[id].paid_out && !s.policies[id].paid_out ==> s.policies[id].active
                && s.threshold_reached() && !t.policies[id].active
        }),
        ({
            let t = s.after_update_status(caller, policy_id, active, paid_out);
            s.policies[id].paid_out && paid_out && policy_id == id ==> t == s
        }),
{
}

/// What a ledger was stored as restores to the same ledger from the
/// current layout, and from the earlier layout to the same ledger with an
/// empty mirror. A restored consistent ledger is consistent.
pub proof fn stored_state_round_trips(s: InsuranceView, stored: StableState)
    requires
        stored.restored() == s,
    ensures
        StoredState::Current(stored).restored() == s,
        StoredState::Legacy(stored.legacy_part()).restored() == (InsuranceView {
            mirror_policies: Map::empty(),
            ..s
        }),
        consistent(s) ==> consistent(StoredState::Current(stored).restored()) && consistent(
            StoredState::Legacy(stored.legacy_part()).restored(),
        ),
{
}

} // verus!
