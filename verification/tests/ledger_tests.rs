use flood_insurance::amount::Amount;
use flood_insurance::errors::{ErrorKind, LedgerError};
use flood_insurance::identity::Identity;
use flood_insurance::ledger::InsuranceState;
use flood_insurance::policy::MirrorPolicy;

fn id(bytes: &[u8]) -> Identity {
    Identity::from_bytes(bytes.to_vec()).unwrap()
}

fn amount(value: u64) -> Amount {
    Amount::from_u64(value)
}

fn value_of(amount: &Amount) -> u64 {
    let mut bytes = amount.to_le_bytes();
    bytes.resize(8, 0);
    assert!(bytes[8..].iter().all(|b| *b == 0));
    let mut eight = [0u8; 8];
    eight.copy_from_slice(&bytes[..8]);
    u64::from_le_bytes(eight)
}

fn ledger(admin: &Identity) -> InsuranceState {
    let mut state = InsuranceState::new();
    state.init(admin.clone());
    state
}

const SECOND: u64 = 1_000_000_000;

#[test]
fn new_ledger_is_unclaimed() {
    let state = InsuranceState::new();
    assert_eq!(state.get_admin().as_bytes(), &vec![4u8]);
    assert_eq!(state.get_flood_level(), 0);
    assert_eq!(state.get_flood_threshold(), 1200);
    assert_eq!(state.get_policy_stats(), (0, 0, 0));
    assert!(state.get_policy(1).is_none());
    let anonymous = Identity::anonymous();
    assert_eq!(state.get_oracle_updaters(&anonymous).unwrap().len(), 0);
}

#[test]
fn init_makes_the_caller_admin_and_updater() {
    let admin = id(&[1, 2, 3]);
    let state = ledger(&admin);
    assert_eq!(state.get_admin().as_bytes(), admin.as_bytes());
    let updaters = state.get_oracle_updaters(&admin).unwrap();
    assert_eq!(updaters.len(), 1);
    assert_eq!(updaters[0].as_bytes(), admin.as_bytes());
}

#[test]
fn created_policy_is_found_by_id_and_by_holder() {
    let admin = id(&[1]);
    let holder = id(&[7, 7]);
    let mut state = ledger(&admin);
    let policy_id = state
        .create_policy(&holder, amount(1000), amount(50000), 1_700_000_000 * SECOND + 999)
        .unwrap();
    assert_eq!(policy_id, 1);
    let policy = state.get_policy(policy_id).unwrap();
    assert_eq!(policy.policy_id, 1);
    assert_eq!(policy.policyholder.as_bytes(), holder.as_bytes());
    assert_eq!(value_of(&policy.premium), 1000);
    assert_eq!(value_of(&policy.coverage), 50000);
    assert_eq!(policy.purchase_time, 1_700_000_000);
    assert!(policy.active);
    assert!(!policy.paid_out);
    let by_holder = state.get_policy_by_holder(&holder).unwrap();
    assert_eq!(by_holder.policy_id, 1);
    assert!(by_holder.active);
    assert!(!by_holder.paid_out);
    assert!(state.get_policy(2).is_none());
    assert!(state.get_policy_by_holder(&admin).is_none());
}

#[test]
fn ids_are_sequential() {
    let admin = id(&[1]);
    let mut state = ledger(&admin);
    assert_eq!(state.create_policy(&id(&[10]), amount(1), amount(1), 0), Ok(1));
    assert_eq!(state.create_policy(&id(&[11]), amount(1), amount(1), 0), Ok(2));
    assert_eq!(state.create_policy(&id(&[12]), amount(1), amount(1), 0), Ok(3));
    assert_eq!(state.get_policy_stats(), (3, 3, 0));
}

#[test]
fn zero_premium_or_coverage_is_a_validation_error() {
    let admin = id(&[1]);
    let holder = id(&[2]);
    let mut state = ledger(&admin);
    let r = state.create_policy(&holder, amount(0), amount(5), 0);
    assert_eq!(r, Err(LedgerError::PremiumZero));
    assert_eq!(r.unwrap_err().kind(), ErrorKind::Validation);
    let r = state.create_policy(&holder, amount(5), amount(0), 0);
    assert_eq!(r, Err(LedgerError::CoverageZero));
    assert_eq!(r.unwrap_err().kind(), ErrorKind::Validation);
    // Both zero: the premium is looked at first.
    let r = state.create_policy(&holder, amount(0), amount(0), 0);
    assert_eq!(r, Err(LedgerError::PremiumZero));
    // A zero written with several digits is zero.
    let r = state.create_policy(&holder, Amount::from_le_bytes(vec![0, 0, 0]), amount(1), 0);
    assert_eq!(r, Err(LedgerError::PremiumZero));
    let r = state.create_policy(&holder, Amount::from_le_bytes(vec![]), amount(1), 0);
    assert_eq!(r, Err(LedgerError::PremiumZero));
    assert_eq!(state.get_policy_stats(), (0, 0, 0));
    assert!(state.get_policy_by_holder(&holder).is_none());
}

#[test]
fn amounts_beyond_u64_are_kept() {
    let admin = id(&[1]);
    let holder = id(&[2]);
    let mut state = ledger(&admin);
    let big = vec![0, 0, 0, 0, 0, 0, 0, 0, 1];
    let policy_id = state
        .create_policy(&holder, Amount::from_le_bytes(big.clone()), amount(1), 0)
        .unwrap();
    assert_eq!(state.get_policy(policy_id).unwrap().premium.to_le_bytes(), big);
}

#[test]
fn second_policy_conflicts_while_the_first_is_active() {
    let admin = id(&[1]);
    let holder = id(&[2]);
    let mut state = ledger(&admin);
    assert_eq!(state.create_policy(&holder, amount(10), amount(100), 0), Ok(1));
    let r = state.create_policy(&holder, amount(10), amount(100), 0);
    assert_eq!(r, Err(LedgerError::PolicyAlreadyActive));
    assert_eq!(r.unwrap_err().kind(), ErrorKind::Conflict);
    // The conflict is reported before the amounts are looked at.
    let r = state.create_policy(&holder, amount(0), amount(0), 0);
    assert_eq!(r, Err(LedgerError::PolicyAlreadyActive));
    assert_eq!(state.get_policy_stats(), (1, 1, 0));
}

#[test]
fn inactive_policy_is_superseded() {
    let admin = id(&[1]);
    let holder = id(&[2]);
    let mut state = ledger(&admin);
    assert_eq!(state.create_policy(&holder, amount(10), amount(100), 0), Ok(1));
    assert_eq!(state.update_policy_status(&holder, 1, false, false), Ok(()));
    assert_eq!(state.create_policy(&holder, amount(20), amount(200), 5 * SECOND), Ok(2));
    let latest = state.get_policy_by_holder(&holder).unwrap();
    assert_eq!(latest.policy_id, 2);
    assert_eq!(value_of(&latest.coverage), 200);
    assert_eq!(latest.purchase_time, 5);
    // The old policy is still there under its id.
    let old = state.get_policy(1).unwrap();
    assert!(!old.active);
    assert_eq!(value_of(&old.coverage), 100);
    assert_eq!(state.get_policy_stats(), (2, 1, 0));
}

#[test]
fn payout_scenario_at_twelve_feet() {
    let admin = id(&[1]);
    let holder = id(&[2]);
    let mut state = ledger(&admin);
    assert_eq!(state.get_flood_threshold(), 1200);
    assert_eq!(state.create_policy(&holder, amount(10), amount(12345), 0), Ok(1));
    assert_eq!(state.set_flood_level(&admin, 1190), Ok(()));
    assert!(!state.is_payout_eligible(&holder));
    let refused = state.trigger_payout(&holder);
    assert_eq!(refused.as_ref().unwrap_err(), &LedgerError::BelowThreshold);
    assert_eq!(refused.unwrap_err().kind(), ErrorKind::ThresholdNotMet);
    assert_eq!(state.set_flood_level(&admin, 1200), Ok(()));
    assert!(state.is_payout_eligible(&holder));
    let paid = state.trigger_payout(&holder).unwrap();
    assert_eq!(value_of(&paid), 12345);
    let policy = state.get_policy(1).unwrap();
    assert!(!policy.active);
    assert!(policy.paid_out);
    assert!(!state.is_payout_eligible(&holder));
    let again = state.trigger_payout(&holder).unwrap_err();
    assert_eq!(again, LedgerError::PayoutAlreadyIssued);
    assert_eq!(again.kind(), ErrorKind::InvalidState);
    assert_eq!(again.message(), "Payout already issued");
    let policy = state.get_policy(1).unwrap();
    assert!(!policy.active);
    assert!(policy.paid_out);
    assert_eq!(state.get_policy_stats(), (1, 0, 1));
}

#[test]
fn payout_needs_an_active_policy() {
    let admin = id(&[1]);
    let holder = id(&[2]);
    let mut state = ledger(&admin);
    state.create_policy(&holder, amount(1), amount(2), 0).unwrap();
    state.set_flood_level(&admin, 5000).unwrap();
    assert_eq!(state.update_policy_status(&holder, 1, false, false), Ok(()));
    assert!(!state.is_payout_eligible(&holder));
    let r = state.trigger_payout(&holder).unwrap_err();
    assert_eq!(r, LedgerError::NoActivePolicy);
    assert_eq!(r.kind(), ErrorKind::InvalidState);
    assert_eq!(r.message(), "No active policy");
    let policy = state.get_policy(1).unwrap();
    assert!(!policy.active);
    assert!(!policy.paid_out);
}

#[test]
fn payout_needs_a_policy() {
    let admin = id(&[1]);
    let mut state = ledger(&admin);
    state.set_flood_level(&admin, 5000).unwrap();
    let r = state.trigger_payout(&id(&[9])).unwrap_err();
    assert_eq!(r, LedgerError::NoPolicyForHolder);
    assert_eq!(r.kind(), ErrorKind::NotFound);
    assert!(!state.is_payout_eligible(&id(&[9])));
}

#[test]
fn payout_is_for_the_holder_not_the_admin() {
    let admin = id(&[1]);
    let holder = id(&[2]);
    let mut state = ledger(&admin);
    state.create_policy(&holder, amount(1), amount(2), 0).unwrap();
    state.set_flood_level(&admin, 5000).unwrap();
    assert_eq!(
        state.trigger_payout(&admin).unwrap_err(),
        LedgerError::NoPolicyForHolder
    );
    assert!(state.get_policy(1).unwrap().active);
}

#[test]
fn reactivation_of_a_paid_out_policy_is_not_blocked() {
    let admin = id(&[1]);
    let holder = id(&[2]);
    let mut state = ledger(&admin);
    state.create_policy(&holder, amount(1), amount(2), 0).unwrap();
    state.set_flood_level(&admin, 5000).unwrap();
    state.trigger_payout(&holder).unwrap();
    // The active flag is taken as given, also on a paid-out policy.
    assert_eq!(state.update_policy_status(&holder, 1, true, true), Err(LedgerError::PayoutOnInactive));
    assert_eq!(state.update_policy_status(&admin, 1, true, false), Ok(()));
    let policy = state.get_policy(1).unwrap();
    assert!(policy.active);
    // Both flags are written as given: the payout flag is gone.
    assert!(!policy.paid_out);
    assert!(state.is_payout_eligible(&holder));
    assert_eq!(value_of(&state.trigger_payout(&holder).unwrap()), 2);
    let policy = state.get_policy(1).unwrap();
    assert!(!policy.active);
    assert!(policy.paid_out);
    // Keeping the payout flag while re-activating counts as a second
    // payout, and is refused.
    assert_eq!(
        state.update_policy_status(&admin, 1, true, true),
        Err(LedgerError::PayoutOnInactive)
    );
    assert_eq!(state.update_policy_status(&admin, 1, false, true), Err(LedgerError::PayoutOnInactive));
    assert_eq!(state.get_policy_stats(), (1, 0, 1));
}

#[test]
fn already_issued_payout_is_reported() {
    let admin = id(&[1]);
    let holder = id(&[2]);
    let mut state = ledger(&admin);
    state.create_policy(&holder, amount(1), amount(2), 0).unwrap();
    state.set_flood_level(&admin, 5000).unwrap();
    // Paid out through a status update that keeps the policy active.
    assert_eq!(state.update_policy_status(&holder, 1, true, true), Ok(()));
    let r = state.trigger_payout(&holder).unwrap_err();
    assert_eq!(r, LedgerError::PayoutAlreadyIssued);
    assert_eq!(r.kind(), ErrorKind::InvalidState);
    assert_eq!(r.message(), "Payout already issued");
    let r = state.update_policy_status(&holder, 1, true, true).unwrap_err();
    assert_eq!(r, LedgerError::AlreadyPaidOut);
    assert_eq!(r.message(), "Policy already paid out");
    assert_eq!(state.get_policy_stats(), (1, 1, 1));
}

#[test]
fn status_update_rules() {
    let admin = id(&[1]);
    let holder = id(&[2]);
    let stranger = id(&[3]);
    let mut state = ledger(&admin);
    state.create_policy(&holder, amount(1), amount(2), 0).unwrap();
    let r = state.update_policy_status(&holder, 99, true, false).unwrap_err();
    assert_eq!(r, LedgerError::PolicyNotFound);
    assert_eq!(r.kind(), ErrorKind::NotFound);
    let r = state.update_policy_status(&stranger, 1, false, false).unwrap_err();
    assert_eq!(r, LedgerError::NotHolderOrAdmin);
    assert_eq!(r.kind(), ErrorKind::Unauthorized);
    // An unknown policy is reported before the caller is looked at.
    assert_eq!(
        state.update_policy_status(&stranger, 99, false, false),
        Err(LedgerError::PolicyNotFound)
    );
    // Below the threshold no payout flag.
    let r = state.update_policy_status(&admin, 1, true, true).unwrap_err();
    assert_eq!(r, LedgerError::BelowThreshold);
    assert_eq!(r.kind(), ErrorKind::ThresholdNotMet);
    // An inactive policy takes no payout flag, whatever the level.
    assert_eq!(state.update_policy_status(&admin, 1, false, false), Ok(()));
    state.set_flood_level(&admin, 5000).unwrap();
    let r = state.update_policy_status(&holder, 1, true, true).unwrap_err();
    assert_eq!(r, LedgerError::PayoutOnInactive);
    assert_eq!(r.kind(), ErrorKind::InvalidState);
    assert_eq!(state.update_policy_status(&holder, 1, true, false), Ok(()));
    assert_eq!(state.update_policy_status(&holder, 1, false, true), Ok(()));
    let policy = state.get_policy(1).unwrap();
    assert!(!policy.active);
    assert!(policy.paid_out);
}

#[test]
fn threshold_bounds() {
    let admin = id(&[1]);
    let mut state = ledger(&admin);
    assert_eq!(
        state.set_flood_threshold(&admin, 0),
        Err(LedgerError::ThresholdNotPositive)
    );
    assert_eq!(
        state.set_flood_threshold(&admin, -1),
        Err(LedgerError::ThresholdNotPositive)
    );
    assert_eq!(
        state.set_flood_threshold(&admin, i64::MIN),
        Err(LedgerError::ThresholdNotPositive)
    );
    assert_eq!(
        state.set_flood_threshold(&admin, 10001),
        Err(LedgerError::ThresholdTooHigh { requested: 10001 })
    );
    assert_eq!(state.get_flood_threshold(), 1200);
    assert_eq!(state.set_flood_threshold(&admin, 10000), Ok(()));
    assert_eq!(state.get_flood_threshold(), 10000);
    assert_eq!(state.set_flood_threshold(&admin, 1), Ok(()));
    assert_eq!(state.get_flood_threshold(), 1);
}

#[test]
fn threshold_is_for_the_admin() {
    let admin = id(&[1]);
    let stranger = id(&[3]);
    let mut state = ledger(&admin);
    let r = state.set_flood_threshold(&stranger, 1500).unwrap_err();
    assert_eq!(r, LedgerError::AdminRequired);
    assert_eq!(r.kind(), ErrorKind::Unauthorized);
    // The caller is looked at before the value.
    assert_eq!(
        state.set_flood_threshold(&stranger, 15000),
        Err(LedgerError::AdminRequired)
    );
    let r = state.set_flood_threshold(&admin, 15000).unwrap_err();
    assert_eq!(r, LedgerError::ThresholdTooHigh { requested: 15000 });
    assert_eq!(r.kind(), ErrorKind::Validation);
    assert_eq!(
        r.message(),
        "Threshold too high: 150.00 ft (max 100.00 ft)"
    );
    assert_eq!(state.get_flood_threshold(), 1200);
}

#[test]
fn flood_level_is_for_updaters_and_admin() {
    let admin = id(&[1]);
    let updater = id(&[5]);
    let stranger = id(&[3]);
    let mut state = ledger(&admin);
    let r = state.set_flood_level(&stranger, 100).unwrap_err();
    assert_eq!(r, LedgerError::UpdaterRequired);
    assert_eq!(r.kind(), ErrorKind::Unauthorized);
    assert_eq!(state.get_flood_level(), 0);
    assert_eq!(state.add_oracle_updater(&admin, updater.clone()), Ok(()));
    assert_eq!(state.set_flood_level(&updater, -250), Ok(()));
    assert_eq!(state.get_flood_level(), -250);
    assert_eq!(state.set_flood_level(&updater, i64::MAX), Ok(()));
    assert_eq!(state.get_flood_level(), i64::MAX);
    assert_eq!(state.remove_oracle_updater(&admin, &updater), Ok(()));
    assert_eq!(
        state.set_flood_level(&updater, 1),
        Err(LedgerError::UpdaterRequired)
    );
    // The admin may push levels even when taken off the list.
    assert_eq!(state.remove_oracle_updater(&admin, &admin), Ok(()));
    assert_eq!(state.get_oracle_updaters(&admin).unwrap().len(), 0);
    assert_eq!(state.set_flood_level(&admin, 7), Ok(()));
    assert_eq!(state.get_flood_level(), 7);
}

#[test]
fn updater_list_is_a_set_kept_by_the_admin() {
    let admin = id(&[1]);
    let a = id(&[5]);
    let b = id(&[6]);
    let mut state = ledger(&admin);
    assert_eq!(
        state.add_oracle_updater(&a, b.clone()),
        Err(LedgerError::AdminRequired)
    );
    assert_eq!(
        state.remove_oracle_updater(&a, &admin),
        Err(LedgerError::AdminRequired)
    );
    assert_eq!(
        state.get_oracle_updaters(&a).unwrap_err(),
        LedgerError::AdminRequired
    );
    state.add_oracle_updater(&admin, a.clone()).unwrap();
    state.add_oracle_updater(&admin, a.clone()).unwrap();
    state.add_oracle_updater(&admin, b.clone()).unwrap();
    let list = state.get_oracle_updaters(&admin).unwrap();
    let bytes: Vec<Vec<u8>> = list.iter().map(|i| i.as_bytes().clone()).collect();
    assert_eq!(bytes, vec![vec![1u8], vec![5u8], vec![6u8]]);
    state.remove_oracle_updater(&admin, &a).unwrap();
    let list = state.get_oracle_updaters(&admin).unwrap();
    let bytes: Vec<Vec<u8>> = list.iter().map(|i| i.as_bytes().clone()).collect();
    assert_eq!(bytes, vec![vec![1u8], vec![6u8]]);
    // Removing someone who is not on the list changes nothing.
    state.remove_oracle_updater(&admin, &a).unwrap();
    assert_eq!(state.get_oracle_updaters(&admin).unwrap().len(), 2);
}

#[test]
fn admin_can_be_transferred() {
    let admin = id(&[1]);
    let next = id(&[8]);
    let mut state = ledger(&admin);
    assert_eq!(
        state.transfer_admin(&next, next.clone()),
        Err(LedgerError::AdminRequired)
    );
    assert_eq!(state.transfer_admin(&admin, next.clone()), Ok(()));
    assert_eq!(state.get_admin().as_bytes(), next.as_bytes());
    assert_eq!(
        state.set_flood_threshold(&admin, 500),
        Err(LedgerError::AdminRequired)
    );
    assert_eq!(state.set_flood_threshold(&next, 500), Ok(()));
}

#[test]
fn all_policies_are_listed_by_id_for_the_admin() {
    let admin = id(&[1]);
    let mut state = ledger(&admin);
    for holder in [30u8, 10, 20] {
        state
            .create_policy(&id(&[holder]), amount(1), amount(holder as u64), 0)
            .unwrap();
    }
    let r = state.get_all_policies(&id(&[30])).unwrap_err();
    assert_eq!(r, LedgerError::AdminRequired);
    let all = state.get_all_policies(&admin).unwrap();
    let ids: Vec<u64> = all.iter().map(|p| p.policy_id).collect();
    assert_eq!(ids, vec![1, 2, 3]);
    // As many as were ever created.
    assert_eq!(all.len() as u64, state.get_policy_stats().0);
    let holders: Vec<Vec<u8>> = all.iter().map(|p| p.policyholder.as_bytes().clone()).collect();
    assert_eq!(holders, vec![vec![30u8], vec![10u8], vec![20u8]]);
}

#[test]
fn stats_count_flags() {
    let admin = id(&[1]);
    let mut state = ledger(&admin);
    for holder in 10u8..15 {
        state.create_policy(&id(&[holder]), amount(1), amount(1), 0).unwrap();
    }
    state.set_flood_level(&admin, 5000).unwrap();
    state.trigger_payout(&id(&[10])).unwrap();
    state.trigger_payout(&id(&[11])).unwrap();
    state.update_policy_status(&admin, 3, false, false).unwrap();
    state.update_policy_status(&admin, 4, true, true).unwrap();
    // Active: 4 and 5. Paid out: 1, 2 and 4.
    assert_eq!(state.get_policy_stats(), (5, 2, 3));
}

fn mirror(policy_id: u64, active: bool, paid_out: bool) -> MirrorPolicy {
    MirrorPolicy {
        policy_id,
        policyholder_eth: format!("0x{:040x}", policy_id),
        premium_wei: amount(policy_id * 10),
        coverage_wei: amount(policy_id * 1000),
        purchase_time: 1_700_000_000 + policy_id,
        active,
        paid_out,
    }
}

#[test]
fn mirror_is_kept_by_the_admin_and_read_by_all() {
    let admin = id(&[1]);
    let stranger = id(&[3]);
    let mut state = ledger(&admin);
    assert_eq!(
        state.mirror_upsert_policy(&stranger, mirror(1, true, false)),
        Err(LedgerError::AdminRequired)
    );
    assert_eq!(
        state.mirror_batch_upsert_policies(&stranger, vec![mirror(1, true, false)]),
        Err(LedgerError::AdminRequired)
    );
    assert_eq!(
        state.mirror_clear_policies(&stranger),
        Err(LedgerError::AdminRequired)
    );
    assert_eq!(state.mirror_get_policy_stats(), (0, 0, 0));
    assert_eq!(state.mirror_upsert_policy(&admin, mirror(7, true, false)), Ok(()));
    assert_eq!(
        state.mirror_batch_upsert_policies(
            &admin,
            vec![
                mirror(3, true, false),
                mirror(9, false, true),
                mirror(3, false, true),
                mirror(1, true, true),
            ]
        ),
        Ok(())
    );
    let all = state.mirror_get_policies();
    let ids: Vec<u64> = all.iter().map(|p| p.policy_id).collect();
    assert_eq!(ids, vec![1, 3, 7, 9]);
    // Of the two records with id 3 the later one stayed.
    assert!(!all[1].active);
    assert!(all[1].paid_out);
    assert_eq!(all[2].policyholder_eth, format!("0x{:040x}", 7));
    assert_eq!(value_of(&all[2].coverage_wei), 7000);
    assert_eq!(state.mirror_get_policy_stats(), (4, 2, 3));
    // The mirror has nothing to do with the ledger's own policies.
    assert_eq!(state.get_policy_stats(), (0, 0, 0));
    assert_eq!(state.mirror_upsert_policy(&admin, mirror(7, false, false)), Ok(()));
    assert_eq!(state.mirror_get_policy_stats(), (4, 1, 3));
    assert_eq!(state.mirror_clear_policies(&admin), Ok(()));
    assert_eq!(state.mirror_get_policies().len(), 0);
    assert_eq!(state.mirror_get_policy_stats(), (0, 0, 0));
}

#[test]
fn every_refusal_has_its_sentence() {
    let cases = vec![
        (LedgerError::PremiumZero, "Premium must be greater than 0"),
        (LedgerError::CoverageZero, "Coverage must be greater than 0"),
        (LedgerError::ThresholdNotPositive, "Threshold must be positive"),
        (
            LedgerError::ThresholdTooHigh { requested: 10001 },
            "Threshold too high: 100.01 ft (max 100.00 ft)",
        ),
        (LedgerError::PolicyAlreadyActive, "Policy already active"),
        (LedgerError::PolicyNotFound, "Policy not found"),
        (LedgerError::NoPolicyForHolder, "No policy found"),
        (LedgerError::NotHolderOrAdmin, "Unauthorized"),
        (LedgerError::AdminRequired, "Unauthorized: Admin access required"),
        (
            LedgerError::UpdaterRequired,
            "Unauthorized: Oracle updater access required",
        ),
        (LedgerError::PayoutOnInactive, "Cannot pay out inactive policy"),
        (LedgerError::AlreadyPaidOut, "Policy already paid out"),
        (LedgerError::NoActivePolicy, "No active policy"),
        (LedgerError::PayoutAlreadyIssued, "Payout already issued"),
        (LedgerError::BelowThreshold, "Flood level below threshold"),
    ];
    for (error, sentence) in cases {
        assert_eq!(error.message(), sentence);
    }
}

#[test]
fn listing_keeps_superseded_and_paid_out_policies() {
    let admin = id(&[1]);
    let holder = id(&[2]);
    let mut state = ledger(&admin);
    state.set_flood_level(&admin, 5000).unwrap();
    state.create_policy(&holder, amount(1), amount(10), 0).unwrap();
    state.trigger_payout(&holder).unwrap();
    state.create_policy(&holder, amount(1), amount(20), 0).unwrap();
    state.update_policy_status(&holder, 2, false, false).unwrap();
    state.create_policy(&holder, amount(1), amount(30), 0).unwrap();
    let all = state.get_all_policies(&admin).unwrap();
    let coverages: Vec<u64> = all.iter().map(|p| value_of(&p.coverage)).collect();
    assert_eq!(coverages, vec![10, 20, 30]);
    assert_eq!(all.len() as u64, state.get_policy_stats().0);
    assert_eq!(state.get_policy_stats(), (3, 1, 1));
}

#[test]
fn refusal_to_create_is_told_beforehand() {
    let admin = id(&[1]);
    let holder = id(&[2]);
    let mut state = ledger(&admin);
    assert!(state.has_free_id());
    assert_eq!(state.create_policy_refusal(&holder, &amount(1), &amount(1)), None);
    assert_eq!(
        state.create_policy_refusal(&holder, &amount(0), &amount(1)),
        Some(LedgerError::PremiumZero)
    );
    assert_eq!(
        state.create_policy_refusal(&holder, &amount(1), &amount(0)),
        Some(LedgerError::CoverageZero)
    );
    state.create_policy(&holder, amount(1), amount(1), 0).unwrap();
    assert_eq!(
        state.create_policy_refusal(&holder, &amount(1), &amount(1)),
        Some(LedgerError::PolicyAlreadyActive)
    );
    assert_eq!(state.create_policy_refusal(&admin, &amount(1), &amount(1)), None);
    // Asking changes nothing.
    assert_eq!(state.get_policy_stats(), (1, 1, 0));
}
