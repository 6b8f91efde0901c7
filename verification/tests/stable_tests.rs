use flood_insurance::amount::Amount;
use flood_insurance::errors::LedgerError;
use flood_insurance::holders::{HolderEntry, HolderIndex};
use flood_insurance::identity::{
    allow_list_add, allow_list_contains, allow_list_remove, bytes_equal, copy_bytes, Identity,
};
use flood_insurance::ledger::InsuranceState;
use flood_insurance::policy::{MirrorPolicy, Policy};
use flood_insurance::stable::{restore_order, LegacyState, SchemaVersion, StableState, StoredState};

fn id(bytes: &[u8]) -> Identity {
    Identity::from_bytes(bytes.to_vec()).unwrap()
}

fn amount(value: u64) -> Amount {
    Amount::from_u64(value)
}

fn busy_ledger() -> (InsuranceState, Identity) {
    let admin = id(&[1]);
    let mut state = InsuranceState::new();
    state.init(admin.clone());
    state.add_oracle_updater(&admin, id(&[50])).unwrap();
    state.set_flood_threshold(&admin, 1550).unwrap();
    state.set_flood_level(&admin, 1625).unwrap();
    for holder in [21u8, 22, 23] {
        state
            .create_policy(&id(&[holder]), amount(holder as u64), amount(1000 + holder as u64), 3_000_000_000)
            .unwrap();
    }
    state.trigger_payout(&id(&[22])).unwrap();
    state.create_policy(&id(&[22]), amount(5), amount(6), 4_000_000_000).unwrap();
    state
        .mirror_upsert_policy(
            &admin,
            MirrorPolicy {
                policy_id: 77,
                policyholder_eth: "0xabc".to_string(),
                premium_wei: amount(1),
                coverage_wei: amount(2),
                purchase_time: 3,
                active: true,
                paid_out: false,
            },
        )
        .unwrap();
    (state, admin)
}

fn describe(state: &InsuranceState, admin: &Identity) -> String {
    let policies: Vec<String> = state
        .get_all_policies(admin)
        .unwrap()
        .iter()
        .map(|p| {
            format!(
                "{}:{:?}:{:?}:{:?}:{}:{}:{}",
                p.policy_id,
                p.policyholder.as_bytes(),
                p.premium.to_le_bytes(),
                p.coverage.to_le_bytes(),
                p.purchase_time,
                p.active,
                p.paid_out
            )
        })
        .collect();
    let by_holder: Vec<String> = (0u8..60)
        .map(|h| {
            format!(
                "{:?}",
                state.get_policy_by_holder(&id(&[h])).map(|p| p.policy_id)
            )
        })
        .collect();
    let updaters: Vec<Vec<u8>> = state
        .get_oracle_updaters(admin)
        .unwrap()
        .iter()
        .map(|i| i.as_bytes().clone())
        .collect();
    format!(
        "{:?} {:?} {:?} {} {} {:?} {:?}",
        policies,
        state.get_policy_stats(),
        by_holder,
        state.get_flood_level(),
        state.get_flood_threshold(),
        state.get_admin().as_bytes(),
        updaters
    )
}

#[test]
fn current_layout_round_trips() {
    let (state, admin) = busy_ledger();
    let stored = state.pre_upgrade();
    let keys: Vec<u64> = stored.policies.iter().map(|l| l.0).collect();
    assert_eq!(keys, vec![1, 2, 3, 4]);
    assert_eq!(stored.policy_id_counter, 4);
    assert_eq!(stored.policyholder_map.len(), 3);
    assert_eq!(stored.flood_level, 1625);
    assert_eq!(stored.flood_threshold, 1550);
    assert_eq!(stored.mirror_policies.len(), 1);
    let restored = InsuranceState::post_upgrade(StoredState::Current(stored));
    assert_eq!(describe(&restored, &admin), describe(&state, &admin));
    assert_eq!(restored.mirror_get_policy_stats(), (1, 1, 0));
    assert_eq!(restored.mirror_get_policies()[0].policyholder_eth, "0xabc");
    assert_eq!(restored.get_policy_by_holder(&id(&[22])).unwrap().policy_id, 4);
}

#[test]
fn earlier_layout_restores_with_an_empty_mirror() {
    let (state, admin) = busy_ledger();
    let legacy = state.pre_upgrade().without_mirror();
    let stored = StoredState::Legacy(legacy);
    assert_eq!(stored.version(), SchemaVersion::WithoutMirror);
    let restored = InsuranceState::post_upgrade(stored);
    assert_eq!(describe(&restored, &admin), describe(&state, &admin));
    assert_eq!(restored.mirror_get_policy_stats(), (0, 0, 0));
    assert!(restored.mirror_get_policies().is_empty());
}

#[test]
fn restore_tries_the_newest_layout_first() {
    assert_eq!(
        restore_order(),
        vec![SchemaVersion::WithMirror, SchemaVersion::WithoutMirror]
    );
    let empty = InsuranceState::new().pre_upgrade();
    assert_eq!(StoredState::Current(empty).version(), SchemaVersion::WithMirror);
}

#[test]
fn restore_takes_stored_state_as_it_is() {
    let policy = |policy_id: u64, holder: u8, active: bool| Policy {
        policy_id,
        policyholder: id(&[holder]),
        premium: amount(1),
        coverage: amount(2),
        purchase_time: 0,
        active,
        paid_out: false,
    };
    let stored = LegacyState {
        // Of two lines under one key the later one stays.
        policies: vec![(5, policy(5, 1, true)), (2, policy(2, 2, true)), (5, policy(5, 3, false))],
        policy_id_counter: 9,
        // Of two lines about one holder the first one counts.
        policyholder_map: vec![
            HolderEntry { holder: id(&[3]), policy_id: 5 },
            HolderEntry { holder: id(&[3]), policy_id: 2 },
            HolderEntry { holder: id(&[8]), policy_id: 404 },
        ],
        flood_level: -3,
        flood_threshold: 123456,
        admin: id(&[9]),
        oracle_updaters: vec![id(&[9]), id(&[9])],
    };
    let mut state = InsuranceState::post_upgrade(StoredState::Legacy(stored));
    let admin = id(&[9]);
    let all = state.get_all_policies(&admin).unwrap();
    assert_eq!(all.len(), 2);
    assert_eq!(all[0].policy_id, 2);
    assert_eq!(all[1].policyholder.as_bytes(), &vec![3u8]);
    assert!(!all[1].active);
    assert_eq!(state.get_policy_by_holder(&id(&[3])).unwrap().policy_id, 5);
    // A holder whose entry points nowhere has no policy.
    assert!(state.get_policy_by_holder(&id(&[8])).is_none());
    assert!(!state.is_payout_eligible(&id(&[8])));
    assert_eq!(
        state.trigger_payout(&id(&[8])).unwrap_err(),
        LedgerError::PolicyNotFound
    );
    assert_eq!(state.get_flood_threshold(), 123456);
    assert_eq!(state.get_oracle_updaters(&admin).unwrap().len(), 2);
    assert_eq!(state.get_policy_stats(), (9, 1, 0));
    assert_eq!(state.create_policy(&id(&[8]), amount(1), amount(1), 0), Ok(10));
}

#[test]
fn holder_index_replaces_and_lists() {
    let mut index = HolderIndex::new();
    assert_eq!(index.get(&id(&[1])), None);
    index.set(&id(&[1]), 10);
    index.set(&id(&[2]), 20);
    index.set(&id(&[1]), 30);
    assert_eq!(index.get(&id(&[1])), Some(30));
    assert_eq!(index.get(&id(&[2])), Some(20));
    assert_eq!(index.get(&id(&[])), None);
    let lines = index.entries();
    assert_eq!(lines.len(), 2);
    let again = HolderIndex::from_entries(&lines);
    assert_eq!(again.get(&id(&[1])), Some(30));
    assert_eq!(again.get(&id(&[2])), Some(20));
}

#[test]
fn amounts_are_base_256_least_significant_first() {
    assert_eq!(Amount::from_u64(0).to_le_bytes(), vec![0u8; 8]);
    assert_eq!(
        Amount::from_u64(0x0102030405060708).to_le_bytes(),
        vec![8, 7, 6, 5, 4, 3, 2, 1]
    );
    assert_eq!(Amount::from_u64(u64::MAX).to_le_bytes(), vec![255u8; 8]);
    assert!(Amount::from_u64(0).is_zero());
    assert!(!Amount::from_u64(1).is_zero());
    assert!(!Amount::from_u64(1 << 40).is_zero());
    assert!(Amount::from_le_bytes(vec![]).is_zero());
    assert!(Amount::from_le_bytes(vec![0, 0]).is_zero());
    assert!(!Amount::from_le_bytes(vec![0, 0, 0, 0, 0, 0, 0, 0, 0, 1]).is_zero());
    let a = Amount::from_le_bytes(vec![1, 2, 3]);
    assert!(a.same_digits(&a.clone()));
    assert!(!a.same_digits(&Amount::from_le_bytes(vec![1, 2, 3, 0])));
}

#[test]
fn allow_lists_are_sets_in_order_of_arrival() {
    let mut list: Vec<Identity> = Vec::new();
    assert!(!allow_list_contains(&list, &id(&[1])));
    assert!(allow_list_add(&mut list, id(&[1])));
    assert!(allow_list_add(&mut list, id(&[2])));
    assert!(!allow_list_add(&mut list, id(&[1])));
    assert!(allow_list_add(&mut list, id(&[1, 0])));
    assert_eq!(list.len(), 3);
    assert!(allow_list_contains(&list, &id(&[1, 0])));
    assert!(!allow_list_contains(&list, &id(&[0, 1])));
    allow_list_remove(&mut list, &id(&[1]));
    let bytes: Vec<Vec<u8>> = list.iter().map(|i| i.as_bytes().clone()).collect();
    assert_eq!(bytes, vec![vec![2u8], vec![1u8, 0u8]]);
    // A list that holds someone twice loses both.
    let mut doubled = vec![id(&[7]), id(&[8]), id(&[7])];
    allow_list_remove(&mut doubled, &id(&[7]));
    assert_eq!(doubled.len(), 1);
    assert_eq!(doubled[0].as_bytes(), &vec![8u8]);
}

#[test]
fn byte_helpers() {
    assert!(bytes_equal(&vec![], &vec![]));
    assert!(bytes_equal(&vec![1, 2], &vec![1, 2]));
    assert!(!bytes_equal(&vec![1, 2], &vec![1, 3]));
    assert!(!bytes_equal(&vec![1, 2], &vec![1, 2, 0]));
    assert_eq!(copy_bytes(&vec![9, 8, 7]), vec![9, 8, 7]);
    assert!(id(&[1, 2]).same(&id(&[1, 2])));
    assert!(!id(&[1, 2]).same(&id(&[1])));
}
