use lumina_vesting::account::{AccountId, AddressKind, Bytes32};
use lumina_vesting::vault::{
    VestingVault, VaultEvent, EMERGENCY_PAUSE_DURATION, GOVERNANCE_VETO_PERIOD, TIMELOCK_DURATION,
};
use lumina_vesting::vault_claims::{AML_THRESHOLD, LST_EXCHANGE_RATE, LST_RATE_SCALE};
use lumina_vesting::vault_errors::Error;
use lumina_vesting::vault_types::{Nullifier, ZKClaimProof, ADMIN_INACTIVITY_TIMEOUT};

fn acct(b: u8) -> AccountId {
    AccountId { kind: AddressKind::Account, key: [b; 32] }
}

fn hash(b: u8) -> Bytes32 {
    Bytes32 { bytes: [b; 32] }
}

fn admin() -> AccountId {
    acct(1)
}

fn three_auditors(v: &mut VestingVault) -> (AccountId, AccountId, AccountId) {
    let (a, b, c) = (acct(20), acct(21), acct(22));
    v.initialize_auditors(&admin(), vec![a, b, c]).unwrap();
    (a, b, c)
}

// ---------------------------------------------------------------- claims

#[test]
fn claim_is_recorded_in_history() {
    let mut v = VestingVault::new();
    let user = acct(5);
    v.claim(&user, 1, 500, 10).unwrap();
    v.claim(&acct(6), 2, 700, 11).unwrap();
    v.claim(&user, 3, 900, 12).unwrap();
    assert_eq!(v.get_all_claims().len(), 3);
    let mine = v.get_claims_by_user(&user);
    assert_eq!(mine.len(), 2);
    assert_eq!((mine[0].amount, mine[0].vesting_id, mine[0].timestamp), (500, 1, 10));
    assert_eq!((mine[1].amount, mine[1].vesting_id, mine[1].timestamp), (900, 3, 12));
}

#[test]
fn claim_above_aml_threshold_is_refused() {
    let mut v = VestingVault::new();
    assert_eq!(v.claim(&acct(5), 1, AML_THRESHOLD + 1, 0), Err(Error::AmlThresholdExceeded));
    assert!(v.get_all_claims().is_empty());
    v.claim(&acct(5), 1, AML_THRESHOLD, 0).unwrap();
    assert_eq!(v.get_all_claims().len(), 1);
}

#[test]
fn lst_claim_announces_converted_amount() {
    let mut v = VestingVault::new();
    let lst = acct(40);
    v.configure_lst(&admin(), 9, &lst, &acct(41), 0);
    let before = v.events.len();
    v.claim(&acct(5), 9, 1_000, 3).unwrap();
    assert_eq!(v.events.len(), before + 1);
    match &v.events[before] {
        VaultEvent::LSTClaimExecuted(e) => {
            assert_eq!(e.base_amount, 1_000);
            assert_eq!(e.lst_amount, 1_000 * LST_EXCHANGE_RATE / LST_RATE_SCALE);
            assert_eq!(e.lst_amount, 900);
            assert_eq!(e.lst_token_address.key, lst.key);
        }
        other => panic!("unexpected event {:?}", other),
    }
}

// ---------------------------------------------------------------- payout address whitelisting

#[test]
fn payout_address_takes_effect_after_48_hours() {
    let mut v = VestingVault::new();
    let user = acct(5);
    let wallet = acct(6);
    v.set_authorized_payout_address(&user, &wallet, 1_000);
    let pending = v.get_pending_address_request(&user).unwrap();
    assert_eq!(pending.effective_at, 1_000 + TIMELOCK_DURATION);
    assert_eq!(TIMELOCK_DURATION, 48 * 60 * 60);
    assert_eq!(
        v.confirm_auth_payout_addr(&user, 1_000 + TIMELOCK_DURATION - 1),
        Err(Error::TimelockNotElapsed)
    );
    assert!(v.get_authorized_payout_address(&user).is_none());
    v.confirm_auth_payout_addr(&user, 1_000 + TIMELOCK_DURATION).unwrap();
    let active = v.get_authorized_payout_address(&user).unwrap();
    assert_eq!(active.authorized_address.key, wallet.key);
    assert!(active.is_active);
    assert!(v.get_pending_address_request(&user).is_none());
    assert_eq!(v.confirm_auth_payout_addr(&user, 1_000 + TIMELOCK_DURATION), Err(Error::InvalidInput));
}

#[test]
fn claim_before_whitelisted_address_is_effective_is_refused() {
    let mut v = VestingVault::new();
    let user = acct(5);
    v.set_authorized_payout_address(&user, &acct(6), 0);
    v.confirm_auth_payout_addr(&user, TIMELOCK_DURATION).unwrap();
    assert_eq!(v.claim(&user, 1, 10, TIMELOCK_DURATION - 1), Err(Error::WhitelistNotApproved));
    v.claim(&user, 1, 10, TIMELOCK_DURATION).unwrap();
    v.remove_authorized_payout_address(&user);
    assert!(v.get_authorized_payout_address(&user).is_none());
}

// ---------------------------------------------------------------- emergency pause

#[test]
fn two_of_three_auditors_pause_claims_for_the_pause_duration() {
    let mut v = VestingVault::new();
    let (a, b, _c) = three_auditors(&mut v);
    v.request_emergency_pause(&a, String::from("exploit"), 100).unwrap();
    assert!(!v.is_emergency_paused(100));
    assert_eq!(
        v.request_emergency_pause(&a, String::from("again"), 101),
        Err(Error::AlreadyVoted)
    );
    v.request_emergency_pause(&b, String::from("confirmed"), 200).unwrap();
    assert!(v.is_emergency_paused(200));
    let pause = v.get_emergency_pause_status().as_ref().unwrap();
    assert_eq!(pause.paused_at, 200);
    assert_eq!(pause.expires_at, 200 + EMERGENCY_PAUSE_DURATION);
    assert_eq!(pause.paused_by.len(), 2);
    assert_eq!(v.claim(&acct(5), 1, 10, 300), Err(Error::RegulatoryBlockActive));
    assert_eq!(v.claim_with_lockup(&acct(5), 1, 10, 300), Err(Error::ContractPaused));
    assert!(!v.is_emergency_paused(200 + EMERGENCY_PAUSE_DURATION));
    v.claim(&acct(5), 1, 10, 200 + EMERGENCY_PAUSE_DURATION).unwrap();
    // The lapsed pause was removed on the way.
    assert!(v.get_emergency_pause_status().is_none());
}

#[test]
fn only_registered_auditors_may_ask_for_a_pause() {
    let mut v = VestingVault::new();
    assert_eq!(v.initialize_auditors(&admin(), vec![acct(20), acct(21)]), Err(Error::InvalidInput));
    three_auditors(&mut v);
    assert_eq!(
        v.request_emergency_pause(&acct(99), String::from("x"), 0),
        Err(Error::Unauthorized)
    );
}

// ---------------------------------------------------------------- admin dead-man's switch

#[test]
fn recovery_address_takes_over_only_after_a_year_of_inactivity() {
    let mut v = VestingVault::new();
    let recovery = acct(30);
    assert_eq!(v.ping_admin_activity(&admin(), 0), Err(Error::AdminSwitchNotConfigured));
    assert_eq!(v.set_admin_recovery_address(&admin(), &admin(), 0), Err(Error::RecoveryAddressInvalid));
    v.set_admin_recovery_address(&admin(), &recovery, 0).unwrap();
    v.ping_admin_activity(&admin(), 1_000).unwrap();
    assert_eq!(
        v.claim_admin_recovery(&recovery, 1_000 + ADMIN_INACTIVITY_TIMEOUT - 1),
        Err(Error::AdminInactivityNotElapsed)
    );
    assert_eq!(v.claim_admin_recovery(&acct(31), 1_000 + ADMIN_INACTIVITY_TIMEOUT), Err(Error::Unauthorized));
    v.claim_admin_recovery(&recovery, 1_000 + ADMIN_INACTIVITY_TIMEOUT).unwrap();
    assert!(v.get_admin_switch_state().unwrap().is_triggered);
    assert_eq!(v.ping_admin_activity(&admin(), 5), Err(Error::AdminSwitchAlreadyTriggered));
}

// ---------------------------------------------------------------- reassignment and veto

#[test]
fn small_reassignment_waits_48_hours() {
    let mut v = VestingVault::new();
    v.initialize_token_supply(&admin(), 1_000_000, 0);
    assert!(!v.requires_governance_veto(50_000));
    assert!(v.requires_governance_veto(50_001));
    v.request_beneficiary_reassignment(&acct(5), &acct(6), 1, 50_000, 100);
    let ra = v.get_beneficiary_reassignment(1).unwrap();
    assert!(!ra.requires_governance_veto);
    assert_eq!(ra.effective_at, 100 + TIMELOCK_DURATION);
    assert_eq!(v.execute_beneficiary_reassignment(1, 99 + TIMELOCK_DURATION), Err(Error::TimelockNotElapsed));
    v.execute_beneficiary_reassignment(1, 100 + TIMELOCK_DURATION).unwrap();
    assert!(v.get_beneficiary_reassignment(1).unwrap().is_executed);
    assert_eq!(v.execute_beneficiary_reassignment(1, 100 + TIMELOCK_DURATION), Err(Error::AlreadyInitialized));
    assert_eq!(v.execute_beneficiary_reassignment(7, 0), Err(Error::VaultNotFound));
}

#[test]
fn large_reassignment_is_vetoed_once_the_threshold_is_reached() {
    let mut v = VestingVault::new();
    v.initialize_token_supply(&admin(), 1_000_000, 0);
    v.request_beneficiary_reassignment(&acct(5), &acct(6), 1, 600_000, 100);
    let ra = v.get_beneficiary_reassignment(1).unwrap();
    assert!(ra.requires_governance_veto);
    assert_eq!(ra.effective_at, 100 + GOVERNANCE_VETO_PERIOD);
    v.cast_veto_vote(&acct(50), 1, true, 30_000, 200).unwrap();
    assert_eq!(v.cast_veto_vote(&acct(50), 1, true, 30_000, 201), Err(Error::AlreadyVoted));
    let (vetoed, power, threshold) = v.get_veto_status(1);
    assert!(!vetoed);
    assert_eq!((power, threshold), (30_000, 50_000));
    v.cast_veto_vote(&acct(51), 1, false, 900_000, 202).unwrap();
    v.cast_veto_vote(&acct(52), 1, true, 20_000, 203).unwrap();
    // The reassignment was cancelled.
    assert!(v.get_beneficiary_reassignment(1).is_none());
    assert_eq!(v.get_veto_votes(1).len(), 3);
}

#[test]
fn veto_votes_close_with_the_window() {
    let mut v = VestingVault::new();
    v.initialize_token_supply(&admin(), 1_000_000, 0);
    v.request_beneficiary_reassignment(&acct(5), &acct(6), 1, 600_000, 0);
    assert_eq!(
        v.cast_veto_vote(&acct(50), 1, true, 10, GOVERNANCE_VETO_PERIOD),
        Err(Error::VotingPeriodEnded)
    );
    v.execute_beneficiary_reassignment(1, GOVERNANCE_VETO_PERIOD).unwrap();
    assert_eq!(v.set_governance_veto_threshold(&admin(), 101), Err(Error::InvalidInput));
    v.set_governance_veto_threshold(&admin(), 10).unwrap();
    assert_eq!(v.get_governance_veto_threshold(), 10);
}

// ---------------------------------------------------------------- milestones

#[test]
fn milestones_complete_in_order() {
    let mut v = VestingVault::new();
    assert_eq!(
        v.configure_milestone_vesting(&admin(), 1, vec![30, 30, 30]),
        Err(Error::InvalidInput)
    );
    // A list whose sum does not even fit in 32 bits is refused, not rejected
    // by overflow.
    assert_eq!(
        v.configure_milestone_vesting(&admin(), 1, vec![u32::MAX, 101]),
        Err(Error::InvalidInput)
    );
    assert_eq!(v.configure_milestone_vesting(&admin(), 1, vec![]), Err(Error::InvalidInput));
    assert!(v.get_milestone_config(1).is_none());
    v.configure_milestone_vesting(&admin(), 1, vec![25, 25, 50]).unwrap();
    assert_eq!(v.get_milestone_config(1).unwrap(), vec![25, 25, 50]);
    assert_eq!(v.complete_milestone(&admin(), 1, 2, 0), Err(Error::MilestoneNotCompleted));
    v.complete_milestone(&admin(), 1, 1, 10).unwrap();
    assert_eq!(v.complete_milestone(&admin(), 1, 1, 11), Err(Error::AlreadyInitialized));
    v.complete_milestone(&admin(), 1, 2, 12).unwrap();
    assert_eq!(v.complete_milestone(&admin(), 1, 4, 13), Err(Error::MilestoneNotCompleted));
    v.complete_milestone(&admin(), 1, 0, 14).unwrap();
    let status = v.get_milestone_status(1);
    // Reported in milestone order, whatever the order of completion.
    let keys: Vec<u32> = status.entries.iter().map(|e| e.0).collect();
    assert_eq!(keys, vec![0, 1, 2]);
}

// ---------------------------------------------------------------- private claims

fn proof_for(commitment: Bytes32, root: Bytes32) -> ZKClaimProof {
    ZKClaimProof { commitment_hash: commitment, nullifier_hash: hash(90), merkle_root: root, proof_data: vec![1, 2, 3] }
}

#[test]
fn private_claim_spends_commitment_and_nullifier_once() {
    let mut v = VestingVault::new();
    v.create_commitment(&acct(5), 1, 400, &hash(10), 0).unwrap();
    assert_eq!(v.create_commitment(&acct(5), 1, 400, &hash(10), 0), Err(Error::AlreadyInitialized));
    let proof = proof_for(hash(10), hash(77));
    let nullifier = Nullifier { hash: hash(90) };
    assert_eq!(v.private_claim(&proof, &nullifier, 400, 5), Err(Error::InvalidInput));
    v.add_merkle_root_admin(&admin(), &hash(77)).unwrap();
    assert_eq!(v.private_claim(&proof, &nullifier, 399, 5), Err(Error::InvalidAmount));
    v.private_claim(&proof, &nullifier, 400, 5).unwrap();
    assert!(v.is_nullifier_used_public(&nullifier));
    assert!(v.get_commitment_info(&hash(10)).unwrap().is_used);
    assert_eq!(v.get_privacy_claim_history().len(), 1);
    assert_eq!(v.private_claim(&proof, &nullifier, 400, 6), Err(Error::AlreadyInitialized));
    let fresh = Nullifier { hash: hash(91) };
    assert_eq!(v.private_claim(&proof, &fresh, 400, 6), Err(Error::AlreadyFullyClaimed));
    let unknown = proof_for(hash(11), hash(77));
    assert_eq!(v.private_claim(&unknown, &fresh, 400, 6), Err(Error::VaultNotFound));
}

// ---------------------------------------------------------------- path payments and lock-ups

#[test]
fn path_payment_claim_checks_its_configuration() {
    let mut v = VestingVault::new();
    let usdc = acct(60);
    assert_eq!(
        v.claim_with_path_payment(&acct(5), 1, 100, None, 100, 0),
        Err(Error::PathPaymentNotConfigured)
    );
    v.configure_path_payment(&admin(), &usdc, 50, vec![acct(61)], 0);
    assert_eq!(v.claim_with_path_payment(&acct(5), 1, 0, None, 0, 0), Err(Error::NothingToClaim));
    // The exchange quotes less than the configured minimum.
    assert_eq!(
        v.claim_with_path_payment(&acct(5), 1, 100, None, 49, 0),
        Err(Error::InsufficientLiquidity)
    );
    assert_eq!(v.claim_with_path_payment(&acct(5), 1, 40, Some(0), 40, 0), Err(Error::InvalidInput));
    let sim = v.simulate_path_payment_claim(&acct(5), 1, 100, None, 95, 6);
    assert!(sim.can_execute);
    assert_eq!((sim.estimated_destination_amount, sim.min_destination_amount), (95, 50));
    let sim = v.simulate_path_payment_claim(&acct(5), 1, 100, Some(96), 95, 6);
    assert!(!sim.can_execute);
    v.claim_with_path_payment(&acct(5), 1, 100, None, 95, 7).unwrap();
    let history = v.get_path_payment_claim_history();
    assert_eq!(history.len(), 1);
    assert_eq!((history[0].source_amount, history[0].destination_amount), (100, 95));
    assert_eq!(v.get_all_claims().len(), 1);
    v.disable_path_payment(&admin(), 8);
    assert_eq!(
        v.claim_with_path_payment(&acct(5), 1, 100, None, 100, 9),
        Err(Error::PathPaymentDisabled)
    );
}

#[test]
fn lockup_claims_unlock_after_the_lockup_period() {
    let mut v = VestingVault::new();
    assert!(v.is_user_unlocked(&acct(5), 3, 0));
    assert_eq!(v.get_user_unlock_time(&acct(5), 3, 100), None);
    v.configure_lockup(&admin(), 3, 1_000, &acct(70), 0);
    // Nothing claimed under the lock-up yet: nothing is locked.
    assert!(v.is_user_unlocked(&acct(5), 3, 50));
    assert_eq!(v.get_user_unlock_time(&acct(5), 3, 100), Some(1_100));
    v.claim_with_lockup(&acct(5), 3, 55, 100).unwrap();
    assert_eq!(v.get_all_claims().len(), 1);
    match v.events.last().unwrap() {
        VaultEvent::LockupClaimExecuted(e) => assert_eq!((e.amount, e.unlock_time), (55, 1_100)),
        other => panic!("unexpected event {:?}", other),
    }
    assert!(!v.is_user_unlocked(&acct(5), 3, 1_099));
    assert!(v.is_user_unlocked(&acct(5), 3, 1_100));
    assert!(v.is_user_unlocked(&acct(6), 3, 500));
    // A later claim extends the lock-up; an earlier one does not shorten it.
    v.claim_with_lockup(&acct(5), 3, 5, 400).unwrap();
    assert!(!v.is_user_unlocked(&acct(5), 3, 1_399));
    v.claim_with_lockup(&acct(5), 3, 5, 300).unwrap();
    assert!(!v.is_user_unlocked(&acct(5), 3, 1_399));
    assert!(v.is_user_unlocked(&acct(5), 3, 1_400));
    v.disable_lockup(&admin(), 3, 200);
    assert!(v.is_user_unlocked(&acct(5), 3, 0));
}

// ---------------------------------------------------------------- settings

#[test]
fn tax_withholding_is_capped_at_100_percent() {
    let mut v = VestingVault::new();
    assert_eq!(
        v.configure_tax_withholding(&admin(), &acct(80), 10_001, 0),
        Err(Error::InvalidInput)
    );
    v.configure_tax_withholding(&admin(), &acct(80), 2_500, 0).unwrap();
    let config = v.get_tax_withholding_config().unwrap();
    assert_eq!(config.tax_withholding_bps, 2_500);
    assert!(config.enabled);
    v.disable_tax_withholding(&admin(), 1);
    assert!(!v.get_tax_withholding_config().unwrap().enabled);
}

#[test]
fn precision_division_by_token_decimals() {
    let mut v = VestingVault::new();
    let zero_dec = acct(90);
    let two_dec = acct(91);
    let default_dec = acct(92);
    v.register_token_metadata(&admin(), &zero_dec, 0, 0).unwrap();
    v.register_token_metadata(&admin(), &two_dec, 2, 0).unwrap();
    assert_eq!(v.register_token_metadata(&admin(), &acct(93), 19, 0), Err(Error::InvalidInput));
    assert_eq!(v.get_token_metadata_info(&two_dec).unwrap().decimals, 2);
    // Zero decimals: never rounds a smaller amount down to zero.
    assert_eq!(v.precision_safe_divide(3, 10, &zero_dec), 1);
    assert_eq!(v.precision_safe_divide(25, 10, &zero_dec), 2);
    // Two decimals: scaled division, at least one unit for a positive amount.
    assert_eq!(v.precision_safe_divide(1, 1000, &two_dec), 1);
    assert_eq!(v.precision_safe_divide(1000, 3, &two_dec), 333);
    // Unregistered tokens use plain division.
    assert_eq!(v.precision_safe_divide(3, 10, &default_dec), 0);
    assert_eq!(v.precision_safe_divide(-7, 2, &default_dec), -3);
}

#[test]
fn grants_are_revocable_for_twelve_months_only() {
    let mut v = VestingVault::new();
    v.create_vesting_grant(&admin(), 1, &acct(5), true, 1_000).unwrap();
    assert_eq!(v.create_vesting_grant(&admin(), 1, &acct(5), true, 1_000), Err(Error::AlreadyInitialized));
    v.create_vesting_grant(&admin(), 2, &acct(5), false, 1_000).unwrap();
    assert!(v.is_grant_revocable(1, 1_000));
    assert!(!v.is_grant_revocable(2, 1_000));
    assert!(!v.is_grant_revocable(3, 1_000));
    let expires = v.get_vesting_grant_info(1).unwrap().revocability_expires_at;
    assert!(v.is_grant_revocable(1, expires - 1));
    assert!(!v.is_grant_revocable(1, expires));
}

#[test]
fn voting_power_counts_unvested_balance() {
    let mut v = VestingVault::new();
    assert_eq!(v.get_voting_power(&acct(5), 0), 0);
    v.record_unvested_balance(&admin(), &acct(5), 12_345).unwrap();
    assert_eq!(v.get_voting_power(&acct(5), 0), 12_345);
    assert_eq!(v.record_unvested_balance(&admin(), &acct(5), -1), Err(Error::InvalidInput));
}

#[test]
fn upgrade_blocked_while_funds_are_unvested() {
    let mut v = VestingVault::new();
    v.assert_safe_to_upgrade(&admin(), 0).unwrap();
    v.update_total_unvested_balance(&admin(), 10).unwrap();
    assert_eq!(v.get_total_unvested_balance(), 10);
    assert_eq!(v.assert_safe_to_upgrade(&admin(), 0), Err(Error::UpgradeBlockedByUnvestedFunds));
    assert_eq!(v.update_total_unvested_balance(&admin(), -1), Err(Error::InvalidInput));
}

#[test]
fn reputation_bonus_applies_once() {
    let mut v = VestingVault::new();
    assert!(!v.has_reputation_bonus(&acct(5)));
    v.set_reputation_bridge(&admin(), &acct(100));
    v.apply_reputation_bonus(&acct(5), 0).unwrap();
    assert!(v.has_reputation_bonus(&acct(5)));
    assert_eq!(v.apply_reputation_bonus(&acct(5), 1), Err(Error::AlreadyInitialized));
}

#[test]
fn error_codes_are_distinct_and_stable() {
    assert_eq!(Error::Unauthorized.code(), Error::Unauthorized.code());
    let codes = [
        Error::InvalidInput.code(),
        Error::TimelockNotElapsed.code(),
        Error::AlreadyVoted.code(),
        Error::ContractPaused.code(),
        Error::AmlThresholdExceeded.code(),
        Error::OraclePriceDeviationTooHigh.code(),
        Error::OracleCircuitBreakerActive.code(),
    ];
    for i in 0..codes.len() {
        for j in (i + 1)..codes.len() {
            assert_ne!(codes[i], codes[j]);
        }
    }
}

#[test]
fn emergency_pause_blocks_private_and_path_payment_claims() {
    let mut v = VestingVault::new();
    let (a, b, _c) = three_auditors(&mut v);
    v.create_commitment(&acct(5), 1, 400, &hash(10), 0).unwrap();
    v.add_merkle_root_admin(&admin(), &hash(77)).unwrap();
    v.configure_path_payment(&admin(), &acct(60), 50, vec![], 0);
    v.request_emergency_pause(&a, String::from("a"), 10).unwrap();
    v.request_emergency_pause(&b, String::from("b"), 10).unwrap();
    let proof = proof_for(hash(10), hash(77));
    let nullifier = Nullifier { hash: hash(90) };
    assert_eq!(v.private_claim(&proof, &nullifier, 400, 11), Err(Error::ContractPaused));
    assert_eq!(v.claim_with_path_payment(&acct(5), 1, 100, None, 100, 11), Err(Error::ContractPaused));
    let sim = v.simulate_claim(&acct(5), 1, 11);
    assert!(!sim.can_claim);
    assert_eq!(sim.reason, "Contract is under emergency pause");
    // Once the pause has run out both go through.
    let later = 10 + EMERGENCY_PAUSE_DURATION;
    v.private_claim(&proof, &nullifier, 400, later).unwrap();
    v.claim_with_path_payment(&acct(5), 1, 100, None, 100, later).unwrap();
    let sim = v.simulate_claim(&acct(5), 1, later);
    assert!(sim.can_claim);
    assert_eq!((sim.tokens_to_release, sim.tax_withholding_amount, sim.net_amount), (1000, 50, 950));
}
