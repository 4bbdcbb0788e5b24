use lumina_vesting::contract_settings::create_asset_allocation;
use lumina_vesting::account::{AccountId, AddressKind};
use lumina_vesting::governance::VestingContract;
use lumina_vesting::oracle::{ComparisonOperator, OracleClient, PerformanceCliff, PerformanceMultiplier};
use lumina_vesting::schedules::{Milestone, ScheduleError, MAX_DURATION};

fn acct(b: u8) -> AccountId {
    AccountId { kind: AddressKind::Account, key: [b; 32] }
}

/// An initialized contract with a token and a supply of 1,000,000.
fn contract() -> VestingContract {
    let mut c = VestingContract::new();
    c.initialize(&acct(1), 1_000_000).unwrap();
    c.set_token(&acct(50)).unwrap();
    c
}

#[test]
fn vault_creation_checks_funding_and_duration() {
    let mut c = VestingContract::new();
    assert_eq!(c.create_vault_full(&acct(5), 10, 0, 100, 0, true, false, 0, 0), Err(ScheduleError::AdminNotSet));
    c.initialize(&acct(1), 1_000).unwrap();
    assert_eq!(c.create_vault_full(&acct(5), 10, 0, 100, 0, true, false, 0, 0), Err(ScheduleError::TokenNotSet));
    c.set_token(&acct(50)).unwrap();
    assert_eq!(c.set_token(&acct(51)), Err(ScheduleError::TokenAlreadySet));
    assert_eq!(
        c.create_vault_full(&acct(5), 1_001, 0, 100, 0, true, false, 0, 0),
        Err(ScheduleError::InsufficientAdminBalance)
    );
    assert_eq!(c.create_vault_full(&acct(5), 10, 100, 100, 0, true, false, 0, 0), Err(ScheduleError::InvalidDuration));
    assert_eq!(
        c.create_vault_full(&acct(5), 10, 0, MAX_DURATION + 1, 0, true, false, 0, 0),
        Err(ScheduleError::DurationTooLong)
    );
    assert_eq!(c.create_vault_full(&acct(5), 400, 0, MAX_DURATION, 0, true, false, 0, 7), Ok(1));
    assert_eq!(c.admin_balance, 600);
    assert_eq!(c.total_shares, 400);
    // A lazy vault does not draw on the admin's balance.
    assert_eq!(c.create_vault_lazy(&acct(6), 5_000, 0, 100, 0, false, true, 0, 7), Ok(2));
    assert_eq!(c.admin_balance, 600);
    let v = c.get_vault(2).unwrap();
    assert!(!v.is_initialized && v.is_irrevocable && v.is_transferable);
    assert_eq!(v.allocations[0].total_amount, 5_000);
    assert_eq!(c.get_vault(3).unwrap_err(), ScheduleError::VaultNotFound);
}

#[test]
fn linear_vesting_and_claims() {
    let mut c = contract();
    let id = c.create_vault_full(&acct(5), 1_000, 100, 1_100, 0, true, false, 0, 0).unwrap();
    assert_eq!(c.get_claimable_amount(id, 100), Ok(0));
    assert_eq!(c.get_claimable_amount(id, 350), Ok(250));
    assert_eq!(c.get_claimable_amount(id, 5_000), Ok(1_000));
    assert_eq!(c.claim_tokens(id, 251, 350), Err(ScheduleError::InsufficientVestedTokens));
    assert_eq!(c.claim_tokens(id, 200, 350), Ok(200));
    assert_eq!(c.claim_tokens(id, 51, 350), Err(ScheduleError::InsufficientVestedTokens));
    assert_eq!(c.claim_tokens(id, 50, 350), Ok(50));
    assert_eq!(c.get_vault(id).unwrap().allocations[0].released_amount, 250);
    assert_eq!(c.claim_tokens(9, 1, 350), Err(ScheduleError::VaultNotFound));
}

#[test]
fn stepped_vesting_releases_whole_steps() {
    let mut c = contract();
    let id = c.create_vault_full(&acct(5), 1_000, 0, 1_000, 0, true, false, 250, 0).unwrap();
    assert_eq!(c.get_claimable_amount(id, 249), Ok(0));
    assert_eq!(c.get_claimable_amount(id, 250), Ok(250));
    assert_eq!(c.get_claimable_amount(id, 999), Ok(750));
}

#[test]
fn frozen_lazy_and_paused_vaults_refuse_claims() {
    let mut c = contract();
    let id = c.create_vault_full(&acct(5), 1_000, 0, 1_000, 0, true, false, 0, 0).unwrap();
    let lazy = c.create_vault_lazy(&acct(6), 1_000, 0, 1_000, 0, true, false, 0, 0).unwrap();
    assert_eq!(c.claim_tokens(lazy, 1, 500), Err(ScheduleError::VaultNotInitialized));
    c.freeze_vault(id, true).unwrap();
    assert_eq!(c.claim_tokens(id, 1, 500), Err(ScheduleError::VaultFrozen));
    c.freeze_vault(id, false).unwrap();
    assert_eq!(c.pause_specific_schedule(lazy, &acct(2), String::from("x"), 0), Err(ScheduleError::VaultNotInitialized));
    c.pause_specific_schedule(id, &acct(2), String::from("audit"), 400).unwrap();
    assert!(c.is_vault_paused(id));
    assert_eq!(
        c.pause_specific_schedule(id, &acct(2), String::from("again"), 401),
        Err(ScheduleError::VaultAlreadyPaused)
    );
    assert_eq!(c.claim_tokens(id, 1, 500), Err(ScheduleError::VaultSchedulePaused));
    // While paused, vesting stands still at the pause time.
    assert_eq!(c.get_claimable_amount(id, 900), Ok(400));
    c.resume_specific_schedule(id).unwrap();
    assert_eq!(c.resume_specific_schedule(id), Err(ScheduleError::VaultNotPaused));
    assert_eq!(c.get_claimable_amount(id, 900), Ok(900));
    c.mark_irrevocable(id).unwrap();
    assert!(c.get_vault(id).unwrap().is_irrevocable);
}

#[test]
fn milestone_vesting_follows_unlocked_milestones() {
    let mut c = contract();
    let id = c.create_vault_full(&acct(5), 1_000, 0, 1_000, 0, true, false, 0, 0).unwrap();
    let ms = vec![
        Milestone { id: 1, percentage: 30, is_unlocked: false },
        Milestone { id: 2, percentage: 80, is_unlocked: false },
    ];
    assert_eq!(c.set_milestones(id, ms), Err(ScheduleError::MilestonesOverHundred));
    let ms = vec![
        Milestone { id: 1, percentage: 30, is_unlocked: false },
        Milestone { id: 2, percentage: 70, is_unlocked: false },
    ];
    c.set_milestones(id, ms).unwrap();
    assert_eq!(c.get_claimable_amount(id, 999), Ok(0));
    assert_eq!(c.unlock_milestone(id, 3), Err(ScheduleError::MilestoneNotFound));
    c.unlock_milestone(id, 1).unwrap();
    assert_eq!(c.get_claimable_amount(id, 0), Ok(300));
    assert!(c.get_milestones(id)[0].is_unlocked);
    assert!(!c.get_milestones(id)[1].is_unlocked);
    c.unlock_milestone(id, 2).unwrap();
    assert_eq!(c.get_claimable_amount(id, 0), Ok(1_000));
}

#[test]
fn acceleration_moves_every_schedule_forward() {
    let mut c = contract();
    let id = c.create_vault_full(&acct(5), 1_000, 0, 1_000, 0, true, false, 0, 0).unwrap();
    assert_eq!(c.accelerate_all_schedules(101), Err(ScheduleError::PercentageOutOfRange));
    c.accelerate_all_schedules(25).unwrap();
    assert_eq!(c.get_claimable_amount(id, 100), Ok(350));
    assert_eq!(c.get_claimable_amount(id, 750), Ok(1_000));
}

#[test]
fn cliff_and_multiplier_shape_what_vested() {
    let mut c = contract();
    let id = c.create_vault_full(&acct(5), 1_000, 0, 1_000, 0, true, false, 0, 0).unwrap();
    assert_eq!(c.is_cliff_passed(id, 0), Ok(false));
    assert_eq!(c.is_cliff_passed(id, 1), Ok(true));
    assert_eq!(c.is_cliff_passed(9, 1), Err(ScheduleError::VaultNotFound));
    // Oracle readings are zero: a "reading > 5" cliff never opens.
    let closed = PerformanceCliff {
        conditions: vec![OracleClient::create_tvl_condition(acct(9), 5, ComparisonOperator::GreaterThan)],
        require_all: true,
        fallback_time: 0,
    };
    c.set_performance_cliff(id, closed).unwrap();
    assert_eq!(c.is_cliff_passed(id, 500), Ok(false));
    assert_eq!(c.get_claimable_amount(id, 500), Ok(0));
    let open = PerformanceCliff { conditions: vec![], require_all: true, fallback_time: 100 };
    c.set_performance_cliff(id, open).unwrap();
    assert_eq!(c.get_claimable_amount(id, 500), Ok(500));
    // A met condition boosts by 1.5x, capped at the allocation.
    let boost = PerformanceMultiplier {
        condition: OracleClient::create_tvl_condition(acct(9), 0, ComparisonOperator::GreaterThanOrEqual),
        multiplier_bps: 15_000,
        fallback_multiplier_bps: 10_000,
    };
    c.set_vesting_multiplier(id, boost).unwrap();
    assert_eq!(c.get_claimable_amount(id, 500), Ok(750));
    assert_eq!(c.get_claimable_amount(id, 900), Ok(1_000));
    assert_eq!(c.set_vesting_multiplier(7, PerformanceMultiplier {
        condition: OracleClient::create_tvl_condition(acct(9), 0, ComparisonOperator::Equal),
        multiplier_bps: 1,
        fallback_multiplier_bps: 1,
    }), Err(ScheduleError::VaultNotFound));
}

#[test]
fn pause_authority_and_contract_pause() {
    let mut c = contract();
    assert!(c.get_pause_authority().is_none());
    c.set_pause_authority(&acct(3)).unwrap();
    assert_eq!(c.get_pause_authority().unwrap().key, acct(3).key);
    let id = c.create_vault_full(&acct(5), 1_000, 0, 1_000, 0, true, false, 0, 0).unwrap();
    c.is_paused = true;
    assert_eq!(c.claim_tokens(id, 1, 500), Err(ScheduleError::Paused));
}

#[test]
fn test_create_vault() {
    let mut c = contract();
    let beneficiary = acct(5);
    let now = 0;
    let vault_id = c.create_vault_full(&beneficiary, 1000, now, now + 1000, 0, true, true, 0, now).unwrap();
    assert_eq!(vault_id, 1);
    let vault = c.get_vault(vault_id).unwrap();
    assert_eq!(vault.owner.key, beneficiary.key);
    assert_eq!(vault.allocations[0].total_amount, 1000);
}

#[test]
fn test_claim_tokens() {
    let mut c = contract();
    let beneficiary = acct(5);
    let now = 0;
    let vault_id = c.create_vault_full(&beneficiary, 1000, now, now + 1000, 0, true, true, 0, now).unwrap();
    // Halfway through, half has vested; the host pays out what is returned.
    assert_eq!(c.claim_tokens(vault_id, 500, now + 500), Ok(500));
    assert_eq!(c.get_vault(vault_id).unwrap().allocations[0].released_amount, 500);
}

#[test]
fn test_cliff_jump_no_cliff_accepted() {
    let mut c = contract();
    let now = 0;
    let vault_id = c.create_vault_full(&acct(5), 1000, now, now + 1000, 0, true, true, 0, now).unwrap();
    assert_eq!(vault_id, 1);
}

#[test]
fn test_cliff_jump_at_boundary_accepted() {
    let mut c = contract();
    let now = 0;
    // A wait of exactly half the time to the end is accepted.
    let vault_id = c.create_vault_full(&acct(5), 1000, now + 1000, now + 2000, 0, true, true, 0, now).unwrap();
    assert_eq!(vault_id, 1);
}

#[test]
#[should_panic(expected = "CliffJumpTooLarge")]
fn test_cliff_jump_too_large_rejected() {
    let mut c = contract();
    let now = 0;
    c.create_vault_full(&acct(5), 1000, now + 1001, now + 2000, 0, true, true, 0, now).unwrap();
}

#[test]
fn test_cliff_jump_check_skipped_for_stepped_schedule() {
    let mut c = contract();
    let now = 0;
    let vault_id = c.create_vault_full(&acct(5), 1000, now + 1500, now + 2000, 0, true, true, 100, now).unwrap();
    assert_eq!(vault_id, 1);
}

#[test]
fn cliff_jump_is_measured_from_creation_and_refused_before_any_change() {
    let mut c = contract();
    // Created at 500: waits 1001 of the 2000 seconds to the end.
    assert_eq!(
        c.create_vault_lazy(&acct(5), 1000, 1501, 2500, 0, true, true, 0, 500),
        Err(ScheduleError::CliffJumpTooLarge)
    );
    assert_eq!(c.vault_count, 0);
    assert_eq!(c.admin_balance, 1_000_000);
    assert_eq!(c.create_vault_lazy(&acct(5), 1000, 1500, 2500, 0, true, true, 0, 500), Ok(1));
    // A schedule that started already is never refused for its wait.
    assert_eq!(c.create_vault_full(&acct(5), 1000, 100, 200, 0, true, true, 0, 500), Ok(2));
}

#[test]
fn test_performance_multiplier_logic() {
    let mut c = VestingContract::new();
    c.initialize(&acct(1), 1000000).unwrap();
    c.set_token(&acct(50)).unwrap();
    let oracle_address = acct(9);
    let multiplier = PerformanceMultiplier {
        condition: OracleClient::create_tvl_condition(oracle_address, 500000, ComparisonOperator::GreaterThan),
        multiplier_bps: 15000,
        fallback_multiplier_bps: 10000,
    };
    let vault_id = c.create_vault_full(&acct(5), 100000, 1000, 2000, 0, true, false, 0, 0).unwrap();
    c.set_vesting_multiplier(vault_id, multiplier).unwrap();
    // The reading (0) does not exceed 500,000: the fallback 1.0x applies.
    assert_eq!(c.get_claimable_amount(vault_id, 1500), Ok(50000));
    let easy_multiplier = PerformanceMultiplier {
        condition: OracleClient::create_tvl_condition(oracle_address, 0, ComparisonOperator::Equal),
        multiplier_bps: 12000,
        fallback_multiplier_bps: 10000,
    };
    c.set_vesting_multiplier(vault_id, easy_multiplier).unwrap();
    assert_eq!(c.get_claimable_amount(vault_id, 1500), Ok(60000));
    // 90,000 * 1.2 is capped at the allocation.
    assert_eq!(c.get_claimable_amount(vault_id, 1900), Ok(100000));
}

#[test]
fn test_multiplier_with_milestones() {
    let mut c = VestingContract::new();
    c.initialize(&acct(1), 1000000).unwrap();
    c.set_token(&acct(50)).unwrap();
    let vault_id = c.create_vault_full(&acct(5), 100000, 1000, 2000, 0, true, false, 0, 0).unwrap();
    c.set_milestones(vault_id, vec![Milestone { id: 1, percentage: 50, is_unlocked: false }]).unwrap();
    let multiplier = PerformanceMultiplier {
        condition: OracleClient::create_tvl_condition(acct(9), 0, ComparisonOperator::Equal),
        multiplier_bps: 20000,
        fallback_multiplier_bps: 10000,
    };
    c.set_vesting_multiplier(vault_id, multiplier).unwrap();
    c.unlock_milestone(vault_id, 1).unwrap();
    // 50% of 100,000, doubled.
    assert_eq!(c.get_claimable_amount(vault_id, 0), Ok(100000));
}

#[test]
fn test_revoke_vault() {
    let mut c = contract();
    let beneficiary = acct(5);
    let now = 0;
    let vault_id = c.create_vault_full(&beneficiary, 1000, now, now + 1000, 0, true, true, 0, now).unwrap();
    // The host moves what was taken to the treasury.
    assert_eq!(c.revoke_vault(vault_id, now), Ok(1000));
    let vault = c.get_vault(vault_id).unwrap();
    assert!(vault.is_frozen);
}

#[test]
fn revocation_takes_the_unreleased_and_stops_the_schedule() {
    let mut c = contract();
    let id = c.create_vault_full(&acct(5), 1000, 0, 1000, 0, true, false, 0, 0).unwrap();
    let fixed = c.create_vault_full(&acct(5), 1000, 0, 1000, 0, false, false, 0, 0).unwrap();
    assert_eq!(c.revoke_vault(fixed, 10), Err(ScheduleError::VaultIrrevocable));
    assert_eq!(c.revoke_vault(9, 10), Err(ScheduleError::VaultNotFound));
    assert_eq!(c.claim_tokens(id, 300, 400), Ok(300));
    let shares = c.total_shares;
    assert_eq!(c.revoke_vault(id, 400), Ok(700));
    assert_eq!(c.total_shares, shares - 700);
    let v = c.get_vault(id).unwrap();
    assert_eq!(v.allocations[0].total_amount, 300);
    assert_eq!((v.end_time, v.step_duration), (400, 0));
    assert_eq!(c.revoked_vaults, vec![id]);
    // Nothing is left to take the second time; it is recorded once.
    assert_eq!(c.revoke_vault(id, 500), Ok(0));
    assert_eq!(c.revoked_vaults, vec![id]);
}

#[test]
fn slashing_takes_what_has_not_vested() {
    let mut c = contract();
    let id = c.create_vault_full(&acct(5), 1000, 0, 1000, 0, true, false, 0, 0).unwrap();
    c.set_milestones(id, vec![Milestone { id: 1, percentage: 40, is_unlocked: true }]).unwrap();
    let shares = c.total_shares;
    // 40% vested by milestone: 600 is taken.
    assert_eq!(c.slash_unvested_balance(id, 250), Ok(600));
    assert_eq!(c.total_shares, shares - 600);
    let v = c.get_vault(id).unwrap();
    assert_eq!(v.allocations[0].total_amount, 400);
    assert_eq!((v.end_time, v.step_duration, v.is_frozen), (250, 0, false));
    assert!(c.get_milestones(id).is_empty());
    // The schedule ended at 250: everything left has vested.
    assert_eq!(c.slash_unvested_balance(id, 300), Err(ScheduleError::NothingToSlash));
    assert_eq!(c.slash_unvested_balance(7, 300), Err(ScheduleError::VaultNotFound));
}

#[test]
fn collateral_locks_only_what_is_available() {
    let mut c = contract();
    let id = c.create_vault_full(&acct(5), 1000, 0, 1000, 0, true, false, 0, 0).unwrap();
    assert_eq!(c.lock_tokens(id, 10), Err(ScheduleError::CollateralBridgeNotSet));
    assert_eq!(c.lock_tokens(9, 10), Err(ScheduleError::VaultNotFound));
    c.set_collateral_bridge(&acct(30)).unwrap();
    assert_eq!(c.claim_tokens(id, 200, 500), Ok(200));
    // 800 is neither released nor locked.
    assert_eq!(c.lock_tokens(id, 801), Err(ScheduleError::InsufficientAvailableTokens));
    c.lock_tokens(id, 600).unwrap();
    assert_eq!(c.get_vault(id).unwrap().allocations[0].locked_amount, 600);
    assert_eq!(c.lock_tokens(id, 201), Err(ScheduleError::InsufficientAvailableTokens));
    assert_eq!(c.lock_tokens_for_asset(id, &acct(51), 1), Err(ScheduleError::AssetNotFound));
    assert_eq!(c.unlock_tokens(id, 601), Err(ScheduleError::UnlockExceedsLocked));
    c.unlock_tokens(id, 100).unwrap();
    assert_eq!(c.claim_by_lender(id, 501), Err(ScheduleError::ClaimExceedsLocked));
    assert_eq!(c.claim_by_lender(id, 500), Ok(500));
    assert_eq!(c.get_vault(id).unwrap().allocations[0].locked_amount, 0);
    c.lock_tokens_for_asset(id, &acct(50), 800).unwrap();
    c.unlock_tokens_for_asset(id, &acct(50), 300).unwrap();
    assert_eq!(c.claim_by_lender_for_asset(id, &acct(50), 500), Ok(500));
}

#[test]
fn vault_statistics_report_totals_and_what_can_be_claimed() {
    let mut c = contract();
    let id = c.create_vault_full(&acct(5), 1000, 0, 1000, 0, true, false, 0, 0).unwrap();
    assert_eq!(c.claim_tokens(id, 100, 300), Ok(100));
    assert_eq!(c.get_vault_statistics(id, 600), Ok((1000, 100, 500, 1)));
    assert_eq!(c.get_vault_statistics(4, 600), Err(ScheduleError::VaultNotFound));
}

#[test]
fn a_vault_with_a_cliff_waits_for_it() {
    let mut c = contract();
    let closed = PerformanceCliff {
        conditions: vec![OracleClient::create_tvl_condition(acct(9), 5, ComparisonOperator::GreaterThan)],
        require_all: true,
        fallback_time: 0,
    };
    let id = c.create_vault_with_cliff(&acct(5), 1000, 0, 1000, 0, true, false, 0, closed, 0).unwrap();
    assert_eq!(id, 1);
    assert_eq!(c.get_claimable_amount(id, 500), Ok(0));
    assert_eq!(c.is_cliff_passed(id, 500), Ok(false));
    let none = PerformanceCliff { conditions: vec![], require_all: true, fallback_time: 0 };
    assert_eq!(
        c.create_vault_with_cliff(&acct(5), 1000, 10, 10, 0, true, false, 0, none, 0),
        Err(ScheduleError::InvalidDuration)
    );
}

#[test]
fn creation_and_claims_conserve_the_supply() {
    let mut c = contract();
    let accounted = |c: &VestingContract| -> i128 {
        let mut sum = c.admin_balance;
        for id in 1..=c.vault_count {
            let v = c.get_vault(id).unwrap();
            if v.is_initialized {
                sum += v.allocations[0].total_amount;
            }
        }
        sum
    };
    assert_eq!(accounted(&c), 1_000_000);
    let a = c.create_vault_full(&acct(5), 4_000, 0, 1000, 0, true, false, 0, 0).unwrap();
    c.create_vault_lazy(&acct(6), 9_000, 0, 1000, 0, true, false, 0, 0).unwrap();
    let b = c.create_vault_full(&acct(7), 6_000, 0, 1000, 0, true, false, 100, 0).unwrap();
    assert_eq!(c.admin_balance, 990_000);
    c.claim_tokens(a, 1_000, 400).unwrap();
    c.claim_tokens(b, 2_400, 400).unwrap();
    assert_eq!(accounted(&c), 1_000_000);
}

#[test]
fn unlocking_what_was_locked_restores_the_allocation() {
    let mut c = contract();
    let id = c.create_vault_full(&acct(5), 1000, 0, 1000, 0, true, false, 0, 0).unwrap();
    c.set_collateral_bridge(&acct(30)).unwrap();
    let before = c.get_vault(id).unwrap().allocations[0];
    c.lock_tokens(id, 1000).unwrap();
    assert_eq!(c.lock_tokens(id, 1), Err(ScheduleError::InsufficientAvailableTokens));
    c.unlock_tokens(id, 1000).unwrap();
    let after = c.get_vault(id).unwrap().allocations[0];
    assert_eq!(
        (after.total_amount, after.released_amount, after.locked_amount, after.percentage),
        (before.total_amount, before.released_amount, before.locked_amount, before.percentage)
    );
}

#[test]
fn settings_and_what_is_stored_beside_a_vault() {
    let mut c = VestingContract::new();
    assert_eq!(c.set_nft_minter(&acct(3)), Err(ScheduleError::AdminNotSet));
    c.initialize(&acct(1), 1_000_000).unwrap();
    c.set_token(&acct(50)).unwrap();
    c.set_nft_minter(&acct(3)).unwrap();
    assert_eq!(c.nft_minter.unwrap().key, acct(3).key);
    c.add_to_whitelist(&acct(40)).unwrap();
    assert_eq!(c.whitelisted_tokens.get(&acct(40)), Some(&true));
    assert_eq!(c.get_metadata_anchor(), "");
    c.set_metadata_anchor(String::from("bafy")).unwrap();
    assert_eq!(c.get_metadata_anchor(), "bafy");
    let id = c.create_vault_full(&acct(5), 1000, 0, 1000, 0, true, false, 0, 0).unwrap();
    assert!(c.get_paused_vault_info(id).is_none());
    assert!(c.get_performance_cliff(id).is_none());
    assert!(c.get_vesting_multiplier(id).is_none());
    let basket = c.get_vault_asset_basket(id).unwrap();
    assert_eq!((basket.len(), basket[0].total_amount, basket[0].percentage), (1, 1000, 10_000));
    assert_eq!(c.get_vault_asset_basket(8).unwrap_err(), ScheduleError::VaultNotFound);
    let a = create_asset_allocation(&acct(40), 500, 2_500).unwrap();
    assert_eq!((a.total_amount, a.released_amount, a.locked_amount, a.percentage), (500, 0, 0, 2_500));
    assert_eq!(create_asset_allocation(&acct(40), 0, 2_500).unwrap_err(), ScheduleError::NonPositiveAmount);
    assert_eq!(create_asset_allocation(&acct(40), 5, 0).unwrap_err(), ScheduleError::InvalidAssetPercentage);
    assert_eq!(create_asset_allocation(&acct(40), 5, 10_001).unwrap_err(), ScheduleError::InvalidAssetPercentage);
}
