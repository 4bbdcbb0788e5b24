use lumina_vesting::account::{AccountId, AddressKind};
use lumina_vesting::governance::{
    GovernanceAction, GovernanceError, GovernanceEvent, VestingContract, CHALLENGE_PERIOD, VOTING_THRESHOLD,
};

fn acct(b: u8) -> AccountId {
    AccountId { kind: AddressKind::Account, key: [b; 32] }
}

fn initialized(supply: i128) -> VestingContract {
    let mut c = VestingContract::new();
    c.initialize(&acct(1), supply).unwrap();
    c
}

/// A contract whose holders hold the given amounts locked in funded vaults.
fn with_holders(supply: i128, holders: &[(u8, i128)]) -> VestingContract {
    let mut c = initialized(supply);
    c.set_token(&acct(50)).unwrap();
    for (who, amount) in holders {
        c.create_vault_full(&acct(*who), *amount, 0, 1_000, 0, true, false, 0, 0).unwrap();
    }
    c
}

#[test]
fn initialize_only_once() {
    let mut c = VestingContract::new();
    assert_eq!(c.get_admin().unwrap_err(), GovernanceError::AdminNotSet);
    c.initialize(&acct(1), 1_000).unwrap();
    assert_eq!(c.get_admin().unwrap().key, acct(1).key);
    assert_eq!(c.get_total_locked(), 1_000);
    assert!(!c.is_paused());
    assert_eq!(c.initialize(&acct(2), 5), Err(GovernanceError::AlreadyInitialized));
    assert_eq!(c.get_admin().unwrap().key, acct(1).key);
}

#[test]
fn proposals_need_an_admin_and_get_increasing_ids() {
    let mut c = VestingContract::new();
    assert_eq!(c.propose_emergency_pause(true, 0), Err(GovernanceError::AdminNotSet));
    let mut c = initialized(1_000);
    assert_eq!(c.propose_emergency_pause(true, 100), Ok(1));
    assert_eq!(c.propose_admin_rotation(&acct(9), 100), Ok(2));
    assert_eq!(c.propose_contract_upgrade(&acct(8), 100), Ok(3));
    let p = c.get_proposal_info(1).unwrap();
    assert_eq!(p.challenge_end, 100 + CHALLENGE_PERIOD);
    assert_eq!(CHALLENGE_PERIOD, 72 * 60 * 60);
    assert!(!p.is_executed && !p.is_cancelled);
    assert_eq!(c.events.len(), 3);
    assert!(matches!(c.events[0], GovernanceEvent::ProposalCreated(e) if e.proposal_id == 1));
    assert_eq!(c.get_proposal_info(4).unwrap_err(), GovernanceError::ProposalNotFound);
}

#[test]
fn votes_are_weighted_once_and_only_while_open() {
    let mut c = with_holders(1_000, &[(5, 100), (5, 200), (6, 200), (7, 10)]);
    c.propose_emergency_pause(true, 0).unwrap();
    assert_eq!(c.vote_on_proposal(&acct(4), 1, true, 10), Err(GovernanceError::NoVotingPower));
    assert_eq!(c.vote_on_proposal(&acct(5), 2, true, 10), Err(GovernanceError::ProposalNotFound));
    c.vote_on_proposal(&acct(5), 1, true, 10).unwrap();
    assert_eq!(c.vote_on_proposal(&acct(5), 1, false, 11), Err(GovernanceError::AlreadyVoted));
    c.vote_on_proposal(&acct(6), 1, false, 12).unwrap();
    let p = c.get_proposal_info(1).unwrap();
    assert_eq!((p.yes_votes, p.no_votes), (300, 200));
    assert_eq!(
        c.vote_on_proposal(&acct(7), 1, false, CHALLENGE_PERIOD),
        Err(GovernanceError::VotingPeriodEnded)
    );
}

#[test]
fn voter_power_is_the_unreleased_value_of_initialized_vaults() {
    let mut c = with_holders(10_000, &[(5, 1_000), (6, 300), (5, 250)]);
    assert_eq!(c.get_voter_power(&acct(5)), 1_250);
    assert_eq!(c.get_voter_power(&acct(6)), 300);
    assert_eq!(c.get_voter_power(&acct(7)), 0);
    // What was claimed no longer counts.
    assert_eq!(c.claim_tokens(1, 400, 500), Ok(400));
    assert_eq!(c.get_voter_power(&acct(5)), 850);
    // A vault created lazily is not counted.
    c.create_vault_lazy(&acct(6), 5_000, 0, 1_000, 0, true, false, 0, 0).unwrap();
    assert_eq!(c.get_voter_power(&acct(6)), 300);
    assert!(c.voter_power_fits(&acct(5)));
    // The recorded weight is the voter's power.
    c.propose_emergency_pause(true, 0).unwrap();
    c.vote_on_proposal(&acct(5), 1, false, 1).unwrap();
    assert_eq!(c.get_proposal_info(1).unwrap().no_votes, 850);
    assert!(matches!(c.events.last().unwrap(), GovernanceEvent::VoteCast(v) if v.vote_weight == 850));
}

#[test]
fn proposal_passes_below_the_veto_threshold() {
    let mut c = with_holders(1_000, &[(5, 509), (6, 5)]);
    c.propose_emergency_pause(true, 0).unwrap();
    // 50.9% against: carried out.
    c.vote_on_proposal(&acct(5), 1, false, 1).unwrap();
    assert_eq!(c.execute_proposal(1, CHALLENGE_PERIOD - 1), Err(GovernanceError::ChallengePeriodNotEnded));
    c.execute_proposal(1, CHALLENGE_PERIOD).unwrap();
    assert!(c.is_paused());
    assert!(c.get_proposal_info(1).unwrap().is_executed);
    assert_eq!(c.execute_proposal(1, CHALLENGE_PERIOD), Err(GovernanceError::ProposalAlreadyProcessed));
    assert_eq!(
        c.vote_on_proposal(&acct(6), 1, true, 2),
        Err(GovernanceError::ProposalNotActive)
    );
}

#[test]
fn proposal_is_cancelled_at_the_veto_threshold() {
    let mut c = with_holders(1_000, &[(5, 510)]);
    c.propose_admin_rotation(&acct(9), 0).unwrap();
    assert_eq!(VOTING_THRESHOLD, 5100);
    // Exactly 51% against: cancelled, nothing changes.
    c.vote_on_proposal(&acct(5), 1, false, 1).unwrap();
    c.execute_proposal(1, CHALLENGE_PERIOD).unwrap();
    let p = c.get_proposal_info(1).unwrap();
    assert!(p.is_cancelled && !p.is_executed);
    assert_eq!(c.get_admin().unwrap().key, acct(1).key);
}

#[test]
fn governance_actions_take_effect() {
    let mut c = initialized(1_000);
    c.propose_admin_rotation(&acct(9), 0).unwrap();
    c.propose_contract_upgrade(&acct(8), 0).unwrap();
    c.execute_proposal(1, CHALLENGE_PERIOD).unwrap();
    c.execute_proposal(2, CHALLENGE_PERIOD).unwrap();
    assert_eq!(c.get_admin().unwrap().key, acct(9).key);
    assert!(c.is_deprecated);
    assert_eq!(c.migration_target.unwrap().key, acct(8).key);
    match c.events.last().unwrap() {
        GovernanceEvent::ActionExecuted(e) => {
            assert_eq!(e.proposal_id, 2);
            assert!(matches!(e.action, GovernanceAction::ContractUpgrade(a) if a.key == acct(8).key));
        }
        other => panic!("unexpected event {:?}", other),
    }
}

#[test]
fn ownership_and_direct_pause() {
    let mut c = initialized(1_000);
    assert_eq!(c.accept_ownership(), Err(GovernanceError::NoProposedAdmin));
    c.proposed_admin = Some(acct(4));
    c.accept_ownership().unwrap();
    assert_eq!(c.get_admin().unwrap().key, acct(4).key);
    assert!(c.proposed_admin.is_none());
    assert_eq!(c.toggle_pause(), Err(GovernanceError::DirectPauseNotAllowed));
}

#[test]
fn test_voting_power_calculation() {
    let mut c = initialized(1_000_000_000);
    c.set_token(&acct(50)).unwrap();
    let beneficiary = acct(5);
    let now = 0;
    let _vault_id = c.create_vault_full(&beneficiary, 1000, now, now + 1000, 0, true, true, 0, now).unwrap();
    let voting_power = c.get_voting_power(&beneficiary);
    assert!(voting_power > 0);
}

#[test]
fn voting_power_weighs_revocable_vaults_at_half_and_follows_delegation() {
    let mut c = initialized(1_000_000);
    c.set_token(&acct(50)).unwrap();
    // Revocable: counts at half.
    c.create_vault_full(&acct(5), 1000, 0, 1000, 0, true, false, 0, 0).unwrap();
    // Irrevocable: counts in full.
    c.create_vault_full(&acct(5), 301, 0, 1000, 0, false, false, 0, 0).unwrap();
    c.create_vault_full(&acct(6), 200, 0, 1000, 0, false, false, 0, 0).unwrap();
    c.create_vault_lazy(&acct(6), 9_000, 0, 1000, 0, false, false, 0, 0).unwrap();
    c.create_vault_full(&acct(7), 101, 0, 1000, 0, true, false, 0, 0).unwrap();
    assert_eq!(c.get_user_vaults(&acct(5)), vec![1, 2]);
    assert_eq!(c.get_user_vaults(&acct(6)), vec![3]);
    assert_eq!(c.get_user_vaults(&acct(8)), Vec::<u64>::new());
    assert_eq!(c.get_voting_power(&acct(5)), 801);
    assert_eq!(c.get_voting_power(&acct(6)), 200);
    assert_eq!(c.get_voting_power(&acct(7)), 50);
    // 6 and 7 delegate to 5: they vote with nothing, 5 with all three.
    c.delegate_voting_power(&acct(6), &acct(5));
    c.delegate_voting_power(&acct(7), &acct(5));
    assert_eq!(c.get_voting_power(&acct(6)), 0);
    assert_eq!(c.get_voting_power(&acct(5)), 1_051);
    assert_eq!(c.checked_voting_power(&acct(5)), Some(1_051));
    // Delegating to the same representative again changes nothing.
    c.delegate_voting_power(&acct(6), &acct(5));
    assert_eq!(c.delegated_beneficiaries.get(&acct(5)).unwrap().len(), 2);
    // 6 moves to 7, which delegated itself: 5 loses 6's power.
    c.delegate_voting_power(&acct(6), &acct(7));
    assert_eq!(c.get_voting_power(&acct(5)), 851);
    assert_eq!(c.get_voting_power(&acct(7)), 0);
    // 7 takes its power back and now votes with its own and 6's.
    c.delegate_voting_power(&acct(7), &acct(7));
    assert_eq!(c.get_voting_power(&acct(7)), 250);
    assert_eq!(c.get_voting_power(&acct(5)), 801);
}
