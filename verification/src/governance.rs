//! Defensive governance of the vesting contract: the admin proposes admin
//! rotations, upgrades and emergency pauses; each proposal waits out a
//! 72-hour challenge period in which holders of locked value vote, and is
//! cancelled when the votes against reach 51% of the locked value.
use vstd::prelude::*;
use vstd::string::StringExecFns;
use crate::account::AccountId;
use crate::arith::{trunc_div, div_toward_zero, lemma_trunc_div_bounded};
use crate::table::{Table, VoteKey};
use crate::oracle::{PerformanceCliff, PerformanceMultiplier};
use crate::schedules::{Vault, Milestone, PausedVault};

verus! {

/// The challenge period of a proposal: 72 hours, in seconds.
pub const CHALLENGE_PERIOD: u64 = 259_200;

/// Share of the locked value, in basis points, whose votes against cancel a
/// proposal: 51%.
pub const VOTING_THRESHOLD: u32 = 5100;

/// What a governance proposal would do.
#[derive(Clone, Copy, Debug)]
pub enum GovernanceAction {
    /// Hand the admin role to a new address.
    AdminRotation(AccountId),
    /// Deprecate this contract in favour of a new one.
    ContractUpgrade(AccountId),
    /// Set the pause flag.
    EmergencyPause(bool),
}

/// A proposal and its tally.
#[derive(Clone, Copy, Debug)]
pub struct GovernanceProposal {
    pub id: u64,
    pub action: GovernanceAction,
    pub proposer: AccountId,
    pub created_at: u64,
    pub challenge_end: u64,
    pub is_executed: bool,
    pub is_cancelled: bool,
    /// Locked value voting for.
    pub yes_votes: i128,
    /// Locked value voting against.
    pub no_votes: i128,
}

/// One holder's vote on a proposal.
#[derive(Clone, Copy, Debug)]
pub struct Vote {
    pub voter: AccountId,
    pub vote_weight: i128,
    pub is_yes: bool,
    pub voted_at: u64,
}

/// Emitted when a proposal is made.
#[derive(Clone, Copy, Debug)]
pub struct GovernanceProposalCreated {
    pub proposal_id: u64,
    pub action: GovernanceAction,
    pub proposer: AccountId,
    pub challenge_end: u64,
}

/// Emitted when a vote is cast.
#[derive(Clone, Copy, Debug)]
pub struct VoteCast {
    pub proposal_id: u64,
    pub voter: AccountId,
    pub vote_weight: i128,
    pub is_yes: bool,
}

/// Emitted when a proposal's action is carried out.
#[derive(Clone, Copy, Debug)]
pub struct GovernanceActionExecuted {
    pub proposal_id: u64,
    pub action: GovernanceAction,
}

/// Every event governance publishes.
#[derive(Clone, Copy, Debug)]
pub enum GovernanceEvent {
    ProposalCreated(GovernanceProposalCreated),
    VoteCast(VoteCast),
    ActionExecuted(GovernanceActionExecuted),
}

/// Why a governance operation was refused.
#[derive(Clone, Copy, Debug, PartialEq, Eq, Structural)]
pub enum GovernanceError {
    /// The contract was initialized already.
    AlreadyInitialized,
    /// No admin was set.
    AdminNotSet,
    /// No admin was proposed.
    NoProposedAdmin,
    /// The voter holds no locked value.
    NoVotingPower,
    /// No proposal has that id.
    ProposalNotFound,
    /// The proposal's challenge period is over.
    VotingPeriodEnded,
    /// The proposal was executed or cancelled.
    ProposalNotActive,
    /// The voter already voted on the proposal.
    AlreadyVoted,
    /// The proposal's challenge period is still running.
    ChallengePeriodNotEnded,
    /// The proposal was executed or cancelled already.
    ProposalAlreadyProcessed,
    /// Pausing goes through a governance proposal.
    DirectPauseNotAllowed,
}

/// The vesting contract's administrative and governance state. `None` is a
/// storage key never written.
pub struct VestingContract {
    pub admin: Option<AccountId>,
    pub admin_balance: i128,
    pub initial_supply: i128,
    pub proposed_admin: Option<AccountId>,
    pub vault_count: u64,
    pub is_paused: bool,
    pub is_deprecated: bool,
    pub migration_target: Option<AccountId>,
    pub total_shares: i128,
    pub total_staked: i128,
    pub proposal_count: u64,
    /// The locked value that veto shares are measured against.
    pub total_locked_value: i128,
    pub proposals: Table<u64, GovernanceProposal>,
    pub votes: Table<VoteKey, Vote>,
    /// The token that single-asset vaults hold.
    pub token: Option<AccountId>,
    pub vaults: Table<u64, Vault>,
    pub vault_milestones: Table<u64, Vec<Milestone>>,
    pub paused_vaults: Table<u64, PausedVault>,
    pub pause_authority: Option<AccountId>,
    /// Share of each schedule's duration, in percent, that every schedule is
    /// moved forward by.
    pub acceleration_pct: u32,
    pub performance_cliffs: Table<u64, PerformanceCliff>,
    pub vesting_multipliers: Table<u64, PerformanceMultiplier>,
    /// The representative each beneficiary delegated its voting power to.
    pub voting_delegates: Table<AccountId, AccountId>,
    /// The beneficiaries that delegated to each representative, in order.
    pub delegated_beneficiaries: Table<AccountId, Vec<AccountId>>,
    /// The vaults revoked, in the order they were revoked.
    pub revoked_vaults: Vec<u64>,
    /// The bridge that locks vault tokens as collateral for loans.
    pub collateral_bridge: Option<AccountId>,
    /// The minter of vesting status NFTs.
    pub nft_minter: Option<AccountId>,
    /// Tokens admitted to vault baskets.
    pub whitelisted_tokens: Table<AccountId, bool>,
    /// Content id of the off-chain metadata; empty until set.
    pub metadata_anchor: String,
    /// Events published, oldest first.
    pub events: Vec<GovernanceEvent>,
}

/// A fresh proposal made at `now`.
pub open spec fn new_proposal(id: u64, action: GovernanceAction, proposer: AccountId, now: u64) -> GovernanceProposal {
    GovernanceProposal {
        id,
        action,
        proposer,
        created_at: now,
        challenge_end: (now + CHALLENGE_PERIOD) as u64,
        is_executed: false,
        is_cancelled: false,
        yes_votes: 0,
        no_votes: 0,
    }
}

/// The share of the locked value, in basis points, voting against.
pub open spec fn veto_share(no_votes: i128, total_locked: i128) -> int {
    trunc_div(no_votes * 10_000, total_locked as int)
}

impl VestingContract {
    /// The tables hold distinct keys and every tally is non-negative.
    pub open spec fn wf(&self) -> bool {
        &&& self.proposals.wf()
        &&& self.votes.wf()
        &&& self.vaults.wf()
        &&& self.vault_milestones.wf()
        &&& self.paused_vaults.wf()
        &&& self.performance_cliffs.wf()
        &&& self.vesting_multipliers.wf()
        &&& self.voting_delegates.wf()
        &&& self.delegated_beneficiaries.wf()
        &&& self.whitelisted_tokens.wf()
        &&& self.acceleration_pct <= 100
        &&& forall|id: u64| #[trigger] self.vaults@.contains_key(id) ==> self.vaults@[id].allocations@.len() == 1
            && 1 <= id <= self.vault_count
        &&& forall|id: u64| #[trigger] self.proposals@.contains_key(id) ==> self.proposals@[id].yes_votes >= 0
            && self.proposals@[id].no_votes >= 0
    }

    /// The state after carrying out `action`.
    pub open spec fn with_action(self, action: GovernanceAction) -> Self {
        match action {
            GovernanceAction::AdminRotation(a) => VestingContract { admin: Some(a), ..self },
            GovernanceAction::ContractUpgrade(c) => VestingContract {
                migration_target: Some(c),
                is_deprecated: true,
                ..self
            },
            GovernanceAction::EmergencyPause(b) => VestingContract { is_paused: b, ..self },
        }
    }

    /// `after` and `r` are what proposing `action` at `now` makes of `self`.
    pub open spec fn proposed(self, after: Self, r: Result<u64, GovernanceError>, action: GovernanceAction, now: u64) -> bool {
        match self.admin {
            None => r == Err::<u64, GovernanceError>(GovernanceError::AdminNotSet) && after == self,
            Some(a) => {
                let id = (self.proposal_count + 1) as u64;
                let p = new_proposal(id, action, a, now);
                &&& r == Ok::<u64, GovernanceError>(id)
                &&& after == (VestingContract {
                    proposal_count: id,
                    proposals: after.proposals,
                    events: after.events,
                    ..self
                })
                &&& after.proposals@ == self.proposals@.insert(id, p)
                &&& after.events@ == self.events@.push(GovernanceEvent::ProposalCreated(GovernanceProposalCreated {
                    proposal_id: id,
                    action,
                    proposer: a,
                    challenge_end: p.challenge_end,
                }))
            },
        }
    }

    /// Proposing is possible without overflow.
    pub open spec fn can_propose(&self, now: u64) -> bool {
        self.admin is Some ==> self.proposal_count < u64::MAX && now + CHALLENGE_PERIOD <= u64::MAX
    }

    /// Vault `id` is in `user`'s index of vaults: an initialized vault that
    /// `user` owns (a vault created lazily is not indexed).
    pub open spec fn indexed_for(&self, user: AccountId, id: u64) -> bool {
        self.vaults@.contains_key(id) && self.vaults@[id].owner == user && self.vaults@[id].is_initialized
    }

    /// The value `voter` holds locked in vault `id`: what the vault's asset
    /// holds unreleased, for a vault in `voter`'s index.
    pub open spec fn vault_locked(&self, voter: AccountId, id: u64) -> int {
        if self.indexed_for(voter, id) {
            let a = self.vaults@[id].allocations@[0];
            a.total_amount - a.released_amount
        } else {
            0
        }
    }

    /// The value `voter` holds locked in the vaults with ids `1..=n`.
    pub open spec fn locked_up_to(&self, voter: AccountId, n: u64) -> int
        decreases n,
    {
        if n == 0 {
            0
        } else {
            self.locked_up_to(voter, (n - 1) as u64) + self.vault_locked(voter, n)
        }
    }

    /// The value `voter` holds locked over all vaults: its voting power.
    pub open spec fn locked_value_of(&self, voter: AccountId) -> int {
        self.locked_up_to(voter, self.vault_count)
    }

    /// Summing `voter`'s locked value vault by vault, in id order, stays
    /// within `i128`.
    pub open spec fn locked_sums_fit(&self, voter: AccountId) -> bool {
        forall|k: u64|
            1 <= k <= self.vault_count ==> {
                &&& i128::MIN <= #[trigger] self.vault_locked(voter, k) <= i128::MAX
                &&& i128::MIN <= self.locked_up_to(voter, k) <= i128::MAX
            }
    }

    /// Why a vote of `voter` on `proposal_id` is refused at `now`, if it is.
    pub open spec fn vote_refusal(&self, voter: AccountId, proposal_id: u64, now: u64) -> Option<GovernanceError> {
        if self.locked_value_of(voter) <= 0 {
            Some(GovernanceError::NoVotingPower)
        } else if !self.proposals@.contains_key(proposal_id) {
            Some(GovernanceError::ProposalNotFound)
        } else if now >= self.proposals@[proposal_id].challenge_end {
            Some(GovernanceError::VotingPeriodEnded)
        } else if self.proposals@[proposal_id].is_executed || self.proposals@[proposal_id].is_cancelled {
            Some(GovernanceError::ProposalNotActive)
        } else if self.votes@.contains_key(VoteKey { proposal_id, voter }) {
            Some(GovernanceError::AlreadyVoted)
        } else {
            None
        }
    }

    /// Why executing `proposal_id` at `now` is refused, if it is.
    pub open spec fn execution_refusal(&self, proposal_id: u64, now: u64) -> Option<GovernanceError> {
        if !self.proposals@.contains_key(proposal_id) {
            Some(GovernanceError::ProposalNotFound)
        } else if now < self.proposals@[proposal_id].challenge_end {
            Some(GovernanceError::ChallengePeriodNotEnded)
        } else if self.proposals@[proposal_id].is_executed || self.proposals@[proposal_id].is_cancelled {
            Some(GovernanceError::ProposalAlreadyProcessed)
        } else {
            None
        }
    }

    /// A contract state in which nothing was written yet.
    pub fn new() -> (c: Self)
        ensures
            c.wf(),
            c.admin is None,
            c.admin_balance == 0,
            c.initial_supply == 0,
            c.proposed_admin is None,
            c.vault_count == 0,
            !c.is_paused,
            !c.is_deprecated,
            c.migration_target is None,
            c.total_shares == 0,
            c.total_staked == 0,
            c.proposal_count == 0,
            c.total_locked_value == 0,
            c.proposals@ == Map::<u64, GovernanceProposal>::empty(),
            c.votes@ == Map::<VoteKey, Vote>::empty(),
            c.token is None,
            c.vaults@ == Map::<u64, Vault>::empty(),
            c.vault_milestones@ == Map::<u64, Vec<Milestone>>::empty(),
            c.paused_vaults@ == Map::<u64, PausedVault>::empty(),
            c.pause_authority is None,
            c.acceleration_pct == 0,
            c.performance_cliffs@ == Map::<u64, PerformanceCliff>::empty(),
            c.vesting_multipliers@ == Map::<u64, PerformanceMultiplier>::empty(),
            c.voting_delegates@ == Map::<AccountId, AccountId>::empty(),
            c.delegated_beneficiaries@ == Map::<AccountId, Vec<AccountId>>::empty(),
            c.revoked_vaults@ == Seq::<u64>::empty(),
            c.collateral_bridge is None,
            c.nft_minter is None,
            c.whitelisted_tokens@ == Map::<AccountId, bool>::empty(),
            c.metadata_anchor@ == ""@,
            c.events@ == Seq::<GovernanceEvent>::empty(),
    {
        VestingContract {
            admin: None,
            admin_balance: 0,
            initial_supply: 0,
            proposed_admin: None,
            vault_count: 0,
            is_paused: false,
            is_deprecated: false,
            migration_target: None,
            total_shares: 0,
            total_staked: 0,
            proposal_count: 0,
            total_locked_value: 0,
            proposals: Table::new(),
            votes: Table::new(),
            token: None,
            vaults: Table::new(),
            vault_milestones: Table::new(),
            paused_vaults: Table::new(),
            pause_authority: None,
            acceleration_pct: 0,
            performance_cliffs: Table::new(),
            vesting_multipliers: Table::new(),
            voting_delegates: Table::new(),
            delegated_beneficiaries: Table::new(),
            revoked_vaults: Vec::new(),
            collateral_bridge: None,
            nft_minter: None,
            whitelisted_tokens: Table::new(),
            metadata_anchor: String::from_str(""),
            events: Vec::new(),
        }
    }

    /// Sets the admin and the initial supply, which is at first both the
    /// admin's balance and the locked value; only once.
    pub fn initialize(&mut self, admin: &AccountId, initial_supply: i128) -> (r: Result<(), GovernanceError>)
        ensures
            old(self).admin is Some ==> r == Err::<(), GovernanceError>(GovernanceError::AlreadyInitialized)
                && *final(self) == *old(self),
            old(self).admin is None ==> r is Ok && *final(self) == (VestingContract {
                admin: Some(*admin),
                admin_balance: initial_supply,
                initial_supply,
                vault_count: 0,
                is_paused: false,
                is_deprecated: false,
                total_shares: 0,
                total_staked: 0,
                proposal_count: 0,
                total_locked_value: initial_supply,
                ..*old(self)
            }),
    {
        if self.admin.is_some() {
            return Err(GovernanceError::AlreadyInitialized);
        }
        self.admin = Some(*admin);
        self.admin_balance = initial_supply;
        self.initial_supply = initial_supply;
        self.vault_count = 0;
        self.is_paused = false;
        self.is_deprecated = false;
        self.total_shares = 0;
        self.total_staked = 0;
        self.proposal_count = 0;
        self.total_locked_value = initial_supply;
        Ok(())
    }

    /// Records a new proposal by the admin, open to votes for the challenge
    /// period, and returns its id.
    fn create_governance_proposal(&mut self, action: GovernanceAction, now: u64) -> (r: Result<u64, GovernanceError>)
        requires
            old(self).wf(),
            old(self).can_propose(now),
        ensures
            final(self).wf(),
            old(self).proposed(*final(self), r, action, now),
    {
        let proposer = match self.admin {
            Some(a) => a,
            None => {
                return Err(GovernanceError::AdminNotSet);
            },
        };
        let proposal_id = self.increment_proposal_count();
        let challenge_end = now + CHALLENGE_PERIOD;
        let proposal = GovernanceProposal {
            id: proposal_id,
            action,
            proposer,
            created_at: now,
            challenge_end,
            is_executed: false,
            is_cancelled: false,
            yes_votes: 0,
            no_votes: 0,
        };
        self.proposals.insert(proposal_id, proposal);
        self.events.push(GovernanceEvent::ProposalCreated(GovernanceProposalCreated {
            proposal_id,
            action,
            proposer,
            challenge_end,
        }));
        Ok(proposal_id)
    }

    /// Advances the proposal counter and returns the new id.
    fn increment_proposal_count(&mut self) -> (r: u64)
        requires
            old(self).proposal_count < u64::MAX,
        ensures
            r == old(self).proposal_count + 1,
            *final(self) == (VestingContract { proposal_count: r, ..*old(self) }),
    {
        self.proposal_count = self.proposal_count + 1;
        self.proposal_count
    }

    /// Proposes handing the admin role to `new_admin`.
    pub fn propose_admin_rotation(&mut self, new_admin: &AccountId, now: u64) -> (r: Result<u64, GovernanceError>)
        requires
            old(self).wf(),
            old(self).can_propose(now),
        ensures
            final(self).wf(),
            old(self).proposed(*final(self), r, GovernanceAction::AdminRotation(*new_admin), now),
    {
        self.create_governance_proposal(GovernanceAction::AdminRotation(*new_admin), now)
    }

    /// Proposes deprecating this contract in favour of `new_contract`.
    pub fn propose_contract_upgrade(&mut self, new_contract: &AccountId, now: u64) -> (r: Result<u64, GovernanceError>)
        requires
            old(self).wf(),
            old(self).can_propose(now),
        ensures
            final(self).wf(),
            old(self).proposed(*final(self), r, GovernanceAction::ContractUpgrade(*new_contract), now),
    {
        self.create_governance_proposal(GovernanceAction::ContractUpgrade(*new_contract), now)
    }

    /// Proposes setting the pause flag to `pause_state`.
    pub fn propose_emergency_pause(&mut self, pause_state: bool, now: u64) -> (r: Result<u64, GovernanceError>)
        requires
            old(self).wf(),
            old(self).can_propose(now),
        ensures
            final(self).wf(),
            old(self).proposed(*final(self), r, GovernanceAction::EmergencyPause(pause_state), now),
    {
        self.create_governance_proposal(GovernanceAction::EmergencyPause(pause_state), now)
    }

    /// Makes the proposed admin the admin (its signature is checked by the
    /// host).
    pub fn accept_ownership(&mut self) -> (r: Result<(), GovernanceError>)
        ensures
            old(self).proposed_admin is None ==> r == Err::<(), GovernanceError>(GovernanceError::NoProposedAdmin)
                && *final(self) == *old(self),
            old(self).proposed_admin matches Some(p) ==> r is Ok && *final(self) == (VestingContract {
                admin: Some(p),
                proposed_admin: None,
                ..*old(self)
            }),
    {
        match self.proposed_admin {
            Some(p) => {
                self.admin = Some(p);
                self.proposed_admin = None;
                Ok(())
            },
            None => Err(GovernanceError::NoProposedAdmin),
        }
    }

    /// Sums `voter`'s locked value vault by vault; `None` when a step leaves
    /// `i128`.
    fn sum_voter_locked(&self, voter: &AccountId) -> (r: Option<i128>)
        requires
            self.wf(),
        ensures
            r is Some <==> self.locked_sums_fit(*voter),
            r matches Some(v) ==> v == self.locked_value_of(*voter),
    {
        let mut total: i128 = 0;
        let mut id: u64 = 0;
        while id < self.vault_count
            invariant
                self.wf(),
                id <= self.vault_count,
                total == self.locked_up_to(*voter, id),
                forall|k: u64|
                    1 <= k <= id ==> {
                        &&& i128::MIN <= #[trigger] self.vault_locked(*voter, k) <= i128::MAX
                        &&& i128::MIN <= self.locked_up_to(*voter, k) <= i128::MAX
                    },
            decreases self.vault_count - id,
        {
            id = id + 1;
            let term: i128 = match self.vaults.get(&id) {
                Some(v) => {
                    if v.owner.same(voter) && v.is_initialized {
                        let a = v.allocations[0];
                        match a.total_amount.checked_sub(a.released_amount) {
                            Some(t) => t,
                            None => {
                                assert(!(i128::MIN <= self.vault_locked(*voter, id) <= i128::MAX));
                                return None;
                            },
                        }
                    } else {
                        0
                    }
                },
                None => 0,
            };
            assert(term == self.vault_locked(*voter, id));
            match total.checked_add(term) {
                Some(s) => {
                    total = s;
                },
                None => {
                    assert(!(i128::MIN <= self.locked_up_to(*voter, id) <= i128::MAX));
                    return None;
                },
            }
        }
        Some(total)
    }

    /// The voting power of `voter`: the value it holds locked in its vaults.
    pub fn get_voter_power(&self, voter: &AccountId) -> (r: i128)
        requires
            self.wf(),
            self.locked_sums_fit(*voter),
        ensures
            r == self.locked_value_of(*voter),
    {
        match self.sum_voter_locked(voter) {
            Some(v) => v,
            None => 0,
        }
    }

    /// Whether `voter`'s voting power can be summed within `i128`.
    pub fn voter_power_fits(&self, voter: &AccountId) -> (r: bool)
        requires
            self.wf(),
        ensures
            r == self.locked_sums_fit(*voter),
    {
        self.sum_voter_locked(voter).is_some()
    }

    /// Records `voter`'s vote, weighted by the value it holds locked, on an
    /// open proposal; once per voter and proposal.
    pub fn vote_on_proposal(
        &mut self,
        voter: &AccountId,
        proposal_id: u64,
        is_yes: bool,
        now: u64,
    ) -> (r: Result<(), GovernanceError>)
        requires
            old(self).wf(),
            old(self).locked_sums_fit(*voter),
            old(self).vote_refusal(*voter, proposal_id, now) is None ==> if is_yes {
                old(self).proposals@[proposal_id].yes_votes + old(self).locked_value_of(*voter) <= i128::MAX
            } else {
                old(self).proposals@[proposal_id].no_votes + old(self).locked_value_of(*voter) <= i128::MAX
            },
        ensures
            final(self).wf(),
            old(self).vote_refusal(*voter, proposal_id, now) matches Some(e) ==> r == Err::<
                (),
                GovernanceError,
            >(e) && *final(self) == *old(self),
            old(self).vote_refusal(*voter, proposal_id, now) is None ==> {
                let p = old(self).proposals@[proposal_id];
                let locked_value = old(self).locked_value_of(*voter) as i128;
                &&& r is Ok
                &&& *final(self) == (VestingContract {
                    proposals: final(self).proposals,
                    votes: final(self).votes,
                    events: final(self).events,
                    ..*old(self)
                })
                &&& final(self).votes@ == old(self).votes@.insert(
                    VoteKey { proposal_id, voter: *voter },
                    Vote { voter: *voter, vote_weight: locked_value, is_yes, voted_at: now },
                )
                &&& final(self).proposals@ == old(self).proposals@.insert(
                    proposal_id,
                    if is_yes {
                        GovernanceProposal { yes_votes: (p.yes_votes + locked_value) as i128, ..p }
                    } else {
                        GovernanceProposal { no_votes: (p.no_votes + locked_value) as i128, ..p }
                    },
                )
                &&& final(self).events@ == old(self).events@.push(GovernanceEvent::VoteCast(VoteCast {
                    proposal_id,
                    voter: *voter,
                    vote_weight: locked_value,
                    is_yes,
                }))
            },
    {
        let locked_value = self.get_voter_power(voter);
        if locked_value <= 0 {
            return Err(GovernanceError::NoVotingPower);
        }
        let mut proposal = match self.proposals.get(&proposal_id) {
            Some(p) => *p,
            None => {
                return Err(GovernanceError::ProposalNotFound);
            },
        };
        if now >= proposal.challenge_end {
            return Err(GovernanceError::VotingPeriodEnded);
        }
        if proposal.is_executed || proposal.is_cancelled {
            return Err(GovernanceError::ProposalNotActive);
        }
        let vote_key = VoteKey { proposal_id, voter: *voter };
        if self.votes.contains_key(&vote_key) {
            return Err(GovernanceError::AlreadyVoted);
        }
        self.votes.insert(vote_key, Vote { voter: *voter, vote_weight: locked_value, is_yes, voted_at: now });
        if is_yes {
            proposal.yes_votes = proposal.yes_votes + locked_value;
        } else {
            proposal.no_votes = proposal.no_votes + locked_value;
        }
        self.proposals.insert(proposal_id, proposal);
        self.events.push(GovernanceEvent::VoteCast(VoteCast {
            proposal_id,
            voter: *voter,
            vote_weight: locked_value,
            is_yes,
        }));
        Ok(())
    }

    /// Settles a proposal whose challenge period is over: it is cancelled
    /// when the votes against reach 51% of the locked value, and otherwise
    /// its action is carried out.
    pub fn execute_proposal(&mut self, proposal_id: u64, now: u64) -> (r: Result<(), GovernanceError>)
        requires
            old(self).wf(),
            old(self).execution_refusal(proposal_id, now) is None ==> {
                &&& old(self).total_locked_value != 0
                &&& old(self).proposals@[proposal_id].no_votes * 10_000 <= i128::MAX
                &&& !(old(self).proposals@[proposal_id].no_votes * 10_000 == i128::MIN
                    && old(self).total_locked_value == -1)
            },
        ensures
            final(self).wf(),
            old(self).execution_refusal(proposal_id, now) matches Some(e) ==> r == Err::<(), GovernanceError>(e)
                && *final(self) == *old(self),
            old(self).execution_refusal(proposal_id, now) is None ==> {
                let p = old(self).proposals@[proposal_id];
                &&& r is Ok
                &&& if veto_share(p.no_votes, old(self).total_locked_value) >= VOTING_THRESHOLD {
                    &&& *final(self) == (VestingContract { proposals: final(self).proposals, ..*old(self) })
                    &&& final(self).proposals@ == old(self).proposals@.insert(
                        proposal_id,
                        GovernanceProposal { is_cancelled: true, ..p },
                    )
                } else {
                    &&& *final(self) == (VestingContract {
                        proposals: final(self).proposals,
                        events: final(self).events,
                        ..old(self).with_action(p.action)
                    })
                    &&& final(self).proposals@ == old(self).proposals@.insert(
                        proposal_id,
                        GovernanceProposal { is_executed: true, ..p },
                    )
                    &&& final(self).events@ == old(self).events@.push(GovernanceEvent::ActionExecuted(
                        GovernanceActionExecuted { proposal_id, action: p.action },
                    ))
                }
            },
    {
        let mut proposal = match self.proposals.get(&proposal_id) {
            Some(p) => *p,
            None => {
                return Err(GovernanceError::ProposalNotFound);
            },
        };
        if now < proposal.challenge_end {
            return Err(GovernanceError::ChallengePeriodNotEnded);
        }
        if proposal.is_executed || proposal.is_cancelled {
            return Err(GovernanceError::ProposalAlreadyProcessed);
        }
        let total_locked = self.total_locked_value;
        let scaled = proposal.no_votes * 10_000;
        proof {
            lemma_trunc_div_bounded(scaled as int, total_locked as int);
        }
        let no_percentage = div_toward_zero(scaled, total_locked);
        if no_percentage >= VOTING_THRESHOLD as i128 {
            proposal.is_cancelled = true;
            self.proposals.insert(proposal_id, proposal);
            return Ok(());
        }
        self.execute_governance_action(&proposal.action);
        proposal.is_executed = true;
        self.proposals.insert(proposal_id, proposal);
        self.events.push(GovernanceEvent::ActionExecuted(GovernanceActionExecuted {
            proposal_id,
            action: proposal.action,
        }));
        Ok(())
    }

    /// Carries out a governance action.
    fn execute_governance_action(&mut self, action: &GovernanceAction)
        ensures
            *final(self) == old(self).with_action(*action),
    {
        match *action {
            GovernanceAction::AdminRotation(new_admin) => {
                self.admin = Some(new_admin);
            },
            GovernanceAction::ContractUpgrade(new_contract) => {
                self.migration_target = Some(new_contract);
                self.is_deprecated = true;
            },
            GovernanceAction::EmergencyPause(pause_state) => {
                self.is_paused = pause_state;
            },
        }
    }

    /// Pausing directly is refused: it goes through
    /// `propose_emergency_pause`.
    pub fn toggle_pause(&self) -> (r: Result<(), GovernanceError>)
        ensures
            r == Err::<(), GovernanceError>(GovernanceError::DirectPauseNotAllowed),
    {
        Err(GovernanceError::DirectPauseNotAllowed)
    }

    /// Whether the contract is paused.
    pub fn is_paused(&self) -> (r: bool)
        ensures
            r == self.is_paused,
    {
        self.is_paused
    }

    /// The admin; refused when none was set.
    pub fn get_admin(&self) -> (r: Result<AccountId, GovernanceError>)
        ensures
            match self.admin {
                Some(a) => r == Ok::<AccountId, GovernanceError>(a),
                None => r == Err::<AccountId, GovernanceError>(GovernanceError::AdminNotSet),
            },
    {
        match self.admin {
            Some(a) => Ok(a),
            None => Err(GovernanceError::AdminNotSet),
        }
    }

    /// The proposal with id `proposal_id`; refused when there is none.
    pub fn get_proposal_info(&self, proposal_id: u64) -> (r: Result<GovernanceProposal, GovernanceError>)
        requires
            self.wf(),
        ensures
            self.proposals@.contains_key(proposal_id) ==> r == Ok::<GovernanceProposal, GovernanceError>(
                self.proposals@[proposal_id],
            ),
            !self.proposals@.contains_key(proposal_id) ==> r == Err::<GovernanceProposal, GovernanceError>(
                GovernanceError::ProposalNotFound,
            ),
    {
        match self.proposals.get(&proposal_id) {
            Some(p) => Ok(*p),
            None => Err(GovernanceError::ProposalNotFound),
        }
    }

    /// The locked value that veto shares are measured against.
    pub fn get_total_locked(&self) -> (r: i128)
        ensures
            r == self.total_locked_value,
    {
        self.total_locked_value
    }
}

} // verus!
