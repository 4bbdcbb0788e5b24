//! Beneficiary reassignment. Reassigning more than the veto threshold's share
//! of the supply opens a seven-day window in which holders may veto it;
//! smaller reassignments wait 48 hours.
use vstd::prelude::*;
use crate::account::AccountId;
use crate::arith::{trunc_div, div_toward_zero};
use crate::table::copy_vec;
use crate::vault::{VestingVault, VaultEvent, TIMELOCK_DURATION, GOVERNANCE_VETO_PERIOD};
use crate::vault_errors::Error;
use crate::vault_types::{
    BeneficiaryReassignment, VetoVote, TokenSupplyInfo, BeneficiaryReassignmentRequested,
    BeneficiaryReassignmentExecuted, VetoPeriodStarted, VetoVoteCast, ReassignmentVetoed,
};

verus! {

/// The voting power cast in favour of a veto.
pub open spec fn veto_power(votes: Seq<VetoVote>) -> int
    decreases votes.len(),
{
    if votes.len() == 0 {
        0
    } else {
        veto_power(votes.drop_last()) + if votes.last().vote_for_veto {
            votes.last().voting_power as int
        } else {
            0
        }
    }
}

/// Every running total of the veto power fits in 128 bits.
pub open spec fn veto_sums_fit(votes: Seq<VetoVote>) -> bool {
    forall|k: int| 0 <= k <= votes.len() ==> i128::MIN <= #[trigger] veto_power(votes.take(k)) <= i128::MAX
}

/// The amount of supply a threshold percentage stands for.
pub open spec fn threshold_amount(total_supply: i128, threshold: u32) -> int {
    trunc_div(total_supply * threshold, 100)
}

/// Whether `voter` has cast one of `votes`.
pub open spec fn has_voted(votes: Seq<VetoVote>, voter: AccountId) -> bool {
    exists|i: int| 0 <= i < votes.len() && votes[i].voter == voter
}

/// No voter occurs twice among `votes`.
pub open spec fn voters_distinct(votes: Seq<VetoVote>) -> bool {
    forall|i: int, j: int| 0 <= i < j < votes.len() ==> #[trigger] votes[i].voter != #[trigger] votes[j].voter
}

/// The sum of the veto power of a list of votes.
pub fn total_veto_power(votes: &Vec<VetoVote>) -> (r: i128)
    requires
        veto_sums_fit(votes@),
    ensures
        r == veto_power(votes@),
{
    let mut total: i128 = 0;
    let mut i: usize = 0;
    assert(votes@.take(0) =~= Seq::<VetoVote>::empty());
    while i < votes.len()
        invariant
            0 <= i <= votes@.len(),
            veto_sums_fit(votes@),
            total == veto_power(votes@.take(i as int)),
        decreases votes@.len() - i,
    {
        let vote = votes[i];
        assert(votes@.take(i + 1).drop_last() =~= votes@.take(i as int));
        assert(i128::MIN <= veto_power(votes@.take(i + 1)) <= i128::MAX);
        if vote.vote_for_veto {
            total = total + vote.voting_power;
        }
        i = i + 1;
    }
    assert(votes@.take(votes@.len() as int) =~= votes@);
    total
}

impl VestingVault {
    /// The supply amount above which a reassignment needs a veto window.
    pub open spec fn veto_threshold(&self) -> int {
        threshold_amount(self.token_supply.total_supply, self.governance_veto_threshold)
    }

    /// The veto threshold can be computed without overflow.
    pub open spec fn threshold_computable(&self) -> bool {
        i128::MIN <= self.token_supply.total_supply * self.governance_veto_threshold <= i128::MAX
    }

    /// The votes cast on a reassignment.
    pub open spec fn votes_on(&self, reassignment_id: u32) -> Seq<VetoVote> {
        if self.veto_votes@.contains_key(reassignment_id) {
            self.veto_votes@[reassignment_id]@
        } else {
            Seq::empty()
        }
    }

    /// The delay before a reassignment of `amount` may be executed.
    pub open spec fn reassignment_delay(&self, amount: i128) -> u64 {
        if amount > self.veto_threshold() {
            GOVERNANCE_VETO_PERIOD
        } else {
            TIMELOCK_DURATION
        }
    }

    fn veto_threshold_value(&self) -> (r: i128)
        requires
            self.wf(),
            self.threshold_computable(),
        ensures
            r == self.veto_threshold(),
    {
        let product = self.token_supply.total_supply * (self.governance_veto_threshold as i128);
        assert(i128::MIN <= trunc_div(product as int, 100) <= i128::MAX) by (nonlinear_arith)
            requires i128::MIN <= product <= i128::MAX;
        div_toward_zero(product, 100)
    }

    /// Records the total token supply that veto thresholds are measured
    /// against.
    pub fn initialize_token_supply(&mut self, admin: &AccountId, total_supply: i128, now: u64)
        ensures
            *final(self) == (VestingVault {
                token_supply: TokenSupplyInfo { total_supply, last_updated: now },
                ..*old(self)
            }),
    {
        self.token_supply = TokenSupplyInfo { total_supply, last_updated: now };
    }

    /// Updates the total token supply.
    pub fn update_token_supply(&mut self, admin: &AccountId, new_total_supply: i128, now: u64)
        ensures
            *final(self) == (VestingVault {
                token_supply: TokenSupplyInfo { total_supply: new_total_supply, last_updated: now },
                ..*old(self)
            }),
    {
        self.token_supply = TokenSupplyInfo { total_supply: new_total_supply, last_updated: now };
    }

    /// Sets the veto threshold, a percentage of the supply; above 100 is
    /// refused.
    pub fn set_governance_veto_threshold(&mut self, admin: &AccountId, threshold_percentage: u32) -> (r: Result<(), Error>)
        requires
            old(self).wf(),
        ensures
            final(self).wf(),
            threshold_percentage > 100 ==> r == Err::<(), Error>(Error::InvalidInput) && *final(self) == *old(self),
            threshold_percentage <= 100 ==> r is Ok && *final(self) == (VestingVault {
                governance_veto_threshold: threshold_percentage,
                ..*old(self)
            }),
    {
        if threshold_percentage > 100 {
            return Err(Error::InvalidInput);
        }
        self.governance_veto_threshold = threshold_percentage;
        Ok(())
    }

    /// Asks to move schedule `vesting_id` from `current_beneficiary` to
    /// `new_beneficiary`. The request gets the next id and may be executed
    /// after the delay its size calls for.
    pub fn request_beneficiary_reassignment(
        &mut self,
        current_beneficiary: &AccountId,
        new_beneficiary: &AccountId,
        vesting_id: u32,
        total_amount: i128,
        now: u64,
    )
        requires
            old(self).wf(),
            old(self).threshold_computable(),
            now + old(self).reassignment_delay(total_amount) <= u64::MAX,
            old(self).reassignment_counter < u32::MAX,
        ensures
            final(self).wf(),
            ({
                let id = (old(self).reassignment_counter + 1) as u32;
                let needs_veto = total_amount > old(self).veto_threshold();
                let effective_at = (now + old(self).reassignment_delay(total_amount)) as u64;
                let requested = VaultEvent::BeneficiaryReassignmentRequested(BeneficiaryReassignmentRequested {
                    reassignment_id: id,
                    vesting_id,
                    current_beneficiary: *current_beneficiary,
                    new_beneficiary: *new_beneficiary,
                    total_amount,
                    effective_at,
                    requires_governance_veto: needs_veto,
                });
                &&& *final(self) == (VestingVault {
                    reassignment_counter: id,
                    reassignments: final(self).reassignments,
                    events: final(self).events,
                    ..*old(self)
                })
                &&& final(self).reassignments@ == old(self).reassignments@.insert(id, BeneficiaryReassignment {
                    vesting_id,
                    current_beneficiary: *current_beneficiary,
                    new_beneficiary: *new_beneficiary,
                    requested_at: now,
                    effective_at,
                    total_amount,
                    requires_governance_veto: needs_veto,
                    is_executed: false,
                })
                &&& final(self).events@ == if needs_veto {
                    old(self).events@.push(requested).push(VaultEvent::VetoPeriodStarted(VetoPeriodStarted {
                        reassignment_id: id,
                        vesting_id,
                        veto_deadline: effective_at,
                        threshold_percentage: old(self).governance_veto_threshold,
                    }))
                } else {
                    old(self).events@.push(requested)
                }
            }),
    {
        let threshold_amount = self.veto_threshold_value();
        let requires_governance_veto = total_amount > threshold_amount;
        let effective_at = if requires_governance_veto {
            now + GOVERNANCE_VETO_PERIOD
        } else {
            now + TIMELOCK_DURATION
        };
        let reassignment_id = self.reassignment_counter + 1;
        self.reassignment_counter = reassignment_id;
        self.reassignments.insert(reassignment_id, BeneficiaryReassignment {
            vesting_id,
            current_beneficiary: *current_beneficiary,
            new_beneficiary: *new_beneficiary,
            requested_at: now,
            effective_at,
            total_amount,
            requires_governance_veto,
            is_executed: false,
        });
        self.events.push(VaultEvent::BeneficiaryReassignmentRequested(BeneficiaryReassignmentRequested {
            reassignment_id,
            vesting_id,
            current_beneficiary: *current_beneficiary,
            new_beneficiary: *new_beneficiary,
            total_amount,
            effective_at,
            requires_governance_veto,
        }));
        if requires_governance_veto {
            self.events.push(VaultEvent::VetoPeriodStarted(VetoPeriodStarted {
                reassignment_id,
                vesting_id,
                veto_deadline: effective_at,
                threshold_percentage: self.governance_veto_threshold,
            }));
        }
    }

    /// Carries out a reassignment whose delay has run out, unless the veto
    /// power cast against it reached the threshold.
    pub fn execute_beneficiary_reassignment(&mut self, reassignment_id: u32, now: u64) -> (r: Result<(), Error>)
        requires
            old(self).wf(),
            ({
                let ra = old(self).reassignments@[reassignment_id];
                old(self).reassignments@.contains_key(reassignment_id) && !ra.is_executed && now >= ra.effective_at
                    && ra.requires_governance_veto
            }) ==> {
                &&& old(self).threshold_computable()
                &&& veto_sums_fit(old(self).votes_on(reassignment_id))
            },
        ensures
            final(self).wf(),
            !old(self).reassignments@.contains_key(reassignment_id) ==> r == Err::<(), Error>(Error::VaultNotFound)
                && *final(self) == *old(self),
            old(self).reassignments@.contains_key(reassignment_id) ==> {
                let ra = old(self).reassignments@[reassignment_id];
                if ra.is_executed {
                    r == Err::<(), Error>(Error::AlreadyInitialized) && *final(self) == *old(self)
                } else if now < ra.effective_at {
                    r == Err::<(), Error>(Error::TimelockNotElapsed) && *final(self) == *old(self)
                } else if ra.requires_governance_veto && veto_power(old(self).votes_on(reassignment_id))
                    >= old(self).veto_threshold() {
                    r == Err::<(), Error>(Error::QuorumNotMet) && *final(self) == *old(self)
                } else {
                    &&& r is Ok
                    &&& *final(self) == (VestingVault {
                        reassignments: final(self).reassignments,
                        events: final(self).events,
                        ..*old(self)
                    })
                    &&& final(self).reassignments@ == old(self).reassignments@.insert(
                        reassignment_id,
                        BeneficiaryReassignment { is_executed: true, ..ra },
                    )
                    &&& final(self).events@ == old(self).events@.push(VaultEvent::BeneficiaryReassignmentExecuted(
                        BeneficiaryReassignmentExecuted {
                            reassignment_id,
                            vesting_id: ra.vesting_id,
                            old_beneficiary: ra.current_beneficiary,
                            new_beneficiary: ra.new_beneficiary,
                            executed_at: now,
                        },
                    ))
                }
            },
    {
        let reassignment = match self.reassignments.get(&reassignment_id) {
            Some(ra) => *ra,
            None => {
                return Err(Error::VaultNotFound);
            },
        };
        if reassignment.is_executed {
            return Err(Error::AlreadyInitialized);
        }
        if now < reassignment.effective_at {
            return Err(Error::TimelockNotElapsed);
        }
        if reassignment.requires_governance_veto {
            let total = match self.veto_votes.get(&reassignment_id) {
                Some(votes) => total_veto_power(votes),
                None => 0,
            };
            let veto_threshold = self.veto_threshold_value();
            if total >= veto_threshold {
                return Err(Error::QuorumNotMet);
            }
        }
        self.reassignments.insert(reassignment_id, BeneficiaryReassignment { is_executed: true, ..reassignment });
        self.events.push(VaultEvent::BeneficiaryReassignmentExecuted(BeneficiaryReassignmentExecuted {
            reassignment_id,
            vesting_id: reassignment.vesting_id,
            old_beneficiary: reassignment.current_beneficiary,
            new_beneficiary: reassignment.new_beneficiary,
            executed_at: now,
        }));
        Ok(())
    }

    /// Casts `voter`'s vote on a reassignment under veto. Once the veto power
    /// reaches the threshold the reassignment is cancelled.
    pub fn cast_veto_vote(
        &mut self,
        voter: &AccountId,
        reassignment_id: u32,
        vote_for_veto: bool,
        voting_power: i128,
        now: u64,
    ) -> (r: Result<(), Error>)
        requires
            old(self).wf(),
            ({
                let ra = old(self).reassignments@[reassignment_id];
                old(self).reassignments@.contains_key(reassignment_id) && ra.requires_governance_veto && !ra.is_executed
                    && now < ra.effective_at && !has_voted(old(self).votes_on(reassignment_id), *voter)
            }) ==> {
                &&& old(self).threshold_computable()
                &&& veto_sums_fit(old(self).votes_on(reassignment_id).push(VetoVote {
                    voter: *voter,
                    reassignment_id,
                    vote_for_veto,
                    voting_power,
                    voted_at: now,
                }))
            },
        ensures
            final(self).wf(),
            !old(self).reassignments@.contains_key(reassignment_id) ==> r == Err::<(), Error>(Error::VaultNotFound)
                && *final(self) == *old(self),
            old(self).reassignments@.contains_key(reassignment_id) ==> {
                let ra = old(self).reassignments@[reassignment_id];
                let vote = VetoVote { voter: *voter, reassignment_id, vote_for_veto, voting_power, voted_at: now };
                let votes = old(self).votes_on(reassignment_id).push(vote);
                let cast = VaultEvent::VetoVoteCast(VetoVoteCast {
                    voter: *voter,
                    reassignment_id,
                    vote_for_veto,
                    voting_power,
                    voted_at: now,
                });
                if !ra.requires_governance_veto {
                    r == Err::<(), Error>(Error::InvalidInput) && *final(self) == *old(self)
                } else if ra.is_executed {
                    r == Err::<(), Error>(Error::AlreadyInitialized) && *final(self) == *old(self)
                } else if now >= ra.effective_at {
                    r == Err::<(), Error>(Error::VotingPeriodEnded) && *final(self) == *old(self)
                } else if has_voted(old(self).votes_on(reassignment_id), *voter) {
                    r == Err::<(), Error>(Error::AlreadyVoted) && *final(self) == *old(self)
                } else {
                    &&& r is Ok
                    &&& *final(self) == (VestingVault {
                        veto_votes: final(self).veto_votes,
                        reassignments: final(self).reassignments,
                        events: final(self).events,
                        ..*old(self)
                    })
                    &&& final(self).veto_votes@.dom() == old(self).veto_votes@.dom().insert(reassignment_id)
                    &&& forall|k: u32| k != reassignment_id && #[trigger] old(self).veto_votes@.contains_key(k)
                        ==> final(self).veto_votes@[k] == old(self).veto_votes@[k]
                    &&& final(self).votes_on(reassignment_id) == votes
                    &&& voters_distinct(old(self).votes_on(reassignment_id)) ==> voters_distinct(votes)
                    &&& if veto_power(votes) >= old(self).veto_threshold() {
                        &&& final(self).reassignments@ == old(self).reassignments@.remove(reassignment_id)
                        &&& final(self).events@ == old(self).events@.push(cast).push(VaultEvent::ReassignmentVetoed(
                            ReassignmentVetoed {
                                reassignment_id,
                                veto_triggered_by: *voter,
                                veto_power: veto_power(votes) as i128,
                                vetoed_at: now,
                            },
                        ))
                    } else {
                        &&& final(self).reassignments@ == old(self).reassignments@
                        &&& final(self).events@ == old(self).events@.push(cast)
                    }
                }
            },
    {
        let reassignment = match self.reassignments.get(&reassignment_id) {
            Some(ra) => *ra,
            None => {
                return Err(Error::VaultNotFound);
            },
        };
        if !reassignment.requires_governance_veto {
            return Err(Error::InvalidInput);
        }
        if reassignment.is_executed {
            return Err(Error::AlreadyInitialized);
        }
        if now >= reassignment.effective_at {
            return Err(Error::VotingPeriodEnded);
        }
        let already = match self.veto_votes.get(&reassignment_id) {
            Some(votes) => Self::voted_already(votes, voter),
            None => false,
        };
        if already {
            return Err(Error::AlreadyVoted);
        }
        let vote = VetoVote { voter: *voter, reassignment_id, vote_for_veto, voting_power, voted_at: now };
        let mut votes = match self.veto_votes.remove(&reassignment_id) {
            Some(v) => v,
            None => Vec::new(),
        };
        votes.push(vote);
        let total_veto_power = total_veto_power(&votes);
        self.veto_votes.insert(reassignment_id, votes);
        self.events.push(VaultEvent::VetoVoteCast(VetoVoteCast {
            voter: *voter,
            reassignment_id,
            vote_for_veto,
            voting_power,
            voted_at: now,
        }));
        let veto_threshold = self.veto_threshold_value();
        if total_veto_power >= veto_threshold {
            self.reassignments.remove(&reassignment_id);
            self.events.push(VaultEvent::ReassignmentVetoed(ReassignmentVetoed {
                reassignment_id,
                veto_triggered_by: *voter,
                veto_power: total_veto_power,
                vetoed_at: now,
            }));
        }
        Ok(())
    }

    fn voted_already(votes: &Vec<VetoVote>, voter: &AccountId) -> (r: bool)
        ensures
            r == has_voted(votes@, *voter),
    {
        let mut i: usize = 0;
        while i < votes.len()
            invariant
                0 <= i <= votes@.len(),
                forall|j: int| 0 <= j < i ==> votes@[j].voter != *voter,
            decreases votes@.len() - i,
        {
            if votes[i].voter.same(voter) {
                return true;
            }
            i = i + 1;
        }
        false
    }

    /// The reassignment recorded under `reassignment_id`, if any.
    pub fn get_beneficiary_reassignment(&self, reassignment_id: u32) -> (r: Option<BeneficiaryReassignment>)
        requires
            self.wf(),
        ensures
            r == (if self.reassignments@.contains_key(reassignment_id) {
                Some(self.reassignments@[reassignment_id])
            } else {
                None
            }),
    {
        match self.reassignments.get(&reassignment_id) {
            Some(ra) => Some(*ra),
            None => None,
        }
    }

    /// The votes cast on a reassignment, oldest first.
    pub fn get_veto_votes(&self, reassignment_id: u32) -> (r: Vec<VetoVote>)
        requires
            self.wf(),
        ensures
            r@ == self.votes_on(reassignment_id),
    {
        match self.veto_votes.get(&reassignment_id) {
            Some(votes) => copy_vec(votes),
            None => Vec::new(),
        }
    }

    /// The token supply that thresholds are measured against.
    pub fn get_token_supply_info(&self) -> (r: TokenSupplyInfo)
        ensures
            r == self.token_supply,
    {
        self.token_supply
    }

    /// The veto threshold, in percent of the supply.
    pub fn get_governance_veto_threshold(&self) -> (r: u32)
        ensures
            r == self.governance_veto_threshold,
    {
        self.governance_veto_threshold
    }

    /// Whether reassigning `amount` needs a governance veto window.
    pub fn requires_governance_veto(&self, amount: i128) -> (r: bool)
        requires
            self.wf(),
            self.threshold_computable(),
        ensures
            r == (amount > self.veto_threshold()),
    {
        amount > self.veto_threshold_value()
    }

    /// Whether the reassignment is vetoed, the veto power cast, and the
    /// threshold it is measured against.
    pub fn get_veto_status(&self, reassignment_id: u32) -> (r: (bool, i128, i128))
        requires
            self.wf(),
            self.threshold_computable(),
            veto_sums_fit(self.votes_on(reassignment_id)),
        ensures
            r.1 == veto_power(self.votes_on(reassignment_id)),
            r.2 == self.veto_threshold(),
            r.0 == (r.1 >= r.2),
    {
        let total = match self.veto_votes.get(&reassignment_id) {
            Some(votes) => total_veto_power(votes),
            None => 0,
        };
        let veto_threshold = self.veto_threshold_value();
        (total >= veto_threshold, total, veto_threshold)
    }
}

} // verus!
