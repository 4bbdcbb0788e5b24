//! Milestone-gated vesting, the cross-project reputation bonus, and private
//! claims backed by commitments and nullifiers.
use vstd::prelude::*;
use crate::account::{AccountId, Bytes32};
use crate::table::{Table, copy_vec, keys_ascending};
use crate::vault::{VestingVault, VaultEvent};
use crate::vault_errors::Error;
use crate::vault_types::{
    MilestoneCompleted, ReputationBonusApplied, Commitment, CommitmentCreated, ZKClaimProof,
    Nullifier, PrivacyClaimEvent, PrivateClaimExecuted, EmergencyPause,
};

verus! {

/// The sum of a list of milestone percentages.
pub open spec fn percent_total(s: Seq<u32>) -> int
    decreases s.len(),
{
    if s.len() == 0 {
        0
    } else {
        percent_total(s.drop_last()) + s.last()
    }
}

/// Running totals of percentages never decrease.
pub proof fn lemma_percent_total_grows(s: Seq<u32>, i: int, j: int)
    requires
        0 <= i <= j <= s.len(),
    ensures
        percent_total(s.take(i)) <= percent_total(s.take(j)),
    decreases j - i,
{
    if i < j {
        assert(s.take(j).drop_last() =~= s.take(j - 1));
        lemma_percent_total_grows(s, i, j - 1);
    }
}

/// Cliff reduction, in months, granted by the reputation bonus.
pub const REPUTATION_CLIFF_REDUCTION_MONTHS: u32 = 1;

/// Completion rate, in percent, reported for linked projects. No bridge
/// contract is consulted: every beneficiary is reported at 100%.
pub open spec fn linked_completion_rate(beneficiary: AccountId) -> u32 {
    100
}

/// Whether a zero-knowledge proof is accepted. No verifier is run: every
/// proof is accepted.
pub open spec fn proof_accepted(proof: ZKClaimProof) -> bool {
    true
}

/// Whether `root` occurs in `roots`.
pub open spec fn root_listed(roots: Seq<Bytes32>, root: Bytes32) -> bool {
    exists|i: int| 0 <= i < roots.len() && roots[i] == root
}

/// Completed milestones form a prefix: each completed milestone above 1
/// follows its completed predecessor.
pub open spec fn milestones_in_order(done: Map<u32, bool>) -> bool {
    forall|n: u32| #[trigger] done.contains_key(n) && n > 1 ==> done.contains_key((n - 1) as u32)
}

impl VestingVault {
    /// The milestones of a schedule completed so far.
    pub open spec fn completed_milestones(&self, vesting_id: u32) -> Map<u32, bool> {
        if self.milestone_status@.contains_key(vesting_id) {
            self.milestone_status@[vesting_id]@
        } else {
            Map::empty()
        }
    }

    /// Configures milestone vesting for a schedule; the percentages must sum
    /// to 100.
    pub fn configure_milestone_vesting(&mut self, admin: &AccountId, vesting_id: u32, milestone_percentages: Vec<u32>) -> (r: Result<(), Error>)
        requires
            old(self).wf(),
        ensures
            final(self).wf(),
            percent_total(milestone_percentages@) != 100 ==> r == Err::<(), Error>(Error::InvalidInput)
                && *final(self) == *old(self),
            percent_total(milestone_percentages@) == 100 ==> {
                &&& r is Ok
                &&& *final(self) == (VestingVault { milestone_configs: final(self).milestone_configs, ..*old(self) })
                &&& final(self).milestone_configs@ == old(self).milestone_configs@.insert(vesting_id, milestone_percentages)
            },
    {
        let mut total: u64 = 0;
        let mut i: usize = 0;
        assert(milestone_percentages@.take(0) =~= Seq::<u32>::empty());
        while i < milestone_percentages.len()
            invariant
                0 <= i <= milestone_percentages@.len(),
                total == percent_total(milestone_percentages@.take(i as int)),
                total <= 100,
                old(self).wf(),
                *self == *old(self),
            decreases milestone_percentages@.len() - i,
        {
            assert(milestone_percentages@.take(i + 1).drop_last() =~= milestone_percentages@.take(i as int));
            total = total + milestone_percentages[i] as u64;
            i = i + 1;
            if total > 100 {
                proof {
                    lemma_percent_total_grows(milestone_percentages@, i as int, milestone_percentages@.len() as int);
                    assert(milestone_percentages@.take(milestone_percentages@.len() as int) =~= milestone_percentages@);
                }
                return Err(Error::InvalidInput);
            }
        }
        assert(milestone_percentages@.take(milestone_percentages@.len() as int) =~= milestone_percentages@);
        if total != 100 {
            return Err(Error::InvalidInput);
        }
        self.milestone_configs.insert(vesting_id, milestone_percentages);
        Ok(())
    }

    /// Marks milestone `milestone_number` of a schedule completed. Milestones
    /// complete in order: each one above 1 needs its predecessor.
    pub fn complete_milestone(&mut self, admin: &AccountId, vesting_id: u32, milestone_number: u32, now: u64) -> (r: Result<(), Error>)
        requires
            old(self).wf(),
        ensures
            final(self).wf(),
            old(self).completed_milestones(vesting_id).contains_key(milestone_number) ==> r == Err::<(), Error>(
                Error::AlreadyInitialized,
            ) && *final(self) == *old(self),
            !old(self).completed_milestones(vesting_id).contains_key(milestone_number) && milestone_number > 1
                && !old(self).completed_milestones(vesting_id).contains_key((milestone_number - 1) as u32) ==> r
                == Err::<(), Error>(Error::MilestoneNotCompleted) && *final(self) == *old(self),
            !old(self).completed_milestones(vesting_id).contains_key(milestone_number) && (milestone_number <= 1
                || old(self).completed_milestones(vesting_id).contains_key((milestone_number - 1) as u32)) ==> {
                &&& r is Ok
                &&& *final(self) == (VestingVault {
                    milestone_status: final(self).milestone_status,
                    events: final(self).events,
                    ..*old(self)
                })
                &&& final(self).milestone_status@.dom() == old(self).milestone_status@.dom().insert(vesting_id)
                &&& forall|k: u32| k != vesting_id && #[trigger] old(self).milestone_status@.contains_key(k)
                    ==> final(self).milestone_status@[k] == old(self).milestone_status@[k]
                &&& final(self).completed_milestones(vesting_id) == old(self).completed_milestones(vesting_id).insert(
                    milestone_number,
                    true,
                )
                &&& milestones_in_order(old(self).completed_milestones(vesting_id)) ==> milestones_in_order(
                    final(self).completed_milestones(vesting_id),
                )
                &&& final(self).events@ == old(self).events@.push(VaultEvent::MilestoneCompleted(
                    MilestoneCompleted { vesting_id, milestone_number, completed_at: now },
                ))
            },
    {
        let already = match self.milestone_status.get(&vesting_id) {
            Some(status) => status.contains_key(&milestone_number),
            None => false,
        };
        if already {
            return Err(Error::AlreadyInitialized);
        }
        if milestone_number > 1 {
            let previous = match self.milestone_status.get(&vesting_id) {
                Some(status) => status.contains_key(&(milestone_number - 1)),
                None => false,
            };
            if !previous {
                return Err(Error::MilestoneNotCompleted);
            }
        }
        let mut status = match self.milestone_status.remove(&vesting_id) {
            Some(s) => s,
            None => Table::new(),
        };
        status.insert(milestone_number, true);
        self.milestone_status.insert(vesting_id, status);
        self.events.push(VaultEvent::MilestoneCompleted(
            MilestoneCompleted { vesting_id, milestone_number, completed_at: now },
        ));
        Ok(())
    }

    /// The completed milestones of a schedule.
    pub fn get_milestone_status(&self, vesting_id: u32) -> (r: Table<u32, bool>)
        requires
            self.wf(),
        ensures
            r.wf(),
            r@ == self.completed_milestones(vesting_id),
            keys_ascending(r.entries@),
    {
        match self.milestone_status.get(&vesting_id) {
            Some(status) => status.sorted_by_key(),
            None => Table::new(),
        }
    }

    /// The milestone percentages configured for a schedule, if any.
    pub fn get_milestone_config(&self, vesting_id: u32) -> (r: Option<Vec<u32>>)
        requires
            self.wf(),
        ensures
            self.milestone_configs@.contains_key(vesting_id) ==> (r matches Some(v) && v@
                == self.milestone_configs@[vesting_id]@),
            !self.milestone_configs@.contains_key(vesting_id) ==> r is None,
    {
        match self.milestone_configs.get(&vesting_id) {
            Some(v) => Some(copy_vec(v)),
            None => None,
        }
    }

    /// Sets the contract that reports completion on linked projects.
    pub fn set_reputation_bridge(&mut self, admin: &AccountId, bridge_contract: &AccountId)
        ensures
            *final(self) == (VestingVault { reputation_bridge: Some(*bridge_contract), ..*old(self) }),
    {
        self.reputation_bridge = Some(*bridge_contract);
    }

    /// Grants `beneficiary` a one-month cliff reduction for full completion
    /// on a linked project; at most once per beneficiary.
    pub fn apply_reputation_bonus(&mut self, beneficiary: &AccountId, now: u64) -> (r: Result<(), Error>)
        requires
            old(self).wf(),
            !old(self).reputation_bonus_applied@.contains_key(*beneficiary) ==> old(self).reputation_bridge is Some,
        ensures
            final(self).wf(),
            old(self).reputation_bonus_applied@.contains_key(*beneficiary) ==> r == Err::<(), Error>(
                Error::AlreadyInitialized,
            ) && *final(self) == *old(self),
            !old(self).reputation_bonus_applied@.contains_key(*beneficiary) ==> {
                &&& r is Ok
                &&& linked_completion_rate(*beneficiary) >= 100 ==> {
                    &&& *final(self) == (VestingVault {
                        reputation_bonus_applied: final(self).reputation_bonus_applied,
                        events: final(self).events,
                        ..*old(self)
                    })
                    &&& final(self).reputation_bonus_applied@ == old(self).reputation_bonus_applied@.insert(
                        *beneficiary,
                        true,
                    )
                    &&& final(self).events@ == old(self).events@.push(VaultEvent::ReputationBonusApplied(
                        ReputationBonusApplied {
                            beneficiary: *beneficiary,
                            cliff_reduction_months: REPUTATION_CLIFF_REDUCTION_MONTHS,
                            applied_at: now,
                        },
                    ))
                }
            },
    {
        if self.reputation_bonus_applied.contains_key(beneficiary) {
            return Err(Error::AlreadyInitialized);
        }
        let completion_rate = Self::query_completion_rate(&self.reputation_bridge.unwrap(), beneficiary);
        if completion_rate >= 100 {
            self.reputation_bonus_applied.insert(*beneficiary, true);
            self.events.push(VaultEvent::ReputationBonusApplied(ReputationBonusApplied {
                beneficiary: *beneficiary,
                cliff_reduction_months: REPUTATION_CLIFF_REDUCTION_MONTHS,
                applied_at: now,
            }));
        }
        Ok(())
    }

    fn query_completion_rate(bridge: &AccountId, beneficiary: &AccountId) -> (r: u32)
        ensures
            r == linked_completion_rate(*beneficiary),
    {
        100
    }

    /// Whether `beneficiary` already received the reputation bonus.
    pub fn has_reputation_bonus(&self, beneficiary: &AccountId) -> (r: bool)
        requires
            self.wf(),
        ensures
            r == self.reputation_bonus_applied@.contains_key(*beneficiary),
    {
        self.reputation_bonus_applied.contains_key(beneficiary)
    }

    /// Records a commitment to `amount` from schedule `vesting_id`, to be
    /// claimed privately later; each commitment hash may be used once.
    pub fn create_commitment(&mut self, user: &AccountId, vesting_id: u32, amount: i128, commitment_hash: &Bytes32, now: u64) -> (r: Result<(), Error>)
        requires
            old(self).wf(),
        ensures
            final(self).wf(),
            old(self).commitments@.contains_key(*commitment_hash) ==> r == Err::<(), Error>(Error::AlreadyInitialized)
                && *final(self) == *old(self),
            !old(self).commitments@.contains_key(*commitment_hash) ==> {
                &&& r is Ok
                &&& *final(self) == (VestingVault {
                    commitments: final(self).commitments,
                    events: final(self).events,
                    ..*old(self)
                })
                &&& final(self).commitments@ == old(self).commitments@.insert(
                    *commitment_hash,
                    Commitment { hash: *commitment_hash, created_at: now, vesting_id, amount, is_used: false },
                )
                &&& final(self).events@ == old(self).events@.push(VaultEvent::CommitmentCreated(
                    CommitmentCreated { commitment_hash: *commitment_hash, vesting_id, amount, created_at: now },
                ))
            },
    {
        if self.commitments.contains_key(commitment_hash) {
            return Err(Error::AlreadyInitialized);
        }
        self.commitments.insert(
            *commitment_hash,
            Commitment { hash: *commitment_hash, created_at: now, vesting_id, amount, is_used: false },
        );
        self.events.push(VaultEvent::CommitmentCreated(
            CommitmentCreated { commitment_hash: *commitment_hash, vesting_id, amount, created_at: now },
        ));
        Ok(())
    }

    /// Why a private claim is refused, if it is.
    pub open spec fn private_claim_refusal(&self, zk_proof: ZKClaimProof, nullifier: Nullifier, amount: i128, now: u64) -> Option<Error> {
        if self.pause_in_force(now) {
            Some(Error::ContractPaused)
        } else if self.used_nullifiers@.contains_key(nullifier.hash) {
            Some(Error::AlreadyInitialized)
        } else if !self.commitments@.contains_key(zk_proof.commitment_hash) {
            Some(Error::VaultNotFound)
        } else if self.commitments@[zk_proof.commitment_hash].is_used {
            Some(Error::AlreadyFullyClaimed)
        } else if self.commitments@[zk_proof.commitment_hash].amount != amount {
            Some(Error::InvalidAmount)
        } else if !root_listed(self.merkle_roots@, zk_proof.merkle_root) {
            Some(Error::InvalidInput)
        } else {
            None
        }
    }

    /// Claims a committed amount without revealing the claimant. The nullifier
    /// and the commitment are each spent once; the proof's Merkle root must be
    /// registered. A pause that has run out is removed on the way.
    pub fn private_claim(&mut self, zk_proof: &ZKClaimProof, nullifier: &Nullifier, amount: i128, now: u64) -> (r: Result<(), Error>)
        requires
            old(self).wf(),
        ensures
            final(self).wf(),
            match old(self).private_claim_refusal(*zk_proof, *nullifier, amount, now) {
                Some(e) => {
                    &&& r == Err::<(), Error>(e)
                    &&& if e == Error::ContractPaused {
                        *final(self) == *old(self)
                    } else {
                        *final(self) == (VestingVault { emergency_pause: old(self).pause_after_check(now), ..*old(self) })
                    }
                },
                None => {
                    let c = old(self).commitments@[zk_proof.commitment_hash];
                    &&& r is Ok
                    &&& *final(self) == (VestingVault {
                        emergency_pause: old(self).pause_after_check(now),
                        used_nullifiers: final(self).used_nullifiers,
                        commitments: final(self).commitments,
                        privacy_claim_history: final(self).privacy_claim_history,
                        events: final(self).events,
                        ..*old(self)
                    })
                    &&& final(self).used_nullifiers@ == old(self).used_nullifiers@.insert(nullifier.hash, true)
                    &&& final(self).commitments@ == old(self).commitments@.insert(
                        zk_proof.commitment_hash,
                        Commitment { is_used: true, ..c },
                    )
                    &&& final(self).privacy_claim_history@ == old(self).privacy_claim_history@.push(PrivacyClaimEvent {
                        nullifier: *nullifier,
                        amount,
                        timestamp: now,
                        vesting_id: c.vesting_id,
                        is_private: true,
                    })
                    &&& final(self).events@ == old(self).events@.push(VaultEvent::PrivateClaimExecuted(
                        PrivateClaimExecuted { nullifier_hash: nullifier.hash, amount, timestamp: now },
                    ))
                },
            },
    {
        if self.check_emergency_pause(now) {
            return Err(Error::ContractPaused);
        }
        if self.used_nullifiers.contains_key(&nullifier.hash) {
            return Err(Error::AlreadyInitialized);
        }
        let commitment = match self.commitments.get(&zk_proof.commitment_hash) {
            Some(c) => *c,
            None => {
                return Err(Error::VaultNotFound);
            },
        };
        if commitment.is_used {
            return Err(Error::AlreadyFullyClaimed);
        }
        if commitment.amount != amount {
            return Err(Error::InvalidAmount);
        }
        if !self.is_valid_merkle_root(&zk_proof.merkle_root) {
            return Err(Error::InvalidInput);
        }
        let _accepted = Self::verify_zk_proof(zk_proof);
        self.used_nullifiers.insert(nullifier.hash, true);
        self.commitments.insert(zk_proof.commitment_hash, Commitment { is_used: true, ..commitment });
        self.privacy_claim_history.push(PrivacyClaimEvent {
            nullifier: *nullifier,
            amount,
            timestamp: now,
            vesting_id: commitment.vesting_id,
            is_private: true,
        });
        self.events.push(VaultEvent::PrivateClaimExecuted(
            PrivateClaimExecuted { nullifier_hash: nullifier.hash, amount, timestamp: now },
        ));
        Ok(())
    }

    fn is_valid_merkle_root(&self, root: &Bytes32) -> (r: bool)
        ensures
            r == root_listed(self.merkle_roots@, *root),
    {
        let mut i: usize = 0;
        while i < self.merkle_roots.len()
            invariant
                0 <= i <= self.merkle_roots@.len(),
                forall|j: int| 0 <= j < i ==> self.merkle_roots@[j] != *root,
            decreases self.merkle_roots@.len() - i,
        {
            if self.merkle_roots[i].same(root) {
                return true;
            }
            i = i + 1;
        }
        false
    }

    /// Registers a Merkle root that private-claim proofs may refer to.
    pub fn add_merkle_root_admin(&mut self, admin: &AccountId, merkle_root: &Bytes32) -> (r: Result<(), Error>)
        ensures
            root_listed(old(self).merkle_roots@, *merkle_root) ==> r == Err::<(), Error>(Error::AlreadyInitialized)
                && *final(self) == *old(self),
            !root_listed(old(self).merkle_roots@, *merkle_root) ==> {
                &&& r is Ok
                &&& *final(self) == (VestingVault { merkle_roots: final(self).merkle_roots, ..*old(self) })
                &&& final(self).merkle_roots@ == old(self).merkle_roots@.push(*merkle_root)
            },
    {
        if self.is_valid_merkle_root(merkle_root) {
            return Err(Error::AlreadyInitialized);
        }
        self.merkle_roots.push(*merkle_root);
        Ok(())
    }

    /// The registered Merkle roots, oldest first.
    pub fn get_merkle_roots(&self) -> (r: Vec<Bytes32>)
        ensures
            r@ == self.merkle_roots@,
    {
        copy_vec(&self.merkle_roots)
    }

    /// Whether a nullifier has been spent.
    pub fn is_nullifier_used_public(&self, nullifier: &Nullifier) -> (r: bool)
        requires
            self.wf(),
        ensures
            r == self.used_nullifiers@.contains_key(nullifier.hash),
    {
        self.used_nullifiers.contains_key(&nullifier.hash)
    }

    /// The commitment recorded under a hash, if any.
    pub fn get_commitment_info(&self, commitment_hash: &Bytes32) -> (r: Option<Commitment>)
        requires
            self.wf(),
        ensures
            r == (if self.commitments@.contains_key(*commitment_hash) {
                Some(self.commitments@[*commitment_hash])
            } else {
                None
            }),
    {
        match self.commitments.get(commitment_hash) {
            Some(c) => Some(*c),
            None => None,
        }
    }

    /// The private claims made so far, oldest first.
    pub fn get_privacy_claim_history(&self) -> (r: Vec<PrivacyClaimEvent>)
        ensures
            r@ == self.privacy_claim_history@,
    {
        copy_vec(&self.privacy_claim_history)
    }

    fn verify_zk_proof(zk_proof: &ZKClaimProof) -> (r: bool)
        ensures
            r == proof_accepted(*zk_proof),
    {
        true
    }

    /// Opts `user` in to private claims on a schedule; no state is kept for it.
    pub fn enable_privacy_mode(&self, user: &AccountId, vesting_id: u32) {
    }

    /// Opts `user` out of private claims on a schedule; no state is kept for it.
    pub fn disable_privacy_mode(&self, user: &AccountId, vesting_id: u32) {
    }
}

} // verus!
