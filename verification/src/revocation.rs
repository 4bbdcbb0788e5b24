//! Taking back what a vault holds: revoking a revocable vault takes everything
//! it has not released and freezes it; slashing takes what has not vested
//! yet. Either way the vault's schedule ends at that moment, its milestones
//! are dropped, and the host moves the amount taken to the treasury.
use vstd::prelude::*;
use crate::governance::VestingContract;
use crate::schedules::{AssetAllocation, Vault, ScheduleError};

verus! {

/// Whether `ids` holds `id`.
fn holds_id(ids: &Vec<u64>, id: u64) -> (r: bool)
    ensures
        r == ids@.contains(id),
{
    let mut i: usize = 0;
    while i < ids.len()
        invariant
            0 <= i <= ids@.len(),
            forall|j: int| 0 <= j < i ==> ids@[j] != id,
        decreases ids@.len() - i,
    {
        if ids[i] == id {
            return true;
        }
        i = i + 1;
    }
    false
}

impl VestingContract {
    /// `after` is `self` with vault `id` cut down to `new_total` at `now`:
    /// its schedule ends at `now` and is linear, it is frozen if `freeze`, and
    /// its milestones are gone; no other vault changes.
    pub open spec fn cut(&self, after: Self, id: u64, new_total: i128, now: u64, freeze: bool) -> bool {
        let v = self.vaults@[id];
        let w = after.vaults@[id];
        &&& after.vaults@.dom() == self.vaults@.dom()
        &&& forall|k: u64| k != id && #[trigger] self.vaults@.contains_key(k) ==> after.vaults@[k] == self.vaults@[k]
        &&& w == (Vault {
            allocations: w.allocations,
            title: w.title,
            end_time: now,
            step_duration: 0,
            is_frozen: v.is_frozen || freeze,
            ..v
        })
        &&& w.title@ == v.title@
        &&& w.allocations@ == seq![AssetAllocation { total_amount: new_total, ..v.allocations@[0] }]
        &&& after.vault_milestones@ == self.vault_milestones@.remove(id)
    }

    /// Why revoking vault `id` is refused, if it is.
    pub open spec fn revocation_refusal(&self, id: u64) -> Option<ScheduleError> {
        if self.admin is None {
            Some(ScheduleError::AdminNotSet)
        } else if !self.vaults@.contains_key(id) {
            Some(ScheduleError::VaultNotFound)
        } else if self.vaults@[id].is_irrevocable {
            Some(ScheduleError::VaultIrrevocable)
        } else {
            None
        }
    }

    /// What vault `id` holds and has not released.
    pub open spec fn unreleased(&self, id: u64) -> int {
        self.vaults@[id].allocations@[0].total_amount - self.vaults@[id].allocations@[0].released_amount
    }

    /// What of vault `id` has not vested at `now`.
    pub open spec fn unvested(&self, id: u64, now: u64) -> int {
        self.vaults@[id].allocations@[0].total_amount - self.vested_amount(id, now)
    }

    /// Cuts vault `id` down to `new_total` at `now` (see `cut`).
    fn cut_vault(&mut self, id: u64, new_total: i128, now: u64, freeze: bool)
        requires
            old(self).wf(),
            old(self).vaults@.contains_key(id),
        ensures
            final(self).wf(),
            *final(self) == (VestingContract {
                vaults: final(self).vaults,
                vault_milestones: final(self).vault_milestones,
                ..*old(self)
            }),
            old(self).cut(*final(self), id, new_total, now, freeze),
    {
        let vault = self.vaults.remove(&id).unwrap();
        let Vault {
            allocations,
            keeper_fee,
            staked_amount,
            owner,
            delegate,
            title,
            start_time,
            end_time: _,
            creation_time,
            step_duration: _,
            is_initialized,
            is_irrevocable,
            is_transferable,
            is_frozen,
        } = vault;
        let a = allocations[0];
        let mut updated: Vec<AssetAllocation> = Vec::new();
        updated.push(AssetAllocation { total_amount: new_total, ..a });
        self.vaults.insert(
            id,
            Vault {
                allocations: updated,
                keeper_fee,
                staked_amount,
                owner,
                delegate,
                title,
                start_time,
                end_time: now,
                creation_time,
                step_duration: 0,
                is_initialized,
                is_irrevocable,
                is_transferable,
                is_frozen: is_frozen || freeze,
            },
        );
        self.vault_milestones.remove(&id);
        assert(self.vaults@ =~= old(self).vaults@.insert(id, self.vaults@[id]));
    }

    /// Revokes the revocable vault `id` at `now`: it is recorded as revoked,
    /// and when it holds anything unreleased, that is taken (the host moves
    /// it to the treasury), the vault is frozen and its schedule ends. Returns
    /// the amount taken.
    pub fn revoke_vault(&mut self, id: u64, now: u64) -> (r: Result<i128, ScheduleError>)
        requires
            old(self).wf(),
            old(self).revocation_refusal(id) is None ==> {
                &&& i128::MIN <= old(self).unreleased(id) <= i128::MAX
                &&& old(self).unreleased(id) > 0 ==> i128::MIN <= old(self).total_shares - old(self).unreleased(id)
                    <= i128::MAX
            },
        ensures
            final(self).wf(),
            old(self).revocation_refusal(id) matches Some(e) ==> r == Err::<i128, ScheduleError>(e) && *final(self)
                == *old(self),
            old(self).revocation_refusal(id) is None ==> {
                let remaining = old(self).unreleased(id);
                &&& final(self).revoked_vaults@ == if old(self).revoked_vaults@.contains(id) {
                    old(self).revoked_vaults@
                } else {
                    old(self).revoked_vaults@.push(id)
                }
                &&& if remaining > 0 {
                    &&& r == Ok::<i128, ScheduleError>(remaining as i128)
                    &&& *final(self) == (VestingContract {
                        vaults: final(self).vaults,
                        vault_milestones: final(self).vault_milestones,
                        revoked_vaults: final(self).revoked_vaults,
                        total_shares: (old(self).total_shares - remaining) as i128,
                        ..*old(self)
                    })
                    &&& old(self).cut(*final(self), id, old(self).vaults@[id].allocations@[0].released_amount, now, true)
                } else {
                    &&& r == Ok::<i128, ScheduleError>(0)
                    &&& *final(self) == (VestingContract { revoked_vaults: final(self).revoked_vaults, ..*old(self) })
                }
            },
    {
        if self.admin.is_none() {
            return Err(ScheduleError::AdminNotSet);
        }
        let (total, released) = match self.vaults.get(&id) {
            None => {
                return Err(ScheduleError::VaultNotFound);
            },
            Some(v) => {
                if v.is_irrevocable {
                    return Err(ScheduleError::VaultIrrevocable);
                }
                (v.allocations[0].total_amount, v.allocations[0].released_amount)
            },
        };
        if !holds_id(&self.revoked_vaults, id) {
            self.revoked_vaults.push(id);
        }
        let remaining = total - released;
        if remaining > 0 {
            self.cut_vault(id, released, now, true);
            self.total_shares = self.total_shares - remaining;
            Ok(remaining)
        } else {
            Ok(0)
        }
    }

    /// Takes from vault `id` what has not vested at `now` (the host moves it
    /// to the treasury): the vault keeps what vested, and its schedule ends.
    /// Returns the amount taken.
    pub fn slash_unvested_balance(&mut self, id: u64, now: u64) -> (r: Result<i128, ScheduleError>)
        requires
            old(self).wf(),
            old(self).admin is Some && old(self).vaults@.contains_key(id) ==> {
                &&& old(self).vesting_computable(id, now)
                &&& i128::MIN <= old(self).unvested(id, now) <= i128::MAX
                &&& old(self).unvested(id, now) > 0 ==> i128::MIN <= old(self).total_shares - old(self).unvested(
                    id,
                    now,
                ) <= i128::MAX
            },
        ensures
            final(self).wf(),
            old(self).admin is None ==> r == Err::<i128, ScheduleError>(ScheduleError::AdminNotSet) && *final(self)
                == *old(self),
            old(self).admin is Some && !old(self).vaults@.contains_key(id) ==> r == Err::<i128, ScheduleError>(
                ScheduleError::VaultNotFound,
            ) && *final(self) == *old(self),
            old(self).admin is Some && old(self).vaults@.contains_key(id) ==> {
                let unvested = old(self).unvested(id, now);
                if unvested <= 0 {
                    r == Err::<i128, ScheduleError>(ScheduleError::NothingToSlash) && *final(self) == *old(self)
                } else {
                    &&& r == Ok::<i128, ScheduleError>(unvested as i128)
                    &&& *final(self) == (VestingContract {
                        vaults: final(self).vaults,
                        vault_milestones: final(self).vault_milestones,
                        total_shares: (old(self).total_shares - unvested) as i128,
                        ..*old(self)
                    })
                    &&& old(self).cut(*final(self), id, old(self).vested_amount(id, now) as i128, now, false)
                }
            },
    {
        if self.admin.is_none() {
            return Err(ScheduleError::AdminNotSet);
        }
        let total = match self.vaults.get(&id) {
            None => {
                return Err(ScheduleError::VaultNotFound);
            },
            Some(v) => v.allocations[0].total_amount,
        };
        assert(self.single_asset_vault(id));
        let vested = match self.get_claimable_amount(id, now) {
            Ok(v) => v,
            Err(e) => {
                return Err(e);
            },
        };
        let unvested = total - vested;
        if unvested <= 0 {
            return Err(ScheduleError::NothingToSlash);
        }
        self.cut_vault(id, vested, now, false);
        self.total_shares = self.total_shares - unvested;
        Ok(unvested)
    }
}

} // verus!
