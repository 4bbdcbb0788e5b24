//! Vault tokens as loan collateral: the collateral bridge locks part of what a
//! vault holds and has not released, unlocks it again, or lets a lender claim
//! it; and the statistics of a vault.
use vstd::prelude::*;
use crate::account::AccountId;
use crate::governance::VestingContract;
use crate::schedules::{AssetAllocation, Vault, ScheduleError};

verus! {

impl VestingContract {
    /// The amount of vault `id`'s asset locked as collateral.
    pub open spec fn locked_of(&self, id: u64) -> int {
        self.vaults@[id].allocations@[0].locked_amount as int
    }

    /// What of vault `id`'s asset is neither released nor locked.
    pub open spec fn available_of(&self, id: u64) -> int {
        let a = self.vaults@[id].allocations@[0];
        a.total_amount - a.released_amount - a.locked_amount
    }

    /// `after` is `self` with the locked amount of vault `id`'s asset set to
    /// `locked`, and nothing else changed.
    pub open spec fn relocked(&self, after: Self, id: u64, locked: int) -> bool {
        let v = self.vaults@[id];
        let w = after.vaults@[id];
        &&& after == (VestingContract { vaults: after.vaults, ..*self })
        &&& after.vaults@.dom() == self.vaults@.dom()
        &&& forall|k: u64| k != id && #[trigger] self.vaults@.contains_key(k) ==> after.vaults@[k] == self.vaults@[k]
        &&& w == (Vault { allocations: w.allocations, title: w.title, ..v })
        &&& w.title@ == v.title@
        &&& w.allocations@ == seq![AssetAllocation { locked_amount: locked as i128, ..v.allocations@[0] }]
    }

    /// Why the bridge cannot act on `asset` of vault `id`, if it cannot.
    pub open spec fn bridge_refusal(&self, id: u64, asset: AccountId) -> Option<ScheduleError> {
        if self.collateral_bridge is None {
            Some(ScheduleError::CollateralBridgeNotSet)
        } else if !self.vaults@.contains_key(id) {
            Some(ScheduleError::VaultNotFound)
        } else if self.vaults@[id].allocations@[0].asset_id != asset {
            Some(ScheduleError::AssetNotFound)
        } else {
            None
        }
    }

    /// Why locking `amount` of `asset` in vault `id` is refused, if it is.
    pub open spec fn lock_refusal(&self, id: u64, asset: AccountId, amount: i128) -> Option<ScheduleError> {
        if self.bridge_refusal(id, asset) is Some {
            self.bridge_refusal(id, asset)
        } else if amount > self.available_of(id) {
            Some(ScheduleError::InsufficientAvailableTokens)
        } else {
            None
        }
    }

    /// Why releasing `amount` of the locked `asset` of vault `id` is refused,
    /// if it is; `too_much` is the refusal of an amount above what is locked.
    pub open spec fn release_refusal(&self, id: u64, asset: AccountId, amount: i128, too_much: ScheduleError) -> Option<
        ScheduleError,
    > {
        if self.bridge_refusal(id, asset) is Some {
            self.bridge_refusal(id, asset)
        } else if amount > self.locked_of(id) {
            Some(too_much)
        } else {
            None
        }
    }

    /// Sets the collateral bridge.
    pub fn set_collateral_bridge(&mut self, bridge: &AccountId) -> (r: Result<(), ScheduleError>)
        ensures
            old(self).admin is None ==> r == Err::<(), ScheduleError>(ScheduleError::AdminNotSet) && *final(self)
                == *old(self),
            old(self).admin is Some ==> r is Ok && *final(self) == (VestingContract {
                collateral_bridge: Some(*bridge),
                ..*old(self)
            }),
    {
        if self.admin.is_none() {
            return Err(ScheduleError::AdminNotSet);
        }
        self.collateral_bridge = Some(*bridge);
        Ok(())
    }

    /// Sets the locked amount of vault `id`'s asset to `locked`.
    fn set_locked(&mut self, id: u64, locked: i128)
        requires
            old(self).wf(),
            old(self).vaults@.contains_key(id),
        ensures
            final(self).wf(),
            old(self).relocked(*final(self), id, locked as int),
    {
        let vault = self.vaults.remove(&id).unwrap();
        let Vault {
            allocations,
            keeper_fee,
            staked_amount,
            owner,
            delegate,
            title,
            start_time,
            end_time,
            creation_time,
            step_duration,
            is_initialized,
            is_irrevocable,
            is_transferable,
            is_frozen,
        } = vault;
        let a = allocations[0];
        let mut updated: Vec<AssetAllocation> = Vec::new();
        updated.push(AssetAllocation { locked_amount: locked, ..a });
        self.vaults.insert(
            id,
            Vault {
                allocations: updated,
                keeper_fee,
                staked_amount,
                owner,
                delegate,
                title,
                start_time,
                end_time,
                creation_time,
                step_duration,
                is_initialized,
                is_irrevocable,
                is_transferable,
                is_frozen,
            },
        );
        assert(self.vaults@ =~= old(self).vaults@.insert(id, self.vaults@[id]));
    }

    /// Checks that the bridge can act on `asset` of vault `id`.
    fn check_bridge(&self, id: u64, asset: &AccountId) -> (r: Result<(), ScheduleError>)
        requires
            self.wf(),
        ensures
            match self.bridge_refusal(id, *asset) {
                Some(e) => r == Err::<(), ScheduleError>(e),
                None => r is Ok,
            },
    {
        if self.collateral_bridge.is_none() {
            return Err(ScheduleError::CollateralBridgeNotSet);
        }
        match self.vaults.get(&id) {
            None => Err(ScheduleError::VaultNotFound),
            Some(v) => {
                if !v.allocations[0].asset_id.same(asset) {
                    Err(ScheduleError::AssetNotFound)
                } else {
                    Ok(())
                }
            },
        }
    }

    /// Locks `amount` of `asset` in vault `id` as collateral (the bridge's
    /// signature is checked by the host).
    pub fn lock_tokens_for_asset(&mut self, id: u64, asset: &AccountId, amount: i128) -> (r: Result<(), ScheduleError>)
        requires
            old(self).wf(),
            old(self).bridge_refusal(id, *asset) is None ==> {
                let a = old(self).vaults@[id].allocations@[0];
                &&& i128::MIN <= a.total_amount - a.released_amount <= i128::MAX
                &&& i128::MIN <= old(self).available_of(id) <= i128::MAX
                &&& amount <= old(self).available_of(id) ==> i128::MIN <= old(self).locked_of(id) + amount <= i128::MAX
            },
        ensures
            final(self).wf(),
            old(self).lock_refusal(id, *asset, amount) matches Some(e) ==> r == Err::<(), ScheduleError>(e)
                && *final(self) == *old(self),
            old(self).lock_refusal(id, *asset, amount) is None ==> r is Ok && old(self).relocked(
                *final(self),
                id,
                old(self).locked_of(id) + amount,
            ),
    {
        self.check_bridge(id, asset)?;
        let a = self.vaults.get(&id).unwrap().allocations[0];
        let available = a.total_amount - a.released_amount - a.locked_amount;
        if amount > available {
            return Err(ScheduleError::InsufficientAvailableTokens);
        }
        self.set_locked(id, a.locked_amount + amount);
        Ok(())
    }

    /// Unlocks `amount` of the locked `asset` of vault `id` (the bridge's
    /// signature is checked by the host).
    pub fn unlock_tokens_for_asset(&mut self, id: u64, asset: &AccountId, amount: i128) -> (r: Result<(), ScheduleError>)
        requires
            old(self).wf(),
            old(self).release_refusal(id, *asset, amount, ScheduleError::UnlockExceedsLocked) is None
                ==> i128::MIN <= old(self).locked_of(id) - amount <= i128::MAX,
        ensures
            final(self).wf(),
            old(self).release_refusal(id, *asset, amount, ScheduleError::UnlockExceedsLocked) matches Some(e)
                ==> r == Err::<(), ScheduleError>(e) && *final(self) == *old(self),
            old(self).release_refusal(id, *asset, amount, ScheduleError::UnlockExceedsLocked) is None ==> r is Ok
                && old(self).relocked(*final(self), id, old(self).locked_of(id) - amount),
    {
        self.check_bridge(id, asset)?;
        let locked = self.vaults.get(&id).unwrap().allocations[0].locked_amount;
        if amount > locked {
            return Err(ScheduleError::UnlockExceedsLocked);
        }
        self.set_locked(id, locked - amount);
        Ok(())
    }

    /// A lender claims `amount` of the locked `asset` of vault `id` (the
    /// bridge's signature is checked, and the tokens paid, by the host).
    /// Returns the amount.
    pub fn claim_by_lender_for_asset(&mut self, id: u64, asset: &AccountId, amount: i128) -> (r: Result<i128, ScheduleError>)
        requires
            old(self).wf(),
            old(self).release_refusal(id, *asset, amount, ScheduleError::ClaimExceedsLocked) is None
                ==> i128::MIN <= old(self).locked_of(id) - amount <= i128::MAX,
        ensures
            final(self).wf(),
            old(self).release_refusal(id, *asset, amount, ScheduleError::ClaimExceedsLocked) matches Some(e)
                ==> r == Err::<i128, ScheduleError>(e) && *final(self) == *old(self),
            old(self).release_refusal(id, *asset, amount, ScheduleError::ClaimExceedsLocked) is None ==> r == Ok::<
                i128,
                ScheduleError,
            >(amount) && old(self).relocked(*final(self), id, old(self).locked_of(id) - amount),
    {
        self.check_bridge(id, asset)?;
        let locked = self.vaults.get(&id).unwrap().allocations[0].locked_amount;
        if amount > locked {
            return Err(ScheduleError::ClaimExceedsLocked);
        }
        self.set_locked(id, locked - amount);
        Ok(amount)
    }

    /// The asset of single-asset vault `id`.
    fn single_asset_of(&self, id: u64) -> (r: Result<AccountId, ScheduleError>)
        requires
            self.wf(),
        ensures
            !self.vaults@.contains_key(id) ==> r == Err::<AccountId, ScheduleError>(ScheduleError::VaultNotFound),
            self.vaults@.contains_key(id) ==> r == Ok::<AccountId, ScheduleError>(
                self.vaults@[id].allocations@[0].asset_id,
            ),
    {
        match self.vaults.get(&id) {
            None => Err(ScheduleError::VaultNotFound),
            Some(v) => {
                if v.allocations.len() != 1 {
                    return Err(ScheduleError::NotSingleAsset);
                }
                Ok(v.allocations[0].asset_id)
            },
        }
    }

    /// Locks `amount` of the asset of single-asset vault `id`.
    pub fn lock_tokens(&mut self, id: u64, amount: i128) -> (r: Result<(), ScheduleError>)
        requires
            old(self).wf(),
            old(self).vaults@.contains_key(id) && old(self).collateral_bridge is Some ==> {
                let a = old(self).vaults@[id].allocations@[0];
                &&& i128::MIN <= a.total_amount - a.released_amount <= i128::MAX
                &&& i128::MIN <= old(self).available_of(id) <= i128::MAX
                &&& amount <= old(self).available_of(id) ==> i128::MIN <= old(self).locked_of(id) + amount <= i128::MAX
            },
        ensures
            final(self).wf(),
            !old(self).vaults@.contains_key(id) ==> r == Err::<(), ScheduleError>(ScheduleError::VaultNotFound)
                && *final(self) == *old(self),
            old(self).vaults@.contains_key(id) ==> {
                let asset = old(self).vaults@[id].allocations@[0].asset_id;
                &&& old(self).lock_refusal(id, asset, amount) matches Some(e) ==> r == Err::<(), ScheduleError>(e)
                    && *final(self) == *old(self)
                &&& old(self).lock_refusal(id, asset, amount) is None ==> r is Ok && old(self).relocked(
                    *final(self),
                    id,
                    old(self).locked_of(id) + amount,
                )
            },
    {
        let asset = self.single_asset_of(id)?;
        self.lock_tokens_for_asset(id, &asset, amount)
    }

    /// Unlocks `amount` of the asset of single-asset vault `id`.
    pub fn unlock_tokens(&mut self, id: u64, amount: i128) -> (r: Result<(), ScheduleError>)
        requires
            old(self).wf(),
            old(self).vaults@.contains_key(id) && old(self).collateral_bridge is Some && amount <= old(
                self,
            ).locked_of(id) ==> i128::MIN <= old(self).locked_of(id) - amount <= i128::MAX,
        ensures
            final(self).wf(),
            !old(self).vaults@.contains_key(id) ==> r == Err::<(), ScheduleError>(ScheduleError::VaultNotFound)
                && *final(self) == *old(self),
            old(self).vaults@.contains_key(id) ==> {
                let asset = old(self).vaults@[id].allocations@[0].asset_id;
                let refusal = old(self).release_refusal(id, asset, amount, ScheduleError::UnlockExceedsLocked);
                &&& refusal matches Some(e) ==> r == Err::<(), ScheduleError>(e) && *final(self) == *old(self)
                &&& refusal is None ==> r is Ok && old(self).relocked(*final(self), id, old(self).locked_of(id) - amount)
            },
    {
        let asset = self.single_asset_of(id)?;
        self.unlock_tokens_for_asset(id, &asset, amount)
    }

    /// A lender claims `amount` of the locked asset of single-asset vault
    /// `id`; returns the amount.
    pub fn claim_by_lender(&mut self, id: u64, amount: i128) -> (r: Result<i128, ScheduleError>)
        requires
            old(self).wf(),
            old(self).vaults@.contains_key(id) && old(self).collateral_bridge is Some && amount <= old(
                self,
            ).locked_of(id) ==> i128::MIN <= old(self).locked_of(id) - amount <= i128::MAX,
        ensures
            final(self).wf(),
            !old(self).vaults@.contains_key(id) ==> r == Err::<i128, ScheduleError>(ScheduleError::VaultNotFound)
                && *final(self) == *old(self),
            old(self).vaults@.contains_key(id) ==> {
                let asset = old(self).vaults@[id].allocations@[0].asset_id;
                let refusal = old(self).release_refusal(id, asset, amount, ScheduleError::ClaimExceedsLocked);
                &&& refusal matches Some(e) ==> r == Err::<i128, ScheduleError>(e) && *final(self) == *old(self)
                &&& refusal is None ==> r == Ok::<i128, ScheduleError>(amount) && old(self).relocked(
                    *final(self),
                    id,
                    old(self).locked_of(id) - amount,
                )
            },
    {
        let asset = self.single_asset_of(id)?;
        self.claim_by_lender_for_asset(id, &asset, amount)
    }

    /// The statistics of vault `id` at `now`: what it holds, what it
    /// released, what has vested and not been released, and its number of
    /// assets.
    pub fn get_vault_statistics(&self, id: u64, now: u64) -> (r: Result<(i128, i128, i128, u32), ScheduleError>)
        requires
            self.wf(),
            self.vaults@.contains_key(id) ==> {
                &&& self.vesting_computable(id, now)
                &&& i128::MIN <= self.vested_amount(id, now) - self.vaults@[id].allocations@[0].released_amount
                    <= i128::MAX
            },
        ensures
            !self.vaults@.contains_key(id) ==> r == Err::<(i128, i128, i128, u32), ScheduleError>(
                ScheduleError::VaultNotFound,
            ),
            self.vaults@.contains_key(id) ==> {
                let a = self.vaults@[id].allocations@[0];
                r == Ok::<(i128, i128, i128, u32), ScheduleError>(
                    (
                        a.total_amount,
                        a.released_amount,
                        (self.vested_amount(id, now) - a.released_amount) as i128,
                        1,
                    ),
                )
            },
    {
        let a = match self.vaults.get(&id) {
            None => {
                return Err(ScheduleError::VaultNotFound);
            },
            Some(v) => v.allocations[0],
        };
        assert(self.single_asset_vault(id));
        let vested = self.get_claimable_amount(id, now)?;
        Ok((a.total_amount, a.released_amount, vested - a.released_amount, 1))
    }
}

} // verus!
