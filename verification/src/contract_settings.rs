//! Settings of the vesting contract that the admin keeps (the NFT minter,
//! the token whitelist, the metadata anchor), what is stored beside a vault
//! (its pause record, cliff, multiplier and basket), and building an asset
//! allocation.
use vstd::prelude::*;
use crate::account::AccountId;
use crate::governance::VestingContract;
use crate::oracle::{PerformanceCliff, PerformanceMultiplier};
use crate::schedules::{AssetAllocation, PausedVault, ScheduleError};

verus! {

/// Why an allocation of `total_amount` at `percentage` basis points is
/// refused, if it is.
pub open spec fn allocation_refusal(total_amount: i128, percentage: u32) -> Option<ScheduleError> {
    if total_amount <= 0 {
        Some(ScheduleError::NonPositiveAmount)
    } else if percentage == 0 || percentage > 10_000 {
        Some(ScheduleError::InvalidAssetPercentage)
    } else {
        None
    }
}

/// Builds the allocation of `total_amount` of `asset_id`, worth `percentage`
/// basis points of its basket, with nothing released or locked.
pub fn create_asset_allocation(asset_id: &AccountId, total_amount: i128, percentage: u32) -> (r: Result<
    AssetAllocation,
    ScheduleError,
>)
    ensures
        allocation_refusal(total_amount, percentage) matches Some(e) ==> r == Err::<AssetAllocation, ScheduleError>(
            e,
        ),
        allocation_refusal(total_amount, percentage) is None ==> r == Ok::<AssetAllocation, ScheduleError>(
            AssetAllocation { asset_id: *asset_id, total_amount, released_amount: 0, locked_amount: 0, percentage },
        ),
{
    if total_amount <= 0 {
        return Err(ScheduleError::NonPositiveAmount);
    }
    if percentage == 0 || percentage > 10_000 {
        return Err(ScheduleError::InvalidAssetPercentage);
    }
    Ok(AssetAllocation { asset_id: *asset_id, total_amount, released_amount: 0, locked_amount: 0, percentage })
}

impl VestingContract {
    /// Sets the minter of vesting status NFTs.
    pub fn set_nft_minter(&mut self, minter: &AccountId) -> (r: Result<(), ScheduleError>)
        ensures
            old(self).admin is None ==> r == Err::<(), ScheduleError>(ScheduleError::AdminNotSet) && *final(self)
                == *old(self),
            old(self).admin is Some ==> r is Ok && *final(self) == (VestingContract {
                nft_minter: Some(*minter),
                ..*old(self)
            }),
    {
        if self.admin.is_none() {
            return Err(ScheduleError::AdminNotSet);
        }
        self.nft_minter = Some(*minter);
        Ok(())
    }

    /// Admits `token` to vault baskets.
    pub fn add_to_whitelist(&mut self, token: &AccountId) -> (r: Result<(), ScheduleError>)
        requires
            old(self).wf(),
        ensures
            final(self).wf(),
            old(self).admin is None ==> r == Err::<(), ScheduleError>(ScheduleError::AdminNotSet) && *final(self)
                == *old(self),
            old(self).admin is Some ==> r is Ok && *final(self) == (VestingContract {
                whitelisted_tokens: final(self).whitelisted_tokens,
                ..*old(self)
            }) && final(self).whitelisted_tokens@ == old(self).whitelisted_tokens@.insert(*token, true),
    {
        if self.admin.is_none() {
            return Err(ScheduleError::AdminNotSet);
        }
        self.whitelisted_tokens.insert(*token, true);
        Ok(())
    }

    /// Sets the content id of the off-chain metadata.
    pub fn set_metadata_anchor(&mut self, cid: String) -> (r: Result<(), ScheduleError>)
        ensures
            old(self).admin is None ==> r == Err::<(), ScheduleError>(ScheduleError::AdminNotSet) && *final(self)
                == *old(self),
            old(self).admin is Some ==> r is Ok && *final(self) == (VestingContract {
                metadata_anchor: final(self).metadata_anchor,
                ..*old(self)
            }) && final(self).metadata_anchor@ == cid@,
    {
        if self.admin.is_none() {
            return Err(ScheduleError::AdminNotSet);
        }
        self.metadata_anchor = cid;
        Ok(())
    }

    /// The content id of the off-chain metadata; empty until set.
    pub fn get_metadata_anchor(&self) -> (r: &String)
        ensures
            r@ == self.metadata_anchor@,
    {
        &self.metadata_anchor
    }

    /// The pause record of vault `id`, if its schedule is paused.
    pub fn get_paused_vault_info(&self, id: u64) -> (r: Option<&PausedVault>)
        requires
            self.wf(),
        ensures
            match r {
                Some(p) => self.paused_vaults@.contains_key(id) && *p == self.paused_vaults@[id],
                None => !self.paused_vaults@.contains_key(id),
            },
    {
        self.paused_vaults.get(&id)
    }

    /// The performance cliff of vault `id`, if one was set.
    pub fn get_performance_cliff(&self, id: u64) -> (r: Option<&PerformanceCliff>)
        requires
            self.wf(),
        ensures
            match r {
                Some(c) => self.performance_cliffs@.contains_key(id) && *c == self.performance_cliffs@[id],
                None => !self.performance_cliffs@.contains_key(id),
            },
    {
        self.performance_cliffs.get(&id)
    }

    /// The performance multiplier of vault `id`, if one was set.
    pub fn get_vesting_multiplier(&self, id: u64) -> (r: Option<&PerformanceMultiplier>)
        requires
            self.wf(),
        ensures
            match r {
                Some(m) => self.vesting_multipliers@.contains_key(id) && *m == self.vesting_multipliers@[id],
                None => !self.vesting_multipliers@.contains_key(id),
            },
    {
        self.vesting_multipliers.get(&id)
    }

    /// The asset basket of vault `id`.
    pub fn get_vault_asset_basket(&self, id: u64) -> (r: Result<&Vec<AssetAllocation>, ScheduleError>)
        requires
            self.wf(),
        ensures
            !self.vaults@.contains_key(id) ==> r == Err::<&Vec<AssetAllocation>, ScheduleError>(
                ScheduleError::VaultNotFound,
            ),
            self.vaults@.contains_key(id) ==> r is Ok && r->Ok_0@ == self.vaults@[id].allocations@,
    {
        match self.vaults.get(&id) {
            Some(v) => Ok(&v.allocations),
            None => Err(ScheduleError::VaultNotFound),
        }
    }
}

} // verus!
