//! Vesting schedules of the vesting contract: single-asset vaults that vest
//! linearly or in steps between a start and an end time, or by unlocked
//! milestones; a paused schedule stops vesting at its pause time, a global
//! acceleration moves every schedule forward, a performance cliff holds
//! vesting back until its conditions hold, and a performance multiplier
//! scales what vested, up to the allocation.
use vstd::prelude::*;
use vstd::string::StringExecFns;
use crate::account::AccountId;
use crate::arith::{trunc_div, div_toward_zero, lemma_trunc_div_bounded};
use crate::governance::VestingContract;
use crate::table::copy_vec;
use crate::laws::{plain_schedule, law_acceleration_shifts_by_a_share_of_the_duration};
use crate::oracle::{OracleClient, PerformanceCliff, PerformanceMultiplier, cliff_passed, multiplier_in_force};

verus! {

/// Longest schedule: ten years, in seconds.
pub const MAX_DURATION: u64 = 315_360_000;

/// Longest wait before a linear schedule starts, in basis points of the time
/// from its creation to its end: 50%.
pub const MAX_CLIFF_JUMP_BPS: u64 = 5000;

/// One asset of a vault and how much of it was released.
#[derive(Clone, Copy, Debug)]
pub struct AssetAllocation {
    pub asset_id: AccountId,
    pub total_amount: i128,
    pub released_amount: i128,
    /// Locked for collateral liens.
    pub locked_amount: i128,
    /// Share of the vault, in basis points.
    pub percentage: u32,
}

/// A vesting vault.
#[derive(Debug)]
pub struct Vault {
    pub allocations: Vec<AssetAllocation>,
    pub keeper_fee: i128,
    pub staked_amount: i128,
    pub owner: AccountId,
    pub delegate: Option<AccountId>,
    pub title: String,
    pub start_time: u64,
    pub end_time: u64,
    pub creation_time: u64,
    pub step_duration: u64,
    pub is_initialized: bool,
    pub is_irrevocable: bool,
    pub is_transferable: bool,
    pub is_frozen: bool,
}

/// A milestone of a milestone-vested vault.
#[derive(Clone, Copy, Debug)]
pub struct Milestone {
    pub id: u64,
    pub percentage: u32,
    pub is_unlocked: bool,
}

/// A vault whose schedule was paused, and when.
#[derive(Debug)]
pub struct PausedVault {
    pub vault_id: u64,
    pub pause_timestamp: u64,
    pub pause_authority: AccountId,
    pub reason: String,
}

/// Why a schedule operation was refused.
#[derive(Clone, Copy, Debug, PartialEq, Eq, Structural)]
pub enum ScheduleError {
    /// No admin was set.
    AdminNotSet,
    /// No token was set.
    TokenNotSet,
    /// The token was set already.
    TokenAlreadySet,
    /// The end time is not after the start time.
    InvalidDuration,
    /// The schedule is longer than `MAX_DURATION`.
    DurationTooLong,
    /// The admin's balance cannot fund the vault.
    InsufficientAdminBalance,
    /// No vault has that id.
    VaultNotFound,
    /// The contract is paused.
    Paused,
    /// The vault is frozen.
    VaultFrozen,
    /// The vault was created lazily and not initialized.
    VaultNotInitialized,
    /// The vault's schedule is paused.
    VaultSchedulePaused,
    /// The vault holds more than one asset.
    NotSingleAsset,
    /// More was asked than has vested and not been released.
    InsufficientVestedTokens,
    /// The milestones' percentages add up to more than 100.
    MilestonesOverHundred,
    /// No milestone has that id.
    MilestoneNotFound,
    /// The vault's schedule is paused already.
    VaultAlreadyPaused,
    /// The vault's schedule is not paused.
    VaultNotPaused,
    /// An acceleration above 100%.
    PercentageOutOfRange,
    /// A linear schedule would wait more than half of its time before it
    /// starts, and then jump.
    CliffJumpTooLarge,
    /// The vault is irrevocable.
    VaultIrrevocable,
    /// Everything in the vault has vested already.
    NothingToSlash,
    /// No collateral bridge was set.
    CollateralBridgeNotSet,
    /// The vault holds no such asset.
    AssetNotFound,
    /// More was to be locked than is neither released nor locked.
    InsufficientAvailableTokens,
    /// More was to be unlocked than is locked.
    UnlockExceedsLocked,
    /// A lender claimed more than is locked.
    ClaimExceedsLocked,
    /// An allocation of nothing or less.
    NonPositiveAmount,
    /// An allocation's share outside 1..=10000 basis points.
    InvalidAssetPercentage,
}

/// A linear schedule (`step == 0`) created at `now` waits longer before its
/// `start` than `MAX_CLIFF_JUMP_BPS` of the time from `now` to its `end`.
pub open spec fn cliff_jump_too_large(start: u64, end: u64, step: u64, now: u64) -> bool {
    step == 0 && start > now && (start - now) * 10_000 > MAX_CLIFF_JUMP_BPS * (end - now)
}

/// What vested at time `t` of `total` under a schedule from `start` to `end`
/// that releases continuously (`step == 0`) or in whole steps of `step`
/// seconds; rounded toward zero.
pub open spec fn linear_vested(total: i128, start: u64, end: u64, step: u64, t: int) -> int {
    if t <= start {
        0
    } else if t >= end {
        total as int
    } else {
        let duration = end - start;
        let elapsed = t - start;
        if step > 0 {
            let steps = duration / (step as int);
            if steps > 0 {
                trunc_div(total * (elapsed / (step as int)), steps)
            } else {
                0
            }
        } else {
            trunc_div(total * elapsed, duration)
        }
    }
}

/// The percentage of unlocked milestones, in the order they are listed.
pub open spec fn unlocked_percentage(ms: Seq<Milestone>) -> int
    decreases ms.len(),
{
    if ms.len() == 0 {
        0
    } else {
        unlocked_percentage(ms.drop_last()) + if ms.last().is_unlocked {
            ms.last().percentage as int
        } else {
            0
        }
    }
}

/// The sum of the milestones' percentages.
pub open spec fn milestone_total(ms: Seq<Milestone>) -> int
    decreases ms.len(),
{
    if ms.len() == 0 {
        0
    } else {
        milestone_total(ms.drop_last()) + ms.last().percentage
    }
}

/// A milestone, unlocked when its id is `milestone_id`.
pub open spec fn unlocked_if(m: Milestone, milestone_id: u64) -> Milestone {
    if m.id == milestone_id {
        Milestone { is_unlocked: true, ..m }
    } else {
        m
    }
}

/// What vested of `total` under milestones: the unlocked percentage, capped
/// at 100.
pub open spec fn milestone_vested(total: i128, ms: Seq<Milestone>) -> int {
    let pct = if unlocked_percentage(ms) > 100 {
        100
    } else {
        unlocked_percentage(ms)
    };
    trunc_div(total * pct, 100)
}

impl VestingContract {
    /// The moment the schedule of vault `id` is read at: its pause time when
    /// paused, otherwise `now` moved forward by the global acceleration.
    pub open spec fn schedule_time(&self, id: u64, now: u64) -> int {
        let v = self.vaults@[id];
        if self.paused_vaults@.contains_key(id) {
            self.paused_vaults@[id].pause_timestamp as int
        } else if self.acceleration_pct > 0 {
            now + (((v.end_time - v.start_time) * self.acceleration_pct / 100) as u64)
        } else {
            now as int
        }
    }

    /// What vested of the first asset of vault `id` before any multiplier.
    pub open spec fn base_vested(&self, id: u64, now: u64) -> int {
        let v = self.vaults@[id];
        let total = v.allocations@[0].total_amount;
        if self.paused_vaults@.contains_key(id) || !self.vault_milestones@.contains_key(id) {
            linear_vested(total, v.start_time, v.end_time, v.step_duration, self.schedule_time(id, now))
        } else {
            milestone_vested(total, self.vault_milestones@[id]@)
        }
    }

    /// What vested of the first asset of vault `id` at `now`: nothing before
    /// its performance cliff opens, and with a multiplier at most the
    /// allocation.
    pub open spec fn vested_amount(&self, id: u64, now: u64) -> int {
        let v = self.vaults@[id];
        let total = v.allocations@[0].total_amount;
        if self.performance_cliffs@.contains_key(id) && !cliff_passed(self.performance_cliffs@[id], now) {
            0
        } else if self.vesting_multipliers@.contains_key(id) {
            let m = trunc_div(self.base_vested(id, now) * multiplier_in_force(self.vesting_multipliers@[id]), 10_000);
            if m > total {
                total as int
            } else {
                m
            }
        } else {
            self.base_vested(id, now)
        }
    }

    /// Every step of `vested_amount` for vault `id` at `now` stays within 128
    /// bits (the contract aborts otherwise).
    pub open spec fn vesting_computable(&self, id: u64, now: u64) -> bool {
        let v = self.vaults@[id];
        let total = v.allocations@[0].total_amount;
        let duration = v.end_time - v.start_time;
        let t = self.schedule_time(id, now);
        &&& v.start_time < v.end_time
        &&& !self.paused_vaults@.contains_key(id) && self.acceleration_pct > 0 ==> duration * self.acceleration_pct
            <= i128::MAX && now + duration * self.acceleration_pct / 100 <= u64::MAX
        &&& (self.paused_vaults@.contains_key(id) || !self.vault_milestones@.contains_key(id)) ==> (v.start_time < t
            < v.end_time ==> if v.step_duration > 0 {
            i128::MIN <= total * ((t - v.start_time) / (v.step_duration as int)) <= i128::MAX
        } else {
            i128::MIN <= total * (t - v.start_time) <= i128::MAX
        })
        &&& (!self.paused_vaults@.contains_key(id) && self.vault_milestones@.contains_key(id)) ==> ({
            let ms = self.vault_milestones@[id]@;
            &&& forall|k: int| 0 <= k <= ms.len() ==> #[trigger] unlocked_percentage(ms.take(k)) <= u32::MAX
            &&& i128::MIN <= total * 100 <= i128::MAX
        })
        &&& self.vesting_multipliers@.contains_key(id) ==> i128::MIN <= self.base_vested(id, now)
            * multiplier_in_force(self.vesting_multipliers@[id]) <= i128::MAX
    }

    /// The vault is stored, holds one asset, and its vesting is computable.
    pub open spec fn single_asset_vault(&self, id: u64) -> bool {
        self.vaults@.contains_key(id) && self.vaults@[id].allocations@.len() == 1
    }

    /// The milestones of vault `id`, none when none were set.
    pub open spec fn milestones_of(&self, id: u64) -> Seq<Milestone> {
        if self.vault_milestones@.contains_key(id) {
            self.vault_milestones@[id]@
        } else {
            Seq::empty()
        }
    }

    /// Vault `id` has a milestone with id `milestone_id`.
    pub open spec fn has_milestone(&self, id: u64, milestone_id: u64) -> bool {
        exists|j: int| 0 <= j < self.milestones_of(id).len() && #[trigger] self.milestones_of(id)[j].id == milestone_id
    }

    /// A claim from vault `id` gets as far as computing what vested.
    pub open spec fn claim_reaches_vesting(&self, id: u64) -> bool {
        &&& !self.is_paused
        &&& self.single_asset_vault(id)
        &&& !self.vaults@[id].is_frozen
        &&& self.vaults@[id].is_initialized
        &&& !self.paused_vaults@.contains_key(id)
    }

    /// Why claiming `claim_amount` from vault `id` at `now` is refused, if it is.
    pub open spec fn claim_refusal(&self, id: u64, claim_amount: i128, now: u64) -> Option<ScheduleError> {
        if self.is_paused {
            Some(ScheduleError::Paused)
        } else if !self.vaults@.contains_key(id) {
            Some(ScheduleError::VaultNotFound)
        } else if self.vaults@[id].is_frozen {
            Some(ScheduleError::VaultFrozen)
        } else if !self.vaults@[id].is_initialized {
            Some(ScheduleError::VaultNotInitialized)
        } else if self.paused_vaults@.contains_key(id) {
            Some(ScheduleError::VaultSchedulePaused)
        } else if self.vaults@[id].allocations@.len() != 1 {
            Some(ScheduleError::NotSingleAsset)
        } else if claim_amount > self.vested_amount(id, now) - self.vaults@[id].allocations@[0].released_amount {
            Some(ScheduleError::InsufficientVestedTokens)
        } else {
            None
        }
    }

    /// `after` is `self` once vault `id` released `amount` more, with nothing
    /// else changed.
    pub open spec fn released_into(&self, after: Self, id: u64, amount: i128) -> bool {
        let v = self.vaults@[id];
        let a = v.allocations@[0];
        let w = after.vaults@[id];
        &&& after == (VestingContract { vaults: after.vaults, ..*self })
        &&& after.vaults@.dom() == self.vaults@.dom()
        &&& forall|k: u64| k != id && #[trigger] self.vaults@.contains_key(k) ==> after.vaults@[k] == self.vaults@[k]
        &&& w == (Vault { allocations: w.allocations, title: w.title, ..v })
        &&& w.title@ == v.title@
        &&& w.allocations@ == seq![AssetAllocation { released_amount: (a.released_amount + amount) as i128, ..a }]
    }

    /// Why creating at `now` a vault of `amount` from `start_time` to
    /// `end_time` in steps of `step_duration` is refused, if it is; `funded`
    /// says whether the admin's balance pays.
    pub open spec fn creation_refusal(
        &self,
        amount: i128,
        start_time: u64,
        end_time: u64,
        step_duration: u64,
        funded: bool,
        now: u64,
    ) -> Option<ScheduleError> {
        if self.admin is None {
            Some(ScheduleError::AdminNotSet)
        } else if self.token is None {
            Some(ScheduleError::TokenNotSet)
        } else if funded && self.admin_balance < amount {
            Some(ScheduleError::InsufficientAdminBalance)
        } else if end_time <= start_time {
            Some(ScheduleError::InvalidDuration)
        } else if end_time - start_time > MAX_DURATION {
            Some(ScheduleError::DurationTooLong)
        } else if cliff_jump_too_large(start_time, end_time, step_duration, now) {
            Some(ScheduleError::CliffJumpTooLarge)
        } else {
            None
        }
    }

    /// Sets the token that new vaults hold; only once.
    pub fn set_token(&mut self, token: &AccountId) -> (r: Result<(), ScheduleError>)
        ensures
            old(self).admin is None ==> r == Err::<(), ScheduleError>(ScheduleError::AdminNotSet) && *final(self)
                == *old(self),
            old(self).admin is Some && old(self).token is Some ==> r == Err::<(), ScheduleError>(
                ScheduleError::TokenAlreadySet,
            ) && *final(self) == *old(self),
            old(self).admin is Some && old(self).token is None ==> r is Ok && *final(self) == (VestingContract {
                token: Some(*token),
                ..*old(self)
            }),
    {
        if self.admin.is_none() {
            return Err(ScheduleError::AdminNotSet);
        }
        if self.token.is_some() {
            return Err(ScheduleError::TokenAlreadySet);
        }
        self.token = Some(*token);
        Ok(())
    }

    /// What vault `id` holds, released or not, when it was funded.
    pub open spec fn funded_amount(&self, id: u64) -> int {
        if self.vaults@.contains_key(id) && self.vaults@[id].is_initialized {
            self.vaults@[id].allocations@[0].total_amount as int
        } else {
            0
        }
    }

    /// What the funded vaults with ids `1..=n` hold, released or not.
    pub open spec fn funded_up_to(&self, n: u64) -> int
        decreases n,
    {
        if n == 0 {
            0
        } else {
            self.funded_up_to((n - 1) as u64) + self.funded_amount(n)
        }
    }

    /// The admin's balance together with what the funded vaults hold, locked
    /// or claimed.
    pub open spec fn accounted_supply(&self) -> int {
        self.admin_balance + self.funded_up_to(self.vault_count)
    }

    /// `after` is `self` once the next vault was created at `now` for
    /// `owner`, holding `amount` of the token on the given schedule; a
    /// `funded` vault is paid from the admin's balance and initialized, the
    /// others are not. No other vault changes.
    pub open spec fn vault_created(
        &self,
        after: Self,
        owner: AccountId,
        amount: i128,
        start_time: u64,
        end_time: u64,
        keeper_fee: i128,
        is_revocable: bool,
        is_transferable: bool,
        step_duration: u64,
        funded: bool,
        now: u64,
    ) -> bool {
        let id = (self.vault_count + 1) as u64;
        let v = after.vaults@[id];
        &&& after.vault_count == id
        &&& after.admin_balance == if funded {
            (self.admin_balance - amount) as i128
        } else {
            self.admin_balance
        }
        &&& after.total_shares == (self.total_shares + amount) as i128
        &&& after.vaults@.dom() == self.vaults@.dom().insert(id)
        &&& forall|k: u64| k != id && #[trigger] self.vaults@.contains_key(k) ==> after.vaults@[k] == self.vaults@[k]
        &&& v.allocations@ == seq![
            AssetAllocation {
                asset_id: self.token.unwrap(),
                total_amount: amount,
                released_amount: 0,
                locked_amount: 0,
                percentage: 10_000,
            },
        ]
        &&& v.keeper_fee == keeper_fee && v.staked_amount == 0 && v.owner == owner && v.delegate is None
        &&& v.title@ == ""@ && v.start_time == start_time && v.end_time == end_time
        &&& v.creation_time == now && v.step_duration == step_duration && v.is_initialized == funded
        &&& v.is_irrevocable == !is_revocable && v.is_transferable == is_transferable && !v.is_frozen
    }

    /// Creates a single-asset vault of `amount` of the token for `owner`;
    /// `funded` vaults are paid from the admin's balance and initialized at
    /// once, the others are created lazily. Returns the new vault's id.
    fn create_single_asset_vault(
        &mut self,
        owner: &AccountId,
        amount: i128,
        start_time: u64,
        end_time: u64,
        keeper_fee: i128,
        is_revocable: bool,
        is_transferable: bool,
        step_duration: u64,
        funded: bool,
        now: u64,
    ) -> (r: Result<u64, ScheduleError>)
        requires
            old(self).wf(),
            old(self).creation_refusal(amount, start_time, end_time, step_duration, funded, now) is None ==> {
                &&& old(self).vault_count < u64::MAX
                &&& funded ==> i128::MIN <= old(self).admin_balance - amount <= i128::MAX
                &&& i128::MIN <= old(self).total_shares + amount <= i128::MAX
            },
        ensures
            final(self).wf(),
            old(self).creation_refusal(amount, start_time, end_time, step_duration, funded, now) matches Some(e) ==> r == Err::<
                u64,
                ScheduleError,
            >(e) && *final(self) == *old(self),
            old(self).creation_refusal(amount, start_time, end_time, step_duration, funded, now) is None ==> {
                let id = (old(self).vault_count + 1) as u64;
                &&& r == Ok::<u64, ScheduleError>(id)
                &&& *final(self) == (VestingContract {
                    vault_count: final(self).vault_count,
                    admin_balance: final(self).admin_balance,
                    total_shares: final(self).total_shares,
                    vaults: final(self).vaults,
                    ..*old(self)
                })
                &&& old(self).vault_created(
                    *final(self),
                    *owner,
                    amount,
                    start_time,
                    end_time,
                    keeper_fee,
                    is_revocable,
                    is_transferable,
                    step_duration,
                    funded,
                    now,
                )
            },
    {
        if self.admin.is_none() {
            return Err(ScheduleError::AdminNotSet);
        }
        let token = match self.token {
            Some(t) => t,
            None => {
                return Err(ScheduleError::TokenNotSet);
            },
        };
        if funded && self.admin_balance < amount {
            return Err(ScheduleError::InsufficientAdminBalance);
        }
        if end_time <= start_time {
            return Err(ScheduleError::InvalidDuration);
        }
        if end_time - start_time > MAX_DURATION {
            return Err(ScheduleError::DurationTooLong);
        }
        if step_duration == 0 && start_time > now {
            let cliff = (start_time - now) as u128;
            let span = (end_time - now) as u128;
            if cliff * 10_000 > (MAX_CLIFF_JUMP_BPS as u128) * span {
                return Err(ScheduleError::CliffJumpTooLarge);
            }
        }
        if funded {
            self.admin_balance = self.admin_balance - amount;
        }
        let id = self.vault_count + 1;
        self.vault_count = id;
        let mut allocations: Vec<AssetAllocation> = Vec::new();
        allocations.push(AssetAllocation {
            asset_id: token,
            total_amount: amount,
            released_amount: 0,
            locked_amount: 0,
            percentage: 10_000,
        });
        let vault = Vault {
            allocations,
            keeper_fee,
            staked_amount: 0,
            owner: *owner,
            delegate: None,
            title: String::from_str(""),
            start_time,
            end_time,
            creation_time: now,
            step_duration,
            is_initialized: funded,
            is_irrevocable: !is_revocable,
            is_transferable,
            is_frozen: false,
        };
        self.vaults.insert(id, vault);
        self.total_shares = self.total_shares + amount;
        Ok(id)
    }

    /// Creates a funded, initialized single-asset vault.
    pub fn create_vault_full(
        &mut self,
        owner: &AccountId,
        amount: i128,
        start_time: u64,
        end_time: u64,
        keeper_fee: i128,
        is_revocable: bool,
        is_transferable: bool,
        step_duration: u64,
        now: u64,
    ) -> (r: Result<u64, ScheduleError>)
        requires
            old(self).wf(),
            old(self).creation_refusal(amount, start_time, end_time, step_duration, true, now) is None ==> {
                &&& old(self).vault_count < u64::MAX
                &&& i128::MIN <= old(self).admin_balance - amount <= i128::MAX
                &&& i128::MIN <= old(self).total_shares + amount <= i128::MAX
            },
        ensures
            final(self).wf(),
            old(self).creation_refusal(amount, start_time, end_time, step_duration, true, now) matches Some(e) ==> r == Err::<
                u64,
                ScheduleError,
            >(e) && *final(self) == *old(self),
            old(self).creation_refusal(amount, start_time, end_time, step_duration, true, now) is None ==> {
                let id = (old(self).vault_count + 1) as u64;
                &&& r == Ok::<u64, ScheduleError>(id)
                &&& *final(self) == (VestingContract {
                    vault_count: final(self).vault_count,
                    admin_balance: final(self).admin_balance,
                    total_shares: final(self).total_shares,
                    vaults: final(self).vaults,
                    ..*old(self)
                })
                &&& old(self).vault_created(
                    *final(self),
                    *owner,
                    amount,
                    start_time,
                    end_time,
                    keeper_fee,
                    is_revocable,
                    is_transferable,
                    step_duration,
                    true,
                    now,
                )
            },
    {
        self.create_single_asset_vault(
            owner,
            amount,
            start_time,
            end_time,
            keeper_fee,
            is_revocable,
            is_transferable,
            step_duration,
            true,
            now,
        )
    }

    /// Creates an unfunded single-asset vault, to be initialized later.
    pub fn create_vault_lazy(
        &mut self,
        owner: &AccountId,
        amount: i128,
        start_time: u64,
        end_time: u64,
        keeper_fee: i128,
        is_revocable: bool,
        is_transferable: bool,
        step_duration: u64,
        now: u64,
    ) -> (r: Result<u64, ScheduleError>)
        requires
            old(self).wf(),
            old(self).creation_refusal(amount, start_time, end_time, step_duration, false, now) is None ==> {
                &&& old(self).vault_count < u64::MAX
                &&& i128::MIN <= old(self).total_shares + amount <= i128::MAX
            },
        ensures
            final(self).wf(),
            old(self).creation_refusal(amount, start_time, end_time, step_duration, false, now) matches Some(e) ==> r == Err::<
                u64,
                ScheduleError,
            >(e) && *final(self) == *old(self),
            old(self).creation_refusal(amount, start_time, end_time, step_duration, false, now) is None ==> {
                let id = (old(self).vault_count + 1) as u64;
                &&& r == Ok::<u64, ScheduleError>(id)
                &&& *final(self) == (VestingContract {
                    vault_count: final(self).vault_count,
                    admin_balance: final(self).admin_balance,
                    total_shares: final(self).total_shares,
                    vaults: final(self).vaults,
                    ..*old(self)
                })
                &&& old(self).vault_created(
                    *final(self),
                    *owner,
                    amount,
                    start_time,
                    end_time,
                    keeper_fee,
                    is_revocable,
                    is_transferable,
                    step_duration,
                    false,
                    now,
                )
            },
    {
        self.create_single_asset_vault(
            owner,
            amount,
            start_time,
            end_time,
            keeper_fee,
            is_revocable,
            is_transferable,
            step_duration,
            false,
            now,
        )
    }

    /// `linear_vested`, computed.
    fn compute_linear_vested(total: i128, start: u64, end: u64, step: u64, t: u64) -> (r: i128)
        requires
            start < end,
            start < t < end ==> if step > 0 {
                i128::MIN <= total * ((t - start) / (step as int)) <= i128::MAX
            } else {
                i128::MIN <= total * (t - start) <= i128::MAX
            },
        ensures
            r == linear_vested(total, start, end, step, t as int),
    {
        if t <= start {
            return 0;
        }
        if t >= end {
            return total;
        }
        let duration = (end - start) as i128;
        let elapsed = (t - start) as i128;
        if step > 0 {
            let steps = duration / (step as i128);
            if steps > 0 {
                let completed = elapsed / (step as i128);
                let product = total * completed;
                proof {
                    lemma_trunc_div_bounded(product as int, steps as int);
                }
                return div_toward_zero(product, steps);
            }
            0
        } else {
            let product = total * elapsed;
            proof {
                lemma_trunc_div_bounded(product as int, duration as int);
            }
            div_toward_zero(product, duration)
        }
    }

    /// The unlocked percentage of a list of milestones.
    fn compute_unlocked_percentage(ms: &Vec<Milestone>) -> (r: u32)
        requires
            forall|k: int| 0 <= k <= ms@.len() ==> #[trigger] unlocked_percentage(ms@.take(k)) <= u32::MAX,
        ensures
            r == unlocked_percentage(ms@),
    {
        let mut pct: u32 = 0;
        let mut i: usize = 0;
        assert(ms@.take(0) =~= Seq::<Milestone>::empty());
        while i < ms.len()
            invariant
                0 <= i <= ms@.len(),
                forall|k: int| 0 <= k <= ms@.len() ==> #[trigger] unlocked_percentage(ms@.take(k)) <= u32::MAX,
                pct == unlocked_percentage(ms@.take(i as int)),
            decreases ms@.len() - i,
        {
            assert(ms@.take(i + 1).drop_last() =~= ms@.take(i as int));
            assert(unlocked_percentage(ms@.take(i + 1)) <= u32::MAX);
            if ms[i].is_unlocked {
                pct = pct + ms[i].percentage;
            }
            i = i + 1;
        }
        assert(ms@.take(ms@.len() as int) =~= ms@);
        pct
    }

    /// What vested of the single asset of vault `id` at `now`.
    fn calculate_claimable_for_asset(&self, id: u64, now: u64) -> (r: i128)
        requires
            self.wf(),
            self.single_asset_vault(id),
            self.vesting_computable(id, now),
        ensures
            r == self.vested_amount(id, now),
    {
        let vault = self.vaults.get(&id).unwrap();
        let total = vault.allocations[0].total_amount;
        if let Some(cliff) = self.performance_cliffs.get(&id) {
            if !OracleClient::is_cliff_passed(cliff, id, now) {
                return 0;
            }
        }
        let base: i128 = match self.paused_vaults.get(&id) {
            Some(paused) => Self::compute_linear_vested(
                total,
                vault.start_time,
                vault.end_time,
                vault.step_duration,
                paused.pause_timestamp,
            ),
            None => match self.vault_milestones.get(&id) {
                Some(ms) => {
                    let pct = Self::compute_unlocked_percentage(ms);
                    let capped: i128 = if pct > 100 {
                        100
                    } else {
                        pct as i128
                    };
                    assert(i128::MIN <= total * capped <= i128::MAX) by (nonlinear_arith)
                        requires i128::MIN <= total * 100 <= i128::MAX, 0 <= capped <= 100;
                    let product = total * capped;
                    proof {
                        lemma_trunc_div_bounded(product as int, 100);
                    }
                    div_toward_zero(product, 100)
                },
                None => {
                    let duration = vault.end_time - vault.start_time;
                    let t = if self.acceleration_pct > 0 {
                        let shift = ((duration as i128) * (self.acceleration_pct as i128) / 100) as u64;
                        now + shift
                    } else {
                        now
                    };
                    Self::compute_linear_vested(total, vault.start_time, vault.end_time, vault.step_duration, t)
                },
            },
        };
        match self.vesting_multipliers.get(&id) {
            Some(m) => {
                let bps = OracleClient::get_multiplier(m);
                let product = base * (bps as i128);
                proof {
                    lemma_trunc_div_bounded(product as int, 10_000);
                }
                let multiplied = div_toward_zero(product, 10_000);
                if multiplied > total {
                    total
                } else {
                    multiplied
                }
            },
            None => base,
        }
    }

    /// Whether the running unlocked percentages of `ms` all fit in 32 bits.
    fn unlocked_sums_fit(ms: &Vec<Milestone>) -> (r: bool)
        ensures
            r == (forall|k: int| 0 <= k <= ms@.len() ==> #[trigger] unlocked_percentage(ms@.take(k)) <= u32::MAX),
    {
        let mut pct: u64 = 0;
        let mut i: usize = 0;
        assert(ms@.take(0) =~= Seq::<Milestone>::empty());
        while i < ms.len()
            invariant
                0 <= i <= ms@.len(),
                pct == unlocked_percentage(ms@.take(i as int)),
                pct <= u32::MAX,
                forall|k: int| 0 <= k <= i ==> #[trigger] unlocked_percentage(ms@.take(k)) <= u32::MAX,
            decreases ms@.len() - i,
        {
            assert(ms@.take(i + 1).drop_last() =~= ms@.take(i as int));
            if ms[i].is_unlocked {
                pct = pct + ms[i].percentage as u64;
            }
            i = i + 1;
            if pct > 0xFFFF_FFFF {
                assert(unlocked_percentage(ms@.take(i as int)) > u32::MAX);
                return false;
            }
        }
        assert(ms@.take(ms@.len() as int) =~= ms@);
        true
    }

    /// Whether what vested of the single-asset vault `id` at `now` can be
    /// computed within 128 bits; the contract aborts where it cannot.
    pub fn check_vesting_computable(&self, id: u64, now: u64) -> (r: bool)
        requires
            self.wf(),
            self.single_asset_vault(id),
        ensures
            r == self.vesting_computable(id, now),
    {
        let vault = self.vaults.get(&id).unwrap();
        let total = vault.allocations[0].total_amount;
        if vault.start_time >= vault.end_time {
            return false;
        }
        let paused = self.paused_vaults.get(&id);
        let milestones = self.vault_milestones.get(&id);
        let duration = vault.end_time - vault.start_time;
        let t: u64 = match paused {
            Some(p) => p.pause_timestamp,
            None => if self.acceleration_pct > 0 {
                assert((duration as int) * (self.acceleration_pct as int) <= (duration as int) * 100) by (nonlinear_arith)
                    requires self.acceleration_pct <= 100, duration >= 0;
                let shift = ((duration as u128) * (self.acceleration_pct as u128) / 100) as u64;
                if (now as u128) + (shift as u128) > 0xFFFF_FFFF_FFFF_FFFF {
                    return false;
                }
                now + shift
            } else {
                now
            },
        };
        assert(t == self.schedule_time(id, now));
        let linear = paused.is_some() || milestones.is_none();
        if linear {
            if vault.start_time < t && t < vault.end_time {
                let elapsed = t - vault.start_time;
                let factor: u64 = if vault.step_duration > 0 {
                    elapsed / vault.step_duration
                } else {
                    elapsed
                };
                if total.checked_mul(factor as i128).is_none() {
                    return false;
                }
            }
        } else {
            let ms = milestones.unwrap();
            if !Self::unlocked_sums_fit(ms) {
                return false;
            }
            if total.checked_mul(100).is_none() {
                return false;
            }
        }
        match self.vesting_multipliers.get(&id) {
            None => true,
            Some(m) => {
                let base: i128 = if linear {
                    Self::compute_linear_vested(total, vault.start_time, vault.end_time, vault.step_duration, t)
                } else {
                    let pct = Self::compute_unlocked_percentage(milestones.unwrap());
                    let capped: i128 = if pct > 100 {
                        100
                    } else {
                        pct as i128
                    };
                    assert(i128::MIN <= total * capped <= i128::MAX) by (nonlinear_arith)
                        requires i128::MIN <= total * 100 <= i128::MAX, 0 <= capped <= 100;
                    let product = total * capped;
                    proof {
                        lemma_trunc_div_bounded(product as int, 100);
                    }
                    div_toward_zero(product, 100)
                };
                assert(base == self.base_vested(id, now));
                let bps = OracleClient::get_multiplier(m);
                base.checked_mul(bps as i128).is_some()
            },
        }
    }

    /// What has vested of vault `id` at `now`, across its asset.
    pub fn get_claimable_amount(&self, id: u64, now: u64) -> (r: Result<i128, ScheduleError>)
        requires
            self.wf(),
            self.single_asset_vault(id) ==> self.vesting_computable(id, now),
        ensures
            !self.vaults@.contains_key(id) ==> r == Err::<i128, ScheduleError>(ScheduleError::VaultNotFound),
            self.vaults@.contains_key(id) && !self.single_asset_vault(id) ==> r == Err::<i128, ScheduleError>(
                ScheduleError::NotSingleAsset,
            ),
            self.single_asset_vault(id) ==> r == Ok::<i128, ScheduleError>(self.vested_amount(id, now) as i128),
            r matches Ok(v) ==> v == self.vested_amount(id, now),
            self.single_asset_vault(id) && plain_schedule(*self, id) ==> ({
                let v = self.vaults@[id];
                r == Ok::<i128, ScheduleError>(
                    linear_vested(
                        v.allocations@[0].total_amount,
                        v.start_time,
                        v.end_time,
                        v.step_duration,
                        now + (v.end_time - v.start_time) * self.acceleration_pct / 100,
                    ) as i128,
                )
            }),
    {
        proof {
            if self.single_asset_vault(id) && plain_schedule(*self, id) {
                let v = self.vaults@[id];
                let d: int = v.end_time - v.start_time;
                let p: int = self.acceleration_pct as int;
                if p == 0 {
                    assert(d * p / 100 == 0) by (nonlinear_arith)
                        requires
                            p == 0,
                    ;
                }
                law_acceleration_shifts_by_a_share_of_the_duration(*self, id, now);
            }
        }
        match self.vaults.get(&id) {
            None => Err(ScheduleError::VaultNotFound),
            Some(v) => if v.allocations.len() != 1 {
                Err(ScheduleError::NotSingleAsset)
            } else {
                Ok(self.calculate_claimable_for_asset(id, now))
            },
        }
    }

    /// Releases `claim_amount` of the vested, unreleased tokens of vault `id`
    /// to its owner (the host transfers them) and returns the amount.
    pub fn claim_tokens(&mut self, id: u64, claim_amount: i128, now: u64) -> (r: Result<i128, ScheduleError>)
        requires
            old(self).wf(),
            old(self).claim_reaches_vesting(id) ==> {
                &&& old(self).vesting_computable(id, now)
                &&& i128::MIN <= old(self).vested_amount(id, now) - old(self).vaults@[id].allocations@[0].released_amount
                    <= i128::MAX
            },
            old(self).claim_refusal(id, claim_amount, now) is None ==> i128::MIN <= old(self).vaults@[id].allocations@[0].released_amount
                + claim_amount <= i128::MAX,
        ensures
            final(self).wf(),
            old(self).claim_refusal(id, claim_amount, now) matches Some(e) ==> r == Err::<i128, ScheduleError>(e)
                && *final(self) == *old(self),
            old(self).claim_refusal(id, claim_amount, now) is None ==> r == Ok::<i128, ScheduleError>(claim_amount)
                && old(self).released_into(*final(self), id, claim_amount),
    {
        if self.is_paused {
            return Err(ScheduleError::Paused);
        }
        match self.vaults.get(&id) {
            None => {
                return Err(ScheduleError::VaultNotFound);
            },
            Some(v) => {
                if v.is_frozen {
                    return Err(ScheduleError::VaultFrozen);
                }
                if !v.is_initialized {
                    return Err(ScheduleError::VaultNotInitialized);
                }
            },
        }
        if self.paused_vaults.contains_key(&id) {
            return Err(ScheduleError::VaultSchedulePaused);
        }
        let released = match self.vaults.get(&id) {
            Some(v) => {
                if v.allocations.len() != 1 {
                    return Err(ScheduleError::NotSingleAsset);
                }
                v.allocations[0].released_amount
            },
            None => {
                return Err(ScheduleError::VaultNotFound);
            },
        };
        let vested = self.calculate_claimable_for_asset(id, now);
        assert(old(self).vested_amount(id, now) == vested);
        if claim_amount > vested - released {
            return Err(ScheduleError::InsufficientVestedTokens);
        }
        let ghost before = self.vaults@[id];
        let vault = self.vaults.remove(&id).unwrap();
        let Vault {
            allocations,
            keeper_fee,
            staked_amount,
            owner,
            delegate,
            title,
            start_time,
            end_time,
            creation_time,
            step_duration,
            is_initialized,
            is_irrevocable,
            is_transferable,
            is_frozen,
        } = vault;
        let a = allocations[0];
        let mut updated: Vec<AssetAllocation> = Vec::new();
        updated.push(AssetAllocation { released_amount: a.released_amount + claim_amount, ..a });
        self.vaults.insert(
            id,
            Vault {
                allocations: updated,
                keeper_fee,
                staked_amount,
                owner,
                delegate,
                title,
                start_time,
                end_time,
                creation_time,
                step_duration,
                is_initialized,
                is_irrevocable,
                is_transferable,
                is_frozen,
            },
        );
        assert(self.vaults@ =~= old(self).vaults@.insert(id, self.vaults@[id]));
        Ok(claim_amount)
    }

    /// Sets the milestones of vault `id`; their percentages may add up to at
    /// most 100.
    pub fn set_milestones(&mut self, id: u64, milestones: Vec<Milestone>) -> (r: Result<(), ScheduleError>)
        requires
            old(self).wf(),
            forall|k: int| 0 <= k <= milestones@.len() ==> #[trigger] milestone_total(milestones@.take(k)) <= u32::MAX,
        ensures
            final(self).wf(),
            old(self).admin is None ==> r == Err::<(), ScheduleError>(ScheduleError::AdminNotSet) && *final(self)
                == *old(self),
            old(self).admin is Some && milestone_total(milestones@) > 100 ==> r == Err::<(), ScheduleError>(
                ScheduleError::MilestonesOverHundred,
            ) && *final(self) == *old(self),
            old(self).admin is Some && milestone_total(milestones@) <= 100 ==> {
                &&& r is Ok
                &&& *final(self) == (VestingContract { vault_milestones: final(self).vault_milestones, ..*old(self) })
                &&& final(self).vault_milestones@ == old(self).vault_milestones@.insert(id, milestones)
            },
    {
        if self.admin.is_none() {
            return Err(ScheduleError::AdminNotSet);
        }
        let mut total: u32 = 0;
        let mut i: usize = 0;
        assert(milestones@.take(0) =~= Seq::<Milestone>::empty());
        while i < milestones.len()
            invariant
                0 <= i <= milestones@.len(),
                forall|k: int| 0 <= k <= milestones@.len() ==> #[trigger] milestone_total(milestones@.take(k)) <= u32::MAX,
                total == milestone_total(milestones@.take(i as int)),
            decreases milestones@.len() - i,
        {
            assert(milestones@.take(i + 1).drop_last() =~= milestones@.take(i as int));
            assert(milestone_total(milestones@.take(i + 1)) <= u32::MAX);
            total = total + milestones[i].percentage;
            i = i + 1;
        }
        assert(milestones@.take(milestones@.len() as int) =~= milestones@);
        if total > 100 {
            return Err(ScheduleError::MilestonesOverHundred);
        }
        self.vault_milestones.insert(id, milestones);
        Ok(())
    }

    /// Marks milestone `milestone_id` of vault `id` unlocked.
    pub fn unlock_milestone(&mut self, id: u64, milestone_id: u64) -> (r: Result<(), ScheduleError>)
        requires
            old(self).wf(),
        ensures
            final(self).wf(),
            old(self).admin is None ==> r == Err::<(), ScheduleError>(ScheduleError::AdminNotSet) && *final(self)
                == *old(self),
            old(self).admin is Some && !old(self).has_milestone(id, milestone_id) ==> r == Err::<(), ScheduleError>(
                ScheduleError::MilestoneNotFound,
            ) && *final(self) == *old(self),
            old(self).admin is Some && old(self).has_milestone(id, milestone_id) ==> {
                &&& r is Ok
                &&& *final(self) == (VestingContract { vault_milestones: final(self).vault_milestones, ..*old(self) })
                &&& final(self).vault_milestones@.dom() == old(self).vault_milestones@.dom().insert(id)
                &&& forall|k: u64| k != id && #[trigger] old(self).vault_milestones@.contains_key(k)
                    ==> final(self).vault_milestones@[k] == old(self).vault_milestones@[k]
                &&& final(self).milestones_of(id).len() == old(self).milestones_of(id).len()
                &&& forall|j: int| 0 <= j < old(self).milestones_of(id).len() ==> #[trigger] final(self).milestones_of(id)[j]
                    == unlocked_if(old(self).milestones_of(id)[j], milestone_id)
            },
    {
        if self.admin.is_none() {
            return Err(ScheduleError::AdminNotSet);
        }
        let ghost ms = self.milestones_of(id);
        let mut found = false;
        let mut updated: Vec<Milestone> = Vec::new();
        let empty: Vec<Milestone> = Vec::new();
        let current = match self.vault_milestones.get(&id) {
            Some(v) => v,
            None => &empty,
        };
        assert(current@ == ms);
        let mut i: usize = 0;
        while i < current.len()
            invariant
                current@ == ms,
                0 <= i <= ms.len(),
                updated@.len() == i,
                forall|j: int| 0 <= j < i ==> #[trigger] updated@[j] == unlocked_if(ms[j], milestone_id),
                found == (exists|j: int| 0 <= j < i && #[trigger] ms[j].id == milestone_id),
            decreases ms.len() - i,
        {
            let m = current[i];
            if m.id == milestone_id {
                found = true;
                updated.push(Milestone { is_unlocked: true, ..m });
            } else {
                updated.push(m);
            }
            i = i + 1;
        }
        if !found {
            return Err(ScheduleError::MilestoneNotFound);
        }
        let ghost unlocked = updated@;
        self.vault_milestones.insert(id, updated);
        assert(self.vault_milestones@[id]@ == unlocked);
        Ok(())
    }

    /// Freezes or thaws vault `id`.
    pub fn freeze_vault(&mut self, id: u64, freeze: bool) -> (r: Result<(), ScheduleError>)
        requires
            old(self).wf(),
        ensures
            final(self).wf(),
            old(self).admin is None ==> r == Err::<(), ScheduleError>(ScheduleError::AdminNotSet) && *final(self)
                == *old(self),
            old(self).admin is Some && !old(self).vaults@.contains_key(id) ==> r == Err::<(), ScheduleError>(
                ScheduleError::VaultNotFound,
            ) && *final(self) == *old(self),
            old(self).admin is Some && old(self).vaults@.contains_key(id) ==> {
                &&& r is Ok
                &&& final(self).vaults@.dom() == old(self).vaults@.dom()
                &&& *final(self) == (VestingContract { vaults: final(self).vaults, ..*old(self) })
                &&& forall|k: u64| k != id && #[trigger] old(self).vaults@.contains_key(k) ==> final(self).vaults@[k]
                    == old(self).vaults@[k]
                &&& final(self).vaults@[id] == (Vault {
                    is_frozen: freeze,
                    allocations: final(self).vaults@[id].allocations,
                    title: final(self).vaults@[id].title,
                    ..old(self).vaults@[id]
                })
                &&& final(self).vaults@[id].allocations@ == old(self).vaults@[id].allocations@
                &&& final(self).vaults@[id].title@ == old(self).vaults@[id].title@
            },
    {
        if self.admin.is_none() {
            return Err(ScheduleError::AdminNotSet);
        }
        if !self.vaults.contains_key(&id) {
            return Err(ScheduleError::VaultNotFound);
        }
        match self.vaults.remove(&id) {
            None => Err(ScheduleError::VaultNotFound),
            Some(v) => {
                self.vaults.insert(id, Vault { is_frozen: freeze, ..v });
                assert(self.vaults@ =~= old(self).vaults@.insert(id, self.vaults@[id]));
                Ok(())
            },
        }
    }

    /// Makes vault `id` irrevocable.
    pub fn mark_irrevocable(&mut self, id: u64) -> (r: Result<(), ScheduleError>)
        requires
            old(self).wf(),
        ensures
            final(self).wf(),
            old(self).admin is None ==> r == Err::<(), ScheduleError>(ScheduleError::AdminNotSet) && *final(self)
                == *old(self),
            old(self).admin is Some && !old(self).vaults@.contains_key(id) ==> r == Err::<(), ScheduleError>(
                ScheduleError::VaultNotFound,
            ) && *final(self) == *old(self),
            old(self).admin is Some && old(self).vaults@.contains_key(id) ==> {
                &&& r is Ok
                &&& final(self).vaults@.dom() == old(self).vaults@.dom()
                &&& *final(self) == (VestingContract { vaults: final(self).vaults, ..*old(self) })
                &&& forall|k: u64| k != id && #[trigger] old(self).vaults@.contains_key(k) ==> final(self).vaults@[k]
                    == old(self).vaults@[k]
                &&& final(self).vaults@[id] == (Vault {
                    is_irrevocable: true,
                    allocations: final(self).vaults@[id].allocations,
                    title: final(self).vaults@[id].title,
                    ..old(self).vaults@[id]
                })
                &&& final(self).vaults@[id].allocations@ == old(self).vaults@[id].allocations@
                &&& final(self).vaults@[id].title@ == old(self).vaults@[id].title@
            },
    {
        if self.admin.is_none() {
            return Err(ScheduleError::AdminNotSet);
        }
        if !self.vaults.contains_key(&id) {
            return Err(ScheduleError::VaultNotFound);
        }
        match self.vaults.remove(&id) {
            None => Err(ScheduleError::VaultNotFound),
            Some(v) => {
                self.vaults.insert(id, Vault { is_irrevocable: true, ..v });
                assert(self.vaults@ =~= old(self).vaults@.insert(id, self.vaults@[id]));
                Ok(())
            },
        }
    }

    /// Stops the schedule of vault `id` at `now`; it vests no further until
    /// resumed.
    pub fn pause_specific_schedule(&mut self, id: u64, authority: &AccountId, reason: String, now: u64) -> (r: Result<(), ScheduleError>)
        requires
            old(self).wf(),
        ensures
            final(self).wf(),
            !old(self).vaults@.contains_key(id) ==> r == Err::<(), ScheduleError>(ScheduleError::VaultNotFound)
                && *final(self) == *old(self),
            old(self).vaults@.contains_key(id) && !old(self).vaults@[id].is_initialized ==> r == Err::<
                (),
                ScheduleError,
            >(ScheduleError::VaultNotInitialized) && *final(self) == *old(self),
            old(self).vaults@.contains_key(id) && old(self).vaults@[id].is_initialized && old(self).paused_vaults@.contains_key(id)
                ==> r == Err::<(), ScheduleError>(ScheduleError::VaultAlreadyPaused) && *final(self) == *old(self),
            old(self).vaults@.contains_key(id) && old(self).vaults@[id].is_initialized && !old(self).paused_vaults@.contains_key(id)
                ==> {
                &&& r is Ok
                &&& *final(self) == (VestingContract { paused_vaults: final(self).paused_vaults, ..*old(self) })
                &&& final(self).paused_vaults@ == old(self).paused_vaults@.insert(
                    id,
                    PausedVault { vault_id: id, pause_timestamp: now, pause_authority: *authority, reason },
                )
            },
    {
        match self.vaults.get(&id) {
            None => {
                return Err(ScheduleError::VaultNotFound);
            },
            Some(v) => {
                if !v.is_initialized {
                    return Err(ScheduleError::VaultNotInitialized);
                }
            },
        }
        if self.paused_vaults.contains_key(&id) {
            return Err(ScheduleError::VaultAlreadyPaused);
        }
        self.paused_vaults.insert(id, PausedVault { vault_id: id, pause_timestamp: now, pause_authority: *authority, reason });
        Ok(())
    }

    /// Lets the schedule of vault `id` run again.
    pub fn resume_specific_schedule(&mut self, id: u64) -> (r: Result<(), ScheduleError>)
        requires
            old(self).wf(),
        ensures
            final(self).wf(),
            !old(self).paused_vaults@.contains_key(id) ==> r == Err::<(), ScheduleError>(ScheduleError::VaultNotPaused)
                && *final(self) == *old(self),
            old(self).paused_vaults@.contains_key(id) ==> r is Ok && *final(self) == (VestingContract {
                paused_vaults: final(self).paused_vaults,
                ..*old(self)
            }) && final(self).paused_vaults@ == old(self).paused_vaults@.remove(id),
    {
        if !self.paused_vaults.contains_key(&id) {
            return Err(ScheduleError::VaultNotPaused);
        }
        self.paused_vaults.remove(&id);
        Ok(())
    }

    /// Names the account that may pause schedules.
    pub fn set_pause_authority(&mut self, authority: &AccountId) -> (r: Result<(), ScheduleError>)
        ensures
            old(self).admin is None ==> r == Err::<(), ScheduleError>(ScheduleError::AdminNotSet) && *final(self)
                == *old(self),
            old(self).admin is Some ==> r is Ok && *final(self) == (VestingContract {
                pause_authority: Some(*authority),
                ..*old(self)
            }),
    {
        if self.admin.is_none() {
            return Err(ScheduleError::AdminNotSet);
        }
        self.pause_authority = Some(*authority);
        Ok(())
    }

    /// The account that may pause schedules, if one was named.
    pub fn get_pause_authority(&self) -> (r: Option<AccountId>)
        ensures
            r == self.pause_authority,
    {
        self.pause_authority
    }

    /// Whether the schedule of vault `id` is paused.
    pub fn is_vault_paused(&self, id: u64) -> (r: bool)
        requires
            self.wf(),
        ensures
            r == self.paused_vaults@.contains_key(id),
    {
        self.paused_vaults.contains_key(&id)
    }

    /// The milestones of vault `id`, none when none were set.
    pub fn get_milestones(&self, id: u64) -> (r: Vec<Milestone>)
        requires
            self.wf(),
        ensures
            r@ == self.milestones_of(id),
    {
        match self.vault_milestones.get(&id) {
            Some(ms) => copy_vec(ms),
            None => Vec::new(),
        }
    }

    /// Vault `id`; refused when there is none.
    pub fn get_vault(&self, id: u64) -> (r: Result<&Vault, ScheduleError>)
        requires
            self.wf(),
        ensures
            self.vaults@.contains_key(id) ==> (r matches Ok(v) && *v == self.vaults@[id]),
            !self.vaults@.contains_key(id) ==> (r matches Err(e) && e == ScheduleError::VaultNotFound),
    {
        match self.vaults.get(&id) {
            Some(v) => Ok(v),
            None => Err(ScheduleError::VaultNotFound),
        }
    }

    /// Whether vault `id`'s cliff has opened at `now`: by its performance
    /// cliff when one is set, otherwise once `now` is past its start.
    pub fn is_cliff_passed(&self, id: u64, now: u64) -> (r: Result<bool, ScheduleError>)
        requires
            self.wf(),
        ensures
            self.performance_cliffs@.contains_key(id) ==> r == Ok::<bool, ScheduleError>(
                cliff_passed(self.performance_cliffs@[id], now),
            ),
            !self.performance_cliffs@.contains_key(id) && !self.vaults@.contains_key(id) ==> r == Err::<
                bool,
                ScheduleError,
            >(ScheduleError::VaultNotFound),
            !self.performance_cliffs@.contains_key(id) && self.vaults@.contains_key(id) ==> r == Ok::<
                bool,
                ScheduleError,
            >(now > self.vaults@[id].start_time),
    {
        if let Some(cliff) = self.performance_cliffs.get(&id) {
            return Ok(OracleClient::is_cliff_passed(cliff, id, now));
        }
        match self.vaults.get(&id) {
            Some(v) => Ok(now > v.start_time),
            None => Err(ScheduleError::VaultNotFound),
        }
    }

    /// Moves every schedule forward by `percentage` of its duration.
    pub fn accelerate_all_schedules(&mut self, percentage: u32) -> (r: Result<(), ScheduleError>)
        requires
            old(self).wf(),
        ensures
            final(self).wf(),
            old(self).admin is None ==> r == Err::<(), ScheduleError>(ScheduleError::AdminNotSet) && *final(self)
                == *old(self),
            old(self).admin is Some && percentage > 100 ==> r == Err::<(), ScheduleError>(
                ScheduleError::PercentageOutOfRange,
            ) && *final(self) == *old(self),
            old(self).admin is Some && percentage <= 100 ==> r is Ok && *final(self) == (VestingContract {
                acceleration_pct: percentage,
                ..*old(self)
            }),
    {
        if self.admin.is_none() {
            return Err(ScheduleError::AdminNotSet);
        }
        if percentage > 100 {
            return Err(ScheduleError::PercentageOutOfRange);
        }
        self.acceleration_pct = percentage;
        Ok(())
    }

    /// Sets the performance cliff of vault `id`.
    pub fn set_performance_cliff(&mut self, id: u64, cliff: PerformanceCliff) -> (r: Result<(), ScheduleError>)
        requires
            old(self).wf(),
        ensures
            final(self).wf(),
            old(self).admin is None ==> r == Err::<(), ScheduleError>(ScheduleError::AdminNotSet) && *final(self)
                == *old(self),
            old(self).admin is Some && !old(self).vaults@.contains_key(id) ==> r == Err::<(), ScheduleError>(
                ScheduleError::VaultNotFound,
            ) && *final(self) == *old(self),
            old(self).admin is Some && old(self).vaults@.contains_key(id) ==> r is Ok && *final(self) == (VestingContract {
                performance_cliffs: final(self).performance_cliffs,
                ..*old(self)
            }) && final(self).performance_cliffs@ == old(self).performance_cliffs@.insert(id, cliff),
    {
        if self.admin.is_none() {
            return Err(ScheduleError::AdminNotSet);
        }
        if !self.vaults.contains_key(&id) {
            return Err(ScheduleError::VaultNotFound);
        }
        self.performance_cliffs.insert(id, cliff);
        Ok(())
    }

    /// Creates a funded, initialized single-asset vault whose vesting waits
    /// for the performance cliff `cliff`.
    pub fn create_vault_with_cliff(
        &mut self,
        owner: &AccountId,
        amount: i128,
        start_time: u64,
        end_time: u64,
        keeper_fee: i128,
        is_revocable: bool,
        is_transferable: bool,
        step_duration: u64,
        cliff: PerformanceCliff,
        now: u64,
    ) -> (r: Result<u64, ScheduleError>)
        requires
            old(self).wf(),
            old(self).creation_refusal(amount, start_time, end_time, step_duration, true, now) is None ==> {
                &&& old(self).vault_count < u64::MAX
                &&& i128::MIN <= old(self).admin_balance - amount <= i128::MAX
                &&& i128::MIN <= old(self).total_shares + amount <= i128::MAX
            },
        ensures
            final(self).wf(),
            old(self).creation_refusal(amount, start_time, end_time, step_duration, true, now) matches Some(e)
                ==> r == Err::<u64, ScheduleError>(e) && *final(self) == *old(self),
            old(self).creation_refusal(amount, start_time, end_time, step_duration, true, now) is None ==> {
                let id = (old(self).vault_count + 1) as u64;
                &&& r == Ok::<u64, ScheduleError>(id)
                &&& *final(self) == (VestingContract {
                    vault_count: final(self).vault_count,
                    admin_balance: final(self).admin_balance,
                    total_shares: final(self).total_shares,
                    vaults: final(self).vaults,
                    performance_cliffs: final(self).performance_cliffs,
                    ..*old(self)
                })
                &&& old(self).vault_created(
                    *final(self),
                    *owner,
                    amount,
                    start_time,
                    end_time,
                    keeper_fee,
                    is_revocable,
                    is_transferable,
                    step_duration,
                    true,
                    now,
                )
                &&& final(self).performance_cliffs@ == old(self).performance_cliffs@.insert(id, cliff)
            },
    {
        let id = self.create_vault_full(
            owner,
            amount,
            start_time,
            end_time,
            keeper_fee,
            is_revocable,
            is_transferable,
            step_duration,
            now,
        )?;
        let set = self.set_performance_cliff(id, cliff);
        assert(set is Ok);
        Ok(id)
    }

    /// Sets the performance multiplier of vault `id`.
    pub fn set_vesting_multiplier(&mut self, id: u64, multiplier: PerformanceMultiplier) -> (r: Result<(), ScheduleError>)
        requires
            old(self).wf(),
        ensures
            final(self).wf(),
            old(self).admin is None ==> r == Err::<(), ScheduleError>(ScheduleError::AdminNotSet) && *final(self)
                == *old(self),
            old(self).admin is Some && !old(self).vaults@.contains_key(id) ==> r == Err::<(), ScheduleError>(
                ScheduleError::VaultNotFound,
            ) && *final(self) == *old(self),
            old(self).admin is Some && old(self).vaults@.contains_key(id) ==> r is Ok && *final(self) == (VestingContract {
                vesting_multipliers: final(self).vesting_multipliers,
                ..*old(self)
            }) && final(self).vesting_multipliers@ == old(self).vesting_multipliers@.insert(id, multiplier),
    {
        if self.admin.is_none() {
            return Err(ScheduleError::AdminNotSet);
        }
        if !self.vaults.contains_key(&id) {
            return Err(ScheduleError::VaultNotFound);
        }
        self.vesting_multipliers.insert(id, multiplier);
        Ok(())
    }
}

} // verus!
