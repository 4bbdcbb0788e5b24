//! Exits from a claim: paying out through a path payment into another asset,
//! and lock-up periods that pay out in wrapped tokens.
use vstd::prelude::*;
use vstd::string::StringExecFns;
use crate::account::{AccountId, copy_accounts};
use crate::table::{copy_vec, ScheduleKey};
use crate::vault::{VestingVault, VaultEvent};
use crate::vault_errors::Error;
use crate::vault_types::{
    ClaimEvent, PathPaymentConfig, PathPaymentConfigured, PathPaymentDisabled, PathPaymentClaimEvent,
    PathPaymentClaimExecuted, PathPaymentSimulation, LockupConfig, LockupConfigured, LockupDisabled,
    LockupClaimExecuted,
};

verus! {

/// Estimated gas fee, in stroops, reported for a path-payment claim.
pub const PATH_PAYMENT_GAS_FEE: u64 = 150000;

/// The unlock time kept after a lock-up claim unlocking at `t`: the later of
/// `t` and the one kept before, if any.
pub open spec fn later_unlock(before: Option<u64>, t: u64) -> u64 {
    match before {
        Some(b) => if b > t {
            b
        } else {
            t
        },
        None => t,
    }
}

impl VestingVault {
    /// Why a path-payment claim of `amount` is refused, if it is, when the
    /// exchange quotes `quoted_destination_amount` for it.
    pub open spec fn path_payment_refusal(
        &self,
        amount: i128,
        min_destination_amount: Option<i128>,
        quoted_destination_amount: i128,
        now: u64,
    ) -> Option<Error> {
        if self.pause_in_force(now) {
            Some(Error::ContractPaused)
        } else if self.path_payment_config is None {
            Some(Error::PathPaymentNotConfigured)
        } else if !self.path_payment_config.unwrap().enabled {
            Some(Error::PathPaymentDisabled)
        } else if min_destination_amount.unwrap_or(self.path_payment_config.unwrap().min_destination_amount) <= 0 {
            Some(Error::InvalidInput)
        } else if amount <= 0 {
            Some(Error::NothingToClaim)
        } else if quoted_destination_amount < min_destination_amount.unwrap_or(self.path_payment_config.unwrap().min_destination_amount) {
            Some(Error::InsufficientLiquidity)
        } else {
            None
        }
    }

    /// Configures claims that swap into `destination_asset` along `path`,
    /// receiving at least `min_destination_amount`.
    pub fn configure_path_payment(&mut self, admin: &AccountId, destination_asset: &AccountId, min_destination_amount: i128, path: Vec<AccountId>, now: u64)
        ensures
            *final(self) == (VestingVault {
                path_payment_config: final(self).path_payment_config,
                events: final(self).events,
                ..*old(self)
            }),
            final(self).path_payment_config matches Some(c) && {
                &&& c.destination_asset == *destination_asset
                &&& c.min_destination_amount == min_destination_amount
                &&& c.path@ == path@
                &&& c.enabled
            },
            final(self).events@.len() == old(self).events@.len() + 1,
            final(self).events@.drop_last() == old(self).events@,
            final(self).events@.last() matches VaultEvent::PathPaymentConfigured(ev) && {
                &&& ev.destination_asset == *destination_asset
                &&& ev.min_destination_amount == min_destination_amount
                &&& ev.path@ == path@
                &&& ev.timestamp == now
            },
    {
        let event_path = copy_accounts(&path);
        self.path_payment_config = Some(PathPaymentConfig {
            destination_asset: *destination_asset,
            min_destination_amount,
            path,
            enabled: true,
        });
        self.events.push(VaultEvent::PathPaymentConfigured(PathPaymentConfigured {
            destination_asset: *destination_asset,
            min_destination_amount,
            path: event_path,
            timestamp: now,
        }));
    }

    /// Turns path-payment claims off, when they were configured.
    pub fn disable_path_payment(&mut self, admin: &AccountId, now: u64)
        ensures
            old(self).path_payment_config is None ==> *final(self) == *old(self),
            old(self).path_payment_config is Some ==> {
                &&& *final(self) == (VestingVault {
                    path_payment_config: final(self).path_payment_config,
                    events: final(self).events,
                    ..*old(self)
                })
                &&& final(self).path_payment_config matches Some(c) && {
                    let o = old(self).path_payment_config.unwrap();
                    &&& c.destination_asset == o.destination_asset
                    &&& c.min_destination_amount == o.min_destination_amount
                    &&& c.path == o.path
                    &&& !c.enabled
                }
                &&& final(self).events@ == old(self).events@.push(VaultEvent::PathPaymentDisabled(
                    PathPaymentDisabled { timestamp: now },
                ))
            },
    {
        if let Some(config) = &mut self.path_payment_config {
            config.enabled = false;
            self.events.push(VaultEvent::PathPaymentDisabled(PathPaymentDisabled { timestamp: now }));
        }
    }

    /// Claims `amount` and swaps it into the configured destination asset,
    /// receiving at least `min_destination_amount` (or the configured
    /// minimum); `quoted_destination_amount` is what the exchange quotes for
    /// `amount` along the configured path. The claim enters both the
    /// path-payment and the claim histories. A pause that has run out is
    /// removed on the way.
    pub fn claim_with_path_payment(
        &mut self,
        user: &AccountId,
        vesting_id: u32,
        amount: i128,
        min_destination_amount: Option<i128>,
        quoted_destination_amount: i128,
        now: u64,
    ) -> (r: Result<(), Error>)
        ensures
            match old(self).path_payment_refusal(amount, min_destination_amount, quoted_destination_amount, now) {
                Some(e) => {
                    &&& r == Err::<(), Error>(e)
                    &&& if e == Error::ContractPaused {
                        *final(self) == *old(self)
                    } else {
                        *final(self) == (VestingVault { emergency_pause: old(self).pause_after_check(now), ..*old(self) })
                    }
                },
                None => {
                    let c = old(self).path_payment_config.unwrap();
                    let received = quoted_destination_amount;
                    &&& r is Ok
                    &&& *final(self) == (VestingVault {
                        emergency_pause: old(self).pause_after_check(now),
                        path_payment_claim_history: final(self).path_payment_claim_history,
                        claim_history: final(self).claim_history,
                        events: final(self).events,
                        ..*old(self)
                    })
                    &&& final(self).path_payment_claim_history@ == old(self).path_payment_claim_history@.push(
                        PathPaymentClaimEvent {
                            beneficiary: *user,
                            source_amount: amount,
                            destination_amount: received,
                            destination_asset: c.destination_asset,
                            timestamp: now,
                            vesting_id,
                        },
                    )
                    &&& final(self).claim_history@ == old(self).claim_history@.push(
                        ClaimEvent { beneficiary: *user, amount, timestamp: now, vesting_id },
                    )
                    &&& final(self).events@ == old(self).events@.push(VaultEvent::PathPaymentClaimExecuted(
                        PathPaymentClaimExecuted {
                            user: *user,
                            source_amount: amount,
                            destination_amount: received,
                            destination_asset: c.destination_asset,
                            timestamp: now,
                            vesting_id,
                        },
                    ))
                },
            },
    {
        if self.check_emergency_pause(now) {
            return Err(Error::ContractPaused);
        }
        let (enabled, config_min, destination_asset) = match &self.path_payment_config {
            Some(c) => (c.enabled, c.min_destination_amount, c.destination_asset),
            None => {
                return Err(Error::PathPaymentNotConfigured);
            },
        };
        if !enabled {
            return Err(Error::PathPaymentDisabled);
        }
        let final_min_amount = match min_destination_amount {
            Some(m) => m,
            None => config_min,
        };
        if final_min_amount <= 0 {
            return Err(Error::InvalidInput);
        }
        let actual_claimable_amount = amount;
        if actual_claimable_amount <= 0 {
            return Err(Error::NothingToClaim);
        }
        let destination_amount = match &self.path_payment_config {
            Some(c) => Self::execute_path_payment(
                user,
                actual_claimable_amount,
                &c.destination_asset,
                final_min_amount,
                &c.path,
                quoted_destination_amount,
            ),
            None => {
                return Err(Error::PathPaymentNotConfigured);
            },
        };
        let destination_amount = match destination_amount {
            Ok(d) => d,
            Err(e) => {
                return Err(e);
            },
        };
        self.path_payment_claim_history.push(PathPaymentClaimEvent {
            beneficiary: *user,
            source_amount: actual_claimable_amount,
            destination_amount,
            destination_asset,
            timestamp: now,
            vesting_id,
        });
        self.claim_history.push(ClaimEvent { beneficiary: *user, amount: actual_claimable_amount, timestamp: now, vesting_id });
        self.events.push(VaultEvent::PathPaymentClaimExecuted(PathPaymentClaimExecuted {
            user: *user,
            source_amount: actual_claimable_amount,
            destination_amount,
            destination_asset,
            timestamp: now,
            vesting_id,
        }));
        Ok(())
    }

    /// A dry run of a path-payment claim of `amount`, for which the exchange
    /// quotes `quoted_destination_amount`.
    pub fn simulate_path_payment_claim(
        &self,
        user: &AccountId,
        vesting_id: u32,
        amount: i128,
        min_destination_amount: Option<i128>,
        quoted_destination_amount: i128,
        now: u64,
    ) -> (r: PathPaymentSimulation)
        ensures
            self.pause_in_force(now) ==> {
                &&& r.source_amount == amount && r.estimated_destination_amount == 0
                &&& r.min_destination_amount == min_destination_amount.unwrap_or(0)
                &&& r.path@.len() == 0 && !r.can_execute && r.estimated_gas_fee == 0
                &&& r.reason@ == "Contract is under emergency pause"@
            },
            !self.pause_in_force(now) && self.path_payment_config is None ==> {
                &&& r.source_amount == amount && r.estimated_destination_amount == 0
                &&& r.min_destination_amount == min_destination_amount.unwrap_or(0)
                &&& r.path@.len() == 0 && !r.can_execute && r.estimated_gas_fee == 0
                &&& r.reason@ == "Path payment not configured"@
            },
            !self.pause_in_force(now) ==> (self.path_payment_config matches Some(c) ==> {
                let final_min = min_destination_amount.unwrap_or(c.min_destination_amount);
                let estimate = quoted_destination_amount;
                &&& r.path@ == c.path@
                &&& if !c.enabled {
                    &&& r.source_amount == amount && r.estimated_destination_amount == 0
                    &&& r.min_destination_amount == min_destination_amount.unwrap_or(0)
                    &&& !r.can_execute && r.estimated_gas_fee == 0
                    &&& r.reason@ == "Path payment feature is disabled"@
                } else if amount <= 0 {
                    &&& r.source_amount == amount && r.estimated_destination_amount == 0
                    &&& r.min_destination_amount == final_min
                    &&& !r.can_execute && r.estimated_gas_fee == 0
                    &&& r.reason@ == "No tokens available to claim"@
                } else {
                    &&& r.source_amount == amount && r.estimated_destination_amount == estimate
                    &&& r.min_destination_amount == final_min
                    &&& r.can_execute == (estimate >= final_min)
                    &&& r.estimated_gas_fee == PATH_PAYMENT_GAS_FEE
                    &&& r.reason@ == if estimate >= final_min {
                        "Path payment claim available"@
                    } else {
                        "Insufficient liquidity for minimum destination amount"@
                    }
                }
            }),
    {
        let paused = match &self.emergency_pause {
            Some(pause) => pause.is_active && now < pause.expires_at,
            None => false,
        };
        let requested_min = match min_destination_amount {
            Some(m) => m,
            None => 0,
        };
        if paused {
            return PathPaymentSimulation {
                source_amount: amount,
                estimated_destination_amount: 0,
                min_destination_amount: requested_min,
                path: Vec::new(),
                can_execute: false,
                reason: String::from_str("Contract is under emergency pause"),
                estimated_gas_fee: 0,
            };
        }
        let config = match &self.path_payment_config {
            Some(c) => c,
            None => {
                return PathPaymentSimulation {
                    source_amount: amount,
                    estimated_destination_amount: 0,
                    min_destination_amount: requested_min,
                    path: Vec::new(),
                    can_execute: false,
                    reason: String::from_str("Path payment not configured"),
                    estimated_gas_fee: 0,
                };
            },
        };
        if !config.enabled {
            return PathPaymentSimulation {
                source_amount: amount,
                estimated_destination_amount: 0,
                min_destination_amount: requested_min,
                path: copy_accounts(&config.path),
                can_execute: false,
                reason: String::from_str("Path payment feature is disabled"),
                estimated_gas_fee: 0,
            };
        }
        let final_min_amount = match min_destination_amount {
            Some(m) => m,
            None => config.min_destination_amount,
        };
        let actual_claimable_amount = amount;
        if actual_claimable_amount <= 0 {
            return PathPaymentSimulation {
                source_amount: amount,
                estimated_destination_amount: 0,
                min_destination_amount: final_min_amount,
                path: copy_accounts(&config.path),
                can_execute: false,
                reason: String::from_str("No tokens available to claim"),
                estimated_gas_fee: 0,
            };
        }
        let estimated_destination_amount = quoted_destination_amount;
        let can_execute = estimated_destination_amount >= final_min_amount;
        PathPaymentSimulation {
            source_amount: actual_claimable_amount,
            estimated_destination_amount,
            min_destination_amount: final_min_amount,
            path: copy_accounts(&config.path),
            can_execute,
            reason: if can_execute {
                String::from_str("Path payment claim available")
            } else {
                String::from_str("Insufficient liquidity for minimum destination amount")
            },
            estimated_gas_fee: PATH_PAYMENT_GAS_FEE,
        }
    }

    /// The path-payment configuration, if any.
    pub fn get_path_payment_config(&self) -> (r: &Option<PathPaymentConfig>)
        ensures
            *r == self.path_payment_config,
    {
        &self.path_payment_config
    }

    /// The path-payment claims made so far, oldest first.
    pub fn get_path_payment_claim_history(&self) -> (r: Vec<PathPaymentClaimEvent>)
        ensures
            r@ == self.path_payment_claim_history@,
    {
        copy_vec(&self.path_payment_claim_history)
    }

    /// Swaps `source_amount` into `destination_asset` at the quoted
    /// `quoted_destination_amount`, refusing when less than
    /// `min_destination_amount` would be received.
    fn execute_path_payment(
        beneficiary: &AccountId,
        source_amount: i128,
        destination_asset: &AccountId,
        min_destination_amount: i128,
        path: &Vec<AccountId>,
        quoted_destination_amount: i128,
    ) -> (r: Result<i128, Error>)
        ensures
            quoted_destination_amount < min_destination_amount ==> r == Err::<i128, Error>(Error::InsufficientLiquidity),
            quoted_destination_amount >= min_destination_amount ==> r == Ok::<i128, Error>(quoted_destination_amount),
    {
        if quoted_destination_amount < min_destination_amount {
            return Err(Error::InsufficientLiquidity);
        }
        Ok(quoted_destination_amount)
    }

    /// A lock-up is configured and enabled for a schedule.
    pub open spec fn lockup_enabled(&self, vesting_id: u32) -> bool {
        self.lockup_configs@.contains_key(vesting_id) && self.lockup_configs@[vesting_id].enabled
    }

    /// When the lock-up tokens `user` claimed from `vesting_id` unlock, if it
    /// made a lock-up claim.
    pub open spec fn unlock_time_of(&self, user: AccountId, vesting_id: u32) -> Option<u64> {
        let k = ScheduleKey { account: user, vesting_id };
        if self.lockup_unlock_times@.contains_key(k) {
            Some(self.lockup_unlock_times@[k])
        } else {
            None
        }
    }

    /// A lock-up on `user`'s tokens from `vesting_id` is still running at `now`.
    pub open spec fn lockup_running(&self, user: AccountId, vesting_id: u32, now: u64) -> bool {
        self.lockup_enabled(vesting_id) && (self.unlock_time_of(user, vesting_id) matches Some(t) && now < t)
    }

    /// Whether `user`'s tokens from `vesting_id` are free at `now`: true when
    /// no lock-up is enabled for the schedule, or when the lock-up period of
    /// the user's lock-up claims has elapsed; false only while it runs.
    pub fn is_user_unlocked(&self, user: &AccountId, vesting_id: u32, now: u64) -> (r: bool)
        requires
            self.wf(),
        ensures
            r == !self.lockup_running(*user, vesting_id, now),
    {
        let enabled = match self.lockup_configs.get(&vesting_id) {
            Some(config) => config.enabled,
            None => false,
        };
        if !enabled {
            return true;
        }
        match self.lockup_unlock_times.get(&ScheduleKey { account: *user, vesting_id }) {
            Some(t) => now >= *t,
            None => true,
        }
    }

    /// When tokens claimed at `now` from `vesting_id` unlock; none without an
    /// enabled lock-up.
    pub fn get_user_unlock_time(&self, user: &AccountId, vesting_id: u32, now: u64) -> (r: Option<u64>)
        requires
            self.wf(),
            self.lockup_enabled(vesting_id) ==> now + self.lockup_configs@[vesting_id].lockup_duration_seconds <= u64::MAX,
        ensures
            self.lockup_enabled(vesting_id) ==> r == Some((now + self.lockup_configs@[vesting_id].lockup_duration_seconds) as u64),
            !self.lockup_enabled(vesting_id) ==> r is None,
    {
        match self.lockup_configs.get(&vesting_id) {
            Some(config) => if config.enabled {
                Some(now + config.lockup_duration_seconds)
            } else {
                None
            },
            None => None,
        }
    }

    /// Configures a lock-up of `lockup_duration_seconds` on tokens claimed
    /// from `vesting_id`, paid out as wrapped `lockup_token_address` tokens.
    pub fn configure_lockup(&mut self, admin: &AccountId, vesting_id: u32, lockup_duration_seconds: u64, lockup_token_address: &AccountId, now: u64)
        requires
            old(self).wf(),
        ensures
            final(self).wf(),
            *final(self) == (VestingVault { lockup_configs: final(self).lockup_configs, events: final(self).events, ..*old(self) }),
            final(self).lockup_configs@ == old(self).lockup_configs@.insert(vesting_id, LockupConfig {
                vesting_id,
                lockup_duration_seconds,
                enabled: true,
                lockup_token_address: *lockup_token_address,
            }),
            final(self).events@ == old(self).events@.push(VaultEvent::LockupConfigured(LockupConfigured {
                vesting_id,
                lockup_duration_seconds,
                lockup_token_address: *lockup_token_address,
                timestamp: now,
            })),
    {
        self.lockup_configs.insert(vesting_id, LockupConfig {
            vesting_id,
            lockup_duration_seconds,
            enabled: true,
            lockup_token_address: *lockup_token_address,
        });
        self.events.push(VaultEvent::LockupConfigured(LockupConfigured {
            vesting_id,
            lockup_duration_seconds,
            lockup_token_address: *lockup_token_address,
            timestamp: now,
        }));
    }

    /// Removes the lock-up of a schedule.
    pub fn disable_lockup(&mut self, admin: &AccountId, vesting_id: u32, now: u64)
        requires
            old(self).wf(),
        ensures
            final(self).wf(),
            *final(self) == (VestingVault { lockup_configs: final(self).lockup_configs, events: final(self).events, ..*old(self) }),
            final(self).lockup_configs@ == old(self).lockup_configs@.remove(vesting_id),
            final(self).events@ == old(self).events@.push(VaultEvent::LockupDisabled(
                LockupDisabled { vesting_id, timestamp: now },
            )),
    {
        self.lockup_configs.remove(&vesting_id);
        self.events.push(VaultEvent::LockupDisabled(LockupDisabled { vesting_id, timestamp: now }));
    }

    /// Claims `amount` from `vesting_id`; under an enabled lock-up the claim
    /// is paid in wrapped tokens that unlock after the lock-up period. A pause
    /// that has run out is removed on the way.
    pub fn claim_with_lockup(&mut self, user: &AccountId, vesting_id: u32, amount: i128, now: u64) -> (r: Result<(), Error>)
        requires
            old(self).wf(),
            !old(self).pause_in_force(now) && !old(self).payout_timelocked(*user, now) && old(self).lockup_enabled(vesting_id)
                ==> now + old(self).lockup_configs@[vesting_id].lockup_duration_seconds <= u64::MAX,
        ensures
            final(self).wf(),
            old(self).pause_in_force(now) ==> r == Err::<(), Error>(Error::ContractPaused) && *final(self) == *old(self),
            !old(self).pause_in_force(now) && old(self).payout_timelocked(*user, now) ==> {
                &&& r == Err::<(), Error>(Error::TimelockNotElapsed)
                &&& *final(self) == (VestingVault { emergency_pause: old(self).pause_after_check(now), ..*old(self) })
            },
            !old(self).pause_in_force(now) && !old(self).payout_timelocked(*user, now) ==> {
                &&& r is Ok
                &&& *final(self) == (VestingVault {
                    emergency_pause: old(self).pause_after_check(now),
                    claim_history: final(self).claim_history,
                    lockup_unlock_times: final(self).lockup_unlock_times,
                    events: final(self).events,
                    ..*old(self)
                })
                &&& final(self).claim_history@ == old(self).claim_history@.push(
                    ClaimEvent { beneficiary: *user, amount, timestamp: now, vesting_id },
                )
                &&& final(self).lockup_unlock_times@ == if old(self).lockup_enabled(vesting_id) {
                    let c = old(self).lockup_configs@[vesting_id];
                    old(self).lockup_unlock_times@.insert(
                        ScheduleKey { account: *user, vesting_id },
                        later_unlock(old(self).unlock_time_of(*user, vesting_id), (now + c.lockup_duration_seconds) as u64),
                    )
                } else {
                    old(self).lockup_unlock_times@
                }
                &&& final(self).events@ == if old(self).lockup_enabled(vesting_id) {
                    let c = old(self).lockup_configs@[vesting_id];
                    old(self).events@.push(VaultEvent::LockupClaimExecuted(LockupClaimExecuted {
                        user: *user,
                        vesting_id,
                        amount,
                        lockup_token_address: c.lockup_token_address,
                        unlock_time: (now + c.lockup_duration_seconds) as u64,
                        timestamp: now,
                    }))
                } else {
                    old(self).events@
                }
            },
    {
        if self.check_emergency_pause(now) {
            return Err(Error::ContractPaused);
        }
        if let Some(auth_address) = self.authorized_payout_addresses.get(user) {
            if auth_address.is_active && now < auth_address.effective_at {
                return Err(Error::TimelockNotElapsed);
            }
        }
        let lockup = match self.lockup_configs.get(&vesting_id) {
            Some(config) => if config.enabled {
                Some(*config)
            } else {
                None
            },
            None => None,
        };
        if let Some(lockup_config) = lockup {
            self.issue_wrapped_tokens(user, vesting_id, amount, &lockup_config, now);
            return Ok(());
        }
        self.claim_history.push(ClaimEvent { beneficiary: *user, amount, timestamp: now, vesting_id });
        Ok(())
    }

    /// Records a claim paid out in wrapped lock-up tokens, and when they
    /// unlock.
    fn issue_wrapped_tokens(&mut self, user: &AccountId, vesting_id: u32, amount: i128, lockup_config: &LockupConfig, now: u64)
        requires
            old(self).wf(),
            now + lockup_config.lockup_duration_seconds <= u64::MAX,
        ensures
            final(self).wf(),
            *final(self) == (VestingVault {
                claim_history: final(self).claim_history,
                lockup_unlock_times: final(self).lockup_unlock_times,
                events: final(self).events,
                ..*old(self)
            }),
            final(self).claim_history@ == old(self).claim_history@.push(
                ClaimEvent { beneficiary: *user, amount, timestamp: now, vesting_id },
            ),
            final(self).lockup_unlock_times@ == old(self).lockup_unlock_times@.insert(
                ScheduleKey { account: *user, vesting_id },
                later_unlock(old(self).unlock_time_of(*user, vesting_id), (now + lockup_config.lockup_duration_seconds) as u64),
            ),
            final(self).events@ == old(self).events@.push(VaultEvent::LockupClaimExecuted(LockupClaimExecuted {
                user: *user,
                vesting_id,
                amount,
                lockup_token_address: lockup_config.lockup_token_address,
                unlock_time: (now + lockup_config.lockup_duration_seconds) as u64,
                timestamp: now,
            })),
    {
        let unlock_time = now + lockup_config.lockup_duration_seconds;
        let key = ScheduleKey { account: *user, vesting_id };
        let until = match self.lockup_unlock_times.get(&key) {
            Some(t) => if *t > unlock_time {
                *t
            } else {
                unlock_time
            },
            None => unlock_time,
        };
        self.lockup_unlock_times.insert(key, until);
        self.claim_history.push(ClaimEvent { beneficiary: *user, amount, timestamp: now, vesting_id });
        self.events.push(VaultEvent::LockupClaimExecuted(LockupClaimExecuted {
            user: *user,
            vesting_id,
            amount,
            lockup_token_address: lockup_config.lockup_token_address,
            unlock_time,
            timestamp: now,
        }));
    }
}

} // verus!
