//! Configuration of the vault: tax withholding, SEP-12 identity checks, token
//! precision, grant revocability, LST delivery and voting power.
use vstd::prelude::*;
use vstd::string::StringExecFns;
use crate::account::AccountId;
use crate::arith::{trunc_div, div_toward_zero, lemma_trunc_div_bounded};
use crate::vault::{VestingVault, VaultEvent, REVOCABILITY_WINDOW};
use crate::vault_errors::Error;
use crate::vault_types::{
    TaxWithholdingConfig, TaxWithholdingConfigured, TaxWithholdingDisabled, SEP12IdentityOracle,
    SEP12OracleConfigured, SEP12KYCDisabled, TokenMetadata, TokenMetadataRegistered, VestingGrant,
    VestingGrantCreated, RevocabilityExpired, LSTConfig, LSTConfigured, VotingPowerQueried,
};

verus! {

/// Decimals assumed for a token whose metadata was never registered.
pub const DEFAULT_TOKEN_DECIMALS: u32 = 7;

/// Whether a beneficiary passes the SEP-12 identity check. No identity oracle
/// is consulted: every beneficiary passes.
pub open spec fn sep12_verified(beneficiary: AccountId) -> bool {
    true
}

/// `amount / divisor` for a token with `decimals` decimals, never rounding a
/// positive amount down to zero for tokens with at most two decimals.
pub open spec fn precision_quotient(decimals: u32, amount: i128, divisor: i128) -> int {
    if decimals == 0 {
        if amount < divisor {
            1
        } else {
            trunc_div(amount as int, divisor as int)
        }
    } else if decimals <= 2 {
        let scale: int = if decimals == 1 { 10 } else { 100 };
        let result = trunc_div(trunc_div(amount * scale, divisor as int), scale);
        if result == 0 && amount > 0 {
            1
        } else {
            result
        }
    } else {
        trunc_div(amount as int, divisor as int)
    }
}

/// The division in `precision_quotient` stays within 128 bits.
pub open spec fn precision_computable(decimals: u32, amount: i128, divisor: i128) -> bool {
    &&& divisor != 0
    &&& decimals == 0 ==> (amount < divisor || !(amount == i128::MIN && divisor == -1))
    &&& (1 <= decimals <= 2) ==> ({
        let scale: int = if decimals == 1 { 10 } else { 100 };
        &&& i128::MIN <= amount * scale <= i128::MAX
        &&& !(amount * scale == i128::MIN && divisor == -1)
    })
    &&& decimals > 2 ==> !(amount == i128::MIN && divisor == -1)
}

impl VestingVault {
    /// The decimals registered for `asset`, or the default.
    pub open spec fn decimals_of(&self, asset: AccountId) -> u32 {
        if self.token_metadata@.contains_key(asset) {
            self.token_metadata@[asset].decimals
        } else {
            DEFAULT_TOKEN_DECIMALS
        }
    }

    /// Configures withholding of `tax_withholding_bps` basis points of each
    /// claim for `tax_treasury_address`; above 10000 is refused.
    pub fn configure_tax_withholding(&mut self, admin: &AccountId, tax_treasury_address: &AccountId, tax_withholding_bps: u32, now: u64) -> (r: Result<(), Error>)
        requires
            old(self).wf(),
        ensures
            final(self).wf(),
            tax_withholding_bps > 10000 ==> r == Err::<(), Error>(Error::InvalidInput) && *final(self) == *old(self),
            tax_withholding_bps <= 10000 ==> {
                &&& r is Ok
                &&& *final(self) == (VestingVault {
                    tax_withholding_config: Some(TaxWithholdingConfig {
                        tax_treasury_address: *tax_treasury_address,
                        tax_withholding_bps,
                        enabled: true,
                    }),
                    events: final(self).events,
                    ..*old(self)
                })
                &&& final(self).events@ == old(self).events@.push(VaultEvent::TaxWithholdingConfigured(
                    TaxWithholdingConfigured { tax_treasury_address: *tax_treasury_address, tax_withholding_bps, timestamp: now },
                ))
            },
    {
        if tax_withholding_bps > 10000 {
            return Err(Error::InvalidInput);
        }
        self.tax_withholding_config = Some(TaxWithholdingConfig {
            tax_treasury_address: *tax_treasury_address,
            tax_withholding_bps,
            enabled: true,
        });
        self.events.push(VaultEvent::TaxWithholdingConfigured(
            TaxWithholdingConfigured { tax_treasury_address: *tax_treasury_address, tax_withholding_bps, timestamp: now },
        ));
        Ok(())
    }

    /// Turns tax withholding off, when it was configured.
    pub fn disable_tax_withholding(&mut self, admin: &AccountId, now: u64)
        requires
            old(self).wf(),
        ensures
            final(self).wf(),
            match old(self).tax_withholding_config {
                None => *final(self) == *old(self),
                Some(c) => {
                    &&& *final(self) == (VestingVault {
                        tax_withholding_config: Some(TaxWithholdingConfig { enabled: false, ..c }),
                        events: final(self).events,
                        ..*old(self)
                    })
                    &&& final(self).events@ == old(self).events@.push(VaultEvent::TaxWithholdingDisabled(
                        TaxWithholdingDisabled { timestamp: now },
                    ))
                },
            },
    {
        if let Some(config) = self.tax_withholding_config {
            self.tax_withholding_config = Some(TaxWithholdingConfig { enabled: false, ..config });
            self.events.push(VaultEvent::TaxWithholdingDisabled(TaxWithholdingDisabled { timestamp: now }));
        }
    }

    /// The tax withholding configuration, if any.
    pub fn get_tax_withholding_config(&self) -> (r: Option<TaxWithholdingConfig>)
        ensures
            r == self.tax_withholding_config,
    {
        self.tax_withholding_config
    }

    /// Splits `gross_amount` into the net amount, the tax withheld and the
    /// treasury receiving it, under the enabled withholding configuration.
    fn execute_tax_withholding(&self, gross_amount: i128) -> (r: (i128, i128, AccountId))
        requires
            self.wf(),
            self.tax_withholding_config matches Some(c) && c.enabled && i128::MIN <= gross_amount
                * c.tax_withholding_bps <= i128::MAX,
        ensures
            ({
                let c = self.tax_withholding_config.unwrap();
                &&& r.1 == trunc_div(gross_amount * c.tax_withholding_bps, 10000)
                &&& r.0 + r.1 == gross_amount
                &&& r.2 == c.tax_treasury_address
            }),
    {
        let config = self.tax_withholding_config.unwrap();
        let product = gross_amount * (config.tax_withholding_bps as i128);
        assert(i128::MIN <= trunc_div(product as int, 10000) <= i128::MAX) by (nonlinear_arith)
            requires i128::MIN <= product <= i128::MAX;
        let tax_amount = div_toward_zero(product, 10000);
        let bps = config.tax_withholding_bps;
        if gross_amount >= 0 {
            assert(0 <= (gross_amount * bps) / 10000 <= gross_amount) by (nonlinear_arith)
                requires gross_amount >= 0, 0 <= bps <= 10000;
            assert(product >= 0) by (nonlinear_arith) requires product == gross_amount * bps, gross_amount >= 0, bps >= 0;
            assert(tax_amount == (gross_amount * bps) / 10000);
        } else {
            assert(0 <= ((gross_amount * bps) * -1) / 10000 <= gross_amount * -1) by (nonlinear_arith)
                requires gross_amount < 0, 0 <= bps <= 10000;
            assert(product <= 0) by (nonlinear_arith) requires product == gross_amount * bps, gross_amount < 0, bps >= 0;
            if product == 0 {
                assert(tax_amount == 0);
            } else {
                assert(tax_amount == ((product * -1) / 10000) * -1);
            }
        }
        let net_amount = gross_amount - tax_amount;
        (net_amount, tax_amount, config.tax_treasury_address)
    }

    /// Configures the SEP-12 identity oracle consulted before claims.
    pub fn configure_sep12_oracle(&mut self, admin: &AccountId, oracle_address: &AccountId, now: u64)
        ensures
            *final(self) == (VestingVault {
                sep12_oracle: Some(SEP12IdentityOracle { contract_address: *oracle_address, enabled: true }),
                events: final(self).events,
                ..*old(self)
            }),
            final(self).events@ == old(self).events@.push(VaultEvent::SEP12OracleConfigured(
                SEP12OracleConfigured { oracle_address: *oracle_address, timestamp: now },
            )),
    {
        self.sep12_oracle = Some(SEP12IdentityOracle { contract_address: *oracle_address, enabled: true });
        self.events.push(VaultEvent::SEP12OracleConfigured(
            SEP12OracleConfigured { oracle_address: *oracle_address, timestamp: now },
        ));
    }

    /// Turns SEP-12 checking off, when an oracle was configured.
    pub fn disable_sep12_kyc(&mut self, admin: &AccountId, now: u64)
        ensures
            match old(self).sep12_oracle {
                None => *final(self) == *old(self),
                Some(o) => {
                    &&& *final(self) == (VestingVault {
                        sep12_oracle: Some(SEP12IdentityOracle { enabled: false, ..o }),
                        events: final(self).events,
                        ..*old(self)
                    })
                    &&& final(self).events@ == old(self).events@.push(VaultEvent::SEP12KYCDisabled(
                        SEP12KYCDisabled { timestamp: now },
                    ))
                },
            },
    {
        if let Some(oracle) = self.sep12_oracle {
            self.sep12_oracle = Some(SEP12IdentityOracle { enabled: false, ..oracle });
            self.events.push(VaultEvent::SEP12KYCDisabled(SEP12KYCDisabled { timestamp: now }));
        }
    }

    /// The SEP-12 oracle configuration, if any.
    pub fn get_sep12_oracle_config(&self) -> (r: Option<SEP12IdentityOracle>)
        ensures
            r == self.sep12_oracle,
    {
        self.sep12_oracle
    }

    /// Checks `beneficiary` with the SEP-12 oracle when one is enabled; a
    /// failed check is announced and reported with its reason.
    fn check_kyc_status(&mut self, beneficiary: &AccountId, now: u64) -> (r: Result<bool, String>)
        ensures
            (old(self).sep12_oracle matches Some(o) && o.enabled && !sep12_verified(*beneficiary)) ==> {
                &&& r matches Err(reason) && reason@ == "SEP-12 KYC verification failed"@
                &&& *final(self) == (VestingVault { events: final(self).events, ..*old(self) })
                &&& final(self).events@.len() == old(self).events@.len() + 1
                &&& final(self).events@.drop_last() == old(self).events@
                &&& final(self).events@.last() matches VaultEvent::KYCCheckFailed(k) && {
                    &&& k.beneficiary == *beneficiary
                    &&& k.reason@ == "SEP-12 KYC verification failed"@
                    &&& k.timestamp == now
                }
            },
            !(old(self).sep12_oracle matches Some(o) && o.enabled && !sep12_verified(*beneficiary)) ==> r
                == Ok::<bool, String>(true) && *final(self) == *old(self),
    {
        if let Some(oracle) = self.sep12_oracle {
            if oracle.enabled {
                let is_verified = Self::simulate_sep12_check(beneficiary);
                if !is_verified {
                    self.events.push(VaultEvent::KYCCheckFailed(crate::vault_types::KYCCheckFailed {
                        beneficiary: *beneficiary,
                        reason: String::from_str("SEP-12 KYC verification failed"),
                        timestamp: now,
                    }));
                    return Err(String::from_str("SEP-12 KYC verification failed"));
                }
                return Ok(true);
            }
        }
        Ok(true)
    }

    fn simulate_sep12_check(beneficiary: &AccountId) -> (r: bool)
        ensures
            r == sep12_verified(*beneficiary),
    {
        true
    }

    /// Registers the decimals of `asset_address`; above 18 is refused.
    pub fn register_token_metadata(&mut self, admin: &AccountId, asset_address: &AccountId, decimals: u32, now: u64) -> (r: Result<(), Error>)
        requires
            old(self).wf(),
        ensures
            final(self).wf(),
            decimals > 18 ==> r == Err::<(), Error>(Error::InvalidInput) && *final(self) == *old(self),
            decimals <= 18 ==> {
                &&& r is Ok
                &&& *final(self) == (VestingVault {
                    token_metadata: final(self).token_metadata,
                    events: final(self).events,
                    ..*old(self)
                })
                &&& final(self).token_metadata@ == old(self).token_metadata@.insert(
                    *asset_address,
                    TokenMetadata { asset_address: *asset_address, decimals },
                )
                &&& final(self).events@ == old(self).events@.push(VaultEvent::TokenMetadataRegistered(
                    TokenMetadataRegistered { asset_address: *asset_address, decimals, timestamp: now },
                ))
            },
    {
        if decimals > 18 {
            return Err(Error::InvalidInput);
        }
        self.token_metadata.insert(*asset_address, TokenMetadata { asset_address: *asset_address, decimals });
        self.events.push(VaultEvent::TokenMetadataRegistered(
            TokenMetadataRegistered { asset_address: *asset_address, decimals, timestamp: now },
        ));
        Ok(())
    }

    /// The metadata registered for `asset_address`, if any.
    pub fn get_token_metadata_info(&self, asset_address: &AccountId) -> (r: Option<TokenMetadata>)
        requires
            self.wf(),
        ensures
            r == (if self.token_metadata@.contains_key(*asset_address) {
                Some(self.token_metadata@[*asset_address])
            } else {
                None
            }),
    {
        match self.token_metadata.get(asset_address) {
            Some(m) => Some(*m),
            None => None,
        }
    }

    /// Divides `amount` by `divisor` at the precision of `asset_address`.
    pub fn precision_safe_divide(&self, amount: i128, divisor: i128, asset_address: &AccountId) -> (r: i128)
        requires
            self.wf(),
            precision_computable(self.decimals_of(*asset_address), amount, divisor),
        ensures
            r == precision_quotient(self.decimals_of(*asset_address), amount, divisor),
    {
        let decimals = match self.token_metadata.get(asset_address) {
            Some(metadata) => metadata.decimals,
            None => DEFAULT_TOKEN_DECIMALS,
        };
        if decimals == 0 {
            if amount < divisor {
                1
            } else {
                proof { lemma_trunc_div_bounded(amount as int, divisor as int); }
                div_toward_zero(amount, divisor)
            }
        } else if decimals <= 2 {
            let scaling_factor: i128 = if decimals == 1 { 10 } else { 100 };
            let scaled_amount = amount * scaling_factor;
            proof { lemma_trunc_div_bounded(scaled_amount as int, divisor as int); }
            let quotient = div_toward_zero(scaled_amount, divisor);
            proof { lemma_trunc_div_bounded(quotient as int, scaling_factor as int); }
            let result = div_toward_zero(quotient, scaling_factor);
            if result == 0 && amount > 0 {
                1
            } else {
                result
            }
        } else {
            proof { lemma_trunc_div_bounded(amount as int, divisor as int); }
            div_toward_zero(amount, divisor)
        }
    }

    /// Creates the grant record of schedule `vesting_id`, revocable (if at
    /// all) for twelve months from `now`.
    pub fn create_vesting_grant(&mut self, admin: &AccountId, vesting_id: u32, beneficiary: &AccountId, is_revocable: bool, now: u64) -> (r: Result<(), Error>)
        requires
            old(self).wf(),
            !old(self).vesting_grants@.contains_key(vesting_id) ==> now + REVOCABILITY_WINDOW <= u64::MAX,
        ensures
            final(self).wf(),
            old(self).vesting_grants@.contains_key(vesting_id) ==> r == Err::<(), Error>(Error::AlreadyInitialized)
                && *final(self) == *old(self),
            !old(self).vesting_grants@.contains_key(vesting_id) ==> {
                &&& r is Ok
                &&& *final(self) == (VestingVault {
                    vesting_grants: final(self).vesting_grants,
                    events: final(self).events,
                    ..*old(self)
                })
                &&& final(self).vesting_grants@ == old(self).vesting_grants@.insert(vesting_id, VestingGrant {
                    vesting_id,
                    beneficiary: *beneficiary,
                    created_at: now,
                    is_revocable,
                    revocability_expires_at: (now + REVOCABILITY_WINDOW) as u64,
                })
                &&& final(self).events@ == old(self).events@.push(VaultEvent::VestingGrantCreated(VestingGrantCreated {
                    vesting_id,
                    beneficiary: *beneficiary,
                    is_revocable,
                    revocability_expires_at: (now + REVOCABILITY_WINDOW) as u64,
                    created_at: now,
                }))
            },
    {
        if self.vesting_grants.contains_key(&vesting_id) {
            return Err(Error::AlreadyInitialized);
        }
        let grant = VestingGrant {
            vesting_id,
            beneficiary: *beneficiary,
            created_at: now,
            is_revocable,
            revocability_expires_at: now + REVOCABILITY_WINDOW,
        };
        self.vesting_grants.insert(vesting_id, grant);
        self.events.push(VaultEvent::VestingGrantCreated(VestingGrantCreated {
            vesting_id,
            beneficiary: *beneficiary,
            is_revocable,
            revocability_expires_at: grant.revocability_expires_at,
            created_at: now,
        }));
        Ok(())
    }

    /// Whether the grant of `vesting_id` is still revocable at `now`. Once its
    /// revocability window has closed the grant is marked irrevocable for good.
    pub fn is_grant_revocable(&mut self, vesting_id: u32, now: u64) -> (r: bool)
        requires
            old(self).wf(),
        ensures
            final(self).wf(),
            !old(self).vesting_grants@.contains_key(vesting_id) ==> !r && *final(self) == *old(self),
            old(self).vesting_grants@.contains_key(vesting_id) ==> {
                let g = old(self).vesting_grants@[vesting_id];
                if !g.is_revocable {
                    !r && *final(self) == *old(self)
                } else if now >= g.revocability_expires_at {
                    &&& !r
                    &&& *final(self) == (VestingVault {
                        vesting_grants: final(self).vesting_grants,
                        events: final(self).events,
                        ..*old(self)
                    })
                    &&& final(self).vesting_grants@ == old(self).vesting_grants@.insert(
                        vesting_id,
                        VestingGrant { is_revocable: false, ..g },
                    )
                    &&& final(self).events@ == old(self).events@.push(VaultEvent::RevocabilityExpired(
                        RevocabilityExpired { vesting_id, beneficiary: g.beneficiary, expired_at: now },
                    ))
                } else {
                    r && *final(self) == *old(self)
                }
            },
    {
        let grant = match self.vesting_grants.get(&vesting_id) {
            Some(g) => *g,
            None => {
                return false;
            },
        };
        if !grant.is_revocable {
            return false;
        }
        if now >= grant.revocability_expires_at {
            self.vesting_grants.insert(vesting_id, VestingGrant { is_revocable: false, ..grant });
            self.events.push(VaultEvent::RevocabilityExpired(
                RevocabilityExpired { vesting_id, beneficiary: grant.beneficiary, expired_at: now },
            ));
            return false;
        }
        true
    }

    /// The grant record of `vesting_id`, if any.
    pub fn get_vesting_grant_info(&self, vesting_id: u32) -> (r: Option<VestingGrant>)
        requires
            self.wf(),
        ensures
            r == (if self.vesting_grants@.contains_key(vesting_id) {
                Some(self.vesting_grants@[vesting_id])
            } else {
                None
            }),
    {
        match self.vesting_grants.get(&vesting_id) {
            Some(g) => Some(*g),
            None => None,
        }
    }

    /// Pays schedule `vesting_id` out in `lst_token_address` rather than in
    /// `base_token_address`.
    pub fn configure_lst(&mut self, admin: &AccountId, vesting_id: u32, lst_token_address: &AccountId, base_token_address: &AccountId, now: u64)
        requires
            old(self).wf(),
        ensures
            final(self).wf(),
            *final(self) == (VestingVault {
                lst_configs: final(self).lst_configs,
                events: final(self).events,
                ..*old(self)
            }),
            final(self).lst_configs@ == old(self).lst_configs@.insert(vesting_id, LSTConfig {
                vesting_id,
                enabled: true,
                lst_token_address: *lst_token_address,
                base_token_address: *base_token_address,
                staking_contract_address: None,
                unbonding_period_seconds: 0,
            }),
            final(self).events@ == old(self).events@.push(VaultEvent::LSTConfigured(LSTConfigured {
                vesting_id,
                lst_token_address: *lst_token_address,
                base_token_address: *base_token_address,
                timestamp: now,
            })),
    {
        self.lst_configs.insert(vesting_id, LSTConfig {
            vesting_id,
            enabled: true,
            lst_token_address: *lst_token_address,
            base_token_address: *base_token_address,
            staking_contract_address: None,
            unbonding_period_seconds: 0,
        });
        self.events.push(VaultEvent::LSTConfigured(LSTConfigured {
            vesting_id,
            lst_token_address: *lst_token_address,
            base_token_address: *base_token_address,
            timestamp: now,
        }));
    }

    /// The unvested balance recorded for `voter`, zero when none was.
    pub open spec fn unvested_of(&self, voter: AccountId) -> i128 {
        if self.unvested_balances@.contains_key(voter) {
            self.unvested_balances@[voter]
        } else {
            0
        }
    }

    /// The voting power of `voter`: its unvested balance. The query is
    /// announced.
    pub fn get_voting_power(&mut self, voter: &AccountId, now: u64) -> (r: i128)
        requires
            old(self).wf(),
        ensures
            final(self).wf(),
            r == old(self).unvested_of(*voter),
            *final(self) == (VestingVault { events: final(self).events, ..*old(self) }),
            final(self).events@ == old(self).events@.push(VaultEvent::VotingPowerQueried(
                VotingPowerQueried { voter: *voter, voting_power: r, timestamp: now },
            )),
    {
        let power = match self.unvested_balances.get(voter) {
            Some(b) => *b,
            None => 0,
        };
        self.events.push(VaultEvent::VotingPowerQueried(
            VotingPowerQueried { voter: *voter, voting_power: power, timestamp: now },
        ));
        power
    }

    /// Records `beneficiary`'s unvested balance; negative amounts are refused.
    pub fn record_unvested_balance(&mut self, admin: &AccountId, beneficiary: &AccountId, unvested_amount: i128) -> (r: Result<(), Error>)
        requires
            old(self).wf(),
        ensures
            final(self).wf(),
            unvested_amount < 0 ==> r == Err::<(), Error>(Error::InvalidInput) && *final(self) == *old(self),
            unvested_amount >= 0 ==> {
                &&& r is Ok
                &&& *final(self) == (VestingVault { unvested_balances: final(self).unvested_balances, ..*old(self) })
                &&& final(self).unvested_balances@ == old(self).unvested_balances@.insert(*beneficiary, unvested_amount)
            },
    {
        if unvested_amount < 0 {
            return Err(Error::InvalidInput);
        }
        self.unvested_balances.insert(*beneficiary, unvested_amount);
        Ok(())
    }
}

} // verus!
