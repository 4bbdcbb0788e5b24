//! Claims: the compliance gate, whitelisted payout addresses, the claim
//! history and the claim dry-run.
use vstd::prelude::*;
use vstd::string::StringExecFns;
use crate::account::AccountId;
use crate::arith::{trunc_div, div_toward_zero};
use crate::vault::{VestingVault, VaultEvent, TIMELOCK_DURATION};
use crate::vault_errors::Error;
use crate::vault_types::{
    ClaimEvent, AuthorizedPayoutAddress, AddressWhitelistRequest, AuthorizedAddressSet,
    AddressWhitelistRequested, ClaimSimulation, LSTClaimExecuted, LSTConfig,
};

verus! {

/// Largest amount a single claim may move before AML review.
pub const AML_THRESHOLD: i128 = 1_000_000;

/// Risk rating assigned to every user.
pub const USER_RISK_RATING: u32 = 1;

/// Highest risk rating a claimant may have.
pub const MAX_ALLOWED_RISK: u32 = 5;

/// LST units per base unit, scaled by 10^7.
pub const LST_EXCHANGE_RATE: i128 = 9_000_000;

/// Scale of LST exchange rates.
pub const LST_RATE_SCALE: i128 = 10_000_000;

// Compliance facts about a claimant. No identity provider is consulted: each
// fact has a fixed value.

pub open spec fn kyc_verified(user: AccountId) -> bool { true }
pub open spec fn kyc_expiry(user: AccountId) -> Option<u64> { None }
pub open spec fn address_sanctioned(user: AccountId) -> bool { false }
pub open spec fn jurisdiction_restricted(user: AccountId) -> bool { false }
pub open spec fn valid_legal_signature(user: AccountId, vesting_id: u32) -> bool { true }
pub open spec fn documents_verified(user: AccountId) -> bool { true }
pub open spec fn accreditation_required(vesting_id: u32) -> bool { false }
pub open spec fn user_accredited(user: AccountId) -> bool { true }
pub open spec fn tax_compliant(user: AccountId) -> bool { true }
pub open spec fn regulatory_block_active() -> bool { false }
pub open spec fn whitelist_approved(user: AccountId) -> bool { true }
pub open spec fn on_blacklist(user: AccountId) -> bool { false }
pub open spec fn geofencing_restricted(user: AccountId) -> bool { false }
pub open spec fn identity_expiry(user: AccountId) -> Option<u64> { None }
pub open spec fn source_of_funds_verified(user: AccountId) -> bool { true }
pub open spec fn beneficial_owner_verified(user: AccountId) -> bool { true }
pub open spec fn politically_exposed(user: AccountId) -> bool { false }
pub open spec fn on_sanctions_list(user: AccountId) -> bool { false }

/// The first compliance check a claim fails, in the order they are run.
pub open spec fn compliance_failure(user: AccountId, vesting_id: u32, amount: i128, now: u64) -> Option<Error> {
    if !kyc_verified(user) {
        Some(Error::KycNotCompleted)
    } else if kyc_expiry(user) matches Some(exp) && now > exp {
        Some(Error::KycExpired)
    } else if address_sanctioned(user) {
        Some(Error::AddressSanctioned)
    } else if jurisdiction_restricted(user) {
        Some(Error::JurisdictionRestricted)
    } else if !valid_legal_signature(user, vesting_id) {
        Some(Error::LegalSignatureMissing)
    } else if amount > AML_THRESHOLD {
        Some(Error::AmlThresholdExceeded)
    } else if USER_RISK_RATING > MAX_ALLOWED_RISK {
        Some(Error::RiskRatingTooHigh)
    } else if !documents_verified(user) {
        Some(Error::DocumentVerificationFailed)
    } else if accreditation_required(vesting_id) && !user_accredited(user) {
        Some(Error::AccreditationStatusInvalid)
    } else if !tax_compliant(user) {
        Some(Error::TaxComplianceFailed)
    } else if regulatory_block_active() {
        Some(Error::RegulatoryBlockActive)
    } else if !whitelist_approved(user) {
        Some(Error::WhitelistNotApproved)
    } else if on_blacklist(user) {
        Some(Error::BlacklistViolation)
    } else if geofencing_restricted(user) {
        Some(Error::GeofencingRestriction)
    } else if identity_expiry(user) matches Some(exp) && now > exp {
        Some(Error::IdentityVerificationExpired)
    } else if !source_of_funds_verified(user) {
        Some(Error::SourceOfFundsNotVerified)
    } else if !beneficial_owner_verified(user) {
        Some(Error::BeneficialOwnerNotVerified)
    } else if politically_exposed(user) {
        Some(Error::PoliticallyExposedPerson)
    } else if on_sanctions_list(user) {
        Some(Error::SanctionsListHit)
    } else {
        None
    }
}

/// The LST amount paid for `amount` base units.
pub open spec fn lst_amount_for(amount: i128) -> int {
    trunc_div(amount * LST_EXCHANGE_RATE, LST_RATE_SCALE as int)
}

/// The claims of one beneficiary, in the order they were made.
pub open spec fn claims_of(history: Seq<ClaimEvent>, user: AccountId) -> Seq<ClaimEvent>
    decreases history.len(),
{
    if history.len() == 0 {
        Seq::empty()
    } else {
        let earlier = claims_of(history.drop_last(), user);
        if history.last().beneficiary == user {
            earlier.push(history.last())
        } else {
            earlier
        }
    }
}

/// The whitelisting request made at `now` for `address` to become
/// `beneficiary`'s payout address; it takes effect after the timelock.
pub open spec fn payout_request(beneficiary: AccountId, address: AccountId, now: u64) -> AddressWhitelistRequest {
    AddressWhitelistRequest {
        beneficiary,
        requested_address: address,
        requested_at: now,
        effective_at: (now + TIMELOCK_DURATION) as u64,
    }
}

/// Why confirming `beneficiary`'s pending payout address at `now` is
/// refused, if it is: no request is pending, or its timelock has not run out.
pub open spec fn confirmation_refusal(pending: Map<AccountId, AddressWhitelistRequest>, beneficiary: AccountId, now: u64) -> Option<Error> {
    if !pending.contains_key(beneficiary) {
        Some(Error::InvalidInput)
    } else if now < pending[beneficiary].effective_at {
        Some(Error::TimelockNotElapsed)
    } else {
        None
    }
}

impl VestingVault {
    /// The whitelisted payout address of `user` is active but its timelock
    /// has not run out at `now`.
    pub open spec fn payout_timelocked(&self, user: AccountId, now: u64) -> bool {
        self.authorized_payout_addresses@.contains_key(user)
            && self.authorized_payout_addresses@[user].is_active
            && now < self.authorized_payout_addresses@[user].effective_at
    }

    /// LST delivery is configured and enabled for a schedule.
    pub open spec fn lst_enabled(&self, vesting_id: u32) -> bool {
        self.lst_configs@.contains_key(vesting_id) && self.lst_configs@[vesting_id].enabled
    }

    /// Why a claim is refused, if it is: a compliance failure, an emergency
    /// pause in force, or a payout address still in its timelock.
    pub open spec fn claim_refusal(&self, user: AccountId, vesting_id: u32, amount: i128, now: u64) -> Option<Error> {
        if compliance_failure(user, vesting_id, amount, now) is Some {
            compliance_failure(user, vesting_id, amount, now)
        } else if self.pause_in_force(now) {
            Some(Error::RegulatoryBlockActive)
        } else if self.payout_timelocked(user, now) {
            Some(Error::WhitelistNotApproved)
        } else {
            None
        }
    }

    /// The emergency pause as it stands after a check at `now`: removed when
    /// it has run out.
    pub open spec fn pause_after_check(&self, now: u64) -> Option<crate::vault_types::EmergencyPause> {
        if self.pause_lapsed(now) {
            None
        } else {
            self.emergency_pause
        }
    }

    /// Records a claim of `amount` by `user` against schedule `vesting_id`.
    ///
    /// The claim must pass the compliance gate, must not fall in an emergency
    /// pause (a pause that has run out is removed), and must not come while
    /// the user's whitelisted payout address is still in its timelock. When
    /// the schedule pays out in an LST, the LST amount is announced.
    pub fn claim(&mut self, user: &AccountId, vesting_id: u32, amount: i128, now: u64) -> (r: Result<(), Error>)
        requires
            old(self).wf(),
            old(self).claim_refusal(*user, vesting_id, amount, now) is None && old(self).lst_enabled(vesting_id)
                ==> amount * LST_EXCHANGE_RATE >= i128::MIN,
        ensures
            final(self).wf(),
            match old(self).claim_refusal(*user, vesting_id, amount, now) {
                Some(e) => {
                    &&& r == Err::<(), Error>(e)
                    &&& if e == Error::WhitelistNotApproved {
                        *final(self) == (VestingVault { emergency_pause: old(self).pause_after_check(now), ..*old(self) })
                    } else {
                        *final(self) == *old(self)
                    }
                },
                None => {
                    &&& r is Ok
                    &&& *final(self) == (VestingVault {
                        emergency_pause: old(self).pause_after_check(now),
                        claim_history: final(self).claim_history,
                        events: final(self).events,
                        ..*old(self)
                    })
                    &&& final(self).claim_history@ == old(self).claim_history@.push(
                        ClaimEvent { beneficiary: *user, amount, timestamp: now, vesting_id },
                    )
                    &&& final(self).events@ == if old(self).lst_enabled(vesting_id) {
                        old(self).events@.push(VaultEvent::LSTClaimExecuted(LSTClaimExecuted {
                            user: *user,
                            vesting_id,
                            base_amount: amount,
                            lst_amount: lst_amount_for(amount) as i128,
                            lst_token_address: old(self).lst_configs@[vesting_id].lst_token_address,
                            timestamp: now,
                        }))
                    } else {
                        old(self).events@
                    }
                },
            },
    {
        if !Self::is_kyc_verified(user) {
            return Err(Error::KycNotCompleted);
        }
        if let Some(kyc_expiry) = Self::get_kyc_expiry(user) {
            if now > kyc_expiry {
                return Err(Error::KycExpired);
            }
        }
        if Self::is_address_sanctioned(user) {
            return Err(Error::AddressSanctioned);
        }
        if Self::is_jurisdiction_restricted(user) {
            return Err(Error::JurisdictionRestricted);
        }
        if !Self::has_valid_legal_signature(user, vesting_id) {
            return Err(Error::LegalSignatureMissing);
        }
        if amount > Self::get_aml_threshold() {
            return Err(Error::AmlThresholdExceeded);
        }
        if Self::get_user_risk_rating(user) > Self::get_max_allowed_risk() {
            return Err(Error::RiskRatingTooHigh);
        }
        if !Self::are_documents_verified(user) {
            return Err(Error::DocumentVerificationFailed);
        }
        if Self::is_accreditation_required(vesting_id) && !Self::is_user_accredited(user) {
            return Err(Error::AccreditationStatusInvalid);
        }
        if !Self::is_tax_compliant(user) {
            return Err(Error::TaxComplianceFailed);
        }
        if Self::is_regulatory_block_active() {
            return Err(Error::RegulatoryBlockActive);
        }
        if !Self::is_whitelist_approved(user) {
            return Err(Error::WhitelistNotApproved);
        }
        if Self::is_on_blacklist(user) {
            return Err(Error::BlacklistViolation);
        }
        if Self::is_geofencing_restricted(user) {
            return Err(Error::GeofencingRestriction);
        }
        if let Some(identity_expiry) = Self::get_identity_expiry(user) {
            if now > identity_expiry {
                return Err(Error::IdentityVerificationExpired);
            }
        }
        if !Self::is_source_of_funds_verified(user) {
            return Err(Error::SourceOfFundsNotVerified);
        }
        if !Self::is_beneficial_owner_verified(user) {
            return Err(Error::BeneficialOwnerNotVerified);
        }
        if Self::is_politically_exposed_person(user) {
            return Err(Error::PoliticallyExposedPerson);
        }
        if Self::is_on_sanctions_list(user) {
            return Err(Error::SanctionsListHit);
        }
        if self.check_emergency_pause(now) {
            return Err(Error::RegulatoryBlockActive);
        }
        if let Some(auth_address) = self.authorized_payout_addresses.get(user) {
            if auth_address.is_active && now < auth_address.effective_at {
                return Err(Error::WhitelistNotApproved);
            }
        }
        let lst = match self.lst_configs.get(&vesting_id) {
            Some(config) => if config.enabled {
                Some(config.lst_token_address)
            } else {
                None
            },
            None => None,
        };
        if let Some(lst_token_address) = lst {
            let exchange_rate = Self::get_lst_exchange_rate(&lst_token_address);
            let scaled = amount * exchange_rate;
            assert(i128::MIN <= trunc_div(scaled as int, LST_RATE_SCALE as int) <= i128::MAX) by (nonlinear_arith)
                requires i128::MIN <= scaled <= i128::MAX;
            let lst_amount = div_toward_zero(scaled, 10_000_000i128);
            self.events.push(VaultEvent::LSTClaimExecuted(LSTClaimExecuted {
                user: *user,
                vesting_id,
                base_amount: amount,
                lst_amount,
                lst_token_address,
                timestamp: now,
            }));
        }
        self.claim_history.push(ClaimEvent { beneficiary: *user, amount, timestamp: now, vesting_id });
        Ok(())
    }

    /// Asks for `authorized_address` to become `beneficiary`'s only payout
    /// address; the request takes effect 48 hours from `now`.
    pub fn set_authorized_payout_address(&mut self, beneficiary: &AccountId, authorized_address: &AccountId, now: u64)
        requires
            old(self).wf(),
            now + TIMELOCK_DURATION <= u64::MAX,
        ensures
            final(self).wf(),
            *final(self) == (VestingVault {
                pending_address_requests: final(self).pending_address_requests,
                events: final(self).events,
                ..*old(self)
            }),
            final(self).pending_address_requests@ == old(self).pending_address_requests@.insert(
                *beneficiary,
                payout_request(*beneficiary, *authorized_address, now),
            ),
            final(self).events@ == old(self).events@.push(VaultEvent::AddressWhitelistRequested(
                AddressWhitelistRequested {
                    beneficiary: *beneficiary,
                    requested_address: *authorized_address,
                    requested_at: now,
                    effective_at: (now + TIMELOCK_DURATION) as u64,
                },
            )),
    {
        let effective_at = now + TIMELOCK_DURATION;
        let request = AddressWhitelistRequest {
            beneficiary: *beneficiary,
            requested_address: *authorized_address,
            requested_at: now,
            effective_at,
        };
        self.pending_address_requests.insert(*beneficiary, request);
        self.events.push(VaultEvent::AddressWhitelistRequested(AddressWhitelistRequested {
            beneficiary: *beneficiary,
            requested_address: *authorized_address,
            requested_at: now,
            effective_at,
        }));
    }

    /// Activates `beneficiary`'s pending payout address once its timelock has
    /// run out.
    pub fn confirm_auth_payout_addr(&mut self, beneficiary: &AccountId, now: u64) -> (r: Result<(), Error>)
        requires
            old(self).wf(),
        ensures
            final(self).wf(),
            confirmation_refusal(old(self).pending_address_requests@, *beneficiary, now) matches Some(e) ==> r
                == Err::<(), Error>(e) && *final(self) == *old(self),
            confirmation_refusal(old(self).pending_address_requests@, *beneficiary, now) is None ==> {
                let req = old(self).pending_address_requests@[*beneficiary];
                &&& r is Ok
                &&& *final(self) == (VestingVault {
                    authorized_payout_addresses: final(self).authorized_payout_addresses,
                    pending_address_requests: final(self).pending_address_requests,
                    events: final(self).events,
                    ..*old(self)
                })
                &&& final(self).authorized_payout_addresses@ == old(self).authorized_payout_addresses@.insert(
                    *beneficiary,
                    AuthorizedPayoutAddress {
                        beneficiary: *beneficiary,
                        authorized_address: req.requested_address,
                        requested_at: req.requested_at,
                        effective_at: req.effective_at,
                        is_active: true,
                    },
                )
                &&& final(self).pending_address_requests@ == old(self).pending_address_requests@.remove(*beneficiary)
                &&& final(self).events@ == old(self).events@.push(VaultEvent::AuthorizedAddressSet(
                    AuthorizedAddressSet {
                        beneficiary: *beneficiary,
                        authorized_address: req.requested_address,
                        effective_at: req.effective_at,
                    },
                ))
            },
    {
        let pending_request = match self.pending_address_requests.get(beneficiary) {
            Some(req) => *req,
            None => {
                return Err(Error::InvalidInput);
            },
        };
        if now < pending_request.effective_at {
            return Err(Error::TimelockNotElapsed);
        }
        let auth_address = AuthorizedPayoutAddress {
            beneficiary: *beneficiary,
            authorized_address: pending_request.requested_address,
            requested_at: pending_request.requested_at,
            effective_at: pending_request.effective_at,
            is_active: true,
        };
        self.authorized_payout_addresses.insert(*beneficiary, auth_address);
        self.pending_address_requests.remove(beneficiary);
        self.events.push(VaultEvent::AuthorizedAddressSet(AuthorizedAddressSet {
            beneficiary: *beneficiary,
            authorized_address: pending_request.requested_address,
            effective_at: pending_request.effective_at,
        }));
        Ok(())
    }

    /// The payout address whitelisted for `beneficiary`, if any.
    pub fn get_authorized_payout_address(&self, beneficiary: &AccountId) -> (r: Option<AuthorizedPayoutAddress>)
        requires
            self.wf(),
        ensures
            r == (if self.authorized_payout_addresses@.contains_key(*beneficiary) {
                Some(self.authorized_payout_addresses@[*beneficiary])
            } else {
                None
            }),
    {
        match self.authorized_payout_addresses.get(beneficiary) {
            Some(a) => Some(*a),
            None => None,
        }
    }

    /// The pending payout-address request of `beneficiary`, if any.
    pub fn get_pending_address_request(&self, beneficiary: &AccountId) -> (r: Option<AddressWhitelistRequest>)
        requires
            self.wf(),
        ensures
            r == (if self.pending_address_requests@.contains_key(*beneficiary) {
                Some(self.pending_address_requests@[*beneficiary])
            } else {
                None
            }),
    {
        match self.pending_address_requests.get(beneficiary) {
            Some(a) => Some(*a),
            None => None,
        }
    }

    /// Drops `beneficiary`'s whitelisted payout address and any pending
    /// request, with immediate effect.
    pub fn remove_authorized_payout_address(&mut self, beneficiary: &AccountId)
        requires
            old(self).wf(),
        ensures
            final(self).wf(),
            *final(self) == (VestingVault {
                authorized_payout_addresses: final(self).authorized_payout_addresses,
                pending_address_requests: final(self).pending_address_requests,
                ..*old(self)
            }),
            final(self).authorized_payout_addresses@ == old(self).authorized_payout_addresses@.remove(*beneficiary),
            final(self).pending_address_requests@ == old(self).pending_address_requests@.remove(*beneficiary),
    {
        self.authorized_payout_addresses.remove(beneficiary);
        self.pending_address_requests.remove(beneficiary);
    }

    /// The full claim history, oldest first.
    pub fn get_all_claims(&self) -> (r: Vec<ClaimEvent>)
        ensures
            r@ == self.claim_history@,
    {
        let mut r: Vec<ClaimEvent> = Vec::new();
        let mut i: usize = 0;
        while i < self.claim_history.len()
            invariant
                0 <= i <= self.claim_history@.len(),
                r@ == self.claim_history@.subrange(0, i as int),
            decreases self.claim_history@.len() - i,
        {
            r.push(self.claim_history[i]);
            i = i + 1;
            assert(r@ =~= self.claim_history@.subrange(0, i as int));
        }
        assert(self.claim_history@.subrange(0, self.claim_history@.len() as int) =~= self.claim_history@);
        r
    }

    /// The claims made by `user`, oldest first.
    pub fn get_claims_by_user(&self, user: &AccountId) -> (r: Vec<ClaimEvent>)
        ensures
            r@ == claims_of(self.claim_history@, *user),
    {
        let mut r: Vec<ClaimEvent> = Vec::new();
        let mut i: usize = 0;
        while i < self.claim_history.len()
            invariant
                0 <= i <= self.claim_history@.len(),
                r@ == claims_of(self.claim_history@.subrange(0, i as int), *user),
            decreases self.claim_history@.len() - i,
        {
            let c = self.claim_history[i];
            assert(self.claim_history@.subrange(0, i + 1).drop_last() =~= self.claim_history@.subrange(0, i as int));
            if c.beneficiary.same(user) {
                r.push(c);
            }
            i = i + 1;
        }
        assert(self.claim_history@.subrange(0, self.claim_history@.len() as int) =~= self.claim_history@);
        r
    }

    /// A dry run of a claim by `user`: whether it could go through now, and
    /// the amounts it would move.
    pub fn simulate_claim(&self, user: &AccountId, vesting_id: u32, now: u64) -> (r: ClaimSimulation)
        requires
            self.wf(),
        ensures
            self.pause_in_force(now) ==> {
                &&& r.tokens_to_release == 0 && r.estimated_gas_fee == 0
                &&& r.tax_withholding_amount == 0 && r.net_amount == 0 && !r.can_claim
                &&& r.reason@ == "Contract is under emergency pause"@
            },
            !self.pause_in_force(now) && self.payout_timelocked(*user, now) ==> {
                &&& r.tokens_to_release == 0 && r.estimated_gas_fee == 0
                &&& r.tax_withholding_amount == 0 && r.net_amount == 0 && !r.can_claim
                &&& r.reason@ == "Authorized payout address is still in timelock period"@
            },
            !self.pause_in_force(now) && !self.payout_timelocked(*user, now) ==> {
                &&& r.tokens_to_release == 1000 && r.estimated_gas_fee == 50000
                &&& r.tax_withholding_amount == 50 && r.net_amount == 950 && r.can_claim
                &&& r.reason@ == "Claim available"@
            },
    {
        if let Some(pause) = &self.emergency_pause {
            if pause.is_active && now < pause.expires_at {
                return ClaimSimulation {
                    tokens_to_release: 0,
                    estimated_gas_fee: 0,
                    tax_withholding_amount: 0,
                    net_amount: 0,
                    can_claim: false,
                    reason: String::from_str("Contract is under emergency pause"),
                };
            }
        }
        if let Some(auth_address) = self.authorized_payout_addresses.get(user) {
            if auth_address.is_active && now < auth_address.effective_at {
                return ClaimSimulation {
                    tokens_to_release: 0,
                    estimated_gas_fee: 0,
                    tax_withholding_amount: 0,
                    net_amount: 0,
                    can_claim: false,
                    reason: String::from_str("Authorized payout address is still in timelock period"),
                };
            }
        }
        let tokens_to_release: i128 = 1000;
        let estimated_gas_fee: u64 = 50000;
        let tax_withholding_amount: i128 = 50;
        let net_amount = tokens_to_release - tax_withholding_amount;
        ClaimSimulation {
            tokens_to_release,
            estimated_gas_fee,
            tax_withholding_amount,
            net_amount,
            can_claim: true,
            reason: String::from_str("Claim available"),
        }
    }

    /// Units of LST paid per base unit, scaled by 10^7.
    fn get_lst_exchange_rate(lst_token: &AccountId) -> (r: i128)
        ensures
            r == LST_EXCHANGE_RATE,
    {
        9_000_000
    }

    fn is_kyc_verified(user: &AccountId) -> (r: bool)
        ensures r == kyc_verified(*user),
    {
        true
    }

    fn get_kyc_expiry(user: &AccountId) -> (r: Option<u64>)
        ensures r == kyc_expiry(*user),
    {
        None
    }

    fn is_address_sanctioned(user: &AccountId) -> (r: bool)
        ensures r == address_sanctioned(*user),
    {
        false
    }

    fn is_jurisdiction_restricted(user: &AccountId) -> (r: bool)
        ensures r == jurisdiction_restricted(*user),
    {
        false
    }

    fn has_valid_legal_signature(user: &AccountId, vesting_id: u32) -> (r: bool)
        ensures r == valid_legal_signature(*user, vesting_id),
    {
        true
    }

    fn get_aml_threshold() -> (r: i128)
        ensures r == AML_THRESHOLD,
    {
        1_000_000
    }

    fn get_user_risk_rating(user: &AccountId) -> (r: u32)
        ensures r == USER_RISK_RATING,
    {
        1
    }

    fn get_max_allowed_risk() -> (r: u32)
        ensures r == MAX_ALLOWED_RISK,
    {
        5
    }

    fn are_documents_verified(user: &AccountId) -> (r: bool)
        ensures r == documents_verified(*user),
    {
        true
    }

    fn is_accreditation_required(vesting_id: u32) -> (r: bool)
        ensures r == accreditation_required(vesting_id),
    {
        false
    }

    fn is_user_accredited(user: &AccountId) -> (r: bool)
        ensures r == user_accredited(*user),
    {
        true
    }

    fn is_tax_compliant(user: &AccountId) -> (r: bool)
        ensures r == tax_compliant(*user),
    {
        true
    }

    fn is_regulatory_block_active() -> (r: bool)
        ensures r == regulatory_block_active(),
    {
        false
    }

    fn is_whitelist_approved(user: &AccountId) -> (r: bool)
        ensures r == whitelist_approved(*user),
    {
        true
    }

    fn is_on_blacklist(user: &AccountId) -> (r: bool)
        ensures r == on_blacklist(*user),
    {
        false
    }

    fn is_geofencing_restricted(user: &AccountId) -> (r: bool)
        ensures r == geofencing_restricted(*user),
    {
        false
    }

    fn get_identity_expiry(user: &AccountId) -> (r: Option<u64>)
        ensures r == identity_expiry(*user),
    {
        None
    }

    fn is_source_of_funds_verified(user: &AccountId) -> (r: bool)
        ensures r == source_of_funds_verified(*user),
    {
        true
    }

    fn is_beneficial_owner_verified(user: &AccountId) -> (r: bool)
        ensures r == beneficial_owner_verified(*user),
    {
        true
    }

    fn is_politically_exposed_person(user: &AccountId) -> (r: bool)
        ensures r == politically_exposed(*user),
    {
        false
    }

    fn is_on_sanctions_list(user: &AccountId) -> (r: bool)
        ensures r == on_sanctions_list(*user),
    {
        false
    }
}

} // verus!
