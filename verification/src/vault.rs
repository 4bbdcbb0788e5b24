//! The vesting vault's state: everything the contract keeps in storage, and
//! the log of events its operations publish.
use vstd::prelude::*;
use crate::account::{AccountId, Bytes32, account_lt};
use crate::table::{Table, ScheduleKey};
use crate::vault_types::{
    ClaimEvent,
    AuthorizedPayoutAddress,
    AddressWhitelistRequest,
    AuthorizedAddressSet,
    AddressWhitelistRequested,
    MilestoneCompleted,
    TaxWithholdingConfig,
    TaxWithholdingConfigured,
    TaxWithholdingDisabled,
    SEP12IdentityOracle,
    SEP12OracleConfigured,
    SEP12KYCDisabled,
    KYCCheckFailed,
    TokenMetadata,
    TokenMetadataRegistered,
    VestingGrant,
    VestingGrantCreated,
    RevocabilityExpired,
    ReputationBonusApplied,
    Commitment,
    PrivacyClaimEvent,
    CommitmentCreated,
    PrivateClaimExecuted,
    PathPaymentConfig,
    PathPaymentClaimEvent,
    PathPaymentConfigured,
    PathPaymentDisabled,
    PathPaymentClaimExecuted,
    LockupConfig,
    LockupConfigured,
    LockupDisabled,
    LockupClaimExecuted,
    BeneficiaryReassignment,
    VetoVote,
    TokenSupplyInfo,
    BeneficiaryReassignmentRequested,
    BeneficiaryReassignmentExecuted,
    VetoPeriodStarted,
    VetoVoteCast,
    ReassignmentVetoed,
    LSTConfig,
    LSTConfigured,
    LSTClaimExecuted,
    VotingPowerQueried,
    AdminDeadManSwitch,
    AdminRecoveryAddressSet,
    AdminActivityRecorded,
    AdminRecoveryClaimed,
    OraclePriceRecord,
    OraclePriceUpdated,
    OracleCircuitBreakerTripped,
    OracleCircuitBreakerReset,
    UpgradeBlocked,
    ProtocolSunset,
    MigrationPayload,
    RelayerMigration,
    SunsetInitiated,
    SunsetAborted,
    StateMigrated,
    AuditorPauseRequest,
    EmergencyPause,
    EmergencyPauseTriggered,
};

verus! {

/// Delay before a whitelisted payout address (or a small reassignment) takes
/// effect: 48 hours.
pub const TIMELOCK_DURATION: u64 = 172_800;

/// How long an emergency pause imposed by the auditors lasts: 72 hours.
pub const EMERGENCY_PAUSE_DURATION: u64 = 259_200;

/// Veto window for reassignments that need governance approval: 7 days.
pub const GOVERNANCE_VETO_PERIOD: u64 = 604_800;

/// Share of the supply, in percent, above which a reassignment needs a
/// governance veto window, unless another threshold was set.
pub const DEFAULT_GOVERNANCE_VETO_THRESHOLD: u32 = 5;

/// How long a new grant stays revocable: twelve 30-day months, in seconds.
pub const REVOCABILITY_WINDOW: u64 = 31_104_000;

/// Every event the vault publishes.
#[derive(Debug)]
pub enum VaultEvent {
    AddressWhitelistRequested(AddressWhitelistRequested),
    AuthorizedAddressSet(AuthorizedAddressSet),
    LSTClaimExecuted(LSTClaimExecuted),
    EmergencyPauseTriggered(EmergencyPauseTriggered),
    ReputationBonusApplied(ReputationBonusApplied),
    MilestoneCompleted(MilestoneCompleted),
    CommitmentCreated(CommitmentCreated),
    PrivateClaimExecuted(PrivateClaimExecuted),
    PathPaymentConfigured(PathPaymentConfigured),
    PathPaymentDisabled(PathPaymentDisabled),
    PathPaymentClaimExecuted(PathPaymentClaimExecuted),
    LockupConfigured(LockupConfigured),
    LockupDisabled(LockupDisabled),
    LockupClaimExecuted(LockupClaimExecuted),
    BeneficiaryReassignmentRequested(BeneficiaryReassignmentRequested),
    VetoPeriodStarted(VetoPeriodStarted),
    BeneficiaryReassignmentExecuted(BeneficiaryReassignmentExecuted),
    VetoVoteCast(VetoVoteCast),
    ReassignmentVetoed(ReassignmentVetoed),
    TaxWithholdingConfigured(TaxWithholdingConfigured),
    TaxWithholdingDisabled(TaxWithholdingDisabled),
    SEP12OracleConfigured(SEP12OracleConfigured),
    SEP12KYCDisabled(SEP12KYCDisabled),
    KYCCheckFailed(KYCCheckFailed),
    TokenMetadataRegistered(TokenMetadataRegistered),
    VestingGrantCreated(VestingGrantCreated),
    RevocabilityExpired(RevocabilityExpired),
    LSTConfigured(LSTConfigured),
    VotingPowerQueried(VotingPowerQueried),
    AdminRecoveryAddressSet(AdminRecoveryAddressSet),
    AdminActivityRecorded(AdminActivityRecorded),
    AdminRecoveryClaimed(AdminRecoveryClaimed),
    OraclePriceUpdated(OraclePriceUpdated),
    OracleCircuitBreakerTripped(OracleCircuitBreakerTripped),
    OracleCircuitBreakerReset(OracleCircuitBreakerReset),
    UpgradeBlocked(UpgradeBlocked),
    SunsetInitiated(SunsetInitiated),
    SunsetAborted(SunsetAborted),
    StateMigrated(StateMigrated),
}

/// The vesting vault: its storage, and the events published so far.
///
/// Operations take the ledger time (`now`) and, where it matters, the ledger
/// sequence number as arguments; signatures are checked by the host before an
/// operation runs.
pub struct VestingVault {
    pub claim_history: Vec<ClaimEvent>,
    pub authorized_payout_addresses: Table<AccountId, AuthorizedPayoutAddress>,
    pub pending_address_requests: Table<AccountId, AddressWhitelistRequest>,
    pub auditors: Vec<AccountId>,
    /// Standing pause requests, sorted by auditor in ledger address order.
    pub auditor_pause_requests: Vec<AuditorPauseRequest>,
    pub emergency_pause: Option<EmergencyPause>,
    pub reputation_bridge: Option<AccountId>,
    pub reputation_bonus_applied: Table<AccountId, bool>,
    pub milestone_configs: Table<u32, Vec<u32>>,
    pub milestone_status: Table<u32, Table<u32, bool>>,
    pub commitments: Table<Bytes32, Commitment>,
    pub used_nullifiers: Table<Bytes32, bool>,
    pub merkle_roots: Vec<Bytes32>,
    pub privacy_claim_history: Vec<PrivacyClaimEvent>,
    pub path_payment_config: Option<PathPaymentConfig>,
    pub path_payment_claim_history: Vec<PathPaymentClaimEvent>,
    pub lockup_configs: Table<u32, LockupConfig>,
    /// When the lock-up tokens an account claimed from a schedule unlock: the
    /// latest unlock time among its lock-up claims.
    pub lockup_unlock_times: Table<ScheduleKey, u64>,
    pub token_supply: TokenSupplyInfo,
    pub governance_veto_threshold: u32,
    pub reassignment_counter: u32,
    pub reassignments: Table<u32, BeneficiaryReassignment>,
    pub veto_votes: Table<u32, Vec<VetoVote>>,
    pub tax_withholding_config: Option<TaxWithholdingConfig>,
    pub sep12_oracle: Option<SEP12IdentityOracle>,
    pub token_metadata: Table<AccountId, TokenMetadata>,
    pub vesting_grants: Table<u32, VestingGrant>,
    pub lst_configs: Table<u32, LSTConfig>,
    pub unvested_balances: Table<AccountId, i128>,
    pub admin_switch: Option<AdminDeadManSwitch>,
    pub oracle_price: Option<OraclePriceRecord>,
    pub total_unvested: i128,
    pub protocol_sunset: Option<ProtocolSunset>,
    pub migration_payloads: Table<ScheduleKey, MigrationPayload>,
    pub relayer_migrations: Table<ScheduleKey, RelayerMigration>,
    /// Events published, oldest first.
    pub events: Vec<VaultEvent>,
}

/// The auditors of a list of pause requests, in order.
pub open spec fn request_auditors(rs: Seq<AuditorPauseRequest>) -> Seq<AccountId> {
    rs.map_values(|r: AuditorPauseRequest| r.auditor)
}

/// Pause requests sorted strictly by auditor (so no auditor appears twice).
pub open spec fn requests_sorted(rs: Seq<AuditorPauseRequest>) -> bool {
    forall|i: int, j: int| 0 <= i < j < rs.len() ==> account_lt(#[trigger] rs[i].auditor, #[trigger] rs[j].auditor)
}

impl VestingVault {
    /// The vault's storage invariant.
    pub open spec fn wf(&self) -> bool {
        &&& self.authorized_payout_addresses.wf()
        &&& self.pending_address_requests.wf()
        &&& requests_sorted(self.auditor_pause_requests@)
        &&& self.reputation_bonus_applied.wf()
        &&& self.milestone_configs.wf()
        &&& self.milestone_status.wf()
        &&& forall|k: u32| #[trigger] self.milestone_status@.contains_key(k) ==> self.milestone_status@[k].wf()
        &&& self.commitments.wf()
        &&& self.used_nullifiers.wf()
        &&& self.lockup_configs.wf()
        &&& self.lockup_unlock_times.wf()
        &&& self.reassignments.wf()
        &&& self.veto_votes.wf()
        &&& self.token_metadata.wf()
        &&& self.vesting_grants.wf()
        &&& self.lst_configs.wf()
        &&& self.unvested_balances.wf()
        &&& self.migration_payloads.wf()
        &&& self.relayer_migrations.wf()
        &&& (self.oracle_price matches Some(r) ==> r.last_price > 0 && (!r.is_frozen ==> r.frozen_at == 0))
        &&& self.total_unvested >= 0
        &&& self.governance_veto_threshold <= 100
        &&& (self.tax_withholding_config matches Some(c) ==> c.tax_withholding_bps <= 10000)
    }

    /// A vault with empty storage.
    pub fn new() -> (v: Self)
        ensures
            v.wf(),
            v.claim_history@ == Seq::<ClaimEvent>::empty(),
            v.authorized_payout_addresses@ == Map::<AccountId, AuthorizedPayoutAddress>::empty(),
            v.pending_address_requests@ == Map::<AccountId, AddressWhitelistRequest>::empty(),
            v.auditors@ == Seq::<AccountId>::empty(),
            v.auditor_pause_requests@ == Seq::<AuditorPauseRequest>::empty(),
            v.emergency_pause is None,
            v.reputation_bridge is None,
            v.reputation_bonus_applied@ == Map::<AccountId, bool>::empty(),
            v.milestone_configs@ == Map::<u32, Vec<u32>>::empty(),
            v.milestone_status@ == Map::<u32, Table<u32, bool>>::empty(),
            v.commitments@ == Map::<Bytes32, Commitment>::empty(),
            v.used_nullifiers@ == Map::<Bytes32, bool>::empty(),
            v.merkle_roots@ == Seq::<Bytes32>::empty(),
            v.privacy_claim_history@ == Seq::<PrivacyClaimEvent>::empty(),
            v.path_payment_config is None,
            v.path_payment_claim_history@ == Seq::<PathPaymentClaimEvent>::empty(),
            v.lockup_configs@ == Map::<u32, LockupConfig>::empty(),
            v.lockup_unlock_times@ == Map::<ScheduleKey, u64>::empty(),
            v.token_supply.total_supply == 0,
            v.token_supply.last_updated == 0,
            v.governance_veto_threshold == DEFAULT_GOVERNANCE_VETO_THRESHOLD,
            v.reassignment_counter == 0,
            v.reassignments@ == Map::<u32, BeneficiaryReassignment>::empty(),
            v.veto_votes@ == Map::<u32, Vec<VetoVote>>::empty(),
            v.tax_withholding_config is None,
            v.sep12_oracle is None,
            v.token_metadata@ == Map::<AccountId, TokenMetadata>::empty(),
            v.vesting_grants@ == Map::<u32, VestingGrant>::empty(),
            v.lst_configs@ == Map::<u32, LSTConfig>::empty(),
            v.unvested_balances@ == Map::<AccountId, i128>::empty(),
            v.admin_switch is None,
            v.oracle_price is None,
            v.total_unvested == 0,
            v.protocol_sunset is None,
            v.migration_payloads@ == Map::<ScheduleKey, MigrationPayload>::empty(),
            v.relayer_migrations@ == Map::<ScheduleKey, RelayerMigration>::empty(),
            v.events@ == Seq::<VaultEvent>::empty(),
    {
        let v = VestingVault {
            claim_history: Vec::new(),
            authorized_payout_addresses: Table::new(),
            pending_address_requests: Table::new(),
            auditors: Vec::new(),
            auditor_pause_requests: Vec::new(),
            emergency_pause: None,
            reputation_bridge: None,
            reputation_bonus_applied: Table::new(),
            milestone_configs: Table::new(),
            milestone_status: Table::new(),
            commitments: Table::new(),
            used_nullifiers: Table::new(),
            merkle_roots: Vec::new(),
            privacy_claim_history: Vec::new(),
            path_payment_config: None,
            path_payment_claim_history: Vec::new(),
            lockup_configs: Table::new(),
            lockup_unlock_times: Table::new(),
            token_supply: TokenSupplyInfo { total_supply: 0, last_updated: 0 },
            governance_veto_threshold: DEFAULT_GOVERNANCE_VETO_THRESHOLD,
            reassignment_counter: 0,
            reassignments: Table::new(),
            veto_votes: Table::new(),
            tax_withholding_config: None,
            sep12_oracle: None,
            token_metadata: Table::new(),
            vesting_grants: Table::new(),
            lst_configs: Table::new(),
            unvested_balances: Table::new(),
            admin_switch: None,
            oracle_price: None,
            total_unvested: 0,
            protocol_sunset: None,
            migration_payloads: Table::new(),
            relayer_migrations: Table::new(),
            events: Vec::new(),
        };
        v
    }

    /// An emergency pause is in force at time `now`.
    pub open spec fn pause_in_force(&self, now: u64) -> bool {
        self.emergency_pause matches Some(p) && p.is_active && now < p.expires_at
    }

    /// An emergency pause is recorded as active but has run out at `now`.
    pub open spec fn pause_lapsed(&self, now: u64) -> bool {
        self.emergency_pause matches Some(p) && p.is_active && now >= p.expires_at
    }

    /// Whether an emergency pause is in force at `now`; a pause that has run
    /// out is removed.
    pub fn check_emergency_pause(&mut self, now: u64) -> (blocked: bool)
        ensures
            blocked == old(self).pause_in_force(now),
            *final(self) == (VestingVault {
                emergency_pause: if old(self).pause_lapsed(now) {
                    None
                } else {
                    old(self).emergency_pause
                },
                ..*old(self)
            }),
    {
        let mut lapsed = false;
        if let Some(pause) = &self.emergency_pause {
            if pause.is_active {
                if now < pause.expires_at {
                    return true;
                } else {
                    lapsed = true;
                }
            }
        }
        if lapsed {
            self.emergency_pause = None;
        }
        false
    }
}

} // verus!
