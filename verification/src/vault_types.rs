//! Records and events of the vesting vault.
use vstd::prelude::*;
use crate::account::{AccountId, Bytes32};
use crate::table::Table;

verus! {

#[derive(Clone, Copy, Debug, PartialEq, Eq, Structural)]
pub enum StreamPauseReason {
    SuspiciousActivity,
    AnomalousClaimPattern,
    CompromisedAddress,
    RapidWithdrawal,
    UnusualBehavior,
    ManualReview,
}

#[derive(Debug)]
pub struct StreamPause {
    pub vesting_id: u32,
    pub beneficiary: AccountId,
    pub paused_at: u64,
    pub paused_by: AccountId,
    pub reason: StreamPauseReason,
    pub is_active: bool,
    pub notes: String,
}

#[derive(Clone, Copy, Debug)]
pub struct StreamPaused {
    pub vesting_id: u32,
    pub beneficiary: AccountId,
    pub paused_at: u64,
    pub paused_by: AccountId,
    pub reason: StreamPauseReason,
}

#[derive(Clone, Copy, Debug)]
pub struct StreamUnpaused {
    pub vesting_id: u32,
    pub beneficiary: AccountId,
    pub unpaused_at: u64,
    pub unpaused_by: AccountId,
}

#[derive(Clone, Copy, Debug)]
pub struct ClaimEvent {
    pub beneficiary: AccountId,
    pub amount: i128,
    pub timestamp: u64,
    pub vesting_id: u32,
}

#[derive(Clone, Copy, Debug)]
pub struct AuthorizedPayoutAddress {
    pub beneficiary: AccountId,
    pub authorized_address: AccountId,
    pub requested_at: u64,
    pub effective_at: u64,
    pub is_active: bool,
}

#[derive(Clone, Copy, Debug)]
pub struct AddressWhitelistRequest {
    pub beneficiary: AccountId,
    pub requested_address: AccountId,
    pub requested_at: u64,
    pub effective_at: u64,
}

#[derive(Clone, Copy, Debug)]
pub struct AuthorizedAddressSet {
    pub beneficiary: AccountId,
    pub authorized_address: AccountId,
    pub effective_at: u64,
}

#[derive(Clone, Copy, Debug)]
pub struct AddressWhitelistRequested {
    pub beneficiary: AccountId,
    pub requested_address: AccountId,
    pub requested_at: u64,
    pub effective_at: u64,
}

#[derive(Debug)]
pub struct MilestoneConfig {
    pub vesting_id: u32,
    /// Percentage for each milestone (e.g., [25, 25, 50])
    pub milestone_percentages: Vec<u32>,
    pub total_milestones: u32,
}

pub struct MilestoneStatus {
    pub vesting_id: u32,
    /// milestone_number -> completed
    pub completed_milestones: Table<u32, bool>,
    pub last_completed: u32,
}

#[derive(Clone, Copy, Debug)]
pub struct MilestoneCompleted {
    pub vesting_id: u32,
    pub milestone_number: u32,
    pub completed_at: u64,
}

#[derive(Debug)]
pub struct ClaimSimulation {
    pub tokens_to_release: i128,
    pub estimated_gas_fee: u64,
    pub tax_withholding_amount: i128,
    pub net_amount: i128,
    pub can_claim: bool,
    pub reason: String,
}

#[derive(Clone, Copy, Debug)]
pub struct TaxConfig {
    /// basis points (10000 = 100%)
    pub tax_bps: u32,
    /// tax authority receiving payments
    pub authority: AccountId,
    /// if Some, tax must be paid in this asset (may require swap)
    pub tax_asset: Option<AccountId>,
}

#[derive(Clone, Copy, Debug)]
pub struct TaxWithheld {
    pub vesting_id: u32,
    pub beneficiary: AccountId,
    pub gross_amount: i128,
    pub tax_amount: i128,
    pub net_amount: i128,
    pub timestamp: u64,
}

#[derive(Clone, Copy, Debug)]
pub struct TaxWithholdingConfig {
    pub tax_treasury_address: AccountId,
    pub tax_withholding_bps: u32,
    pub enabled: bool,
}

#[derive(Clone, Copy, Debug)]
pub struct TaxWithholdingConfigured {
    pub tax_treasury_address: AccountId,
    pub tax_withholding_bps: u32,
    pub timestamp: u64,
}

#[derive(Clone, Copy, Debug)]
pub struct TaxWithholdingDisabled {
    pub timestamp: u64,
}

#[derive(Clone, Copy, Debug)]
pub struct SEP12IdentityOracle {
    pub contract_address: AccountId,
    pub enabled: bool,
}

#[derive(Clone, Copy, Debug)]
pub struct SEP12OracleConfigured {
    pub oracle_address: AccountId,
    pub timestamp: u64,
}

#[derive(Clone, Copy, Debug)]
pub struct SEP12KYCDisabled {
    pub timestamp: u64,
}

#[derive(Debug)]
pub struct KYCCheckFailed {
    pub beneficiary: AccountId,
    pub reason: String,
    pub timestamp: u64,
}

#[derive(Clone, Copy, Debug)]
pub struct TokenMetadata {
    pub asset_address: AccountId,
    pub decimals: u32,
}

#[derive(Clone, Copy, Debug)]
pub struct TokenMetadataRegistered {
    pub asset_address: AccountId,
    pub decimals: u32,
    pub timestamp: u64,
}

#[derive(Clone, Copy, Debug)]
pub struct VestingGrant {
    pub vesting_id: u32,
    pub beneficiary: AccountId,
    pub created_at: u64,
    pub is_revocable: bool,
    pub revocability_expires_at: u64,
}

#[derive(Clone, Copy, Debug)]
pub struct VestingGrantCreated {
    pub vesting_id: u32,
    pub beneficiary: AccountId,
    pub is_revocable: bool,
    pub revocability_expires_at: u64,
    pub created_at: u64,
}

#[derive(Clone, Copy, Debug)]
pub struct RevocabilityExpired {
    pub vesting_id: u32,
    pub beneficiary: AccountId,
    pub expired_at: u64,
}

#[derive(Clone, Copy, Debug)]
pub struct ReputationBonus {
    pub beneficiary: AccountId,
    pub cliff_reduction_months: u32,
    pub applied_at: u64,
}

#[derive(Clone, Copy, Debug)]
pub struct ReputationBonusApplied {
    pub beneficiary: AccountId,
    pub cliff_reduction_months: u32,
    pub applied_at: u64,
}

#[derive(Clone, Copy, Debug)]
pub struct Nullifier {
    /// 256-bit hash
    pub hash: Bytes32,
}

#[derive(Clone, Copy, Debug)]
pub struct Commitment {
    /// 256-bit hash
    pub hash: Bytes32,
    pub created_at: u64,
    pub vesting_id: u32,
    pub amount: i128,
    pub is_used: bool,
}

#[derive(Debug)]
pub struct ZKClaimProof {
    pub commitment_hash: Bytes32,
    pub nullifier_hash: Bytes32,
    pub merkle_root: Bytes32,
    /// Placeholder for actual ZK-SNARK proof
    pub proof_data: Vec<u8>,
}

#[derive(Clone, Copy, Debug)]
pub struct PrivacyClaimEvent {
    pub nullifier: Nullifier,
    pub amount: i128,
    pub timestamp: u64,
    pub vesting_id: u32,
    pub is_private: bool,
}

#[derive(Clone, Copy, Debug)]
pub struct CommitmentCreated {
    pub commitment_hash: Bytes32,
    pub vesting_id: u32,
    pub amount: i128,
    pub created_at: u64,
}

#[derive(Clone, Copy, Debug)]
pub struct PrivateClaimExecuted {
    pub nullifier_hash: Bytes32,
    pub amount: i128,
    pub timestamp: u64,
}

#[derive(Debug)]
pub struct PathPaymentConfig {
    /// USDC or other stablecoin
    pub destination_asset: AccountId,
    pub min_destination_amount: i128,
    /// Path of assets for the swap
    pub path: Vec<AccountId>,
    pub enabled: bool,
}

#[derive(Clone, Copy, Debug)]
pub struct PathPaymentClaimEvent {
    pub beneficiary: AccountId,
    pub source_amount: i128,
    pub destination_amount: i128,
    pub destination_asset: AccountId,
    pub timestamp: u64,
    pub vesting_id: u32,
}

#[derive(Debug)]
pub struct PathPaymentSimulation {
    pub source_amount: i128,
    pub estimated_destination_amount: i128,
    pub min_destination_amount: i128,
    pub path: Vec<AccountId>,
    pub can_execute: bool,
    pub reason: String,
    pub estimated_gas_fee: u64,
}

#[derive(Debug)]
pub struct PathPaymentConfigured {
    pub destination_asset: AccountId,
    pub min_destination_amount: i128,
    pub path: Vec<AccountId>,
    pub timestamp: u64,
}

#[derive(Clone, Copy, Debug)]
pub struct PathPaymentDisabled {
    pub timestamp: u64,
}

#[derive(Clone, Copy, Debug)]
pub struct PathPaymentClaimExecuted {
    pub user: AccountId,
    pub source_amount: i128,
    pub destination_amount: i128,
    pub destination_asset: AccountId,
    pub timestamp: u64,
    pub vesting_id: u32,
}

#[derive(Clone, Copy, Debug)]
pub struct LockupConfig {
    pub vesting_id: u32,
    pub lockup_duration_seconds: u64,
    pub enabled: bool,
    pub lockup_token_address: AccountId,
}

#[derive(Clone, Copy, Debug)]
pub struct LockupConfigured {
    pub vesting_id: u32,
    pub lockup_duration_seconds: u64,
    pub lockup_token_address: AccountId,
    pub timestamp: u64,
}

#[derive(Clone, Copy, Debug)]
pub struct LockupDisabled {
    pub vesting_id: u32,
    pub timestamp: u64,
}

#[derive(Clone, Copy, Debug)]
pub struct LockupClaimExecuted {
    pub user: AccountId,
    pub vesting_id: u32,
    pub amount: i128,
    pub lockup_token_address: AccountId,
    pub unlock_time: u64,
    pub timestamp: u64,
}

#[derive(Clone, Copy, Debug)]
pub struct BeneficiaryReassignment {
    pub vesting_id: u32,
    pub current_beneficiary: AccountId,
    pub new_beneficiary: AccountId,
    pub requested_at: u64,
    pub effective_at: u64,
    pub total_amount: i128,
    pub requires_governance_veto: bool,
    pub is_executed: bool,
}

#[derive(Debug)]
pub struct GovernanceVeto {
    pub reassignment_id: u32,
    pub veto_by: AccountId,
    pub veto_at: u64,
    pub reason: String,
    pub voting_power: i128,
}

#[derive(Clone, Copy, Debug)]
pub struct VetoVote {
    pub voter: AccountId,
    pub reassignment_id: u32,
    pub vote_for_veto: bool,
    pub voting_power: i128,
    pub voted_at: u64,
}

#[derive(Clone, Copy, Debug)]
pub struct TokenSupplyInfo {
    pub total_supply: i128,
    pub last_updated: u64,
}

#[derive(Clone, Copy, Debug)]
pub struct BeneficiaryReassignmentRequested {
    pub reassignment_id: u32,
    pub vesting_id: u32,
    pub current_beneficiary: AccountId,
    pub new_beneficiary: AccountId,
    pub total_amount: i128,
    pub effective_at: u64,
    pub requires_governance_veto: bool,
}

#[derive(Clone, Copy, Debug)]
pub struct BeneficiaryReassignmentExecuted {
    pub reassignment_id: u32,
    pub vesting_id: u32,
    pub old_beneficiary: AccountId,
    pub new_beneficiary: AccountId,
    pub executed_at: u64,
}

#[derive(Clone, Copy, Debug)]
pub struct VetoPeriodStarted {
    pub reassignment_id: u32,
    pub vesting_id: u32,
    pub veto_deadline: u64,
    pub threshold_percentage: u32,
}

#[derive(Clone, Copy, Debug)]
pub struct VetoVoteCast {
    pub voter: AccountId,
    pub reassignment_id: u32,
    pub vote_for_veto: bool,
    pub voting_power: i128,
    pub voted_at: u64,
}

#[derive(Clone, Copy, Debug)]
pub struct ReassignmentVetoed {
    pub reassignment_id: u32,
    pub veto_triggered_by: AccountId,
    pub veto_power: i128,
    pub vetoed_at: u64,
}

#[derive(Clone, Copy, Debug)]
pub struct ReassignmentApproved {
    pub reassignment_id: u32,
    pub approved_at: u64,
    pub total_veto_power: i128,
}

#[derive(Clone, Copy, Debug)]
pub struct LSTConfig {
    pub vesting_id: u32,
    pub enabled: bool,
    pub lst_token_address: AccountId,
    pub base_token_address: AccountId,
    /// Staking contract behind the LST, when one was registered.
    pub staking_contract_address: Option<AccountId>,
    /// Unbonding period of the staking contract, zero when none was registered.
    pub unbonding_period_seconds: u64,
}

#[derive(Clone, Copy, Debug)]
pub struct LSTPoolShares {
    /// Total shares in the pool (tracks ownership proportionally)
    pub total_shares: i128,
    /// Total underlying tokens in the pool (including compounded rewards)
    pub total_underlying: i128,
    /// Last compounding timestamp
    pub last_compounded_at: u64,
    /// Exchange rate snapshot (for security against manipulation)
    pub exchange_rate_snapshot: i128,
    /// Snapshot timestamp
    pub snapshot_timestamp: u64,
}

#[derive(Clone, Copy, Debug)]
pub struct UserLSTShares {
    /// User's share balance in the pool
    pub shares: i128,
    /// User's vesting ID
    pub vesting_id: u32,
    /// Whether the user has an unbonding request pending
    pub unbonding_pending: bool,
    /// Unbonding request timestamp (0 if not pending)
    pub unbonding_requested_at: u64,
}

#[derive(Clone, Copy, Debug)]
pub struct UnbondingRequest {
    pub user: AccountId,
    pub vesting_id: u32,
    pub shares: i128,
    pub requested_at: u64,
    pub unbonding_complete_at: u64,
}

#[derive(Clone, Copy, Debug)]
pub struct LSTConfigured {
    pub vesting_id: u32,
    pub lst_token_address: AccountId,
    pub base_token_address: AccountId,
    pub timestamp: u64,
}

#[derive(Clone, Copy, Debug)]
pub struct LSTClaimExecuted {
    pub user: AccountId,
    pub vesting_id: u32,
    pub base_amount: i128,
    pub lst_amount: i128,
    pub lst_token_address: AccountId,
    pub timestamp: u64,
}

#[derive(Clone, Copy, Debug)]
pub struct LSTRewardsCompounded {
    pub vesting_id: u32,
    pub total_yield_generated: i128,
    pub total_shares: i128,
    pub exchange_rate: i128,
    pub timestamp: u64,
}

#[derive(Clone, Copy, Debug)]
pub struct UnbondingRequested {
    pub user: AccountId,
    pub vesting_id: u32,
    pub shares: i128,
    pub unbonding_complete_at: u64,
    pub timestamp: u64,
}

#[derive(Clone, Copy, Debug)]
pub struct UnbondingCompleted {
    pub user: AccountId,
    pub vesting_id: u32,
    pub shares: i128,
    pub underlying_amount: i128,
    pub timestamp: u64,
}

#[derive(Clone, Copy, Debug)]
pub struct VotingPowerQueried {
    pub voter: AccountId,
    pub voting_power: i128,
    pub timestamp: u64,
}

/// 365 days in seconds
pub const ADMIN_INACTIVITY_TIMEOUT: u64 = 31_536_000;

#[derive(Clone, Copy, Debug)]
pub struct AdminDeadManSwitch {
    /// The recovery address that can claim admin rights after inactivity
    pub recovery_address: AccountId,
    /// Timestamp of the last admin activity
    pub last_admin_activity: u64,
    /// Whether the switch has been triggered (recovery claimed)
    pub is_triggered: bool,
}

#[derive(Clone, Copy, Debug)]
pub struct AdminRecoveryAddressSet {
    pub recovery_address: AccountId,
    pub set_at: u64,
}

#[derive(Clone, Copy, Debug)]
pub struct AdminActivityRecorded {
    pub admin: AccountId,
    pub timestamp: u64,
}

#[derive(Clone, Copy, Debug)]
pub struct AdminRecoveryClaimed {
    pub recovery_address: AccountId,
    pub claimed_at: u64,
}

/// 30% deviation threshold (in basis points: 3000 = 30%)
pub const ORACLE_DEVIATION_THRESHOLD_BPS: u32 = 3000;

#[derive(Clone, Copy, Debug)]
pub struct OraclePriceRecord {
    /// Price at the last ledger (scaled by 10^7)
    pub last_price: i128,
    /// Ledger sequence number of the last price update
    pub last_ledger: u32,
    /// Whether the circuit breaker is currently tripped
    pub is_frozen: bool,
    /// Timestamp when the freeze was triggered (0 if not frozen)
    pub frozen_at: u64,
}

#[derive(Clone, Copy, Debug)]
pub struct OraclePriceUpdated {
    pub old_price: i128,
    pub new_price: i128,
    pub ledger: u32,
    pub timestamp: u64,
}

#[derive(Clone, Copy, Debug)]
pub struct OracleCircuitBreakerTripped {
    pub old_price: i128,
    pub new_price: i128,
    pub deviation_bps: u32,
    pub tripped_at: u64,
}

#[derive(Clone, Copy, Debug)]
pub struct OracleCircuitBreakerReset {
    pub reset_by: AccountId,
    pub reset_at: u64,
}

#[derive(Clone, Copy, Debug)]
pub struct UpgradeBlocked {
    pub total_unvested_balance: i128,
    pub blocked_at: u64,
}

/// Confidential grant storing commitment instead of plaintext amount
#[derive(Clone, Copy, Debug)]
pub struct ConfidentialGrant {
    /// Hash commitment of the total grant amount (Pedersen commitment)
    pub commitment_hash: Bytes32,
    /// Vesting schedule identifier
    pub vesting_id: u32,
    /// Timestamp when grant was created
    pub created_at: u64,
    /// Whether this grant has been fully claimed
    pub is_fully_claimed: bool,
    /// Remaining shielded amount (encrypted, for internal tracking)
    pub remaining_shielded: i128,
}

/// Master viewing key for DAO clawback operations
#[derive(Clone, Copy, Debug)]
pub struct MasterViewingKey {
    /// Public key for viewing shielded amounts
    pub viewing_key: Bytes32,
    /// Admin address that authorized this key
    pub authorized_by: AccountId,
    /// Timestamp when key was set
    pub set_at: u64,
    /// Whether key is currently active
    pub is_active: bool,
}

/// Enhanced ZK proof for confidential claims (Circom-compatible)
#[derive(Clone, Copy, Debug)]
pub struct ConfidentialClaimProof {
    /// Public inputs for the ZK circuit
    pub commitment_hash: Bytes32,
    /// Nullifier to prevent double-spending
    pub nullifier: Bytes32,
    /// Merkle root of the commitment tree
    pub merkle_root: Bytes32,
    /// Claimed amount (public output)
    pub claimed_amount: i128,
    /// Remaining amount after claim (public output)
    pub remaining_amount: i128,
    /// The actual ZK-SNARK proof (Circom output)
    pub proof_a: Bytes32,
    pub proof_b: Bytes32,
    pub proof_c: Bytes32,
}

/// Event emitted when a confidential claim is executed
#[derive(Clone, Copy, Debug)]
pub struct ConfidentialClaimExecuted {
    /// Nullifier hash (leaks zero metadata about the claimer)
    pub nullifier_hash: Bytes32,
    /// Updated commitment hash after claim
    pub new_commitment_hash: Bytes32,
    /// Timestamp of the claim
    pub timestamp: u64,
}

/// Event emitted when a confidential grant is created
#[derive(Clone, Copy, Debug)]
pub struct ConfidentialGrantCreated {
    /// Vesting ID
    pub vesting_id: u32,
    /// Commitment hash of the total grant
    pub commitment_hash: Bytes32,
    /// Timestamp of creation
    pub timestamp: u64,
}

/// Event emitted when DAO performs clawback using master viewing key
#[derive(Clone, Copy, Debug)]
pub struct ConfidentialClawbackExecuted {
    /// Vesting ID
    pub vesting_id: u32,
    /// Amount clawed back
    pub clawed_amount: i128,
    /// Admin who authorized the clawback
    pub authorized_by: AccountId,
    /// Timestamp of clawback
    pub timestamp: u64,
}

#[derive(Clone, Copy, Debug)]
pub struct PaginationState {
    pub current_page: u32,
    pub total_items: u32,
    pub last_updated: u64,
}

#[derive(Debug)]
pub struct ClaimHistoryPage {
    pub page_number: u32,
    pub claims: Vec<ClaimEvent>,
    pub has_next: bool,
    pub total_pages: u32,
}

#[derive(Clone, Copy, Debug)]
pub struct ExpiredSchedule {
    pub vesting_id: u32,
    pub beneficiary: AccountId,
    pub total_amount: i128,
    pub claimed_amount: i128,
    pub expires_at: u64,
    pub is_force_withdrawn: bool,
}

#[derive(Debug)]
pub struct ForceWithdrawalExecuted {
    pub vesting_id: u32,
    pub beneficiary: AccountId,
    pub withdrawn_amount: i128,
    pub reason: String,
    pub timestamp: u64,
}

#[derive(Clone, Copy, Debug)]
pub struct MaxAllocationLimitSet {
    pub max_limit: i128,
    pub set_by: AccountId,
    pub timestamp: u64,
}

#[derive(Clone, Copy, Debug)]
pub struct AllocationLimitExceeded {
    pub attempted_allocation: i128,
    pub max_limit: i128,
    pub rejected_at: u64,
}

/// 30 days in seconds for sunset timelock
pub const SUNSET_TIMELOCK_DURATION: u64 = 2_592_000;

#[derive(Clone, Copy, Debug)]
pub struct ProtocolSunset {
    /// Whether sunset has been initiated
    pub is_initiated: bool,
    /// Timestamp when sunset was initiated
    pub initiated_at: u64,
    /// Timestamp when sunset becomes effective (30 days later)
    pub effective_at: u64,
    /// Address of the V3 contract to migrate to
    pub migration_target: AccountId,
    /// Whether sunset has been aborted
    pub is_aborted: bool,
    /// Whether new schedule creation is halted
    pub new_schedules_halted: bool,
}

#[derive(Clone, Copy, Debug)]
pub struct MigrationPayload {
    /// Beneficiary address
    pub beneficiary: AccountId,
    /// Vesting schedule ID
    pub vesting_id: u32,
    /// Total grant amount
    pub total_amount: i128,
    /// Amount already claimed
    pub claimed_amount: i128,
    /// Remaining unvested amount
    pub remaining_amount: i128,
    /// Vesting start timestamp
    pub start_time: u64,
    /// Vesting end timestamp
    pub end_time: u64,
    /// Hash of the payload for verification
    pub payload_hash: Bytes32,
    /// Timestamp when payload was exported
    pub exported_at: u64,
}

#[derive(Clone, Copy, Debug)]
pub struct RelayerMigration {
    /// Beneficiary address being migrated
    pub beneficiary: AccountId,
    /// Vesting schedule ID
    pub vesting_id: u32,
    /// Migration payload hash
    pub payload_hash: Bytes32,
    /// Whether migration has been completed
    pub is_completed: bool,
    /// Timestamp of migration
    pub migrated_at: u64,
}

#[derive(Clone, Copy, Debug)]
pub struct SunsetInitiated {
    pub initiated_by: AccountId,
    pub migration_target: AccountId,
    pub initiated_at: u64,
    pub effective_at: u64,
}

#[derive(Clone, Copy, Debug)]
pub struct SunsetAborted {
    pub aborted_by: AccountId,
    pub aborted_at: u64,
}

#[derive(Clone, Copy, Debug)]
pub struct StateMigrated {
    pub beneficiary: AccountId,
    pub vesting_id: u32,
    pub payload_hash: Bytes32,
    pub migrated_at: u64,
}

/// An auditor's standing request to pause the protocol.
#[derive(Debug)]
pub struct AuditorPauseRequest {
    pub auditor: AccountId,
    pub timestamp: u64,
    pub reason: String,
}

/// An emergency pause imposed by the auditors.
#[derive(Debug)]
pub struct EmergencyPause {
    /// The auditors whose requests caused the pause, in ledger address order.
    pub paused_by: Vec<AccountId>,
    pub paused_at: u64,
    pub expires_at: u64,
    pub reason: String,
    pub is_active: bool,
}

/// Emitted when the auditors' requests trigger an emergency pause.
#[derive(Debug)]
pub struct EmergencyPauseTriggered {
    pub auditors: Vec<AccountId>,
    pub paused_at: u64,
    pub expires_at: u64,
    pub reason: String,
}

} // verus!
