//! Error kinds reported by the vesting vault, with their stable numeric codes.
use vstd::prelude::*;

verus! {

/// Why a vesting-vault operation was refused.
#[derive(Clone, Copy, Debug, PartialEq, Eq, Structural)]
pub enum Error {
    Unauthorized,
    InvalidInput,
    VestingNotFound,
    VaultNotFound,
    AlreadyInitialized,
    NotInitialized,
    ContractPaused,
    CliffNotReached,
    NothingToClaim,
    AlreadyFullyClaimed,
    VaultRevoked,
    VaultFrozen,
    InvalidSchedule,
    MilestoneNotCompleted,
    InvalidAmount,
    VaultNotInitialized,
    InsufficientBalance,
    InsufficientFunds,
    TransferFailed,
    LSTNotConfigured,
    LSTNotEnabled,
    LSTPoolNotInitialized,
    NoUserShares,
    NoSharesToUnbond,
    UnbondingAlreadyPending,
    UnbondingQueueFull,
    UnbondingPeriodNotElapsed,
    NoUnbondingRequest,
    ExchangeRateManipulationSuspected,
    KycNotCompleted,
    KycExpired,
    AddressSanctioned,
    JurisdictionRestricted,
    LegalSignatureMissing,
    LegalSignatureInvalid,
    ComplianceCheckFailed,
    AmlThresholdExceeded,
    RiskRatingTooHigh,
    DocumentVerificationFailed,
    AccreditationStatusInvalid,
    TaxComplianceFailed,
    TaxLiquidationFailed,
    RegulatoryBlockActive,
    WhitelistNotApproved,
    BlacklistViolation,
    GeofencingRestriction,
    IdentityVerificationExpired,
    SourceOfFundsNotVerified,
    BeneficialOwnerNotVerified,
    PoliticallyExposedPerson,
    SanctionsListHit,
    StreamPaused,
    Overflow,
    NoUnvestedBalance,
    AlreadyVoted,
    VotingPeriodEnded,
    QuorumNotMet,
    TimelockNotElapsed,
    PathPaymentNotConfigured,
    PathPaymentDisabled,
    InsufficientLiquidity,
    AdminSwitchNotConfigured,
    AdminInactivityNotElapsed,
    AdminSwitchAlreadyTriggered,
    RecoveryAddressInvalid,
    OracleCircuitBreakerActive,
    OraclePriceDeviationTooHigh,
    UpgradeBlockedByUnvestedFunds,
    InvalidZKProof,
    OverClaimAttempt,
    ViewingKeyUnauthorized,
    AssetMismatch,
    UnauthorizedScheduleAccess,
    UnlockDateAcceleration,
    InsufficientSchedules,
    ScheduleNotActive,
}

/// The numeric code under which each error is reported to clients.
pub open spec fn error_code(e: Error) -> u32 {
    match e {
        Error::Unauthorized => 100,
        Error::InvalidInput => 101,
        Error::VestingNotFound => 200,
        Error::VaultNotFound => 201,
        Error::AlreadyInitialized => 202,
        Error::NotInitialized => 203,
        Error::ContractPaused => 204,
        Error::CliffNotReached => 205,
        Error::NothingToClaim => 206,
        Error::AlreadyFullyClaimed => 207,
        Error::VaultRevoked => 208,
        Error::VaultFrozen => 209,
        Error::InvalidSchedule => 210,
        Error::MilestoneNotCompleted => 211,
        Error::InvalidAmount => 212,
        Error::VaultNotInitialized => 213,
        Error::InsufficientBalance => 300,
        Error::InsufficientFunds => 301,
        Error::TransferFailed => 302,
        Error::LSTNotConfigured => 310,
        Error::LSTNotEnabled => 311,
        Error::LSTPoolNotInitialized => 312,
        Error::NoUserShares => 313,
        Error::NoSharesToUnbond => 314,
        Error::UnbondingAlreadyPending => 315,
        Error::UnbondingQueueFull => 316,
        Error::UnbondingPeriodNotElapsed => 317,
        Error::NoUnbondingRequest => 318,
        Error::ExchangeRateManipulationSuspected => 319,
        Error::KycNotCompleted => 400,
        Error::KycExpired => 401,
        Error::AddressSanctioned => 402,
        Error::JurisdictionRestricted => 403,
        Error::LegalSignatureMissing => 404,
        Error::LegalSignatureInvalid => 405,
        Error::ComplianceCheckFailed => 406,
        Error::AmlThresholdExceeded => 407,
        Error::RiskRatingTooHigh => 408,
        Error::DocumentVerificationFailed => 409,
        Error::AccreditationStatusInvalid => 410,
        Error::TaxComplianceFailed => 411,
        Error::TaxLiquidationFailed => 421,
        Error::RegulatoryBlockActive => 412,
        Error::WhitelistNotApproved => 413,
        Error::BlacklistViolation => 414,
        Error::GeofencingRestriction => 415,
        Error::IdentityVerificationExpired => 416,
        Error::SourceOfFundsNotVerified => 417,
        Error::BeneficialOwnerNotVerified => 418,
        Error::PoliticallyExposedPerson => 419,
        Error::SanctionsListHit => 420,
        Error::StreamPaused => 450,
        Error::Overflow => 900,
        Error::NoUnvestedBalance => 500,
        Error::AlreadyVoted => 501,
        Error::VotingPeriodEnded => 502,
        Error::QuorumNotMet => 503,
        Error::TimelockNotElapsed => 504,
        Error::PathPaymentNotConfigured => 505,
        Error::PathPaymentDisabled => 506,
        Error::InsufficientLiquidity => 507,
        Error::AdminSwitchNotConfigured => 600,
        Error::AdminInactivityNotElapsed => 601,
        Error::AdminSwitchAlreadyTriggered => 602,
        Error::RecoveryAddressInvalid => 603,
        Error::OracleCircuitBreakerActive => 700,
        Error::OraclePriceDeviationTooHigh => 701,
        Error::UpgradeBlockedByUnvestedFunds => 800,
        Error::InvalidZKProof => 1000,
        Error::OverClaimAttempt => 1001,
        Error::ViewingKeyUnauthorized => 1002,
        Error::AssetMismatch => 1100,
        Error::UnauthorizedScheduleAccess => 1101,
        Error::UnlockDateAcceleration => 1102,
        Error::InsufficientSchedules => 1103,
        Error::ScheduleNotActive => 1104,
    }
}

impl Error {
    /// The numeric code of this error.
    pub fn code(&self) -> (r: u32)
        ensures
            r == error_code(*self),
    {
        match self {
            Error::Unauthorized => 100,
            Error::InvalidInput => 101,
            Error::VestingNotFound => 200,
            Error::VaultNotFound => 201,
            Error::AlreadyInitialized => 202,
            Error::NotInitialized => 203,
            Error::ContractPaused => 204,
            Error::CliffNotReached => 205,
            Error::NothingToClaim => 206,
            Error::AlreadyFullyClaimed => 207,
            Error::VaultRevoked => 208,
            Error::VaultFrozen => 209,
            Error::InvalidSchedule => 210,
            Error::MilestoneNotCompleted => 211,
            Error::InvalidAmount => 212,
            Error::VaultNotInitialized => 213,
            Error::InsufficientBalance => 300,
            Error::InsufficientFunds => 301,
            Error::TransferFailed => 302,
            Error::LSTNotConfigured => 310,
            Error::LSTNotEnabled => 311,
            Error::LSTPoolNotInitialized => 312,
            Error::NoUserShares => 313,
            Error::NoSharesToUnbond => 314,
            Error::UnbondingAlreadyPending => 315,
            Error::UnbondingQueueFull => 316,
            Error::UnbondingPeriodNotElapsed => 317,
            Error::NoUnbondingRequest => 318,
            Error::ExchangeRateManipulationSuspected => 319,
            Error::KycNotCompleted => 400,
            Error::KycExpired => 401,
            Error::AddressSanctioned => 402,
            Error::JurisdictionRestricted => 403,
            Error::LegalSignatureMissing => 404,
            Error::LegalSignatureInvalid => 405,
            Error::ComplianceCheckFailed => 406,
            Error::AmlThresholdExceeded => 407,
            Error::RiskRatingTooHigh => 408,
            Error::DocumentVerificationFailed => 409,
            Error::AccreditationStatusInvalid => 410,
            Error::TaxComplianceFailed => 411,
            Error::TaxLiquidationFailed => 421,
            Error::RegulatoryBlockActive => 412,
            Error::WhitelistNotApproved => 413,
            Error::BlacklistViolation => 414,
            Error::GeofencingRestriction => 415,
            Error::IdentityVerificationExpired => 416,
            Error::SourceOfFundsNotVerified => 417,
            Error::BeneficialOwnerNotVerified => 418,
            Error::PoliticallyExposedPerson => 419,
            Error::SanctionsListHit => 420,
            Error::StreamPaused => 450,
            Error::Overflow => 900,
            Error::NoUnvestedBalance => 500,
            Error::AlreadyVoted => 501,
            Error::VotingPeriodEnded => 502,
            Error::QuorumNotMet => 503,
            Error::TimelockNotElapsed => 504,
            Error::PathPaymentNotConfigured => 505,
            Error::PathPaymentDisabled => 506,
            Error::InsufficientLiquidity => 507,
            Error::AdminSwitchNotConfigured => 600,
            Error::AdminInactivityNotElapsed => 601,
            Error::AdminSwitchAlreadyTriggered => 602,
            Error::RecoveryAddressInvalid => 603,
            Error::OracleCircuitBreakerActive => 700,
            Error::OraclePriceDeviationTooHigh => 701,
            Error::UpgradeBlockedByUnvestedFunds => 800,
            Error::InvalidZKProof => 1000,
            Error::OverClaimAttempt => 1001,
            Error::ViewingKeyUnauthorized => 1002,
            Error::AssetMismatch => 1100,
            Error::UnauthorizedScheduleAccess => 1101,
            Error::UnlockDateAcceleration => 1102,
            Error::InsufficientSchedules => 1103,
            Error::ScheduleNotActive => 1104,
        }
    }
}

} // verus!
