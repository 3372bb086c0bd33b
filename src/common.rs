//! Types shared by the insurance contracts.

use vstd::prelude::*;

verus! {

/// Lifecycle of a policy.
#[derive(Copy, Clone, Debug, PartialEq, Eq, Structural)]
pub enum PolicyStatus {
    Active,
    Expired,
    Cancelled,
    Claimed,
}

/// Lifecycle of a claim.
#[derive(Copy, Clone, Debug, PartialEq, Eq, Structural)]
pub enum ClaimStatus {
    Submitted,
    UnderReview,
    Approved,
    Rejected,
    Settled,
}

/// Lifecycle of a governance proposal.
#[derive(Copy, Clone, Debug, PartialEq, Eq, Structural)]
pub enum ProposalStatus {
    Active,
    Passed,
    Rejected,
    Executed,
}

/// A governance vote.
#[derive(Copy, Clone, Debug, PartialEq, Eq, Structural)]
pub enum VoteType {
    Yes,
    No,
}

/// Errors shared by the contracts and returned by the validation helpers.
#[derive(Copy, Clone, Debug, PartialEq, Eq, Structural)]
pub enum ContractError {
    Unauthorized,
    Paused,
    InvalidInput,
    InsufficientFunds,
    NotFound,
    AlreadyExists,
    InvalidState,
    Overflow,
    NotInitialized,
    AlreadyInitialized,
    InvalidRole,
    RoleNotFound,
    NotTrustedContract,
    Underflow,
    DivisionByZero,
    DuplicateAddress,
    AmountMustBePositive,
    AmountOutOfBounds,
    InvalidCoverageAmount,
    InvalidPremiumAmount,
    ClaimExceedsCoverage,
    PremiumExceedsCoverage,
    DepositBelowMinStake,
    WithdrawalExceedsBalance,
    TimestampNotFuture,
    TimestampNotPast,
    InvalidTimeRange,
    InvalidDuration,
    InvalidVotingDuration,
    InvalidPercentage,
    InvalidBasisPoints,
    OracleValidationFailed,
    QuorumTooLow,
    ThresholdTooLow,
    InvalidReserveRatio,
    InvalidEvidenceHash,
    EmptyInput,
    InputTooLong,
    InputTooShort,
    InsufficientOracleSubmissions,
    OracleDataStale,
    SlashingExceedsStake,
    SlashingPercentTooHigh,
    InvalidPaginationParams,
}

} // verus!
