//! Rules of the claims contract that do not depend on its storage.

use crate::common::ClaimStatus;
use vstd::prelude::*;

verus! {

/// The claims contract.
pub struct ClaimsContract;

/// Errors of the claims contract.
#[derive(Copy, Clone, Debug, PartialEq, Eq, Structural)]
pub enum ContractError {
    Unauthorized,
    Paused,
    InvalidInput,
    InsufficientFunds,
    NotFound,
    AlreadyExists,
    InvalidState,
    NotInitialized,
    AlreadyInitialized,
    OracleValidationFailed,
    InsufficientOracleSubmissions,
    OracleDataStale,
    OracleOutlierDetected,
    InvalidRole,
    RoleNotFound,
    NotTrustedContract,
    InvalidClaimState,
    InvalidAmount,
    CoverageExceeded,
    Overflow,
}

/// The forward steps of a claim's lifecycle: submitted, under review, then
/// approved or rejected, and an approved claim settled.
pub open spec fn claim_transition_allowed(current: ClaimStatus, next: ClaimStatus) -> bool {
    ||| current == ClaimStatus::Submitted && next == ClaimStatus::UnderReview
    ||| current == ClaimStatus::UnderReview && next == ClaimStatus::Approved
    ||| current == ClaimStatus::UnderReview && next == ClaimStatus::Rejected
    ||| current == ClaimStatus::Approved && next == ClaimStatus::Settled
}

/// Whether a claim may move from `current` to `next`.
pub fn is_valid_state_transition(current: ClaimStatus, next: ClaimStatus) -> (r: bool)
    ensures
        r == claim_transition_allowed(current, next),
{
    match (current, next) {
        (ClaimStatus::Submitted, ClaimStatus::UnderReview) => true,
        (ClaimStatus::UnderReview, ClaimStatus::Approved) => true,
        (ClaimStatus::UnderReview, ClaimStatus::Rejected) => true,
        (ClaimStatus::Approved, ClaimStatus::Settled) => true,
        _ => false,
    }
}

/// Requires a positive claim amount.
pub fn validate_amount(amount: i128) -> (r: Result<(), ContractError>)
    ensures
        r == if amount <= 0 {
            Err(ContractError::InvalidAmount)
        } else {
            Ok::<(), ContractError>(())
        },
{
    if amount <= 0 {
        return Err(ContractError::InvalidAmount);
    }
    Ok(())
}

/// Requires a claim not above the policy's coverage.
pub fn validate_coverage_constraint(claim_amount: i128, coverage_amount: i128) -> (r: Result<
    (),
    ContractError,
>)
    ensures
        r == if claim_amount > coverage_amount {
            Err(ContractError::CoverageExceeded)
        } else {
            Ok::<(), ContractError>(())
        },
{
    if claim_amount > coverage_amount {
        return Err(ContractError::CoverageExceeded);
    }
    Ok(())
}

} // verus!
