//! Types of the product template contract.

use vstd::prelude::*;

verus! {

/// The product template contract.
pub struct ProductTemplateContract;

/// Errors of the product template contract.
#[derive(Copy, Clone, Debug, PartialEq, Eq, Structural)]
pub enum ContractError {
    Unauthorized,
    Paused,
    InvalidInput,
    NotFound,
    AlreadyExists,
    InvalidState,
    NotInitialized,
    AlreadyInitialized,
    InvalidTemplateStatus,
    InvalidParameterValue,
    TemplateValidationFailed,
    GovernanceApprovalRequired,
    UpdateTooSoon,
    InvalidCategory,
    InvalidRiskLevel,
    InvalidPremiumModel,
    InvalidCoverageType,
}

} // verus!
