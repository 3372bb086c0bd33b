//! Types of the policy contract.

use vstd::prelude::*;

verus! {

/// The policy contract.
pub struct PolicyContract;

/// Lifecycle of a policy.
#[derive(Copy, Clone, Debug, PartialEq, Eq, Structural)]
pub enum PolicyStatus {
    Active,
    Expired,
    Cancelled,
    Claimed,
}

/// Errors of the policy contract.
#[derive(Copy, Clone, Debug, PartialEq, Eq, Structural)]
pub enum ContractError {
    Unauthorized,
    Paused,
    InvalidInput,
    InsufficientFunds,
    NotFound,
    AlreadyExists,
    InvalidState,
    Overflow,
    NotInitialized,
    AlreadyInitialized,
}

} // verus!
