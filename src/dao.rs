//! Input rules of the governance proposal contract.

use vstd::prelude::*;

verus! {

pub const MIN_TITLE_LEN: u32 = 3;

pub const MAX_TITLE_LEN: u32 = 200;

pub const MAX_DESCRIPTION_LEN: u32 = 2_048;

pub const MIN_VOTING_DURATION_SECS: u64 = 3_600;

pub const MAX_VOTING_DURATION_SECS: u64 = 2_592_000;

/// Errors of the proposal contract.
#[derive(Copy, Clone, Debug, PartialEq, Eq, Structural)]
pub enum DaoError {
    ProposalNotFound,
    VotingClosed,
    AlreadyVoted,
    InvalidTitle,
    InvalidDescription,
    InvalidVotingDuration,
    Paused,
}

/// The proposal contract's logic.
pub struct DaoContract;

/// The proposal contract's entry point.
pub struct Dao;

/// Requires a title of 3 to 200 bytes.
pub fn validate_title(title: &[u8]) -> (r: Result<(), DaoError>)
    ensures
        r == if MIN_TITLE_LEN <= title@.len() <= MAX_TITLE_LEN {
            Ok::<(), DaoError>(())
        } else {
            Err(DaoError::InvalidTitle)
        },
{
    if title.len() < MIN_TITLE_LEN as usize {
        return Err(DaoError::InvalidTitle);
    }
    if title.len() > MAX_TITLE_LEN as usize {
        return Err(DaoError::InvalidTitle);
    }
    Ok(())
}

/// Requires a description of 1 to 2048 bytes.
pub fn validate_description(description: &[u8]) -> (r: Result<(), DaoError>)
    ensures
        r == if 0 < description@.len() <= MAX_DESCRIPTION_LEN {
            Ok::<(), DaoError>(())
        } else {
            Err(DaoError::InvalidDescription)
        },
{
    if description.len() == 0 {
        return Err(DaoError::InvalidDescription);
    }
    if description.len() > MAX_DESCRIPTION_LEN as usize {
        return Err(DaoError::InvalidDescription);
    }
    Ok(())
}

/// Requires a voting window of one hour to thirty days.
pub fn validate_voting_duration(duration_secs: u64) -> (r: Result<(), DaoError>)
    ensures
        r == if MIN_VOTING_DURATION_SECS <= duration_secs <= MAX_VOTING_DURATION_SECS {
            Ok::<(), DaoError>(())
        } else {
            Err(DaoError::InvalidVotingDuration)
        },
{
    if duration_secs < MIN_VOTING_DURATION_SECS || duration_secs > MAX_VOTING_DURATION_SECS {
        return Err(DaoError::InvalidVotingDuration);
    }
    Ok(())
}

} // verus!
