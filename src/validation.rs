//! Validation helpers shared by the insurance contracts.
//!
//! Every validator returns `Ok(())` or the first violated rule's error, and
//! never panics. Addresses are `u64` identities; strings and byte payloads are
//! byte slices.

use crate::common::ContractError;
use vstd::arithmetic::div_mod::lemma_div_is_ordered_by_denominator;
use vstd::prelude::*;

verus! {

pub const MIN_COVERAGE: i128 = 10_000_000;

pub const MAX_COVERAGE: i128 = 10_000_000_000_000_000;

pub const MIN_PREMIUM: i128 = 1_000_000;

pub const MAX_PREMIUM: i128 = 1_000_000_000_000_000;

pub const MIN_DURATION_DAYS: u32 = 1;

pub const MAX_DURATION_DAYS: u32 = 1825;

pub const MIN_VOTING_SECS: u64 = 3_600;

pub const MAX_VOTING_SECS: u64 = 2_592_000;

pub const MAX_BPS: u32 = 10_000;

pub const MAX_DEVIATION_BPS: u32 = 500;

pub const MIN_QUORUM_PERCENT: u32 = 10;

pub const MIN_RESERVE_RATIO: u32 = 20;

pub const MAX_METADATA_LEN: u32 = 1_024;

pub const MAX_DESCRIPTION_LEN: u32 = 2_048;

pub const MIN_TITLE_LEN: u32 = 3;

pub const MAX_TITLE_LEN: u32 = 200;

pub const MAX_ORACLE_SUBMISSIONS: u32 = 100;

pub const MAX_SLASH_PERCENT: u32 = 10;

pub const MAX_PAGE_SIZE: u32 = 1_000;

/// `Ok(())` when `ok` holds, `Err(e)` otherwise.
pub open spec fn check(ok: bool, e: ContractError) -> Result<(), ContractError> {
    if ok {
        Ok(())
    } else {
        Err(e)
    }
}

/// The first failure of two checks made in order.
pub open spec fn then_check(
    first: Result<(), ContractError>,
    second: Result<(), ContractError>,
) -> Result<(), ContractError> {
    if first is Err {
        first
    } else {
        second
    }
}

/// Rust's integer division, rounding toward zero.
pub open spec fn div_toward_zero(a: int, b: int) -> int {
    if a >= 0 && b > 0 {
        a / b
    } else if a < 0 && b < 0 {
        (-a) / (-b)
    } else if a < 0 {
        -((-a) / b)
    } else {
        -(a / (-b))
    }
}

/// Accepts every address: identities are valid by construction.
pub fn validate_address(_address: u64) -> (r: Result<(), ContractError>)
    ensures
        r == Ok::<(), ContractError>(()),
{
    Ok(())
}

/// Rejects two equal addresses (e.g. sender and recipient).
pub fn validate_addresses_different(addr1: u64, addr2: u64) -> (r: Result<(), ContractError>)
    ensures
        r == check(addr1 != addr2, ContractError::DuplicateAddress),
{
    if addr1 == addr2 {
        return Err(ContractError::DuplicateAddress);
    }
    Ok(())
}

/// Accepts every address: there is no zero placeholder identity.
pub fn validate_non_zero_address(_address: u64) -> (r: Result<(), ContractError>)
    ensures
        r == Ok::<(), ContractError>(()),
{
    Ok(())
}

/// Requires `amount > 0`.
pub fn validate_positive_amount(amount: i128) -> (r: Result<(), ContractError>)
    ensures
        r == check(amount > 0, ContractError::AmountMustBePositive),
{
    if amount <= 0 {
        return Err(ContractError::AmountMustBePositive);
    }
    Ok(())
}

/// Requires `amount >= 0`.
pub fn validate_non_negative_amount(amount: i128) -> (r: Result<(), ContractError>)
    ensures
        r == check(amount >= 0, ContractError::AmountMustBePositive),
{
    if amount < 0 {
        return Err(ContractError::AmountMustBePositive);
    }
    Ok(())
}

/// Requires `min <= amount <= max`.
pub fn validate_amount_in_bounds(amount: i128, min: i128, max: i128) -> (r: Result<(), ContractError>)
    ensures
        r == check(min <= amount && amount <= max, ContractError::AmountOutOfBounds),
{
    if amount < min || amount > max {
        return Err(ContractError::AmountOutOfBounds);
    }
    Ok(())
}

/// Requires a coverage between 1 XLM and 1 000 000 XLM, in stroops.
pub fn validate_coverage_amount(amount: i128) -> (r: Result<(), ContractError>)
    ensures
        r == check(MIN_COVERAGE <= amount && amount <= MAX_COVERAGE, ContractError::InvalidCoverageAmount),
{
    if amount < MIN_COVERAGE || amount > MAX_COVERAGE {
        return Err(ContractError::InvalidCoverageAmount);
    }
    Ok(())
}

/// Requires a premium between 0.1 XLM and 100 000 XLM, in stroops.
pub fn validate_premium_amount(amount: i128) -> (r: Result<(), ContractError>)
    ensures
        r == check(MIN_PREMIUM <= amount && amount <= MAX_PREMIUM, ContractError::InvalidPremiumAmount),
{
    if amount < MIN_PREMIUM || amount > MAX_PREMIUM {
        return Err(ContractError::InvalidPremiumAmount);
    }
    Ok(())
}

/// Requires a positive claim not above the coverage.
pub fn validate_claim_amount(claim_amount: i128, coverage_amount: i128) -> (r: Result<(), ContractError>)
    ensures
        r == then_check(
            check(claim_amount > 0, ContractError::AmountMustBePositive),
            check(claim_amount <= coverage_amount, ContractError::ClaimExceedsCoverage),
        ),
{
    if claim_amount <= 0 {
        return Err(ContractError::AmountMustBePositive);
    }
    if claim_amount > coverage_amount {
        return Err(ContractError::ClaimExceedsCoverage);
    }
    Ok(())
}

/// Requires a positive deposit of at least `min_stake`.
pub fn validate_deposit_amount(amount: i128, min_stake: i128) -> (r: Result<(), ContractError>)
    ensures
        r == then_check(
            check(amount > 0, ContractError::AmountMustBePositive),
            check(amount >= min_stake, ContractError::DepositBelowMinStake),
        ),
{
    if amount <= 0 {
        return Err(ContractError::AmountMustBePositive);
    }
    if amount < min_stake {
        return Err(ContractError::DepositBelowMinStake);
    }
    Ok(())
}

/// Requires a positive withdrawal not above the available balance.
pub fn validate_withdrawal_amount(amount: i128, available_balance: i128) -> (r: Result<(), ContractError>)
    ensures
        r == then_check(
            check(amount > 0, ContractError::AmountMustBePositive),
            check(amount <= available_balance, ContractError::WithdrawalExceedsBalance),
        ),
{
    if amount <= 0 {
        return Err(ContractError::AmountMustBePositive);
    }
    if amount > available_balance {
        return Err(ContractError::WithdrawalExceedsBalance);
    }
    Ok(())
}

/// Requires a positive allocation not above the treasury balance.
pub fn validate_allocation_amount(amount: i128, treasury_balance: i128) -> (r: Result<(), ContractError>)
    ensures
        r == then_check(
            check(amount > 0, ContractError::AmountMustBePositive),
            check(amount <= treasury_balance, ContractError::InsufficientFunds),
        ),
{
    if amount <= 0 {
        return Err(ContractError::AmountMustBePositive);
    }
    if amount > treasury_balance {
        return Err(ContractError::InsufficientFunds);
    }
    Ok(())
}

/// Requires `balance >= required`.
pub fn validate_sufficient_funds(balance: i128, required: i128) -> (r: Result<(), ContractError>)
    ensures
        r == check(balance >= required, ContractError::InsufficientFunds),
{
    if balance < required {
        return Err(ContractError::InsufficientFunds);
    }
    Ok(())
}

/// Requires a timestamp strictly after `current_time`.
pub fn validate_future_timestamp(current_time: u64, timestamp: u64) -> (r: Result<(), ContractError>)
    ensures
        r == check(timestamp > current_time, ContractError::TimestampNotFuture),
{
    if timestamp <= current_time {
        return Err(ContractError::TimestampNotFuture);
    }
    Ok(())
}

/// Requires a timestamp not after `current_time`.
pub fn validate_past_timestamp(current_time: u64, timestamp: u64) -> (r: Result<(), ContractError>)
    ensures
        r == check(timestamp <= current_time, ContractError::TimestampNotPast),
{
    if timestamp > current_time {
        return Err(ContractError::TimestampNotPast);
    }
    Ok(())
}

/// Requires `start_time < end_time`.
pub fn validate_time_range(start_time: u64, end_time: u64) -> (r: Result<(), ContractError>)
    ensures
        r == check(start_time < end_time, ContractError::InvalidTimeRange),
{
    if start_time >= end_time {
        return Err(ContractError::InvalidTimeRange);
    }
    Ok(())
}

/// Requires a policy duration of 1 to 1825 days.
pub fn validate_duration_days(duration_days: u32) -> (r: Result<(), ContractError>)
    ensures
        r == check(MIN_DURATION_DAYS <= duration_days && duration_days <= MAX_DURATION_DAYS, ContractError::InvalidDuration),
{
    if duration_days < MIN_DURATION_DAYS || duration_days > MAX_DURATION_DAYS {
        return Err(ContractError::InvalidDuration);
    }
    Ok(())
}

/// Requires a voting duration of one hour to thirty days.
pub fn validate_voting_duration(duration_secs: u64) -> (r: Result<(), ContractError>)
    ensures
        r == check(MIN_VOTING_SECS <= duration_secs && duration_secs <= MAX_VOTING_SECS, ContractError::InvalidVotingDuration),
{
    if duration_secs < MIN_VOTING_SECS || duration_secs > MAX_VOTING_SECS {
        return Err(ContractError::InvalidVotingDuration);
    }
    Ok(())
}

/// Requires a percentage of at most 100.
pub fn validate_percentage(percent: u32) -> (r: Result<(), ContractError>)
    ensures
        r == check(percent <= 100, ContractError::InvalidPercentage),
{
    if percent > 100 {
        return Err(ContractError::InvalidPercentage);
    }
    Ok(())
}

/// Requires at most 10000 basis points.
pub fn validate_basis_points(bps: u32) -> (r: Result<(), ContractError>)
    ensures
        r == check(bps <= MAX_BPS, ContractError::InvalidBasisPoints),
{
    if bps > MAX_BPS {
        return Err(ContractError::InvalidBasisPoints);
    }
    Ok(())
}

/// Requires a valid basis-point value of at most 500 (5 %).
pub fn validate_oracle_deviation(deviation_bps: u32) -> (r: Result<(), ContractError>)
    ensures
        r == then_check(
            check(deviation_bps <= MAX_BPS, ContractError::InvalidBasisPoints),
            check(deviation_bps <= MAX_DEVIATION_BPS, ContractError::OracleValidationFailed),
        ),
{
    validate_basis_points(deviation_bps)?;
    if deviation_bps > MAX_DEVIATION_BPS {
        return Err(ContractError::OracleValidationFailed);
    }
    Ok(())
}

/// Requires a valid percentage of at least 10.
pub fn validate_quorum_percent(percent: u32) -> (r: Result<(), ContractError>)
    ensures
        r == then_check(
            check(percent <= 100, ContractError::InvalidPercentage),
            check(percent >= MIN_QUORUM_PERCENT, ContractError::QuorumTooLow),
        ),
{
    validate_percentage(percent)?;
    if percent < MIN_QUORUM_PERCENT {
        return Err(ContractError::QuorumTooLow);
    }
    Ok(())
}

/// Requires a valid percentage above 50 (a strict majority).
pub fn validate_voting_threshold(percent: u32) -> (r: Result<(), ContractError>)
    ensures
        r == then_check(
            check(percent <= 100, ContractError::InvalidPercentage),
            check(percent > 50, ContractError::ThresholdTooLow),
        ),
{
    validate_percentage(percent)?;
    if percent <= 50 {
        return Err(ContractError::ThresholdTooLow);
    }
    Ok(())
}

/// Requires a reserve ratio of 20 % to 100 %.
pub fn validate_reserve_ratio(ratio_percent: u32) -> (r: Result<(), ContractError>)
    ensures
        r == check(MIN_RESERVE_RATIO <= ratio_percent && ratio_percent <= 100, ContractError::InvalidReserveRatio),
{
    if ratio_percent < MIN_RESERVE_RATIO || ratio_percent > 100 {
        return Err(ContractError::InvalidReserveRatio);
    }
    Ok(())
}

/// Requires the contract not to be paused.
pub fn validate_not_paused(is_paused: bool) -> (r: Result<(), ContractError>)
    ensures
        r == check(!is_paused, ContractError::Paused),
{
    if is_paused {
        return Err(ContractError::Paused);
    }
    Ok(())
}

/// Requires the contract to be initialised.
pub fn validate_initialized(is_initialized: bool) -> (r: Result<(), ContractError>)
    ensures
        r == check(is_initialized, ContractError::NotInitialized),
{
    if !is_initialized {
        return Err(ContractError::NotInitialized);
    }
    Ok(())
}

/// Requires the contract not to be initialised yet.
pub fn validate_not_initialized(is_initialized: bool) -> (r: Result<(), ContractError>)
    ensures
        r == check(!is_initialized, ContractError::AlreadyInitialized),
{
    if is_initialized {
        return Err(ContractError::AlreadyInitialized);
    }
    Ok(())
}

/// Requires a non-empty payload of at most `max_len` bytes.
pub fn validate_bytes_length(data: &[u8], max_len: u32) -> (r: Result<(), ContractError>)
    ensures
        r == then_check(
            check(data@.len() > 0, ContractError::EmptyInput),
            check(data@.len() <= max_len, ContractError::InputTooLong),
        ),
{
    if data.len() == 0 {
        return Err(ContractError::EmptyInput);
    }
    if data.len() > max_len as usize {
        return Err(ContractError::InputTooLong);
    }
    Ok(())
}

/// Requires a non-empty string of at most `max_len` bytes.
pub fn validate_string_length(s: &[u8], max_len: u32) -> (r: Result<(), ContractError>)
    ensures
        r == then_check(
            check(s@.len() > 0, ContractError::EmptyInput),
            check(s@.len() <= max_len, ContractError::InputTooLong),
        ),
{
    if s.len() == 0 {
        return Err(ContractError::EmptyInput);
    }
    if s.len() > max_len as usize {
        return Err(ContractError::InputTooLong);
    }
    Ok(())
}

/// Requires non-empty metadata of at most 1024 bytes.
pub fn validate_metadata(s: &[u8]) -> (r: Result<(), ContractError>)
    ensures
        r == then_check(
            check(s@.len() > 0, ContractError::EmptyInput),
            check(s@.len() <= MAX_METADATA_LEN, ContractError::InputTooLong),
        ),
{
    validate_string_length(s, MAX_METADATA_LEN)
}

/// Requires a non-empty description of at most 2048 bytes.
pub fn validate_description(s: &[u8]) -> (r: Result<(), ContractError>)
    ensures
        r == then_check(
            check(s@.len() > 0, ContractError::EmptyInput),
            check(s@.len() <= MAX_DESCRIPTION_LEN, ContractError::InputTooLong),
        ),
{
    validate_string_length(s, MAX_DESCRIPTION_LEN)
}

/// Requires a proposal title of 3 to 200 bytes.
pub fn validate_proposal_title(title: &[u8]) -> (r: Result<(), ContractError>)
    ensures
        r == then_check(
            check(title@.len() >= MIN_TITLE_LEN, ContractError::InputTooShort),
            check(title@.len() <= MAX_TITLE_LEN, ContractError::InputTooLong),
        ),
{
    if title.len() < MIN_TITLE_LEN as usize {
        return Err(ContractError::InputTooShort);
    }
    if title.len() > MAX_TITLE_LEN as usize {
        return Err(ContractError::InputTooLong);
    }
    Ok(())
}

/// Checks a proposal's title, description and voting duration, in that order.
pub fn validate_proposal_params(title: &[u8], description: &[u8], voting_duration_secs: u64) -> (r: Result<(), ContractError>)
    ensures
        r == then_check(
            then_check(
                check(title@.len() >= MIN_TITLE_LEN, ContractError::InputTooShort),
                check(title@.len() <= MAX_TITLE_LEN, ContractError::InputTooLong),
            ),
            then_check(
                then_check(
                    check(description@.len() > 0, ContractError::EmptyInput),
                    check(description@.len() <= MAX_DESCRIPTION_LEN, ContractError::InputTooLong),
                ),
                check(
                    MIN_VOTING_SECS <= voting_duration_secs && voting_duration_secs <= MAX_VOTING_SECS,
                    ContractError::InvalidVotingDuration,
                ),
            ),
        ),
{
    validate_proposal_title(title)?;
    validate_description(description)?;
    validate_voting_duration(voting_duration_secs)?;
    Ok(())
}

/// Requires 1 to 100 oracle submissions.
pub fn validate_oracle_submissions(count: u32) -> (r: Result<(), ContractError>)
    ensures
        r == check(1 <= count && count <= MAX_ORACLE_SUBMISSIONS, ContractError::InsufficientOracleSubmissions),
{
    if count < 1 || count > MAX_ORACLE_SUBMISSIONS {
        return Err(ContractError::InsufficientOracleSubmissions);
    }
    Ok(())
}

/// Requires oracle data not from the future and at most `max_age_seconds` old.
pub fn validate_oracle_data_age(current_time: u64, data_time: u64, max_age_seconds: u64) -> (r: Result<(), ContractError>)
    ensures
        r == then_check(
            check(data_time <= current_time, ContractError::InvalidInput),
            check(current_time - data_time <= max_age_seconds, ContractError::OracleDataStale),
        ),
{
    if data_time > current_time {
        return Err(ContractError::InvalidInput);
    }
    if current_time - data_time > max_age_seconds {
        return Err(ContractError::OracleDataStale);
    }
    Ok(())
}

/// Requires a minimum submission count of 1 to 100.
pub fn validate_min_oracle_submissions(min_submissions: u32) -> (r: Result<(), ContractError>)
    ensures
        r == check(1 <= min_submissions && min_submissions <= MAX_ORACLE_SUBMISSIONS, ContractError::InvalidInput),
{
    if min_submissions == 0 || min_submissions > MAX_ORACLE_SUBMISSIONS {
        return Err(ContractError::InvalidInput);
    }
    Ok(())
}

/// Requires a positive slash not above the slashable stake.
pub fn validate_slashing_amount(amount: i128, max_slashable: i128) -> (r: Result<(), ContractError>)
    ensures
        r == then_check(
            check(amount > 0, ContractError::AmountMustBePositive),
            check(amount <= max_slashable, ContractError::SlashingExceedsStake),
        ),
{
    if amount <= 0 {
        return Err(ContractError::AmountMustBePositive);
    }
    if amount > max_slashable {
        return Err(ContractError::SlashingExceedsStake);
    }
    Ok(())
}

/// Requires a valid percentage of at most 10.
pub fn validate_slashing_percent(percent: u32) -> (r: Result<(), ContractError>)
    ensures
        r == then_check(
            check(percent <= 100, ContractError::InvalidPercentage),
            check(percent <= MAX_SLASH_PERCENT, ContractError::SlashingPercentTooHigh),
        ),
{
    validate_percentage(percent)?;
    if percent > MAX_SLASH_PERCENT {
        return Err(ContractError::SlashingPercentTooHigh);
    }
    Ok(())
}

/// Requires a page size of 1 to 1000.
pub fn validate_pagination(limit: u32) -> (r: Result<(), ContractError>)
    ensures
        r == check(1 <= limit && limit <= MAX_PAGE_SIZE, ContractError::InvalidPaginationParams),
{
    if limit == 0 || limit > MAX_PAGE_SIZE {
        return Err(ContractError::InvalidPaginationParams);
    }
    Ok(())
}

/// Checks a new policy's coverage, premium and duration, then that the premium is below the coverage.
pub fn validate_policy_params(holder: u64, coverage_amount: i128, premium_amount: i128, duration_days: u32) -> (r: Result<(), ContractError>)
    ensures
        r == then_check(
            then_check(
                check(
                    MIN_COVERAGE <= coverage_amount && coverage_amount <= MAX_COVERAGE,
                    ContractError::InvalidCoverageAmount,
                ),
                check(
                    MIN_PREMIUM <= premium_amount && premium_amount <= MAX_PREMIUM,
                    ContractError::InvalidPremiumAmount,
                ),
            ),
            then_check(
                check(
                    MIN_DURATION_DAYS <= duration_days && duration_days <= MAX_DURATION_DAYS,
                    ContractError::InvalidDuration,
                ),
                check(premium_amount < coverage_amount, ContractError::PremiumExceedsCoverage),
            ),
        ),
{
    validate_address(holder)?;
    validate_coverage_amount(coverage_amount)?;
    validate_premium_amount(premium_amount)?;
    validate_duration_days(duration_days)?;
    if premium_amount >= coverage_amount {
        return Err(ContractError::PremiumExceedsCoverage);
    }
    Ok(())
}

/// Checks a claim's amount against its coverage.
pub fn validate_claim_params(claimant: u64, claim_amount: i128, coverage_amount: i128) -> (r: Result<(), ContractError>)
    ensures
        r == then_check(
            check(claim_amount > 0, ContractError::AmountMustBePositive),
            check(claim_amount <= coverage_amount, ContractError::ClaimExceedsCoverage),
        ),
{
    validate_address(claimant)?;
    validate_claim_amount(claim_amount, coverage_amount)
}

/// Checks that a risk pool's admin and token differ and its minimum stake is positive.
pub fn validate_risk_pool_init_params(admin: u64, token: u64, min_provider_stake: i128) -> (r: Result<(), ContractError>)
    ensures
        r == then_check(
            check(admin != token, ContractError::DuplicateAddress),
            check(min_provider_stake > 0, ContractError::AmountMustBePositive),
        ),
{
    validate_address(admin)?;
    validate_address(token)?;
    validate_addresses_different(admin, token)?;
    validate_positive_amount(min_provider_stake)
}

/// Accepts every list of addresses: each one is valid by construction.
pub fn validate_addresses(addresses: &[u64]) -> (r: Result<(), ContractError>)
    ensures
        r == Ok::<(), ContractError>(()),
{
    let mut i: usize = 0;
    while i < addresses.len()
        invariant
            i <= addresses@.len(),
        decreases addresses@.len() - i,
    {
        validate_address(addresses[i])?;
        i = i + 1;
    }
    Ok(())
}

/// Rejects the all-zero 32-byte hash, a placeholder rather than evidence.
pub fn validate_evidence_hash(hash: &[u8; 32]) -> (r: Result<(), ContractError>)
    ensures
        r == check(
            exists|i: int| 0 <= i < 32 && hash@[i] != 0,
            ContractError::InvalidEvidenceHash,
        ),
{
    let mut i: usize = 0;
    while i < 32
        invariant
            i <= 32,
            hash@.len() == 32,
            forall|j: int| 0 <= j < i ==> hash@[j] == 0,
        decreases 32 - i,
    {
        if hash[i] != 0 {
            return Ok(());
        }
        i = i + 1;
    }
    Err(ContractError::InvalidEvidenceHash)
}

/// `a + b`, or `Overflow` when it leaves the range of `i128`.
pub fn safe_add(a: i128, b: i128) -> (r: Result<i128, ContractError>)
    ensures
        r == if i128::MIN <= a + b <= i128::MAX {
            Ok::<i128, ContractError>((a + b) as i128)
        } else {
            Err(ContractError::Overflow)
        },
{
    match a.checked_add(b) {
        Some(v) => Ok(v),
        None => Err(ContractError::Overflow),
    }
}

/// `a - b`, or `Underflow` when it leaves the range of `i128`.
pub fn safe_sub(a: i128, b: i128) -> (r: Result<i128, ContractError>)
    ensures
        r == if i128::MIN <= a - b <= i128::MAX {
            Ok::<i128, ContractError>((a - b) as i128)
        } else {
            Err(ContractError::Underflow)
        },
{
    match a.checked_sub(b) {
        Some(v) => Ok(v),
        None => Err(ContractError::Underflow),
    }
}

/// `a * b`, or `Overflow` when it leaves the range of `i128`.
pub fn safe_mul(a: i128, b: i128) -> (r: Result<i128, ContractError>)
    ensures
        r == if i128::MIN <= a * b <= i128::MAX {
            Ok::<i128, ContractError>((a * b) as i128)
        } else {
            Err(ContractError::Overflow)
        },
{
    match a.checked_mul(b) {
        Some(v) => Ok(v),
        None => Err(ContractError::Overflow),
    }
}

/// `a / b` rounded toward zero; `DivisionByZero` for `b == 0` and `Overflow`
/// for `i128::MIN / -1`.
pub fn safe_div(a: i128, b: i128) -> (r: Result<i128, ContractError>)
    ensures
        r == if b == 0 {
            Err(ContractError::DivisionByZero)
        } else if a == i128::MIN && b == -1 {
            Err(ContractError::Overflow)
        } else {
            Ok::<i128, ContractError>(div_toward_zero(a as int, b as int) as i128)
        },
{
    if b == 0 {
        return Err(ContractError::DivisionByZero);
    }
    if a == i128::MIN && b == -1 {
        return Err(ContractError::Overflow);
    }
    proof {
        let x = if a < 0 {
            -(a as int)
        } else {
            a as int
        };
        let z = if b < 0 {
            -(b as int)
        } else {
            b as int
        };
        lemma_div_is_ordered_by_denominator(x, 1, z);
        if a == i128::MIN && z >= 2 {
            lemma_div_is_ordered_by_denominator(x, 2, z);
        }
    }
    match a.checked_div(b) {
        Some(v) => Ok(v),
        None => Err(ContractError::Overflow),
    }
}

/// The error of the first condition that does not hold.
pub open spec fn first_failure(conditions: Seq<(bool, ContractError)>) -> Result<(), ContractError>
    decreases conditions.len(),
{
    if conditions.len() == 0 {
        Ok(())
    } else if !conditions[0].0 {
        Err(conditions[0].1)
    } else {
        first_failure(conditions.drop_first())
    }
}

/// Checks `(holds, error)` pairs in order and returns the error of the first
/// condition that does not hold.
pub fn validate_all(conditions: &[(bool, ContractError)]) -> (r: Result<(), ContractError>)
    ensures
        r == first_failure(conditions@),
{
    let mut i: usize = 0;
    assert(conditions@.skip(0) =~= conditions@);
    while i < conditions.len()
        invariant
            i <= conditions@.len(),
            first_failure(conditions@) == first_failure(conditions@.skip(i as int)),
        decreases conditions@.len() - i,
    {
        let (is_valid, error) = conditions[i];
        assert(conditions@.skip(i as int)[0] == conditions@[i as int]);
        if !is_valid {
            return Err(error);
        }
        assert(conditions@.skip(i as int).drop_first() =~= conditions@.skip(i as int + 1));
        i = i + 1;
    }
    assert(conditions@.skip(i as int).len() == 0);
    Ok(())
}

/// `amount * scale / divisor` rounded toward zero, or `Overflow` when the
/// product leaves the range of `i128`.
pub open spec fn scaled_share(amount: i128, scale: int, divisor: int) -> Result<i128, ContractError> {
    if i128::MIN <= amount * scale <= i128::MAX {
        Ok(div_toward_zero(amount * scale, divisor) as i128)
    } else {
        Err(ContractError::Overflow)
    }
}

/// `percent` % of `amount` for a percentage of at most 100.
pub fn calculate_percentage(amount: i128, percent: u32) -> (r: Result<i128, ContractError>)
    ensures
        r == if percent > 100 {
            Err(ContractError::InvalidPercentage)
        } else if percent == 0 {
            Ok::<i128, ContractError>(0)
        } else {
            scaled_share(amount, percent as int, 100)
        },
{
    validate_percentage(percent)?;
    if percent == 0 {
        return Ok(0);
    }
    let product = safe_mul(amount, percent as i128)?;
    match product.checked_div(100) {
        Some(v) => Ok(v),
        None => Err(ContractError::Overflow),
    }
}

/// `bps` basis points of `amount` for at most 10000 basis points.
pub fn calculate_basis_points(amount: i128, bps: u32) -> (r: Result<i128, ContractError>)
    ensures
        r == if bps > MAX_BPS {
            Err(ContractError::InvalidBasisPoints)
        } else if bps == 0 {
            Ok::<i128, ContractError>(0)
        } else {
            scaled_share(amount, bps as int, 10_000)
        },
{
    validate_basis_points(bps)?;
    if bps == 0 {
        return Ok(0);
    }
    let product = safe_mul(amount, bps as i128)?;
    match product.checked_div(10_000) {
        Some(v) => Ok(v),
        None => Err(ContractError::Overflow),
    }
}

/// Reserve as a percentage of the total value, truncated to `u32`.
pub fn calculate_reserve_ratio(reserve: i128, total_value: i128) -> (r: Result<u32, ContractError>)
    ensures
        r == if total_value <= 0 {
            Err(ContractError::AmountMustBePositive)
        } else if reserve == 0 {
            Ok::<u32, ContractError>(0)
        } else {
            match scaled_share(reserve, 100, total_value as int) {
                Ok(q) => Ok(q as u32),
                Err(e) => Err(e),
            }
        },
{
    validate_positive_amount(total_value)?;
    if reserve == 0 {
        return Ok(0);
    }
    let product = safe_mul(reserve, 100)?;
    let ratio = safe_div(product, total_value)?;
    Ok(ratio as u32)
}

} // verus!
