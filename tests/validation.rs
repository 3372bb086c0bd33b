use stellar_insured::common::ContractError;
use stellar_insured::validation::{
    calculate_basis_points, calculate_percentage, calculate_reserve_ratio, safe_add, safe_div,
    safe_mul, safe_sub, validate_addresses, validate_addresses_different, validate_all,
    validate_amount_in_bounds, validate_basis_points, validate_claim_amount,
    validate_coverage_amount, validate_deposit_amount, validate_duration_days,
    validate_evidence_hash, validate_future_timestamp, validate_oracle_data_age,
    validate_oracle_deviation, validate_pagination, validate_percentage, validate_policy_params,
    validate_positive_amount, validate_premium_amount, validate_proposal_params,
    validate_quorum_percent, validate_reserve_ratio, validate_slashing_percent,
    validate_string_length, validate_time_range, validate_voting_duration,
    validate_voting_threshold,
};

#[test]
fn amounts_are_checked() {
    assert_eq!(validate_positive_amount(0), Err(ContractError::AmountMustBePositive));
    assert_eq!(validate_positive_amount(1), Ok(()));
    assert_eq!(validate_amount_in_bounds(5, 1, 4), Err(ContractError::AmountOutOfBounds));
    assert_eq!(validate_coverage_amount(10_000_000), Ok(()));
    assert_eq!(validate_coverage_amount(9_999_999), Err(ContractError::InvalidCoverageAmount));
    assert_eq!(validate_premium_amount(999_999), Err(ContractError::InvalidPremiumAmount));
    assert_eq!(validate_claim_amount(0, 10), Err(ContractError::AmountMustBePositive));
    assert_eq!(validate_claim_amount(11, 10), Err(ContractError::ClaimExceedsCoverage));
    assert_eq!(validate_deposit_amount(5, 10), Err(ContractError::DepositBelowMinStake));
}

#[test]
fn times_and_ratios_are_checked() {
    assert_eq!(validate_future_timestamp(10, 10), Err(ContractError::TimestampNotFuture));
    assert_eq!(validate_time_range(5, 5), Err(ContractError::InvalidTimeRange));
    assert_eq!(validate_duration_days(1826), Err(ContractError::InvalidDuration));
    assert_eq!(validate_voting_duration(3_599), Err(ContractError::InvalidVotingDuration));
    assert_eq!(validate_voting_duration(2_592_000), Ok(()));
    assert_eq!(validate_percentage(101), Err(ContractError::InvalidPercentage));
    assert_eq!(validate_basis_points(10_001), Err(ContractError::InvalidBasisPoints));
    assert_eq!(validate_oracle_deviation(501), Err(ContractError::OracleValidationFailed));
    assert_eq!(validate_oracle_deviation(10_001), Err(ContractError::InvalidBasisPoints));
    assert_eq!(validate_quorum_percent(9), Err(ContractError::QuorumTooLow));
    assert_eq!(validate_voting_threshold(50), Err(ContractError::ThresholdTooLow));
    assert_eq!(validate_reserve_ratio(19), Err(ContractError::InvalidReserveRatio));
    assert_eq!(validate_slashing_percent(11), Err(ContractError::SlashingPercentTooHigh));
    assert_eq!(validate_pagination(0), Err(ContractError::InvalidPaginationParams));
    assert_eq!(validate_oracle_data_age(10, 11, 5), Err(ContractError::InvalidInput));
    assert_eq!(validate_oracle_data_age(20, 10, 5), Err(ContractError::OracleDataStale));
    assert_eq!(validate_oracle_data_age(20, 15, 5), Ok(()));
}

#[test]
fn inputs_and_addresses_are_checked() {
    assert_eq!(validate_addresses(&[1, 2, 3]), Ok(()));
    assert_eq!(validate_addresses_different(4, 4), Err(ContractError::DuplicateAddress));
    assert_eq!(validate_evidence_hash(&[0u8; 32]), Err(ContractError::InvalidEvidenceHash));
    let mut hash = [0u8; 32];
    hash[31] = 1;
    assert_eq!(validate_evidence_hash(&hash), Ok(()));
    assert_eq!(validate_string_length(b"", 4), Err(ContractError::EmptyInput));
    assert_eq!(validate_string_length(b"abcde", 4), Err(ContractError::InputTooLong));
    assert_eq!(validate_proposal_params(b"ab", b"d", 3600), Err(ContractError::InputTooShort));
    assert_eq!(validate_proposal_params(b"abc", b"", 3600), Err(ContractError::EmptyInput));
    assert_eq!(validate_proposal_params(b"abc", b"d", 3600), Ok(()));
    assert_eq!(
        validate_policy_params(1, 10_000_000, 10_000_000, 30),
        Err(ContractError::PremiumExceedsCoverage)
    );
    assert_eq!(validate_policy_params(1, 20_000_000, 10_000_000, 30), Ok(()));
}

#[test]
fn arithmetic_is_checked() {
    assert_eq!(safe_add(i128::MAX, 1), Err(ContractError::Overflow));
    assert_eq!(safe_add(2, 3), Ok(5));
    assert_eq!(safe_sub(i128::MIN, 1), Err(ContractError::Underflow));
    assert_eq!(safe_mul(i128::MAX, 2), Err(ContractError::Overflow));
    assert_eq!(safe_div(7, 0), Err(ContractError::DivisionByZero));
    assert_eq!(safe_div(i128::MIN, -1), Err(ContractError::Overflow));
    assert_eq!(safe_div(-7, 2), Ok(-3));
    assert_eq!(calculate_percentage(250, 10), Ok(25));
    assert_eq!(calculate_percentage(-255, 10), Ok(-25));
    assert_eq!(calculate_percentage(250, 101), Err(ContractError::InvalidPercentage));
    assert_eq!(calculate_basis_points(10_000, 150), Ok(150));
    assert_eq!(calculate_basis_points(i128::MAX, 2), Err(ContractError::Overflow));
    assert_eq!(calculate_reserve_ratio(50, 200), Ok(25));
    assert_eq!(calculate_reserve_ratio(50, 0), Err(ContractError::AmountMustBePositive));
}

#[test]
fn first_failing_condition_wins() {
    assert_eq!(validate_all(&[]), Ok(()));
    assert_eq!(
        validate_all(&[
            (true, ContractError::Paused),
            (false, ContractError::NotFound),
            (false, ContractError::Overflow)
        ]),
        Err(ContractError::NotFound)
    );
}
