use stellar_insured::aggregation::{abs_diff, calculate_spread_bps, is_outlier, weighted_confidence};
use stellar_insured::median::{simple_median, sort_by_price, sort_values, weighted_median};

#[test]
fn test_weighted_median_basic() {
    let data: Vec<(i128, u32)> = vec![(100, 10), (200, 10), (300, 10)];
    assert_eq!(weighted_median(&data), 200);
}

#[test]
fn test_weighted_median_skewed() {
    let data: Vec<(i128, u32)> = vec![(100, 100), (200, 10), (300, 10)];
    assert_eq!(weighted_median(&data), 100);
}

#[test]
fn test_outlier_detection() {
    assert!(!is_outlier(100, 100, 1500));
    assert!(!is_outlier(110, 100, 1500));
    assert!(is_outlier(120, 100, 1500));
    assert!(is_outlier(200, 100, 1500));
    assert!(!is_outlier(85, 100, 1500));
}

#[test]
fn weighted_median_of_one_pair_is_its_price() {
    assert_eq!(weighted_median(&vec![(-42, 0)]), -42);
    assert_eq!(weighted_median(&vec![(123_456, 7)]), 123_456);
    assert_eq!(weighted_median(&vec![]), 0);
}

#[test]
fn weighted_median_equal_weights_matches_median() {
    let data: Vec<(i128, u32)> = vec![(300, 4), (100, 4), (200, 4)];
    assert_eq!(weighted_median(&data), 200);
    assert_eq!(simple_median(&vec![300, 100, 200]), 200);
}

#[test]
fn weighted_median_unsorted_input_and_ties() {
    let data: Vec<(i128, u32)> = vec![(500, 1), (100, 1), (300, 5), (100, 1)];
    // total 8, half 4: cumulative 2 at 100, 7 at 300
    assert_eq!(weighted_median(&data), 300);
    let zero: Vec<(i128, u32)> = vec![(7, 0), (3, 0), (9, 0)];
    assert_eq!(weighted_median(&zero), 3);
}

#[test]
fn simple_median_even_and_odd() {
    assert_eq!(simple_median(&vec![]), 0);
    assert_eq!(simple_median(&vec![5]), 5);
    assert_eq!(simple_median(&vec![4, 1, 3, 2]), 2);
    assert_eq!(simple_median(&vec![-3, -4]), -3);
    assert_eq!(simple_median(&vec![i128::MAX, i128::MAX]), i128::MAX);
    assert_eq!(simple_median(&vec![i128::MIN, 0]), i128::MIN / 2);
    assert_eq!(simple_median(&vec![i128::MIN, i128::MAX]), 0);
}

#[test]
fn sorting_orders_by_price() {
    let sorted = sort_by_price(&vec![(3, 1), (1, 2), (2, 3), (1, 4)]);
    let prices: Vec<i128> = sorted.iter().map(|p| p.0).collect();
    assert_eq!(prices, vec![1, 1, 2, 3]);
    assert_eq!(sort_values(&vec![9, -1, 4]), vec![-1, 4, 9]);
}

#[test]
fn outlier_symmetric_and_monotonic_examples() {
    assert_eq!(is_outlier(115, 100, 1500), is_outlier(85, 100, 1500));
    assert_eq!(is_outlier(116, 100, 1500), is_outlier(84, 100, 1500));
    assert!(!is_outlier(115, 100, 1500));
    assert!(is_outlier(116, 100, 1500));
    assert!(is_outlier(0, 100, 1500));
    assert!(is_outlier(1, 0, 0));
    assert!(!is_outlier(0, 0, 0));
    assert!(!is_outlier(-90, -100, 1000));
    assert!(is_outlier(i128::MAX, i128::MIN, 19_998));
    assert!(!is_outlier(i128::MAX, i128::MIN, 19_999));
}

#[test]
fn spread_in_basis_points() {
    assert_eq!(calculate_spread_bps(100_000_000, 101_000_000, 100_500_000), 99);
    assert_eq!(calculate_spread_bps(90, 110, 100), 2000);
    assert_eq!(calculate_spread_bps(90, 110, 0), 0);
    assert_eq!(calculate_spread_bps(90, 110, -100), 2000);
    assert_eq!(calculate_spread_bps(i128::MIN, i128::MAX, 1), u32::MAX);
}

#[test]
fn confidence_is_weight_averaged() {
    assert_eq!(weighted_confidence(&[]), 0);
    assert_eq!(weighted_confidence(&[(9000, 0)]), 0);
    assert_eq!(weighted_confidence(&[(9000, 1), (8000, 3)]), 8250);
    assert_eq!(weighted_confidence(&[(u32::MAX, u32::MAX), (u32::MAX, u32::MAX)]), u32::MAX);
}

#[test]
fn absolute_difference_spans_whole_range() {
    assert_eq!(abs_diff(i128::MAX, i128::MIN), u128::MAX);
    assert_eq!(abs_diff(-5, 5), 10);
    assert_eq!(abs_diff(3, 3), 0);
}
