//! Price aggregation: outlier classification, medians, spread and confidence.
//!
//! All arithmetic here is exact: results are stated over mathematical integers
//! and computed without overflow on every input.

use vstd::arithmetic::div_mod::{
    lemma_div_is_ordered, lemma_div_pos_is_pos, lemma_fundamental_div_mod, lemma_mod_pos_bound,
};
use vstd::prelude::*;

verus! {

/// Absolute value over mathematical integers.
pub open spec fn abs(x: int) -> int {
    if x < 0 {
        -x
    } else {
        x
    }
}

/// `floor(num * 10000 / den)`: a ratio expressed in basis points.
pub open spec fn ratio_bps(num: int, den: int) -> int {
    num * 10000 / den
}

/// A price is an outlier when its distance to the median, in basis points of
/// the median, exceeds the threshold. Against a zero median every nonzero price
/// is an outlier.
pub open spec fn outlier_spec(price: int, median: int, threshold_bps: int) -> bool {
    if median == 0 {
        price != 0
    } else {
        ratio_bps(abs(price - median), abs(median)) > threshold_bps
    }
}

/// `|a - b|`, computed without overflow.
pub fn abs_diff(a: i128, b: i128) -> (r: u128)
    ensures
        r as int == abs(a - b),
{
    if a >= b {
        if b >= 0 || a < 0 {
            (a - b) as u128
        } else {
            a as u128 + (-(b + 1)) as u128 + 1
        }
    } else {
        if a >= 0 || b < 0 {
            (b - a) as u128
        } else {
            b as u128 + (-(a + 1)) as u128 + 1
        }
    }
}

proof fn lemma_ratio_at_least(num: int, den: int, k: int)
    requires
        num >= 0,
        den > 0,
        k >= 0,
    ensures
        (ratio_bps(num, den) >= k) <==> num >= k * (den / 10000) + (k * (den % 10000) + 9999)
            / 10000,
{
    let a = den / 10000;
    let b = den % 10000;
    assert(den == 10000 * a + b && 0 <= b < 10000);
    let x = num * 10000;
    let q = x / den;
    let r = x % den;
    lemma_fundamental_div_mod(x, den);
    lemma_mod_pos_bound(x, den);
    assert(x == den * q + r && 0 <= r < den);
    assert((q >= k) <==> (x >= k * den)) by (nonlinear_arith)
        requires
            x == den * q + r,
            0 <= r < den,
            den > 0,
    ;
    assert(k * den == 10000 * (k * a) + k * b) by (nonlinear_arith)
        requires
            den == 10000 * a + b,
    ;
    let y = k * b;
    assert(y >= 0) by (nonlinear_arith)
        requires
            y == k * b,
            k >= 0,
            b >= 0,
    ;
    let c = (y + 9999) / 10000;
    assert(10000 * c <= y + 9999 < 10000 * c + 10000);
}

/// Whether `num * 10000 / den` (rounded down) is at least `k`.
fn ratio_bps_at_least(num: u128, den: u128, k: u128) -> (r: bool)
    requires
        den > 0,
        k <= 0x1_0000_0000,
    ensures
        r == (ratio_bps(num as int, den as int) >= k),
{
    proof {
        lemma_ratio_at_least(num as int, den as int, k as int);
    }
    let a = den / 10000;
    let b = den % 10000;
    assert(k * b <= 0x1_0000_0000 * 10000) by (nonlinear_arith)
        requires
            k <= 0x1_0000_0000,
            b < 10000,
    ;
    let tail = (k * b + 9999) / 10000;
    match k.checked_mul(a) {
        None => false,
        Some(head) => match head.checked_add(tail) {
            None => false,
            Some(bound) => num >= bound,
        },
    }
}

/// Classifies `price` against the reference `median` with a tolerance of
/// `threshold_bps` basis points.
pub fn is_outlier(price: i128, median: i128, threshold_bps: u32) -> (r: bool)
    ensures
        r == outlier_spec(price as int, median as int, threshold_bps as int),
{
    if median == 0 {
        return price != 0;
    }
    let diff = abs_diff(price, median);
    let abs_median = abs_diff(median, 0);
    ratio_bps_at_least(diff, abs_median, threshold_bps as u128 + 1)
}

/// The outlier test is symmetric around the median: two prices at the same
/// distance above and below it are classified alike.
pub proof fn lemma_outlier_symmetric(above: i128, below: i128, median: i128, threshold_bps: u32)
    requires
        above - median == median - below,
    ensures
        outlier_spec(above as int, median as int, threshold_bps as int) == outlier_spec(
            below as int,
            median as int,
            threshold_bps as int,
        ),
{
}

/// The outlier test is monotonic in the distance to the median: a price at
/// least as far from the median as an outlier is an outlier too.
pub proof fn lemma_outlier_monotonic(near: i128, far: i128, median: i128, threshold_bps: u32)
    requires
        abs(near - median) <= abs(far - median),
    ensures
        outlier_spec(near as int, median as int, threshold_bps as int) ==> outlier_spec(
            far as int,
            median as int,
            threshold_bps as int,
        ),
{
    if median != 0 {
        lemma_div_is_ordered(
            abs(near - median) * 10000,
            abs(far - median) * 10000,
            abs(median as int),
        );
    }
}

/// Spread of the accepted prices in basis points of the final price, capped
/// at `u32::MAX`; zero when the final price is zero.
pub open spec fn spread_spec(min_val: int, max_val: int, median: int) -> int {
    if median == 0 {
        0
    } else if ratio_bps(abs(max_val - min_val), abs(median)) >= u32::MAX {
        u32::MAX as int
    } else {
        ratio_bps(abs(max_val - min_val), abs(median))
    }
}

/// `|max_val - min_val| * 10000 / |median|`, capped at `u32::MAX`, or zero for
/// a zero median.
pub fn calculate_spread_bps(min_val: i128, max_val: i128, median: i128) -> (r: u32)
    ensures
        r as int == spread_spec(min_val as int, max_val as int, median as int),
{
    if median == 0 {
        return 0;
    }
    let range = abs_diff(max_val, min_val);
    let abs_median = abs_diff(median, 0);
    if ratio_bps_at_least(range, abs_median, 0xffff_ffff) {
        return u32::MAX;
    }
    let ghost v = ratio_bps(range as int, abs_median as int);
    proof {
        lemma_div_pos_is_pos(range as int * 10000, abs_median as int);
    }
    let mut lo: u128 = 0;
    let mut hi: u128 = 0xffff_ffff;
    while hi - lo > 1
        invariant
            lo < hi <= 0xffff_ffff,
            lo <= v < hi,
            abs_median > 0,
            v == ratio_bps(range as int, abs_median as int),
        decreases hi - lo,
    {
        let mid = lo + (hi - lo) / 2;
        if ratio_bps_at_least(range, abs_median, mid) {
            lo = mid;
        } else {
            hi = mid;
        }
    }
    lo as u32
}

/// Sum of `confidence * weight` over a sequence of `(confidence, weight)` pairs.
pub open spec fn weighted_conf_sum(s: Seq<(u32, u32)>) -> int
    decreases s.len(),
{
    if s.len() == 0 {
        0
    } else {
        weighted_conf_sum(s.drop_last()) + s.last().0 * s.last().1
    }
}

/// Sum of the weights of a sequence of `(confidence, weight)` pairs.
pub open spec fn conf_weight_total(s: Seq<(u32, u32)>) -> int
    decreases s.len(),
{
    if s.len() == 0 {
        0
    } else {
        conf_weight_total(s.drop_last()) + s.last().1
    }
}

/// The weight-averaged confidence, rounded down; zero when no weight is present.
pub open spec fn weighted_confidence_spec(s: Seq<(u32, u32)>) -> int {
    if conf_weight_total(s) == 0 {
        0
    } else {
        weighted_conf_sum(s) / conf_weight_total(s)
    }
}

/// Weighted average of `(confidence, weight)` pairs.
pub fn weighted_confidence(submissions: &[(u32, u32)]) -> (r: u32)
    ensures
        r as int == weighted_confidence_spec(submissions@),
{
    let n = submissions.len();
    if n == 0 {
        return 0;
    }
    let mut sum: u128 = 0;
    let mut total_w: u128 = 0;
    let mut i: usize = 0;
    while i < n
        invariant
            n == submissions@.len(),
            i <= n,
            sum as int == weighted_conf_sum(submissions@.take(i as int)),
            total_w as int == conf_weight_total(submissions@.take(i as int)),
            total_w <= i * 0xffff_ffff,
            sum <= 0xffff_ffff * total_w,
        decreases n - i,
    {
        let (c, w) = submissions[i];
        let ghost prefix = submissions@.take(i as int);
        assert(submissions@.take(i as int + 1).drop_last() == prefix);
        assert(c * w <= 0xffff_ffff * w) by (nonlinear_arith)
            requires
                c <= 0xffff_ffff,
        ;
        assert(i * 0xffff_ffff <= 0xffff_ffff_ffff_ffff * 0xffff_ffff) by (nonlinear_arith)
            requires
                i <= 0xffff_ffff_ffff_ffff,
        ;
        assert(c * w <= 0xffff_ffff * 0xffff_ffff) by (nonlinear_arith)
            requires
                c <= 0xffff_ffff,
                w <= 0xffff_ffff,
        ;
        sum = sum + (c as u128) * (w as u128);
        total_w = total_w + w as u128;
        i = i + 1;
    }
    assert(submissions@.take(n as int) == submissions@);
    if total_w == 0 {
        return 0;
    }
    let q = sum / total_w;
    assert(q <= 0xffff_ffff) by (nonlinear_arith)
        requires
            q == sum / total_w,
            sum <= 0xffff_ffff * total_w,
            total_w > 0,
    ;
    q as u32
}

} // verus!
