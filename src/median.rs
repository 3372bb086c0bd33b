//! Sorting, the unweighted reference median and the reputation-weighted median.

use crate::aggregation::abs_diff;
use vstd::multiset::group_multiset_axioms;
use vstd::prelude::*;
use vstd::relations::{sorted_by, total_ordering};
use vstd::seq_lib::{group_to_multiset_ensures, lemma_sorted_unique, to_multiset_update};

verus! {

// ---------------------------------------------------------------------------
// Weighted prices
// ---------------------------------------------------------------------------

/// Sum of the weights of the pairs whose price is at most `p`.
pub open spec fn weight_at_most(s: Seq<(i128, u32)>, p: int) -> int
    decreases s.len(),
{
    if s.len() == 0 {
        0
    } else {
        weight_at_most(s.drop_last(), p) + if s.last().0 <= p {
            s.last().1 as int
        } else {
            0
        }
    }
}

/// Sum of all weights.
pub open spec fn total_weight(s: Seq<(i128, u32)>) -> int {
    weight_at_most(s, i128::MAX as int)
}

/// Half of the total weight, rounded up.
pub open spec fn half_weight(s: Seq<(i128, u32)>) -> int {
    (total_weight(s) + 1) / 2
}

/// `p` is the smallest submitted price at which the weight of all prices up to
/// it reaches half of the total weight.
pub open spec fn is_weighted_median(s: Seq<(i128, u32)>, p: i128) -> bool {
    &&& exists|k: int| 0 <= k < s.len() && s[k].0 == p
    &&& weight_at_most(s, p as int) >= half_weight(s)
    &&& forall|k: int|
        0 <= k < s.len() && s[k].0 < p ==> weight_at_most(s, s[k].0 as int) < half_weight(s)
}

/// The weighted median of a sequence of `(price, weight)` pairs; zero for none.
pub open spec fn weighted_median_of(s: Seq<(i128, u32)>) -> i128 {
    if s.len() == 0 {
        0
    } else {
        choose|p: i128| is_weighted_median(s, p)
    }
}

/// Pairs in ascending order of price.
pub open spec fn sorted_by_price(s: Seq<(i128, u32)>) -> bool {
    forall|i: int, j: int| 0 <= i < j < s.len() ==> s[i].0 <= s[j].0
}

proof fn lemma_weight_append(a: Seq<(i128, u32)>, b: Seq<(i128, u32)>, p: int)
    ensures
        weight_at_most(a + b, p) == weight_at_most(a, p) + weight_at_most(b, p),
    decreases b.len(),
{
    if b.len() == 0 {
        assert(a + b =~= a);
    } else {
        assert((a + b).drop_last() =~= a + b.drop_last());
        lemma_weight_append(a, b.drop_last(), p);
    }
}

proof fn lemma_weight_bounds(s: Seq<(i128, u32)>, p: int)
    ensures
        0 <= weight_at_most(s, p) <= total_weight(s),
    decreases s.len(),
{
    if s.len() > 0 {
        lemma_weight_bounds(s.drop_last(), p);
    }
}

proof fn lemma_weight_none_below(s: Seq<(i128, u32)>, p: int)
    requires
        forall|k: int| 0 <= k < s.len() ==> s[k].0 > p,
    ensures
        weight_at_most(s, p) == 0,
    decreases s.len(),
{
    if s.len() > 0 {
        lemma_weight_none_below(s.drop_last(), p);
    }
}

proof fn lemma_weight_all_below(s: Seq<(i128, u32)>, p: int)
    requires
        forall|k: int| 0 <= k < s.len() ==> s[k].0 <= p,
    ensures
        weight_at_most(s, p) == total_weight(s),
    decreases s.len(),
{
    if s.len() > 0 {
        lemma_weight_all_below(s.drop_last(), p);
    }
}

/// Reordering the pairs does not change the weight below any price.
proof fn lemma_weight_permutation(s1: Seq<(i128, u32)>, s2: Seq<(i128, u32)>, p: int)
    requires
        s1.to_multiset() == s2.to_multiset(),
    ensures
        weight_at_most(s1, p) == weight_at_most(s2, p),
    decreases s1.len(),
{
    broadcast use group_to_multiset_ensures, group_multiset_axioms;

    if s1.len() == 0 {
        assert(s2.to_multiset().len() == 0);
        assert(s2.len() == 0);
    } else {
        let x = s1.last();
        assert(s1 =~= s1.drop_last().push(x));
        assert(s1.to_multiset().count(x) > 0);
        assert(s2.contains(x));
        let k = choose|k: int| 0 <= k < s2.len() && s2[k] == x;
        let rest = s2.remove(k);
        assert(rest.to_multiset() == s2.to_multiset().remove(x));
        assert(s1.drop_last().to_multiset() =~= s1.to_multiset().remove(x));
        lemma_weight_permutation(s1.drop_last(), rest, p);
        let left = s2.take(k);
        let right = s2.skip(k + 1);
        assert(rest =~= left + right);
        assert(s2 =~= left.push(x) + right);
        lemma_weight_append(left, right, p);
        lemma_weight_append(left.push(x), right, p);
        assert(left.push(x).drop_last() =~= left);
    }
}

/// At most one price is the weighted median.
pub proof fn lemma_weighted_median_unique(s: Seq<(i128, u32)>, p: i128, q: i128)
    requires
        is_weighted_median(s, p),
        is_weighted_median(s, q),
    ensures
        p == q,
{
    if p < q {
        let k = choose|k: int| 0 <= k < s.len() && s[k].0 == p;
        assert(s[k].0 < q);
    } else if q < p {
        let k = choose|k: int| 0 <= k < s.len() && s[k].0 == q;
        assert(s[k].0 < p);
    }
}

proof fn lemma_weighted_median_of(s: Seq<(i128, u32)>, p: i128)
    requires
        is_weighted_median(s, p),
    ensures
        weighted_median_of(s) == p,
{
    assert(s.len() > 0);
    let c = choose|c: i128| is_weighted_median(s, c);
    lemma_weighted_median_unique(s, c, p);
}

proof fn lemma_swap_multiset<A>(s: Seq<A>, i: int, j: int)
    requires
        0 <= i < s.len(),
        0 <= j < s.len(),
    ensures
        s.update(i, s[j]).update(j, s[i]).to_multiset() == s.to_multiset(),
{
    broadcast use group_multiset_axioms;

    let s1 = s.update(i, s[j]);
    to_multiset_update(s, i, s[j]);
    to_multiset_update(s1, j, s[i]);
    if i == j {
        assert(s.update(i, s[j]).update(j, s[i]) =~= s);
    } else {
        assert(s1[j] == s[j]);
        assert(s.to_multiset().count(s[i]) > 0) by {
            broadcast use group_to_multiset_ensures;

            assert(s.contains(s[i]));
        }
        assert(s.update(i, s[j]).update(j, s[i]).to_multiset() =~= s.to_multiset());
    }
}

/// A copy of `data` in ascending order of price.
pub fn sort_by_price(data: &Vec<(i128, u32)>) -> (r: Vec<(i128, u32)>)
    ensures
        r@.len() == data@.len(),
        r@.to_multiset() == data@.to_multiset(),
        sorted_by_price(r@),
{
    let len = data.len();
    let mut sorted: Vec<(i128, u32)> = Vec::new();
    let mut k: usize = 0;
    while k < len
        invariant
            len == data@.len(),
            k <= len,
            sorted@ == data@.take(k as int),
        decreases len - k,
    {
        sorted.push(data[k]);
        k = k + 1;
        assert(sorted@ =~= data@.take(k as int));
    }
    assert(sorted@ =~= data@);
    let mut i: usize = 1;
    while i < len
        invariant
            len == sorted@.len(),
            1 <= i || len == 0,
            sorted@.to_multiset() == data@.to_multiset(),
            forall|a: int, b: int| 0 <= a < b < i && b < len ==> sorted@[a].0 <= sorted@[b].0,
        decreases len - i,
    {
        let mut j: usize = i;
        while j > 0 && sorted[j - 1].0 > sorted[j].0
            invariant
                len == sorted@.len(),
                0 <= j <= i < len,
                sorted@.to_multiset() == data@.to_multiset(),
                forall|a: int, b: int|
                    0 <= a < b <= i && a != j && b != j ==> sorted@[a].0 <= sorted@[b].0,
                forall|b: int| j < b <= i ==> sorted@[j as int].0 < sorted@[b].0,
            decreases j,
        {
            let x = sorted[j - 1];
            let y = sorted[j];
            proof {
                lemma_swap_multiset(sorted@, j - 1, j as int);
            }
            sorted[j - 1] = y;
            sorted[j] = x;
            j = j - 1;
        }
        i = i + 1;
    }
    sorted
}

/// The reputation-weighted median of `(price, weight)` pairs: the smallest price
/// at which the accumulated weight, in ascending price order, reaches half of
/// the total weight (rounded up). Zero for no pairs.
pub fn weighted_median(prices_and_weights: &Vec<(i128, u32)>) -> (r: i128)
    ensures
        r == weighted_median_of(prices_and_weights@),
        prices_and_weights@.len() > 0 ==> is_weighted_median(prices_and_weights@, r),
{
    let ghost s = prices_and_weights@;
    let n = prices_and_weights.len();
    if n == 0 {
        return 0;
    }
    let sorted = sort_by_price(prices_and_weights);
    let ghost t = sorted@;
    proof {
        lemma_weight_permutation(s, t, i128::MAX as int);
        assert forall|p: int| weight_at_most(s, p) == weight_at_most(t, p) by {
            lemma_weight_permutation(s, t, p);
        }
    }
    let mut total: u128 = 0;
    let mut i: usize = 0;
    while i < n
        invariant
            n == t.len(),
            t == sorted@,
            i <= n,
            total as int == total_weight(t.take(i as int)),
            total <= i * 0xffff_ffff,
        decreases n - i,
    {
        assert(t.take(i as int + 1).drop_last() =~= t.take(i as int));
        assert(i * 0xffff_ffff <= 0xffff_ffff_ffff_ffff * 0xffff_ffff) by (nonlinear_arith)
            requires
                i <= 0xffff_ffff_ffff_ffff,
        ;
        total = total + sorted[i].1 as u128;
        i = i + 1;
    }
    assert(t.take(n as int) =~= t);
    let half = (total + 1) / 2;
    let mut cumulative: u128 = 0;
    let mut i: usize = 0;
    while i < n
        invariant
            n == t.len(),
            t == sorted@,
            s == prices_and_weights@,
            s.len() == n,
            sorted_by_price(t),
            i <= n,
            total as int == total_weight(t),
            half as int == half_weight(s),
            total_weight(s) == total_weight(t),
            forall|p: int| weight_at_most(s, p) == weight_at_most(t, p),
            s.to_multiset() == t.to_multiset(),
            cumulative as int == total_weight(t.take(i as int)),
            cumulative <= total,
            i > 0 ==> cumulative < half,
        decreases n - i,
    {
        let (p, w) = sorted[i];
        let ghost before_cum = cumulative;
        let ghost before = t.take(i as int);
        let ghost upto = t.take(i as int + 1);
        assert(upto.drop_last() =~= before);
        proof {
            lemma_weight_append(upto, t.skip(i as int + 1), i128::MAX as int);
            assert(upto + t.skip(i as int + 1) =~= t);
            lemma_weight_bounds(t.skip(i as int + 1), i128::MAX as int);
        }
        cumulative = cumulative + w as u128;
        if cumulative >= half {
            proof {
                // every pair up to index i is priced at most p
                lemma_weight_all_below(upto, p as int);
                lemma_weight_append(upto, t.skip(i as int + 1), p as int);
                lemma_weight_bounds(t.skip(i as int + 1), p as int);
                // a pair priced below p lies before index i in sorted order
                assert forall|k: int| 0 <= k < s.len() && s[k].0 < p implies weight_at_most(
                    s,
                    s[k].0 as int,
                ) < half_weight(s) by {
                    let q = s[k].0 as int;
                    assert(t.contains(s[k])) by {
                        broadcast use group_to_multiset_ensures;

                        assert(s.contains(s[k]));
                        assert(s.to_multiset().count(s[k]) > 0);
                        assert(t.to_multiset().count(s[k]) > 0);
                    }
                    let m = choose|m: int| 0 <= m < t.len() && t[m] == s[k];
                    assert(m < i);
                    let rest = t.skip(i as int);
                    assert forall|x: int| 0 <= x < rest.len() implies rest[x].0 > q by {
                        assert(rest[x] == t[i + x]);
                    }
                    lemma_weight_none_below(rest, q);
                    lemma_weight_append(before, rest, q);
                    assert(before + rest =~= t);
                    lemma_weight_bounds(before, q);
                }
                assert(s.to_multiset().count(t[i as int]) > 0) by {
                    broadcast use group_to_multiset_ensures;

                    assert(t.contains(t[i as int]));
                }
                assert(s.contains(t[i as int])) by {
                    broadcast use group_to_multiset_ensures;

                }
                let kk = choose|kk: int| 0 <= kk < s.len() && s[kk] == t[i as int];
                assert(s[kk].0 == p);
                assert(upto.last() == t[i as int]);
                assert(weight_at_most(t, p as int) >= cumulative);
                lemma_weighted_median_of(s, p);
            }
            return p;
        }
        i = i + 1;
    }
    proof {
        assert(t.take(n as int) =~= t);
        assert(false);
    }
    sorted[n - 1].0
}

// ---------------------------------------------------------------------------
// Unweighted reference median
// ---------------------------------------------------------------------------

/// The ascending order on prices.
pub open spec fn price_leq() -> spec_fn(i128, i128) -> bool {
    |a: i128, b: i128| a <= b
}

/// The values in ascending order.
pub open spec fn sorted_values(s: Seq<i128>) -> Seq<i128> {
    s.sort_by(price_leq())
}

/// `(a + b) / 2` with Rust's rounding toward zero.
pub open spec fn midpoint(a: int, b: int) -> int {
    if a + b >= 0 {
        (a + b) / 2
    } else {
        -((-(a + b)) / 2)
    }
}

/// The standard median: the middle value of the sorted values for an odd
/// count, the midpoint of the two middle values for an even count, and zero
/// for no values.
pub open spec fn median_spec(s: Seq<i128>) -> int {
    let t = sorted_values(s);
    let n = s.len() as int;
    if n == 0 {
        0
    } else if n % 2 == 1 {
        t[n / 2] as int
    } else {
        midpoint(t[n / 2 - 1] as int, t[n / 2] as int)
    }
}

proof fn lemma_price_leq_total()
    ensures
        total_ordering(price_leq()),
{
    let leq = price_leq();
    assert(vstd::relations::reflexive(leq));
    assert(vstd::relations::antisymmetric(leq));
    assert(vstd::relations::transitive(leq));
    assert(vstd::relations::strongly_connected(leq));
}

/// A copy of `values` in ascending order.
pub fn sort_values(values: &Vec<i128>) -> (r: Vec<i128>)
    ensures
        r@.len() == values@.len(),
        r@ == sorted_values(values@),
{
    let len = values.len();
    let mut sorted: Vec<i128> = Vec::new();
    let mut k: usize = 0;
    while k < len
        invariant
            len == values@.len(),
            k <= len,
            sorted@ == values@.take(k as int),
        decreases len - k,
    {
        sorted.push(values[k]);
        k = k + 1;
        assert(sorted@ =~= values@.take(k as int));
    }
    assert(sorted@ =~= values@);
    let mut i: usize = 1;
    while i < len
        invariant
            len == sorted@.len(),
            1 <= i || len == 0,
            sorted@.to_multiset() == values@.to_multiset(),
            forall|a: int, b: int| 0 <= a < b < i && b < len ==> sorted@[a] <= sorted@[b],
        decreases len - i,
    {
        let mut j: usize = i;
        while j > 0 && sorted[j - 1] > sorted[j]
            invariant
                len == sorted@.len(),
                0 <= j <= i < len,
                sorted@.to_multiset() == values@.to_multiset(),
                forall|a: int, b: int|
                    0 <= a < b <= i && a != j && b != j ==> sorted@[a] <= sorted@[b],
                forall|b: int| j < b <= i ==> sorted@[j as int] < sorted@[b],
            decreases j,
        {
            let x = sorted[j - 1];
            let y = sorted[j];
            proof {
                lemma_swap_multiset(sorted@, j - 1, j as int);
            }
            sorted[j - 1] = y;
            sorted[j] = x;
            j = j - 1;
        }
        i = i + 1;
    }
    proof {
        lemma_price_leq_total();
        values@.lemma_sort_by_ensures(price_leq());
        assert(sorted_by(sorted@, price_leq()));
        lemma_sorted_unique(sorted@, sorted_values(values@), price_leq());
    }
    sorted
}

/// `(a + b) / 2` rounded toward zero, for `a <= b`, without overflow.
fn midpoint_of(a: i128, b: i128) -> (r: i128)
    requires
        a <= b,
    ensures
        r as int == midpoint(a as int, b as int),
{
    if a >= 0 {
        a + (abs_diff(b, a) / 2) as i128
    } else if b <= 0 {
        b - (abs_diff(b, a) / 2) as i128
    } else {
        let sum = a + b;
        if sum >= 0 {
            (sum as u128 / 2) as i128
        } else {
            -(((-sum) as u128 / 2) as i128)
        }
    }
}

/// The unweighted median of `values`, used as the reference for outlier
/// detection.
pub fn simple_median(values: &Vec<i128>) -> (r: i128)
    ensures
        r as int == median_spec(values@),
{
    let len = values.len();
    if len == 0 {
        return 0;
    }
    let sorted = sort_values(values);
    proof {
        lemma_price_leq_total();
        values@.lemma_sort_by_ensures(price_leq());
        assert(sorted@.len() == len) by {
            broadcast use group_to_multiset_ensures;

        }
    }
    if len % 2 == 1 {
        sorted[len / 2]
    } else {
        assert(price_leq()(sorted@[len / 2 - 1], sorted@[(len / 2) as int]));
        midpoint_of(sorted[len / 2 - 1], sorted[len / 2])
    }
}

// ---------------------------------------------------------------------------
// Laws relating the two medians
// ---------------------------------------------------------------------------

/// The middle one of three values.
pub open spec fn middle_of_three(a: i128, b: i128, c: i128) -> i128 {
    if (a <= b && b <= c) || (c <= b && b <= a) {
        b
    } else if (b <= a && a <= c) || (c <= a && a <= b) {
        a
    } else {
        c
    }
}

proof fn lemma_weight_three(a: i128, b: i128, c: i128, w: u32, p: int)
    ensures
        weight_at_most(seq![(a, w), (b, w), (c, w)], p) == (if a <= p {
            w as int
        } else {
            0
        }) + (if b <= p {
            w as int
        } else {
            0
        }) + (if c <= p {
            w as int
        } else {
            0
        }),
{
    let s = seq![(a, w), (b, w), (c, w)];
    let s2 = seq![(a, w), (b, w)];
    let s1 = seq![(a, w)];
    assert(s.drop_last() =~= s2);
    assert(s2.drop_last() =~= s1);
    assert(s1.drop_last() =~= Seq::<(i128, u32)>::empty());
    reveal_with_fuel(weight_at_most, 4);
}

proof fn lemma_sorted_three(a: i128, b: i128, c: i128)
    ensures
        median_spec(seq![a, b, c]) == middle_of_three(a, b, c),
{
    broadcast use group_to_multiset_ensures, group_multiset_axioms;

    let s = seq![a, b, c];
    let t = sorted_values(s);
    lemma_price_leq_total();
    s.lemma_sort_by_ensures(price_leq());
    let x = if a <= b && a <= c {
        a
    } else if b <= a && b <= c {
        b
    } else {
        c
    };
    let z = if a >= b && a >= c {
        a
    } else if b >= a && b >= c {
        b
    } else {
        c
    };
    let y = middle_of_three(a, b, c);
    let u = seq![x, y, z];
    assert(u.to_multiset() =~= s.to_multiset()) by {
        assert(s =~= Seq::<i128>::empty().push(a).push(b).push(c));
        assert(u =~= Seq::<i128>::empty().push(x).push(y).push(z));
    }
    assert(sorted_by(u, price_leq()));
    lemma_sorted_unique(t, u, price_leq());
    assert(t[1] == y);
    assert(s.len() == 3);
}

/// A single submission's weighted median is its own price.
pub proof fn lemma_weighted_median_single(price: i128, weight: u32)
    ensures
        weighted_median_of(seq![(price, weight)]) == price,
{
    let s = seq![(price, weight)];
    assert(s.drop_last() =~= Seq::<(i128, u32)>::empty());
    reveal_with_fuel(weight_at_most, 2);
    assert(s[0].0 == price);
    assert(is_weighted_median(s, price));
    lemma_weighted_median_of(s, price);
}

/// With three equal positive weights the weighted median is the ordinary
/// median of the three prices.
pub proof fn lemma_weighted_median_equal_weights(a: i128, b: i128, c: i128, w: u32)
    requires
        w > 0,
    ensures
        weighted_median_of(seq![(a, w), (b, w), (c, w)]) as int == median_spec(seq![a, b, c]),
{
    let s = seq![(a, w), (b, w), (c, w)];
    let m = middle_of_three(a, b, c);
    lemma_sorted_three(a, b, c);
    lemma_weight_three(a, b, c, w, i128::MAX as int);
    lemma_weight_three(a, b, c, w, m as int);
    assert(s[0].0 == a && s[1].0 == b && s[2].0 == c);
    assert(exists|k: int| 0 <= k < s.len() && s[k].0 == m) by {
        if m == a {
            assert(s[0].0 == m);
        } else if m == b {
            assert(s[1].0 == m);
        } else {
            assert(s[2].0 == m);
        }
    }
    assert forall|k: int| 0 <= k < s.len() && s[k].0 < m implies weight_at_most(
        s,
        s[k].0 as int,
    ) < half_weight(s) by {
        lemma_weight_three(a, b, c, w, s[k].0 as int);
    }
    assert(is_weighted_median(s, m));
    lemma_weighted_median_of(s, m);
}

} // verus!
