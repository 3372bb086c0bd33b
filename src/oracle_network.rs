//! The oracle network: provider registry, feed registry, rounds, submissions,
//! aggregation and resolved prices, as one explicit state.
//!
//! Each operation runs against the state it is given and either applies all of
//! its changes or, when it fails, leaves the state exactly as it was. The
//! caller's identity and the current time are explicit arguments. This module
//! holds the state, its invariant, round resolution and the laws relating
//! operations; the other operations live in the sibling `oracle_*` modules.

use crate::aggregation::{
    calculate_spread_bps, is_outlier, outlier_spec, spread_spec, weighted_confidence,
    weighted_confidence_spec,
};
use crate::identity::{
    find_id, lemma_find_id, lemma_find_id_unique, oracle_ids, position_of_oracle,
    position_of_submitter, submitter_ids,
};
use crate::median::{median_spec, simple_median, weighted_median, weighted_median_of};
use crate::oracle_types::{
    NetworkConfig, OracleNetworkError, OracleProvider, PriceFeed, PriceHistoryEntry, PriceRound,
    PriceSubmission, ResolvedPrice, MAX_FEEDS, MAX_HISTORY_LEN,
};
use crate::reputation::{
    bump, floor_sub, lemma_settled_bounded, missed, rewarded, penalize_miss, penalize_outlier, reputation_bounded, reward,
    settled,
};
use vstd::prelude::*;

verus! {

/// Everything the network holds for one feed.
pub struct FeedState {
    pub feed: PriceFeed,
    /// The current round, if one was ever opened.
    pub round: Option<PriceRound>,
    /// Entry `r - 1` holds the submissions of round `r`.
    pub submissions: Vec<Vec<PriceSubmission>>,
    /// The latest resolved price.
    pub latest: Option<ResolvedPrice>,
    /// The most recent resolutions, oldest first.
    pub history: Vec<PriceHistoryEntry>,
}

/// Identifiers of the feeds, in creation order.
pub open spec fn feed_ids(s: Seq<FeedState>) -> Seq<u64> {
    s.map_values(|f: FeedState| f.feed.feed_id)
}

/// A round's submissions: one per provider, each from a registered provider,
/// with a confidence of at most 10000.
pub open spec fn round_wf(subs: Seq<PriceSubmission>, roster: Seq<u64>) -> bool {
    &&& submitter_ids(subs).no_duplicates()
    &&& forall|i: int| 0 <= i < subs.len() ==> roster.contains(#[trigger] subs[i].oracle)
    &&& subs.len() <= roster.len()
    &&& forall|i: int| 0 <= i < subs.len() ==> (#[trigger] subs[i]).confidence <= 10_000
}

impl FeedState {
    pub open spec fn wf(&self, roster: Seq<u64>) -> bool {
        &&& (self.round is None <==> self.submissions@.len() == 0)
        &&& (self.round matches Some(r) ==> r.round_id == self.submissions@.len() && r.feed_id
            == self.feed.feed_id)
        &&& self.history@.len() <= MAX_HISTORY_LEN
        &&& forall|k: int|
            0 <= k < self.submissions@.len() ==> round_wf(#[trigger] self.submissions@[k]@, roster)
    }

    /// Submissions of the current round.
    pub open spec fn current_submissions(&self) -> Seq<PriceSubmission> {
        self.submissions@[self.submissions@.len() - 1]@
    }
}

/// Prices of the submissions, in submission order.
pub open spec fn prices_of(subs: Seq<PriceSubmission>) -> Seq<i128> {
    subs.map_values(|x: PriceSubmission| x.price)
}

/// Aggregation weight of a provider: its reputation, or 1 for an unknown one.
pub open spec fn weight_of(oracles: Seq<OracleProvider>, address: u64) -> u32 {
    let i = find_id(oracle_ids(oracles), address);
    if i >= 0 {
        oracles[i].reputation
    } else {
        1
    }
}

/// `(price, weight)` of the submissions that are not outliers.
pub open spec fn accepted_pairs(
    subs: Seq<PriceSubmission>,
    median: int,
    bps: int,
    oracles: Seq<OracleProvider>,
) -> Seq<(i128, u32)>
    decreases subs.len(),
{
    if subs.len() == 0 {
        seq![]
    } else {
        let prev = accepted_pairs(subs.drop_last(), median, bps, oracles);
        let x = subs.last();
        if outlier_spec(x.price as int, median, bps) {
            prev
        } else {
            prev.push((x.price, weight_of(oracles, x.oracle)))
        }
    }
}

/// `(confidence, weight)` of the submissions that are not outliers.
pub open spec fn accepted_confidences(
    subs: Seq<PriceSubmission>,
    median: int,
    bps: int,
    oracles: Seq<OracleProvider>,
) -> Seq<(u32, u32)>
    decreases subs.len(),
{
    if subs.len() == 0 {
        seq![]
    } else {
        let prev = accepted_confidences(subs.drop_last(), median, bps, oracles);
        let x = subs.last();
        if outlier_spec(x.price as int, median, bps) {
            prev
        } else {
            prev.push((x.confidence, weight_of(oracles, x.oracle)))
        }
    }
}

/// Number of outlier submissions.
pub open spec fn rejected_count(subs: Seq<PriceSubmission>, median: int, bps: int) -> nat
    decreases subs.len(),
{
    if subs.len() == 0 {
        0
    } else {
        rejected_count(subs.drop_last(), median, bps) + if outlier_spec(
            subs.last().price as int,
            median,
            bps,
        ) {
            1nat
        } else {
            0nat
        }
    }
}

/// Lowest price of the pairs (`i128::MAX` for none).
pub open spec fn lowest_price(s: Seq<(i128, u32)>) -> i128
    decreases s.len(),
{
    if s.len() == 0 {
        i128::MAX
    } else if s.last().0 < lowest_price(s.drop_last()) {
        s.last().0
    } else {
        lowest_price(s.drop_last())
    }
}

/// Highest price of the pairs (`i128::MIN` for none).
pub open spec fn highest_price(s: Seq<(i128, u32)>) -> i128
    decreases s.len(),
{
    if s.len() == 0 {
        i128::MIN
    } else if s.last().0 > highest_price(s.drop_last()) {
        s.last().0
    } else {
        highest_price(s.drop_last())
    }
}

/// History after appending `e`, keeping the most recent entries only.
pub open spec fn appended_history(h: Seq<PriceHistoryEntry>, e: PriceHistoryEntry) -> Seq<
    PriceHistoryEntry,
> {
    if h.len() + 1 > MAX_HISTORY_LEN {
        h.push(e).skip(h.len() + 1 - MAX_HISTORY_LEN)
    } else {
        h.push(e)
    }
}

/// The whole state of the oracle network.
///
/// The keyed stores of the network (providers, feeds, rounds, submissions,
/// prices and history) are plain `Vec`s owned by this value: they need no
/// host environment, and their keys are kept unique by `inv`.
pub struct OracleNetworkContract {
    /// Present once the network is initialised.
    pub config: Option<NetworkConfig>,
    pub paused: bool,
    /// Registered providers, in registration order.
    pub oracles: Vec<OracleProvider>,
    /// Feeds, in creation order.
    pub feeds: Vec<FeedState>,
}

/// What a round's aggregation computes before any state changes.
struct RoundTally {
    reference_median: i128,
    included: Vec<(i128, u32)>,
    confidences: Vec<(u32, u32)>,
    rejected: u32,
    lowest: i128,
    highest: i128,
}

impl OracleNetworkContract {
    /// Invariant of the network state: unique keys, well-formed rounds, a
    /// well-formed configuration, and every reputation within `[0, rep_max]`.
    pub open spec fn inv(&self) -> bool {
        &&& oracle_ids(self.oracles@).no_duplicates()
        &&& self.oracles@.len() <= u32::MAX
        &&& feed_ids(self.feeds@).no_duplicates()
        &&& self.feeds@.len() <= MAX_FEEDS
        &&& (self.config matches Some(c) ==> c.wf())
        &&& (self.config is None ==> self.oracles@.len() == 0 && self.feeds@.len() == 0)
        &&& forall|f: int|
            0 <= f < self.feeds@.len() ==> (#[trigger] self.feeds@[f]).wf(oracle_ids(self.oracles@))
        &&& self.reputations_bounded()
    }

    /// Every provider's reputation lies within `[0, rep_max]`.
    pub open spec fn reputations_bounded(&self) -> bool {
        self.config matches Some(c) ==> forall|i: int|
            0 <= i < self.oracles@.len() ==> reputation_bounded(#[trigger] self.oracles@[i], c)
    }

    /// The configuration (meaningful once initialised).
    pub open spec fn cfg(&self) -> NetworkConfig {
        self.config.unwrap()
    }

    /// Roster position of the provider with `address`, or -1.
    pub open spec fn oracle_index(&self, address: u64) -> int {
        find_id(oracle_ids(self.oracles@), address)
    }

    /// Catalog position of the feed `feed_id`, or -1.
    pub open spec fn feed_index(&self, feed_id: u64) -> int {
        find_id(feed_ids(self.feeds@), feed_id)
    }

    /// Submissions needed to resolve a round of the feed at `fi`.
    pub open spec fn min_submissions(&self, fi: int) -> int {
        let f = self.feeds@[fi].feed;
        if f.min_oracles_override > 0 {
            f.min_oracles_override as int
        } else {
            self.cfg().min_oracles as int
        }
    }

    /// Unweighted median of the current round's prices at `fi`.
    pub open spec fn round_median(&self, fi: int) -> int {
        median_spec(prices_of(self.feeds@[fi].current_submissions()))
    }

    /// Accepted `(price, weight)` pairs of the current round at `fi`.
    pub open spec fn round_pairs(&self, fi: int) -> Seq<(i128, u32)> {
        accepted_pairs(
            self.feeds@[fi].current_submissions(),
            self.round_median(fi),
            self.cfg().outlier_threshold_bps as int,
            self.oracles@,
        )
    }

    /// Accepted `(confidence, weight)` pairs of the current round at `fi`.
    pub open spec fn round_confidences(&self, fi: int) -> Seq<(u32, u32)> {
        accepted_confidences(
            self.feeds@[fi].current_submissions(),
            self.round_median(fi),
            self.cfg().outlier_threshold_bps as int,
            self.oracles@,
        )
    }

    /// Why resolving the current round of `feed_id` fails, if it does.
    pub open spec fn resolve_error(&self, feed_id: u64) -> Option<OracleNetworkError> {
        let fi = self.feed_index(feed_id);
        if self.paused {
            Some(OracleNetworkError::Paused)
        } else if self.config is None {
            Some(OracleNetworkError::NotInitialized)
        } else if fi < 0 {
            Some(OracleNetworkError::FeedNotFound)
        } else if !self.feeds@[fi].feed.is_active {
            Some(OracleNetworkError::FeedInactive)
        } else if self.feeds@[fi].round is None || self.feeds@[fi].round.unwrap().resolved {
            Some(OracleNetworkError::RoundNotOpen)
        } else if self.feeds@[fi].current_submissions().len() < self.min_submissions(fi) {
            Some(OracleNetworkError::InsufficientSubmissions)
        } else if self.round_pairs(fi).len() < self.min_submissions(fi) {
            Some(OracleNetworkError::ConsensusNotReached)
        } else {
            None
        }
    }

    /// The price that resolving the current round of `feed_id` at `now` publishes.
    pub open spec fn resolution(&self, feed_id: u64, now: u64) -> ResolvedPrice {
        let fi = self.feed_index(feed_id);
        let subs = self.feeds@[fi].current_submissions();
        let pairs = self.round_pairs(fi);
        let price = weighted_median_of(pairs);
        ResolvedPrice {
            feed_id,
            round_id: self.feeds@[fi].round.unwrap().round_id,
            price,
            timestamp: now,
            num_included: pairs.len() as u32,
            num_rejected: rejected_count(
                subs,
                self.round_median(fi),
                self.cfg().outlier_threshold_bps as int,
            ) as u32,
            spread_bps: spread_spec(
                lowest_price(pairs) as int,
                highest_price(pairs) as int,
                price as int,
            ) as u32,
            confidence: weighted_confidence_spec(self.round_confidences(fi)) as u32,
        }
    }

    /// `new` is `old` after resolving the current round of `feed_id` at `now`:
    /// providers settled, price published and recorded, round closed.
    pub open spec fn resolved_after(old: Self, feed_id: u64, now: u64, new: Self) -> bool {
        let fi = old.feed_index(feed_id);
        let f = old.feeds@[fi];
        let subs = f.current_submissions();
        let median = old.round_median(fi);
        let cfg = old.cfg();
        let res = old.resolution(feed_id, now);
        &&& new.config == old.config
        &&& new.paused == old.paused
        &&& new.oracles@ == old.oracles@.map_values(
            |p: OracleProvider| settled(p, subs, median, cfg),
        )
        &&& new.feeds@.len() == old.feeds@.len()
        &&& forall|j: int| 0 <= j < old.feeds@.len() && j != fi ==> new.feeds@[j] == old.feeds@[j]
        &&& new.feeds@[fi].feed == f.feed
        &&& new.feeds@[fi].round == Some(PriceRound { resolved: true, ..f.round.unwrap() })
        &&& new.feeds@[fi].submissions == f.submissions
        &&& new.feeds@[fi].latest == Some(res)
        &&& new.feeds@[fi].history@ == appended_history(
            f.history@,
            PriceHistoryEntry {
                round_id: res.round_id,
                price: res.price,
                timestamp: now,
                num_oracles: res.num_included,
            },
        )
    }

    pub(crate) fn position_of_feed(&self, feed_id: u64) -> (r: Option<usize>)
        requires
            feed_ids(self.feeds@).no_duplicates(),
        ensures
            r matches Some(i) ==> i as int == self.feed_index(feed_id) && i < self.feeds@.len(),
            r is None ==> self.feed_index(feed_id) == -1,
    {
        let ghost ids = feed_ids(self.feeds@);
        let mut i: usize = 0;
        while i < self.feeds.len()
            invariant
                ids == feed_ids(self.feeds@),
                ids.no_duplicates(),
                i <= self.feeds@.len(),
                forall|j: int| 0 <= j < i ==> ids[j] != feed_id,
            decreases self.feeds@.len() - i,
        {
            if self.feeds[i].feed.feed_id == feed_id {
                proof {
                    lemma_find_id_unique(ids, feed_id, i as int);
                }
                return Some(i);
            }
            i = i + 1;
        }
        proof {
            lemma_find_id(ids, feed_id);
            if find_id(ids, feed_id) >= 0 {
                assert(ids[find_id(ids, feed_id)] == feed_id);
            }
        }
        None
    }
}

pub(crate) fn copy_submissions(v: &Vec<PriceSubmission>) -> (r: Vec<PriceSubmission>)
    ensures
        r@ == v@,
{
    let mut r: Vec<PriceSubmission> = Vec::new();
    let mut i: usize = 0;
    while i < v.len()
        invariant
            i <= v@.len(),
            r@ == v@.take(i as int),
        decreases v@.len() - i,
    {
        r.push(v[i]);
        i = i + 1;
        assert(r@ =~= v@.take(i as int));
    }
    assert(v@.take(v@.len() as int) =~= v@);
    r
}

/// Aggregation weight of the provider with `address`.
fn lookup_weight(oracles: &Vec<OracleProvider>, address: u64) -> (r: u32)
    requires
        oracle_ids(oracles@).no_duplicates(),
    ensures
        r == weight_of(oracles@, address),
{
    match position_of_oracle(oracles, address) {
        Some(k) => oracles[k].reputation,
        None => 1,
    }
}

/// Reference median, outlier split and accepted weights of a round.
fn tally_round(subs: &Vec<PriceSubmission>, oracles: &Vec<OracleProvider>, bps: u32) -> (r:
    RoundTally)
    requires
        oracle_ids(oracles@).no_duplicates(),
        subs@.len() <= u32::MAX,
    ensures
        r.reference_median as int == median_spec(prices_of(subs@)),
        r.included@ == accepted_pairs(subs@, r.reference_median as int, bps as int, oracles@),
        r.confidences@ == accepted_confidences(
            subs@,
            r.reference_median as int,
            bps as int,
            oracles@,
        ),
        r.rejected as int == rejected_count(subs@, r.reference_median as int, bps as int),
        r.lowest == lowest_price(r.included@),
        r.highest == highest_price(r.included@),
{
    let n = subs.len();
    let mut all_prices: Vec<i128> = Vec::new();
    let mut i: usize = 0;
    while i < n
        invariant
            n == subs@.len(),
            i <= n,
            all_prices@ == prices_of(subs@.take(i as int)),
        decreases n - i,
    {
        all_prices.push(subs[i].price);
        i = i + 1;
        assert(all_prices@ =~= prices_of(subs@.take(i as int)));
    }
    assert(subs@.take(n as int) =~= subs@);
    let reference_median = simple_median(&all_prices);
    let ghost median = reference_median as int;
    let mut included: Vec<(i128, u32)> = Vec::new();
    let mut confidences: Vec<(u32, u32)> = Vec::new();
    let mut rejected: u32 = 0;
    let mut lowest: i128 = i128::MAX;
    let mut highest: i128 = i128::MIN;
    let mut i: usize = 0;
    while i < n
        invariant
            n == subs@.len(),
            n <= u32::MAX,
            i <= n,
            oracle_ids(oracles@).no_duplicates(),
            median == reference_median as int,
            included@ == accepted_pairs(subs@.take(i as int), median, bps as int, oracles@),
            confidences@ == accepted_confidences(
                subs@.take(i as int),
                median,
                bps as int,
                oracles@,
            ),
            rejected as int == rejected_count(subs@.take(i as int), median, bps as int),
            rejected <= i,
            lowest == lowest_price(included@),
            highest == highest_price(included@),
        decreases n - i,
    {
        let sub = subs[i];
        let ghost prefix = subs@.take(i as int);
        assert(subs@.take(i as int + 1).drop_last() =~= prefix);
        assert(subs@.take(i as int + 1).last() == sub);
        if is_outlier(sub.price, reference_median, bps) {
            rejected = rejected + 1;
        } else {
            let weight = lookup_weight(oracles, sub.oracle);
            included.push((sub.price, weight));
            confidences.push((sub.confidence, weight));
            assert(included@.drop_last() =~= accepted_pairs(prefix, median, bps as int, oracles@));
            if sub.price < lowest {
                lowest = sub.price;
            }
            if sub.price > highest {
                highest = sub.price;
            }
        }
        i = i + 1;
    }
    assert(subs@.take(n as int) =~= subs@);
    RoundTally { reference_median, included, confidences, rejected, lowest, highest }
}

/// Applies a resolved round's outcome to every provider of the roster.
fn settle_providers(
    oracles: &mut Vec<OracleProvider>,
    subs: &Vec<PriceSubmission>,
    reference_median: i128,
    cfg: &NetworkConfig,
)
    requires
        submitter_ids(subs@).no_duplicates(),
    ensures
        final(oracles)@ == old(oracles)@.map_values(
            |p: OracleProvider| settled(p, subs@, reference_median as int, *cfg),
        ),
{
    let ghost before = old(oracles)@;
    let n = oracles.len();
    let mut i: usize = 0;
    while i < n
        invariant
            n == oracles@.len(),
            n == before.len(),
            i <= n,
            submitter_ids(subs@).no_duplicates(),
            forall|j: int|
                0 <= j < i ==> oracles@[j] == settled(
                    before[j],
                    subs@,
                    reference_median as int,
                    *cfg,
                ),
            forall|j: int| i <= j < n ==> oracles@[j] == before[j],
        decreases n - i,
    {
        let p = oracles[i];
        let updated = match position_of_submitter(subs, p.address) {
            Some(k) => {
                if is_outlier(subs[k].price, reference_median, cfg.outlier_threshold_bps) {
                    penalize_outlier(p, cfg)
                } else {
                    reward(p, cfg)
                }
            },
            None => penalize_miss(p, cfg),
        };
        oracles[i] = updated;
        i = i + 1;
    }
    assert(oracles@ =~= before.map_values(
        |p: OracleProvider| settled(p, subs@, reference_median as int, *cfg),
    ));
}

/// Appends `entry`, evicting the oldest entry beyond the bound.
fn append_history(history: &mut Vec<PriceHistoryEntry>, entry: PriceHistoryEntry)
    requires
        old(history)@.len() <= MAX_HISTORY_LEN,
    ensures
        final(history)@ == appended_history(old(history)@, entry),
        final(history)@.len() <= MAX_HISTORY_LEN,
{
    let ghost before = old(history)@;
    history.push(entry);
    if history.len() > MAX_HISTORY_LEN as usize {
        history.remove(0);
        assert(history@ =~= before.push(entry).skip(1));
    }
}

impl OracleNetworkContract {
    /// Resolves the current round of `feed_id`: rejects outliers against the
    /// unweighted median, publishes the reputation-weighted median of the rest,
    /// settles every provider's reputation and closes the round. Any caller
    /// whose signature the host has checked may resolve.
    pub fn resolve_round(&mut self, _caller: u64, feed_id: u64, now: u64) -> (r: Result<
        ResolvedPrice,
        OracleNetworkError,
    >)
        requires
            old(self).inv(),
        ensures
            final(self).inv(),
            match old(self).resolve_error(feed_id) {
                Some(e) => r == Err::<ResolvedPrice, OracleNetworkError>(e) && *final(self) == *old(
                    self,
                ),
                None => r == Ok::<ResolvedPrice, OracleNetworkError>(
                    old(self).resolution(feed_id, now),
                ) && Self::resolved_after(*old(self), feed_id, now, *final(self)),
            },
    {
        if self.paused {
            return Err(OracleNetworkError::Paused);
        }
        let cfg = match self.config {
            Some(c) => c,
            None => return Err(OracleNetworkError::NotInitialized),
        };
        let fi = match self.position_of_feed(feed_id) {
            Some(i) => i,
            None => return Err(OracleNetworkError::FeedNotFound),
        };
        if !self.feeds[fi].feed.is_active {
            return Err(OracleNetworkError::FeedInactive);
        }
        let round = match self.feeds[fi].round {
            Some(r) => r,
            None => return Err(OracleNetworkError::RoundNotOpen),
        };
        if round.resolved {
            return Err(OracleNetworkError::RoundNotOpen);
        }
        let ghost old_self = *self;
        assert(self.feeds@[fi as int].wf(oracle_ids(self.oracles@)));
        let n_rounds = self.feeds[fi].submissions.len();
        let subs = copy_submissions(&self.feeds[fi].submissions[n_rounds - 1]);
        assert(round_wf(subs@, oracle_ids(self.oracles@)));
        let feed = self.feeds[fi].feed;
        let min_oracles = if feed.min_oracles_override > 0 {
            feed.min_oracles_override
        } else {
            cfg.min_oracles
        };
        if subs.len() < min_oracles as usize {
            return Err(OracleNetworkError::InsufficientSubmissions);
        }
        let tally = tally_round(&subs, &self.oracles, cfg.outlier_threshold_bps);
        if tally.included.len() < min_oracles as usize {
            return Err(OracleNetworkError::ConsensusNotReached);
        }
        let final_price = weighted_median(&tally.included);
        let spread = calculate_spread_bps(tally.lowest, tally.highest, final_price);
        let confidence = weighted_confidence(tally.confidences.as_slice());
        let included_count = tally.included.len() as u32;
        settle_providers(&mut self.oracles, &subs, tally.reference_median, &cfg);
        let resolved = ResolvedPrice {
            feed_id,
            round_id: round.round_id,
            price: final_price,
            timestamp: now,
            num_included: included_count,
            num_rejected: tally.rejected,
            spread_bps: spread,
            confidence,
        };
        let entry = PriceHistoryEntry {
            round_id: round.round_id,
            price: final_price,
            timestamp: now,
            num_oracles: included_count,
        };
        let state = &mut self.feeds[fi];
        state.latest = Some(resolved);
        append_history(&mut state.history, entry);
        state.round = Some(PriceRound { resolved: true, ..round });
        proof {
            assert(oracle_ids(self.oracles@) =~= oracle_ids(old_self.oracles@));
            assert(feed_ids(self.feeds@) =~= feed_ids(old_self.feeds@));
            assert forall|i: int| 0 <= i < self.oracles@.len() implies reputation_bounded(
                #[trigger] self.oracles@[i],
                cfg,
            ) by {
                lemma_settled_bounded(
                    old_self.oracles@[i],
                    subs@,
                    tally.reference_median as int,
                    cfg,
                );
            }
            assert forall|f: int| 0 <= f < self.feeds@.len() implies (
            #[trigger] self.feeds@[f]).wf(oracle_ids(self.oracles@)) by {
                assert(old_self.feeds@[f].wf(oracle_ids(old_self.oracles@)));
            }
        }
        Ok(resolved)
    }
}

/// After a resolution, a registered provider that did not submit in the round
/// has one more missed round and its reputation lowered by `rep_miss_penalty`,
/// not below zero; at zero it becomes inactive.
pub proof fn lemma_missed_round_penalty(
    before: OracleNetworkContract,
    feed_id: u64,
    now: u64,
    after: OracleNetworkContract,
    address: u64,
)
    requires
        before.inv(),
        before.resolve_error(feed_id) is None,
        OracleNetworkContract::resolved_after(before, feed_id, now, after),
        before.oracle_index(address) >= 0,
        find_id(
            submitter_ids(before.feeds@[before.feed_index(feed_id)].current_submissions()),
            address,
        ) < 0,
    ensures
        after.oracle_index(address) == before.oracle_index(address),
        after.provider(address) == missed(before.provider(address), before.cfg()),
        after.provider(address).missed_rounds == bump(before.provider(address).missed_rounds),
        after.provider(address).reputation == floor_sub(
            before.provider(address).reputation,
            before.cfg().rep_miss_penalty,
        ),
        after.provider(address).reputation == 0 ==> !after.provider(address).is_active,
{
    assert(oracle_ids(after.oracles@) =~= oracle_ids(before.oracles@));
    lemma_find_id(oracle_ids(before.oracles@), address);
}

/// After a resolution, a provider whose price was accepted has one more
/// accepted submission and its reputation raised by `rep_reward`, capped at
/// `rep_max`.
pub proof fn lemma_accepted_submission_rewarded(
    before: OracleNetworkContract,
    feed_id: u64,
    now: u64,
    after: OracleNetworkContract,
    address: u64,
)
    requires
        before.inv(),
        before.resolve_error(feed_id) is None,
        OracleNetworkContract::resolved_after(before, feed_id, now, after),
        before.oracle_index(address) >= 0,
        ({
            let subs = before.feeds@[before.feed_index(feed_id)].current_submissions();
            let k = find_id(submitter_ids(subs), address);
            k >= 0 && !outlier_spec(
                subs[k].price as int,
                before.round_median(before.feed_index(feed_id)),
                before.cfg().outlier_threshold_bps as int,
            )
        }),
    ensures
        after.oracle_index(address) == before.oracle_index(address),
        after.provider(address) == rewarded(before.provider(address), before.cfg()),
        after.provider(address).accepted_submissions == bump(
            before.provider(address).accepted_submissions,
        ),
        after.provider(address).reputation as int == if before.provider(address).reputation
            + before.cfg().rep_reward >= before.cfg().rep_max {
            before.cfg().rep_max as int
        } else {
            before.provider(address).reputation + before.cfg().rep_reward
        },
        after.provider(address).reputation <= after.cfg().rep_max,
{
    assert(oracle_ids(after.oracles@) =~= oracle_ids(before.oracles@));
    lemma_find_id(oracle_ids(before.oracles@), address);
}

/// A resolved round stays closed: resolving it again fails with
/// `RoundNotOpen` (and, like every failing call, changes nothing).
pub proof fn lemma_resolve_twice(
    before: OracleNetworkContract,
    feed_id: u64,
    now: u64,
    after: OracleNetworkContract,
)
    requires
        before.inv(),
        before.resolve_error(feed_id) is None,
        OracleNetworkContract::resolved_after(before, feed_id, now, after),
    ensures
        after.resolve_error(feed_id) == Some(OracleNetworkError::RoundNotOpen),
{
    let fi = before.feed_index(feed_id);
    lemma_find_id(feed_ids(before.feeds@), feed_id);
    assert(feed_ids(after.feeds@) =~= feed_ids(before.feeds@));
}

/// Once a provider has submitted in a round, a second submission by it to the
/// same round fails with `DuplicateSubmission`, whatever its price, while the
/// round's window is still open.
pub proof fn lemma_duplicate_submission_rejected(
    before: OracleNetworkContract,
    oracle_address: u64,
    feed_id: u64,
    price: i128,
    confidence: u32,
    now: u64,
    after: OracleNetworkContract,
    second_price: i128,
    second_now: u64,
)
    requires
        before.inv(),
        before.submit_error(oracle_address, feed_id, price, now) is None,
        OracleNetworkContract::submitted_after(
            before,
            oracle_address,
            feed_id,
            price,
            confidence,
            now,
            after,
        ),
        second_price > 0,
        second_now <= before.feeds@[before.feed_index(feed_id)].round.unwrap().closes_at,
    ensures
        after.submit_error(oracle_address, feed_id, second_price, second_now) == Some(
            OracleNetworkError::DuplicateSubmission,
        ),
{
    let fi = before.feed_index(feed_id);
    let oi = before.oracle_index(oracle_address);
    lemma_find_id(feed_ids(before.feeds@), feed_id);
    lemma_find_id(oracle_ids(before.oracles@), oracle_address);
    assert(feed_ids(after.feeds@) =~= feed_ids(before.feeds@));
    assert(oracle_ids(after.oracles@) =~= oracle_ids(before.oracles@));
    assert(after.oracle_index(oracle_address) == oi);
    let subs = after.feeds@[fi].current_submissions();
    let ids = submitter_ids(subs);
    assert(ids[subs.len() - 1] == oracle_address);
    lemma_find_id(ids, oracle_address);
}

/// A submission after the round's closing time fails with
/// `SubmissionWindowClosed` once the provider, the price and the round
/// themselves are acceptable.
pub proof fn lemma_late_submission_rejected(
    state: OracleNetworkContract,
    oracle_address: u64,
    feed_id: u64,
    price: i128,
    now: u64,
)
    requires
        !state.paused,
        state.oracle_index(oracle_address) >= 0,
        state.provider(oracle_address).is_active,
        price > 0,
        state.feed_index(feed_id) >= 0,
        state.feeds@[state.feed_index(feed_id)].round matches Some(r) && !r.resolved
            && now > r.closes_at,
    ensures
        state.submit_error(oracle_address, feed_id, price, now) == Some(
            OracleNetworkError::SubmissionWindowClosed,
        ),
{
}

} // verus!
