//! The feed registry, round opening and price submission.

use crate::identity::{
    find_id, lemma_distinct_within, lemma_find_id, oracle_ids, position_of_oracle,
    position_of_submitter, submitter_ids,
};
use crate::oracle_network::{feed_ids, round_wf, FeedState, OracleNetworkContract};
use crate::oracle_registry::{add_capped, add_saturating};
use crate::oracle_types::{
    OracleNetworkError, OracleProvider, PriceFeed, PriceHistoryEntry, PriceRound,
    PriceSubmission, MAX_FEEDS,
};
use crate::reputation::{bump, increment_saturating};
use vstd::prelude::*;

verus! {

/// `new` equals `old` at every feed position but `fi`.
pub open spec fn feeds_same_except(new: Seq<FeedState>, old: Seq<FeedState>, fi: int) -> bool {
    &&& new.len() == old.len()
    &&& forall|j: int| 0 <= j < old.len() && j != fi ==> new[j] == old[j]
}

/// Accepted submissions per total submissions, in basis points, capped at
/// `u32::MAX`; zero without submissions.
pub open spec fn accuracy_bps(p: OracleProvider) -> u32 {
    if p.total_submissions == 0 {
        0
    } else if (p.accepted_submissions as int * 10_000) / (p.total_submissions as int)
        > u32::MAX {
        u32::MAX
    } else {
        ((p.accepted_submissions as int * 10_000) / (p.total_submissions as int)) as u32
    }
}

/// Whether a healthy provider's heartbeat is recent at `now`.
pub open spec fn heartbeat_fresh(p: OracleProvider, now: u64, interval: u64) -> bool {
    now <= p.last_heartbeat + interval && p.reputation > 0
}

pub(crate) fn copy_history(v: &Vec<PriceHistoryEntry>) -> (r: Vec<PriceHistoryEntry>)
    ensures
        r@ == v@,
{
    let mut r: Vec<PriceHistoryEntry> = Vec::new();
    let mut i: usize = 0;
    while i < v.len()
        invariant
            i <= v@.len(),
            r@ == v@.take(i as int),
        decreases v@.len() - i,
    {
        r.push(v[i]);
        i = i + 1;
        assert(r@ =~= v@.take(i as int));
    }
    assert(v@.take(v@.len() as int) =~= v@);
    r
}

impl OracleNetworkContract {
    /// Why creating the feed `feed_id` fails, if it does.
    pub open spec fn create_feed_error(&self, caller: u64, feed_id: u64) -> Option<
        OracleNetworkError,
    > {
        if self.admin_error(caller) is Some {
            self.admin_error(caller)
        } else if self.feeds@.len() >= MAX_FEEDS {
            Some(OracleNetworkError::MaxFeedsReached)
        } else if self.feed_index(feed_id) >= 0 {
            Some(OracleNetworkError::FeedAlreadyExists)
        } else {
            None
        }
    }

    /// Adds an active feed with no overrides and no rounds (admin only).
    pub fn create_feed(
        &mut self,
        caller: u64,
        feed_id: u64,
        base_asset: u64,
        quote_asset: u64,
        decimals: u32,
        now: u64,
    ) -> (r: Result<(), OracleNetworkError>)
        requires
            old(self).inv(),
        ensures
            final(self).inv(),
            match old(self).create_feed_error(caller, feed_id) {
                Some(e) => r == Err::<(), OracleNetworkError>(e) && *final(self) == *old(self),
                None => {
                    let n = old(self).feeds@.len() as int;
                    &&& r is Ok
                    &&& final(self).same_but_feeds(old(self))
                    &&& final(self).feeds@.len() == n + 1
                    &&& forall|j: int| 0 <= j < n ==> final(self).feeds@[j] == old(self).feeds@[j]
                    &&& final(self).feeds@[n].feed == (PriceFeed {
                        feed_id,
                        base_asset,
                        quote_asset,
                        decimals,
                        is_active: true,
                        staleness_override_secs: 0,
                        min_oracles_override: 0,
                        created_at: now,
                    })
                    &&& final(self).feeds@[n].round is None
                    &&& final(self).feeds@[n].submissions@.len() == 0
                    &&& final(self).feeds@[n].latest is None
                    &&& final(self).feeds@[n].history@.len() == 0
                },
            },
    {
        self.require_admin(caller)?;
        if self.feeds.len() >= MAX_FEEDS as usize {
            return Err(OracleNetworkError::MaxFeedsReached);
        }
        if self.position_of_feed(feed_id).is_some() {
            return Err(OracleNetworkError::FeedAlreadyExists);
        }
        let ghost old_self = *self;
        let state = FeedState {
            feed: PriceFeed {
                feed_id,
                base_asset,
                quote_asset,
                decimals,
                is_active: true,
                staleness_override_secs: 0,
                min_oracles_override: 0,
                created_at: now,
            },
            round: None,
            submissions: Vec::new(),
            latest: None,
            history: Vec::new(),
        };
        self.feeds.push(state);
        proof {
            let ids = feed_ids(old_self.feeds@);
            assert(feed_ids(self.feeds@) =~= ids.push(feed_id));
            lemma_find_id(ids, feed_id);
            assert(forall|i: int| 0 <= i < ids.len() ==> ids[i] != feed_id);
            assert forall|f: int| 0 <= f < self.feeds@.len() implies (
            #[trigger] self.feeds@[f]).wf(oracle_ids(self.oracles@)) by {
                if f < old_self.feeds@.len() {
                    assert(old_self.feeds@[f].wf(oracle_ids(old_self.oracles@)));
                }
            }
        }
        Ok(())
    }

    /// Sets a feed's activity and overrides (admin only).
    pub fn update_feed(
        &mut self,
        caller: u64,
        feed_id: u64,
        is_active: bool,
        staleness_override_secs: u64,
        min_oracles_override: u32,
    ) -> (r: Result<(), OracleNetworkError>)
        requires
            old(self).inv(),
        ensures
            final(self).inv(),
            ({
                let fi = old(self).feed_index(feed_id);
                let e = if old(self).admin_error(caller) is Some {
                    old(self).admin_error(caller)
                } else if fi < 0 {
                    Some(OracleNetworkError::FeedNotFound)
                } else {
                    None
                };
                match e {
                    Some(e) => r == Err::<(), OracleNetworkError>(e) && *final(self) == *old(self),
                    None => {
                        let f = old(self).feeds@[fi];
                        &&& r is Ok
                        &&& final(self).same_but_feeds(old(self))
                        &&& feeds_same_except(final(self).feeds@, old(self).feeds@, fi)
                        &&& final(self).feeds@[fi].feed == (PriceFeed {
                            is_active,
                            staleness_override_secs,
                            min_oracles_override,
                            ..f.feed
                        })
                        &&& final(self).feeds@[fi].round == f.round
                        &&& final(self).feeds@[fi].submissions == f.submissions
                        &&& final(self).feeds@[fi].latest == f.latest
                        &&& final(self).feeds@[fi].history == f.history
                    },
                }
            }),
    {
        self.require_admin(caller)?;
        let fi = match self.position_of_feed(feed_id) {
            Some(i) => i,
            None => return Err(OracleNetworkError::FeedNotFound),
        };
        let ghost old_self = *self;
        let feed = self.feeds[fi].feed;
        self.feeds[fi].feed = PriceFeed {
            is_active,
            staleness_override_secs,
            min_oracles_override,
            ..feed
        };
        proof {
            assert(feed_ids(self.feeds@) =~= feed_ids(old_self.feeds@));
            assert forall|f: int| 0 <= f < self.feeds@.len() implies (
            #[trigger] self.feeds@[f]).wf(oracle_ids(self.oracles@)) by {
                assert(old_self.feeds@[f].wf(oracle_ids(old_self.oracles@)));
            }
        }
        Ok(())
    }

    /// Why opening a round of `feed_id` at `now` fails, if it does.
    pub open spec fn open_round_error(&self, feed_id: u64, now: u64) -> Option<OracleNetworkError> {
        let fi = self.feed_index(feed_id);
        if self.paused {
            Some(OracleNetworkError::Paused)
        } else if fi < 0 {
            Some(OracleNetworkError::FeedNotFound)
        } else if !self.feeds@[fi].feed.is_active {
            Some(OracleNetworkError::FeedInactive)
        } else if self.config is None {
            Some(OracleNetworkError::NotInitialized)
        } else if self.feeds@[fi].round matches Some(pr) && !pr.resolved && now < pr.closes_at {
            Some(OracleNetworkError::RoundNotOpen)
        } else if self.feeds@[fi].round matches Some(pr) && pr.round_id == u64::MAX {
            Some(OracleNetworkError::InvalidInput)
        } else {
            None
        }
    }

    /// Identifier of the next round of the feed at `fi`.
    pub open spec fn next_round_id(&self, fi: int) -> u64 {
        match self.feeds@[fi].round {
            Some(pr) => (pr.round_id + 1) as u64,
            None => 1,
        }
    }

    /// Opens the next round of an active feed. The previous round must be
    /// resolved or past its closing time. Returns the new round's identifier.
    /// Any caller whose signature the host has checked may open a round.
    pub fn open_round(&mut self, _caller: u64, feed_id: u64, now: u64) -> (r: Result<
        u64,
        OracleNetworkError,
    >)
        requires
            old(self).inv(),
        ensures
            final(self).inv(),
            match old(self).open_round_error(feed_id, now) {
                Some(e) => r == Err::<u64, OracleNetworkError>(e) && *final(self) == *old(self),
                None => {
                    let fi = old(self).feed_index(feed_id);
                    let f = old(self).feeds@[fi];
                    let id = old(self).next_round_id(fi);
                    &&& r == Ok::<u64, OracleNetworkError>(id)
                    &&& final(self).same_but_feeds(old(self))
                    &&& feeds_same_except(final(self).feeds@, old(self).feeds@, fi)
                    &&& final(self).feeds@[fi].feed == f.feed
                    &&& final(self).feeds@[fi].round == Some(
                        PriceRound {
                            round_id: id,
                            feed_id,
                            opened_at: now,
                            closes_at: add_capped(now, old(self).cfg().submission_window_secs),
                            resolved: false,
                        },
                    )
                    &&& final(self).feeds@[fi].submissions@.len() == f.submissions@.len() + 1
                    &&& forall|k: int|
                        0 <= k < f.submissions@.len() ==> final(self).feeds@[fi].submissions@[k]
                            == f.submissions@[k]
                    &&& final(self).feeds@[fi].submissions@[f.submissions@.len() as int]@.len()
                        == 0
                    &&& final(self).feeds@[fi].latest == f.latest
                    &&& final(self).feeds@[fi].history == f.history
                },
            },
    {
        if self.paused {
            return Err(OracleNetworkError::Paused);
        }
        let fi = match self.position_of_feed(feed_id) {
            Some(i) => i,
            None => return Err(OracleNetworkError::FeedNotFound),
        };
        if !self.feeds[fi].feed.is_active {
            return Err(OracleNetworkError::FeedInactive);
        }
        let cfg = match self.config {
            Some(c) => c,
            None => return Err(OracleNetworkError::NotInitialized),
        };
        let round_id = match self.feeds[fi].round {
            Some(pr) => {
                if !pr.resolved && now < pr.closes_at {
                    return Err(OracleNetworkError::RoundNotOpen);
                }
                if pr.round_id == u64::MAX {
                    return Err(OracleNetworkError::InvalidInput);
                }
                pr.round_id + 1
            },
            None => 1,
        };
        let ghost old_self = *self;
        assert(self.feeds@[fi as int].wf(oracle_ids(self.oracles@)));
        let round = PriceRound {
            round_id,
            feed_id,
            opened_at: now,
            closes_at: add_saturating(now, cfg.submission_window_secs),
            resolved: false,
        };
        let state = &mut self.feeds[fi];
        state.round = Some(round);
        state.submissions.push(Vec::new());
        proof {
            assert(feed_ids(self.feeds@) =~= feed_ids(old_self.feeds@));
            lemma_find_id(feed_ids(old_self.feeds@), feed_id);
            assert(feed_ids(old_self.feeds@)[fi as int] == old_self.feeds@[fi as int].feed.feed_id);
            let roster = oracle_ids(self.oracles@);
            assert forall|f: int| 0 <= f < self.feeds@.len() implies (
            #[trigger] self.feeds@[f]).wf(roster) by {
                assert(old_self.feeds@[f].wf(roster));
                if f == fi {
                    let subs = self.feeds@[f].submissions@;
                    assert forall|k: int| 0 <= k < subs.len() implies round_wf(
                        #[trigger] subs[k]@,
                        roster,
                    ) by {
                        if k < subs.len() - 1 {
                            assert(subs[k] == old_self.feeds@[f].submissions@[k]);
                        } else {
                            assert(submitter_ids(subs[k]@) =~= Seq::<u64>::empty());
                        }
                    }
                }
            }
        }
        Ok(round_id)
    }

    /// Why a submission by `oracle_address` to `feed_id` fails, if it does.
    pub open spec fn submit_error(&self, oracle_address: u64, feed_id: u64, price: i128, now: u64) -> Option<
        OracleNetworkError,
    > {
        let fi = self.feed_index(feed_id);
        if self.paused {
            Some(OracleNetworkError::Paused)
        } else if self.oracle_index(oracle_address) < 0 {
            Some(OracleNetworkError::OracleNotRegistered)
        } else if !self.provider(oracle_address).is_active {
            Some(OracleNetworkError::OracleInactive)
        } else if price <= 0 {
            Some(OracleNetworkError::InvalidPrice)
        } else if fi < 0 || self.feeds@[fi].round is None || self.feeds@[fi].round.unwrap().resolved {
            Some(OracleNetworkError::RoundNotOpen)
        } else if now > self.feeds@[fi].round.unwrap().closes_at {
            Some(OracleNetworkError::SubmissionWindowClosed)
        } else if find_id(submitter_ids(self.feeds@[fi].current_submissions()), oracle_address)
            >= 0 {
            Some(OracleNetworkError::DuplicateSubmission)
        } else {
            None
        }
    }

    /// `new` is `old` after `oracle_address` submitted `price` with
    /// `confidence` to the open round of `feed_id` at `now`.
    pub open spec fn submitted_after(
        old: Self,
        oracle_address: u64,
        feed_id: u64,
        price: i128,
        confidence: u32,
        now: u64,
        new: Self,
    ) -> bool {
        let fi = old.feed_index(feed_id);
        let f = old.feeds@[fi];
        let last = f.submissions@.len() - 1;
        let p = old.provider(oracle_address);
        &&& new.config == old.config
        &&& new.paused == old.paused
        &&& new.oracles@ == old.with_provider(
            oracle_address,
            OracleProvider { total_submissions: bump(p.total_submissions), last_heartbeat: now, ..p },
        )
        &&& feeds_same_except(new.feeds@, old.feeds@, fi)
        &&& new.feeds@[fi].feed == f.feed
        &&& new.feeds@[fi].round == f.round
        &&& new.feeds@[fi].latest == f.latest
        &&& new.feeds@[fi].history == f.history
        &&& new.feeds@[fi].submissions@.len() == f.submissions@.len()
        &&& forall|k: int| 0 <= k < last ==> new.feeds@[fi].submissions@[k] == f.submissions@[k]
        &&& new.feeds@[fi].current_submissions() == f.current_submissions().push(
            PriceSubmission {
                oracle: oracle_address,
                price,
                timestamp: now,
                confidence: if confidence > 10_000 {
                    10_000
                } else {
                    confidence
                },
            },
        )
    }

    /// Records a provider's price for the open round of `feed_id`; the
    /// confidence is clamped to 10000 and the submission counts as a heartbeat.
    pub fn submit_price(
        &mut self,
        oracle_address: u64,
        feed_id: u64,
        price: i128,
        confidence: u32,
        now: u64,
    ) -> (r: Result<(), OracleNetworkError>)
        requires
            old(self).inv(),
        ensures
            final(self).inv(),
            match old(self).submit_error(oracle_address, feed_id, price, now) {
                Some(e) => r == Err::<(), OracleNetworkError>(e) && *final(self) == *old(self),
                None => r is Ok && Self::submitted_after(
                    *old(self),
                    oracle_address,
                    feed_id,
                    price,
                    confidence,
                    now,
                    *final(self),
                ),
            },
    {
        if self.paused {
            return Err(OracleNetworkError::Paused);
        }
        let oi = match position_of_oracle(&self.oracles, oracle_address) {
            Some(i) => i,
            None => return Err(OracleNetworkError::OracleNotRegistered),
        };
        let provider = self.oracles[oi];
        if !provider.is_active {
            return Err(OracleNetworkError::OracleInactive);
        }
        if price <= 0 {
            return Err(OracleNetworkError::InvalidPrice);
        }
        let conf = if confidence > 10_000 {
            10_000
        } else {
            confidence
        };
        let fi = match self.position_of_feed(feed_id) {
            Some(i) => i,
            None => return Err(OracleNetworkError::RoundNotOpen),
        };
        let round = match self.feeds[fi].round {
            Some(r) => r,
            None => return Err(OracleNetworkError::RoundNotOpen),
        };
        if round.resolved {
            return Err(OracleNetworkError::RoundNotOpen);
        }
        if now > round.closes_at {
            return Err(OracleNetworkError::SubmissionWindowClosed);
        }
        assert(self.feeds@[fi as int].wf(oracle_ids(self.oracles@)));
        let last = self.feeds[fi].submissions.len() - 1;
        assert(round_wf(self.feeds@[fi as int].submissions@[last as int]@, oracle_ids(self.oracles@)));
        if position_of_submitter(&self.feeds[fi].submissions[last], oracle_address).is_some() {
            return Err(OracleNetworkError::DuplicateSubmission);
        }
        let ghost old_self = *self;
        self.replace_provider(
            oi,
            OracleProvider {
                total_submissions: increment_saturating(provider.total_submissions),
                last_heartbeat: now,
                ..provider
            },
        );
        let ghost mid_self = *self;
        let submission = PriceSubmission { oracle: oracle_address, price, timestamp: now, confidence: conf };
        let ghost old_subs = self.feeds@[fi as int].submissions@[last as int]@;
        self.feeds[fi].submissions[last].push(submission);
        proof {
            let roster = oracle_ids(self.oracles@);
            assert(roster == oracle_ids(old_self.oracles@));
            assert(feed_ids(self.feeds@) =~= feed_ids(old_self.feeds@));
            let subs = self.feeds@[fi as int].submissions@[last as int]@;
            assert(subs == old_subs.push(submission));
            assert(round_wf(old_subs, roster));
            lemma_find_id(submitter_ids(old_subs), oracle_address);
            assert(submitter_ids(subs) =~= submitter_ids(old_subs).push(oracle_address));
            lemma_find_id(oracle_ids(old_self.oracles@), oracle_address);
            assert(roster[oi as int] == oracle_address);
            assert(roster.contains(oracle_address));
            assert(round_wf(subs, roster)) by {
                assert forall|i: int| 0 <= i < subs.len() implies roster.contains(
                    #[trigger] subs[i].oracle,
                ) by {
                    if i < old_subs.len() {
                        assert(subs[i] == old_subs[i]);
                    }
                }
                assert forall|i: int| 0 <= i < subs.len() implies (
                #[trigger] subs[i]).confidence <= 10_000 by {
                    if i < old_subs.len() {
                        assert(subs[i] == old_subs[i]);
                    }
                }
                let ids = submitter_ids(subs);
                assert forall|i: int| 0 <= i < ids.len() implies roster.contains(#[trigger] ids[i]) by {
                    assert(ids[i] == subs[i].oracle);
                }
                crate::identity::lemma_distinct_within(ids, roster);
            }
            assert forall|f: int| 0 <= f < self.feeds@.len() implies (
            #[trigger] self.feeds@[f]).wf(roster) by {
                assert(old_self.feeds@[f].wf(roster));
                if f == fi {
                    let all = self.feeds@[f].submissions@;
                    assert forall|k: int| 0 <= k < all.len() implies round_wf(
                        #[trigger] all[k]@,
                        roster,
                    ) by {
                        if k != last {
                            assert(all[k] == old_self.feeds@[f].submissions@[k]);
                        }
                    }
                }
            }
        }
        Ok(())
    }
}

} // verus!
