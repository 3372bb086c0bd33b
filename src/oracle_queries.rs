//! Read-only views of the network and the liveness sweep.

use crate::identity::{oracle_ids, position_of_oracle};
use crate::oracle_network::{copy_submissions, feed_ids, OracleNetworkContract};
use crate::oracle_registry::{
    active_feed_count, active_oracle_count, expired_count, later_than, resolved_rounds_total,
    swept,
};
use crate::oracle_rounds::{accuracy_bps, copy_history, heartbeat_fresh};
use crate::oracle_types::{
    NetworkConfig, NetworkStats, OracleNetworkError, OracleProvider, OracleStats, PriceFeed,
    PriceHistoryEntry, PriceRound, PriceSubmission, ResolvedPrice, MAX_FEEDS,
};
use vstd::prelude::*;

verus! {

impl OracleNetworkContract {
    /// Staleness bound of the feed at `fi`: its override, or the network default.
    pub open spec fn staleness_of(&self, fi: int) -> u64 {
        let f = self.feeds@[fi].feed;
        if f.staleness_override_secs > 0 {
            f.staleness_override_secs
        } else {
            self.cfg().staleness_secs
        }
    }

    /// Why reading the price of `feed_id` at `now` fails, if it does.
    pub open spec fn price_error(&self, feed_id: u64, now: u64) -> Option<OracleNetworkError> {
        let fi = self.feed_index(feed_id);
        if fi < 0 || self.feeds@[fi].latest is None {
            Some(OracleNetworkError::NoResolvedPrice)
        } else if self.config is None {
            Some(OracleNetworkError::NotInitialized)
        } else if now > self.feeds@[fi].latest.unwrap().timestamp && now
            - self.feeds@[fi].latest.unwrap().timestamp > self.staleness_of(fi) {
            Some(OracleNetworkError::StalePrice)
        } else {
            None
        }
    }

    /// The latest resolved price of `feed_id`, refused once it is older than
    /// the feed's staleness bound at `now`.
    pub fn get_price(&self, feed_id: u64, now: u64) -> (r: Result<ResolvedPrice, OracleNetworkError>)
        requires
            self.inv(),
        ensures
            match self.price_error(feed_id, now) {
                Some(e) => r == Err::<ResolvedPrice, OracleNetworkError>(e),
                None => r == Ok::<ResolvedPrice, OracleNetworkError>(
                    self.feeds@[self.feed_index(feed_id)].latest.unwrap(),
                ),
            },
    {
        let fi = match self.position_of_feed(feed_id) {
            Some(i) => i,
            None => return Err(OracleNetworkError::NoResolvedPrice),
        };
        let resolved = match self.feeds[fi].latest {
            Some(p) => p,
            None => return Err(OracleNetworkError::NoResolvedPrice),
        };
        let cfg = match self.config {
            Some(c) => c,
            None => return Err(OracleNetworkError::NotInitialized),
        };
        let feed = self.feeds[fi].feed;
        let staleness = if feed.staleness_override_secs > 0 {
            feed.staleness_override_secs
        } else {
            cfg.staleness_secs
        };
        if now > resolved.timestamp && now - resolved.timestamp > staleness {
            return Err(OracleNetworkError::StalePrice);
        }
        Ok(resolved)
    }

    /// The value of the latest fresh price of `feed_id`.
    pub fn get_price_value(&self, feed_id: u64, now: u64) -> (r: Result<i128, OracleNetworkError>)
        requires
            self.inv(),
        ensures
            match self.price_error(feed_id, now) {
                Some(e) => r == Err::<i128, OracleNetworkError>(e),
                None => r == Ok::<i128, OracleNetworkError>(
                    self.feeds@[self.feed_index(feed_id)].latest.unwrap().price,
                ),
            },
    {
        let resolved = self.get_price(feed_id, now)?;
        Ok(resolved.price)
    }

    /// The latest resolved price of `feed_id`, however old.
    pub fn get_latest_price_unchecked(&self, feed_id: u64) -> (r: Result<
        ResolvedPrice,
        OracleNetworkError,
    >)
        requires
            self.inv(),
        ensures
            ({
                let fi = self.feed_index(feed_id);
                if fi < 0 || self.feeds@[fi].latest is None {
                    r == Err::<ResolvedPrice, OracleNetworkError>(
                        OracleNetworkError::NoResolvedPrice,
                    )
                } else {
                    r == Ok::<ResolvedPrice, OracleNetworkError>(self.feeds@[fi].latest.unwrap())
                }
            }),
    {
        let fi = match self.position_of_feed(feed_id) {
            Some(i) => i,
            None => return Err(OracleNetworkError::NoResolvedPrice),
        };
        match self.feeds[fi].latest {
            Some(p) => Ok(p),
            None => Err(OracleNetworkError::NoResolvedPrice),
        }
    }

    /// The recorded resolutions of `feed_id`, oldest first; there are none
    /// before its first resolution.
    pub fn get_price_history(&self, feed_id: u64) -> (r: Result<
        Vec<PriceHistoryEntry>,
        OracleNetworkError,
    >)
        requires
            self.inv(),
        ensures
            ({
                let fi = self.feed_index(feed_id);
                if fi < 0 || self.feeds@[fi].latest is None {
                    r matches Err(e) && e == OracleNetworkError::FeedNotFound
                } else {
                    r matches Ok(v) && v@ == self.feeds@[fi].history@
                }
            }),
    {
        let fi = match self.position_of_feed(feed_id) {
            Some(i) => i,
            None => return Err(OracleNetworkError::FeedNotFound),
        };
        if self.feeds[fi].latest.is_none() {
            return Err(OracleNetworkError::FeedNotFound);
        }
        Ok(copy_history(&self.feeds[fi].history))
    }

    /// The current round of `feed_id`.
    pub fn get_current_round(&self, feed_id: u64) -> (r: Result<PriceRound, OracleNetworkError>)
        requires
            self.inv(),
        ensures
            ({
                let fi = self.feed_index(feed_id);
                if fi < 0 || self.feeds@[fi].round is None {
                    r == Err::<PriceRound, OracleNetworkError>(OracleNetworkError::RoundNotOpen)
                } else {
                    r == Ok::<PriceRound, OracleNetworkError>(self.feeds@[fi].round.unwrap())
                }
            }),
    {
        let fi = match self.position_of_feed(feed_id) {
            Some(i) => i,
            None => return Err(OracleNetworkError::RoundNotOpen),
        };
        match self.feeds[fi].round {
            Some(r) => Ok(r),
            None => Err(OracleNetworkError::RoundNotOpen),
        }
    }

    /// The submissions of round `round_id` of `feed_id`.
    pub fn get_round_submissions(&self, feed_id: u64, round_id: u64) -> (r: Result<
        Vec<PriceSubmission>,
        OracleNetworkError,
    >)
        requires
            self.inv(),
        ensures
            ({
                let fi = self.feed_index(feed_id);
                if fi < 0 || round_id == 0 || round_id > self.feeds@[fi].submissions@.len() {
                    r matches Err(e) && e == OracleNetworkError::RoundNotOpen
                } else {
                    r matches Ok(v) && v@ == self.feeds@[fi].submissions@[round_id - 1]@
                }
            }),
    {
        let fi = match self.position_of_feed(feed_id) {
            Some(i) => i,
            None => return Err(OracleNetworkError::RoundNotOpen),
        };
        if round_id == 0 || round_id > self.feeds[fi].submissions.len() as u64 {
            return Err(OracleNetworkError::RoundNotOpen);
        }
        Ok(copy_submissions(&self.feeds[fi].submissions[(round_id - 1) as usize]))
    }

    /// The record of a registered provider.
    pub fn get_oracle(&self, oracle_address: u64) -> (r: Result<OracleProvider, OracleNetworkError>)
        requires
            self.inv(),
        ensures
            match self.registered_error(oracle_address) {
                Some(e) => r == Err::<OracleProvider, OracleNetworkError>(e),
                None => r == Ok::<OracleProvider, OracleNetworkError>(
                    self.provider(oracle_address),
                ),
            },
    {
        match position_of_oracle(&self.oracles, oracle_address) {
            Some(i) => Ok(self.oracles[i]),
            None => Err(OracleNetworkError::OracleNotRegistered),
        }
    }

    /// Performance view of a registered provider.
    pub fn get_oracle_stats(&self, oracle_address: u64) -> (r: Result<
        OracleStats,
        OracleNetworkError,
    >)
        requires
            self.inv(),
        ensures
            match self.registered_error(oracle_address) {
                Some(e) => r == Err::<OracleStats, OracleNetworkError>(e),
                None => {
                    let p = self.provider(oracle_address);
                    r == Ok::<OracleStats, OracleNetworkError>(
                        OracleStats {
                            address: p.address,
                            reputation: p.reputation,
                            total_submissions: p.total_submissions,
                            accepted_submissions: p.accepted_submissions,
                            rejected_submissions: p.rejected_submissions,
                            missed_rounds: p.missed_rounds,
                            accuracy_bps: accuracy_bps(p),
                            is_active: p.is_active,
                        },
                    )
                },
            },
    {
        let p = self.get_oracle(oracle_address)?;
        let accuracy = if p.total_submissions > 0 {
            let ratio = (p.accepted_submissions as u128 * 10_000) / p.total_submissions as u128;
            if ratio > u32::MAX as u128 {
                u32::MAX
            } else {
                ratio as u32
            }
        } else {
            0
        };
        Ok(
            OracleStats {
                address: p.address,
                reputation: p.reputation,
                total_submissions: p.total_submissions,
                accepted_submissions: p.accepted_submissions,
                rejected_submissions: p.rejected_submissions,
                missed_rounds: p.missed_rounds,
                accuracy_bps: accuracy,
                is_active: p.is_active,
            },
        )
    }

    /// Addresses of all registered providers, in registration order.
    pub fn list_oracles(&self) -> (r: Vec<u64>)
        ensures
            r@ == oracle_ids(self.oracles@),
    {
        let mut r: Vec<u64> = Vec::new();
        let mut i: usize = 0;
        while i < self.oracles.len()
            invariant
                i <= self.oracles@.len(),
                r@ == oracle_ids(self.oracles@).take(i as int),
            decreases self.oracles@.len() - i,
        {
            r.push(self.oracles[i].address);
            i = i + 1;
            assert(r@ =~= oracle_ids(self.oracles@).take(i as int));
        }
        assert(oracle_ids(self.oracles@).take(i as int) =~= oracle_ids(self.oracles@));
        r
    }

    /// The definition of a feed.
    pub fn get_feed(&self, feed_id: u64) -> (r: Result<PriceFeed, OracleNetworkError>)
        requires
            self.inv(),
        ensures
            ({
                let fi = self.feed_index(feed_id);
                if fi < 0 {
                    r == Err::<PriceFeed, OracleNetworkError>(OracleNetworkError::FeedNotFound)
                } else {
                    r == Ok::<PriceFeed, OracleNetworkError>(self.feeds@[fi].feed)
                }
            }),
    {
        match self.position_of_feed(feed_id) {
            Some(i) => Ok(self.feeds[i].feed),
            None => Err(OracleNetworkError::FeedNotFound),
        }
    }

    /// Identifiers of all feeds, in creation order.
    pub fn list_feeds(&self) -> (r: Vec<u64>)
        ensures
            r@ == feed_ids(self.feeds@),
    {
        let mut r: Vec<u64> = Vec::new();
        let mut i: usize = 0;
        while i < self.feeds.len()
            invariant
                i <= self.feeds@.len(),
                r@ == feed_ids(self.feeds@).take(i as int),
            decreases self.feeds@.len() - i,
        {
            r.push(self.feeds[i].feed.feed_id);
            i = i + 1;
            assert(r@ =~= feed_ids(self.feeds@).take(i as int));
        }
        assert(feed_ids(self.feeds@).take(i as int) =~= feed_ids(self.feeds@));
        r
    }

    /// Counts of providers, feeds and resolved rounds.
    pub fn get_network_stats(&self) -> (r: Result<NetworkStats, OracleNetworkError>)
        requires
            self.inv(),
        ensures
            r == Ok::<NetworkStats, OracleNetworkError>(
                NetworkStats {
                    total_oracles: self.oracles@.len() as u32,
                    active_oracles: active_oracle_count(self.oracles@) as u32,
                    total_feeds: self.feeds@.len() as u32,
                    active_feeds: active_feed_count(self.feeds@) as u32,
                    total_rounds_resolved: if resolved_rounds_total(self.feeds@) > u64::MAX {
                        u64::MAX
                    } else {
                        resolved_rounds_total(self.feeds@) as u64
                    },
                },
            ),
    {
        let n = self.oracles.len();
        let mut active_oracles: u32 = 0;
        let mut i: usize = 0;
        while i < n
            invariant
                n == self.oracles@.len(),
                n <= u32::MAX,
                i <= n,
                active_oracles as int == active_oracle_count(self.oracles@.take(i as int)),
                active_oracles <= i,
            decreases n - i,
        {
            assert(self.oracles@.take(i as int + 1).drop_last() =~= self.oracles@.take(i as int));
            if self.oracles[i].is_active {
                active_oracles = active_oracles + 1;
            }
            i = i + 1;
        }
        assert(self.oracles@.take(n as int) =~= self.oracles@);
        let m = self.feeds.len();
        let mut active_feeds: u32 = 0;
        let mut total_rounds: u128 = 0;
        let mut i: usize = 0;
        while i < m
            invariant
                m == self.feeds@.len(),
                m <= MAX_FEEDS,
                i <= m,
                active_feeds as int == active_feed_count(self.feeds@.take(i as int)),
                active_feeds <= i,
                total_rounds as int == resolved_rounds_total(self.feeds@.take(i as int)),
                total_rounds <= i * 0xffff_ffff_ffff_ffffu128,
            decreases m - i,
        {
            assert(self.feeds@.take(i as int + 1).drop_last() =~= self.feeds@.take(i as int));
            if self.feeds[i].feed.is_active {
                active_feeds = active_feeds + 1;
            }
            let rounds: u64 = match self.feeds[i].round {
                Some(r) => if r.resolved {
                    r.round_id
                } else if r.round_id > 1 {
                    r.round_id - 1
                } else {
                    0
                },
                None => 0,
            };
            total_rounds = total_rounds + rounds as u128;
            i = i + 1;
        }
        assert(self.feeds@.take(m as int) =~= self.feeds@);
        let total_rounds_resolved = if total_rounds > u64::MAX as u128 {
            u64::MAX
        } else {
            total_rounds as u64
        };
        Ok(
            NetworkStats {
                total_oracles: n as u32,
                active_oracles,
                total_feeds: m as u32,
                active_feeds,
                total_rounds_resolved,
            },
        )
    }

    /// The network parameters.
    pub fn get_config(&self) -> (r: Result<NetworkConfig, OracleNetworkError>)
        ensures
            match self.config {
                Some(c) => r == Ok::<NetworkConfig, OracleNetworkError>(c),
                None => r == Err::<NetworkConfig, OracleNetworkError>(
                    OracleNetworkError::NotInitialized,
                ),
            },
    {
        match self.config {
            Some(c) => Ok(c),
            None => Err(OracleNetworkError::NotInitialized),
        }
    }

    /// Whether a provider is active, has a recent heartbeat at `now` and a
    /// positive reputation.
    pub fn is_oracle_healthy(&self, oracle_address: u64, now: u64) -> (r: Result<
        bool,
        OracleNetworkError,
    >)
        requires
            self.inv(),
        ensures
            ({
                let e = if self.registered_error(oracle_address) is Some {
                    self.registered_error(oracle_address)
                } else if !self.provider(oracle_address).is_active {
                    None
                } else if self.config is None {
                    Some(OracleNetworkError::NotInitialized)
                } else {
                    None
                };
                match e {
                    Some(e) => r == Err::<bool, OracleNetworkError>(e),
                    None => r == Ok::<bool, OracleNetworkError>(
                        self.provider(oracle_address).is_active && heartbeat_fresh(
                            self.provider(oracle_address),
                            now,
                            self.cfg().heartbeat_interval,
                        ),
                    ),
                }
            }),
    {
        let p = self.get_oracle(oracle_address)?;
        if !p.is_active {
            return Ok(false);
        }
        let cfg = match self.config {
            Some(c) => c,
            None => return Err(OracleNetworkError::NotInitialized),
        };
        Ok(!later_than(now, p.last_heartbeat, cfg.heartbeat_interval) && p.reputation > 0)
    }

    /// Deactivates every active provider whose last heartbeat is older than
    /// the heartbeat interval at `now`, with the missed-round penalty (admin
    /// only). Returns how many were deactivated.
    pub fn enforce_heartbeats(&mut self, caller: u64, now: u64) -> (r: Result<
        u32,
        OracleNetworkError,
    >)
        requires
            old(self).inv(),
        ensures
            final(self).inv(),
            match old(self).admin_error(caller) {
                Some(e) => r == Err::<u32, OracleNetworkError>(e) && *final(self) == *old(self),
                None => {
                    let cfg = old(self).cfg();
                    &&& r == Ok::<u32, OracleNetworkError>(
                        expired_count(old(self).oracles@, now, cfg.heartbeat_interval) as u32,
                    )
                    &&& final(self).oracles@ == old(self).oracles@.map_values(
                        |p: OracleProvider| swept(p, now, cfg),
                    )
                    &&& final(self).same_but_oracles(old(self))
                },
            },
    {
        let cfg = self.require_admin(caller)?;
        let ghost old_self = *self;
        let ghost before = self.oracles@;
        let n = self.oracles.len();
        let mut deactivated: u32 = 0;
        let mut i: usize = 0;
        while i < n
            invariant
                n == self.oracles@.len(),
                n == before.len(),
                n <= u32::MAX,
                i <= n,
                self.config == Some(cfg),
                self.feeds == old_self.feeds,
                self.paused == old_self.paused,
                self.config == old_self.config,
                before == old_self.oracles@,
                deactivated as int == expired_count(before.take(i as int), now, cfg.heartbeat_interval),
                deactivated <= i,
                forall|j: int| 0 <= j < i ==> self.oracles@[j] == swept(before[j], now, cfg),
                forall|j: int| i <= j < n ==> self.oracles@[j] == before[j],
            decreases n - i,
        {
            assert(before.take(i as int + 1).drop_last() =~= before.take(i as int));
            let p = self.oracles[i];
            if p.is_active && later_than(now, p.last_heartbeat, cfg.heartbeat_interval) {
                self.oracles.set(
                    i,
                    OracleProvider {
                        is_active: false,
                        reputation: p.reputation.saturating_sub(cfg.rep_miss_penalty),
                        ..p
                    },
                );
                deactivated = deactivated + 1;
            }
            i = i + 1;
        }
        proof {
            assert(before.take(n as int) =~= before);
            assert(self.oracles@ =~= before.map_values(|p: OracleProvider| swept(p, now, cfg)));
            assert(oracle_ids(self.oracles@) =~= oracle_ids(before));
        }
        Ok(deactivated)
    }
}

} // verus!
