//! Network configuration and the provider registry: registration, activity,
//! stake, heartbeats and slashing.

use crate::identity::{lemma_find_id, oracle_ids, position_of_oracle};
use crate::oracle_network::{round_wf, FeedState, OracleNetworkContract};
use crate::oracle_types::{
    NetworkConfig, OracleNetworkError, OracleProvider, DEFAULT_HEARTBEAT_INTERVAL,
    DEFAULT_MAX_ORACLES, DEFAULT_MIN_ORACLES, DEFAULT_MIN_STAKE, DEFAULT_OUTLIER_THRESHOLD_BPS,
    DEFAULT_REP_INITIAL, DEFAULT_REP_MAX, DEFAULT_REP_MISS_PENALTY, DEFAULT_REP_PENALTY,
    DEFAULT_REP_REWARD, DEFAULT_STALENESS_SECS, DEFAULT_SUBMISSION_WINDOW_SECS,
};
use crate::oracle_network::feed_ids;
use crate::reputation::floor_sub;
use vstd::prelude::*;

verus! {

/// `a + b`, held at `u64::MAX`.
pub open spec fn add_capped(a: u64, b: u64) -> u64 {
    if a + b > u64::MAX {
        u64::MAX
    } else {
        (a + b) as u64
    }
}

/// `a + b`, held within the range of `i128`.
pub open spec fn i128_add_saturating(a: i128, b: i128) -> i128 {
    if a + b > i128::MAX {
        i128::MAX
    } else if a + b < i128::MIN {
        i128::MIN
    } else {
        (a + b) as i128
    }
}

/// `a - b`, held within the range of `i128`.
pub open spec fn i128_sub_saturating(a: i128, b: i128) -> i128 {
    if a - b > i128::MAX {
        i128::MAX
    } else if a - b < i128::MIN {
        i128::MIN
    } else {
        (a - b) as i128
    }
}

/// The configuration a fresh network starts with.
pub open spec fn default_config(admin: u64) -> NetworkConfig {
    NetworkConfig {
        admin,
        min_oracles: DEFAULT_MIN_ORACLES,
        max_oracles: DEFAULT_MAX_ORACLES,
        submission_window_secs: DEFAULT_SUBMISSION_WINDOW_SECS,
        staleness_secs: DEFAULT_STALENESS_SECS,
        outlier_threshold_bps: DEFAULT_OUTLIER_THRESHOLD_BPS,
        min_stake: DEFAULT_MIN_STAKE,
        heartbeat_interval: DEFAULT_HEARTBEAT_INTERVAL,
        rep_initial: DEFAULT_REP_INITIAL,
        rep_max: DEFAULT_REP_MAX,
        rep_reward: DEFAULT_REP_REWARD,
        rep_penalty: DEFAULT_REP_PENALTY,
        rep_miss_penalty: DEFAULT_REP_MISS_PENALTY,
    }
}

/// A provider whose heartbeat is older than the interval at `now`.
pub open spec fn heartbeat_expired(p: OracleProvider, now: u64, interval: u64) -> bool {
    p.is_active && now > p.last_heartbeat + interval
}

/// A provider after the liveness sweep at `now`.
pub open spec fn swept(p: OracleProvider, now: u64, cfg: NetworkConfig) -> OracleProvider {
    if heartbeat_expired(p, now, cfg.heartbeat_interval) {
        OracleProvider {
            is_active: false,
            reputation: floor_sub(p.reputation, cfg.rep_miss_penalty),
            ..p
        }
    } else {
        p
    }
}

/// A provider whose reputation is lowered to `bound` if it exceeds it.
pub open spec fn capped(p: OracleProvider, bound: u32) -> OracleProvider {
    if p.reputation > bound {
        OracleProvider { reputation: bound, ..p }
    } else {
        p
    }
}

/// Number of providers the liveness sweep at `now` deactivates.
pub open spec fn expired_count(s: Seq<OracleProvider>, now: u64, interval: u64) -> nat
    decreases s.len(),
{
    if s.len() == 0 {
        0
    } else {
        expired_count(s.drop_last(), now, interval) + if heartbeat_expired(
            s.last(),
            now,
            interval,
        ) {
            1nat
        } else {
            0nat
        }
    }
}

/// Number of active providers.
pub open spec fn active_oracle_count(s: Seq<OracleProvider>) -> nat
    decreases s.len(),
{
    if s.len() == 0 {
        0
    } else {
        active_oracle_count(s.drop_last()) + if s.last().is_active {
            1nat
        } else {
            0nat
        }
    }
}

/// Number of active feeds.
pub open spec fn active_feed_count(s: Seq<FeedState>) -> nat
    decreases s.len(),
{
    if s.len() == 0 {
        0
    } else {
        active_feed_count(s.drop_last()) + if s.last().feed.is_active {
            1nat
        } else {
            0nat
        }
    }
}

/// Rounds of a feed that were resolved, as told by its current round: all of
/// them when the current one is resolved, all before it otherwise.
pub open spec fn resolved_rounds(f: FeedState) -> nat {
    match f.round {
        Some(r) => if r.resolved {
            r.round_id as nat
        } else if r.round_id > 1 {
            (r.round_id - 1) as nat
        } else {
            0
        },
        None => 0,
    }
}

/// Resolved rounds over all feeds.
pub open spec fn resolved_rounds_total(s: Seq<FeedState>) -> nat
    decreases s.len(),
{
    if s.len() == 0 {
        0
    } else {
        resolved_rounds_total(s.drop_last()) + resolved_rounds(s.last())
    }
}

pub(crate) fn add_saturating(a: u64, b: u64) -> (r: u64)
    ensures
        r == add_capped(a, b),
{
    match a.checked_add(b) {
        Some(v) => v,
        None => u64::MAX,
    }
}

pub(crate) fn stake_add(a: i128, b: i128) -> (r: i128)
    ensures
        r == i128_add_saturating(a, b),
{
    match a.checked_add(b) {
        Some(v) => v,
        None => if b > 0 {
            i128::MAX
        } else {
            i128::MIN
        },
    }
}

pub(crate) fn stake_sub(a: i128, b: i128) -> (r: i128)
    ensures
        r == i128_sub_saturating(a, b),
{
    match a.checked_sub(b) {
        Some(v) => v,
        None => if b < 0 {
            i128::MAX
        } else {
            i128::MIN
        },
    }
}

/// Whether `now` is later than `since + interval`, computed without overflow.
pub(crate) fn later_than(now: u64, since: u64, interval: u64) -> (r: bool)
    ensures
        r == (now > since + interval),
{
    now as u128 > since as u128 + interval as u128
}

/// Extending the roster keeps every round's submissions well formed.
proof fn lemma_roster_extended(feeds: Seq<FeedState>, roster: Seq<u64>, address: u64)
    requires
        forall|f: int| 0 <= f < feeds.len() ==> (#[trigger] feeds[f]).wf(roster),
    ensures
        forall|f: int| 0 <= f < feeds.len() ==> (#[trigger] feeds[f]).wf(roster.push(address)),
{
    assert forall|f: int| 0 <= f < feeds.len() implies (#[trigger] feeds[f]).wf(
        roster.push(address),
    ) by {
        assert(feeds[f].wf(roster));
        assert forall|k: int| 0 <= k < feeds[f].submissions@.len() implies round_wf(
            #[trigger] feeds[f].submissions@[k]@,
            roster.push(address),
        ) by {
            let subs = feeds[f].submissions@[k]@;
            assert(round_wf(subs, roster));
            assert forall|i: int| 0 <= i < subs.len() implies roster.push(address).contains(
                #[trigger] subs[i].oracle,
            ) by {
                assert(roster.contains(subs[i].oracle));
                let j = choose|j: int| 0 <= j < roster.len() && roster[j] == subs[i].oracle;
                assert(roster.push(address)[j] == subs[i].oracle);
            }
        }
    }
}

impl OracleNetworkContract {
    /// Why an admin operation by `caller` is refused, if it is.
    pub open spec fn admin_error(&self, caller: u64) -> Option<OracleNetworkError> {
        match self.config {
            None => Some(OracleNetworkError::NotInitialized),
            Some(c) => if c.admin == caller {
                None
            } else {
                Some(OracleNetworkError::Unauthorized)
            },
        }
    }

    /// Everything but the roster is as in `old`.
    pub open spec fn same_but_oracles(&self, old: &Self) -> bool {
        &&& self.config == old.config
        &&& self.paused == old.paused
        &&& self.feeds == old.feeds
    }

    /// Everything but the feeds is as in `old`.
    pub open spec fn same_but_feeds(&self, old: &Self) -> bool {
        &&& self.config == old.config
        &&& self.paused == old.paused
        &&& self.oracles == old.oracles
    }

    /// An empty, uninitialised network.
    pub fn new() -> (r: Self)
        ensures
            r.inv(),
            r.reputations_bounded(),
            r.config is None,
            !r.paused,
            r.oracles@.len() == 0,
            r.feeds@.len() == 0,
    {
        let r = OracleNetworkContract {
            config: None,
            paused: false,
            oracles: Vec::new(),
            feeds: Vec::new(),
        };
        proof {
            assert(oracle_ids(r.oracles@) =~= Seq::<u64>::empty());
            assert(feed_ids(r.feeds@) =~= Seq::<u64>::empty());
        }
        r
    }

    pub(crate) fn require_admin(&self, caller: u64) -> (r: Result<NetworkConfig, OracleNetworkError>)
        ensures
            match self.admin_error(caller) {
                Some(e) => r == Err::<NetworkConfig, OracleNetworkError>(e),
                None => r == Ok::<NetworkConfig, OracleNetworkError>(self.cfg()),
            },
    {
        match self.config {
            None => Err(OracleNetworkError::NotInitialized),
            Some(c) => if c.admin == caller {
                Ok(c)
            } else {
                Err(OracleNetworkError::Unauthorized)
            },
        }
    }

    /// Initialises the network with `admin` and the default parameters.
    pub fn initialize(&mut self, admin: u64) -> (r: Result<(), OracleNetworkError>)
        requires
            old(self).inv(),
        ensures
            final(self).inv(),
            old(self).config is Some ==> r == Err::<(), OracleNetworkError>(
                OracleNetworkError::AlreadyInitialized,
            ) && *final(self) == *old(self),
            old(self).config is None ==> r is Ok && final(self).config == Some(
                default_config(admin),
            ) && !final(self).paused && final(self).oracles@.len() == 0
                && final(self).feeds@.len() == 0,
    {
        if self.config.is_some() {
            return Err(OracleNetworkError::AlreadyInitialized);
        }
        self.config = Some(
            NetworkConfig {
                admin,
                min_oracles: DEFAULT_MIN_ORACLES,
                max_oracles: DEFAULT_MAX_ORACLES,
                submission_window_secs: DEFAULT_SUBMISSION_WINDOW_SECS,
                staleness_secs: DEFAULT_STALENESS_SECS,
                outlier_threshold_bps: DEFAULT_OUTLIER_THRESHOLD_BPS,
                min_stake: DEFAULT_MIN_STAKE,
                heartbeat_interval: DEFAULT_HEARTBEAT_INTERVAL,
                rep_initial: DEFAULT_REP_INITIAL,
                rep_max: DEFAULT_REP_MAX,
                rep_reward: DEFAULT_REP_REWARD,
                rep_penalty: DEFAULT_REP_PENALTY,
                rep_miss_penalty: DEFAULT_REP_MISS_PENALTY,
            },
        );
        self.paused = false;
        self.oracles = Vec::new();
        self.feeds = Vec::new();
        proof {
            assert(oracle_ids(self.oracles@) =~= Seq::<u64>::empty());
            assert(feed_ids(self.feeds@) =~= Seq::<u64>::empty());
        }
        Ok(())
    }

    /// Pauses or resumes the network (admin only).
    pub fn set_paused(&mut self, caller: u64, paused: bool) -> (r: Result<(), OracleNetworkError>)
        requires
            old(self).inv(),
        ensures
            final(self).inv(),
            match old(self).admin_error(caller) {
                Some(e) => r == Err::<(), OracleNetworkError>(e) && *final(self) == *old(self),
                None => r is Ok && final(self).paused == paused && final(self).config == old(
                    self,
                ).config && final(self).oracles == old(self).oracles && final(self).feeds == old(
                    self,
                ).feeds,
            },
    {
        self.require_admin(caller)?;
        self.paused = paused;
        Ok(())
    }

    /// Why `update_config` with these values fails, if it does.
    pub open spec fn update_config_error(
        &self,
        caller: u64,
        min_oracles: u32,
        max_oracles: u32,
        submission_window_secs: u64,
        staleness_secs: u64,
        outlier_threshold_bps: u32,
        min_stake: i128,
        heartbeat_interval: u64,
    ) -> Option<OracleNetworkError> {
        if self.admin_error(caller) is Some {
            self.admin_error(caller)
        } else if min_oracles == 0 || max_oracles < min_oracles || submission_window_secs == 0
            || staleness_secs == 0 || outlier_threshold_bps == 0 || outlier_threshold_bps > 10_000
            || min_stake < 0 || heartbeat_interval == 0 {
            Some(OracleNetworkError::InvalidInput)
        } else {
            None
        }
    }

    /// Replaces the network parameters (admin only).
    pub fn update_config(
        &mut self,
        caller: u64,
        min_oracles: u32,
        max_oracles: u32,
        submission_window_secs: u64,
        staleness_secs: u64,
        outlier_threshold_bps: u32,
        min_stake: i128,
        heartbeat_interval: u64,
    ) -> (r: Result<(), OracleNetworkError>)
        requires
            old(self).inv(),
        ensures
            final(self).inv(),
            match old(self).update_config_error(
                caller,
                min_oracles,
                max_oracles,
                submission_window_secs,
                staleness_secs,
                outlier_threshold_bps,
                min_stake,
                heartbeat_interval,
            ) {
                Some(e) => r == Err::<(), OracleNetworkError>(e) && *final(self) == *old(self),
                None => r is Ok && final(self).config == Some(
                    NetworkConfig {
                        min_oracles,
                        max_oracles,
                        submission_window_secs,
                        staleness_secs,
                        outlier_threshold_bps,
                        min_stake,
                        heartbeat_interval,
                        ..old(self).cfg()
                    },
                ) && final(self).paused == old(self).paused && final(self).oracles == old(
                    self,
                ).oracles && final(self).feeds == old(self).feeds,
            },
    {
        let cfg = self.require_admin(caller)?;
        if min_oracles == 0 || max_oracles < min_oracles || submission_window_secs == 0
            || staleness_secs == 0 || outlier_threshold_bps == 0 || outlier_threshold_bps > 10_000
            || min_stake < 0 || heartbeat_interval == 0 {
            return Err(OracleNetworkError::InvalidInput);
        }
        self.config = Some(
            NetworkConfig {
                min_oracles,
                max_oracles,
                submission_window_secs,
                staleness_secs,
                outlier_threshold_bps,
                min_stake,
                heartbeat_interval,
                ..cfg
            },
        );
        Ok(())
    }

    /// Why `update_reputation_config` with these values fails, if it does.
    pub open spec fn update_reputation_error(
        &self,
        caller: u64,
        rep_initial: u32,
        rep_max: u32,
        rep_reward: u32,
        rep_penalty: u32,
    ) -> Option<OracleNetworkError> {
        if self.admin_error(caller) is Some {
            self.admin_error(caller)
        } else if rep_max == 0 || rep_initial > rep_max || rep_reward > rep_max || rep_penalty
            > rep_max {
            Some(OracleNetworkError::InvalidInput)
        } else {
            None
        }
    }

    /// Replaces the reputation parameters (admin only). Scores above the new
    /// `rep_max` are lowered to it, so every reputation stays within
    /// `[0, rep_max]`.
    pub fn update_reputation_config(
        &mut self,
        caller: u64,
        rep_initial: u32,
        rep_max: u32,
        rep_reward: u32,
        rep_penalty: u32,
        rep_miss_penalty: u32,
    ) -> (r: Result<(), OracleNetworkError>)
        requires
            old(self).inv(),
        ensures
            final(self).inv(),
            match old(self).update_reputation_error(
                caller,
                rep_initial,
                rep_max,
                rep_reward,
                rep_penalty,
            ) {
                Some(e) => r == Err::<(), OracleNetworkError>(e) && *final(self) == *old(self),
                None => r is Ok && final(self).config == Some(
                    NetworkConfig {
                        rep_initial,
                        rep_max,
                        rep_reward,
                        rep_penalty,
                        rep_miss_penalty,
                        ..old(self).cfg()
                    },
                ) && final(self).paused == old(self).paused && final(self).feeds == old(self).feeds
                    && final(self).oracles@ == old(self).oracles@.map_values(
                    |p: OracleProvider| capped(p, rep_max),
                ),
            },
    {
        let cfg = self.require_admin(caller)?;
        if rep_max == 0 || rep_initial > rep_max || rep_reward > rep_max || rep_penalty > rep_max {
            return Err(OracleNetworkError::InvalidInput);
        }
        let ghost before = self.oracles@;
        let ghost old_self = *self;
        let n = self.oracles.len();
        let mut i: usize = 0;
        while i < n
            invariant
                n == self.oracles@.len(),
                n == before.len(),
                i <= n,
                before == old_self.oracles@,
                self.feeds == old_self.feeds,
                self.paused == old_self.paused,
                self.config == old_self.config,
                forall|j: int| 0 <= j < i ==> self.oracles@[j] == capped(before[j], rep_max),
                forall|j: int| i <= j < n ==> self.oracles@[j] == before[j],
            decreases n - i,
        {
            let p = self.oracles[i];
            if p.reputation > rep_max {
                self.oracles.set(i, OracleProvider { reputation: rep_max, ..p });
            }
            i = i + 1;
        }
        self.config = Some(
            NetworkConfig { rep_initial, rep_max, rep_reward, rep_penalty, rep_miss_penalty, ..cfg },
        );
        proof {
            assert(self.oracles@ =~= before.map_values(|p: OracleProvider| capped(p, rep_max)));
            assert(oracle_ids(self.oracles@) =~= oracle_ids(before));
            assert forall|f: int| 0 <= f < self.feeds@.len() implies (
            #[trigger] self.feeds@[f]).wf(oracle_ids(self.oracles@)) by {
                assert(old_self.feeds@[f].wf(oracle_ids(old_self.oracles@)));
            }
        }
        Ok(())
    }

    /// Why registering `oracle_address` with `stake` fails, if it does.
    pub open spec fn register_error(&self, oracle_address: u64, stake: i128) -> Option<
        OracleNetworkError,
    > {
        if self.paused {
            Some(OracleNetworkError::Paused)
        } else if self.config is None {
            Some(OracleNetworkError::NotInitialized)
        } else if stake < self.cfg().min_stake {
            Some(OracleNetworkError::InsufficientStake)
        } else if self.oracles@.len() >= self.cfg().max_oracles {
            Some(OracleNetworkError::MaxOraclesReached)
        } else if self.oracle_index(oracle_address) >= 0 {
            Some(OracleNetworkError::OracleAlreadyRegistered)
        } else {
            None
        }
    }

    /// Registers a provider with its stake; its reputation starts at
    /// `rep_initial`.
    pub fn register_oracle(&mut self, oracle_address: u64, stake: i128, now: u64) -> (r: Result<
        (),
        OracleNetworkError,
    >)
        requires
            old(self).inv(),
        ensures
            final(self).inv(),
            match old(self).register_error(oracle_address, stake) {
                Some(e) => r == Err::<(), OracleNetworkError>(e) && *final(self) == *old(self),
                None => r is Ok && final(self).oracles@ == old(self).oracles@.push(
                    OracleProvider {
                        address: oracle_address,
                        stake,
                        reputation: old(self).cfg().rep_initial,
                        is_active: true,
                        registered_at: now,
                        last_heartbeat: now,
                        total_submissions: 0,
                        accepted_submissions: 0,
                        rejected_submissions: 0,
                        missed_rounds: 0,
                    },
                ) && final(self).same_but_oracles(old(self)),
            },
    {
        if self.paused {
            return Err(OracleNetworkError::Paused);
        }
        let cfg = match self.config {
            Some(c) => c,
            None => return Err(OracleNetworkError::NotInitialized),
        };
        if stake < cfg.min_stake {
            return Err(OracleNetworkError::InsufficientStake);
        }
        if self.oracles.len() >= cfg.max_oracles as usize {
            return Err(OracleNetworkError::MaxOraclesReached);
        }
        if position_of_oracle(&self.oracles, oracle_address).is_some() {
            return Err(OracleNetworkError::OracleAlreadyRegistered);
        }
        let ghost old_self = *self;
        let provider = OracleProvider {
            address: oracle_address,
            stake,
            reputation: cfg.rep_initial,
            is_active: true,
            registered_at: now,
            last_heartbeat: now,
            total_submissions: 0,
            accepted_submissions: 0,
            rejected_submissions: 0,
            missed_rounds: 0,
        };
        self.oracles.push(provider);
        proof {
            let ids = oracle_ids(old_self.oracles@);
            assert(oracle_ids(self.oracles@) =~= ids.push(oracle_address));
            lemma_find_id(ids, oracle_address);
            lemma_roster_extended(self.feeds@, ids, oracle_address);
            assert(forall|i: int| 0 <= i < ids.len() ==> ids[i] != oracle_address);
        }
        Ok(())
    }

    /// Why an operation on the registered provider `oracle_address` fails for
    /// want of registration, if it does.
    pub open spec fn registered_error(&self, oracle_address: u64) -> Option<OracleNetworkError> {
        if self.oracle_index(oracle_address) < 0 {
            Some(OracleNetworkError::OracleNotRegistered)
        } else {
            None
        }
    }

    /// The record of the registered provider `oracle_address`.
    pub open spec fn provider(&self, oracle_address: u64) -> OracleProvider {
        self.oracles@[self.oracle_index(oracle_address)]
    }

    /// The roster with the record of `oracle_address` replaced by `p`.
    pub open spec fn with_provider(&self, oracle_address: u64, p: OracleProvider) -> Seq<
        OracleProvider,
    > {
        self.oracles@.update(self.oracle_index(oracle_address), p)
    }

    /// Replaces the record at `i` by one with the same address and no higher
    /// reputation.
    pub(crate) fn replace_provider(&mut self, i: usize, p: OracleProvider)
        requires
            old(self).inv(),
            i < old(self).oracles@.len(),
            p.address == old(self).oracles@[i as int].address,
            p.reputation <= old(self).oracles@[i as int].reputation,
        ensures
            final(self).inv(),
            final(self).oracles@ == old(self).oracles@.update(i as int, p),
            final(self).same_but_oracles(old(self)),
    {
        let ghost old_self = *self;
        self.oracles.set(i, p);
        proof {
            assert(oracle_ids(self.oracles@) =~= oracle_ids(old_self.oracles@));
        }
    }

    /// Marks a provider inactive.
    pub fn deactivate_oracle(&mut self, oracle_address: u64) -> (r: Result<(), OracleNetworkError>)
        requires
            old(self).inv(),
        ensures
            final(self).inv(),
            ({
                let e = if old(self).config is None {
                    Some(OracleNetworkError::NotInitialized)
                } else {
                    old(self).registered_error(oracle_address)
                };
                match e {
                    Some(e) => r == Err::<(), OracleNetworkError>(e) && *final(self) == *old(self),
                    None => r is Ok && final(self).oracles@ == old(self).with_provider(
                        oracle_address,
                        OracleProvider { is_active: false, ..old(self).provider(oracle_address) },
                    ) && final(self).same_but_oracles(old(self)),
                }
            }),
    {
        if self.config.is_none() {
            return Err(OracleNetworkError::NotInitialized);
        }
        let i = match position_of_oracle(&self.oracles, oracle_address) {
            Some(i) => i,
            None => return Err(OracleNetworkError::OracleNotRegistered),
        };
        let p = self.oracles[i];
        self.replace_provider(i, OracleProvider { is_active: false, ..p });
        Ok(())
    }

    /// Marks a provider active again, provided its reputation is at least half
    /// of `rep_initial`.
    pub fn reactivate_oracle(&mut self, oracle_address: u64, now: u64) -> (r: Result<
        (),
        OracleNetworkError,
    >)
        requires
            old(self).inv(),
        ensures
            final(self).inv(),
            ({
                let e = if old(self).paused {
                    Some(OracleNetworkError::Paused)
                } else if old(self).config is None {
                    Some(OracleNetworkError::NotInitialized)
                } else if old(self).registered_error(oracle_address) is Some {
                    old(self).registered_error(oracle_address)
                } else if old(self).provider(oracle_address).reputation < old(self).cfg().rep_initial
                    / 2 {
                    Some(OracleNetworkError::ReputationTooLow)
                } else {
                    None
                };
                match e {
                    Some(e) => r == Err::<(), OracleNetworkError>(e) && *final(self) == *old(self),
                    None => r is Ok && final(self).oracles@ == old(self).with_provider(
                        oracle_address,
                        OracleProvider {
                            is_active: true,
                            last_heartbeat: now,
                            ..old(self).provider(oracle_address)
                        },
                    ) && final(self).same_but_oracles(old(self)),
                }
            }),
    {
        if self.paused {
            return Err(OracleNetworkError::Paused);
        }
        let cfg = match self.config {
            Some(c) => c,
            None => return Err(OracleNetworkError::NotInitialized),
        };
        let i = match position_of_oracle(&self.oracles, oracle_address) {
            Some(i) => i,
            None => return Err(OracleNetworkError::OracleNotRegistered),
        };
        let p = self.oracles[i];
        if p.reputation < cfg.rep_initial / 2 {
            return Err(OracleNetworkError::ReputationTooLow);
        }
        self.replace_provider(i, OracleProvider { is_active: true, last_heartbeat: now, ..p });
        Ok(())
    }

    /// Adds `amount` (which must be positive) to a provider's stake, saturating.
    pub fn add_stake(&mut self, oracle_address: u64, amount: i128) -> (r: Result<
        (),
        OracleNetworkError,
    >)
        requires
            old(self).inv(),
        ensures
            final(self).inv(),
            ({
                let e = if old(self).paused {
                    Some(OracleNetworkError::Paused)
                } else if amount <= 0 {
                    Some(OracleNetworkError::InvalidInput)
                } else {
                    old(self).registered_error(oracle_address)
                };
                match e {
                    Some(e) => r == Err::<(), OracleNetworkError>(e) && *final(self) == *old(self),
                    None => r is Ok && final(self).oracles@ == old(self).with_provider(
                        oracle_address,
                        OracleProvider {
                            stake: i128_add_saturating(
                                old(self).provider(oracle_address).stake,
                                amount,
                            ),
                            ..old(self).provider(oracle_address)
                        },
                    ) && final(self).same_but_oracles(old(self)),
                }
            }),
    {
        if self.paused {
            return Err(OracleNetworkError::Paused);
        }
        if amount <= 0 {
            return Err(OracleNetworkError::InvalidInput);
        }
        let i = match position_of_oracle(&self.oracles, oracle_address) {
            Some(i) => i,
            None => return Err(OracleNetworkError::OracleNotRegistered),
        };
        let p = self.oracles[i];
        self.replace_provider(i, OracleProvider { stake: stake_add(p.stake, amount), ..p });
        Ok(())
    }

    /// Records a liveness proof of an active provider at `now`.
    pub fn heartbeat(&mut self, oracle_address: u64, now: u64) -> (r: Result<
        (),
        OracleNetworkError,
    >)
        requires
            old(self).inv(),
        ensures
            final(self).inv(),
            ({
                let e = if old(self).paused {
                    Some(OracleNetworkError::Paused)
                } else if old(self).registered_error(oracle_address) is Some {
                    old(self).registered_error(oracle_address)
                } else if !old(self).provider(oracle_address).is_active {
                    Some(OracleNetworkError::OracleInactive)
                } else {
                    None
                };
                match e {
                    Some(e) => r == Err::<(), OracleNetworkError>(e) && *final(self) == *old(self),
                    None => r is Ok && final(self).oracles@ == old(self).with_provider(
                        oracle_address,
                        OracleProvider { last_heartbeat: now, ..old(self).provider(oracle_address) },
                    ) && final(self).same_but_oracles(old(self)),
                }
            }),
    {
        if self.paused {
            return Err(OracleNetworkError::Paused);
        }
        let i = match position_of_oracle(&self.oracles, oracle_address) {
            Some(i) => i,
            None => return Err(OracleNetworkError::OracleNotRegistered),
        };
        let p = self.oracles[i];
        if !p.is_active {
            return Err(OracleNetworkError::OracleInactive);
        }
        self.replace_provider(i, OracleProvider { last_heartbeat: now, ..p });
        Ok(())
    }

    /// A provider after a slash of `stake_penalty` and `rep_penalty`.
    pub open spec fn slashed(p: OracleProvider, stake_penalty: i128, rep_penalty: u32) -> OracleProvider {
        let stake = if stake_penalty > 0 {
            i128_sub_saturating(p.stake, stake_penalty)
        } else {
            p.stake
        };
        let reputation = floor_sub(p.reputation, rep_penalty);
        OracleProvider { stake, reputation, is_active: p.is_active && reputation > 0, ..p }
    }

    /// Reduces a provider's stake and reputation, saturating (admin only); a
    /// provider left with no reputation becomes inactive.
    pub fn slash_oracle(
        &mut self,
        caller: u64,
        oracle_address: u64,
        stake_penalty: i128,
        rep_penalty: u32,
    ) -> (r: Result<(), OracleNetworkError>)
        requires
            old(self).inv(),
        ensures
            final(self).inv(),
            ({
                let e = if old(self).admin_error(caller) is Some {
                    old(self).admin_error(caller)
                } else {
                    old(self).registered_error(oracle_address)
                };
                match e {
                    Some(e) => r == Err::<(), OracleNetworkError>(e) && *final(self) == *old(self),
                    None => r is Ok && final(self).oracles@ == old(self).with_provider(
                        oracle_address,
                        Self::slashed(old(self).provider(oracle_address), stake_penalty, rep_penalty),
                    ) && final(self).same_but_oracles(old(self)),
                }
            }),
    {
        self.require_admin(caller)?;
        let i = match position_of_oracle(&self.oracles, oracle_address) {
            Some(i) => i,
            None => return Err(OracleNetworkError::OracleNotRegistered),
        };
        let p = self.oracles[i];
        let stake = if stake_penalty > 0 {
            stake_sub(p.stake, stake_penalty)
        } else {
            p.stake
        };
        let reputation = p.reputation.saturating_sub(rep_penalty);
        self.replace_provider(
            i,
            OracleProvider { stake, reputation, is_active: p.is_active && reputation > 0, ..p },
        );
        Ok(())
    }
}

} // verus!
