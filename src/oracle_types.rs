//! Records and errors of the oracle network.
//!
//! Provider addresses, feed identifiers and asset symbols are opaque `u64`
//! identities chosen by the caller.

use vstd::prelude::*;

verus! {

pub const DEFAULT_MIN_ORACLES: u32 = 3;

pub const DEFAULT_MAX_ORACLES: u32 = 21;

pub const DEFAULT_SUBMISSION_WINDOW_SECS: u64 = 300;

pub const DEFAULT_STALENESS_SECS: u64 = 3600;

pub const DEFAULT_OUTLIER_THRESHOLD_BPS: u32 = 1500;

pub const DEFAULT_MIN_STAKE: i128 = 10_000_000;

pub const DEFAULT_HEARTBEAT_INTERVAL: u64 = 600;

pub const DEFAULT_REP_INITIAL: u32 = 500;

pub const DEFAULT_REP_MAX: u32 = 1000;

pub const DEFAULT_REP_REWARD: u32 = 5;

pub const DEFAULT_REP_PENALTY: u32 = 20;

pub const DEFAULT_REP_MISS_PENALTY: u32 = 10;

/// Number of resolved prices kept per feed; older entries are evicted first.
pub const MAX_HISTORY_LEN: u32 = 50;

/// Maximum number of feeds in the catalog.
pub const MAX_FEEDS: u32 = 100;

/// Errors of the oracle network.
#[derive(Copy, Clone, Debug, PartialEq, Eq, Structural)]
pub enum OracleNetworkError {
    Unauthorized,
    Paused,
    AlreadyInitialized,
    NotInitialized,
    InvalidInput,
    OracleAlreadyRegistered,
    OracleNotRegistered,
    OracleInactive,
    InsufficientStake,
    OracleSlashed,
    MaxOraclesReached,
    CannotRemoveSelf,
    FeedAlreadyExists,
    FeedNotFound,
    FeedInactive,
    MaxFeedsReached,
    DuplicateSubmission,
    SubmissionWindowClosed,
    InvalidPrice,
    RoundNotOpen,
    InsufficientSubmissions,
    ConsensusNotReached,
    StalePrice,
    OutlierRejected,
    NoResolvedPrice,
    ReputationTooLow,
}

/// Network-wide parameters.
#[derive(Copy, Clone, Debug, PartialEq, Eq, Structural)]
pub struct NetworkConfig {
    pub admin: u64,
    pub min_oracles: u32,
    pub max_oracles: u32,
    pub submission_window_secs: u64,
    pub staleness_secs: u64,
    pub outlier_threshold_bps: u32,
    pub min_stake: i128,
    pub heartbeat_interval: u64,
    pub rep_initial: u32,
    pub rep_max: u32,
    pub rep_reward: u32,
    pub rep_penalty: u32,
    pub rep_miss_penalty: u32,
}

impl NetworkConfig {
    /// Bounds every configuration keeps.
    pub open spec fn wf(&self) -> bool {
        &&& self.min_oracles >= 1
        &&& self.max_oracles >= self.min_oracles
        &&& self.submission_window_secs > 0
        &&& self.staleness_secs > 0
        &&& 1 <= self.outlier_threshold_bps <= 10_000
        &&& self.min_stake >= 0
        &&& self.heartbeat_interval > 0
        &&& self.rep_max > 0
        &&& self.rep_initial <= self.rep_max
        &&& self.rep_reward <= self.rep_max
        &&& self.rep_penalty <= self.rep_max
    }
}

/// A data provider.
#[derive(Copy, Clone, Debug, PartialEq, Eq, Structural)]
pub struct OracleProvider {
    pub address: u64,
    pub stake: i128,
    pub reputation: u32,
    pub is_active: bool,
    pub registered_at: u64,
    pub last_heartbeat: u64,
    pub total_submissions: u64,
    pub accepted_submissions: u64,
    pub rejected_submissions: u64,
    pub missed_rounds: u64,
}

/// A price feed of the catalog.
#[derive(Copy, Clone, Debug, PartialEq, Eq, Structural)]
pub struct PriceFeed {
    pub feed_id: u64,
    pub base_asset: u64,
    pub quote_asset: u64,
    pub decimals: u32,
    pub is_active: bool,
    /// Staleness bound for this feed; zero means the network default.
    pub staleness_override_secs: u64,
    /// Minimum submission count for this feed; zero means the network default.
    pub min_oracles_override: u32,
    pub created_at: u64,
}

/// One provider's observation in a round.
#[derive(Copy, Clone, Debug, PartialEq, Eq, Structural)]
pub struct PriceSubmission {
    pub oracle: u64,
    pub price: i128,
    pub timestamp: u64,
    /// Self-reported confidence in basis points, at most 10000.
    pub confidence: u32,
}

/// The current submission round of a feed.
#[derive(Copy, Clone, Debug, PartialEq, Eq, Structural)]
pub struct PriceRound {
    pub round_id: u64,
    pub feed_id: u64,
    pub opened_at: u64,
    pub closes_at: u64,
    pub resolved: bool,
}

/// The aggregated outcome of a round.
#[derive(Copy, Clone, Debug, PartialEq, Eq, Structural)]
pub struct ResolvedPrice {
    pub feed_id: u64,
    pub round_id: u64,
    pub price: i128,
    pub timestamp: u64,
    pub num_included: u32,
    pub num_rejected: u32,
    pub spread_bps: u32,
    pub confidence: u32,
}

/// A compact record of a past resolution.
#[derive(Copy, Clone, Debug, PartialEq, Eq, Structural)]
pub struct PriceHistoryEntry {
    pub round_id: u64,
    pub price: i128,
    pub timestamp: u64,
    pub num_oracles: u32,
}

/// Read-only performance view of a provider.
#[derive(Copy, Clone, Debug, PartialEq, Eq, Structural)]
pub struct OracleStats {
    pub address: u64,
    pub reputation: u32,
    pub total_submissions: u64,
    pub accepted_submissions: u64,
    pub rejected_submissions: u64,
    pub missed_rounds: u64,
    /// Accepted submissions per total submissions, in basis points.
    pub accuracy_bps: u32,
    pub is_active: bool,
}

/// Network-wide counters.
#[derive(Copy, Clone, Debug, PartialEq, Eq, Structural)]
pub struct NetworkStats {
    pub total_oracles: u32,
    pub active_oracles: u32,
    pub total_feeds: u32,
    pub active_feeds: u32,
    pub total_rounds_resolved: u64,
}

} // verus!
