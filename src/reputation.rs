//! Reputation engine: how a round's outcome changes each provider's record.
//!
//! All reputation arithmetic saturates: a score never drops below zero and a
//! reward never lifts it above the configured maximum.

use crate::aggregation::outlier_spec;
use crate::identity::{find_id, submitter_ids};
use crate::oracle_types::{NetworkConfig, OracleProvider, PriceSubmission};
use vstd::prelude::*;

verus! {

/// `x + 1`, held at `u64::MAX`.
pub open spec fn bump(x: u64) -> u64 {
    if x == u64::MAX {
        x
    } else {
        (x + 1) as u64
    }
}

/// `a - b`, held at zero.
pub open spec fn floor_sub(a: u32, b: u32) -> u32 {
    if a >= b {
        (a - b) as u32
    } else {
        0
    }
}

/// A provider whose submission was accepted into the consensus.
pub open spec fn rewarded(p: OracleProvider, cfg: NetworkConfig) -> OracleProvider {
    OracleProvider {
        accepted_submissions: bump(p.accepted_submissions),
        reputation: if p.reputation + cfg.rep_reward >= cfg.rep_max {
            cfg.rep_max
        } else {
            (p.reputation + cfg.rep_reward) as u32
        },
        ..p
    }
}

/// A provider whose submission was rejected as an outlier.
pub open spec fn rejected(p: OracleProvider, cfg: NetworkConfig) -> OracleProvider {
    OracleProvider {
        rejected_submissions: bump(p.rejected_submissions),
        reputation: floor_sub(p.reputation, cfg.rep_penalty),
        is_active: p.is_active && floor_sub(p.reputation, cfg.rep_penalty) > 0,
        ..p
    }
}

/// A registered provider that did not submit in a resolved round.
pub open spec fn missed(p: OracleProvider, cfg: NetworkConfig) -> OracleProvider {
    OracleProvider {
        missed_rounds: bump(p.missed_rounds),
        reputation: floor_sub(p.reputation, cfg.rep_miss_penalty),
        is_active: p.is_active && floor_sub(p.reputation, cfg.rep_miss_penalty) > 0,
        ..p
    }
}

/// A provider's record after a round with submissions `subs` was resolved
/// against the reference median `median`: rewarded for an accepted price,
/// penalised for an outlier, and penalised for a missed round when it did not
/// submit (an inactive provider included, since it is still registered).
pub open spec fn settled(
    p: OracleProvider,
    subs: Seq<PriceSubmission>,
    median: int,
    cfg: NetworkConfig,
) -> OracleProvider {
    let k = find_id(submitter_ids(subs), p.address);
    if k >= 0 {
        if outlier_spec(subs[k].price as int, median, cfg.outlier_threshold_bps as int) {
            rejected(p, cfg)
        } else {
            rewarded(p, cfg)
        }
    } else {
        missed(p, cfg)
    }
}

/// The reputation stays within `[0, rep_max]`.
pub open spec fn reputation_bounded(p: OracleProvider, cfg: NetworkConfig) -> bool {
    p.reputation <= cfg.rep_max
}

pub fn increment_saturating(x: u64) -> (r: u64)
    ensures
        r == bump(x),
{
    if x == u64::MAX {
        x
    } else {
        x + 1
    }
}

/// Applies the reward for an accepted submission.
pub fn reward(p: OracleProvider, cfg: &NetworkConfig) -> (r: OracleProvider)
    ensures
        r == rewarded(p, *cfg),
{
    let raised: u64 = p.reputation as u64 + cfg.rep_reward as u64;
    let reputation = if raised >= cfg.rep_max as u64 {
        cfg.rep_max
    } else {
        raised as u32
    };
    OracleProvider {
        accepted_submissions: increment_saturating(p.accepted_submissions),
        reputation,
        ..p
    }
}

/// Applies the penalty for an outlier submission.
pub fn penalize_outlier(p: OracleProvider, cfg: &NetworkConfig) -> (r: OracleProvider)
    ensures
        r == rejected(p, *cfg),
{
    let reputation = p.reputation.saturating_sub(cfg.rep_penalty);
    OracleProvider {
        rejected_submissions: increment_saturating(p.rejected_submissions),
        reputation,
        is_active: p.is_active && reputation > 0,
        ..p
    }
}

/// Applies the penalty for a missed round.
pub fn penalize_miss(p: OracleProvider, cfg: &NetworkConfig) -> (r: OracleProvider)
    ensures
        r == missed(p, *cfg),
{
    let reputation = p.reputation.saturating_sub(cfg.rep_miss_penalty);
    OracleProvider {
        missed_rounds: increment_saturating(p.missed_rounds),
        reputation,
        is_active: p.is_active && reputation > 0,
        ..p
    }
}

/// Reward and both penalties keep a bounded reputation bounded.
pub proof fn lemma_settled_bounded(
    p: OracleProvider,
    subs: Seq<PriceSubmission>,
    median: int,
    cfg: NetworkConfig,
)
    requires
        reputation_bounded(p, cfg),
    ensures
        reputation_bounded(settled(p, subs, median, cfg), cfg),
        settled(p, subs, median, cfg).address == p.address,
{
}

} // verus!
