use stellar_insured::oracle_network::OracleNetworkContract;
use stellar_insured::oracle_types::{
    OracleNetworkError, DEFAULT_HEARTBEAT_INTERVAL, DEFAULT_MIN_ORACLES, DEFAULT_MIN_STAKE,
    DEFAULT_REP_INITIAL, DEFAULT_REP_MISS_PENALTY, DEFAULT_REP_PENALTY, DEFAULT_REP_REWARD,
    DEFAULT_STALENESS_SECS, DEFAULT_SUBMISSION_WINDOW_SECS,
};

const ADMIN: u64 = 1;
const XLMUSD: u64 = 0x584c_4d55_5344;
const BTCUSD: u64 = 0x4254_4355_5344;
const XLM: u64 = 0x584c_4d;
const BTC: u64 = 0x4254_43;
const USD: u64 = 0x5553_44;

fn setup() -> (OracleNetworkContract, u64) {
    let mut net = OracleNetworkContract::new();
    net.initialize(ADMIN).unwrap();
    (net, ADMIN)
}

fn register_oracles(net: &mut OracleNetworkContract, count: usize) -> Vec<u64> {
    let mut addrs = Vec::new();
    for i in 0..count {
        let addr = 1000 + i as u64;
        net.register_oracle(addr, DEFAULT_MIN_STAKE, 0).unwrap();
        addrs.push(addr);
    }
    addrs
}

fn create_test_feed(net: &mut OracleNetworkContract) -> u64 {
    net.create_feed(ADMIN, XLMUSD, XLM, USD, 8, 0).unwrap();
    XLMUSD
}

fn submit_three(net: &mut OracleNetworkContract, oracles: &[u64], feed: u64, now: u64) {
    net.submit_price(oracles[0], feed, 100_000_000, 9000, now).unwrap();
    net.submit_price(oracles[1], feed, 100_100_000, 9000, now).unwrap();
    net.submit_price(oracles[2], feed, 100_200_000, 9000, now).unwrap();
}

#[test]
fn test_initialize() {
    let (net, admin) = setup();
    let cfg = net.get_config().unwrap();
    assert_eq!(cfg.admin, admin);
    assert_eq!(cfg.min_oracles, DEFAULT_MIN_ORACLES);
}

#[test]
fn test_double_init_fails() {
    let (mut net, admin) = setup();
    let result = net.initialize(admin);
    assert!(result.is_err());
    assert_eq!(result, Err(OracleNetworkError::AlreadyInitialized));
}

#[test]
fn test_register_oracle() {
    let (mut net, _) = setup();
    let oracle = 77;
    net.register_oracle(oracle, DEFAULT_MIN_STAKE, 0).unwrap();
    let provider = net.get_oracle(oracle).unwrap();
    assert_eq!(provider.address, oracle);
    assert!(provider.is_active);
    assert_eq!(provider.reputation, DEFAULT_REP_INITIAL);
    assert_eq!(provider.stake, DEFAULT_MIN_STAKE);
}

#[test]
fn test_register_duplicate_oracle_fails() {
    let (mut net, _) = setup();
    net.register_oracle(77, DEFAULT_MIN_STAKE, 0).unwrap();
    let result = net.register_oracle(77, DEFAULT_MIN_STAKE, 0);
    assert!(result.is_err());
    assert_eq!(result, Err(OracleNetworkError::OracleAlreadyRegistered));
}

#[test]
fn test_insufficient_stake_fails() {
    let (mut net, _) = setup();
    let result = net.register_oracle(77, DEFAULT_MIN_STAKE - 1, 0);
    assert!(result.is_err());
    assert_eq!(result, Err(OracleNetworkError::InsufficientStake));
}

#[test]
fn test_deactivate_reactivate_oracle() {
    let (mut net, _) = setup();
    net.register_oracle(77, DEFAULT_MIN_STAKE, 0).unwrap();
    net.deactivate_oracle(77).unwrap();
    assert!(!net.get_oracle(77).unwrap().is_active);
    net.reactivate_oracle(77, 0).unwrap();
    assert!(net.get_oracle(77).unwrap().is_active);
}

#[test]
fn test_add_stake() {
    let (mut net, _) = setup();
    net.register_oracle(77, DEFAULT_MIN_STAKE, 0).unwrap();
    net.add_stake(77, 1_000_000).unwrap();
    assert_eq!(net.get_oracle(77).unwrap().stake, DEFAULT_MIN_STAKE + 1_000_000);
}

#[test]
fn test_heartbeat() {
    let (mut net, _) = setup();
    net.register_oracle(77, DEFAULT_MIN_STAKE, 0).unwrap();
    net.heartbeat(77, 1000).unwrap();
    assert_eq!(net.get_oracle(77).unwrap().last_heartbeat, 1000);
}

#[test]
fn test_slash_oracle() {
    let (mut net, admin) = setup();
    net.register_oracle(77, DEFAULT_MIN_STAKE, 0).unwrap();
    net.slash_oracle(admin, 77, 5_000_000, 100).unwrap();
    let provider = net.get_oracle(77).unwrap();
    assert_eq!(provider.stake, DEFAULT_MIN_STAKE - 5_000_000);
    assert_eq!(provider.reputation, DEFAULT_REP_INITIAL - 100);
}

#[test]
fn test_create_feed() {
    let (mut net, _) = setup();
    let feed_id = create_test_feed(&mut net);
    let feed = net.get_feed(feed_id).unwrap();
    assert_eq!(feed.feed_id, feed_id);
    assert!(feed.is_active);
    assert_eq!(feed.decimals, 8);
}

#[test]
fn test_duplicate_feed_fails() {
    let (mut net, admin) = setup();
    create_test_feed(&mut net);
    let result = net.create_feed(admin, XLMUSD, XLM, USD, 8, 0);
    assert!(result.is_err());
    assert_eq!(result, Err(OracleNetworkError::FeedAlreadyExists));
}

#[test]
fn test_update_feed() {
    let (mut net, admin) = setup();
    let feed_id = create_test_feed(&mut net);
    net.update_feed(admin, feed_id, false, 7200, 5).unwrap();
    let feed = net.get_feed(feed_id).unwrap();
    assert!(!feed.is_active);
    assert_eq!(feed.staleness_override_secs, 7200);
    assert_eq!(feed.min_oracles_override, 5);
}

#[test]
fn test_full_price_round() {
    let (mut net, admin) = setup();
    let oracles = register_oracles(&mut net, 3);
    let feed_id = create_test_feed(&mut net);
    let round_id = net.open_round(admin, feed_id, 1000).unwrap();
    assert_eq!(round_id, 1);
    net.submit_price(oracles[0], feed_id, 100_000_000, 9000, 1000).unwrap();
    net.submit_price(oracles[1], feed_id, 100_500_000, 8500, 1000).unwrap();
    net.submit_price(oracles[2], feed_id, 101_000_000, 9500, 1000).unwrap();
    let resolved = net.resolve_round(admin, feed_id, 1000).unwrap();
    assert!(resolved.price > 0);
    assert_eq!(resolved.num_included, 3);
    assert_eq!(resolved.num_rejected, 0);
    assert_eq!(resolved.round_id, 1);
    let price = net.get_price(feed_id, 1000).unwrap();
    assert_eq!(price.price, resolved.price);
}

#[test]
fn test_outlier_rejection() {
    let (mut net, admin) = setup();
    let oracles = register_oracles(&mut net, 4);
    let feed_id = create_test_feed(&mut net);
    net.open_round(admin, feed_id, 1000).unwrap();
    net.submit_price(oracles[0], feed_id, 100_000_000, 9000, 1000).unwrap();
    net.submit_price(oracles[1], feed_id, 100_100_000, 9000, 1000).unwrap();
    net.submit_price(oracles[2], feed_id, 100_200_000, 9000, 1000).unwrap();
    net.submit_price(oracles[3], feed_id, 200_000_000, 5000, 1000).unwrap();
    let resolved = net.resolve_round(admin, feed_id, 1000).unwrap();
    assert_eq!(resolved.num_included, 3);
    assert_eq!(resolved.num_rejected, 1);
    let outlier_stats = net.get_oracle_stats(oracles[3]).unwrap();
    assert_eq!(outlier_stats.rejected_submissions, 1);
    assert!(outlier_stats.reputation < DEFAULT_REP_INITIAL);
}

#[test]
fn test_reputation_reward() {
    let (mut net, admin) = setup();
    let oracles = register_oracles(&mut net, 3);
    let feed_id = create_test_feed(&mut net);
    net.open_round(admin, feed_id, 1000).unwrap();
    submit_three(&mut net, &oracles, feed_id, 1000);
    net.resolve_round(admin, feed_id, 1000).unwrap();
    for i in 0..3 {
        let stats = net.get_oracle_stats(oracles[i]).unwrap();
        assert_eq!(stats.reputation, DEFAULT_REP_INITIAL + DEFAULT_REP_REWARD);
        assert_eq!(stats.accepted_submissions, 1);
    }
}

#[test]
fn test_missed_round_penalty() {
    let (mut net, admin) = setup();
    let oracles = register_oracles(&mut net, 4);
    let feed_id = create_test_feed(&mut net);
    net.open_round(admin, feed_id, 1000).unwrap();
    submit_three(&mut net, &oracles, feed_id, 1000);
    net.resolve_round(admin, feed_id, 1000).unwrap();
    let stats = net.get_oracle_stats(oracles[3]).unwrap();
    assert_eq!(stats.missed_rounds, 1);
    assert_eq!(stats.reputation, DEFAULT_REP_INITIAL - DEFAULT_REP_MISS_PENALTY);
}

#[test]
fn test_stale_price_detection() {
    let (mut net, admin) = setup();
    let oracles = register_oracles(&mut net, 3);
    let feed_id = create_test_feed(&mut net);
    net.open_round(admin, feed_id, 1000).unwrap();
    submit_three(&mut net, &oracles, feed_id, 1000);
    net.resolve_round(admin, feed_id, 1000).unwrap();
    let result = net.get_price(feed_id, 1000 + DEFAULT_STALENESS_SECS + 1);
    assert!(result.is_err());
}

#[test]
fn test_insufficient_submissions() {
    let (mut net, admin) = setup();
    let oracles = register_oracles(&mut net, 2);
    let feed_id = create_test_feed(&mut net);
    net.update_config(admin, 1, 21, 300, 3600, 1500, DEFAULT_MIN_STAKE, 600).unwrap();
    net.open_round(admin, feed_id, 1000).unwrap();
    net.submit_price(oracles[0], feed_id, 100_000_000, 9000, 1000).unwrap();
    net.submit_price(oracles[1], feed_id, 100_100_000, 9000, 1000).unwrap();
    net.update_config(admin, 3, 21, 300, 3600, 1500, DEFAULT_MIN_STAKE, 600).unwrap();
    let result = net.resolve_round(admin, feed_id, 1000);
    assert!(result.is_err());
    assert_eq!(result, Err(OracleNetworkError::InsufficientSubmissions));
}

#[test]
fn test_duplicate_submission_fails() {
    let (mut net, admin) = setup();
    let oracles = register_oracles(&mut net, 3);
    let feed_id = create_test_feed(&mut net);
    net.open_round(admin, feed_id, 1000).unwrap();
    net.submit_price(oracles[0], feed_id, 100_000_000, 9000, 1000).unwrap();
    let result = net.submit_price(oracles[0], feed_id, 100_100_000, 9000, 1000);
    assert!(result.is_err());
    assert_eq!(result, Err(OracleNetworkError::DuplicateSubmission));
}

#[test]
fn test_submission_after_window_fails() {
    let (mut net, admin) = setup();
    let oracles = register_oracles(&mut net, 3);
    let feed_id = create_test_feed(&mut net);
    net.open_round(admin, feed_id, 1000).unwrap();
    let late = 1000 + DEFAULT_SUBMISSION_WINDOW_SECS + 1;
    let result = net.submit_price(oracles[0], feed_id, 100_000_000, 9000, late);
    assert!(result.is_err());
    assert_eq!(result, Err(OracleNetworkError::SubmissionWindowClosed));
}

#[test]
fn test_multiple_rounds() {
    let (mut net, admin) = setup();
    let oracles = register_oracles(&mut net, 3);
    let feed_id = create_test_feed(&mut net);
    let r1 = net.open_round(admin, feed_id, 1000).unwrap();
    assert_eq!(r1, 1);
    submit_three(&mut net, &oracles, feed_id, 1000);
    net.resolve_round(admin, feed_id, 1000).unwrap();
    let r2 = net.open_round(admin, feed_id, 2000).unwrap();
    assert_eq!(r2, 2);
    net.submit_price(oracles[0], feed_id, 105_000_000, 9000, 2000).unwrap();
    net.submit_price(oracles[1], feed_id, 105_100_000, 9000, 2000).unwrap();
    net.submit_price(oracles[2], feed_id, 105_200_000, 9000, 2000).unwrap();
    let resolved = net.resolve_round(admin, feed_id, 2000).unwrap();
    assert_eq!(resolved.round_id, 2);
    assert!(resolved.price > 100_000_000);
    let history = net.get_price_history(feed_id).unwrap();
    assert_eq!(history.len(), 2);
}

#[test]
fn test_multiple_feeds() {
    let (mut net, admin) = setup();
    let oracles = register_oracles(&mut net, 3);
    net.create_feed(admin, XLMUSD, XLM, USD, 8, 0).unwrap();
    net.create_feed(admin, BTCUSD, BTC, USD, 8, 0).unwrap();
    net.open_round(admin, XLMUSD, 1000).unwrap();
    net.open_round(admin, BTCUSD, 1000).unwrap();
    submit_three(&mut net, &oracles, XLMUSD, 1000);
    net.submit_price(oracles[0], BTCUSD, 50_000_00_000_000, 9000, 1000).unwrap();
    net.submit_price(oracles[1], BTCUSD, 50_100_00_000_000, 9000, 1000).unwrap();
    net.submit_price(oracles[2], BTCUSD, 50_200_00_000_000, 9000, 1000).unwrap();
    let r1 = net.resolve_round(admin, XLMUSD, 1000).unwrap();
    let r2 = net.resolve_round(admin, BTCUSD, 1000).unwrap();
    assert!(r1.price > 0);
    assert!(r2.price > 0);
    assert_ne!(r1.price, r2.price);
    assert_eq!(net.list_feeds().len(), 2);
}

#[test]
fn lib_test_pause_unpause() {
    let (mut net, admin) = setup();
    net.set_paused(admin, true).unwrap();
    let result = net.register_oracle(77, DEFAULT_MIN_STAKE, 0);
    assert!(result.is_err());
    assert_eq!(result, Err(OracleNetworkError::Paused));
    net.set_paused(admin, false).unwrap();
    net.register_oracle(77, DEFAULT_MIN_STAKE, 0).unwrap();
}

#[test]
fn test_enforce_heartbeats() {
    let (mut net, admin) = setup();
    let oracles = register_oracles(&mut net, 3);
    let deactivated = net.enforce_heartbeats(admin, DEFAULT_HEARTBEAT_INTERVAL + 100).unwrap();
    assert_eq!(deactivated, 3);
    for i in 0..3 {
        let provider = net.get_oracle(oracles[i]).unwrap();
        assert!(!provider.is_active);
    }
}

#[test]
fn test_network_stats() {
    let (mut net, _) = setup();
    register_oracles(&mut net, 5);
    create_test_feed(&mut net);
    let stats = net.get_network_stats().unwrap();
    assert_eq!(stats.total_oracles, 5);
    assert_eq!(stats.active_oracles, 5);
    assert_eq!(stats.total_feeds, 1);
    assert_eq!(stats.active_feeds, 1);
}

#[test]
fn test_oracle_list() {
    let (mut net, _) = setup();
    register_oracles(&mut net, 4);
    assert_eq!(net.list_oracles().len(), 4);
}

#[test]
fn test_inactive_oracle_cannot_submit() {
    let (mut net, admin) = setup();
    let oracles = register_oracles(&mut net, 3);
    let feed_id = create_test_feed(&mut net);
    net.deactivate_oracle(oracles[0]).unwrap();
    net.open_round(admin, feed_id, 1000).unwrap();
    let result = net.submit_price(oracles[0], feed_id, 100_000_000, 9000, 1000);
    assert!(result.is_err());
    assert_eq!(result, Err(OracleNetworkError::OracleInactive));
}

// ---- Further cases ----

#[test]
fn equal_reputation_round_resolves_to_middle_price() {
    let (mut net, admin) = setup();
    let oracles = register_oracles(&mut net, 3);
    let feed_id = create_test_feed(&mut net);
    net.open_round(admin, feed_id, 1000).unwrap();
    net.submit_price(oracles[0], feed_id, 100_000_000, 9000, 1000).unwrap();
    net.submit_price(oracles[1], feed_id, 100_500_000, 8500, 1000).unwrap();
    net.submit_price(oracles[2], feed_id, 101_000_000, 9500, 1000).unwrap();
    let resolved = net.resolve_round(admin, feed_id, 1000).unwrap();
    assert_eq!(resolved.num_included, 3);
    assert_eq!(resolved.num_rejected, 0);
    assert_eq!(resolved.price, 100_500_000);
    // 1_000_000 * 10000 / 100_500_000 = 99.5..., rounded down
    assert_eq!(resolved.spread_bps, 99);
    assert_eq!(resolved.confidence, 9000);
    assert_eq!(resolved.timestamp, 1000);
}

#[test]
fn outlier_is_rejected_and_penalised() {
    let (mut net, admin) = setup();
    let oracles = register_oracles(&mut net, 4);
    let feed_id = create_test_feed(&mut net);
    net.open_round(admin, feed_id, 1000).unwrap();
    submit_three(&mut net, &oracles, feed_id, 1000);
    net.submit_price(oracles[3], feed_id, 200_000_000, 5000, 1000).unwrap();
    let resolved = net.resolve_round(admin, feed_id, 1000).unwrap();
    assert_eq!(resolved.num_included, 3);
    assert_eq!(resolved.num_rejected, 1);
    assert_eq!(resolved.price, 100_100_000);
    let outlier = net.get_oracle(oracles[3]).unwrap();
    assert_eq!(outlier.rejected_submissions, 1);
    assert_eq!(outlier.reputation, DEFAULT_REP_INITIAL - DEFAULT_REP_PENALTY);
    assert_eq!(net.get_oracle(oracles[0]).unwrap().reputation, DEFAULT_REP_INITIAL + DEFAULT_REP_REWARD);
}

#[test]
fn missing_provider_is_penalised() {
    let (mut net, admin) = setup();
    let oracles = register_oracles(&mut net, 4);
    let feed_id = create_test_feed(&mut net);
    net.open_round(admin, feed_id, 1000).unwrap();
    submit_three(&mut net, &oracles, feed_id, 1000);
    net.resolve_round(admin, feed_id, 1000).unwrap();
    let missing = net.get_oracle(oracles[3]).unwrap();
    assert_eq!(missing.missed_rounds, 1);
    assert_eq!(missing.reputation, DEFAULT_REP_INITIAL - DEFAULT_REP_MISS_PENALTY);
    assert_eq!(missing.accepted_submissions, 0);
    assert!(missing.is_active);
}

#[test]
fn staleness_boundary() {
    let (mut net, admin) = setup();
    let oracles = register_oracles(&mut net, 3);
    let feed_id = create_test_feed(&mut net);
    net.open_round(admin, feed_id, 1000).unwrap();
    submit_three(&mut net, &oracles, feed_id, 1000);
    let resolved = net.resolve_round(admin, feed_id, 1000).unwrap();
    assert_eq!(net.get_price(feed_id, 1000 + DEFAULT_STALENESS_SECS), Ok(resolved));
    assert_eq!(
        net.get_price(feed_id, 1000 + DEFAULT_STALENESS_SECS + 1),
        Err(OracleNetworkError::StalePrice)
    );
    assert_eq!(
        net.get_price_value(feed_id, 1000 + DEFAULT_STALENESS_SECS + 1),
        Err(OracleNetworkError::StalePrice)
    );
    assert_eq!(
        net.get_latest_price_unchecked(feed_id),
        Ok(resolved)
    );
}

#[test]
fn staleness_override_applies() {
    let (mut net, admin) = setup();
    let oracles = register_oracles(&mut net, 3);
    let feed_id = create_test_feed(&mut net);
    net.open_round(admin, feed_id, 1000).unwrap();
    submit_three(&mut net, &oracles, feed_id, 1000);
    net.resolve_round(admin, feed_id, 1000).unwrap();
    net.update_feed(admin, feed_id, true, 10, 0).unwrap();
    assert!(net.get_price(feed_id, 1010).is_ok());
    assert_eq!(net.get_price(feed_id, 1011), Err(OracleNetworkError::StalePrice));
}

#[test]
fn heartbeat_sweep_counts_and_penalises() {
    let (mut net, admin) = setup();
    let oracles = register_oracles(&mut net, 3);
    assert_eq!(net.enforce_heartbeats(admin, DEFAULT_HEARTBEAT_INTERVAL), Ok(0));
    let count = net.enforce_heartbeats(admin, DEFAULT_HEARTBEAT_INTERVAL + 1).unwrap();
    assert_eq!(count, 3);
    for a in &oracles {
        let p = net.get_oracle(*a).unwrap();
        assert!(!p.is_active);
        assert_eq!(p.reputation, DEFAULT_REP_INITIAL - DEFAULT_REP_MISS_PENALTY);
    }
    assert_eq!(net.enforce_heartbeats(admin, DEFAULT_HEARTBEAT_INTERVAL + 1), Ok(0));
    assert_eq!(net.enforce_heartbeats(77, 0), Err(OracleNetworkError::Unauthorized));
}

#[test]
fn resolving_twice_fails_and_changes_nothing() {
    let (mut net, admin) = setup();
    let oracles = register_oracles(&mut net, 3);
    let feed_id = create_test_feed(&mut net);
    net.open_round(admin, feed_id, 1000).unwrap();
    submit_three(&mut net, &oracles, feed_id, 1000);
    let first = net.resolve_round(admin, feed_id, 1000).unwrap();
    let reps: Vec<u32> = oracles.iter().map(|a| net.get_oracle(*a).unwrap().reputation).collect();
    assert_eq!(net.resolve_round(admin, feed_id, 1100), Err(OracleNetworkError::RoundNotOpen));
    let reps_after: Vec<u32> = oracles.iter().map(|a| net.get_oracle(*a).unwrap().reputation).collect();
    assert_eq!(reps, reps_after);
    assert_eq!(net.get_latest_price_unchecked(feed_id), Ok(first));
    assert_eq!(net.get_price_history(feed_id).unwrap().len(), 1);
}

#[test]
fn consensus_not_reached_when_too_few_remain() {
    let (mut net, admin) = setup();
    let oracles = register_oracles(&mut net, 3);
    let feed_id = create_test_feed(&mut net);
    net.open_round(admin, feed_id, 1000).unwrap();
    net.submit_price(oracles[0], feed_id, 100, 9000, 1000).unwrap();
    net.submit_price(oracles[1], feed_id, 200, 9000, 1000).unwrap();
    net.submit_price(oracles[2], feed_id, 400, 9000, 1000).unwrap();
    // reference median 200: 100 and 400 deviate by 50 % and 100 %
    assert_eq!(
        net.resolve_round(admin, feed_id, 1000),
        Err(OracleNetworkError::ConsensusNotReached)
    );
    assert_eq!(net.get_current_round(feed_id).unwrap().resolved, false);
}

#[test]
fn open_round_requires_closed_previous_round() {
    let (mut net, admin) = setup();
    let feed_id = create_test_feed(&mut net);
    assert_eq!(net.open_round(admin, feed_id, 1000), Ok(1));
    assert_eq!(net.open_round(admin, feed_id, 1100), Err(OracleNetworkError::RoundNotOpen));
    // the window has elapsed: a new round may start
    assert_eq!(net.open_round(admin, feed_id, 1000 + DEFAULT_SUBMISSION_WINDOW_SECS), Ok(2));
    let round = net.get_current_round(feed_id).unwrap();
    assert_eq!(round.closes_at, 1300 + DEFAULT_SUBMISSION_WINDOW_SECS);
    assert_eq!(net.get_round_submissions(feed_id, 1).unwrap().len(), 0);
    assert_eq!(net.get_round_submissions(feed_id, 3), Err(OracleNetworkError::RoundNotOpen));
}

#[test]
fn open_round_on_missing_or_inactive_feed_fails() {
    let (mut net, admin) = setup();
    assert_eq!(net.open_round(admin, XLMUSD, 0), Err(OracleNetworkError::FeedNotFound));
    let feed_id = create_test_feed(&mut net);
    net.update_feed(admin, feed_id, false, 0, 0).unwrap();
    assert_eq!(net.open_round(admin, feed_id, 0), Err(OracleNetworkError::FeedInactive));
}

#[test]
fn submission_errors() {
    let (mut net, admin) = setup();
    let oracles = register_oracles(&mut net, 3);
    let feed_id = create_test_feed(&mut net);
    assert_eq!(
        net.submit_price(oracles[0], feed_id, 100, 9000, 0),
        Err(OracleNetworkError::RoundNotOpen)
    );
    net.open_round(admin, feed_id, 0).unwrap();
    assert_eq!(net.submit_price(999, feed_id, 100, 9000, 0), Err(OracleNetworkError::OracleNotRegistered));
    assert_eq!(net.submit_price(oracles[0], feed_id, 0, 9000, 0), Err(OracleNetworkError::InvalidPrice));
    net.submit_price(oracles[0], feed_id, 100, 20_000, 5).unwrap();
    let subs = net.get_round_submissions(feed_id, 1).unwrap();
    assert_eq!(subs.len(), 1);
    assert_eq!(subs[0].confidence, 10_000);
    assert_eq!(subs[0].timestamp, 5);
    let p = net.get_oracle(oracles[0]).unwrap();
    assert_eq!(p.total_submissions, 1);
    assert_eq!(p.last_heartbeat, 5);
}

#[test]
fn registry_errors() {
    let mut net = OracleNetworkContract::new();
    assert_eq!(net.register_oracle(5, DEFAULT_MIN_STAKE, 0), Err(OracleNetworkError::NotInitialized));
    assert_eq!(net.get_config(), Err(OracleNetworkError::NotInitialized));
    net.initialize(ADMIN).unwrap();
    net.update_config(ADMIN, 1, 2, 300, 3600, 1500, DEFAULT_MIN_STAKE, 600).unwrap();
    register_oracles(&mut net, 2);
    assert_eq!(net.register_oracle(5, DEFAULT_MIN_STAKE, 0), Err(OracleNetworkError::MaxOraclesReached));
    assert_eq!(net.heartbeat(5, 0), Err(OracleNetworkError::OracleNotRegistered));
    assert_eq!(net.add_stake(1000, 0), Err(OracleNetworkError::InvalidInput));
    assert_eq!(net.slash_oracle(2, 1000, 1, 1), Err(OracleNetworkError::Unauthorized));
    assert_eq!(
        net.update_config(ADMIN, 0, 2, 300, 3600, 1500, DEFAULT_MIN_STAKE, 600),
        Err(OracleNetworkError::InvalidInput)
    );
    assert_eq!(
        net.update_reputation_config(ADMIN, 10, 5, 1, 1, 1),
        Err(OracleNetworkError::InvalidInput)
    );
}

#[test]
fn slashing_to_zero_deactivates_and_reactivation_needs_reputation() {
    let (mut net, admin) = setup();
    net.register_oracle(77, DEFAULT_MIN_STAKE, 0).unwrap();
    net.slash_oracle(admin, 77, i128::MAX, 10_000).unwrap();
    let p = net.get_oracle(77).unwrap();
    assert_eq!(p.reputation, 0);
    assert!(!p.is_active);
    assert_eq!(p.stake, DEFAULT_MIN_STAKE - i128::MAX);
    assert_eq!(net.reactivate_oracle(77, 10), Err(OracleNetworkError::ReputationTooLow));
    assert_eq!(net.is_oracle_healthy(77, 0), Ok(false));
    assert_eq!(net.heartbeat(77, 0), Err(OracleNetworkError::OracleInactive));
}

#[test]
fn add_stake_saturates() {
    let (mut net, _) = setup();
    net.register_oracle(77, DEFAULT_MIN_STAKE, 0).unwrap();
    net.add_stake(77, i128::MAX).unwrap();
    assert_eq!(net.get_oracle(77).unwrap().stake, i128::MAX);
}

#[test]
fn oracle_health_follows_heartbeat() {
    let (mut net, _) = setup();
    net.register_oracle(77, DEFAULT_MIN_STAKE, 100).unwrap();
    assert_eq!(net.is_oracle_healthy(77, 100 + DEFAULT_HEARTBEAT_INTERVAL), Ok(true));
    assert_eq!(net.is_oracle_healthy(77, 101 + DEFAULT_HEARTBEAT_INTERVAL), Ok(false));
    assert_eq!(net.is_oracle_healthy(78, 0), Err(OracleNetworkError::OracleNotRegistered));
}

#[test]
fn oracle_stats_accuracy() {
    let (mut net, admin) = setup();
    let oracles = register_oracles(&mut net, 4);
    let feed_id = create_test_feed(&mut net);
    net.open_round(admin, feed_id, 1000).unwrap();
    submit_three(&mut net, &oracles, feed_id, 1000);
    net.submit_price(oracles[3], feed_id, 200_000_000, 5000, 1000).unwrap();
    net.resolve_round(admin, feed_id, 1000).unwrap();
    assert_eq!(net.get_oracle_stats(oracles[0]).unwrap().accuracy_bps, 10_000);
    assert_eq!(net.get_oracle_stats(oracles[3]).unwrap().accuracy_bps, 0);
    let stats = net.get_network_stats().unwrap();
    assert_eq!(stats.total_rounds_resolved, 1);
}

#[test]
fn history_keeps_the_latest_fifty() {
    let (mut net, admin) = setup();
    let oracles = register_oracles(&mut net, 3);
    let feed_id = create_test_feed(&mut net);
    for round in 0..55u64 {
        let now = 1000 + round * 1000;
        net.open_round(admin, feed_id, now).unwrap();
        submit_three(&mut net, &oracles, feed_id, now);
        net.resolve_round(admin, feed_id, now).unwrap();
    }
    let history = net.get_price_history(feed_id).unwrap();
    assert_eq!(history.len(), 50);
    assert_eq!(history[0].round_id, 6);
    assert_eq!(history[49].round_id, 55);
    assert_eq!(history[49].num_oracles, 3);
}

#[test]
fn min_oracles_override_is_used() {
    let (mut net, admin) = setup();
    let oracles = register_oracles(&mut net, 3);
    let feed_id = create_test_feed(&mut net);
    net.update_feed(admin, feed_id, true, 0, 4).unwrap();
    net.open_round(admin, feed_id, 1000).unwrap();
    submit_three(&mut net, &oracles, feed_id, 1000);
    assert_eq!(
        net.resolve_round(admin, feed_id, 1000),
        Err(OracleNetworkError::InsufficientSubmissions)
    );
}

#[test]
fn price_queries_before_resolution() {
    let (mut net, _) = setup();
    let feed_id = create_test_feed(&mut net);
    assert_eq!(net.get_price(feed_id, 0), Err(OracleNetworkError::NoResolvedPrice));
    assert_eq!(net.get_price_history(feed_id), Err(OracleNetworkError::FeedNotFound));
    assert_eq!(net.get_current_round(feed_id), Err(OracleNetworkError::RoundNotOpen));
    assert_eq!(net.get_feed(BTCUSD), Err(OracleNetworkError::FeedNotFound));
}

#[test]
fn reputation_stays_within_bounds() {
    let (mut net, admin) = setup();
    net.update_reputation_config(admin, 500, 502, 5, 500, 10).unwrap();
    let oracles = register_oracles(&mut net, 4);
    let feed_id = create_test_feed(&mut net);
    net.open_round(admin, feed_id, 1000).unwrap();
    submit_three(&mut net, &oracles, feed_id, 1000);
    net.submit_price(oracles[3], feed_id, 200_000_000, 5000, 1000).unwrap();
    net.resolve_round(admin, feed_id, 1000).unwrap();
    // the reward is capped at rep_max, the penalty floors at zero
    assert_eq!(net.get_oracle(oracles[0]).unwrap().reputation, 502);
    let outlier = net.get_oracle(oracles[3]).unwrap();
    assert_eq!(outlier.reputation, 0);
    assert!(!outlier.is_active);
    let cfg = net.get_config().unwrap();
    assert_eq!(cfg.rep_max, 502);
    assert_eq!(cfg.rep_penalty, 500);
}

#[test]
fn lowering_rep_max_caps_existing_reputations() {
    let (mut net, admin) = setup();
    net.register_oracle(77, DEFAULT_MIN_STAKE, 0).unwrap();
    net.register_oracle(78, DEFAULT_MIN_STAKE, 0).unwrap();
    net.slash_oracle(admin, 78, 0, 450).unwrap();
    assert_eq!(net.update_reputation_config(admin, 50, 100, 5, 20, 10), Ok(()));
    assert_eq!(net.get_oracle(77).unwrap().reputation, 100);
    assert_eq!(net.get_oracle(78).unwrap().reputation, 50);
    assert_eq!(net.get_config().unwrap().rep_max, 100);
}

#[test]
fn inactive_provider_that_misses_a_round_is_penalised() {
    let (mut net, admin) = setup();
    let oracles = register_oracles(&mut net, 4);
    let feed_id = create_test_feed(&mut net);
    net.deactivate_oracle(oracles[3]).unwrap();
    net.open_round(admin, feed_id, 1000).unwrap();
    submit_three(&mut net, &oracles, feed_id, 1000);
    net.resolve_round(admin, feed_id, 1000).unwrap();
    let idle = net.get_oracle(oracles[3]).unwrap();
    assert_eq!(idle.missed_rounds, 1);
    assert_eq!(idle.reputation, DEFAULT_REP_INITIAL - DEFAULT_REP_MISS_PENALTY);
    assert!(!idle.is_active);
}
