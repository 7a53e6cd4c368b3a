use fleetsim::bounty::{calculate_difficulty, extract_reward};
use fleetsim::config::{ConfigError, EvasionConfig};
use fleetsim::fleet::{EpochResult, EvasiveFleet};
use fleetsim::fingerprint::HardwareFingerprint;
use fleetsim::ip::{generate_synthetic_ip, render_ip, IpV4};
use fleetsim::miner::ScalaDualMiner;
use fleetsim::node::{render_node_id, Attestation};
use fleetsim::rng::rng_from_seed;
use fleetsim::scoring::score_batch;

fn att(a: u8, b: u8, drift: u64, cache: u64, ts: u64) -> Attestation {
    Attestation {
        node_id: "n".to_string(),
        epoch: 0,
        timestamp_ms: ts,
        ip: IpV4 { a, b, c: 0, d: 1 },
        fingerprint: HardwareFingerprint {
            cpu_vendor: "GenuineIntel".to_string(),
            cpu_model: "model".to_string(),
            clock_drift_cv_micro: drift,
            cache_timing_ns: cache,
            simd_capabilities: vec![],
            memory_layout: "standard".to_string(),
        },
        signals: vec![],
    }
}

fn run_sim(seed: u64, config: EvasionConfig, max_epochs: u32) -> (Vec<EpochResult>, bool) {
    let mut rng = rng_from_seed(seed);
    let mut fleet = EvasiveFleet::new(config, &mut rng).unwrap();
    let mut results = Vec::new();
    for _ in 0..max_epochs {
        if !fleet.running() || fleet.has_survived() {
            break;
        }
        results.push(fleet.execute_epoch(&mut rng));
    }
    (results, fleet.has_survived())
}

fn p7_config() -> EvasionConfig {
    EvasionConfig {
        fleet_size: 10,
        target_score: 300,
        max_timing_jitter_ms: 5000,
        ip_pool_size: 20,
        fingerprint_variance: 150000,
        min_epochs: 5,
    }
}

#[test]
fn test_distinct_prefixes_give_zero_ip_score() {
    let batch = vec![
        att(10, 0, 20000, 900, 100),
        att(11, 0, 21000, 910, 200),
        att(12, 1, 22000, 920, 300),
    ];
    let score = score_batch(&batch);
    assert_eq!(score.ip_score, 0);
}

#[test]
fn test_shared_signature_maximal_fingerprint_score() {
    let mut batch = Vec::new();
    for i in 0..10u8 {
        batch.push(att(10 + i, i, 20000, 1000, 100 * (i as u64)));
    }
    let score = score_batch(&batch);
    assert_eq!(score.fingerprint_score, 900);
}

#[test]
fn test_single_attestation_zero_timing_score() {
    let batch = vec![att(10, 0, 20000, 900, 12345)];
    let score = score_batch(&batch);
    assert_eq!(score.timing_score, 0);
    assert_eq!(score.ip_score, 0);
    assert_eq!(score.fingerprint_score, 0);
    assert_eq!(score.total_score, 0);
}

#[test]
fn test_timing_score_normalization_and_cap() {
    let spread_half = vec![att(10, 0, 1000, 800, 0), att(11, 0, 2000, 900, 5000)];
    assert_eq!(score_batch(&spread_half).timing_score, 500);
    let spread_capped = vec![att(10, 0, 1000, 800, 0), att(11, 0, 2000, 900, 20000)];
    assert_eq!(score_batch(&spread_capped).timing_score, 1000);
}

#[test]
fn test_uniform_fleet_scores_high() {
    // Every node reuses one address and one fingerprint signature: the batch
    // scores far over a 0.3 threshold and would be flagged at once.
    let mut batch = Vec::new();
    for _ in 0..10 {
        batch.push(att(10, 0, 20000, 1000, 500));
    }
    let score = score_batch(&batch);
    assert_eq!(score.ip_score, 900);
    assert_eq!(score.fingerprint_score, 900);
    assert_eq!(score.timing_score, 0);
    assert_eq!(score.total_score, 720);
    assert!(!score.is_below_threshold(300));
}

#[test]
fn test_composite_within_scale() {
    let (results, _) = run_sim(11, EvasionConfig::default(), 5);
    for r in &results {
        assert!(r.score.total_score <= 1000);
        assert!(r.score.ip_score <= 1000);
        assert!(r.score.fingerprint_score <= 1000);
        assert!(r.score.timing_score <= 1000);
    }
}

#[test]
fn test_fixed_seed_runs_identically() {
    let (first, survived_first) = run_sim(42, p7_config(), 8);
    let (second, survived_second) = run_sim(42, p7_config(), 8);
    assert_eq!(first, second);
    assert_eq!(survived_first, survived_second);
    assert!(!first.is_empty());
}

#[test]
fn test_epoch_advances_by_one_and_freezes() {
    let (results, _) = run_sim(3, p7_config(), 8);
    for (idx, r) in results.iter().enumerate() {
        if r.survived {
            assert_eq!(r.epoch as usize, idx + 1);
        } else {
            // the counter froze at the epoch that was detected
            assert_eq!(r.epoch as usize, idx);
            assert_eq!(idx, results.len() - 1);
        }
    }
}

#[test]
fn test_survival_scenario() {
    // Ten nodes over a pool of twenty get pairwise distinct subnet prefixes
    // and drifting fingerprints: five epochs under a 0.3 target, then the
    // required-epochs query turns true.
    let (results, survived) = run_sim(7, p7_config(), 10);
    assert_eq!(results.len(), 5);
    for r in &results {
        assert!(r.survived);
        assert!(r.score.total_score < 300);
        assert_eq!(r.score.ip_score, 0);
        assert_eq!(r.attestations, 10);
    }
    assert!(survived);
}

#[test]
fn test_fleet_status_and_detection() {
    let mut rng = rng_from_seed(5);
    // A target of 1 is nearly impossible to stay under: the staggered
    // timestamps alone give a positive composite.
    let config = EvasionConfig { target_score: 1, ..EvasionConfig::default() };
    let mut fleet = EvasiveFleet::new(config, &mut rng).unwrap();
    let status = fleet.get_status();
    assert_eq!(status.epoch, 0);
    assert_eq!(status.nodes, 5);
    assert_eq!(status.target_epochs, 3);
    let result = fleet.execute_epoch(&mut rng);
    assert!(!result.survived);
    assert!(!fleet.running());
    assert!(!fleet.has_survived());
    assert_eq!(fleet.get_status().epoch, 0);
}

#[test]
fn test_config_validation_errors() {
    let good = EvasionConfig::default();
    assert!(good.validate().is_ok());
    let bad_fleet = EvasionConfig { fleet_size: 0, ..good };
    assert_eq!(bad_fleet.validate(), Err(ConfigError::InvalidFleetSize));
    let bad_target = EvasionConfig { target_score: 0, ..good };
    assert_eq!(bad_target.validate(), Err(ConfigError::InvalidTargetScore));
    let big_target = EvasionConfig { target_score: 1001, ..good };
    assert_eq!(big_target.validate(), Err(ConfigError::InvalidTargetScore));
    let bad_pool = EvasionConfig { ip_pool_size: 0, ..good };
    assert_eq!(bad_pool.validate(), Err(ConfigError::InvalidIpPoolSize));
    let bad_epochs = EvasionConfig { min_epochs: 0, ..good };
    assert_eq!(bad_epochs.validate(), Err(ConfigError::InvalidMinEpochs));
    let bad_jitter = EvasionConfig { max_timing_jitter_ms: u64::MAX, ..good };
    assert_eq!(bad_jitter.validate(), Err(ConfigError::JitterTooLarge));
    let mut rng = rng_from_seed(1);
    assert!(EvasiveFleet::new(bad_fleet, &mut rng).is_err());
}

#[test]
fn test_synthetic_ip_format() {
    assert_eq!(generate_synthetic_ip(1, 20), "11.0.1.2");
    assert_eq!(generate_synthetic_ip(0, 20), "10.0.0.1");
    let ip = IpV4 { a: 192, b: 168, c: 0, d: 254 };
    assert_eq!(render_ip(&ip), "192.168.0.254");
}

#[test]
fn test_nodes_get_distinct_initial_ips() {
    let mut rng = rng_from_seed(9);
    let config = EvasionConfig::default();
    let n1 = fleetsim::node::EvasiveNode::new(1, &config, &mut rng);
    let n2 = fleetsim::node::EvasiveNode::new(2, &config, &mut rng);
    assert_ne!(n1.virtual_ip, n2.virtual_ip);
    assert_eq!(n1.node_id, "node_0001");
    assert_eq!(render_node_id(0x1f), "node_001f");
    assert_eq!(render_node_id(0x12345), "node_12345");
}

#[test]
fn test_extract_reward_patterns() {
    assert_eq!(extract_reward("Reward: 150 RTC for this"), Some(150));
    assert_eq!(extract_reward("pays 12RTC"), Some(12));
    assert_eq!(extract_reward("1a22 RTC"), Some(22));
    assert_eq!(extract_reward("no currency 55 USD"), None);
    assert_eq!(extract_reward(""), None);
    assert_eq!(extract_reward("99999999999999999999999999 RTC"), None);
}

#[test]
fn test_difficulty_labels() {
    let labels = vec!["bounty".to_string(), "critical".to_string()];
    assert_eq!(calculate_difficulty(&labels, ""), "Critical - Immediate action needed");
    let labels = vec!["high".to_string()];
    assert_eq!(calculate_difficulty(&labels, "body"), "High - Significant work required");
    let labels: Vec<String> = vec![];
    assert_eq!(calculate_difficulty(&labels, ""), "Unknown - Manual review needed");
}

#[test]
fn test_miner_switch() {
    let mut miner = ScalaDualMiner::new();
    assert!(!miner.is_enabled());
    assert!(miner.start().is_ok());
    assert!(miner.is_enabled());
}
