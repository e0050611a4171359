use std::time::Duration;

use load_balancer::domain::{Decision, DecisionThresholds, StrategyType, SwitchReason, WorkerUrl};
use load_balancer::load_balancing_strategy::LoadBalancingStrategy;
use load_balancer::routes::proxy::{complete_forward, prepare_forward, worker_request_uri};
use load_balancer::routes::{route_request, Route};
use load_balancer::services::admin::{change_strategy, get_current_strategy, get_decision_status, get_metrics};
use load_balancer::services::shutdown::validate_shutdown_timeout;
use load_balancer::services::{
    cooldown_elapsed, remaining_cooldown_secs, DecisionEngine, LoadBalancerService, MetricsCollector,
};
use load_balancer::utils::config::{
    Config, LoadBalancerConfig, LoggingConfig, ParamValue, ServerConfig, WorkerHost, WorkersConfig,
};
use load_balancer::domain::ChangeStrategyRequest;
use load_balancer::LoadBalancerError;

/// The error rate of a worker as a fraction, as the fixed-point average
/// divided by 10000 (0.0 for an unknown worker).
fn error_rate(c: &MetricsCollector, i: usize) -> f64 {
    c.get_worker_metrics(i).map(|m| m.get_ema_error_rate() as f64 / 10000.0).unwrap_or(0.0)
}

// ----------------------------------------------------------------- metrics

#[test]
fn test_zero_workers_fails() {
    let result = MetricsCollector::new(0);
    assert!(result.is_err());
    assert!(result.unwrap_err().to_string().contains("Worker count must be greater than 0"));
}

#[test]
fn test_invalid_alpha_fails() {
    let result = MetricsCollector::with_alpha(2, 0);
    assert!(result.is_err());

    let result2 = MetricsCollector::with_alpha(2, -1000);
    assert!(result2.is_err());

    let result3 = MetricsCollector::with_alpha(2, 15000);
    assert!(result3.is_err());
}

#[test]
fn test_valid_creation() {
    let collector = MetricsCollector::new(3).unwrap();
    assert_eq!(collector.all_metrics().len(), 3);

    let collector2 = MetricsCollector::with_alpha(2, 5000).unwrap();
    assert_eq!(collector2.all_metrics().len(), 2);
}

#[test]
fn test_ema_latency_updates() {
    let mut collector = MetricsCollector::with_alpha(1, 5000).unwrap();

    collector.record_success(0, Duration::from_millis(100));
    assert_eq!(collector.get_worker_metrics(0).unwrap().request_count(), 1);
    assert_eq!(collector.average_response_time_ms(0).unwrap(), 50);

    collector.record_success(0, Duration::from_millis(200));
    assert_eq!(collector.get_worker_metrics(0).unwrap().request_count(), 2);
    assert_eq!(collector.average_response_time_ms(0).unwrap(), 125);
}

#[test]
fn test_ema_error_rate_updates() {
    let mut collector = MetricsCollector::with_alpha(1, 5000).unwrap();

    collector.record_error(0, Duration::from_millis(100));
    assert_eq!(collector.get_worker_metrics(0).unwrap().request_count(), 1);
    assert_eq!(error_rate(&collector, 0), 0.5);

    collector.record_success(0, Duration::from_millis(100));
    assert_eq!(collector.get_worker_metrics(0).unwrap().request_count(), 2);
    assert_eq!(error_rate(&collector, 0), 0.25);
}

#[test]
fn test_calculations_with_mixed_requests() {
    let mut collector = MetricsCollector::new(1).unwrap();

    collector.record_success(0, Duration::from_millis(100));
    collector.record_success(0, Duration::from_millis(200));
    collector.record_error(0, Duration::from_millis(300));
    collector.record_success(0, Duration::from_millis(400));

    assert_eq!(collector.get_worker_metrics(0).unwrap().request_count(), 4);

    let rate = error_rate(&collector, 0);
    assert!(rate > 0.0 && rate < 1.0, "Expected error rate between 0 and 1, got {}", rate);

    let avg_latency = collector.average_response_time_ms(0).unwrap();
    assert!(avg_latency > 0 && avg_latency < 400, "Expected latency between 0 and 400ms, got {}", avg_latency);
}

#[test]
fn test_multiple_workers_independent() {
    let mut collector = MetricsCollector::new(3).unwrap();

    collector.record_success(0, Duration::from_millis(100));
    collector.record_error(1, Duration::from_millis(200));
    collector.record_success(2, Duration::from_millis(150));

    assert!(error_rate(&collector, 0) < 0.05, "Worker 0 should have very low error rate");
    assert!(error_rate(&collector, 1) > 0.05, "Worker 1 should have elevated error rate");
    assert!(error_rate(&collector, 2) < 0.05, "Worker 2 should have very low error rate");
}

#[test]
fn test_invalid_worker_index_handling() {
    let mut collector = MetricsCollector::new(2).unwrap();

    assert!(collector.get_worker_metrics(2).is_none());
    assert_eq!(error_rate(&collector, 100), 0.0);
    assert_eq!(collector.average_response_time_ms(100), None);

    collector.record_success(5, Duration::from_millis(100));
    collector.record_error(10, Duration::from_millis(100));
}

#[test]
fn test_zero_duration_edge_case() {
    let mut collector = MetricsCollector::new(1).unwrap();

    collector.record_success(0, Duration::ZERO);
    collector.record_success(0, Duration::from_millis(100));

    let avg = collector.average_response_time_ms(0).unwrap();
    assert!(avg < 100, "Average should be less than max sample (100ms), got {}", avg);
}

#[test]
fn ema_steps_have_exact_values() {
    let mut collector = MetricsCollector::new(2).unwrap();
    collector.update_ema_latency(1, 1000);
    assert_eq!(collector.get_worker_metrics(1).unwrap().get_ema_latency_ms(), 100);
    collector.update_ema_latency(1, 1000);
    assert_eq!(collector.get_worker_metrics(1).unwrap().get_ema_latency_ms(), 190);
    collector.update_ema_error_rate(1, 10000);
    assert_eq!(collector.get_worker_metrics(1).unwrap().get_ema_error_rate(), 1000);
    // Updates only count samples through record_success and record_error.
    assert_eq!(collector.get_worker_metrics(1).unwrap().request_count(), 0);
    assert_eq!(collector.get_worker_metrics(0).unwrap().get_ema_latency_ms(), 0);
    // A huge sample does not overflow.
    collector.update_ema_latency(0, u64::MAX);
    assert_eq!(collector.get_worker_metrics(0).unwrap().get_ema_latency_ms(), u64::MAX / 10);
    // A steady sample keeps the average.
    let mut steady = MetricsCollector::with_alpha(1, 10000).unwrap();
    steady.update_ema_latency(0, 42);
    steady.update_ema_latency(0, 42);
    assert_eq!(steady.get_worker_metrics(0).unwrap().get_ema_latency_ms(), 42);
}

// ---------------------------------------------------------- decision engine

fn latency_metrics(workers: usize, samples: usize, ms: u64) -> MetricsCollector {
    let mut metrics = MetricsCollector::new(workers).unwrap();
    for i in 0..workers {
        for _ in 0..samples {
            metrics.record_success(i, Duration::from_millis(ms));
        }
    }
    metrics
}

#[test]
fn test_zero_workers_returns_keep_current() {
    let metrics = MetricsCollector::new(1).unwrap();
    let engine = DecisionEngine::new(StrategyType::RoundRobin);

    let decision = engine.evaluate(&metrics).unwrap();
    assert_eq!(decision, Decision::KeepCurrent);
}

#[test]
fn test_insufficient_samples_no_switch() {
    let mut metrics = MetricsCollector::new(2).unwrap();
    let engine = DecisionEngine::new(StrategyType::RoundRobin);

    metrics.record_success(0, Duration::from_millis(1000));
    metrics.record_success(1, Duration::from_millis(1000));

    let decision = engine.evaluate(&metrics).unwrap();
    assert_eq!(decision, Decision::KeepCurrent);
}

#[test]
fn test_high_latency_majority_triggers_switch() {
    let metrics = latency_metrics(2, 50, 600);
    let engine = DecisionEngine::new(StrategyType::RoundRobin);

    let decision = engine.evaluate(&metrics).unwrap();
    assert_eq!(
        decision,
        Decision::SwitchTo { strategy: StrategyType::LeastConnections, reason: SwitchReason::HighLatency }
    );
}

#[test]
fn test_high_error_rate_majority_triggers_switch() {
    let mut metrics = MetricsCollector::new(2).unwrap();
    let engine = DecisionEngine::new(StrategyType::LeastConnections);

    for i in 0..2 {
        for _ in 0..50 {
            metrics.record_success(i, Duration::from_millis(100));
        }
        for _ in 0..20 {
            metrics.record_error(i, Duration::from_millis(100));
        }
    }

    let decision = engine.evaluate(&metrics).unwrap();
    assert_eq!(
        decision,
        Decision::SwitchTo { strategy: StrategyType::RoundRobin, reason: SwitchReason::HighErrorRate }
    );
}

#[test]
fn test_minority_issues_no_switch() {
    let mut metrics = latency_metrics(3, 30, 100);
    let engine = DecisionEngine::new(StrategyType::RoundRobin);

    for _ in 0..50 {
        metrics.record_success(0, Duration::from_millis(600));
    }

    let decision = engine.evaluate(&metrics).unwrap();
    assert_eq!(decision, Decision::KeepCurrent);
}

#[test]
fn test_already_using_optimal_strategy_no_switch() {
    let metrics = latency_metrics(2, 15, 600);
    let engine = DecisionEngine::new(StrategyType::LeastConnections);

    let decision = engine.evaluate(&metrics).unwrap();
    assert_eq!(decision, Decision::KeepCurrent);
}

#[test]
fn test_rate_limiting_enforced() {
    let metrics = latency_metrics(2, 50, 600);
    let mut engine = DecisionEngine::new(StrategyType::RoundRobin);

    let decision = engine.evaluate(&metrics).unwrap();
    engine.apply_decision(&decision).unwrap();

    assert!(!engine.can_switch().unwrap());

    let decision2 = engine.evaluate(&metrics).unwrap();
    assert_eq!(decision2, Decision::KeepCurrent);
}

#[test]
fn test_single_worker_majority_logic() {
    let metrics = latency_metrics(1, 50, 600);
    let engine = DecisionEngine::new(StrategyType::RoundRobin);

    let decision = engine.evaluate(&metrics).unwrap();
    assert!(matches!(decision, Decision::SwitchTo { .. }));
}

#[test]
fn test_extreme_thresholds() {
    let thresholds = DecisionThresholds { high_latency_ms: 0, high_error_rate: 0, min_samples: 1, cooldown: Duration::from_secs(60) };
    let metrics = latency_metrics(2, 50, 10);
    let engine = DecisionEngine::with_config(StrategyType::RoundRobin, thresholds);

    let decision = engine.evaluate(&metrics).unwrap();
    assert!(matches!(decision, Decision::SwitchTo { .. }));
}

fn troubled_metrics() -> MetricsCollector {
    let mut metrics = MetricsCollector::new(2).unwrap();
    for i in 0..2 {
        for _ in 0..50 {
            metrics.record_success(i, Duration::from_millis(600));
        }
        for _ in 0..20 {
            metrics.record_error(i, Duration::from_millis(600));
        }
    }
    metrics
}

#[test]
fn test_both_conditions_prioritizes_errors() {
    let metrics = troubled_metrics();
    let engine = DecisionEngine::new(StrategyType::LeastConnections);

    let decision = engine.evaluate(&metrics).unwrap();
    assert_eq!(
        decision,
        Decision::SwitchTo { strategy: StrategyType::RoundRobin, reason: SwitchReason::HighErrorRate }
    );
}

#[test]
fn test_both_conditions_already_in_rr_stays_put() {
    let metrics = troubled_metrics();
    let engine = DecisionEngine::new(StrategyType::RoundRobin);

    let decision = engine.evaluate(&metrics).unwrap();
    assert_eq!(decision, Decision::KeepCurrent);
}

#[test]
fn decision_is_stable_once_applied() {
    let metrics = latency_metrics(2, 50, 600);
    let engine = DecisionEngine::new(StrategyType::RoundRobin);
    let decision = engine.evaluate_metrics(&metrics, true);
    assert_eq!(
        decision,
        Decision::SwitchTo { strategy: StrategyType::LeastConnections, reason: SwitchReason::HighLatency }
    );
    let after = DecisionEngine::new(StrategyType::LeastConnections);
    assert_eq!(after.evaluate_metrics(&metrics, true), Decision::KeepCurrent);
    // While switching is not allowed, nothing changes.
    assert_eq!(engine.evaluate_metrics(&metrics, false), Decision::KeepCurrent);
}

#[test]
fn cooldown_arithmetic() {
    assert!(!cooldown_elapsed(59_999_999_999, 60_000_000_000));
    assert!(cooldown_elapsed(60_000_000_000, 60_000_000_000));
    assert_eq!(remaining_cooldown_secs(0, 60_000_000_000), Some(60));
    assert_eq!(remaining_cooldown_secs(500_000_000, 60_000_000_000), Some(59));
    assert_eq!(remaining_cooldown_secs(60_000_000_000, 60_000_000_000), None);
    let engine = DecisionEngine::new(StrategyType::RoundRobin);
    assert_eq!(engine.cooldown_remaining_seconds().unwrap(), None);
    assert!(engine.can_switch().unwrap());
    assert!(engine.last_switch_time().unwrap().is_none());
    assert_eq!(engine.current_strategy().unwrap(), StrategyType::RoundRobin);
}

#[test]
fn cooldown_runs_after_a_switch() {
    let mut engine = DecisionEngine::new(StrategyType::RoundRobin);
    let switch = Decision::SwitchTo { strategy: StrategyType::LeastConnections, reason: SwitchReason::HighLatency };
    engine.apply_decision(&switch).unwrap();
    assert_eq!(engine.current_strategy().unwrap(), StrategyType::LeastConnections);
    let left = engine.cooldown_remaining_seconds().unwrap();
    assert!(left.is_some() && left.unwrap() <= 60);
    assert!(engine.last_switch_time().unwrap().is_some());
}

// ------------------------------------------------------- load balancer service

fn two_workers() -> Vec<WorkerUrl> {
    vec![
        WorkerUrl::parse("http://localhost:3001".to_string()).unwrap(),
        WorkerUrl::parse("http://localhost:3002".to_string()).unwrap(),
    ]
}

#[test]
fn test_load_balancer_non_adaptive_no_switch() {
    let strategy = LoadBalancingStrategy::new_round_robin();
    let mut lb = LoadBalancerService::with_adaptive(two_workers(), strategy, false)
        .expect("should create load balancer");

    assert!(!lb.is_adaptive(), "Adaptive mode should be disabled");
    assert!(lb.decision_engine().is_none(), "Should not have decision engine");

    for _ in 0..20 {
        lb.record_success(0, Duration::from_millis(700));
        lb.record_success(1, Duration::from_millis(800));
    }

    lb.evaluate_and_adapt().expect("should succeed even without engine");

    assert_eq!(lb.get_strategy_name(), "round_robin", "Strategy should remain unchanged");
}

#[test]
fn test_load_balancer_worker_hosts_integration() {
    let strategy = LoadBalancingStrategy::new_round_robin();
    let lb = LoadBalancerService::new(two_workers(), strategy).expect("should create load balancer");

    let hosts = lb.worker_hosts();
    assert_eq!(hosts.len(), 2);
    assert_eq!(hosts[0].as_str(), "http://localhost:3001");
    assert_eq!(hosts[1].as_str(), "http://localhost:3002");
}

#[test]
fn test_load_balancer_adaptive_integration() {
    let strategy = LoadBalancingStrategy::new_round_robin();
    let mut lb = LoadBalancerService::with_adaptive(two_workers(), strategy, true).unwrap();
    assert!(lb.is_adaptive());
    assert_eq!(lb.get_strategy_name(), "round_robin");
    for _ in 0..20 {
        lb.record_success(0, Duration::from_millis(700));
        lb.record_success(1, Duration::from_millis(800));
    }
    lb.evaluate_and_adapt().unwrap();
    assert_eq!(lb.get_strategy_name(), "least_connections");
    let engine = lb.decision_engine().unwrap();
    assert!(!engine.can_switch().unwrap());
    assert_eq!(engine.current_strategy().unwrap(), StrategyType::LeastConnections);
    let cooldown = engine.cooldown_remaining_seconds().unwrap();
    assert!(cooldown.is_some() && cooldown.unwrap() <= 60);
    // A fresh least connections strategy starts at the first worker.
    assert_eq!(lb.select_worker().unwrap().0, 0);
}

#[test]
fn service_construction_errors() {
    assert!(LoadBalancerService::new(vec![], LoadBalancingStrategy::new_round_robin()).is_err());
    let bad_alpha = LoadBalancerService::with_adaptive_config(
        two_workers(),
        LoadBalancingStrategy::new_round_robin(),
        true,
        DecisionThresholds::default(),
        0,
    );
    assert!(bad_alpha.is_err());
    let ok = LoadBalancerService::with_adaptive_config(
        two_workers(),
        LoadBalancingStrategy::new_round_robin(),
        true,
        DecisionThresholds { high_latency_ms: 300, high_error_rate: 1500, min_samples: 5, cooldown: Duration::from_secs(30) },
        1000,
    )
    .unwrap();
    assert_eq!(ok.metrics_collector().all_metrics().len(), 2);
}

#[test]
fn service_selects_round_robin_and_tracks_connections() {
    let mut lb = LoadBalancerService::new(two_workers(), LoadBalancingStrategy::new_round_robin()).unwrap();
    let (i, url) = lb.select_worker().unwrap();
    assert_eq!((i, url.as_str()), (0, "http://localhost:3001"));
    let (i, url) = lb.select_worker().unwrap();
    assert_eq!((i, url.as_str()), (1, "http://localhost:3002"));
    lb.set_strategy(LoadBalancingStrategy::new_least_connections(2).unwrap());
    lb.connection_started(0);
    assert_eq!(lb.select_worker().unwrap().0, 1);
    lb.connection_ended(0);
    assert_eq!(lb.select_worker().unwrap().0, 0);
    // A strategy sized for other workers is refused at selection.
    lb.set_strategy(LoadBalancingStrategy::new_least_connections(3).unwrap());
    assert!(matches!(lb.select_worker(), Err(LoadBalancerError::Configuration { .. })));
}

// ------------------------------------------------------------------- admin

#[test]
fn admin_reads_and_changes_the_strategy() {
    let mut lb = LoadBalancerService::new(two_workers(), LoadBalancingStrategy::new_round_robin()).unwrap();
    assert_eq!(get_current_strategy(&lb).unwrap().current_strategy, StrategyType::RoundRobin);
    let resp = change_strategy(&mut lb, &ChangeStrategyRequest { strategy: StrategyType::LeastConnections }).unwrap();
    assert_eq!(resp.message, "Strategy switched to least_connections");
    assert_eq!(resp.strategy, StrategyType::LeastConnections);
    assert_eq!(get_current_strategy(&lb).unwrap().current_strategy, StrategyType::LeastConnections);
    lb.connection_started(0);
    // Asking for the strategy in use keeps its state.
    change_strategy(&mut lb, &ChangeStrategyRequest { strategy: StrategyType::LeastConnections }).unwrap();
    assert_eq!(lb.select_worker().unwrap().0, 1);
    change_strategy(&mut lb, &ChangeStrategyRequest { strategy: StrategyType::RoundRobin }).unwrap();
    assert_eq!(lb.get_strategy_name(), "round_robin");
}

// ------------------------------------------------------------------ routes

#[test]
fn requests_are_routed_by_method_and_path() {
    assert_eq!(route_request("GET", "/admin/strategy"), Route::GetStrategy);
    assert_eq!(route_request("POST", "/admin/strategy"), Route::ChangeStrategy);
    assert_eq!(route_request("DELETE", "/admin/strategy"), Route::AdminNotFound);
    assert_eq!(route_request("GET", "/admin/other"), Route::AdminNotFound);
    assert_eq!(route_request("GET", "/adminx"), Route::AdminNotFound);
    assert_eq!(route_request("GET", "/work"), Route::Proxy);
    assert_eq!(route_request("POST", "/"), Route::Proxy);
}

#[test]
fn forwarding_builds_uris_and_records_outcomes() {
    let mut lb = LoadBalancerService::new(two_workers(), LoadBalancingStrategy::new_round_robin()).unwrap();
    let (i, uri) = prepare_forward(&mut lb, Some("/work?x=1")).unwrap();
    assert_eq!((i, uri.as_str()), (0, "http://localhost:3001/work?x=1"));
    let (j, uri) = prepare_forward(&mut lb, None).unwrap();
    assert_eq!((j, uri.as_str()), (1, "http://localhost:3002/"));
    complete_forward(&mut lb, i, Some(200), Duration::from_millis(100));
    complete_forward(&mut lb, j, Some(503), Duration::from_millis(100));
    complete_forward(&mut lb, j, None, Duration::from_millis(100));
    let m = lb.metrics_collector();
    assert_eq!(m.get_worker_metrics(0).unwrap().request_count(), 1);
    assert_eq!(m.get_worker_metrics(0).unwrap().get_ema_error_rate(), 0);
    assert_eq!(m.get_worker_metrics(1).unwrap().request_count(), 2);
    assert_eq!(m.get_worker_metrics(1).unwrap().get_ema_error_rate(), 1900);
}

// ------------------------------------------------------------------ shutdown

#[test]
fn shutdown_timeout_must_be_positive() {
    assert_eq!(validate_shutdown_timeout(30).unwrap(), 30);
    let err = validate_shutdown_timeout(0).unwrap_err();
    assert!(err.to_string().contains("at least 1 seconds"));
    assert_eq!(err.to_string(), "Configuration error: Shutdown timeout must be at least 1 seconds, got 0");
}

// ------------------------------------------------------------------ config

#[test]
fn test_config_validation() {
    let config = LoadBalancerConfig {
        server: ServerConfig {
            port: 8080,
            host: "0.0.0.0".to_string(),
            strategy: "round_robin".to_string(),
        },
        workers: WorkersConfig {
            hosts: vec![WorkerHost { url: "http://localhost:3000".to_string(), enabled: true }],
        },
        logging: LoggingConfig { level: "info".to_string() },
    };

    assert!(config.validate().is_ok());
}

#[test]
fn section_rules_and_cli_defaults() {
    let server = ServerConfig { port: 80, host: "h".to_string(), strategy: "s".to_string() };
    assert!(server.validate().is_err());
    let server = ServerConfig { port: 8080, host: "".to_string(), strategy: "s".to_string() };
    assert!(server.validate().is_err());
    assert!(WorkersConfig { hosts: vec![] }.validate().is_err());
    assert!(WorkerHost { url: "http://localhost:3000".to_string(), enabled: true }.validate().is_ok());
    assert!(WorkerHost { url: "not a url".to_string(), enabled: true }.validate().is_err());

    let cli = Config {
        port: 1337,
        host: "127.0.0.1".to_string(),
        workers: vec![],
        config: None,
        strategy: "least_connections".to_string(),
        log_level: "info".to_string(),
    };
    let config = Config::parse_config(cli, None).unwrap();
    assert_eq!(config.server.port, 1337);
    assert_eq!(config.workers.hosts.len(), 2);
    assert_eq!(config.workers.hosts[0].url, "http://localhost:3000");
    assert_eq!(config.workers.hosts[1].url, "http://localhost:3001");

    let cli = Config {
        port: 1337,
        host: "127.0.0.1".to_string(),
        workers: vec!["http://a:1".to_string()],
        config: None,
        strategy: "round_robin".to_string(),
        log_level: "debug".to_string(),
    };
    let config = Config::from_cli(cli).unwrap();
    assert_eq!(config.workers.hosts.len(), 1);
    assert_eq!(config.workers.hosts[0].url, "http://a:1");
    assert!(config.workers.hosts[0].enabled);
    assert_eq!(config.logging.level, "debug");
}

#[test]
fn zero_cooldown_never_blocks_a_switch() {
    let thresholds = DecisionThresholds { high_latency_ms: 0, high_error_rate: 0, min_samples: 1, cooldown: Duration::from_secs(0) };
    let mut engine = DecisionEngine::with_config(StrategyType::RoundRobin, thresholds);
    engine
        .apply_decision(&Decision::SwitchTo {
            strategy: StrategyType::LeastConnections,
            reason: SwitchReason::HighLatency,
        })
        .unwrap();
    assert_eq!(engine.can_switch().unwrap(), true);
    assert_eq!(engine.cooldown_remaining_seconds().unwrap(), None);
}

#[test]
fn long_cooldown_blocks_right_after_a_switch() {
    let thresholds = DecisionThresholds { high_latency_ms: 0, high_error_rate: 0, min_samples: 1, cooldown: Duration::from_secs(3600) };
    let mut engine = DecisionEngine::with_config(StrategyType::RoundRobin, thresholds);
    assert_eq!(engine.can_switch().unwrap(), true);
    assert_eq!(engine.cooldown_remaining_seconds().unwrap(), None);
    engine
        .apply_decision(&Decision::SwitchTo {
            strategy: StrategyType::LeastConnections,
            reason: SwitchReason::HighLatency,
        })
        .unwrap();
    assert_eq!(engine.can_switch().unwrap(), false);
    let left = engine.cooldown_remaining_seconds().unwrap().unwrap();
    assert!(left >= 3590 && left <= 3600);
}

#[test]
fn ten_samples_per_worker_are_enough_to_switch() {
    // Two workers with ten slow requests each: a majority with high latency.
    let metrics = latency_metrics(2, 10, 1000);
    let engine = DecisionEngine::new(StrategyType::RoundRobin);
    assert_eq!(
        engine.evaluate(&metrics).unwrap(),
        Decision::SwitchTo { strategy: StrategyType::LeastConnections, reason: SwitchReason::HighLatency }
    );
}

#[test]
fn admin_metrics_and_decision_status_are_routed() {
    assert_eq!(route_request("GET", "/admin/metrics"), Route::Metrics);
    assert_eq!(route_request("GET", "/admin/decision-status"), Route::DecisionStatus);
    assert_eq!(route_request("POST", "/admin/metrics"), Route::AdminNotFound);
}

#[test]
fn metrics_report_counts_requests_and_errors() {
    let workers = vec![
        WorkerUrl::parse("http://localhost:3001".to_string()).unwrap(),
        WorkerUrl::parse("http://localhost:3002".to_string()).unwrap(),
        WorkerUrl::parse("http://localhost:3003".to_string()).unwrap(),
    ];
    let mut lb = LoadBalancerService::new(workers, LoadBalancingStrategy::new_round_robin()).unwrap();
    assert_eq!(lb.metrics_collector().all_metrics().len(), 3);
    lb.record_success(0, Duration::from_millis(100));
    lb.record_success(0, Duration::from_millis(150));
    lb.record_error(0, Duration::from_millis(200));
    lb.record_success(1, Duration::from_millis(50));
    lb.record_error(1, Duration::from_millis(100));
    lb.record_success(2, Duration::from_millis(80));
    lb.record_success(2, Duration::from_millis(90));
    let worker0 = lb.metrics_collector().get_worker_metrics(0).unwrap();
    assert_eq!(worker0.request_count(), 3);
    assert_eq!(worker0.error_count(), 1);
    let worker1 = lb.metrics_collector().get_worker_metrics(1).unwrap();
    assert_eq!(worker1.request_count(), 2);
    assert_eq!(worker1.error_count(), 1);

    let report = get_metrics(&lb);
    assert_eq!(report.workers.len(), 3);
    let w0 = &report.workers[0];
    assert_eq!(w0.index, 0);
    assert_eq!(w0.url, "http://localhost:3001");
    assert_eq!(w0.total_requests, 3);
    assert_eq!(w0.error_count, 1);
    // error average with alpha 0.1: 0, 0, then 0.1
    assert_eq!(w0.error_rate, 1000);
    // latency average: 10, 24, 41 (each step truncated)
    assert_eq!(w0.avg_latency_ms, 41);
    assert_eq!(report.workers[2].error_count, 0);
}

#[test]
fn decision_status_reports_adaptive_switching() {
    let lb = LoadBalancerService::new(two_workers(), LoadBalancingStrategy::new_round_robin()).unwrap();
    let status = get_decision_status(&lb);
    assert!(!status.adaptive_enabled);
    assert_eq!(status.current_strategy, StrategyType::RoundRobin);
    assert!(!status.can_switch);
    assert_eq!(status.cooldown_remaining_seconds, None);
    assert_eq!(status.last_switch_reason, None);

    let mut lb = LoadBalancerService::with_adaptive(two_workers(), LoadBalancingStrategy::new_round_robin(), true).unwrap();
    let status = get_decision_status(&lb);
    assert!(status.adaptive_enabled && status.can_switch);
    assert_eq!(status.last_switch_reason, None);
    for _ in 0..20 {
        lb.record_success(0, Duration::from_millis(700));
        lb.record_success(1, Duration::from_millis(800));
    }
    lb.evaluate_and_adapt().unwrap();
    let status = get_decision_status(&lb);
    assert_eq!(status.current_strategy, StrategyType::LeastConnections);
    assert!(!status.can_switch);
    assert!(status.cooldown_remaining_seconds.unwrap() <= 60);
    assert_eq!(status.last_switch_reason, Some(SwitchReason::HighLatency));
}

#[test]
fn keeping_the_strategy_leaves_the_engine_unchanged() {
    let mut engine = DecisionEngine::new(StrategyType::RoundRobin);
    engine.apply_decision(&Decision::KeepCurrent).unwrap();
    assert!(engine.last_switch_time().unwrap().is_none());
    assert_eq!(engine.last_switch_reason(), None);
    engine
        .apply_decision(&Decision::SwitchTo { strategy: StrategyType::LeastConnections, reason: SwitchReason::HighLatency })
        .unwrap();
    let first = engine.last_switch_time().unwrap().unwrap();
    engine.apply_decision(&Decision::KeepCurrent).unwrap();
    assert_eq!(engine.last_switch_time().unwrap(), Some(first));
    assert_eq!(engine.last_switch_reason(), Some(SwitchReason::HighLatency));
}

#[test]
fn error_rates_stay_rates() {
    let mut metrics = MetricsCollector::with_alpha(1, 10000).unwrap();
    for _ in 0..50 {
        metrics.record_error(0, Duration::from_millis(5));
        assert!(metrics.get_worker_metrics(0).unwrap().get_ema_error_rate() <= 10000);
    }
    assert_eq!(metrics.get_worker_metrics(0).unwrap().get_ema_error_rate(), 10000);
    assert_eq!(metrics.get_worker_metrics(0).unwrap().error_count(), 50);
}

#[test]
fn sub_second_cooldown_is_kept_exactly() {
    assert!(!cooldown_elapsed(499_999_999, 500_000_000));
    assert!(cooldown_elapsed(500_000_000, 500_000_000));
    assert_eq!(remaining_cooldown_secs(0, 1_500_000_000), Some(1));
}

fn number(p: &(String, ParamValue)) -> Option<u64> {
    match p.1 {
        ParamValue::Number(n) => Some(n),
        _ => None,
    }
}

#[test]
fn section_validation_reports_every_failed_rule() {
    let server = ServerConfig { port: 80, host: "".to_string(), strategy: "s".to_string() };
    let e = server.validate().unwrap_err();
    assert_eq!(e.fields.len(), 2);
    let (name, port) = &e.fields[0];
    assert_eq!(name, "port");
    assert_eq!(port.code, "range");
    assert_eq!(port.message, None);
    let names: Vec<&str> = port.params.iter().map(|p| p.0.as_str()).collect();
    assert_eq!(names, vec!["min", "max", "value"]);
    let values: Vec<Option<u64>> = port.params.iter().map(number).collect();
    assert_eq!(values, vec![Some(1024), Some(65535), Some(80)]);
    let (name, host) = &e.fields[1];
    assert_eq!(name, "host");
    assert_eq!(host.code, "length");
    assert!(matches!(&host.params[1].1, ParamValue::Text(t) if t.is_empty()));

    let e = WorkersConfig { hosts: vec![] }.validate().unwrap_err();
    assert_eq!(e.fields[0].0, "hosts");
    assert_eq!(e.fields[0].1.code, "length");
    assert_eq!(e.fields[0].1.message.as_deref(), Some("At least one worker must be configured"));
    assert!(matches!(e.fields[0].1.params[1].1, ParamValue::EmptyList));

    let e = WorkerHost { url: "not a url".to_string(), enabled: true }.validate().unwrap_err();
    assert_eq!(e.fields[0].0, "url");
    assert_eq!(e.fields[0].1.code, "url");
    assert_eq!(e.fields[0].1.message.as_deref(), Some("Worker host must be a valid URL"));
    assert!(matches!(&e.fields[0].1.params[0].1, ParamValue::Text(t) if t == "not a url"));
}

#[test]
fn strategy_names_are_read_ignoring_ascii_case() {
    assert_eq!(StrategyType::from_str("ROUND_ROBIN").unwrap(), StrategyType::RoundRobin);
    assert_eq!(StrategyType::from_str("Least_Connections").unwrap(), StrategyType::LeastConnections);
    assert!(StrategyType::from_str("invalid").is_err());
}

#[test]
fn worker_uris_are_parsed() {
    let uri = worker_request_uri("http://localhost:3000/work?x=1").unwrap();
    assert_eq!(uri.path(), "/work");
    assert_eq!(uri.query(), Some("x=1"));
    match worker_request_uri("http://bad host/") {
        Err(LoadBalancerError::Internal { message }) => {
            assert!(message.starts_with("Invalid worker URI http://bad host/: "));
            assert!(message.len() > "Invalid worker URI http://bad host/: ".len());
        }
        other => panic!("expected an internal error, got {:?}", other.map(|u| u.to_string())),
    }
}
