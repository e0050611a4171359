use load_balancer::domain::{
    ChangeStrategyResponse, Decision, DecisionThresholds, RequestContext, StrategyResponse,
    StrategyType, SwitchReason, WorkerMetrics, WorkerReply, WorkerResponse, WorkerUrl,
};
use load_balancer::domain::worker_reply;
use load_balancer::utils::constants::{HIGH_ERROR_RATE, HIGH_LATENCY_MS, MIN_SAMPLES};
use load_balancer::LoadBalancerError;

// ---------------------------------------------------------------- decision

#[test]
fn test_default_thresholds() {
    let thresholds = DecisionThresholds::default();
    assert_eq!(thresholds.high_latency_ms, HIGH_LATENCY_MS);
    assert_eq!(thresholds.high_error_rate, HIGH_ERROR_RATE);
    assert_eq!(thresholds.min_samples, MIN_SAMPLES);
    assert_eq!(MIN_SAMPLES, 10);
    assert_eq!(thresholds.cooldown, std::time::Duration::from_secs(60));
}

#[test]
fn test_decision_equality() {
    let decision1 = Decision::KeepCurrent;
    let decision2 = Decision::KeepCurrent;
    assert_eq!(decision1, decision2);

    let decision3 = Decision::SwitchTo {
        strategy: StrategyType::LeastConnections,
        reason: SwitchReason::HighLatency,
    };
    let decision4 = Decision::SwitchTo {
        strategy: StrategyType::LeastConnections,
        reason: SwitchReason::HighLatency,
    };
    assert_eq!(decision3, decision4);
}

#[test]
fn test_switch_reasons() {
    let reason1 = SwitchReason::HighLatency;
    let reason2 = SwitchReason::HighErrorRate;
    assert_ne!(reason1, reason2);
}

#[test]
fn test_custom_thresholds() {
    // 0.15 as a fixed-point error rate is 1500.
    let thresholds = DecisionThresholds {
        high_latency_ms: 1000,
        high_error_rate: 1500,
        min_samples: 20,
        cooldown: std::time::Duration::from_secs(120),
    };
    assert_eq!(thresholds.high_latency_ms, 1000);
    assert_eq!(thresholds.high_error_rate, 1500);
    assert_eq!(thresholds.min_samples, 20);
    assert_eq!(thresholds.cooldown, std::time::Duration::from_secs(120));
}

// ------------------------------------------------------------------- error

#[test]
fn test_invalid_strategy_error() {
    let error = LoadBalancerError::invalid_strategy("invalid_algo");

    assert!(matches!(error, LoadBalancerError::InvalidStrategy { .. }));
    assert_eq!(error.status_code(), hyper::StatusCode::BAD_REQUEST.as_u16());
    assert_eq!(error.user_message(), "Invalid strategy specified");
}

#[test]
fn test_no_workers_available_error() {
    let error = LoadBalancerError::NoWorkersAvailable;

    assert_eq!(error.status_code(), hyper::StatusCode::SERVICE_UNAVAILABLE.as_u16());
    assert_eq!(error.user_message(), "No backend services available");
}

#[test]
fn error_texts_match_their_variants() {
    assert_eq!(
        LoadBalancerError::invalid_strategy("x").to_string(),
        "Invalid load balancing strategy: 'x'. Valid strategies are: round_robin, least_connections"
    );
    assert_eq!(
        LoadBalancerError::configuration("bad").to_string(),
        "Configuration error: bad"
    );
    assert_eq!(LoadBalancerError::not_found("Not found").to_string(), "Resource not found: Not found");
    assert_eq!(LoadBalancerError::internal("boom").status_code(), 500);
    assert_eq!(LoadBalancerError::not_found("x").status_code(), 404);
    assert_eq!(LoadBalancerError::request_validation("x").user_message(), "Invalid request format");
    assert_eq!(
        LoadBalancerError::NoWorkersAvailable.to_string(),
        "No workers available for load balancing"
    );
}

// ----------------------------------------------------------------- metrics

#[test]
fn test_valid_alpha_values() {
    // Coefficients in units of 1/10000: 0.1, 0.5, 1.0 and 0.001.
    assert!(WorkerMetrics::new(1000).is_ok());
    assert!(WorkerMetrics::new(5000).is_ok());
    assert!(WorkerMetrics::new(10000).is_ok());
    assert!(WorkerMetrics::new(10).is_ok());
}

#[test]
fn test_alpha_zero_fails() {
    let result = WorkerMetrics::new(0);
    assert!(result.is_err());
    assert!(result.unwrap_err().to_string().contains("Alpha must be in range"));
}

#[test]
fn test_alpha_negative_fails() {
    let result = WorkerMetrics::new(-1000);
    assert!(result.is_err());
}

#[test]
fn test_alpha_greater_than_one_fails() {
    let result = WorkerMetrics::new(11000);
    assert!(result.is_err());
}

#[test]
fn alpha_error_message_shows_the_value() {
    let message = WorkerMetrics::new(-1000).unwrap_err().to_string();
    assert_eq!(message, "Configuration error: Alpha must be in range (0.0, 1.0], got: -0.1");
    let message = WorkerMetrics::new(11000).unwrap_err().to_string();
    assert_eq!(message, "Configuration error: Alpha must be in range (0.0, 1.0], got: 1.1");
    let message = WorkerMetrics::new(0).unwrap_err().to_string();
    assert_eq!(message, "Configuration error: Alpha must be in range (0.0, 1.0], got: 0");
    let message = WorkerMetrics::new(10001).unwrap_err().to_string();
    assert_eq!(message, "Configuration error: Alpha must be in range (0.0, 1.0], got: 1.0001");
}

#[test]
fn test_initial_state() {
    let metrics = WorkerMetrics::new(1000).unwrap();

    assert_eq!(metrics.get_sample_count(), 0);
    assert_eq!(metrics.get_ema_latency_ms(), 0);
    assert_eq!(metrics.get_ema_error_rate(), 0);
    assert_eq!(metrics.get_alpha(), 1000);
}

#[test]
fn test_request_count_alias() {
    let metrics = WorkerMetrics::new(1000).unwrap();
    assert_eq!(metrics.request_count(), metrics.get_sample_count());
}

#[test]
fn test_average_latency_alias() {
    let metrics = WorkerMetrics::new(1000).unwrap();
    assert_eq!(metrics.average_latency_ms(), metrics.get_ema_latency_ms());
}

#[test]
fn test_increment_sample_count() {
    let mut metrics = WorkerMetrics::new(1000).unwrap();

    assert_eq!(metrics.get_sample_count(), 0);
    metrics.increment_sample_count();
    assert_eq!(metrics.get_sample_count(), 1);
    metrics.increment_sample_count();
    assert_eq!(metrics.get_sample_count(), 2);
}

#[test]
fn test_set_ema_latency() {
    let mut metrics = WorkerMetrics::new(1000).unwrap();

    metrics.set_ema_latency_ms(150);
    assert_eq!(metrics.get_ema_latency_ms(), 150);
}

#[test]
fn test_compare_exchange_latency_success() {
    let mut metrics = WorkerMetrics::new(1000).unwrap();

    metrics.set_ema_latency_ms(100);
    let result = metrics.compare_exchange_ema_latency(100, 200);
    assert!(result.is_ok());
    assert_eq!(metrics.get_ema_latency_ms(), 200);
}

#[test]
fn test_compare_exchange_latency_failure() {
    let mut metrics = WorkerMetrics::new(1000).unwrap();

    metrics.set_ema_latency_ms(100);
    let result = metrics.compare_exchange_ema_latency(99, 200);
    assert!(result.is_err());
    assert_eq!(metrics.get_ema_latency_ms(), 100);
}

#[test]
fn test_compare_exchange_error_rate_success() {
    let mut metrics = WorkerMetrics::new(1000).unwrap();

    metrics.set_ema_error_rate(1000);
    let result = metrics.compare_exchange_ema_error_rate(1000, 2000);
    assert!(result.is_ok());
    assert_eq!(metrics.get_ema_error_rate(), 2000);
}

#[test]
fn compare_exchange_reports_previous_and_actual_values() {
    let mut metrics = WorkerMetrics::new(1000).unwrap();
    metrics.set_ema_error_rate(7);
    assert_eq!(metrics.compare_exchange_ema_error_rate(8, 9), Err(7));
    assert_eq!(metrics.compare_exchange_ema_error_rate(7, 9), Ok(7));
    assert_eq!(metrics.get_ema_error_rate(), 9);
}

#[test]
fn test_default_uses_valid_alpha() {
    let metrics = WorkerMetrics::default();
    assert_eq!(metrics.get_alpha(), 1000);
    assert_eq!(metrics.get_sample_count(), 0);
}

// --------------------------------------------------------- request context

#[test]
fn test_request_context_creation() {
    let ctx = RequestContext::new("GET".to_string(), "/api/test".to_string());

    assert_eq!(ctx.method, "GET");
    assert_eq!(ctx.path, "/api/test");
    assert!(!ctx.request_id.is_empty());
}

#[test]
fn test_request_id_uniqueness() {
    let ctx1 = RequestContext::new("GET".to_string(), "/".to_string());
    let ctx2 = RequestContext::new("GET".to_string(), "/".to_string());

    assert_ne!(ctx1.request_id, ctx2.request_id);
}

#[test]
fn test_request_id_format() {
    let ctx = RequestContext::new("POST".to_string(), "/api/data".to_string());

    let parts: Vec<&str> = ctx.request_id.split('-').collect();
    assert_eq!(parts.len(), 5);
    assert_eq!(parts[0].len(), 8);
    assert_eq!(parts[1].len(), 4);
    assert_eq!(parts[2].len(), 4);
    assert_eq!(parts[3].len(), 4);
    assert_eq!(parts[4].len(), 12);
}

#[test]
fn request_id_is_a_random_uuid() {
    for _ in 0..20 {
        let ctx = RequestContext::new("GET".to_string(), "/".to_string());
        let id: Vec<char> = ctx.request_id.chars().collect();
        assert_eq!(id[14], '4');
        assert!(matches!(id[19], '8' | '9' | 'a' | 'b'));
        assert!(id.iter().all(|c| *c == '-' || c.is_ascii_digit() || ('a'..='f').contains(c)));
    }
}

// ---------------------------------------------------------------- strategy

#[test]
fn test_from_str() {
    assert_eq!(StrategyType::from_str("round_robin").unwrap(), StrategyType::RoundRobin);
    assert_eq!(StrategyType::from_str("least_connections").unwrap(), StrategyType::LeastConnections);
    assert!(StrategyType::from_str("invalid").is_err());
}

#[test]
fn from_str_ignores_case_and_names_round_trip() {
    assert_eq!(StrategyType::from_str("ROUND_Robin").unwrap(), StrategyType::RoundRobin);
    assert_eq!(StrategyType::from_str("Least_Connections").unwrap(), StrategyType::LeastConnections);
    for t in [StrategyType::RoundRobin, StrategyType::LeastConnections] {
        assert_eq!(StrategyType::from_str(t.as_str()).unwrap(), t);
    }
    match StrategyType::from_str("roundrobin") {
        Err(LoadBalancerError::InvalidStrategy { strategy }) => assert_eq!(strategy, "roundrobin"),
        _ => panic!("expected an invalid strategy error"),
    }
}

#[test]
fn admin_responses_carry_the_strategy() {
    let r = StrategyResponse::new(&StrategyType::LeastConnections);
    assert_eq!(r.current_strategy, StrategyType::LeastConnections);
    let c = ChangeStrategyResponse::new(&StrategyType::RoundRobin);
    assert_eq!(c.strategy, StrategyType::RoundRobin);
    assert_eq!(c.message, "Strategy switched to round_robin");
}

// ------------------------------------------------------------------ worker

#[test]
fn valid_http_url_is_accepted() {
    let url = "http://localhost:8080";
    assert!(WorkerUrl::parse(url.to_string()).is_ok());
}

#[test]
fn valid_https_url_is_accepted() {
    let url = "https://example.com:3000";
    assert!(WorkerUrl::parse(url.to_string()).is_ok());
}

#[test]
fn url_with_path_is_accepted() {
    let url = "http://localhost:8080/api/health";
    assert!(WorkerUrl::parse(url.to_string()).is_ok());
}

#[test]
fn empty_string_is_rejected() {
    let url = "";
    assert!(WorkerUrl::parse(url.to_string()).is_err());
}

#[test]
fn url_without_scheme_is_rejected() {
    let url = "localhost:8080";
    assert!(WorkerUrl::parse(url.to_string()).is_err());
}

#[test]
fn url_with_invalid_scheme_is_rejected() {
    let url = "ftp://localhost:8080";
    assert!(WorkerUrl::parse(url.to_string()).is_err());
}

#[test]
fn url_with_only_scheme_is_rejected() {
    let url = "http://";
    assert!(WorkerUrl::parse(url.to_string()).is_err());
}

#[test]
fn url_with_empty_host_is_rejected() {
    let url = "http://   ";
    assert!(WorkerUrl::parse(url.to_string()).is_err());
}

#[test]
fn url_with_unicode_whitespace_host_is_rejected() {
    assert!(WorkerUrl::parse("https://\u{3000}\t\u{2028}".to_string()).is_err());
    assert!(WorkerUrl::parse("https://\u{3000}x".to_string()).is_ok());
    let err = WorkerUrl::parse("nope".to_string()).unwrap_err();
    assert_eq!(err.to_string(), "Invalid worker URL: nope");
}

#[test]
fn as_str_returns_inner_value() {
    let url = WorkerUrl::parse("http://localhost:8080".to_string()).unwrap();
    assert_eq!(url.as_str(), "http://localhost:8080");
}

#[test]
fn into_inner_consumes_and_returns_string() {
    let url = WorkerUrl::parse("http://localhost:8080".to_string()).unwrap();
    let inner = url.into_inner();
    assert_eq!(inner, "http://localhost:8080");
}

#[test]
fn worker_response_holds_its_fields() {
    let r = WorkerResponse::new("hello".to_string(), 3000);
    assert_eq!(r.message, "hello");
    assert_eq!(r.port, 3000);
}

#[test]
fn worker_reports_health() {
    assert!(matches!(worker_reply("/health", "GET", Some("/health"), 3001), WorkerReply::Health { port: 3001 }));
}

#[test]
fn worker_answers_work_quickly() {
    match worker_reply("/work", "POST", Some("/work?job=7"), 3002) {
        WorkerReply::Work { response, delay_ms } => {
            assert_eq!(delay_ms, 10);
            assert_eq!(response.port, 3002);
            assert_eq!(response.message, "worker on port 3002 is processing POST /work?job=7");
        }
        _ => panic!("expected work"),
    }
}

#[test]
fn worker_answers_other_paths_slowly() {
    match worker_reply("/other", "GET", None, 3003) {
        WorkerReply::Work { response, delay_ms } => {
            assert_eq!(delay_ms, 1000);
            assert_eq!(response.message, "worker on port 3003 received GET /");
        }
        _ => panic!("expected a slow answer"),
    }
}

#[test]
fn sample_increments_add_up() {
    let mut metrics = WorkerMetrics::new(1000).unwrap();
    metrics.set_ema_latency_ms(123);
    for _ in 0..1000 {
        metrics.increment_sample_count();
    }
    assert_eq!(metrics.get_sample_count(), 1000);
    assert_eq!(metrics.get_ema_latency_ms(), 123);
    assert_eq!(metrics.error_count(), 0);
    metrics.increment_error_count();
    assert_eq!(metrics.error_count(), 1);
}
