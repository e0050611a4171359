//! Services: metrics collection, the decision engine, the load balancer
//! service and the administrative operations.

pub mod admin;
mod decision_engine;
mod load_balancer;
mod metrics;
pub mod shutdown;

pub use decision_engine::{
    cooldown_elapsed, decide, decision_since, high_error_rate_count, high_latency_count,
    is_high_error_rate, is_high_latency, lemma_cooldown_keeps_strategy, lemma_decision_is_stable,
    lemma_errors_take_priority, lemma_minority_keeps_strategy, lemma_no_switch_within_cooldown,
    lemma_switch_is_justified, lemma_troubled_workers_have_enough_samples, lemma_undersampled_workers_are_ignored,
    lemma_majority_is_more_than_half, lemma_default_thresholds,
    majority, remaining_cooldown_secs, strategy_after,
    total_samples, DecisionEngine,
};
pub use metrics::{
    duration_millis, lemma_ema_bounded, lemma_error_rate_stays_a_rate, lemma_record_keeps_rates_in_range,
    lemma_record_touches_one_worker, lemma_steady_samples_keep_average, rates_in_range, record_sample,
    MetricsCollector,
};
pub use load_balancer::{is_fresh_strategy, LoadBalancerService};
pub use crate::utils::time::{duration_nanos, nanos_per_second};
