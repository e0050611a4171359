//! Messages of the administrative API.

use vstd::prelude::*;
use vstd::string::*;
use crate::domain::decision::SwitchReason;
use crate::domain::strategy::StrategyType;

verus! {

/// Request to change the load balancing strategy.
#[derive(Debug)]
pub struct ChangeStrategyRequest {
    pub strategy: StrategyType,
}

/// Response showing the current strategy.
#[derive(Debug)]
pub struct StrategyResponse {
    pub current_strategy: StrategyType,
}

impl StrategyResponse {
    pub fn new(strategy: &StrategyType) -> (r: Self)
        ensures
            r.current_strategy == *strategy,
    {
        StrategyResponse { current_strategy: *strategy }
    }
}

/// The message that confirms a strategy change.
pub open spec fn change_message(strategy: StrategyType) -> Seq<char> {
    "Strategy switched to "@ + strategy.name()
}

/// Response after a successful strategy change.
#[derive(Debug)]
pub struct ChangeStrategyResponse {
    pub message: String,
    pub strategy: StrategyType,
}

impl ChangeStrategyResponse {
    pub fn new(strategy: &StrategyType) -> (r: Self)
        ensures
            r.strategy == *strategy,
            r.message@ == change_message(*strategy),
    {
        let mut message = String::from_str("Strategy switched to ");
        message.append(strategy.as_str());
        ChangeStrategyResponse { message, strategy: *strategy }
    }
}

/// One worker in the metrics report.
#[derive(Debug)]
pub struct WorkerMetricsReport {
    /// Position of the worker in the pool.
    pub index: usize,
    /// URL of the worker.
    pub url: String,
    /// Requests recorded for the worker.
    pub total_requests: u64,
    /// Failed requests among them.
    pub error_count: u64,
    /// Moving average of the error rate, in units of 1/FIXED_POINT_SCALE.
    pub error_rate: u64,
    /// Moving average of the response time in milliseconds.
    pub avg_latency_ms: u64,
}

/// Response of the metrics endpoint: one entry per worker.
#[derive(Debug)]
pub struct MetricsResponse {
    pub workers: Vec<WorkerMetricsReport>,
}

/// Response of the decision status endpoint.
#[derive(Debug)]
pub struct DecisionStatusResponse {
    /// Whether the strategy adapts to the metrics.
    pub adaptive_enabled: bool,
    /// The strategy in use.
    pub current_strategy: StrategyType,
    /// Whether a switch is allowed now (the cooldown is over).
    pub can_switch: bool,
    /// Whole seconds left of the cooldown, if one is running.
    pub cooldown_remaining_seconds: Option<u64>,
    /// Why the strategy was last switched, if it ever was.
    pub last_switch_reason: Option<SwitchReason>,
}

} // verus!
