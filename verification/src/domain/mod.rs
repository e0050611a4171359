//! Domain models and types of the load balancer.

mod admin;
mod decision;
mod error;
mod metrics;
mod request_context;
mod strategy;
mod worker;

pub use admin::{
    change_message, ChangeStrategyRequest, ChangeStrategyResponse, DecisionStatusResponse, MetricsResponse,
    StrategyResponse, WorkerMetricsReport,
};
pub use decision::{is_default_thresholds, Decision, DecisionThresholds, SwitchReason};
pub use error::LoadBalancerError;
pub use metrics::{
    after_increments, alpha_error_message as metrics_alpha_error_message, ema_step, incremented,
    lemma_increments_add_up, WorkerMetrics, WorkerMetricsView,
};
pub use request_context::{is_hyphenated_uuid, is_lower_hex, is_random_uuid, RequestContext};
pub use strategy::{lemma_names_are_lowercase_ascii, StrategyType};
pub use worker::{
    host_part, is_white_space, valid_worker_url, validate_worker_url, worker_message, worker_reply, WorkerReply,
    WorkerResponse, WorkerUrl,
};
