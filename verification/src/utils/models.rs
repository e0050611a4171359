//! Plain data models of the JSON messages exchanged with workers and the
//! administrative API, with the strategy as text.

use vstd::prelude::*;

verus! {

/// Worker health status response.
pub struct WorkerHealthResponse {
    pub status: String,
    pub port: u16,
}

/// Worker processing response.
pub struct WorkerResponse {
    pub message: String,
    pub port: u16,
}

/// Request body for changing the load balancing strategy.
#[derive(Debug)]
pub struct ChangeStrategyRequest {
    pub strategy: String,
}

/// Response for getting the current strategy.
#[derive(Debug)]
pub struct StrategyResponse {
    pub current_strategy: String,
}

/// Response for changing the strategy.
#[derive(Debug)]
pub struct ChangeStrategyResponse {
    /// Success message.
    pub message: String,
    /// Name of the activated strategy.
    pub strategy: String,
}

/// Standard error response for API endpoints.
#[derive(Debug)]
pub struct ErrorResponse {
    /// Brief error description.
    pub error: String,
    /// Optional detailed error information.
    pub details: Option<String>,
}

} // verus!
