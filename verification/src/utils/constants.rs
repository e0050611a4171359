//! Constants shared across the load balancer.

use vstd::prelude::*;

verus! {

/// Fixed-point scaling factor for fractional values stored as integers
/// (the EMA coefficient and the error rate): 10000 stands for 1.0.
pub const FIXED_POINT_SCALE: u32 = 10000;

/// Content-Type value for JSON bodies.
pub const APPLICATION_JSON: &'static str = "application/json";

/// Content-Type value for plain text bodies.
pub const TEXT_PLAIN: &'static str = "text/plain";

/// Default threshold for high latency detection, in milliseconds.
pub const HIGH_LATENCY_MS: u64 = 500;

/// Default threshold for high error rate detection, in units of
/// 1/FIXED_POINT_SCALE (1000 is 10%).
pub const HIGH_ERROR_RATE: u64 = 1000;

/// Default minimum number of samples before decisions are made.
pub const MIN_SAMPLES: u64 = 10;

/// Default cooldown between strategy switches, in seconds.
pub const COOLDOWN_SECONDS: u64 = 60;

/// Default evaluation interval of the adaptive mode, in seconds.
pub const EVALUATION_INTERVAL_SECONDS: u64 = 5;

/// Default EMA coefficient, in units of 1/FIXED_POINT_SCALE (1000 is 0.1).
pub const EMA_ALPHA: i64 = 1000;

} // verus!
