//! Types of the adaptive decision engine.

use vstd::prelude::*;
use crate::domain::strategy::StrategyType;
use core::time::Duration;
use crate::utils::constants::{COOLDOWN_SECONDS, HIGH_ERROR_RATE, HIGH_LATENCY_MS, MIN_SAMPLES};
use crate::utils::time::{duration_from_secs, duration_nanos, nanos_per_second};

verus! {

/// Thresholds for triggering strategy switches.
#[derive(Debug, Clone, Copy)]
pub struct DecisionThresholds {
    /// Maximum acceptable average response time in milliseconds.
    pub high_latency_ms: u64,
    /// Maximum acceptable error rate, in units of 1/FIXED_POINT_SCALE
    /// (1000 is 10%).
    pub high_error_rate: u64,
    /// Minimum number of requests before making decisions.
    pub min_samples: u64,
    /// Minimum time between strategy switches.
    pub cooldown: Duration,
}

/// The default thresholds: 500 ms, 10%, 10 samples and 60 seconds.
pub open spec fn is_default_thresholds(t: DecisionThresholds) -> bool {
    &&& t.high_latency_ms == HIGH_LATENCY_MS
    &&& t.high_error_rate == HIGH_ERROR_RATE
    &&& t.min_samples == MIN_SAMPLES
    &&& duration_nanos(t.cooldown) == COOLDOWN_SECONDS * nanos_per_second()
}

impl Default for DecisionThresholds {
    fn default() -> (r: Self)
        ensures
            is_default_thresholds(r),
    {
        DecisionThresholds {
            high_latency_ms: HIGH_LATENCY_MS,
            high_error_rate: HIGH_ERROR_RATE,
            min_samples: MIN_SAMPLES,
            cooldown: duration_from_secs(COOLDOWN_SECONDS),
        }
    }
}

/// Reasons for triggering a strategy switch.
#[derive(Debug, Clone, Copy, PartialEq, Eq, Structural)]
pub enum SwitchReason {
    HighLatency,
    HighErrorRate,
}

/// Decision result from evaluating metrics.
#[derive(Debug, Clone, Copy, PartialEq, Eq, Structural)]
pub enum Decision {
    KeepCurrent,
    SwitchTo { strategy: StrategyType, reason: SwitchReason },
}

} // verus!
