//! Performance metrics of one worker, kept as exponential moving averages.

use vstd::prelude::*;
use vstd::string::*;
use crate::domain::error::LoadBalancerError;
use crate::utils::constants::FIXED_POINT_SCALE;
use crate::utils::text::{fixed_point_text, push_fixed_point};

verus! {

/// One step of the exponential moving average in fixed point:
/// `(alpha * sample + (SCALE - alpha) * old) / SCALE`.
pub open spec fn ema_step(alpha: int, sample: int, old: int) -> int {
    (alpha * sample + (FIXED_POINT_SCALE - alpha) * old) / (FIXED_POINT_SCALE as int)
}

/// The values a worker's metrics hold.
pub struct WorkerMetricsView {
    /// Moving average of the response time in milliseconds.
    pub ema_latency_ms: u64,
    /// Moving average of the error rate, in units of 1/FIXED_POINT_SCALE.
    pub ema_error_rate: u64,
    /// Number of samples recorded.
    pub sample_count: u64,
    /// Number of those samples that were failed requests.
    pub error_count: u64,
    /// EMA coefficient, in units of 1/FIXED_POINT_SCALE.
    pub alpha: u32,
}

/// Performance metrics for an individual worker.
#[derive(Debug)]
pub struct WorkerMetrics {
    ema_latency_ms: u64,
    ema_error_rate: u64,
    sample_count: u64,
    error_count: u64,
    alpha: u32,
}

impl View for WorkerMetrics {
    type V = WorkerMetricsView;

    closed spec fn view(&self) -> WorkerMetricsView {
        WorkerMetricsView {
            ema_latency_ms: self.ema_latency_ms,
            ema_error_rate: self.ema_error_rate,
            sample_count: self.sample_count,
            error_count: self.error_count,
            alpha: self.alpha,
        }
    }
}

/// The metrics after one more sample was counted (the count wraps around at
/// `u64::MAX`); nothing else changes.
pub open spec fn incremented(m: WorkerMetricsView) -> WorkerMetricsView {
    WorkerMetricsView {
        sample_count: if m.sample_count == u64::MAX {
            0
        } else {
            (m.sample_count + 1) as u64
        },
        ..m
    }
}

/// The metrics after `k` more samples were counted one by one.
pub open spec fn after_increments(m: WorkerMetricsView, k: nat) -> WorkerMetricsView
    decreases k,
{
    if k == 0 {
        m
    } else {
        incremented(after_increments(m, (k - 1) as nat))
    }
}

/// No count is lost: `k` increments of the sample count add `k` to it
/// (short of wrapping around) and leave the averages, the error count and
/// the coefficient as they were.
pub proof fn lemma_increments_add_up(m: WorkerMetricsView, k: nat)
    requires
        m.sample_count + k <= u64::MAX,
    ensures
        after_increments(m, k) == (WorkerMetricsView { sample_count: (m.sample_count + k) as u64, ..m }),
    decreases k,
{
    if k > 0 {
        lemma_increments_add_up(m, (k - 1) as nat);
    }
}

/// The message of the error that refuses an EMA coefficient.
pub open spec fn alpha_error_message(alpha: int) -> Seq<char> {
    "Alpha must be in range (0.0, 1.0], got: "@ + fixed_point_text(alpha)
}

impl WorkerMetrics {
    /// The coefficient lies in (0, FIXED_POINT_SCALE].
    #[verifier::type_invariant]
    spec fn alpha_in_range(self) -> bool {
        0 < self.alpha <= FIXED_POINT_SCALE
    }

    /// Create new metrics with a validated EMA coefficient, given in units of
    /// 1/FIXED_POINT_SCALE (1000 is 0.1). It must lie in (0, 1].
    pub fn new(alpha: i64) -> (r: Result<Self, LoadBalancerError>)
        ensures
            (0 < alpha <= FIXED_POINT_SCALE) <==> r is Ok,
            r matches Ok(m) ==> m@ == (WorkerMetricsView {
                ema_latency_ms: 0,
                ema_error_rate: 0,
                sample_count: 0,
                error_count: 0,
                alpha: alpha as u32,
            }),
            r matches Err(e) ==> e matches LoadBalancerError::Configuration { message }
                && message@ == alpha_error_message(alpha as int),
    {
        if alpha <= 0 || alpha > FIXED_POINT_SCALE as i64 {
            let mut message = String::from_str("Alpha must be in range (0.0, 1.0], got: ");
            push_fixed_point(&mut message, alpha);
            return Err(LoadBalancerError::Configuration { message });
        }
        Ok(WorkerMetrics { ema_latency_ms: 0, ema_error_rate: 0, sample_count: 0, error_count: 0, alpha: alpha as u32 })
    }

    pub fn get_sample_count(&self) -> (r: u64)
        ensures
            r == self@.sample_count,
    {
        self.sample_count
    }

    /// Current moving average of the latency in milliseconds.
    pub fn get_ema_latency_ms(&self) -> (r: u64)
        ensures
            r == self@.ema_latency_ms,
    {
        self.ema_latency_ms
    }

    /// Current moving average of the error rate, in units of 1/FIXED_POINT_SCALE.
    pub fn get_ema_error_rate(&self) -> (r: u64)
        ensures
            r == self@.ema_error_rate,
    {
        self.ema_error_rate
    }

    /// EMA coefficient, in units of 1/FIXED_POINT_SCALE.
    pub fn get_alpha(&self) -> (r: u32)
        ensures
            r == self@.alpha,
            0 < r <= FIXED_POINT_SCALE,
    {
        proof {
            use_type_invariant(self);
        }
        self.alpha
    }

    /// Count one more sample (wrapping around at `u64::MAX`).
    pub fn increment_sample_count(&mut self)
        ensures
            final(self)@ == incremented(old(self)@),
    {
        proof {
            use_type_invariant(&*self);
        }
        self.sample_count = self.sample_count.wrapping_add(1);
    }

    /// Count one more failed request (wrapping around at `u64::MAX`).
    pub fn increment_error_count(&mut self)
        ensures
            final(self)@ == (WorkerMetricsView {
                error_count: if old(self)@.error_count == u64::MAX {
                    0
                } else {
                    (old(self)@.error_count + 1) as u64
                },
                ..old(self)@
            }),
    {
        proof {
            use_type_invariant(&*self);
        }
        self.error_count = self.error_count.wrapping_add(1);
    }

    /// Number of failed requests recorded.
    pub fn error_count(&self) -> (r: u64)
        ensures
            r == self@.error_count,
    {
        self.error_count
    }

    pub fn set_ema_latency_ms(&mut self, value: u64)
        ensures
            final(self)@ == (WorkerMetricsView { ema_latency_ms: value, ..old(self)@ }),
    {
        proof {
            use_type_invariant(&*self);
        }
        self.ema_latency_ms = value;
    }

    pub fn set_ema_error_rate(&mut self, value: u64)
        ensures
            final(self)@ == (WorkerMetricsView { ema_error_rate: value, ..old(self)@ }),
    {
        proof {
            use_type_invariant(&*self);
        }
        self.ema_error_rate = value;
    }

    /// Replace the latency average by `new` if it equals `current`.
    /// Returns `Ok(previous)` on success and `Err(actual)` otherwise.
    pub fn compare_exchange_ema_latency(&mut self, current: u64, new: u64) -> (r: Result<u64, u64>)
        ensures
            old(self)@.ema_latency_ms == current ==> r == Ok::<u64, u64>(current)
                && final(self)@ == (WorkerMetricsView { ema_latency_ms: new, ..old(self)@ }),
            old(self)@.ema_latency_ms != current ==> r == Err::<u64, u64>(old(self)@.ema_latency_ms)
                && final(self)@ == old(self)@,
    {
        proof {
            use_type_invariant(&*self);
        }
        if self.ema_latency_ms == current {
            self.ema_latency_ms = new;
            Ok(current)
        } else {
            Err(self.ema_latency_ms)
        }
    }

    /// Replace the error rate average by `new` if it equals `current`.
    /// Returns `Ok(previous)` on success and `Err(actual)` otherwise.
    pub fn compare_exchange_ema_error_rate(&mut self, current: u64, new: u64) -> (r: Result<u64, u64>)
        ensures
            old(self)@.ema_error_rate == current ==> r == Ok::<u64, u64>(current)
                && final(self)@ == (WorkerMetricsView { ema_error_rate: new, ..old(self)@ }),
            old(self)@.ema_error_rate != current ==> r == Err::<u64, u64>(old(self)@.ema_error_rate)
                && final(self)@ == old(self)@,
    {
        proof {
            use_type_invariant(&*self);
        }
        if self.ema_error_rate == current {
            self.ema_error_rate = new;
            Ok(current)
        } else {
            Err(self.ema_error_rate)
        }
    }

    pub fn request_count(&self) -> (r: u64)
        ensures
            r == self@.sample_count,
    {
        self.get_sample_count()
    }

    pub fn average_latency_ms(&self) -> (r: u64)
        ensures
            r == self@.ema_latency_ms,
    {
        self.get_ema_latency_ms()
    }
}

impl Default for WorkerMetrics {
    /// Metrics with the default coefficient 0.1.
    fn default() -> (r: Self)
        ensures
            r@ == (WorkerMetricsView { ema_latency_ms: 0, ema_error_rate: 0, sample_count: 0, error_count: 0, alpha: 1000 }),
    {
        WorkerMetrics { ema_latency_ms: 0, ema_error_rate: 0, sample_count: 0, error_count: 0, alpha: 1000 }
    }
}

} // verus!
