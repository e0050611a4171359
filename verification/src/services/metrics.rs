//! Metrics collection for all workers, with exponential moving averages.

use vstd::prelude::*;
use core::time::Duration;
use crate::domain::{ema_step, LoadBalancerError, WorkerMetrics, WorkerMetricsView};
use crate::utils::constants::{EMA_ALPHA, FIXED_POINT_SCALE};
use crate::utils::time::duration_nanos;

verus! {

/// The whole milliseconds of a duration: its whole nanoseconds divided by a
/// million, rounded down.
pub open spec fn duration_millis(d: Duration) -> u128 {
    (duration_nanos(d) / 1_000_000) as u128
}

/// Wraps `Duration::as_millis`: the total whole milliseconds of the
/// duration, which are its total nanoseconds divided by a million.
#[verifier::external_body]
fn as_millis(d: &Duration) -> (ms: u128)
    ensures
        ms == duration_millis(*d),
{
    d.as_millis()
}

/// A moving average step stays between the sample and the previous average.
pub proof fn lemma_ema_bounded(alpha: int, sample: int, old: int)
    requires
        0 <= alpha <= FIXED_POINT_SCALE,
        0 <= sample,
        0 <= old,
    ensures
        ema_step(alpha, sample, old) <= if sample < old { old } else { sample },
        ema_step(alpha, sample, old) >= if sample < old { sample } else { old },
{
    let s = FIXED_POINT_SCALE as int;
    let hi = if sample < old { old } else { sample };
    let lo = if sample < old { sample } else { old };
    assert(alpha * sample + (s - alpha) * old <= s * hi) by (nonlinear_arith)
        requires
            0 <= alpha <= s,
            sample <= hi,
            old <= hi,
            0 <= sample,
            0 <= old,
    ;
    assert(alpha * sample + (s - alpha) * old >= s * lo) by (nonlinear_arith)
        requires
            0 <= alpha <= s,
            lo <= sample,
            lo <= old,
    ;
    assert((alpha * sample + (s - alpha) * old) / s <= hi) by (nonlinear_arith)
        requires
            alpha * sample + (s - alpha) * old <= s * hi,
            s > 0,
    ;
    assert((alpha * sample + (s - alpha) * old) / s >= lo) by (nonlinear_arith)
        requires
            alpha * sample + (s - alpha) * old >= s * lo,
            s > 0,
    ;
}

/// The metrics after one sample of `sample_ms` milliseconds with error value
/// `error_value` (0 for a success, FIXED_POINT_SCALE for an error) was
/// recorded for worker `index`: one more sample, one more error unless the
/// value is 0, and both averages moved; an index out of range changes
/// nothing.
pub open spec fn record_sample(
    s: Seq<WorkerMetricsView>,
    index: int,
    sample_ms: u64,
    error_value: u64,
) -> Seq<WorkerMetricsView> {
    if 0 <= index < s.len() {
        let m = s[index];
        s.update(
            index,
            WorkerMetricsView {
                sample_count: if m.sample_count == u64::MAX {
                    0
                } else {
                    (m.sample_count + 1) as u64
                },
                error_count: if error_value == 0 {
                    m.error_count
                } else if m.error_count == u64::MAX {
                    0
                } else {
                    (m.error_count + 1) as u64
                },
                ema_latency_ms: ema_step(m.alpha as int, sample_ms as int, m.ema_latency_ms as int) as u64,
                ema_error_rate: ema_step(m.alpha as int, error_value as int, m.ema_error_rate as int) as u64,
                alpha: m.alpha,
            },
        )
    } else {
        s
    }
}

/// Recording a sample changes only the worker it is for, and keeps the
/// number of workers.
pub proof fn lemma_record_touches_one_worker(
    s: Seq<WorkerMetricsView>,
    index: int,
    sample_ms: u64,
    error_value: u64,
)
    ensures
        record_sample(s, index, sample_ms, error_value).len() == s.len(),
        forall|j: int|
            0 <= j < s.len() && j != index ==> #[trigger] record_sample(
                s,
                index,
                sample_ms,
                error_value,
            )[j] == s[j],
        0 <= index < s.len() ==> record_sample(s, index, sample_ms, error_value)[index].alpha
            == s[index].alpha,
{
}

/// The error rate average stays a rate: if it is at most
/// FIXED_POINT_SCALE (100%) before a sample, it is after it too.
pub proof fn lemma_error_rate_stays_a_rate(alpha: int, error_value: int, old: int)
    requires
        0 <= alpha <= FIXED_POINT_SCALE,
        0 <= error_value <= FIXED_POINT_SCALE,
        0 <= old <= FIXED_POINT_SCALE,
    ensures
        0 <= ema_step(alpha, error_value, old) <= FIXED_POINT_SCALE,
{
    lemma_ema_bounded(alpha, error_value, old);
}

/// Every worker's coefficient lies in (0, FIXED_POINT_SCALE] and its error
/// rate average is a rate: at most FIXED_POINT_SCALE (100%).
pub open spec fn rates_in_range(s: Seq<WorkerMetricsView>) -> bool {
    forall|i: int|
        0 <= i < s.len() ==> 0 < (#[trigger] s[i]).alpha <= FIXED_POINT_SCALE && s[i].ema_error_rate
            <= FIXED_POINT_SCALE
}

/// Recording a sample keeps every error rate average a rate, when the
/// error value is one (0 for a success, FIXED_POINT_SCALE for an error).
pub proof fn lemma_record_keeps_rates_in_range(
    s: Seq<WorkerMetricsView>,
    index: int,
    sample_ms: u64,
    error_value: u64,
)
    requires
        rates_in_range(s),
        error_value <= FIXED_POINT_SCALE,
    ensures
        rates_in_range(record_sample(s, index, sample_ms, error_value)),
{
    if 0 <= index < s.len() {
        lemma_error_rate_stays_a_rate(
            s[index].alpha as int,
            error_value as int,
            s[index].ema_error_rate as int,
        );
    }
}

/// A sample equal to the average leaves the average unchanged.
pub proof fn lemma_steady_samples_keep_average(alpha: int, value: int)
    requires
        0 <= alpha <= FIXED_POINT_SCALE,
        0 <= value,
    ensures
        ema_step(alpha, value, value) == value,
{
    lemma_ema_bounded(alpha, value, value);
}

/// Metrics collection service for all workers.
#[derive(Debug)]
pub struct MetricsCollector {
    workers: Vec<WorkerMetrics>,
}

impl View for MetricsCollector {
    type V = Seq<WorkerMetricsView>;

    closed spec fn view(&self) -> Seq<WorkerMetricsView> {
        self.workers@.map_values(|m: WorkerMetrics| m@)
    }
}

impl MetricsCollector {
    /// The metrics of `worker_count` workers that recorded nothing yet.
    pub open spec fn initial(worker_count: nat, alpha: u32) -> Seq<WorkerMetricsView> {
        Seq::new(
            worker_count,
            |i: int| WorkerMetricsView { ema_latency_ms: 0, ema_error_rate: 0, sample_count: 0, error_count: 0, alpha },
        )
    }

    /// Create a metrics collector with the default coefficient 0.1.
    pub fn new(worker_count: usize) -> (r: Result<Self, LoadBalancerError>)
        ensures
            worker_count == 0 <==> r is Err,
            r matches Ok(c) ==> c@ == Self::initial(worker_count as nat, EMA_ALPHA as u32) && rates_in_range(c@),
            r matches Err(e) ==> e matches LoadBalancerError::Configuration { message }
                && message@ == "Worker count must be greater than 0"@,
    {
        Self::with_alpha(worker_count, EMA_ALPHA)
    }

    /// Create a metrics collector with a custom coefficient, given in units of
    /// 1/FIXED_POINT_SCALE.
    pub fn with_alpha(worker_count: usize, alpha: i64) -> (r: Result<Self, LoadBalancerError>)
        ensures
            (worker_count > 0 && 0 < alpha <= FIXED_POINT_SCALE) <==> r is Ok,
            r matches Ok(c) ==> c@ == Self::initial(worker_count as nat, alpha as u32) && rates_in_range(c@),
            worker_count == 0 ==> (r matches Err(e) && e matches LoadBalancerError::Configuration {
                message } && message@ == "Worker count must be greater than 0"@),
            worker_count > 0 && !(0 < alpha <= FIXED_POINT_SCALE) ==> (r matches Err(e)
                && e matches LoadBalancerError::Configuration { message }
                && message@ == crate::domain::metrics_alpha_error_message(alpha as int)),
    {
        if worker_count == 0 {
            return Err(LoadBalancerError::configuration("Worker count must be greater than 0"));
        }
        let mut workers: Vec<WorkerMetrics> = Vec::new();
        let mut i: usize = 0;
        while i < worker_count
            invariant
                i <= worker_count,
                worker_count > 0,
                workers@.len() == i,
                0 < alpha <= FIXED_POINT_SCALE || i == 0,
                forall|j: int|
                    0 <= j < i ==> (#[trigger] workers@[j])@ == (WorkerMetricsView {
                        ema_latency_ms: 0,
                        ema_error_rate: 0,
                        sample_count: 0,
                        error_count: 0,
                        alpha: alpha as u32,
                    }),
            decreases worker_count - i,
        {
            let m = WorkerMetrics::new(alpha)?;
            workers.push(m);
            i = i + 1;
        }
        let r = MetricsCollector { workers };
        assert(r@ =~= Self::initial(worker_count as nat, alpha as u32));
        Ok(r)
    }

    /// Get metrics for a specific worker by index.
    pub fn get_worker_metrics(&self, index: usize) -> (r: Option<&WorkerMetrics>)
        ensures
            index < self@.len() <==> r is Some,
            r matches Some(m) ==> m@ == self@[index as int],
    {
        if index < self.workers.len() {
            Some(&self.workers[index])
        } else {
            None
        }
    }

    /// Get metrics for all workers as a slice.
    pub fn all_metrics(&self) -> (r: &[WorkerMetrics])
        ensures
            r@.map_values(|m: WorkerMetrics| m@) == self@,
    {
        self.workers.as_slice()
    }

    /// Fold a latency sample into the moving average of worker `worker_index`.
    pub fn update_ema_latency(&mut self, worker_index: usize, sample_ms: u64)
        ensures
            worker_index < old(self)@.len() ==> final(self)@ == old(self)@.update(
                worker_index as int,
                WorkerMetricsView {
                    ema_latency_ms: ema_step(
                        old(self)@[worker_index as int].alpha as int,
                        sample_ms as int,
                        old(self)@[worker_index as int].ema_latency_ms as int,
                    ) as u64,
                    ..old(self)@[worker_index as int]
                },
            ),
            worker_index >= old(self)@.len() ==> final(self)@ == old(self)@,
            rates_in_range(old(self)@) ==> rates_in_range(final(self)@),
    {
        if worker_index < self.workers.len() {
            let alpha = self.workers[worker_index].get_alpha();
            let old_ema = self.workers[worker_index].get_ema_latency_ms();
            let new_ema = Self::ema(alpha, sample_ms, old_ema);
            self.workers[worker_index].set_ema_latency_ms(new_ema);
            assert(self@ =~= old(self)@.update(
                worker_index as int,
                WorkerMetricsView { ema_latency_ms: new_ema, ..old(self)@[worker_index as int] },
            ));
        }
    }

    /// Fold an error value (0 for success, FIXED_POINT_SCALE for error) into
    /// the moving average of the error rate of worker `worker_index`.
    pub fn update_ema_error_rate(&mut self, worker_index: usize, error_value: u64)
        ensures
            worker_index < old(self)@.len() ==> final(self)@ == old(self)@.update(
                worker_index as int,
                WorkerMetricsView {
                    ema_error_rate: ema_step(
                        old(self)@[worker_index as int].alpha as int,
                        error_value as int,
                        old(self)@[worker_index as int].ema_error_rate as int,
                    ) as u64,
                    ..old(self)@[worker_index as int]
                },
            ),
            worker_index >= old(self)@.len() ==> final(self)@ == old(self)@,
            rates_in_range(old(self)@) && error_value <= FIXED_POINT_SCALE ==> rates_in_range(final(self)@),
    {
        proof {
            if worker_index < old(self)@.len() && rates_in_range(old(self)@) && error_value <= FIXED_POINT_SCALE {
                lemma_error_rate_stays_a_rate(
                    old(self)@[worker_index as int].alpha as int,
                    error_value as int,
                    old(self)@[worker_index as int].ema_error_rate as int,
                );
            }
        }
        if worker_index < self.workers.len() {
            let alpha = self.workers[worker_index].get_alpha();
            let old_ema = self.workers[worker_index].get_ema_error_rate();
            let new_ema = Self::ema(alpha, error_value, old_ema);
            self.workers[worker_index].set_ema_error_rate(new_ema);
            assert(self@ =~= old(self)@.update(
                worker_index as int,
                WorkerMetricsView { ema_error_rate: new_ema, ..old(self)@[worker_index as int] },
            ));
        }
    }

    fn ema(alpha: u32, sample: u64, old: u64) -> (r: u64)
        requires
            0 < alpha <= FIXED_POINT_SCALE,
        ensures
            r == ema_step(alpha as int, sample as int, old as int),
    {
        proof {
            lemma_ema_bounded(alpha as int, sample as int, old as int);
        }
        let scale = FIXED_POINT_SCALE as u128;
        let a = alpha as u128;
        let x = sample as u128;
        let y = old as u128;
        assert(a * x <= scale * 0xffff_ffff_ffff_ffffu128) by (nonlinear_arith)
            requires a <= scale, x <= 0xffff_ffff_ffff_ffffu128;
        assert((scale - a) * y <= scale * 0xffff_ffff_ffff_ffffu128) by (nonlinear_arith)
            requires a <= scale, y <= 0xffff_ffff_ffff_ffffu128;
        let total = a * x + (scale - a) * y;
        (total / scale) as u64
    }

    fn record(&mut self, worker_index: usize, sample_ms: u64, error_value: u64)
        ensures
            final(self)@ == record_sample(old(self)@, worker_index as int, sample_ms, error_value),
    {
        if worker_index < self.workers.len() {
            self.workers[worker_index].increment_sample_count();
            if error_value != 0 {
                self.workers[worker_index].increment_error_count();
            }
            self.update_ema_latency(worker_index, sample_ms);
            self.update_ema_error_rate(worker_index, error_value);
            assert(self@ =~= record_sample(old(self)@, worker_index as int, sample_ms, error_value));
        }
    }

    /// Record a successful request of the given duration for a worker; an
    /// index out of range changes nothing.
    pub fn record_success(&mut self, worker_index: usize, duration: Duration)
        ensures
            final(self)@ == record_sample(
                old(self)@,
                worker_index as int,
                duration_millis(duration) as u64,
                0,
            ),
            rates_in_range(old(self)@) ==> rates_in_range(final(self)@),
    {
        let ms = as_millis(&duration) as u64;
        proof {
            if rates_in_range(old(self)@) {
                lemma_record_keeps_rates_in_range(old(self)@, worker_index as int, ms, 0);
            }
        }
        self.record(worker_index, ms, 0);
    }

    /// Record a failed request of the given duration for a worker; an index
    /// out of range changes nothing.
    pub fn record_error(&mut self, worker_index: usize, duration: Duration)
        ensures
            final(self)@ == record_sample(
                old(self)@,
                worker_index as int,
                duration_millis(duration) as u64,
                FIXED_POINT_SCALE as u64,
            ),
            rates_in_range(old(self)@) ==> rates_in_range(final(self)@),
    {
        let ms = as_millis(&duration) as u64;
        proof {
            if rates_in_range(old(self)@) {
                lemma_record_keeps_rates_in_range(old(self)@, worker_index as int, ms, FIXED_POINT_SCALE as u64);
            }
        }
        self.record(worker_index, ms, FIXED_POINT_SCALE as u64);
    }

    /// The moving average of the response time of a worker, if it recorded
    /// at least one sample.
    pub fn average_response_time_ms(&self, worker_index: usize) -> (r: Option<u64>)
        ensures
            r == (if worker_index < self@.len() && self@[worker_index as int].sample_count != 0 {
                Some(self@[worker_index as int].ema_latency_ms)
            } else {
                None
            }),
    {
        if worker_index < self.workers.len() {
            let m = &self.workers[worker_index];
            if m.request_count() == 0 {
                None
            } else {
                Some(m.average_latency_ms())
            }
        } else {
            None
        }
    }
}

} // verus!
