//! The decision engine of adaptive load balancing: it evaluates worker
//! metrics and decides when to switch strategies, with a cooldown between
//! switches.

use vstd::prelude::*;
use core::time::Duration;
use std::time::Instant;
use crate::domain::{Decision, DecisionThresholds, LoadBalancerError, StrategyType, SwitchReason, WorkerMetricsView};
use crate::services::metrics::MetricsCollector;
use crate::domain::is_default_thresholds;
use crate::utils::time::{as_nanos, duration_nanos, max_duration_nanos, nanos_per_second};

verus! {

#[verifier::external_type_specification]
#[verifier::external_body]
pub struct ExInstant(Instant);

/// Wraps `Instant::now`. The result depends on the clock: nothing is stated.
#[verifier::external_body]
fn instant_now() -> Instant {
    Instant::now()
}

/// Wraps `Instant::elapsed`. The result depends on the clock: nothing is
/// stated.
#[verifier::external_body]
fn elapsed_since(t: &Instant) -> Duration {
    t.elapsed()
}

/// Whether a cooldown of `cooldown_nanos` nanoseconds is over after
/// `elapsed_nanos` nanoseconds.
pub fn cooldown_elapsed(elapsed_nanos: u128, cooldown_nanos: u128) -> (r: bool)
    ensures
        r == (elapsed_nanos >= cooldown_nanos),
{
    elapsed_nanos >= cooldown_nanos
}

/// The whole seconds left of a cooldown of `cooldown_nanos` nanoseconds
/// after `elapsed_nanos` nanoseconds, or `None` once it is over.
pub fn remaining_cooldown_secs(elapsed_nanos: u128, cooldown_nanos: u128) -> (r: Option<u64>)
    ensures
        r == (if elapsed_nanos >= cooldown_nanos {
            None
        } else {
            Some(((cooldown_nanos - elapsed_nanos) / nanos_per_second()) as u64)
        }),
        cooldown_nanos <= max_duration_nanos() ==> (r matches Some(secs) ==> secs == (cooldown_nanos
            - elapsed_nanos) / nanos_per_second() && secs <= (cooldown_nanos as int) / nanos_per_second()),
{
    if elapsed_nanos >= cooldown_nanos {
        None
    } else {
        let left = (cooldown_nanos - elapsed_nanos) / 1_000_000_000u128;
        assert(left <= (cooldown_nanos as int) / 1_000_000_000int) by (nonlinear_arith)
            requires
                left == (cooldown_nanos - elapsed_nanos) as int / 1_000_000_000int,
                elapsed_nanos < cooldown_nanos,
                elapsed_nanos >= 0,
        ;
        assert(cooldown_nanos <= max_duration_nanos() ==> (cooldown_nanos as int) / 1_000_000_000int <= u64::MAX) by (nonlinear_arith);
        Some(left as u64)
    }
}

/// A worker shows high latency: it has enough samples, at least one, and
/// its average latency is above the threshold.
pub open spec fn is_high_latency(m: WorkerMetricsView, t: DecisionThresholds) -> bool {
    m.sample_count >= t.min_samples && m.sample_count != 0 && m.ema_latency_ms > t.high_latency_ms
}

/// A worker shows a high error rate: it has enough samples and its average
/// error rate is above the threshold.
pub open spec fn is_high_error_rate(m: WorkerMetricsView, t: DecisionThresholds) -> bool {
    m.sample_count >= t.min_samples && m.ema_error_rate > t.high_error_rate
}

/// Number of workers with high latency.
pub open spec fn high_latency_count(s: Seq<WorkerMetricsView>, t: DecisionThresholds) -> nat
    decreases s.len(),
{
    if s.len() == 0 {
        0
    } else {
        high_latency_count(s.drop_last(), t) + if is_high_latency(s.last(), t) {
            1nat
        } else {
            0nat
        }
    }
}

/// Number of workers with a high error rate.
pub open spec fn high_error_rate_count(s: Seq<WorkerMetricsView>, t: DecisionThresholds) -> nat
    decreases s.len(),
{
    if s.len() == 0 {
        0
    } else {
        high_error_rate_count(s.drop_last(), t) + if is_high_error_rate(s.last(), t) {
            1nat
        } else {
            0nat
        }
    }
}

/// Total number of samples over all workers.
pub open spec fn total_samples(s: Seq<WorkerMetricsView>) -> nat
    decreases s.len(),
{
    if s.len() == 0 {
        0
    } else {
        total_samples(s.drop_last()) + s.last().sample_count as nat
    }
}

/// A worker counts as troubled only once it has the minimum number of
/// samples: neither high latency nor a high error rate is seen in a worker
/// with fewer.
pub proof fn lemma_troubled_workers_have_enough_samples(m: WorkerMetricsView, t: DecisionThresholds)
    ensures
        is_high_latency(m, t) ==> m.sample_count >= t.min_samples && m.ema_latency_ms > t.high_latency_ms,
        is_high_error_rate(m, t) ==> m.sample_count >= t.min_samples && m.ema_error_rate > t.high_error_rate,
        m.sample_count >= t.min_samples && m.sample_count > 0 && m.ema_latency_ms > t.high_latency_ms
            ==> is_high_latency(m, t),
        m.sample_count >= t.min_samples && m.ema_error_rate > t.high_error_rate ==> is_high_error_rate(m, t),
{
}

/// A majority of `n` workers is the smallest count above half of them.
pub proof fn lemma_majority_is_more_than_half(n: nat)
    ensures
        2 * majority(n) > n,
        2 * (majority(n) - 1) <= n,
{
}

/// The default thresholds: an average above 500 ms, an error rate above
/// 10% (1000 in units of 1/10000), at least 10 samples, and 60 seconds
/// between switches.
pub proof fn lemma_default_thresholds(t: DecisionThresholds)
    requires
        is_default_thresholds(t),
    ensures
        t.high_latency_ms == 500,
        t.high_error_rate == 1000,
        t.min_samples == 10,
        duration_nanos(t.cooldown) == 60_000_000_000,
{
}

proof fn lemma_counts_keep_on_update(
    s: Seq<WorkerMetricsView>,
    t: DecisionThresholds,
    i: int,
    m: WorkerMetricsView,
)
    requires
        0 <= i < s.len(),
        m.sample_count == s[i].sample_count,
        is_high_latency(m, t) == is_high_latency(s[i], t),
        is_high_error_rate(m, t) == is_high_error_rate(s[i], t),
    ensures
        high_latency_count(s.update(i, m), t) == high_latency_count(s, t),
        high_error_rate_count(s.update(i, m), t) == high_error_rate_count(s, t),
        total_samples(s.update(i, m)) == total_samples(s),
    decreases s.len(),
{
    let u = s.update(i, m);
    if i == s.len() - 1 {
        assert(u.drop_last() =~= s.drop_last());
    } else {
        lemma_counts_keep_on_update(s.drop_last(), t, i, m);
        assert(u.drop_last() =~= s.drop_last().update(i, m));
        assert(u.last() == s.last());
    }
}

/// Workers with fewer than the minimum samples are not evaluated: whatever
/// the averages of such a worker are, the decision is the same, as long as
/// its sample count stays.
pub proof fn lemma_undersampled_workers_are_ignored(
    s: Seq<WorkerMetricsView>,
    t: DecisionThresholds,
    current: StrategyType,
    switch_allowed: bool,
    i: int,
    m: WorkerMetricsView,
)
    requires
        0 <= i < s.len(),
        s[i].sample_count < t.min_samples,
        m.sample_count == s[i].sample_count,
    ensures
        decide(s.update(i, m), t, current, switch_allowed) == decide(s, t, current, switch_allowed),
{
    lemma_counts_keep_on_update(s, t, i, m);
}

/// More than half of `n` workers.
pub open spec fn majority(n: nat) -> nat {
    n / 2 + 1
}

/// The decision for the given metrics: keep the current strategy while a
/// switch is not allowed, without workers or with too few samples in total;
/// otherwise switch to round robin when a majority of workers show high
/// error rates (also when they show high latency as well), or to least
/// connections when a majority show high latency alone, unless that
/// strategy is already the current one.
pub open spec fn decide(
    s: Seq<WorkerMetricsView>,
    t: DecisionThresholds,
    current: StrategyType,
    switch_allowed: bool,
) -> Decision {
    if s.len() == 0 || !switch_allowed || total_samples(s) < t.min_samples {
        Decision::KeepCurrent
    } else {
        let errors = high_error_rate_count(s, t) >= majority(s.len());
        let latency = high_latency_count(s, t) >= majority(s.len());
        if errors && current != StrategyType::RoundRobin {
            Decision::SwitchTo { strategy: StrategyType::RoundRobin, reason: SwitchReason::HighErrorRate }
        } else if errors {
            Decision::KeepCurrent
        } else if latency && current != StrategyType::LeastConnections {
            Decision::SwitchTo {
                strategy: StrategyType::LeastConnections,
                reason: SwitchReason::HighLatency,
            }
        } else {
            Decision::KeepCurrent
        }
    }
}

/// The strategy that a decision leaves in place.
pub open spec fn strategy_after(current: StrategyType, d: Decision) -> StrategyType {
    match d {
        Decision::KeepCurrent => current,
        Decision::SwitchTo { strategy, .. } => strategy,
    }
}

/// A decision is stable: once its strategy is in use, the same metrics
/// lead to keeping it, so the engine does not oscillate.
pub proof fn lemma_decision_is_stable(
    s: Seq<WorkerMetricsView>,
    t: DecisionThresholds,
    current: StrategyType,
)
    ensures
        decide(s, t, strategy_after(current, decide(s, t, current, true)), true)
            == Decision::KeepCurrent,
{
}

/// A switch is justified: it is allowed, there are enough samples, it never
/// names the strategy in use, and it goes to round robin for a majority of
/// workers with high error rates, or to least connections for a majority
/// with high latency and no majority with high error rates.
pub proof fn lemma_switch_is_justified(
    s: Seq<WorkerMetricsView>,
    t: DecisionThresholds,
    current: StrategyType,
    switch_allowed: bool,
)
    ensures
        decide(s, t, current, switch_allowed) matches Decision::SwitchTo { strategy, reason } ==> {
            &&& switch_allowed
            &&& s.len() > 0
            &&& total_samples(s) >= t.min_samples
            &&& strategy != current
            &&& (strategy == StrategyType::RoundRobin <==> reason == SwitchReason::HighErrorRate)
            &&& strategy == StrategyType::RoundRobin ==> high_error_rate_count(s, t) >= majority(s.len())
            &&& strategy == StrategyType::LeastConnections ==> high_latency_count(s, t) >= majority(s.len())
                && high_error_rate_count(s, t) < majority(s.len())
        },
{
}

/// Without a majority of troubled workers the strategy is kept.
pub proof fn lemma_minority_keeps_strategy(
    s: Seq<WorkerMetricsView>,
    t: DecisionThresholds,
    current: StrategyType,
    switch_allowed: bool,
)
    requires
        high_error_rate_count(s, t) < majority(s.len()),
        high_latency_count(s, t) < majority(s.len()),
    ensures
        decide(s, t, current, switch_allowed) == Decision::KeepCurrent,
{
}

/// When a majority of workers show both high error rates and high latency,
/// error handling takes priority: the decision is round robin, or keeping
/// round robin when it is in use.
pub proof fn lemma_errors_take_priority(
    s: Seq<WorkerMetricsView>,
    t: DecisionThresholds,
    current: StrategyType,
)
    requires
        s.len() > 0,
        total_samples(s) >= t.min_samples,
        high_error_rate_count(s, t) >= majority(s.len()),
        high_latency_count(s, t) >= majority(s.len()),
    ensures
        current == StrategyType::RoundRobin ==> decide(s, t, current, true) == Decision::KeepCurrent,
        current != StrategyType::RoundRobin ==> decide(s, t, current, true) == (Decision::SwitchTo {
            strategy: StrategyType::RoundRobin,
            reason: SwitchReason::HighErrorRate,
        }),
{
}

/// While switching is not allowed (the cooldown lasts) the strategy is kept.
pub proof fn lemma_cooldown_keeps_strategy(
    s: Seq<WorkerMetricsView>,
    t: DecisionThresholds,
    current: StrategyType,
)
    ensures
        decide(s, t, current, false) == Decision::KeepCurrent,
{
}

/// The decision `since_switch_nanos` nanoseconds after the last switch
/// (`None` before the first one): a switch is allowed once the cooldown is
/// over.
pub open spec fn decision_since(
    s: Seq<WorkerMetricsView>,
    t: DecisionThresholds,
    current: StrategyType,
    since_switch_nanos: Option<u128>,
) -> Decision {
    decide(
        s,
        t,
        current,
        match since_switch_nanos {
            None => true,
            Some(n) => n >= duration_nanos(t.cooldown),
        },
    )
}

/// Switches stay a cooldown apart: while less than the cooldown has passed
/// since the last switch, the decision is to keep the current strategy,
/// whatever the metrics.
pub proof fn lemma_no_switch_within_cooldown(
    s: Seq<WorkerMetricsView>,
    t: DecisionThresholds,
    current: StrategyType,
    since_switch_nanos: u128,
)
    requires
        since_switch_nanos < duration_nanos(t.cooldown),
    ensures
        decision_since(s, t, current, Some(since_switch_nanos)) == Decision::KeepCurrent,
{
}

/// Decision engine for adaptive load balancing.
pub struct DecisionEngine {
    thresholds: DecisionThresholds,
    current: StrategyType,
    last_switch: Option<Instant>,
    last_switch_reason: Option<SwitchReason>,
}

impl DecisionEngine {
    /// The thresholds of the engine.
    pub closed spec fn thresholds(&self) -> DecisionThresholds {
        self.thresholds
    }

    /// The strategy that the engine takes as current.
    pub closed spec fn current(&self) -> StrategyType {
        self.current
    }

    /// Whether the engine has switched strategy at least once.
    pub closed spec fn has_switched(&self) -> bool {
        self.last_switch is Some
    }

    /// When the engine last switched strategy, if it ever did.
    pub closed spec fn last_switch_at(&self) -> Option<Instant> {
        self.last_switch
    }

    /// Why the engine last switched strategy, if it ever did.
    pub closed spec fn last_reason(&self) -> Option<SwitchReason> {
        self.last_switch_reason
    }

    /// Create a decision engine with the default thresholds.
    pub fn new(initial_strategy: StrategyType) -> (r: Self)
        ensures
            r.current() == initial_strategy,
            is_default_thresholds(r.thresholds()),
            !r.has_switched(),
            r.last_switch_at() is None,
            r.last_reason() is None,
    {
        DecisionEngine {
            thresholds: DecisionThresholds::default(),
            current: initial_strategy,
            last_switch: None,
            last_switch_reason: None,
        }
    }

    /// Create a decision engine with custom thresholds.
    pub fn with_config(initial_strategy: StrategyType, thresholds: DecisionThresholds) -> (r: Self)
        ensures
            r.current() == initial_strategy,
            r.thresholds() == thresholds,
            !r.has_switched(),
            r.last_switch_at() is None,
            r.last_reason() is None,
    {
        DecisionEngine { thresholds, current: initial_strategy, last_switch: None, last_switch_reason: None }
    }

    /// The thresholds the engine decides with.
    pub fn get_thresholds(&self) -> (r: DecisionThresholds)
        ensures
            r == self.thresholds(),
    {
        self.thresholds
    }

    /// Get the current strategy.
    pub fn current_strategy(&self) -> (r: Result<StrategyType, LoadBalancerError>)
        ensures
            r == Ok::<StrategyType, LoadBalancerError>(self.current()),
    {
        Ok(self.current)
    }

    /// Check whether the cooldown since the last switch is over. Before the
    /// first switch, and with a cooldown of zero seconds, it always is; else
    /// the answer is `cooldown_elapsed` of the time read from the clock since
    /// the last switch, which no clause can name.
    pub fn can_switch(&self) -> (r: Result<bool, LoadBalancerError>)
        ensures
            r is Ok,
            !self.has_switched() ==> r == Ok::<bool, LoadBalancerError>(true),
            duration_nanos(self.thresholds().cooldown) == 0 ==> r == Ok::<bool, LoadBalancerError>(true),
    {
        match &self.last_switch {
            None => Ok(true),
            Some(t) => {
                let elapsed = elapsed_since(t);
                Ok(cooldown_elapsed(as_nanos(&elapsed), as_nanos(&self.thresholds.cooldown)))
            },
        }
    }

    /// The decision for the given metrics when a switch is allowed or not.
    pub fn evaluate_metrics(&self, metrics: &MetricsCollector, switch_allowed: bool) -> (r: Decision)
        ensures
            r == decide(metrics@, self.thresholds(), self.current(), switch_allowed),
    {
        let ghost s = metrics@;
        let t = self.thresholds;
        let all = metrics.all_metrics();
        let n = all.len();
        proof {
            assert(all@.map_values(|m: crate::domain::WorkerMetrics| m@).len() == n);
        }
        if n == 0 || !switch_allowed {
            return Decision::KeepCurrent;
        }
        let mut total: u64 = 0;
        let mut high_latency: usize = 0;
        let mut high_errors: usize = 0;
        let mut i: usize = 0;
        while i < n
            invariant
                n == s.len(),
                s == metrics@,
                t == self.thresholds(),
                i <= n,
                total == (if total_samples(s.take(i as int)) > u64::MAX {
                    u64::MAX as nat
                } else {
                    total_samples(s.take(i as int))
                }),
                high_latency == high_latency_count(s.take(i as int), t),
                high_errors == high_error_rate_count(s.take(i as int), t),
                high_latency <= i,
                high_errors <= i,
            decreases n - i,
        {
            let m = metrics.get_worker_metrics(i).unwrap();
            let count = m.request_count();
            proof {
                assert(s.take(i + 1).drop_last() =~= s.take(i as int));
                assert(s.take(i + 1).last() == s[i as int]);
            }
            total = total.saturating_add(count);
            if count >= t.min_samples {
                let latency = metrics.average_response_time_ms(i);
                let has_high_latency = match latency {
                    Some(lat) => lat > t.high_latency_ms,
                    None => false,
                };
                let has_high_errors = m.get_ema_error_rate() > t.high_error_rate;
                if has_high_latency {
                    high_latency = high_latency + 1;
                }
                if has_high_errors {
                    high_errors = high_errors + 1;
                }
            }
            i = i + 1;
        }
        proof {
            assert(s.take(n as int) =~= s);
        }
        if total < t.min_samples {
            return Decision::KeepCurrent;
        }
        let majority = n / 2 + 1;
        let has_high_latency = high_latency >= majority;
        let has_high_errors = high_errors >= majority;
        if has_high_errors && has_high_latency {
            if self.current != StrategyType::RoundRobin {
                return Decision::SwitchTo {
                    strategy: StrategyType::RoundRobin,
                    reason: SwitchReason::HighErrorRate,
                };
            } else {
                return Decision::KeepCurrent;
            }
        }
        if has_high_errors && self.current != StrategyType::RoundRobin {
            return Decision::SwitchTo {
                strategy: StrategyType::RoundRobin,
                reason: SwitchReason::HighErrorRate,
            };
        }
        if has_high_latency && self.current != StrategyType::LeastConnections {
            return Decision::SwitchTo {
                strategy: StrategyType::LeastConnections,
                reason: SwitchReason::HighLatency,
            };
        }
        Decision::KeepCurrent
    }

    /// The decision for the given metrics, `since_switch_nanos` nanoseconds
    /// after the last switch (`None` before the first one).
    pub fn evaluate_since(&self, metrics: &MetricsCollector, since_switch_nanos: Option<u128>) -> (r: Decision)
        ensures
            r == decision_since(metrics@, self.thresholds(), self.current(), since_switch_nanos),
    {
        let allowed = match since_switch_nanos {
            None => true,
            Some(n) => cooldown_elapsed(n, as_nanos(&self.thresholds.cooldown)),
        };
        self.evaluate_metrics(metrics, allowed)
    }

    /// Evaluate the metrics and decide whether to switch strategies. Before
    /// the first switch the decision is exact; after one it is
    /// `decision_since` of the time read from the clock since that switch,
    /// which no clause can name: while the cooldown lasts it keeps the
    /// current strategy.
    pub fn evaluate(&self, metrics: &MetricsCollector) -> (r: Result<Decision, LoadBalancerError>)
        ensures
            !self.has_switched() ==> r == Ok::<Decision, LoadBalancerError>(
                decision_since(metrics@, self.thresholds(), self.current(), None),
            ),
            self.has_switched() ==> exists|n: u128| r == Ok::<Decision, LoadBalancerError>(
                #[trigger] decision_since(metrics@, self.thresholds(), self.current(), Some(n)),
            ),
            r == Ok::<Decision, LoadBalancerError>(decide(metrics@, self.thresholds(), self.current(), true))
                || r == Ok::<Decision, LoadBalancerError>(Decision::KeepCurrent),
            !self.has_switched() ==> r == Ok::<Decision, LoadBalancerError>(
                decide(metrics@, self.thresholds(), self.current(), true),
            ),
    {
        let since = match &self.last_switch {
            None => None,
            Some(t) => {
                let elapsed = elapsed_since(t);
                Some(as_nanos(&elapsed))
            },
        };
        let d = self.evaluate_since(metrics, since);
        proof {
            if let Some(n) = since {
                assert(d == decision_since(metrics@, self.thresholds(), self.current(), Some(n)));
            }
        }
        Ok(d)
    }

    /// Apply a decision: on a switch, take its strategy as current, remember
    /// its reason and start the cooldown at the time read from the clock;
    /// keeping the current strategy changes nothing.
    pub fn apply_decision(&mut self, decision: &Decision) -> (r: Result<(), LoadBalancerError>)
        ensures
            r is Ok,
            final(self).current() == strategy_after(old(self).current(), *decision),
            final(self).thresholds() == old(self).thresholds(),
            *decision is KeepCurrent ==> *final(self) == *old(self),
            *decision matches Decision::SwitchTo { reason, .. } ==> final(self).has_switched()
                && final(self).last_switch_at() is Some && final(self).last_reason() == Some(reason),
    {
        if let Decision::SwitchTo { strategy, reason } = decision {
            self.current = *strategy;
            self.last_switch = Some(instant_now());
            self.last_switch_reason = Some(*reason);
        }
        Ok(())
    }

    /// Get the time of the last strategy switch.
    pub fn last_switch_time(&self) -> (r: Result<Option<Instant>, LoadBalancerError>)
        ensures
            r == Ok::<Option<Instant>, LoadBalancerError>(self.last_switch_at()),
            r matches Ok(t) && (t is Some <==> self.has_switched()),
    {
        Ok(self.last_switch)
    }

    /// Why the engine last switched strategy, if it ever did.
    pub fn last_switch_reason(&self) -> (r: Option<SwitchReason>)
        ensures
            r == self.last_reason(),
    {
        self.last_switch_reason
    }

    /// Get the whole seconds left of the cooldown, or `None` when no cooldown
    /// is running. Before the first switch, and with a cooldown of zero
    /// seconds, it is `None`; else it is `remaining_cooldown_secs` of the time
    /// read from the clock since the last switch, which no clause can name,
    /// and it never exceeds the configured cooldown.
    pub fn cooldown_remaining_seconds(&self) -> (r: Result<Option<u64>, LoadBalancerError>)
        ensures
            r is Ok,
            !self.has_switched() ==> r == Ok::<Option<u64>, LoadBalancerError>(None),
            duration_nanos(self.thresholds().cooldown) == 0 ==> r == Ok::<Option<u64>, LoadBalancerError>(None),
            r matches Ok(Some(secs)) ==> secs <= (duration_nanos(self.thresholds().cooldown) as int) / nanos_per_second(),
    {
        match &self.last_switch {
            None => Ok(None),
            Some(t) => {
                let elapsed = elapsed_since(t);
                Ok(remaining_cooldown_secs(as_nanos(&elapsed), as_nanos(&self.thresholds.cooldown)))
            },
        }
    }
}

} // verus!
