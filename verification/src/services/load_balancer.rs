//! The load balancer service: worker selection, strategy management,
//! connection tracking and metrics, apart from HTTP.

use vstd::prelude::*;
use core::time::Duration;
use crate::domain::{Decision, DecisionThresholds, LoadBalancerError, StrategyType, WorkerUrl};
use crate::load_balancing_strategy::LoadBalancingStrategy;
use crate::services::decision_engine::{decide, DecisionEngine};
use crate::services::metrics::{duration_millis, rates_in_range, record_sample, MetricsCollector};
use crate::utils::constants::{EMA_ALPHA, FIXED_POINT_SCALE};

verus! {

/// Whether a strategy is freshly created for `worker_count` workers with the
/// given kind: a round robin at counter 0, or least connections with a zero
/// count per worker.
pub open spec fn is_fresh_strategy(s: LoadBalancingStrategy, kind: StrategyType, worker_count: nat) -> bool {
    &&& s.kind() == kind
    &&& s matches LoadBalancingStrategy::RoundRobin(rr) ==> rr.counter() == 0
    &&& s matches LoadBalancingStrategy::LeastConnections(lc) ==> lc@ == Seq::new(
        worker_count,
        |i: int| 0usize,
    )
}

/// The state a decision leads to: a kept strategy leaves the service as it
/// was; a switch installs a fresh strategy of the new kind, and the decision
/// engine takes it as current and starts its cooldown.
pub open spec fn adapted_by(before: LoadBalancerService, after: LoadBalancerService, d: Decision) -> bool {
    match d {
        Decision::KeepCurrent => after == before,
        Decision::SwitchTo { strategy, .. } => {
            &&& after.hosts() == before.hosts()
            &&& after.collector() == before.collector()
            &&& is_fresh_strategy(after.strategy(), strategy, before.hosts().len())
            &&& after.engine() matches Some(e2) && before.engine() matches Some(e)
                && e2.current() == strategy && e2.thresholds() == e.thresholds()
                && e2.has_switched()
        },
    }
}

/// After an adaptive switch the service and its decision engine agree on
/// the strategy in use.
pub proof fn lemma_switch_syncs_engine(
    before: LoadBalancerService,
    after: LoadBalancerService,
    strategy: StrategyType,
    reason: crate::domain::SwitchReason,
)
    requires
        adapted_by(before, after, Decision::SwitchTo { strategy, reason }),
    ensures
        after.strategy().kind() == strategy,
        after.engine() matches Some(e) && e.current() == after.strategy().kind(),
{
}

/// Load balancer service: worker selection, strategy operations and
/// metrics collection.
pub struct LoadBalancerService {
    worker_hosts: Vec<WorkerUrl>,
    strategy: LoadBalancingStrategy,
    metrics_collector: MetricsCollector,
    decision_engine: Option<DecisionEngine>,
}

impl LoadBalancerService {
    /// The worker URLs.
    pub closed spec fn hosts(&self) -> Seq<WorkerUrl> {
        self.worker_hosts@
    }

    /// The strategy in use.
    pub closed spec fn strategy(&self) -> LoadBalancingStrategy {
        self.strategy
    }

    /// The metrics collector.
    pub closed spec fn collector(&self) -> MetricsCollector {
        self.metrics_collector
    }

    /// The decision engine, present in adaptive mode.
    pub closed spec fn engine(&self) -> Option<DecisionEngine> {
        self.decision_engine
    }

    /// The service has at least one worker, and metrics for each, whose
    /// coefficients and error rate averages lie in range.
    pub open spec fn wf(&self) -> bool {
        &&& self.hosts().len() > 0
        &&& self.collector()@.len() == self.hosts().len()
        &&& rates_in_range(self.collector()@)
    }

    /// Create a load balancer service without adaptive behavior.
    pub fn new(worker_hosts: Vec<WorkerUrl>, strategy: LoadBalancingStrategy) -> (r: Result<Self, LoadBalancerError>)
        ensures
            worker_hosts@.len() > 0 <==> r is Ok,
            r matches Ok(s) ==> s.wf() && s.hosts() == worker_hosts@ && s.strategy() == strategy
                && s.collector()@ == MetricsCollector::initial(worker_hosts@.len(), EMA_ALPHA as u32)
                && s.engine() is None,
            r matches Err(e) ==> e matches LoadBalancerError::Configuration { message }
                && message@ == "No worker hosts provided"@,
    {
        Self::with_adaptive(worker_hosts, strategy, false)
    }

    /// Create a load balancer service, adaptive or not.
    pub fn with_adaptive(
        worker_hosts: Vec<WorkerUrl>,
        strategy: LoadBalancingStrategy,
        is_adaptive: bool,
    ) -> (r: Result<Self, LoadBalancerError>)
        ensures
            worker_hosts@.len() > 0 <==> r is Ok,
            r matches Ok(s) ==> s.wf() && s.hosts() == worker_hosts@ && s.strategy() == strategy
                && s.collector()@ == MetricsCollector::initial(worker_hosts@.len(), EMA_ALPHA as u32)
                && (s.engine() is Some <==> is_adaptive)
                && (s.engine() matches Some(e) ==> e.current() == strategy.kind()
                    && crate::domain::is_default_thresholds(e.thresholds()) && !e.has_switched()),
            r matches Err(e) ==> e matches LoadBalancerError::Configuration { message }
                && message@ == "No worker hosts provided"@,
    {
        if worker_hosts.len() == 0 {
            return Err(LoadBalancerError::configuration("No worker hosts provided"));
        }
        let metrics_collector = MetricsCollector::new(worker_hosts.len())?;
        let decision_engine = if is_adaptive {
            let initial = match &strategy {
                LoadBalancingStrategy::RoundRobin(_) => StrategyType::RoundRobin,
                LoadBalancingStrategy::LeastConnections(_) => StrategyType::LeastConnections,
            };
            Some(DecisionEngine::new(initial))
        } else {
            None
        };
        Ok(LoadBalancerService { worker_hosts, strategy, metrics_collector, decision_engine })
    }

    /// Create a load balancer service with custom adaptive thresholds and EMA
    /// coefficient (in units of 1/FIXED_POINT_SCALE).
    pub fn with_adaptive_config(
        worker_hosts: Vec<WorkerUrl>,
        strategy: LoadBalancingStrategy,
        is_adaptive: bool,
        thresholds: DecisionThresholds,
        ema_alpha: i64,
    ) -> (r: Result<Self, LoadBalancerError>)
        ensures
            (worker_hosts@.len() > 0 && 0 < ema_alpha <= FIXED_POINT_SCALE) <==> r is Ok,
            r matches Ok(s) ==> s.wf() && s.hosts() == worker_hosts@ && s.strategy() == strategy
                && s.collector()@ == MetricsCollector::initial(worker_hosts@.len(), ema_alpha as u32)
                && (s.engine() is Some <==> is_adaptive)
                && (s.engine() matches Some(e) ==> e.current() == strategy.kind()
                    && e.thresholds() == thresholds && !e.has_switched()),
            worker_hosts@.len() == 0 ==> (r matches Err(e)
                && e matches LoadBalancerError::Configuration { message }
                && message@ == "No worker hosts provided"@),
            worker_hosts@.len() > 0 && !(0 < ema_alpha <= FIXED_POINT_SCALE) ==> (r matches Err(e)
                && e matches LoadBalancerError::Configuration { message }
                && message@ == crate::domain::metrics_alpha_error_message(ema_alpha as int)),
    {
        if worker_hosts.len() == 0 {
            return Err(LoadBalancerError::configuration("No worker hosts provided"));
        }
        let metrics_collector = MetricsCollector::with_alpha(worker_hosts.len(), ema_alpha)?;
        let decision_engine = if is_adaptive {
            let initial = match &strategy {
                LoadBalancingStrategy::RoundRobin(_) => StrategyType::RoundRobin,
                LoadBalancingStrategy::LeastConnections(_) => StrategyType::LeastConnections,
            };
            Some(DecisionEngine::with_config(initial, thresholds))
        } else {
            None
        };
        Ok(LoadBalancerService { worker_hosts, strategy, metrics_collector, decision_engine })
    }

    /// Select the next worker with the current strategy.
    pub fn select_worker(&mut self) -> (r: Result<(usize, &WorkerUrl), LoadBalancerError>)
        ensures
            final(self).hosts() == old(self).hosts(),
            final(self).collector() == old(self).collector(),
            final(self).engine() == old(self).engine(),
            old(self).strategy().can_select(old(self).hosts().len()) <==> r is Ok,
            r matches Ok((i, u)) ==> i < old(self).hosts().len() && *u == old(self).hosts()[i as int]
                && old(self).strategy().picks(old(self).hosts().len(), i as int)
                && old(self).strategy().advanced(final(self).strategy()),
            r is Err ==> final(self).strategy() == old(self).strategy(),
            old(self).hosts().len() == 0 ==> (r matches Err(LoadBalancerError::NoWorkersAvailable)),
    {
        if self.worker_hosts.len() == 0 {
            return Err(LoadBalancerError::NoWorkersAvailable);
        }
        let index = self.strategy.select_worker(self.worker_hosts.len())?;
        Ok((index, &self.worker_hosts[index]))
    }

    /// Notify that a connection to a worker has started.
    pub fn connection_started(&mut self, worker_index: usize)
        ensures
            final(self).hosts() == old(self).hosts(),
            final(self).collector() == old(self).collector(),
            final(self).engine() == old(self).engine(),
            old(self).strategy().started_at(final(self).strategy(), worker_index as int),
    {
        self.strategy.connection_started(worker_index);
    }

    /// Notify that a connection to a worker has ended.
    pub fn connection_ended(&mut self, worker_index: usize)
        ensures
            final(self).hosts() == old(self).hosts(),
            final(self).collector() == old(self).collector(),
            final(self).engine() == old(self).engine(),
            old(self).strategy().ended_at(final(self).strategy(), worker_index as int),
    {
        self.strategy.connection_ended(worker_index);
    }

    /// Get the current strategy name.
    pub fn get_strategy_name(&self) -> (r: &'static str)
        ensures
            r@ == self.strategy().kind().name(),
    {
        match &self.strategy {
            LoadBalancingStrategy::RoundRobin(_) => "round_robin",
            LoadBalancingStrategy::LeastConnections(_) => "least_connections",
        }
    }

    /// Change the load balancing strategy at runtime.
    pub fn set_strategy(&mut self, new_strategy: LoadBalancingStrategy)
        ensures
            final(self).strategy() == new_strategy,
            final(self).hosts() == old(self).hosts(),
            final(self).collector() == old(self).collector(),
            final(self).engine() == old(self).engine(),
    {
        self.strategy = new_strategy;
    }

    /// Get the worker host list.
    pub fn worker_hosts(&self) -> (r: &Vec<WorkerUrl>)
        ensures
            r@ == self.hosts(),
    {
        &self.worker_hosts
    }

    /// Get the metrics collector.
    pub fn metrics_collector(&self) -> (r: &MetricsCollector)
        ensures
            *r == self.collector(),
    {
        &self.metrics_collector
    }

    /// Record a successful request to a worker.
    pub fn record_success(&mut self, worker_index: usize, duration: Duration)
        ensures
            final(self).collector()@ == record_sample(
                old(self).collector()@,
                worker_index as int,
                duration_millis(duration) as u64,
                0,
            ),
            final(self).hosts() == old(self).hosts(),
            old(self).wf() ==> final(self).wf(),
            final(self).strategy() == old(self).strategy(),
            final(self).engine() == old(self).engine(),
    {
        self.metrics_collector.record_success(worker_index, duration);
        proof {
            crate::services::metrics::lemma_record_touches_one_worker(
                old(self).collector()@,
                worker_index as int,
                duration_millis(duration) as u64,
                0,
            );
        }
    }

    /// Record a failed request to a worker.
    pub fn record_error(&mut self, worker_index: usize, duration: Duration)
        ensures
            final(self).collector()@ == record_sample(
                old(self).collector()@,
                worker_index as int,
                duration_millis(duration) as u64,
                FIXED_POINT_SCALE as u64,
            ),
            final(self).hosts() == old(self).hosts(),
            old(self).wf() ==> final(self).wf(),
            final(self).strategy() == old(self).strategy(),
            final(self).engine() == old(self).engine(),
    {
        self.metrics_collector.record_error(worker_index, duration);
        proof {
            crate::services::metrics::lemma_record_touches_one_worker(
                old(self).collector()@,
                worker_index as int,
                duration_millis(duration) as u64,
                FIXED_POINT_SCALE as u64,
            );
        }
    }

    /// Get the decision engine if adaptive mode is enabled.
    pub fn decision_engine(&self) -> (r: Option<&DecisionEngine>)
        ensures
            r is Some <==> self.engine() is Some,
            r matches Some(e) ==> *e == self.engine().unwrap(),
    {
        self.decision_engine.as_ref()
    }

    /// Evaluate the metrics and adapt the strategy, in adaptive mode only.
    /// The decision is the engine's: while its cooldown lasts (which depends
    /// on the clock) the strategy is kept.
    pub fn evaluate_and_adapt(&mut self) -> (r: Result<(), LoadBalancerError>)
        ensures
            old(self).engine() is None ==> *final(self) == *old(self) && r is Ok,
            old(self).engine() is Some && old(self).wf() ==> {
                let e = old(self).engine().unwrap();
                let d = decide(old(self).collector()@, e.thresholds(), e.current(), true);
                &&& r is Ok
                &&& adapted_by(*old(self), *final(self), d) || adapted_by(
                    *old(self),
                    *final(self),
                    Decision::KeepCurrent,
                )
                &&& !e.has_switched() ==> adapted_by(*old(self), *final(self), d)
            },
    {
        let decision = match &self.decision_engine {
            None => {
                return Ok(());
            },
            Some(engine) => engine.evaluate(&self.metrics_collector)?,
        };
        if let Decision::SwitchTo { strategy, reason: _ } = decision {
            let new_strategy = match strategy {
                StrategyType::RoundRobin => LoadBalancingStrategy::new_round_robin(),
                StrategyType::LeastConnections => {
                    LoadBalancingStrategy::new_least_connections(self.worker_hosts.len())?
                },
            };
            self.set_strategy(new_strategy);
            match &mut self.decision_engine {
                Some(engine) => {
                    engine.apply_decision(&decision)?;
                },
                None => {},
            }
        }
        Ok(())
    }

    /// Check if adaptive mode is enabled.
    pub fn is_adaptive(&self) -> (r: bool)
        ensures
            r == self.engine() is Some,
    {
        self.decision_engine.is_some()
    }
}

} // verus!
