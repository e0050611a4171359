//! Administrative operations: reading and changing the strategy.

use vstd::prelude::*;
use vstd::string::*;
use crate::domain::{
    change_message, ChangeStrategyRequest, ChangeStrategyResponse, DecisionStatusResponse, LoadBalancerError,
    MetricsResponse, StrategyResponse, StrategyType, WorkerMetricsReport, WorkerMetricsView, WorkerUrl,
};
use crate::load_balancing_strategy::LoadBalancingStrategy;
use crate::services::load_balancer::{is_fresh_strategy, LoadBalancerService};
use crate::utils::text::text_equals;
use crate::utils::time::{duration_nanos, nanos_per_second};

verus! {

/// What a strategy change leaves: the same service when the requested
/// strategy is already in use, otherwise a fresh strategy of the requested
/// kind with everything else unchanged.
pub open spec fn changed_to(before: LoadBalancerService, after: LoadBalancerService, requested: StrategyType) -> bool {
    if before.strategy().kind() == requested {
        after == before
    } else {
        &&& is_fresh_strategy(after.strategy(), requested, before.hosts().len())
        &&& after.hosts() == before.hosts()
        &&& after.collector() == before.collector()
        &&& after.engine() == before.engine()
    }
}

/// A change to `requested` needs a least connections strategy for a
/// service without workers.
pub open spec fn lacks_workers_for(service: LoadBalancerService, requested: StrategyType) -> bool {
    &&& service.strategy().kind() != requested
    &&& requested == StrategyType::LeastConnections
    &&& service.hosts().len() == 0
}

/// Get the strategy in use.
pub fn get_current_strategy(service: &LoadBalancerService) -> (r: Result<StrategyResponse, LoadBalancerError>)
    ensures
        r matches Ok(resp) && resp.current_strategy == service.strategy().kind(),
{
    let strategy_name = service.get_strategy_name();
    let strategy = match StrategyType::from_str(strategy_name) {
        Ok(s) => s,
        Err(_) => {
            let mut message = String::from_str("Invalid strategy stored: ");
            message.append(strategy_name);
            return Err(LoadBalancerError::Internal { message });
        },
    };
    Ok(StrategyResponse::new(&strategy))
}

/// Change the strategy to the requested one. A strategy already in use is
/// kept as it is; otherwise a fresh strategy of the requested kind replaces
/// it. Least connections cannot be made for a service without workers
/// (which no constructor of the service makes).
pub fn change_strategy(
    service: &mut LoadBalancerService,
    request: &ChangeStrategyRequest,
) -> (r: Result<ChangeStrategyResponse, LoadBalancerError>)
    ensures
        !lacks_workers_for(*old(service), request.strategy) ==> (r matches Ok(resp)
            && resp.strategy == request.strategy && resp.message@ == change_message(request.strategy)
            && changed_to(*old(service), *final(service), request.strategy)),
        lacks_workers_for(*old(service), request.strategy) ==> (r matches Err(e)
            && e matches LoadBalancerError::Configuration { message }
            && message@ == "Cannot create least connections strategy with 0 workers"@),
        r is Ok ==> final(service).strategy().kind() == request.strategy,
        r is Err ==> *final(service) == *old(service),
{
    let strategy_str = request.strategy.as_str();
    let current_strategy_name = service.get_strategy_name();
    proof {
        crate::domain::lemma_names_are_lowercase_ascii();
    }
    if text_equals(current_strategy_name, strategy_str) {
        return Ok(ChangeStrategyResponse::new(&request.strategy));
    }
    let new_strategy = match request.strategy {
        StrategyType::RoundRobin => LoadBalancingStrategy::new_round_robin(),
        StrategyType::LeastConnections => {
            let worker_count = service.worker_hosts().len();
            LoadBalancingStrategy::new_least_connections(worker_count)?
        },
    };
    service.set_strategy(new_strategy);
    let actual_strategy_name = service.get_strategy_name();
    if !text_equals(actual_strategy_name, strategy_str) {
        return Err(LoadBalancerError::internal("Strategy change verification failed"));
    }
    Ok(ChangeStrategyResponse::new(&request.strategy))
}

/// After a change of strategy the strategy read back is the requested one.
pub proof fn lemma_change_then_read(
    before: LoadBalancerService,
    after: LoadBalancerService,
    requested: StrategyType,
)
    requires
        changed_to(before, after, requested),
    ensures
        after.strategy().kind() == requested,
{
}

/// Changing to the strategy in use changes nothing: a second identical
/// change leaves the service as the first one left it.
pub proof fn lemma_change_is_idempotent(
    before: LoadBalancerService,
    middle: LoadBalancerService,
    after: LoadBalancerService,
    requested: StrategyType,
)
    requires
        changed_to(before, middle, requested),
        changed_to(middle, after, requested),
    ensures
        after == middle,
{
}

/// The report of worker `index`, at `url`, with metrics `m`.
pub open spec fn reports_worker(r: WorkerMetricsReport, index: int, url: Seq<char>, m: WorkerMetricsView) -> bool {
    &&& r.index == index
    &&& r.url@ == url
    &&& r.total_requests == m.sample_count
    &&& r.error_count == m.error_count
    &&& r.error_rate == m.ema_error_rate
    &&& r.avg_latency_ms == m.ema_latency_ms
}

/// The metrics of every worker, in the order of the pool.
pub fn get_metrics(service: &LoadBalancerService) -> (r: MetricsResponse)
    ensures
        service.wf() ==> r.workers@.len() == service.hosts().len(),
        r.workers@.len() <= service.hosts().len(),
        forall|i: int|
            0 <= i < r.workers@.len() ==> i < service.collector()@.len() && reports_worker(
                #[trigger] r.workers@[i],
                i,
                service.hosts()[i]@,
                service.collector()@[i],
            ),
{
    let hosts = service.worker_hosts();
    let collector = service.metrics_collector();
    let all = collector.all_metrics();
    let metered = all.len();
    proof {
        assert(all@.map_values(|m: crate::domain::WorkerMetrics| m@).len() == metered);
    }
    let n = if hosts.len() < metered { hosts.len() } else { metered };
    let mut workers: Vec<WorkerMetricsReport> = Vec::new();
    let mut i: usize = 0;
    while i < n
        invariant
            hosts@ == service.hosts(),
            *collector == service.collector(),
            n <= hosts@.len(),
            n <= collector@.len(),
            service.wf() ==> n == hosts@.len(),
            i <= n,
            workers@.len() == i,
            forall|j: int|
                0 <= j < i ==> j < collector@.len() && reports_worker(
                    #[trigger] workers@[j],
                    j,
                    hosts@[j]@,
                    collector@[j],
                ),
        decreases n - i,
    {
        let m = collector.get_worker_metrics(i).unwrap();
        let url = String::from_str(hosts[i].as_str());
        workers.push(WorkerMetricsReport {
            index: i,
            url,
            total_requests: m.request_count(),
            error_count: m.error_count(),
            error_rate: m.get_ema_error_rate(),
            avg_latency_ms: m.get_ema_latency_ms(),
        });
        i = i + 1;
    }
    MetricsResponse { workers }
}

/// The state of adaptive switching: whether it is on, the strategy in use,
/// and, in adaptive mode, whether a switch is allowed now, the seconds left
/// of the cooldown and the reason of the last switch. Whether the cooldown
/// is over depends on the clock; before the first switch it is, and the
/// seconds left never exceed the configured cooldown. Without adaptive mode
/// no switch happens: none is allowed and no cooldown runs.
pub fn get_decision_status(service: &LoadBalancerService) -> (r: DecisionStatusResponse)
    ensures
        r.adaptive_enabled == service.engine() is Some,
        r.current_strategy == service.strategy().kind(),
        service.engine() is None ==> !r.can_switch && r.cooldown_remaining_seconds is None
            && r.last_switch_reason is None,
        service.engine() matches Some(e) ==> {
            &&& r.last_switch_reason == e.last_reason()
            &&& !e.has_switched() ==> r.can_switch && r.cooldown_remaining_seconds is None
            &&& duration_nanos(e.thresholds().cooldown) == 0 ==> r.can_switch && r.cooldown_remaining_seconds is None
            &&& r.cooldown_remaining_seconds matches Some(secs) ==> secs <= (duration_nanos(e.thresholds().cooldown) as int)
                / nanos_per_second()
        },
{
    let current_strategy = match get_current_strategy(service) {
        Ok(resp) => resp.current_strategy,
        Err(_) => StrategyType::RoundRobin,
    };
    match service.decision_engine() {
        None => DecisionStatusResponse {
            adaptive_enabled: false,
            current_strategy,
            can_switch: false,
            cooldown_remaining_seconds: None,
            last_switch_reason: None,
        },
        Some(engine) => {
            let can_switch = match engine.can_switch() {
                Ok(b) => b,
                Err(_) => false,
            };
            let cooldown_remaining_seconds = match engine.cooldown_remaining_seconds() {
                Ok(secs) => secs,
                Err(_) => None,
            };
            DecisionStatusResponse {
                adaptive_enabled: true,
                current_strategy,
                can_switch,
                cooldown_remaining_seconds,
                last_switch_reason: engine.last_switch_reason(),
            }
        },
    }
}

} // verus!
