//! The first form of the load balancer: a pool of worker URLs and one
//! strategy of the enum form, which picks the worker for each request.

use vstd::prelude::*;
use vstd::string::*;
use crate::load_balancing_strategy::least_connections::{count_started, is_first_minimum};
use crate::load_balancing_strategy::round_robin::next_counter;
use crate::strategy::algorithms::{count_released, LoadBalancingStrategy};

verus! {

/// The worker a strategy picks next lies in a non-empty pool of
/// `worker_count` workers: round robin's always does; least connections
/// picks its first counter with the fewest connections, which must name a
/// worker of the pool (with no counters it picks worker 0).
pub open spec fn picks_within(strategy: LoadBalancingStrategy, worker_count: nat) -> bool {
    match strategy {
        LoadBalancingStrategy::RoundRobin { .. } => true,
        LoadBalancingStrategy::LeastConnections { connections } => forall|i: int|
            #[trigger] is_first_minimum(connections@, i) ==> i < worker_count,
    }
}

/// The name of a strategy as the administrative API reports it.
pub open spec fn strategy_name_of(strategy: LoadBalancingStrategy) -> Seq<char> {
    match strategy {
        LoadBalancingStrategy::RoundRobin { .. } => "round_robin"@,
        LoadBalancingStrategy::LeastConnections { .. } => "least_connections"@,
    }
}

/// The URI of a request at a worker: the worker URL followed by the path and
/// query of the request, if it has one.
pub open spec fn forward_uri(url: Seq<char>, path_and_query: Option<Seq<char>>) -> Seq<char> {
    match path_and_query {
        Some(p) => url + p,
        None => url,
    }
}

/// A load balancer over a non-empty pool of worker URLs.
pub struct LoadBalancer {
    worker_hosts: Vec<String>,
    strategy: LoadBalancingStrategy,
}

impl LoadBalancer {
    /// The pool is not empty.
    #[verifier::type_invariant]
    spec fn wf(self) -> bool {
        self.worker_hosts@.len() > 0
    }

    /// The worker URLs.
    pub closed spec fn hosts(self) -> Seq<String> {
        self.worker_hosts@
    }

    /// The strategy in use.
    pub closed spec fn current(self) -> LoadBalancingStrategy {
        self.strategy
    }

    /// Create a load balancer; an empty pool is refused.
    pub fn new(worker_hosts: Vec<String>, strategy: LoadBalancingStrategy) -> (r: Result<Self, String>)
        ensures
            worker_hosts@.len() == 0 <==> r is Err,
            r matches Err(e) ==> e@ == "No worker hosts provided"@,
            r matches Ok(lb) ==> lb.hosts() == worker_hosts@ && lb.current() == strategy,
    {
        if worker_hosts.len() == 0 {
            return Err(String::from_str("No worker hosts provided"));
        }
        Ok(LoadBalancer { worker_hosts, strategy })
    }

    /// Start forwarding a request: pick a worker with the strategy, count
    /// the connection as started, and build the URI of the request at the
    /// worker. Returns the worker's index and that URI. The worker the
    /// strategy picks must lie in the pool.
    pub fn begin_forward(&mut self, path_and_query: Option<&str>) -> (r: (usize, String))
        requires
            picks_within(old(self).current(), old(self).hosts().len()),
        ensures
            final(self).hosts() == old(self).hosts(),
            r.0 < old(self).hosts().len(),
            r.1@ == forward_uri(
                old(self).hosts()[r.0 as int]@,
                match path_and_query {
                    Some(p) => Some(p@),
                    None => None,
                },
            ),
            match old(self).current() {
                LoadBalancingStrategy::RoundRobin { current } => {
                    &&& r.0 == current % (old(self).hosts().len() as usize)
                    &&& final(self).current() == (LoadBalancingStrategy::RoundRobin {
                        current: next_counter(current),
                    })
                },
                LoadBalancingStrategy::LeastConnections { connections } => {
                    &&& connections@.len() > 0 ==> is_first_minimum(connections@, r.0 as int)
                    &&& connections@.len() == 0 ==> r.0 == 0
                    &&& final(self).current() matches LoadBalancingStrategy::LeastConnections { connections: c2 }
                    &&& c2@ == if connections@.len() > 0 {
                        connections@.update(r.0 as int, count_started(connections@[r.0 as int]))
                    } else {
                        connections@
                    }
                },
            },
    {
        let (index, url) = self.get_worker();
        let mut uri = String::from_str(url.as_str());
        if let Some(p) = path_and_query {
            uri.append(p);
        }
        let mut strategy = LoadBalancingStrategy::new_round_robin();
        std::mem::swap(&mut strategy, &mut self.strategy);
        strategy.connection_started(index);
        self.strategy = strategy;
        (index, uri)
    }

    /// Finish forwarding a request to the worker at `worker_index`, which
    /// `begin_forward` picked: count the connection as ended.
    pub fn end_forward(&mut self, worker_index: usize)
        requires
            old(self).current() matches LoadBalancingStrategy::LeastConnections { connections }
                ==> worker_index < connections@.len(),
        ensures
            final(self).hosts() == old(self).hosts(),
            match old(self).current() {
                LoadBalancingStrategy::RoundRobin { .. } => final(self).current() == old(self).current(),
                LoadBalancingStrategy::LeastConnections { connections } => final(self).current() matches LoadBalancingStrategy::LeastConnections { connections: c2 }
                    && c2@ == connections@.update(
                        worker_index as int,
                        count_released(connections@[worker_index as int]),
                    ),
            },
    {
        proof {
            use_type_invariant(&*self);
        }
        let mut strategy = LoadBalancingStrategy::new_round_robin();
        std::mem::swap(&mut strategy, &mut self.strategy);
        strategy.connection_ended(worker_index);
        self.strategy = strategy;
    }

    /// Pick the next worker: its index and URL.
    fn get_worker(&mut self) -> (r: (usize, String))
        requires
            picks_within(old(self).current(), old(self).hosts().len()),
        ensures
            final(self).hosts() == old(self).hosts(),
            r.0 < old(self).hosts().len(),
            r.1@ == old(self).hosts()[r.0 as int]@,
            match old(self).current() {
                LoadBalancingStrategy::RoundRobin { current } => {
                    &&& r.0 == current % (old(self).hosts().len() as usize)
                    &&& final(self).current() == (LoadBalancingStrategy::RoundRobin {
                        current: next_counter(current),
                    })
                },
                LoadBalancingStrategy::LeastConnections { connections } => {
                    &&& final(self).current() == old(self).current()
                    &&& connections@.len() > 0 ==> is_first_minimum(connections@, r.0 as int)
                    &&& connections@.len() == 0 ==> r.0 == 0
                },
            },
    {
        let count = self.worker_hosts.len();
        proof {
            use_type_invariant(&*self);
        }
        let mut strategy = LoadBalancingStrategy::new_round_robin();
        std::mem::swap(&mut strategy, &mut self.strategy);
        let index = strategy.select_worker(count);
        self.strategy = strategy;
        (index, self.worker_hosts[index].clone())
    }

    /// The name of the strategy in use.
    pub fn get_strategy_name(&self) -> (r: String)
        ensures
            r@ == strategy_name_of(self.current()),
    {
        match self.strategy {
            LoadBalancingStrategy::RoundRobin { .. } => String::from_str("round_robin"),
            LoadBalancingStrategy::LeastConnections { .. } => String::from_str("least_connections"),
        }
    }

    /// Replace the strategy; requests from now on use the new one.
    pub fn set_strategy(&mut self, new_strategy: LoadBalancingStrategy)
        ensures
            final(self).hosts() == old(self).hosts(),
            final(self).current() == new_strategy,
    {
        proof {
            use_type_invariant(&*self);
        }
        self.strategy = new_strategy;
    }

    /// The worker URLs.
    pub fn worker_hosts(&self) -> (r: &Vec<String>)
        ensures
            r@ == self.hosts(),
    {
        &self.worker_hosts
    }
}

/// A forwarded request leaves the connection counters as they were: the
/// count that `begin_forward` raised is the count that `end_forward` lowers.
pub proof fn lemma_forward_restores_counts(connections: Seq<usize>, i: int)
    requires
        0 <= i < connections.len(),
    ensures
        connections.update(
            i,
            count_started(connections[i]),
        ).update(
            i,
            count_released(
                count_started(connections[i]),
            ),
        ) == connections,
{
    let started = count_started(connections[i]);
    assert(count_released(started) == connections[i]);
    assert(connections.update(i, started).update(
        i,
        count_released(started),
    ) =~= connections);
}

} // verus!
