//! Load balancing strategies behind a common interface.

pub mod least_connections;
pub mod round_robin;
pub mod traits;

pub use least_connections::LeastConnections;
pub use round_robin::RoundRobin;
pub use traits::Strategy;

use vstd::prelude::*;
use crate::domain::{LoadBalancerError, StrategyType};
use least_connections::{count_ended, count_started, is_first_minimum, mismatch_message};
use round_robin::next_counter;

verus! {

/// The strategy in use, one of the algorithms.
#[derive(Debug)]
pub enum LoadBalancingStrategy {
    RoundRobin(RoundRobin),
    LeastConnections(LeastConnections),
}

impl LoadBalancingStrategy {
    /// The kind of the strategy.
    pub open spec fn kind(&self) -> StrategyType {
        match self {
            LoadBalancingStrategy::RoundRobin(_) => StrategyType::RoundRobin,
            LoadBalancingStrategy::LeastConnections(_) => StrategyType::LeastConnections,
        }
    }

    /// A selection among `worker_count` workers succeeds: there is a worker,
    /// and least connections was created for exactly that many.
    pub open spec fn can_select(&self, worker_count: nat) -> bool {
        &&& worker_count > 0
        &&& self matches LoadBalancingStrategy::LeastConnections(lc) ==> lc@.len() == worker_count
    }

    /// `i` is the worker a selection among `worker_count` workers picks:
    /// the counter modulo the count for round robin, the first worker with
    /// the fewest connections for least connections.
    pub open spec fn picks(&self, worker_count: nat, i: int) -> bool {
        match self {
            LoadBalancingStrategy::RoundRobin(rr) => worker_count > 0 && i == (rr.counter() as nat) % worker_count,
            LoadBalancingStrategy::LeastConnections(lc) => is_first_minimum(lc@, i),
        }
    }

    /// The state after a successful selection: round robin moves its counter
    /// on, least connections is unchanged.
    pub open spec fn advanced(&self, after: LoadBalancingStrategy) -> bool {
        match self {
            LoadBalancingStrategy::RoundRobin(rr) => after matches LoadBalancingStrategy::RoundRobin(rr2)
                && rr2.counter() == next_counter(rr.counter()),
            LoadBalancingStrategy::LeastConnections(_) => after == *self,
        }
    }

    /// The state after a connection to worker `i` started: least connections
    /// counts it (for a worker it tracks), round robin is unchanged.
    pub open spec fn started_at(&self, after: LoadBalancingStrategy, i: int) -> bool {
        match self {
            LoadBalancingStrategy::RoundRobin(_) => after == *self,
            LoadBalancingStrategy::LeastConnections(lc) => after matches LoadBalancingStrategy::LeastConnections(lc2)
                && lc2@ == if 0 <= i < lc@.len() {
                    lc@.update(i, count_started(lc@[i]))
                } else {
                    lc@
                },
        }
    }

    /// The state after a worker `i` was selected and its connection started.
    pub open spec fn began(&self, after: LoadBalancingStrategy, i: int) -> bool {
        match self {
            LoadBalancingStrategy::RoundRobin(_) => self.advanced(after),
            LoadBalancingStrategy::LeastConnections(_) => self.started_at(after, i),
        }
    }

    /// The state after a connection to worker `i` ended: least connections
    /// counts one fewer, never below zero (for a worker it tracks), round
    /// robin is unchanged.
    pub open spec fn ended_at(&self, after: LoadBalancingStrategy, i: int) -> bool {
        match self {
            LoadBalancingStrategy::RoundRobin(_) => after == *self,
            LoadBalancingStrategy::LeastConnections(lc) => after matches LoadBalancingStrategy::LeastConnections(lc2)
                && lc2@ == if 0 <= i < lc@.len() {
                    lc@.update(i, count_ended(lc@[i]))
                } else {
                    lc@
                },
        }
    }

    /// Create a new round robin strategy.
    pub fn new_round_robin() -> (r: Self)
        ensures
            r matches LoadBalancingStrategy::RoundRobin(rr) && rr.counter() == 0,
    {
        LoadBalancingStrategy::RoundRobin(RoundRobin::new())
    }

    /// Create a new least connections strategy for `worker_count` workers.
    pub fn new_least_connections(worker_count: usize) -> (r: Result<Self, LoadBalancerError>)
        ensures
            worker_count > 0 <==> r is Ok,
            r matches Ok(s) ==> s matches LoadBalancingStrategy::LeastConnections(lc)
                && lc@ == Seq::new(worker_count as nat, |i: int| 0usize),
            r matches Err(e) ==> e matches LoadBalancerError::Configuration { message }
                && message@ == "Cannot create least connections strategy with 0 workers"@,
    {
        Ok(LoadBalancingStrategy::LeastConnections(LeastConnections::new(worker_count)?))
    }

    /// Get the strategy name.
    pub fn strategy_name(&self) -> (r: &'static str)
        ensures
            r@ == self.kind().name(),
    {
        match self {
            LoadBalancingStrategy::RoundRobin(rr) => rr.strategy_name(),
            LoadBalancingStrategy::LeastConnections(lc) => lc.strategy_name(),
        }
    }

    /// Select a worker with the underlying algorithm.
    pub fn select_worker(&mut self, worker_count: usize) -> (r: Result<usize, LoadBalancerError>)
        ensures
            old(self).can_select(worker_count as nat) <==> r is Ok,
            r matches Ok(i) ==> i < worker_count && old(self).picks(worker_count as nat, i as int)
                && old(self).advanced(*final(self)),
            r is Err ==> *final(self) == *old(self),
            worker_count == 0 ==> (r matches Err(LoadBalancerError::NoWorkersAvailable)),
            match *old(self) {
                LoadBalancingStrategy::LeastConnections(lc) => worker_count > 0 && worker_count
                    != lc@.len() ==> (r matches Err(e)
                    && e matches LoadBalancerError::Configuration { message }
                    && message@ == mismatch_message(lc@.len(), worker_count as nat)),
                LoadBalancingStrategy::RoundRobin(_) => true,
            },
    {
        match self {
            LoadBalancingStrategy::RoundRobin(rr) => rr.select_worker(worker_count),
            LoadBalancingStrategy::LeastConnections(lc) => lc.select_worker(worker_count),
        }
    }

    /// Notify that a connection to a worker has started.
    pub fn connection_started(&mut self, worker_index: usize)
        ensures
            old(self).started_at(*final(self), worker_index as int),
    {
        match self {
            LoadBalancingStrategy::RoundRobin(rr) => rr.connection_started(worker_index),
            LoadBalancingStrategy::LeastConnections(lc) => lc.connection_started(worker_index),
        }
    }

    /// Notify that a connection to a worker has ended.
    pub fn connection_ended(&mut self, worker_index: usize)
        ensures
            old(self).ended_at(*final(self), worker_index as int),
    {
        match self {
            LoadBalancingStrategy::RoundRobin(rr) => rr.connection_ended(worker_index),
            LoadBalancingStrategy::LeastConnections(lc) => lc.connection_ended(worker_index),
        }
    }
}

} // verus!
