//! Strategies as one enum with their state in its variants.

use vstd::prelude::*;
use crate::load_balancing_strategy::least_connections::{count_started, is_first_minimum};
use crate::load_balancing_strategy::round_robin::next_counter;

verus! {

/// The count after a connection ended: it wraps around below zero.
pub open spec fn count_released(c: usize) -> usize {
    if c == 0 {
        usize::MAX
    } else {
        (c - 1) as usize
    }
}

/// Available load balancing strategies.
#[derive(Debug)]
pub enum LoadBalancingStrategy {
    RoundRobin { current: usize },
    LeastConnections { connections: Vec<usize> },
}

impl LoadBalancingStrategy {
    /// Select the next worker. Round robin needs at least one worker; least
    /// connections picks the first worker with the fewest connections, or 0
    /// when it tracks none.
    pub fn select_worker(&mut self, worker_count: usize) -> (r: usize)
        requires
            *old(self) is RoundRobin ==> worker_count > 0,
        ensures
            match *old(self) {
                LoadBalancingStrategy::RoundRobin { current } => {
                    &&& r == current % worker_count
                    &&& *final(self) == (LoadBalancingStrategy::RoundRobin { current: next_counter(current) })
                },
                LoadBalancingStrategy::LeastConnections { connections } => {
                    &&& *final(self) == *old(self)
                    &&& connections@.len() > 0 ==> is_first_minimum(connections@, r as int)
                    &&& connections@.len() == 0 ==> r == 0
                },
            },
    {
        match self {
            LoadBalancingStrategy::RoundRobin { current } => {
                let current_worker = *current;
                *current = current_worker.wrapping_add(1);
                current_worker % worker_count
            },
            LoadBalancingStrategy::LeastConnections { connections } => {
                let mut least_index: usize = 0;
                let mut least_connections: usize = usize::MAX;
                let n = connections.len();
                let mut i: usize = 0;
                while i < n
                    invariant
                        n == connections@.len(),
                        i <= n,
                        n > 0 ==> least_index < n,
                        n == 0 ==> least_index == 0,
                        i > 0 ==> least_connections == connections@[least_index as int],
                        i > 0 ==> least_index < i,
                        i == 0 ==> least_index == 0 && least_connections == usize::MAX,
                        forall|j: int| 0 <= j < i ==> least_connections <= #[trigger] connections@[j],
                        forall|j: int| 0 <= j < least_index ==> least_connections < #[trigger] connections@[j],
                    decreases n - i,
                {
                    let conn_count = connections[i];
                    if conn_count < least_connections {
                        least_connections = conn_count;
                        least_index = i;
                    } else if i == 0 {
                        least_connections = conn_count;
                    }
                    i = i + 1;
                }
                least_index
            },
        }
    }

    /// Notify that a connection to a worker has started; least connections
    /// counts it (an index out of range changes nothing).
    pub fn connection_started(&mut self, worker_index: usize)
        ensures
            match *old(self) {
                LoadBalancingStrategy::RoundRobin { .. } => *final(self) == *old(self),
                LoadBalancingStrategy::LeastConnections { connections } => *final(self) matches LoadBalancingStrategy::LeastConnections { connections: c2 }
                    && c2@ == if worker_index < connections@.len() {
                        connections@.update(worker_index as int, count_started(connections@[worker_index as int]))
                    } else {
                        connections@
                    },
            },
    {
        if let LoadBalancingStrategy::LeastConnections { connections } = self {
            if worker_index < connections.len() {
                let c = connections[worker_index];
                connections.set(worker_index, c.wrapping_add(1));
            }
        }
    }

    /// Notify that a connection to a worker has ended; least connections
    /// counts one fewer, wrapping around below zero. The index must name a
    /// tracked worker.
    pub fn connection_ended(&mut self, worker_index: usize)
        requires
            *old(self) matches LoadBalancingStrategy::LeastConnections { connections }
                ==> worker_index < connections@.len(),
        ensures
            match *old(self) {
                LoadBalancingStrategy::RoundRobin { .. } => *final(self) == *old(self),
                LoadBalancingStrategy::LeastConnections { connections } => *final(self) matches LoadBalancingStrategy::LeastConnections { connections: c2 }
                    && c2@ == connections@.update(
                        worker_index as int,
                        count_released(connections@[worker_index as int]),
                    ),
            },
    {
        if let LoadBalancingStrategy::LeastConnections { connections } = self {
            let c = connections[worker_index];
            connections.set(worker_index, c.wrapping_sub(1));
        }
    }

    /// Create a new round robin strategy.
    pub fn new_round_robin() -> (r: Self)
        ensures
            r == (LoadBalancingStrategy::RoundRobin { current: 0 }),
    {
        LoadBalancingStrategy::RoundRobin { current: 0 }
    }

    /// Create a new least connections strategy with a zero counter per worker.
    pub fn new_least_connections(worker_count: usize) -> (r: Self)
        ensures
            r matches LoadBalancingStrategy::LeastConnections { connections }
                && connections@ == Seq::new(worker_count as nat, |i: int| 0usize),
    {
        let mut connections: Vec<usize> = Vec::new();
        let mut i: usize = 0;
        while i < worker_count
            invariant
                i <= worker_count,
                connections@ == Seq::new(i as nat, |k: int| 0usize),
            decreases worker_count - i,
        {
            connections.push(0);
            i = i + 1;
            assert(connections@ =~= Seq::new(i as nat, |k: int| 0usize));
        }
        LoadBalancingStrategy::LeastConnections { connections }
    }
}

} // verus!
