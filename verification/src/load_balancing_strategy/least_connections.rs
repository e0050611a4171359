//! Least connections: requests go to the worker with the fewest active
//! connections.

use vstd::prelude::*;
use vstd::string::*;
use crate::domain::LoadBalancerError;
use crate::utils::text::{decimal, push_decimal};
use super::traits::Strategy;

verus! {

/// `i` is the first index of a smallest count.
pub open spec fn is_first_minimum(s: Seq<usize>, i: int) -> bool {
    &&& 0 <= i < s.len()
    &&& forall|j: int| 0 <= j < s.len() ==> s[i] <= #[trigger] s[j]
    &&& forall|j: int| 0 <= j < i ==> s[i] < #[trigger] s[j]
}

/// The message of the error for a worker count other than the configured one.
pub open spec fn mismatch_message(configured: nat, requested: nat) -> Seq<char> {
    "Worker count mismatch: algorithm configured for "@ + decimal(configured)
        + " workers but "@ + decimal(requested) + " requested"@
}

/// The count after one more connection: it wraps around at `usize::MAX`.
pub open spec fn count_started(c: usize) -> usize {
    if c == usize::MAX {
        0
    } else {
        (c + 1) as usize
    }
}

/// The count after a connection ended: it never goes below zero.
pub open spec fn count_ended(c: usize) -> usize {
    if c > 0 {
        (c - 1) as usize
    } else {
        0
    }
}

/// A connection that starts and then ends leaves the counts as they were,
/// unless the count had reached `usize::MAX`.
pub proof fn lemma_start_then_end_restores(s: Seq<usize>, i: int)
    requires
        0 <= i < s.len(),
        s[i] < usize::MAX,
    ensures
        s.update(i, count_started(s[i])).update(i, count_ended(count_started(s[i]))) == s,
{
    assert(s.update(i, count_started(s[i])).update(i, count_ended(count_started(s[i]))) =~= s);
}

/// A count never goes below zero, and an ended connection removes at most
/// one from it.
pub proof fn lemma_end_never_below_zero(c: usize)
    ensures
        count_ended(c) <= c,
        c > 0 ==> count_ended(c) == c - 1,
        c == 0 ==> count_ended(c) == 0,
{
}

/// Least connections tracks the active connections per worker.
#[derive(Debug)]
pub struct LeastConnections {
    connections: Vec<usize>,
}

impl View for LeastConnections {
    type V = Seq<usize>;

    closed spec fn view(&self) -> Seq<usize> {
        self.connections@
    }
}

impl LeastConnections {
    /// Create a least connections instance for `worker_count` workers.
    pub fn new(worker_count: usize) -> (r: Result<Self, LoadBalancerError>)
        ensures
            worker_count > 0 <==> r is Ok,
            r matches Ok(lc) ==> lc@ == Seq::new(worker_count as nat, |i: int| 0usize),
            r matches Err(e) ==> e matches LoadBalancerError::Configuration { message }
                && message@ == "Cannot create least connections strategy with 0 workers"@,
    {
        if worker_count == 0 {
            return Err(
                LoadBalancerError::configuration(
                    "Cannot create least connections strategy with 0 workers",
                ),
            );
        }
        let mut connections: Vec<usize> = Vec::new();
        let mut i: usize = 0;
        while i < worker_count
            invariant
                i <= worker_count,
                connections@ == Seq::new(i as nat, |k: int| 0usize),
            decreases worker_count - i,
        {
            connections.push(0);
            i = i + 1;
            assert(connections@ =~= Seq::new(i as nat, |k: int| 0usize));
        }
        Ok(LeastConnections { connections })
    }
}

impl Strategy for LeastConnections {
    /// The first worker with the fewest connections.
    fn select_worker(&mut self, worker_count: usize) -> (r: Result<usize, LoadBalancerError>)
        ensures
            *final(self) == *old(self),
            worker_count > 0 && worker_count == old(self)@.len() ==> (r matches Ok(i)
                && is_first_minimum(old(self)@, i as int)),
            worker_count > 0 && worker_count != old(self)@.len() ==> (r matches Err(e)
                && e matches LoadBalancerError::Configuration { message }
                && message@ == mismatch_message(old(self)@.len(), worker_count as nat)),
    {
        self.validate_worker_count(worker_count)?;
        if self.connections.len() == 0 {
            return Err(
                LoadBalancerError::configuration(
                    "Least connections strategy has no connection counters configured",
                ),
            );
        }
        let mut least_index: usize = 0;
        let mut least_connections: usize = usize::MAX;
        let n = self.connections.len();
        let mut i: usize = 0;
        while i < n
            invariant
                n == self@.len(),
                n > 0,
                i <= n,
                least_index < n,
                i > 0 ==> least_connections == self@[least_index as int],
                i > 0 ==> least_index < i,
                i == 0 ==> least_index == 0 && least_connections == usize::MAX,
                forall|j: int| 0 <= j < i ==> least_connections <= #[trigger] self@[j],
                forall|j: int| 0 <= j < least_index ==> least_connections < #[trigger] self@[j],
                i > 0 ==> forall|j: int| 0 <= j < i ==> least_connections <= #[trigger] self@[j],
            decreases n - i,
        {
            let conn_count = self.connections[i];
            if conn_count < least_connections {
                least_connections = conn_count;
                least_index = i;
            } else if i == 0 {
                assert(conn_count == usize::MAX);
                least_connections = conn_count;
            }
            i = i + 1;
        }
        Ok(least_index)
    }

    /// One more connection to the worker; an index out of range changes
    /// nothing.
    fn connection_started(&mut self, worker_index: usize)
        ensures
            worker_index < old(self)@.len() ==> final(self)@ == old(self)@.update(
                worker_index as int,
                count_started(old(self)@[worker_index as int]),
            ),
            worker_index >= old(self)@.len() ==> final(self)@ == old(self)@,
    {
        if worker_index < self.connections.len() {
            let c = self.connections[worker_index];
            self.connections.set(worker_index, c.wrapping_add(1));
        }
    }

    /// One connection fewer to the worker, never below zero; an index out
    /// of range changes nothing.
    fn connection_ended(&mut self, worker_index: usize)
        ensures
            worker_index < old(self)@.len() ==> final(self)@ == old(self)@.update(
                worker_index as int,
                count_ended(old(self)@[worker_index as int]),
            ),
            worker_index >= old(self)@.len() ==> final(self)@ == old(self)@,
    {
        if worker_index < self.connections.len() {
            let c = self.connections[worker_index];
            if c > 0 {
                self.connections.set(worker_index, c - 1);
            }
        }
    }

    fn strategy_name(&self) -> (r: &'static str)
        ensures
            r@ == "least_connections"@,
    {
        "least_connections"
    }

    /// A worker count is accepted when it is positive and equals the number
    /// of workers the strategy was created for.
    fn validate_worker_count(&self, worker_count: usize) -> (r: Result<(), LoadBalancerError>)
        ensures
            worker_count > 0 && worker_count == self@.len() <==> r is Ok,
            worker_count == 0 ==> (r matches Err(LoadBalancerError::NoWorkersAvailable)),
            worker_count > 0 && worker_count != self@.len() ==> (r matches Err(e)
                && e matches LoadBalancerError::Configuration { message }
                && message@ == mismatch_message(self@.len(), worker_count as nat)),
    {
        if worker_count == 0 {
            return Err(LoadBalancerError::NoWorkersAvailable);
        }
        if worker_count != self.connections.len() {
            let mut message = String::from_str("Worker count mismatch: algorithm configured for ");
            push_decimal(&mut message, self.connections.len() as u64);
            message.append(" workers but ");
            push_decimal(&mut message, worker_count as u64);
            message.append(" requested");
            return Err(LoadBalancerError::Configuration { message });
        }
        Ok(())
    }
}

} // verus!
