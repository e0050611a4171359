//! The common interface of the load balancing strategies.

use vstd::prelude::*;
use crate::domain::LoadBalancerError;

verus! {

/// Common interface of the load balancing strategies.
pub trait Strategy: Sized {
    /// Select the next worker; the result is an index below `worker_count`.
    fn select_worker(&mut self, worker_count: usize) -> (r: Result<usize, LoadBalancerError>)
        ensures
            (r matches Ok(i) ==> i < worker_count),
            worker_count == 0 ==> (r matches Err(LoadBalancerError::NoWorkersAvailable)),
    ;

    /// Notify the strategy that a connection to a worker has started.
    fn connection_started(&mut self, worker_index: usize)
        default_ensures
            *final(self) == *old(self),
    {
    }

    /// Notify the strategy that a connection to a worker has ended.
    fn connection_ended(&mut self, worker_index: usize)
        default_ensures
            *final(self) == *old(self),
    {
    }

    /// The strategy name for debugging and logging.
    fn strategy_name(&self) -> &'static str;

    /// Validate the configuration against a worker count; any positive count
    /// is accepted unless the strategy says otherwise.
    fn validate_worker_count(&self, worker_count: usize) -> (r: Result<(), LoadBalancerError>)
        ensures
            worker_count == 0 ==> (r matches Err(LoadBalancerError::NoWorkersAvailable)),
            r is Ok ==> worker_count > 0,
        default_ensures
            worker_count == 0 ==> (r matches Err(LoadBalancerError::NoWorkersAvailable)),
            worker_count > 0 <==> r is Ok,
    {
        if worker_count == 0 {
            Err(LoadBalancerError::NoWorkersAvailable)
        } else {
            Ok(())
        }
    }
}

} // verus!
