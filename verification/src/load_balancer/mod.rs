//! The first form of the load balancer, over the enum strategies.

pub mod pool;

pub use pool::LoadBalancer;
