//! The first form of the strategies: one enum that holds the counters.

pub mod algorithms;

pub use algorithms::LoadBalancingStrategy;
