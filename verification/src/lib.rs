//! An HTTP load balancer's core: worker selection strategies, metrics with
//! exponential moving averages, and the adaptive decision engine.

pub mod admin;
pub mod domain;
pub mod load_balancer;
pub mod load_balancing_strategy;
pub mod routes;
pub mod services;
pub mod strategy;
pub mod utils;

pub use domain::{LoadBalancerError, StrategyType};
