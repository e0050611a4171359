//! Shared helpers: configuration, constants, data models and text building.

pub mod config;
pub mod constants;
pub mod models;
pub mod text;
pub mod time;

pub use config::{Config, LoadBalancerConfig};
