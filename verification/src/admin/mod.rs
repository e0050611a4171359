//! The first form of the administrative endpoints, over strategy names.

pub mod handlers;
