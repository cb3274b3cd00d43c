//! Dependency health aggregation and status reporting for a small web service
//! backed by a relational database and an optional cache.
//!
//! The library holds the decisions: how probe outcomes combine into one
//! composite health state, which HTTP status each report is served with, how
//! uptime is measured, what the cache-through example returns, and how the
//! service's settings are resolved from its environment. Performing the
//! probes, talking to the backends and serving HTTP is left to the caller.

pub mod clock;
pub mod health;
pub mod status;
pub mod example;
pub mod config;
pub mod lifecycle;
