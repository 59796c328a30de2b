//! Outbound fetch subsystem for a space-data polling service.
//!
//! The library holds the decision logic of the fetch pipeline: a
//! windowed rate limiter, a bounded-retry policy for upstream HTTP
//! responses, per-source single-flight exclusion, independent
//! per-source scheduling, JSON envelope normalization, and the shared
//! error plumbing. Actual I/O (HTTP, storage, timers) lives outside
//! and drives these components with plain values.

pub mod api;
pub mod config;
pub mod dates;
pub mod digits;
pub mod errors;
pub mod fetch;
pub mod json;
pub mod models;
pub mod rate_limiter;
pub mod retry;
pub mod scheduler;
pub mod single_flight;
pub mod text;
