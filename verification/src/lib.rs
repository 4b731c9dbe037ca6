//! Core library of a local developer console that builds, runs, stops and
//! health-checks a small fixed set of long-lived helper services.
//!
//! The library holds the verified heart of the console: the service registry
//! and its lifecycle protocol, a TTL cache, a sliding-window rate limiter,
//! an exponential-backoff retry executor, and the pure helpers they share.
//! Process spawning, HTTP probes and the async plumbing live outside, in the
//! thin shell that drives this library.

pub mod cache;
pub mod clock;
pub mod config;
pub mod helpers;
pub mod jsonio;
pub mod lifecycle;
pub mod logstream;
pub mod ports;
pub mod rate_limit;
pub mod registry;
pub mod retry;
pub mod strutil;
pub mod types;
