//! A parallel fan-out execution engine: items pulled from a shared cursor are
//! distributed over a fixed pool of workers while a supervisor routine runs on
//! the calling thread and may request a cooperative stop.
//!
//! This crate holds the verified coordination logic: the shared cursor's
//! state transitions, the resolution of the worker-count policy, the
//! precedence rules that turn per-worker outcomes into one engine result, and
//! the laws that justify summing a partitioned work sequence. The thread
//! plumbing that drives these decisions lives outside the verified core.

pub mod anyhow_errors;
pub mod cursor;
pub mod parallel_for_each;
pub mod partition;
