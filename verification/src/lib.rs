//! Core of a benchmarking driver for external mate-solving engines.
//!
//! The library holds the verified logic of the driver: run-configuration
//! validation, the per-job statistics aggregate and its update discipline,
//! the engine-session command sequences, the bounded-concurrency job
//! accounting, and the report computations. Process spawning, command
//! transport, thread-pool plumbing and terminal output live outside the
//! library and exchange plain values with it.

pub mod config;
pub mod job;
pub mod report;
pub mod scheduler;
pub mod session;
pub mod stats;
