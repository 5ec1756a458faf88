//! Startup supervision for a long-running service that has no readiness
//! protocol of its own.
//!
//! The crate holds the decisions of a process supervisor as pure, verified
//! functions: a fail-safe lazily initialised cell, the readiness channel built
//! on it, the classification of delivered signals, and the state machine that
//! races a health probe against the exit of the supervised child.

pub mod lazy_fail_init;
pub mod lifecycle;
pub mod sd_notify;
pub mod signal;
pub mod supervisor;
