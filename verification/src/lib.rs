//! Bounded concurrent fan-out fetch orchestration.
//!
//! Given a list of keys, a fetch capability and a policy, the orchestrator
//! retrieves one record per key while bounding how many retrievals are in
//! flight at once, enforcing a per-item deadline, and aggregating the
//! per-item outcomes under one of two policies: abort the whole batch on the
//! first failure, or keep only the successes.
//!
//! The concurrent driver (threads, timers, the actual data source) lives
//! outside this crate; the crate provides the verified decision core: a
//! state machine that the driver advances one event at a time, together with
//! the permit accounting, the deadline-race bookkeeping and the aggregation
//! rules, plus the plain data model of the surrounding user service.

pub mod aggregator;
pub mod auth;
pub mod config;
pub mod guard;
pub mod limiter;
pub mod models;
pub mod orchestrator;
pub mod outcome;
pub mod policy;
pub mod token;
