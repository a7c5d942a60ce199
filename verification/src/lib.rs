//! Polling dispatcher core: identifiers discovered in a cycle are validated,
//! admitted to a bounded pool of forward operations and classified by outcome.
//!
//! Every function here works on plain values. Network traffic, timers and
//! printing belong to the program that drives these state machines.

pub mod config;
pub mod discovery;
pub mod dispatcher;
pub mod forward;
pub mod identifier;
pub mod report;
pub mod scheduler;
pub mod status;
