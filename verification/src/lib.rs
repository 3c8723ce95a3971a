//! Approval gate for a batch job.
//!
//! A poller repeatedly queries a remote authorization service for an
//! approve/cancel decision tied to a unique job identifier, classifies each
//! response into a tri-state decision, recovers from authentication expiry
//! through a bounded credential-refresh protocol, and on a terminal decision
//! reports which sentinel file to write and which exit status to use.
//!
//! This crate holds the decision logic: response classification, the refresh
//! state machine, configuration validation, and the construction of endpoint
//! URLs and sentinel paths. The surrounding process performs the HTTP calls,
//! file reads and writes, and sleeps, and feeds their outcomes back in as
//! plain values.

pub mod client;
pub mod config;
pub mod json;
pub mod poller;
pub mod refresh;
pub mod response;
pub mod text;
