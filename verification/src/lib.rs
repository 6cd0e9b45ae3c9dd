//! Dynamic DNS reconciliation: keeps address records of hosted zones pointed at
//! the current public address of this host.
//!
//! The crate holds the decisions only. Every function here maps plain values to
//! plain values: a caller performs the network requests, waits on timers and
//! signals, and hands the results back as events.

pub mod address;
pub mod config;
pub mod credential_provider;
pub mod reconcile;
pub mod scheduler;
pub mod supervisor;
pub mod text;
pub mod trace;
pub mod version;
