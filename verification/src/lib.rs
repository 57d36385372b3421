//! A poll ledger for a CosmWasm host: polls are created under their question,
//! collect "yes" and "no" votes, and are read back by question.
//!
//! `state` holds the records and the mathematical model of what is stored,
//! `host` the handles on the host's storage, `contract` the entry points and
//! `laws` what holds across calls.

pub mod contract;
pub mod error;
pub mod host;
pub mod laws;
pub mod msg;
pub mod state;
