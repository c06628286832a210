//! Validated state transitions of a registry of repositories, modules, forks
//! and aggregate metrics.
//!
//! Every record of the registry is a plain value. Each operation is one
//! read-modify-write on a fixed set of records: it either commits in full or
//! returns a tagged error and leaves every record as it was. The host that
//! stores the records, checks signatures and derives addresses is not part of
//! this crate: it hands keys, nonces and the clock in as plain values.

pub mod constants;
pub mod errors;
pub mod events;
pub mod instructions;
pub mod ledger;
pub mod state;
pub mod utils;
