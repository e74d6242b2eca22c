//! Settlement ledger for a two-sided ride-hailing marketplace.
//!
//! Driver-side and customer-side infrastructure operators register with a
//! country registry, post deposits, and transact through an escrow-based job
//! lifecycle: a customer infra funds a job's escrow, a driver accepts, the job
//! moves through pickup and completion (or a cancellation / dispute branch),
//! and every branch settles the escrowed funds with exact, exactly-once
//! transfers.
//!
//! The engine is a deterministic single-writer state machine per job key.
//! Reading the clock, authenticating callers and moving real tokens are the
//! embedding's concern: every operation here takes the caller identity and the
//! current time as plain values and manipulates modelled balances, so the
//! whole lifecycle and its accounting are verified.

pub mod catalog;
pub mod config;
pub mod coords;
pub mod driver;
pub mod engine;
pub mod errors;
pub mod fees;
pub mod infra;
pub mod job;
pub mod laws;
