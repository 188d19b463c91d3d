//! A slot-sale accounting ledger: an authority opens numbered rounds,
//! participants buy numbered slots by paying into a pooled vault, and the
//! authority can adjust fees (immediately or through a timelock), pause
//! operations, and sweep vault funds. This crate verifies the state-mutation
//! and authorization engine that sits above the funds custodian.

pub mod engine;
pub mod errors;
pub mod ids;
pub mod laws;
pub mod state;
