//! A verified token-ledger core: minting, fee-bearing transfers, and
//! withdrawal of accumulated fees by a designated authority.
//!
//! The crate assumes an outer dispatch layer that authenticates callers and
//! hands each operation exclusive access to the records it touches; the core
//! itself validates inputs, computes fees, and mutates the records atomically.

pub mod conservation;
pub mod fees;
pub mod ops;
pub mod state;
