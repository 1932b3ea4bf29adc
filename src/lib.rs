//! Bookkeeping for rugby players, their transfers between teams, and the
//! offers that lead to transfers.
//!
//! The records live in a `registry::Registry`, which allocates identifiers from one
//! shared counter and enforces the transfer and offer lifecycle rules.
pub mod model;
pub mod registry;
pub mod laws;
