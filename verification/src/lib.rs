//! Client-side composition of privately shared transaction submissions.
//!
//! The crate builds disclosure preferences for a MEV-sharing relay
//! (`share`), converts them into the relay-bound submission payload, and
//! holds the relay-endpoint configuration that routes a signed transaction
//! to a primary and an optional simulation relay (`middleware`).

pub mod middleware;
pub mod share;
