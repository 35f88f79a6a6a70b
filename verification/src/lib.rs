//! A tamper-evident registry of published machine-learning models.
//!
//! Each model is a permanent record carrying a content hash of its weights
//! and a URI pointing at off-chain metadata, together with an append-only
//! history of version snapshots. The registry enforces strict validation,
//! single-owner authorization, and a one-way deprecation flag, and it exposes
//! the deterministic address-derivation scheme that lets any client compute
//! a record's storage address from public inputs alone.

pub mod addressing;
pub mod errors;
pub mod state;
pub mod events;
pub mod registry;
pub mod laws;
