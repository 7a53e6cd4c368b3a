//! Synthetic-identity diversity simulator and supporting platform utilities.
//!
//! The heart of the crate is a configuration-driven fleet simulator: it
//! creates synthetic worker identities, emits one attestation per node per
//! epoch (IP address, hardware fingerprint, timing signature), scores each
//! batch for diversity, and drives an epoch state machine that survives while
//! the composite score stays below a target threshold.
//!
//! Around it stand small, independent utilities: string pattern matching,
//! log-file classification, a command allow-list checker, an indexed session
//! store, template generation, and quality metrics.

// The simulator, leaves first.
pub mod arith;
pub mod rng;
pub mod config;
pub mod ip;
pub mod fingerprint;
pub mod timing;
pub mod node;
pub mod scoring;
pub mod fleet;

// Platform utilities.
pub mod text;
pub mod layout;
pub mod logs;
pub mod patterns;
pub mod security;
pub mod sessions;
pub mod quality;
pub mod templates;
pub mod bounty;
pub mod downloads;
pub mod miner;
