//! Namespace normalization and blob-commitment envelopes for Celestia,
//! built on the `celestia-types` engine.

pub mod blob;
pub mod error;
pub mod engine;
pub mod namespace;
