//! A verified persistence model for a blockchain light client.
//!
//! The library models a browser-style transactional key-value store holding
//! two named collections: `block-headers` (hex-encoded block hash to
//! hex-encoded header) and `best-chain` (block number to hex-encoded block
//! hash). It provides the schema manager, the transaction coordinator, the
//! header-store insert/read paths, the completion-signal state machine, and
//! the decisions taken on host engine outcomes, all with proved contracts.

pub mod database;
pub mod errors;
pub mod hex_codec;
pub mod host;
pub mod laws;
pub mod signal;
pub mod store;
pub mod transaction;

pub use database::{create_schema, Database, DbView, GetOutcome, StoreState, StoreView};
pub use errors::{AccessError, CorruptedError, EngineError, OpenError};
