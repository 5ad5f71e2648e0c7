//! A verified core for a bridge between a versioned columnar dataset store
//! and a host analytical engine's table-scan protocol.
//!
//! The bridge's boundary layer (opaque C handles, asynchronous I/O, zero-copy
//! export) lives outside this crate; what is verified here is the logic that
//! the boundary delegates to: the bidirectional type mapper, the schema and
//! batch model, the pull-cursor state machine, batch pagination, and the
//! write-session rules.

pub mod batch;
pub mod cursor;
pub mod dataset;
pub mod error;
pub mod replacement;
pub mod scan;
pub mod schema;
pub mod types;
pub mod writer;
