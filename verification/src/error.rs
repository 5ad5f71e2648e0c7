//! The bridge's error taxonomy.

use vstd::prelude::*;

use crate::types::LogicalType;

verus! {

/// Every failure a bridge operation can report.
///
/// The boundary layer collapses these into sentinel values (a null handle, a
/// negative status); inside the core they stay distinct so that contracts can
/// say exactly which failure an input produces.
#[derive(Clone, Copy, Debug, PartialEq, Eq, Structural)]
pub enum BridgeError {
    /// The path does not resolve to a readable dataset.
    IoError,
    /// The stored schema cannot be parsed into the bridge's type system.
    FormatError,
    /// A column's logical type has no host representation; carries the
    /// offending type.
    UnsupportedType(LogicalType),
    /// A batch pushed to a write session disagrees with the session's schema.
    SchemaMismatch,
    /// A null or otherwise invalid input was handed across the boundary.
    InvalidArgument,
    /// A pull from an in-progress scan failed.
    ScanError,
    /// The storage engine rejected a commit.
    WriteError,
    /// An operation was attempted on a handle that is already closed.
    InvalidHandle,
}

} // verus!
