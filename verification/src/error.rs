//! Recoverable errors of the decode boundary.

use vstd::prelude::*;

verus! {

/// Errors reported when a received bus frame cannot be decoded.
/// Both leave the session aggregate unchanged.
#[derive(Debug, Clone, Copy, PartialEq, Eq, Structural)]
pub enum ChademoError {
    /// The frame's standard identifier is not one of the identifiers this
    /// protocol decodes, or its payload is not the fixed 8 bytes.
    DecodeBadId(u16),
    /// The frame uses a 29-bit extended identifier, which this protocol
    /// never uses.
    DecodeBadIdExt,
}

} // verus!
