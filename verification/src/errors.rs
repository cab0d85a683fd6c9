//! Typed failures: invalid addresses, malformed content, and save-time errors.

use vstd::prelude::*;

verus! {

/// Failure of resolving a page / layer / position address against the tree.
/// Always recoverable; the document is never changed by a failed resolution.
#[derive(Clone, Copy, Debug, PartialEq, Eq, Structural)]
pub enum AddressError {
    /// The page component of the address is out of range.
    InvalidPage,
    /// The layer component of the address is out of range.
    InvalidLayer,
    /// The position component of the address is out of range.
    InvalidPosition,
}

/// Failure of registering a content item; the item is not registered.
#[derive(Clone, Copy, Debug, PartialEq, Eq, Structural)]
pub enum ContentError {
    /// The font byte stream could not be accepted.
    FontParseFailed,
    /// The vector-path data could not be accepted.
    VectorParseFailed,
}

/// Failure of a whole save pass; no partial output is handed out.
#[derive(Clone, Copy, Debug, PartialEq, Eq, Structural)]
pub enum SerializationError {
    /// A drawable references a registry index with no matching entry.
    DanglingContentReference,
    /// The external object-graph writer failed to produce the output bytes.
    WriteFailed,
}

} // verus!
