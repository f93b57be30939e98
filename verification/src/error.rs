//! The compiler's error taxonomy: terminal validation failures surfaced to
//! the caller. Token errors carry the complete list of valid tokens, and the
//! width error the list of supported widths, for user-facing diagnostics.

use vstd::prelude::*;

verus! {

/// A semantic validation failure.
#[derive(Clone, Debug, PartialEq, Eq)]
pub enum Error {
    /// An unrecognized storage-strategy token; carries all valid tokens.
    InvalidStorageType(Vec<String>),
    /// An unrecognized aggregate-strategy token; carries all valid tokens.
    InvalidAggregateType(Vec<String>),
    /// A reference names a component that was not declared; carries the key.
    NoSuchComponent(String),
    /// Spatial-hash fields were declared without a spatial-hash key.
    MissingSpatialHashKey,
    /// The declared id width is unsupported; carries the supported widths.
    InvalidIdWidth(Vec<usize>),
}

} // verus!
