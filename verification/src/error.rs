//! Errors of the two operations of an event collection.

use vstd::prelude::*;

verus! {

/// Why a batch of events was not appended. The index is the position, in the
/// batch, of the first event that could not be turned into a row.
#[derive(Clone, Copy, Debug, PartialEq, Eq, Structural)]
pub enum PushError {
    /// The payload of the event at `index` could not be rendered as JSON text.
    Serialization { index: usize },
    /// The type descriptor of the event at `index` is not a struct type.
    InvalidMoveType { index: usize },
}

/// Why a collection was not encoded.
#[derive(Clone, Copy, Debug, PartialEq, Eq, Structural)]
pub enum FlushError {
    /// A column array or the record batch could not be built.
    Encoding,
    /// The Parquet writer failed.
    Write,
}

} // verus!
