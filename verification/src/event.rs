//! The events that a collection consumes, as plain values.

use vstd::prelude::*;

verus! {

/// The identifier of the event stream an event belongs to.
pub struct EventGuid {
    pub creation_number: u64,
    /// Raw bytes of the owning account's address.
    pub account_address: Vec<u8>,
}

/// A struct type: the address and module that declare it, and its name.
pub struct MoveStructTag {
    /// Raw bytes of the declaring address.
    pub address: Vec<u8>,
    pub module: String,
    pub name: String,
}

/// The type descriptor of an event. Only struct types can be stored; every
/// other descriptor (primitive, vector, generic parameter, reference) is
/// `Other`.
pub enum MoveType {
    Struct(MoveStructTag),
    Other,
}

/// One ledger event.
pub struct Event {
    pub guid: EventGuid,
    pub sequence_number: u64,
    pub typ: MoveType,
    /// The payload, rendered as JSON text when the event is stored.
    pub data: serde_json::Value,
}

impl MoveType {
    /// Whether this descriptor is a struct type.
    pub open spec fn is_struct(&self) -> bool {
        self is Struct
    }
}

} // verus!
