//! Columnar accumulation of ledger events and their encoding as a Parquet
//! image.
//!
//! [`EventCollection`] gathers events into nine index-aligned columns and
//! turns them into the bytes of a Parquet file. The column arrays, the
//! record batch and the file image come from `arrow-array` and `parquet`;
//! the payload text comes from `serde_json`. The rules around those calls
//! (alignment, all-or-nothing appends, width and size checks, column order
//! and names) are stated in contracts and proved.

pub mod arrow;
pub mod collection;
pub mod error;
pub mod event;
pub mod json;
pub mod rows;

pub use collection::EventCollection;
pub use error::FlushError;
pub use error::PushError;
pub use event::Event;
pub use event::EventGuid;
pub use event::MoveStructTag;
pub use event::MoveType;
pub use rows::Row;
