//! Verified core of an SQL-backed event store: event selection, the
//! numbering of appended events, and the assembly of loaded events.

pub mod error;
pub mod event;
pub mod select;
pub mod store;

pub use error::StoreError;
pub use select::Select;
