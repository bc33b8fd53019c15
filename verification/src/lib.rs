//! An in-memory directory of named capabilities: the records, the ordered
//! registry that holds them, and the plain-value form of the HTTP surface
//! that reads and extends it.

pub mod api;
pub mod capability;
pub mod laws;
pub mod registry;
