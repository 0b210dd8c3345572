//! A verified core for a todo-record service: the resource model, the
//! rules that stamp identifiers and timestamps, the mapping between a
//! todo record and its storage document, and the semantics of the
//! document collection the service relies on.

pub mod document;
pub mod ident;
pub mod model;
pub mod service;
pub mod store;
