//! A mapping layer between application records and a graph-oriented document
//! database queried over an AQL-style language.
//!
//! The heart of the crate is the query engine: a composable [`query::Query`]
//! builder for filters, sorts, limits and multi-hop graph traversals, a
//! compiler that turns a query tree deterministically into wire text plus a
//! collision-free bind-variable set, a lazily paginated
//! [`cursor::QueryCursor`] state machine, and the typed/untyped result
//! wrappers. Every step that can be computed locally carries a contract and
//! is verified; the network round trips themselves are left to the caller,
//! who feeds their plain results back into the verified state machines.

pub mod compiler;
pub mod cursor;
pub mod db;
pub mod error;
pub mod num;
pub mod query;
pub mod query_result;
pub mod record;
pub mod schema;

pub use error::ServiceError;
pub use query_result::{JsonQueryResult, QueryResult, RecordQueryResult};
pub use record::{Authenticate, DatabaseRecord, Record};
