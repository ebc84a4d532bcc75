//! The error taxonomy of the crate.

use vstd::prelude::*;

verus! {

/// Every failure the engine can surface to a caller.
///
/// `MalformedQuery` is detected locally, before any network call.
/// `TransportError` and `ServerError` wrap failures of a network round trip
/// and are raised by the caller-side dispatcher. `DeserializationError` marks
/// a typed result that could not be mapped onto the target record shape, and
/// `NotFound` stands for "zero or several documents where exactly one was
/// required", so that callers can tell "nothing matched" from "the transport
/// broke".
#[derive(Debug, Clone)]
pub enum ServiceError {
    /// The query tree breaks a local rule: depth bounds out of order, an
    /// empty collection or edge-collection name, or a filter field that is
    /// not a simple identifier. Never sent over the wire.
    MalformedQuery(String),
    /// The connection to the database failed.
    TransportError(String),
    /// The database rejected the request; carries the upstream status code.
    ServerError { code: u16, message: String },
    /// A document could not be mapped onto the target record type.
    DeserializationError(String),
    /// Zero or several documents matched where exactly one was required.
    NotFound { item: String, id: String },
}

} // verus!
