//! The boundary to the database driver and the JSON library.
//!
//! Everything the verified code relies on from outside — serde_json's
//! opaque document values and arangors' response types — is declared here,
//! together with the compute side of the execution dispatcher: building the
//! wire request for an immediate or a batched execution, classifying a
//! failed retrieval, and deciding existence from a cursor's count. The
//! network round trips themselves are the caller's; they hand plain values
//! back into these verified functions.

use crate::compiler::CompiledQuery;
use crate::error::ServiceError;
use crate::query::QueryValue;
use crate::record::DatabaseRecord;
use vstd::prelude::*;
use vstd::string::*;

verus! {

/// serde_json's JSON document value. Opaque here: documents are carried
/// through unread and parsed only by serde_json itself.
#[verifier::external_type_specification]
#[verifier::external_body]
pub struct ExValue(serde_json::Value);

/// serde_json's error type; opaque, mapped to [`ServiceError`] on sight.
#[verifier::external_type_specification]
#[verifier::external_body]
pub struct ExJsonError(serde_json::Error);

/// Relies on serde_json::Value::get: index into a JSON object or array.
/// Nothing is assumed of the outcome; callers handle both cases.
pub assume_specification<I: serde_json::value::Index>[ serde_json::Value::get::<I> ](
    v: &serde_json::Value,
    index: I,
) -> Option<&serde_json::Value>
;

/// Relies on serde_json::Value::as_str: the borrowed string when the value
/// is a JSON string. Nothing is assumed of the outcome.
pub assume_specification<'a>[ serde_json::Value::as_str ](v: &'a serde_json::Value) -> Option<
    &'a str,
>
;

/// Relies on serde_json's derived Clone for Value: the copy equals the
/// original.
pub assume_specification[ <serde_json::Value as Clone>::clone ](v: &serde_json::Value) -> (r:
    serde_json::Value)
    ensures
        r == *v,
;

/// Relies on serde_json::from_value: interprets a JSON value as a `T`.
/// The outcome depends on `T`'s deserialization code, so nothing is assumed
/// of it; callers handle both cases.
pub assume_specification<T>[ serde_json::from_value::<T> ](value: serde_json::Value) -> Result<
    T,
    serde_json::Error,
> where T: serde::de::DeserializeOwned
;

/// arangors' response to a document write; opaque.
#[verifier::external_type_specification]
#[verifier::external_body]
#[verifier::reject_recursive_types(T)]
pub struct ExDocumentResponse<T>(arangors::document::response::DocumentResponse<T>);

/// arangors' document header (`_id`, `_key`, `_rev`); opaque.
#[verifier::external_type_specification]
#[verifier::external_body]
pub struct ExHeader(arangors::document::Header);

/// Relies on arangors::document::response::DocumentResponse::header: the
/// header of a non-silent response. Nothing is assumed of the outcome.
pub assume_specification<T>[ arangors::document::response::DocumentResponse::<T>::header ](
    r: &arangors::document::response::DocumentResponse<T>,
) -> Option<&arangors::document::Header>
;

/// Relies on arangors::document::response::DocumentResponse::new_doc: the
/// new document of a non-silent response that returned one. Nothing is
/// assumed of the outcome.
pub assume_specification<T>[ arangors::document::response::DocumentResponse::<T>::new_doc ](
    r: &arangors::document::response::DocumentResponse<T>,
) -> Option<&T>
;

/// Relies on arangors::document::Header: picks its `_key` field, the
/// document key assigned by the database.
#[verifier::external_body]
fn header_key(h: &arangors::document::Header) -> String {
    h._key.clone()
}

impl<T: Clone> DatabaseRecord<T> {
    /// Builds a stored record from the driver's response to a document
    /// write. Fails when the response was silent or carried no new
    /// document; what the header and the new document hold is the
    /// driver's, so only the failure shape can be promised.
    pub fn from(doc_response: arangors::document::response::DocumentResponse<T>) -> (r: Result<
        DatabaseRecord<T>,
        ServiceError,
    >)
        ensures
            r matches Err(e) ==> e is DeserializationError,
    {
        let key = match doc_response.header() {
            Some(header) => header_key(header),
            None => {
                return Err(deserialization_error());
            },
        };
        match doc_response.new_doc() {
            Some(doc) => Ok(DatabaseRecord::new(key, doc.clone())),
            None => Err(deserialization_error()),
        }
    }
}

/// The error for a write response that carried no usable document.
fn deserialization_error() -> (e: ServiceError)
    ensures
        e is DeserializationError,
{
    let mut m = String::new();
    m.append("response carried no document");
    ServiceError::DeserializationError(m)
}

/// One request ready for the wire, in the shape the query endpoint takes:
/// the compiled text, its bind variables, and the pagination options.
#[derive(Debug)]
pub struct QueryRequest {
    /// The compiled query text.
    pub query: String,
    /// The bind variables referenced by the text, as `(name, value)` pairs.
    pub bind_vars: Vec<(String, QueryValue)>,
    /// When set, open a server-side cursor with this batch size instead of
    /// returning the full result array.
    pub batch_size: Option<u32>,
    /// Ask the server to report the result count.
    pub count: bool,
    /// Ask the server to report the full count ignoring the limit.
    pub full_count: bool,
}

/// The request of an immediate execution: one round trip, the full result
/// array in the answer.
pub fn immediate_request(c: CompiledQuery) -> (r: QueryRequest)
    ensures
        r.query == c.text,
        r.bind_vars == c.bind_vars,
        r.batch_size is None,
        !r.count,
        !r.full_count,
{
    QueryRequest {
        query: c.text,
        bind_vars: c.bind_vars,
        batch_size: None,
        count: false,
        full_count: false,
    }
}

/// The request that opens a server-side cursor with `batch_size` documents
/// per round trip, counting the full result.
pub fn batched_request(c: CompiledQuery, batch_size: u32) -> (r: QueryRequest)
    ensures
        r.query == c.text,
        r.bind_vars == c.bind_vars,
        r.batch_size == Some(batch_size),
        r.count,
        r.full_count,
{
    QueryRequest {
        query: c.text,
        bind_vars: c.bind_vars,
        batch_size: Some(batch_size),
        count: true,
        full_count: true,
    }
}

/// Decides existence from the count a cursor-opening response reported:
/// documents exist exactly when a count was reported and is positive. A
/// response without a count indicates nothing and counts as absence, as the
/// callers of the existence check expect.
pub fn exists_from_count(count: Option<u64>) -> (r: bool)
    ensures
        r == (count matches Some(c) && c > 0),
{
    match count {
        Some(c) => c > 0,
        None => false,
    }
}

/// The document count a collection reported: the count itself when one
/// was reported, zero when the response carried none.
pub fn count_or_zero(count: Option<u32>) -> (r: u32)
    ensures
        count matches Some(c) ==> r == c,
        count is None ==> r == 0,
{
    match count {
        Some(c) => c,
        None => 0,
    }
}

/// Classifies a failed query round trip: a failure that carries an
/// upstream status code came from the database and becomes
/// [`ServiceError::ServerError`] with that code; one without a status
/// means the transport itself broke. The message is carried through
/// either way.
pub fn round_trip_error(status: Option<u16>, message: &str) -> (e: ServiceError)
    ensures
        status matches Some(c) ==> (e matches ServiceError::ServerError { code, message: m } && code
            == c && m@ == message@),
        status is None ==> (e matches ServiceError::TransportError(m) && m@ == message@),
{
    let mut m = String::new();
    m.append(message);
    match status {
        Some(c) => ServiceError::ServerError { code: c, message: m },
        None => ServiceError::TransportError(m),
    }
}

/// Classifies a failed retrieval round trip from its upstream status code:
/// a missing document — status 404 — becomes [`ServiceError::NotFound`]
/// naming the collection and key, anything else [`ServiceError::ServerError`]
/// carrying the status.
pub fn retrieval_error(status: u16, item: &str, key: &str) -> (e: ServiceError)
    ensures
        status == 404 ==> (e matches ServiceError::NotFound { item: i, id: k } && i@ == item@ && k@
            == key@),
        status != 404 ==> (e matches ServiceError::ServerError { code, .. } && code == status),
{
    if status == 404 {
        let mut i = String::new();
        i.append(item);
        let mut k = String::new();
        k.append(key);
        ServiceError::NotFound { item: i, id: k }
    } else {
        let mut m = String::new();
        m.append("the database rejected the request");
        ServiceError::ServerError { code: status, message: m }
    }
}

} // verus!
