//! Typed and untyped query results.
//!
//! A [`JsonQueryResult`] owns the raw JSON documents a query returned; a
//! [`RecordQueryResult`] owns typed records. The untyped wrapper is
//! lenient: [`JsonQueryResult::get_records`] drops every document that does
//! not parse as the target type, which supports traversals spanning several
//! entity shapes. The typed construction [`typed_result`] is
//! all-or-nothing: one unparsable document fails it entirely. Both are
//! built on two fully specified collectors over the per-document parse
//! outcomes, [`collect_present`] and [`collect_all`].

use crate::error::ServiceError;
use crate::record::{DatabaseRecord, Record};
use vstd::prelude::*;
use vstd::string::*;

verus! {

/// Marker for the result wrappers a query execution can produce.
pub trait QueryResult {

}

/// The values carried by the present entries of `parsed`, in order.
pub open spec fn present_values<D>(parsed: Seq<Option<D>>) -> Seq<D>
    decreases parsed,
{
    if parsed.len() == 0 {
        Seq::empty()
    } else {
        (match parsed[0] {
            Some(d) => seq![d],
            None => Seq::empty(),
        }) + present_values(parsed.drop_first())
    }
}

/// Every entry of `parsed` is present.
pub open spec fn all_present<D>(parsed: Seq<Option<D>>) -> bool {
    forall|i: int| 0 <= i < parsed.len() ==> (#[trigger] parsed[i]) is Some
}

/// At most one value per entry.
pub proof fn lemma_present_values_len<D>(parsed: Seq<Option<D>>)
    ensures
        present_values(parsed).len() <= parsed.len(),
    decreases parsed,
{
    if parsed.len() > 0 {
        lemma_present_values_len(parsed.drop_first());
    }
}

/// Keeps the values of the present entries, in order, draining `parsed`:
/// the lenient path of the untyped result wrapper, which drops what did
/// not parse.
#[verifier::loop_isolation(false)]
pub fn collect_present<D>(parsed: &mut Vec<Option<D>>) -> (r: Vec<D>)
    ensures
        r@ == present_values(old(parsed)@),
        final(parsed)@.len() == 0,
{
    let ghost orig = old(parsed)@;
    let mut out: Vec<D> = Vec::new();
    while parsed.len() > 0
        invariant
            out@ + present_values(parsed@) == present_values(orig),
        decreases parsed@.len(),
    {
        let ghost before = parsed@;
        let head = parsed.remove(0);
        proof {
            assert(parsed@ =~= before.drop_first());
        }
        match head {
            Some(d) => {
                out.push(d);
            },
            None => {},
        }
        proof {
            assert(out@ + present_values(parsed@) =~= present_values(orig));
        }
    }
    proof {
        assert(out@ =~= present_values(orig));
    }
    out
}

/// Keeps every value only if every entry is present, draining `parsed`:
/// the all-or-nothing path of the typed result wrapper. One absent entry —
/// one document that did not parse — fails the whole collection with
/// [`ServiceError::DeserializationError`].
#[verifier::loop_isolation(false)]
pub fn collect_all<D>(parsed: &mut Vec<Option<D>>) -> (r: Result<Vec<D>, ServiceError>)
    ensures
        r is Ok <==> all_present(old(parsed)@),
        r matches Ok(v) ==> v@.len() == old(parsed)@.len() && (forall|i: int|
            0 <= i < old(parsed)@.len() ==> v@[i] == (#[trigger] old(parsed)@[i]).unwrap()),
        r matches Err(e) ==> e is DeserializationError,
{
    let ghost orig = old(parsed)@;
    let mut out: Vec<D> = Vec::new();
    while parsed.len() > 0
        invariant
            out@.len() + parsed@.len() == orig.len(),
            parsed@ == orig.subrange(out@.len() as int, orig.len() as int),
            forall|i: int|
                0 <= i < out@.len() ==> (#[trigger] orig[i]) is Some && out@[i] == orig[i].unwrap(),
        decreases parsed@.len(),
    {
        let ghost k = out@.len() as int;
        let ghost before = parsed@;
        let head = parsed.remove(0);
        proof {
            assert(before[0] == orig[k]);
            assert(parsed@ =~= orig.subrange(k + 1, orig.len() as int));
        }
        match head {
            Some(d) => {
                out.push(d);
            },
            None => {
                proof {
                    assert(!(orig[k] is Some));
                    if all_present(orig) {
                        assert((orig[k]) is Some);
                        assert(false);
                    }
                    assert(!all_present(orig));
                }
                let mut m = String::new();
                m.append("a document did not match the target record type");
                return Err(ServiceError::DeserializationError(m));
            },
        }
    }
    proof {
        assert(out@.len() == orig.len());
        assert(all_present(orig));
    }
    Ok(out)
}

/// A typed query result: the returned documents as stored records, plus
/// their cached count. Immutable once constructed.
#[derive(Debug)]
pub struct RecordQueryResult<T> {
    /// The returned documents, in the order the server produced them.
    pub documents: Vec<DatabaseRecord<T>>,
    /// The total `documents` count, cached at construction.
    doc_count: usize,
}

impl<T> QueryResult for RecordQueryResult<T> {

}

impl<T> RecordQueryResult<T> {
    /// The documents held, as the contracts speak of them.
    pub closed spec fn docs(self) -> Seq<DatabaseRecord<T>> {
        self.documents@
    }

    /// The cached count matches the documents held.
    pub closed spec fn wf(self) -> bool {
        self.doc_count == self.documents@.len()
    }

    /// Wraps an already-materialized collection of stored records.
    pub fn new(documents: Vec<DatabaseRecord<T>>) -> (r: RecordQueryResult<T>)
        ensures
            r.wf(),
            r.docs() == documents@,
    {
        let doc_count = documents.len();
        RecordQueryResult { doc_count, documents }
    }

    /// The first document, or `None` on an empty result — never an error.
    pub fn first(self) -> (r: Option<DatabaseRecord<T>>)
        requires
            self.wf(),
        ensures
            r is None <==> self.docs().len() == 0,
            r matches Some(d) ==> d == self.docs()[0],
    {
        let mut documents = self.documents;
        if documents.len() == 0 {
            None
        } else {
            Some(documents.remove(0))
        }
    }

    /// The last document, or `None` on an empty result — never an error.
    pub fn last(self) -> (r: Option<DatabaseRecord<T>>)
        requires
            self.wf(),
        ensures
            r is None <==> self.docs().len() == 0,
            r matches Some(d) ==> d == self.docs().last(),
    {
        let mut documents = self.documents;
        documents.pop()
    }

    /// How many documents were returned.
    pub fn len(&self) -> (n: usize)
        requires
            self.wf(),
        ensures
            n == self.docs().len(),
    {
        self.doc_count
    }

    /// Whether no documents were returned.
    pub fn is_empty(&self) -> (b: bool)
        requires
            self.wf(),
        ensures
            b == (self.docs().len() == 0),
    {
        self.doc_count == 0
    }
}

impl<T: Record> RecordQueryResult<T> {
    /// The single returned document. Zero documents and several documents
    /// both fail with [`ServiceError::NotFound`] naming the collection, so
    /// a caller can tell "nothing matched" from a broken transport.
    pub fn uniq(self) -> (r: Result<DatabaseRecord<T>, ServiceError>)
        requires
            self.wf(),
        ensures
            r is Ok <==> self.docs().len() == 1,
            r matches Ok(d) ==> d == self.docs()[0],
            r matches Err(e) ==> (e matches ServiceError::NotFound { item, id }
                && T::collection_name.ensures((), item) && id@ == "queried"@),
    {
        if self.doc_count == 1 {
            let mut documents = self.documents;
            Ok(documents.remove(0))
        } else {
            let mut id = String::new();
            id.append("queried");
            Err(ServiceError::NotFound { item: T::collection_name(), id })
        }
    }
}

/// An untyped query result: the raw JSON documents a query returned, plus
/// their cached count. Heterogeneous traversal results stay here until the
/// caller asks for one shape at a time via
/// [`JsonQueryResult::get_records`].
#[derive(Debug)]
pub struct JsonQueryResult {
    /// The returned raw documents, in the order the server produced them.
    pub documents: Vec<serde_json::Value>,
    /// The total `documents` count, cached at construction.
    doc_count: usize,
}

impl QueryResult for JsonQueryResult {

}

impl JsonQueryResult {
    /// The raw documents held, as the contracts speak of them.
    pub closed spec fn docs(self) -> Seq<serde_json::Value> {
        self.documents@
    }

    /// The cached count matches the documents held.
    pub closed spec fn wf(self) -> bool {
        self.doc_count == self.documents@.len()
    }

    /// Wraps the raw documents of a query response.
    pub fn new(documents: Vec<serde_json::Value>) -> (r: JsonQueryResult)
        ensures
            r.wf(),
            r.docs() == documents@,
    {
        let doc_count = documents.len();
        JsonQueryResult { doc_count, documents }
    }

    /// How many documents were returned.
    pub fn len(&self) -> (n: usize)
        requires
            self.wf(),
        ensures
            n == self.docs().len(),
    {
        self.doc_count
    }

    /// Whether no documents were returned.
    pub fn is_empty(&self) -> (b: bool)
        requires
            self.wf(),
        ensures
            b == (self.docs().len() == 0),
    {
        self.doc_count == 0
    }

    /// The documents that parse as stored records of `T`, in order; the
    /// rest are dropped, not an error. A document parses when it carries a
    /// string `_key` and its body deserializes as `T`.
    pub fn get_records<T: Record + serde::de::DeserializeOwned>(&self) -> (r: Vec<
        DatabaseRecord<T>,
    >)
        ensures
            r@.len() <= self.docs().len(),
    {
        let mut parsed = parse_documents::<T>(&self.documents);
        proof {
            lemma_present_values_len(parsed@);
        }
        collect_present(&mut parsed)
    }
}

/// Attempts to parse every raw document; position `i` of the result tells
/// whether document `i` parsed. What parses is decided by serde and by
/// `T`'s deserialization code, so nothing more is assumed here; the
/// collectors take it from there, exactly.
fn parse_documents<T: serde::de::DeserializeOwned>(docs: &Vec<serde_json::Value>) -> (r: Vec<
    Option<DatabaseRecord<T>>,
>)
    ensures
        r@.len() == docs@.len(),
{
    let mut out: Vec<Option<DatabaseRecord<T>>> = Vec::new();
    let n = docs.len();
    let mut k: usize = 0;
    while k < n
        invariant
            n == docs@.len(),
            0 <= k <= n,
            out@.len() == k,
        decreases n - k,
    {
        out.push(parse_document(&docs[k]));
        k += 1;
    }
    out
}

/// Parses one raw document into a stored record: its `_key` field names
/// the document, its body is deserialized as `T`.
fn parse_document<T: serde::de::DeserializeOwned>(v: &serde_json::Value) -> Option<
    DatabaseRecord<T>,
> {
    let key = match v.get("_key") {
        Some(key_value) => match key_value.as_str() {
            Some(key_str) => key_str.to_owned(),
            None => {
                return None;
            },
        },
        None => {
            return None;
        },
    };
    match serde_json::from_value::<T>(v.clone()) {
        Ok(record) => Some(DatabaseRecord::new(key, record)),
        Err(_) => None,
    }
}

/// The all-or-nothing typed construction: every raw document must parse as
/// a stored record of `T`, or the construction fails entirely with
/// [`ServiceError::DeserializationError`]. With no documents there is
/// nothing to parse, so the construction succeeds.
pub fn typed_result<T: Record + serde::de::DeserializeOwned>(json: &JsonQueryResult) -> (r: Result<
    RecordQueryResult<T>,
    ServiceError,
>)
    ensures
        json.docs().len() == 0 ==> r is Ok,
        r matches Ok(rr) ==> rr.wf() && rr.docs().len() == json.docs().len(),
        r matches Err(e) ==> e is DeserializationError,
{
    let mut parsed = parse_documents::<T>(&json.documents);
    proof {
        if parsed@.len() == 0 {
            assert(all_present(parsed@));
        }
    }
    match collect_all(&mut parsed) {
        Ok(documents) => Ok(RecordQueryResult::new(documents)),
        Err(e) => Err(e),
    }
}

} // verus!
