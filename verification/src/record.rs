//! Stored records and the documents that carry them.
//!
//! A [`Record`] names the collection its type is stored in; a
//! [`DatabaseRecord`] pairs one stored document's unique key with the
//! deserialized record. The traversal builders here root a [`Query`] at a
//! concrete document, so that `record.inbound_query(1, 1, "ChildOf")` walks
//! the edges pointing at it.

use crate::error::ServiceError;
use crate::query::{Direction, Query, QuerySource};
use vstd::prelude::*;
use vstd::string::*;

verus! {

/// The contract a type fulfils to be stored and retrieved: it names the
/// collection that holds its documents. Implementors also provide the
/// (de)serialization of their payload outside this crate. Contracts refer
/// to the name through `T::collection_name.ensures((), name)`: the name is
/// one the implementation can actually return.
pub trait Record {
    /// The collection holding documents of this type, exactly as defined
    /// in the database.
    fn collection_name() -> String;

    /// A new query rooted at this type's collection.
    fn query() -> (q: Query)
        ensures
            q.source matches QuerySource::Collection { name } && (exists|c: String|
                #[trigger] Self::collection_name.ensures((), c) && name@ == c@),
            q.filters@.len() == 0,
            q.sort@.len() == 0,
            q.limit is None,
            !q.distinct,
            q.joins@.len() == 0,
    {
        let name = Self::collection_name();
        let q = Query::new(name.as_str());
        proof {
            assert(Self::collection_name.ensures((), name));
        }
        q
    }
}

/// A record that can check a caller-supplied password or secret.
pub trait Authenticate {
    /// Validates `password`; the implementor chooses the failure it
    /// returns.
    fn authenticate(&self, password: &str) -> Result<(), ServiceError>;
}

/// One database-stored document: its unique, indexed key and the record it
/// carries.
#[derive(Debug)]
pub struct DatabaseRecord<T> {
    /// The document's unique and indexed key within its collection.
    pub key: String,
    /// The deserialized stored document.
    pub record: T,
}

/// `s` is the document identifier `collection/key` of the stored record
/// `r`: its collection name, as `T` reports it, then a slash, then its key.
pub open spec fn is_document_id<T: Record>(r: DatabaseRecord<T>, s: Seq<char>) -> bool {
    exists|c: String|
        #[trigger] T::collection_name.ensures((), c) && s == c@ + "/"@ + r.key@
}

impl<T> DatabaseRecord<T> {
    /// Pairs a document key with its record.
    pub fn new(key: String, record: T) -> (r: DatabaseRecord<T>)
        ensures
            r.key == key,
            r.record == record,
    {
        DatabaseRecord { key, record }
    }
}

impl<T: Record> DatabaseRecord<T> {
    /// The document identifier `collection/key`.
    pub fn id(&self) -> (r: String)
        ensures
            is_document_id(*self, r@),
    {
        let mut s = T::collection_name();
        let ghost c = s;
        s.append("/");
        s.append(self.key.as_str());
        proof {
            assert(s@ =~= c@ + "/"@ + self.key@);
            assert(is_document_id(*self, s@)) by {
                assert(T::collection_name.ensures((), c) && s@ == c@ + "/"@ + self.key@);
            }
        }
        s
    }

    /// A traversal query rooted at this document: walk `edge_collection`
    /// for `min_depth` to `max_depth` hops in `direction`.
    pub fn traversal_query(
        &self,
        direction: Direction,
        min_depth: u32,
        max_depth: u32,
        edge_collection: &str,
    ) -> (q: Query)
        ensures
            q.source matches QuerySource::Traversal {
                direction: d,
                min_depth: mn,
                max_depth: mx,
                edge_collection: e,
                start_vertex: v,
            } && d == direction && mn == min_depth && mx == max_depth && e@ == edge_collection@
                && is_document_id(*self, v@),
            q.filters@.len() == 0,
            q.sort@.len() == 0,
            q.limit is None,
            !q.distinct,
            q.joins@.len() == 0,
    {
        let id = self.id();
        Query::traversal(direction, min_depth, max_depth, edge_collection, id.as_str())
    }

    /// A traversal query following the edges that originate from this
    /// document (its descendants in a parent-to-child edge model).
    pub fn outbound_query(&self, min_depth: u32, max_depth: u32, edge_collection: &str) -> (q:
        Query)
        ensures
            q.source matches QuerySource::Traversal {
                direction: d,
                min_depth: mn,
                max_depth: mx,
                edge_collection: e,
                start_vertex: v,
            } && d == Direction::Outbound && mn == min_depth && mx == max_depth && e@
                == edge_collection@ && is_document_id(*self, v@),
            q.filters@.len() == 0,
            q.sort@.len() == 0,
            q.limit is None,
            !q.distinct,
            q.joins@.len() == 0,
    {
        self.traversal_query(Direction::Outbound, min_depth, max_depth, edge_collection)
    }

    /// A traversal query following the edges that point at this document
    /// (its ancestors in a parent-to-child edge model).
    pub fn inbound_query(&self, min_depth: u32, max_depth: u32, edge_collection: &str) -> (q:
        Query)
        ensures
            q.source matches QuerySource::Traversal {
                direction: d,
                min_depth: mn,
                max_depth: mx,
                edge_collection: e,
                start_vertex: v,
            } && d == Direction::Inbound && mn == min_depth && mx == max_depth && e@
                == edge_collection@ && is_document_id(*self, v@),
            q.filters@.len() == 0,
            q.sort@.len() == 0,
            q.limit is None,
            !q.distinct,
            q.joins@.len() == 0,
    {
        self.traversal_query(Direction::Inbound, min_depth, max_depth, edge_collection)
    }
}

impl<T: Authenticate> DatabaseRecord<T> {
    /// Authenticates the carried record against `password` by calling its
    /// own [`Authenticate`] implementation: the outcome is one that
    /// implementation can produce for exactly this record and password.
    pub fn authenticate(&self, password: &str) -> (r: Result<(), ServiceError>)
        ensures
            T::authenticate.ensures((&self.record, password), r),
    {
        self.record.authenticate(password)
    }
}

} // verus!
