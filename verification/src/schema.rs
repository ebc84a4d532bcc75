//! Schema descriptions of database indexes and named graphs.
//!
//! These types describe what a schema file declares; applying them to a
//! database is provisioning work that the caller performs with the driver.
//! The index and graph settings themselves are the driver's types, carried
//! through opaquely.

use vstd::prelude::*;
use vstd::string::*;

verus! {

/// arangors' index settings (persistent, hash, ttl, …); opaque, carried
/// through to the driver unread.
#[verifier::external_type_specification]
#[verifier::external_body]
pub struct ExIndexSettings(arangors::index::IndexSettings);

/// arangors' named-graph description; opaque, carried through to the
/// driver unread.
#[verifier::external_type_specification]
#[verifier::external_body]
pub struct ExGraph(arangors::graph::Graph);

/// The schema description of one database index.
#[derive(Debug)]
pub struct IndexSchema {
    /// Index name; unique within its collection.
    pub name: String,
    /// The collection the index belongs to.
    pub collection: String,
    /// The indexed fields, in order.
    pub fields: Vec<String>,
    /// The driver-side index settings.
    pub settings: arangors::index::IndexSettings,
}

impl IndexSchema {
    /// The index identifier `collection/name`.
    pub fn id(&self) -> (r: String)
        ensures
            r@ == self.collection@ + "/"@ + self.name@,
    {
        let mut s = self.collection.clone();
        s.append("/");
        s.append(self.name.as_str());
        proof {
            assert(s@ =~= self.collection@ + "/"@ + self.name@);
        }
        s
    }
}

/// The schema description of one named graph, exactly as the driver
/// declares it.
#[derive(Debug)]
pub struct GraphSchema(pub arangors::graph::Graph);

} // verus!
