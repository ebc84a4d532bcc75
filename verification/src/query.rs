//! The query tree and its builder.
//!
//! A [`Query`] describes one traversal stage: where its rows come from
//! (a collection scan or a graph traversal), the filters, sort keys, limit
//! and distinct flag applied to it, and zero or more [`JoinClause`]s, each
//! nesting a further stage whose traversal starts from the rows of this one.
//! Building never fails: the tree is plain data, and every rule on it (depth
//! bounds in order, non-empty names, fields that are simple identifiers) is
//! enforced by the compiler, which rejects a tree that breaks one before
//! anything reaches the network.

use vstd::prelude::*;

verus! {

/// Direction of a graph traversal, relative to edge endpoints: `Inbound`
/// follows edges pointing at the current vertex, `Outbound` follows edges
/// originating from it.
#[derive(Debug, Clone, Copy, PartialEq, Eq, Structural)]
pub enum Direction {
    Inbound,
    Outbound,
}

/// Direction of one sort key.
#[derive(Debug, Clone, Copy, PartialEq, Eq, Structural)]
pub enum SortDirection {
    Ascending,
    Descending,
}

/// The comparison operator of a filter condition.
#[derive(Debug, Clone, Copy, PartialEq, Eq, Structural)]
pub enum ComparisonOperator {
    Equal,
    NotEqual,
    Greater,
    GreaterOrEqual,
    Less,
    LessOrEqual,
}

/// A literal value a filter compares against. Values are never spliced into
/// the query text; the compiler turns each one into a bind variable.
#[derive(Debug, Clone)]
pub enum QueryValue {
    Null,
    Bool(bool),
    Int(i64),
    Str(String),
}

impl QueryValue {
    /// An equal copy of the literal.
    pub fn duplicate(&self) -> (r: QueryValue)
        ensures
            r == *self,
    {
        match self {
            QueryValue::Null => QueryValue::Null,
            QueryValue::Bool(b) => QueryValue::Bool(*b),
            QueryValue::Int(i) => QueryValue::Int(*i),
            QueryValue::Str(s) => QueryValue::Str(s.clone()),
        }
    }
}

/// One filter condition: `field operator value`, applied to the documents of
/// the stage that carries it.
#[derive(Debug, Clone)]
pub struct Comparison {
    /// The document field compared; must be a simple identifier.
    pub field: String,
    /// How the field is compared.
    pub operator: ComparisonOperator,
    /// The literal compared against, bound at execution time.
    pub value: QueryValue,
}

/// One sort key of the outermost stage.
#[derive(Debug, Clone)]
pub struct SortKey {
    /// The document field sorted by; must be a simple identifier.
    pub field: String,
    /// Ascending or descending.
    pub order: SortDirection,
}

/// Where a stage draws its rows from.
#[derive(Debug, Clone)]
pub enum QuerySource {
    /// A scan over a named collection.
    Collection { name: String },
    /// A bounded traversal from a single start vertex along an edge
    /// collection. `min_depth = max_depth = 1` yields direct neighbours.
    Traversal {
        direction: Direction,
        min_depth: u32,
        max_depth: u32,
        edge_collection: String,
        start_vertex: String,
    },
}

/// A nested traversal stage. The rows of the enclosing stage are its start
/// vertices; its own stage is `sub_query`.
#[derive(Debug)]
pub struct JoinClause {
    /// Direction of the nested traversal.
    pub direction: Direction,
    /// Least number of edge hops.
    pub min_depth: u32,
    /// Greatest number of edge hops.
    pub max_depth: u32,
    /// The edge collection walked; taken from the sub-query's source.
    pub edge_collection: String,
    /// When set, the start vertex of the nested traversal is excluded from
    /// its result rows; when clear it may fold into them.
    pub exclusive: bool,
    /// The nested stage: its filters and joins apply to the vertices the
    /// nested traversal reaches.
    pub sub_query: Box<Query>,
}

/// One traversal stage and everything applied to it. See the module
/// documentation.
#[derive(Debug)]
pub struct Query {
    /// Where the rows of this stage come from.
    pub source: QuerySource,
    /// Filter conditions, in insertion order.
    pub filters: Vec<Comparison>,
    /// Sort keys, in insertion order; compiled only on the outermost stage.
    pub sort: Vec<SortKey>,
    /// `(offset, count)`; compiled only on the outermost stage.
    pub limit: Option<(u32, u32)>,
    /// De-duplicate the projected documents, keeping first-seen order.
    pub distinct: bool,
    /// Nested traversal stages, in insertion order.
    pub joins: Vec<JoinClause>,
}

/// A character allowed inside a simple identifier.
pub open spec fn ident_char(c: char) -> bool {
    ('a' <= c && c <= 'z') || ('A' <= c && c <= 'Z') || ('0' <= c && c <= '9') || c == '_'
}

/// A simple identifier: non-empty, made of ASCII letters, digits and
/// underscores, not starting with a digit.
pub open spec fn is_identifier(s: Seq<char>) -> bool {
    &&& s.len() > 0
    &&& forall|i: int| 0 <= i < s.len() ==> ident_char(#[trigger] s[i])
    &&& !('0' <= s[0] && s[0] <= '9')
}

impl Comparison {
    /// The condition's field is a simple identifier.
    pub open spec fn wf(self) -> bool {
        is_identifier(self.field@)
    }

    /// Builds the condition `field operator value`.
    pub fn new(field: &str, operator: ComparisonOperator, value: QueryValue) -> (r: Comparison)
        ensures
            r.field@ == field@,
            r.operator == operator,
            r.value == value,
    {
        Comparison { field: field.to_owned(), operator, value }
    }
}

impl SortKey {
    /// The sort key's field is a simple identifier.
    pub open spec fn wf(self) -> bool {
        is_identifier(self.field@)
    }
}

impl QuerySource {
    /// A source is well-formed when its names are non-empty and, for a
    /// traversal, its depth bounds are in order.
    pub open spec fn wf(self) -> bool {
        match self {
            QuerySource::Collection { name } => name@.len() > 0,
            QuerySource::Traversal { min_depth, max_depth, edge_collection, .. } => {
                &&& edge_collection@.len() > 0
                &&& min_depth <= max_depth
            },
        }
    }
}

impl JoinClause {
    /// A join is well-formed when its edge collection is non-empty, its
    /// depth bounds are in order and its nested stage is well-formed.
    pub open spec fn wf(self) -> bool
        decreases self,
    {
        &&& self.edge_collection@.len() > 0
        &&& self.min_depth <= self.max_depth
        &&& (*self.sub_query).wf()
    }
}

/// Every join of the sequence is well-formed.
pub open spec fn joins_wf(js: Seq<JoinClause>) -> bool
    decreases js,
{
    js.len() == 0 || (js[0].wf() && joins_wf(js.drop_first()))
}

impl Query {
    /// The whole tree obeys the compiler's rules: source names non-empty,
    /// depth bounds in order, every filter and sort field a simple
    /// identifier, recursively through every join.
    pub open spec fn wf(self) -> bool
        decreases self,
    {
        &&& self.source.wf()
        &&& (forall|i: int| 0 <= i < self.filters@.len() ==> (#[trigger] self.filters@[i]).wf())
        &&& (forall|i: int| 0 <= i < self.sort@.len() ==> (#[trigger] self.sort@[i]).wf())
        &&& joins_wf(self.joins@)
    }

    /// A new query rooted at a collection scan, with nothing applied yet.
    pub fn new(collection: &str) -> (r: Query)
        ensures
            r.source matches QuerySource::Collection { name } && name@ == collection@,
            r.filters@.len() == 0,
            r.sort@.len() == 0,
            r.limit is None,
            !r.distinct,
            r.joins@.len() == 0,
    {
        Query {
            source: QuerySource::Collection { name: collection.to_owned() },
            filters: Vec::new(),
            sort: Vec::new(),
            limit: None,
            distinct: false,
            joins: Vec::new(),
        }
    }

    /// A new traversal query: from `vertex`, walk `edge_collection` in the
    /// given direction for `min_depth` to `max_depth` hops.
    pub fn traversal(
        direction: Direction,
        min_depth: u32,
        max_depth: u32,
        edge_collection: &str,
        vertex: &str,
    ) -> (r: Query)
        ensures
            r.source matches QuerySource::Traversal {
                direction: d,
                min_depth: mn,
                max_depth: mx,
                edge_collection: e,
                start_vertex: v,
            } && d == direction && mn == min_depth && mx == max_depth && e@ == edge_collection@
                && v@ == vertex@,
            r.filters@.len() == 0,
            r.sort@.len() == 0,
            r.limit is None,
            !r.distinct,
            r.joins@.len() == 0,
    {
        Query {
            source: QuerySource::Traversal {
                direction,
                min_depth,
                max_depth,
                edge_collection: edge_collection.to_owned(),
                start_vertex: vertex.to_owned(),
            },
            filters: Vec::new(),
            sort: Vec::new(),
            limit: None,
            distinct: false,
            joins: Vec::new(),
        }
    }

    /// A new outbound traversal query (edges leaving `vertex`).
    pub fn outbound(min_depth: u32, max_depth: u32, edge_collection: &str, vertex: &str) -> (r:
        Query)
        ensures
            r.source matches QuerySource::Traversal {
                direction: d,
                min_depth: mn,
                max_depth: mx,
                edge_collection: e,
                start_vertex: v,
            } && d == Direction::Outbound && mn == min_depth && mx == max_depth && e@
                == edge_collection@ && v@ == vertex@,
            r.filters@.len() == 0,
            r.sort@.len() == 0,
            r.limit is None,
            !r.distinct,
            r.joins@.len() == 0,
    {
        Self::traversal(Direction::Outbound, min_depth, max_depth, edge_collection, vertex)
    }

    /// A new inbound traversal query (edges pointing at `vertex`).
    pub fn inbound(min_depth: u32, max_depth: u32, edge_collection: &str, vertex: &str) -> (r:
        Query)
        ensures
            r.source matches QuerySource::Traversal {
                direction: d,
                min_depth: mn,
                max_depth: mx,
                edge_collection: e,
                start_vertex: v,
            } && d == Direction::Inbound && mn == min_depth && mx == max_depth && e@
                == edge_collection@ && v@ == vertex@,
            r.filters@.len() == 0,
            r.sort@.len() == 0,
            r.limit is None,
            !r.distinct,
            r.joins@.len() == 0,
    {
        Self::traversal(Direction::Inbound, min_depth, max_depth, edge_collection, vertex)
    }

    /// Appends a filter condition; order is kept.
    pub fn filter(self, condition: Comparison) -> (r: Query)
        ensures
            r.filters@ == self.filters@.push(condition),
            r.source == self.source,
            r.sort@ == self.sort@,
            r.limit == self.limit,
            r.distinct == self.distinct,
            r.joins@ == self.joins@,
    {
        let mut q = self;
        q.filters.push(condition);
        q
    }

    /// Appends a sort key; order is kept and is order-significant.
    pub fn sort(self, field: &str, order: SortDirection) -> (r: Query)
        ensures
            r.sort@.len() == self.sort@.len() + 1,
            r.sort@.subrange(0, self.sort@.len() as int) == self.sort@,
            r.sort@.last().field@ == field@,
            r.sort@.last().order == order,
            r.source == self.source,
            r.filters@ == self.filters@,
            r.limit == self.limit,
            r.distinct == self.distinct,
            r.joins@ == self.joins@,
    {
        let mut q = self;
        q.sort.push(SortKey { field: field.to_owned(), order });
        proof {
            assert(q.sort@.subrange(0, self.sort@.len() as int) =~= self.sort@);
        }
        q
    }

    /// Sets the limit: skip `offset` documents, then yield at most `count`.
    pub fn limit(self, offset: u32, count: u32) -> (r: Query)
        ensures
            r.limit == Some((offset, count)),
            r.source == self.source,
            r.filters@ == self.filters@,
            r.sort@ == self.sort@,
            r.distinct == self.distinct,
            r.joins@ == self.joins@,
    {
        let mut q = self;
        q.limit = Some((offset, count));
        q
    }

    /// Marks the projected documents for de-duplication by identity,
    /// keeping first-seen order.
    pub fn distinct(self) -> (r: Query)
        ensures
            r.distinct,
            r.source == self.source,
            r.filters@ == self.filters@,
            r.sort@ == self.sort@,
            r.limit == self.limit,
            r.joins@ == self.joins@,
    {
        let mut q = self;
        q.distinct = true;
        q
    }

    /// Appends a join: the rows of this stage become start vertices of a
    /// traversal in `direction` along the sub-query's collection, and
    /// `sub_query` is the nested stage applied to the vertices reached.
    pub fn join(
        self,
        direction: Direction,
        min_depth: u32,
        max_depth: u32,
        exclusive: bool,
        sub_query: Query,
    ) -> (r: Query)
        ensures
            r.joins@.len() == self.joins@.len() + 1,
            r.joins@.subrange(0, self.joins@.len() as int) == self.joins@,
            r.joins@.last().direction == direction,
            r.joins@.last().min_depth == min_depth,
            r.joins@.last().max_depth == max_depth,
            r.joins@.last().edge_collection@ == (match sub_query.source {
                QuerySource::Collection { name } => name@,
                QuerySource::Traversal { .. } => Seq::<char>::empty(),
            }),
            r.joins@.last().exclusive == exclusive,
            *r.joins@.last().sub_query == sub_query,
            r.source == self.source,
            r.filters@ == self.filters@,
            r.sort@ == self.sort@,
            r.limit == self.limit,
            r.distinct == self.distinct,
    {
        let edge_collection = match &sub_query.source {
            QuerySource::Collection { name } => name.clone(),
            QuerySource::Traversal { .. } => String::new(),
        };
        let clause = JoinClause {
            direction,
            min_depth,
            max_depth,
            edge_collection,
            exclusive,
            sub_query: Box::new(sub_query),
        };
        let mut q = self;
        q.joins.push(clause);
        proof {
            assert(q.joins@.subrange(0, self.joins@.len() as int) =~= self.joins@);
        }
        q
    }

    /// Appends an outbound join (see [`Query::join`]).
    pub fn join_outbound(
        self,
        min_depth: u32,
        max_depth: u32,
        exclusive: bool,
        sub_query: Query,
    ) -> (r: Query)
        ensures
            r.joins@.len() == self.joins@.len() + 1,
            r.joins@.subrange(0, self.joins@.len() as int) == self.joins@,
            r.joins@.last().direction == Direction::Outbound,
            r.joins@.last().min_depth == min_depth,
            r.joins@.last().max_depth == max_depth,
            r.joins@.last().edge_collection@ == (match sub_query.source {
                QuerySource::Collection { name } => name@,
                QuerySource::Traversal { .. } => Seq::<char>::empty(),
            }),
            r.joins@.last().exclusive == exclusive,
            *r.joins@.last().sub_query == sub_query,
            r.source == self.source,
            r.filters@ == self.filters@,
            r.sort@ == self.sort@,
            r.limit == self.limit,
            r.distinct == self.distinct,
    {
        self.join(Direction::Outbound, min_depth, max_depth, exclusive, sub_query)
    }

    /// Appends an inbound join (see [`Query::join`]).
    pub fn join_inbound(
        self,
        min_depth: u32,
        max_depth: u32,
        exclusive: bool,
        sub_query: Query,
    ) -> (r: Query)
        ensures
            r.joins@.len() == self.joins@.len() + 1,
            r.joins@.subrange(0, self.joins@.len() as int) == self.joins@,
            r.joins@.last().direction == Direction::Inbound,
            r.joins@.last().min_depth == min_depth,
            r.joins@.last().max_depth == max_depth,
            r.joins@.last().edge_collection@ == (match sub_query.source {
                QuerySource::Collection { name } => name@,
                QuerySource::Traversal { .. } => Seq::<char>::empty(),
            }),
            r.joins@.last().exclusive == exclusive,
            *r.joins@.last().sub_query == sub_query,
            r.source == self.source,
            r.filters@ == self.filters@,
            r.sort@ == self.sort@,
            r.limit == self.limit,
            r.distinct == self.distinct,
    {
        self.join(Direction::Inbound, min_depth, max_depth, exclusive, sub_query)
    }
}

} // verus!
