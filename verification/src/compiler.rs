//! The query compiler.
//!
//! [`compile`] turns a [`Query`] tree into its wire text plus a bind-variable
//! set, or fails with [`ServiceError::MalformedQuery`] before anything
//! reaches the network. The wire text is pinned exactly by [`aql_text`]:
//! stages are emitted depth-first, the stage visited `n`-th is named `docn`,
//! the literal bound `n`-th is named `varn`, and the final clause projects
//! the innermost stage of the last join chain, with a `DISTINCT` modifier
//! when a stage on that chain asked for de-duplication. Sort and limit are
//! compiled on the outermost stage only; nested stages are not independently
//! sorted or paginated.
//!
//! Alias and bind-variable names contain nothing but their position's
//! decimal spelling, so two of them collide exactly when the positions are
//! equal; [`lemma_bind_names_unique`] turns that into the guarantee that one
//! compiled query never reuses a bind-variable name, however deeply joins
//! are nested.

use crate::error::ServiceError;
use crate::num::{dec_digits, lemma_dec_digits_injective, write_u64};
use crate::query::{
    Comparison, ComparisonOperator, Direction, JoinClause, Query, QuerySource, QueryValue,
    SortDirection, SortKey, ident_char, is_identifier, joins_wf,
};
use vstd::prelude::*;
use vstd::string::*;

verus! {

/// The name of the alias bound by the stage visited `a`-th: `doc0`, `doc1`, …
pub open spec fn alias_name(a: nat) -> Seq<char> {
    "doc"@ + dec_digits(a)
}

/// The name of the bind variable holding the literal bound `i`-th: `var0`, …
pub open spec fn bind_name(i: nat) -> Seq<char> {
    "var"@ + dec_digits(i)
}

/// The traversal keyword of a direction.
pub open spec fn direction_text(d: Direction) -> Seq<char> {
    match d {
        Direction::Inbound => "INBOUND"@,
        Direction::Outbound => "OUTBOUND"@,
    }
}

/// The wire spelling of a comparison operator.
pub open spec fn operator_text(op: ComparisonOperator) -> Seq<char> {
    match op {
        ComparisonOperator::Equal => "=="@,
        ComparisonOperator::NotEqual => "!="@,
        ComparisonOperator::Greater => ">"@,
        ComparisonOperator::GreaterOrEqual => ">="@,
        ComparisonOperator::Less => "<"@,
        ComparisonOperator::LessOrEqual => "<="@,
    }
}

/// The wire spelling of a sort direction.
pub open spec fn sort_direction_text(o: SortDirection) -> Seq<char> {
    match o {
        SortDirection::Ascending => "ASC"@,
        SortDirection::Descending => "DESC"@,
    }
}

/// How many stages the tree holds: this one plus, recursively, one per join.
/// Stage `k` of the depth-first walk is bound to alias `dock`.
pub open spec fn stage_count(q: Query) -> nat
    decreases q,
{
    1 + joins_stage_count(q.joins@)
}

/// Total stage count of a join sequence.
pub open spec fn joins_stage_count(js: Seq<JoinClause>) -> nat
    decreases js,
{
    if js.len() == 0 {
        0
    } else {
        stage_count(*js[0].sub_query) + joins_stage_count(js.drop_first())
    }
}

/// The literals bound by the stage's own filters, in insertion order.
pub open spec fn filters_values(fs: Seq<Comparison>) -> Seq<QueryValue> {
    fs.map_values(|c: Comparison| c.value)
}

/// Every literal the tree binds, in depth-first emission order; the literal
/// at position `i` is bound under `bind_name(i)`.
pub open spec fn bind_values(q: Query) -> Seq<QueryValue>
    decreases q,
{
    filters_values(q.filters@) + joins_bind_values(q.joins@)
}

/// The literals bound by a join sequence, in order.
pub open spec fn joins_bind_values(js: Seq<JoinClause>) -> Seq<QueryValue>
    decreases js,
{
    if js.len() == 0 {
        Seq::empty()
    } else {
        bind_values(*js[0].sub_query) + joins_bind_values(js.drop_first())
    }
}

/// The alias index projected by the final clause: the stage itself when it
/// has no joins, else the projected stage of its last join, whose own alias
/// follows all stages of the earlier joins. `a` is this stage's alias index.
pub open spec fn proj_alias(q: Query, a: nat) -> nat
    decreases q,
{
    if q.joins@.len() == 0 {
        a
    } else {
        joins_proj_alias(q.joins@, a + 1)
    }
}

/// The projected alias of a non-empty join sequence whose first stage is
/// bound to alias `b`.
pub open spec fn joins_proj_alias(js: Seq<JoinClause>, b: nat) -> nat
    decreases js,
{
    if js.len() == 0 {
        b
    } else if js.len() == 1 {
        proj_alias(*js[0].sub_query, b)
    } else {
        joins_proj_alias(js.drop_first(), b + stage_count(*js[0].sub_query))
    }
}

/// Whether the final clause carries `DISTINCT`: set when this stage asks for
/// it, or when a stage further down the projected (last-join) chain does.
pub open spec fn proj_distinct(q: Query) -> bool
    decreases q,
{
    q.distinct || joins_proj_distinct(q.joins@)
}

/// The `DISTINCT` request of the projected chain of a join sequence.
pub open spec fn joins_proj_distinct(js: Seq<JoinClause>) -> bool
    decreases js,
{
    if js.len() == 0 {
        false
    } else if js.len() == 1 {
        proj_distinct(*js[0].sub_query)
    } else {
        joins_proj_distinct(js.drop_first())
    }
}

/// The opening clause of the outermost stage, bound to alias `a`: a
/// collection scan or a traversal from a fixed start vertex.
pub open spec fn source_text(src: QuerySource, a: nat) -> Seq<char> {
    match src {
        QuerySource::Collection { name } => "FOR "@ + alias_name(a) + " IN "@ + name@,
        QuerySource::Traversal { direction, min_depth, max_depth, edge_collection, start_vertex } =>
            "FOR "@ + alias_name(a) + " IN "@ + dec_digits(min_depth as nat) + ".."@ + dec_digits(
                max_depth as nat,
            ) + " "@ + direction_text(direction) + " '"@ + start_vertex@ + "' "@
                + edge_collection@,
    }
}

/// One filter clause on alias `a`, binding its literal under `bind_name(v)`.
pub open spec fn filter_text(c: Comparison, a: nat, v: nat) -> Seq<char> {
    " FILTER "@ + alias_name(a) + "."@ + c.field@ + " "@ + operator_text(c.operator) + " @"@
        + bind_name(v)
}

/// The filter clauses of one stage, binding literals from `bind_name(v)` on.
pub open spec fn filters_text(fs: Seq<Comparison>, a: nat, v: nat) -> Seq<char>
    decreases fs,
{
    if fs.len() == 0 {
        Seq::empty()
    } else {
        filter_text(fs[0], a, v) + filters_text(fs.drop_first(), a, v + 1)
    }
}

/// The traversal clause of one join, starting from the enclosing stage's
/// alias `encl` and bound to alias `a`. When the join is exclusive, a
/// clause excluding the start vertex from the nested rows follows it.
pub open spec fn join_header_text(j: JoinClause, encl: nat, a: nat) -> Seq<char> {
    " FOR "@ + alias_name(a) + " IN "@ + dec_digits(j.min_depth as nat) + ".."@ + dec_digits(
        j.max_depth as nat,
    ) + " "@ + direction_text(j.direction) + " "@ + alias_name(encl) + " "@ + j.edge_collection@ + (
    if j.exclusive {
        " FILTER "@ + alias_name(a) + " != "@ + alias_name(encl)
    } else {
        Seq::empty()
    })
}

/// One join in full: its traversal clause, then the nested stage's own
/// filters and joins.
pub open spec fn join_text(j: JoinClause, encl: nat, a: nat, v: nat) -> Seq<char>
    decreases j,
{
    join_header_text(j, encl, a) + filters_text(j.sub_query.filters@, a, v) + joins_text(
        j.sub_query.joins@,
        a,
        a + 1,
        v + j.sub_query.filters@.len(),
    )
}

/// The join clauses of one stage, in order: each starts from the enclosing
/// alias `encl`; the first nested stage is bound to alias `a` and binds
/// literals from `bind_name(v)` on.
pub open spec fn joins_text(js: Seq<JoinClause>, encl: nat, a: nat, v: nat) -> Seq<char>
    decreases js,
{
    if js.len() == 0 {
        Seq::empty()
    } else {
        join_text(js[0], encl, a, v) + joins_text(
            js.drop_first(),
            encl,
            a + stage_count(*js[0].sub_query),
            v + bind_values(*js[0].sub_query).len(),
        )
    }
}

/// The sort clause of the outermost stage (alias `a`); empty without keys.
pub open spec fn sort_text(ss: Seq<SortKey>, a: nat) -> Seq<char> {
    if ss.len() == 0 {
        Seq::empty()
    } else {
        " SORT "@ + sort_items_text(ss, a)
    }
}

/// The comma-separated sort keys, each on alias `a`.
pub open spec fn sort_items_text(ss: Seq<SortKey>, a: nat) -> Seq<char>
    decreases ss,
{
    if ss.len() == 0 {
        Seq::empty()
    } else {
        let item = alias_name(a) + "."@ + ss[0].field@ + " "@ + sort_direction_text(ss[0].order);
        if ss.len() == 1 {
            item
        } else {
            item + ", "@ + sort_items_text(ss.drop_first(), a)
        }
    }
}

/// The limit clause of the outermost stage; empty without a limit.
pub open spec fn limit_text(l: Option<(u32, u32)>) -> Seq<char> {
    match l {
        None => Seq::empty(),
        Some((offset, count)) => " LIMIT "@ + dec_digits(offset as nat) + ", "@ + dec_digits(
            count as nat,
        ),
    }
}

/// The final clause: projects the innermost alias of the last join chain,
/// de-duplicated when a stage on that chain asked for it.
pub open spec fn return_text(q: Query) -> Seq<char> {
    " RETURN "@ + (if proj_distinct(q) {
        "DISTINCT "@
    } else {
        Seq::<char>::empty()
    }) + alias_name(proj_alias(q, 0))
}

/// The complete wire text of a query tree.
pub open spec fn aql_text(q: Query) -> Seq<char> {
    source_text(q.source, 0) + filters_text(q.filters@, 0, 0) + joins_text(
        q.joins@,
        0,
        1,
        q.filters@.len() as nat,
    ) + sort_text(q.sort@, 0) + limit_text(q.limit) + return_text(q)
}

/// `new_b` extends `old_b` by exactly the literals of `piece`, each stored
/// under the bind-variable name of its absolute position.
pub open spec fn extends_binds(
    old_b: Seq<(String, QueryValue)>,
    new_b: Seq<(String, QueryValue)>,
    piece: Seq<QueryValue>,
) -> bool {
    &&& new_b.len() == old_b.len() + piece.len()
    &&& (forall|i: int| 0 <= i < old_b.len() ==> new_b[i] == old_b[i])
    &&& (forall|i: int|
        0 <= i < piece.len() ==> (#[trigger] new_b[old_b.len() + i]).0@ == bind_name(
            (old_b.len() + i) as nat,
        ) && new_b[old_b.len() + i].1 == piece[i])
}

/// A compiled query: the wire text and the bind variables it references, as
/// `(name, literal)` pairs in order of appearance. Derived from the query
/// tree alone and never mutated.
#[derive(Debug)]
pub struct CompiledQuery {
    /// The wire text; equals `aql_text` of the compiled tree.
    pub text: String,
    /// The bind variables: the pair at position `i` is named `bind_name(i)`
    /// and holds the literal bound `i`-th, depth-first.
    pub bind_vars: Vec<(String, QueryValue)>,
}

/// Decides [`is_identifier`].
fn check_identifier(s: &str) -> (b: bool)
    ensures
        b == is_identifier(s@),
{
    let n = s.unicode_len();
    if n == 0 {
        return false;
    }
    let c0 = s.get_char(0);
    if '0' <= c0 && c0 <= '9' {
        return false;
    }
    let mut k: usize = 0;
    while k < n
        invariant
            n == s@.len(),
            0 <= k <= n,
            forall|i: int| 0 <= i < k ==> ident_char(#[trigger] s@[i]),
        decreases n - k,
    {
        let c = s.get_char(k);
        if !(('a' <= c && c <= 'z') || ('A' <= c && c <= 'Z') || ('0' <= c && c <= '9') || c
            == '_') {
            return false;
        }
        k += 1;
    }
    true
}

/// Decides [`Query::wf`].
pub fn check_wf(q: &Query) -> (b: bool)
    ensures
        b == q.wf(),
    decreases *q,
{
    match &q.source {
        QuerySource::Collection { name } => {
            if name.as_str().is_empty() {
                return false;
            }
        },
        QuerySource::Traversal { min_depth, max_depth, edge_collection, .. } => {
            if edge_collection.as_str().is_empty() || *min_depth > *max_depth {
                return false;
            }
        },
    }
    let nf = q.filters.len();
    let mut k: usize = 0;
    while k < nf
        invariant
            nf == q.filters@.len(),
            0 <= k <= nf,
            forall|i: int| 0 <= i < k ==> (#[trigger] q.filters@[i]).wf(),
        decreases nf - k,
    {
        if !check_identifier(q.filters[k].field.as_str()) {
            return false;
        }
        k += 1;
    }
    let ns = q.sort.len();
    let mut k: usize = 0;
    while k < ns
        invariant
            ns == q.sort@.len(),
            0 <= k <= ns,
            forall|i: int| 0 <= i < k ==> (#[trigger] q.sort@[i]).wf(),
        decreases ns - k,
    {
        if !check_identifier(q.sort[k].field.as_str()) {
            return false;
        }
        k += 1;
    }
    let nj = q.joins.len();
    let mut k: usize = 0;
    proof {
        assert(q.joins@.subrange(0, nj as int) =~= q.joins@);
    }
    while k < nj
        invariant
            nj == q.joins@.len(),
            0 <= k <= nj,
            joins_wf(q.joins@) == joins_wf(q.joins@.subrange(k as int, nj as int)),
            q.source.wf(),
            forall|i: int| 0 <= i < q.filters@.len() ==> (#[trigger] q.filters@[i]).wf(),
            forall|i: int| 0 <= i < q.sort@.len() ==> (#[trigger] q.sort@[i]).wf(),
        decreases nj - k,
    {
        let ghost jsub = q.joins@.subrange(k as int, nj as int);
        proof {
            assert(jsub[0] == q.joins@[k as int]);
            assert(jsub.drop_first() =~= q.joins@.subrange(k as int + 1, nj as int));
            assert(joins_wf(jsub) == (jsub[0].wf() && joins_wf(jsub.drop_first())));
        }
        let j = &q.joins[k];
        let bounds_ok = !j.edge_collection.as_str().is_empty() && j.min_depth <= j.max_depth;
        if !bounds_ok {
            proof {
                assert(!q.joins@[k as int].wf());
            }
            return false;
        }
        if !check_wf(&*j.sub_query) {
            proof {
                assert(!q.joins@[k as int].wf());
            }
            return false;
        }
        proof {
            assert(q.joins@[k as int].wf());
        }
        k += 1;
    }
    proof {
        assert(q.joins@.subrange(nj as int, nj as int) =~= Seq::<JoinClause>::empty());
    }
    true
}

/// Computes [`stage_count`], or reports that it does not fit the counter
/// that numbers aliases.
pub fn count_stages(q: &Query) -> (r: Option<u64>)
    ensures
        (match r {
            Some(n) => n == stage_count(*q),
            None => stage_count(*q) > u64::MAX,
        }),
    decreases *q,
{
    let mut total: u64 = 1;
    let n = q.joins.len();
    let mut k: usize = 0;
    proof {
        assert(q.joins@.subrange(0, n as int) =~= q.joins@);
    }
    while k < n
        invariant
            n == q.joins@.len(),
            0 <= k <= n,
            total + joins_stage_count(q.joins@.subrange(k as int, n as int)) == stage_count(*q),
        decreases n - k,
    {
        proof {
            assert(q.joins@.subrange(k as int, n as int)[0] == q.joins@[k as int]);
            assert(q.joins@.subrange(k as int, n as int).drop_first() =~= q.joins@.subrange(
                k as int + 1,
                n as int,
            ));
        }
        match count_stages(&*q.joins[k].sub_query) {
            None => {
                return None;
            },
            Some(m) => {
                if m > u64::MAX - total {
                    return None;
                }
                total += m;
            },
        }
        k += 1;
    }
    proof {
        assert(q.joins@.subrange(n as int, n as int) =~= Seq::<JoinClause>::empty());
    }
    Some(total)
}

/// Appends the alias named after stage index `a`.
fn write_alias(s: &mut String, a: u64)
    ensures
        final(s)@ == old(s)@ + alias_name(a as nat),
{
    s.append("doc");
    write_u64(s, a);
    proof {
        assert(final(s)@ =~= old(s)@ + alias_name(a as nat));
    }
}

/// Appends the traversal keyword of `d`.
fn write_direction(s: &mut String, d: Direction)
    ensures
        final(s)@ == old(s)@ + direction_text(d),
{
    match d {
        Direction::Inbound => s.append("INBOUND"),
        Direction::Outbound => s.append("OUTBOUND"),
    }
}

/// Appends the wire spelling of `op`.
fn write_operator(s: &mut String, op: ComparisonOperator)
    ensures
        final(s)@ == old(s)@ + operator_text(op),
{
    match op {
        ComparisonOperator::Equal => s.append("=="),
        ComparisonOperator::NotEqual => s.append("!="),
        ComparisonOperator::Greater => s.append(">"),
        ComparisonOperator::GreaterOrEqual => s.append(">="),
        ComparisonOperator::Less => s.append("<"),
        ComparisonOperator::LessOrEqual => s.append("<="),
    }
}

/// Appends the opening clause of the outermost stage.
#[verifier::rlimit(100)]
#[verifier::spinoff_prover]
fn write_source(s: &mut String, src: &QuerySource, a: u64)
    ensures
        final(s)@ == old(s)@ + source_text(*src, a as nat),
{
    match src {
        QuerySource::Collection { name } => {
            s.append("FOR ");
            write_alias(s, a);
            s.append(" IN ");
            s.append(name.as_str());
        },
        QuerySource::Traversal { direction, min_depth, max_depth, edge_collection, start_vertex,
        } => {
            s.append("FOR ");
            write_alias(s, a);
            s.append(" IN ");
            write_u64(s, *min_depth as u64);
            s.append("..");
            write_u64(s, *max_depth as u64);
            s.append(" ");
            write_direction(s, *direction);
            s.append(" '");
            s.append(start_vertex.as_str());
            s.append("' ");
            s.append(edge_collection.as_str());
        },
    }
    proof {
        assert(final(s)@ =~= old(s)@ + source_text(*src, a as nat));
    }
}

/// Appends the filter clauses of one stage from position `k` on, alias `a`,
/// and pushes their literals, each under the name of its position.
#[verifier::rlimit(100)]
#[verifier::spinoff_prover]
fn write_filters(
    s: &mut String,
    binds: &mut Vec<(String, QueryValue)>,
    fs: &Vec<Comparison>,
    k: usize,
    a: u64,
)
    requires
        k <= fs@.len(),
    ensures
        final(s)@ == old(s)@ + filters_text(
            fs@.subrange(k as int, fs@.len() as int),
            a as nat,
            old(binds)@.len() as nat,
        ),
        extends_binds(
            old(binds)@,
            final(binds)@,
            filters_values(fs@.subrange(k as int, fs@.len() as int)),
        ),
    decreases fs@.len() - k,
{
    let ghost fsub = fs@.subrange(k as int, fs@.len() as int);
    if k == fs.len() {
        proof {
            assert(fsub =~= Seq::<Comparison>::empty());
            assert(filters_values(fsub) =~= Seq::<QueryValue>::empty());
            assert(final(s)@ =~= old(s)@ + filters_text(fsub, a as nat, old(binds)@.len() as nat));
        }
        return ;
    }
    proof {
        assert(fsub[0] == fs@[k as int]);
        assert(fsub.drop_first() =~= fs@.subrange(k as int + 1, fs@.len() as int));
    }
    let c = &fs[k];
    s.append(" FILTER ");
    write_alias(s, a);
    s.append(".");
    s.append(c.field.as_str());
    s.append(" ");
    write_operator(s, c.operator);
    s.append(" @");
    s.append("var");
    let v64 = binds.len() as u64;
    write_u64(s, v64);
    let mut name = String::new();
    name.append("var");
    write_u64(&mut name, v64);
    binds.push((name, c.value.duplicate()));
    let ghost mid_binds = binds@;
    let ghost mid_s = s@;
    write_filters(s, binds, fs, k + 1, a);
    proof {
        let v = old(binds)@.len() as nat;
        assert(mid_binds.len() == v + 1);
        assert(mid_binds[v as int].0@ =~= bind_name(v));
        assert(final(s)@ =~= old(s)@ + filters_text(fsub, a as nat, v));
        let piece = filters_values(fsub);
        let rest = filters_values(fs@.subrange(k as int + 1, fs@.len() as int));
        assert forall|i: int| 0 <= i < piece.len() implies (#[trigger] final(binds)@[old(
            binds,
        )@.len() + i]).0@ == bind_name((old(binds)@.len() + i) as nat) && final(binds)@[old(
            binds,
        )@.len() + i].1 == piece[i] by {
            if i == 0 {
                assert(final(binds)@[v as int] == mid_binds[v as int]);
                assert(piece[0] == fsub[0].value);
            } else {
                assert(final(binds)@[mid_binds.len() + (i - 1)].1 == rest[i - 1]);
                assert(rest[i - 1] == fs@.subrange(k as int + 1, fs@.len() as int)[i - 1].value);
                assert(piece[i] == fsub[i].value);
            }
        }
        assert(extends_binds(old(binds)@, final(binds)@, piece));
    }
}

/// Appends the traversal clause of one join.
#[verifier::rlimit(100)]
#[verifier::spinoff_prover]
fn write_join_header(s: &mut String, j: &JoinClause, encl: u64, a: u64)
    ensures
        final(s)@ == old(s)@ + join_header_text(*j, encl as nat, a as nat),
{
    s.append(" FOR ");
    write_alias(s, a);
    s.append(" IN ");
    write_u64(s, j.min_depth as u64);
    s.append("..");
    write_u64(s, j.max_depth as u64);
    s.append(" ");
    write_direction(s, j.direction);
    s.append(" ");
    write_alias(s, encl);
    s.append(" ");
    s.append(j.edge_collection.as_str());
    if j.exclusive {
        s.append(" FILTER ");
        write_alias(s, a);
        s.append(" != ");
        write_alias(s, encl);
    }
    proof {
        assert(final(s)@ =~= old(s)@ + join_header_text(*j, encl as nat, a as nat));
    }
}

/// Appends one join clause and, recursively, its nested stage; returns the
/// next free alias index.
#[verifier::rlimit(100)]
#[verifier::spinoff_prover]
fn write_join(
    s: &mut String,
    binds: &mut Vec<(String, QueryValue)>,
    j: &JoinClause,
    encl: u64,
    a: u64,
) -> (r: u64)
    requires
        a + stage_count(*j.sub_query) <= u64::MAX,
    ensures
        final(s)@ == old(s)@ + join_text(*j, encl as nat, a as nat, old(binds)@.len() as nat),
        extends_binds(old(binds)@, final(binds)@, bind_values(*j.sub_query)),
        r == a + stage_count(*j.sub_query),
    decreases *j, 0int,
{
    proof {
        assert(stage_count(*j.sub_query) >= 1);
    }
    write_join_header(s, j, encl, a);
    proof {
        assert(j.sub_query.filters@.subrange(0, j.sub_query.filters@.len() as int)
            =~= j.sub_query.filters@);
        assert(j.sub_query.joins@.subrange(0, j.sub_query.joins@.len() as int)
            =~= j.sub_query.joins@);
        assert(stage_count(*j.sub_query) == 1 + joins_stage_count(j.sub_query.joins@));
    }
    write_filters(s, binds, &j.sub_query.filters, 0, a);
    let ghost mid_binds = binds@;
    let r = write_joins(s, binds, &j.sub_query.joins, 0, a, a + 1);
    proof {
        let head_vals = filters_values(j.sub_query.filters@);
        let tail_vals = joins_bind_values(j.sub_query.joins@);
        let piece = bind_values(*j.sub_query);
        assert(piece =~= head_vals + tail_vals);
        assert(mid_binds.len() == old(binds)@.len() + head_vals.len());
        assert(final(s)@ =~= old(s)@ + join_text(
            *j,
            encl as nat,
            a as nat,
            old(binds)@.len() as nat,
        ));
        assert forall|i: int| 0 <= i < piece.len() implies (#[trigger] final(binds)@[old(
            binds,
        )@.len() + i]).0@ == bind_name((old(binds)@.len() + i) as nat) && final(binds)@[old(
            binds,
        )@.len() + i].1 == piece[i] by {
            if i < head_vals.len() {
                assert(final(binds)@[old(binds)@.len() + i] == mid_binds[old(binds)@.len() + i]);
            } else {
                assert(final(binds)@[mid_binds.len() + (i - head_vals.len())].1 == tail_vals[i - head_vals.len()]);
                assert(piece[i] == tail_vals[i - head_vals.len()]);
            }
        }
    }
    r
}

/// Appends the join clauses of one stage from position `k` on; `encl` is the
/// enclosing stage's alias, `a` the alias for the first nested stage.
/// Returns the next free alias index.
#[verifier::rlimit(100)]
#[verifier::spinoff_prover]
fn write_joins(
    s: &mut String,
    binds: &mut Vec<(String, QueryValue)>,
    js: &Vec<JoinClause>,
    k: usize,
    encl: u64,
    a: u64,
) -> (r: u64)
    requires
        k <= js@.len(),
        a + joins_stage_count(js@.subrange(k as int, js@.len() as int)) <= u64::MAX,
    ensures
        final(s)@ == old(s)@ + joins_text(
            js@.subrange(k as int, js@.len() as int),
            encl as nat,
            a as nat,
            old(binds)@.len() as nat,
        ),
        extends_binds(
            old(binds)@,
            final(binds)@,
            joins_bind_values(js@.subrange(k as int, js@.len() as int)),
        ),
        r == a + joins_stage_count(js@.subrange(k as int, js@.len() as int)),
    decreases js@, js@.len() - k,
{
    let ghost jsub = js@.subrange(k as int, js@.len() as int);
    if k == js.len() {
        proof {
            assert(jsub =~= Seq::<JoinClause>::empty());
            assert(final(s)@ =~= old(s)@ + joins_text(
                jsub,
                encl as nat,
                a as nat,
                old(binds)@.len() as nat,
            ));
        }
        return a;
    }
    proof {
        assert(jsub[0] == js@[k as int]);
        assert(jsub.drop_first() =~= js@.subrange(k as int + 1, js@.len() as int));
    }
    let a2 = write_join(s, binds, &js[k], encl, a);
    let ghost mid_binds = binds@;
    let r = write_joins(s, binds, js, k + 1, encl, a2);
    proof {
        let head_vals = bind_values(*js@[k as int].sub_query);
        let tail_vals = joins_bind_values(js@.subrange(k as int + 1, js@.len() as int));
        let piece = joins_bind_values(jsub);
        assert(piece =~= head_vals + tail_vals);
        assert(mid_binds.len() == old(binds)@.len() + head_vals.len());
        assert(final(s)@ =~= old(s)@ + joins_text(
            jsub,
            encl as nat,
            a as nat,
            old(binds)@.len() as nat,
        ));
        assert forall|i: int| 0 <= i < piece.len() implies (#[trigger] final(binds)@[old(
            binds,
        )@.len() + i]).0@ == bind_name((old(binds)@.len() + i) as nat) && final(binds)@[old(
            binds,
        )@.len() + i].1 == piece[i] by {
            if i < head_vals.len() {
                assert(final(binds)@[old(binds)@.len() + i] == mid_binds[old(binds)@.len() + i]);
            } else {
                assert(final(binds)@[mid_binds.len() + (i - head_vals.len())].1 == tail_vals[i - head_vals.len()]);
                assert(piece[i] == tail_vals[i - head_vals.len()]);
            }
        }
    }
    r
}

/// Appends the sort keys from position `k` on, comma-separated, on alias `a`.
#[verifier::rlimit(100)]
#[verifier::spinoff_prover]
fn write_sort_items(s: &mut String, ss: &Vec<SortKey>, k: usize, a: u64)
    requires
        k < ss@.len(),
    ensures
        final(s)@ == old(s)@ + sort_items_text(ss@.subrange(k as int, ss@.len() as int), a as nat),
    decreases ss@.len() - k,
{
    let ghost ssub = ss@.subrange(k as int, ss@.len() as int);
    proof {
        assert(ssub[0] == ss@[k as int]);
        assert(ssub.drop_first() =~= ss@.subrange(k as int + 1, ss@.len() as int));
    }
    write_alias(s, a);
    s.append(".");
    s.append(ss[k].field.as_str());
    s.append(" ");
    match ss[k].order {
        SortDirection::Ascending => s.append("ASC"),
        SortDirection::Descending => s.append("DESC"),
    }
    let n = ss.len();
    if k + 1 < n {
        s.append(", ");
        write_sort_items(s, ss, k + 1, a);
    }
    proof {
        assert(final(s)@ =~= old(s)@ + sort_items_text(ssub, a as nat));
    }
}

/// Appends the sort clause of the outermost stage; nothing without keys.
fn write_sort(s: &mut String, ss: &Vec<SortKey>, a: u64)
    ensures
        final(s)@ == old(s)@ + sort_text(ss@, a as nat),
{
    if ss.len() > 0 {
        s.append(" SORT ");
        write_sort_items(s, ss, 0, a);
        proof {
            assert(ss@.subrange(0, ss@.len() as int) =~= ss@);
            assert(final(s)@ =~= old(s)@ + sort_text(ss@, a as nat));
        }
    }
}

/// Appends the limit clause of the outermost stage; nothing without a limit.
fn write_limit(s: &mut String, l: &Option<(u32, u32)>)
    ensures
        final(s)@ == old(s)@ + limit_text(*l),
{
    match l {
        None => {},
        Some((offset, count)) => {
            s.append(" LIMIT ");
            write_u64(s, *offset as u64);
            s.append(", ");
            write_u64(s, *count as u64);
            proof {
                assert(final(s)@ =~= old(s)@ + limit_text(*l));
            }
        },
    }
}

/// Computes [`proj_alias`] for this stage at alias `a`.
fn projected_alias(q: &Query, a: u64) -> (r: u64)
    requires
        a + stage_count(*q) <= u64::MAX,
    ensures
        r == proj_alias(*q, a as nat),
    decreases *q, 0int,
{
    if q.joins.len() == 0 {
        a
    } else {
        proof {
            assert(q.joins@.subrange(0, q.joins@.len() as int) =~= q.joins@);
        }
        joins_projected_alias(&q.joins, 0, a + 1)
    }
}

/// Computes [`joins_proj_alias`] of the joins from position `k` on, first
/// stage at alias `b`.
fn joins_projected_alias(js: &Vec<JoinClause>, k: usize, b: u64) -> (r: u64)
    requires
        k < js@.len(),
        b + joins_stage_count(js@.subrange(k as int, js@.len() as int)) <= u64::MAX,
    ensures
        r == joins_proj_alias(js@.subrange(k as int, js@.len() as int), b as nat),
    decreases js@, js@.len() - k,
{
    let ghost jsub = js@.subrange(k as int, js@.len() as int);
    proof {
        assert(jsub[0] == js@[k as int]);
        assert(jsub.drop_first() =~= js@.subrange(k as int + 1, js@.len() as int));
    }
    let n = js.len();
    if k + 1 == n {
        projected_alias(&*js[k].sub_query, b)
    } else {
        match count_stages(&*js[k].sub_query) {
            Some(m) => joins_projected_alias(js, k + 1, b + m),
            None => {
                proof {
                    assert(false);
                }
                0
            },
        }
    }
}

/// Computes [`proj_distinct`].
fn projected_distinct(q: &Query) -> (r: bool)
    ensures
        r == proj_distinct(*q),
    decreases *q, 0int,
{
    if q.distinct {
        true
    } else if q.joins.len() == 0 {
        false
    } else {
        proof {
            assert(q.joins@.subrange(0, q.joins@.len() as int) =~= q.joins@);
        }
        joins_projected_distinct(&q.joins, 0)
    }
}

/// Computes [`joins_proj_distinct`] of the joins from position `k` on.
fn joins_projected_distinct(js: &Vec<JoinClause>, k: usize) -> (r: bool)
    requires
        k < js@.len(),
    ensures
        r == joins_proj_distinct(js@.subrange(k as int, js@.len() as int)),
    decreases js@, js@.len() - k,
{
    let ghost jsub = js@.subrange(k as int, js@.len() as int);
    proof {
        assert(jsub[0] == js@[k as int]);
        assert(jsub.drop_first() =~= js@.subrange(k as int + 1, js@.len() as int));
    }
    let n = js.len();
    if k + 1 == n {
        projected_distinct(&*js[k].sub_query)
    } else {
        joins_projected_distinct(js, k + 1)
    }
}

/// Appends the final clause.
fn write_return(s: &mut String, q: &Query)
    requires
        stage_count(*q) <= u64::MAX,
    ensures
        final(s)@ == old(s)@ + return_text(*q),
{
    s.append(" RETURN ");
    if projected_distinct(q) {
        s.append("DISTINCT ");
    }
    let p = projected_alias(q, 0);
    write_alias(s, p);
    proof {
        assert(final(s)@ =~= old(s)@ + return_text(*q));
    }
}

/// Compiles a query tree into wire text plus bind variables.
///
/// Succeeds exactly on the well-formed trees whose stage count fits the
/// alias counter; a tree with depth bounds out of order, an empty collection
/// or edge-collection name, or a filter or sort field that is not a simple
/// identifier is rejected with [`ServiceError::MalformedQuery`] before
/// anything reaches the network. On success the text is exactly
/// [`aql_text`], and the bind variables hold every literal of the tree in
/// emission order, each under the name of its position: `var0`, `var1`, …
pub fn compile(q: &Query) -> (r: Result<CompiledQuery, ServiceError>)
    ensures
        r is Ok <==> q.wf() && stage_count(*q) <= u64::MAX,
        (match r {
            Ok(c) => {
                &&& c.text@ == aql_text(*q)
                &&& c.bind_vars@.len() == bind_values(*q).len()
                &&& (forall|i: int|
                    0 <= i < bind_values(*q).len() ==> (#[trigger] c.bind_vars@[i]).0@
                        == bind_name(i as nat) && c.bind_vars@[i].1 == bind_values(*q)[i])
            },
            Err(e) => e is MalformedQuery,
        }),
{
    if !check_wf(q) {
        let mut m = String::new();
        m.append("query tree breaks a local rule");
        return Err(ServiceError::MalformedQuery(m));
    }
    match count_stages(q) {
        None => {
            let mut m = String::new();
            m.append("query tree has too many stages");
            Err(ServiceError::MalformedQuery(m))
        },
        Some(_) => {
            let mut s = String::new();
            let mut binds: Vec<(String, QueryValue)> = Vec::new();
            proof {
                assert(q.filters@.subrange(0, q.filters@.len() as int) =~= q.filters@);
                assert(q.joins@.subrange(0, q.joins@.len() as int) =~= q.joins@);
                assert(stage_count(*q) == 1 + joins_stage_count(q.joins@));
            }
            write_source(&mut s, &q.source, 0);
            write_filters(&mut s, &mut binds, &q.filters, 0, 0);
            let ghost mid_binds = binds@;
            write_joins(&mut s, &mut binds, &q.joins, 0, 0, 1);
            write_sort(&mut s, &q.sort, 0);
            write_limit(&mut s, &q.limit);
            write_return(&mut s, q);
            proof {
                let head_vals = filters_values(q.filters@);
                let tail_vals = joins_bind_values(q.joins@);
                let piece = bind_values(*q);
                assert(piece =~= head_vals + tail_vals);
                assert(mid_binds.len() == head_vals.len());
                assert(s@ =~= aql_text(*q));
                assert forall|i: int| 0 <= i < piece.len() implies (#[trigger] binds@[i]).0@
                    == bind_name(i as nat) && binds@[i].1 == piece[i] by {
                    if i < head_vals.len() {
                        assert(mid_binds[0 + i].0@ == bind_name((0 + i) as nat));
                        assert(mid_binds[0 + i].1 == head_vals[i]);
                        assert(binds@[i] == mid_binds[i]);
                        assert(piece[i] == head_vals[i]);
                    } else {
                        assert(binds@[mid_binds.len() + (i - head_vals.len())].0@ == bind_name(
                            (mid_binds.len() + (i - head_vals.len())) as nat,
                        ));
                        assert(binds@[mid_binds.len() + (i - head_vals.len())].1 == tail_vals[i - head_vals.len()]);
                        assert(piece[i] == tail_vals[i - head_vals.len()]);
                    }
                }
            }
            Ok(CompiledQuery { text: s, bind_vars: binds })
        },
    }
}

/// `hay` contains `needle` as a contiguous run.
pub open spec fn contains_seq<A>(hay: Seq<A>, needle: Seq<A>) -> bool {
    exists|i: int|
        0 <= i && i + needle.len() <= hay.len() && #[trigger] hay.subrange(
            i,
            i + needle.len() as int,
        ) == needle
}

/// The traversal clause of a depth-bounded query. For every traversal query
/// the compiled text opens with its traversal clause, so it contains the
/// depth range `min..max` followed by the direction keyword, and the edge
/// collection name; and a traversal whose bounds are out of order is not
/// well-formed, so compiling it fails before anything reaches the network.
pub proof fn lemma_traversal_clause(q: Query)
    requires
        q.source matches QuerySource::Traversal { .. },
    ensures
        q.source matches QuerySource::Traversal {
            direction,
            min_depth,
            max_depth,
            edge_collection,
            ..
        } ==> contains_seq(
            aql_text(q),
            dec_digits(min_depth as nat) + ".."@ + dec_digits(max_depth as nat) + " "@
                + direction_text(direction),
        ) && contains_seq(aql_text(q), edge_collection@),
        q.source matches QuerySource::Traversal { min_depth, max_depth, .. } && min_depth
            > max_depth ==> !q.wf(),
{
    if let QuerySource::Traversal { direction, min_depth, max_depth, edge_collection, start_vertex }
        = q.source {
        let head = source_text(q.source, 0);
        let range = dec_digits(min_depth as nat) + ".."@ + dec_digits(max_depth as nat) + " "@
            + direction_text(direction);
        let lead = "FOR "@ + alias_name(0) + " IN "@;
        let p = lead.len() as int;
        assert(aql_text(q).subrange(p, p + range.len() as int) =~= range);
        assert(contains_seq(aql_text(q), range)) by {
            assert(0 <= p && p + range.len() <= aql_text(q).len() && aql_text(q).subrange(
                p,
                p + range.len() as int,
            ) == range);
        }
        let pe = (head.len() - edge_collection@.len()) as int;
        assert(aql_text(q).subrange(pe, pe + edge_collection@.len() as int)
            =~= edge_collection@);
        assert(contains_seq(aql_text(q), edge_collection@)) by {
            assert(0 <= pe && pe + edge_collection@.len() <= aql_text(q).len() && aql_text(
                q,
            ).subrange(pe, pe + edge_collection@.len() as int) == edge_collection@);
        }
    }
}

/// The de-duplication modifier. Whenever a stage on the projected chain
/// asked for `distinct`, the compiled text closes with a `DISTINCT`
/// modifier over the projected alias. The de-duplication itself — each
/// document identity at most once, in first-discovery order — is performed
/// by the traversal engine that receives this text; the engine's results
/// pass through unmodified.
pub proof fn lemma_distinct_modifier(q: Query)
    requires
        proj_distinct(q),
    ensures
        contains_seq(aql_text(q), " RETURN DISTINCT "@),
{
    reveal_strlit(" RETURN ");
    reveal_strlit("DISTINCT ");
    reveal_strlit(" RETURN DISTINCT ");
    assert(" RETURN "@ + "DISTINCT "@ =~= " RETURN DISTINCT "@);
    let text = aql_text(q);
    let needle = " RETURN DISTINCT "@;
    let p = (text.len() - return_text(q).len()) as int;
    assert(text.subrange(p, p + needle.len() as int) =~= needle);
    assert(contains_seq(text, needle)) by {
        assert(0 <= p && p + needle.len() <= text.len() && text.subrange(
            p,
            p + needle.len() as int,
        ) == needle);
    }
}

/// Bind-variable names never collide: the names generated for two distinct
/// positions differ, however deeply the joins that produced them are nested.
/// In particular two structurally identical filters at different nesting
/// depths always receive distinct names.
pub proof fn lemma_bind_names_unique(i: nat, j: nat)
    requires
        i != j,
    ensures
        bind_name(i) != bind_name(j),
{
    if bind_name(i) == bind_name(j) {
        reveal_strlit("var");
        assert("var"@.len() == 3);
        assert(dec_digits(i) =~= bind_name(i).subrange(3, bind_name(i).len() as int));
        assert(dec_digits(j) =~= bind_name(j).subrange(3, bind_name(j).len() as int));
        lemma_dec_digits_injective(i, j);
    }
}

/// A compiled query holds no two bind variables under one name.
pub proof fn lemma_compiled_binds_distinct(c: CompiledQuery)
    requires
        forall|i: int|
            0 <= i < c.bind_vars@.len() ==> (#[trigger] c.bind_vars@[i]).0@ == bind_name(i as nat),
    ensures
        forall|i: int, j: int|
            0 <= i < c.bind_vars@.len() && 0 <= j < c.bind_vars@.len() && i != j
                ==> (#[trigger] c.bind_vars@[i]).0@ != (#[trigger] c.bind_vars@[j]).0@,
{
    assert forall|i: int, j: int|
        0 <= i < c.bind_vars@.len() && 0 <= j < c.bind_vars@.len() && i != j implies (
    #[trigger] c.bind_vars@[i]).0@ != (#[trigger] c.bind_vars@[j]).0@ by {
        lemma_bind_names_unique(i as nat, j as nat);
    }
}
} // verus!
