use aragog::compiler::{compile, CompiledQuery};
use aragog::query::{Comparison, ComparisonOperator, Query, QueryValue, SortDirection};
use aragog::record::{DatabaseRecord, Record};
use aragog::ServiceError;

struct Character {
    name: String,
    surname: String,
}

impl Record for Character {
    fn collection_name() -> String {
        "Characters".to_string()
    }
}

fn character(name: &str, surname: &str) -> Character {
    Character { name: name.to_string(), surname: surname.to_string() }
}

fn compiled(q: &Query) -> CompiledQuery {
    compile(q).expect("query should compile")
}

#[test]
fn simple_scan_text() {
    let q = Query::new("Users");
    let c = compiled(&q);
    assert_eq!(c.text, "FOR doc0 IN Users RETURN doc0");
    assert!(c.bind_vars.is_empty());
}

#[test]
fn inbound_traversal_text_carries_depth_range_and_edge() {
    let q = Query::inbound(1, 2, "ChildOf", "Characters/catelyn");
    let c = compiled(&q);
    assert_eq!(c.text, "FOR doc0 IN 1..2 INBOUND 'Characters/catelyn' ChildOf RETURN doc0");
    assert!(c.text.contains("1..2"));
    assert!(c.text.contains("ChildOf"));
}

#[test]
fn depth_bounds_out_of_order_never_compile() {
    let q = Query::inbound(3, 2, "ChildOf", "Characters/catelyn");
    match compile(&q) {
        Err(ServiceError::MalformedQuery(_)) => {}
        _ => panic!("min_depth > max_depth must fail compilation"),
    }
}

#[test]
fn empty_collection_name_is_rejected() {
    let q = Query::new("");
    assert!(matches!(compile(&q), Err(ServiceError::MalformedQuery(_))));
}

#[test]
fn filter_field_must_be_simple_identifier() {
    let q = Query::new("Users").filter(Comparison::new(
        "a b",
        ComparisonOperator::Equal,
        QueryValue::Int(1),
    ));
    assert!(matches!(compile(&q), Err(ServiceError::MalformedQuery(_))));
    let q2 = Query::new("Users").filter(Comparison::new(
        "1age",
        ComparisonOperator::Equal,
        QueryValue::Int(1),
    ));
    assert!(matches!(compile(&q2), Err(ServiceError::MalformedQuery(_))));
    let ok = Query::new("Users").filter(Comparison::new(
        "age_2",
        ComparisonOperator::Equal,
        QueryValue::Int(1),
    ));
    assert!(compile(&ok).is_ok());
}

#[test]
fn join_without_edge_collection_is_rejected() {
    // the sub-query's source names the edge collection; a traversal source
    // names none, so the join is malformed
    let sub = Query::inbound(1, 1, "ChildOf", "Characters/ned");
    let q = Query::new("Users").join_inbound(1, 1, false, sub);
    assert!(matches!(compile(&q), Err(ServiceError::MalformedQuery(_))));
}

#[test]
fn filters_become_bind_variables_in_order() {
    let q = Query::new("Users")
        .filter(Comparison::new("age", ComparisonOperator::GreaterOrEqual, QueryValue::Int(18)))
        .filter(Comparison::new(
            "name",
            ComparisonOperator::Equal,
            QueryValue::Str("Ned".to_string()),
        ));
    let c = compiled(&q);
    assert_eq!(c.text, "FOR doc0 IN Users FILTER doc0.age >= @var0 FILTER doc0.name == @var1 RETURN doc0");
    assert_eq!(c.bind_vars.len(), 2);
    assert_eq!(c.bind_vars[0].0, "var0");
    assert!(matches!(c.bind_vars[0].1, QueryValue::Int(18)));
    assert_eq!(c.bind_vars[1].0, "var1");
    match &c.bind_vars[1].1 {
        QueryValue::Str(s) => assert_eq!(s, "Ned"),
        other => panic!("wrong bind value: {:?}", other),
    }
}

#[test]
fn every_operator_has_its_wire_spelling() {
    let cases = [
        (ComparisonOperator::Equal, "=="),
        (ComparisonOperator::NotEqual, "!="),
        (ComparisonOperator::Greater, ">"),
        (ComparisonOperator::GreaterOrEqual, ">="),
        (ComparisonOperator::Less, "<"),
        (ComparisonOperator::LessOrEqual, "<="),
    ];
    for (op, text) in cases {
        let q = Query::new("Users").filter(Comparison::new("age", op, QueryValue::Int(1)));
        let c = compiled(&q);
        let expected = format!("FOR doc0 IN Users FILTER doc0.age {} @var0 RETURN doc0", text);
        assert_eq!(c.text, expected);
    }
}

#[test]
fn sort_and_limit_apply_to_the_outermost_stage() {
    let q = Query::new("Users")
        .sort("name", SortDirection::Ascending)
        .sort("age", SortDirection::Descending)
        .limit(10, 20);
    let c = compiled(&q);
    assert_eq!(
        c.text,
        "FOR doc0 IN Users SORT doc0.name ASC, doc0.age DESC LIMIT 10, 20 RETURN doc0"
    );
}

#[test]
fn identical_filters_at_different_depths_get_distinct_bind_names() {
    let same = || Comparison::new("age", ComparisonOperator::Equal, QueryValue::Int(18));
    let sub = Query::new("ChildOf").filter(same());
    let q = Query::new("Users").filter(same()).join_inbound(1, 1, false, sub);
    let c = compiled(&q);
    assert_eq!(
        c.text,
        "FOR doc0 IN Users FILTER doc0.age == @var0 FOR doc1 IN 1..1 INBOUND doc0 ChildOf FILTER doc1.age == @var1 RETURN doc1"
    );
    assert_eq!(c.bind_vars.len(), 2);
    assert_ne!(c.bind_vars[0].0, c.bind_vars[1].0);
    assert!(matches!(c.bind_vars[0].1, QueryValue::Int(18)));
    assert!(matches!(c.bind_vars[1].1, QueryValue::Int(18)));
}

#[test]
fn exclusive_join_excludes_its_start_vertex() {
    let q = Query::new("Users").join_outbound(1, 1, true, Query::new("Edges"));
    let c = compiled(&q);
    assert_eq!(
        c.text,
        "FOR doc0 IN Users FOR doc1 IN 1..1 OUTBOUND doc0 Edges FILTER doc1 != doc0 RETURN doc1"
    );
}

#[test]
fn sibling_joins_get_fresh_aliases_and_project_the_last() {
    let q = Query::new("Users")
        .join_inbound(1, 1, false, Query::new("Knows"))
        .join_outbound(1, 1, false, Query::new("Owns"));
    let c = compiled(&q);
    assert_eq!(
        c.text,
        "FOR doc0 IN Users FOR doc1 IN 1..1 INBOUND doc0 Knows FOR doc2 IN 1..1 OUTBOUND doc0 Owns RETURN doc2"
    );
}

#[test]
fn children_of_catelyn_and_ned_queries() {
    let catelyn = DatabaseRecord::new("catelyn".to_string(), character("Catelyn", "Stark"));
    let ned = DatabaseRecord::new("ned".to_string(), character("Ned", "Stark"));
    let c = compiled(&catelyn.inbound_query(1, 1, "ChildOf"));
    assert_eq!(c.text, "FOR doc0 IN 1..1 INBOUND 'Characters/catelyn' ChildOf RETURN doc0");
    let c = compiled(&ned.inbound_query(1, 1, "ChildOf"));
    assert_eq!(c.text, "FOR doc0 IN 1..1 INBOUND 'Characters/ned' ChildOf RETURN doc0");
}

#[test]
fn ancestors_of_joffrey_query_is_deduplicated() {
    let joffrey = DatabaseRecord::new("joffrey".to_string(), character("Joffrey", "Baratheon"));
    let c = compiled(&joffrey.outbound_query(1, 2, "ChildOf").distinct());
    assert_eq!(
        c.text,
        "FOR doc0 IN 1..2 OUTBOUND 'Characters/joffrey' ChildOf RETURN DISTINCT doc0"
    );
}

#[test]
fn relatives_of_tyrion_query_includes_inclusive_join() {
    let tyrion = DatabaseRecord::new("tyrion".to_string(), character("Tyrion", "Lannister"));
    let q = tyrion
        .outbound_query(1, 2, "ChildOf")
        .join_inbound(1, 2, false, Query::new("ChildOf").distinct());
    let c = compiled(&q);
    assert_eq!(
        c.text,
        "FOR doc0 IN 1..2 OUTBOUND 'Characters/tyrion' ChildOf FOR doc1 IN 1..2 INBOUND doc0 ChildOf RETURN DISTINCT doc1"
    );
}

#[test]
fn record_query_roots_at_its_collection() {
    let c = compiled(&Character::query());
    assert_eq!(c.text, "FOR doc0 IN Characters RETURN doc0");
}

#[test]
fn record_id_joins_collection_and_key() {
    let ned = DatabaseRecord::new("ned".to_string(), character("Ned", "Stark"));
    assert_eq!(ned.id(), "Characters/ned");
}
