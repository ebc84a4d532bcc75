use aragog::compiler::compile;
use aragog::cursor::{CursorStep, QueryCursor};
use aragog::db::{
    batched_request, count_or_zero, exists_from_count, immediate_request, retrieval_error,
    round_trip_error,
};
use aragog::num::u64_to_string;
use aragog::query::Query;
use aragog::ServiceError;

#[test]
fn cursor_yields_buffer_then_requests_one_fetch() {
    // opened with hasMore = true and a batch of three documents
    let mut cursor = QueryCursor::new(vec![10, 11, 12], true, Some("c7".to_string()));
    let mut yielded = Vec::new();
    let mut fetches = 0;
    loop {
        match cursor.advance() {
            CursorStep::Yield(d) => yielded.push(d),
            CursorStep::NeedsFetch => {
                fetches += 1;
                // one continuation round trip; the server reports the end
                cursor.supply_batch(vec![13], false);
            }
            CursorStep::Exhausted => break,
        }
    }
    // exactly one continuation request before the fourth element
    assert_eq!(fetches, 1);
    assert_eq!(yielded, vec![10, 11, 12, 13]);
}

#[test]
fn cursor_without_more_never_requests_a_fetch() {
    let mut cursor = QueryCursor::new(vec![1, 2], false, None);
    let mut yielded = Vec::new();
    loop {
        match cursor.advance() {
            CursorStep::Yield(d) => yielded.push(d),
            CursorStep::NeedsFetch => panic!("no request may be issued after hasMore = false"),
            CursorStep::Exhausted => break,
        }
    }
    assert_eq!(yielded, vec![1, 2]);
    // the sequence stays ended
    assert!(matches!(cursor.advance(), CursorStep::Exhausted));
}

#[test]
fn cursor_release_surrenders_the_handle() {
    let mut cursor = QueryCursor::new(vec![1], true, Some("c9".to_string()));
    let id = cursor.release();
    assert_eq!(id, Some("c9".to_string()));
    // buffered documents stay valid, but no further round trip is requested
    assert!(matches!(cursor.advance(), CursorStep::Yield(1)));
    assert!(matches!(cursor.advance(), CursorStep::Exhausted));
    assert_eq!(cursor.has_more(), false);
}

#[test]
fn request_shapes_for_both_execution_modes() {
    let c = compile(&Query::new("Users")).expect("query should compile");
    let text = c.text.clone();
    let r = immediate_request(c);
    assert!(r.batch_size.is_none());
    assert!(!r.count);
    assert!(!r.full_count);
    assert_eq!(r.query, text);
    let c = compile(&Query::new("Users")).expect("query should compile");
    let b = batched_request(c, 25);
    assert_eq!(b.batch_size, Some(25));
    assert!(b.count);
    assert!(b.full_count);
    assert_eq!(b.query, text);
}

#[test]
fn existence_follows_the_reported_count() {
    assert!(exists_from_count(Some(3)));
    assert!(!exists_from_count(Some(0)));
    assert!(!exists_from_count(None));
}

#[test]
fn missing_document_maps_to_not_found() {
    match retrieval_error(404, "Users", "ned") {
        ServiceError::NotFound { item, id } => {
            assert_eq!(item, "Users");
            assert_eq!(id, "ned");
        }
        other => panic!("wrong error: {:?}", other),
    }
    match retrieval_error(503, "Users", "ned") {
        ServiceError::ServerError { code, .. } => assert_eq!(code, 503),
        other => panic!("wrong error: {:?}", other),
    }
}

#[test]
fn missing_collection_count_reads_as_zero() {
    assert_eq!(count_or_zero(Some(41)), 41);
    assert_eq!(count_or_zero(None), 0);
}

#[test]
fn round_trip_failures_split_by_status() {
    match round_trip_error(Some(503), "busy") {
        ServiceError::ServerError { code, message } => {
            assert_eq!(code, 503);
            assert_eq!(message, "busy");
        }
        other => panic!("wrong error: {:?}", other),
    }
    match round_trip_error(None, "connection reset") {
        ServiceError::TransportError(message) => assert_eq!(message, "connection reset"),
        other => panic!("wrong error: {:?}", other),
    }
}

#[test]
fn decimal_spellings_are_exact() {
    assert_eq!(u64_to_string(0), "0");
    assert_eq!(u64_to_string(7), "7");
    assert_eq!(u64_to_string(1234567890), "1234567890");
    assert_eq!(u64_to_string(u64::MAX), "18446744073709551615");
}
