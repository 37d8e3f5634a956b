//! The cache manager and the connection server's per-line step: lazy
//! population, hit idempotence, invalidation, extraction failure, protocol
//! errors, and the shutdown handshake.

use bronzite::cache::CacheManager;
use bronzite::codec_req::encode_request;
use bronzite::codec_resp::decode_response;
use bronzite::lifecycle::is_daemon_running;
use bronzite::protocol::{CrateTypeInfo, Query, QueryData, QueryResult, Request};
use bronzite::server::process_request_line;

fn snapshot_named(name: &str) -> CrateTypeInfo {
    let mut info = CrateTypeInfo::default();
    info.crate_name = name.to_string();
    info
}

#[test]
fn cache_populates_once_and_serves_from_memory() {
    let mut mgr = CacheManager::new();
    let unit = "my_crate".to_string();
    let query = Query::ListItems;

    // the first query for a never-seen unit needs the extractor
    assert!(mgr.needs_extraction(&unit, &query));
    let run = vec![snapshot_named("other"), snapshot_named("my_crate")];
    let r = mgr.execute_query(&unit, &query, Some(run));
    assert!(matches!(r, QueryResult::Success { .. }));

    // afterwards the same unit is served without any extraction
    assert!(!mgr.needs_extraction(&unit, &query));
    let r = mgr.execute_query(&unit, &query, None);
    assert!(matches!(r, QueryResult::Success { .. }));
}

#[test]
fn probes_never_need_extraction() {
    let mgr = CacheManager::new();
    let unit = "any".to_string();
    assert!(!mgr.needs_extraction(&unit, &Query::Ping));
    assert!(!mgr.needs_extraction(&unit, &Query::Shutdown));
}

#[test]
fn invalidation_forces_reextraction() {
    let mut mgr = CacheManager::new();
    let unit = "my_crate".to_string();
    let query = Query::ListItems;
    let run = vec![snapshot_named("my_crate")];
    let _ = mgr.execute_query(&unit, &query, Some(run));
    assert!(!mgr.needs_extraction(&unit, &query));

    mgr.invalidate(&unit);
    assert!(mgr.needs_extraction(&unit, &query));
    // invalidation is idempotent
    mgr.invalidate(&unit);
    assert!(mgr.needs_extraction(&unit, &query));
}

#[test]
fn failed_extraction_caches_nothing() {
    let mut mgr = CacheManager::new();
    let unit = "missing".to_string();
    let query = Query::ListItems;
    let run = vec![snapshot_named("someone_else")];
    let r = mgr.execute_query(&unit, &query, Some(run));
    match r {
        QueryResult::Error { message } => {
            assert_eq!(message, "Crate 'missing' not found in compilation output");
        }
        _ => panic!("a run without the unit is a typed error"),
    }
    // no negative caching: the next query would retry extraction
    assert!(mgr.needs_extraction(&unit, &query));
}

#[test]
fn empty_unit_name_takes_the_last_snapshot() {
    let mut mgr = CacheManager::new();
    let unit = String::new();
    let run = vec![snapshot_named("first"), snapshot_named("second")];
    let r = mgr.execute_query(&unit, &Query::ListItems, Some(run));
    assert!(matches!(r, QueryResult::Success { .. }));
}

#[test]
fn malformed_line_answers_with_id_zero() {
    let mut mgr = CacheManager::new();
    let (line, stop) = process_request_line(&mut mgr, "this is not a request", None);
    assert!(!stop);
    let resp = decode_response(&line).unwrap();
    assert_eq!(resp.id, 0);
    assert!(matches!(resp.result, QueryResult::Error { .. }));
}

#[test]
fn shutdown_scenario() {
    let mut mgr = CacheManager::new();
    let request = Request {
        id: 4,
        crate_name: String::new(),
        query: Query::Shutdown,
    };
    let line = encode_request(&request);
    let (out, stop) = process_request_line(&mut mgr, &line, None);

    // the shutdown query is answered with success, and the stop flag is
    // raised so the accept loop terminates
    assert!(stop);
    let resp = decode_response(&out).unwrap();
    assert_eq!(resp.id, 4);
    assert!(matches!(
        resp.result,
        QueryResult::Success {
            data: QueryData::ShuttingDown
        }
    ));

    // once the daemon is gone, a liveness probe gets no answer
    assert!(!is_daemon_running(&None));
}

#[test]
fn ping_answers_without_a_snapshot() {
    let mut mgr = CacheManager::new();
    let request = Request {
        id: 6,
        crate_name: String::new(),
        query: Query::Ping,
    };
    let line = encode_request(&request);
    let (out, stop) = process_request_line(&mut mgr, &line, None);
    assert!(!stop);
    let resp = decode_response(&out).unwrap();
    assert_eq!(resp.id, 6);
    assert!(matches!(
        resp.result,
        QueryResult::Success {
            data: QueryData::Pong
        }
    ));
}
