//! Wire codec behavior: the round trip over every query variant, framing,
//! payload fidelity, and interoperability of the emitted lines.

use bronzite::codec_req::{decode_request, encode_request};
use bronzite::codec_resp::{decode_response, encode_response};
use bronzite::protocol::{
    FieldLayoutInfo, GenericParam, GenericParamKind, ItemInfo, ItemKind, LayoutInfo, Query,
    QueryData, QueryResult, Request, Response, TypeKind, TypeSummary, VariantLayoutInfo,
    Visibility,
};

fn all_query_variants() -> Vec<Query> {
    vec![
        Query::ListItems,
        Query::GetType {
            path: "pkg::Foo".to_string(),
        },
        Query::GetTraitImpls {
            type_path: "pkg::Foo".to_string(),
        },
        Query::GetInherentImpls {
            type_path: "Foo".to_string(),
        },
        Query::GetFields {
            type_path: "a b\"c\\d\ne".to_string(),
        },
        Query::GetLayout {
            type_path: String::new(),
        },
        Query::GetTraits,
        Query::GetTrait {
            path: "MyTrait".to_string(),
        },
        Query::FindTypes {
            pattern: "pkg::*".to_string(),
        },
        Query::ResolveAlias {
            path: "Alias".to_string(),
        },
        Query::CheckImpl {
            type_path: "Foo".to_string(),
            trait_path: "Debug".to_string(),
        },
        Query::GetImplementors {
            trait_path: "MyTrait".to_string(),
        },
        Query::Ping,
        Query::Shutdown,
    ]
}

#[test]
fn request_round_trip_every_variant() {
    let mut id = 1u64;
    for query in all_query_variants() {
        let request = Request {
            id,
            crate_name: "my_crate".to_string(),
            query,
        };
        let line = encode_request(&request);
        let decoded = decode_request(&line).expect("canonical line must decode");
        assert_eq!(decoded, request);
        id += 7;
    }
}

#[test]
fn request_line_is_newline_free() {
    let request = Request {
        id: 3,
        crate_name: "line\nbreak".to_string(),
        query: Query::GetType {
            path: "tab\there".to_string(),
        },
    };
    let line = encode_request(&request);
    assert!(!line.contains('\n'));
    let decoded = decode_request(&line).unwrap();
    assert_eq!(decoded, request);
}

#[test]
fn request_line_reads_as_structured_text() {
    let request = Request {
        id: 9,
        crate_name: "my_crate".to_string(),
        query: Query::FindTypes {
            pattern: "a\"b\\c".to_string(),
        },
    };
    let line = encode_request(&request);
    let v: serde_json::Value = serde_json::from_str(&line).expect("line must be well-formed");
    assert_eq!(v["id"], 9);
    assert_eq!(v["crate_name"], "my_crate");
    assert_eq!(v["query"]["type"], "find_types");
    assert_eq!(v["query"]["pattern"], "a\"b\\c");
}

#[test]
fn malformed_request_is_rejected() {
    assert!(decode_request("").is_err());
    assert!(decode_request("{\"id\":oops").is_err());
    assert!(decode_request("{\"id\":1,\"crate_name\":\"x\",\"query\":{\"type\":\"pong\"}}").is_err());
}

fn sample_items() -> Vec<ItemInfo> {
    vec![
        ItemInfo {
            name: "Foo".to_string(),
            path: "pkg::Foo".to_string(),
            kind: ItemKind::Struct,
            visibility: Visibility::Public,
            span: None,
        },
        ItemInfo {
            name: "helper".to_string(),
            path: "pkg::helper".to_string(),
            kind: ItemKind::Other("weird".to_string()),
            visibility: Visibility::Restricted {
                path: "crate::inner".to_string(),
            },
            span: None,
        },
    ]
}

#[test]
fn response_round_trip_items() {
    let response = Response {
        id: 5,
        result: QueryResult::Success {
            data: QueryData::Items {
                items: sample_items(),
            },
        },
    };
    let line = encode_response(&response);
    assert!(!line.contains('\n'));
    let decoded = decode_response(&line).unwrap();
    assert_eq!(decoded, response);
}

#[test]
fn response_round_trip_layout() {
    let layout = LayoutInfo {
        size: 16,
        align: 8,
        field_offsets: Some(vec![FieldLayoutInfo {
            name: Some("a".to_string()),
            index: 0,
            offset: 0,
            size: 8,
        }]),
        variants: Some(vec![VariantLayoutInfo {
            name: "Neg".to_string(),
            discriminant: Some(-170141183460469231731687303715884105728),
            fields: vec![],
        }]),
        is_sized: true,
        is_copy: false,
        is_send: true,
        is_sync: true,
    };
    let response = Response {
        id: 11,
        result: QueryResult::Success {
            data: QueryData::Layout(layout),
        },
    };
    let line = encode_response(&response);
    let decoded = decode_response(&line).unwrap();
    assert_eq!(decoded, response);
}

#[test]
fn response_round_trip_types() {
    let summary = TypeSummary {
        name: "Foo".to_string(),
        path: "pkg::Foo".to_string(),
        kind: TypeKind::Struct,
        generics: vec![GenericParam {
            name: "T".to_string(),
            kind: GenericParamKind::Type,
            bounds: vec!["Clone".to_string()],
            default: None,
        }],
    };
    let response = Response {
        id: 2,
        result: QueryResult::Success {
            data: QueryData::Types {
                types: vec![summary],
            },
        },
    };
    let line = encode_response(&response);
    let decoded = decode_response(&line).unwrap();
    assert_eq!(decoded, response);
}

#[test]
fn response_round_trip_resolved_and_error() {
    let ok = Response {
        id: 8,
        result: QueryResult::Success {
            data: QueryData::ResolvedType {
                original: "pkg::Alias".to_string(),
                resolved: "Vec<u8>".to_string(),
                chain: vec!["Inner".to_string()],
            },
        },
    };
    let line = encode_response(&ok);
    assert_eq!(decode_response(&line).unwrap(), ok);

    let failure = Response {
        id: 9,
        result: QueryResult::Error {
            message: "Type 'Missing' not found".to_string(),
        },
    };
    let line = encode_response(&failure);
    assert!(!line.contains('\n'));
    assert_eq!(decode_response(&line).unwrap(), failure);
}

#[test]
fn response_round_trip_pong_and_shutdown() {
    for (id, data) in [(0u64, QueryData::Pong), (77, QueryData::ShuttingDown)] {
        let response = Response {
            id,
            result: QueryResult::Success { data },
        };
        let line = encode_response(&response);
        assert_eq!(decode_response(&line).unwrap(), response);
    }
}
