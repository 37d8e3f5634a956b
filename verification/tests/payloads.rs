//! Deep payload fidelity: method bodies as token trees, impl blocks,
//! trait details and the remaining response shapes survive the wire.

use bronzite::codec_resp::{decode_response, encode_response};
use bronzite::pattern::path_matches_pattern;
use bronzite::protocol::{
    AssocConstInfo, AssocTypeInfo, Delimiter, EnumVariantInfo, FieldInfo, FunctionSignature,
    InherentImplDetails, LiteralKind, MatchArm, MethodDetails, ParamInfo, QueryData, QueryResult,
    ReceiverInfo, Response, SpanInfo, Token, TraitDetails, TraitImplDetails, TraitInfo,
    TraitMethodInfo, TypeDetails, TypeKind, Visibility,
};

fn sample_tokens() -> Vec<Token> {
    vec![
        Token::Let {
            pattern: "x".to_string(),
            ty: Some("u32".to_string()),
            init: Some(Box::new(Token::BinOp {
                lhs: Box::new(Token::Ident {
                    name: "a".to_string(),
                }),
                op: "+".to_string(),
                rhs: Box::new(Token::Literal {
                    kind: LiteralKind::Int,
                    value: "1".to_string(),
                }),
            })),
        },
        Token::If {
            cond: Box::new(Token::MethodCall {
                receiver: Box::new(Token::Ident {
                    name: "x".to_string(),
                }),
                method: "is_empty".to_string(),
                args: vec![],
            }),
            then_branch: vec![Token::Return { expr: None }],
            else_branch: Some(vec![Token::Block {
                stmts: vec![Token::Punct { ch: ';' }],
            }]),
        },
        Token::Match {
            expr: Box::new(Token::FieldAccess {
                base: Box::new(Token::Ident {
                    name: "self".to_string(),
                }),
                field: "kind".to_string(),
            }),
            arms: vec![MatchArm {
                pattern: "_".to_string(),
                guard: Some("x > 0".to_string()),
                body: vec![Token::Group {
                    delimiter: Delimiter::Invisible,
                    tokens: vec![Token::Keyword {
                        name: "return".to_string(),
                    }],
                }],
            }],
        },
        Token::Closure {
            params: vec!["v".to_string()],
            body: Box::new(Token::FnCall {
                path: vec!["core".to_string(), "drop".to_string()],
                args: vec![Token::UnaryOp {
                    op: "-".to_string(),
                    expr: Box::new(Token::Ident {
                        name: "v".to_string(),
                    }),
                }],
            }),
        },
        Token::Punct { ch: '"' },
        Token::Raw {
            source: "weird \"quoted\"\n\ttext \u{1}".to_string(),
        },
    ]
}

fn sample_method() -> MethodDetails {
    MethodDetails {
        name: "run".to_string(),
        path: "pkg::Foo::run".to_string(),
        signature: "fn run(&mut self, n: u32) -> bool".to_string(),
        parsed_signature: FunctionSignature {
            receiver: Some(ReceiverInfo {
                kind: "&mut self".to_string(),
                is_mut: true,
                is_ref: true,
                lifetime: Some("'a".to_string()),
            }),
            params: vec![ParamInfo {
                name: "n".to_string(),
                ty: "u32".to_string(),
                is_mut: false,
            }],
            return_ty: Some("bool".to_string()),
            generics: vec![],
            where_clause: None,
        },
        has_body: true,
        body_source: Some("{ n > 0 }".to_string()),
        body_tokens: Some(sample_tokens()),
        is_unsafe: false,
        is_const: false,
        is_async: false,
        docs: Some("runs\nthe thing".to_string()),
        attributes: vec!["#[inline]".to_string()],
        span: Some(SpanInfo {
            file: "src/foo.rs".to_string(),
            start_line: 10,
            start_col: 4,
            end_line: 20,
            end_col: 5,
        }),
    }
}

fn sample_trait_impl() -> TraitImplDetails {
    TraitImplDetails {
        self_ty: "pkg::Foo<T>".to_string(),
        trait_path: "pkg::MyTrait".to_string(),
        generics: vec![],
        where_clause: Some("T: Clone".to_string()),
        is_negative: false,
        is_unsafe: true,
        methods: vec![sample_method()],
        assoc_types: vec![AssocTypeInfo {
            name: "Output".to_string(),
            ty: Some("String".to_string()),
            bounds: vec![],
            default: None,
            docs: None,
            span: None,
        }],
        assoc_consts: vec![AssocConstInfo {
            name: "LIMIT".to_string(),
            ty: "usize".to_string(),
            value: Some("8".to_string()),
            docs: None,
            span: None,
        }],
        source: None,
        span: None,
    }
}

#[test]
fn response_round_trip_trait_impls_with_tokens() {
    let response = Response {
        id: 21,
        result: QueryResult::Success {
            data: QueryData::TraitImpls {
                impls: vec![sample_trait_impl()],
            },
        },
    };
    let line = encode_response(&response);
    assert!(!line.contains('\n'));
    assert_eq!(decode_response(&line).unwrap(), response);
}

#[test]
fn response_round_trip_inherent_impls_and_impl_check() {
    let inherent = InherentImplDetails {
        self_ty: "pkg::Foo".to_string(),
        generics: vec![],
        where_clause: None,
        is_unsafe: false,
        methods: vec![sample_method()],
        assoc_consts: vec![],
        assoc_types: vec![],
        source: Some("impl Foo {}".to_string()),
        span: None,
    };
    let response = Response {
        id: 22,
        result: QueryResult::Success {
            data: QueryData::InherentImpls {
                impls: vec![inherent],
            },
        },
    };
    let line = encode_response(&response);
    assert_eq!(decode_response(&line).unwrap(), response);

    let check = Response {
        id: 23,
        result: QueryResult::Success {
            data: QueryData::ImplCheck {
                implements: true,
                impl_info: Some(sample_trait_impl()),
            },
        },
    };
    let line = encode_response(&check);
    assert_eq!(decode_response(&line).unwrap(), check);
}

#[test]
fn response_round_trip_type_and_trait_details() {
    let td = TypeDetails {
        name: "Foo".to_string(),
        path: "pkg::Foo".to_string(),
        kind: TypeKind::Enum,
        visibility: Visibility::Crate,
        generics: vec![],
        where_clause: None,
        docs: Some("docs".to_string()),
        attributes: vec![],
        fields: None,
        variants: Some(vec![EnumVariantInfo {
            name: "A".to_string(),
            index: 0,
            fields: vec![FieldInfo {
                name: None,
                index: 0,
                ty: "u8".to_string(),
                resolved_ty: None,
                visibility: Visibility::Private,
                docs: None,
                attributes: vec![],
                offset: Some(0),
                size: Some(1),
                span: None,
            }],
            discriminant: Some("3".to_string()),
            docs: None,
            attributes: vec![],
            span: None,
        }]),
        trait_impls: vec!["Debug".to_string()],
        inherent_methods: vec![],
        layout: None,
        source: None,
        span: None,
    };
    let response = Response {
        id: 24,
        result: QueryResult::Success {
            data: QueryData::TypeInfo(td),
        },
    };
    let line = encode_response(&response);
    assert_eq!(decode_response(&line).unwrap(), response);

    let trd = TraitDetails {
        name: "MyTrait".to_string(),
        path: "pkg::MyTrait".to_string(),
        visibility: Visibility::Public,
        generics: vec![],
        where_clause: None,
        is_auto: false,
        is_unsafe: false,
        supertraits: vec!["Sized".to_string()],
        methods: vec![TraitMethodInfo {
            name: "go".to_string(),
            signature: "fn go(&self)".to_string(),
            parsed_signature: FunctionSignature {
                receiver: None,
                params: vec![],
                return_ty: None,
                generics: vec![],
                where_clause: None,
            },
            has_default: true,
            default_body: Some("{}".to_string()),
            is_unsafe: false,
            docs: None,
            attributes: vec![],
            span: None,
        }],
        assoc_types: vec![],
        assoc_consts: vec![],
        docs: None,
        attributes: vec![],
        source: None,
        implementors: vec!["pkg::Foo".to_string()],
        span: None,
    };
    let response = Response {
        id: 25,
        result: QueryResult::Success {
            data: QueryData::TraitDetails(trd),
        },
    };
    let line = encode_response(&response);
    assert_eq!(decode_response(&line).unwrap(), response);

    let traits = Response {
        id: 26,
        result: QueryResult::Success {
            data: QueryData::Traits {
                traits: vec![TraitInfo {
                    name: "MyTrait".to_string(),
                    path: "pkg::MyTrait".to_string(),
                    generics: vec![],
                    required_methods: 0,
                    provided_methods: 1,
                    supertraits: vec![],
                }],
            },
        },
    };
    let line = encode_response(&traits);
    assert_eq!(decode_response(&line).unwrap(), traits);
}

#[test]
fn pattern_operands_are_trimmed() {
    assert!(path_matches_pattern(" foo::Bar ", "foo::Bar"));
    assert!(path_matches_pattern("foo::Bar", "\tfoo::*\n"));
}

#[test]
fn ambiguous_patterns_match_nothing() {
    assert!(!path_matches_pattern("axbxc", "a*b*c"));
    assert!(!path_matches_pattern("a*b", "a*b*"));
}

#[test]
fn lone_wildcard_matches_everything() {
    assert!(path_matches_pattern("anything::at::all", "*"));
    assert!(path_matches_pattern("", "*"));
}
