//! The lookup rules against a snapshot: suffix matching, the per-variant
//! answers, and the typed "not found" errors.

use bronzite::protocol::{
    CrateTypeInfo, Query, QueryData, QueryResult, TraitImplDetails, TypeDetails, TypeKind,
    Visibility,
};
use bronzite::resolver::{check_impl_from_cache, execute_on_snapshot, find_type_idx};

fn mk_type(path: &str) -> TypeDetails {
    TypeDetails {
        name: path.rsplit("::").next().unwrap().to_string(),
        path: path.to_string(),
        kind: TypeKind::Struct,
        visibility: Visibility::Public,
        generics: Vec::new(),
        where_clause: None,
        docs: None,
        attributes: Vec::new(),
        fields: Some(Vec::new()),
        variants: None,
        trait_impls: Vec::new(),
        inherent_methods: Vec::new(),
        layout: None,
        source: None,
        span: None,
    }
}

fn mk_impl(self_ty: &str, trait_path: &str) -> TraitImplDetails {
    TraitImplDetails {
        self_ty: self_ty.to_string(),
        trait_path: trait_path.to_string(),
        generics: Vec::new(),
        where_clause: None,
        is_negative: false,
        is_unsafe: false,
        methods: Vec::new(),
        assoc_types: Vec::new(),
        assoc_consts: Vec::new(),
        source: None,
        span: None,
    }
}

fn snapshot() -> CrateTypeInfo {
    let mut info = CrateTypeInfo::default();
    info.crate_name = "pkg".to_string();
    info.types = vec![
        ("pkg::mod_a::Foo".to_string(), mk_type("pkg::mod_a::Foo")),
        ("pkg::Bar".to_string(), mk_type("pkg::Bar")),
    ];
    info.trait_impls = vec![(
        "pkg::mod_a::Foo".to_string(),
        vec![mk_impl("pkg::mod_a::Foo", "core::fmt::Debug")],
    )];
    info
}

#[test]
fn suffix_match_accepts_bare_and_partial_names() {
    let info = snapshot();
    // bare name resolves through the suffix rule
    assert_eq!(find_type_idx(&info.types, &"Foo".to_string()), Some(0));
    // a partially qualified tail resolves too
    assert_eq!(
        find_type_idx(&info.types, &"mod_a::Foo".to_string()),
        Some(0)
    );
    // an exact key resolves first
    assert_eq!(
        find_type_idx(&info.types, &"pkg::mod_a::Foo".to_string()),
        Some(0)
    );
}

#[test]
fn suffix_match_rejects_non_boundary_fragments() {
    let info = snapshot();
    // a name that is nobody's trailing segment fails
    assert_eq!(find_type_idx(&info.types, &"NotFoo".to_string()), None);
    // a raw substring that crosses no segment boundary fails
    assert_eq!(find_type_idx(&info.types, &"oo".to_string()), None);
}

#[test]
fn get_type_reports_typed_absence() {
    let info = snapshot();
    let r = execute_on_snapshot(
        &info,
        &Query::GetType {
            path: "Missing".to_string(),
        },
    );
    match r {
        QueryResult::Error { message } => {
            assert_eq!(message, "Type 'Missing' not found");
        }
        _ => panic!("an unknown type must be a typed error"),
    }
}

#[test]
fn get_layout_uses_the_two_tier_lookup() {
    let mut info = snapshot();
    info.layouts = vec![(
        "pkg::mod_a::Foo".to_string(),
        bronzite::protocol::LayoutInfo {
            size: 4,
            align: 4,
            field_offsets: None,
            variants: None,
            is_sized: true,
            is_copy: true,
            is_send: true,
            is_sync: true,
        },
    )];
    // a bare name reaches the suffix-keyed layout entry
    let r = execute_on_snapshot(
        &info,
        &Query::GetLayout {
            type_path: "Foo".to_string(),
        },
    );
    match r {
        QueryResult::Success {
            data: QueryData::Layout(l),
        } => assert_eq!(l.size, 4),
        _ => panic!("the suffix rule applies to layout keys too"),
    }
    // an unknown subject is still a typed error naming it
    let r = execute_on_snapshot(
        &info,
        &Query::GetLayout {
            type_path: "Missing".to_string(),
        },
    );
    match r {
        QueryResult::Error { message } => {
            assert_eq!(message, "Layout for 'Missing' not found");
        }
        _ => panic!("an unknown layout subject must be a typed error"),
    }
}

#[test]
fn check_impl_finds_suffix_keyed_entries() {
    let info = snapshot();
    let (implements, details) =
        check_impl_from_cache(&info, &"Foo".to_string(), &"Debug".to_string());
    assert!(implements);
    assert_eq!(details.unwrap().trait_path, "core::fmt::Debug");

    let (implements, details) =
        check_impl_from_cache(&info, &"Bar".to_string(), &"Debug".to_string());
    assert!(!implements);
    assert!(details.is_none());
}

#[test]
fn check_impl_accepts_generic_self_type_keys() {
    let mut info = snapshot();
    info.trait_impls = vec![(
        "pkg::Foo<T>".to_string(),
        vec![mk_impl("pkg::Foo<T>", "pkg::MyTrait")],
    )];
    // the key's text before the generic delimiter serves the plain name
    let (implements, details) =
        check_impl_from_cache(&info, &"pkg::Foo".to_string(), &"MyTrait".to_string());
    assert!(implements);
    assert_eq!(details.unwrap().self_ty, "pkg::Foo<T>");
}

#[test]
fn find_types_filters_by_pattern() {
    let info = snapshot();
    let r = execute_on_snapshot(
        &info,
        &Query::FindTypes {
            pattern: "pkg::*".to_string(),
        },
    );
    match r {
        QueryResult::Success {
            data: QueryData::Types { types },
        } => {
            assert_eq!(types.len(), 1);
            assert_eq!(types[0].path, "pkg::Bar");
        }
        _ => panic!("a pattern search always succeeds"),
    }
}

#[test]
fn get_implementors_collects_without_deduplication() {
    let mut info = snapshot();
    info.trait_impls = vec![(
        "pkg::mod_a::Foo".to_string(),
        vec![
            mk_impl("pkg::mod_a::Foo", "pkg::MyTrait"),
            mk_impl("pkg::mod_a::Foo", "pkg::MyTrait"),
        ],
    )];
    let r = execute_on_snapshot(
        &info,
        &Query::GetImplementors {
            trait_path: "MyTrait".to_string(),
        },
    );
    match r {
        QueryResult::Success {
            data: QueryData::Implementors { types },
        } => {
            assert_eq!(types.len(), 2);
            assert_eq!(types[0].path, "pkg::mod_a::Foo");
        }
        _ => panic!("an implementors query always succeeds"),
    }
}
