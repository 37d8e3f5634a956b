//! Structural equality, stated over views.
//!
//! Two values are deep-equal when every field agrees once strings are
//! compared by their character sequences. The `Clone` impls of the protocol
//! types promise exactly this relation, so contracts can follow a value
//! through a copy.

use vstd::prelude::*;
use crate::protocol::{
    AssocConstInfo, AssocTypeInfo, EnumVariantInfo, FieldInfo, FieldLayoutInfo, FunctionSignature,
    GenericParam, GenericParamKind, InherentImplDetails, ItemInfo, ItemKind, LayoutInfo, MatchArm, MethodDetails,
    MethodSummary, ModuleInfo, ParamInfo, Query, QueryData, QueryResult, ReceiverInfo,
    ReexportInfo, Request, Response, SpanInfo, Token, TraitDetails, TraitImplDetails, TraitInfo,
    TraitMethodInfo, TypeAliasInfo, TypeDetails, TypeSummary, VariantLayoutInfo,
};

verus! {

/// The two sequences are related elementwise by `r`.
pub open spec fn seq_all2<A>(x: Seq<A>, y: Seq<A>, r: spec_fn(A, A) -> bool) -> bool {
    x.len() == y.len() && forall|i: int| 0 <= i < x.len() ==> #[trigger] r(x[i], y[i])
}

/// The two sequences are related elementwise by `r` (differing types).
pub open spec fn seq_rel<A, B>(x: Seq<A>, y: Seq<B>, r: spec_fn(A, B) -> bool) -> bool {
    x.len() == y.len() && forall|i: int| 0 <= i < x.len() ==> #[trigger] r(x[i], y[i])
}

/// Elementwise relations extend over a push.
pub proof fn lemma_seq_rel_push<A, B>(x: Seq<A>, y: Seq<B>, a: A, b: B, r: spec_fn(A, B) -> bool)
    requires
        seq_rel(x, y, r),
        r(a, b),
    ensures
        seq_rel(x.push(a), y.push(b), r),
{
    let xp = x.push(a);
    let yp = y.push(b);
    assert forall|i: int| 0 <= i < xp.len() implies #[trigger] r(xp[i], yp[i]) by {
        if i < x.len() {
            assert(xp[i] == x[i]);
            assert(yp[i] == y[i]);
            assert(r(x[i], y[i]));
        } else {
            assert(xp[i] == a);
            assert(yp[i] == b);
        }
    }
}

/// Elementwise equality relations compose over concatenation.
pub proof fn lemma_seq_all2_concat<A>(
    x1: Seq<A>,
    y1: Seq<A>,
    x2: Seq<A>,
    y2: Seq<A>,
    r: spec_fn(A, A) -> bool,
)
    requires
        seq_all2(x1, y1, r),
        seq_all2(x2, y2, r),
    ensures
        seq_all2(x1 + x2, y1 + y2, r),
{
    let x = x1 + x2;
    let y = y1 + y2;
    assert forall|i: int| 0 <= i < x.len() implies #[trigger] r(x[i], y[i]) by {
        if i < x1.len() {
            assert(x[i] == x1[i]);
            assert(y[i] == y1[i]);
            assert(r(x1[i], y1[i]));
        } else {
            assert(x[i] == x2[i - x1.len()]);
            assert(y[i] == y2[i - y1.len()]);
            assert(r(x2[i - x1.len()], y2[i - x1.len()]));
        }
    }
}

/// The two options are both absent, or hold values related by `r`.
pub open spec fn opt_all2<A>(x: Option<A>, y: Option<A>, r: spec_fn(A, A) -> bool) -> bool {
    match (x, y) {
        (Option::Some(a), Option::Some(b)) => r(a, b),
        (Option::None, Option::None) => true,
        _ => false,
    }
}

pub open spec fn ostr_eq(a: Option<String>, b: Option<String>) -> bool {
    opt_all2(a, b, |x: String, y: String| x@ == y@)
}

pub open spec fn strs_eq(a: Seq<String>, b: Seq<String>) -> bool {
    seq_all2(a, b, |x: String, y: String| x@ == y@)
}

pub open spec fn span_eq(a: SpanInfo, b: SpanInfo) -> bool {
    &&& a.file@ == b.file@
    &&& a.start_line == b.start_line
    &&& a.start_col == b.start_col
    &&& a.end_line == b.end_line
    &&& a.end_col == b.end_col
}

pub open spec fn ospan_eq(a: Option<SpanInfo>, b: Option<SpanInfo>) -> bool {
    opt_all2(a, b, |x: SpanInfo, y: SpanInfo| span_eq(x, y))
}

pub open spec fn vis_eq(a: crate::protocol::Visibility, b: crate::protocol::Visibility) -> bool {
    match (a, b) {
        (crate::protocol::Visibility::Public, crate::protocol::Visibility::Public) => true,
        (crate::protocol::Visibility::Crate, crate::protocol::Visibility::Crate) => true,
        (
            crate::protocol::Visibility::Restricted { path: p1 },
            crate::protocol::Visibility::Restricted { path: p2 },
        ) => p1@ == p2@,
        (crate::protocol::Visibility::Private, crate::protocol::Visibility::Private) => true,
        _ => false,
    }
}

pub open spec fn item_kind_eq(a: ItemKind, b: ItemKind) -> bool {
    match (a, b) {
        (ItemKind::Other(s1), ItemKind::Other(s2)) => s1@ == s2@,
        (ItemKind::Other(_), _) => false,
        (_, ItemKind::Other(_)) => false,
        _ => a == b,
    }
}

/// The item equality relation, as a value.
pub open spec fn p_item() -> spec_fn(ItemInfo, ItemInfo) -> bool {
    |x: ItemInfo, y: ItemInfo| item_info_eq(x, y)
}

/// Elementwise item equality.
pub open spec fn items_eq(a: Seq<ItemInfo>, b: Seq<ItemInfo>) -> bool {
    seq_all2(a, b, p_item())
}

pub open spec fn item_info_eq(a: ItemInfo, b: ItemInfo) -> bool {
    &&& a.name@ == b.name@
    &&& a.path@ == b.path@
    &&& item_kind_eq(a.kind, b.kind)
    &&& vis_eq(a.visibility, b.visibility)
    &&& ospan_eq(a.span, b.span)
}

pub open spec fn gpk_eq(a: GenericParamKind, b: GenericParamKind) -> bool {
    match (a, b) {
        (GenericParamKind::Lifetime, GenericParamKind::Lifetime) => true,
        (GenericParamKind::Type, GenericParamKind::Type) => true,
        (GenericParamKind::Const { ty: t1 }, GenericParamKind::Const { ty: t2 }) => t1@ == t2@,
        _ => false,
    }
}

pub open spec fn gp_eq(a: GenericParam, b: GenericParam) -> bool {
    &&& a.name@ == b.name@
    &&& gpk_eq(a.kind, b.kind)
    &&& strs_eq(a.bounds@, b.bounds@)
    &&& ostr_eq(a.default, b.default)
}

pub open spec fn gps_eq(a: Seq<GenericParam>, b: Seq<GenericParam>) -> bool {
    seq_all2(a, b, |x: GenericParam, y: GenericParam| gp_eq(x, y))
}

pub open spec fn field_eq(a: FieldInfo, b: FieldInfo) -> bool {
    &&& ostr_eq(a.name, b.name)
    &&& a.index == b.index
    &&& a.ty@ == b.ty@
    &&& ostr_eq(a.resolved_ty, b.resolved_ty)
    &&& vis_eq(a.visibility, b.visibility)
    &&& ostr_eq(a.docs, b.docs)
    &&& strs_eq(a.attributes@, b.attributes@)
    &&& a.offset == b.offset
    &&& a.size == b.size
    &&& ospan_eq(a.span, b.span)
}

pub open spec fn fields_eq(a: Seq<FieldInfo>, b: Seq<FieldInfo>) -> bool {
    seq_all2(a, b, |x: FieldInfo, y: FieldInfo| field_eq(x, y))
}

pub open spec fn variant_eq(a: EnumVariantInfo, b: EnumVariantInfo) -> bool {
    &&& a.name@ == b.name@
    &&& a.index == b.index
    &&& fields_eq(a.fields@, b.fields@)
    &&& ostr_eq(a.discriminant, b.discriminant)
    &&& ostr_eq(a.docs, b.docs)
    &&& strs_eq(a.attributes@, b.attributes@)
    &&& ospan_eq(a.span, b.span)
}

pub open spec fn fli_eq(a: FieldLayoutInfo, b: FieldLayoutInfo) -> bool {
    &&& ostr_eq(a.name, b.name)
    &&& a.index == b.index
    &&& a.offset == b.offset
    &&& a.size == b.size
}

pub open spec fn vli_eq(a: VariantLayoutInfo, b: VariantLayoutInfo) -> bool {
    &&& a.name@ == b.name@
    &&& a.discriminant == b.discriminant
    &&& seq_all2(a.fields@, b.fields@, |x: FieldLayoutInfo, y: FieldLayoutInfo| fli_eq(x, y))
}

pub open spec fn layout_eq(a: LayoutInfo, b: LayoutInfo) -> bool {
    &&& a.size == b.size
    &&& a.align == b.align
    &&& opt_all2(
        a.field_offsets,
        b.field_offsets,
        |x: Vec<FieldLayoutInfo>, y: Vec<FieldLayoutInfo>|
            seq_all2(x@, y@, |p: FieldLayoutInfo, q: FieldLayoutInfo| fli_eq(p, q)),
    )
    &&& opt_all2(
        a.variants,
        b.variants,
        |x: Vec<VariantLayoutInfo>, y: Vec<VariantLayoutInfo>|
            seq_all2(x@, y@, |p: VariantLayoutInfo, q: VariantLayoutInfo| vli_eq(p, q)),
    )
    &&& a.is_sized == b.is_sized
    &&& a.is_copy == b.is_copy
    &&& a.is_send == b.is_send
    &&& a.is_sync == b.is_sync
}

pub open spec fn msum_eq(a: MethodSummary, b: MethodSummary) -> bool {
    &&& a.name@ == b.name@
    &&& a.path@ == b.path@
    &&& a.signature@ == b.signature@
    &&& a.is_unsafe == b.is_unsafe
    &&& a.is_const == b.is_const
    &&& a.is_async == b.is_async
}

pub open spec fn recv_eq(a: ReceiverInfo, b: ReceiverInfo) -> bool {
    &&& a.kind@ == b.kind@
    &&& a.is_mut == b.is_mut
    &&& a.is_ref == b.is_ref
    &&& ostr_eq(a.lifetime, b.lifetime)
}

pub open spec fn param_eq(a: ParamInfo, b: ParamInfo) -> bool {
    &&& a.name@ == b.name@
    &&& a.ty@ == b.ty@
    &&& a.is_mut == b.is_mut
}

pub open spec fn sig_eq(a: FunctionSignature, b: FunctionSignature) -> bool {
    &&& opt_all2(a.receiver, b.receiver, |x: ReceiverInfo, y: ReceiverInfo| recv_eq(x, y))
    &&& seq_all2(a.params@, b.params@, |x: ParamInfo, y: ParamInfo| param_eq(x, y))
    &&& ostr_eq(a.return_ty, b.return_ty)
    &&& gps_eq(a.generics@, b.generics@)
    &&& ostr_eq(a.where_clause, b.where_clause)
}

pub open spec fn assoc_ty_eq(a: AssocTypeInfo, b: AssocTypeInfo) -> bool {
    &&& a.name@ == b.name@
    &&& ostr_eq(a.ty, b.ty)
    &&& strs_eq(a.bounds@, b.bounds@)
    &&& ostr_eq(a.default, b.default)
    &&& ostr_eq(a.docs, b.docs)
    &&& ospan_eq(a.span, b.span)
}

pub open spec fn assoc_const_eq(a: AssocConstInfo, b: AssocConstInfo) -> bool {
    &&& a.name@ == b.name@
    &&& a.ty@ == b.ty@
    &&& ostr_eq(a.value, b.value)
    &&& ostr_eq(a.docs, b.docs)
    &&& ospan_eq(a.span, b.span)
}

pub open spec fn tok_eq(a: Token, b: Token) -> bool
    decreases a,
{
    match (a, b) {
        (Token::Ident { name: n1 }, Token::Ident { name: n2 }) => n1@ == n2@,
        (
            Token::Literal { kind: k1, value: v1 },
            Token::Literal { kind: k2, value: v2 },
        ) => k1 == k2 && v1@ == v2@,
        (Token::Punct { ch: c1 }, Token::Punct { ch: c2 }) => c1 == c2,
        (Token::Keyword { name: n1 }, Token::Keyword { name: n2 }) => n1@ == n2@,
        (
            Token::Group { delimiter: d1, tokens: t1 },
            Token::Group { delimiter: d2, tokens: t2 },
        ) => d1 == d2 && toks_eq(t1@, t2@),
        (Token::Path { segments: s1 }, Token::Path { segments: s2 }) => strs_eq(s1@, s2@),
        (
            Token::MethodCall { receiver: r1, method: m1, args: a1 },
            Token::MethodCall { receiver: r2, method: m2, args: a2 },
        ) => tok_eq(*r1, *r2) && m1@ == m2@ && toks_eq(a1@, a2@),
        (
            Token::FnCall { path: p1, args: a1 },
            Token::FnCall { path: p2, args: a2 },
        ) => strs_eq(p1@, p2@) && toks_eq(a1@, a2@),
        (
            Token::FieldAccess { base: b1, field: f1 },
            Token::FieldAccess { base: b2, field: f2 },
        ) => tok_eq(*b1, *b2) && f1@ == f2@,
        (
            Token::BinOp { lhs: l1, op: o1, rhs: r1 },
            Token::BinOp { lhs: l2, op: o2, rhs: r2 },
        ) => tok_eq(*l1, *l2) && o1@ == o2@ && tok_eq(*r1, *r2),
        (
            Token::UnaryOp { op: o1, expr: e1 },
            Token::UnaryOp { op: o2, expr: e2 },
        ) => o1@ == o2@ && tok_eq(*e1, *e2),
        (
            Token::If { cond: c1, then_branch: t1, else_branch: e1 },
            Token::If { cond: c2, then_branch: t2, else_branch: e2 },
        ) => tok_eq(*c1, *c2) && toks_eq(t1@, t2@) && match (e1, e2) {
            (Option::Some(x1), Option::Some(x2)) => toks_eq(x1@, x2@),
            (Option::None, Option::None) => true,
            _ => false,
        },
        (
            Token::Match { expr: e1, arms: a1 },
            Token::Match { expr: e2, arms: a2 },
        ) => tok_eq(*e1, *e2) && arms_eq(a1@, a2@),
        (
            Token::Let { pattern: p1, ty: t1, init: i1 },
            Token::Let { pattern: p2, ty: t2, init: i2 },
        ) => p1@ == p2@ && ostr_eq(t1, t2) && match (i1, i2) {
            (Option::Some(x1), Option::Some(x2)) => tok_eq(*x1, *x2),
            (Option::None, Option::None) => true,
            _ => false,
        },
        (Token::Return { expr: e1 }, Token::Return { expr: e2 }) => match (e1, e2) {
            (Option::Some(x1), Option::Some(x2)) => tok_eq(*x1, *x2),
            (Option::None, Option::None) => true,
            _ => false,
        },
        (Token::Block { stmts: s1 }, Token::Block { stmts: s2 }) => toks_eq(s1@, s2@),
        (
            Token::Closure { params: p1, body: b1 },
            Token::Closure { params: p2, body: b2 },
        ) => strs_eq(p1@, p2@) && tok_eq(*b1, *b2),
        (Token::Raw { source: s1 }, Token::Raw { source: s2 }) => s1@ == s2@,
        _ => false,
    }
}

pub open spec fn toks_eq(a: Seq<Token>, b: Seq<Token>) -> bool
    decreases a,
{
    a.len() == b.len() && (a.len() == 0 || (tok_eq(a[0], b[0]) && toks_eq(a.skip(1), b.skip(1))))
}

pub open spec fn arm_eq(a: MatchArm, b: MatchArm) -> bool
    decreases a,
{
    a.pattern@ == b.pattern@ && ostr_eq(a.guard, b.guard) && toks_eq(a.body@, b.body@)
}

pub open spec fn arms_eq(a: Seq<MatchArm>, b: Seq<MatchArm>) -> bool
    decreases a,
{
    a.len() == b.len() && (a.len() == 0 || (arm_eq(a[0], b[0]) && arms_eq(a.skip(1), b.skip(1))))
}

pub open spec fn otoks_eq(a: Option<Vec<Token>>, b: Option<Vec<Token>>) -> bool {
    match (a, b) {
        (Option::Some(x), Option::Some(y)) => toks_eq(x@, y@),
        (Option::None, Option::None) => true,
        _ => false,
    }
}

pub open spec fn method_eq(a: MethodDetails, b: MethodDetails) -> bool {
    &&& a.name@ == b.name@
    &&& a.path@ == b.path@
    &&& a.signature@ == b.signature@
    &&& sig_eq(a.parsed_signature, b.parsed_signature)
    &&& a.has_body == b.has_body
    &&& ostr_eq(a.body_source, b.body_source)
    &&& otoks_eq(a.body_tokens, b.body_tokens)
    &&& a.is_unsafe == b.is_unsafe
    &&& a.is_const == b.is_const
    &&& a.is_async == b.is_async
    &&& ostr_eq(a.docs, b.docs)
    &&& strs_eq(a.attributes@, b.attributes@)
    &&& ospan_eq(a.span, b.span)
}

pub open spec fn methods_eq(a: Seq<MethodDetails>, b: Seq<MethodDetails>) -> bool {
    seq_all2(a, b, |x: MethodDetails, y: MethodDetails| method_eq(x, y))
}

pub open spec fn trait_impl_eq(a: TraitImplDetails, b: TraitImplDetails) -> bool {
    &&& a.self_ty@ == b.self_ty@
    &&& a.trait_path@ == b.trait_path@
    &&& gps_eq(a.generics@, b.generics@)
    &&& ostr_eq(a.where_clause, b.where_clause)
    &&& a.is_negative == b.is_negative
    &&& a.is_unsafe == b.is_unsafe
    &&& methods_eq(a.methods@, b.methods@)
    &&& seq_all2(a.assoc_types@, b.assoc_types@, |x: AssocTypeInfo, y: AssocTypeInfo| assoc_ty_eq(x, y))
    &&& seq_all2(
        a.assoc_consts@,
        b.assoc_consts@,
        |x: AssocConstInfo, y: AssocConstInfo| assoc_const_eq(x, y),
    )
    &&& ostr_eq(a.source, b.source)
    &&& ospan_eq(a.span, b.span)
}

/// The trait-impl equality relation, as a value.
pub open spec fn p_trait_impl() -> spec_fn(TraitImplDetails, TraitImplDetails) -> bool {
    |x: TraitImplDetails, y: TraitImplDetails| trait_impl_eq(x, y)
}

pub open spec fn trait_impls_eq(a: Seq<TraitImplDetails>, b: Seq<TraitImplDetails>) -> bool {
    seq_all2(a, b, p_trait_impl())
}

pub open spec fn inherent_impl_eq(a: InherentImplDetails, b: InherentImplDetails) -> bool {
    &&& a.self_ty@ == b.self_ty@
    &&& gps_eq(a.generics@, b.generics@)
    &&& ostr_eq(a.where_clause, b.where_clause)
    &&& a.is_unsafe == b.is_unsafe
    &&& methods_eq(a.methods@, b.methods@)
    &&& seq_all2(
        a.assoc_consts@,
        b.assoc_consts@,
        |x: AssocConstInfo, y: AssocConstInfo| assoc_const_eq(x, y),
    )
    &&& seq_all2(a.assoc_types@, b.assoc_types@, |x: AssocTypeInfo, y: AssocTypeInfo| assoc_ty_eq(x, y))
    &&& ostr_eq(a.source, b.source)
    &&& ospan_eq(a.span, b.span)
}

/// The inherent-impl equality relation, as a value.
pub open spec fn p_inherent_impl() -> spec_fn(InherentImplDetails, InherentImplDetails) -> bool {
    |x: InherentImplDetails, y: InherentImplDetails| inherent_impl_eq(x, y)
}

pub open spec fn inherent_impls_eq(a: Seq<InherentImplDetails>, b: Seq<InherentImplDetails>) -> bool {
    seq_all2(a, b, p_inherent_impl())
}

pub open spec fn trait_method_eq(a: TraitMethodInfo, b: TraitMethodInfo) -> bool {
    &&& a.name@ == b.name@
    &&& a.signature@ == b.signature@
    &&& sig_eq(a.parsed_signature, b.parsed_signature)
    &&& a.has_default == b.has_default
    &&& ostr_eq(a.default_body, b.default_body)
    &&& a.is_unsafe == b.is_unsafe
    &&& ostr_eq(a.docs, b.docs)
    &&& strs_eq(a.attributes@, b.attributes@)
    &&& ospan_eq(a.span, b.span)
}

pub open spec fn trait_details_eq(a: TraitDetails, b: TraitDetails) -> bool {
    &&& a.name@ == b.name@
    &&& a.path@ == b.path@
    &&& vis_eq(a.visibility, b.visibility)
    &&& gps_eq(a.generics@, b.generics@)
    &&& ostr_eq(a.where_clause, b.where_clause)
    &&& a.is_auto == b.is_auto
    &&& a.is_unsafe == b.is_unsafe
    &&& strs_eq(a.supertraits@, b.supertraits@)
    &&& seq_all2(a.methods@, b.methods@, |x: TraitMethodInfo, y: TraitMethodInfo| trait_method_eq(x, y))
    &&& seq_all2(a.assoc_types@, b.assoc_types@, |x: AssocTypeInfo, y: AssocTypeInfo| assoc_ty_eq(x, y))
    &&& seq_all2(
        a.assoc_consts@,
        b.assoc_consts@,
        |x: AssocConstInfo, y: AssocConstInfo| assoc_const_eq(x, y),
    )
    &&& ostr_eq(a.docs, b.docs)
    &&& strs_eq(a.attributes@, b.attributes@)
    &&& ostr_eq(a.source, b.source)
    &&& strs_eq(a.implementors@, b.implementors@)
    &&& ospan_eq(a.span, b.span)
}

pub open spec fn trait_info_eq(a: TraitInfo, b: TraitInfo) -> bool {
    &&& a.name@ == b.name@
    &&& a.path@ == b.path@
    &&& gps_eq(a.generics@, b.generics@)
    &&& a.required_methods == b.required_methods
    &&& a.provided_methods == b.provided_methods
    &&& strs_eq(a.supertraits@, b.supertraits@)
}

pub open spec fn type_summary_eq(a: TypeSummary, b: TypeSummary) -> bool {
    &&& a.name@ == b.name@
    &&& a.path@ == b.path@
    &&& a.kind == b.kind
    &&& gps_eq(a.generics@, b.generics@)
}

pub open spec fn type_details_eq(a: TypeDetails, b: TypeDetails) -> bool {
    &&& a.name@ == b.name@
    &&& a.path@ == b.path@
    &&& a.kind == b.kind
    &&& vis_eq(a.visibility, b.visibility)
    &&& gps_eq(a.generics@, b.generics@)
    &&& ostr_eq(a.where_clause, b.where_clause)
    &&& ostr_eq(a.docs, b.docs)
    &&& strs_eq(a.attributes@, b.attributes@)
    &&& opt_all2(
        a.fields,
        b.fields,
        |x: Vec<FieldInfo>, y: Vec<FieldInfo>| fields_eq(x@, y@),
    )
    &&& opt_all2(
        a.variants,
        b.variants,
        |x: Vec<EnumVariantInfo>, y: Vec<EnumVariantInfo>|
            seq_all2(x@, y@, |p: EnumVariantInfo, q: EnumVariantInfo| variant_eq(p, q)),
    )
    &&& strs_eq(a.trait_impls@, b.trait_impls@)
    &&& seq_all2(
        a.inherent_methods@,
        b.inherent_methods@,
        |x: MethodSummary, y: MethodSummary| msum_eq(x, y),
    )
    &&& opt_all2(a.layout, b.layout, |x: LayoutInfo, y: LayoutInfo| layout_eq(x, y))
    &&& ostr_eq(a.source, b.source)
    &&& ospan_eq(a.span, b.span)
}

pub open spec fn type_alias_eq(a: TypeAliasInfo, b: TypeAliasInfo) -> bool {
    &&& a.name@ == b.name@
    &&& a.path@ == b.path@
    &&& gps_eq(a.generics@, b.generics@)
    &&& a.ty@ == b.ty@
    &&& a.resolved_ty@ == b.resolved_ty@
    &&& vis_eq(a.visibility, b.visibility)
    &&& ostr_eq(a.docs, b.docs)
    &&& ospan_eq(a.span, b.span)
}

pub open spec fn reexport_eq(a: ReexportInfo, b: ReexportInfo) -> bool {
    &&& a.name@ == b.name@
    &&& a.original_path@ == b.original_path@
    &&& vis_eq(a.visibility, b.visibility)
}

pub open spec fn module_eq(a: ModuleInfo, b: ModuleInfo) -> bool {
    &&& a.name@ == b.name@
    &&& a.path@ == b.path@
    &&& vis_eq(a.visibility, b.visibility)
    &&& strs_eq(a.items@, b.items@)
    &&& seq_all2(a.reexports@, b.reexports@, |x: ReexportInfo, y: ReexportInfo| reexport_eq(x, y))
}

/// Structural equality of queries.
pub open spec fn query_eq(a: Query, b: Query) -> bool {
    match (a, b) {
        (Query::ListItems, Query::ListItems) => true,
        (Query::GetType { path: p1 }, Query::GetType { path: p2 }) => p1@ == p2@,
        (
            Query::GetTraitImpls { type_path: p1 },
            Query::GetTraitImpls { type_path: p2 },
        ) => p1@ == p2@,
        (
            Query::GetInherentImpls { type_path: p1 },
            Query::GetInherentImpls { type_path: p2 },
        ) => p1@ == p2@,
        (Query::GetFields { type_path: p1 }, Query::GetFields { type_path: p2 }) => p1@ == p2@,
        (Query::GetLayout { type_path: p1 }, Query::GetLayout { type_path: p2 }) => p1@ == p2@,
        (Query::GetTraits, Query::GetTraits) => true,
        (Query::GetTrait { path: p1 }, Query::GetTrait { path: p2 }) => p1@ == p2@,
        (Query::FindTypes { pattern: p1 }, Query::FindTypes { pattern: p2 }) => p1@ == p2@,
        (Query::ResolveAlias { path: p1 }, Query::ResolveAlias { path: p2 }) => p1@ == p2@,
        (
            Query::CheckImpl { type_path: t1, trait_path: r1 },
            Query::CheckImpl { type_path: t2, trait_path: r2 },
        ) => t1@ == t2@ && r1@ == r2@,
        (
            Query::GetImplementors { trait_path: p1 },
            Query::GetImplementors { trait_path: p2 },
        ) => p1@ == p2@,
        (Query::Ping, Query::Ping) => true,
        (Query::Shutdown, Query::Shutdown) => true,
        _ => false,
    }
}

/// Structural equality of requests.
pub open spec fn request_eq(a: Request, b: Request) -> bool {
    a.id == b.id && a.crate_name@ == b.crate_name@ && query_eq(a.query, b.query)
}

/// Structural equality of query payloads.
pub open spec fn query_data_eq(a: QueryData, b: QueryData) -> bool {
    match (a, b) {
        (QueryData::Items { items: i1 }, QueryData::Items { items: i2 }) => seq_all2(
            i1@,
            i2@,
            |x: ItemInfo, y: ItemInfo| item_info_eq(x, y),
        ),
        (QueryData::TypeInfo(t1), QueryData::TypeInfo(t2)) => type_details_eq(t1, t2),
        (
            QueryData::TraitImpls { impls: i1 },
            QueryData::TraitImpls { impls: i2 },
        ) => trait_impls_eq(i1@, i2@),
        (
            QueryData::InherentImpls { impls: i1 },
            QueryData::InherentImpls { impls: i2 },
        ) => inherent_impls_eq(i1@, i2@),
        (QueryData::Fields { fields: f1 }, QueryData::Fields { fields: f2 }) => fields_eq(f1@, f2@),
        (QueryData::Layout(l1), QueryData::Layout(l2)) => layout_eq(l1, l2),
        (QueryData::Traits { traits: t1 }, QueryData::Traits { traits: t2 }) => seq_all2(
            t1@,
            t2@,
            |x: TraitInfo, y: TraitInfo| trait_info_eq(x, y),
        ),
        (QueryData::TraitDetails(t1), QueryData::TraitDetails(t2)) => trait_details_eq(t1, t2),
        (QueryData::Types { types: t1 }, QueryData::Types { types: t2 }) => seq_all2(
            t1@,
            t2@,
            |x: TypeSummary, y: TypeSummary| type_summary_eq(x, y),
        ),
        (
            QueryData::ResolvedType { original: o1, resolved: r1, chain: c1 },
            QueryData::ResolvedType { original: o2, resolved: r2, chain: c2 },
        ) => o1@ == o2@ && r1@ == r2@ && strs_eq(c1@, c2@),
        (
            QueryData::ImplCheck { implements: b1, impl_info: i1 },
            QueryData::ImplCheck { implements: b2, impl_info: i2 },
        ) => b1 == b2 && opt_all2(
            i1,
            i2,
            |x: TraitImplDetails, y: TraitImplDetails| trait_impl_eq(x, y),
        ),
        (
            QueryData::Implementors { types: t1 },
            QueryData::Implementors { types: t2 },
        ) => seq_all2(t1@, t2@, |x: TypeSummary, y: TypeSummary| type_summary_eq(x, y)),
        (QueryData::Pong, QueryData::Pong) => true,
        (QueryData::ShuttingDown, QueryData::ShuttingDown) => true,
        _ => false,
    }
}

/// Structural equality of query results.
pub open spec fn query_result_eq(a: QueryResult, b: QueryResult) -> bool {
    match (a, b) {
        (QueryResult::Success { data: d1 }, QueryResult::Success { data: d2 }) => query_data_eq(
            d1,
            d2,
        ),
        (QueryResult::Error { message: m1 }, QueryResult::Error { message: m2 }) => m1@ == m2@,
        _ => false,
    }
}

/// Structural equality of responses.
pub open spec fn response_eq(a: Response, b: Response) -> bool {
    a.id == b.id && query_result_eq(a.result, b.result)
}

} // verus!
