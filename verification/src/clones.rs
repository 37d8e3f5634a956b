//! `Clone` impls for the protocol types, each promising deep structural
//! equality with its source (see the relations stated beside them).

use vstd::prelude::*;
use crate::protocol::{
    AssocConstInfo, AssocTypeInfo, EnumVariantInfo, FieldInfo, FieldLayoutInfo, FunctionSignature,
    GenericParam, GenericParamKind, InherentImplDetails, ItemInfo, ItemKind, LayoutInfo, MatchArm, MethodDetails,
    MethodSummary, ModuleInfo, ParamInfo, ReceiverInfo, ReexportInfo, SpanInfo, Token,
    TraitDetails, TraitImplDetails, TraitInfo, TraitMethodInfo, TypeAliasInfo, TypeDetails,
    TypeSummary, VariantLayoutInfo, Visibility,
};
use crate::deep_eq::{
    arm_eq, arms_eq, assoc_const_eq, assoc_ty_eq, field_eq, fields_eq, fli_eq, gp_eq, gpk_eq,
    gps_eq, inherent_impl_eq, inherent_impls_eq, item_info_eq, item_kind_eq, layout_eq, method_eq,
    items_eq, methods_eq, module_eq, msum_eq, ostr_eq, ospan_eq, param_eq, recv_eq, reexport_eq, seq_all2,
    sig_eq, span_eq, strs_eq, tok_eq, toks_eq, trait_details_eq, trait_impl_eq, trait_impls_eq,
    trait_info_eq, trait_method_eq, type_alias_eq, type_details_eq, type_summary_eq, variant_eq,
    vis_eq, vli_eq,
};

verus! {

/// A copy of an optional string, equal in content.
pub fn clone_ostr(o: &Option<String>) -> (r: Option<String>)
    ensures
        ostr_eq(r, *o),
{
    match o {
        Some(s) => Some(s.clone()),
        None => None,
    }
}

/// A copy of a string vector, equal in content.
pub fn clone_strs(v: &Vec<String>) -> (r: Vec<String>)
    ensures
        strs_eq(r@, v@),
{
    let mut r: Vec<String> = Vec::new();
    let n = v.len();
    let mut i: usize = 0;
    while i < n
        invariant
            i <= n,
            n == v@.len(),
            r@.len() == i,
            forall|k: int| 0 <= k < i ==> r@[k]@ == v@[k]@,
        decreases n - i,
    {
        r.push(v[i].clone());
        i = i + 1;
    }
    r
}

impl Clone for SpanInfo {
    /// A copy with the same location facts.
    fn clone(&self) -> (r: Self)
        ensures
            span_eq(r, *self),
    {
        SpanInfo {
            file: self.file.clone(),
            start_line: self.start_line,
            start_col: self.start_col,
            end_line: self.end_line,
            end_col: self.end_col,
        }
    }
}

/// A copy of an optional span, equal in content.
pub fn clone_ospan(o: &Option<SpanInfo>) -> (r: Option<SpanInfo>)
    ensures
        ospan_eq(r, *o),
{
    match o {
        Some(s) => Some(s.clone()),
        None => None,
    }
}

impl Clone for Visibility {
    /// A copy naming the same visibility.
    fn clone(&self) -> (r: Self)
        ensures
            vis_eq(r, *self),
    {
        match self {
            Visibility::Public => Visibility::Public,
            Visibility::Crate => Visibility::Crate,
            Visibility::Restricted { path } => Visibility::Restricted { path: path.clone() },
            Visibility::Private => Visibility::Private,
        }
    }
}

impl Clone for ItemKind {
    /// A copy naming the same kind.
    fn clone(&self) -> (r: Self)
        ensures
            item_kind_eq(r, *self),
    {
        match self {
            ItemKind::Struct => ItemKind::Struct,
            ItemKind::Enum => ItemKind::Enum,
            ItemKind::Union => ItemKind::Union,
            ItemKind::Trait => ItemKind::Trait,
            ItemKind::Function => ItemKind::Function,
            ItemKind::Const => ItemKind::Const,
            ItemKind::Static => ItemKind::Static,
            ItemKind::TypeAlias => ItemKind::TypeAlias,
            ItemKind::Impl => ItemKind::Impl,
            ItemKind::Mod => ItemKind::Mod,
            ItemKind::Use => ItemKind::Use,
            ItemKind::ExternCrate => ItemKind::ExternCrate,
            ItemKind::Macro => ItemKind::Macro,
            ItemKind::TraitAlias => ItemKind::TraitAlias,
            ItemKind::Other(s) => ItemKind::Other(s.clone()),
        }
    }
}

impl Clone for ItemInfo {
    /// A copy describing the same item.
    fn clone(&self) -> (r: Self)
        ensures
            item_info_eq(r, *self),
    {
        ItemInfo {
            name: self.name.clone(),
            path: self.path.clone(),
            kind: self.kind.clone(),
            visibility: self.visibility.clone(),
            span: clone_ospan(&self.span),
        }
    }
}

/// A copy of an item list, equal in content.
pub fn clone_items(v: &Vec<ItemInfo>) -> (r: Vec<ItemInfo>)
    ensures
        items_eq(r@, v@),
{
    let mut r: Vec<ItemInfo> = Vec::new();
    let n = v.len();
    let mut i: usize = 0;
    while i < n
        invariant
            i <= n,
            n == v@.len(),
            r@.len() == i,
            forall|k: int| 0 <= k < i ==> item_info_eq(#[trigger] r@[k], v@[k]),
        decreases n - i,
    {
        r.push(v[i].clone());
        i = i + 1;
    }
    r
}

impl Clone for GenericParamKind {
    /// A copy naming the same parameter kind.
    fn clone(&self) -> (r: Self)
        ensures
            gpk_eq(r, *self),
    {
        match self {
            GenericParamKind::Lifetime => GenericParamKind::Lifetime,
            GenericParamKind::Type => GenericParamKind::Type,
            GenericParamKind::Const { ty } => GenericParamKind::Const { ty: ty.clone() },
        }
    }
}

impl Clone for GenericParam {
    /// A copy describing the same parameter.
    fn clone(&self) -> (r: Self)
        ensures
            gp_eq(r, *self),
    {
        GenericParam {
            name: self.name.clone(),
            kind: self.kind.clone(),
            bounds: clone_strs(&self.bounds),
            default: clone_ostr(&self.default),
        }
    }
}

/// A copy of a generic-parameter list, equal in content.
pub fn clone_gps(v: &Vec<GenericParam>) -> (r: Vec<GenericParam>)
    ensures
        gps_eq(r@, v@),
{
    let mut r: Vec<GenericParam> = Vec::new();
    let n = v.len();
    let mut i: usize = 0;
    while i < n
        invariant
            i <= n,
            n == v@.len(),
            r@.len() == i,
            forall|k: int| 0 <= k < i ==> gp_eq(#[trigger] r@[k], v@[k]),
        decreases n - i,
    {
        r.push(v[i].clone());
        i = i + 1;
    }
    r
}

impl Clone for FieldInfo {
    /// A copy describing the same field.
    fn clone(&self) -> (r: Self)
        ensures
            field_eq(r, *self),
    {
        FieldInfo {
            name: clone_ostr(&self.name),
            index: self.index,
            ty: self.ty.clone(),
            resolved_ty: clone_ostr(&self.resolved_ty),
            visibility: self.visibility.clone(),
            docs: clone_ostr(&self.docs),
            attributes: clone_strs(&self.attributes),
            offset: self.offset,
            size: self.size,
            span: clone_ospan(&self.span),
        }
    }
}

/// A copy of a field list, equal in content.
pub fn clone_fields(v: &Vec<FieldInfo>) -> (r: Vec<FieldInfo>)
    ensures
        fields_eq(r@, v@),
{
    let mut r: Vec<FieldInfo> = Vec::new();
    let n = v.len();
    let mut i: usize = 0;
    while i < n
        invariant
            i <= n,
            n == v@.len(),
            r@.len() == i,
            forall|k: int| 0 <= k < i ==> field_eq(#[trigger] r@[k], v@[k]),
        decreases n - i,
    {
        r.push(v[i].clone());
        i = i + 1;
    }
    r
}

impl Clone for EnumVariantInfo {
    /// A copy describing the same variant.
    fn clone(&self) -> (r: Self)
        ensures
            variant_eq(r, *self),
    {
        EnumVariantInfo {
            name: self.name.clone(),
            index: self.index,
            fields: clone_fields(&self.fields),
            discriminant: clone_ostr(&self.discriminant),
            docs: clone_ostr(&self.docs),
            attributes: clone_strs(&self.attributes),
            span: clone_ospan(&self.span),
        }
    }
}

impl Clone for FieldLayoutInfo {
    /// A copy with the same layout facts.
    fn clone(&self) -> (r: Self)
        ensures
            fli_eq(r, *self),
    {
        FieldLayoutInfo {
            name: clone_ostr(&self.name),
            index: self.index,
            offset: self.offset,
            size: self.size,
        }
    }
}

fn clone_flis(v: &Vec<FieldLayoutInfo>) -> (r: Vec<FieldLayoutInfo>)
    ensures
        seq_all2(r@, v@, |x: FieldLayoutInfo, y: FieldLayoutInfo| fli_eq(x, y)),
{
    let mut r: Vec<FieldLayoutInfo> = Vec::new();
    let n = v.len();
    let mut i: usize = 0;
    while i < n
        invariant
            i <= n,
            n == v@.len(),
            r@.len() == i,
            forall|k: int| 0 <= k < i ==> fli_eq(#[trigger] r@[k], v@[k]),
        decreases n - i,
    {
        r.push(v[i].clone());
        i = i + 1;
    }
    r
}

impl Clone for VariantLayoutInfo {
    /// A copy with the same layout facts.
    fn clone(&self) -> (r: Self)
        ensures
            vli_eq(r, *self),
    {
        VariantLayoutInfo {
            name: self.name.clone(),
            discriminant: self.discriminant,
            fields: clone_flis(&self.fields),
        }
    }
}

impl Clone for LayoutInfo {
    /// A copy with the same layout facts.
    fn clone(&self) -> (r: Self)
        ensures
            layout_eq(r, *self),
    {
        let field_offsets = match &self.field_offsets {
            Some(v) => Some(clone_flis(v)),
            None => None,
        };
        let variants = match &self.variants {
            Some(v) => {
                let mut r: Vec<VariantLayoutInfo> = Vec::new();
                let n = v.len();
                let mut i: usize = 0;
                while i < n
                    invariant
                        i <= n,
                        n == v@.len(),
                        r@.len() == i,
                        forall|k: int| 0 <= k < i ==> vli_eq(#[trigger] r@[k], v@[k]),
                    decreases n - i,
                {
                    r.push(v[i].clone());
                    i = i + 1;
                }
                Some(r)
            },
            None => None,
        };
        LayoutInfo {
            size: self.size,
            align: self.align,
            field_offsets,
            variants,
            is_sized: self.is_sized,
            is_copy: self.is_copy,
            is_send: self.is_send,
            is_sync: self.is_sync,
        }
    }
}

impl Clone for MethodSummary {
    /// A copy describing the same method.
    fn clone(&self) -> (r: Self)
        ensures
            msum_eq(r, *self),
    {
        MethodSummary {
            name: self.name.clone(),
            path: self.path.clone(),
            signature: self.signature.clone(),
            is_unsafe: self.is_unsafe,
            is_const: self.is_const,
            is_async: self.is_async,
        }
    }
}

fn clone_msums(v: &Vec<MethodSummary>) -> (r: Vec<MethodSummary>)
    ensures
        seq_all2(r@, v@, |x: MethodSummary, y: MethodSummary| msum_eq(x, y)),
{
    let mut r: Vec<MethodSummary> = Vec::new();
    let n = v.len();
    let mut i: usize = 0;
    while i < n
        invariant
            i <= n,
            n == v@.len(),
            r@.len() == i,
            forall|k: int| 0 <= k < i ==> msum_eq(#[trigger] r@[k], v@[k]),
        decreases n - i,
    {
        r.push(v[i].clone());
        i = i + 1;
    }
    r
}

impl Clone for ReceiverInfo {
    /// A copy describing the same receiver.
    fn clone(&self) -> (r: Self)
        ensures
            recv_eq(r, *self),
    {
        ReceiverInfo {
            kind: self.kind.clone(),
            is_mut: self.is_mut,
            is_ref: self.is_ref,
            lifetime: clone_ostr(&self.lifetime),
        }
    }
}

impl Clone for ParamInfo {
    /// A copy describing the same parameter.
    fn clone(&self) -> (r: Self)
        ensures
            param_eq(r, *self),
    {
        ParamInfo { name: self.name.clone(), ty: self.ty.clone(), is_mut: self.is_mut }
    }
}

impl Clone for FunctionSignature {
    /// A copy describing the same signature.
    fn clone(&self) -> (r: Self)
        ensures
            sig_eq(r, *self),
    {
        let receiver = match &self.receiver {
            Some(x) => Some(x.clone()),
            None => None,
        };
        let mut params: Vec<ParamInfo> = Vec::new();
        let n = self.params.len();
        let mut i: usize = 0;
        while i < n
            invariant
                i <= n,
                n == self.params@.len(),
                params@.len() == i,
                forall|k: int| 0 <= k < i ==> param_eq(#[trigger] params@[k], self.params@[k]),
            decreases n - i,
        {
            params.push(self.params[i].clone());
            i = i + 1;
        }
        FunctionSignature {
            receiver,
            params,
            return_ty: clone_ostr(&self.return_ty),
            generics: clone_gps(&self.generics),
            where_clause: clone_ostr(&self.where_clause),
        }
    }
}

impl Clone for AssocTypeInfo {
    /// A copy describing the same associated type.
    fn clone(&self) -> (r: Self)
        ensures
            assoc_ty_eq(r, *self),
    {
        AssocTypeInfo {
            name: self.name.clone(),
            ty: clone_ostr(&self.ty),
            bounds: clone_strs(&self.bounds),
            default: clone_ostr(&self.default),
            docs: clone_ostr(&self.docs),
            span: clone_ospan(&self.span),
        }
    }
}

fn clone_assoc_tys(v: &Vec<AssocTypeInfo>) -> (r: Vec<AssocTypeInfo>)
    ensures
        seq_all2(r@, v@, |x: AssocTypeInfo, y: AssocTypeInfo| assoc_ty_eq(x, y)),
{
    let mut r: Vec<AssocTypeInfo> = Vec::new();
    let n = v.len();
    let mut i: usize = 0;
    while i < n
        invariant
            i <= n,
            n == v@.len(),
            r@.len() == i,
            forall|k: int| 0 <= k < i ==> assoc_ty_eq(#[trigger] r@[k], v@[k]),
        decreases n - i,
    {
        r.push(v[i].clone());
        i = i + 1;
    }
    r
}

impl Clone for AssocConstInfo {
    /// A copy describing the same associated constant.
    fn clone(&self) -> (r: Self)
        ensures
            assoc_const_eq(r, *self),
    {
        AssocConstInfo {
            name: self.name.clone(),
            ty: self.ty.clone(),
            value: clone_ostr(&self.value),
            docs: clone_ostr(&self.docs),
            span: clone_ospan(&self.span),
        }
    }
}

fn clone_assoc_consts(v: &Vec<AssocConstInfo>) -> (r: Vec<AssocConstInfo>)
    ensures
        seq_all2(r@, v@, |x: AssocConstInfo, y: AssocConstInfo| assoc_const_eq(x, y)),
{
    let mut r: Vec<AssocConstInfo> = Vec::new();
    let n = v.len();
    let mut i: usize = 0;
    while i < n
        invariant
            i <= n,
            n == v@.len(),
            r@.len() == i,
            forall|k: int| 0 <= k < i ==> assoc_const_eq(#[trigger] r@[k], v@[k]),
        decreases n - i,
    {
        r.push(v[i].clone());
        i = i + 1;
    }
    r
}

/// A copy of a token tree, equal in structure and content.
pub fn token_clone(t: &Token) -> (r: Token)
    ensures
        tok_eq(r, *t),
    decreases t,
{
    match t {
        Token::Ident { name } => Token::Ident { name: name.clone() },
        Token::Literal { kind, value } => Token::Literal { kind: *kind, value: value.clone() },
        Token::Punct { ch } => Token::Punct { ch: *ch },
        Token::Keyword { name } => Token::Keyword { name: name.clone() },
        Token::Group { delimiter, tokens } => Token::Group {
            delimiter: *delimiter,
            tokens: clone_toks(tokens),
        },
        Token::Path { segments } => Token::Path { segments: clone_strs(segments) },
        Token::MethodCall { receiver, method, args } => Token::MethodCall {
            receiver: Box::new(token_clone(receiver)),
            method: method.clone(),
            args: clone_toks(args),
        },
        Token::FnCall { path, args } => Token::FnCall {
            path: clone_strs(path),
            args: clone_toks(args),
        },
        Token::FieldAccess { base, field } => Token::FieldAccess {
            base: Box::new(token_clone(base)),
            field: field.clone(),
        },
        Token::BinOp { lhs, op, rhs } => Token::BinOp {
            lhs: Box::new(token_clone(lhs)),
            op: op.clone(),
            rhs: Box::new(token_clone(rhs)),
        },
        Token::UnaryOp { op, expr } => Token::UnaryOp {
            op: op.clone(),
            expr: Box::new(token_clone(expr)),
        },
        Token::If { cond, then_branch, else_branch } => Token::If {
            cond: Box::new(token_clone(cond)),
            then_branch: clone_toks(then_branch),
            else_branch: match else_branch {
                Some(ts) => Some(clone_toks(ts)),
                None => None,
            },
        },
        Token::Match { expr, arms } => Token::Match {
            expr: Box::new(token_clone(expr)),
            arms: clone_arms(arms),
        },
        Token::Let { pattern, ty, init } => Token::Let {
            pattern: pattern.clone(),
            ty: clone_ostr(ty),
            init: match init {
                Some(e) => Some(Box::new(token_clone(e))),
                None => None,
            },
        },
        Token::Return { expr } => Token::Return {
            expr: match expr {
                Some(e) => Some(Box::new(token_clone(e))),
                None => None,
            },
        },
        Token::Block { stmts } => Token::Block { stmts: clone_toks(stmts) },
        Token::Closure { params, body } => Token::Closure {
            params: clone_strs(params),
            body: Box::new(token_clone(body)),
        },
        Token::Raw { source } => Token::Raw { source: source.clone() },
    }
}

pub proof fn lemma_toks_eq_pointwise(a: Seq<Token>, b: Seq<Token>)
    requires
        a.len() == b.len(),
        forall|k: int| 0 <= k < a.len() ==> tok_eq(#[trigger] a[k], b[k]),
    ensures
        toks_eq(a, b),
    decreases a,
{
    if a.len() > 0 {
        assert forall|k: int| 0 <= k < a.skip(1).len() implies tok_eq(
            #[trigger] a.skip(1)[k],
            b.skip(1)[k],
        ) by {
            assert(a.skip(1)[k] == a[k + 1]);
            assert(b.skip(1)[k] == b[k + 1]);
        }
        lemma_toks_eq_pointwise(a.skip(1), b.skip(1));
    }
}

pub proof fn lemma_arms_eq_pointwise(a: Seq<MatchArm>, b: Seq<MatchArm>)
    requires
        a.len() == b.len(),
        forall|k: int| 0 <= k < a.len() ==> arm_eq(#[trigger] a[k], b[k]),
    ensures
        arms_eq(a, b),
    decreases a,
{
    if a.len() > 0 {
        assert forall|k: int| 0 <= k < a.skip(1).len() implies arm_eq(
            #[trigger] a.skip(1)[k],
            b.skip(1)[k],
        ) by {
            assert(a.skip(1)[k] == a[k + 1]);
            assert(b.skip(1)[k] == b[k + 1]);
        }
        lemma_arms_eq_pointwise(a.skip(1), b.skip(1));
    }
}

/// A copy of a token list, equal in structure and content.
pub fn clone_toks(ts: &Vec<Token>) -> (r: Vec<Token>)
    ensures
        toks_eq(r@, ts@),
    decreases ts,
{
    let mut r: Vec<Token> = Vec::new();
    let n = ts.len();
    let mut i: usize = 0;
    while i < n
        invariant
            i <= n,
            n == ts@.len(),
            r@.len() == i,
            forall|k: int| 0 <= k < i ==> tok_eq(#[trigger] r@[k], ts@[k]),
        decreases n - i,
    {
        r.push(token_clone(&ts[i]));
        i = i + 1;
    }
    proof {
        lemma_toks_eq_pointwise(r@, ts@);
    }
    r
}

fn clone_arms(arms: &Vec<MatchArm>) -> (r: Vec<MatchArm>)
    ensures
        arms_eq(r@, arms@),
    decreases arms,
{
    let mut r: Vec<MatchArm> = Vec::new();
    let n = arms.len();
    let mut i: usize = 0;
    while i < n
        invariant
            i <= n,
            n == arms@.len(),
            r@.len() == i,
            forall|k: int| 0 <= k < i ==> arm_eq(#[trigger] r@[k], arms@[k]),
        decreases n - i,
    {
        let a = &arms[i];
        r.push(MatchArm {
            pattern: a.pattern.clone(),
            guard: clone_ostr(&a.guard),
            body: clone_toks(&a.body),
        });
        i = i + 1;
    }
    proof {
        lemma_arms_eq_pointwise(r@, arms@);
    }
    r
}

impl Clone for Token {
    /// A copy equal in structure and content.
    fn clone(&self) -> (r: Self)
        ensures
            tok_eq(r, *self),
    {
        token_clone(self)
    }
}

impl Clone for MatchArm {
    /// A copy equal in structure and content.
    fn clone(&self) -> (r: Self)
        ensures
            arm_eq(r, *self),
    {
        MatchArm {
            pattern: self.pattern.clone(),
            guard: clone_ostr(&self.guard),
            body: clone_toks(&self.body),
        }
    }
}

impl Clone for MethodDetails {
    /// A copy describing the same method.
    fn clone(&self) -> (r: Self)
        ensures
            method_eq(r, *self),
    {
        let body_tokens = match &self.body_tokens {
            Some(ts) => Some(clone_toks(ts)),
            None => None,
        };
        MethodDetails {
            name: self.name.clone(),
            path: self.path.clone(),
            signature: self.signature.clone(),
            parsed_signature: self.parsed_signature.clone(),
            has_body: self.has_body,
            body_source: clone_ostr(&self.body_source),
            body_tokens,
            is_unsafe: self.is_unsafe,
            is_const: self.is_const,
            is_async: self.is_async,
            docs: clone_ostr(&self.docs),
            attributes: clone_strs(&self.attributes),
            span: clone_ospan(&self.span),
        }
    }
}

fn clone_methods(v: &Vec<MethodDetails>) -> (r: Vec<MethodDetails>)
    ensures
        methods_eq(r@, v@),
{
    let mut r: Vec<MethodDetails> = Vec::new();
    let n = v.len();
    let mut i: usize = 0;
    while i < n
        invariant
            i <= n,
            n == v@.len(),
            r@.len() == i,
            forall|k: int| 0 <= k < i ==> method_eq(#[trigger] r@[k], v@[k]),
        decreases n - i,
    {
        r.push(v[i].clone());
        i = i + 1;
    }
    r
}

impl Clone for TraitImplDetails {
    /// A copy describing the same implementation block.
    fn clone(&self) -> (r: Self)
        ensures
            trait_impl_eq(r, *self),
    {
        TraitImplDetails {
            self_ty: self.self_ty.clone(),
            trait_path: self.trait_path.clone(),
            generics: clone_gps(&self.generics),
            where_clause: clone_ostr(&self.where_clause),
            is_negative: self.is_negative,
            is_unsafe: self.is_unsafe,
            methods: clone_methods(&self.methods),
            assoc_types: clone_assoc_tys(&self.assoc_types),
            assoc_consts: clone_assoc_consts(&self.assoc_consts),
            source: clone_ostr(&self.source),
            span: clone_ospan(&self.span),
        }
    }
}

/// A copy of a trait-impl list, equal in content.
pub fn clone_trait_impls(v: &Vec<TraitImplDetails>) -> (r: Vec<TraitImplDetails>)
    ensures
        trait_impls_eq(r@, v@),
{
    let mut r: Vec<TraitImplDetails> = Vec::new();
    let n = v.len();
    let mut i: usize = 0;
    while i < n
        invariant
            i <= n,
            n == v@.len(),
            r@.len() == i,
            forall|k: int| 0 <= k < i ==> trait_impl_eq(#[trigger] r@[k], v@[k]),
        decreases n - i,
    {
        r.push(v[i].clone());
        i = i + 1;
    }
    r
}

impl Clone for InherentImplDetails {
    /// A copy describing the same implementation block.
    fn clone(&self) -> (r: Self)
        ensures
            inherent_impl_eq(r, *self),
    {
        InherentImplDetails {
            self_ty: self.self_ty.clone(),
            generics: clone_gps(&self.generics),
            where_clause: clone_ostr(&self.where_clause),
            is_unsafe: self.is_unsafe,
            methods: clone_methods(&self.methods),
            assoc_consts: clone_assoc_consts(&self.assoc_consts),
            assoc_types: clone_assoc_tys(&self.assoc_types),
            source: clone_ostr(&self.source),
            span: clone_ospan(&self.span),
        }
    }
}

/// A copy of an inherent-impl list, equal in content.
pub fn clone_inherent_impls(v: &Vec<InherentImplDetails>) -> (r: Vec<InherentImplDetails>)
    ensures
        inherent_impls_eq(r@, v@),
{
    let mut r: Vec<InherentImplDetails> = Vec::new();
    let n = v.len();
    let mut i: usize = 0;
    while i < n
        invariant
            i <= n,
            n == v@.len(),
            r@.len() == i,
            forall|k: int| 0 <= k < i ==> inherent_impl_eq(#[trigger] r@[k], v@[k]),
        decreases n - i,
    {
        r.push(v[i].clone());
        i = i + 1;
    }
    r
}

impl Clone for TraitMethodInfo {
    /// A copy describing the same trait method.
    fn clone(&self) -> (r: Self)
        ensures
            trait_method_eq(r, *self),
    {
        TraitMethodInfo {
            name: self.name.clone(),
            signature: self.signature.clone(),
            parsed_signature: self.parsed_signature.clone(),
            has_default: self.has_default,
            default_body: clone_ostr(&self.default_body),
            is_unsafe: self.is_unsafe,
            docs: clone_ostr(&self.docs),
            attributes: clone_strs(&self.attributes),
            span: clone_ospan(&self.span),
        }
    }
}

impl Clone for TraitDetails {
    /// A copy describing the same trait.
    fn clone(&self) -> (r: Self)
        ensures
            trait_details_eq(r, *self),
    {
        let mut methods: Vec<TraitMethodInfo> = Vec::new();
        let n = self.methods.len();
        let mut i: usize = 0;
        while i < n
            invariant
                i <= n,
                n == self.methods@.len(),
                methods@.len() == i,
                forall|k: int|
                    0 <= k < i ==> trait_method_eq(#[trigger] methods@[k], self.methods@[k]),
            decreases n - i,
        {
            methods.push(self.methods[i].clone());
            i = i + 1;
        }
        TraitDetails {
            name: self.name.clone(),
            path: self.path.clone(),
            visibility: self.visibility.clone(),
            generics: clone_gps(&self.generics),
            where_clause: clone_ostr(&self.where_clause),
            is_auto: self.is_auto,
            is_unsafe: self.is_unsafe,
            supertraits: clone_strs(&self.supertraits),
            methods,
            assoc_types: clone_assoc_tys(&self.assoc_types),
            assoc_consts: clone_assoc_consts(&self.assoc_consts),
            docs: clone_ostr(&self.docs),
            attributes: clone_strs(&self.attributes),
            source: clone_ostr(&self.source),
            implementors: clone_strs(&self.implementors),
            span: clone_ospan(&self.span),
        }
    }
}

impl Clone for TraitInfo {
    /// A copy describing the same trait summary.
    fn clone(&self) -> (r: Self)
        ensures
            trait_info_eq(r, *self),
    {
        TraitInfo {
            name: self.name.clone(),
            path: self.path.clone(),
            generics: clone_gps(&self.generics),
            required_methods: self.required_methods,
            provided_methods: self.provided_methods,
            supertraits: clone_strs(&self.supertraits),
        }
    }
}

impl Clone for TypeSummary {
    /// A copy describing the same type summary.
    fn clone(&self) -> (r: Self)
        ensures
            type_summary_eq(r, *self),
    {
        TypeSummary {
            name: self.name.clone(),
            path: self.path.clone(),
            kind: self.kind,
            generics: clone_gps(&self.generics),
        }
    }
}

impl Clone for TypeDetails {
    /// A copy describing the same type.
    fn clone(&self) -> (r: Self)
        ensures
            type_details_eq(r, *self),
    {
        let fields = match &self.fields {
            Some(v) => Some(clone_fields(v)),
            None => None,
        };
        let variants = match &self.variants {
            Some(v) => {
                let mut r: Vec<EnumVariantInfo> = Vec::new();
                let n = v.len();
                let mut i: usize = 0;
                while i < n
                    invariant
                        i <= n,
                        n == v@.len(),
                        r@.len() == i,
                        forall|k: int| 0 <= k < i ==> variant_eq(#[trigger] r@[k], v@[k]),
                    decreases n - i,
                {
                    r.push(v[i].clone());
                    i = i + 1;
                }
                Some(r)
            },
            None => None,
        };
        let layout = match &self.layout {
            Some(l) => Some(l.clone()),
            None => None,
        };
        TypeDetails {
            name: self.name.clone(),
            path: self.path.clone(),
            kind: self.kind,
            visibility: self.visibility.clone(),
            generics: clone_gps(&self.generics),
            where_clause: clone_ostr(&self.where_clause),
            docs: clone_ostr(&self.docs),
            attributes: clone_strs(&self.attributes),
            fields,
            variants,
            trait_impls: clone_strs(&self.trait_impls),
            inherent_methods: clone_msums(&self.inherent_methods),
            layout,
            source: clone_ostr(&self.source),
            span: clone_ospan(&self.span),
        }
    }
}

impl Clone for TypeAliasInfo {
    /// A copy describing the same alias.
    fn clone(&self) -> (r: Self)
        ensures
            type_alias_eq(r, *self),
    {
        TypeAliasInfo {
            name: self.name.clone(),
            path: self.path.clone(),
            generics: clone_gps(&self.generics),
            ty: self.ty.clone(),
            resolved_ty: self.resolved_ty.clone(),
            visibility: self.visibility.clone(),
            docs: clone_ostr(&self.docs),
            span: clone_ospan(&self.span),
        }
    }
}

impl Clone for ReexportInfo {
    /// A copy describing the same re-export.
    fn clone(&self) -> (r: Self)
        ensures
            reexport_eq(r, *self),
    {
        ReexportInfo {
            name: self.name.clone(),
            original_path: self.original_path.clone(),
            visibility: self.visibility.clone(),
        }
    }
}

impl Clone for ModuleInfo {
    /// A copy describing the same module.
    fn clone(&self) -> (r: Self)
        ensures
            module_eq(r, *self),
    {
        let mut reexports: Vec<ReexportInfo> = Vec::new();
        let n = self.reexports.len();
        let mut i: usize = 0;
        while i < n
            invariant
                i <= n,
                n == self.reexports@.len(),
                reexports@.len() == i,
                forall|k: int|
                    0 <= k < i ==> reexport_eq(#[trigger] reexports@[k], self.reexports@[k]),
            decreases n - i,
        {
            reexports.push(self.reexports[i].clone());
            i = i + 1;
        }
        ModuleInfo {
            name: self.name.clone(),
            path: self.path.clone(),
            visibility: self.visibility.clone(),
            items: clone_strs(&self.items),
            reexports,
        }
    }
}

} // verus!
