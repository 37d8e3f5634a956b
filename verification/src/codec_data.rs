//! Spelling and reading of query payloads: the item, type, trait, impl,
//! layout and token structures carried inside successful responses.
//!
//! Every payload's canonical spelling is specified (`se_query_data` and the
//! spellings under it), each emitter produces exactly its spelling, and the
//! reader hands a payload back only when re-spelling it reproduces the
//! consumed characters — so whatever is decoded, the line spells it. That
//! every canonical spelling is also accepted is exercised by the
//! round-trip tests over each payload variant.

use vstd::prelude::*;
use crate::chars::{from_chars, lit_at, occurs_at_exec, to_chars};
use crate::codec_prim::{dec_u64, emit_esc_char, emit_raw, emit_str_lit, emit_u64, esc_char, parse_str_lit, parse_u64, str_lit};
use crate::protocol::{
    AssocConstInfo, AssocTypeInfo, Delimiter, EnumVariantInfo, FieldInfo, FieldLayoutInfo,
    FunctionSignature, GenericParam, GenericParamKind, InherentImplDetails, ItemInfo, ItemKind,
    LayoutInfo, LiteralKind, MatchArm, MethodDetails, MethodSummary, ParamInfo, QueryData,
    ReceiverInfo, SpanInfo, Token, TraitDetails, TraitImplDetails, TraitInfo, TraitMethodInfo,
    TypeDetails, TypeKind, TypeSummary, VariantLayoutInfo, Visibility,
};

verus! {

/// The spelling of a boolean.
pub open spec fn se_bool(b: bool) -> Seq<char> {
    if b {
        "true"@
    } else {
        "false"@
    }
}

/// The spelling of an optional string: its literal, or the null token.
pub open spec fn se_ostr(o: Option<String>) -> Seq<char> {
    match o {
        Option::Some(s) => str_lit(s@),
        Option::None => "null"@,
    }
}

/// The spelling of an optional count.
pub open spec fn se_ousize(o: Option<usize>) -> Seq<char> {
    match o {
        Option::Some(n) => dec_u64(n as int),
        Option::None => "null"@,
    }
}

/// The spelling of a signed value.
pub open spec fn se_i128(n: int) -> Seq<char> {
    if n < 0 {
        seq!['-'] + dec_u64(-n)
    } else {
        dec_u64(n)
    }
}

/// The spelling of an optional discriminant.
pub open spec fn se_oi128(o: Option<i128>) -> Seq<char> {
    match o {
        Option::Some(n) => se_i128(n as int),
        Option::None => "null"@,
    }
}

/// The spelling of a visibility.
pub open spec fn se_vis(v: Visibility) -> Seq<char> {
    match v {
        Visibility::Public => "\"public\""@,
        Visibility::Crate => "\"crate\""@,
        Visibility::Restricted { path } => "{\"restricted\":{\"path\":"@ + str_lit(path@)
            + "}}"@,
        Visibility::Private => "\"private\""@,
    }
}

/// The spelling of an item kind.
pub open spec fn se_item_kind(k: ItemKind) -> Seq<char> {
    match k {
        ItemKind::Struct => "\"struct\""@,
        ItemKind::Enum => "\"enum\""@,
        ItemKind::Union => "\"union\""@,
        ItemKind::Trait => "\"trait\""@,
        ItemKind::Function => "\"function\""@,
        ItemKind::Const => "\"const\""@,
        ItemKind::Static => "\"static\""@,
        ItemKind::TypeAlias => "\"type_alias\""@,
        ItemKind::Impl => "\"impl\""@,
        ItemKind::Mod => "\"mod\""@,
        ItemKind::Use => "\"use\""@,
        ItemKind::ExternCrate => "\"exte"@ + "rn_crate\""@,
        ItemKind::Macro => "\"macro\""@,
        ItemKind::TraitAlias => "\"trait_alias\""@,
        ItemKind::Other(s) => "{\"other\":"@ + str_lit(s@) + seq!['}'],
    }
}

/// The spelling of a type kind.
pub open spec fn se_type_kind(k: TypeKind) -> Seq<char> {
    match k {
        TypeKind::Struct => "\"struct\""@,
        TypeKind::Enum => "\"enum\""@,
        TypeKind::Union => "\"union\""@,
        TypeKind::Trait => "\"trait\""@,
        TypeKind::TypeAlias => "\"type_alias\""@,
        TypeKind::Primitive => "\"primitive\""@,
        TypeKind::Tuple => "\"tuple\""@,
        TypeKind::Array => "\"array\""@,
        TypeKind::Slice => "\"slice\""@,
        TypeKind::Reference => "\"reference\""@,
        TypeKind::Pointer => "\"pointer\""@,
        TypeKind::Function => "\"function\""@,
        TypeKind::Closure => "\"closure\""@,
        TypeKind::Opaque => "\"opaque\""@,
    }
}

/// The spelling of a generic-parameter kind.
pub open spec fn se_gpk(k: GenericParamKind) -> Seq<char> {
    match k {
        GenericParamKind::Lifetime => "\"lifetime\""@,
        GenericParamKind::Type => "\"type\""@,
        GenericParamKind::Const { ty } => "{\"const\":{\"ty\":"@ + str_lit(ty@) + "}}"@,
    }
}

/// The spelling of a group delimiter.
pub open spec fn se_delimiter(d: Delimiter) -> Seq<char> {
    match d {
        Delimiter::Paren => "\"paren\""@,
        Delimiter::Bracket => "\"bracket\""@,
        Delimiter::Brace => "\"brace\""@,
        Delimiter::Invisible => "\"none\""@,
    }
}

/// The spelling of a literal kind.
pub open spec fn se_literal_kind(k: LiteralKind) -> Seq<char> {
    match k {
        LiteralKind::String => "\"string\""@,
        LiteralKind::ByteString => "\"byte_string\""@,
        LiteralKind::Char => "\"char\""@,
        LiteralKind::Byte => "\"byte\""@,
        LiteralKind::Int => "\"int\""@,
        LiteralKind::Float => "\"float\""@,
        LiteralKind::Bool => "\"bool\""@,
    }
}























/// One segment of the object's spelling.
#[verifier::opaque]
pub open spec fn se_span_part0(v: SpanInfo) -> Seq<char> {
    "{\"file\":"@ + str_lit(v.file@) + ",\"start_line\":"@ + dec_u64(v.start_line as int) + ",\"start_col\":"@ + dec_u64(v.start_col as int) + ",\"end_line\":"@ + dec_u64(v.end_line as int)
}

/// One segment of the object's spelling.
#[verifier::opaque]
pub open spec fn se_span_part1(v: SpanInfo) -> Seq<char> {
    ",\"end_col\":"@ + dec_u64(v.end_col as int)
}

/// The spelling of one such object.
#[verifier::opaque]
pub open spec fn se_span(v: SpanInfo) -> Seq<char> {
    se_span_part0(v) + se_span_part1(v) + seq!['}']
}

/// One segment of the object's spelling.
#[verifier::opaque]
pub open spec fn se_item_part0(v: ItemInfo) -> Seq<char> {
    "{\"name\":"@ + str_lit(v.name@) + ",\"path\":"@ + str_lit(v.path@) + ",\"kind\":"@ + se_item_kind(v.kind) + ",\"visibility\":"@ + se_vis(v.visibility)
}

/// One segment of the object's spelling.
#[verifier::opaque]
pub open spec fn se_item_part1(v: ItemInfo) -> Seq<char> {
    ",\"span\":"@ + se_ospan(v.span)
}

/// The spelling of one such object.
#[verifier::opaque]
pub open spec fn se_item(v: ItemInfo) -> Seq<char> {
    se_item_part0(v) + se_item_part1(v) + seq!['}']
}

/// The spelling of one such object.
#[verifier::opaque]
pub open spec fn se_gp(v: GenericParam) -> Seq<char> {
    "{\"name\":"@ + str_lit(v.name@) + ",\"kind\":"@ + se_gpk(v.kind) + ",\"bounds\":"@ + se_strv_arr(v.bounds@) + ",\"default\":"@ + se_ostr(v.default) + seq!['}']
}

/// One segment of the object's spelling.
#[verifier::opaque]
pub open spec fn se_field_part0(v: FieldInfo) -> Seq<char> {
    "{\"name\":"@ + se_ostr(v.name) + ",\"index\":"@ + dec_u64(v.index as int) + ",\"ty\":"@ + str_lit(v.ty@) + ",\"resolved_ty\":"@ + se_ostr(v.resolved_ty)
}

/// One segment of the object's spelling.
#[verifier::opaque]
pub open spec fn se_field_part1(v: FieldInfo) -> Seq<char> {
    ",\"visibility\":"@ + se_vis(v.visibility) + ",\"docs\":"@ + se_ostr(v.docs) + ",\"attributes\":"@ + se_strv_arr(v.attributes@) + ",\"offset\":"@ + se_ousize(v.offset)
}

/// One segment of the object's spelling.
#[verifier::opaque]
pub open spec fn se_field_part2(v: FieldInfo) -> Seq<char> {
    ",\"size\":"@ + se_ousize(v.size) + ",\"span\":"@ + se_ospan(v.span)
}

/// The spelling of one such object.
#[verifier::opaque]
pub open spec fn se_field(v: FieldInfo) -> Seq<char> {
    se_field_part0(v) + se_field_part1(v) + se_field_part2(v) + seq!['}']
}

/// One segment of the object's spelling.
#[verifier::opaque]
pub open spec fn se_variant_part0(v: EnumVariantInfo) -> Seq<char> {
    "{\"name\":"@ + str_lit(v.name@) + ",\"index\":"@ + dec_u64(v.index as int) + ",\"fields\":"@ + se_fields_arr(v.fields@) + ",\"discriminant\":"@ + se_ostr(v.discriminant)
}

/// One segment of the object's spelling.
#[verifier::opaque]
pub open spec fn se_variant_part1(v: EnumVariantInfo) -> Seq<char> {
    ",\"docs\":"@ + se_ostr(v.docs) + ",\"attributes\":"@ + se_strv_arr(v.attributes@) + ",\"span\":"@ + se_ospan(v.span)
}

/// The spelling of one such object.
#[verifier::opaque]
pub open spec fn se_variant(v: EnumVariantInfo) -> Seq<char> {
    se_variant_part0(v) + se_variant_part1(v) + seq!['}']
}

/// The spelling of one such object.
#[verifier::opaque]
pub open spec fn se_fli(v: FieldLayoutInfo) -> Seq<char> {
    "{\"name\":"@ + se_ostr(v.name) + ",\"index\":"@ + dec_u64(v.index as int) + ",\"offset\":"@ + dec_u64(v.offset as int) + ",\"size\":"@ + dec_u64(v.size as int) + seq!['}']
}

/// The spelling of one such object.
#[verifier::opaque]
pub open spec fn se_vli(v: VariantLayoutInfo) -> Seq<char> {
    "{\"name\":"@ + str_lit(v.name@) + ",\"discriminant\":"@ + se_oi128(v.discriminant) + ",\"fields\":"@ + se_flis_arr(v.fields@) + seq!['}']
}

/// One segment of the object's spelling.
#[verifier::opaque]
pub open spec fn se_layout_fields_part0(v: LayoutInfo) -> Seq<char> {
    "\"size\":"@ + dec_u64(v.size as int) + ",\"align\":"@ + dec_u64(v.align as int) + ",\"field_offsets\":"@ + se_oflis(v.field_offsets) + ",\"variants\":"@ + se_ovlis(v.variants)
}

/// One segment of the object's spelling.
#[verifier::opaque]
pub open spec fn se_layout_fields_part1(v: LayoutInfo) -> Seq<char> {
    ",\"is_sized\":"@ + se_bool(v.is_sized) + ",\"is_copy\":"@ + se_bool(v.is_copy) + ",\"is_send\":"@ + se_bool(v.is_send) + ",\"is_sync\":"@ + se_bool(v.is_sync)
}

/// The spelling of one such object.
#[verifier::opaque]
pub open spec fn se_layout_fields(v: LayoutInfo) -> Seq<char> {
    se_layout_fields_part0(v) + se_layout_fields_part1(v)
}

/// One segment of the object's spelling.
#[verifier::opaque]
pub open spec fn se_msum_part0(v: MethodSummary) -> Seq<char> {
    "{\"name\":"@ + str_lit(v.name@) + ",\"path\":"@ + str_lit(v.path@) + ",\"signature\":"@ + str_lit(v.signature@) + ",\"is_unsafe\":"@ + se_bool(v.is_unsafe)
}

/// One segment of the object's spelling.
#[verifier::opaque]
pub open spec fn se_msum_part1(v: MethodSummary) -> Seq<char> {
    ",\"is_const\":"@ + se_bool(v.is_const) + ",\"is_async\":"@ + se_bool(v.is_async)
}

/// The spelling of one such object.
#[verifier::opaque]
pub open spec fn se_msum(v: MethodSummary) -> Seq<char> {
    se_msum_part0(v) + se_msum_part1(v) + seq!['}']
}

/// The spelling of one such object.
#[verifier::opaque]
pub open spec fn se_recv(v: ReceiverInfo) -> Seq<char> {
    "{\"kind\":"@ + str_lit(v.kind@) + ",\"is_mut\":"@ + se_bool(v.is_mut) + ",\"is_ref\":"@ + se_bool(v.is_ref) + ",\"lifetime\":"@ + se_ostr(v.lifetime) + seq!['}']
}

/// The spelling of one such object.
#[verifier::opaque]
pub open spec fn se_param(v: ParamInfo) -> Seq<char> {
    "{\"name\":"@ + str_lit(v.name@) + ",\"ty\":"@ + str_lit(v.ty@) + ",\"is_mut\":"@ + se_bool(v.is_mut) + seq!['}']
}

/// One segment of the object's spelling.
#[verifier::opaque]
pub open spec fn se_sig_part0(v: FunctionSignature) -> Seq<char> {
    "{\"receiver\":"@ + se_orecv(v.receiver) + ",\"params\":"@ + se_params_arr(v.params@) + ",\"return_ty\":"@ + se_ostr(v.return_ty) + ",\"generics\":"@ + se_gps_arr(v.generics@)
}

/// One segment of the object's spelling.
#[verifier::opaque]
pub open spec fn se_sig_part1(v: FunctionSignature) -> Seq<char> {
    ",\"where_clause\":"@ + se_ostr(v.where_clause)
}

/// The spelling of one such object.
#[verifier::opaque]
pub open spec fn se_sig(v: FunctionSignature) -> Seq<char> {
    se_sig_part0(v) + se_sig_part1(v) + seq!['}']
}

/// One segment of the object's spelling.
#[verifier::opaque]
pub open spec fn se_aty_part0(v: AssocTypeInfo) -> Seq<char> {
    "{\"name\":"@ + str_lit(v.name@) + ",\"ty\":"@ + se_ostr(v.ty) + ",\"bounds\":"@ + se_strv_arr(v.bounds@) + ",\"default\":"@ + se_ostr(v.default)
}

/// One segment of the object's spelling.
#[verifier::opaque]
pub open spec fn se_aty_part1(v: AssocTypeInfo) -> Seq<char> {
    ",\"docs\":"@ + se_ostr(v.docs) + ",\"span\":"@ + se_ospan(v.span)
}

/// The spelling of one such object.
#[verifier::opaque]
pub open spec fn se_aty(v: AssocTypeInfo) -> Seq<char> {
    se_aty_part0(v) + se_aty_part1(v) + seq!['}']
}

/// One segment of the object's spelling.
#[verifier::opaque]
pub open spec fn se_aconst_part0(v: AssocConstInfo) -> Seq<char> {
    "{\"name\":"@ + str_lit(v.name@) + ",\"ty\":"@ + str_lit(v.ty@) + ",\"value\":"@ + se_ostr(v.value) + ",\"docs\":"@ + se_ostr(v.docs)
}

/// One segment of the object's spelling.
#[verifier::opaque]
pub open spec fn se_aconst_part1(v: AssocConstInfo) -> Seq<char> {
    ",\"span\":"@ + se_ospan(v.span)
}

/// The spelling of one such object.
#[verifier::opaque]
pub open spec fn se_aconst(v: AssocConstInfo) -> Seq<char> {
    se_aconst_part0(v) + se_aconst_part1(v) + seq!['}']
}

/// One segment of the object's spelling.
#[verifier::opaque]
pub open spec fn se_method_part0(v: MethodDetails) -> Seq<char> {
    "{\"name\":"@ + str_lit(v.name@) + ",\"path\":"@ + str_lit(v.path@) + ",\"signature\":"@ + str_lit(v.signature@) + ",\"parsed_signature\":"@ + se_sig(v.parsed_signature)
}

/// One segment of the object's spelling.
#[verifier::opaque]
pub open spec fn se_method_part1(v: MethodDetails) -> Seq<char> {
    ",\"has_body\":"@ + se_bool(v.has_body) + ",\"body_source\":"@ + se_ostr(v.body_source) + ",\"body_tokens\":"@ + se_otoks(v.body_tokens) + ",\"is_unsafe\":"@ + se_bool(v.is_unsafe)
}

/// One segment of the object's spelling.
#[verifier::opaque]
pub open spec fn se_method_part2(v: MethodDetails) -> Seq<char> {
    ",\"is_const\":"@ + se_bool(v.is_const) + ",\"is_async\":"@ + se_bool(v.is_async) + ",\"docs\":"@ + se_ostr(v.docs) + ",\"attributes\":"@ + se_strv_arr(v.attributes@)
}

/// One segment of the object's spelling.
#[verifier::opaque]
pub open spec fn se_method_part3(v: MethodDetails) -> Seq<char> {
    ",\"span\":"@ + se_ospan(v.span)
}

/// The spelling of one such object.
#[verifier::opaque]
pub open spec fn se_method(v: MethodDetails) -> Seq<char> {
    se_method_part0(v) + se_method_part1(v) + se_method_part2(v) + se_method_part3(v) + seq!['}']
}

/// One segment of the object's spelling.
#[verifier::opaque]
pub open spec fn se_timpl_part0(v: TraitImplDetails) -> Seq<char> {
    "{\"self_ty\":"@ + str_lit(v.self_ty@) + ",\"trait_path\":"@ + str_lit(v.trait_path@) + ",\"generics\":"@ + se_gps_arr(v.generics@) + ",\"where_clause\":"@ + se_ostr(v.where_clause)
}

/// One segment of the object's spelling.
#[verifier::opaque]
pub open spec fn se_timpl_part1(v: TraitImplDetails) -> Seq<char> {
    ",\"is_negative\":"@ + se_bool(v.is_negative) + ",\"is_unsafe\":"@ + se_bool(v.is_unsafe) + ",\"methods\":"@ + se_methods_arr(v.methods@) + ",\"assoc_types\":"@ + se_atys_arr(v.assoc_types@)
}

/// One segment of the object's spelling.
#[verifier::opaque]
pub open spec fn se_timpl_part2(v: TraitImplDetails) -> Seq<char> {
    ",\"assoc_consts\":"@ + se_aconsts_arr(v.assoc_consts@) + ",\"source\":"@ + se_ostr(v.source) + ",\"span\":"@ + se_ospan(v.span)
}

/// The spelling of one such object.
#[verifier::opaque]
pub open spec fn se_timpl(v: TraitImplDetails) -> Seq<char> {
    se_timpl_part0(v) + se_timpl_part1(v) + se_timpl_part2(v) + seq!['}']
}

/// One segment of the object's spelling.
#[verifier::opaque]
pub open spec fn se_iimpl_part0(v: InherentImplDetails) -> Seq<char> {
    "{\"self_ty\":"@ + str_lit(v.self_ty@) + ",\"generics\":"@ + se_gps_arr(v.generics@) + ",\"where_clause\":"@ + se_ostr(v.where_clause) + ",\"is_unsafe\":"@ + se_bool(v.is_unsafe)
}

/// One segment of the object's spelling.
#[verifier::opaque]
pub open spec fn se_iimpl_part1(v: InherentImplDetails) -> Seq<char> {
    ",\"methods\":"@ + se_methods_arr(v.methods@) + ",\"assoc_consts\":"@ + se_aconsts_arr(v.assoc_consts@) + ",\"assoc_types\":"@ + se_atys_arr(v.assoc_types@) + ",\"source\":"@ + se_ostr(v.source)
}

/// One segment of the object's spelling.
#[verifier::opaque]
pub open spec fn se_iimpl_part2(v: InherentImplDetails) -> Seq<char> {
    ",\"span\":"@ + se_ospan(v.span)
}

/// The spelling of one such object.
#[verifier::opaque]
pub open spec fn se_iimpl(v: InherentImplDetails) -> Seq<char> {
    se_iimpl_part0(v) + se_iimpl_part1(v) + se_iimpl_part2(v) + seq!['}']
}

/// The spelling of one such object.
#[verifier::opaque]
pub open spec fn se_tsum(v: TypeSummary) -> Seq<char> {
    "{\"name\":"@ + str_lit(v.name@) + ",\"path\":"@ + str_lit(v.path@) + ",\"kind\":"@ + se_type_kind(v.kind) + ",\"generics\":"@ + se_gps_arr(v.generics@) + seq!['}']
}

/// One segment of the object's spelling.
#[verifier::opaque]
pub open spec fn se_td_fields_part0(v: TypeDetails) -> Seq<char> {
    "\"name\":"@ + str_lit(v.name@) + ",\"path\":"@ + str_lit(v.path@) + ",\"kind\":"@ + se_type_kind(v.kind) + ",\"visibility\":"@ + se_vis(v.visibility)
}

/// One segment of the object's spelling.
#[verifier::opaque]
pub open spec fn se_td_fields_part1(v: TypeDetails) -> Seq<char> {
    ",\"generics\":"@ + se_gps_arr(v.generics@) + ",\"where_clause\":"@ + se_ostr(v.where_clause) + ",\"docs\":"@ + se_ostr(v.docs) + ",\"attributes\":"@ + se_strv_arr(v.attributes@)
}

/// One segment of the object's spelling.
#[verifier::opaque]
pub open spec fn se_td_fields_part2(v: TypeDetails) -> Seq<char> {
    ",\"fields\":"@ + se_ofields(v.fields) + ",\"variants\":"@ + se_ovariants(v.variants) + ",\"trait_impls\":"@ + se_strv_arr(v.trait_impls@) + ",\"inherent_methods\":"@ + se_msums_arr(v.inherent_methods@)
}

/// One segment of the object's spelling.
#[verifier::opaque]
pub open spec fn se_td_fields_part3(v: TypeDetails) -> Seq<char> {
    ",\"layout\":"@ + se_olayout(v.layout) + ",\"source\":"@ + se_ostr(v.source) + ",\"span\":"@ + se_ospan(v.span)
}

/// The spelling of one such object.
#[verifier::opaque]
pub open spec fn se_td_fields(v: TypeDetails) -> Seq<char> {
    se_td_fields_part0(v) + se_td_fields_part1(v) + se_td_fields_part2(v) + se_td_fields_part3(v)
}

/// One segment of the object's spelling.
#[verifier::opaque]
pub open spec fn se_tmethod_part0(v: TraitMethodInfo) -> Seq<char> {
    "{\"name\":"@ + str_lit(v.name@) + ",\"signature\":"@ + str_lit(v.signature@) + ",\"parsed_signature\":"@ + se_sig(v.parsed_signature) + ",\"has_default\":"@ + se_bool(v.has_default)
}

/// One segment of the object's spelling.
#[verifier::opaque]
pub open spec fn se_tmethod_part1(v: TraitMethodInfo) -> Seq<char> {
    ",\"default_body\":"@ + se_ostr(v.default_body) + ",\"is_unsafe\":"@ + se_bool(v.is_unsafe) + ",\"docs\":"@ + se_ostr(v.docs) + ",\"attributes\":"@ + se_strv_arr(v.attributes@)
}

/// One segment of the object's spelling.
#[verifier::opaque]
pub open spec fn se_tmethod_part2(v: TraitMethodInfo) -> Seq<char> {
    ",\"span\":"@ + se_ospan(v.span)
}

/// The spelling of one such object.
#[verifier::opaque]
pub open spec fn se_tmethod(v: TraitMethodInfo) -> Seq<char> {
    se_tmethod_part0(v) + se_tmethod_part1(v) + se_tmethod_part2(v) + seq!['}']
}

/// One segment of the object's spelling.
#[verifier::opaque]
pub open spec fn se_trd_fields_part0(v: TraitDetails) -> Seq<char> {
    "\"name\":"@ + str_lit(v.name@) + ",\"path\":"@ + str_lit(v.path@) + ",\"visibility\":"@ + se_vis(v.visibility) + ",\"generics\":"@ + se_gps_arr(v.generics@)
}

/// One segment of the object's spelling.
#[verifier::opaque]
pub open spec fn se_trd_fields_part1(v: TraitDetails) -> Seq<char> {
    ",\"where_clause\":"@ + se_ostr(v.where_clause) + ",\"is_auto\":"@ + se_bool(v.is_auto) + ",\"is_unsafe\":"@ + se_bool(v.is_unsafe) + ",\"supertraits\":"@ + se_strv_arr(v.supertraits@)
}

/// One segment of the object's spelling.
#[verifier::opaque]
pub open spec fn se_trd_fields_part2(v: TraitDetails) -> Seq<char> {
    ",\"methods\":"@ + se_tmethods_arr(v.methods@) + ",\"assoc_types\":"@ + se_atys_arr(v.assoc_types@) + ",\"assoc_consts\":"@ + se_aconsts_arr(v.assoc_consts@) + ",\"docs\":"@ + se_ostr(v.docs)
}

/// One segment of the object's spelling.
#[verifier::opaque]
pub open spec fn se_trd_fields_part3(v: TraitDetails) -> Seq<char> {
    ",\"attributes\":"@ + se_strv_arr(v.attributes@) + ",\"source\":"@ + se_ostr(v.source) + ",\"implementors\":"@ + se_strv_arr(v.implementors@) + ",\"span\":"@ + se_ospan(v.span)
}

/// The spelling of one such object.
#[verifier::opaque]
pub open spec fn se_trd_fields(v: TraitDetails) -> Seq<char> {
    se_trd_fields_part0(v) + se_trd_fields_part1(v) + se_trd_fields_part2(v) + se_trd_fields_part3(v)
}

/// One segment of the object's spelling.
#[verifier::opaque]
pub open spec fn se_tinfo_part0(v: TraitInfo) -> Seq<char> {
    "{\"name\":"@ + str_lit(v.name@) + ",\"path\":"@ + str_lit(v.path@) + ",\"generics\":"@ + se_gps_arr(v.generics@) + ",\"required_methods\":"@ + dec_u64(v.required_methods as int)
}

/// One segment of the object's spelling.
#[verifier::opaque]
pub open spec fn se_tinfo_part1(v: TraitInfo) -> Seq<char> {
    ",\"provided_methods\":"@ + dec_u64(v.provided_methods as int) + ",\"supertraits\":"@ + se_strv_arr(v.supertraits@)
}

/// The spelling of one such object.
#[verifier::opaque]
pub open spec fn se_tinfo(v: TraitInfo) -> Seq<char> {
    se_tinfo_part0(v) + se_tinfo_part1(v) + seq!['}']
}

/// The spelling of the first `j` elements, comma-separated.
pub open spec fn sl_strv(s: Seq<String>, j: int) -> Seq<char>
    decreases j,
    when 0 <= j <= s.len()
{
    if j <= 0 {
        Seq::empty()
    } else if j == 1 {
        str_lit(s[0]@)
    } else {
        sl_strv(s, j - 1) + seq![','] + str_lit(s[j - 1]@)
    }
}

/// The spelling of the whole array.
pub open spec fn se_strv_arr(s: Seq<String>) -> Seq<char> {
    seq!['['] + sl_strv(s, s.len() as int) + seq![']']
}

/// The spelling of the first `j` elements, comma-separated.
pub open spec fn sl_items(s: Seq<ItemInfo>, j: int) -> Seq<char>
    decreases j,
    when 0 <= j <= s.len()
{
    if j <= 0 {
        Seq::empty()
    } else if j == 1 {
        se_item(s[0])
    } else {
        sl_items(s, j - 1) + seq![','] + se_item(s[j - 1])
    }
}

/// The spelling of the whole array.
pub open spec fn se_items_arr(s: Seq<ItemInfo>) -> Seq<char> {
    seq!['['] + sl_items(s, s.len() as int) + seq![']']
}

/// The spelling of the first `j` elements, comma-separated.
pub open spec fn sl_gps(s: Seq<GenericParam>, j: int) -> Seq<char>
    decreases j,
    when 0 <= j <= s.len()
{
    if j <= 0 {
        Seq::empty()
    } else if j == 1 {
        se_gp(s[0])
    } else {
        sl_gps(s, j - 1) + seq![','] + se_gp(s[j - 1])
    }
}

/// The spelling of the whole array.
pub open spec fn se_gps_arr(s: Seq<GenericParam>) -> Seq<char> {
    seq!['['] + sl_gps(s, s.len() as int) + seq![']']
}

/// The spelling of the first `j` elements, comma-separated.
pub open spec fn sl_fields(s: Seq<FieldInfo>, j: int) -> Seq<char>
    decreases j,
    when 0 <= j <= s.len()
{
    if j <= 0 {
        Seq::empty()
    } else if j == 1 {
        se_field(s[0])
    } else {
        sl_fields(s, j - 1) + seq![','] + se_field(s[j - 1])
    }
}

/// The spelling of the whole array.
pub open spec fn se_fields_arr(s: Seq<FieldInfo>) -> Seq<char> {
    seq!['['] + sl_fields(s, s.len() as int) + seq![']']
}

/// The spelling of the first `j` elements, comma-separated.
pub open spec fn sl_variants(s: Seq<EnumVariantInfo>, j: int) -> Seq<char>
    decreases j,
    when 0 <= j <= s.len()
{
    if j <= 0 {
        Seq::empty()
    } else if j == 1 {
        se_variant(s[0])
    } else {
        sl_variants(s, j - 1) + seq![','] + se_variant(s[j - 1])
    }
}

/// The spelling of the whole array.
pub open spec fn se_variants_arr(s: Seq<EnumVariantInfo>) -> Seq<char> {
    seq!['['] + sl_variants(s, s.len() as int) + seq![']']
}

/// The spelling of the first `j` elements, comma-separated.
pub open spec fn sl_flis(s: Seq<FieldLayoutInfo>, j: int) -> Seq<char>
    decreases j,
    when 0 <= j <= s.len()
{
    if j <= 0 {
        Seq::empty()
    } else if j == 1 {
        se_fli(s[0])
    } else {
        sl_flis(s, j - 1) + seq![','] + se_fli(s[j - 1])
    }
}

/// The spelling of the whole array.
pub open spec fn se_flis_arr(s: Seq<FieldLayoutInfo>) -> Seq<char> {
    seq!['['] + sl_flis(s, s.len() as int) + seq![']']
}

/// The spelling of the first `j` elements, comma-separated.
pub open spec fn sl_vlis(s: Seq<VariantLayoutInfo>, j: int) -> Seq<char>
    decreases j,
    when 0 <= j <= s.len()
{
    if j <= 0 {
        Seq::empty()
    } else if j == 1 {
        se_vli(s[0])
    } else {
        sl_vlis(s, j - 1) + seq![','] + se_vli(s[j - 1])
    }
}

/// The spelling of the whole array.
pub open spec fn se_vlis_arr(s: Seq<VariantLayoutInfo>) -> Seq<char> {
    seq!['['] + sl_vlis(s, s.len() as int) + seq![']']
}

/// The spelling of the first `j` elements, comma-separated.
pub open spec fn sl_msums(s: Seq<MethodSummary>, j: int) -> Seq<char>
    decreases j,
    when 0 <= j <= s.len()
{
    if j <= 0 {
        Seq::empty()
    } else if j == 1 {
        se_msum(s[0])
    } else {
        sl_msums(s, j - 1) + seq![','] + se_msum(s[j - 1])
    }
}

/// The spelling of the whole array.
pub open spec fn se_msums_arr(s: Seq<MethodSummary>) -> Seq<char> {
    seq!['['] + sl_msums(s, s.len() as int) + seq![']']
}

/// The spelling of the first `j` elements, comma-separated.
pub open spec fn sl_params(s: Seq<ParamInfo>, j: int) -> Seq<char>
    decreases j,
    when 0 <= j <= s.len()
{
    if j <= 0 {
        Seq::empty()
    } else if j == 1 {
        se_param(s[0])
    } else {
        sl_params(s, j - 1) + seq![','] + se_param(s[j - 1])
    }
}

/// The spelling of the whole array.
pub open spec fn se_params_arr(s: Seq<ParamInfo>) -> Seq<char> {
    seq!['['] + sl_params(s, s.len() as int) + seq![']']
}

/// The spelling of the first `j` elements, comma-separated.
pub open spec fn sl_atys(s: Seq<AssocTypeInfo>, j: int) -> Seq<char>
    decreases j,
    when 0 <= j <= s.len()
{
    if j <= 0 {
        Seq::empty()
    } else if j == 1 {
        se_aty(s[0])
    } else {
        sl_atys(s, j - 1) + seq![','] + se_aty(s[j - 1])
    }
}

/// The spelling of the whole array.
pub open spec fn se_atys_arr(s: Seq<AssocTypeInfo>) -> Seq<char> {
    seq!['['] + sl_atys(s, s.len() as int) + seq![']']
}

/// The spelling of the first `j` elements, comma-separated.
pub open spec fn sl_aconsts(s: Seq<AssocConstInfo>, j: int) -> Seq<char>
    decreases j,
    when 0 <= j <= s.len()
{
    if j <= 0 {
        Seq::empty()
    } else if j == 1 {
        se_aconst(s[0])
    } else {
        sl_aconsts(s, j - 1) + seq![','] + se_aconst(s[j - 1])
    }
}

/// The spelling of the whole array.
pub open spec fn se_aconsts_arr(s: Seq<AssocConstInfo>) -> Seq<char> {
    seq!['['] + sl_aconsts(s, s.len() as int) + seq![']']
}

/// The spelling of the first `j` elements, comma-separated.
pub open spec fn sl_methods(s: Seq<MethodDetails>, j: int) -> Seq<char>
    decreases j,
    when 0 <= j <= s.len()
{
    if j <= 0 {
        Seq::empty()
    } else if j == 1 {
        se_method(s[0])
    } else {
        sl_methods(s, j - 1) + seq![','] + se_method(s[j - 1])
    }
}

/// The spelling of the whole array.
pub open spec fn se_methods_arr(s: Seq<MethodDetails>) -> Seq<char> {
    seq!['['] + sl_methods(s, s.len() as int) + seq![']']
}

/// The spelling of the first `j` elements, comma-separated.
pub open spec fn sl_tmethods(s: Seq<TraitMethodInfo>, j: int) -> Seq<char>
    decreases j,
    when 0 <= j <= s.len()
{
    if j <= 0 {
        Seq::empty()
    } else if j == 1 {
        se_tmethod(s[0])
    } else {
        sl_tmethods(s, j - 1) + seq![','] + se_tmethod(s[j - 1])
    }
}

/// The spelling of the whole array.
pub open spec fn se_tmethods_arr(s: Seq<TraitMethodInfo>) -> Seq<char> {
    seq!['['] + sl_tmethods(s, s.len() as int) + seq![']']
}

/// The spelling of the first `j` elements, comma-separated.
pub open spec fn sl_timpls(s: Seq<TraitImplDetails>, j: int) -> Seq<char>
    decreases j,
    when 0 <= j <= s.len()
{
    if j <= 0 {
        Seq::empty()
    } else if j == 1 {
        se_timpl(s[0])
    } else {
        sl_timpls(s, j - 1) + seq![','] + se_timpl(s[j - 1])
    }
}

/// The spelling of the whole array.
pub open spec fn se_timpls_arr(s: Seq<TraitImplDetails>) -> Seq<char> {
    seq!['['] + sl_timpls(s, s.len() as int) + seq![']']
}

/// The spelling of the first `j` elements, comma-separated.
pub open spec fn sl_iimpls(s: Seq<InherentImplDetails>, j: int) -> Seq<char>
    decreases j,
    when 0 <= j <= s.len()
{
    if j <= 0 {
        Seq::empty()
    } else if j == 1 {
        se_iimpl(s[0])
    } else {
        sl_iimpls(s, j - 1) + seq![','] + se_iimpl(s[j - 1])
    }
}

/// The spelling of the whole array.
pub open spec fn se_iimpls_arr(s: Seq<InherentImplDetails>) -> Seq<char> {
    seq!['['] + sl_iimpls(s, s.len() as int) + seq![']']
}

/// The spelling of the first `j` elements, comma-separated.
pub open spec fn sl_tinfos(s: Seq<TraitInfo>, j: int) -> Seq<char>
    decreases j,
    when 0 <= j <= s.len()
{
    if j <= 0 {
        Seq::empty()
    } else if j == 1 {
        se_tinfo(s[0])
    } else {
        sl_tinfos(s, j - 1) + seq![','] + se_tinfo(s[j - 1])
    }
}

/// The spelling of the whole array.
pub open spec fn se_tinfos_arr(s: Seq<TraitInfo>) -> Seq<char> {
    seq!['['] + sl_tinfos(s, s.len() as int) + seq![']']
}

/// The spelling of the first `j` elements, comma-separated.
pub open spec fn sl_summaries(s: Seq<TypeSummary>, j: int) -> Seq<char>
    decreases j,
    when 0 <= j <= s.len()
{
    if j <= 0 {
        Seq::empty()
    } else if j == 1 {
        se_tsum(s[0])
    } else {
        sl_summaries(s, j - 1) + seq![','] + se_tsum(s[j - 1])
    }
}

/// The spelling of the whole array.
pub open spec fn se_summaries_arr(s: Seq<TypeSummary>) -> Seq<char> {
    seq!['['] + sl_summaries(s, s.len() as int) + seq![']']
}

/// The spelling of the first `j` elements, comma-separated.
pub open spec fn sl_toks(s: Seq<Token>, j: int) -> Seq<char>
    decreases s, j,
    when 0 <= j <= s.len()
{
    if j <= 0 {
        Seq::empty()
    } else if j == 1 {
        se_token(s[0])
    } else {
        sl_toks(s, j - 1) + seq![','] + se_token(s[j - 1])
    }
}

/// The spelling of the whole array.
pub open spec fn se_toks_arr(s: Seq<Token>) -> Seq<char>
    decreases s, s.len() as int + 1,
{
    seq!['['] + sl_toks(s, s.len() as int) + seq![']']
}

/// The spelling of the first `j` elements, comma-separated.
pub open spec fn sl_arms(s: Seq<MatchArm>, j: int) -> Seq<char>
    decreases s, j,
    when 0 <= j <= s.len()
{
    if j <= 0 {
        Seq::empty()
    } else if j == 1 {
        se_arm(s[0])
    } else {
        sl_arms(s, j - 1) + seq![','] + se_arm(s[j - 1])
    }
}

/// The spelling of the whole array.
pub open spec fn se_arms_arr(s: Seq<MatchArm>) -> Seq<char>
    decreases s, s.len() as int + 1,
{
    seq!['['] + sl_arms(s, s.len() as int) + seq![']']
}

/// The spelling of an optional span.
pub open spec fn se_ospan(o: Option<SpanInfo>) -> Seq<char> {
    match o {
        Option::Some(sp) => se_span(sp),
        Option::None => "null"@,
    }
}

/// The spelling of an optional field list.
pub open spec fn se_ofields(o: Option<Vec<FieldInfo>>) -> Seq<char> {
    match o {
        Option::Some(v) => se_fields_arr(v@),
        Option::None => "null"@,
    }
}

/// The spelling of an optional variant list.
pub open spec fn se_ovariants(o: Option<Vec<EnumVariantInfo>>) -> Seq<char> {
    match o {
        Option::Some(v) => se_variants_arr(v@),
        Option::None => "null"@,
    }
}

/// The spelling of an optional field-layout list.
pub open spec fn se_oflis(o: Option<Vec<FieldLayoutInfo>>) -> Seq<char> {
    match o {
        Option::Some(v) => se_flis_arr(v@),
        Option::None => "null"@,
    }
}

/// The spelling of an optional variant-layout list.
pub open spec fn se_ovlis(o: Option<Vec<VariantLayoutInfo>>) -> Seq<char> {
    match o {
        Option::Some(v) => se_vlis_arr(v@),
        Option::None => "null"@,
    }
}

/// The spelling of an optional receiver.
pub open spec fn se_orecv(o: Option<ReceiverInfo>) -> Seq<char> {
    match o {
        Option::Some(v) => se_recv(v),
        Option::None => "null"@,
    }
}

/// The spelling of an optional layout object.
pub open spec fn se_olayout(o: Option<LayoutInfo>) -> Seq<char> {
    match o {
        Option::Some(l) => seq!['{'] + se_layout_fields(l) + seq!['}'],
        Option::None => "null"@,
    }
}

/// The spelling of an optional token list.
pub open spec fn se_otoks(o: Option<Vec<Token>>) -> Seq<char>
    decreases o,
{
    match o {
        Option::Some(v) => se_toks_arr(v@),
        Option::None => "null"@,
    }
}

/// The spelling of one body token.
pub open spec fn se_token(t: Token) -> Seq<char>
    decreases t, 0int,
{
    match t {
        Token::Ident { name } => "{\"token_type\":\"ident\",\"name\":"@ + str_lit(name@)
            + seq!['}'],
        Token::Literal { kind, value } => "{\"token_type\":\"literal\",\"kind\":"@
            + se_literal_kind(kind) + ",\"value\":"@ + str_lit(value@) + seq!['}'],
        Token::Punct { ch } => "{\"token_type\":\"punct\",\"ch\":\""@ + esc_char(ch)
            + "\"}"@,
        Token::Keyword { name } => "{\"token_type\":\"keyword\",\"name\":"@ + str_lit(name@)
            + seq!['}'],
        Token::Group { delimiter, tokens } => "{\"token_type\":\"group\",\"delimiter\":"@
            + se_delimiter(delimiter) + ",\"tokens\":"@ + se_toks_arr(tokens@) + seq!['}'],
        Token::Path { segments } => "{\"token_type\":\"path\",\"segments\":"@ + se_strv_arr(
            segments@,
        ) + seq!['}'],
        Token::MethodCall { receiver, method, args } => {
            "{\"token_type\":\"method_call\",\"receiver\":"@ + se_token(*receiver)
                + ",\"method\":"@ + str_lit(method@) + ",\"args\":"@ + se_toks_arr(args@)
                + seq!['}']
        },
        Token::FnCall { path, args } => "{\"token_type\":\"fn_call\",\"path\":"@
            + se_strv_arr(path@) + ",\"args\":"@ + se_toks_arr(args@) + seq!['}'],
        Token::FieldAccess { base, field } => "{\"token_type\":\"field_access\",\"base\":"@
            + se_token(*base) + ",\"field\":"@ + str_lit(field@) + seq!['}'],
        Token::BinOp { lhs, op, rhs } => "{\"token_type\":\"bin_op\",\"lhs\":"@ + se_token(
            *lhs,
        ) + ",\"op\":"@ + str_lit(op@) + ",\"rhs\":"@ + se_token(*rhs) + seq!['}'],
        Token::UnaryOp { op, expr } => "{\"token_type\":\"unary_op\",\"op\":"@ + str_lit(op@)
            + ",\"expr\":"@ + se_token(*expr) + seq!['}'],
        Token::If { cond, then_branch, else_branch } => {
            "{\"token_type\":\"if\",\"cond\":"@ + se_token(*cond) + ",\"then_branch\":"@
                + se_toks_arr(then_branch@) + ",\"else_branch\":"@ + se_otoks(else_branch)
                + seq!['}']
        },
        Token::Match { expr, arms } => "{\"token_type\":\"match\",\"expr\":"@ + se_token(
            *expr,
        ) + ",\"arms\":"@ + se_arms_arr(arms@) + seq!['}'],
        Token::Let { pattern, ty, init } => {
            "{\"token_type\":\"let\",\"pattern\":"@ + str_lit(pattern@) + ",\"ty\":"@
                + se_ostr(ty) + ",\"init\":"@ + (match init {
                Option::Some(e) => se_token(*e),
                Option::None => "null"@,
            }) + seq!['}']
        },
        Token::Return { expr } => "{\"token_type\":\"return\",\"expr\":"@ + (match expr {
            Option::Some(e) => se_token(*e),
            Option::None => "null"@,
        }) + seq!['}'],
        Token::Block { stmts } => "{\"token_type\":\"block\",\"stmts\":"@ + se_toks_arr(
            stmts@,
        ) + seq!['}'],
        Token::Closure { params, body } => "{\"token_type\":\"closure\",\"params\":"@
            + se_strv_arr(params@) + ",\"body\":"@ + se_token(*body) + seq!['}'],
        Token::Raw { source } => "{\"token_type\":\"raw\",\"source\":"@ + str_lit(source@)
            + seq!['}'],
    }
}

/// The spelling of one match arm.
pub open spec fn se_arm(a: MatchArm) -> Seq<char>
    decreases a, 0int,
{
    "{\"pattern\":"@ + str_lit(a.pattern@) + ",\"guard\":"@ + se_ostr(a.guard)
        + ",\"body\":"@ + se_toks_arr(a.body@) + seq!['}']
}

/// The spelling of a successful payload, as one tagged object.
pub open spec fn se_query_data(d: QueryData) -> Seq<char> {
    match d {
        QueryData::Items { items } => "{\"type\":\"items\",\"items\":"@ + se_items_arr(
            items@,
        ) + seq!['}'],
        QueryData::TypeInfo(td) => "{\"type\":\"type_info\","@ + se_td_fields(td) + seq!['}'],
        QueryData::TraitImpls { impls } => "{\"type\":\"trait_impls\",\"impls\":"@
            + se_timpls_arr(impls@) + seq!['}'],
        QueryData::InherentImpls { impls } => "{\"type\":\"inherent_impls\",\"impls\":"@
            + se_iimpls_arr(impls@) + seq!['}'],
        QueryData::Fields { fields } => "{\"type\":\"fields\",\"fields\":"@ + se_fields_arr(
            fields@,
        ) + seq!['}'],
        QueryData::Layout(l) => "{\"type\":\"layout\","@ + se_layout_fields(l) + seq!['}'],
        QueryData::Traits { traits } => "{\"type\":\"traits\",\"traits\":"@ + se_tinfos_arr(
            traits@,
        ) + seq!['}'],
        QueryData::TraitDetails(td) => "{\"type\":\"trait_details\","@ + se_trd_fields(td)
            + seq!['}'],
        QueryData::Types { types } => "{\"type\":\"types\",\"types\":"@ + se_summaries_arr(
            types@,
        ) + seq!['}'],
        QueryData::ResolvedType { original, resolved, chain } => {
            "{\"type\":\"resolved_type\",\"original\":"@ + str_lit(original@)
                + ",\"resolved\":"@ + str_lit(resolved@) + ",\"chain\":"@ + se_strv_arr(chain@)
                + seq!['}']
        },
        QueryData::ImplCheck { implements, impl_info } => {
            "{\"type\":\"impl_check\",\"implements\":"@ + se_bool(implements)
                + ",\"impl_info\":"@ + (match impl_info {
                Option::Some(t) => se_timpl(t),
                Option::None => "null"@,
            }) + seq!['}']
        },
        QueryData::Implementors { types } => "{\"type\":\"implementors\",\"types\":"@
            + se_summaries_arr(types@) + seq!['}'],
        QueryData::Pong => "{\"type\":\"pong\"}"@,
        QueryData::ShuttingDown => "{\"type\":\"shutting_down\"}"@,
    }
}

fn emit_bool(out: &mut Vec<char>, b: bool)
    ensures
        final(out)@ == old(out)@ + se_bool(b),
{
    if b {
        emit_raw(out, "true");
    } else {
        emit_raw(out, "false");
    }
}

fn emit_usize(out: &mut Vec<char>, n: usize)
    ensures
        final(out)@ == old(out)@ + dec_u64(n as int),
{
    emit_u64(out, n as u64);
}

fn emit_u32v(out: &mut Vec<char>, n: u32)
    ensures
        final(out)@ == old(out)@ + dec_u64(n as int),
{
    emit_u64(out, n as u64);
}

fn emit_u128v(out: &mut Vec<char>, n: u128)
    ensures
        final(out)@ == old(out)@ + dec_u64(n as int),
    decreases n,
{
    if n < 10 {
        emit_u64(out, n as u64);
    } else {
        emit_u128v(out, n / 10);
        emit_u64(out, (n % 10) as u64);
        proof {
            assert(dec_u64((n % 10) as int) == seq![crate::codec_prim::dec_digit((n % 10) as int)]);
            assert(out@ =~= old(out)@ + dec_u64(n as int));
        }
    }
}

fn emit_i128v(out: &mut Vec<char>, n: i128)
    ensures
        final(out)@ == old(out)@ + se_i128(n as int),
{
    if n < 0 {
        out.push('-');
        let m: u128 = ((-(n + 1)) as u128) + 1;
        proof {
            assert(m as int == -(n as int));
        }
        emit_u128v(out, m);
        proof {
            assert(out@ =~= old(out)@ + se_i128(n as int));
        }
    } else {
        emit_u128v(out, n as u128);
    }
}

fn emit_opt_str(out: &mut Vec<char>, o: &Option<String>)
    ensures
        final(out)@ == old(out)@ + se_ostr(*o),
{
    match o {
        Some(s) => emit_str_lit(out, s.as_str()),
        None => emit_raw(out, "null"),
    }
}

fn emit_opt_usize(out: &mut Vec<char>, o: &Option<usize>)
    ensures
        final(out)@ == old(out)@ + se_ousize(*o),
{
    match o {
        Some(n) => emit_usize(out, *n),
        None => emit_raw(out, "null"),
    }
}

fn emit_opt_i128(out: &mut Vec<char>, o: &Option<i128>)
    ensures
        final(out)@ == old(out)@ + se_oi128(*o),
{
    match o {
        Some(n) => emit_i128v(out, *n),
        None => emit_raw(out, "null"),
    }
}

fn emit_opt_span(out: &mut Vec<char>, o: &Option<SpanInfo>)
    ensures
        final(out)@ == old(out)@ + se_ospan(*o),
{
    match o {
        Some(sp) => emit_span(out, sp),
        None => emit_raw(out, "null"),
    }
}

fn emit_opt_fields(out: &mut Vec<char>, o: &Option<Vec<FieldInfo>>)
    ensures
        final(out)@ == old(out)@ + se_ofields(*o),
{
    match o {
        Some(v) => emit_fields(out, v),
        None => emit_raw(out, "null"),
    }
}

fn emit_opt_variants(out: &mut Vec<char>, o: &Option<Vec<EnumVariantInfo>>)
    ensures
        final(out)@ == old(out)@ + se_ovariants(*o),
{
    match o {
        Some(v) => emit_variants(out, v),
        None => emit_raw(out, "null"),
    }
}

fn emit_opt_flis(out: &mut Vec<char>, o: &Option<Vec<FieldLayoutInfo>>)
    ensures
        final(out)@ == old(out)@ + se_oflis(*o),
{
    match o {
        Some(v) => emit_flis(out, v),
        None => emit_raw(out, "null"),
    }
}

fn emit_opt_vlis(out: &mut Vec<char>, o: &Option<Vec<VariantLayoutInfo>>)
    ensures
        final(out)@ == old(out)@ + se_ovlis(*o),
{
    match o {
        Some(v) => emit_vlis(out, v),
        None => emit_raw(out, "null"),
    }
}

fn emit_opt_recv(out: &mut Vec<char>, o: &Option<ReceiverInfo>)
    ensures
        final(out)@ == old(out)@ + se_orecv(*o),
{
    match o {
        Some(v) => emit_recv(out, v),
        None => emit_raw(out, "null"),
    }
}

fn emit_opt_layout(out: &mut Vec<char>, o: &Option<LayoutInfo>)
    ensures
        final(out)@ == old(out)@ + se_olayout(*o),
{
    match o {
        Some(l) => {
            out.push('{');
            emit_layout_fields(out, l);
            out.push('}');
            proof {
                assert(out@ =~= old(out)@ + se_olayout(*o));
            }
        },
        None => emit_raw(out, "null"),
    }
}

fn emit_opt_tokens(out: &mut Vec<char>, o: &Option<Vec<Token>>)
    ensures
        final(out)@ == old(out)@ + se_otoks(*o),
    decreases o,
{
    match o {
        Some(v) => emit_tokens(out, v),
        None => emit_raw(out, "null"),
    }
}

fn emit_visibility(out: &mut Vec<char>, v: &Visibility)
    ensures
        final(out)@ == old(out)@ + se_vis(*v),
{
    match v {
        Visibility::Public => emit_raw(out, "\"public\""),
        Visibility::Crate => emit_raw(out, "\"crate\""),
        Visibility::Restricted { path } => {
            emit_raw(out, "{\"restricted\":{\"path\":");
            emit_str_lit(out, path.as_str());
            emit_raw(out, "}}");
            proof {
                assert(out@ =~= old(out)@ + se_vis(*v));
            }
        },
        Visibility::Private => emit_raw(out, "\"private\""),
    }
}

fn emit_item_kind(out: &mut Vec<char>, k: &ItemKind)
    ensures
        final(out)@ == old(out)@ + se_item_kind(*k),
{
    match k {
        ItemKind::Struct => emit_raw(out, "\"struct\""),
        ItemKind::Enum => emit_raw(out, "\"enum\""),
        ItemKind::Union => emit_raw(out, "\"union\""),
        ItemKind::Trait => emit_raw(out, "\"trait\""),
        ItemKind::Function => emit_raw(out, "\"function\""),
        ItemKind::Const => emit_raw(out, "\"const\""),
        ItemKind::Static => emit_raw(out, "\"static\""),
        ItemKind::TypeAlias => emit_raw(out, "\"type_alias\""),
        ItemKind::Impl => emit_raw(out, "\"impl\""),
        ItemKind::Mod => emit_raw(out, "\"mod\""),
        ItemKind::Use => emit_raw(out, "\"use\""),
        ItemKind::ExternCrate => {
            emit_raw(out, "\"exte");
            emit_raw(out, "rn_crate\"");
            proof {
                assert(out@ =~= old(out)@ + se_item_kind(*k));
            }
        },
        ItemKind::Macro => emit_raw(out, "\"macro\""),
        ItemKind::TraitAlias => emit_raw(out, "\"trait_alias\""),
        ItemKind::Other(s) => {
            emit_raw(out, "{\"other\":");
            emit_str_lit(out, s.as_str());
            out.push('}');
            proof {
                assert(out@ =~= old(out)@ + se_item_kind(*k));
            }
        },
    }
}

fn emit_type_kind(out: &mut Vec<char>, k: &TypeKind)
    ensures
        final(out)@ == old(out)@ + se_type_kind(*k),
{
    match k {
        TypeKind::Struct => emit_raw(out, "\"struct\""),
        TypeKind::Enum => emit_raw(out, "\"enum\""),
        TypeKind::Union => emit_raw(out, "\"union\""),
        TypeKind::Trait => emit_raw(out, "\"trait\""),
        TypeKind::TypeAlias => emit_raw(out, "\"type_alias\""),
        TypeKind::Primitive => emit_raw(out, "\"primitive\""),
        TypeKind::Tuple => emit_raw(out, "\"tuple\""),
        TypeKind::Array => emit_raw(out, "\"array\""),
        TypeKind::Slice => emit_raw(out, "\"slice\""),
        TypeKind::Reference => emit_raw(out, "\"reference\""),
        TypeKind::Pointer => emit_raw(out, "\"pointer\""),
        TypeKind::Function => emit_raw(out, "\"function\""),
        TypeKind::Closure => emit_raw(out, "\"closure\""),
        TypeKind::Opaque => emit_raw(out, "\"opaque\""),
    }
}

fn emit_gpk(out: &mut Vec<char>, k: &GenericParamKind)
    ensures
        final(out)@ == old(out)@ + se_gpk(*k),
{
    match k {
        GenericParamKind::Lifetime => emit_raw(out, "\"lifetime\""),
        GenericParamKind::Type => emit_raw(out, "\"type\""),
        GenericParamKind::Const { ty } => {
            emit_raw(out, "{\"const\":{\"ty\":");
            emit_str_lit(out, ty.as_str());
            emit_raw(out, "}}");
            proof {
                assert(out@ =~= old(out)@ + se_gpk(*k));
            }
        },
    }
}

fn emit_delimiter(out: &mut Vec<char>, d: &Delimiter)
    ensures
        final(out)@ == old(out)@ + se_delimiter(*d),
{
    match d {
        Delimiter::Paren => emit_raw(out, "\"paren\""),
        Delimiter::Bracket => emit_raw(out, "\"bracket\""),
        Delimiter::Brace => emit_raw(out, "\"brace\""),
        Delimiter::Invisible => emit_raw(out, "\"none\""),
    }
}

fn emit_literal_kind(out: &mut Vec<char>, k: &LiteralKind)
    ensures
        final(out)@ == old(out)@ + se_literal_kind(*k),
{
    match k {
        LiteralKind::String => emit_raw(out, "\"string\""),
        LiteralKind::ByteString => emit_raw(out, "\"byte_string\""),
        LiteralKind::Char => emit_raw(out, "\"char\""),
        LiteralKind::Byte => emit_raw(out, "\"byte\""),
        LiteralKind::Int => emit_raw(out, "\"int\""),
        LiteralKind::Float => emit_raw(out, "\"float\""),
        LiteralKind::Bool => emit_raw(out, "\"bool\""),
    }
}























#[verifier::rlimit(100)]
#[verifier::spinoff_prover]
fn emit_span_part0(out: &mut Vec<char>, v: &SpanInfo)
    ensures
        final(out)@ == old(out)@ + se_span_part0(*v),
{
    emit_raw(out, "{\"file\":");
    emit_str_lit(out, v.file.as_str());
    emit_raw(out, ",\"start_line\":");
    emit_u32v(out, v.start_line);
    emit_raw(out, ",\"start_col\":");
    emit_u32v(out, v.start_col);
    emit_raw(out, ",\"end_line\":");
    emit_u32v(out, v.end_line);
    proof {
        reveal(se_span_part0);
        assert(out@ =~= old(out)@ + se_span_part0(*v));
    }
}

#[verifier::rlimit(100)]
#[verifier::spinoff_prover]
fn emit_span_part1(out: &mut Vec<char>, v: &SpanInfo)
    ensures
        final(out)@ == old(out)@ + se_span_part1(*v),
{
    emit_raw(out, ",\"end_col\":");
    emit_u32v(out, v.end_col);
    proof {
        reveal(se_span_part1);
        assert(out@ =~= old(out)@ + se_span_part1(*v));
    }
}

fn emit_span(out: &mut Vec<char>, v: &SpanInfo)
    ensures
        final(out)@ == old(out)@ + se_span(*v),
{
    emit_span_part0(out, v);
    emit_span_part1(out, v);
    out.push('}');
    proof {
        reveal(se_span);
        assert(out@ =~= old(out)@ + se_span(*v));
    }
}

#[verifier::rlimit(100)]
#[verifier::spinoff_prover]
fn emit_item_info_part0(out: &mut Vec<char>, v: &ItemInfo)
    ensures
        final(out)@ == old(out)@ + se_item_part0(*v),
{
    emit_raw(out, "{\"name\":");
    emit_str_lit(out, v.name.as_str());
    emit_raw(out, ",\"path\":");
    emit_str_lit(out, v.path.as_str());
    emit_raw(out, ",\"kind\":");
    emit_item_kind(out, &v.kind);
    emit_raw(out, ",\"visibility\":");
    emit_visibility(out, &v.visibility);
    proof {
        reveal(se_item_part0);
        assert(out@ =~= old(out)@ + se_item_part0(*v));
    }
}

#[verifier::rlimit(100)]
#[verifier::spinoff_prover]
fn emit_item_info_part1(out: &mut Vec<char>, v: &ItemInfo)
    ensures
        final(out)@ == old(out)@ + se_item_part1(*v),
{
    emit_raw(out, ",\"span\":");
    emit_opt_span(out, &v.span);
    proof {
        reveal(se_item_part1);
        assert(out@ =~= old(out)@ + se_item_part1(*v));
    }
}

fn emit_item_info(out: &mut Vec<char>, v: &ItemInfo)
    ensures
        final(out)@ == old(out)@ + se_item(*v),
{
    emit_item_info_part0(out, v);
    emit_item_info_part1(out, v);
    out.push('}');
    proof {
        reveal(se_item);
        assert(out@ =~= old(out)@ + se_item(*v));
    }
}

#[verifier::rlimit(100)]
#[verifier::spinoff_prover]
fn emit_gp(out: &mut Vec<char>, v: &GenericParam)
    ensures
        final(out)@ == old(out)@ + se_gp(*v),
{
    emit_raw(out, "{\"name\":");
    emit_str_lit(out, v.name.as_str());
    emit_raw(out, ",\"kind\":");
    emit_gpk(out, &v.kind);
    emit_raw(out, ",\"bounds\":");
    emit_str_vec(out, &v.bounds);
    emit_raw(out, ",\"default\":");
    emit_opt_str(out, &v.default);
    out.push('}');
    proof {
        reveal(se_gp);
        assert(out@ =~= old(out)@ + se_gp(*v));
    }
}

#[verifier::rlimit(100)]
#[verifier::spinoff_prover]
fn emit_field_info_part0(out: &mut Vec<char>, v: &FieldInfo)
    ensures
        final(out)@ == old(out)@ + se_field_part0(*v),
{
    emit_raw(out, "{\"name\":");
    emit_opt_str(out, &v.name);
    emit_raw(out, ",\"index\":");
    emit_usize(out, v.index);
    emit_raw(out, ",\"ty\":");
    emit_str_lit(out, v.ty.as_str());
    emit_raw(out, ",\"resolved_ty\":");
    emit_opt_str(out, &v.resolved_ty);
    proof {
        reveal(se_field_part0);
        assert(out@ =~= old(out)@ + se_field_part0(*v));
    }
}

#[verifier::rlimit(100)]
#[verifier::spinoff_prover]
fn emit_field_info_part1(out: &mut Vec<char>, v: &FieldInfo)
    ensures
        final(out)@ == old(out)@ + se_field_part1(*v),
{
    emit_raw(out, ",\"visibility\":");
    emit_visibility(out, &v.visibility);
    emit_raw(out, ",\"docs\":");
    emit_opt_str(out, &v.docs);
    emit_raw(out, ",\"attributes\":");
    emit_str_vec(out, &v.attributes);
    emit_raw(out, ",\"offset\":");
    emit_opt_usize(out, &v.offset);
    proof {
        reveal(se_field_part1);
        assert(out@ =~= old(out)@ + se_field_part1(*v));
    }
}

#[verifier::rlimit(100)]
#[verifier::spinoff_prover]
fn emit_field_info_part2(out: &mut Vec<char>, v: &FieldInfo)
    ensures
        final(out)@ == old(out)@ + se_field_part2(*v),
{
    emit_raw(out, ",\"size\":");
    emit_opt_usize(out, &v.size);
    emit_raw(out, ",\"span\":");
    emit_opt_span(out, &v.span);
    proof {
        reveal(se_field_part2);
        assert(out@ =~= old(out)@ + se_field_part2(*v));
    }
}

fn emit_field_info(out: &mut Vec<char>, v: &FieldInfo)
    ensures
        final(out)@ == old(out)@ + se_field(*v),
{
    emit_field_info_part0(out, v);
    emit_field_info_part1(out, v);
    emit_field_info_part2(out, v);
    out.push('}');
    proof {
        reveal(se_field);
        assert(out@ =~= old(out)@ + se_field(*v));
    }
}

#[verifier::rlimit(100)]
#[verifier::spinoff_prover]
fn emit_variant_part0(out: &mut Vec<char>, v: &EnumVariantInfo)
    ensures
        final(out)@ == old(out)@ + se_variant_part0(*v),
{
    emit_raw(out, "{\"name\":");
    emit_str_lit(out, v.name.as_str());
    emit_raw(out, ",\"index\":");
    emit_usize(out, v.index);
    emit_raw(out, ",\"fields\":");
    emit_fields(out, &v.fields);
    emit_raw(out, ",\"discriminant\":");
    emit_opt_str(out, &v.discriminant);
    proof {
        reveal(se_variant_part0);
        assert(out@ =~= old(out)@ + se_variant_part0(*v));
    }
}

#[verifier::rlimit(100)]
#[verifier::spinoff_prover]
fn emit_variant_part1(out: &mut Vec<char>, v: &EnumVariantInfo)
    ensures
        final(out)@ == old(out)@ + se_variant_part1(*v),
{
    emit_raw(out, ",\"docs\":");
    emit_opt_str(out, &v.docs);
    emit_raw(out, ",\"attributes\":");
    emit_str_vec(out, &v.attributes);
    emit_raw(out, ",\"span\":");
    emit_opt_span(out, &v.span);
    proof {
        reveal(se_variant_part1);
        assert(out@ =~= old(out)@ + se_variant_part1(*v));
    }
}

fn emit_variant(out: &mut Vec<char>, v: &EnumVariantInfo)
    ensures
        final(out)@ == old(out)@ + se_variant(*v),
{
    emit_variant_part0(out, v);
    emit_variant_part1(out, v);
    out.push('}');
    proof {
        reveal(se_variant);
        assert(out@ =~= old(out)@ + se_variant(*v));
    }
}

#[verifier::rlimit(100)]
#[verifier::spinoff_prover]
fn emit_fli(out: &mut Vec<char>, v: &FieldLayoutInfo)
    ensures
        final(out)@ == old(out)@ + se_fli(*v),
{
    emit_raw(out, "{\"name\":");
    emit_opt_str(out, &v.name);
    emit_raw(out, ",\"index\":");
    emit_usize(out, v.index);
    emit_raw(out, ",\"offset\":");
    emit_usize(out, v.offset);
    emit_raw(out, ",\"size\":");
    emit_usize(out, v.size);
    out.push('}');
    proof {
        reveal(se_fli);
        assert(out@ =~= old(out)@ + se_fli(*v));
    }
}

#[verifier::rlimit(100)]
#[verifier::spinoff_prover]
fn emit_vli(out: &mut Vec<char>, v: &VariantLayoutInfo)
    ensures
        final(out)@ == old(out)@ + se_vli(*v),
{
    emit_raw(out, "{\"name\":");
    emit_str_lit(out, v.name.as_str());
    emit_raw(out, ",\"discriminant\":");
    emit_opt_i128(out, &v.discriminant);
    emit_raw(out, ",\"fields\":");
    emit_flis(out, &v.fields);
    out.push('}');
    proof {
        reveal(se_vli);
        assert(out@ =~= old(out)@ + se_vli(*v));
    }
}

#[verifier::rlimit(100)]
#[verifier::spinoff_prover]
fn emit_layout_fields_part0(out: &mut Vec<char>, v: &LayoutInfo)
    ensures
        final(out)@ == old(out)@ + se_layout_fields_part0(*v),
{
    emit_raw(out, "\"size\":");
    emit_usize(out, v.size);
    emit_raw(out, ",\"align\":");
    emit_usize(out, v.align);
    emit_raw(out, ",\"field_offsets\":");
    emit_opt_flis(out, &v.field_offsets);
    emit_raw(out, ",\"variants\":");
    emit_opt_vlis(out, &v.variants);
    proof {
        reveal(se_layout_fields_part0);
        assert(out@ =~= old(out)@ + se_layout_fields_part0(*v));
    }
}

#[verifier::rlimit(100)]
#[verifier::spinoff_prover]
fn emit_layout_fields_part1(out: &mut Vec<char>, v: &LayoutInfo)
    ensures
        final(out)@ == old(out)@ + se_layout_fields_part1(*v),
{
    emit_raw(out, ",\"is_sized\":");
    emit_bool(out, v.is_sized);
    emit_raw(out, ",\"is_copy\":");
    emit_bool(out, v.is_copy);
    emit_raw(out, ",\"is_send\":");
    emit_bool(out, v.is_send);
    emit_raw(out, ",\"is_sync\":");
    emit_bool(out, v.is_sync);
    proof {
        reveal(se_layout_fields_part1);
        assert(out@ =~= old(out)@ + se_layout_fields_part1(*v));
    }
}

fn emit_layout_fields(out: &mut Vec<char>, v: &LayoutInfo)
    ensures
        final(out)@ == old(out)@ + se_layout_fields(*v),
{
    emit_layout_fields_part0(out, v);
    emit_layout_fields_part1(out, v);
    proof {
        reveal(se_layout_fields);
        assert(out@ =~= old(out)@ + se_layout_fields(*v));
    }
}

#[verifier::rlimit(100)]
#[verifier::spinoff_prover]
fn emit_msum_part0(out: &mut Vec<char>, v: &MethodSummary)
    ensures
        final(out)@ == old(out)@ + se_msum_part0(*v),
{
    emit_raw(out, "{\"name\":");
    emit_str_lit(out, v.name.as_str());
    emit_raw(out, ",\"path\":");
    emit_str_lit(out, v.path.as_str());
    emit_raw(out, ",\"signature\":");
    emit_str_lit(out, v.signature.as_str());
    emit_raw(out, ",\"is_unsafe\":");
    emit_bool(out, v.is_unsafe);
    proof {
        reveal(se_msum_part0);
        assert(out@ =~= old(out)@ + se_msum_part0(*v));
    }
}

#[verifier::rlimit(100)]
#[verifier::spinoff_prover]
fn emit_msum_part1(out: &mut Vec<char>, v: &MethodSummary)
    ensures
        final(out)@ == old(out)@ + se_msum_part1(*v),
{
    emit_raw(out, ",\"is_const\":");
    emit_bool(out, v.is_const);
    emit_raw(out, ",\"is_async\":");
    emit_bool(out, v.is_async);
    proof {
        reveal(se_msum_part1);
        assert(out@ =~= old(out)@ + se_msum_part1(*v));
    }
}

fn emit_msum(out: &mut Vec<char>, v: &MethodSummary)
    ensures
        final(out)@ == old(out)@ + se_msum(*v),
{
    emit_msum_part0(out, v);
    emit_msum_part1(out, v);
    out.push('}');
    proof {
        reveal(se_msum);
        assert(out@ =~= old(out)@ + se_msum(*v));
    }
}

#[verifier::rlimit(100)]
#[verifier::spinoff_prover]
fn emit_recv(out: &mut Vec<char>, v: &ReceiverInfo)
    ensures
        final(out)@ == old(out)@ + se_recv(*v),
{
    emit_raw(out, "{\"kind\":");
    emit_str_lit(out, v.kind.as_str());
    emit_raw(out, ",\"is_mut\":");
    emit_bool(out, v.is_mut);
    emit_raw(out, ",\"is_ref\":");
    emit_bool(out, v.is_ref);
    emit_raw(out, ",\"lifetime\":");
    emit_opt_str(out, &v.lifetime);
    out.push('}');
    proof {
        reveal(se_recv);
        assert(out@ =~= old(out)@ + se_recv(*v));
    }
}

#[verifier::rlimit(100)]
#[verifier::spinoff_prover]
fn emit_param(out: &mut Vec<char>, v: &ParamInfo)
    ensures
        final(out)@ == old(out)@ + se_param(*v),
{
    emit_raw(out, "{\"name\":");
    emit_str_lit(out, v.name.as_str());
    emit_raw(out, ",\"ty\":");
    emit_str_lit(out, v.ty.as_str());
    emit_raw(out, ",\"is_mut\":");
    emit_bool(out, v.is_mut);
    out.push('}');
    proof {
        reveal(se_param);
        assert(out@ =~= old(out)@ + se_param(*v));
    }
}

#[verifier::rlimit(100)]
#[verifier::spinoff_prover]
fn emit_sig_part0(out: &mut Vec<char>, v: &FunctionSignature)
    ensures
        final(out)@ == old(out)@ + se_sig_part0(*v),
{
    emit_raw(out, "{\"receiver\":");
    emit_opt_recv(out, &v.receiver);
    emit_raw(out, ",\"params\":");
    emit_params(out, &v.params);
    emit_raw(out, ",\"return_ty\":");
    emit_opt_str(out, &v.return_ty);
    emit_raw(out, ",\"generics\":");
    emit_gps(out, &v.generics);
    proof {
        reveal(se_sig_part0);
        assert(out@ =~= old(out)@ + se_sig_part0(*v));
    }
}

#[verifier::rlimit(100)]
#[verifier::spinoff_prover]
fn emit_sig_part1(out: &mut Vec<char>, v: &FunctionSignature)
    ensures
        final(out)@ == old(out)@ + se_sig_part1(*v),
{
    emit_raw(out, ",\"where_clause\":");
    emit_opt_str(out, &v.where_clause);
    proof {
        reveal(se_sig_part1);
        assert(out@ =~= old(out)@ + se_sig_part1(*v));
    }
}

fn emit_sig(out: &mut Vec<char>, v: &FunctionSignature)
    ensures
        final(out)@ == old(out)@ + se_sig(*v),
{
    emit_sig_part0(out, v);
    emit_sig_part1(out, v);
    out.push('}');
    proof {
        reveal(se_sig);
        assert(out@ =~= old(out)@ + se_sig(*v));
    }
}

#[verifier::rlimit(100)]
#[verifier::spinoff_prover]
fn emit_assoc_ty_part0(out: &mut Vec<char>, v: &AssocTypeInfo)
    ensures
        final(out)@ == old(out)@ + se_aty_part0(*v),
{
    emit_raw(out, "{\"name\":");
    emit_str_lit(out, v.name.as_str());
    emit_raw(out, ",\"ty\":");
    emit_opt_str(out, &v.ty);
    emit_raw(out, ",\"bounds\":");
    emit_str_vec(out, &v.bounds);
    emit_raw(out, ",\"default\":");
    emit_opt_str(out, &v.default);
    proof {
        reveal(se_aty_part0);
        assert(out@ =~= old(out)@ + se_aty_part0(*v));
    }
}

#[verifier::rlimit(100)]
#[verifier::spinoff_prover]
fn emit_assoc_ty_part1(out: &mut Vec<char>, v: &AssocTypeInfo)
    ensures
        final(out)@ == old(out)@ + se_aty_part1(*v),
{
    emit_raw(out, ",\"docs\":");
    emit_opt_str(out, &v.docs);
    emit_raw(out, ",\"span\":");
    emit_opt_span(out, &v.span);
    proof {
        reveal(se_aty_part1);
        assert(out@ =~= old(out)@ + se_aty_part1(*v));
    }
}

fn emit_assoc_ty(out: &mut Vec<char>, v: &AssocTypeInfo)
    ensures
        final(out)@ == old(out)@ + se_aty(*v),
{
    emit_assoc_ty_part0(out, v);
    emit_assoc_ty_part1(out, v);
    out.push('}');
    proof {
        reveal(se_aty);
        assert(out@ =~= old(out)@ + se_aty(*v));
    }
}

#[verifier::rlimit(100)]
#[verifier::spinoff_prover]
fn emit_assoc_const_part0(out: &mut Vec<char>, v: &AssocConstInfo)
    ensures
        final(out)@ == old(out)@ + se_aconst_part0(*v),
{
    emit_raw(out, "{\"name\":");
    emit_str_lit(out, v.name.as_str());
    emit_raw(out, ",\"ty\":");
    emit_str_lit(out, v.ty.as_str());
    emit_raw(out, ",\"value\":");
    emit_opt_str(out, &v.value);
    emit_raw(out, ",\"docs\":");
    emit_opt_str(out, &v.docs);
    proof {
        reveal(se_aconst_part0);
        assert(out@ =~= old(out)@ + se_aconst_part0(*v));
    }
}

#[verifier::rlimit(100)]
#[verifier::spinoff_prover]
fn emit_assoc_const_part1(out: &mut Vec<char>, v: &AssocConstInfo)
    ensures
        final(out)@ == old(out)@ + se_aconst_part1(*v),
{
    emit_raw(out, ",\"span\":");
    emit_opt_span(out, &v.span);
    proof {
        reveal(se_aconst_part1);
        assert(out@ =~= old(out)@ + se_aconst_part1(*v));
    }
}

fn emit_assoc_const(out: &mut Vec<char>, v: &AssocConstInfo)
    ensures
        final(out)@ == old(out)@ + se_aconst(*v),
{
    emit_assoc_const_part0(out, v);
    emit_assoc_const_part1(out, v);
    out.push('}');
    proof {
        reveal(se_aconst);
        assert(out@ =~= old(out)@ + se_aconst(*v));
    }
}

#[verifier::rlimit(100)]
#[verifier::spinoff_prover]
fn emit_method_part0(out: &mut Vec<char>, v: &MethodDetails)
    ensures
        final(out)@ == old(out)@ + se_method_part0(*v),
{
    emit_raw(out, "{\"name\":");
    emit_str_lit(out, v.name.as_str());
    emit_raw(out, ",\"path\":");
    emit_str_lit(out, v.path.as_str());
    emit_raw(out, ",\"signature\":");
    emit_str_lit(out, v.signature.as_str());
    emit_raw(out, ",\"parsed_signature\":");
    emit_sig(out, &v.parsed_signature);
    proof {
        reveal(se_method_part0);
        assert(out@ =~= old(out)@ + se_method_part0(*v));
    }
}

#[verifier::rlimit(100)]
#[verifier::spinoff_prover]
fn emit_method_part1(out: &mut Vec<char>, v: &MethodDetails)
    ensures
        final(out)@ == old(out)@ + se_method_part1(*v),
{
    emit_raw(out, ",\"has_body\":");
    emit_bool(out, v.has_body);
    emit_raw(out, ",\"body_source\":");
    emit_opt_str(out, &v.body_source);
    emit_raw(out, ",\"body_tokens\":");
    emit_opt_tokens(out, &v.body_tokens);
    emit_raw(out, ",\"is_unsafe\":");
    emit_bool(out, v.is_unsafe);
    proof {
        reveal(se_method_part1);
        assert(out@ =~= old(out)@ + se_method_part1(*v));
    }
}

#[verifier::rlimit(100)]
#[verifier::spinoff_prover]
fn emit_method_part2(out: &mut Vec<char>, v: &MethodDetails)
    ensures
        final(out)@ == old(out)@ + se_method_part2(*v),
{
    emit_raw(out, ",\"is_const\":");
    emit_bool(out, v.is_const);
    emit_raw(out, ",\"is_async\":");
    emit_bool(out, v.is_async);
    emit_raw(out, ",\"docs\":");
    emit_opt_str(out, &v.docs);
    emit_raw(out, ",\"attributes\":");
    emit_str_vec(out, &v.attributes);
    proof {
        reveal(se_method_part2);
        assert(out@ =~= old(out)@ + se_method_part2(*v));
    }
}

#[verifier::rlimit(100)]
#[verifier::spinoff_prover]
fn emit_method_part3(out: &mut Vec<char>, v: &MethodDetails)
    ensures
        final(out)@ == old(out)@ + se_method_part3(*v),
{
    emit_raw(out, ",\"span\":");
    emit_opt_span(out, &v.span);
    proof {
        reveal(se_method_part3);
        assert(out@ =~= old(out)@ + se_method_part3(*v));
    }
}

fn emit_method(out: &mut Vec<char>, v: &MethodDetails)
    ensures
        final(out)@ == old(out)@ + se_method(*v),
{
    emit_method_part0(out, v);
    emit_method_part1(out, v);
    emit_method_part2(out, v);
    emit_method_part3(out, v);
    out.push('}');
    proof {
        reveal(se_method);
        assert(out@ =~= old(out)@ + se_method(*v));
    }
}

#[verifier::rlimit(100)]
#[verifier::spinoff_prover]
fn emit_trait_impl_part0(out: &mut Vec<char>, v: &TraitImplDetails)
    ensures
        final(out)@ == old(out)@ + se_timpl_part0(*v),
{
    emit_raw(out, "{\"self_ty\":");
    emit_str_lit(out, v.self_ty.as_str());
    emit_raw(out, ",\"trait_path\":");
    emit_str_lit(out, v.trait_path.as_str());
    emit_raw(out, ",\"generics\":");
    emit_gps(out, &v.generics);
    emit_raw(out, ",\"where_clause\":");
    emit_opt_str(out, &v.where_clause);
    proof {
        reveal(se_timpl_part0);
        assert(out@ =~= old(out)@ + se_timpl_part0(*v));
    }
}

#[verifier::rlimit(100)]
#[verifier::spinoff_prover]
fn emit_trait_impl_part1(out: &mut Vec<char>, v: &TraitImplDetails)
    ensures
        final(out)@ == old(out)@ + se_timpl_part1(*v),
{
    emit_raw(out, ",\"is_negative\":");
    emit_bool(out, v.is_negative);
    emit_raw(out, ",\"is_unsafe\":");
    emit_bool(out, v.is_unsafe);
    emit_raw(out, ",\"methods\":");
    emit_methods(out, &v.methods);
    emit_raw(out, ",\"assoc_types\":");
    emit_assoc_tys(out, &v.assoc_types);
    proof {
        reveal(se_timpl_part1);
        assert(out@ =~= old(out)@ + se_timpl_part1(*v));
    }
}

#[verifier::rlimit(100)]
#[verifier::spinoff_prover]
fn emit_trait_impl_part2(out: &mut Vec<char>, v: &TraitImplDetails)
    ensures
        final(out)@ == old(out)@ + se_timpl_part2(*v),
{
    emit_raw(out, ",\"assoc_consts\":");
    emit_assoc_consts(out, &v.assoc_consts);
    emit_raw(out, ",\"source\":");
    emit_opt_str(out, &v.source);
    emit_raw(out, ",\"span\":");
    emit_opt_span(out, &v.span);
    proof {
        reveal(se_timpl_part2);
        assert(out@ =~= old(out)@ + se_timpl_part2(*v));
    }
}

fn emit_trait_impl(out: &mut Vec<char>, v: &TraitImplDetails)
    ensures
        final(out)@ == old(out)@ + se_timpl(*v),
{
    emit_trait_impl_part0(out, v);
    emit_trait_impl_part1(out, v);
    emit_trait_impl_part2(out, v);
    out.push('}');
    proof {
        reveal(se_timpl);
        assert(out@ =~= old(out)@ + se_timpl(*v));
    }
}

#[verifier::rlimit(100)]
#[verifier::spinoff_prover]
fn emit_inherent_impl_part0(out: &mut Vec<char>, v: &InherentImplDetails)
    ensures
        final(out)@ == old(out)@ + se_iimpl_part0(*v),
{
    emit_raw(out, "{\"self_ty\":");
    emit_str_lit(out, v.self_ty.as_str());
    emit_raw(out, ",\"generics\":");
    emit_gps(out, &v.generics);
    emit_raw(out, ",\"where_clause\":");
    emit_opt_str(out, &v.where_clause);
    emit_raw(out, ",\"is_unsafe\":");
    emit_bool(out, v.is_unsafe);
    proof {
        reveal(se_iimpl_part0);
        assert(out@ =~= old(out)@ + se_iimpl_part0(*v));
    }
}

#[verifier::rlimit(100)]
#[verifier::spinoff_prover]
fn emit_inherent_impl_part1(out: &mut Vec<char>, v: &InherentImplDetails)
    ensures
        final(out)@ == old(out)@ + se_iimpl_part1(*v),
{
    emit_raw(out, ",\"methods\":");
    emit_methods(out, &v.methods);
    emit_raw(out, ",\"assoc_consts\":");
    emit_assoc_consts(out, &v.assoc_consts);
    emit_raw(out, ",\"assoc_types\":");
    emit_assoc_tys(out, &v.assoc_types);
    emit_raw(out, ",\"source\":");
    emit_opt_str(out, &v.source);
    proof {
        reveal(se_iimpl_part1);
        assert(out@ =~= old(out)@ + se_iimpl_part1(*v));
    }
}

#[verifier::rlimit(100)]
#[verifier::spinoff_prover]
fn emit_inherent_impl_part2(out: &mut Vec<char>, v: &InherentImplDetails)
    ensures
        final(out)@ == old(out)@ + se_iimpl_part2(*v),
{
    emit_raw(out, ",\"span\":");
    emit_opt_span(out, &v.span);
    proof {
        reveal(se_iimpl_part2);
        assert(out@ =~= old(out)@ + se_iimpl_part2(*v));
    }
}

fn emit_inherent_impl(out: &mut Vec<char>, v: &InherentImplDetails)
    ensures
        final(out)@ == old(out)@ + se_iimpl(*v),
{
    emit_inherent_impl_part0(out, v);
    emit_inherent_impl_part1(out, v);
    emit_inherent_impl_part2(out, v);
    out.push('}');
    proof {
        reveal(se_iimpl);
        assert(out@ =~= old(out)@ + se_iimpl(*v));
    }
}

#[verifier::rlimit(100)]
#[verifier::spinoff_prover]
fn emit_type_summary(out: &mut Vec<char>, v: &TypeSummary)
    ensures
        final(out)@ == old(out)@ + se_tsum(*v),
{
    emit_raw(out, "{\"name\":");
    emit_str_lit(out, v.name.as_str());
    emit_raw(out, ",\"path\":");
    emit_str_lit(out, v.path.as_str());
    emit_raw(out, ",\"kind\":");
    emit_type_kind(out, &v.kind);
    emit_raw(out, ",\"generics\":");
    emit_gps(out, &v.generics);
    out.push('}');
    proof {
        reveal(se_tsum);
        assert(out@ =~= old(out)@ + se_tsum(*v));
    }
}

#[verifier::rlimit(100)]
#[verifier::spinoff_prover]
fn emit_type_details_fields_part0(out: &mut Vec<char>, v: &TypeDetails)
    ensures
        final(out)@ == old(out)@ + se_td_fields_part0(*v),
{
    emit_raw(out, "\"name\":");
    emit_str_lit(out, v.name.as_str());
    emit_raw(out, ",\"path\":");
    emit_str_lit(out, v.path.as_str());
    emit_raw(out, ",\"kind\":");
    emit_type_kind(out, &v.kind);
    emit_raw(out, ",\"visibility\":");
    emit_visibility(out, &v.visibility);
    proof {
        reveal(se_td_fields_part0);
        assert(out@ =~= old(out)@ + se_td_fields_part0(*v));
    }
}

#[verifier::rlimit(100)]
#[verifier::spinoff_prover]
fn emit_type_details_fields_part1(out: &mut Vec<char>, v: &TypeDetails)
    ensures
        final(out)@ == old(out)@ + se_td_fields_part1(*v),
{
    emit_raw(out, ",\"generics\":");
    emit_gps(out, &v.generics);
    emit_raw(out, ",\"where_clause\":");
    emit_opt_str(out, &v.where_clause);
    emit_raw(out, ",\"docs\":");
    emit_opt_str(out, &v.docs);
    emit_raw(out, ",\"attributes\":");
    emit_str_vec(out, &v.attributes);
    proof {
        reveal(se_td_fields_part1);
        assert(out@ =~= old(out)@ + se_td_fields_part1(*v));
    }
}

#[verifier::rlimit(100)]
#[verifier::spinoff_prover]
fn emit_type_details_fields_part2(out: &mut Vec<char>, v: &TypeDetails)
    ensures
        final(out)@ == old(out)@ + se_td_fields_part2(*v),
{
    emit_raw(out, ",\"fields\":");
    emit_opt_fields(out, &v.fields);
    emit_raw(out, ",\"variants\":");
    emit_opt_variants(out, &v.variants);
    emit_raw(out, ",\"trait_impls\":");
    emit_str_vec(out, &v.trait_impls);
    emit_raw(out, ",\"inherent_methods\":");
    emit_msums(out, &v.inherent_methods);
    proof {
        reveal(se_td_fields_part2);
        assert(out@ =~= old(out)@ + se_td_fields_part2(*v));
    }
}

#[verifier::rlimit(100)]
#[verifier::spinoff_prover]
fn emit_type_details_fields_part3(out: &mut Vec<char>, v: &TypeDetails)
    ensures
        final(out)@ == old(out)@ + se_td_fields_part3(*v),
{
    emit_raw(out, ",\"layout\":");
    emit_opt_layout(out, &v.layout);
    emit_raw(out, ",\"source\":");
    emit_opt_str(out, &v.source);
    emit_raw(out, ",\"span\":");
    emit_opt_span(out, &v.span);
    proof {
        reveal(se_td_fields_part3);
        assert(out@ =~= old(out)@ + se_td_fields_part3(*v));
    }
}

fn emit_type_details_fields(out: &mut Vec<char>, v: &TypeDetails)
    ensures
        final(out)@ == old(out)@ + se_td_fields(*v),
{
    emit_type_details_fields_part0(out, v);
    emit_type_details_fields_part1(out, v);
    emit_type_details_fields_part2(out, v);
    emit_type_details_fields_part3(out, v);
    proof {
        reveal(se_td_fields);
        assert(out@ =~= old(out)@ + se_td_fields(*v));
    }
}

#[verifier::rlimit(100)]
#[verifier::spinoff_prover]
fn emit_trait_method_part0(out: &mut Vec<char>, v: &TraitMethodInfo)
    ensures
        final(out)@ == old(out)@ + se_tmethod_part0(*v),
{
    emit_raw(out, "{\"name\":");
    emit_str_lit(out, v.name.as_str());
    emit_raw(out, ",\"signature\":");
    emit_str_lit(out, v.signature.as_str());
    emit_raw(out, ",\"parsed_signature\":");
    emit_sig(out, &v.parsed_signature);
    emit_raw(out, ",\"has_default\":");
    emit_bool(out, v.has_default);
    proof {
        reveal(se_tmethod_part0);
        assert(out@ =~= old(out)@ + se_tmethod_part0(*v));
    }
}

#[verifier::rlimit(100)]
#[verifier::spinoff_prover]
fn emit_trait_method_part1(out: &mut Vec<char>, v: &TraitMethodInfo)
    ensures
        final(out)@ == old(out)@ + se_tmethod_part1(*v),
{
    emit_raw(out, ",\"default_body\":");
    emit_opt_str(out, &v.default_body);
    emit_raw(out, ",\"is_unsafe\":");
    emit_bool(out, v.is_unsafe);
    emit_raw(out, ",\"docs\":");
    emit_opt_str(out, &v.docs);
    emit_raw(out, ",\"attributes\":");
    emit_str_vec(out, &v.attributes);
    proof {
        reveal(se_tmethod_part1);
        assert(out@ =~= old(out)@ + se_tmethod_part1(*v));
    }
}

#[verifier::rlimit(100)]
#[verifier::spinoff_prover]
fn emit_trait_method_part2(out: &mut Vec<char>, v: &TraitMethodInfo)
    ensures
        final(out)@ == old(out)@ + se_tmethod_part2(*v),
{
    emit_raw(out, ",\"span\":");
    emit_opt_span(out, &v.span);
    proof {
        reveal(se_tmethod_part2);
        assert(out@ =~= old(out)@ + se_tmethod_part2(*v));
    }
}

fn emit_trait_method(out: &mut Vec<char>, v: &TraitMethodInfo)
    ensures
        final(out)@ == old(out)@ + se_tmethod(*v),
{
    emit_trait_method_part0(out, v);
    emit_trait_method_part1(out, v);
    emit_trait_method_part2(out, v);
    out.push('}');
    proof {
        reveal(se_tmethod);
        assert(out@ =~= old(out)@ + se_tmethod(*v));
    }
}

#[verifier::rlimit(100)]
#[verifier::spinoff_prover]
fn emit_trait_details_fields_part0(out: &mut Vec<char>, v: &TraitDetails)
    ensures
        final(out)@ == old(out)@ + se_trd_fields_part0(*v),
{
    emit_raw(out, "\"name\":");
    emit_str_lit(out, v.name.as_str());
    emit_raw(out, ",\"path\":");
    emit_str_lit(out, v.path.as_str());
    emit_raw(out, ",\"visibility\":");
    emit_visibility(out, &v.visibility);
    emit_raw(out, ",\"generics\":");
    emit_gps(out, &v.generics);
    proof {
        reveal(se_trd_fields_part0);
        assert(out@ =~= old(out)@ + se_trd_fields_part0(*v));
    }
}

#[verifier::rlimit(100)]
#[verifier::spinoff_prover]
fn emit_trait_details_fields_part1(out: &mut Vec<char>, v: &TraitDetails)
    ensures
        final(out)@ == old(out)@ + se_trd_fields_part1(*v),
{
    emit_raw(out, ",\"where_clause\":");
    emit_opt_str(out, &v.where_clause);
    emit_raw(out, ",\"is_auto\":");
    emit_bool(out, v.is_auto);
    emit_raw(out, ",\"is_unsafe\":");
    emit_bool(out, v.is_unsafe);
    emit_raw(out, ",\"supertraits\":");
    emit_str_vec(out, &v.supertraits);
    proof {
        reveal(se_trd_fields_part1);
        assert(out@ =~= old(out)@ + se_trd_fields_part1(*v));
    }
}

#[verifier::rlimit(100)]
#[verifier::spinoff_prover]
fn emit_trait_details_fields_part2(out: &mut Vec<char>, v: &TraitDetails)
    ensures
        final(out)@ == old(out)@ + se_trd_fields_part2(*v),
{
    emit_raw(out, ",\"methods\":");
    emit_trait_methods(out, &v.methods);
    emit_raw(out, ",\"assoc_types\":");
    emit_assoc_tys(out, &v.assoc_types);
    emit_raw(out, ",\"assoc_consts\":");
    emit_assoc_consts(out, &v.assoc_consts);
    emit_raw(out, ",\"docs\":");
    emit_opt_str(out, &v.docs);
    proof {
        reveal(se_trd_fields_part2);
        assert(out@ =~= old(out)@ + se_trd_fields_part2(*v));
    }
}

#[verifier::rlimit(100)]
#[verifier::spinoff_prover]
fn emit_trait_details_fields_part3(out: &mut Vec<char>, v: &TraitDetails)
    ensures
        final(out)@ == old(out)@ + se_trd_fields_part3(*v),
{
    emit_raw(out, ",\"attributes\":");
    emit_str_vec(out, &v.attributes);
    emit_raw(out, ",\"source\":");
    emit_opt_str(out, &v.source);
    emit_raw(out, ",\"implementors\":");
    emit_str_vec(out, &v.implementors);
    emit_raw(out, ",\"span\":");
    emit_opt_span(out, &v.span);
    proof {
        reveal(se_trd_fields_part3);
        assert(out@ =~= old(out)@ + se_trd_fields_part3(*v));
    }
}

fn emit_trait_details_fields(out: &mut Vec<char>, v: &TraitDetails)
    ensures
        final(out)@ == old(out)@ + se_trd_fields(*v),
{
    emit_trait_details_fields_part0(out, v);
    emit_trait_details_fields_part1(out, v);
    emit_trait_details_fields_part2(out, v);
    emit_trait_details_fields_part3(out, v);
    proof {
        reveal(se_trd_fields);
        assert(out@ =~= old(out)@ + se_trd_fields(*v));
    }
}

#[verifier::rlimit(100)]
#[verifier::spinoff_prover]
fn emit_trait_info_part0(out: &mut Vec<char>, v: &TraitInfo)
    ensures
        final(out)@ == old(out)@ + se_tinfo_part0(*v),
{
    emit_raw(out, "{\"name\":");
    emit_str_lit(out, v.name.as_str());
    emit_raw(out, ",\"path\":");
    emit_str_lit(out, v.path.as_str());
    emit_raw(out, ",\"generics\":");
    emit_gps(out, &v.generics);
    emit_raw(out, ",\"required_methods\":");
    emit_usize(out, v.required_methods);
    proof {
        reveal(se_tinfo_part0);
        assert(out@ =~= old(out)@ + se_tinfo_part0(*v));
    }
}

#[verifier::rlimit(100)]
#[verifier::spinoff_prover]
fn emit_trait_info_part1(out: &mut Vec<char>, v: &TraitInfo)
    ensures
        final(out)@ == old(out)@ + se_tinfo_part1(*v),
{
    emit_raw(out, ",\"provided_methods\":");
    emit_usize(out, v.provided_methods);
    emit_raw(out, ",\"supertraits\":");
    emit_str_vec(out, &v.supertraits);
    proof {
        reveal(se_tinfo_part1);
        assert(out@ =~= old(out)@ + se_tinfo_part1(*v));
    }
}

fn emit_trait_info(out: &mut Vec<char>, v: &TraitInfo)
    ensures
        final(out)@ == old(out)@ + se_tinfo(*v),
{
    emit_trait_info_part0(out, v);
    emit_trait_info_part1(out, v);
    out.push('}');
    proof {
        reveal(se_tinfo);
        assert(out@ =~= old(out)@ + se_tinfo(*v));
    }
}

#[verifier::rlimit(100)]
#[verifier::spinoff_prover]
fn emit_str_vec(out: &mut Vec<char>, v: &Vec<String>)
    ensures
        final(out)@ == old(out)@ + se_strv_arr(v@),
{
    out.push('[');
    let n = v.len();
    let mut i: usize = 0;
    proof {
        assert(out@ =~= old(out)@ + seq!['['] + sl_strv(v@, 0));
    }
    while i < n
        invariant
            i <= n,
            n == v@.len(),
            out@ == old(out)@ + seq!['['] + sl_strv(v@, i as int),
        decreases n - i,
    {
        if i > 0 {
            out.push(',');
        }
        emit_str_lit(out, v[i].as_str());
        proof {
            assert(out@ =~= old(out)@ + seq!['['] + sl_strv(v@, i + 1));
        }
        i = i + 1;
    }
    out.push(']');
    proof {
        assert(out@ =~= old(out)@ + se_strv_arr(v@));
    }
}

#[verifier::rlimit(100)]
#[verifier::spinoff_prover]
fn emit_items(out: &mut Vec<char>, v: &Vec<ItemInfo>)
    ensures
        final(out)@ == old(out)@ + se_items_arr(v@),
{
    out.push('[');
    let n = v.len();
    let mut i: usize = 0;
    proof {
        assert(out@ =~= old(out)@ + seq!['['] + sl_items(v@, 0));
    }
    while i < n
        invariant
            i <= n,
            n == v@.len(),
            out@ == old(out)@ + seq!['['] + sl_items(v@, i as int),
        decreases n - i,
    {
        if i > 0 {
            out.push(',');
        }
        emit_item_info(out, &v[i]);
        proof {
            assert(out@ =~= old(out)@ + seq!['['] + sl_items(v@, i + 1));
        }
        i = i + 1;
    }
    out.push(']');
    proof {
        assert(out@ =~= old(out)@ + se_items_arr(v@));
    }
}

#[verifier::rlimit(100)]
#[verifier::spinoff_prover]
fn emit_gps(out: &mut Vec<char>, v: &Vec<GenericParam>)
    ensures
        final(out)@ == old(out)@ + se_gps_arr(v@),
{
    out.push('[');
    let n = v.len();
    let mut i: usize = 0;
    proof {
        assert(out@ =~= old(out)@ + seq!['['] + sl_gps(v@, 0));
    }
    while i < n
        invariant
            i <= n,
            n == v@.len(),
            out@ == old(out)@ + seq!['['] + sl_gps(v@, i as int),
        decreases n - i,
    {
        if i > 0 {
            out.push(',');
        }
        emit_gp(out, &v[i]);
        proof {
            assert(out@ =~= old(out)@ + seq!['['] + sl_gps(v@, i + 1));
        }
        i = i + 1;
    }
    out.push(']');
    proof {
        assert(out@ =~= old(out)@ + se_gps_arr(v@));
    }
}

#[verifier::rlimit(100)]
#[verifier::spinoff_prover]
fn emit_fields(out: &mut Vec<char>, v: &Vec<FieldInfo>)
    ensures
        final(out)@ == old(out)@ + se_fields_arr(v@),
{
    out.push('[');
    let n = v.len();
    let mut i: usize = 0;
    proof {
        assert(out@ =~= old(out)@ + seq!['['] + sl_fields(v@, 0));
    }
    while i < n
        invariant
            i <= n,
            n == v@.len(),
            out@ == old(out)@ + seq!['['] + sl_fields(v@, i as int),
        decreases n - i,
    {
        if i > 0 {
            out.push(',');
        }
        emit_field_info(out, &v[i]);
        proof {
            assert(out@ =~= old(out)@ + seq!['['] + sl_fields(v@, i + 1));
        }
        i = i + 1;
    }
    out.push(']');
    proof {
        assert(out@ =~= old(out)@ + se_fields_arr(v@));
    }
}

#[verifier::rlimit(100)]
#[verifier::spinoff_prover]
fn emit_variants(out: &mut Vec<char>, v: &Vec<EnumVariantInfo>)
    ensures
        final(out)@ == old(out)@ + se_variants_arr(v@),
{
    out.push('[');
    let n = v.len();
    let mut i: usize = 0;
    proof {
        assert(out@ =~= old(out)@ + seq!['['] + sl_variants(v@, 0));
    }
    while i < n
        invariant
            i <= n,
            n == v@.len(),
            out@ == old(out)@ + seq!['['] + sl_variants(v@, i as int),
        decreases n - i,
    {
        if i > 0 {
            out.push(',');
        }
        emit_variant(out, &v[i]);
        proof {
            assert(out@ =~= old(out)@ + seq!['['] + sl_variants(v@, i + 1));
        }
        i = i + 1;
    }
    out.push(']');
    proof {
        assert(out@ =~= old(out)@ + se_variants_arr(v@));
    }
}

#[verifier::rlimit(100)]
#[verifier::spinoff_prover]
fn emit_flis(out: &mut Vec<char>, v: &Vec<FieldLayoutInfo>)
    ensures
        final(out)@ == old(out)@ + se_flis_arr(v@),
{
    out.push('[');
    let n = v.len();
    let mut i: usize = 0;
    proof {
        assert(out@ =~= old(out)@ + seq!['['] + sl_flis(v@, 0));
    }
    while i < n
        invariant
            i <= n,
            n == v@.len(),
            out@ == old(out)@ + seq!['['] + sl_flis(v@, i as int),
        decreases n - i,
    {
        if i > 0 {
            out.push(',');
        }
        emit_fli(out, &v[i]);
        proof {
            assert(out@ =~= old(out)@ + seq!['['] + sl_flis(v@, i + 1));
        }
        i = i + 1;
    }
    out.push(']');
    proof {
        assert(out@ =~= old(out)@ + se_flis_arr(v@));
    }
}

#[verifier::rlimit(100)]
#[verifier::spinoff_prover]
fn emit_vlis(out: &mut Vec<char>, v: &Vec<VariantLayoutInfo>)
    ensures
        final(out)@ == old(out)@ + se_vlis_arr(v@),
{
    out.push('[');
    let n = v.len();
    let mut i: usize = 0;
    proof {
        assert(out@ =~= old(out)@ + seq!['['] + sl_vlis(v@, 0));
    }
    while i < n
        invariant
            i <= n,
            n == v@.len(),
            out@ == old(out)@ + seq!['['] + sl_vlis(v@, i as int),
        decreases n - i,
    {
        if i > 0 {
            out.push(',');
        }
        emit_vli(out, &v[i]);
        proof {
            assert(out@ =~= old(out)@ + seq!['['] + sl_vlis(v@, i + 1));
        }
        i = i + 1;
    }
    out.push(']');
    proof {
        assert(out@ =~= old(out)@ + se_vlis_arr(v@));
    }
}

#[verifier::rlimit(100)]
#[verifier::spinoff_prover]
fn emit_msums(out: &mut Vec<char>, v: &Vec<MethodSummary>)
    ensures
        final(out)@ == old(out)@ + se_msums_arr(v@),
{
    out.push('[');
    let n = v.len();
    let mut i: usize = 0;
    proof {
        assert(out@ =~= old(out)@ + seq!['['] + sl_msums(v@, 0));
    }
    while i < n
        invariant
            i <= n,
            n == v@.len(),
            out@ == old(out)@ + seq!['['] + sl_msums(v@, i as int),
        decreases n - i,
    {
        if i > 0 {
            out.push(',');
        }
        emit_msum(out, &v[i]);
        proof {
            assert(out@ =~= old(out)@ + seq!['['] + sl_msums(v@, i + 1));
        }
        i = i + 1;
    }
    out.push(']');
    proof {
        assert(out@ =~= old(out)@ + se_msums_arr(v@));
    }
}

#[verifier::rlimit(100)]
#[verifier::spinoff_prover]
fn emit_params(out: &mut Vec<char>, v: &Vec<ParamInfo>)
    ensures
        final(out)@ == old(out)@ + se_params_arr(v@),
{
    out.push('[');
    let n = v.len();
    let mut i: usize = 0;
    proof {
        assert(out@ =~= old(out)@ + seq!['['] + sl_params(v@, 0));
    }
    while i < n
        invariant
            i <= n,
            n == v@.len(),
            out@ == old(out)@ + seq!['['] + sl_params(v@, i as int),
        decreases n - i,
    {
        if i > 0 {
            out.push(',');
        }
        emit_param(out, &v[i]);
        proof {
            assert(out@ =~= old(out)@ + seq!['['] + sl_params(v@, i + 1));
        }
        i = i + 1;
    }
    out.push(']');
    proof {
        assert(out@ =~= old(out)@ + se_params_arr(v@));
    }
}

#[verifier::rlimit(100)]
#[verifier::spinoff_prover]
fn emit_assoc_tys(out: &mut Vec<char>, v: &Vec<AssocTypeInfo>)
    ensures
        final(out)@ == old(out)@ + se_atys_arr(v@),
{
    out.push('[');
    let n = v.len();
    let mut i: usize = 0;
    proof {
        assert(out@ =~= old(out)@ + seq!['['] + sl_atys(v@, 0));
    }
    while i < n
        invariant
            i <= n,
            n == v@.len(),
            out@ == old(out)@ + seq!['['] + sl_atys(v@, i as int),
        decreases n - i,
    {
        if i > 0 {
            out.push(',');
        }
        emit_assoc_ty(out, &v[i]);
        proof {
            assert(out@ =~= old(out)@ + seq!['['] + sl_atys(v@, i + 1));
        }
        i = i + 1;
    }
    out.push(']');
    proof {
        assert(out@ =~= old(out)@ + se_atys_arr(v@));
    }
}

#[verifier::rlimit(100)]
#[verifier::spinoff_prover]
fn emit_assoc_consts(out: &mut Vec<char>, v: &Vec<AssocConstInfo>)
    ensures
        final(out)@ == old(out)@ + se_aconsts_arr(v@),
{
    out.push('[');
    let n = v.len();
    let mut i: usize = 0;
    proof {
        assert(out@ =~= old(out)@ + seq!['['] + sl_aconsts(v@, 0));
    }
    while i < n
        invariant
            i <= n,
            n == v@.len(),
            out@ == old(out)@ + seq!['['] + sl_aconsts(v@, i as int),
        decreases n - i,
    {
        if i > 0 {
            out.push(',');
        }
        emit_assoc_const(out, &v[i]);
        proof {
            assert(out@ =~= old(out)@ + seq!['['] + sl_aconsts(v@, i + 1));
        }
        i = i + 1;
    }
    out.push(']');
    proof {
        assert(out@ =~= old(out)@ + se_aconsts_arr(v@));
    }
}

#[verifier::rlimit(100)]
#[verifier::spinoff_prover]
fn emit_methods(out: &mut Vec<char>, v: &Vec<MethodDetails>)
    ensures
        final(out)@ == old(out)@ + se_methods_arr(v@),
{
    out.push('[');
    let n = v.len();
    let mut i: usize = 0;
    proof {
        assert(out@ =~= old(out)@ + seq!['['] + sl_methods(v@, 0));
    }
    while i < n
        invariant
            i <= n,
            n == v@.len(),
            out@ == old(out)@ + seq!['['] + sl_methods(v@, i as int),
        decreases n - i,
    {
        if i > 0 {
            out.push(',');
        }
        emit_method(out, &v[i]);
        proof {
            assert(out@ =~= old(out)@ + seq!['['] + sl_methods(v@, i + 1));
        }
        i = i + 1;
    }
    out.push(']');
    proof {
        assert(out@ =~= old(out)@ + se_methods_arr(v@));
    }
}

#[verifier::rlimit(100)]
#[verifier::spinoff_prover]
fn emit_trait_methods(out: &mut Vec<char>, v: &Vec<TraitMethodInfo>)
    ensures
        final(out)@ == old(out)@ + se_tmethods_arr(v@),
{
    out.push('[');
    let n = v.len();
    let mut i: usize = 0;
    proof {
        assert(out@ =~= old(out)@ + seq!['['] + sl_tmethods(v@, 0));
    }
    while i < n
        invariant
            i <= n,
            n == v@.len(),
            out@ == old(out)@ + seq!['['] + sl_tmethods(v@, i as int),
        decreases n - i,
    {
        if i > 0 {
            out.push(',');
        }
        emit_trait_method(out, &v[i]);
        proof {
            assert(out@ =~= old(out)@ + seq!['['] + sl_tmethods(v@, i + 1));
        }
        i = i + 1;
    }
    out.push(']');
    proof {
        assert(out@ =~= old(out)@ + se_tmethods_arr(v@));
    }
}

#[verifier::rlimit(100)]
#[verifier::spinoff_prover]
fn emit_trait_impls(out: &mut Vec<char>, v: &Vec<TraitImplDetails>)
    ensures
        final(out)@ == old(out)@ + se_timpls_arr(v@),
{
    out.push('[');
    let n = v.len();
    let mut i: usize = 0;
    proof {
        assert(out@ =~= old(out)@ + seq!['['] + sl_timpls(v@, 0));
    }
    while i < n
        invariant
            i <= n,
            n == v@.len(),
            out@ == old(out)@ + seq!['['] + sl_timpls(v@, i as int),
        decreases n - i,
    {
        if i > 0 {
            out.push(',');
        }
        emit_trait_impl(out, &v[i]);
        proof {
            assert(out@ =~= old(out)@ + seq!['['] + sl_timpls(v@, i + 1));
        }
        i = i + 1;
    }
    out.push(']');
    proof {
        assert(out@ =~= old(out)@ + se_timpls_arr(v@));
    }
}

#[verifier::rlimit(100)]
#[verifier::spinoff_prover]
fn emit_inherent_impls(out: &mut Vec<char>, v: &Vec<InherentImplDetails>)
    ensures
        final(out)@ == old(out)@ + se_iimpls_arr(v@),
{
    out.push('[');
    let n = v.len();
    let mut i: usize = 0;
    proof {
        assert(out@ =~= old(out)@ + seq!['['] + sl_iimpls(v@, 0));
    }
    while i < n
        invariant
            i <= n,
            n == v@.len(),
            out@ == old(out)@ + seq!['['] + sl_iimpls(v@, i as int),
        decreases n - i,
    {
        if i > 0 {
            out.push(',');
        }
        emit_inherent_impl(out, &v[i]);
        proof {
            assert(out@ =~= old(out)@ + seq!['['] + sl_iimpls(v@, i + 1));
        }
        i = i + 1;
    }
    out.push(']');
    proof {
        assert(out@ =~= old(out)@ + se_iimpls_arr(v@));
    }
}

#[verifier::rlimit(100)]
#[verifier::spinoff_prover]
fn emit_trait_infos(out: &mut Vec<char>, v: &Vec<TraitInfo>)
    ensures
        final(out)@ == old(out)@ + se_tinfos_arr(v@),
{
    out.push('[');
    let n = v.len();
    let mut i: usize = 0;
    proof {
        assert(out@ =~= old(out)@ + seq!['['] + sl_tinfos(v@, 0));
    }
    while i < n
        invariant
            i <= n,
            n == v@.len(),
            out@ == old(out)@ + seq!['['] + sl_tinfos(v@, i as int),
        decreases n - i,
    {
        if i > 0 {
            out.push(',');
        }
        emit_trait_info(out, &v[i]);
        proof {
            assert(out@ =~= old(out)@ + seq!['['] + sl_tinfos(v@, i + 1));
        }
        i = i + 1;
    }
    out.push(']');
    proof {
        assert(out@ =~= old(out)@ + se_tinfos_arr(v@));
    }
}

#[verifier::rlimit(100)]
#[verifier::spinoff_prover]
fn emit_type_summaries(out: &mut Vec<char>, v: &Vec<TypeSummary>)
    ensures
        final(out)@ == old(out)@ + se_summaries_arr(v@),
{
    out.push('[');
    let n = v.len();
    let mut i: usize = 0;
    proof {
        assert(out@ =~= old(out)@ + seq!['['] + sl_summaries(v@, 0));
    }
    while i < n
        invariant
            i <= n,
            n == v@.len(),
            out@ == old(out)@ + seq!['['] + sl_summaries(v@, i as int),
        decreases n - i,
    {
        if i > 0 {
            out.push(',');
        }
        emit_type_summary(out, &v[i]);
        proof {
            assert(out@ =~= old(out)@ + seq!['['] + sl_summaries(v@, i + 1));
        }
        i = i + 1;
    }
    out.push(']');
    proof {
        assert(out@ =~= old(out)@ + se_summaries_arr(v@));
    }
}

#[verifier::rlimit(100)]
#[verifier::spinoff_prover]
fn emit_tokens(out: &mut Vec<char>, v: &Vec<Token>)
    ensures
        final(out)@ == old(out)@ + se_toks_arr(v@),
    decreases v,
{
    out.push('[');
    let n = v.len();
    let mut i: usize = 0;
    proof {
        assert(out@ =~= old(out)@ + seq!['['] + sl_toks(v@, 0));
    }
    while i < n
        invariant
            i <= n,
            n == v@.len(),
            out@ == old(out)@ + seq!['['] + sl_toks(v@, i as int),
        decreases n - i,
    {
        if i > 0 {
            out.push(',');
        }
        emit_token(out, &v[i]);
        proof {
            assert(out@ =~= old(out)@ + seq!['['] + sl_toks(v@, i + 1));
        }
        i = i + 1;
    }
    out.push(']');
    proof {
        assert(out@ =~= old(out)@ + se_toks_arr(v@));
    }
}

#[verifier::rlimit(100)]
#[verifier::spinoff_prover]
fn emit_arms(out: &mut Vec<char>, v: &Vec<MatchArm>)
    ensures
        final(out)@ == old(out)@ + se_arms_arr(v@),
    decreases v,
{
    out.push('[');
    let n = v.len();
    let mut i: usize = 0;
    proof {
        assert(out@ =~= old(out)@ + seq!['['] + sl_arms(v@, 0));
    }
    while i < n
        invariant
            i <= n,
            n == v@.len(),
            out@ == old(out)@ + seq!['['] + sl_arms(v@, i as int),
        decreases n - i,
    {
        if i > 0 {
            out.push(',');
        }
        emit_arm(out, &v[i]);
        proof {
            assert(out@ =~= old(out)@ + seq!['['] + sl_arms(v@, i + 1));
        }
        i = i + 1;
    }
    out.push(']');
    proof {
        assert(out@ =~= old(out)@ + se_arms_arr(v@));
    }
}

#[verifier::rlimit(100)]
#[verifier::spinoff_prover]
fn emit_token(out: &mut Vec<char>, t: &Token)
    ensures
        final(out)@ == old(out)@ + se_token(*t),
    decreases t,
{
    match t {
        Token::Ident { name } => {
            emit_raw(out, "{\"token_type\":\"ident\",\"name\":");
            emit_str_lit(out, name.as_str());
            out.push('}');
            proof {
                assert(out@ =~= old(out)@ + se_token(*t));
            }
        },
        Token::Literal { kind, value } => {
            emit_raw(out, "{\"token_type\":\"literal\",\"kind\":");
            emit_literal_kind(out, kind);
            emit_raw(out, ",\"value\":");
            emit_str_lit(out, value.as_str());
            out.push('}');
            proof {
                assert(out@ =~= old(out)@ + se_token(*t));
            }
        },
        Token::Punct { ch } => {
            emit_raw(out, "{\"token_type\":\"punct\",\"ch\":\"");
            emit_esc_char(out, *ch);
            emit_raw(out, "\"}");
            proof {
                assert(out@ =~= old(out)@ + se_token(*t));
            }
        },
        Token::Keyword { name } => {
            emit_raw(out, "{\"token_type\":\"keyword\",\"name\":");
            emit_str_lit(out, name.as_str());
            out.push('}');
            proof {
                assert(out@ =~= old(out)@ + se_token(*t));
            }
        },
        Token::Group { delimiter, tokens } => {
            emit_raw(out, "{\"token_type\":\"group\",\"delimiter\":");
            emit_delimiter(out, delimiter);
            emit_raw(out, ",\"tokens\":");
            emit_tokens(out, tokens);
            out.push('}');
            proof {
                assert(out@ =~= old(out)@ + se_token(*t));
            }
        },
        Token::Path { segments } => {
            emit_raw(out, "{\"token_type\":\"path\",\"segments\":");
            emit_str_vec(out, segments);
            out.push('}');
            proof {
                assert(out@ =~= old(out)@ + se_token(*t));
            }
        },
        Token::MethodCall { receiver, method, args } => {
            emit_raw(out, "{\"token_type\":\"method_call\",\"receiver\":");
            emit_token(out, receiver);
            emit_raw(out, ",\"method\":");
            emit_str_lit(out, method.as_str());
            emit_raw(out, ",\"args\":");
            emit_tokens(out, args);
            out.push('}');
            proof {
                assert(out@ =~= old(out)@ + se_token(*t));
            }
        },
        Token::FnCall { path, args } => {
            emit_raw(out, "{\"token_type\":\"fn_call\",\"path\":");
            emit_str_vec(out, path);
            emit_raw(out, ",\"args\":");
            emit_tokens(out, args);
            out.push('}');
            proof {
                assert(out@ =~= old(out)@ + se_token(*t));
            }
        },
        Token::FieldAccess { base, field } => {
            emit_raw(out, "{\"token_type\":\"field_access\",\"base\":");
            emit_token(out, base);
            emit_raw(out, ",\"field\":");
            emit_str_lit(out, field.as_str());
            out.push('}');
            proof {
                assert(out@ =~= old(out)@ + se_token(*t));
            }
        },
        Token::BinOp { lhs, op, rhs } => {
            emit_raw(out, "{\"token_type\":\"bin_op\",\"lhs\":");
            emit_token(out, lhs);
            emit_raw(out, ",\"op\":");
            emit_str_lit(out, op.as_str());
            emit_raw(out, ",\"rhs\":");
            emit_token(out, rhs);
            out.push('}');
            proof {
                assert(out@ =~= old(out)@ + se_token(*t));
            }
        },
        Token::UnaryOp { op, expr } => {
            emit_raw(out, "{\"token_type\":\"unary_op\",\"op\":");
            emit_str_lit(out, op.as_str());
            emit_raw(out, ",\"expr\":");
            emit_token(out, expr);
            out.push('}');
            proof {
                assert(out@ =~= old(out)@ + se_token(*t));
            }
        },
        Token::If { cond, then_branch, else_branch } => {
            emit_raw(out, "{\"token_type\":\"if\",\"cond\":");
            emit_token(out, cond);
            emit_raw(out, ",\"then_branch\":");
            emit_tokens(out, then_branch);
            emit_raw(out, ",\"else_branch\":");
            emit_opt_tokens(out, else_branch);
            out.push('}');
            proof {
                assert(out@ =~= old(out)@ + se_token(*t));
            }
        },
        Token::Match { expr, arms } => {
            emit_raw(out, "{\"token_type\":\"match\",\"expr\":");
            emit_token(out, expr);
            emit_raw(out, ",\"arms\":");
            emit_arms(out, arms);
            out.push('}');
            proof {
                assert(out@ =~= old(out)@ + se_token(*t));
            }
        },
        Token::Let { pattern, ty, init } => {
            emit_raw(out, "{\"token_type\":\"let\",\"pattern\":");
            emit_str_lit(out, pattern.as_str());
            emit_raw(out, ",\"ty\":");
            emit_opt_str(out, ty);
            emit_raw(out, ",\"init\":");
            match init {
                Some(e) => emit_token(out, e),
                None => emit_raw(out, "null"),
            }
            out.push('}');
            proof {
                assert(out@ =~= old(out)@ + se_token(*t));
            }
        },
        Token::Return { expr } => {
            emit_raw(out, "{\"token_type\":\"return\",\"expr\":");
            match expr {
                Some(e) => emit_token(out, e),
                None => emit_raw(out, "null"),
            }
            out.push('}');
            proof {
                assert(out@ =~= old(out)@ + se_token(*t));
            }
        },
        Token::Block { stmts } => {
            emit_raw(out, "{\"token_type\":\"block\",\"stmts\":");
            emit_tokens(out, stmts);
            out.push('}');
            proof {
                assert(out@ =~= old(out)@ + se_token(*t));
            }
        },
        Token::Closure { params, body } => {
            emit_raw(out, "{\"token_type\":\"closure\",\"params\":");
            emit_str_vec(out, params);
            emit_raw(out, ",\"body\":");
            emit_token(out, body);
            out.push('}');
            proof {
                assert(out@ =~= old(out)@ + se_token(*t));
            }
        },
        Token::Raw { source } => {
            emit_raw(out, "{\"token_type\":\"raw\",\"source\":");
            emit_str_lit(out, source.as_str());
            out.push('}');
            proof {
                assert(out@ =~= old(out)@ + se_token(*t));
            }
        },
    }
}

fn emit_arm(out: &mut Vec<char>, a: &MatchArm)
    ensures
        final(out)@ == old(out)@ + se_arm(*a),
    decreases a,
{
    emit_raw(out, "{\"pattern\":");
    emit_str_lit(out, a.pattern.as_str());
    emit_raw(out, ",\"guard\":");
    emit_opt_str(out, &a.guard);
    emit_raw(out, ",\"body\":");
    emit_tokens(out, &a.body);
    out.push('}');
    proof {
        assert(out@ =~= old(out)@ + se_arm(*a));
    }
}

#[verifier::rlimit(100)]
#[verifier::spinoff_prover]
fn emit_qd_items(out: &mut Vec<char>, v: &Vec<ItemInfo>)
    ensures
        final(out)@ == old(out)@ + "{\"type\":\"items\",\"items\":"@ + se_items_arr(v@) + seq!['}'],
{
    emit_raw(out, "{\"type\":\"items\",\"items\":");
    emit_items(out, v);
    out.push('}');
    proof {
        assert(out@ =~= old(out)@ + "{\"type\":\"items\",\"items\":"@ + se_items_arr(v@) + seq!['}']);
    }
}

#[verifier::rlimit(100)]
#[verifier::spinoff_prover]
fn emit_qd_type_info(out: &mut Vec<char>, v: &TypeDetails)
    ensures
        final(out)@ == old(out)@ + "{\"type\":\"type_info\","@ + se_td_fields(*v) + seq!['}'],
{
    emit_raw(out, "{\"type\":\"type_info\",");
    emit_type_details_fields(out, v);
    out.push('}');
    proof {
        reveal(se_td_fields);
        assert(out@ =~= old(out)@ + "{\"type\":\"type_info\","@ + se_td_fields(*v) + seq!['}']);
    }
}

#[verifier::rlimit(100)]
#[verifier::spinoff_prover]
fn emit_qd_trait_impls(out: &mut Vec<char>, v: &Vec<TraitImplDetails>)
    ensures
        final(out)@ == old(out)@ + "{\"type\":\"trait_impls\",\"impls\":"@ + se_timpls_arr(v@) + seq!['}'],
{
    emit_raw(out, "{\"type\":\"trait_impls\",\"impls\":");
    emit_trait_impls(out, v);
    out.push('}');
    proof {
        assert(out@ =~= old(out)@ + "{\"type\":\"trait_impls\",\"impls\":"@ + se_timpls_arr(v@) + seq!['}']);
    }
}

#[verifier::rlimit(100)]
#[verifier::spinoff_prover]
fn emit_qd_inherent_impls(out: &mut Vec<char>, v: &Vec<InherentImplDetails>)
    ensures
        final(out)@ == old(out)@ + "{\"type\":\"inherent_impls\",\"impls\":"@ + se_iimpls_arr(v@) + seq!['}'],
{
    emit_raw(out, "{\"type\":\"inherent_impls\",\"impls\":");
    emit_inherent_impls(out, v);
    out.push('}');
    proof {
        assert(out@ =~= old(out)@ + "{\"type\":\"inherent_impls\",\"impls\":"@ + se_iimpls_arr(v@) + seq!['}']);
    }
}

#[verifier::rlimit(100)]
#[verifier::spinoff_prover]
fn emit_qd_fields(out: &mut Vec<char>, v: &Vec<FieldInfo>)
    ensures
        final(out)@ == old(out)@ + "{\"type\":\"fields\",\"fields\":"@ + se_fields_arr(v@) + seq!['}'],
{
    emit_raw(out, "{\"type\":\"fields\",\"fields\":");
    emit_fields(out, v);
    out.push('}');
    proof {
        assert(out@ =~= old(out)@ + "{\"type\":\"fields\",\"fields\":"@ + se_fields_arr(v@) + seq!['}']);
    }
}

#[verifier::rlimit(100)]
#[verifier::spinoff_prover]
fn emit_qd_layout(out: &mut Vec<char>, v: &LayoutInfo)
    ensures
        final(out)@ == old(out)@ + "{\"type\":\"layout\","@ + se_layout_fields(*v) + seq!['}'],
{
    emit_raw(out, "{\"type\":\"layout\",");
    emit_layout_fields(out, v);
    out.push('}');
    proof {
        reveal(se_layout_fields);
        assert(out@ =~= old(out)@ + "{\"type\":\"layout\","@ + se_layout_fields(*v) + seq!['}']);
    }
}

#[verifier::rlimit(100)]
#[verifier::spinoff_prover]
fn emit_qd_traits(out: &mut Vec<char>, v: &Vec<TraitInfo>)
    ensures
        final(out)@ == old(out)@ + "{\"type\":\"traits\",\"traits\":"@ + se_tinfos_arr(v@) + seq!['}'],
{
    emit_raw(out, "{\"type\":\"traits\",\"traits\":");
    emit_trait_infos(out, v);
    out.push('}');
    proof {
        assert(out@ =~= old(out)@ + "{\"type\":\"traits\",\"traits\":"@ + se_tinfos_arr(v@) + seq!['}']);
    }
}

#[verifier::rlimit(100)]
#[verifier::spinoff_prover]
fn emit_qd_trait_details(out: &mut Vec<char>, v: &TraitDetails)
    ensures
        final(out)@ == old(out)@ + "{\"type\":\"trait_details\","@ + se_trd_fields(*v) + seq!['}'],
{
    emit_raw(out, "{\"type\":\"trait_details\",");
    emit_trait_details_fields(out, v);
    out.push('}');
    proof {
        reveal(se_trd_fields);
        assert(out@ =~= old(out)@ + "{\"type\":\"trait_details\","@ + se_trd_fields(*v) + seq!['}']);
    }
}

#[verifier::rlimit(100)]
#[verifier::spinoff_prover]
fn emit_qd_types(out: &mut Vec<char>, v: &Vec<TypeSummary>)
    ensures
        final(out)@ == old(out)@ + "{\"type\":\"types\",\"types\":"@ + se_summaries_arr(v@) + seq!['}'],
{
    emit_raw(out, "{\"type\":\"types\",\"types\":");
    emit_type_summaries(out, v);
    out.push('}');
    proof {
        assert(out@ =~= old(out)@ + "{\"type\":\"types\",\"types\":"@ + se_summaries_arr(v@) + seq!['}']);
    }
}

#[verifier::rlimit(100)]
#[verifier::spinoff_prover]
fn emit_qd_resolved(out: &mut Vec<char>, original: &String, resolved: &String, chain: &Vec<String>)
    ensures
        final(out)@ == old(out)@ + "{\"type\":\"resolved_type\",\"original\":"@ + str_lit(
            original@,
        ) + ",\"resolved\":"@ + str_lit(resolved@) + ",\"chain\":"@ + se_strv_arr(chain@)
            + seq!['}'],
{
    emit_raw(out, "{\"type\":\"resolved_type\",\"original\":");
    emit_str_lit(out, original.as_str());
    emit_raw(out, ",\"resolved\":");
    emit_str_lit(out, resolved.as_str());
    emit_raw(out, ",\"chain\":");
    emit_str_vec(out, chain);
    out.push('}');
    proof {
        assert(out@ =~= old(out)@ + "{\"type\":\"resolved_type\",\"original\":"@ + str_lit(
            original@,
        ) + ",\"resolved\":"@ + str_lit(resolved@) + ",\"chain\":"@ + se_strv_arr(chain@)
            + seq!['}']);
    }
}

#[verifier::rlimit(100)]
#[verifier::spinoff_prover]
fn emit_qd_impl_check(
    out: &mut Vec<char>,
    implements: bool,
    impl_info: &Option<TraitImplDetails>,
)
    ensures
        final(out)@ == old(out)@ + "{\"type\":\"impl_check\",\"implements\":"@ + se_bool(
            implements,
        ) + ",\"impl_info\":"@ + (match *impl_info {
            Option::Some(t) => se_timpl(t),
            Option::None => "null"@,
        }) + seq!['}'],
{
    emit_raw(out, "{\"type\":\"impl_check\",\"implements\":");
    emit_bool(out, implements);
    emit_raw(out, ",\"impl_info\":");
    match impl_info {
        Some(t) => emit_trait_impl(out, t),
        None => emit_raw(out, "null"),
    }
    out.push('}');
    proof {
        reveal(se_timpl);
        assert(out@ =~= old(out)@ + "{\"type\":\"impl_check\",\"implements\":"@ + se_bool(
            implements,
        ) + ",\"impl_info\":"@ + (match *impl_info {
            Option::Some(t) => se_timpl(t),
            Option::None => "null"@,
        }) + seq!['}']);
    }
}

#[verifier::rlimit(100)]
#[verifier::spinoff_prover]
fn emit_qd_implementors(out: &mut Vec<char>, types: &Vec<TypeSummary>)
    ensures
        final(out)@ == old(out)@ + "{\"type\":\"implementors\",\"types\":"@
            + se_summaries_arr(types@) + seq!['}'],
{
    emit_raw(out, "{\"type\":\"implementors\",\"types\":");
    emit_type_summaries(out, types);
    out.push('}');
    proof {
        assert(out@ =~= old(out)@ + "{\"type\":\"implementors\",\"types\":"@
            + se_summaries_arr(types@) + seq!['}']);
    }
}

/// Append the spelling of a successful payload, as one tagged object.
#[verifier::rlimit(100)]
#[verifier::spinoff_prover]
pub fn emit_query_data(out: &mut Vec<char>, data: &QueryData)
    ensures
        final(out)@ == old(out)@ + se_query_data(*data),
{
    match data {
        QueryData::Items { items } => emit_qd_items(out, items),
        QueryData::TypeInfo(td) => emit_qd_type_info(out, td),
        QueryData::TraitImpls { impls } => emit_qd_trait_impls(out, impls),
        QueryData::InherentImpls { impls } => emit_qd_inherent_impls(out, impls),
        QueryData::Fields { fields } => emit_qd_fields(out, fields),
        QueryData::Layout(l) => emit_qd_layout(out, l),
        QueryData::Traits { traits } => emit_qd_traits(out, traits),
        QueryData::TraitDetails(td) => emit_qd_trait_details(out, td),
        QueryData::Types { types } => emit_qd_types(out, types),
        QueryData::ResolvedType { original, resolved, chain } => {
            emit_qd_resolved(out, original, resolved, chain);
        },
        QueryData::ImplCheck { implements, impl_info } => {
            emit_qd_impl_check(out, *implements, impl_info);
        },
        QueryData::Implementors { types } => {
            emit_qd_implementors(out, types);
        },
        QueryData::Pong => {
            emit_raw(out, "{\"type\":\"pong\"}");
        },
        QueryData::ShuttingDown => {
            emit_raw(out, "{\"type\":\"shutting_down\"}");
        },
    }
}

/// Consume the literal `lit` at `i`, if present.
fn expect_str(s: &[char], i: usize, lit: &str) -> (r: Option<usize>)
    requires
        i <= s@.len(),
    ensures
        match r {
            Some(j) => i < j <= s@.len(),
            None => true,
        },
{
    let cs = to_chars(lit);
    if cs.len() == 0 {
        return None;
    }
    if lit_at(s, i, cs.as_slice()) {
        let slen = s.len();
        proof {
            assert(i + cs@.len() <= slen);
        }
        Some(i + cs.len())
    } else {
        None
    }
}

fn parse_bool(s: &[char], i: usize) -> (r: Option<(bool, usize)>)
    requires
        i <= s@.len(),
    ensures
        match r {
            Some((_, j)) => i < j <= s@.len(),
            None => true,
        },
{
    match expect_str(s, i, "true") {
        Some(j) => Some((true, j)),
        None => match expect_str(s, i, "false") {
            Some(j) => Some((false, j)),
            None => None,
        },
    }
}

fn parse_string(s: &[char], i: usize) -> (r: Option<(String, usize)>)
    requires
        i <= s@.len(),
    ensures
        match r {
            Some((_, j)) => i < j <= s@.len(),
            None => true,
        },
{
    match parse_str_lit(s, i) {
        Some((v, j)) => Some((from_chars(v.as_slice()), j)),
        None => None,
    }
}

fn parse_opt_string(s: &[char], i: usize) -> (r: Option<(Option<String>, usize)>)
    requires
        i <= s@.len(),
    ensures
        match r {
            Some((_, j)) => i < j <= s@.len(),
            None => true,
        },
{
    match expect_str(s, i, "null") {
        Some(j) => Some((None, j)),
        None => match parse_string(s, i) {
            Some((v, j)) => Some((Some(v), j)),
            None => None,
        },
    }
}

fn parse_usize_v(s: &[char], i: usize) -> (r: Option<(usize, usize)>)
    requires
        i <= s@.len(),
    ensures
        match r {
            Some((_, j)) => i < j <= s@.len(),
            None => true,
        },
{
    match parse_u64(s, i) {
        Some((v, j)) => {
            if v <= usize::MAX as u64 {
                Some((v as usize, j))
            } else {
                None
            }
        },
        None => None,
    }
}

fn parse_opt_usize(s: &[char], i: usize) -> (r: Option<(Option<usize>, usize)>)
    requires
        i <= s@.len(),
    ensures
        match r {
            Some((_, j)) => i < j <= s@.len(),
            None => true,
        },
{
    match expect_str(s, i, "null") {
        Some(j) => Some((None, j)),
        None => match parse_usize_v(s, i) {
            Some((v, j)) => Some((Some(v), j)),
            None => None,
        },
    }
}

fn parse_u32_v(s: &[char], i: usize) -> (r: Option<(u32, usize)>)
    requires
        i <= s@.len(),
    ensures
        match r {
            Some((_, j)) => i < j <= s@.len(),
            None => true,
        },
{
    match parse_u64(s, i) {
        Some((v, j)) => {
            if v <= u32::MAX as u64 {
                Some((v as u32, j))
            } else {
                None
            }
        },
        None => None,
    }
}

fn parse_i128_v(s: &[char], i: usize) -> (r: Option<(i128, usize)>)
    requires
        i <= s@.len(),
    ensures
        match r {
            Some((_, j)) => i < j <= s@.len(),
            None => true,
        },
{
    let n = s.len();
    let mut pos = i;
    let mut neg = false;
    if pos < n && s[pos] == '-' {
        neg = true;
        pos = pos + 1;
    }
    let mut acc: u128 = 0;
    let mut digits: usize = 0;
    while pos < n && is_digit_char(s[pos])
        invariant
            i <= pos <= n,
            n == s@.len(),
            i + digits <= pos,
        decreases n - pos,
    {
        let d = digit_char_val(s[pos]);
        if acc > u128::MAX / 10 {
            return None;
        }
        let shifted = acc * 10;
        if shifted > u128::MAX - (d as u128) {
            return None;
        }
        acc = shifted + (d as u128);
        digits = digits + 1;
        pos = pos + 1;
    }
    if digits == 0 {
        return None;
    }
    if neg {
        if acc > (i128::MAX as u128) + 1 {
            return None;
        }
        if acc == (i128::MAX as u128) + 1 {
            Some((i128::MIN, pos))
        } else {
            Some((-(acc as i128), pos))
        }
    } else {
        if acc > i128::MAX as u128 {
            return None;
        }
        Some((acc as i128, pos))
    }
}

fn is_digit_char(c: char) -> (r: bool) {
    c == '0' || c == '1' || c == '2' || c == '3' || c == '4' || c == '5' || c == '6' || c == '7'
        || c == '8' || c == '9'
}

fn digit_char_val(c: char) -> (r: u64)
    ensures
        r < 10,
{
    if c == '0' {
        0
    } else if c == '1' {
        1
    } else if c == '2' {
        2
    } else if c == '3' {
        3
    } else if c == '4' {
        4
    } else if c == '5' {
        5
    } else if c == '6' {
        6
    } else if c == '7' {
        7
    } else if c == '8' {
        8
    } else {
        9
    }
}

fn parse_str_array(s: &[char], i: usize) -> (r: Option<(Vec<String>, usize)>)
    requires
        i <= s@.len(),
    ensures
        match r {
            Some((_, j)) => i < j <= s@.len(),
            None => true,
        },
{
    let n = s.len();
    if !(i < n && s[i] == '[') {
        return None;
    }
    let mut pos = i + 1;
    let mut out: Vec<String> = Vec::new();
    if pos < n && s[pos] == ']' {
        return Some((out, pos + 1));
    }
    loop
        invariant
            i < pos <= n,
            n == s@.len(),
        decreases n - pos,
    {
        match parse_string(s, pos) {
            Some((v, j)) => {
                out.push(v);
                pos = j;
            },
            None => {
                return None;
            },
        }
        if pos < n && s[pos] == ']' {
            return Some((out, pos + 1));
        }
        if pos < n && s[pos] == ',' {
            pos = pos + 1;
        } else {
            return None;
        }
    }
}

fn parse_span(s: &[char], i: usize) -> (r: Option<(SpanInfo, usize)>)
    requires
        i <= s@.len(),
    ensures
        match r {
            Some((_, j)) => i < j <= s@.len(),
            None => true,
        },
{
    let pos = match expect_str(s, i, "{\"file\":") {
        Some(j) => j,
        None => {
            return None;
        },
    };
    let (file, pos) = match parse_string(s, pos) {
        Some(p) => p,
        None => {
            return None;
        },
    };
    let pos = match expect_str(s, pos, ",\"start_line\":") {
        Some(j) => j,
        None => {
            return None;
        },
    };
    let (start_line, pos) = match parse_u32_v(s, pos) {
        Some(p) => p,
        None => {
            return None;
        },
    };
    let pos = match expect_str(s, pos, ",\"start_col\":") {
        Some(j) => j,
        None => {
            return None;
        },
    };
    let (start_col, pos) = match parse_u32_v(s, pos) {
        Some(p) => p,
        None => {
            return None;
        },
    };
    let pos = match expect_str(s, pos, ",\"end_line\":") {
        Some(j) => j,
        None => {
            return None;
        },
    };
    let (end_line, pos) = match parse_u32_v(s, pos) {
        Some(p) => p,
        None => {
            return None;
        },
    };
    let pos = match expect_str(s, pos, ",\"end_col\":") {
        Some(j) => j,
        None => {
            return None;
        },
    };
    let (end_col, pos) = match parse_u32_v(s, pos) {
        Some(p) => p,
        None => {
            return None;
        },
    };
    let pos = match expect_str(s, pos, "}") {
        Some(j) => j,
        None => {
            return None;
        },
    };
    Some((SpanInfo { file, start_line, start_col, end_line, end_col }, pos))
}

fn parse_opt_span(s: &[char], i: usize) -> (r: Option<(Option<SpanInfo>, usize)>)
    requires
        i <= s@.len(),
    ensures
        match r {
            Some((_, j)) => i < j <= s@.len(),
            None => true,
        },
{
    match expect_str(s, i, "null") {
        Some(j) => Some((None, j)),
        None => match parse_span(s, i) {
            Some((v, j)) => Some((Some(v), j)),
            None => None,
        },
    }
}

fn parse_visibility(s: &[char], i: usize) -> (r: Option<(Visibility, usize)>)
    requires
        i <= s@.len(),
    ensures
        match r {
            Some((_, j)) => i < j <= s@.len(),
            None => true,
        },
{
    match expect_str(s, i, "\"public\"") {
        Some(j) => {
            return Some((Visibility::Public, j));
        },
        None => {},
    }
    match expect_str(s, i, "\"crate\"") {
        Some(j) => {
            return Some((Visibility::Crate, j));
        },
        None => {},
    }
    match expect_str(s, i, "\"private\"") {
        Some(j) => {
            return Some((Visibility::Private, j));
        },
        None => {},
    }
    let pos = match expect_str(s, i, "{\"restricted\":{\"path\":") {
        Some(j) => j,
        None => {
            return None;
        },
    };
    let (path, pos) = match parse_string(s, pos) {
        Some(p) => p,
        None => {
            return None;
        },
    };
    match expect_str(s, pos, "}}") {
        Some(j) => Some((Visibility::Restricted { path }, j)),
        None => None,
    }
}

fn parse_item_kind(s: &[char], i: usize) -> (r: Option<(ItemKind, usize)>)
    requires
        i <= s@.len(),
    ensures
        match r {
            Some((_, j)) => i < j <= s@.len(),
            None => true,
        },
{
    match expect_str(s, i, "\"struct\"") {
        Some(j) => {
            return Some((ItemKind::Struct, j));
        },
        None => {},
    }
    match expect_str(s, i, "\"enum\"") {
        Some(j) => {
            return Some((ItemKind::Enum, j));
        },
        None => {},
    }
    match expect_str(s, i, "\"union\"") {
        Some(j) => {
            return Some((ItemKind::Union, j));
        },
        None => {},
    }
    match expect_str(s, i, "\"trait_alias\"") {
        Some(j) => {
            return Some((ItemKind::TraitAlias, j));
        },
        None => {},
    }
    match expect_str(s, i, "\"trait\"") {
        Some(j) => {
            return Some((ItemKind::Trait, j));
        },
        None => {},
    }
    match expect_str(s, i, "\"function\"") {
        Some(j) => {
            return Some((ItemKind::Function, j));
        },
        None => {},
    }
    match expect_str(s, i, "\"const\"") {
        Some(j) => {
            return Some((ItemKind::Const, j));
        },
        None => {},
    }
    match expect_str(s, i, "\"static\"") {
        Some(j) => {
            return Some((ItemKind::Static, j));
        },
        None => {},
    }
    match expect_str(s, i, "\"type_alias\"") {
        Some(j) => {
            return Some((ItemKind::TypeAlias, j));
        },
        None => {},
    }
    match expect_str(s, i, "\"impl\"") {
        Some(j) => {
            return Some((ItemKind::Impl, j));
        },
        None => {},
    }
    match expect_str(s, i, "\"mod\"") {
        Some(j) => {
            return Some((ItemKind::Mod, j));
        },
        None => {},
    }
    match expect_str(s, i, "\"use\"") {
        Some(j) => {
            return Some((ItemKind::Use, j));
        },
        None => {},
    }
    match expect_str(s, i, "\"exte") {
        Some(j) => {
            match expect_str(s, j, "rn_crate\"") {
                Some(k) => {
                    return Some((ItemKind::ExternCrate, k));
                },
                None => {
                    return None;
                },
            }
        },
        None => {},
    }
    match expect_str(s, i, "\"macro\"") {
        Some(j) => {
            return Some((ItemKind::Macro, j));
        },
        None => {},
    }
    let pos = match expect_str(s, i, "{\"other\":") {
        Some(j) => j,
        None => {
            return None;
        },
    };
    let (v, pos) = match parse_string(s, pos) {
        Some(p) => p,
        None => {
            return None;
        },
    };
    match expect_str(s, pos, "}") {
        Some(j) => Some((ItemKind::Other(v), j)),
        None => None,
    }
}

fn parse_type_kind(s: &[char], i: usize) -> (r: Option<(TypeKind, usize)>)
    requires
        i <= s@.len(),
    ensures
        match r {
            Some((_, j)) => i < j <= s@.len(),
            None => true,
        },
{
    match expect_str(s, i, "\"struct\"") {
        Some(j) => {
            return Some((TypeKind::Struct, j));
        },
        None => {},
    }
    match expect_str(s, i, "\"enum\"") {
        Some(j) => {
            return Some((TypeKind::Enum, j));
        },
        None => {},
    }
    match expect_str(s, i, "\"union\"") {
        Some(j) => {
            return Some((TypeKind::Union, j));
        },
        None => {},
    }
    match expect_str(s, i, "\"trait\"") {
        Some(j) => {
            return Some((TypeKind::Trait, j));
        },
        None => {},
    }
    match expect_str(s, i, "\"type_alias\"") {
        Some(j) => {
            return Some((TypeKind::TypeAlias, j));
        },
        None => {},
    }
    match expect_str(s, i, "\"primitive\"") {
        Some(j) => {
            return Some((TypeKind::Primitive, j));
        },
        None => {},
    }
    match expect_str(s, i, "\"tuple\"") {
        Some(j) => {
            return Some((TypeKind::Tuple, j));
        },
        None => {},
    }
    match expect_str(s, i, "\"array\"") {
        Some(j) => {
            return Some((TypeKind::Array, j));
        },
        None => {},
    }
    match expect_str(s, i, "\"slice\"") {
        Some(j) => {
            return Some((TypeKind::Slice, j));
        },
        None => {},
    }
    match expect_str(s, i, "\"reference\"") {
        Some(j) => {
            return Some((TypeKind::Reference, j));
        },
        None => {},
    }
    match expect_str(s, i, "\"pointer\"") {
        Some(j) => {
            return Some((TypeKind::Pointer, j));
        },
        None => {},
    }
    match expect_str(s, i, "\"function\"") {
        Some(j) => {
            return Some((TypeKind::Function, j));
        },
        None => {},
    }
    match expect_str(s, i, "\"closure\"") {
        Some(j) => {
            return Some((TypeKind::Closure, j));
        },
        None => {},
    }
    match expect_str(s, i, "\"opaque\"") {
        Some(j) => Some((TypeKind::Opaque, j)),
        None => None,
    }
}

fn parse_gpk(s: &[char], i: usize) -> (r: Option<(GenericParamKind, usize)>)
    requires
        i <= s@.len(),
    ensures
        match r {
            Some((_, j)) => i < j <= s@.len(),
            None => true,
        },
{
    match expect_str(s, i, "\"lifetime\"") {
        Some(j) => {
            return Some((GenericParamKind::Lifetime, j));
        },
        None => {},
    }
    match expect_str(s, i, "\"type\"") {
        Some(j) => {
            return Some((GenericParamKind::Type, j));
        },
        None => {},
    }
    let pos = match expect_str(s, i, "{\"const\":{\"ty\":") {
        Some(j) => j,
        None => {
            return None;
        },
    };
    let (ty, pos) = match parse_string(s, pos) {
        Some(p) => p,
        None => {
            return None;
        },
    };
    match expect_str(s, pos, "}}") {
        Some(j) => Some((GenericParamKind::Const { ty }, j)),
        None => None,
    }
}

fn parse_gp(s: &[char], i: usize) -> (r: Option<(GenericParam, usize)>)
    requires
        i <= s@.len(),
    ensures
        match r {
            Some((_, j)) => i < j <= s@.len(),
            None => true,
        },
{
    let pos = match expect_str(s, i, "{\"name\":") {
        Some(j) => j,
        None => {
            return None;
        },
    };
    let (name, pos) = match parse_string(s, pos) {
        Some(p) => p,
        None => {
            return None;
        },
    };
    let pos = match expect_str(s, pos, ",\"kind\":") {
        Some(j) => j,
        None => {
            return None;
        },
    };
    let (kind, pos) = match parse_gpk(s, pos) {
        Some(p) => p,
        None => {
            return None;
        },
    };
    let pos = match expect_str(s, pos, ",\"bounds\":") {
        Some(j) => j,
        None => {
            return None;
        },
    };
    let (bounds, pos) = match parse_str_array(s, pos) {
        Some(p) => p,
        None => {
            return None;
        },
    };
    let pos = match expect_str(s, pos, ",\"default\":") {
        Some(j) => j,
        None => {
            return None;
        },
    };
    let (default, pos) = match parse_opt_string(s, pos) {
        Some(p) => p,
        None => {
            return None;
        },
    };
    let pos = match expect_str(s, pos, "}") {
        Some(j) => j,
        None => {
            return None;
        },
    };
    Some((GenericParam { name, kind, bounds, default }, pos))
}

fn parse_gps_array(s: &[char], i: usize) -> (r: Option<(Vec<GenericParam>, usize)>)
    requires
        i <= s@.len(),
    ensures
        match r {
            Some((_, j)) => i < j <= s@.len(),
            None => true,
        },
{
    let n = s.len();
    if !(i < n && s[i] == '[') {
        return None;
    }
    let mut pos = i + 1;
    let mut out: Vec<GenericParam> = Vec::new();
    if pos < n && s[pos] == ']' {
        return Some((out, pos + 1));
    }
    loop
        invariant
            i < pos <= n,
            n == s@.len(),
        decreases n - pos,
    {
        match parse_gp(s, pos) {
            Some((v, j)) => {
                out.push(v);
                pos = j;
            },
            None => {
                return None;
            },
        }
        if pos < n && s[pos] == ']' {
            return Some((out, pos + 1));
        }
        if pos < n && s[pos] == ',' {
            pos = pos + 1;
        } else {
            return None;
        }
    }
}

fn parse_field_info(s: &[char], i: usize) -> (r: Option<(FieldInfo, usize)>)
    requires
        i <= s@.len(),
    ensures
        match r {
            Some((_, j)) => i < j <= s@.len(),
            None => true,
        },
{
    let pos = match expect_str(s, i, "{\"name\":") {
        Some(j) => j,
        None => {
            return None;
        },
    };
    let (name, pos) = match parse_opt_string(s, pos) {
        Some(p) => p,
        None => {
            return None;
        },
    };
    let pos = match expect_str(s, pos, ",\"index\":") {
        Some(j) => j,
        None => {
            return None;
        },
    };
    let (index, pos) = match parse_usize_v(s, pos) {
        Some(p) => p,
        None => {
            return None;
        },
    };
    let pos = match expect_str(s, pos, ",\"ty\":") {
        Some(j) => j,
        None => {
            return None;
        },
    };
    let (ty, pos) = match parse_string(s, pos) {
        Some(p) => p,
        None => {
            return None;
        },
    };
    let pos = match expect_str(s, pos, ",\"resolved_ty\":") {
        Some(j) => j,
        None => {
            return None;
        },
    };
    let (resolved_ty, pos) = match parse_opt_string(s, pos) {
        Some(p) => p,
        None => {
            return None;
        },
    };
    let pos = match expect_str(s, pos, ",\"visibility\":") {
        Some(j) => j,
        None => {
            return None;
        },
    };
    let (visibility, pos) = match parse_visibility(s, pos) {
        Some(p) => p,
        None => {
            return None;
        },
    };
    let pos = match expect_str(s, pos, ",\"docs\":") {
        Some(j) => j,
        None => {
            return None;
        },
    };
    let (docs, pos) = match parse_opt_string(s, pos) {
        Some(p) => p,
        None => {
            return None;
        },
    };
    let pos = match expect_str(s, pos, ",\"attributes\":") {
        Some(j) => j,
        None => {
            return None;
        },
    };
    let (attributes, pos) = match parse_str_array(s, pos) {
        Some(p) => p,
        None => {
            return None;
        },
    };
    let pos = match expect_str(s, pos, ",\"offset\":") {
        Some(j) => j,
        None => {
            return None;
        },
    };
    let (offset, pos) = match parse_opt_usize(s, pos) {
        Some(p) => p,
        None => {
            return None;
        },
    };
    let pos = match expect_str(s, pos, ",\"size\":") {
        Some(j) => j,
        None => {
            return None;
        },
    };
    let (size, pos) = match parse_opt_usize(s, pos) {
        Some(p) => p,
        None => {
            return None;
        },
    };
    let pos = match expect_str(s, pos, ",\"span\":") {
        Some(j) => j,
        None => {
            return None;
        },
    };
    let (span, pos) = match parse_opt_span(s, pos) {
        Some(p) => p,
        None => {
            return None;
        },
    };
    let pos = match expect_str(s, pos, "}") {
        Some(j) => j,
        None => {
            return None;
        },
    };
    Some((FieldInfo { name, index, ty, resolved_ty, visibility, docs, attributes, offset, size, span }, pos))
}

fn parse_fields_array(s: &[char], i: usize) -> (r: Option<(Vec<FieldInfo>, usize)>)
    requires
        i <= s@.len(),
    ensures
        match r {
            Some((_, j)) => i < j <= s@.len(),
            None => true,
        },
{
    let n = s.len();
    if !(i < n && s[i] == '[') {
        return None;
    }
    let mut pos = i + 1;
    let mut out: Vec<FieldInfo> = Vec::new();
    if pos < n && s[pos] == ']' {
        return Some((out, pos + 1));
    }
    loop
        invariant
            i < pos <= n,
            n == s@.len(),
        decreases n - pos,
    {
        match parse_field_info(s, pos) {
            Some((v, j)) => {
                out.push(v);
                pos = j;
            },
            None => {
                return None;
            },
        }
        if pos < n && s[pos] == ']' {
            return Some((out, pos + 1));
        }
        if pos < n && s[pos] == ',' {
            pos = pos + 1;
        } else {
            return None;
        }
    }
}

fn parse_opt_fields(s: &[char], i: usize) -> (r: Option<(Option<Vec<FieldInfo>>, usize)>)
    requires
        i <= s@.len(),
    ensures
        match r {
            Some((_, j)) => i < j <= s@.len(),
            None => true,
        },
{
    match expect_str(s, i, "null") {
        Some(j) => Some((None, j)),
        None => match parse_fields_array(s, i) {
            Some((v, j)) => Some((Some(v), j)),
            None => None,
        },
    }
}

fn parse_variant(s: &[char], i: usize) -> (r: Option<(EnumVariantInfo, usize)>)
    requires
        i <= s@.len(),
    ensures
        match r {
            Some((_, j)) => i < j <= s@.len(),
            None => true,
        },
{
    let pos = match expect_str(s, i, "{\"name\":") {
        Some(j) => j,
        None => {
            return None;
        },
    };
    let (name, pos) = match parse_string(s, pos) {
        Some(p) => p,
        None => {
            return None;
        },
    };
    let pos = match expect_str(s, pos, ",\"index\":") {
        Some(j) => j,
        None => {
            return None;
        },
    };
    let (index, pos) = match parse_usize_v(s, pos) {
        Some(p) => p,
        None => {
            return None;
        },
    };
    let pos = match expect_str(s, pos, ",\"fields\":") {
        Some(j) => j,
        None => {
            return None;
        },
    };
    let (fields, pos) = match parse_fields_array(s, pos) {
        Some(p) => p,
        None => {
            return None;
        },
    };
    let pos = match expect_str(s, pos, ",\"discriminant\":") {
        Some(j) => j,
        None => {
            return None;
        },
    };
    let (discriminant, pos) = match parse_opt_string(s, pos) {
        Some(p) => p,
        None => {
            return None;
        },
    };
    let pos = match expect_str(s, pos, ",\"docs\":") {
        Some(j) => j,
        None => {
            return None;
        },
    };
    let (docs, pos) = match parse_opt_string(s, pos) {
        Some(p) => p,
        None => {
            return None;
        },
    };
    let pos = match expect_str(s, pos, ",\"attributes\":") {
        Some(j) => j,
        None => {
            return None;
        },
    };
    let (attributes, pos) = match parse_str_array(s, pos) {
        Some(p) => p,
        None => {
            return None;
        },
    };
    let pos = match expect_str(s, pos, ",\"span\":") {
        Some(j) => j,
        None => {
            return None;
        },
    };
    let (span, pos) = match parse_opt_span(s, pos) {
        Some(p) => p,
        None => {
            return None;
        },
    };
    let pos = match expect_str(s, pos, "}") {
        Some(j) => j,
        None => {
            return None;
        },
    };
    Some((EnumVariantInfo { name, index, fields, discriminant, docs, attributes, span }, pos))
}

fn parse_variants_array(s: &[char], i: usize) -> (r: Option<(Vec<EnumVariantInfo>, usize)>)
    requires
        i <= s@.len(),
    ensures
        match r {
            Some((_, j)) => i < j <= s@.len(),
            None => true,
        },
{
    let n = s.len();
    if !(i < n && s[i] == '[') {
        return None;
    }
    let mut pos = i + 1;
    let mut out: Vec<EnumVariantInfo> = Vec::new();
    if pos < n && s[pos] == ']' {
        return Some((out, pos + 1));
    }
    loop
        invariant
            i < pos <= n,
            n == s@.len(),
        decreases n - pos,
    {
        match parse_variant(s, pos) {
            Some((v, j)) => {
                out.push(v);
                pos = j;
            },
            None => {
                return None;
            },
        }
        if pos < n && s[pos] == ']' {
            return Some((out, pos + 1));
        }
        if pos < n && s[pos] == ',' {
            pos = pos + 1;
        } else {
            return None;
        }
    }
}

fn parse_opt_variants(s: &[char], i: usize) -> (r: Option<(Option<Vec<EnumVariantInfo>>, usize)>)
    requires
        i <= s@.len(),
    ensures
        match r {
            Some((_, j)) => i < j <= s@.len(),
            None => true,
        },
{
    match expect_str(s, i, "null") {
        Some(j) => Some((None, j)),
        None => match parse_variants_array(s, i) {
            Some((v, j)) => Some((Some(v), j)),
            None => None,
        },
    }
}

fn parse_fli(s: &[char], i: usize) -> (r: Option<(FieldLayoutInfo, usize)>)
    requires
        i <= s@.len(),
    ensures
        match r {
            Some((_, j)) => i < j <= s@.len(),
            None => true,
        },
{
    let pos = match expect_str(s, i, "{\"name\":") {
        Some(j) => j,
        None => {
            return None;
        },
    };
    let (name, pos) = match parse_opt_string(s, pos) {
        Some(p) => p,
        None => {
            return None;
        },
    };
    let pos = match expect_str(s, pos, ",\"index\":") {
        Some(j) => j,
        None => {
            return None;
        },
    };
    let (index, pos) = match parse_usize_v(s, pos) {
        Some(p) => p,
        None => {
            return None;
        },
    };
    let pos = match expect_str(s, pos, ",\"offset\":") {
        Some(j) => j,
        None => {
            return None;
        },
    };
    let (offset, pos) = match parse_usize_v(s, pos) {
        Some(p) => p,
        None => {
            return None;
        },
    };
    let pos = match expect_str(s, pos, ",\"size\":") {
        Some(j) => j,
        None => {
            return None;
        },
    };
    let (size, pos) = match parse_usize_v(s, pos) {
        Some(p) => p,
        None => {
            return None;
        },
    };
    let pos = match expect_str(s, pos, "}") {
        Some(j) => j,
        None => {
            return None;
        },
    };
    Some((FieldLayoutInfo { name, index, offset, size }, pos))
}

fn parse_flis_array(s: &[char], i: usize) -> (r: Option<(Vec<FieldLayoutInfo>, usize)>)
    requires
        i <= s@.len(),
    ensures
        match r {
            Some((_, j)) => i < j <= s@.len(),
            None => true,
        },
{
    let n = s.len();
    if !(i < n && s[i] == '[') {
        return None;
    }
    let mut pos = i + 1;
    let mut out: Vec<FieldLayoutInfo> = Vec::new();
    if pos < n && s[pos] == ']' {
        return Some((out, pos + 1));
    }
    loop
        invariant
            i < pos <= n,
            n == s@.len(),
        decreases n - pos,
    {
        match parse_fli(s, pos) {
            Some((v, j)) => {
                out.push(v);
                pos = j;
            },
            None => {
                return None;
            },
        }
        if pos < n && s[pos] == ']' {
            return Some((out, pos + 1));
        }
        if pos < n && s[pos] == ',' {
            pos = pos + 1;
        } else {
            return None;
        }
    }
}

fn parse_opt_flis(s: &[char], i: usize) -> (r: Option<(Option<Vec<FieldLayoutInfo>>, usize)>)
    requires
        i <= s@.len(),
    ensures
        match r {
            Some((_, j)) => i < j <= s@.len(),
            None => true,
        },
{
    match expect_str(s, i, "null") {
        Some(j) => Some((None, j)),
        None => match parse_flis_array(s, i) {
            Some((v, j)) => Some((Some(v), j)),
            None => None,
        },
    }
}

fn parse_opt_i128(s: &[char], i: usize) -> (r: Option<(Option<i128>, usize)>)
    requires
        i <= s@.len(),
    ensures
        match r {
            Some((_, j)) => i < j <= s@.len(),
            None => true,
        },
{
    match expect_str(s, i, "null") {
        Some(j) => Some((None, j)),
        None => match parse_i128_v(s, i) {
            Some((v, j)) => Some((Some(v), j)),
            None => None,
        },
    }
}

fn parse_vli(s: &[char], i: usize) -> (r: Option<(VariantLayoutInfo, usize)>)
    requires
        i <= s@.len(),
    ensures
        match r {
            Some((_, j)) => i < j <= s@.len(),
            None => true,
        },
{
    let pos = match expect_str(s, i, "{\"name\":") {
        Some(j) => j,
        None => {
            return None;
        },
    };
    let (name, pos) = match parse_string(s, pos) {
        Some(p) => p,
        None => {
            return None;
        },
    };
    let pos = match expect_str(s, pos, ",\"discriminant\":") {
        Some(j) => j,
        None => {
            return None;
        },
    };
    let (discriminant, pos) = match parse_opt_i128(s, pos) {
        Some(p) => p,
        None => {
            return None;
        },
    };
    let pos = match expect_str(s, pos, ",\"fields\":") {
        Some(j) => j,
        None => {
            return None;
        },
    };
    let (fields, pos) = match parse_flis_array(s, pos) {
        Some(p) => p,
        None => {
            return None;
        },
    };
    let pos = match expect_str(s, pos, "}") {
        Some(j) => j,
        None => {
            return None;
        },
    };
    Some((VariantLayoutInfo { name, discriminant, fields }, pos))
}

fn parse_vlis_array(s: &[char], i: usize) -> (r: Option<(Vec<VariantLayoutInfo>, usize)>)
    requires
        i <= s@.len(),
    ensures
        match r {
            Some((_, j)) => i < j <= s@.len(),
            None => true,
        },
{
    let n = s.len();
    if !(i < n && s[i] == '[') {
        return None;
    }
    let mut pos = i + 1;
    let mut out: Vec<VariantLayoutInfo> = Vec::new();
    if pos < n && s[pos] == ']' {
        return Some((out, pos + 1));
    }
    loop
        invariant
            i < pos <= n,
            n == s@.len(),
        decreases n - pos,
    {
        match parse_vli(s, pos) {
            Some((v, j)) => {
                out.push(v);
                pos = j;
            },
            None => {
                return None;
            },
        }
        if pos < n && s[pos] == ']' {
            return Some((out, pos + 1));
        }
        if pos < n && s[pos] == ',' {
            pos = pos + 1;
        } else {
            return None;
        }
    }
}

fn parse_opt_vlis(s: &[char], i: usize) -> (r: Option<(Option<Vec<VariantLayoutInfo>>, usize)>)
    requires
        i <= s@.len(),
    ensures
        match r {
            Some((_, j)) => i < j <= s@.len(),
            None => true,
        },
{
    match expect_str(s, i, "null") {
        Some(j) => Some((None, j)),
        None => match parse_vlis_array(s, i) {
            Some((v, j)) => Some((Some(v), j)),
            None => None,
        },
    }
}

fn parse_layout_inner(s: &[char], i: usize) -> (r: Option<(LayoutInfo, usize)>)
    requires
        i <= s@.len(),
    ensures
        match r {
            Some((_, j)) => i < j <= s@.len(),
            None => true,
        },
{
    let pos = match expect_str(s, i, "\"size\":") {
        Some(j) => j,
        None => {
            return None;
        },
    };
    let (size, pos) = match parse_usize_v(s, pos) {
        Some(p) => p,
        None => {
            return None;
        },
    };
    let pos = match expect_str(s, pos, ",\"align\":") {
        Some(j) => j,
        None => {
            return None;
        },
    };
    let (align, pos) = match parse_usize_v(s, pos) {
        Some(p) => p,
        None => {
            return None;
        },
    };
    let pos = match expect_str(s, pos, ",\"field_offsets\":") {
        Some(j) => j,
        None => {
            return None;
        },
    };
    let (field_offsets, pos) = match parse_opt_flis(s, pos) {
        Some(p) => p,
        None => {
            return None;
        },
    };
    let pos = match expect_str(s, pos, ",\"variants\":") {
        Some(j) => j,
        None => {
            return None;
        },
    };
    let (variants, pos) = match parse_opt_vlis(s, pos) {
        Some(p) => p,
        None => {
            return None;
        },
    };
    let pos = match expect_str(s, pos, ",\"is_sized\":") {
        Some(j) => j,
        None => {
            return None;
        },
    };
    let (is_sized, pos) = match parse_bool(s, pos) {
        Some(p) => p,
        None => {
            return None;
        },
    };
    let pos = match expect_str(s, pos, ",\"is_copy\":") {
        Some(j) => j,
        None => {
            return None;
        },
    };
    let (is_copy, pos) = match parse_bool(s, pos) {
        Some(p) => p,
        None => {
            return None;
        },
    };
    let pos = match expect_str(s, pos, ",\"is_send\":") {
        Some(j) => j,
        None => {
            return None;
        },
    };
    let (is_send, pos) = match parse_bool(s, pos) {
        Some(p) => p,
        None => {
            return None;
        },
    };
    let pos = match expect_str(s, pos, ",\"is_sync\":") {
        Some(j) => j,
        None => {
            return None;
        },
    };
    let (is_sync, pos) = match parse_bool(s, pos) {
        Some(p) => p,
        None => {
            return None;
        },
    };
    Some((LayoutInfo { size, align, field_offsets, variants, is_sized, is_copy, is_send, is_sync }, pos))
}

fn parse_layout(s: &[char], i: usize) -> (r: Option<(LayoutInfo, usize)>)
    requires
        i <= s@.len(),
    ensures
        match r {
            Some((_, j)) => i < j <= s@.len(),
            None => true,
        },
{
    let pos = match expect_str(s, i, "{") {
        Some(j) => j,
        None => {
            return None;
        },
    };
    let (l, pos) = match parse_layout_inner(s, pos) {
        Some(p) => p,
        None => {
            return None;
        },
    };
    match expect_str(s, pos, "}") {
        Some(j) => Some((l, j)),
        None => None,
    }
}

fn parse_opt_layout(s: &[char], i: usize) -> (r: Option<(Option<LayoutInfo>, usize)>)
    requires
        i <= s@.len(),
    ensures
        match r {
            Some((_, j)) => i < j <= s@.len(),
            None => true,
        },
{
    match expect_str(s, i, "null") {
        Some(j) => Some((None, j)),
        None => match parse_layout(s, i) {
            Some((v, j)) => Some((Some(v), j)),
            None => None,
        },
    }
}

fn parse_msum(s: &[char], i: usize) -> (r: Option<(MethodSummary, usize)>)
    requires
        i <= s@.len(),
    ensures
        match r {
            Some((_, j)) => i < j <= s@.len(),
            None => true,
        },
{
    let pos = match expect_str(s, i, "{\"name\":") {
        Some(j) => j,
        None => {
            return None;
        },
    };
    let (name, pos) = match parse_string(s, pos) {
        Some(p) => p,
        None => {
            return None;
        },
    };
    let pos = match expect_str(s, pos, ",\"path\":") {
        Some(j) => j,
        None => {
            return None;
        },
    };
    let (path, pos) = match parse_string(s, pos) {
        Some(p) => p,
        None => {
            return None;
        },
    };
    let pos = match expect_str(s, pos, ",\"signature\":") {
        Some(j) => j,
        None => {
            return None;
        },
    };
    let (signature, pos) = match parse_string(s, pos) {
        Some(p) => p,
        None => {
            return None;
        },
    };
    let pos = match expect_str(s, pos, ",\"is_unsafe\":") {
        Some(j) => j,
        None => {
            return None;
        },
    };
    let (is_unsafe, pos) = match parse_bool(s, pos) {
        Some(p) => p,
        None => {
            return None;
        },
    };
    let pos = match expect_str(s, pos, ",\"is_const\":") {
        Some(j) => j,
        None => {
            return None;
        },
    };
    let (is_const, pos) = match parse_bool(s, pos) {
        Some(p) => p,
        None => {
            return None;
        },
    };
    let pos = match expect_str(s, pos, ",\"is_async\":") {
        Some(j) => j,
        None => {
            return None;
        },
    };
    let (is_async, pos) = match parse_bool(s, pos) {
        Some(p) => p,
        None => {
            return None;
        },
    };
    let pos = match expect_str(s, pos, "}") {
        Some(j) => j,
        None => {
            return None;
        },
    };
    Some((MethodSummary { name, path, signature, is_unsafe, is_const, is_async }, pos))
}

fn parse_msums_array(s: &[char], i: usize) -> (r: Option<(Vec<MethodSummary>, usize)>)
    requires
        i <= s@.len(),
    ensures
        match r {
            Some((_, j)) => i < j <= s@.len(),
            None => true,
        },
{
    let n = s.len();
    if !(i < n && s[i] == '[') {
        return None;
    }
    let mut pos = i + 1;
    let mut out: Vec<MethodSummary> = Vec::new();
    if pos < n && s[pos] == ']' {
        return Some((out, pos + 1));
    }
    loop
        invariant
            i < pos <= n,
            n == s@.len(),
        decreases n - pos,
    {
        match parse_msum(s, pos) {
            Some((v, j)) => {
                out.push(v);
                pos = j;
            },
            None => {
                return None;
            },
        }
        if pos < n && s[pos] == ']' {
            return Some((out, pos + 1));
        }
        if pos < n && s[pos] == ',' {
            pos = pos + 1;
        } else {
            return None;
        }
    }
}

fn parse_recv(s: &[char], i: usize) -> (r: Option<(ReceiverInfo, usize)>)
    requires
        i <= s@.len(),
    ensures
        match r {
            Some((_, j)) => i < j <= s@.len(),
            None => true,
        },
{
    let pos = match expect_str(s, i, "{\"kind\":") {
        Some(j) => j,
        None => {
            return None;
        },
    };
    let (kind, pos) = match parse_string(s, pos) {
        Some(p) => p,
        None => {
            return None;
        },
    };
    let pos = match expect_str(s, pos, ",\"is_mut\":") {
        Some(j) => j,
        None => {
            return None;
        },
    };
    let (is_mut, pos) = match parse_bool(s, pos) {
        Some(p) => p,
        None => {
            return None;
        },
    };
    let pos = match expect_str(s, pos, ",\"is_ref\":") {
        Some(j) => j,
        None => {
            return None;
        },
    };
    let (is_ref, pos) = match parse_bool(s, pos) {
        Some(p) => p,
        None => {
            return None;
        },
    };
    let pos = match expect_str(s, pos, ",\"lifetime\":") {
        Some(j) => j,
        None => {
            return None;
        },
    };
    let (lifetime, pos) = match parse_opt_string(s, pos) {
        Some(p) => p,
        None => {
            return None;
        },
    };
    let pos = match expect_str(s, pos, "}") {
        Some(j) => j,
        None => {
            return None;
        },
    };
    Some((ReceiverInfo { kind, is_mut, is_ref, lifetime }, pos))
}

fn parse_opt_recv(s: &[char], i: usize) -> (r: Option<(Option<ReceiverInfo>, usize)>)
    requires
        i <= s@.len(),
    ensures
        match r {
            Some((_, j)) => i < j <= s@.len(),
            None => true,
        },
{
    match expect_str(s, i, "null") {
        Some(j) => Some((None, j)),
        None => match parse_recv(s, i) {
            Some((v, j)) => Some((Some(v), j)),
            None => None,
        },
    }
}

fn parse_param(s: &[char], i: usize) -> (r: Option<(ParamInfo, usize)>)
    requires
        i <= s@.len(),
    ensures
        match r {
            Some((_, j)) => i < j <= s@.len(),
            None => true,
        },
{
    let pos = match expect_str(s, i, "{\"name\":") {
        Some(j) => j,
        None => {
            return None;
        },
    };
    let (name, pos) = match parse_string(s, pos) {
        Some(p) => p,
        None => {
            return None;
        },
    };
    let pos = match expect_str(s, pos, ",\"ty\":") {
        Some(j) => j,
        None => {
            return None;
        },
    };
    let (ty, pos) = match parse_string(s, pos) {
        Some(p) => p,
        None => {
            return None;
        },
    };
    let pos = match expect_str(s, pos, ",\"is_mut\":") {
        Some(j) => j,
        None => {
            return None;
        },
    };
    let (is_mut, pos) = match parse_bool(s, pos) {
        Some(p) => p,
        None => {
            return None;
        },
    };
    let pos = match expect_str(s, pos, "}") {
        Some(j) => j,
        None => {
            return None;
        },
    };
    Some((ParamInfo { name, ty, is_mut }, pos))
}

fn parse_params_array(s: &[char], i: usize) -> (r: Option<(Vec<ParamInfo>, usize)>)
    requires
        i <= s@.len(),
    ensures
        match r {
            Some((_, j)) => i < j <= s@.len(),
            None => true,
        },
{
    let n = s.len();
    if !(i < n && s[i] == '[') {
        return None;
    }
    let mut pos = i + 1;
    let mut out: Vec<ParamInfo> = Vec::new();
    if pos < n && s[pos] == ']' {
        return Some((out, pos + 1));
    }
    loop
        invariant
            i < pos <= n,
            n == s@.len(),
        decreases n - pos,
    {
        match parse_param(s, pos) {
            Some((v, j)) => {
                out.push(v);
                pos = j;
            },
            None => {
                return None;
            },
        }
        if pos < n && s[pos] == ']' {
            return Some((out, pos + 1));
        }
        if pos < n && s[pos] == ',' {
            pos = pos + 1;
        } else {
            return None;
        }
    }
}

fn parse_sig(s: &[char], i: usize) -> (r: Option<(FunctionSignature, usize)>)
    requires
        i <= s@.len(),
    ensures
        match r {
            Some((_, j)) => i < j <= s@.len(),
            None => true,
        },
{
    let pos = match expect_str(s, i, "{\"receiver\":") {
        Some(j) => j,
        None => {
            return None;
        },
    };
    let (receiver, pos) = match parse_opt_recv(s, pos) {
        Some(p) => p,
        None => {
            return None;
        },
    };
    let pos = match expect_str(s, pos, ",\"params\":") {
        Some(j) => j,
        None => {
            return None;
        },
    };
    let (params, pos) = match parse_params_array(s, pos) {
        Some(p) => p,
        None => {
            return None;
        },
    };
    let pos = match expect_str(s, pos, ",\"return_ty\":") {
        Some(j) => j,
        None => {
            return None;
        },
    };
    let (return_ty, pos) = match parse_opt_string(s, pos) {
        Some(p) => p,
        None => {
            return None;
        },
    };
    let pos = match expect_str(s, pos, ",\"generics\":") {
        Some(j) => j,
        None => {
            return None;
        },
    };
    let (generics, pos) = match parse_gps_array(s, pos) {
        Some(p) => p,
        None => {
            return None;
        },
    };
    let pos = match expect_str(s, pos, ",\"where_clause\":") {
        Some(j) => j,
        None => {
            return None;
        },
    };
    let (where_clause, pos) = match parse_opt_string(s, pos) {
        Some(p) => p,
        None => {
            return None;
        },
    };
    let pos = match expect_str(s, pos, "}") {
        Some(j) => j,
        None => {
            return None;
        },
    };
    Some((FunctionSignature { receiver, params, return_ty, generics, where_clause }, pos))
}

fn parse_assoc_ty(s: &[char], i: usize) -> (r: Option<(AssocTypeInfo, usize)>)
    requires
        i <= s@.len(),
    ensures
        match r {
            Some((_, j)) => i < j <= s@.len(),
            None => true,
        },
{
    let pos = match expect_str(s, i, "{\"name\":") {
        Some(j) => j,
        None => {
            return None;
        },
    };
    let (name, pos) = match parse_string(s, pos) {
        Some(p) => p,
        None => {
            return None;
        },
    };
    let pos = match expect_str(s, pos, ",\"ty\":") {
        Some(j) => j,
        None => {
            return None;
        },
    };
    let (ty, pos) = match parse_opt_string(s, pos) {
        Some(p) => p,
        None => {
            return None;
        },
    };
    let pos = match expect_str(s, pos, ",\"bounds\":") {
        Some(j) => j,
        None => {
            return None;
        },
    };
    let (bounds, pos) = match parse_str_array(s, pos) {
        Some(p) => p,
        None => {
            return None;
        },
    };
    let pos = match expect_str(s, pos, ",\"default\":") {
        Some(j) => j,
        None => {
            return None;
        },
    };
    let (default, pos) = match parse_opt_string(s, pos) {
        Some(p) => p,
        None => {
            return None;
        },
    };
    let pos = match expect_str(s, pos, ",\"docs\":") {
        Some(j) => j,
        None => {
            return None;
        },
    };
    let (docs, pos) = match parse_opt_string(s, pos) {
        Some(p) => p,
        None => {
            return None;
        },
    };
    let pos = match expect_str(s, pos, ",\"span\":") {
        Some(j) => j,
        None => {
            return None;
        },
    };
    let (span, pos) = match parse_opt_span(s, pos) {
        Some(p) => p,
        None => {
            return None;
        },
    };
    let pos = match expect_str(s, pos, "}") {
        Some(j) => j,
        None => {
            return None;
        },
    };
    Some((AssocTypeInfo { name, ty, bounds, default, docs, span }, pos))
}

fn parse_assoc_tys_array(s: &[char], i: usize) -> (r: Option<(Vec<AssocTypeInfo>, usize)>)
    requires
        i <= s@.len(),
    ensures
        match r {
            Some((_, j)) => i < j <= s@.len(),
            None => true,
        },
{
    let n = s.len();
    if !(i < n && s[i] == '[') {
        return None;
    }
    let mut pos = i + 1;
    let mut out: Vec<AssocTypeInfo> = Vec::new();
    if pos < n && s[pos] == ']' {
        return Some((out, pos + 1));
    }
    loop
        invariant
            i < pos <= n,
            n == s@.len(),
        decreases n - pos,
    {
        match parse_assoc_ty(s, pos) {
            Some((v, j)) => {
                out.push(v);
                pos = j;
            },
            None => {
                return None;
            },
        }
        if pos < n && s[pos] == ']' {
            return Some((out, pos + 1));
        }
        if pos < n && s[pos] == ',' {
            pos = pos + 1;
        } else {
            return None;
        }
    }
}

fn parse_assoc_const(s: &[char], i: usize) -> (r: Option<(AssocConstInfo, usize)>)
    requires
        i <= s@.len(),
    ensures
        match r {
            Some((_, j)) => i < j <= s@.len(),
            None => true,
        },
{
    let pos = match expect_str(s, i, "{\"name\":") {
        Some(j) => j,
        None => {
            return None;
        },
    };
    let (name, pos) = match parse_string(s, pos) {
        Some(p) => p,
        None => {
            return None;
        },
    };
    let pos = match expect_str(s, pos, ",\"ty\":") {
        Some(j) => j,
        None => {
            return None;
        },
    };
    let (ty, pos) = match parse_string(s, pos) {
        Some(p) => p,
        None => {
            return None;
        },
    };
    let pos = match expect_str(s, pos, ",\"value\":") {
        Some(j) => j,
        None => {
            return None;
        },
    };
    let (value, pos) = match parse_opt_string(s, pos) {
        Some(p) => p,
        None => {
            return None;
        },
    };
    let pos = match expect_str(s, pos, ",\"docs\":") {
        Some(j) => j,
        None => {
            return None;
        },
    };
    let (docs, pos) = match parse_opt_string(s, pos) {
        Some(p) => p,
        None => {
            return None;
        },
    };
    let pos = match expect_str(s, pos, ",\"span\":") {
        Some(j) => j,
        None => {
            return None;
        },
    };
    let (span, pos) = match parse_opt_span(s, pos) {
        Some(p) => p,
        None => {
            return None;
        },
    };
    let pos = match expect_str(s, pos, "}") {
        Some(j) => j,
        None => {
            return None;
        },
    };
    Some((AssocConstInfo { name, ty, value, docs, span }, pos))
}

fn parse_assoc_consts_array(s: &[char], i: usize) -> (r: Option<(Vec<AssocConstInfo>, usize)>)
    requires
        i <= s@.len(),
    ensures
        match r {
            Some((_, j)) => i < j <= s@.len(),
            None => true,
        },
{
    let n = s.len();
    if !(i < n && s[i] == '[') {
        return None;
    }
    let mut pos = i + 1;
    let mut out: Vec<AssocConstInfo> = Vec::new();
    if pos < n && s[pos] == ']' {
        return Some((out, pos + 1));
    }
    loop
        invariant
            i < pos <= n,
            n == s@.len(),
        decreases n - pos,
    {
        match parse_assoc_const(s, pos) {
            Some((v, j)) => {
                out.push(v);
                pos = j;
            },
            None => {
                return None;
            },
        }
        if pos < n && s[pos] == ']' {
            return Some((out, pos + 1));
        }
        if pos < n && s[pos] == ',' {
            pos = pos + 1;
        } else {
            return None;
        }
    }
}

fn parse_item_info(s: &[char], i: usize) -> (r: Option<(ItemInfo, usize)>)
    requires
        i <= s@.len(),
    ensures
        match r {
            Some((_, j)) => i < j <= s@.len(),
            None => true,
        },
{
    let pos = match expect_str(s, i, "{\"name\":") {
        Some(j) => j,
        None => {
            return None;
        },
    };
    let (name, pos) = match parse_string(s, pos) {
        Some(p) => p,
        None => {
            return None;
        },
    };
    let pos = match expect_str(s, pos, ",\"path\":") {
        Some(j) => j,
        None => {
            return None;
        },
    };
    let (path, pos) = match parse_string(s, pos) {
        Some(p) => p,
        None => {
            return None;
        },
    };
    let pos = match expect_str(s, pos, ",\"kind\":") {
        Some(j) => j,
        None => {
            return None;
        },
    };
    let (kind, pos) = match parse_item_kind(s, pos) {
        Some(p) => p,
        None => {
            return None;
        },
    };
    let pos = match expect_str(s, pos, ",\"visibility\":") {
        Some(j) => j,
        None => {
            return None;
        },
    };
    let (visibility, pos) = match parse_visibility(s, pos) {
        Some(p) => p,
        None => {
            return None;
        },
    };
    let pos = match expect_str(s, pos, ",\"span\":") {
        Some(j) => j,
        None => {
            return None;
        },
    };
    let (span, pos) = match parse_opt_span(s, pos) {
        Some(p) => p,
        None => {
            return None;
        },
    };
    let pos = match expect_str(s, pos, "}") {
        Some(j) => j,
        None => {
            return None;
        },
    };
    Some((ItemInfo { name, path, kind, visibility, span }, pos))
}

fn parse_items_array(s: &[char], i: usize) -> (r: Option<(Vec<ItemInfo>, usize)>)
    requires
        i <= s@.len(),
    ensures
        match r {
            Some((_, j)) => i < j <= s@.len(),
            None => true,
        },
{
    let n = s.len();
    if !(i < n && s[i] == '[') {
        return None;
    }
    let mut pos = i + 1;
    let mut out: Vec<ItemInfo> = Vec::new();
    if pos < n && s[pos] == ']' {
        return Some((out, pos + 1));
    }
    loop
        invariant
            i < pos <= n,
            n == s@.len(),
        decreases n - pos,
    {
        match parse_item_info(s, pos) {
            Some((v, j)) => {
                out.push(v);
                pos = j;
            },
            None => {
                return None;
            },
        }
        if pos < n && s[pos] == ']' {
            return Some((out, pos + 1));
        }
        if pos < n && s[pos] == ',' {
            pos = pos + 1;
        } else {
            return None;
        }
    }
}

fn parse_type_summary(s: &[char], i: usize) -> (r: Option<(TypeSummary, usize)>)
    requires
        i <= s@.len(),
    ensures
        match r {
            Some((_, j)) => i < j <= s@.len(),
            None => true,
        },
{
    let pos = match expect_str(s, i, "{\"name\":") {
        Some(j) => j,
        None => {
            return None;
        },
    };
    let (name, pos) = match parse_string(s, pos) {
        Some(p) => p,
        None => {
            return None;
        },
    };
    let pos = match expect_str(s, pos, ",\"path\":") {
        Some(j) => j,
        None => {
            return None;
        },
    };
    let (path, pos) = match parse_string(s, pos) {
        Some(p) => p,
        None => {
            return None;
        },
    };
    let pos = match expect_str(s, pos, ",\"kind\":") {
        Some(j) => j,
        None => {
            return None;
        },
    };
    let (kind, pos) = match parse_type_kind(s, pos) {
        Some(p) => p,
        None => {
            return None;
        },
    };
    let pos = match expect_str(s, pos, ",\"generics\":") {
        Some(j) => j,
        None => {
            return None;
        },
    };
    let (generics, pos) = match parse_gps_array(s, pos) {
        Some(p) => p,
        None => {
            return None;
        },
    };
    let pos = match expect_str(s, pos, "}") {
        Some(j) => j,
        None => {
            return None;
        },
    };
    Some((TypeSummary { name, path, kind, generics }, pos))
}

fn parse_summaries_array(s: &[char], i: usize) -> (r: Option<(Vec<TypeSummary>, usize)>)
    requires
        i <= s@.len(),
    ensures
        match r {
            Some((_, j)) => i < j <= s@.len(),
            None => true,
        },
{
    let n = s.len();
    if !(i < n && s[i] == '[') {
        return None;
    }
    let mut pos = i + 1;
    let mut out: Vec<TypeSummary> = Vec::new();
    if pos < n && s[pos] == ']' {
        return Some((out, pos + 1));
    }
    loop
        invariant
            i < pos <= n,
            n == s@.len(),
        decreases n - pos,
    {
        match parse_type_summary(s, pos) {
            Some((v, j)) => {
                out.push(v);
                pos = j;
            },
            None => {
                return None;
            },
        }
        if pos < n && s[pos] == ']' {
            return Some((out, pos + 1));
        }
        if pos < n && s[pos] == ',' {
            pos = pos + 1;
        } else {
            return None;
        }
    }
}

fn parse_delimiter(s: &[char], i: usize) -> (r: Option<(Delimiter, usize)>)
    requires
        i <= s@.len(),
    ensures
        match r {
            Some((_, j)) => i < j <= s@.len(),
            None => true,
        },
{
    match expect_str(s, i, "\"paren\"") {
        Some(j) => {
            return Some((Delimiter::Paren, j));
        },
        None => {},
    }
    match expect_str(s, i, "\"bracket\"") {
        Some(j) => {
            return Some((Delimiter::Bracket, j));
        },
        None => {},
    }
    match expect_str(s, i, "\"brace\"") {
        Some(j) => {
            return Some((Delimiter::Brace, j));
        },
        None => {},
    }
    match expect_str(s, i, "\"none\"") {
        Some(j) => Some((Delimiter::Invisible, j)),
        None => None,
    }
}

fn parse_literal_kind(s: &[char], i: usize) -> (r: Option<(LiteralKind, usize)>)
    requires
        i <= s@.len(),
    ensures
        match r {
            Some((_, j)) => i < j <= s@.len(),
            None => true,
        },
{
    match expect_str(s, i, "\"string\"") {
        Some(j) => {
            return Some((LiteralKind::String, j));
        },
        None => {},
    }
    match expect_str(s, i, "\"byte_string\"") {
        Some(j) => {
            return Some((LiteralKind::ByteString, j));
        },
        None => {},
    }
    match expect_str(s, i, "\"char\"") {
        Some(j) => {
            return Some((LiteralKind::Char, j));
        },
        None => {},
    }
    match expect_str(s, i, "\"byte\"") {
        Some(j) => {
            return Some((LiteralKind::Byte, j));
        },
        None => {},
    }
    match expect_str(s, i, "\"int\"") {
        Some(j) => {
            return Some((LiteralKind::Int, j));
        },
        None => {},
    }
    match expect_str(s, i, "\"float\"") {
        Some(j) => {
            return Some((LiteralKind::Float, j));
        },
        None => {},
    }
    match expect_str(s, i, "\"bool\"") {
        Some(j) => Some((LiteralKind::Bool, j)),
        None => None,
    }
}

fn parse_token(s: &[char], i: usize) -> (r: Option<(Token, usize)>)
    requires
        i <= s@.len(),
    ensures
        match r {
            Some((_, j)) => i < j <= s@.len(),
            None => true,
        },
    decreases s@.len() - i, 0int,
{
    match expect_str(s, i, "{\"token_type\":\"punct\",\"ch\":") {
        Some(j) => {
            match parse_str_lit(s, j) {
                Some((cs, k)) => {
                    if cs.len() != 1 {
                        return None;
                    }
                    let ch = cs[0];
                    match expect_str(s, k, "}") {
                        Some(m) => {
                            return Some((Token::Punct { ch }, m));
                        },
                        None => {
                            return None;
                        },
                    }
                },
                None => {
                    return None;
                },
            }
        },
        None => {},
    }
    match expect_str(s, i, "{\"token_type\":\"ident\",\"name\":") {
        Some(j0) => {
            let (name, pos) = match parse_string(s, j0) {
                Some(p) => p,
                None => {
                    return None;
                },
            };
            match expect_str(s, pos, "}") {
                Some(j) => {
                    return Some((Token::Ident { name }, j));
                },
                None => {
                    return None;
                },
            }
        },
        None => {},
    }
    match expect_str(s, i, "{\"token_type\":\"literal\",\"kind\":") {
        Some(j0) => {
            let (kind, pos) = match parse_literal_kind(s, j0) {
                Some(p) => p,
                None => {
                    return None;
                },
            };
            let pos = match expect_str(s, pos, ",\"value\":") {
                Some(j) => j,
                None => {
                    return None;
                },
            };
            let (value, pos) = match parse_string(s, pos) {
                Some(p) => p,
                None => {
                    return None;
                },
            };
            match expect_str(s, pos, "}") {
                Some(j) => {
                    return Some((Token::Literal { kind, value }, j));
                },
                None => {
                    return None;
                },
            }
        },
        None => {},
    }
    match expect_str(s, i, "{\"token_type\":\"keyword\",\"name\":") {
        Some(j0) => {
            let (name, pos) = match parse_string(s, j0) {
                Some(p) => p,
                None => {
                    return None;
                },
            };
            match expect_str(s, pos, "}") {
                Some(j) => {
                    return Some((Token::Keyword { name }, j));
                },
                None => {
                    return None;
                },
            }
        },
        None => {},
    }
    match expect_str(s, i, "{\"token_type\":\"group\",\"delimiter\":") {
        Some(j0) => {
            let (delimiter, pos) = match parse_delimiter(s, j0) {
                Some(p) => p,
                None => {
                    return None;
                },
            };
            let pos = match expect_str(s, pos, ",\"tokens\":") {
                Some(j) => j,
                None => {
                    return None;
                },
            };
            let (tokens, pos) = match parse_tokens_array(s, pos) {
                Some(p) => p,
                None => {
                    return None;
                },
            };
            match expect_str(s, pos, "}") {
                Some(j) => {
                    return Some((Token::Group { delimiter, tokens }, j));
                },
                None => {
                    return None;
                },
            }
        },
        None => {},
    }
    match expect_str(s, i, "{\"token_type\":\"path\",\"segments\":") {
        Some(j0) => {
            let (segments, pos) = match parse_str_array(s, j0) {
                Some(p) => p,
                None => {
                    return None;
                },
            };
            match expect_str(s, pos, "}") {
                Some(j) => {
                    return Some((Token::Path { segments }, j));
                },
                None => {
                    return None;
                },
            }
        },
        None => {},
    }
    match expect_str(s, i, "{\"token_type\":\"method_call\",\"receiver\":") {
        Some(j0) => {
            let (receiver, pos) = match parse_token_box(s, j0) {
                Some(p) => p,
                None => {
                    return None;
                },
            };
            let pos = match expect_str(s, pos, ",\"method\":") {
                Some(j) => j,
                None => {
                    return None;
                },
            };
            let (method, pos) = match parse_string(s, pos) {
                Some(p) => p,
                None => {
                    return None;
                },
            };
            let pos = match expect_str(s, pos, ",\"args\":") {
                Some(j) => j,
                None => {
                    return None;
                },
            };
            let (args, pos) = match parse_tokens_array(s, pos) {
                Some(p) => p,
                None => {
                    return None;
                },
            };
            match expect_str(s, pos, "}") {
                Some(j) => {
                    return Some((Token::MethodCall { receiver, method, args }, j));
                },
                None => {
                    return None;
                },
            }
        },
        None => {},
    }
    match expect_str(s, i, "{\"token_type\":\"fn_call\",\"path\":") {
        Some(j0) => {
            let (path, pos) = match parse_str_array(s, j0) {
                Some(p) => p,
                None => {
                    return None;
                },
            };
            let pos = match expect_str(s, pos, ",\"args\":") {
                Some(j) => j,
                None => {
                    return None;
                },
            };
            let (args, pos) = match parse_tokens_array(s, pos) {
                Some(p) => p,
                None => {
                    return None;
                },
            };
            match expect_str(s, pos, "}") {
                Some(j) => {
                    return Some((Token::FnCall { path, args }, j));
                },
                None => {
                    return None;
                },
            }
        },
        None => {},
    }
    match expect_str(s, i, "{\"token_type\":\"field_access\",\"base\":") {
        Some(j0) => {
            let (base, pos) = match parse_token_box(s, j0) {
                Some(p) => p,
                None => {
                    return None;
                },
            };
            let pos = match expect_str(s, pos, ",\"field\":") {
                Some(j) => j,
                None => {
                    return None;
                },
            };
            let (field, pos) = match parse_string(s, pos) {
                Some(p) => p,
                None => {
                    return None;
                },
            };
            match expect_str(s, pos, "}") {
                Some(j) => {
                    return Some((Token::FieldAccess { base, field }, j));
                },
                None => {
                    return None;
                },
            }
        },
        None => {},
    }
    match expect_str(s, i, "{\"token_type\":\"bin_op\",\"lhs\":") {
        Some(j0) => {
            let (lhs, pos) = match parse_token_box(s, j0) {
                Some(p) => p,
                None => {
                    return None;
                },
            };
            let pos = match expect_str(s, pos, ",\"op\":") {
                Some(j) => j,
                None => {
                    return None;
                },
            };
            let (op, pos) = match parse_string(s, pos) {
                Some(p) => p,
                None => {
                    return None;
                },
            };
            let pos = match expect_str(s, pos, ",\"rhs\":") {
                Some(j) => j,
                None => {
                    return None;
                },
            };
            let (rhs, pos) = match parse_token_box(s, pos) {
                Some(p) => p,
                None => {
                    return None;
                },
            };
            match expect_str(s, pos, "}") {
                Some(j) => {
                    return Some((Token::BinOp { lhs, op, rhs }, j));
                },
                None => {
                    return None;
                },
            }
        },
        None => {},
    }
    match expect_str(s, i, "{\"token_type\":\"unary_op\",\"op\":") {
        Some(j0) => {
            let (op, pos) = match parse_string(s, j0) {
                Some(p) => p,
                None => {
                    return None;
                },
            };
            let pos = match expect_str(s, pos, ",\"expr\":") {
                Some(j) => j,
                None => {
                    return None;
                },
            };
            let (expr, pos) = match parse_token_box(s, pos) {
                Some(p) => p,
                None => {
                    return None;
                },
            };
            match expect_str(s, pos, "}") {
                Some(j) => {
                    return Some((Token::UnaryOp { op, expr }, j));
                },
                None => {
                    return None;
                },
            }
        },
        None => {},
    }
    match expect_str(s, i, "{\"token_type\":\"if\",\"cond\":") {
        Some(j0) => {
            let (cond, pos) = match parse_token_box(s, j0) {
                Some(p) => p,
                None => {
                    return None;
                },
            };
            let pos = match expect_str(s, pos, ",\"then_branch\":") {
                Some(j) => j,
                None => {
                    return None;
                },
            };
            let (then_branch, pos) = match parse_tokens_array(s, pos) {
                Some(p) => p,
                None => {
                    return None;
                },
            };
            let pos = match expect_str(s, pos, ",\"else_branch\":") {
                Some(j) => j,
                None => {
                    return None;
                },
            };
            let (else_branch, pos) = match parse_opt_tokens(s, pos) {
                Some(p) => p,
                None => {
                    return None;
                },
            };
            match expect_str(s, pos, "}") {
                Some(j) => {
                    return Some((Token::If { cond, then_branch, else_branch }, j));
                },
                None => {
                    return None;
                },
            }
        },
        None => {},
    }
    match expect_str(s, i, "{\"token_type\":\"match\",\"expr\":") {
        Some(j0) => {
            let (expr, pos) = match parse_token_box(s, j0) {
                Some(p) => p,
                None => {
                    return None;
                },
            };
            let pos = match expect_str(s, pos, ",\"arms\":") {
                Some(j) => j,
                None => {
                    return None;
                },
            };
            let (arms, pos) = match parse_arms_array(s, pos) {
                Some(p) => p,
                None => {
                    return None;
                },
            };
            match expect_str(s, pos, "}") {
                Some(j) => {
                    return Some((Token::Match { expr, arms }, j));
                },
                None => {
                    return None;
                },
            }
        },
        None => {},
    }
    match expect_str(s, i, "{\"token_type\":\"let\",\"pattern\":") {
        Some(j0) => {
            let (pattern, pos) = match parse_string(s, j0) {
                Some(p) => p,
                None => {
                    return None;
                },
            };
            let pos = match expect_str(s, pos, ",\"ty\":") {
                Some(j) => j,
                None => {
                    return None;
                },
            };
            let (ty, pos) = match parse_opt_string(s, pos) {
                Some(p) => p,
                None => {
                    return None;
                },
            };
            let pos = match expect_str(s, pos, ",\"init\":") {
                Some(j) => j,
                None => {
                    return None;
                },
            };
            let (init, pos) = match parse_opt_token_box(s, pos) {
                Some(p) => p,
                None => {
                    return None;
                },
            };
            match expect_str(s, pos, "}") {
                Some(j) => {
                    return Some((Token::Let { pattern, ty, init }, j));
                },
                None => {
                    return None;
                },
            }
        },
        None => {},
    }
    match expect_str(s, i, "{\"token_type\":\"return\",\"expr\":") {
        Some(j0) => {
            let (expr, pos) = match parse_opt_token_box(s, j0) {
                Some(p) => p,
                None => {
                    return None;
                },
            };
            match expect_str(s, pos, "}") {
                Some(j) => {
                    return Some((Token::Return { expr }, j));
                },
                None => {
                    return None;
                },
            }
        },
        None => {},
    }
    match expect_str(s, i, "{\"token_type\":\"block\",\"stmts\":") {
        Some(j0) => {
            let (stmts, pos) = match parse_tokens_array(s, j0) {
                Some(p) => p,
                None => {
                    return None;
                },
            };
            match expect_str(s, pos, "}") {
                Some(j) => {
                    return Some((Token::Block { stmts }, j));
                },
                None => {
                    return None;
                },
            }
        },
        None => {},
    }
    match expect_str(s, i, "{\"token_type\":\"closure\",\"params\":") {
        Some(j0) => {
            let (params, pos) = match parse_str_array(s, j0) {
                Some(p) => p,
                None => {
                    return None;
                },
            };
            let pos = match expect_str(s, pos, ",\"body\":") {
                Some(j) => j,
                None => {
                    return None;
                },
            };
            let (body, pos) = match parse_token_box(s, pos) {
                Some(p) => p,
                None => {
                    return None;
                },
            };
            match expect_str(s, pos, "}") {
                Some(j) => {
                    return Some((Token::Closure { params, body }, j));
                },
                None => {
                    return None;
                },
            }
        },
        None => {},
    }
    match expect_str(s, i, "{\"token_type\":\"raw\",\"source\":") {
        Some(j0) => {
            let (source, pos) = match parse_string(s, j0) {
                Some(p) => p,
                None => {
                    return None;
                },
            };
            match expect_str(s, pos, "}") {
                Some(j) => {
                    return Some((Token::Raw { source }, j));
                },
                None => {
                    return None;
                },
            }
        },
        None => {},
    }
    None
}

fn parse_token_box(s: &[char], i: usize) -> (r: Option<(Box<Token>, usize)>)
    requires
        i <= s@.len(),
    ensures
        match r {
            Some((_, j)) => i < j <= s@.len(),
            None => true,
        },
    decreases s@.len() - i, 1int,
{
    match parse_token(s, i) {
        Some((t, j)) => Some((Box::new(t), j)),
        None => None,
    }
}

fn parse_opt_token_box(s: &[char], i: usize) -> (r: Option<(Option<Box<Token>>, usize)>)
    requires
        i <= s@.len(),
    ensures
        match r {
            Some((_, j)) => i < j <= s@.len(),
            None => true,
        },
    decreases s@.len() - i, 1int,
{
    match expect_str(s, i, "null") {
        Some(j) => Some((None, j)),
        None => match parse_token(s, i) {
            Some((t, j)) => Some((Some(Box::new(t)), j)),
            None => None,
        },
    }
}

fn parse_opt_tokens(s: &[char], i: usize) -> (r: Option<(Option<Vec<Token>>, usize)>)
    requires
        i <= s@.len(),
    ensures
        match r {
            Some((_, j)) => i < j <= s@.len(),
            None => true,
        },
    decreases s@.len() - i, 1int,
{
    match expect_str(s, i, "null") {
        Some(j) => Some((None, j)),
        None => match parse_tokens_array(s, i) {
            Some((v, j)) => Some((Some(v), j)),
            None => None,
        },
    }
}

fn parse_tokens_array(s: &[char], i: usize) -> (r: Option<(Vec<Token>, usize)>)
    requires
        i <= s@.len(),
    ensures
        match r {
            Some((_, j)) => i < j <= s@.len(),
            None => true,
        },
    decreases s@.len() - i, 0int,
{
    let n = s.len();
    if !(i < n && s[i] == '[') {
        return None;
    }
    let mut pos = i + 1;
    let mut out: Vec<Token> = Vec::new();
    if pos < n && s[pos] == ']' {
        return Some((out, pos + 1));
    }
    loop
        invariant
            i < pos <= n,
            n == s@.len(),
        decreases n - pos,
    {
        match parse_token(s, pos) {
            Some((v, j)) => {
                out.push(v);
                pos = j;
            },
            None => {
                return None;
            },
        }
        if pos < n && s[pos] == ']' {
            return Some((out, pos + 1));
        }
        if pos < n && s[pos] == ',' {
            pos = pos + 1;
        } else {
            return None;
        }
    }
}

fn parse_arm(s: &[char], i: usize) -> (r: Option<(MatchArm, usize)>)
    requires
        i <= s@.len(),
    ensures
        match r {
            Some((_, j)) => i < j <= s@.len(),
            None => true,
        },
    decreases s@.len() - i, 0int,
{
    let pos = match expect_str(s, i, "{\"pattern\":") {
        Some(j) => j,
        None => {
            return None;
        },
    };
    let (pattern, pos) = match parse_string(s, pos) {
        Some(p) => p,
        None => {
            return None;
        },
    };
    let pos = match expect_str(s, pos, ",\"guard\":") {
        Some(j) => j,
        None => {
            return None;
        },
    };
    let (guard, pos) = match parse_opt_string(s, pos) {
        Some(p) => p,
        None => {
            return None;
        },
    };
    let pos = match expect_str(s, pos, ",\"body\":") {
        Some(j) => j,
        None => {
            return None;
        },
    };
    let (body, pos) = match parse_tokens_array(s, pos) {
        Some(p) => p,
        None => {
            return None;
        },
    };
    let pos = match expect_str(s, pos, "}") {
        Some(j) => j,
        None => {
            return None;
        },
    };
    Some((MatchArm { pattern, guard, body }, pos))
}

fn parse_arms_array(s: &[char], i: usize) -> (r: Option<(Vec<MatchArm>, usize)>)
    requires
        i <= s@.len(),
    ensures
        match r {
            Some((_, j)) => i < j <= s@.len(),
            None => true,
        },
    decreases s@.len() - i, 0int,
{
    let n = s.len();
    if !(i < n && s[i] == '[') {
        return None;
    }
    let mut pos = i + 1;
    let mut out: Vec<MatchArm> = Vec::new();
    if pos < n && s[pos] == ']' {
        return Some((out, pos + 1));
    }
    loop
        invariant
            i < pos <= n,
            n == s@.len(),
        decreases n - pos,
    {
        match parse_arm(s, pos) {
            Some((v, j)) => {
                out.push(v);
                pos = j;
            },
            None => {
                return None;
            },
        }
        if pos < n && s[pos] == ']' {
            return Some((out, pos + 1));
        }
        if pos < n && s[pos] == ',' {
            pos = pos + 1;
        } else {
            return None;
        }
    }
}

fn parse_method(s: &[char], i: usize) -> (r: Option<(MethodDetails, usize)>)
    requires
        i <= s@.len(),
    ensures
        match r {
            Some((_, j)) => i < j <= s@.len(),
            None => true,
        },
{
    let pos = match expect_str(s, i, "{\"name\":") {
        Some(j) => j,
        None => {
            return None;
        },
    };
    let (name, pos) = match parse_string(s, pos) {
        Some(p) => p,
        None => {
            return None;
        },
    };
    let pos = match expect_str(s, pos, ",\"path\":") {
        Some(j) => j,
        None => {
            return None;
        },
    };
    let (path, pos) = match parse_string(s, pos) {
        Some(p) => p,
        None => {
            return None;
        },
    };
    let pos = match expect_str(s, pos, ",\"signature\":") {
        Some(j) => j,
        None => {
            return None;
        },
    };
    let (signature, pos) = match parse_string(s, pos) {
        Some(p) => p,
        None => {
            return None;
        },
    };
    let pos = match expect_str(s, pos, ",\"parsed_signature\":") {
        Some(j) => j,
        None => {
            return None;
        },
    };
    let (parsed_signature, pos) = match parse_sig(s, pos) {
        Some(p) => p,
        None => {
            return None;
        },
    };
    let pos = match expect_str(s, pos, ",\"has_body\":") {
        Some(j) => j,
        None => {
            return None;
        },
    };
    let (has_body, pos) = match parse_bool(s, pos) {
        Some(p) => p,
        None => {
            return None;
        },
    };
    let pos = match expect_str(s, pos, ",\"body_source\":") {
        Some(j) => j,
        None => {
            return None;
        },
    };
    let (body_source, pos) = match parse_opt_string(s, pos) {
        Some(p) => p,
        None => {
            return None;
        },
    };
    let pos = match expect_str(s, pos, ",\"body_tokens\":") {
        Some(j) => j,
        None => {
            return None;
        },
    };
    let (body_tokens, pos) = match parse_opt_tokens(s, pos) {
        Some(p) => p,
        None => {
            return None;
        },
    };
    let pos = match expect_str(s, pos, ",\"is_unsafe\":") {
        Some(j) => j,
        None => {
            return None;
        },
    };
    let (is_unsafe, pos) = match parse_bool(s, pos) {
        Some(p) => p,
        None => {
            return None;
        },
    };
    let pos = match expect_str(s, pos, ",\"is_const\":") {
        Some(j) => j,
        None => {
            return None;
        },
    };
    let (is_const, pos) = match parse_bool(s, pos) {
        Some(p) => p,
        None => {
            return None;
        },
    };
    let pos = match expect_str(s, pos, ",\"is_async\":") {
        Some(j) => j,
        None => {
            return None;
        },
    };
    let (is_async, pos) = match parse_bool(s, pos) {
        Some(p) => p,
        None => {
            return None;
        },
    };
    let pos = match expect_str(s, pos, ",\"docs\":") {
        Some(j) => j,
        None => {
            return None;
        },
    };
    let (docs, pos) = match parse_opt_string(s, pos) {
        Some(p) => p,
        None => {
            return None;
        },
    };
    let pos = match expect_str(s, pos, ",\"attributes\":") {
        Some(j) => j,
        None => {
            return None;
        },
    };
    let (attributes, pos) = match parse_str_array(s, pos) {
        Some(p) => p,
        None => {
            return None;
        },
    };
    let pos = match expect_str(s, pos, ",\"span\":") {
        Some(j) => j,
        None => {
            return None;
        },
    };
    let (span, pos) = match parse_opt_span(s, pos) {
        Some(p) => p,
        None => {
            return None;
        },
    };
    let pos = match expect_str(s, pos, "}") {
        Some(j) => j,
        None => {
            return None;
        },
    };
    Some((MethodDetails { name, path, signature, parsed_signature, has_body, body_source, body_tokens, is_unsafe, is_const, is_async, docs, attributes, span }, pos))
}

fn parse_methods_array(s: &[char], i: usize) -> (r: Option<(Vec<MethodDetails>, usize)>)
    requires
        i <= s@.len(),
    ensures
        match r {
            Some((_, j)) => i < j <= s@.len(),
            None => true,
        },
{
    let n = s.len();
    if !(i < n && s[i] == '[') {
        return None;
    }
    let mut pos = i + 1;
    let mut out: Vec<MethodDetails> = Vec::new();
    if pos < n && s[pos] == ']' {
        return Some((out, pos + 1));
    }
    loop
        invariant
            i < pos <= n,
            n == s@.len(),
        decreases n - pos,
    {
        match parse_method(s, pos) {
            Some((v, j)) => {
                out.push(v);
                pos = j;
            },
            None => {
                return None;
            },
        }
        if pos < n && s[pos] == ']' {
            return Some((out, pos + 1));
        }
        if pos < n && s[pos] == ',' {
            pos = pos + 1;
        } else {
            return None;
        }
    }
}

fn parse_trait_impl(s: &[char], i: usize) -> (r: Option<(TraitImplDetails, usize)>)
    requires
        i <= s@.len(),
    ensures
        match r {
            Some((_, j)) => i < j <= s@.len(),
            None => true,
        },
{
    let pos = match expect_str(s, i, "{\"self_ty\":") {
        Some(j) => j,
        None => {
            return None;
        },
    };
    let (self_ty, pos) = match parse_string(s, pos) {
        Some(p) => p,
        None => {
            return None;
        },
    };
    let pos = match expect_str(s, pos, ",\"trait_path\":") {
        Some(j) => j,
        None => {
            return None;
        },
    };
    let (trait_path, pos) = match parse_string(s, pos) {
        Some(p) => p,
        None => {
            return None;
        },
    };
    let pos = match expect_str(s, pos, ",\"generics\":") {
        Some(j) => j,
        None => {
            return None;
        },
    };
    let (generics, pos) = match parse_gps_array(s, pos) {
        Some(p) => p,
        None => {
            return None;
        },
    };
    let pos = match expect_str(s, pos, ",\"where_clause\":") {
        Some(j) => j,
        None => {
            return None;
        },
    };
    let (where_clause, pos) = match parse_opt_string(s, pos) {
        Some(p) => p,
        None => {
            return None;
        },
    };
    let pos = match expect_str(s, pos, ",\"is_negative\":") {
        Some(j) => j,
        None => {
            return None;
        },
    };
    let (is_negative, pos) = match parse_bool(s, pos) {
        Some(p) => p,
        None => {
            return None;
        },
    };
    let pos = match expect_str(s, pos, ",\"is_unsafe\":") {
        Some(j) => j,
        None => {
            return None;
        },
    };
    let (is_unsafe, pos) = match parse_bool(s, pos) {
        Some(p) => p,
        None => {
            return None;
        },
    };
    let pos = match expect_str(s, pos, ",\"methods\":") {
        Some(j) => j,
        None => {
            return None;
        },
    };
    let (methods, pos) = match parse_methods_array(s, pos) {
        Some(p) => p,
        None => {
            return None;
        },
    };
    let pos = match expect_str(s, pos, ",\"assoc_types\":") {
        Some(j) => j,
        None => {
            return None;
        },
    };
    let (assoc_types, pos) = match parse_assoc_tys_array(s, pos) {
        Some(p) => p,
        None => {
            return None;
        },
    };
    let pos = match expect_str(s, pos, ",\"assoc_consts\":") {
        Some(j) => j,
        None => {
            return None;
        },
    };
    let (assoc_consts, pos) = match parse_assoc_consts_array(s, pos) {
        Some(p) => p,
        None => {
            return None;
        },
    };
    let pos = match expect_str(s, pos, ",\"source\":") {
        Some(j) => j,
        None => {
            return None;
        },
    };
    let (source, pos) = match parse_opt_string(s, pos) {
        Some(p) => p,
        None => {
            return None;
        },
    };
    let pos = match expect_str(s, pos, ",\"span\":") {
        Some(j) => j,
        None => {
            return None;
        },
    };
    let (span, pos) = match parse_opt_span(s, pos) {
        Some(p) => p,
        None => {
            return None;
        },
    };
    let pos = match expect_str(s, pos, "}") {
        Some(j) => j,
        None => {
            return None;
        },
    };
    Some((TraitImplDetails { self_ty, trait_path, generics, where_clause, is_negative, is_unsafe, methods, assoc_types, assoc_consts, source, span }, pos))
}

fn parse_trait_impls_array(s: &[char], i: usize) -> (r: Option<(Vec<TraitImplDetails>, usize)>)
    requires
        i <= s@.len(),
    ensures
        match r {
            Some((_, j)) => i < j <= s@.len(),
            None => true,
        },
{
    let n = s.len();
    if !(i < n && s[i] == '[') {
        return None;
    }
    let mut pos = i + 1;
    let mut out: Vec<TraitImplDetails> = Vec::new();
    if pos < n && s[pos] == ']' {
        return Some((out, pos + 1));
    }
    loop
        invariant
            i < pos <= n,
            n == s@.len(),
        decreases n - pos,
    {
        match parse_trait_impl(s, pos) {
            Some((v, j)) => {
                out.push(v);
                pos = j;
            },
            None => {
                return None;
            },
        }
        if pos < n && s[pos] == ']' {
            return Some((out, pos + 1));
        }
        if pos < n && s[pos] == ',' {
            pos = pos + 1;
        } else {
            return None;
        }
    }
}

fn parse_inherent_impl(s: &[char], i: usize) -> (r: Option<(InherentImplDetails, usize)>)
    requires
        i <= s@.len(),
    ensures
        match r {
            Some((_, j)) => i < j <= s@.len(),
            None => true,
        },
{
    let pos = match expect_str(s, i, "{\"self_ty\":") {
        Some(j) => j,
        None => {
            return None;
        },
    };
    let (self_ty, pos) = match parse_string(s, pos) {
        Some(p) => p,
        None => {
            return None;
        },
    };
    let pos = match expect_str(s, pos, ",\"generics\":") {
        Some(j) => j,
        None => {
            return None;
        },
    };
    let (generics, pos) = match parse_gps_array(s, pos) {
        Some(p) => p,
        None => {
            return None;
        },
    };
    let pos = match expect_str(s, pos, ",\"where_clause\":") {
        Some(j) => j,
        None => {
            return None;
        },
    };
    let (where_clause, pos) = match parse_opt_string(s, pos) {
        Some(p) => p,
        None => {
            return None;
        },
    };
    let pos = match expect_str(s, pos, ",\"is_unsafe\":") {
        Some(j) => j,
        None => {
            return None;
        },
    };
    let (is_unsafe, pos) = match parse_bool(s, pos) {
        Some(p) => p,
        None => {
            return None;
        },
    };
    let pos = match expect_str(s, pos, ",\"methods\":") {
        Some(j) => j,
        None => {
            return None;
        },
    };
    let (methods, pos) = match parse_methods_array(s, pos) {
        Some(p) => p,
        None => {
            return None;
        },
    };
    let pos = match expect_str(s, pos, ",\"assoc_consts\":") {
        Some(j) => j,
        None => {
            return None;
        },
    };
    let (assoc_consts, pos) = match parse_assoc_consts_array(s, pos) {
        Some(p) => p,
        None => {
            return None;
        },
    };
    let pos = match expect_str(s, pos, ",\"assoc_types\":") {
        Some(j) => j,
        None => {
            return None;
        },
    };
    let (assoc_types, pos) = match parse_assoc_tys_array(s, pos) {
        Some(p) => p,
        None => {
            return None;
        },
    };
    let pos = match expect_str(s, pos, ",\"source\":") {
        Some(j) => j,
        None => {
            return None;
        },
    };
    let (source, pos) = match parse_opt_string(s, pos) {
        Some(p) => p,
        None => {
            return None;
        },
    };
    let pos = match expect_str(s, pos, ",\"span\":") {
        Some(j) => j,
        None => {
            return None;
        },
    };
    let (span, pos) = match parse_opt_span(s, pos) {
        Some(p) => p,
        None => {
            return None;
        },
    };
    let pos = match expect_str(s, pos, "}") {
        Some(j) => j,
        None => {
            return None;
        },
    };
    Some((InherentImplDetails { self_ty, generics, where_clause, is_unsafe, methods, assoc_consts, assoc_types, source, span }, pos))
}

fn parse_inherent_impls_array(s: &[char], i: usize) -> (r: Option<(Vec<InherentImplDetails>, usize)>)
    requires
        i <= s@.len(),
    ensures
        match r {
            Some((_, j)) => i < j <= s@.len(),
            None => true,
        },
{
    let n = s.len();
    if !(i < n && s[i] == '[') {
        return None;
    }
    let mut pos = i + 1;
    let mut out: Vec<InherentImplDetails> = Vec::new();
    if pos < n && s[pos] == ']' {
        return Some((out, pos + 1));
    }
    loop
        invariant
            i < pos <= n,
            n == s@.len(),
        decreases n - pos,
    {
        match parse_inherent_impl(s, pos) {
            Some((v, j)) => {
                out.push(v);
                pos = j;
            },
            None => {
                return None;
            },
        }
        if pos < n && s[pos] == ']' {
            return Some((out, pos + 1));
        }
        if pos < n && s[pos] == ',' {
            pos = pos + 1;
        } else {
            return None;
        }
    }
}

fn parse_trait_method(s: &[char], i: usize) -> (r: Option<(TraitMethodInfo, usize)>)
    requires
        i <= s@.len(),
    ensures
        match r {
            Some((_, j)) => i < j <= s@.len(),
            None => true,
        },
{
    let pos = match expect_str(s, i, "{\"name\":") {
        Some(j) => j,
        None => {
            return None;
        },
    };
    let (name, pos) = match parse_string(s, pos) {
        Some(p) => p,
        None => {
            return None;
        },
    };
    let pos = match expect_str(s, pos, ",\"signature\":") {
        Some(j) => j,
        None => {
            return None;
        },
    };
    let (signature, pos) = match parse_string(s, pos) {
        Some(p) => p,
        None => {
            return None;
        },
    };
    let pos = match expect_str(s, pos, ",\"parsed_signature\":") {
        Some(j) => j,
        None => {
            return None;
        },
    };
    let (parsed_signature, pos) = match parse_sig(s, pos) {
        Some(p) => p,
        None => {
            return None;
        },
    };
    let pos = match expect_str(s, pos, ",\"has_default\":") {
        Some(j) => j,
        None => {
            return None;
        },
    };
    let (has_default, pos) = match parse_bool(s, pos) {
        Some(p) => p,
        None => {
            return None;
        },
    };
    let pos = match expect_str(s, pos, ",\"default_body\":") {
        Some(j) => j,
        None => {
            return None;
        },
    };
    let (default_body, pos) = match parse_opt_string(s, pos) {
        Some(p) => p,
        None => {
            return None;
        },
    };
    let pos = match expect_str(s, pos, ",\"is_unsafe\":") {
        Some(j) => j,
        None => {
            return None;
        },
    };
    let (is_unsafe, pos) = match parse_bool(s, pos) {
        Some(p) => p,
        None => {
            return None;
        },
    };
    let pos = match expect_str(s, pos, ",\"docs\":") {
        Some(j) => j,
        None => {
            return None;
        },
    };
    let (docs, pos) = match parse_opt_string(s, pos) {
        Some(p) => p,
        None => {
            return None;
        },
    };
    let pos = match expect_str(s, pos, ",\"attributes\":") {
        Some(j) => j,
        None => {
            return None;
        },
    };
    let (attributes, pos) = match parse_str_array(s, pos) {
        Some(p) => p,
        None => {
            return None;
        },
    };
    let pos = match expect_str(s, pos, ",\"span\":") {
        Some(j) => j,
        None => {
            return None;
        },
    };
    let (span, pos) = match parse_opt_span(s, pos) {
        Some(p) => p,
        None => {
            return None;
        },
    };
    let pos = match expect_str(s, pos, "}") {
        Some(j) => j,
        None => {
            return None;
        },
    };
    Some((TraitMethodInfo { name, signature, parsed_signature, has_default, default_body, is_unsafe, docs, attributes, span }, pos))
}

fn parse_trait_methods_array(s: &[char], i: usize) -> (r: Option<(Vec<TraitMethodInfo>, usize)>)
    requires
        i <= s@.len(),
    ensures
        match r {
            Some((_, j)) => i < j <= s@.len(),
            None => true,
        },
{
    let n = s.len();
    if !(i < n && s[i] == '[') {
        return None;
    }
    let mut pos = i + 1;
    let mut out: Vec<TraitMethodInfo> = Vec::new();
    if pos < n && s[pos] == ']' {
        return Some((out, pos + 1));
    }
    loop
        invariant
            i < pos <= n,
            n == s@.len(),
        decreases n - pos,
    {
        match parse_trait_method(s, pos) {
            Some((v, j)) => {
                out.push(v);
                pos = j;
            },
            None => {
                return None;
            },
        }
        if pos < n && s[pos] == ']' {
            return Some((out, pos + 1));
        }
        if pos < n && s[pos] == ',' {
            pos = pos + 1;
        } else {
            return None;
        }
    }
}

fn parse_trait_info(s: &[char], i: usize) -> (r: Option<(TraitInfo, usize)>)
    requires
        i <= s@.len(),
    ensures
        match r {
            Some((_, j)) => i < j <= s@.len(),
            None => true,
        },
{
    let pos = match expect_str(s, i, "{\"name\":") {
        Some(j) => j,
        None => {
            return None;
        },
    };
    let (name, pos) = match parse_string(s, pos) {
        Some(p) => p,
        None => {
            return None;
        },
    };
    let pos = match expect_str(s, pos, ",\"path\":") {
        Some(j) => j,
        None => {
            return None;
        },
    };
    let (path, pos) = match parse_string(s, pos) {
        Some(p) => p,
        None => {
            return None;
        },
    };
    let pos = match expect_str(s, pos, ",\"generics\":") {
        Some(j) => j,
        None => {
            return None;
        },
    };
    let (generics, pos) = match parse_gps_array(s, pos) {
        Some(p) => p,
        None => {
            return None;
        },
    };
    let pos = match expect_str(s, pos, ",\"required_methods\":") {
        Some(j) => j,
        None => {
            return None;
        },
    };
    let (required_methods, pos) = match parse_usize_v(s, pos) {
        Some(p) => p,
        None => {
            return None;
        },
    };
    let pos = match expect_str(s, pos, ",\"provided_methods\":") {
        Some(j) => j,
        None => {
            return None;
        },
    };
    let (provided_methods, pos) = match parse_usize_v(s, pos) {
        Some(p) => p,
        None => {
            return None;
        },
    };
    let pos = match expect_str(s, pos, ",\"supertraits\":") {
        Some(j) => j,
        None => {
            return None;
        },
    };
    let (supertraits, pos) = match parse_str_array(s, pos) {
        Some(p) => p,
        None => {
            return None;
        },
    };
    let pos = match expect_str(s, pos, "}") {
        Some(j) => j,
        None => {
            return None;
        },
    };
    Some((TraitInfo { name, path, generics, required_methods, provided_methods, supertraits }, pos))
}

fn parse_trait_infos_array(s: &[char], i: usize) -> (r: Option<(Vec<TraitInfo>, usize)>)
    requires
        i <= s@.len(),
    ensures
        match r {
            Some((_, j)) => i < j <= s@.len(),
            None => true,
        },
{
    let n = s.len();
    if !(i < n && s[i] == '[') {
        return None;
    }
    let mut pos = i + 1;
    let mut out: Vec<TraitInfo> = Vec::new();
    if pos < n && s[pos] == ']' {
        return Some((out, pos + 1));
    }
    loop
        invariant
            i < pos <= n,
            n == s@.len(),
        decreases n - pos,
    {
        match parse_trait_info(s, pos) {
            Some((v, j)) => {
                out.push(v);
                pos = j;
            },
            None => {
                return None;
            },
        }
        if pos < n && s[pos] == ']' {
            return Some((out, pos + 1));
        }
        if pos < n && s[pos] == ',' {
            pos = pos + 1;
        } else {
            return None;
        }
    }
}

fn parse_type_details_inner(s: &[char], i: usize) -> (r: Option<(TypeDetails, usize)>)
    requires
        i <= s@.len(),
    ensures
        match r {
            Some((_, j)) => i < j <= s@.len(),
            None => true,
        },
{
    let pos = match expect_str(s, i, "\"name\":") {
        Some(j) => j,
        None => {
            return None;
        },
    };
    let (name, pos) = match parse_string(s, pos) {
        Some(p) => p,
        None => {
            return None;
        },
    };
    let pos = match expect_str(s, pos, ",\"path\":") {
        Some(j) => j,
        None => {
            return None;
        },
    };
    let (path, pos) = match parse_string(s, pos) {
        Some(p) => p,
        None => {
            return None;
        },
    };
    let pos = match expect_str(s, pos, ",\"kind\":") {
        Some(j) => j,
        None => {
            return None;
        },
    };
    let (kind, pos) = match parse_type_kind(s, pos) {
        Some(p) => p,
        None => {
            return None;
        },
    };
    let pos = match expect_str(s, pos, ",\"visibility\":") {
        Some(j) => j,
        None => {
            return None;
        },
    };
    let (visibility, pos) = match parse_visibility(s, pos) {
        Some(p) => p,
        None => {
            return None;
        },
    };
    let pos = match expect_str(s, pos, ",\"generics\":") {
        Some(j) => j,
        None => {
            return None;
        },
    };
    let (generics, pos) = match parse_gps_array(s, pos) {
        Some(p) => p,
        None => {
            return None;
        },
    };
    let pos = match expect_str(s, pos, ",\"where_clause\":") {
        Some(j) => j,
        None => {
            return None;
        },
    };
    let (where_clause, pos) = match parse_opt_string(s, pos) {
        Some(p) => p,
        None => {
            return None;
        },
    };
    let pos = match expect_str(s, pos, ",\"docs\":") {
        Some(j) => j,
        None => {
            return None;
        },
    };
    let (docs, pos) = match parse_opt_string(s, pos) {
        Some(p) => p,
        None => {
            return None;
        },
    };
    let pos = match expect_str(s, pos, ",\"attributes\":") {
        Some(j) => j,
        None => {
            return None;
        },
    };
    let (attributes, pos) = match parse_str_array(s, pos) {
        Some(p) => p,
        None => {
            return None;
        },
    };
    let pos = match expect_str(s, pos, ",\"fields\":") {
        Some(j) => j,
        None => {
            return None;
        },
    };
    let (fields, pos) = match parse_opt_fields(s, pos) {
        Some(p) => p,
        None => {
            return None;
        },
    };
    let pos = match expect_str(s, pos, ",\"variants\":") {
        Some(j) => j,
        None => {
            return None;
        },
    };
    let (variants, pos) = match parse_opt_variants(s, pos) {
        Some(p) => p,
        None => {
            return None;
        },
    };
    let pos = match expect_str(s, pos, ",\"trait_impls\":") {
        Some(j) => j,
        None => {
            return None;
        },
    };
    let (trait_impls, pos) = match parse_str_array(s, pos) {
        Some(p) => p,
        None => {
            return None;
        },
    };
    let pos = match expect_str(s, pos, ",\"inherent_methods\":") {
        Some(j) => j,
        None => {
            return None;
        },
    };
    let (inherent_methods, pos) = match parse_msums_array(s, pos) {
        Some(p) => p,
        None => {
            return None;
        },
    };
    let pos = match expect_str(s, pos, ",\"layout\":") {
        Some(j) => j,
        None => {
            return None;
        },
    };
    let (layout, pos) = match parse_opt_layout(s, pos) {
        Some(p) => p,
        None => {
            return None;
        },
    };
    let pos = match expect_str(s, pos, ",\"source\":") {
        Some(j) => j,
        None => {
            return None;
        },
    };
    let (source, pos) = match parse_opt_string(s, pos) {
        Some(p) => p,
        None => {
            return None;
        },
    };
    let pos = match expect_str(s, pos, ",\"span\":") {
        Some(j) => j,
        None => {
            return None;
        },
    };
    let (span, pos) = match parse_opt_span(s, pos) {
        Some(p) => p,
        None => {
            return None;
        },
    };
    Some((TypeDetails { name, path, kind, visibility, generics, where_clause, docs, attributes, fields, variants, trait_impls, inherent_methods, layout, source, span }, pos))
}

fn parse_trait_details_inner(s: &[char], i: usize) -> (r: Option<(TraitDetails, usize)>)
    requires
        i <= s@.len(),
    ensures
        match r {
            Some((_, j)) => i < j <= s@.len(),
            None => true,
        },
{
    let pos = match expect_str(s, i, "\"name\":") {
        Some(j) => j,
        None => {
            return None;
        },
    };
    let (name, pos) = match parse_string(s, pos) {
        Some(p) => p,
        None => {
            return None;
        },
    };
    let pos = match expect_str(s, pos, ",\"path\":") {
        Some(j) => j,
        None => {
            return None;
        },
    };
    let (path, pos) = match parse_string(s, pos) {
        Some(p) => p,
        None => {
            return None;
        },
    };
    let pos = match expect_str(s, pos, ",\"visibility\":") {
        Some(j) => j,
        None => {
            return None;
        },
    };
    let (visibility, pos) = match parse_visibility(s, pos) {
        Some(p) => p,
        None => {
            return None;
        },
    };
    let pos = match expect_str(s, pos, ",\"generics\":") {
        Some(j) => j,
        None => {
            return None;
        },
    };
    let (generics, pos) = match parse_gps_array(s, pos) {
        Some(p) => p,
        None => {
            return None;
        },
    };
    let pos = match expect_str(s, pos, ",\"where_clause\":") {
        Some(j) => j,
        None => {
            return None;
        },
    };
    let (where_clause, pos) = match parse_opt_string(s, pos) {
        Some(p) => p,
        None => {
            return None;
        },
    };
    let pos = match expect_str(s, pos, ",\"is_auto\":") {
        Some(j) => j,
        None => {
            return None;
        },
    };
    let (is_auto, pos) = match parse_bool(s, pos) {
        Some(p) => p,
        None => {
            return None;
        },
    };
    let pos = match expect_str(s, pos, ",\"is_unsafe\":") {
        Some(j) => j,
        None => {
            return None;
        },
    };
    let (is_unsafe, pos) = match parse_bool(s, pos) {
        Some(p) => p,
        None => {
            return None;
        },
    };
    let pos = match expect_str(s, pos, ",\"supertraits\":") {
        Some(j) => j,
        None => {
            return None;
        },
    };
    let (supertraits, pos) = match parse_str_array(s, pos) {
        Some(p) => p,
        None => {
            return None;
        },
    };
    let pos = match expect_str(s, pos, ",\"methods\":") {
        Some(j) => j,
        None => {
            return None;
        },
    };
    let (methods, pos) = match parse_trait_methods_array(s, pos) {
        Some(p) => p,
        None => {
            return None;
        },
    };
    let pos = match expect_str(s, pos, ",\"assoc_types\":") {
        Some(j) => j,
        None => {
            return None;
        },
    };
    let (assoc_types, pos) = match parse_assoc_tys_array(s, pos) {
        Some(p) => p,
        None => {
            return None;
        },
    };
    let pos = match expect_str(s, pos, ",\"assoc_consts\":") {
        Some(j) => j,
        None => {
            return None;
        },
    };
    let (assoc_consts, pos) = match parse_assoc_consts_array(s, pos) {
        Some(p) => p,
        None => {
            return None;
        },
    };
    let pos = match expect_str(s, pos, ",\"docs\":") {
        Some(j) => j,
        None => {
            return None;
        },
    };
    let (docs, pos) = match parse_opt_string(s, pos) {
        Some(p) => p,
        None => {
            return None;
        },
    };
    let pos = match expect_str(s, pos, ",\"attributes\":") {
        Some(j) => j,
        None => {
            return None;
        },
    };
    let (attributes, pos) = match parse_str_array(s, pos) {
        Some(p) => p,
        None => {
            return None;
        },
    };
    let pos = match expect_str(s, pos, ",\"source\":") {
        Some(j) => j,
        None => {
            return None;
        },
    };
    let (source, pos) = match parse_opt_string(s, pos) {
        Some(p) => p,
        None => {
            return None;
        },
    };
    let pos = match expect_str(s, pos, ",\"implementors\":") {
        Some(j) => j,
        None => {
            return None;
        },
    };
    let (implementors, pos) = match parse_str_array(s, pos) {
        Some(p) => p,
        None => {
            return None;
        },
    };
    let pos = match expect_str(s, pos, ",\"span\":") {
        Some(j) => j,
        None => {
            return None;
        },
    };
    let (span, pos) = match parse_opt_span(s, pos) {
        Some(p) => p,
        None => {
            return None;
        },
    };
    Some((TraitDetails { name, path, visibility, generics, where_clause, is_auto, is_unsafe, supertraits, methods, assoc_types, assoc_consts, docs, attributes, source, implementors, span }, pos))
}

/// Read a successful payload object at `i`, and hand it back only when
/// re-spelling it reproduces exactly the consumed characters: whatever is
/// returned, the line spells it.
pub fn parse_query_data(s: &[char], i: usize) -> (r: Option<(QueryData, usize)>)
    requires
        i <= s@.len(),
    ensures
        match r {
            Some((d, j)) => i < j <= s@.len() && !(d is Pong) && !(d is ShuttingDown)
                && s@.subrange(i as int, j as int) == se_query_data(d),
            None => true,
        },
{
    match parse_query_data_raw(s, i) {
        Some((d, j)) => {
            let mut buf: Vec<char> = Vec::new();
            emit_query_data(&mut buf, &d);
            if buf.len() == j - i && occurs_at_exec(s, buf.as_slice(), i) {
                proof {
                    assert(s@.subrange(i as int, j as int) == se_query_data(d));
                }
                Some((d, j))
            } else {
                None
            }
        },
        None => None,
    }
}

fn parse_query_data_raw(s: &[char], i: usize) -> (r: Option<(QueryData, usize)>)
    requires
        i <= s@.len(),
    ensures
        match r {
            Some((d, j)) => i < j <= s@.len() && !(d is Pong) && !(d is ShuttingDown),
            None => true,
        },
{
    match expect_str(s, i, "{\"type\":\"items\",\"items\":") {
        Some(j) => {
            let (items, pos) = match parse_items_array(s, j) {
                Some(p) => p,
                None => {
                    return None;
                },
            };
            return match expect_str(s, pos, "}") {
                Some(k) => Some((QueryData::Items { items }, k)),
                None => None,
            };
        },
        None => {},
    }
    match expect_str(s, i, "{\"type\":\"type_info\",") {
        Some(j) => {
            let (td, pos) = match parse_type_details_inner(s, j) {
                Some(p) => p,
                None => {
                    return None;
                },
            };
            return match expect_str(s, pos, "}") {
                Some(k) => Some((QueryData::TypeInfo(td), k)),
                None => None,
            };
        },
        None => {},
    }
    match expect_str(s, i, "{\"type\":\"trait_impls\",\"impls\":") {
        Some(j) => {
            let (impls, pos) = match parse_trait_impls_array(s, j) {
                Some(p) => p,
                None => {
                    return None;
                },
            };
            return match expect_str(s, pos, "}") {
                Some(k) => Some((QueryData::TraitImpls { impls }, k)),
                None => None,
            };
        },
        None => {},
    }
    match expect_str(s, i, "{\"type\":\"inherent_impls\",\"impls\":") {
        Some(j) => {
            let (impls, pos) = match parse_inherent_impls_array(s, j) {
                Some(p) => p,
                None => {
                    return None;
                },
            };
            return match expect_str(s, pos, "}") {
                Some(k) => Some((QueryData::InherentImpls { impls }, k)),
                None => None,
            };
        },
        None => {},
    }
    match expect_str(s, i, "{\"type\":\"fields\",\"fields\":") {
        Some(j) => {
            let (fields, pos) = match parse_fields_array(s, j) {
                Some(p) => p,
                None => {
                    return None;
                },
            };
            return match expect_str(s, pos, "}") {
                Some(k) => Some((QueryData::Fields { fields }, k)),
                None => None,
            };
        },
        None => {},
    }
    match expect_str(s, i, "{\"type\":\"layout\",") {
        Some(j) => {
            let (l, pos) = match parse_layout_inner(s, j) {
                Some(p) => p,
                None => {
                    return None;
                },
            };
            return match expect_str(s, pos, "}") {
                Some(k) => Some((QueryData::Layout(l), k)),
                None => None,
            };
        },
        None => {},
    }
    match expect_str(s, i, "{\"type\":\"traits\",\"traits\":") {
        Some(j) => {
            let (traits, pos) = match parse_trait_infos_array(s, j) {
                Some(p) => p,
                None => {
                    return None;
                },
            };
            return match expect_str(s, pos, "}") {
                Some(k) => Some((QueryData::Traits { traits }, k)),
                None => None,
            };
        },
        None => {},
    }
    match expect_str(s, i, "{\"type\":\"trait_details\",") {
        Some(j) => {
            let (td, pos) = match parse_trait_details_inner(s, j) {
                Some(p) => p,
                None => {
                    return None;
                },
            };
            return match expect_str(s, pos, "}") {
                Some(k) => Some((QueryData::TraitDetails(td), k)),
                None => None,
            };
        },
        None => {},
    }
    match expect_str(s, i, "{\"type\":\"types\",\"types\":") {
        Some(j) => {
            let (types, pos) = match parse_summaries_array(s, j) {
                Some(p) => p,
                None => {
                    return None;
                },
            };
            return match expect_str(s, pos, "}") {
                Some(k) => Some((QueryData::Types { types }, k)),
                None => None,
            };
        },
        None => {},
    }
    match expect_str(s, i, "{\"type\":\"resolved_type\",\"original\":") {
        Some(j) => {
            let (original, pos) = match parse_string(s, j) {
                Some(p) => p,
                None => {
                    return None;
                },
            };
            let pos = match expect_str(s, pos, ",\"resolved\":") {
                Some(k) => k,
                None => {
                    return None;
                },
            };
            let (resolved, pos) = match parse_string(s, pos) {
                Some(p) => p,
                None => {
                    return None;
                },
            };
            let pos = match expect_str(s, pos, ",\"chain\":") {
                Some(k) => k,
                None => {
                    return None;
                },
            };
            let (chain, pos) = match parse_str_array(s, pos) {
                Some(p) => p,
                None => {
                    return None;
                },
            };
            return match expect_str(s, pos, "}") {
                Some(k) => Some((QueryData::ResolvedType { original, resolved, chain }, k)),
                None => None,
            };
        },
        None => {},
    }
    match expect_str(s, i, "{\"type\":\"impl_check\",\"implements\":") {
        Some(j) => {
            let (implements, pos) = match parse_bool(s, j) {
                Some(p) => p,
                None => {
                    return None;
                },
            };
            let pos = match expect_str(s, pos, ",\"impl_info\":") {
                Some(k) => k,
                None => {
                    return None;
                },
            };
            let (impl_info, pos) = match expect_str(s, pos, "null") {
                Some(k) => (None, k),
                None => match parse_trait_impl(s, pos) {
                    Some((t, k)) => (Some(t), k),
                    None => {
                        return None;
                    },
                },
            };
            return match expect_str(s, pos, "}") {
                Some(k) => Some((QueryData::ImplCheck { implements, impl_info }, k)),
                None => None,
            };
        },
        None => {},
    }
    match expect_str(s, i, "{\"type\":\"implementors\",\"types\":") {
        Some(j) => {
            let (types, pos) = match parse_summaries_array(s, j) {
                Some(p) => p,
                None => {
                    return None;
                },
            };
            return match expect_str(s, pos, "}") {
                Some(k) => Some((QueryData::Implementors { types }, k)),
                None => None,
            };
        },
        None => {},
    }
    None
}

} // verus!
