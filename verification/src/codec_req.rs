//! The request codec: one request per line of structured text.
//!
//! `encode_request` produces exactly the canonical spelling given by
//! `enc_request`; `decode_request` accepts exactly what `sp_request`
//! accepts — the canonical spelling, with no tolerated variations, since
//! both peers are this library and a malformed line is answered as a
//! typed protocol error. Together they give the round trip: decoding an
//! encoded request yields a structurally equal request, for every query
//! variant.

use vstd::prelude::*;
use crate::chars::{occurs_at, lit_at, from_chars, to_chars};
use crate::codec_prim::{
    dec_u64, emit_raw, emit_str_lit, emit_u64, lemma_sp_str_lit_at, lemma_sp_u64_at, parse_str_lit,
    parse_u64, sp_str_lit, sp_u64, str_lit, is_dec_digit,
};
use crate::protocol::{Query, Request};

verus! {

/// The ghost shape of a query: its variant and field contents.
pub enum QueryV {
    ListItems,
    GetType { path: Seq<char> },
    GetTraitImpls { type_path: Seq<char> },
    GetInherentImpls { type_path: Seq<char> },
    GetFields { type_path: Seq<char> },
    GetLayout { type_path: Seq<char> },
    GetTraits,
    GetTrait { path: Seq<char> },
    FindTypes { pattern: Seq<char> },
    ResolveAlias { path: Seq<char> },
    CheckImpl { type_path: Seq<char>, trait_path: Seq<char> },
    GetImplementors { trait_path: Seq<char> },
    Ping,
    Shutdown,
}

/// The ghost shape of a request.
pub struct RequestV {
    pub id: u64,
    pub crate_name: Seq<char>,
    pub query: QueryV,
}

/// The shape of a query value.
pub open spec fn query_view(q: Query) -> QueryV {
    match q {
        Query::ListItems => QueryV::ListItems,
        Query::GetType { path } => QueryV::GetType { path: path@ },
        Query::GetTraitImpls { type_path } => QueryV::GetTraitImpls { type_path: type_path@ },
        Query::GetInherentImpls { type_path } => QueryV::GetInherentImpls {
            type_path: type_path@,
        },
        Query::GetFields { type_path } => QueryV::GetFields { type_path: type_path@ },
        Query::GetLayout { type_path } => QueryV::GetLayout { type_path: type_path@ },
        Query::GetTraits => QueryV::GetTraits,
        Query::GetTrait { path } => QueryV::GetTrait { path: path@ },
        Query::FindTypes { pattern } => QueryV::FindTypes { pattern: pattern@ },
        Query::ResolveAlias { path } => QueryV::ResolveAlias { path: path@ },
        Query::CheckImpl { type_path, trait_path } => QueryV::CheckImpl {
            type_path: type_path@,
            trait_path: trait_path@,
        },
        Query::GetImplementors { trait_path } => QueryV::GetImplementors {
            trait_path: trait_path@,
        },
        Query::Ping => QueryV::Ping,
        Query::Shutdown => QueryV::Shutdown,
    }
}

/// The shape of a request value.
pub open spec fn req_view(r: Request) -> RequestV {
    RequestV { id: r.id, crate_name: r.crate_name@, query: query_view(r.query) }
}

/// `{"id":`
pub open spec fn tk_req_head() -> Seq<char> {
    seq!['{', '"', 'i', 'd', '"', ':']
}

/// `,"crate_name":`
pub open spec fn tk_crate_name() -> Seq<char> {
    seq![',', '"', 'c', 'r', 'a', 't', 'e', '_', 'n', 'a', 'm', 'e', '"', ':']
}

/// `,"query":`
pub open spec fn tk_query() -> Seq<char> {
    seq![',', '"', 'q', 'u', 'e', 'r', 'y', '"', ':']
}

/// `{"type":`
pub open spec fn tk_type_head() -> Seq<char> {
    seq!['{', '"', 't', 'y', 'p', 'e', '"', ':']
}

/// `,"path":`
pub open spec fn tk_path() -> Seq<char> {
    seq![',', '"', 'p', 'a', 't', 'h', '"', ':']
}

/// `,"type_path":`
pub open spec fn tk_type_path() -> Seq<char> {
    seq![',', '"', 't', 'y', 'p', 'e', '_', 'p', 'a', 't', 'h', '"', ':']
}

/// `,"trait_path":`
pub open spec fn tk_trait_path() -> Seq<char> {
    seq![',', '"', 't', 'r', 'a', 'i', 't', '_', 'p', 'a', 't', 'h', '"', ':']
}

/// `,"pattern":`
pub open spec fn tk_pattern() -> Seq<char> {
    seq![',', '"', 'p', 'a', 't', 't', 'e', 'r', 'n', '"', ':']
}

pub open spec fn tag_list_items() -> Seq<char> {
    seq!['l', 'i', 's', 't', '_', 'i', 't', 'e', 'm', 's']
}

pub open spec fn tag_get_type() -> Seq<char> {
    seq!['g', 'e', 't', '_', 't', 'y', 'p', 'e']
}

pub open spec fn tag_get_trait_impls() -> Seq<char> {
    seq!['g', 'e', 't', '_', 't', 'r', 'a', 'i', 't', '_', 'i', 'm', 'p', 'l', 's']
}

pub open spec fn tag_get_inherent_impls() -> Seq<char> {
    seq!['g', 'e', 't', '_', 'i', 'n', 'h', 'e', 'r', 'e', 'n', 't', '_', 'i', 'm', 'p', 'l', 's']
}

pub open spec fn tag_get_fields() -> Seq<char> {
    seq!['g', 'e', 't', '_', 'f', 'i', 'e', 'l', 'd', 's']
}

pub open spec fn tag_get_layout() -> Seq<char> {
    seq!['g', 'e', 't', '_', 'l', 'a', 'y', 'o', 'u', 't']
}

pub open spec fn tag_get_traits() -> Seq<char> {
    seq!['g', 'e', 't', '_', 't', 'r', 'a', 'i', 't', 's']
}

pub open spec fn tag_get_trait() -> Seq<char> {
    seq!['g', 'e', 't', '_', 't', 'r', 'a', 'i', 't']
}

pub open spec fn tag_find_types() -> Seq<char> {
    seq!['f', 'i', 'n', 'd', '_', 't', 'y', 'p', 'e', 's']
}

pub open spec fn tag_resolve_alias() -> Seq<char> {
    seq!['r', 'e', 's', 'o', 'l', 'v', 'e', '_', 'a', 'l', 'i', 'a', 's']
}

pub open spec fn tag_check_impl() -> Seq<char> {
    seq!['c', 'h', 'e', 'c', 'k', '_', 'i', 'm', 'p', 'l']
}

pub open spec fn tag_get_implementors() -> Seq<char> {
    seq!['g', 'e', 't', '_', 'i', 'm', 'p', 'l', 'e', 'm', 'e', 'n', 't', 'o', 'r', 's']
}

pub open spec fn tag_ping() -> Seq<char> {
    seq!['p', 'i', 'n', 'g']
}

pub open spec fn tag_shutdown() -> Seq<char> {
    seq!['s', 'h', 'u', 't', 'd', 'o', 'w', 'n']
}

/// The tag naming a query variant.
pub open spec fn query_tag(q: Query) -> Seq<char> {
    match q {
        Query::ListItems => tag_list_items(),
        Query::GetType { .. } => tag_get_type(),
        Query::GetTraitImpls { .. } => tag_get_trait_impls(),
        Query::GetInherentImpls { .. } => tag_get_inherent_impls(),
        Query::GetFields { .. } => tag_get_fields(),
        Query::GetLayout { .. } => tag_get_layout(),
        Query::GetTraits => tag_get_traits(),
        Query::GetTrait { .. } => tag_get_trait(),
        Query::FindTypes { .. } => tag_find_types(),
        Query::ResolveAlias { .. } => tag_resolve_alias(),
        Query::CheckImpl { .. } => tag_check_impl(),
        Query::GetImplementors { .. } => tag_get_implementors(),
        Query::Ping => tag_ping(),
        Query::Shutdown => tag_shutdown(),
    }
}

/// The field part of a query's spelling, between the tag and the brace.
pub open spec fn enc_query_fields(q: Query) -> Seq<char> {
    match q {
        Query::ListItems => Seq::empty(),
        Query::GetType { path } => tk_path() + str_lit(path@),
        Query::GetTraitImpls { type_path } => tk_type_path() + str_lit(type_path@),
        Query::GetInherentImpls { type_path } => tk_type_path() + str_lit(type_path@),
        Query::GetFields { type_path } => tk_type_path() + str_lit(type_path@),
        Query::GetLayout { type_path } => tk_type_path() + str_lit(type_path@),
        Query::GetTraits => Seq::empty(),
        Query::GetTrait { path } => tk_path() + str_lit(path@),
        Query::FindTypes { pattern } => tk_pattern() + str_lit(pattern@),
        Query::ResolveAlias { path } => tk_path() + str_lit(path@),
        Query::CheckImpl { type_path, trait_path } => tk_type_path() + str_lit(type_path@)
            + tk_trait_path() + str_lit(trait_path@),
        Query::GetImplementors { trait_path } => tk_trait_path() + str_lit(trait_path@),
        Query::Ping => Seq::empty(),
        Query::Shutdown => Seq::empty(),
    }
}

/// The canonical spelling of a query.
pub open spec fn enc_query(q: Query) -> Seq<char> {
    tk_type_head() + str_lit(query_tag(q)) + enc_query_fields(q) + seq!['}']
}

/// The canonical spelling of a request: one object holding the id, the
/// unit name and the query.
pub open spec fn enc_request(r: Request) -> Seq<char> {
    tk_req_head() + dec_u64(r.id as int) + tk_crate_name() + str_lit(r.crate_name@) + tk_query()
        + enc_query(r.query) + seq!['}']
}

/// Parse one string field introduced by `tok` and closed by a brace.
pub open spec fn sp_str_field(s: Seq<char>, i: int, tok: Seq<char>) -> Option<(Seq<char>, int)> {
    if occurs_at(s, tok, i) {
        match sp_str_lit(s, i + tok.len() as int) {
            Option::Some((v, k)) => {
                if k < s.len() && s[k] == '}' {
                    Option::Some((v, k + 1))
                } else {
                    Option::None
                }
            },
            Option::None => Option::None,
        }
    } else {
        Option::None
    }
}

/// Parse a query object at `i`.
pub open spec fn sp_query(s: Seq<char>, i: int) -> Option<(QueryV, int)> {
    if 0 <= i && occurs_at(s, tk_type_head(), i) {
        match sp_str_lit(s, i + 8) {
            Option::Some((tag, j)) => {
                if tag == tag_list_items() {
                    if j < s.len() && s[j] == '}' {
                        Option::Some((QueryV::ListItems, j + 1))
                    } else {
                        Option::None
                    }
                } else if tag == tag_get_type() {
                    match sp_str_field(s, j, tk_path()) {
                        Option::Some((v, k)) => Option::Some((QueryV::GetType { path: v }, k)),
                        Option::None => Option::None,
                    }
                } else if tag == tag_get_trait_impls() {
                    match sp_str_field(s, j, tk_type_path()) {
                        Option::Some((v, k)) => Option::Some(
                            (QueryV::GetTraitImpls { type_path: v }, k),
                        ),
                        Option::None => Option::None,
                    }
                } else if tag == tag_get_inherent_impls() {
                    match sp_str_field(s, j, tk_type_path()) {
                        Option::Some((v, k)) => Option::Some(
                            (QueryV::GetInherentImpls { type_path: v }, k),
                        ),
                        Option::None => Option::None,
                    }
                } else if tag == tag_get_fields() {
                    match sp_str_field(s, j, tk_type_path()) {
                        Option::Some((v, k)) => Option::Some(
                            (QueryV::GetFields { type_path: v }, k),
                        ),
                        Option::None => Option::None,
                    }
                } else if tag == tag_get_layout() {
                    match sp_str_field(s, j, tk_type_path()) {
                        Option::Some((v, k)) => Option::Some(
                            (QueryV::GetLayout { type_path: v }, k),
                        ),
                        Option::None => Option::None,
                    }
                } else if tag == tag_get_traits() {
                    if j < s.len() && s[j] == '}' {
                        Option::Some((QueryV::GetTraits, j + 1))
                    } else {
                        Option::None
                    }
                } else if tag == tag_get_trait() {
                    match sp_str_field(s, j, tk_path()) {
                        Option::Some((v, k)) => Option::Some((QueryV::GetTrait { path: v }, k)),
                        Option::None => Option::None,
                    }
                } else if tag == tag_find_types() {
                    match sp_str_field(s, j, tk_pattern()) {
                        Option::Some((v, k)) => Option::Some(
                            (QueryV::FindTypes { pattern: v }, k),
                        ),
                        Option::None => Option::None,
                    }
                } else if tag == tag_resolve_alias() {
                    match sp_str_field(s, j, tk_path()) {
                        Option::Some((v, k)) => Option::Some(
                            (QueryV::ResolveAlias { path: v }, k),
                        ),
                        Option::None => Option::None,
                    }
                } else if tag == tag_check_impl() {
                    if occurs_at(s, tk_type_path(), j) {
                        match sp_str_lit(s, j + 13) {
                            Option::Some((tp, k)) => {
                                match sp_str_field(s, k, tk_trait_path()) {
                                    Option::Some((rp, m)) => Option::Some(
                                        (QueryV::CheckImpl { type_path: tp, trait_path: rp }, m),
                                    ),
                                    Option::None => Option::None,
                                }
                            },
                            Option::None => Option::None,
                        }
                    } else {
                        Option::None
                    }
                } else if tag == tag_get_implementors() {
                    match sp_str_field(s, j, tk_trait_path()) {
                        Option::Some((v, k)) => Option::Some(
                            (QueryV::GetImplementors { trait_path: v }, k),
                        ),
                        Option::None => Option::None,
                    }
                } else if tag == tag_ping() {
                    if j < s.len() && s[j] == '}' {
                        Option::Some((QueryV::Ping, j + 1))
                    } else {
                        Option::None
                    }
                } else if tag == tag_shutdown() {
                    if j < s.len() && s[j] == '}' {
                        Option::Some((QueryV::Shutdown, j + 1))
                    } else {
                        Option::None
                    }
                } else {
                    Option::None
                }
            },
            Option::None => Option::None,
        }
    } else {
        Option::None
    }
}

/// Parse a whole request line.
pub open spec fn sp_request(s: Seq<char>) -> Option<RequestV> {
    if occurs_at(s, tk_req_head(), 0) {
        match sp_u64(s, 6) {
            Option::Some((v, j)) => {
                if v <= u64::MAX && occurs_at(s, tk_crate_name(), j) {
                    match sp_str_lit(s, j + 14) {
                        Option::Some((name, k)) => {
                            if occurs_at(s, tk_query(), k) {
                                match sp_query(s, k + 9) {
                                    Option::Some((qv, m)) => {
                                        if m < s.len() && m + 1 == s.len() && s[m] == '}' {
                                            Option::Some(
                                                RequestV {
                                                    id: v as u64,
                                                    crate_name: name,
                                                    query: qv,
                                                },
                                            )
                                        } else {
                                            Option::None
                                        }
                                    },
                                    Option::None => Option::None,
                                }
                            } else {
                                Option::None
                            }
                        },
                        Option::None => Option::None,
                    }
                } else {
                    Option::None
                }
            },
            Option::None => Option::None,
        }
    } else {
        Option::None
    }
}

/// A token embedded at `i` is found there.
proof fn lemma_occurs_embed(s: Seq<char>, i: int, t: Seq<char>, whole: Seq<char>, off: int)
    requires
        0 <= i,
        0 <= off,
        off + t.len() <= whole.len(),
        i + whole.len() <= s.len(),
        s.subrange(i, i + whole.len() as int) == whole,
        whole.subrange(off, off + t.len() as int) == t,
    ensures
        occurs_at(s, t, i + off),
{
    assert forall|k: int| 0 <= k < t.len() implies s[i + off + k] == t[k] by {
        assert(s[i + off + k] == s.subrange(i, i + whole.len() as int)[off + k]);
        assert(whole[off + k] == whole.subrange(off, off + t.len() as int)[k]);
    }
    assert(s.subrange(i + off, i + off + t.len() as int) =~= t);
}

/// A query spelling embedded at `i` parses to exactly that query's shape.
#[verifier::rlimit(100)]
#[verifier::spinoff_prover]
proof fn lemma_sp_query_at(s: Seq<char>, i: int, q: Query)
    requires
        0 <= i,
        i + enc_query(q).len() <= s.len(),
        s.subrange(i, i + enc_query(q).len() as int) == enc_query(q),
    ensures
        sp_query(s, i) == Option::Some((query_view(q), i + enc_query(q).len() as int)),
{
    let w = enc_query(q);
    let tag = query_tag(q);
    let fields = enc_query_fields(q);
    assert(w == tk_type_head() + str_lit(tag) + fields + seq!['}']);
    assert(w.subrange(0, 8) =~= tk_type_head());
    lemma_occurs_embed(s, i, tk_type_head(), w, 0);
    assert(occurs_at(s, tk_type_head(), i + 0));
    assert(occurs_at(s, tk_type_head(), i));
    let tl = str_lit(tag).len() as int;
    assert forall|k: int| 0 <= k < tl implies s[i + 8 + k] == str_lit(tag)[k] by {
        assert(s[i + 8 + k] == s.subrange(i, i + w.len() as int)[8 + k]);
        assert(w[8 + k] == str_lit(tag)[k]);
    }
    assert(s.subrange(i + 8, i + 8 + tl) =~= str_lit(tag));
    lemma_sp_str_lit_at(s, i + 8, tag);
    let j = i + 8 + tl;
    assert forall|k: int| 0 <= k < fields.len() implies s[j + k] == fields[k] by {
        assert(s[j + k] == s.subrange(i, i + w.len() as int)[8 + tl + k]);
        assert(w[8 + tl + k] == fields[k]);
    }
    assert(s[j + fields.len() as int] == w[w.len() - 1]);
    assert(s[j + fields.len() as int] == '}');
    match q {
        Query::ListItems => {
            assert(tag == tag_list_items());
            assert(s[j] == '}');
        },
        Query::GetType { path } => {
            assert(tag == tag_get_type());
            assert(tag != tag_list_items());
            lemma_sp_one_field(s, j, tk_path(), path@, fields);
        },
        Query::GetTraitImpls { type_path } => {
            assert(tag != tag_list_items());
            assert(tag != tag_get_type());
            lemma_sp_one_field(s, j, tk_type_path(), type_path@, fields);
        },
        Query::GetInherentImpls { type_path } => {
            lemma_sp_one_field(s, j, tk_type_path(), type_path@, fields);
        },
        Query::GetFields { type_path } => {
            lemma_sp_one_field(s, j, tk_type_path(), type_path@, fields);
        },
        Query::GetLayout { type_path } => {
            lemma_sp_one_field(s, j, tk_type_path(), type_path@, fields);
        },
        Query::GetTraits => {
            assert(s[j] == '}');
        },
        Query::GetTrait { path } => {
            lemma_sp_one_field(s, j, tk_path(), path@, fields);
        },
        Query::FindTypes { pattern } => {
            lemma_sp_one_field(s, j, tk_pattern(), pattern@, fields);
        },
        Query::ResolveAlias { path } => {
            lemma_sp_one_field(s, j, tk_path(), path@, fields);
        },
        Query::CheckImpl { type_path, trait_path } => {
            let t1 = tk_type_path();
            let l1 = str_lit(type_path@);
            let t2 = tk_trait_path();
            let l2 = str_lit(trait_path@);
            assert(fields == t1 + l1 + t2 + l2);
            assert(fields.subrange(0, 13) =~= t1);
            assert forall|k: int| 0 <= k < fields.len() implies s.subrange(
                j,
                j + fields.len() as int,
            )[k] == fields[k] by {
                assert(s.subrange(j, j + fields.len() as int)[k] == s[j + k]);
            }
            assert(s.subrange(j, j + fields.len() as int) =~= fields);
            lemma_occurs_embed(s, j, t1, fields, 0);
            assert(occurs_at(s, t1, j + 0));
            assert(occurs_at(s, t1, j));
            assert forall|k: int| 0 <= k < l1.len() implies s[j + 13 + k] == l1[k] by {
                assert(fields[13 + k] == l1[k]);
            }
            assert(s.subrange(j + 13, j + 13 + l1.len() as int) =~= l1);
            lemma_sp_str_lit_at(s, j + 13, type_path@);
            let k2 = j + 13 + l1.len() as int;
            assert forall|k: int| 0 <= k < t2.len() implies s[k2 + k] == t2[k] by {
                assert(fields[13 + l1.len() + k] == t2[k]);
            }
            assert(s.subrange(k2, k2 + t2.len() as int) =~= t2);
            assert(occurs_at(s, t2, k2));
            assert forall|k: int| 0 <= k < l2.len() implies s[k2 + 14 + k] == l2[k] by {
                assert(fields[13 + l1.len() + 14 + k] == l2[k]);
            }
            assert(s.subrange(k2 + 14, k2 + 14 + l2.len() as int) =~= l2);
            lemma_sp_str_lit_at(s, k2 + 14, trait_path@);
            assert(s[k2 + 14 + l2.len() as int] == '}');
        },
        Query::GetImplementors { trait_path } => {
            lemma_sp_one_field(s, j, tk_trait_path(), trait_path@, fields);
        },
        Query::Ping => {
            assert(s[j] == '}');
        },
        Query::Shutdown => {
            assert(s[j] == '}');
        },
    }
}

/// One `tok`-introduced string field followed by a closing brace, embedded
/// at `j`, parses to exactly its content.
proof fn lemma_sp_one_field(s: Seq<char>, j: int, tok: Seq<char>, content: Seq<char>, fields: Seq<char>)
    requires
        0 <= j,
        fields == tok + str_lit(content),
        j + fields.len() + 1 <= s.len(),
        forall|k: int| 0 <= k < fields.len() ==> s[j + k] == fields[k],
        s[j + fields.len() as int] == '}',
    ensures
        sp_str_field(s, j, tok) == Option::Some((content, j + fields.len() + 1)),
{
    let l = str_lit(content);
    assert forall|k: int| 0 <= k < tok.len() implies s[j + k] == tok[k] by {
        assert(fields[k] == tok[k]);
    }
    assert(s.subrange(j, j + tok.len() as int) =~= tok);
    assert(occurs_at(s, tok, j));
    assert forall|k: int| 0 <= k < l.len() implies s[j + tok.len() + k] == l[k] by {
        assert(fields[tok.len() + k] == l[k]);
    }
    assert(s.subrange(j + tok.len(), j + tok.len() + l.len() as int) =~= l);
    lemma_sp_str_lit_at(s, j + tok.len() as int, content);
}

/// Append the canonical spelling of a query.
#[verifier::rlimit(100)]
fn emit_query(out: &mut Vec<char>, q: &Query)
    ensures
        final(out)@ == old(out)@ + enc_query(*q),
{
    match q {
        Query::ListItems => {
            emit_raw(out, "{\"type\":\"list_items\"}");
            proof {
                reveal_strlit("{\"type\":\"list_items\"}");
                crate::codec_prim::lemma_esc_str_plain(tag_list_items());
                assert("{\"type\":\"list_items\"}"@ =~= enc_query(*q));
            }
        },
        Query::GetType { path } => {
            emit_raw(out, "{\"type\":\"get_type\",\"path\":");
            emit_str_lit(out, path.as_str());
            out.push('}');
            proof {
                reveal_strlit("{\"type\":\"get_type\",\"path\":");
                crate::codec_prim::lemma_esc_str_plain(tag_get_type());
                assert("{\"type\":\"get_type\",\"path\":"@ =~= tk_type_head() + str_lit(
                    tag_get_type(),
                ) + tk_path());
                assert(out@ =~= old(out)@ + enc_query(*q));
            }
        },
        Query::GetTraitImpls { type_path } => {
            emit_raw(out, "{\"type\":\"get_trait_impls\",\"type_path\":");
            emit_str_lit(out, type_path.as_str());
            out.push('}');
            proof {
                reveal_strlit("{\"type\":\"get_trait_impls\",\"type_path\":");
                crate::codec_prim::lemma_esc_str_plain(tag_get_trait_impls());
                assert("{\"type\":\"get_trait_impls\",\"type_path\":"@ =~= tk_type_head()
                    + str_lit(tag_get_trait_impls()) + tk_type_path());
                assert(out@ =~= old(out)@ + enc_query(*q));
            }
        },
        Query::GetInherentImpls { type_path } => {
            emit_raw(out, "{\"type\":\"get_inherent_impls\",\"type_path\":");
            emit_str_lit(out, type_path.as_str());
            out.push('}');
            proof {
                reveal_strlit("{\"type\":\"get_inherent_impls\",\"type_path\":");
                crate::codec_prim::lemma_esc_str_plain(tag_get_inherent_impls());
                assert("{\"type\":\"get_inherent_impls\",\"type_path\":"@ =~= tk_type_head()
                    + str_lit(tag_get_inherent_impls()) + tk_type_path());
                assert(out@ =~= old(out)@ + enc_query(*q));
            }
        },
        Query::GetFields { type_path } => {
            emit_raw(out, "{\"type\":\"get_fields\",\"type_path\":");
            emit_str_lit(out, type_path.as_str());
            out.push('}');
            proof {
                reveal_strlit("{\"type\":\"get_fields\",\"type_path\":");
                crate::codec_prim::lemma_esc_str_plain(tag_get_fields());
                assert("{\"type\":\"get_fields\",\"type_path\":"@ =~= tk_type_head() + str_lit(
                    tag_get_fields(),
                ) + tk_type_path());
                assert(out@ =~= old(out)@ + enc_query(*q));
            }
        },
        Query::GetLayout { type_path } => {
            emit_raw(out, "{\"type\":\"get_layout\",\"type_path\":");
            emit_str_lit(out, type_path.as_str());
            out.push('}');
            proof {
                reveal_strlit("{\"type\":\"get_layout\",\"type_path\":");
                crate::codec_prim::lemma_esc_str_plain(tag_get_layout());
                assert("{\"type\":\"get_layout\",\"type_path\":"@ =~= tk_type_head() + str_lit(
                    tag_get_layout(),
                ) + tk_type_path());
                assert(out@ =~= old(out)@ + enc_query(*q));
            }
        },
        Query::GetTraits => {
            emit_raw(out, "{\"type\":\"get_traits\"}");
            proof {
                reveal_strlit("{\"type\":\"get_traits\"}");
                crate::codec_prim::lemma_esc_str_plain(tag_get_traits());
                assert("{\"type\":\"get_traits\"}"@ =~= enc_query(*q));
            }
        },
        Query::GetTrait { path } => {
            emit_raw(out, "{\"type\":\"get_trait\",\"path\":");
            emit_str_lit(out, path.as_str());
            out.push('}');
            proof {
                reveal_strlit("{\"type\":\"get_trait\",\"path\":");
                crate::codec_prim::lemma_esc_str_plain(tag_get_trait());
                assert("{\"type\":\"get_trait\",\"path\":"@ =~= tk_type_head() + str_lit(
                    tag_get_trait(),
                ) + tk_path());
                assert(out@ =~= old(out)@ + enc_query(*q));
            }
        },
        Query::FindTypes { pattern } => {
            emit_raw(out, "{\"type\":\"find_types\",\"pattern\":");
            emit_str_lit(out, pattern.as_str());
            out.push('}');
            proof {
                reveal_strlit("{\"type\":\"find_types\",\"pattern\":");
                crate::codec_prim::lemma_esc_str_plain(tag_find_types());
                assert("{\"type\":\"find_types\",\"pattern\":"@ =~= tk_type_head() + str_lit(
                    tag_find_types(),
                ) + tk_pattern());
                assert(out@ =~= old(out)@ + enc_query(*q));
            }
        },
        Query::ResolveAlias { path } => {
            emit_raw(out, "{\"type\":\"resolve_alias\",\"path\":");
            emit_str_lit(out, path.as_str());
            out.push('}');
            proof {
                reveal_strlit("{\"type\":\"resolve_alias\",\"path\":");
                crate::codec_prim::lemma_esc_str_plain(tag_resolve_alias());
                assert("{\"type\":\"resolve_alias\",\"path\":"@ =~= tk_type_head() + str_lit(
                    tag_resolve_alias(),
                ) + tk_path());
                assert(out@ =~= old(out)@ + enc_query(*q));
            }
        },
        Query::CheckImpl { type_path, trait_path } => {
            emit_raw(out, "{\"type\":\"check_impl\",\"type_path\":");
            emit_str_lit(out, type_path.as_str());
            emit_raw(out, ",\"trait_path\":");
            emit_str_lit(out, trait_path.as_str());
            out.push('}');
            proof {
                reveal_strlit("{\"type\":\"check_impl\",\"type_path\":");
                reveal_strlit(",\"trait_path\":");
                crate::codec_prim::lemma_esc_str_plain(tag_check_impl());
                assert("{\"type\":\"check_impl\",\"type_path\":"@ =~= tk_type_head() + str_lit(
                    tag_check_impl(),
                ) + tk_type_path());
                assert(",\"trait_path\":"@ =~= tk_trait_path());
                assert(out@ =~= old(out)@ + enc_query(*q));
            }
        },
        Query::GetImplementors { trait_path } => {
            emit_raw(out, "{\"type\":\"get_implementors\",\"trait_path\":");
            emit_str_lit(out, trait_path.as_str());
            out.push('}');
            proof {
                reveal_strlit("{\"type\":\"get_implementors\",\"trait_path\":");
                crate::codec_prim::lemma_esc_str_plain(tag_get_implementors());
                assert("{\"type\":\"get_implementors\",\"trait_path\":"@ =~= tk_type_head()
                    + str_lit(tag_get_implementors()) + tk_trait_path());
                assert(out@ =~= old(out)@ + enc_query(*q));
            }
        },
        Query::Ping => {
            emit_raw(out, "{\"type\":\"ping\"}");
            proof {
                reveal_strlit("{\"type\":\"ping\"}");
                crate::codec_prim::lemma_esc_str_plain(tag_ping());
                assert("{\"type\":\"ping\"}"@ =~= enc_query(*q));
            }
        },
        Query::Shutdown => {
            emit_raw(out, "{\"type\":\"shutdown\"}");
            proof {
                reveal_strlit("{\"type\":\"shutdown\"}");
                crate::codec_prim::lemma_esc_str_plain(tag_shutdown());
                assert("{\"type\":\"shutdown\"}"@ =~= enc_query(*q));
            }
        },
    }
}

/// Encode a request as its canonical line. Escaping leaves the result free
/// of unescaped newlines, and `sp_request` reads it back unchanged.
pub fn encode_request(req: &Request) -> (r: String)
    ensures
        r@ == enc_request(*req),
        sp_request(r@) == Option::Some(req_view(*req)),
{
    let mut out: Vec<char> = Vec::new();
    emit_raw(&mut out, "{\"id\":");
    emit_u64(&mut out, req.id);
    emit_raw(&mut out, ",\"crate_name\":");
    emit_str_lit(&mut out, req.crate_name.as_str());
    emit_raw(&mut out, ",\"query\":");
    emit_query(&mut out, &req.query);
    out.push('}');
    proof {
        reveal_strlit("{\"id\":");
        reveal_strlit(",\"crate_name\":");
        reveal_strlit(",\"query\":");
        assert("{\"id\":"@ =~= tk_req_head());
        assert(",\"crate_name\":"@ =~= tk_crate_name());
        assert(",\"query\":"@ =~= tk_query());
        assert(out@ =~= enc_request(*req));
        lemma_request_round_trip(*req);
    }
    from_chars(out.as_slice())
}

/// Parse one string field introduced by `tok` and closed by a brace.
fn parse_str_field(s: &[char], i: usize, tok: &[char]) -> (r: Option<(Vec<char>, usize)>)
    requires
        i <= s@.len(),
    ensures
        match r {
            Some((v, j)) => sp_str_field(s@, i as int, tok@) == Option::Some((v@, j as int)) && i
                < j <= s@.len(),
            None => sp_str_field(s@, i as int, tok@) is None,
        },
{
    if !lit_at(s, i, tok) {
        return None;
    }
    let slen = s.len();
    proof {
        assert(i + tok@.len() <= slen);
    }
    match parse_str_lit(s, i + tok.len()) {
        Some((v, k)) => {
            if k < s.len() && s[k] == '}' {
                Some((v, k + 1))
            } else {
                None
            }
        },
        None => None,
    }
}

/// Decode a request line: exactly the lines `sp_request` accepts decode,
/// to exactly the request shape it gives; everything else is a protocol
/// error.
#[verifier::rlimit(100)]
#[verifier::spinoff_prover]
pub fn decode_request(line: &str) -> (r: Result<Request, String>)
    ensures
        match sp_request(line@) {
            Option::Some(rv) => match r {
                Ok(req) => req_view(req) == rv,
                Err(_) => false,
            },
            Option::None => r is Err,
        },
{
    let s_vec = to_chars(line);
    let s = s_vec.as_slice();
    let head: Vec<char> = vec!['{', '"', 'i', 'd', '"', ':'];
    proof {
        assert(head@ =~= tk_req_head());
    }
    if !lit_at(s, 0, head.as_slice()) {
        return Err(parse_error_msg());
    }
    let (id, j) = match parse_u64(s, 6) {
        Some(p) => p,
        None => {
            return Err(parse_error_msg());
        },
    };
    let crate_tok: Vec<char> = vec![
        ',', '"', 'c', 'r', 'a', 't', 'e', '_', 'n', 'a', 'm', 'e', '"', ':',
    ];
    proof {
        assert(crate_tok@ =~= tk_crate_name());
    }
    if !lit_at(s, j, crate_tok.as_slice()) {
        return Err(parse_error_msg());
    }
    let slen = s.len();
    proof {
        assert(j + 14 <= slen);
    }
    let (name, k) = match parse_str_lit(s, j + 14) {
        Some(p) => p,
        None => {
            return Err(parse_error_msg());
        },
    };
    let query_tok: Vec<char> = vec![',', '"', 'q', 'u', 'e', 'r', 'y', '"', ':'];
    proof {
        assert(query_tok@ =~= tk_query());
    }
    if !lit_at(s, k, query_tok.as_slice()) {
        return Err(parse_error_msg());
    }
    proof {
        assert(k + 9 <= slen);
    }
    let (query, m) = match parse_query(s, k + 9) {
        Some(p) => p,
        None => {
            return Err(parse_error_msg());
        },
    };
    if m < s.len() && m + 1 == s.len() && s[m] == '}' {
        Ok(Request { id, crate_name: from_chars(name.as_slice()), query })
    } else {
        Err(parse_error_msg())
    }
}

/// The protocol-error diagnostic for an unreadable request line.
fn parse_error_msg() -> (r: String) {
    String::from_str("Failed to parse request: malformed request line")
}

/// Parse a query object at `i`.
#[verifier::rlimit(100)]
#[verifier::spinoff_prover]
fn parse_query(s: &[char], i: usize) -> (r: Option<(Query, usize)>)
    requires
        i <= s@.len(),
    ensures
        match r {
            Some((q, j)) => sp_query(s@, i as int) == Option::Some((query_view(q), j as int)) && i
                < j <= s@.len(),
            None => sp_query(s@, i as int) is None,
        },
{
    let type_head: Vec<char> = vec!['{', '"', 't', 'y', 'p', 'e', '"', ':'];
    proof {
        assert(type_head@ =~= tk_type_head());
    }
    if !lit_at(s, i, type_head.as_slice()) {
        return None;
    }
    let slen = s.len();
    proof {
        assert(i + 8 <= slen);
    }
    let (tag, j) = match parse_str_lit(s, i + 8) {
        Some(p) => p,
        None => {
            return None;
        },
    };
    let path_tok: Vec<char> = vec![',', '"', 'p', 'a', 't', 'h', '"', ':'];
    let type_path_tok: Vec<char> = vec![
        ',', '"', 't', 'y', 'p', 'e', '_', 'p', 'a', 't', 'h', '"', ':',
    ];
    let trait_path_tok: Vec<char> = vec![
        ',', '"', 't', 'r', 'a', 'i', 't', '_', 'p', 'a', 't', 'h', '"', ':',
    ];
    let pattern_tok: Vec<char> = vec![',', '"', 'p', 'a', 't', 't', 'e', 'r', 'n', '"', ':'];
    proof {
        assert(path_tok@ =~= tk_path());
        assert(type_path_tok@ =~= tk_type_path());
        assert(trait_path_tok@ =~= tk_trait_path());
        assert(pattern_tok@ =~= tk_pattern());
    }
    let t_list_items: Vec<char> = vec!['l', 'i', 's', 't', '_', 'i', 't', 'e', 'm', 's'];
    let t_get_type: Vec<char> = vec!['g', 'e', 't', '_', 't', 'y', 'p', 'e'];
    let t_get_trait_impls: Vec<char> = vec![
        'g', 'e', 't', '_', 't', 'r', 'a', 'i', 't', '_', 'i', 'm', 'p', 'l', 's',
    ];
    let t_get_inherent_impls: Vec<char> = vec![
        'g', 'e', 't', '_', 'i', 'n', 'h', 'e', 'r', 'e', 'n', 't', '_', 'i', 'm', 'p', 'l', 's',
    ];
    let t_get_fields: Vec<char> = vec!['g', 'e', 't', '_', 'f', 'i', 'e', 'l', 'd', 's'];
    let t_get_layout: Vec<char> = vec!['g', 'e', 't', '_', 'l', 'a', 'y', 'o', 'u', 't'];
    let t_get_traits: Vec<char> = vec!['g', 'e', 't', '_', 't', 'r', 'a', 'i', 't', 's'];
    let t_get_trait: Vec<char> = vec!['g', 'e', 't', '_', 't', 'r', 'a', 'i', 't'];
    let t_find_types: Vec<char> = vec!['f', 'i', 'n', 'd', '_', 't', 'y', 'p', 'e', 's'];
    let t_resolve_alias: Vec<char> = vec![
        'r', 'e', 's', 'o', 'l', 'v', 'e', '_', 'a', 'l', 'i', 'a', 's',
    ];
    let t_check_impl: Vec<char> = vec!['c', 'h', 'e', 'c', 'k', '_', 'i', 'm', 'p', 'l'];
    let t_get_implementors: Vec<char> = vec![
        'g', 'e', 't', '_', 'i', 'm', 'p', 'l', 'e', 'm', 'e', 'n', 't', 'o', 'r', 's',
    ];
    let t_ping: Vec<char> = vec!['p', 'i', 'n', 'g'];
    let t_shutdown: Vec<char> = vec!['s', 'h', 'u', 't', 'd', 'o', 'w', 'n'];
    proof {
        assert(t_list_items@ =~= tag_list_items());
        assert(t_get_type@ =~= tag_get_type());
        assert(t_get_trait_impls@ =~= tag_get_trait_impls());
        assert(t_get_inherent_impls@ =~= tag_get_inherent_impls());
        assert(t_get_fields@ =~= tag_get_fields());
        assert(t_get_layout@ =~= tag_get_layout());
        assert(t_get_traits@ =~= tag_get_traits());
        assert(t_get_trait@ =~= tag_get_trait());
        assert(t_find_types@ =~= tag_find_types());
        assert(t_resolve_alias@ =~= tag_resolve_alias());
        assert(t_check_impl@ =~= tag_check_impl());
        assert(t_get_implementors@ =~= tag_get_implementors());
        assert(t_ping@ =~= tag_ping());
        assert(t_shutdown@ =~= tag_shutdown());
    }
    let tag_s = tag.as_slice();
    if crate::chars::slice_eq(tag_s, t_list_items.as_slice()) {
        if j < s.len() && s[j] == '}' {
            Some((Query::ListItems, j + 1))
        } else {
            None
        }
    } else if crate::chars::slice_eq(tag_s, t_get_type.as_slice()) {
        match parse_str_field(s, j, path_tok.as_slice()) {
            Some((v, k)) => Some((Query::GetType { path: from_chars(v.as_slice()) }, k)),
            None => None,
        }
    } else if crate::chars::slice_eq(tag_s, t_get_trait_impls.as_slice()) {
        match parse_str_field(s, j, type_path_tok.as_slice()) {
            Some((v, k)) => Some(
                (Query::GetTraitImpls { type_path: from_chars(v.as_slice()) }, k),
            ),
            None => None,
        }
    } else if crate::chars::slice_eq(tag_s, t_get_inherent_impls.as_slice()) {
        match parse_str_field(s, j, type_path_tok.as_slice()) {
            Some((v, k)) => Some(
                (Query::GetInherentImpls { type_path: from_chars(v.as_slice()) }, k),
            ),
            None => None,
        }
    } else if crate::chars::slice_eq(tag_s, t_get_fields.as_slice()) {
        match parse_str_field(s, j, type_path_tok.as_slice()) {
            Some((v, k)) => Some((Query::GetFields { type_path: from_chars(v.as_slice()) }, k)),
            None => None,
        }
    } else if crate::chars::slice_eq(tag_s, t_get_layout.as_slice()) {
        match parse_str_field(s, j, type_path_tok.as_slice()) {
            Some((v, k)) => Some((Query::GetLayout { type_path: from_chars(v.as_slice()) }, k)),
            None => None,
        }
    } else if crate::chars::slice_eq(tag_s, t_get_traits.as_slice()) {
        if j < s.len() && s[j] == '}' {
            Some((Query::GetTraits, j + 1))
        } else {
            None
        }
    } else if crate::chars::slice_eq(tag_s, t_get_trait.as_slice()) {
        match parse_str_field(s, j, path_tok.as_slice()) {
            Some((v, k)) => Some((Query::GetTrait { path: from_chars(v.as_slice()) }, k)),
            None => None,
        }
    } else if crate::chars::slice_eq(tag_s, t_find_types.as_slice()) {
        match parse_str_field(s, j, pattern_tok.as_slice()) {
            Some((v, k)) => Some((Query::FindTypes { pattern: from_chars(v.as_slice()) }, k)),
            None => None,
        }
    } else if crate::chars::slice_eq(tag_s, t_resolve_alias.as_slice()) {
        match parse_str_field(s, j, path_tok.as_slice()) {
            Some((v, k)) => Some((Query::ResolveAlias { path: from_chars(v.as_slice()) }, k)),
            None => None,
        }
    } else if crate::chars::slice_eq(tag_s, t_check_impl.as_slice()) {
        if !lit_at(s, j, type_path_tok.as_slice()) {
            return None;
        }
        proof {
            assert(j + 13 <= slen);
        }
        match parse_str_lit(s, j + 13) {
            Some((tp, k)) => {
                match parse_str_field(s, k, trait_path_tok.as_slice()) {
                    Some((rp, m)) => Some(
                        (
                            Query::CheckImpl {
                                type_path: from_chars(tp.as_slice()),
                                trait_path: from_chars(rp.as_slice()),
                            },
                            m,
                        ),
                    ),
                    None => None,
                }
            },
            None => None,
        }
    } else if crate::chars::slice_eq(tag_s, t_get_implementors.as_slice()) {
        match parse_str_field(s, j, trait_path_tok.as_slice()) {
            Some((v, k)) => Some(
                (Query::GetImplementors { trait_path: from_chars(v.as_slice()) }, k),
            ),
            None => None,
        }
    } else if crate::chars::slice_eq(tag_s, t_ping.as_slice()) {
        if j < s.len() && s[j] == '}' {
            Some((Query::Ping, j + 1))
        } else {
            None
        }
    } else if crate::chars::slice_eq(tag_s, t_shutdown.as_slice()) {
        if j < s.len() && s[j] == '}' {
            Some((Query::Shutdown, j + 1))
        } else {
            None
        }
    } else {
        None
    }
}

/// The layout of a seven-part concatenation: each part stands at its
/// cumulative offset.
pub(crate) proof fn lemma_concat7(
    a: Seq<char>,
    b: Seq<char>,
    c: Seq<char>,
    d: Seq<char>,
    e: Seq<char>,
    f: Seq<char>,
    g: Seq<char>,
    s: Seq<char>,
)
    requires
        s == a + b + c + d + e + f + g,
    ensures
        s.len() == a.len() as int + b.len() as int + c.len() as int + d.len() as int + e.len() as int + f.len() as int + g.len() as int,
        s.subrange(0, a.len() as int) == a,
        s.subrange(a.len() as int, a.len() as int + b.len() as int) == b,
        s.subrange(a.len() as int + b.len() as int, a.len() as int + b.len() as int + c.len() as int) == c,
        s.subrange(a.len() as int + b.len() as int + c.len() as int, a.len() as int + b.len() as int + c.len() as int + d.len() as int) == d,
        s.subrange(
            a.len() as int + b.len() as int + c.len() as int + d.len() as int,
            a.len() as int + b.len() as int + c.len() as int + d.len() as int + e.len() as int,
        ) == e,
        s.subrange(
            a.len() as int + b.len() as int + c.len() as int + d.len() as int + e.len() as int,
            a.len() as int + b.len() as int + c.len() as int + d.len() as int + e.len() as int + f.len() as int,
        ) == f,
        s.subrange(
            a.len() as int + b.len() as int + c.len() as int + d.len() as int + e.len() as int + f.len() as int,
            s.len() as int,
        ) == g,
{
    assert(s.subrange(0, a.len() as int) =~= a);
    assert(s.subrange(a.len() as int, a.len() as int + b.len() as int) =~= b);
    assert(s.subrange(a.len() as int + b.len() as int, a.len() as int + b.len() as int + c.len() as int) =~= c);
    assert(s.subrange(a.len() as int + b.len() as int + c.len() as int, a.len() as int + b.len() as int + c.len() as int + d.len() as int) =~= d);
    assert(s.subrange(
        a.len() as int + b.len() as int + c.len() as int + d.len() as int,
        a.len() as int + b.len() as int + c.len() as int + d.len() as int + e.len() as int,
    ) =~= e);
    assert(s.subrange(
        a.len() as int + b.len() as int + c.len() as int + d.len() as int + e.len() as int,
        a.len() as int + b.len() as int + c.len() as int + d.len() as int + e.len() as int + f.len() as int,
    ) =~= f);
    assert(s.subrange(
        a.len() as int + b.len() as int + c.len() as int + d.len() as int + e.len() as int + f.len() as int,
        s.len() as int,
    ) =~= g);
}

/// The round trip: the canonical spelling of a request parses back to the
/// request's shape, for every query variant.
#[verifier::rlimit(100)]
#[verifier::spinoff_prover]
pub proof fn lemma_request_round_trip(req: Request)
    ensures
        sp_request(enc_request(req)) == Option::Some(req_view(req)),
{
    let s = enc_request(req);
    let num = dec_u64(req.id as int);
    let name_l = str_lit(req.crate_name@);
    let q_enc = enc_query(req.query);
    assert(s == tk_req_head() + num + tk_crate_name() + name_l + tk_query() + q_enc + seq!['}']);
    lemma_concat7(tk_req_head(), num, tk_crate_name(), name_l, tk_query(), q_enc, seq!['}'], s);
    assert(occurs_at(s, tk_req_head(), 0));
    let j = 6 + num.len() as int;
    assert(s[j] == s.subrange(j, j + 14)[0]);
    assert(s[j] == ',');
    assert(!is_dec_digit(','));
    lemma_sp_u64_at(s, 6, req.id as int);
    assert(occurs_at(s, tk_crate_name(), j));
    lemma_sp_str_lit_at(s, j + 14, req.crate_name@);
    let k = j + 14 + name_l.len() as int;
    assert(occurs_at(s, tk_query(), k));
    lemma_sp_query_at(s, k + 9, req.query);
    let m = k + 9 + q_enc.len() as int;
    assert(s[m] == s.subrange(m, s.len() as int)[0]);
    assert(s[m] == '}');
    assert(m + 1 == s.len());
}

} // verus!
