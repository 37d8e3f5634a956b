//! The query resolver: each query variant is answered against one snapshot.
//!
//! Wherever a type or trait path is accepted, lookups are two-tier: an exact
//! key match is tried first; failing that, a suffix match accepts a key whose
//! trailing segment after the last path separator equals the supplied bare
//! name (segment-boundary matching, so `Foo` does not match `NotFoo`).

use vstd::prelude::*;
use crate::chars::{suffix_of, to_chars, ends_with, first_idx_of, find_char, slice_eq, copy_range};
use crate::pattern::{dcolon, spec_path_matches, path_matches_pattern};
use crate::protocol::{
    CrateTypeInfo, InherentImplDetails, LayoutInfo, QueryData, QueryResult, TraitDetails,
    TraitImplDetails, TraitInfo, TraitMethodInfo, TypeAliasInfo, TypeDetails, TypeSummary,
};
use crate::deep_eq::{
    fields_eq, gps_eq, inherent_impls_eq, items_eq, layout_eq, lemma_seq_all2_concat,
    lemma_seq_rel_push, p_inherent_impl, p_trait_impl, seq_all2, seq_rel, strs_eq,
    trait_details_eq, trait_impl_eq, trait_impls_eq, type_alias_eq, type_details_eq,
};
use crate::clones::{clone_fields, clone_gps, clone_items, clone_inherent_impls, clone_strs, clone_trait_impls};

verus! {

/// `key` ends with `::name`: the bare name on a segment boundary.
pub open spec fn seg_suffix(name: Seq<char>, key: Seq<char>) -> bool {
    suffix_of(dcolon() + name, key)
}

/// First index at or after `i` whose entry satisfies `p`, or `m.len()`.
pub open spec fn first_from<V>(m: Seq<V>, p: spec_fn(V) -> bool, i: int) -> int
    decreases m.len() - i,
    when 0 <= i <= m.len()
{
    if i >= m.len() {
        m.len() as int
    } else if p(m[i]) {
        i
    } else {
        first_from(m, p, i + 1)
    }
}

pub proof fn lemma_first_from<V>(m: Seq<V>, p: spec_fn(V) -> bool, i: int)
    requires
        0 <= i <= m.len(),
    ensures
        i <= first_from(m, p, i) <= m.len(),
        first_from(m, p, i) < m.len() ==> p(m[first_from(m, p, i)]),
        forall|k: int| i <= k < first_from(m, p, i) ==> !p(m[k]),
    decreases m.len() - i,
{
    if i < m.len() && !p(m[i]) {
        lemma_first_from(m, p, i + 1);
    }
}

/// The first index satisfying `p` is `f`, given the scan evidence.
pub proof fn lemma_first_from_pins<V>(m: Seq<V>, p: spec_fn(V) -> bool, f: int)
    requires
        0 <= f <= m.len(),
        f < m.len() ==> p(m[f]),
        forall|k: int| 0 <= k < f ==> !p(m[k]),
    ensures
        first_from(m, p, 0) == if f < m.len() {
            f
        } else {
            m.len() as int
        },
{
    lemma_first_from(m, p, 0);
    let g = first_from(m, p, 0);
    if f < m.len() {
        if g < f {
            assert(!p(m[g]));
        }
        if g > f {
            assert(!p(m[f]));
        }
    } else {
        if g < m.len() {
            assert(!p(m[g]));
        }
    }
}

/// The predicate: the entry's key equals `key`.
pub open spec fn p_key<V>(key: Seq<char>) -> spec_fn((String, V)) -> bool {
    |entry: (String, V)| entry.0@ == key
}

/// The predicate: the stored type's path has `name` as its last segment.
pub open spec fn p_type_sfx(name: Seq<char>) -> spec_fn((String, TypeDetails)) -> bool {
    |entry: (String, TypeDetails)| seg_suffix(name, entry.1.path@)
}

/// The predicate: the stored trait's path has `name` as its last segment.
pub open spec fn p_trait_sfx(name: Seq<char>) -> spec_fn((String, TraitDetails)) -> bool {
    |entry: (String, TraitDetails)| seg_suffix(name, entry.1.path@)
}

/// The predicate: the stored alias's path has `name` as its last segment.
pub open spec fn p_alias_sfx(name: Seq<char>) -> spec_fn((String, TypeAliasInfo)) -> bool {
    |entry: (String, TypeAliasInfo)| seg_suffix(name, entry.1.path@)
}

/// The two-tier lookup outcome on a keyed sequence: the index of the first
/// entry whose key matches exactly; failing that, the first entry that
/// satisfies the suffix rule `sfx`; failing both, nothing.
pub open spec fn two_tier_idx<V>(
    m: Seq<(String, V)>,
    key: Seq<char>,
    sfx: spec_fn((String, V)) -> bool,
) -> Option<int> {
    let e = first_from(m, p_key(key), 0);
    if e < m.len() {
        Option::Some(e)
    } else {
        let s = first_from(m, sfx, 0);
        if s < m.len() {
            Option::Some(s)
        } else {
            Option::None
        }
    }
}

/// Index of the type entry serving `path`, under the two-tier rule.
pub open spec fn spec_find_type(m: Seq<(String, TypeDetails)>, path: Seq<char>) -> Option<int> {
    two_tier_idx(m, path, p_type_sfx(path))
}

/// Index of the trait entry serving `path`, under the two-tier rule.
pub open spec fn spec_find_trait(m: Seq<(String, TraitDetails)>, path: Seq<char>) -> Option<int> {
    two_tier_idx(m, path, p_trait_sfx(path))
}

/// Index of the alias entry serving `path`, under the two-tier rule.
pub open spec fn spec_find_alias(m: Seq<(String, TypeAliasInfo)>, path: Seq<char>) -> Option<int> {
    two_tier_idx(m, path, p_alias_sfx(path))
}

/// The predicate: the layout entry's key has `name` as its last segment.
pub open spec fn p_layout_sfx(name: Seq<char>) -> spec_fn((String, LayoutInfo)) -> bool {
    |entry: (String, LayoutInfo)| seg_suffix(name, entry.0@)
}

/// Index of the layout entry serving `path`, under the two-tier rule:
/// exact key first, then a key carrying `path` as its last segment.
pub open spec fn spec_find_layout(m: Seq<(String, LayoutInfo)>, path: Seq<char>) -> Option<int> {
    two_tier_idx(m, path, p_layout_sfx(path))
}

/// The character sequence `::name`.
pub fn seg_needle(name_chars: &Vec<char>) -> (r: Vec<char>)
    ensures
        r@ == dcolon() + name_chars@,
{
    let mut needle: Vec<char> = vec![':', ':'];
    let mut i: usize = 0;
    let n = name_chars.len();
    while i < n
        invariant
            i <= n,
            n == name_chars@.len(),
            needle@ == seq![':', ':'] + name_chars@.take(i as int),
        decreases n - i,
    {
        needle.push(name_chars[i]);
        proof {
            assert(needle@ =~= seq![':', ':'] + name_chars@.take(i + 1));
        }
        i = i + 1;
    }
    proof {
        assert(name_chars@.take(n as int) =~= name_chars@);
    }
    needle
}

/// Find the type entry serving `path`: exact key first, then suffix match
/// on the stored paths.
pub fn find_type_idx(m: &Vec<(String, TypeDetails)>, path: &String) -> (r: Option<usize>)
    ensures
        match r {
            Some(i) => spec_find_type(m@, path@) == Option::Some(i as int) && i < m@.len(),
            None => spec_find_type(m@, path@) is None,
        },
{
    let ghost pe = p_key::<TypeDetails>(path@);
    let ghost ps = p_type_sfx(path@);
    let n = m.len();
    let mut i: usize = 0;
    while i < n
        invariant
            i <= n,
            n == m@.len(),
            forall|k: int| 0 <= k < i ==> !#[trigger] pe(m@[k]),
            pe == p_key::<TypeDetails>(path@),
        decreases n - i,
    {
        if m[i].0.eq(path) {
            proof {
                assert(pe(m@[i as int]));
                lemma_first_from_pins(m@, pe, i as int);
            }
            return Some(i);
        }
        proof {
            assert(!pe(m@[i as int]));
        }
        i = i + 1;
    }
    proof {
        lemma_first_from_pins(m@, pe, n as int);
    }
    let path_chars = to_chars(path.as_str());
    let needle = seg_needle(&path_chars);
    let mut j: usize = 0;
    while j < n
        invariant
            n == m@.len(),
            j <= n,
            needle@ == dcolon() + path@,
            forall|k: int| 0 <= k < j ==> !#[trigger] ps(m@[k]),
            ps == p_type_sfx(path@),
            first_from(m@, p_key::<TypeDetails>(path@), 0) == m@.len(),
        decreases n - j,
    {
        let vp = to_chars(m[j].1.path.as_str());
        if ends_with(vp.as_slice(), needle.as_slice()) {
            proof {
                assert(ps(m@[j as int]));
                lemma_first_from_pins(m@, ps, j as int);
            }
            return Some(j);
        }
        proof {
            assert(!ps(m@[j as int]));
        }
        j = j + 1;
    }
    proof {
        lemma_first_from_pins(m@, ps, n as int);
    }
    None
}

/// Find the trait entry serving `path`: exact key first, then suffix match
/// on the stored paths.
pub fn find_trait_idx(m: &Vec<(String, TraitDetails)>, path: &String) -> (r: Option<usize>)
    ensures
        match r {
            Some(i) => spec_find_trait(m@, path@) == Option::Some(i as int) && i < m@.len(),
            None => spec_find_trait(m@, path@) is None,
        },
{
    let ghost pe = p_key::<TraitDetails>(path@);
    let ghost ps = p_trait_sfx(path@);
    let n = m.len();
    let mut i: usize = 0;
    while i < n
        invariant
            i <= n,
            n == m@.len(),
            forall|k: int| 0 <= k < i ==> !#[trigger] pe(m@[k]),
            pe == p_key::<TraitDetails>(path@),
        decreases n - i,
    {
        if m[i].0.eq(path) {
            proof {
                assert(pe(m@[i as int]));
                lemma_first_from_pins(m@, pe, i as int);
            }
            return Some(i);
        }
        proof {
            assert(!pe(m@[i as int]));
        }
        i = i + 1;
    }
    proof {
        lemma_first_from_pins(m@, pe, n as int);
    }
    let path_chars = to_chars(path.as_str());
    let needle = seg_needle(&path_chars);
    let mut j: usize = 0;
    while j < n
        invariant
            n == m@.len(),
            j <= n,
            needle@ == dcolon() + path@,
            forall|k: int| 0 <= k < j ==> !#[trigger] ps(m@[k]),
            ps == p_trait_sfx(path@),
            first_from(m@, p_key::<TraitDetails>(path@), 0) == m@.len(),
        decreases n - j,
    {
        let vp = to_chars(m[j].1.path.as_str());
        if ends_with(vp.as_slice(), needle.as_slice()) {
            proof {
                assert(ps(m@[j as int]));
                lemma_first_from_pins(m@, ps, j as int);
            }
            return Some(j);
        }
        proof {
            assert(!ps(m@[j as int]));
        }
        j = j + 1;
    }
    proof {
        lemma_first_from_pins(m@, ps, n as int);
    }
    None
}

/// Find the alias entry serving `path`: exact key first, then suffix match
/// on the stored paths.
pub fn find_alias_idx(m: &Vec<(String, TypeAliasInfo)>, path: &String) -> (r: Option<usize>)
    ensures
        match r {
            Some(i) => spec_find_alias(m@, path@) == Option::Some(i as int) && i < m@.len(),
            None => spec_find_alias(m@, path@) is None,
        },
{
    let ghost pe = p_key::<TypeAliasInfo>(path@);
    let ghost ps = p_alias_sfx(path@);
    let n = m.len();
    let mut i: usize = 0;
    while i < n
        invariant
            i <= n,
            n == m@.len(),
            forall|k: int| 0 <= k < i ==> !#[trigger] pe(m@[k]),
            pe == p_key::<TypeAliasInfo>(path@),
        decreases n - i,
    {
        if m[i].0.eq(path) {
            proof {
                assert(pe(m@[i as int]));
                lemma_first_from_pins(m@, pe, i as int);
            }
            return Some(i);
        }
        proof {
            assert(!pe(m@[i as int]));
        }
        i = i + 1;
    }
    proof {
        lemma_first_from_pins(m@, pe, n as int);
    }
    let path_chars = to_chars(path.as_str());
    let needle = seg_needle(&path_chars);
    let mut j: usize = 0;
    while j < n
        invariant
            n == m@.len(),
            j <= n,
            needle@ == dcolon() + path@,
            forall|k: int| 0 <= k < j ==> !#[trigger] ps(m@[k]),
            ps == p_alias_sfx(path@),
            first_from(m@, p_key::<TypeAliasInfo>(path@), 0) == m@.len(),
        decreases n - j,
    {
        let vp = to_chars(m[j].1.path.as_str());
        if ends_with(vp.as_slice(), needle.as_slice()) {
            proof {
                assert(ps(m@[j as int]));
                lemma_first_from_pins(m@, ps, j as int);
            }
            return Some(j);
        }
        proof {
            assert(!ps(m@[j as int]));
        }
        j = j + 1;
    }
    proof {
        lemma_first_from_pins(m@, ps, n as int);
    }
    None
}

/// Find the layout entry serving `path`: exact key first, then suffix
/// match on the keys.
pub fn find_layout_idx(m: &Vec<(String, LayoutInfo)>, path: &String) -> (r: Option<usize>)
    ensures
        match r {
            Some(i) => spec_find_layout(m@, path@) == Option::Some(i as int) && i < m@.len(),
            None => spec_find_layout(m@, path@) is None,
        },
{
    let ghost pe = p_key::<LayoutInfo>(path@);
    let ghost ps = p_layout_sfx(path@);
    let n = m.len();
    let mut i: usize = 0;
    while i < n
        invariant
            i <= n,
            n == m@.len(),
            forall|k: int| 0 <= k < i ==> !#[trigger] pe(m@[k]),
            pe == p_key::<LayoutInfo>(path@),
        decreases n - i,
    {
        if m[i].0.eq(path) {
            proof {
                assert(pe(m@[i as int]));
                lemma_first_from_pins(m@, pe, i as int);
            }
            return Some(i);
        }
        proof {
            assert(!pe(m@[i as int]));
        }
        i = i + 1;
    }
    proof {
        lemma_first_from_pins(m@, pe, n as int);
    }
    let path_chars = to_chars(path.as_str());
    let needle = seg_needle(&path_chars);
    let mut j: usize = 0;
    while j < n
        invariant
            n == m@.len(),
            j <= n,
            needle@ == dcolon() + path@,
            forall|k: int| 0 <= k < j ==> !#[trigger] ps(m@[k]),
            ps == p_layout_sfx(path@),
            first_from(m@, p_key::<LayoutInfo>(path@), 0) == m@.len(),
        decreases n - j,
    {
        let kc = to_chars(m[j].0.as_str());
        if ends_with(kc.as_slice(), needle.as_slice()) {
            proof {
                assert(ps(m@[j as int]));
                lemma_first_from_pins(m@, ps, j as int);
            }
            return Some(j);
        }
        proof {
            assert(!ps(m@[j as int]));
        }
        j = j + 1;
    }
    proof {
        lemma_first_from_pins(m@, ps, n as int);
    }
    None
}

/// The message joining `pre`, `mid` and `post`.
pub fn wrap_msg(pre: &str, mid: &String, post: &str) -> (r: String)
    ensures
        r@ == pre@ + mid@ + post@,
{
    let mut s = String::from_str(pre);
    s.append(mid.as_str());
    s.append(post);
    s
}

/// The "type not found" message for `path`.
pub open spec fn type_not_found_msg(path: Seq<char>) -> Seq<char> {
    "Type '"@ + path + "' not found"@
}

/// The "trait not found" message for `path`.
pub open spec fn trait_not_found_msg(path: Seq<char>) -> Seq<char> {
    "Trait '"@ + path + "' not found"@
}

/// The "layout not found" message for `path`.
pub open spec fn layout_not_found_msg(path: Seq<char>) -> Seq<char> {
    "Layout for '"@ + path + "' not found"@
}

/// The "alias not found" message for `path`.
pub open spec fn alias_not_found_msg(path: Seq<char>) -> Seq<char> {
    "Type alias '"@ + path + "' not found"@
}

/// The answer rule for a listing query: every item of the snapshot, in order.
pub open spec fn ans_list_items(info: CrateTypeInfo, r: QueryResult) -> bool {
    match r {
        QueryResult::Success { data: QueryData::Items { items } } => items_eq(items@, info.items@),
        _ => false,
    }
}

/// List all items of the snapshot.
pub fn list_items_q(info: &CrateTypeInfo) -> (r: QueryResult)
    ensures
        ans_list_items(*info, r),
{
    QueryResult::Success { data: QueryData::Items { items: clone_items(&info.items) } }
}

/// The answer rule for a type query: the two-tier lookup's entry, or a
/// typed "not found" error naming the subject.
pub open spec fn ans_get_type(info: CrateTypeInfo, path: String, r: QueryResult) -> bool {
    match spec_find_type(info.types@, path@) {
        Option::Some(i) => match r {
            QueryResult::Success { data: QueryData::TypeInfo(td) } => type_details_eq(
                td,
                info.types@[i].1,
            ),
            _ => false,
        },
        Option::None => match r {
            QueryResult::Error { message } => message@ == type_not_found_msg(path@),
            _ => false,
        },
    }
}

/// Serve a type query against the snapshot.
pub fn get_type_q(info: &CrateTypeInfo, path: &String) -> (r: QueryResult)
    ensures
        ans_get_type(*info, *path, r),
{
    match find_type_idx(&info.types, path) {
        Some(i) => QueryResult::Success { data: QueryData::TypeInfo(info.types[i].1.clone()) },
        None => QueryResult::Error { message: wrap_msg("Type '", path, "' not found") },
    }
}

/// The answer rule for a fields query: the found type's fields, or an empty
/// list where it has none, or the type's "not found" error.
pub open spec fn ans_get_fields(info: CrateTypeInfo, path: String, r: QueryResult) -> bool {
    match spec_find_type(info.types@, path@) {
        Option::Some(i) => match r {
            QueryResult::Success { data: QueryData::Fields { fields } } => match info.types@[i].1.fields {
                Option::Some(f) => fields_eq(fields@, f@),
                Option::None => fields@.len() == 0,
            },
            _ => false,
        },
        Option::None => match r {
            QueryResult::Error { message } => message@ == type_not_found_msg(path@),
            _ => false,
        },
    }
}

/// Serve a fields query against the snapshot.
pub fn get_fields_q(info: &CrateTypeInfo, path: &String) -> (r: QueryResult)
    ensures
        ans_get_fields(*info, *path, r),
{
    match find_type_idx(&info.types, path) {
        Some(i) => {
            let fields = match &info.types[i].1.fields {
                Some(f) => clone_fields(f),
                None => Vec::new(),
            };
            QueryResult::Success { data: QueryData::Fields { fields } }
        },
        None => QueryResult::Error { message: wrap_msg("Type '", path, "' not found") },
    }
}

/// The answer rule for a layout query: the exact entry, or its typed error.
pub open spec fn ans_get_layout(info: CrateTypeInfo, path: String, r: QueryResult) -> bool {
    match spec_find_layout(info.layouts@, path@) {
        Option::Some(i) => match r {
            QueryResult::Success { data: QueryData::Layout(l) } => layout_eq(l, info.layouts@[i].1),
            _ => false,
        },
        Option::None => match r {
            QueryResult::Error { message } => message@ == layout_not_found_msg(path@),
            _ => false,
        },
    }
}

/// Serve a layout query against the snapshot.
pub fn get_layout_q(info: &CrateTypeInfo, path: &String) -> (r: QueryResult)
    ensures
        ans_get_layout(*info, *path, r),
{
    match find_layout_idx(&info.layouts, path) {
        Some(i) => QueryResult::Success { data: QueryData::Layout(info.layouts[i].1.clone()) },
        None => QueryResult::Error { message: wrap_msg("Layout for '", path, "' not found") },
    }
}

/// The answer rule for a trait query: the two-tier lookup's entry, or its
/// typed error.
pub open spec fn ans_get_trait(info: CrateTypeInfo, path: String, r: QueryResult) -> bool {
    match spec_find_trait(info.traits@, path@) {
        Option::Some(i) => match r {
            QueryResult::Success { data: QueryData::TraitDetails(td) } => trait_details_eq(
                td,
                info.traits@[i].1,
            ),
            _ => false,
        },
        Option::None => match r {
            QueryResult::Error { message } => message@ == trait_not_found_msg(path@),
            _ => false,
        },
    }
}

/// Serve a trait query against the snapshot.
pub fn get_trait_q(info: &CrateTypeInfo, path: &String) -> (r: QueryResult)
    ensures
        ans_get_trait(*info, *path, r),
{
    match find_trait_idx(&info.traits, path) {
        Some(i) => QueryResult::Success { data: QueryData::TraitDetails(info.traits[i].1.clone()) },
        None => QueryResult::Error { message: wrap_msg("Trait '", path, "' not found") },
    }
}

/// The answer rule for an alias query: the found alias's declared path, its
/// fully resolved type, and a one-step chain holding the declared target.
pub open spec fn ans_resolve_alias(info: CrateTypeInfo, path: String, r: QueryResult) -> bool {
    match spec_find_alias(info.type_aliases@, path@) {
        Option::Some(i) => match r {
            QueryResult::Success {
                data: QueryData::ResolvedType { original, resolved, chain },
            } => {
                let a = info.type_aliases@[i].1;
                original@ == a.path@ && resolved@ == a.resolved_ty@ && chain@.len() == 1
                    && chain@[0]@ == a.ty@
            },
            _ => false,
        },
        Option::None => match r {
            QueryResult::Error { message } => message@ == alias_not_found_msg(path@),
            _ => false,
        },
    }
}

/// Serve an alias query against the snapshot.
pub fn resolve_alias_q(info: &CrateTypeInfo, path: &String) -> (r: QueryResult)
    ensures
        ans_resolve_alias(*info, *path, r),
{
    match find_alias_idx(&info.type_aliases, path) {
        Some(i) => {
            let a = &info.type_aliases[i].1;
            let chain: Vec<String> = vec![a.ty.clone()];
            QueryResult::Success {
                data: QueryData::ResolvedType {
                    original: a.path.clone(),
                    resolved: a.resolved_ty.clone(),
                    chain,
                },
            }
        },
        None => QueryResult::Error { message: wrap_msg("Type alias '", path, "' not found") },
    }
}

/// The summary a listing carries for a stored type.
pub open spec fn summary_matches(s: TypeSummary, td: TypeDetails) -> bool {
    &&& s.name@ == td.name@
    &&& s.path@ == td.path@
    &&& s.kind == td.kind
    &&& gps_eq(s.generics@, td.generics@)
}

/// The summary relation, as a value.
pub open spec fn p_sum_td() -> spec_fn(TypeSummary, TypeDetails) -> bool {
    |s: TypeSummary, td: TypeDetails| summary_matches(s, td)
}

/// A fresh summary of the stored type.
fn summarize(td: &TypeDetails) -> (s: TypeSummary)
    ensures
        summary_matches(s, *td),
{
    TypeSummary {
        name: td.name.clone(),
        path: td.path.clone(),
        kind: td.kind,
        generics: clone_gps(&td.generics),
    }
}

/// How many of the first `j` trait methods have (`want` = true) or lack a
/// default body.
pub open spec fn count_default(ms: Seq<TraitMethodInfo>, want: bool, j: int) -> int
    decreases j,
    when 0 <= j <= ms.len()
{
    if j <= 0 {
        0
    } else {
        count_default(ms, want, j - 1) + if ms[j - 1].has_default == want {
            1int
        } else {
            0int
        }
    }
}

/// The summary a trait listing carries for a stored trait: its header data
/// and the counts of required and provided methods.
pub open spec fn trait_info_matches(ti: TraitInfo, td: TraitDetails) -> bool {
    &&& ti.name@ == td.name@
    &&& ti.path@ == td.path@
    &&& gps_eq(ti.generics@, td.generics@)
    &&& ti.required_methods == count_default(td.methods@, false, td.methods@.len() as int)
    &&& ti.provided_methods == count_default(td.methods@, true, td.methods@.len() as int)
    &&& strs_eq(ti.supertraits@, td.supertraits@)
}

/// The trait-summary relation, as a value.
pub open spec fn p_ti_td() -> spec_fn(TraitInfo, TraitDetails) -> bool {
    |ti: TraitInfo, td: TraitDetails| trait_info_matches(ti, td)
}

/// The stored values of a keyed sequence, in order.
pub open spec fn entry_vals<V>(m: Seq<(String, V)>) -> Seq<V> {
    m.map_values(|e: (String, V)| e.1)
}

/// The answer rule for a trait listing: one summary per stored trait.
pub open spec fn ans_get_traits(info: CrateTypeInfo, r: QueryResult) -> bool {
    match r {
        QueryResult::Success { data: QueryData::Traits { traits } } => seq_rel(
            traits@,
            entry_vals(info.traits@),
            p_ti_td(),
        ),
        _ => false,
    }
}

/// Serve a trait listing against the snapshot.
pub fn get_traits_q(info: &CrateTypeInfo) -> (r: QueryResult)
    ensures
        ans_get_traits(*info, r),
{
    let m = &info.traits;
    let n = m.len();
    let mut out: Vec<TraitInfo> = Vec::new();
    let mut i: usize = 0;
    proof {
        assert(entry_vals(m@).take(0) =~= Seq::<TraitDetails>::empty());
    }
    while i < n
        invariant
            i <= n,
            n == m@.len(),
            seq_rel(out@, entry_vals(m@).take(i as int), p_ti_td()),
        decreases n - i,
    {
        let td = &m[i].1;
        let mlen = td.methods.len();
        let mut j: usize = 0;
        let mut required: usize = 0;
        let mut provided: usize = 0;
        while j < mlen
            invariant
                j <= mlen,
                mlen == td.methods@.len(),
                required == count_default(td.methods@, false, j as int),
                provided == count_default(td.methods@, true, j as int),
                required + provided == j,
            decreases mlen - j,
        {
            if td.methods[j].has_default {
                provided = provided + 1;
            } else {
                required = required + 1;
            }
            j = j + 1;
        }
        let ti = TraitInfo {
            name: td.name.clone(),
            path: td.path.clone(),
            generics: clone_gps(&td.generics),
            required_methods: required,
            provided_methods: provided,
            supertraits: clone_strs(&td.supertraits),
        };
        proof {
            assert(trait_info_matches(ti, m@[i as int].1));
            assert(entry_vals(m@)[i as int] == m@[i as int].1);
            assert(entry_vals(m@).take(i + 1) =~= entry_vals(m@).take(i as int).push(
                m@[i as int].1,
            ));
            lemma_seq_rel_push(out@, entry_vals(m@).take(i as int), ti, m@[i as int].1, p_ti_td());
        }
        out.push(ti);
        i = i + 1;
    }
    proof {
        assert(entry_vals(m@).take(n as int) =~= entry_vals(m@));
    }
    QueryResult::Success { data: QueryData::Traits { traits: out } }
}

/// The stored types whose paths match the pattern, among the first `j`.
pub open spec fn ft_upto(m: Seq<(String, TypeDetails)>, pat: Seq<char>, j: int) -> Seq<TypeDetails>
    decreases j,
    when 0 <= j <= m.len()
{
    if j <= 0 {
        Seq::empty()
    } else {
        ft_upto(m, pat, j - 1) + if spec_path_matches(m[j - 1].1.path@, pat) {
            seq![m[j - 1].1]
        } else {
            Seq::empty()
        }
    }
}

/// The answer rule for a pattern search: one summary per stored type whose
/// path matches the pattern, in storage order.
pub open spec fn ans_find_types(info: CrateTypeInfo, pattern: String, r: QueryResult) -> bool {
    match r {
        QueryResult::Success { data: QueryData::Types { types } } => seq_rel(
            types@,
            ft_upto(info.types@, pattern@, info.types@.len() as int),
            p_sum_td(),
        ),
        _ => false,
    }
}

/// Serve a pattern search against the snapshot.
pub fn find_types_q(info: &CrateTypeInfo, pattern: &String) -> (r: QueryResult)
    ensures
        ans_find_types(*info, *pattern, r),
{
    let m = &info.types;
    let n = m.len();
    let mut out: Vec<TypeSummary> = Vec::new();
    let mut j: usize = 0;
    while j < n
        invariant
            j <= n,
            n == m@.len(),
            seq_rel(out@, ft_upto(m@, pattern@, j as int), p_sum_td()),
        decreases n - j,
    {
        let td = &m[j].1;
        if path_matches_pattern(td.path.as_str(), pattern.as_str()) {
            let s = summarize(td);
            proof {
                assert(ft_upto(m@, pattern@, j + 1) == ft_upto(m@, pattern@, j as int) + seq![
                    m@[j as int].1,
                ]);
                assert(ft_upto(m@, pattern@, j as int) + seq![m@[j as int].1] =~= ft_upto(
                    m@,
                    pattern@,
                    j as int,
                ).push(m@[j as int].1));
                lemma_seq_rel_push(
                    out@,
                    ft_upto(m@, pattern@, j as int),
                    s,
                    m@[j as int].1,
                    p_sum_td(),
                );
            }
            out.push(s);
        } else {
            proof {
                assert(ft_upto(m@, pattern@, j + 1) == ft_upto(m@, pattern@, j as int)
                    + Seq::<TypeDetails>::empty());
                assert(ft_upto(m@, pattern@, j as int) + Seq::<TypeDetails>::empty() =~= ft_upto(
                    m@,
                    pattern@,
                    j as int,
                ));
            }
        }
        j = j + 1;
    }
    QueryResult::Success { data: QueryData::Types { types: out } }
}

/// The prefix of `key` before its first generic-parameter delimiter; the
/// whole key when it has none.
pub open spec fn before_lt(key: Seq<char>) -> Seq<char> {
    key.take(first_idx_of(key, '<'))
}

/// The tier-two rule for impl maps: a distinct key whose last segment is the
/// bare name, or whose text before the first generic delimiter equals it.
pub open spec fn p_gti_extra(tp: Seq<char>) -> spec_fn((String, Vec<TraitImplDetails>)) -> bool {
    |e: (String, Vec<TraitImplDetails>)| e.0@ != tp && (seg_suffix(tp, e.0@) || before_lt(e.0@)
        == tp)
}

/// The impls under the exact key, if any.
pub open spec fn gti_exact(m: Seq<(String, Vec<TraitImplDetails>)>, tp: Seq<char>) -> Seq<
    TraitImplDetails,
> {
    let e = first_from(m, p_key(tp), 0);
    if e < m.len() {
        m[e].1@
    } else {
        Seq::empty()
    }
}

/// The impls gathered from the first `j` suffix-matching entries.
pub open spec fn gti_extra_upto(
    m: Seq<(String, Vec<TraitImplDetails>)>,
    tp: Seq<char>,
    j: int,
) -> Seq<TraitImplDetails>
    decreases j,
    when 0 <= j <= m.len()
{
    if j <= 0 {
        Seq::empty()
    } else {
        gti_extra_upto(m, tp, j - 1) + if p_gti_extra(tp)(m[j - 1]) {
            m[j - 1].1@
        } else {
            Seq::empty()
        }
    }
}

/// Everything a trait-impl query returns: the exact key's impls, then each
/// suffix-matching entry's impls in storage order.
pub open spec fn gti_sel(m: Seq<(String, Vec<TraitImplDetails>)>, tp: Seq<char>) -> Seq<
    TraitImplDetails,
> {
    gti_exact(m, tp) + gti_extra_upto(m, tp, m.len() as int)
}

/// The answer rule for a trait-impl query.
pub open spec fn ans_get_trait_impls(info: CrateTypeInfo, tp: String, r: QueryResult) -> bool {
    match r {
        QueryResult::Success { data: QueryData::TraitImpls { impls } } => trait_impls_eq(
            impls@,
            gti_sel(info.trait_impls@, tp@),
        ),
        _ => false,
    }
}

/// Whether `before_lt(key) == tp`, tested on characters.
fn lt_prefix_matches(key_c: &Vec<char>, tp_c: &Vec<char>) -> (r: bool)
    ensures
        r == (before_lt(key_c@) == tp_c@),
{
    proof {
        crate::chars::lemma_first_idx_of(key_c@, '<');
    }
    match find_char(key_c.as_slice(), '<') {
        Some(k) => {
            if k != tp_c.len() {
                proof {
                    assert(before_lt(key_c@).len() == k);
                }
                false
            } else {
                let pre = copy_range(key_c.as_slice(), 0, k);
                let r = slice_eq(pre.as_slice(), tp_c.as_slice());
                proof {
                    assert(pre@ == before_lt(key_c@));
                }
                r
            }
        },
        None => {
            let r = slice_eq(key_c.as_slice(), tp_c.as_slice());
            proof {
                assert(before_lt(key_c@) =~= key_c@);
            }
            r
        },
    }
}

/// Find the trait-impl entry with exactly this key.
fn find_ti_key_idx(m: &Vec<(String, Vec<TraitImplDetails>)>, key: &String) -> (r: Option<usize>)
    ensures
        match r {
            Some(i) => first_from(m@, p_key::<Vec<TraitImplDetails>>(key@), 0) == i as int && i
                < m@.len(),
            None => first_from(m@, p_key::<Vec<TraitImplDetails>>(key@), 0) == m@.len(),
        },
{
    let ghost pe = p_key::<Vec<TraitImplDetails>>(key@);
    let n = m.len();
    let mut i: usize = 0;
    while i < n
        invariant
            i <= n,
            n == m@.len(),
            forall|k: int| 0 <= k < i ==> !#[trigger] pe(m@[k]),
            pe == p_key::<Vec<TraitImplDetails>>(key@),
        decreases n - i,
    {
        if m[i].0.eq(key) {
            proof {
                assert(pe(m@[i as int]));
                lemma_first_from_pins(m@, pe, i as int);
            }
            return Some(i);
        }
        proof {
            assert(!pe(m@[i as int]));
        }
        i = i + 1;
    }
    proof {
        lemma_first_from_pins(m@, pe, n as int);
    }
    None
}

/// Serve a trait-impl query against the snapshot.
pub fn get_trait_impls_q(info: &CrateTypeInfo, tp: &String) -> (r: QueryResult)
    ensures
        ans_get_trait_impls(*info, *tp, r),
{
    let m = &info.trait_impls;
    let n = m.len();
    let ghost pg = p_gti_extra(tp@);
    let mut out: Vec<TraitImplDetails> = Vec::new();
    match find_ti_key_idx(m, tp) {
        Some(e) => {
            let mut c = clone_trait_impls(&m[e].1);
            out.append(&mut c);
            proof {
                assert(out@ =~= Seq::<TraitImplDetails>::empty() + out@);
                assert(trait_impls_eq(out@, gti_exact(m@, tp@)));
            }
        },
        None => {
            proof {
                assert(gti_exact(m@, tp@) =~= Seq::<TraitImplDetails>::empty());
                assert(trait_impls_eq(out@, gti_exact(m@, tp@)));
            }
        },
    }
    let tp_chars = to_chars(tp.as_str());
    let needle = seg_needle(&tp_chars);
    let mut j: usize = 0;
    proof {
        assert(trait_impls_eq(out@, gti_exact(m@, tp@) + gti_extra_upto(m@, tp@, 0))) by {
            assert(gti_exact(m@, tp@) + gti_extra_upto(m@, tp@, 0) =~= gti_exact(m@, tp@));
        }
    }
    while j < n
        invariant
            j <= n,
            n == m@.len(),
            needle@ == dcolon() + tp@,
            tp_chars@ == tp@,
            pg == p_gti_extra(tp@),
            trait_impls_eq(out@, gti_exact(m@, tp@) + gti_extra_upto(m@, tp@, j as int)),
        decreases n - j,
    {
        let selected = if m[j].0.eq(tp) {
            false
        } else {
            let key_c = to_chars(m[j].0.as_str());
            ends_with(key_c.as_slice(), needle.as_slice()) || lt_prefix_matches(&key_c, &tp_chars)
        };
        proof {
            assert(selected == pg(m@[j as int]));
        }
        if selected {
            let ghost old_out = out@;
            let mut c = clone_trait_impls(&m[j].1);
            let ghost cc = c@;
            out.append(&mut c);
            proof {
                lemma_seq_all2_concat(
                    old_out,
                    gti_exact(m@, tp@) + gti_extra_upto(m@, tp@, j as int),
                    cc,
                    m@[j as int].1@,
                    p_trait_impl(),
                );
                assert(gti_extra_upto(m@, tp@, j + 1) == gti_extra_upto(m@, tp@, j as int)
                    + m@[j as int].1@);
                assert((gti_exact(m@, tp@) + gti_extra_upto(m@, tp@, j as int)) + m@[j as int].1@
                    =~= gti_exact(m@, tp@) + gti_extra_upto(m@, tp@, j + 1));
            }
        } else {
            proof {
                assert(gti_extra_upto(m@, tp@, j + 1) == gti_extra_upto(m@, tp@, j as int)
                    + Seq::<TraitImplDetails>::empty());
                assert(gti_exact(m@, tp@) + gti_extra_upto(m@, tp@, j + 1) =~= gti_exact(m@, tp@)
                    + gti_extra_upto(m@, tp@, j as int));
            }
        }
        j = j + 1;
    }
    QueryResult::Success { data: QueryData::TraitImpls { impls: out } }
}

/// The tier-two rule for inherent-impl maps: a distinct key whose last
/// segment is the bare name.
pub open spec fn p_gii_extra(tp: Seq<char>) -> spec_fn((String, Vec<InherentImplDetails>)) -> bool {
    |e: (String, Vec<InherentImplDetails>)| e.0@ != tp && seg_suffix(tp, e.0@)
}

/// The inherent impls under the exact key, if any.
pub open spec fn gii_exact(m: Seq<(String, Vec<InherentImplDetails>)>, tp: Seq<char>) -> Seq<
    InherentImplDetails,
> {
    let e = first_from(m, p_key(tp), 0);
    if e < m.len() {
        m[e].1@
    } else {
        Seq::empty()
    }
}

/// The inherent impls gathered from the first `j` suffix-matching entries.
pub open spec fn gii_extra_upto(
    m: Seq<(String, Vec<InherentImplDetails>)>,
    tp: Seq<char>,
    j: int,
) -> Seq<InherentImplDetails>
    decreases j,
    when 0 <= j <= m.len()
{
    if j <= 0 {
        Seq::empty()
    } else {
        gii_extra_upto(m, tp, j - 1) + if p_gii_extra(tp)(m[j - 1]) {
            m[j - 1].1@
        } else {
            Seq::empty()
        }
    }
}

/// Everything an inherent-impl query returns.
pub open spec fn gii_sel(m: Seq<(String, Vec<InherentImplDetails>)>, tp: Seq<char>) -> Seq<
    InherentImplDetails,
> {
    gii_exact(m, tp) + gii_extra_upto(m, tp, m.len() as int)
}

/// The answer rule for an inherent-impl query.
pub open spec fn ans_get_inherent_impls(info: CrateTypeInfo, tp: String, r: QueryResult) -> bool {
    match r {
        QueryResult::Success { data: QueryData::InherentImpls { impls } } => inherent_impls_eq(
            impls@,
            gii_sel(info.inherent_impls@, tp@),
        ),
        _ => false,
    }
}

/// Find the inherent-impl entry with exactly this key.
fn find_ii_key_idx(m: &Vec<(String, Vec<InherentImplDetails>)>, key: &String) -> (r: Option<usize>)
    ensures
        match r {
            Some(i) => first_from(m@, p_key::<Vec<InherentImplDetails>>(key@), 0) == i as int && i
                < m@.len(),
            None => first_from(m@, p_key::<Vec<InherentImplDetails>>(key@), 0) == m@.len(),
        },
{
    let ghost pe = p_key::<Vec<InherentImplDetails>>(key@);
    let n = m.len();
    let mut i: usize = 0;
    while i < n
        invariant
            i <= n,
            n == m@.len(),
            forall|k: int| 0 <= k < i ==> !#[trigger] pe(m@[k]),
            pe == p_key::<Vec<InherentImplDetails>>(key@),
        decreases n - i,
    {
        if m[i].0.eq(key) {
            proof {
                assert(pe(m@[i as int]));
                lemma_first_from_pins(m@, pe, i as int);
            }
            return Some(i);
        }
        proof {
            assert(!pe(m@[i as int]));
        }
        i = i + 1;
    }
    proof {
        lemma_first_from_pins(m@, pe, n as int);
    }
    None
}

/// Serve an inherent-impl query against the snapshot.
pub fn get_inherent_impls_q(info: &CrateTypeInfo, tp: &String) -> (r: QueryResult)
    ensures
        ans_get_inherent_impls(*info, *tp, r),
{
    let m = &info.inherent_impls;
    let n = m.len();
    let ghost pg = p_gii_extra(tp@);
    let mut out: Vec<InherentImplDetails> = Vec::new();
    match find_ii_key_idx(m, tp) {
        Some(e) => {
            let mut c = clone_inherent_impls(&m[e].1);
            out.append(&mut c);
            proof {
                assert(out@ =~= Seq::<InherentImplDetails>::empty() + out@);
                assert(inherent_impls_eq(out@, gii_exact(m@, tp@)));
            }
        },
        None => {
            proof {
                assert(gii_exact(m@, tp@) =~= Seq::<InherentImplDetails>::empty());
                assert(inherent_impls_eq(out@, gii_exact(m@, tp@)));
            }
        },
    }
    let tp_chars = to_chars(tp.as_str());
    let needle = seg_needle(&tp_chars);
    let mut j: usize = 0;
    proof {
        assert(inherent_impls_eq(out@, gii_exact(m@, tp@) + gii_extra_upto(m@, tp@, 0))) by {
            assert(gii_exact(m@, tp@) + gii_extra_upto(m@, tp@, 0) =~= gii_exact(m@, tp@));
        }
    }
    while j < n
        invariant
            j <= n,
            n == m@.len(),
            needle@ == dcolon() + tp@,
            tp_chars@ == tp@,
            pg == p_gii_extra(tp@),
            inherent_impls_eq(out@, gii_exact(m@, tp@) + gii_extra_upto(m@, tp@, j as int)),
        decreases n - j,
    {
        let selected = if m[j].0.eq(tp) {
            false
        } else {
            let key_c = to_chars(m[j].0.as_str());
            ends_with(key_c.as_slice(), needle.as_slice())
        };
        proof {
            assert(selected == pg(m@[j as int]));
        }
        if selected {
            let ghost old_out = out@;
            let mut c = clone_inherent_impls(&m[j].1);
            let ghost cc = c@;
            out.append(&mut c);
            proof {
                lemma_seq_all2_concat(
                    old_out,
                    gii_exact(m@, tp@) + gii_extra_upto(m@, tp@, j as int),
                    cc,
                    m@[j as int].1@,
                    p_inherent_impl(),
                );
                assert(gii_extra_upto(m@, tp@, j + 1) == gii_extra_upto(m@, tp@, j as int)
                    + m@[j as int].1@);
                assert((gii_exact(m@, tp@) + gii_extra_upto(m@, tp@, j as int)) + m@[j as int].1@
                    =~= gii_exact(m@, tp@) + gii_extra_upto(m@, tp@, j + 1));
            }
        } else {
            proof {
                assert(gii_extra_upto(m@, tp@, j + 1) == gii_extra_upto(m@, tp@, j as int)
                    + Seq::<InherentImplDetails>::empty());
                assert(gii_exact(m@, tp@) + gii_extra_upto(m@, tp@, j + 1) =~= gii_exact(m@, tp@)
                    + gii_extra_upto(m@, tp@, j as int));
            }
        }
        j = j + 1;
    }
    QueryResult::Success { data: QueryData::InherentImpls { impls: out } }
}


/// The predicate: the impl implements `rp` (exact or bare-name match).
pub open spec fn p_impl_for(rp: Seq<char>) -> spec_fn(TraitImplDetails) -> bool {
    |im: TraitImplDetails| im.trait_path@ == rp || seg_suffix(rp, im.trait_path@)
}

/// The stored type under exactly this key, if any.
pub open spec fn type_exact_val(types: Seq<(String, TypeDetails)>, key: Seq<char>) -> Option<
    TypeDetails,
> {
    let e = first_from(types, p_key(key), 0);
    if e < types.len() {
        Option::Some(types[e].1)
    } else {
        Option::None
    }
}

/// The implementing types contributed by the first `k` impls of one entry:
/// one copy of the found type per matching impl.
pub open spec fn gi_entry_upto(
    impls: Seq<TraitImplDetails>,
    rp: Seq<char>,
    tdo: Option<TypeDetails>,
    k: int,
) -> Seq<TypeDetails>
    decreases k,
    when 0 <= k <= impls.len()
{
    if k <= 0 {
        Seq::empty()
    } else {
        gi_entry_upto(impls, rp, tdo, k - 1) + if p_impl_for(rp)(impls[k - 1]) {
            match tdo {
                Option::Some(td) => seq![td],
                Option::None => Seq::empty(),
            }
        } else {
            Seq::empty()
        }
    }
}

/// The implementing types gathered from the first `j` impl-map entries.
pub open spec fn gi_upto(
    m: Seq<(String, Vec<TraitImplDetails>)>,
    types: Seq<(String, TypeDetails)>,
    rp: Seq<char>,
    j: int,
) -> Seq<TypeDetails>
    decreases j,
    when 0 <= j <= m.len()
{
    if j <= 0 {
        Seq::empty()
    } else {
        gi_upto(m, types, rp, j - 1) + gi_entry_upto(
            m[j - 1].1@,
            rp,
            type_exact_val(types, m[j - 1].0@),
            m[j - 1].1@.len() as int,
        )
    }
}

/// The answer rule for an implementors query: for every impl of the trait,
/// the summary of its implementing type where the type map knows it, in
/// storage order and without deduplication.
pub open spec fn ans_get_implementors(info: CrateTypeInfo, rp: String, r: QueryResult) -> bool {
    match r {
        QueryResult::Success { data: QueryData::Implementors { types } } => seq_rel(
            types@,
            gi_upto(info.trait_impls@, info.types@, rp@, info.trait_impls@.len() as int),
            p_sum_td(),
        ),
        _ => false,
    }
}

/// Find the type entry with exactly this key.
fn find_type_key_idx(m: &Vec<(String, TypeDetails)>, key: &String) -> (r: Option<usize>)
    ensures
        match r {
            Some(i) => first_from(m@, p_key::<TypeDetails>(key@), 0) == i as int && i < m@.len(),
            None => first_from(m@, p_key::<TypeDetails>(key@), 0) == m@.len(),
        },
{
    let ghost pe = p_key::<TypeDetails>(key@);
    let n = m.len();
    let mut i: usize = 0;
    while i < n
        invariant
            i <= n,
            n == m@.len(),
            forall|k: int| 0 <= k < i ==> !#[trigger] pe(m@[k]),
            pe == p_key::<TypeDetails>(key@),
        decreases n - i,
    {
        if m[i].0.eq(key) {
            proof {
                assert(pe(m@[i as int]));
                lemma_first_from_pins(m@, pe, i as int);
            }
            return Some(i);
        }
        proof {
            assert(!pe(m@[i as int]));
        }
        i = i + 1;
    }
    proof {
        lemma_first_from_pins(m@, pe, n as int);
    }
    None
}

/// Serve an implementors query against the snapshot.
pub fn get_implementors_q(info: &CrateTypeInfo, rp: &String) -> (r: QueryResult)
    ensures
        ans_get_implementors(*info, *rp, r),
{
    let m = &info.trait_impls;
    let n = m.len();
    let ghost pf = p_impl_for(rp@);
    let rp_chars = to_chars(rp.as_str());
    let needle = seg_needle(&rp_chars);
    let mut out: Vec<TypeSummary> = Vec::new();
    let mut j: usize = 0;
    proof {
        assert(gi_upto(m@, info.types@, rp@, 0) =~= Seq::<TypeDetails>::empty());
    }
    while j < n
        invariant
            j <= n,
            n == m@.len(),
            needle@ == dcolon() + rp@,
            pf == p_impl_for(rp@),
            seq_rel(out@, gi_upto(m@, info.types@, rp@, j as int), p_sum_td()),
        decreases n - j,
    {
        let tdo = find_type_key_idx(&info.types, &m[j].0);
        let ghost tdo_spec = type_exact_val(info.types@, m@[j as int].0@);
        proof {
            match tdo {
                Some(e) => {
                    assert(tdo_spec == Option::Some(info.types@[e as int].1));
                },
                None => {
                    assert(tdo_spec is None);
                },
            }
        }
        let impls = &m[j].1;
        let klen = impls.len();
        let mut k: usize = 0;
        proof {
            assert(gi_upto(m@, info.types@, rp@, j as int) + gi_entry_upto(
                impls@,
                rp@,
                tdo_spec,
                0,
            ) =~= gi_upto(m@, info.types@, rp@, j as int));
        }
        while k < klen
            invariant
                k <= klen,
                klen == impls@.len(),
                impls@ == m@[j as int].1@,
                j < n,
                n == m@.len(),
                needle@ == dcolon() + rp@,
                pf == p_impl_for(rp@),
                tdo_spec == type_exact_val(info.types@, m@[j as int].0@),
                match tdo {
                    Some(e) => e < info.types@.len() && tdo_spec == Option::Some(
                        info.types@[e as int].1,
                    ),
                    None => tdo_spec is None,
                },
                seq_rel(
                    out@,
                    gi_upto(m@, info.types@, rp@, j as int) + gi_entry_upto(
                        impls@,
                        rp@,
                        tdo_spec,
                        k as int,
                    ),
                    p_sum_td(),
                ),
            decreases klen - k,
        {
            let im = &impls[k];
            let hit = if im.trait_path.eq(rp) {
                true
            } else {
                let tc = to_chars(im.trait_path.as_str());
                ends_with(tc.as_slice(), needle.as_slice())
            };
            proof {
                assert(hit == pf(impls@[k as int]));
            }
            if hit {
                match tdo {
                    Some(e) => {
                        let sm = summarize(&info.types[e].1);
                        proof {
                            assert(gi_entry_upto(impls@, rp@, tdo_spec, k + 1) == gi_entry_upto(
                                impls@,
                                rp@,
                                tdo_spec,
                                k as int,
                            ) + seq![info.types@[e as int].1]);
                            lemma_seq_rel_push(
                                out@,
                                gi_upto(m@, info.types@, rp@, j as int) + gi_entry_upto(
                                    impls@,
                                    rp@,
                                    tdo_spec,
                                    k as int,
                                ),
                                sm,
                                info.types@[e as int].1,
                                p_sum_td(),
                            );
                            assert((gi_upto(m@, info.types@, rp@, j as int) + gi_entry_upto(
                                impls@,
                                rp@,
                                tdo_spec,
                                k as int,
                            )).push(info.types@[e as int].1) =~= gi_upto(
                                m@,
                                info.types@,
                                rp@,
                                j as int,
                            ) + gi_entry_upto(impls@, rp@, tdo_spec, k + 1));
                        }
                        out.push(sm);
                    },
                    None => {
                        proof {
                            assert(gi_entry_upto(impls@, rp@, tdo_spec, k + 1) == gi_entry_upto(
                                impls@,
                                rp@,
                                tdo_spec,
                                k as int,
                            ) + Seq::<TypeDetails>::empty());
                            assert(gi_upto(m@, info.types@, rp@, j as int) + gi_entry_upto(
                                impls@,
                                rp@,
                                tdo_spec,
                                k + 1,
                            ) =~= gi_upto(m@, info.types@, rp@, j as int) + gi_entry_upto(
                                impls@,
                                rp@,
                                tdo_spec,
                                k as int,
                            ));
                        }
                    },
                }
            } else {
                proof {
                    assert(gi_entry_upto(impls@, rp@, tdo_spec, k + 1) == gi_entry_upto(
                        impls@,
                        rp@,
                        tdo_spec,
                        k as int,
                    ) + Seq::<TypeDetails>::empty());
                    assert(gi_upto(m@, info.types@, rp@, j as int) + gi_entry_upto(
                        impls@,
                        rp@,
                        tdo_spec,
                        k + 1,
                    ) =~= gi_upto(m@, info.types@, rp@, j as int) + gi_entry_upto(
                        impls@,
                        rp@,
                        tdo_spec,
                        k as int,
                    ));
                }
            }
            k = k + 1;
        }
        proof {
            assert(gi_upto(m@, info.types@, rp@, j + 1) == gi_upto(m@, info.types@, rp@, j as int)
                + gi_entry_upto(impls@, rp@, tdo_spec, impls@.len() as int));
        }
        j = j + 1;
    }
    QueryResult::Success { data: QueryData::Implementors { types: out } }
}

/// `key` serves `tp`: equal, `tp` as its last segment, or — for impl keys
/// on possibly-generic self types — the key's text before the first
/// generic-parameter delimiter equal to `tp`.
pub open spec fn key_serves_spec(key: Seq<char>, tp: Seq<char>) -> bool {
    key == tp || seg_suffix(tp, key) || before_lt(key) == tp
}

/// The first (entry, impl) pair establishing that `tp` implements `rp`:
/// entries are scanned in storage order; within the first serving entry
/// that has a matching impl, the first such impl is taken.
pub open spec fn ci_find(
    m: Seq<(String, Vec<TraitImplDetails>)>,
    tp: Seq<char>,
    rp: Seq<char>,
    i: int,
) -> Option<(int, int)>
    decreases m.len() - i,
    when 0 <= i <= m.len()
{
    if i >= m.len() {
        Option::None
    } else if key_serves_spec(m[i].0@, tp) && first_from(m[i].1@, p_impl_for(rp), 0) < m[i].1@.len() {
        Option::Some((i, first_from(m[i].1@, p_impl_for(rp), 0)))
    } else {
        ci_find(m, tp, rp, i + 1)
    }
}

/// Whether the snapshot shows `type_path` implementing `trait_path`, with
/// the first impl block that establishes it.
pub fn check_impl_from_cache(
    info: &CrateTypeInfo,
    type_path: &String,
    trait_path: &String,
) -> (r: (bool, Option<TraitImplDetails>))
    ensures
        match ci_find(info.trait_impls@, type_path@, trait_path@, 0) {
            Option::Some((i, j)) => r.0 == true && match r.1 {
                Some(d) => trait_impl_eq(d, info.trait_impls@[i].1@[j]),
                None => false,
            },
            Option::None => r.0 == false && r.1 is None,
        },
{
    let m = &info.trait_impls;
    let n = m.len();
    let ghost pf = p_impl_for(trait_path@);
    let tp_chars = to_chars(type_path.as_str());
    let tp_needle = seg_needle(&tp_chars);
    let rp_chars = to_chars(trait_path.as_str());
    let rp_needle = seg_needle(&rp_chars);
    let mut i: usize = 0;
    while i < n
        invariant
            i <= n,
            n == m@.len(),
            m@ == info.trait_impls@,
            tp_chars@ == type_path@,
            tp_needle@ == dcolon() + type_path@,
            rp_needle@ == dcolon() + trait_path@,
            pf == p_impl_for(trait_path@),
            ci_find(m@, type_path@, trait_path@, 0) == ci_find(m@, type_path@, trait_path@, i as int),
        decreases n - i,
    {
        let key_ok = if m[i].0.eq(type_path) {
            true
        } else {
            let kc = to_chars(m[i].0.as_str());
            ends_with(kc.as_slice(), tp_needle.as_slice()) || lt_prefix_matches(&kc, &tp_chars)
        };
        proof {
            assert(key_ok == key_serves_spec(m@[i as int].0@, type_path@));
        }
        if key_ok {
            let impls = &m[i].1;
            let klen = impls.len();
            let mut k: usize = 0;
            while k < klen
                invariant
                    k <= klen,
                    klen == impls@.len(),
                    impls@ == m@[i as int].1@,
                    m@ == info.trait_impls@,
                    i < n,
                    n == m@.len(),
                    rp_needle@ == dcolon() + trait_path@,
                    pf == p_impl_for(trait_path@),
                    key_serves_spec(m@[i as int].0@, type_path@),
                    ci_find(m@, type_path@, trait_path@, 0) == ci_find(
                        m@,
                        type_path@,
                        trait_path@,
                        i as int,
                    ),
                    forall|x: int| 0 <= x < k ==> !#[trigger] pf(impls@[x]),
                decreases klen - k,
            {
                let im = &impls[k];
                let hit = if im.trait_path.eq(trait_path) {
                    true
                } else {
                    let tc = to_chars(im.trait_path.as_str());
                    ends_with(tc.as_slice(), rp_needle.as_slice())
                };
                proof {
                    assert(hit == pf(impls@[k as int]));
                }
                if hit {
                    proof {
                        lemma_first_from_pins(impls@, pf, k as int);
                        assert(ci_find(m@, type_path@, trait_path@, i as int) == Option::Some((
                            i as int,
                            k as int,
                        )));
                        assert(ci_find(info.trait_impls@, type_path@, trait_path@, 0)
                            == Option::Some((i as int, k as int)));
                        assert(info.trait_impls@[i as int].1@[k as int] == impls@[k as int]);
                    }
                    let d = impls[k].clone();
                    proof {
                        assert(trait_impl_eq(d, info.trait_impls@[i as int].1@[k as int]));
                    }
                    return (true, Some(d));
                }
                k = k + 1;
            }
            proof {
                lemma_first_from_pins(impls@, pf, klen as int);
                assert(ci_find(m@, type_path@, trait_path@, i as int) == ci_find(
                    m@,
                    type_path@,
                    trait_path@,
                    i + 1,
                ));
            }
        } else {
            proof {
                assert(ci_find(m@, type_path@, trait_path@, i as int) == ci_find(
                    m@,
                    type_path@,
                    trait_path@,
                    i + 1,
                ));
            }
        }
        i = i + 1;
    }
    (false, None)
}

/// The answer rule for an implements-check: the verdict plus the first impl
/// block that establishes it.
pub open spec fn ans_check_impl(
    info: CrateTypeInfo,
    tp: String,
    rp: String,
    r: QueryResult,
) -> bool {
    match r {
        QueryResult::Success { data: QueryData::ImplCheck { implements, impl_info } } => {
            match ci_find(info.trait_impls@, tp@, rp@, 0) {
                Option::Some((i, j)) => implements && match impl_info {
                    Option::Some(d) => trait_impl_eq(d, info.trait_impls@[i].1@[j]),
                    Option::None => false,
                },
                Option::None => !implements && impl_info is None,
            }
        },
        _ => false,
    }
}

/// Serve an implements-check against the snapshot.
pub fn check_impl_q(info: &CrateTypeInfo, tp: &String, rp: &String) -> (r: QueryResult)
    ensures
        ans_check_impl(*info, *tp, *rp, r),
{
    let (implements, impl_info) = check_impl_from_cache(info, tp, rp);
    QueryResult::Success { data: QueryData::ImplCheck { implements, impl_info } }
}

/// The answer rule of the whole resolver: what each query variant returns
/// against a snapshot. Liveness and shutdown probes succeed without reading
/// the snapshot.
pub open spec fn snapshot_answer(info: CrateTypeInfo, q: crate::protocol::Query, r: QueryResult) -> bool {
    match q {
        crate::protocol::Query::ListItems => ans_list_items(info, r),
        crate::protocol::Query::GetType { path } => ans_get_type(info, path, r),
        crate::protocol::Query::GetTraitImpls { type_path } => ans_get_trait_impls(info, type_path, r),
        crate::protocol::Query::GetInherentImpls { type_path } => ans_get_inherent_impls(
            info,
            type_path,
            r,
        ),
        crate::protocol::Query::GetFields { type_path } => ans_get_fields(info, type_path, r),
        crate::protocol::Query::GetLayout { type_path } => ans_get_layout(info, type_path, r),
        crate::protocol::Query::GetTraits => ans_get_traits(info, r),
        crate::protocol::Query::GetTrait { path } => ans_get_trait(info, path, r),
        crate::protocol::Query::FindTypes { pattern } => ans_find_types(info, pattern, r),
        crate::protocol::Query::ResolveAlias { path } => ans_resolve_alias(info, path, r),
        crate::protocol::Query::CheckImpl { type_path, trait_path } => ans_check_impl(
            info,
            type_path,
            trait_path,
            r,
        ),
        crate::protocol::Query::GetImplementors { trait_path } => ans_get_implementors(
            info,
            trait_path,
            r,
        ),
        crate::protocol::Query::Ping => r == (QueryResult::Success { data: QueryData::Pong }),
        crate::protocol::Query::Shutdown => r == (QueryResult::Success {
            data: QueryData::ShuttingDown,
        }),
    }
}

/// Answer one query against one snapshot.
pub fn execute_on_snapshot(info: &CrateTypeInfo, query: &crate::protocol::Query) -> (r: QueryResult)
    ensures
        snapshot_answer(*info, *query, r),
{
    match query {
        crate::protocol::Query::ListItems => list_items_q(info),
        crate::protocol::Query::GetType { path } => get_type_q(info, path),
        crate::protocol::Query::GetTraitImpls { type_path } => get_trait_impls_q(info, type_path),
        crate::protocol::Query::GetInherentImpls { type_path } => get_inherent_impls_q(
            info,
            type_path,
        ),
        crate::protocol::Query::GetFields { type_path } => get_fields_q(info, type_path),
        crate::protocol::Query::GetLayout { type_path } => get_layout_q(info, type_path),
        crate::protocol::Query::GetTraits => get_traits_q(info),
        crate::protocol::Query::GetTrait { path } => get_trait_q(info, path),
        crate::protocol::Query::FindTypes { pattern } => find_types_q(info, pattern),
        crate::protocol::Query::ResolveAlias { path } => resolve_alias_q(info, path),
        crate::protocol::Query::CheckImpl { type_path, trait_path } => check_impl_q(
            info,
            type_path,
            trait_path,
        ),
        crate::protocol::Query::GetImplementors { trait_path } => get_implementors_q(
            info,
            trait_path,
        ),
        crate::protocol::Query::Ping => QueryResult::Success { data: QueryData::Pong },
        crate::protocol::Query::Shutdown => QueryResult::Success { data: QueryData::ShuttingDown },
    }
}

} // verus!
