//! The path pattern matcher used by type searches.
//!
//! A pattern takes one of four shapes: an exact path, a single-level glob
//! `prefix::*` (children one segment deep), a recursive glob `prefix::**`
//! (the prefix itself and all descendants), and a single in-place wildcard
//! `prefix*suffix`. A pattern with more than one `*` outside the two glob
//! suffix forms matches nothing.

use vstd::prelude::*;
use crate::chars::{
    contains_seq, contains_sub, copy_range, count_char, count_char_exec, ends_with, find_char,
    first_idx_of, lemma_count_char_zero, lemma_first_idx_of, prefix_of, starts_with, suffix_of,
    to_chars,
};

verus! {

/// Whitespace that is stripped from both operands before matching.
pub open spec fn is_ws(c: char) -> bool {
    c == ' ' || c == '\t' || c == '\n' || c == '\r'
}

/// `s` with leading whitespace removed.
pub open spec fn trim_front(s: Seq<char>) -> Seq<char>
    decreases s,
{
    if s.len() > 0 && is_ws(s[0]) {
        trim_front(s.skip(1))
    } else {
        s
    }
}

/// `s` with trailing whitespace removed.
pub open spec fn trim_back(s: Seq<char>) -> Seq<char>
    decreases s,
{
    if s.len() > 0 && is_ws(s[s.len() - 1]) {
        trim_back(s.take(s.len() - 1))
    } else {
        s
    }
}

/// `s` with whitespace removed from both ends.
pub open spec fn trim_spec(s: Seq<char>) -> Seq<char> {
    trim_back(trim_front(s))
}

/// The path separator.
pub open spec fn dcolon() -> Seq<char> {
    seq![':', ':']
}

/// The recursive glob suffix.
pub open spec fn glob_rec_suffix() -> Seq<char> {
    seq![':', ':', '*', '*']
}

/// The single-level glob suffix.
pub open spec fn glob_one_suffix() -> Seq<char> {
    seq![':', ':', '*']
}

/// The matching rule on already-trimmed operands.
pub open spec fn matches_trimmed(p: Seq<char>, pat: Seq<char>) -> bool {
    if suffix_of(glob_rec_suffix(), pat) {
        let prefix = pat.take(pat.len() - 4);
        p == prefix || prefix_of(prefix + dcolon(), p)
    } else if suffix_of(glob_one_suffix(), pat) {
        let prefix = pat.take(pat.len() - 3);
        prefix_of(prefix + dcolon(), p) && !contains_seq(p.skip(prefix.len() as int + 2), dcolon())
    } else if count_char(pat, '*') == 1 {
        let k = first_idx_of(pat, '*');
        prefix_of(pat.take(k), p) && suffix_of(pat.skip(k + 1), p)
    } else if count_char(pat, '*') > 1 {
        false
    } else {
        p == pat
    }
}

/// Whether `path` matches `pattern`, after trimming both.
pub open spec fn spec_path_matches(path: Seq<char>, pattern: Seq<char>) -> bool {
    matches_trimmed(trim_spec(path), trim_spec(pattern))
}

proof fn lemma_trim_front_is_skip(s: Seq<char>, a: int)
    requires
        0 <= a <= s.len(),
        forall|k: int| 0 <= k < a ==> is_ws(s[k]),
        a < s.len() ==> !is_ws(s[a]),
    ensures
        trim_front(s) == s.skip(a),
    decreases a,
{
    if a == 0 {
        if s.len() > 0 && is_ws(s[0]) {
            assert(false);
        }
        assert(s.skip(0) =~= s);
    } else {
        assert(is_ws(s[0]));
        let t = s.skip(1);
        assert forall|k: int| 0 <= k < a - 1 implies is_ws(t[k]) by {
            assert(t[k] == s[k + 1]);
        }
        if a - 1 < t.len() {
            assert(t[a - 1] == s[a]);
        }
        lemma_trim_front_is_skip(t, a - 1);
        assert(t.skip(a - 1) =~= s.skip(a));
    }
}

proof fn lemma_trim_back_is_take(s: Seq<char>, b: int)
    requires
        0 <= b <= s.len(),
        forall|k: int| b <= k < s.len() ==> is_ws(s[k]),
        b > 0 ==> !is_ws(s[b - 1]),
    ensures
        trim_back(s) == s.take(b),
    decreases s.len() - b,
{
    if b == s.len() {
        if s.len() > 0 && is_ws(s[s.len() - 1]) {
            assert(false);
        }
        assert(s.take(b) =~= s);
    } else {
        assert(is_ws(s[s.len() - 1]));
        let t = s.take(s.len() - 1);
        assert forall|k: int| b <= k < t.len() implies is_ws(t[k]) by {
            assert(t[k] == s[k]);
        }
        lemma_trim_back_is_take(t, b);
        assert(t.take(b) =~= s.take(b));
    }
}

fn is_ws_exec(c: char) -> (r: bool)
    ensures
        r == is_ws(c),
{
    c == ' ' || c == '\t' || c == '\n' || c == '\r'
}

/// Copy of `a` with whitespace removed from both ends.
pub fn trim_chars(a: &[char]) -> (r: Vec<char>)
    ensures
        r@ == trim_spec(a@),
{
    let n = a.len();
    let mut start: usize = 0;
    while start < n && is_ws_exec(a[start])
        invariant
            start <= n,
            n == a@.len(),
            forall|k: int| 0 <= k < start ==> is_ws(a@[k]),
        decreases n - start,
    {
        start = start + 1;
    }
    let mut end: usize = n;
    while end > start && is_ws_exec(a[end - 1])
        invariant
            start <= end <= n,
            n == a@.len(),
            forall|k: int| 0 <= k < start ==> is_ws(a@[k]),
            start < n ==> !is_ws(a@[start as int]),
            forall|k: int| end <= k < n ==> is_ws(a@[k]),
        decreases end,
    {
        end = end - 1;
    }
    let r = copy_range(a, start, end);
    proof {
        lemma_trim_front_is_skip(a@, start as int);
        let t = a@.skip(start as int);
        assert forall|k: int| end - start <= k < t.len() implies is_ws(t[k]) by {
            assert(t[k] == a@[k + start]);
        }
        if end > start {
            assert(t[end - start - 1] == a@[end - 1]);
        }
        lemma_trim_back_is_take(t, end - start);
        assert(t.take(end - start) =~= a@.subrange(start as int, end as int));
    }
    r
}

/// Whether `path` matches `pattern` under the four pattern shapes.
pub fn path_matches_pattern(path: &str, pattern: &str) -> (r: bool)
    ensures
        r == spec_path_matches(path@, pattern@),
{
    let path_c = to_chars(path);
    let pattern_c = to_chars(pattern);
    let p = trim_chars(path_c.as_slice());
    let pat = trim_chars(pattern_c.as_slice());
    path_matches_trimmed(p.as_slice(), pat.as_slice())
}

fn path_matches_trimmed(p: &[char], pat: &[char]) -> (r: bool)
    ensures
        r == matches_trimmed(p@, pat@),
{
    let rec_glob: Vec<char> = vec![':', ':', '*', '*'];
    let one_glob: Vec<char> = vec![':', ':', '*'];
    proof {
        assert(rec_glob@ =~= glob_rec_suffix());
        assert(one_glob@ =~= glob_one_suffix());
    }
    if ends_with(pat, rec_glob.as_slice()) {
        let prefix = copy_range(pat, 0, pat.len() - 4);
        proof {
            assert(prefix@ =~= pat@.take(pat@.len() - 4));
        }
        if crate::chars::slice_eq(p, prefix.as_slice()) {
            return true;
        }
        let mut with_sep = prefix;
        with_sep.push(':');
        with_sep.push(':');
        proof {
            assert(with_sep@ =~= pat@.take(pat@.len() - 4) + dcolon());
        }
        starts_with(p, with_sep.as_slice())
    } else if ends_with(pat, one_glob.as_slice()) {
        let prefix_len = pat.len() - 3;
        let mut with_sep = copy_range(pat, 0, prefix_len);
        with_sep.push(':');
        with_sep.push(':');
        proof {
            assert(with_sep@ =~= pat@.take(pat@.len() - 3) + dcolon());
        }
        if !starts_with(p, with_sep.as_slice()) {
            return false;
        }
        let rest = copy_range(p, prefix_len + 2, p.len());
        let sep: Vec<char> = vec![':', ':'];
        proof {
            assert(sep@ =~= dcolon());
            assert(rest@ =~= p@.skip(pat@.len() - 3 + 2));
        }
        !contains_sub(rest.as_slice(), sep.as_slice())
    } else {
        let stars = count_char_exec(pat, '*');
        if stars == 1 {
            let k = match find_char(pat, '*') {
                Some(k) => k,
                None => {
                    proof {
                        lemma_first_idx_of(pat@, '*');
                        lemma_count_char_zero(pat@, '*');
                    }
                    // unreachable: one star is present
                    return false;
                },
            };
            let patlen = pat.len();
            proof {
                assert(k < patlen);
            }
            let head = copy_range(pat, 0, k);
            let tail = copy_range(pat, k + 1, patlen);
            proof {
                assert(head@ =~= pat@.take(first_idx_of(pat@, '*')));
                assert(tail@ =~= pat@.skip(first_idx_of(pat@, '*') + 1));
            }
            let okh = starts_with(p, head.as_slice());
            let okt = ends_with(p, tail.as_slice());
            okh && okt
        } else if stars > 1 {
            false
        } else {
            crate::chars::slice_eq(p, pat)
        }
    }
}

} // verus!
