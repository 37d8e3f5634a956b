//! Character-sequence utilities shared by the codec, the pattern matcher
//! and the lookup rules: conversions between strings and character vectors,
//! and verified prefix/suffix/search primitives.

use vstd::prelude::*;

verus! {

/// All characters of `s`, in order.
pub fn to_chars(s: &str) -> (r: Vec<char>)
    ensures
        r@ == s@,
{
    let n = s.unicode_len();
    let mut r: Vec<char> = Vec::new();
    let mut i: usize = 0;
    while i < n
        invariant
            i <= n,
            n == s@.len(),
            r@ == s@.subrange(0, i as int),
        decreases n - i,
    {
        r.push(s.get_char(i));
        i = i + 1;
    }
    proof {
        assert(r@ =~= s@);
    }
    r
}

/// Relies on std's `FromIterator for String`: collecting an iterator of
/// characters yields the string of exactly those characters, in order.
#[verifier::external_body]
pub fn from_chars(v: &[char]) -> (s: String)
    ensures
        s@ == v@,
{
    v.iter().collect()
}

/// `pre` is an initial segment of `s`.
pub open spec fn prefix_of(pre: Seq<char>, s: Seq<char>) -> bool {
    pre.len() <= s.len() && s.take(pre.len() as int) == pre
}

/// `suf` is a final segment of `s`.
pub open spec fn suffix_of(suf: Seq<char>, s: Seq<char>) -> bool {
    suf.len() <= s.len() && s.skip(s.len() - suf.len()) == suf
}

/// `sub` occurs in `s` starting at position `i`.
pub open spec fn occurs_at(s: Seq<char>, sub: Seq<char>, i: int) -> bool {
    0 <= i && i + sub.len() <= s.len() && s.subrange(i, i + sub.len()) == sub
}

/// `sub` occurs somewhere in `s`.
pub open spec fn contains_seq(s: Seq<char>, sub: Seq<char>) -> bool {
    exists|i: int| occurs_at(s, sub, i)
}

/// Number of occurrences of the character `c` in `s`.
pub open spec fn count_char(s: Seq<char>, c: char) -> nat
    decreases s,
{
    if s.len() == 0 {
        0
    } else {
        (if s[0] == c {
            1nat
        } else {
            0nat
        }) + count_char(s.skip(1), c)
    }
}

/// Position of the first occurrence of `c` in `s`, or `s.len()` if absent.
pub open spec fn first_idx_of(s: Seq<char>, c: char) -> int
    decreases s,
{
    if s.len() == 0 {
        0
    } else if s[0] == c {
        0
    } else {
        1 + first_idx_of(s.skip(1), c)
    }
}

pub proof fn lemma_first_idx_of(s: Seq<char>, c: char)
    ensures
        0 <= first_idx_of(s, c) <= s.len(),
        first_idx_of(s, c) < s.len() ==> s[first_idx_of(s, c)] == c,
        forall|k: int| 0 <= k < first_idx_of(s, c) ==> s[k] != c,
    decreases s,
{
    if s.len() > 0 && s[0] != c {
        lemma_first_idx_of(s.skip(1), c);
        let f = first_idx_of(s, c);
        assert(f == 1 + first_idx_of(s.skip(1), c));
        if f < s.len() {
            assert(s[f] == s.skip(1)[f - 1]);
        }
        assert forall|k: int| 0 <= k < f implies s[k] != c by {
            if k > 0 {
                assert(s[k] == s.skip(1)[k - 1]);
            }
        }
    }
}

pub proof fn lemma_count_char_zero(s: Seq<char>, c: char)
    ensures
        (count_char(s, c) == 0) <==> (forall|k: int| 0 <= k < s.len() ==> s[k] != c),
    decreases s,
{
    if s.len() > 0 {
        lemma_count_char_zero(s.skip(1), c);
        if count_char(s, c) == 0 {
            assert forall|k: int| 0 <= k < s.len() implies s[k] != c by {
                if k > 0 {
                    assert(s[k] == s.skip(1)[k - 1]);
                }
            }
        } else {
            if s[0] != c {
                assert(count_char(s.skip(1), c) != 0);
                let k0 = choose|k: int| 0 <= k < s.skip(1).len() && s.skip(1)[k] == c;
                assert(s[k0 + 1] == c);
            }
        }
    }
}

/// The two slices hold the same characters.
pub fn slice_eq(a: &[char], b: &[char]) -> (r: bool)
    ensures
        r == (a@ == b@),
{
    if a.len() != b.len() {
        proof {
            assert(a@.len() != b@.len());
        }
        return false;
    }
    let n = a.len();
    let mut i: usize = 0;
    while i < n
        invariant
            i <= n,
            n == a@.len(),
            n == b@.len(),
            forall|k: int| 0 <= k < i ==> a@[k] == b@[k],
        decreases n - i,
    {
        if a[i] != b[i] {
            return false;
        }
        i = i + 1;
    }
    proof {
        assert(a@ =~= b@);
    }
    true
}

/// Whether `pre` is a prefix of `a`.
pub fn starts_with(a: &[char], pre: &[char]) -> (r: bool)
    ensures
        r == prefix_of(pre@, a@),
{
    if pre.len() > a.len() {
        return false;
    }
    let n = pre.len();
    let mut i: usize = 0;
    while i < n
        invariant
            i <= n,
            n == pre@.len(),
            n <= a@.len(),
            forall|k: int| 0 <= k < i ==> a@[k] == pre@[k],
        decreases n - i,
    {
        if a[i] != pre[i] {
            proof {
                assert(a@.take(n as int)[i as int] != pre@[i as int]);
            }
            return false;
        }
        i = i + 1;
    }
    proof {
        assert(a@.take(n as int) =~= pre@);
    }
    true
}

/// Whether `sub` occurs in `a` at position `i`.
pub fn occurs_at_exec(a: &[char], sub: &[char], i: usize) -> (r: bool)
    requires
        i + sub@.len() <= a@.len(),
    ensures
        r == occurs_at(a@, sub@, i as int),
{
    let n = sub.len();
    let alen = a.len();
    let mut j: usize = 0;
    while j < n
        invariant
            j <= n,
            n == sub@.len(),
            alen == a@.len(),
            i + n <= alen,
            forall|k: int| 0 <= k < j ==> a@[i + k] == sub@[k],
        decreases n - j,
    {
        if a[i + j] != sub[j] {
            proof {
                assert(a@.subrange(i as int, i + sub@.len())[j as int] != sub@[j as int]);
            }
            return false;
        }
        j = j + 1;
    }
    proof {
        assert(a@.subrange(i as int, i + sub@.len()) =~= sub@);
    }
    true
}

/// Whether `suf` is a suffix of `a`.
pub fn ends_with(a: &[char], suf: &[char]) -> (r: bool)
    ensures
        r == suffix_of(suf@, a@),
{
    if suf.len() > a.len() {
        return false;
    }
    let off = a.len() - suf.len();
    let r = occurs_at_exec(a, suf, off);
    proof {
        assert(a@.skip(off as int) =~= a@.subrange(off as int, off + suf@.len()));
    }
    r
}

/// Whether `sub` occurs anywhere in `a`.
pub fn contains_sub(a: &[char], sub: &[char]) -> (r: bool)
    ensures
        r == contains_seq(a@, sub@),
{
    if sub.len() > a.len() {
        proof {
            assert(forall|i: int| !occurs_at(a@, sub@, i));
        }
        return false;
    }
    if sub.len() == 0 {
        proof {
            assert(a@.subrange(0, 0) =~= sub@);
            assert(occurs_at(a@, sub@, 0));
        }
        return true;
    }
    let alen = a.len();
    let last = alen - sub.len();
    let mut i: usize = 0;
    loop
        invariant
            i <= last + 1,
            alen == a@.len(),
            1 <= sub@.len() <= alen,
            last == alen - sub@.len(),
            forall|k: int| 0 <= k < i ==> !occurs_at(a@, sub@, k),
        decreases last + 1 - i,
    {
        if i > last {
            proof {
                assert forall|k: int| !occurs_at(a@, sub@, k) by {
                    if occurs_at(a@, sub@, k) {
                        assert(k + sub@.len() <= a@.len());
                        assert(0 <= k < i);
                    }
                }
            }
            return false;
        }
        if occurs_at_exec(a, sub, i) {
            return true;
        }
        i = i + 1;
    }
}

/// Whether `needle` occurs at `i`, with no length precondition.
pub fn lit_at(s: &[char], i: usize, needle: &[char]) -> (r: bool)
    requires
        i <= s@.len(),
    ensures
        r == occurs_at(s@, needle@, i as int),
{
    if s.len() - i < needle.len() {
        proof {
            assert(!occurs_at(s@, needle@, i as int));
        }
        false
    } else {
        occurs_at_exec(s, needle, i)
    }
}

/// Copy of `a[i..j]`.
pub fn copy_range(a: &[char], i: usize, j: usize) -> (r: Vec<char>)
    requires
        i <= j <= a@.len(),
    ensures
        r@ == a@.subrange(i as int, j as int),
{
    let mut r: Vec<char> = Vec::new();
    let mut k: usize = i;
    while k < j
        invariant
            i <= k <= j <= a@.len(),
            r@ == a@.subrange(i as int, k as int),
        decreases j - k,
    {
        r.push(a[k]);
        proof {
            assert(r@ =~= a@.subrange(i as int, k + 1));
        }
        k = k + 1;
    }
    r
}

/// Number of occurrences of `c` in `a`.
pub fn count_char_exec(a: &[char], c: char) -> (r: usize)
    ensures
        r == count_char(a@, c),
{
    let n = a.len();
    let mut r: usize = 0;
    let mut i: usize = 0;
    proof {
        assert(a@.take(0) =~= Seq::<char>::empty());
    }
    while i < n
        invariant
            i <= n,
            n == a@.len(),
            r == count_char(a@.take(i as int), c),
            r <= i,
        decreases n - i,
    {
        if a[i] == c {
            r = r + 1;
        }
        proof {
            lemma_count_char_snoc(a@.take(i as int), a@[i as int], c);
            assert(a@.take(i + 1) =~= a@.take(i as int).push(a@[i as int]));
        }
        i = i + 1;
    }
    proof {
        assert(a@.take(n as int) =~= a@);
    }
    r
}

proof fn lemma_count_char_snoc(s: Seq<char>, x: char, c: char)
    ensures
        count_char(s.push(x), c) == count_char(s, c) + (if x == c {
            1nat
        } else {
            0nat
        }),
    decreases s,
{
    if s.len() == 0 {
        assert(s.push(x).len() == 1);
        assert(s.push(x)[0] == x);
        assert(s.push(x).skip(1) =~= Seq::<char>::empty());
        assert(count_char(Seq::<char>::empty(), c) == 0);
    } else {
        assert(s.push(x)[0] == s[0]);
        assert(s.push(x).skip(1) =~= s.skip(1).push(x));
        lemma_count_char_snoc(s.skip(1), x, c);
    }
}

/// Position of the first `c` in `a`, if any.
pub fn find_char(a: &[char], c: char) -> (r: Option<usize>)
    ensures
        match r {
            Some(i) => i == first_idx_of(a@, c) && i < a@.len(),
            None => first_idx_of(a@, c) == a@.len(),
        },
{
    let n = a.len();
    let mut i: usize = 0;
    proof {
        lemma_first_idx_of(a@, c);
    }
    while i < n
        invariant
            i <= n,
            n == a@.len(),
            forall|k: int| 0 <= k < i ==> a@[k] != c,
            0 <= first_idx_of(a@, c) <= a@.len(),
            first_idx_of(a@, c) < a@.len() ==> a@[first_idx_of(a@, c)] == c,
            forall|k: int| 0 <= k < first_idx_of(a@, c) ==> a@[k] != c,
        decreases n - i,
    {
        if a[i] == c {
            proof {
                if first_idx_of(a@, c) < i {
                    assert(a@[first_idx_of(a@, c)] != c);
                }
            }
            return Some(i);
        }
        i = i + 1;
    }
    proof {
        if first_idx_of(a@, c) < a@.len() {
            assert(a@[first_idx_of(a@, c)] != c);
        }
    }
    None
}

} // verus!
