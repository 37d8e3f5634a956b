//! Codec primitives: JSON string-literal escaping and decimal numbers,
//! with the facts that make encodings parse back to what was encoded.
//!
//! Escaping maps every newline (and every other control character) to an
//! escape sequence, so an encoded line never holds an unescaped newline and
//! the stream stays self-delimiting by line boundaries alone.

use vstd::prelude::*;
use crate::chars::to_chars;

verus! {

/// The hexadecimal digit for `n` (lower case).
pub open spec fn hex_digit(n: int) -> char {
    if n == 0 {
        '0'
    } else if n == 1 {
        '1'
    } else if n == 2 {
        '2'
    } else if n == 3 {
        '3'
    } else if n == 4 {
        '4'
    } else if n == 5 {
        '5'
    } else if n == 6 {
        '6'
    } else if n == 7 {
        '7'
    } else if n == 8 {
        '8'
    } else if n == 9 {
        '9'
    } else if n == 10 {
        'a'
    } else if n == 11 {
        'b'
    } else if n == 12 {
        'c'
    } else if n == 13 {
        'd'
    } else if n == 14 {
        'e'
    } else {
        'f'
    }
}

/// How one character is written inside a string literal.
pub open spec fn esc_char(c: char) -> Seq<char> {
    if c == '"' {
        seq!['\\', '"']
    } else if c == '\\' {
        seq!['\\', '\\']
    } else if c == '\n' {
        seq!['\\', 'n']
    } else if c == '\r' {
        seq!['\\', 'r']
    } else if c == '\t' {
        seq!['\\', 't']
    } else if c == '\u{8}' {
        seq!['\\', 'b']
    } else if c == '\u{c}' {
        seq!['\\', 'f']
    } else if (c as u32) < 32 {
        seq!['\\', 'u', '0', '0', hex_digit(c as u32 as int / 16), hex_digit(c as u32 as int % 16)]
    } else {
        seq![c]
    }
}

/// How a whole character sequence is written inside a string literal.
pub open spec fn esc_str(s: Seq<char>) -> Seq<char>
    decreases s,
{
    if s.len() == 0 {
        Seq::empty()
    } else {
        esc_char(s[0]) + esc_str(s.skip(1))
    }
}

/// A full string literal: quotes around the escaped content.
pub open spec fn str_lit(s: Seq<char>) -> Seq<char> {
    seq!['"'] + esc_str(s) + seq!['"']
}

pub proof fn lemma_esc_str_snoc(s: Seq<char>, c: char)
    ensures
        esc_str(s.push(c)) == esc_str(s) + esc_char(c),
    decreases s,
{
    if s.len() == 0 {
        assert(s.push(c).len() == 1);
        assert(s.push(c)[0] == c);
        assert(s.push(c).skip(1) =~= Seq::<char>::empty());
        assert(esc_str(s.push(c)) == esc_char(c) + esc_str(Seq::<char>::empty()));
        assert(esc_char(c) + Seq::<char>::empty() =~= esc_char(c));
        assert(esc_str(s) + esc_char(c) =~= esc_char(c));
    } else {
        assert(s.push(c)[0] == s[0]);
        assert(s.push(c).skip(1) =~= s.skip(1).push(c));
        lemma_esc_str_snoc(s.skip(1), c);
        assert(esc_str(s.push(c)) == esc_char(s[0]) + (esc_str(s.skip(1)) + esc_char(c)));
        assert(esc_char(s[0]) + (esc_str(s.skip(1)) + esc_char(c)) =~= (esc_char(s[0]) + esc_str(
            s.skip(1),
        )) + esc_char(c));
    }
}

/// No escape sequence holds a newline.
pub proof fn lemma_esc_char_nl_free(c: char)
    ensures
        forall|k: int| 0 <= k < esc_char(c).len() ==> esc_char(c)[k] != '\n',
{
}

/// Escaped content holds no newline.
pub proof fn lemma_esc_str_nl_free(s: Seq<char>)
    ensures
        forall|k: int| 0 <= k < esc_str(s).len() ==> esc_str(s)[k] != '\n',
    decreases s,
{
    if s.len() > 0 {
        lemma_esc_char_nl_free(s[0]);
        lemma_esc_str_nl_free(s.skip(1));
        assert forall|k: int| 0 <= k < esc_str(s).len() implies esc_str(s)[k] != '\n' by {
            if k < esc_char(s[0]).len() {
                assert(esc_str(s)[k] == esc_char(s[0])[k]);
            } else {
                assert(esc_str(s)[k] == esc_str(s.skip(1))[k - esc_char(s[0]).len()]);
            }
        }
    }
}

/// A string literal holds no newline.
pub proof fn lemma_str_lit_nl_free(s: Seq<char>)
    ensures
        forall|k: int| 0 <= k < str_lit(s).len() ==> str_lit(s)[k] != '\n',
{
    lemma_esc_str_nl_free(s);
    assert forall|k: int| 0 <= k < str_lit(s).len() implies str_lit(s)[k] != '\n' by {
        if k == 0 {
        } else if k < 1 + esc_str(s).len() {
            assert(str_lit(s)[k] == esc_str(s)[k - 1]);
        } else {
            assert(str_lit(s)[k] == '"');
        }
    }
}

fn hex_digit_exec(n: u32) -> (r: char)
    requires
        n < 16,
    ensures
        r == hex_digit(n as int),
{
    if n == 0 {
        '0'
    } else if n == 1 {
        '1'
    } else if n == 2 {
        '2'
    } else if n == 3 {
        '3'
    } else if n == 4 {
        '4'
    } else if n == 5 {
        '5'
    } else if n == 6 {
        '6'
    } else if n == 7 {
        '7'
    } else if n == 8 {
        '8'
    } else if n == 9 {
        '9'
    } else if n == 10 {
        'a'
    } else if n == 11 {
        'b'
    } else if n == 12 {
        'c'
    } else if n == 13 {
        'd'
    } else if n == 14 {
        'e'
    } else {
        'f'
    }
}

/// A character that is written as itself inside a string literal.
pub open spec fn is_plain_char(c: char) -> bool {
    c != '"' && c != '\\' && (c as u32) >= 32
}

/// Plain content is written as itself.
pub proof fn lemma_esc_str_plain(s: Seq<char>)
    requires
        forall|k: int| 0 <= k < s.len() ==> is_plain_char(#[trigger] s[k]),
    ensures
        esc_str(s) == s,
    decreases s,
{
    if s.len() > 0 {
        assert(is_plain_char(s[0]));
        assert(esc_char(s[0]) == seq![s[0]]);
        assert forall|k: int| 0 <= k < s.skip(1).len() implies is_plain_char(
            #[trigger] s.skip(1)[k],
        ) by {
            assert(s.skip(1)[k] == s[k + 1]);
        }
        lemma_esc_str_plain(s.skip(1));
        assert(seq![s[0]] + s.skip(1) =~= s);
    }
}

/// Append the escape of one character.
pub fn emit_esc_char(out: &mut Vec<char>, c: char)
    ensures
        final(out)@ == old(out)@ + esc_char(c),
{
    if c == '"' {
        out.push('\\');
        out.push('"');
    } else if c == '\\' {
        out.push('\\');
        out.push('\\');
    } else if c == '\n' {
        out.push('\\');
        out.push('n');
    } else if c == '\r' {
        out.push('\\');
        out.push('r');
    } else if c == '\t' {
        out.push('\\');
        out.push('t');
    } else if c == '\u{8}' {
        out.push('\\');
        out.push('b');
    } else if c == '\u{c}' {
        out.push('\\');
        out.push('f');
    } else if (c as u32) < 32 {
        let code = c as u32;
        out.push('\\');
        out.push('u');
        out.push('0');
        out.push('0');
        out.push(hex_digit_exec(code / 16));
        out.push(hex_digit_exec(code % 16));
    } else {
        out.push(c);
    }
    proof {
        assert(out@ =~= old(out)@ + esc_char(c));
    }
}

/// Append the string literal for `s`.
pub fn emit_str_lit(out: &mut Vec<char>, s: &str)
    ensures
        final(out)@ == old(out)@ + str_lit(s@),
{
    let cs = to_chars(s);
    out.push('"');
    let n = cs.len();
    let mut i: usize = 0;
    proof {
        assert(s@.take(0) =~= Seq::<char>::empty());
        assert(out@ =~= old(out)@ + seq!['"'] + esc_str(s@.take(0)));
    }
    while i < n
        invariant
            i <= n,
            n == cs@.len(),
            cs@ == s@,
            out@ == old(out)@ + seq!['"'] + esc_str(s@.take(i as int)),
        decreases n - i,
    {
        emit_esc_char(out, cs[i]);
        proof {
            lemma_esc_str_snoc(s@.take(i as int), s@[i as int]);
            assert(s@.take(i + 1) =~= s@.take(i as int).push(s@[i as int]));
            assert((old(out)@ + seq!['"'] + esc_str(s@.take(i as int))) + esc_char(s@[i as int])
                =~= old(out)@ + seq!['"'] + esc_str(s@.take(i + 1)));
        }
        i = i + 1;
    }
    out.push('"');
    proof {
        assert(s@.take(n as int) =~= s@);
        assert(out@ =~= old(out)@ + str_lit(s@));
    }
}

/// Append `lit` verbatim.
pub fn emit_raw(out: &mut Vec<char>, lit: &str)
    ensures
        final(out)@ == old(out)@ + lit@,
{
    let cs = to_chars(lit);
    let n = cs.len();
    let mut i: usize = 0;
    while i < n
        invariant
            i <= n,
            n == cs@.len(),
            cs@ == lit@,
            out@ == old(out)@ + lit@.take(i as int),
        decreases n - i,
    {
        out.push(cs[i]);
        proof {
            assert(out@ =~= old(out)@ + lit@.take(i + 1));
        }
        i = i + 1;
    }
    proof {
        assert(lit@.take(n as int) =~= lit@);
    }
}

/// The decimal digit for `n`.
pub open spec fn dec_digit(n: int) -> char {
    if n == 0 {
        '0'
    } else if n == 1 {
        '1'
    } else if n == 2 {
        '2'
    } else if n == 3 {
        '3'
    } else if n == 4 {
        '4'
    } else if n == 5 {
        '5'
    } else if n == 6 {
        '6'
    } else if n == 7 {
        '7'
    } else if n == 8 {
        '8'
    } else {
        '9'
    }
}

/// The decimal spelling of `n`.
pub open spec fn dec_u64(n: int) -> Seq<char>
    decreases n,
    when n >= 0
{
    if n < 10 {
        seq![dec_digit(n)]
    } else {
        dec_u64(n / 10).push(dec_digit(n % 10))
    }
}

fn dec_digit_exec(n: u64) -> (r: char)
    requires
        n < 10,
    ensures
        r == dec_digit(n as int),
{
    if n == 0 {
        '0'
    } else if n == 1 {
        '1'
    } else if n == 2 {
        '2'
    } else if n == 3 {
        '3'
    } else if n == 4 {
        '4'
    } else if n == 5 {
        '5'
    } else if n == 6 {
        '6'
    } else if n == 7 {
        '7'
    } else if n == 8 {
        '8'
    } else {
        '9'
    }
}

/// Append the decimal spelling of `n`.
pub fn emit_u64(out: &mut Vec<char>, n: u64)
    ensures
        final(out)@ == old(out)@ + dec_u64(n as int),
    decreases n,
{
    if n < 10 {
        out.push(dec_digit_exec(n));
        proof {
            assert(out@ =~= old(out)@ + dec_u64(n as int));
        }
    } else {
        emit_u64(out, n / 10);
        out.push(dec_digit_exec(n % 10));
        proof {
            assert(out@ =~= old(out)@ + dec_u64(n as int));
        }
    }
}

/// Whether `c` is a decimal digit.
pub open spec fn is_dec_digit(c: char) -> bool {
    c == '0' || c == '1' || c == '2' || c == '3' || c == '4' || c == '5' || c == '6' || c == '7'
        || c == '8' || c == '9'
}

/// The value of a decimal digit.
pub open spec fn dec_val(c: char) -> int {
    if c == '0' {
        0
    } else if c == '1' {
        1
    } else if c == '2' {
        2
    } else if c == '3' {
        3
    } else if c == '4' {
        4
    } else if c == '5' {
        5
    } else if c == '6' {
        6
    } else if c == '7' {
        7
    } else if c == '8' {
        8
    } else {
        9
    }
}

/// End of the digit run starting at `i`.
pub open spec fn digit_run_end(s: Seq<char>, i: int) -> int
    decreases s.len() - i,
    when 0 <= i <= s.len()
{
    if i >= s.len() {
        i
    } else if is_dec_digit(s[i]) {
        digit_run_end(s, i + 1)
    } else {
        i
    }
}

pub proof fn lemma_digit_run_end(s: Seq<char>, i: int)
    requires
        0 <= i <= s.len(),
    ensures
        i <= digit_run_end(s, i) <= s.len(),
        forall|k: int| i <= k < digit_run_end(s, i) ==> is_dec_digit(s[k]),
        digit_run_end(s, i) < s.len() ==> !is_dec_digit(s[digit_run_end(s, i)]),
    decreases s.len() - i,
{
    if i < s.len() && is_dec_digit(s[i]) {
        lemma_digit_run_end(s, i + 1);
    }
}

pub proof fn lemma_digit_run_end_pins(s: Seq<char>, i: int, j: int)
    requires
        0 <= i <= j <= s.len(),
        forall|k: int| i <= k < j ==> is_dec_digit(s[k]),
        j < s.len() ==> !is_dec_digit(s[j]),
    ensures
        digit_run_end(s, i) == j,
    decreases j - i,
{
    if i < j {
        assert(is_dec_digit(s[i]));
        lemma_digit_run_end_pins(s, i + 1, j);
    }
}

/// The value of the digits `s[i..j]`.
pub open spec fn digits_val(s: Seq<char>, i: int, j: int) -> int
    decreases j - i,
    when 0 <= i <= j <= s.len()
{
    if j <= i {
        0
    } else {
        digits_val(s, i, j - 1) * 10 + dec_val(s[j - 1])
    }
}

/// A parsed unsigned number: its value and the position after it, or
/// nothing when no digit starts at `i`.
pub open spec fn sp_u64(s: Seq<char>, i: int) -> Option<(int, int)> {
    if 0 <= i <= s.len() {
        let j = digit_run_end(s, i);
        if j == i {
            Option::None
        } else {
            Option::Some((digits_val(s, i, j), j))
        }
    } else {
        Option::None
    }
}

/// Parse an unsigned number at `i`; values beyond the 64-bit range fail.
pub fn parse_u64(s: &[char], i: usize) -> (r: Option<(u64, usize)>)
    requires
        i <= s@.len(),
    ensures
        match r {
            Some((v, j)) => sp_u64(s@, i as int) == Option::Some((v as int, j as int)) && i < j
                <= s@.len(),
            None => match sp_u64(s@, i as int) {
                Option::Some((v, _)) => v > u64::MAX,
                Option::None => true,
            },
        },
{
    let n = s.len();
    let mut j: usize = i;
    let mut acc: u64 = 0;
    let mut over = false;
    proof {
        lemma_digit_run_end(s@, i as int);
    }
    while j < n && is_dec_digit_exec(s[j])
        invariant
            i <= j <= n,
            n == s@.len(),
            forall|k: int| i <= k < j ==> is_dec_digit(s@[k]),
            !over ==> acc == digits_val(s@, i as int, j as int),
            over ==> digits_val(s@, i as int, j as int) > u64::MAX,
        decreases n - j,
    {
        let d = dec_val_exec(s[j]);
        proof {
            assert(digits_val(s@, i as int, j + 1) == digits_val(s@, i as int, j as int) * 10
                + dec_val(s@[j as int]));
        }
        if over {
            proof {
                assert(digits_val(s@, i as int, j as int) * 10 + dec_val(s@[j as int]) > u64::MAX);
            }
        } else {
            if acc > u64::MAX / 10 || (acc == u64::MAX / 10 && d > u64::MAX % 10) {
                over = true;
                proof {
                    assert(digits_val(s@, i as int, j as int) * 10 + dec_val(s@[j as int])
                        > u64::MAX);
                }
            } else {
                acc = acc * 10 + d;
            }
        }
        j = j + 1;
    }
    proof {
        lemma_digit_run_end_pins(s@, i as int, j as int);
    }
    if j == i {
        return None;
    }
    if over {
        return None;
    }
    Some((acc, j))
}

fn is_dec_digit_exec(c: char) -> (r: bool)
    ensures
        r == is_dec_digit(c),
{
    c == '0' || c == '1' || c == '2' || c == '3' || c == '4' || c == '5' || c == '6' || c == '7'
        || c == '8' || c == '9'
}

fn dec_val_exec(c: char) -> (r: u64)
    requires
        is_dec_digit(c),
    ensures
        r as int == dec_val(c),
        r < 10,
{
    if c == '0' {
        0
    } else if c == '1' {
        1
    } else if c == '2' {
        2
    } else if c == '3' {
        3
    } else if c == '4' {
        4
    } else if c == '5' {
        5
    } else if c == '6' {
        6
    } else if c == '7' {
        7
    } else if c == '8' {
        8
    } else {
        9
    }
}

/// Every character of a decimal spelling is a digit, and it reads back to
/// the number it spells.
pub proof fn lemma_dec_u64_facts(n: int)
    requires
        n >= 0,
    ensures
        dec_u64(n).len() >= 1,
        forall|k: int| 0 <= k < dec_u64(n).len() ==> is_dec_digit(dec_u64(n)[k]),
        digits_val(dec_u64(n), 0, dec_u64(n).len() as int) == n,
    decreases n,
{
    if n < 10 {
        assert(dec_u64(n) == seq![dec_digit(n)]);
        assert(digits_val(dec_u64(n), 0, 0) == 0);
        assert(dec_u64(n)[0] == dec_digit(n));
        assert(digits_val(dec_u64(n), 0, 1) == dec_val(dec_digit(n)));
    } else {
        lemma_dec_u64_facts(n / 10);
        let p = dec_u64(n / 10);
        let w = dec_u64(n);
        assert(w == p.push(dec_digit(n % 10)));
        assert forall|k: int| 0 <= k < w.len() implies is_dec_digit(w[k]) by {
            if k < p.len() {
                assert(w[k] == p[k]);
            } else {
                assert(w[k] == dec_digit(n % 10));
            }
        }
        lemma_digits_val_frame(w, p, 0, p.len() as int);
        assert(digits_val(w, 0, w.len() as int) == digits_val(w, 0, p.len() as int) * 10 + dec_val(
            w[p.len() as int],
        ));
        assert(dec_val(dec_digit(n % 10)) == n % 10);
    }
}

/// The value of a digit range depends only on the characters in it.
pub proof fn lemma_digits_val_frame(s: Seq<char>, t: Seq<char>, i: int, j: int)
    requires
        0 <= i <= j <= s.len(),
        j <= t.len(),
        forall|k: int| i <= k < j ==> s[k] == t[k],
    ensures
        digits_val(s, i, j) == digits_val(t, i, j),
    decreases j - i,
{
    if j > i {
        lemma_digits_val_frame(s, t, i, j - 1);
    }
}

/// A decimal spelling embedded at `i`, followed by a non-digit, parses to
/// exactly the number it spells.
pub proof fn lemma_sp_u64_at(s: Seq<char>, i: int, n: int)
    requires
        0 <= n,
        0 <= i,
        i + dec_u64(n).len() <= s.len(),
        s.subrange(i, i + dec_u64(n).len() as int) == dec_u64(n),
        i + dec_u64(n).len() < s.len() ==> !is_dec_digit(s[i + dec_u64(n).len()]),
    ensures
        sp_u64(s, i) == Option::Some((n, i + dec_u64(n).len() as int)),
{
    let w = dec_u64(n);
    let j = i + w.len() as int;
    lemma_dec_u64_facts(n);
    assert forall|k: int| i <= k < j implies is_dec_digit(s[k]) by {
        assert(s[k] == s.subrange(i, j)[k - i]);
    }
    lemma_digit_run_end_pins(s, i, j);
    lemma_digits_val_shift(s, i, j, w);
}

proof fn lemma_digits_val_shift(s: Seq<char>, i: int, j: int, w: Seq<char>)
    requires
        0 <= i <= j <= s.len(),
        w.len() == j - i,
        s.subrange(i, j) == w,
    ensures
        digits_val(s, i, j) == digits_val(w, 0, w.len() as int),
    decreases j - i,
{
    if j > i {
        let w1 = w.take(w.len() - 1);
        assert(s.subrange(i, j - 1) =~= w1);
        lemma_digits_val_shift(s, i, j - 1, w1);
        lemma_digits_val_frame(w, w1, 0, w1.len() as int);
        assert(s[j - 1] == w[w.len() - 1]);
    }
}

/// The body of a string literal read from `i` (just after the opening
/// quote): the decoded content and the position after the closing quote.
pub open spec fn sp_str_body(s: Seq<char>, i: int) -> Option<(Seq<char>, int)>
    decreases s.len() - i,
    when 0 <= i <= s.len()
{
    if i >= s.len() {
        Option::None
    } else if s[i] == '"' {
        Option::Some((Seq::empty(), i + 1))
    } else if s[i] == '\\' {
        if i + 1 >= s.len() {
            Option::None
        } else {
            let e = s[i + 1];
            if e == '"' || e == '\\' {
                match sp_str_body(s, i + 2) {
                    Option::Some((t, j)) => Option::Some((seq![e] + t, j)),
                    Option::None => Option::None,
                }
            } else if e == 'n' {
                match sp_str_body(s, i + 2) {
                    Option::Some((t, j)) => Option::Some((seq!['\n'] + t, j)),
                    Option::None => Option::None,
                }
            } else if e == 'r' {
                match sp_str_body(s, i + 2) {
                    Option::Some((t, j)) => Option::Some((seq!['\r'] + t, j)),
                    Option::None => Option::None,
                }
            } else if e == 't' {
                match sp_str_body(s, i + 2) {
                    Option::Some((t, j)) => Option::Some((seq!['\t'] + t, j)),
                    Option::None => Option::None,
                }
            } else if e == 'b' {
                match sp_str_body(s, i + 2) {
                    Option::Some((t, j)) => Option::Some((seq!['\u{8}'] + t, j)),
                    Option::None => Option::None,
                }
            } else if e == 'f' {
                match sp_str_body(s, i + 2) {
                    Option::Some((t, j)) => Option::Some((seq!['\u{c}'] + t, j)),
                    Option::None => Option::None,
                }
            } else if e == 'u' {
                if i + 6 <= s.len() && s[i + 2] == '0' && s[i + 3] == '0' && is_hex_digit(s[i + 4])
                    && is_hex_digit(s[i + 5]) {
                    let code = hex_val(s[i + 4]) * 16 + hex_val(s[i + 5]);
                    match sp_str_body(s, i + 6) {
                        Option::Some((t, j)) => Option::Some((seq![(code as u8) as char] + t, j)),
                        Option::None => Option::None,
                    }
                } else {
                    Option::None
                }
            } else {
                Option::None
            }
        }
    } else {
        match sp_str_body(s, i + 1) {
            Option::Some((t, j)) => Option::Some((seq![s[i]] + t, j)),
            Option::None => Option::None,
        }
    }
}

/// A string literal read from `i` (at the opening quote).
pub open spec fn sp_str_lit(s: Seq<char>, i: int) -> Option<(Seq<char>, int)> {
    if 0 <= i < s.len() && s[i] == '"' {
        sp_str_body(s, i + 1)
    } else {
        Option::None
    }
}

/// Whether `c` is a lower-case hexadecimal digit.
pub open spec fn is_hex_digit(c: char) -> bool {
    is_dec_digit(c) || c == 'a' || c == 'b' || c == 'c' || c == 'd' || c == 'e' || c == 'f'
}

/// The value of a hexadecimal digit.
pub open spec fn hex_val(c: char) -> int {
    if is_dec_digit(c) {
        dec_val(c)
    } else if c == 'a' {
        10
    } else if c == 'b' {
        11
    } else if c == 'c' {
        12
    } else if c == 'd' {
        13
    } else if c == 'e' {
        14
    } else {
        15
    }
}

fn is_hex_digit_exec(c: char) -> (r: bool)
    ensures
        r == is_hex_digit(c),
{
    is_dec_digit_exec(c) || c == 'a' || c == 'b' || c == 'c' || c == 'd' || c == 'e' || c == 'f'
}

fn hex_val_exec(c: char) -> (r: u32)
    requires
        is_hex_digit(c),
    ensures
        r as int == hex_val(c),
        r < 16,
{
    if c == '0' {
        0
    } else if c == '1' {
        1
    } else if c == '2' {
        2
    } else if c == '3' {
        3
    } else if c == '4' {
        4
    } else if c == '5' {
        5
    } else if c == '6' {
        6
    } else if c == '7' {
        7
    } else if c == '8' {
        8
    } else if c == '9' {
        9
    } else if c == 'a' {
        10
    } else if c == 'b' {
        11
    } else if c == 'c' {
        12
    } else if c == 'd' {
        13
    } else if c == 'e' {
        14
    } else {
        15
    }
}

/// Parse a string-literal body at `i` (just after the opening quote).
pub fn parse_str_body(s: &[char], i: usize) -> (r: Option<(Vec<char>, usize)>)
    requires
        i <= s@.len(),
    ensures
        match r {
            Some((v, j)) => sp_str_body(s@, i as int) == Option::Some((v@, j as int)) && i < j
                <= s@.len(),
            None => sp_str_body(s@, i as int) is None,
        },
    decreases s@.len() - i,
{
    let n = s.len();
    if i >= n {
        return None;
    }
    let c = s[i];
    if c == '"' {
        let v: Vec<char> = Vec::new();
        proof {
            assert(v@ =~= Seq::<char>::empty());
        }
        return Some((v, i + 1));
    }
    if c == '\\' {
        if i + 1 >= n {
            return None;
        }
        let e = s[i + 1];
        if e == '"' || e == '\\' || e == 'n' || e == 'r' || e == 't' || e == 'b' || e == 'f' {
            let decoded = if e == '"' {
                '"'
            } else if e == '\\' {
                '\\'
            } else if e == 'n' {
                '\n'
            } else if e == 'r' {
                '\r'
            } else if e == 't' {
                '\t'
            } else if e == 'b' {
                '\u{8}'
            } else {
                '\u{c}'
            };
            match parse_str_body(s, i + 2) {
                Some((t, j)) => {
                    let ghost t0 = t@;
                    let mut v = t;
                    v.insert(0, decoded);
                    proof {
                        assert(v@ =~= seq![decoded] + t0);
                    }
                    return Some((v, j));
                },
                None => {
                    return None;
                },
            }
        }
        if e == 'u' {
            if n - i >= 6 && s[i + 2] == '0' && s[i + 3] == '0' && is_hex_digit_exec(s[i + 4])
                && is_hex_digit_exec(s[i + 5]) {
                let code = hex_val_exec(s[i + 4]) * 16 + hex_val_exec(s[i + 5]);
                let decoded = (code as u8) as char;
                match parse_str_body(s, i + 6) {
                    Some((t, j)) => {
                        let ghost t0 = t@;
                        let mut v = t;
                        v.insert(0, decoded);
                        proof {
                            assert(v@ =~= seq![decoded] + t0);
                        }
                        return Some((v, j));
                    },
                    None => {
                        return None;
                    },
                }
            }
            return None;
        }
        return None;
    }
    match parse_str_body(s, i + 1) {
        Some((t, j)) => {
            let ghost t0 = t@;
            let mut v = t;
            v.insert(0, c);
            proof {
                assert(v@ =~= seq![c] + t0);
            }
            Some((v, j))
        },
        None => None,
    }
}

/// Parse a string literal at `i` (at the opening quote).
pub fn parse_str_lit(s: &[char], i: usize) -> (r: Option<(Vec<char>, usize)>)
    requires
        i <= s@.len(),
    ensures
        match r {
            Some((v, j)) => sp_str_lit(s@, i as int) == Option::Some((v@, j as int)) && i < j
                <= s@.len(),
            None => sp_str_lit(s@, i as int) is None,
        },
{
    if i < s.len() && s[i] == '"' {
        parse_str_body(s, i + 1)
    } else {
        None
    }
}

/// A string literal embedded at `i` parses back to exactly its content.
pub proof fn lemma_sp_str_lit_at(s: Seq<char>, i: int, content: Seq<char>)
    requires
        0 <= i,
        i + str_lit(content).len() <= s.len(),
        s.subrange(i, i + str_lit(content).len() as int) == str_lit(content),
    ensures
        sp_str_lit(s, i) == Option::Some((content, i + str_lit(content).len() as int)),
{
    assert(s[i] == str_lit(content)[0]);
    assert forall|k: int| 0 <= k < esc_str(content).len() implies s[i + 1 + k] == esc_str(
        content,
    )[k] by {
        assert(s[i + 1 + k] == s.subrange(i, i + str_lit(content).len() as int)[1 + k]);
        assert(str_lit(content)[1 + k] == esc_str(content)[k]);
    }
    assert(s[i + 1 + esc_str(content).len()] == str_lit(content)[str_lit(content).len() - 1]);
    lemma_sp_str_body_at(s, i + 1, content);
}

proof fn lemma_sp_str_body_at(s: Seq<char>, i: int, content: Seq<char>)
    requires
        0 <= i,
        i + esc_str(content).len() + 1 <= s.len(),
        forall|k: int| 0 <= k < esc_str(content).len() ==> s[i + k] == esc_str(content)[k],
        s[i + esc_str(content).len()] == '"',
    ensures
        sp_str_body(s, i) == Option::Some((content, i + esc_str(content).len() + 1)),
    decreases content,
{
    if content.len() == 0 {
        assert(s[i] == '"');
    } else {
        let c = content[0];
        let e = esc_char(c);
        let rest = content.skip(1);
        assert(esc_str(content) == e + esc_str(rest));
        assert forall|k: int| 0 <= k < e.len() implies s[i + k] == e[k] by {
            assert(esc_str(content)[k] == e[k]);
        }
        assert(s[i + 0] == e[0]);
        if e.len() >= 2 {
            assert(s[i + 1] == e[1]);
        }
        assert forall|k: int| 0 <= k < esc_str(rest).len() implies s[i + e.len() + k] == esc_str(
            rest,
        )[k] by {
            assert(esc_str(content)[e.len() + k] == esc_str(rest)[k]);
        }
        assert(s[i + e.len() + esc_str(rest).len()] == '"');
        lemma_sp_str_body_at(s, i + e.len(), rest);
        if c == '"' {
            assert(s[i] == '\\' && s[i + 1] == '"');
            assert(seq![c] + rest =~= content);
        } else if c == '\\' {
            assert(s[i] == '\\' && s[i + 1] == '\\');
            assert(seq![c] + rest =~= content);
        } else if c == '\n' {
            assert(s[i] == '\\' && s[i + 1] == 'n');
            assert(seq![c] + rest =~= content);
        } else if c == '\r' {
            assert(s[i] == '\\' && s[i + 1] == 'r');
            assert(seq![c] + rest =~= content);
        } else if c == '\t' {
            assert(s[i] == '\\' && s[i + 1] == 't');
            assert(seq![c] + rest =~= content);
        } else if c == '\u{8}' {
            assert(s[i] == '\\' && s[i + 1] == 'b');
            assert(seq![c] + rest =~= content);
        } else if c == '\u{c}' {
            assert(s[i] == '\\' && s[i + 1] == 'f');
            assert(seq![c] + rest =~= content);
        } else if (c as u32) < 32 {
            assert(s[i] == '\\' && s[i + 1] == 'u' && s[i + 2] == '0' && s[i + 3] == '0');
            let code = c as u32 as int;
            assert(s[i + 4] == hex_digit(code / 16));
            assert(s[i + 5] == hex_digit(code % 16));
            lemma_hex_digit_val(code / 16);
            lemma_hex_digit_val(code % 16);
            assert(hex_val(s[i + 4]) * 16 + hex_val(s[i + 5]) == code);
            assert(0 <= code < 32);
            lemma_ctrl_char_roundtrip(c);
            assert(((code as u8) as char) == c);
            assert(seq![c] + rest =~= content);
        } else {
            assert(s[i] == c);
            assert(c != '"' && c != '\\');
            assert(seq![c] + rest =~= content);
        }
    }
}

proof fn lemma_ctrl_char_roundtrip(c: char)
    requires
        (c as u32) < 32,
    ensures
        (((c as u32 as int) as u8) as char) == c,
{
    let code = c as u32 as int;
    let c2 = (code as u8) as char;
    assert(c2 as u32 == code);
    assert(c2 as u32 == c as u32);
    assert(c2 == c);
}

proof fn lemma_hex_digit_val(n: int)
    requires
        0 <= n < 16,
    ensures
        is_hex_digit(hex_digit(n)),
        hex_val(hex_digit(n)) == n,
{
}

} // verus!
