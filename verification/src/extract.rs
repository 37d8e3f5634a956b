//! Scanning the extractor's standard output for complete top-level objects.
//!
//! The extractor may pretty-print several objects and interleave warnings,
//! so the scan is brace-aware, string-aware and escape-aware rather than a
//! split on newlines: an object runs from a top-level opening brace to the
//! brace that balances it, with braces inside string literals ignored.

use vstd::prelude::*;
use crate::chars::{copy_range, from_chars, to_chars};

verus! {

/// The spans (inclusive) of the complete top-level objects of `s`, read
/// from position `i` in the scanner state `(depth, in_str, esc, start)`;
/// `start` is the position of the pending top-level brace, or -1.
pub open spec fn scan_from(
    s: Seq<char>,
    i: int,
    depth: int,
    in_str: bool,
    esc: bool,
    start: int,
) -> Seq<(int, int)>
    decreases s.len() - i,
    when 0 <= i <= s.len()
{
    if i >= s.len() {
        Seq::empty()
    } else {
        let c = s[i];
        if esc {
            scan_from(s, i + 1, depth, in_str, false, start)
        } else if c == '\\' && in_str {
            scan_from(s, i + 1, depth, in_str, true, start)
        } else if c == '"' {
            scan_from(s, i + 1, depth, !in_str, false, start)
        } else if c == '{' && !in_str {
            if depth == 0 {
                scan_from(s, i + 1, depth + 1, in_str, false, i)
            } else {
                scan_from(s, i + 1, depth + 1, in_str, false, start)
            }
        } else if c == '}' && !in_str {
            if depth - 1 == 0 && start >= 0 {
                seq![(start, i)] + scan_from(s, i + 1, 0, in_str, false, -1)
            } else {
                scan_from(s, i + 1, depth - 1, in_str, false, start)
            }
        } else {
            scan_from(s, i + 1, depth, in_str, false, start)
        }
    }
}

/// The spans of the complete top-level objects of `s`.
pub open spec fn spec_object_ranges(s: Seq<char>) -> Seq<(int, int)> {
    scan_from(s, 0, 0, false, false, -1)
}

/// Extract every complete top-level object of `input`, in order: the
/// returned strings are exactly the spans the scan finds.
pub fn extract_json_objects(input: &str) -> (r: Vec<String>)
    ensures
        r@.len() == spec_object_ranges(input@).len(),
        forall|k: int|
            0 <= k < r@.len() ==> (#[trigger] r@[k])@ == input@.subrange(
                spec_object_ranges(input@)[k].0,
                spec_object_ranges(input@)[k].1 + 1,
            ),
{
    let s = to_chars(input);
    let n = s.len();
    let mut r: Vec<String> = Vec::new();
    let ghost mut done: Seq<(int, int)> = Seq::empty();
    let mut i: usize = 0;
    let mut depth: i128 = 0;
    let mut in_str = false;
    let mut esc = false;
    let mut start: Option<usize> = None;
    proof {
        assert(done + scan_from(s@, 0, 0, false, false, -1) =~= scan_from(s@, 0, 0, false, false, -1));
    }
    while i < n
        invariant
            i <= n,
            n == s@.len(),
            s@ == input@,
            -(i as int) <= depth <= i as int,
            match start {
                Some(v) => v < i,
                None => true,
            },
            spec_object_ranges(input@) == done + scan_from(
                s@,
                i as int,
                depth as int,
                in_str,
                esc,
                match start {
                    Some(v) => v as int,
                    None => -1,
                },
            ),
            r@.len() == done.len(),
            forall|k: int|
                0 <= k < r@.len() ==> (#[trigger] r@[k])@ == input@.subrange(
                    done[k].0,
                    done[k].1 + 1,
                ),
        decreases n - i,
    {
        let ghost st = match start {
            Some(v) => v as int,
            None => -1,
        };
        let c = s[i];
        if esc {
            esc = false;
        } else if c == '\\' && in_str {
            esc = true;
        } else if c == '"' {
            in_str = !in_str;
        } else if c == '{' && !in_str {
            if depth == 0 {
                start = Some(i);
            }
            depth = depth + 1;
        } else if c == '}' && !in_str {
            if depth == 1 {
                match start {
                    Some(b) => {
                        let piece = copy_range(s.as_slice(), b, i + 1);
                        let obj = from_chars(piece.as_slice());
                        proof {
                            assert(scan_from(s@, i as int, 1, in_str, false, st) == seq![
                                (st, i as int),
                            ] + scan_from(s@, i + 1, 0, in_str, false, -1));
                            assert((done + (seq![(st, i as int)] + scan_from(
                                s@,
                                i + 1,
                                0,
                                in_str,
                                false,
                                -1,
                            ))) =~= (done.push((st, i as int)) + scan_from(
                                s@,
                                i + 1,
                                0,
                                in_str,
                                false,
                                -1,
                            )));
                            done = done.push((st, i as int));
                        }
                        r.push(obj);
                        start = None;
                        depth = 0;
                    },
                    None => {
                        depth = depth - 1;
                    },
                }
            } else {
                depth = depth - 1;
            }
        }
        i = i + 1;
    }
    proof {
        assert(scan_from(
            s@,
            n as int,
            depth as int,
            in_str,
            esc,
            match start {
                Some(v) => v as int,
                None => -1,
            },
        ) =~= Seq::<(int, int)>::empty());
        assert(done + Seq::<(int, int)>::empty() =~= done);
    }
    r
}

} // verus!
