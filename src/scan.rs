//! Line-oriented scanning of manifest and configuration text.
use vstd::prelude::*;

use crate::text::{
    chars_of, contains, contains_any, contains_some, contains_text, find_char, char_pos, line_end,
    next_line_end, slice_text, views,
};

verus! {

/// An ASCII decimal digit.
pub open spec fn is_digit(c: char) -> bool {
    '0' <= c && c <= '9'
}

/// The view of an optional string.
pub open spec fn opt_view(o: Option<String>) -> Option<Seq<char>> {
    match o {
        Some(s) => Some(s@),
        None => None,
    }
}

/// The line `[lo, hi)` of `t` mentions one of `markers` and the word `version`.
pub open spec fn version_line(t: Seq<char>, lo: int, hi: int, markers: Seq<Seq<char>>) -> bool {
    contains_any(t.subrange(lo, hi), markers) && contains_text(t.subrange(lo, hi), "version"@)
}

/// The first quoted run on the line `[lo, hi)` of `t`, as a range, when it is non-empty and
/// starts with a digit.
pub open spec fn quoted_version(t: Seq<char>, lo: int, hi: int) -> Option<(int, int)> {
    let q1 = char_pos(t, '"', lo, hi);
    let q2 = char_pos(t, '"', q1 + 1, hi);
    if q1 < hi && q2 < hi && q1 + 1 < q2 && is_digit(t[q1 + 1]) {
        Some((q1 + 1, q2))
    } else {
        None
    }
}

/// The version found in the lines of `t` from position `i` on: the first quoted run, starting
/// with a digit, on the first line that mentions a marker and the word `version` and has one.
pub open spec fn version_from(t: Seq<char>, markers: Seq<Seq<char>>, i: int) -> Option<Seq<char>>
    decreases t.len() + 1 - i,
    via version_from_decreases
{
    if i < 0 || i >= t.len() {
        None
    } else {
        let e = line_end(t, i);
        if version_line(t, i, e, markers) && quoted_version(t, i, e) is Some {
            let (a, b) = quoted_version(t, i, e)->0;
            Some(t.subrange(a, b))
        } else {
            version_from(t, markers, e + 1)
        }
    }
}

/// The version that `t` names for one of `markers`.
pub open spec fn version_in(t: Seq<char>, markers: Seq<Seq<char>>) -> Option<Seq<char>> {
    version_from(t, markers, 0)
}

/// A line ends at or after its start and within the text.
pub proof fn lemma_line_end(t: Seq<char>, i: int)
    requires
        0 <= i <= t.len(),
    ensures
        i <= line_end(t, i) <= t.len(),
    decreases t.len() - i,
{
    if i < t.len() && t[i] != '\n' {
        lemma_line_end(t, i + 1);
    }
}

#[via_fn]
proof fn version_from_decreases(t: Seq<char>, markers: Seq<Seq<char>>, i: int) {
    if 0 <= i < t.len() {
        lemma_line_end(t, i);
    }
}

/// A position lies between its bounds.
proof fn lemma_char_pos(t: Seq<char>, c: char, lo: int, hi: int)
    requires
        lo <= hi,
    ensures
        lo <= char_pos(t, c, lo, hi) <= hi,
    decreases hi - lo,
{
    if lo < hi && t[lo] != c {
        lemma_char_pos(t, c, lo + 1, hi);
    }
}

/// The characters of `t` from `lo` up to `hi`.
pub fn sub_chars(t: &Vec<char>, lo: usize, hi: usize) -> (r: Vec<char>)
    requires
        lo <= hi <= t.len(),
    ensures
        r@ == t@.subrange(lo as int, hi as int),
{
    let mut v: Vec<char> = Vec::new();
    let mut k: usize = lo;
    while k < hi
        invariant
            lo <= k <= hi <= t.len(),
            v@ == t@.subrange(lo as int, k as int),
        decreases hi - k,
    {
        v.push(t[k]);
        k += 1;
        assert(v@ =~= t@.subrange(lo as int, k as int));
    }
    v
}

/// Whether the line `[lo, hi)` of `t` mentions one of `markers` and the word `version`.
fn is_version_line(t: &Vec<char>, lo: usize, hi: usize, markers: &Vec<String>) -> (r: bool)
    requires
        lo <= hi <= t.len(),
    ensures
        r == version_line(t@, lo as int, hi as int, views(markers@)),
{
    let line = sub_chars(t, lo, hi);
    contains_some(&line, markers) && contains(&line, &chars_of("version"))
}

/// The version that `content` names for one of `markers`: on the first line that mentions a
/// marker and the word `version` and carries a quoted run starting with a digit, that run.
pub fn extract_version(content: &str, markers: &Vec<String>) -> (r: Option<String>)
    ensures
        opt_view(r) == version_in(content@, views(markers@)),
{
    let t = chars_of(content);
    let mut i: usize = 0;
    while i < t.len()
        invariant
            t@ == content@,
            version_in(t@, views(markers@)) == version_from(t@, views(markers@), i as int),
        decreases t.len() - i,
    {
        let e = next_line_end(&t, i);
        if is_version_line(&t, i, e, markers) {
            let q1 = find_char(&t, '"', i, e);
            if q1 < e {
                let q2 = find_char(&t, '"', q1 + 1, e);
                if q2 < e && q1 + 1 < q2 && t[q1 + 1] >= '0' && t[q1 + 1] <= '9' {
                    return Some(slice_text(content, q1 + 1, q2));
                }
            }
        }
        proof {
            lemma_char_pos(t@, '"', i as int, e as int);
        }
        if e >= t.len() {
            assert(version_from(t@, views(markers@), e + 1) is None);
            return None;
        }
        i = e + 1;
    }
    None
}

/// Version extraction is a function of the text and the markers alone: the same text gives
/// the same version on every call, whatever was extracted before or in between.
pub proof fn lemma_version_is_stable(t1: Seq<char>, t2: Seq<char>, markers: Seq<Seq<char>>)
    requires
        t1 == t2,
    ensures
        version_in(t1, markers) == version_in(t2, markers),
{
}

} // verus!
