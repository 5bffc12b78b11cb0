use vstd::prelude::*;

verus! {

/// `p` occurs in `t` starting at position `i`.
pub open spec fn match_at(t: Seq<char>, p: Seq<char>, i: int) -> bool {
    0 <= i && i + p.len() <= t.len() && t.subrange(i, i + p.len()) == p
}

/// `p` occurs somewhere in `t` as a contiguous run of characters.
pub open spec fn contains_text(t: Seq<char>, p: Seq<char>) -> bool {
    exists|i: int| match_at(t, p, i)
}

/// The first position at or after `i` where `p` occurs in `t`.
pub open spec fn find_from(t: Seq<char>, p: Seq<char>, i: int) -> Option<int>
    decreases t.len() + 1 - i,
{
    if i < 0 || i + p.len() > t.len() {
        None
    } else if match_at(t, p, i) {
        Some(i)
    } else {
        find_from(t, p, i + 1)
    }
}

/// `t` begins with `p`.
pub open spec fn starts_with(t: Seq<char>, p: Seq<char>) -> bool {
    p.len() <= t.len() && t.take(p.len() as int) == p
}

/// `t` ends with `p`.
pub open spec fn ends_with(t: Seq<char>, p: Seq<char>) -> bool {
    p.len() <= t.len() && t.skip(t.len() - p.len()) == p
}

/// Some entry of `list` occurs in `t`.
pub open spec fn contains_any(t: Seq<char>, list: Seq<Seq<char>>) -> bool {
    exists|i: int| 0 <= i < list.len() && contains_text(t, #[trigger] list[i])
}

/// The views of a list of strings.
pub open spec fn views(list: Seq<String>) -> Seq<Seq<char>> {
    list.map_values(|s: String| s@)
}

/// The end of the line that starts at `i`: the first newline at or after `i`, or the end of `t`.
pub open spec fn line_end(t: Seq<char>, i: int) -> int
    decreases t.len() - i,
{
    if i < 0 || i >= t.len() {
        t.len() as int
    } else if t[i] == '\n' {
        i
    } else {
        line_end(t, i + 1)
    }
}

/// Whitespace in the sense of `char::is_whitespace`.
pub uninterp spec fn is_space(c: char) -> bool;

/// The first position in `[lo, hi)` that does not hold whitespace, or `hi`.
pub open spec fn skip_space(t: Seq<char>, lo: int, hi: int) -> int
    decreases hi - lo,
{
    if lo < hi && is_space(t[lo]) {
        skip_space(t, lo + 1, hi)
    } else {
        lo
    }
}

/// One past the last position in `[lo, hi)` that does not hold whitespace, or `lo`.
pub open spec fn back_space(t: Seq<char>, lo: int, hi: int) -> int
    decreases hi - lo,
{
    if lo < hi && is_space(t[hi - 1]) {
        back_space(t, lo, hi - 1)
    } else {
        hi
    }
}

/// The decimal digit for `d`.
pub open spec fn digit_char(d: nat) -> char {
    if d == 0 { '0' }
    else if d == 1 { '1' }
    else if d == 2 { '2' }
    else if d == 3 { '3' }
    else if d == 4 { '4' }
    else if d == 5 { '5' }
    else if d == 6 { '6' }
    else if d == 7 { '7' }
    else if d == 8 { '8' }
    else { '9' }
}

/// The decimal numeral of `n`, without sign or leading zeros.
pub open spec fn decimal(n: nat) -> Seq<char>
    decreases n,
{
    if n < 10 {
        seq![digit_char(n)]
    } else {
        decimal(n / 10).push(digit_char(n % 10))
    }
}

/// The result of lowercasing `s` with `str::to_lowercase`.
pub uninterp spec fn lower_of(s: Seq<char>) -> Seq<char>;

/// Relies on `char::is_whitespace`, whose result depends on the character alone.
#[verifier::external_body]
pub(crate) fn char_is_space(c: char) -> (r: bool)
    ensures
        r == is_space(c),
{
    c.is_whitespace()
}

/// Relies on `str::to_lowercase`, whose result depends on the characters alone.
#[verifier::external_body]
pub(crate) fn lowercase(s: &str) -> (r: String)
    ensures
        r@ == lower_of(s@),
{
    s.to_lowercase()
}

/// Relies on the `Display` impl of `u64`: the decimal numeral of `n`.
#[verifier::external_body]
pub(crate) fn decimal_text(n: u64) -> (r: String)
    ensures
        r@ == decimal(n as nat),
{
    n.to_string()
}

/// The characters of `s`, in order.
pub fn chars_of(s: &str) -> (r: Vec<char>)
    ensures
        r@ == s@,
{
    let mut v: Vec<char> = Vec::new();
    for c in it: s.chars()
        invariant
            v@ == it.seq().take(it.index() as int),
    {
        v.push(c);
    }
    v
}

/// An owned copy of `s`.
pub fn owned(s: &str) -> (r: String)
    ensures
        r@ == s@,
{
    s.to_owned()
}

/// The characters of `s` from position `lo` up to `hi`, as a new string.
pub fn slice_text(s: &str, lo: usize, hi: usize) -> (r: String)
    requires
        lo <= hi <= s@.len(),
    ensures
        r@ == s@.subrange(lo as int, hi as int),
{
    s.substring_char(lo, hi).to_owned()
}

/// Whether `p` occurs in `t` at position `i`.
pub fn matches_at(t: &Vec<char>, p: &Vec<char>, i: usize) -> (r: bool)
    ensures
        r == match_at(t@, p@, i as int),
{
    if i > t.len() || p.len() > t.len() - i {
        return false;
    }
    let mut k: usize = 0;
    while k < p.len()
        invariant
            k <= p.len(),
            i + p.len() <= t.len(),
            t@.subrange(i as int, i + k) == p@.subrange(0, k as int),
        decreases p.len() - k,
    {
        if t[i + k] != p[k] {
            assert(t@.subrange(i as int, i + p.len())[k as int] != p@[k as int]);
            return false;
        }
        k += 1;
        assert(t@.subrange(i as int, i + k) =~= p@.subrange(0, k as int));
    }
    assert(p@.subrange(0, p.len() as int) =~= p@);
    true
}

/// The first position at or after `start` where `p` occurs in `t`.
pub fn find_text(t: &Vec<char>, p: &Vec<char>, start: usize) -> (r: Option<usize>)
    ensures
        r is Some ==> find_from(t@, p@, start as int) == Some(r->0 as int),
        r is None ==> find_from(t@, p@, start as int) is None,
{
    if p.len() > t.len() {
        return None;
    }
    if p.len() == 0 {
        if start <= t.len() {
            assert(t@.subrange(start as int, start as int) =~= p@);
            return Some(start);
        }
        return None;
    }
    let mut i: usize = start;
    while i <= t.len() - p.len()
        invariant
            start <= i,
            1 <= p.len() <= t.len(),
            find_from(t@, p@, start as int) == find_from(t@, p@, i as int),
        decreases t.len() - i,
    {
        if matches_at(t, p, i) {
            return Some(i);
        }
        i += 1;
    }
    None
}

/// What `find_from` says about the positions it passes over.
pub proof fn lemma_find_from(t: Seq<char>, p: Seq<char>, i: int)
    requires
        0 <= i,
    ensures
        find_from(t, p, i) matches Some(k) ==> i <= k && match_at(t, p, k) && forall|j: int|
            i <= j < k ==> !match_at(t, p, j),
        find_from(t, p, i) is None ==> forall|j: int| i <= j ==> !match_at(t, p, j),
    decreases t.len() + 1 - i,
{
    if i + p.len() > t.len() {
    } else if match_at(t, p, i) {
    } else {
        lemma_find_from(t, p, i + 1);
        assert forall|j: int| i <= j && (j < i + 1) implies !match_at(t, p, j) by {}
    }
}

/// Whether `p` occurs anywhere in `t`.
pub fn contains(t: &Vec<char>, p: &Vec<char>) -> (r: bool)
    ensures
        r == contains_text(t@, p@),
{
    let f = find_text(t, p, 0);
    proof {
        lemma_find_from(t@, p@, 0);
    }
    f.is_some()
}

/// Whether `p` occurs anywhere in `s`.
pub fn str_contains(s: &str, p: &str) -> (r: bool)
    ensures
        r == contains_text(s@, p@),
{
    contains(&chars_of(s), &chars_of(p))
}

/// Whether some entry of `list` occurs in `t`.
pub fn contains_some(t: &Vec<char>, list: &Vec<String>) -> (r: bool)
    ensures
        r == contains_any(t@, views(list@)),
{
    let mut i: usize = 0;
    while i < list.len()
        invariant
            i <= list.len(),
            forall|j: int| 0 <= j < i ==> !contains_text(t@, #[trigger] views(list@)[j]),
        decreases list.len() - i,
    {
        if contains(t, &chars_of(list[i].as_str())) {
            assert(contains_text(t@, views(list@)[i as int]));
            return true;
        }
        i += 1;
    }
    false
}

/// Whether `a` and `b` hold the same characters.
pub fn same_text(a: &str, b: &str) -> (r: bool)
    ensures
        r == (a@ == b@),
{
    let x = chars_of(a);
    let y = chars_of(b);
    if x.len() != y.len() {
        return false;
    }
    let m = matches_at(&x, &y, 0);
    assert(x@.subrange(0, x@.len() as int) =~= x@);
    m
}

/// Whether `s` begins with `p`.
pub fn text_starts_with(s: &str, p: &str) -> (r: bool)
    ensures
        r == starts_with(s@, p@),
{
    let x = chars_of(s);
    let y = chars_of(p);
    let m = matches_at(&x, &y, 0);
    proof {
        if y@.len() <= x@.len() {
            assert(x@.subrange(0, y@.len() as int) =~= x@.take(y@.len() as int));
        }
    }
    m
}

/// Whether `s` ends with `p`.
pub fn text_ends_with(s: &str, p: &str) -> (r: bool)
    ensures
        r == ends_with(s@, p@),
{
    let x = chars_of(s);
    let y = chars_of(p);
    if y.len() > x.len() {
        return false;
    }
    let m = matches_at(&x, &y, x.len() - y.len());
    assert(x@.subrange(x@.len() - y@.len(), x@.len() as int) =~= x@.skip(x@.len() - y@.len()));
    m
}

/// Whether `list` holds an entry equal to `s`.
pub fn list_has(list: &Vec<String>, s: &str) -> (r: bool)
    ensures
        r == views(list@).contains(s@),
{
    let mut i: usize = 0;
    while i < list.len()
        invariant
            i <= list.len(),
            forall|j: int| 0 <= j < i ==> views(list@)[j] != s@,
        decreases list.len() - i,
    {
        if same_text(list[i].as_str(), s) {
            assert(views(list@)[i as int] == s@);
            return true;
        }
        i += 1;
    }
    false
}

/// The end of the line of `t` that starts at `i`.
pub fn next_line_end(t: &Vec<char>, i: usize) -> (r: usize)
    requires
        i <= t.len(),
    ensures
        r == line_end(t@, i as int),
        i <= r <= t.len(),
{
    let mut k: usize = i;
    while k < t.len() && t[k] != '\n'
        invariant
            i <= k <= t.len(),
            line_end(t@, i as int) == line_end(t@, k as int),
        decreases t.len() - k,
    {
        k += 1;
    }
    k
}

/// Skips whitespace forward from `lo` within `[lo, hi)`.
pub fn skip_spaces(t: &Vec<char>, lo: usize, hi: usize) -> (r: usize)
    requires
        lo <= hi <= t.len(),
    ensures
        r == skip_space(t@, lo as int, hi as int),
        lo <= r <= hi,
{
    let mut k: usize = lo;
    while k < hi && char_is_space(t[k])
        invariant
            lo <= k <= hi,
            hi <= t.len(),
            skip_space(t@, lo as int, hi as int) == skip_space(t@, k as int, hi as int),
        decreases hi - k,
    {
        k += 1;
    }
    k
}

/// Skips whitespace backward from `hi` within `[lo, hi)`.
pub fn back_spaces(t: &Vec<char>, lo: usize, hi: usize) -> (r: usize)
    requires
        lo <= hi <= t.len(),
    ensures
        r == back_space(t@, lo as int, hi as int),
        lo <= r <= hi,
{
    let mut k: usize = hi;
    while k > lo && char_is_space(t[k - 1])
        invariant
            lo <= k <= hi,
            hi <= t.len(),
            back_space(t@, lo as int, hi as int) == back_space(t@, lo as int, k as int),
        decreases k - lo,
    {
        k -= 1;
    }
    k
}

/// The first position of `c` in `[lo, hi)`, or `hi`.
pub open spec fn char_pos(t: Seq<char>, c: char, lo: int, hi: int) -> int
    decreases hi - lo,
{
    if lo < hi && t[lo] != c {
        char_pos(t, c, lo + 1, hi)
    } else {
        lo
    }
}

/// Finds `c` in `[lo, hi)`.
pub fn find_char(t: &Vec<char>, c: char, lo: usize, hi: usize) -> (r: usize)
    requires
        lo <= hi <= t.len(),
    ensures
        r == char_pos(t@, c, lo as int, hi as int),
        lo <= r <= hi,
{
    let mut k: usize = lo;
    while k < hi && t[k] != c
        invariant
            lo <= k <= hi,
            hi <= t.len(),
            char_pos(t@, c, lo as int, hi as int) == char_pos(t@, c, k as int, hi as int),
        decreases hi - k,
    {
        k += 1;
    }
    k
}

/// A vector of owned strings holding `items`.
pub fn string_list(items: &[&str]) -> (r: Vec<String>)
    ensures
        r@.len() == items@.len(),
        forall|i: int| 0 <= i < items@.len() ==> #[trigger] r@[i]@ == items@[i]@,
{
    let mut v: Vec<String> = Vec::new();
    let mut k: usize = 0;
    while k < items.len()
        invariant
            k <= items@.len(),
            v@.len() == k,
            forall|i: int| 0 <= i < k ==> #[trigger] v@[i]@ == items@[i]@,
        decreases items@.len() - k,
    {
        v.push(owned(items[k]));
        k += 1;
    }
    v
}

} // verus!
