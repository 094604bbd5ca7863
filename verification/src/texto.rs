//! Text primitives shared by the parsers: whitespace and quote trimming, prefixes,
//! substring search and the last word of a line. Every exec helper works on the
//! characters of a string (`Seq<char>`, the view of `str` and `String`).

use vstd::prelude::*;

verus! {

/// An ASCII decimal digit (`char::is_ascii_digit`).
pub open spec fn is_digit(c: char) -> bool {
    0x30 <= (c as u32) && (c as u32) <= 0x39
}

/// The Unicode `White_Space` property, which is what `char::is_whitespace` tests
/// (and so what `str::trim` and `str::split_whitespace` cut on).
pub open spec fn is_ws(c: char) -> bool {
    let u = c as u32;
    (0x09 <= u && u <= 0x0D) || u == 0x20 || u == 0x85 || u == 0xA0 || u == 0x1680 || (0x2000 <= u
        && u <= 0x200A) || u == 0x2028 || u == 0x2029 || u == 0x202F || u == 0x205F || u == 0x3000
}

/// A class of characters: what a trim removes, or what ends a word.
#[derive(Clone, Copy, PartialEq, Eq, Debug, Structural)]
pub enum Cut {
    /// Whitespace (`str::trim`, `str::split_whitespace`).
    Space,
    /// Double quotes (`str::trim_matches('"')`).
    Quote,
    /// The path separator of repository names.
    Slash,
}

pub open spec fn cuts(k: Cut, c: char) -> bool {
    match k {
        Cut::Space => is_ws(c),
        Cut::Quote => c == '"',
        Cut::Slash => c == '/',
    }
}

/// `s` without its leading characters of kind `k`.
pub open spec fn strip_start(s: Seq<char>, k: Cut) -> Seq<char>
    decreases s.len(),
{
    if s.len() > 0 && cuts(k, s[0]) {
        strip_start(s.drop_first(), k)
    } else {
        s
    }
}

/// `s` without its trailing characters of kind `k`.
pub open spec fn strip_end(s: Seq<char>, k: Cut) -> Seq<char>
    decreases s.len(),
{
    if s.len() > 0 && cuts(k, s.last()) {
        strip_end(s.drop_last(), k)
    } else {
        s
    }
}

/// `s` without the characters of kind `k` at both ends.
pub open spec fn strip(s: Seq<char>, k: Cut) -> Seq<char> {
    strip_end(strip_start(s, k), k)
}

/// `str::trim`.
pub open spec fn trim(s: Seq<char>) -> Seq<char> {
    strip(s, Cut::Space)
}

pub open spec fn starts_with(s: Seq<char>, p: Seq<char>) -> bool {
    p.len() <= s.len() && s.subrange(0, p.len() as int) == p
}

/// `needle` occurs in `s` as a contiguous run.
pub open spec fn contains(s: Seq<char>, needle: Seq<char>) -> bool {
    exists|i: int|
        0 <= i && i + needle.len() <= s.len() && #[trigger] s.subrange(i, i + needle.len())
            == needle
}

/// The trailing run of characters of `s` not of kind `k`.
pub open spec fn trailing_until(s: Seq<char>, k: Cut) -> Seq<char>
    decreases s.len(),
{
    if s.len() == 0 || cuts(k, s.last()) {
        Seq::empty()
    } else {
        trailing_until(s.drop_last(), k).push(s.last())
    }
}

/// The last whitespace-separated word of `s` (`s.split_whitespace().last()`).
pub open spec fn last_word(s: Seq<char>) -> Option<Seq<char>> {
    let r = strip_end(s, Cut::Space);
    if r.len() == 0 {
        None
    } else {
        Some(trailing_until(r, Cut::Space))
    }
}

/// Index of the end of the line that starts at `i`: the first `'\n'` at or after `i`,
/// or the end of the text.
pub open spec fn line_end(t: Seq<char>, i: int) -> int
    decreases t.len() - i,
{
    if i >= t.len() || t[i] == '\n' {
        i
    } else {
        line_end(t, i + 1)
    }
}

pub proof fn lemma_line_end(t: Seq<char>, i: int)
    requires
        0 <= i <= t.len(),
    ensures
        i <= line_end(t, i) <= t.len(),
        forall|j: int| i <= j < line_end(t, i) ==> t[j] != '\n',
        line_end(t, i) < t.len() ==> t[line_end(t, i)] == '\n',
    decreases t.len() - i,
{
    if i < t.len() && t[i] != '\n' {
        lemma_line_end(t, i + 1);
    }
}

/// The first line of `s` (up to the first `'\n'`), trimmed.
pub open spec fn first_line(s: Seq<char>) -> Seq<char> {
    trim(s.subrange(0, line_end(s, 0)))
}

/// The views of a sequence of strings.
pub open spec fn views(v: Seq<String>) -> Seq<Seq<char>> {
    v.map_values(|s: String| s@)
}

/// The views of a sequence of string slices.
pub open spec fn str_views(v: Seq<&str>) -> Seq<Seq<char>> {
    v.map_values(|s: &str| s@)
}

/// An ASCII character.
pub open spec fn is_ascii_char(c: char) -> bool {
    (c as u32) < 0x80
}

/// Every character of `s` is ASCII.
pub open spec fn all_ascii(s: Seq<char>) -> bool {
    forall|i: int| 0 <= i < s.len() ==> is_ascii_char(#[trigger] s[i])
}

/// The ASCII lowercase of `c` (`char::to_ascii_lowercase`): `A`..`Z` become `a`..`z`.
pub open spec fn ascii_lower(c: char) -> char {
    if 0x41 <= (c as u32) && (c as u32) <= 0x5A {
        ((c as u32) + 32) as char
    } else {
        c
    }
}

/// The name given to what `str::to_lowercase` returns for a string: the Unicode
/// lowercase mapping, which depends on the argument alone.
pub uninterp spec fn lowercase(s: Seq<char>) -> Seq<char>;

/// Calls `str::to_lowercase`. Claimed: the result is `lowercase` of the argument; for
/// an all-ASCII argument it is the argument with `A`..`Z` turned into `a`..`z` (the
/// Unicode lowercase mapping of ASCII characters); and the mapping goes character by
/// character from the start, so an argument whose first character is ASCII gives a
/// result that starts with that character lowered as ASCII. Nothing more is stated of
/// the Unicode tables (what the other characters become, and into how many).
#[verifier::external_body]
pub(crate) fn to_lower(s: &str) -> (r: String)
    ensures
        r@ == lowercase(s@),
        all_ascii(s@) ==> r@ == s@.map_values(|c: char| ascii_lower(c)),
        s@.len() > 0 && is_ascii_char(s@[0]) ==> r@.len() > 0 && r@[0] == ascii_lower(s@[0]),
{
    s.to_lowercase()
}

pub fn digit(c: char) -> (r: bool)
    ensures
        r == is_digit(c),
{
    let u = c as u32;
    0x30 <= u && u <= 0x39
}

pub fn white(c: char) -> (r: bool)
    ensures
        r == is_ws(c),
{
    let u = c as u32;
    (0x09 <= u && u <= 0x0D) || u == 0x20 || u == 0x85 || u == 0xA0 || u == 0x1680 || (0x2000 <= u
        && u <= 0x200A) || u == 0x2028 || u == 0x2029 || u == 0x202F || u == 0x205F || u == 0x3000
}

fn cut_here(k: Cut, c: char) -> (r: bool)
    ensures
        r == cuts(k, c),
{
    match k {
        Cut::Space => white(c),
        Cut::Quote => c == '"',
        Cut::Slash => c == '/',
    }
}

/// The characters of `s`, in order.
pub fn chars_of(s: &str) -> (v: Vec<char>)
    ensures
        v@ == s@,
{
    let mut v: Vec<char> = Vec::new();
    for c in it: s.chars()
        invariant
            v@ == it.seq().take(it.index() as int),
            it.seq() == s@,
    {
        v.push(c);
        assert(v@ =~= it.seq().take(it.index() + 1));
    }
    v
}

/// Whether two strings hold the same characters.
pub fn str_eq(a: &str, b: &str) -> (r: bool)
    ensures
        r == (a@ == b@),
{
    let x = chars_of(a);
    let y = chars_of(b);
    if x.len() != y.len() {
        return false;
    }
    let mut i: usize = 0;
    while i < x.len()
        invariant
            x@ == a@,
            y@ == b@,
            x.len() == y.len(),
            i <= x.len(),
            forall|j: int| 0 <= j < i ==> x@[j] == y@[j],
        decreases x.len() - i,
    {
        if x[i] != y[i] {
            return false;
        }
        i = i + 1;
    }
    assert(x@ =~= y@);
    true
}

pub proof fn lemma_strip_start(s: Seq<char>, k: Cut, i: int)
    requires
        0 <= i <= s.len(),
        forall|j: int| 0 <= j < i ==> cuts(k, #[trigger] s[j]),
        i == s.len() || !cuts(k, s[i]),
    ensures
        strip_start(s, k) == s.subrange(i, s.len() as int),
    decreases i,
{
    if i > 0 {
        assert forall|j: int| 0 <= j < i - 1 implies cuts(k, #[trigger] s.drop_first()[j]) by {
            assert(s.drop_first()[j] == s[j + 1]);
        }
        lemma_strip_start(s.drop_first(), k, i - 1);
        assert(s.drop_first().subrange(i - 1, s.len() - 1) =~= s.subrange(i, s.len() as int));
    } else {
        assert(s.subrange(0, s.len() as int) =~= s);
    }
}

pub proof fn lemma_strip_end(s: Seq<char>, k: Cut, e: int)
    requires
        0 <= e <= s.len(),
        forall|j: int| e <= j < s.len() ==> cuts(k, #[trigger] s[j]),
        e == 0 || !cuts(k, s[e - 1]),
    ensures
        strip_end(s, k) == s.subrange(0, e),
    decreases s.len() - e,
{
    if e < s.len() {
        assert forall|j: int| e <= j < s.len() - 1 implies cuts(k, #[trigger] s.drop_last()[j]) by {
            assert(s.drop_last()[j] == s[j]);
        }
        lemma_strip_end(s.drop_last(), k, e);
        assert(s.drop_last().subrange(0, e) =~= s.subrange(0, e));
    } else {
        assert(s.subrange(0, e) =~= s);
    }
}

pub proof fn lemma_strip_end_last(s: Seq<char>, k: Cut)
    ensures
        strip_end(s, k).len() > 0 ==> !cuts(k, strip_end(s, k).last()),
        strip_end(s, k).len() <= s.len(),
        strip_end(s, k) == s.subrange(0, strip_end(s, k).len() as int),
    decreases s.len(),
{
    if s.len() > 0 && cuts(k, s.last()) {
        lemma_strip_end_last(s.drop_last(), k);
        assert(s.drop_last().subrange(0, strip_end(s, k).len() as int) =~= s.subrange(
            0,
            strip_end(s, k).len() as int,
        ));
    } else {
        assert(s.subrange(0, s.len() as int) =~= s);
    }
}

/// A string whose ends are not of kind `k` is its own strip.
pub proof fn lemma_strip_fixed(s: Seq<char>, k: Cut)
    requires
        s.len() > 0,
        !cuts(k, s[0]),
        !cuts(k, s.last()),
    ensures
        strip(s, k) == s,
{
    lemma_strip_start(s, k, 0);
    assert(s.subrange(0, s.len() as int) =~= s);
    lemma_strip_end(s, k, s.len() as int);
}

pub proof fn lemma_trailing_until(s: Seq<char>, k: Cut, i: int)
    requires
        0 <= i <= s.len(),
        forall|j: int| i <= j < s.len() ==> !cuts(k, #[trigger] s[j]),
        i == 0 || cuts(k, s[i - 1]),
    ensures
        trailing_until(s, k) == s.subrange(i, s.len() as int),
    decreases s.len() - i,
{
    if i < s.len() {
        assert forall|j: int| i <= j < s.len() - 1 implies !cuts(k, #[trigger] s.drop_last()[j]) by {
            assert(s.drop_last()[j] == s[j]);
        }
        lemma_trailing_until(s.drop_last(), k, i);
        assert(s.drop_last().subrange(i, s.len() - 1).push(s.last()) =~= s.subrange(
            i,
            s.len() as int,
        ));
    } else {
        assert(s.subrange(i, s.len() as int) =~= Seq::<char>::empty());
    }
}

/// The first index in `[a, b)` whose character is not of kind `k` (or `b`).
pub fn skip_start(v: &Vec<char>, a: usize, b: usize, k: Cut) -> (i: usize)
    requires
        a <= b <= v.len(),
    ensures
        a <= i <= b,
        v@.subrange(i as int, b as int) == strip_start(v@.subrange(a as int, b as int), k),
{
    let ghost s = v@.subrange(a as int, b as int);
    let mut i = a;
    while i < b && cut_here(k, v[i])
        invariant
            a <= i <= b <= v.len(),
            s == v@.subrange(a as int, b as int),
            forall|j: int| a <= j < i ==> cuts(k, #[trigger] v@[j]),
        decreases b - i,
    {
        i = i + 1;
    }
    proof {
        assert forall|j: int| 0 <= j < i - a implies cuts(k, #[trigger] s[j]) by {
            assert(s[j] == v@[a + j]);
        }
        if i < b {
            assert(s[i - a] == v@[i as int]);
        }
        lemma_strip_start(s, k, i - a);
        assert(s.subrange(i - a, s.len() as int) =~= v@.subrange(i as int, b as int));
    }
    i
}

/// The end `e` in `[a, b]` such that `v[a..e]` is `v[a..b]` without its trailing
/// characters of kind `k`.
pub fn skip_end(v: &Vec<char>, a: usize, b: usize, k: Cut) -> (e: usize)
    requires
        a <= b <= v.len(),
    ensures
        a <= e <= b,
        v@.subrange(a as int, e as int) == strip_end(v@.subrange(a as int, b as int), k),
{
    let ghost t = v@.subrange(a as int, b as int);
    let mut e = b;
    while e > a && cut_here(k, v[e - 1])
        invariant
            a <= e <= b <= v.len(),
            t == v@.subrange(a as int, b as int),
            forall|j: int| e <= j < b ==> cuts(k, #[trigger] v@[j]),
        decreases e - a,
    {
        e = e - 1;
    }
    proof {
        assert forall|j: int| e - a <= j < t.len() implies cuts(k, #[trigger] t[j]) by {
            assert(t[j] == v@[a + j]);
        }
        if e > a {
            assert(t[e - a - 1] == v@[e - 1]);
        }
        lemma_strip_end(t, k, e - a);
        assert(t.subrange(0, e - a) =~= v@.subrange(a as int, e as int));
    }
    e
}

/// The bounds `(i, j)` inside `[a, b)` such that `v[i..j]` is `v[a..b]` with the
/// characters of kind `k` removed from both ends.
pub fn strip_range(v: &Vec<char>, a: usize, b: usize, k: Cut) -> (r: (usize, usize))
    requires
        a <= b <= v.len(),
    ensures
        a <= r.0 <= r.1 <= b,
        v@.subrange(r.0 as int, r.1 as int) == strip(v@.subrange(a as int, b as int), k),
{
    let i = skip_start(v, a, b, k);
    let e = skip_end(v, i, b, k);
    (i, e)
}

/// Whether `v[a..b]` begins with the characters of `p`.
pub fn starts_with_at(v: &Vec<char>, a: usize, b: usize, p: &Vec<char>) -> (r: bool)
    requires
        a <= b <= v.len(),
    ensures
        r == starts_with(v@.subrange(a as int, b as int), p@),
{
    if p.len() > b - a {
        return false;
    }
    let mut i: usize = 0;
    while i < p.len()
        invariant
            a <= b <= v.len(),
            p.len() <= b - a,
            i <= p.len(),
            forall|j: int| 0 <= j < i ==> v@[a + j] == p@[j],
        decreases p.len() - i,
    {
        if v[a + i] != p[i] {
            assert(v@.subrange(a as int, b as int)[i as int] == v@[a + i]);
            return false;
        }
        i = i + 1;
    }
    assert(v@.subrange(a as int, b as int).subrange(0, p.len() as int) =~= p@);
    true
}

/// Whether `needle` occurs in `hay`.
pub fn contains_str(hay: &str, needle: &str) -> (r: bool)
    ensures
        r == contains(hay@, needle@),
{
    let h = chars_of(hay);
    let n = chars_of(needle);
    if n.len() > h.len() {
        proof {
            assert forall|i: int| 0 <= i && i + n@.len() <= h@.len() implies #[trigger] h@.subrange(
                i,
                i + n@.len(),
            ) != n@ by {}
        }
        return false;
    }
    let mut i: usize = 0;
    loop
        invariant
            h@ == hay@,
            n@ == needle@,
            n.len() <= h.len(),
            i <= h.len() - n.len(),
            forall|j: int| 0 <= j < i ==> #[trigger] h@.subrange(j, j + n@.len()) != n@,
        decreases h.len() - n.len() - i,
    {
        assert(h@.subrange(i as int, h@.len() as int).subrange(0, n@.len() as int) =~= h@.subrange(
            i as int,
            i + n@.len(),
        ));
        if starts_with_at(&h, i, h.len(), &n) {
            return true;
        }
        if i == h.len() - n.len() {
            return false;
        }
        i = i + 1;
    }
}

/// `v[a..b]` as a new string.
pub fn slice_to_string(s: &str, v: &Vec<char>, a: usize, b: usize) -> (r: String)
    requires
        v@ == s@,
        a <= b <= v.len(),
    ensures
        r@ == s@.subrange(a as int, b as int),
{
    let sub = s.substring_char(a, b);
    sub.to_owned()
}

/// The first line of `s`, trimmed.
pub fn first_line_of(s: &str) -> (r: String)
    ensures
        r@ == first_line(s@),
{
    let v = chars_of(s);
    let mut e: usize = 0;
    while e < v.len() && v[e] != '\n'
        invariant
            e <= v.len(),
            line_end(v@, 0) == line_end(v@, e as int),
        decreases v.len() - e,
    {
        e = e + 1;
    }
    proof {
        lemma_line_end(v@, 0);
    }
    let (a, b) = strip_range(&v, 0, e, Cut::Space);
    slice_to_string(s, &v, a, b)
}

} // verus!
