//! Version management of the app: the version a `Cargo.toml` declares, the version a
//! binary reports with `--version`, the pin a person types, the target version, and
//! the numeric order of versions.

use vstd::prelude::*;
use crate::texto::{
    chars_of, contains, digit, is_digit, is_ws, last_word, lemma_strip_end, lemma_strip_end_last,
    lemma_strip_fixed, lemma_trailing_until, line_end, lemma_line_end, lowercase, skip_start, slice_to_string, starts_with,
    starts_with_at, str_eq, skip_end, strip, strip_end, strip_range, strip_start, to_lower, trim, white, Cut,
};
use crate::plataforma::APP_REPO;

verus! {

pub open spec fn opt_view(o: Option<String>) -> Option<Seq<char>> {
    match o {
        Some(s) => Some(s@),
        None => None,
    }
}

// ---------------------------------------------------------------------------
// The version declared in a Cargo.toml
// ---------------------------------------------------------------------------

/// The version a single line declares: `version = "x"` (after trimming the line), with
/// any spacing around `=`, quotes removed, and the value starting with a digit.
pub open spec fn version_of_line(line: Seq<char>) -> Option<Seq<char>> {
    let l = trim(line);
    if starts_with(l, "version"@) {
        let rest = strip_start(l.subrange("version"@.len() as int, l.len() as int), Cut::Space);
        if rest.len() > 0 && rest[0] == '=' {
            let v = trim(strip(trim(rest.drop_first()), Cut::Quote));
            if v.len() > 0 && is_digit(v[0]) {
                Some(v)
            } else {
                None
            }
        } else {
            None
        }
    } else {
        None
    }
}

/// The first version declared by a line of `t` from position `start` on.
pub open spec fn cargo_version_from(t: Seq<char>, start: int) -> Option<Seq<char>>
    decreases t.len() - start,
{
    if start < 0 || start > t.len() {
        None
    } else {
        let e = line_end(t, start);
        proof {
            lemma_line_end(t, start);
        }
        match version_of_line(t.subrange(start, e)) {
            Some(v) => Some(v),
            None => if e >= t.len() {
                None
            } else {
                cargo_version_from(t, e + 1)
            },
        }
    }
}

/// The version of a Cargo.toml: the first line, in order, that declares one.
pub open spec fn cargo_version(t: Seq<char>) -> Option<Seq<char>> {
    cargo_version_from(t, 0)
}

fn version_in_line(s: &str, v: &Vec<char>, a: usize, b: usize, key: &Vec<char>) -> (r: Option<String>)
    requires
        v@ == s@,
        key@ == "version"@,
        a <= b <= v.len(),
    ensures
        opt_view(r) == version_of_line(v@.subrange(a as int, b as int)),
{
    let ghost line = v@.subrange(a as int, b as int);
    let (i, j) = strip_range(v, a, b, Cut::Space);
    if !starts_with_at(v, i, j, key) {
        return None;
    }
    let k = i + key.len();
    let ghost l = v@.subrange(i as int, j as int);
    assert(l.subrange(key@.len() as int, l.len() as int) =~= v@.subrange(k as int, j as int));
    let k2 = skip_start(v, k, j, Cut::Space);
    if k2 >= j || v[k2] != '=' {
        return None;
    }
    assert(v@.subrange(k2 as int, j as int).drop_first() =~= v@.subrange(k2 + 1, j as int));
    let (x1, y1) = strip_range(v, k2 + 1, j, Cut::Space);
    let (x2, y2) = strip_range(v, x1, y1, Cut::Quote);
    let (x3, y3) = strip_range(v, x2, y2, Cut::Space);
    if x3 < y3 && digit(v[x3]) {
        Some(slice_to_string(s, v, x3, y3))
    } else {
        None
    }
}

/// The version a Cargo.toml declares: the first `version = "x"` line (the one of
/// `[package]`, which comes first), its value unquoted and trimmed, provided it is not
/// empty and starts with a digit. Lines are those between `'\n'` characters; a `'\r'`
/// before a newline is whitespace and goes with the trim.
pub fn parse_cargo_version(toml: &str) -> (r: Option<String>)
    ensures
        opt_view(r) == cargo_version(toml@),
        r matches Some(v) ==> v@.len() > 0 && is_digit(v@[0]),
{
    let v = chars_of(toml);
    let key = chars_of("version");
    let mut start: usize = 0;
    loop
        invariant
            v@ == toml@,
            key@ == "version"@,
            start <= v.len(),
            cargo_version(toml@) == cargo_version_from(v@, start as int),
        decreases v.len() - start,
    {
        let mut e = start;
        while e < v.len() && v[e] != '\n'
            invariant
                start <= e <= v.len(),
                line_end(v@, start as int) == line_end(v@, e as int),
            decreases v.len() - e,
        {
            e = e + 1;
        }
        proof {
            lemma_line_end(v@, start as int);
        }
        let found = version_in_line(toml, &v, start, e, &key);
        if found.is_some() {
            return found;
        }
        if e >= v.len() {
            return None;
        }
        start = e + 1;
    }
}

/// `raw.githubusercontent.com` address of the Cargo.toml on the `main` branch of `repo`.
pub open spec fn cargo_toml_url_spec(repo: Seq<char>) -> Seq<char> {
    "https://raw.githubusercontent.com/"@ + repo + "/main/Cargo.toml"@
}

/// Address of the Cargo.toml of `repo` on `main` (read raw, outside the rate-limited API).
pub fn cargo_toml_url_of(repo: &str) -> (r: String)
    ensures
        r@ == cargo_toml_url_spec(repo@),
{
    let mut u = "https://raw.githubusercontent.com/".to_owned();
    u.append(repo);
    u.append("/main/Cargo.toml");
    u
}

/// Address of the app's Cargo.toml on `main`, the source of truth for "latest".
pub fn cargo_toml_url() -> (r: String)
    ensures
        r@ == cargo_toml_url_spec(APP_REPO@),
{
    cargo_toml_url_of(APP_REPO)
}

/// The latest published version of any repository, given the body fetched from
/// [`cargo_toml_url_of`] (`None` when the fetch failed).
pub fn latest_version_of(body: Option<String>) -> (r: Option<String>)
    ensures
        opt_view(r) == match body {
            Some(b) => cargo_version(b@),
            None => None::<Seq<char>>,
        },
{
    match body {
        Some(b) => parse_cargo_version(b.as_str()),
        None => None,
    }
}

/// The latest published version of the app, given the body fetched from
/// [`cargo_toml_url`].
pub fn latest_app_version(body: Option<String>) -> (r: Option<String>)
    ensures
        opt_view(r) == match body {
            Some(b) => cargo_version(b@),
            None => None::<Seq<char>>,
        },
{
    latest_version_of(body)
}

// ---------------------------------------------------------------------------
// The version a binary reports
// ---------------------------------------------------------------------------

/// The version in the output of `<bin> --version` ("name X.Y.Z"): its last word,
/// provided it starts with a digit.
pub open spec fn version_in_output(out: Seq<char>) -> Option<Seq<char>> {
    match last_word(out) {
        Some(w) => if w.len() > 0 && is_digit(w[0]) {
            Some(w)
        } else {
            None
        },
        None => None,
    }
}

fn version_from_output(out: &str) -> (r: Option<String>)
    ensures
        opt_view(r) == version_in_output(out@),
{
    let v = chars_of(out);
    let j = skip_end(&v, 0, v.len(), Cut::Space);
    assert(v@.subrange(0, v@.len() as int) =~= v@);
    let ghost trimmed = v@.subrange(0, j as int);
    if j == 0 {
        return None;
    }
    let mut k = j;
    while k > 0 && !white(v[k - 1])
        invariant
            k <= j <= v.len(),
            forall|x: int| k <= x < j ==> !is_ws(#[trigger] v@[x]),
        decreases k,
    {
        k = k - 1;
    }
    proof {
        assert forall|x: int| k <= x < trimmed.len() implies !is_ws(#[trigger] trimmed[x]) by {
            assert(trimmed[x] == v@[x]);
        }
        if k > 0 {
            assert(trimmed[k - 1] == v@[k - 1]);
        }
        lemma_trailing_until(trimmed, Cut::Space, k as int);
        assert(trimmed.subrange(k as int, j as int) =~= v@.subrange(k as int, j as int));
    }
    if k < j && digit(v[k]) {
        Some(slice_to_string(out, &v, k, j))
    } else {
        None
    }
}

/// The version of an installed binary, given what `<bin> --version` printed (`None`
/// when it is not installed or did not answer): the last word of the output, kept only
/// when it starts with a digit, so a renamed binary still reads.
pub fn installed_version_of(output: Option<String>) -> (r: Option<String>)
    ensures
        opt_view(r) == match output {
            Some(o) => version_in_output(o@),
            None => None::<Seq<char>>,
        },
        r matches Some(v) ==> v@.len() > 0 && is_digit(v@[0]),
{
    match output {
        Some(o) => version_from_output(o.as_str()),
        None => None,
    }
}

/// The version of the installed app, given what `schematize --version` printed.
pub fn installed_app_version(output: Option<String>) -> (r: Option<String>)
    ensures
        opt_view(r) == match output {
            Some(o) => version_in_output(o@),
            None => None::<Seq<char>>,
        },
{
    installed_version_of(output)
}

// ---------------------------------------------------------------------------
// The pin
// ---------------------------------------------------------------------------

/// What a pin file holds, read back: its trimmed content, or nothing when empty.
pub open spec fn pin_read(content: Seq<char>) -> Option<Seq<char>> {
    if trim(content).len() == 0 {
        None
    } else {
        Some(trim(content))
    }
}

/// The pinned version, given the content of the pin file (`None` when there is no
/// file): the trimmed content, unless it is empty.
pub fn read_pin(content: Option<String>) -> (r: Option<String>)
    ensures
        opt_view(r) == match content {
            Some(c) => pin_read(c@),
            None => None::<Seq<char>>,
        },
{
    match content {
        Some(c) => {
            let v = chars_of(c.as_str());
            let (a, b) = strip_range(&v, 0, v.len(), Cut::Space);
            assert(v@.subrange(0, v@.len() as int) =~= v@);
            if a == b {
                None
            } else {
                Some(slice_to_string(c.as_str(), &v, a, b))
            }
        },
        None => None,
    }
}

/// The target version: the pin when there is one, else the latest published.
pub fn target_version(pin: Option<String>, latest: Option<String>) -> (r: Option<String>)
    ensures
        r == match pin {
            Some(p) => Some(p),
            None => latest,
        },
{
    match pin {
        Some(p) => Some(p),
        None => latest,
    }
}

/// The words that, typed after `pin`, mean "follow the latest again".
pub open spec fn unpin_word(w: Seq<char>) -> bool {
    w == "latest"@ || w == "none"@ || w == "nenhum"@ || w == "-"@
}

/// The message refusing a pin that does not look like a version.
pub open spec fn pin_refusal(v: Seq<char>) -> Seq<char> {
    "`"@ + v
        + "` não parece uma versão. Use algo como `0.57.0`, ou `pin latest` para voltar a seguir a última publicada"@
}

/// What `pin <entry>` means: `Ok(None)` unpins, `Ok(Some(v))` pins `v`, `Err` refuses.
/// The entry is trimmed, and unpins when it is empty or, lowercased, one of the unpin
/// words; an entry that starts with a digit is never one of them (lowercasing keeps
/// its first character, and every unpin word starts with something else).
pub open spec fn pin_meaning(entry: Seq<char>) -> Result<Option<Seq<char>>, Seq<char>> {
    let v = trim(entry);
    if v.len() == 0 || (!is_digit(v[0]) && unpin_word(lowercase(v))) {
        Ok(None)
    } else {
        let clean = if v[0] == 'v' {
            v.drop_first()
        } else {
            v
        };
        if clean.len() > 0 && is_digit(clean[0]) {
            Ok(Some(clean))
        } else {
            Err(pin_refusal(v))
        }
    }
}

pub open spec fn pin_view(r: Result<Option<String>, String>) -> Result<Option<Seq<char>>, Seq<char>> {
    match r {
        Ok(o) => Ok(opt_view(o)),
        Err(e) => Err(e@),
    }
}

/// Interprets what a person typed after `pin`. Empty input and the words `latest`,
/// `none`, `nenhum` and `-` (in any case, after trimming) unpin; a version, with or
/// without the `v` of a tag, is pinned without the `v`; anything else is refused with a
/// message that shows the expected format and the way back to latest.
pub fn interpretar_pin(entrada: &str) -> (r: Result<Option<String>, String>)
    ensures
        pin_view(r) == pin_meaning(entrada@),
        r matches Ok(Some(v)) ==> v@.len() > 0 && is_digit(v@[0]) && pin_read(v@) == Some(v@),
        r matches Ok(Some(v)) ==> pin_meaning(v@) == Ok::<Option<Seq<char>>, Seq<char>>(Some(v@)),
{
    let c = chars_of(entrada);
    let (a, b) = strip_range(&c, 0, c.len(), Cut::Space);
    assert(c@.subrange(0, c@.len() as int) =~= c@);
    if a == b {
        return Ok(None);
    }
    let v = entrada.substring_char(a, b);
    let low = to_lower(v);
    if is_unpin_lowered(low.as_str()) {
        proof {
            if is_digit(v@[0]) {
                lemma_digit_start_not_unpin(low@);
            }
        }
        return Ok(None);
    }
    let start = if c[a] == 'v' {
        a + 1
    } else {
        a
    };
    assert(c@.subrange(a as int, b as int).drop_first() =~= c@.subrange(a + 1, b as int));
    if start < b && digit(c[start]) {
        let clean = slice_to_string(entrada, &c, start, b);
        proof {
            lemma_pin_roundtrip(entrada@);
            lemma_recorded_pin_reparses(entrada@);
        }
        Ok(Some(clean))
    } else {
        Err(pin_refusal_message(v))
    }
}

/// A text that starts with a digit is none of the unpin words.
proof fn lemma_digit_start_not_unpin(w: Seq<char>)
    requires
        w.len() > 0,
        is_digit(w[0]),
    ensures
        !unpin_word(w),
{
    reveal_strlit("latest");
    reveal_strlit("none");
    reveal_strlit("nenhum");
    reveal_strlit("-");
    assert(w != "latest"@) by {
        assert("latest"@[0] == 'l');
    }
    assert(w != "none"@) by {
        assert("none"@[0] == 'n');
    }
    assert(w != "nenhum"@) by {
        assert("nenhum"@[0] == 'n');
    }
    assert(w != "-"@) by {
        assert("-"@[0] == '-');
    }
}

/// Whether an already lowercased entry is one of the words that unpin.
pub fn is_unpin_lowered(l: &str) -> (r: bool)
    ensures
        r == unpin_word(l@),
{
    str_eq(l, "latest") || str_eq(l, "none") || str_eq(l, "nenhum") || str_eq(l, "-")
}

fn pin_refusal_message(v: &str) -> (m: String)
    ensures
        m@ == pin_refusal(v@),
{
    let mut m = "`".to_owned();
    m.append(v);
    m.append(
        "` não parece uma versão. Use algo como `0.57.0`, ou `pin latest` para voltar a seguir a última publicada",
    );
    m
}

/// `pin latest` unpins: so do `none`, `nenhum`, `-` and the empty entry, in any case
/// and with any surrounding whitespace, instead of being recorded as a version. (An
/// entry that lowercases to one of these words does not start with a digit.)
pub proof fn lemma_unpin_words_unpin(entry: Seq<char>)
    requires
        trim(entry).len() == 0 || (!is_digit(trim(entry)[0]) && unpin_word(
            lowercase(trim(entry)),
        )),
    ensures
        pin_meaning(entry) == Ok::<Option<Seq<char>>, Seq<char>>(None),
{
}

/// A pin is never a word: whatever `pin` records starts with a digit, and reads back
/// from the pin file exactly as it was written (its content is already trimmed).
pub proof fn lemma_pin_roundtrip(entry: Seq<char>)
    ensures
        pin_meaning(entry) matches Ok(Some(v)) ==> v.len() > 0 && is_digit(v[0]) && pin_read(v)
            == Some(v),
{
    if let Ok(Some(v)) = pin_meaning(entry) {
        let t = trim(entry);
        lemma_strip_end_last(strip_start(entry, Cut::Space), Cut::Space);
        assert(!is_ws(t.last()));
        assert(v.last() == t.last());
        assert(!is_ws(v[0]));
        lemma_strip_fixed(v, Cut::Space);
    }
}

/// What `pin` records is pinned again, unchanged, when given back to `pin`: a recorded
/// version is never read as a word or refused.
pub proof fn lemma_recorded_pin_reparses(entry: Seq<char>)
    ensures
        pin_meaning(entry) matches Ok(Some(v)) ==> pin_meaning(v) == Ok::<
            Option<Seq<char>>,
            Seq<char>,
        >(Some(v)),
{
    lemma_pin_roundtrip(entry);
    if let Ok(Some(v)) = pin_meaning(entry) {
        assert(trim(v) == v);
        assert(v[0] != 'v');
    }
}

/// Every refusal of a pin teaches the format (`0.57.0`) and the way back to the latest
/// (`pin latest`).
pub proof fn lemma_pin_refusal_teaches(entry: Seq<char>)
    ensures
        pin_meaning(entry) matches Err(m) ==> contains(m, "0.57.0"@) && contains(m, "pin latest"@),
{
    if let Err(m) = pin_meaning(entry) {
        let v = trim(entry);
        let tail = "` não parece uma versão. Use algo como `0.57.0`, ou `pin latest` para voltar a seguir a última publicada"@;
        reveal_strlit(
            "` não parece uma versão. Use algo como `0.57.0`, ou `pin latest` para voltar a seguir a última publicada",
        );
        reveal_strlit("0.57.0");
        reveal_strlit("pin latest");
        reveal_strlit("`");
        let off: int = 1 + v.len() as int;
        assert(m =~= "`"@ + v + tail);
        assert(m.subrange(off + 40, off + 40 + "0.57.0"@.len()) =~= "0.57.0"@);
        assert(m.subrange(off + 53, off + 53 + "pin latest"@.len()) =~= "pin latest"@);
    }
}

// ---------------------------------------------------------------------------
// Order of versions
// ---------------------------------------------------------------------------

pub open spec fn is_sep(c: char) -> bool {
    c == '.' || c == '-' || c == '+'
}

/// End of the piece starting at `i` (the next `.`, `-` or `+`, or the end).
pub open spec fn piece_end(s: Seq<char>, i: int) -> int
    decreases s.len() - i,
{
    if i >= s.len() || is_sep(s[i]) {
        i
    } else {
        piece_end(s, i + 1)
    }
}

pub proof fn lemma_piece_end(s: Seq<char>, i: int)
    requires
        0 <= i <= s.len(),
    ensures
        i <= piece_end(s, i) <= s.len(),
        forall|j: int| i <= j < piece_end(s, i) ==> !is_sep(s[j]),
        piece_end(s, i) < s.len() ==> is_sep(s[piece_end(s, i)]),
    decreases s.len() - i,
{
    if i < s.len() && !is_sep(s[i]) {
        lemma_piece_end(s, i + 1);
    }
}

pub open spec fn all_digits(p: Seq<char>) -> bool {
    forall|i: int| 0 <= i < p.len() ==> is_digit(#[trigger] p[i])
}

pub open spec fn digit_value(c: char) -> nat {
    ((c as u32) - 0x30) as nat
}

/// The number a run of decimal digits spells.
pub open spec fn decimal(p: Seq<char>) -> nat
    decreases p.len(),
{
    if p.len() == 0 {
        0
    } else {
        decimal(p.drop_last()) * 10 + digit_value(p.last())
    }
}

/// The numeric segments of a version from position `start` on: the pieces between
/// `.`, `-` and `+`, taken while they are non-empty runs of digits; a piece too large
/// for 64 bits is dropped without ending the run.
pub open spec fn segments_from(s: Seq<char>, start: int) -> Seq<nat>
    decreases s.len() - start,
{
    if start < 0 || start > s.len() {
        Seq::empty()
    } else {
        let e = piece_end(s, start);
        proof {
            lemma_piece_end(s, start);
        }
        let p = s.subrange(start, e);
        if p.len() > 0 && all_digits(p) {
            let rest = if e >= s.len() {
                Seq::<nat>::empty()
            } else {
                segments_from(s, e + 1)
            };
            if decimal(p) <= u64::MAX {
                seq![decimal(p)] + rest
            } else {
                rest
            }
        } else {
            Seq::empty()
        }
    }
}

/// The numeric segments of a version (`"0.34.1-rc"` has `[0, 34, 1]`).
pub open spec fn segments(s: Seq<char>) -> Seq<nat> {
    segments_from(s, 0)
}

/// Segment `i`, with missing segments read as 0.
pub open spec fn seg_at(v: Seq<nat>, i: int) -> nat {
    if 0 <= i < v.len() {
        v[i]
    } else {
        0
    }
}

/// `a` comes before `b`: at the first segment where they differ, `a`'s is smaller.
pub open spec fn segments_lt(a: Seq<nat>, b: Seq<nat>) -> bool {
    exists|k: int|
        0 <= k && (forall|j: int| 0 <= j < k ==> seg_at(a, j) == seg_at(b, j)) && #[trigger] seg_at(
            a,
            k,
        ) < seg_at(b, k)
}

/// Version `a` is older than version `b`.
pub open spec fn version_lt(a: Seq<char>, b: Seq<char>) -> bool {
    segments_lt(segments(a), segments(b))
}

/// Versions `a` and `b` name the same release (same segments, missing ones as 0).
pub open spec fn same_version(a: Seq<char>, b: Seq<char>) -> bool {
    forall|j: int| #[trigger] seg_at(segments(a), j) == seg_at(segments(b), j)
}

proof fn lemma_decimal_step(p: Seq<char>, c: char)
    ensures
        decimal(p.push(c)) == decimal(p) * 10 + digit_value(c),
{
    assert(p.push(c).drop_last() =~= p);
}

proof fn lemma_fits(val: u64, d: u64)
    requires
        d <= 9,
    ensures
        val <= (u64::MAX - d) / 10 ==> val * 10 + d <= u64::MAX,
        val > (u64::MAX - d) / 10 ==> val * 10 + d > u64::MAX,
{
    assert(val <= (u64::MAX - d) / 10 ==> val * 10 + d <= u64::MAX) by (nonlinear_arith)
        requires
            d <= 9,
    ;
    assert(val > (u64::MAX - d) / 10 ==> val * 10 + d > u64::MAX) by (nonlinear_arith)
        requires
            d <= 9,
    ;
}

proof fn lemma_decimal_grows(x: nat, d: nat)
    ensures
        x * 10 + d >= x,
{
    assert(x * 10 + d >= x) by (nonlinear_arith);
}

/// Value of the digits `v[a..b]`, or `None` when it does not fit in 64 bits.
fn digits_value(v: &Vec<char>, a: usize, b: usize) -> (r: Option<u64>)
    requires
        a <= b <= v.len(),
        all_digits(v@.subrange(a as int, b as int)),
    ensures
        r matches Some(x) ==> x == decimal(v@.subrange(a as int, b as int)),
        r is None ==> decimal(v@.subrange(a as int, b as int)) > u64::MAX,
{
    let mut val: u64 = 0;
    let mut big = false;
    let mut i = a;
    while i < b
        invariant
            a <= i <= b <= v.len(),
            all_digits(v@.subrange(a as int, b as int)),
            !big ==> val == decimal(v@.subrange(a as int, i as int)),
            big ==> decimal(v@.subrange(a as int, i as int)) > u64::MAX,
        decreases b - i,
    {
        let c = v[i];
        assert(is_digit(v@.subrange(a as int, b as int)[i - a]));
        assert(v@.subrange(a as int, b as int)[i - a] == c);
        let d = (c as u32 - 0x30) as u64;
        proof {
            assert(v@.subrange(a as int, i + 1) =~= v@.subrange(a as int, i as int).push(c));
            lemma_decimal_step(v@.subrange(a as int, i as int), c);
            lemma_fits(val, d);
            lemma_decimal_grows(decimal(v@.subrange(a as int, i as int)), d as nat);
        }
        if !big {
            if val > (u64::MAX - d) / 10 {
                big = true;
            } else {
                val = val * 10 + d;
            }
        }
        i = i + 1;
    }
    if big {
        None
    } else {
        Some(val)
    }
}

pub open spec fn u64_views(v: Seq<u64>) -> Seq<nat> {
    v.map_values(|x: u64| x as nat)
}

/// The numeric segments of a version.
fn segments_of(s: &str) -> (r: Vec<u64>)
    ensures
        u64_views(r@) == segments(s@),
{
    let v = chars_of(s);
    let mut out: Vec<u64> = Vec::new();
    let mut start: usize = 0;
    loop
        invariant
            v@ == s@,
            start <= v.len(),
            segments(s@) == u64_views(out@) + segments_from(v@, start as int),
        decreases v.len() - start,
    {
        let mut e = start;
        let mut digits = true;
        while e < v.len() && v[e] != '.' && v[e] != '-' && v[e] != '+'
            invariant
                start <= e <= v.len(),
                piece_end(v@, start as int) == piece_end(v@, e as int),
                digits == all_digits(v@.subrange(start as int, e as int)),
            decreases v.len() - e,
        {
            proof {
                let p = v@.subrange(start as int, e as int);
                let q = v@.subrange(start as int, e + 1);
                assert(q =~= p.push(v@[e as int]));
                if all_digits(p) && is_digit(v@[e as int]) {
                    assert forall|i: int| 0 <= i < q.len() implies is_digit(#[trigger] q[i]) by {
                        if i < p.len() {
                            assert(q[i] == p[i]);
                        }
                    }
                } else if !is_digit(v@[e as int]) {
                    assert(q[q.len() - 1] == v@[e as int]);
                } else {
                    let w = choose|i: int| 0 <= i < p.len() && !is_digit(#[trigger] p[i]);
                    assert(q[w] == p[w]);
                }
            }
            digits = digits && digit(v[e]);
            e = e + 1;
        }
        proof {
            lemma_piece_end(v@, start as int);
        }
        let ghost prev = out@;
        if e == start || !digits {
            assert(u64_views(out@) + Seq::<nat>::empty() =~= u64_views(out@));
            return out;
        }
        let d = digits_value(&v, start, e);
        match d {
            Some(x) => {
                out.push(x);
                assert(u64_views(out@) =~= u64_views(prev) + seq![x as nat]);
            },
            None => {},
        }
        if e >= v.len() {
            assert(u64_views(out@) + Seq::<nat>::empty() =~= u64_views(out@));
            return out;
        }
        start = e + 1;
    }
}

/// `a < b` between versions: numeric per segment (pieces separated by `.`, `-`, `+`,
/// read while they are digits, so suffixes after the number are ignored), with missing
/// segments read as 0.
pub fn semver_lt(a: &str, b: &str) -> (r: bool)
    ensures
        r == version_lt(a@, b@),
{
    let va = segments_of(a);
    let vb = segments_of(b);
    let ghost sa = segments(a@);
    let ghost sb = segments(b@);
    let n = if va.len() >= vb.len() {
        va.len()
    } else {
        vb.len()
    };
    let mut i: usize = 0;
    while i < n
        invariant
            u64_views(va@) == sa,
            u64_views(vb@) == sb,
            sa == segments(a@),
            sb == segments(b@),
            n == if va.len() >= vb.len() {
                va.len()
            } else {
                vb.len()
            },
            i <= n,
            forall|j: int| 0 <= j < i ==> seg_at(sa, j) == seg_at(sb, j),
        decreases n - i,
    {
        let x: u64 = if i < va.len() {
            va[i]
        } else {
            0
        };
        let y: u64 = if i < vb.len() {
            vb[i]
        } else {
            0
        };
        assert(x == seg_at(sa, i as int));
        assert(y == seg_at(sb, i as int));
        if x != y {
            proof {
                if x < y {
                    assert(seg_at(sa, i as int) < seg_at(sb, i as int));
                }
                if x > y {
                    assert forall|k: int|
                        0 <= k && (forall|j: int| 0 <= j < k ==> seg_at(sa, j) == seg_at(sb, j))
                            implies !(#[trigger] seg_at(sa, k) < seg_at(sb, k)) by {
                        if k > i {
                            assert(seg_at(sa, i as int) == seg_at(sb, i as int));
                        }
                    }
                }
            }
            return x < y;
        }
        i = i + 1;
    }
    proof {
        assert forall|k: int|
            0 <= k && (forall|j: int| 0 <= j < k ==> seg_at(sa, j) == seg_at(sb, j)) implies !(
            #[trigger] seg_at(sa, k) < seg_at(sb, k)) by {
            if k < n {
            } else {
                assert(seg_at(sa, k) == 0);
                assert(seg_at(sb, k) == 0);
            }
        }
    }
    false
}

/// No version is older than itself.
pub proof fn lemma_semver_irreflexive(a: Seq<char>)
    ensures
        !version_lt(a, a),
{
}

/// If `a` is older than `b`, `b` is not older than `a`.
pub proof fn lemma_semver_asymmetric(a: Seq<char>, b: Seq<char>)
    requires
        version_lt(a, b),
    ensures
        !version_lt(b, a),
{
    let (sa, sb) = (segments(a), segments(b));
    let k = choose|k: int|
        0 <= k && (forall|j: int| 0 <= j < k ==> seg_at(sa, j) == seg_at(sb, j)) && #[trigger] seg_at(
            sa,
            k,
        ) < seg_at(sb, k);
    assert forall|m: int|
        0 <= m && (forall|j: int| 0 <= j < m ==> seg_at(sb, j) == seg_at(sa, j)) implies !(
        #[trigger] seg_at(sb, m) < seg_at(sa, m)) by {
        if m < k {
        } else if m > k {
            assert(seg_at(sb, k) == seg_at(sa, k));
        }
    }
}

/// Older-than is transitive.
pub proof fn lemma_semver_transitive(a: Seq<char>, b: Seq<char>, c: Seq<char>)
    requires
        version_lt(a, b),
        version_lt(b, c),
    ensures
        version_lt(a, c),
{
    let (sa, sb, sc) = (segments(a), segments(b), segments(c));
    let k1 = choose|k: int|
        0 <= k && (forall|j: int| 0 <= j < k ==> seg_at(sa, j) == seg_at(sb, j)) && #[trigger] seg_at(
            sa,
            k,
        ) < seg_at(sb, k);
    let k2 = choose|k: int|
        0 <= k && (forall|j: int| 0 <= j < k ==> seg_at(sb, j) == seg_at(sc, j)) && #[trigger] seg_at(
            sb,
            k,
        ) < seg_at(sc, k);
    let k = if k1 <= k2 {
        k1
    } else {
        k2
    };
    assert(forall|j: int| 0 <= j < k ==> seg_at(sa, j) == seg_at(sc, j));
    assert(seg_at(sa, k) < seg_at(sc, k));
}

proof fn lemma_first_difference(sa: Seq<nat>, sb: Seq<nat>, i: int, w: int)
    requires
        0 <= i <= w,
        forall|j: int| 0 <= j < i ==> seg_at(sa, j) == seg_at(sb, j),
        seg_at(sa, w) != seg_at(sb, w),
    ensures
        segments_lt(sa, sb) || segments_lt(sb, sa),
    decreases w - i,
{
    if seg_at(sa, i) != seg_at(sb, i) {
        if seg_at(sa, i) < seg_at(sb, i) {
            assert(segments_lt(sa, sb));
        } else {
            assert(forall|j: int| 0 <= j < i ==> seg_at(sb, j) == seg_at(sa, j));
            assert(segments_lt(sb, sa));
        }
    } else {
        lemma_first_difference(sa, sb, i + 1, w);
    }
}

/// Any two versions are ordered one way or the other, or name the same release.
pub proof fn lemma_semver_total(a: Seq<char>, b: Seq<char>)
    ensures
        version_lt(a, b) || version_lt(b, a) || same_version(a, b),
{
    if !same_version(a, b) {
        let w = choose|j: int| #[trigger] seg_at(segments(a), j) != seg_at(segments(b), j);
        assert(0 <= w);
        lemma_first_difference(segments(a), segments(b), 0, w);
    }
}

} // verus!
