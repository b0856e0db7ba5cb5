//! Notion identifiers.
//!
//! An identifier is accepted in three spellings:
//! - 32 hexadecimal digits (`0123…cdef`),
//! - a dashed UUID (`8-4-4-4-12` hex digits),
//! - an `http://` / `https://` Notion URL whose last path segment ends
//!   in either of the above (`…/My-Page-0123…cdef?v=…`).
//!
//! Every accepted identifier is stored in one canonical spelling: the
//! dashed UUID with lower-case hex digits. Anything outside ASCII hex
//! (homoglyphs, whitespace, control characters) is refused.

use vstd::prelude::*;

use crate::error::IdError;
use crate::text::{
    chars_of, has_prefix, is_ascii_digit, lower_char, lower_seq, lowercase, starts_with, string_of,
    sub_vec,
};

verus! {

// === Grammar ===============================================================

pub open spec fn is_hex(c: char) -> bool {
    ||| is_ascii_digit(c)
    ||| (97 <= (c as u32) && (c as u32) <= 102)
    ||| (65 <= (c as u32) && (c as u32) <= 70)
}

pub open spec fn all_hex(s: Seq<char>) -> bool {
    forall|i: int| 0 <= i < s.len() ==> is_hex(#[trigger] s[i])
}

/// Positions of the four dashes in a dashed UUID.
pub open spec fn is_dash_pos(i: int) -> bool {
    i == 8 || i == 13 || i == 18 || i == 23
}

pub open spec fn is_dashed_uuid(s: Seq<char>) -> bool {
    &&& s.len() == 36
    &&& forall|i: int|
        0 <= i < 36 ==> if is_dash_pos(i) {
            #[trigger] s[i] == '-'
        } else {
            is_hex(s[i])
        }
}

/// Index into the 32 digits that dashed position `i` shows.
pub open spec fn digit_index(i: int) -> int {
    if i < 8 {
        i
    } else if i < 13 {
        i - 1
    } else if i < 18 {
        i - 2
    } else if i < 23 {
        i - 3
    } else {
        i - 4
    }
}

/// The 32 digits `h` laid out as a dashed UUID.
pub open spec fn dashify(h: Seq<char>) -> Seq<char> {
    Seq::new(36, |i: int| if is_dash_pos(i) { '-' } else { h[digit_index(i)] })
}

/// The canonical spelling every stored identifier has.
pub open spec fn is_canonical(s: Seq<char>) -> bool {
    is_dashed_uuid(s) && lower_seq(s) == s
}

/// Strict form: 32 hex digits or a dashed UUID, canonicalised.
pub open spec fn strict_id(s: Seq<char>) -> Option<Seq<char>> {
    if s.len() == 32 && all_hex(s) {
        Some(lower_seq(dashify(s)))
    } else if is_dashed_uuid(s) {
        Some(lower_seq(s))
    } else {
        None
    }
}

/// A character that can never be part of an identifier or URL as typed.
pub open spec fn is_unprintable(c: char) -> bool {
    (c as u32) < 33 || (c as u32) > 126
}

/// Reason given when the strict form is refused.
pub open spec fn strict_reason(s: Seq<char>) -> Seq<char> {
    if s.len() == 0 {
        "empty identifier"@
    } else if exists|i: int| 0 <= i < s.len() && is_unprintable(#[trigger] s[i]) {
        "contains whitespace, control or non-ASCII characters"@
    } else if s.len() != 32 && s.len() != 36 {
        "expected 32 hex digits or a dashed UUID"@
    } else {
        "invalid hex digit or dash placement"@
    }
}

pub open spec fn is_delim(c: char) -> bool {
    c == '?' || c == '#'
}

/// Length of the part before the first `?` or `#`.
pub open spec fn first_delim(s: Seq<char>) -> nat
    decreases s.len(),
{
    if s.len() == 0 {
        0
    } else if is_delim(s[0]) {
        0
    } else {
        1 + first_delim(s.drop_first())
    }
}

/// Start of the last `/`-separated segment.
pub open spec fn segment_start(p: Seq<char>) -> nat
    decreases p.len(),
{
    if p.len() == 0 {
        0
    } else if p.last() == '/' {
        p.len()
    } else {
        segment_start(p.drop_last())
    }
}

/// The URL with its scheme removed, when it has one.
pub open spec fn url_rest(s: Seq<char>) -> Option<Seq<char>> {
    if has_prefix(s, "https://"@) {
        Some(s.skip("https://"@.len() as int))
    } else if has_prefix(s, "http://"@) {
        Some(s.skip("http://"@.len() as int))
    } else {
        None
    }
}

/// The last path segment of a URL, without query or fragment.
pub open spec fn url_segment(s: Seq<char>) -> Option<Seq<char>> {
    match url_rest(s) {
        Some(rest) => {
            let path = rest.take(first_delim(rest) as int);
            Some(path.skip(segment_start(path) as int))
        },
        None => None,
    }
}

/// The identifier a URL segment ends with, if any: 32 hex digits (or a
/// dashed UUID) that are the whole segment or follow a `-`.
pub open spec fn segment_id(seg: Seq<char>) -> Option<Seq<char>> {
    let n = seg.len();
    if n >= 32 && all_hex(seg.skip(n - 32)) && (n == 32 || seg[n - 33] == '-') {
        Some(lower_seq(dashify(seg.skip(n - 32))))
    } else if n >= 36 && is_dashed_uuid(seg.skip(n - 36)) && (n == 36 || seg[n - 37] == '-') {
        Some(lower_seq(seg.skip(n - 36)))
    } else {
        None
    }
}

pub open spec fn url_id(s: Seq<char>) -> Option<Seq<char>> {
    match url_segment(s) {
        Some(seg) => segment_id(seg),
        None => None,
    }
}

/// What `from_url_or_id` accepts, and the canonical id it yields.
pub open spec fn url_or_id(s: Seq<char>) -> Option<Seq<char>> {
    match strict_id(s) {
        Some(c) => Some(c),
        None => url_id(s),
    }
}

/// The message of the error `from_url_or_id` gives for `s`.
pub open spec fn id_error_message(s: Seq<char>) -> Seq<char> {
    if url_rest(s) is Some {
        crate::error::invalid_url_prefix() + s
    } else {
        crate::error::invalid_id_prefix() + strict_reason(s)
    }
}

// === Lemmas ================================================================

proof fn lemma_lower_hex_dashed(s: Seq<char>)
    requires
        is_dashed_uuid(s),
    ensures
        is_canonical(lower_seq(s)),
{
    let l = lower_seq(s);
    assert forall|i: int| 0 <= i < 36 implies if is_dash_pos(i) {
        #[trigger] l[i] == '-'
    } else {
        is_hex(l[i])
    } by {
        if !is_dash_pos(i) {
            assert(is_hex(s[i]));
        }
    }
    assert(lower_seq(l) =~= l);
}

proof fn lemma_dashify(h: Seq<char>)
    requires
        h.len() == 32,
        all_hex(h),
    ensures
        is_dashed_uuid(dashify(h)),
{
    let d = dashify(h);
    assert forall|i: int| 0 <= i < 36 implies if is_dash_pos(i) {
        #[trigger] d[i] == '-'
    } else {
        is_hex(d[i])
    } by {
        if !is_dash_pos(i) {
            assert(0 <= digit_index(i) < 32);
        }
    }
}

/// Every identifier `url_or_id` yields is canonical.
pub proof fn lemma_url_or_id_canonical(s: Seq<char>)
    ensures
        url_or_id(s) matches Some(c) ==> is_canonical(c),
{
    if s.len() == 32 && all_hex(s) {
        lemma_dashify(s);
        lemma_lower_hex_dashed(dashify(s));
    } else if is_dashed_uuid(s) {
        lemma_lower_hex_dashed(s);
    } else if let Some(seg) = url_segment(s) {
        let n = seg.len();
        if n >= 32 && all_hex(seg.skip(n - 32)) && (n == 32 || seg[n - 33] == '-') {
            lemma_dashify(seg.skip(n - 32));
            lemma_lower_hex_dashed(dashify(seg.skip(n - 32)));
        } else if n >= 36 && is_dashed_uuid(seg.skip(n - 36)) && (n == 36 || seg[n - 37] == '-') {
            lemma_lower_hex_dashed(seg.skip(n - 36));
        }
    }
}

/// Parsing is idempotent: an identifier that was accepted, in any of
/// its forms, is accepted again in its canonical spelling (by the
/// strict parser too) and names itself.
pub proof fn law_id_reparse(s: Seq<char>)
    ensures
        url_or_id(s) matches Some(c) ==> strict_id(c) == Some(c) && url_or_id(c) == Some(c),
{
    lemma_url_or_id_canonical(s);
    if let Some(c) = url_or_id(s) {
        assert(!(c.len() == 32));
    }
}

/// The query-and-fragment part starts after the first `?` or `#`: text
/// free of both, followed by anything, has its delimiter after it.
proof fn lemma_first_delim_after(a: Seq<char>, b: Seq<char>)
    requires
        forall|i: int| 0 <= i < a.len() ==> a[i] != '?' && a[i] != '#',
    ensures
        first_delim(a + b) == a.len() + first_delim(b),
    decreases a.len(),
{
    if a.len() == 0 {
        assert(a + b =~= b);
    } else {
        assert((a + b)[0] == a[0]);
        assert((a + b).drop_first() =~= a.drop_first() + b);
        lemma_first_delim_after(a.drop_first(), b);
    }
}

/// A text that starts with a scheme is never a bare identifier.
proof fn lemma_url_not_strict(s: Seq<char>)
    requires
        url_rest(s) is Some,
    ensures
        strict_id(s) is None,
{
    reveal_strlit("https://");
    reveal_strlit("http://");
    assert(s[0] == 'h') by {
        if has_prefix(s, "https://"@) {
            assert(s.subrange(0, 8)[0] == s[0]);
        } else {
            assert(s.subrange(0, 7)[0] == s[0]);
        }
    }
    assert(!is_hex(s[0]));
    assert(!is_dash_pos(0));
}

/// A URL's query and fragment never change the identifier it names:
/// for a URL free of `?` and `#`, adding `#fragment` or `?query` gives
/// the same answer (the same id, or the same refusal).
pub proof fn law_url_suffix_ignored(u: Seq<char>, f: Seq<char>)
    requires
        url_rest(u) is Some,
        forall|i: int| 0 <= i < u.len() ==> u[i] != '?' && u[i] != '#',
    ensures
        url_or_id(u + seq!['#'] + f) == url_or_id(u),
        url_or_id(u + seq!['?'] + f) == url_or_id(u),
{
    lemma_url_suffix(u, '#', f);
    lemma_url_suffix(u, '?', f);
}

proof fn lemma_url_suffix(u: Seq<char>, d: char, f: Seq<char>)
    requires
        url_rest(u) is Some,
        forall|i: int| 0 <= i < u.len() ==> u[i] != '?' && u[i] != '#',
        d == '?' || d == '#',
    ensures
        url_or_id(u + seq![d] + f) == url_or_id(u),
{
    reveal_strlit("https://");
    reveal_strlit("http://");
    let w = u + seq![d] + f;
    let tail = seq![d] + f;
    assert(w =~= u + tail);
    let k: int = if has_prefix(u, "https://"@) { 8 } else { 7 };
    assert(u.len() >= k);
    assert(w.subrange(0, k) =~= u.subrange(0, k));
    if has_prefix(u, "https://"@) {
        assert(has_prefix(w, "https://"@));
    } else {
        assert(!has_prefix(w, "https://"@)) by {
            if has_prefix(w, "https://"@) {
                assert(u.len() >= 8 || w.subrange(0, 8)[7] == w[7]);
                if u.len() >= 8 {
                    assert(w.subrange(0, 8) =~= u.subrange(0, 8));
                } else {
                    assert(u.len() == 7);
                    assert(w[7] == d);
                    assert("https://"@[7] == '/');
                }
            }
        }
        assert(has_prefix(w, "http://"@));
    }
    lemma_url_not_strict(u);
    lemma_url_not_strict(w);
    let ru = u.skip(k);
    let rw = w.skip(k);
    assert(url_rest(u) == Some(ru));
    assert(url_rest(w) == Some(rw));
    assert(rw =~= ru + tail);
    assert forall|i: int| 0 <= i < ru.len() implies ru[i] != '?' && ru[i] != '#' by {
        assert(ru[i] == u[i + k]);
    }
    lemma_first_delim_after(ru, tail);
    lemma_first_delim_after(ru, Seq::empty());
    assert(ru + Seq::<char>::empty() =~= ru);
    assert(first_delim(tail) == 0);
    assert(rw.take(first_delim(rw) as int) =~= ru.take(first_delim(ru) as int));
}

/// Identifiers ignore ASCII case: a form and its lower-case spelling
/// name the same identifier, or are both refused.
pub proof fn law_id_case_insensitive(s: Seq<char>)
    ensures
        strict_id(s) == strict_id(lower_seq(s)),
{
    let l = lower_seq(s);
    assert forall|i: int| 0 <= i < s.len() implies is_hex(#[trigger] s[i]) == is_hex(l[i]) by {}
    assert forall|i: int| 0 <= i < s.len() implies (#[trigger] s[i] == '-') == (l[i] == '-') by {}
    if s.len() == 32 && all_hex(s) {
        assert(all_hex(l));
        assert(lower_seq(dashify(s)) =~= lower_seq(dashify(l)));
    } else if is_dashed_uuid(s) {
        assert(!(l.len() == 32));
        assert(is_dashed_uuid(l));
        assert(lower_seq(s) =~= lower_seq(l));
    } else {
        if l.len() == 32 && all_hex(l) {
            assert(all_hex(s));
        }
        if is_dashed_uuid(l) {
            assert(is_dashed_uuid(s));
        }
    }
}

/// The 32-digit form and the dashed form of the same digits name the
/// same identifier.
pub proof fn law_id_dash_forms(h: Seq<char>)
    requires
        h.len() == 32,
        all_hex(h),
    ensures
        strict_id(h) == strict_id(dashify(h)),
        strict_id(h) is Some,
{
    lemma_dashify(h);
}

/// Lookalike and control characters never pass: every identifier that
/// is accepted, in any form, is spelled in ASCII hex digits and dashes
/// only, so a text holding a character outside printable ASCII is never
/// taken as an identifier in the strict form.
pub proof fn law_id_ascii_only(s: Seq<char>, i: int)
    requires
        0 <= i < s.len(),
        is_unprintable(s[i]),
    ensures
        strict_id(s) is None,
{
    if s.len() == 32 && all_hex(s) {
        assert(is_hex(s[i]));
    } else if is_dashed_uuid(s) {
        assert(is_dash_pos(i) ==> s[i] == '-');
        assert(!is_dash_pos(i) ==> is_hex(s[i]));
    }
}

// === Executable checks =====================================================

fn is_hex_char(c: char) -> (b: bool)
    ensures
        b == is_hex(c),
{
    let u = c as u32;
    (48 <= u && u <= 57) || (97 <= u && u <= 102) || (65 <= u && u <= 70)
}

fn lower_char_exec(c: char) -> (r: char)
    ensures
        r == lower_char(c),
{
    let u = c as u32;
    if 65 <= u && u <= 90 {
        let b = u as u8;
        (b + 32) as char
    } else {
        c
    }
}

fn all_hex_from(v: &Vec<char>, a: usize) -> (b: bool)
    requires
        a <= v.len(),
    ensures
        b == all_hex(v@.skip(a as int)),
{
    let mut i: usize = a;
    while i < v.len()
        invariant
            a <= i <= v.len(),
            forall|j: int| a <= j < i ==> is_hex(#[trigger] v@[j]),
        decreases v.len() - i,
    {
        if !is_hex_char(v[i]) {
            assert(v@.skip(a as int)[i - a] == v@[i as int]);
            return false;
        }
        i = i + 1;
    }
    assert forall|k: int| 0 <= k < v@.skip(a as int).len() implies is_hex(
        #[trigger] v@.skip(a as int)[k],
    ) by {
        assert(v@.skip(a as int)[k] == v@[a + k]);
    }
    true
}

fn dashed_from(v: &Vec<char>, a: usize) -> (b: bool)
    requires
        a + 36 == v.len(),
    ensures
        b == is_dashed_uuid(v@.skip(a as int)),
{
    let ghost t = v@.skip(a as int);
    let mut i: usize = 0;
    while i < 36
        invariant
            a + 36 == v.len(),
            t == v@.skip(a as int),
            i <= 36,
            forall|j: int|
                0 <= j < i ==> if is_dash_pos(j) {
                    #[trigger] t[j] == '-'
                } else {
                    is_hex(t[j])
                },
        decreases 36 - i,
    {
        let c = v[a + i];
        assert(t[i as int] == c);
        let ok = if i == 8 || i == 13 || i == 18 || i == 23 {
            c == '-'
        } else {
            is_hex_char(c)
        };
        if !ok {
            return false;
        }
        i = i + 1;
    }
    true
}

/// Canonical dashed lower-case spelling of the 32 digits `v[a..a+32]`.
fn canonical_from_digits(v: &Vec<char>, a: usize) -> (r: Vec<char>)
    requires
        a + 32 <= v.len(),
    ensures
        r@ == lower_seq(dashify(v@.subrange(a as int, a + 32))),
{
    let ghost h = v@.subrange(a as int, a + 32);
    let mut r: Vec<char> = Vec::new();
    let mut i: usize = 0;
    while i < 36
        invariant
            a + 32 <= v.len(),
            h == v@.subrange(a as int, a + 32),
            i <= 36,
            r@ =~= Seq::new(i as nat, |k: int| lower_seq(dashify(h))[k]),
        decreases 36 - i,
    {
        let c = if i == 8 || i == 13 || i == 18 || i == 23 {
            '-'
        } else {
            let k: usize = if i < 8 {
                i
            } else if i < 13 {
                i - 1
            } else if i < 18 {
                i - 2
            } else if i < 23 {
                i - 3
            } else {
                i - 4
            };
            assert(k as int == digit_index(i as int));
            lower_char_exec(v[a + k])
        };
        assert(c == lower_seq(dashify(h))[i as int]);
        r.push(c);
        i = i + 1;
    }
    r
}

/// Lower-case copy of the dashed UUID `v[a..a+36]`.
fn canonical_from_dashed(v: &Vec<char>, a: usize) -> (r: Vec<char>)
    requires
        a + 36 <= v.len(),
    ensures
        r@ == lower_seq(v@.subrange(a as int, a + 36)),
{
    let part = sub_vec(v, a, a + 36);
    lowercase(&part)
}

fn has_unprintable(v: &Vec<char>) -> (b: bool)
    ensures
        b == exists|i: int| 0 <= i < v@.len() && is_unprintable(#[trigger] v@[i]),
{
    let mut i: usize = 0;
    while i < v.len()
        invariant
            i <= v.len(),
            forall|j: int| 0 <= j < i ==> !is_unprintable(#[trigger] v@[j]),
        decreases v.len() - i,
    {
        let u = v[i] as u32;
        if u < 33 || u > 126 {
            assert(is_unprintable(v@[i as int]));
            return true;
        }
        i = i + 1;
    }
    false
}

/// The strict check, on characters.
fn strict_chars(v: &Vec<char>) -> (r: Result<Vec<char>, &'static str>)
    ensures
        match r {
            Ok(c) => strict_id(v@) == Some(c@),
            Err(reason) => strict_id(v@) is None && reason@ == strict_reason(v@),
        },
{
    if v.len() == 32 && all_hex_from(v, 0) {
        assert(v@.skip(0) =~= v@);
        assert(v@.subrange(0, 32) =~= v@);
        return Ok(canonical_from_digits(v, 0));
    }
    assert(v@.skip(0) =~= v@);
    if v.len() == 36 && dashed_from(v, 0) {
        assert(v@.subrange(0, 36) =~= v@);
        return Ok(canonical_from_dashed(v, 0));
    }
    if v.len() == 0 {
        return Err("empty identifier");
    }
    if has_unprintable(v) {
        return Err("contains whitespace, control or non-ASCII characters");
    }
    if v.len() != 32 && v.len() != 36 {
        return Err("expected 32 hex digits or a dashed UUID");
    }
    Err("invalid hex digit or dash placement")
}

fn first_delim_exec(v: &Vec<char>, a: usize) -> (k: usize)
    requires
        a <= v.len(),
    ensures
        a + k <= v.len(),
        k == first_delim(v@.skip(a as int)),
{
    let mut i: usize = a;
    while i < v.len()
        invariant
            a <= i <= v.len(),
            first_delim(v@.skip(a as int)) == (i - a) + first_delim(v@.skip(i as int)),
        decreases v.len() - i,
    {
        assert(v@.skip(i as int)[0] == v@[i as int]);
        if v[i] == '?' || v[i] == '#' {
            return i - a;
        }
        assert(v@.skip(i as int).drop_first() =~= v@.skip(i + 1));
        i = i + 1;
    }
    assert(v@.skip(i as int).len() == 0);
    i - a
}

fn segment_start_exec(v: &Vec<char>, a: usize, b: usize) -> (k: usize)
    requires
        a <= b <= v.len(),
    ensures
        k <= b - a,
        k == segment_start(v@.subrange(a as int, b as int)),
{
    let mut j: usize = b;
    while j > a
        invariant
            a <= j <= b <= v.len(),
            segment_start(v@.subrange(a as int, b as int)) == segment_start(
                v@.subrange(a as int, j as int),
            ),
        decreases j - a,
    {
        let p = Ghost(v@.subrange(a as int, j as int));
        assert(p@.last() == v@[j - 1]);
        if v[j - 1] == '/' {
            return j - a;
        }
        assert(p@.drop_last() =~= v@.subrange(a as int, j - 1));
        j = j - 1;
    }
    0
}

/// The identifier at the end of the segment `v[a..b]`.
fn segment_id_exec(v: &Vec<char>, a: usize, b: usize) -> (r: Option<Vec<char>>)
    requires
        a <= b <= v.len(),
    ensures
        match r {
            Some(c) => segment_id(v@.subrange(a as int, b as int)) == Some(c@),
            None => segment_id(v@.subrange(a as int, b as int)) is None,
        },
{
    let ghost seg = v@.subrange(a as int, b as int);
    let n = b - a;
    if n >= 32 {
        let s32 = sub_vec(v, b - 32, b);
        let hex = all_hex_from(&s32, 0);
        assert(s32@.skip(0) =~= s32@);
        assert(seg.skip(n - 32) =~= s32@);
        let boundary = n == 32 || v[b - 33] == '-';
        if n > 32 {
            assert(seg[n - 33] == v@[b - 33]);
        }
        if hex && boundary {
            let c = canonical_from_digits(&s32, 0);
            assert(s32@.subrange(0, 32) =~= s32@);
            return Some(c);
        }
    }
    if n >= 36 {
        let s36 = sub_vec(v, b - 36, b);
        assert(s36@.skip(0) =~= s36@);
        assert(seg.skip(n - 36) =~= s36@);
        let dashed = dashed_from(&s36, 0);
        let boundary = n == 36 || v[b - 37] == '-';
        if n > 36 {
            assert(seg[n - 37] == v@[b - 37]);
        }
        if dashed && boundary {
            let c = canonical_from_dashed(&s36, 0);
            assert(s36@.subrange(0, 36) =~= s36@);
            return Some(c);
        }
    }
    None
}

/// Whether the text starts with a URL scheme, and the scheme's length.
fn scheme_len(v: &Vec<char>) -> (r: Option<usize>)
    ensures
        match r {
            Some(k) => k <= v.len() && url_rest(v@) == Some(v@.skip(k as int)),
            None => url_rest(v@) is None,
        },
{
    let https = chars_of("https://");
    if starts_with(v, &https) {
        return Some(https.len());
    }
    let http = chars_of("http://");
    if starts_with(v, &http) {
        return Some(http.len());
    }
    None
}

/// Core of every `from_url_or_id`.
fn url_or_id_chars(v: &Vec<char>) -> (r: Result<Vec<char>, IdError>)
    ensures
        match r {
            Ok(c) => url_or_id(v@) == Some(c@),
            Err(IdError::InvalidId { reason }) => url_or_id(v@) is None && url_rest(v@) is None
                && reason@ == strict_reason(v@),
            Err(IdError::InvalidUrl(u)) => url_or_id(v@) is None && url_rest(v@) is Some && u@
                == v@,
        },
{
    match strict_chars(v) {
        Ok(c) => Ok(c),
        Err(reason) => {
            match scheme_len(v) {
                None => Err(IdError::InvalidId { reason }),
                Some(k) => {
                    let q = first_delim_exec(v, k);
                    let ghost rest = v@.skip(k as int);
                    let ghost path = rest.take(q as int);
                    assert(path =~= v@.subrange(k as int, (k + q) as int));
                    let st = segment_start_exec(v, k, k + q);
                    assert(path.skip(st as int) =~= v@.subrange(k + st, (k + q) as int));
                    match segment_id_exec(v, k + st, k + q) {
                        Some(c) => Ok(c),
                        None => Err(IdError::InvalidUrl(string_of(v))),
                    }
                },
            }
        },
    }
}

fn strict_only(v: &Vec<char>) -> (r: Result<Vec<char>, IdError>)
    ensures
        match r {
            Ok(c) => strict_id(v@) == Some(c@),
            Err(IdError::InvalidId { reason }) => strict_id(v@) is None && reason@ == strict_reason(
                v@,
            ),
            Err(IdError::InvalidUrl(_)) => false,
        },
{
    match strict_chars(v) {
        Ok(c) => Ok(c),
        Err(reason) => Err(IdError::InvalidId { reason }),
    }
}

// === Identifier types ======================================================

/// A page identifier (canonical spelling).
#[derive(Debug)]
pub struct PageId(String);

/// A data source identifier.
#[derive(Debug)]
pub struct DataSourceId(String);

/// A database container identifier.
#[derive(Debug)]
pub struct DatabaseId(String);

/// A block identifier (every page is also a block).
#[derive(Debug)]
pub struct BlockId(String);

/// A user identifier.
#[derive(Debug)]
pub struct UserId(String);

impl View for PageId {
    type V = Seq<char>;

    closed spec fn view(&self) -> Seq<char> {
        self.0@
    }
}

impl View for DataSourceId {
    type V = Seq<char>;

    closed spec fn view(&self) -> Seq<char> {
        self.0@
    }
}

impl View for DatabaseId {
    type V = Seq<char>;

    closed spec fn view(&self) -> Seq<char> {
        self.0@
    }
}

impl View for BlockId {
    type V = Seq<char>;

    closed spec fn view(&self) -> Seq<char> {
        self.0@
    }
}

impl View for UserId {
    type V = Seq<char>;

    closed spec fn view(&self) -> Seq<char> {
        self.0@
    }
}

impl PageId {
    /// An independent copy of the identifier.
    pub fn duplicate(&self) -> (r: Self)
        ensures
            r@ == self@,
    {
        proof {
            use_type_invariant(self);
        }
        PageId(self.0.clone())
    }

    /// Whether two identifiers name the same object.
    pub fn same_as(&self, other: &Self) -> (b: bool)
        ensures
            b == (self@ == other@),
    {
        self.0 == other.0
    }

    #[verifier::type_invariant]
    closed spec fn inv(self) -> bool {
        is_canonical(self.0@)
    }

    /// Strict form only: 32 hex digits or a dashed UUID.
    pub fn parse(s: &str) -> (r: Result<Self, IdError>)
        ensures
            match r {
                Ok(id) => strict_id(s@) == Some(id@),
                Err(IdError::InvalidId { reason }) => strict_id(s@) is None && reason@
                    == strict_reason(s@),
                Err(IdError::InvalidUrl(_)) => false,
            },
    {
        let v = chars_of(s);
        match strict_only(&v) {
            Ok(c) => {
                proof {
                    lemma_url_or_id_canonical(v@);
                }
                Ok(PageId(string_of(&c)))
            },
            Err(e) => Err(e),
        }
    }

    /// Strict form, or a Notion URL that ends in an identifier.
    pub fn from_url_or_id(s: &str) -> (r: Result<Self, IdError>)
        ensures
            match r {
                Ok(id) => url_or_id(s@) == Some(id@),
                Err(IdError::InvalidId { reason }) => url_or_id(s@) is None && url_rest(s@) is None
                    && reason@ == strict_reason(s@),
                Err(IdError::InvalidUrl(u)) => url_or_id(s@) is None && url_rest(s@) is Some && u@
                    == s@,
            },
    {
        let v = chars_of(s);
        match url_or_id_chars(&v) {
            Ok(c) => {
                proof {
                    lemma_url_or_id_canonical(v@);
                }
                Ok(PageId(string_of(&c)))
            },
            Err(e) => Err(e),
        }
    }

    /// The canonical text.
    pub fn as_str(&self) -> (r: &str)
        ensures
            r@ == self@,
            is_canonical(r@),
    {
        proof {
            use_type_invariant(self);
        }
        self.0.as_str()
    }
}

impl DataSourceId {
    /// An independent copy of the identifier.
    pub fn duplicate(&self) -> (r: Self)
        ensures
            r@ == self@,
    {
        proof {
            use_type_invariant(self);
        }
        DataSourceId(self.0.clone())
    }

    /// Whether two identifiers name the same object.
    pub fn same_as(&self, other: &Self) -> (b: bool)
        ensures
            b == (self@ == other@),
    {
        self.0 == other.0
    }

    #[verifier::type_invariant]
    closed spec fn inv(self) -> bool {
        is_canonical(self.0@)
    }

    /// Strict form only: 32 hex digits or a dashed UUID.
    pub fn parse(s: &str) -> (r: Result<Self, IdError>)
        ensures
            match r {
                Ok(id) => strict_id(s@) == Some(id@),
                Err(IdError::InvalidId { reason }) => strict_id(s@) is None && reason@
                    == strict_reason(s@),
                Err(IdError::InvalidUrl(_)) => false,
            },
    {
        let v = chars_of(s);
        match strict_only(&v) {
            Ok(c) => {
                proof {
                    lemma_url_or_id_canonical(v@);
                }
                Ok(DataSourceId(string_of(&c)))
            },
            Err(e) => Err(e),
        }
    }

    /// Strict form, or a Notion URL that ends in an identifier.
    pub fn from_url_or_id(s: &str) -> (r: Result<Self, IdError>)
        ensures
            match r {
                Ok(id) => url_or_id(s@) == Some(id@),
                Err(IdError::InvalidId { reason }) => url_or_id(s@) is None && url_rest(s@) is None
                    && reason@ == strict_reason(s@),
                Err(IdError::InvalidUrl(u)) => url_or_id(s@) is None && url_rest(s@) is Some && u@
                    == s@,
            },
    {
        let v = chars_of(s);
        match url_or_id_chars(&v) {
            Ok(c) => {
                proof {
                    lemma_url_or_id_canonical(v@);
                }
                Ok(DataSourceId(string_of(&c)))
            },
            Err(e) => Err(e),
        }
    }

    /// The canonical text.
    pub fn as_str(&self) -> (r: &str)
        ensures
            r@ == self@,
            is_canonical(r@),
    {
        proof {
            use_type_invariant(self);
        }
        self.0.as_str()
    }
}

impl DatabaseId {
    /// An independent copy of the identifier.
    pub fn duplicate(&self) -> (r: Self)
        ensures
            r@ == self@,
    {
        proof {
            use_type_invariant(self);
        }
        DatabaseId(self.0.clone())
    }

    /// Whether two identifiers name the same object.
    pub fn same_as(&self, other: &Self) -> (b: bool)
        ensures
            b == (self@ == other@),
    {
        self.0 == other.0
    }

    #[verifier::type_invariant]
    closed spec fn inv(self) -> bool {
        is_canonical(self.0@)
    }

    /// Strict form only: 32 hex digits or a dashed UUID.
    pub fn parse(s: &str) -> (r: Result<Self, IdError>)
        ensures
            match r {
                Ok(id) => strict_id(s@) == Some(id@),
                Err(IdError::InvalidId { reason }) => strict_id(s@) is None && reason@
                    == strict_reason(s@),
                Err(IdError::InvalidUrl(_)) => false,
            },
    {
        let v = chars_of(s);
        match strict_only(&v) {
            Ok(c) => {
                proof {
                    lemma_url_or_id_canonical(v@);
                }
                Ok(DatabaseId(string_of(&c)))
            },
            Err(e) => Err(e),
        }
    }

    /// Strict form, or a Notion URL that ends in an identifier.
    pub fn from_url_or_id(s: &str) -> (r: Result<Self, IdError>)
        ensures
            match r {
                Ok(id) => url_or_id(s@) == Some(id@),
                Err(IdError::InvalidId { reason }) => url_or_id(s@) is None && url_rest(s@) is None
                    && reason@ == strict_reason(s@),
                Err(IdError::InvalidUrl(u)) => url_or_id(s@) is None && url_rest(s@) is Some && u@
                    == s@,
            },
    {
        let v = chars_of(s);
        match url_or_id_chars(&v) {
            Ok(c) => {
                proof {
                    lemma_url_or_id_canonical(v@);
                }
                Ok(DatabaseId(string_of(&c)))
            },
            Err(e) => Err(e),
        }
    }

    /// The canonical text.
    pub fn as_str(&self) -> (r: &str)
        ensures
            r@ == self@,
            is_canonical(r@),
    {
        proof {
            use_type_invariant(self);
        }
        self.0.as_str()
    }
}

impl BlockId {
    /// An independent copy of the identifier.
    pub fn duplicate(&self) -> (r: Self)
        ensures
            r@ == self@,
    {
        proof {
            use_type_invariant(self);
        }
        BlockId(self.0.clone())
    }

    /// Whether two identifiers name the same object.
    pub fn same_as(&self, other: &Self) -> (b: bool)
        ensures
            b == (self@ == other@),
    {
        self.0 == other.0
    }

    #[verifier::type_invariant]
    closed spec fn inv(self) -> bool {
        is_canonical(self.0@)
    }

    /// Strict form only: 32 hex digits or a dashed UUID.
    pub fn parse(s: &str) -> (r: Result<Self, IdError>)
        ensures
            match r {
                Ok(id) => strict_id(s@) == Some(id@),
                Err(IdError::InvalidId { reason }) => strict_id(s@) is None && reason@
                    == strict_reason(s@),
                Err(IdError::InvalidUrl(_)) => false,
            },
    {
        let v = chars_of(s);
        match strict_only(&v) {
            Ok(c) => {
                proof {
                    lemma_url_or_id_canonical(v@);
                }
                Ok(BlockId(string_of(&c)))
            },
            Err(e) => Err(e),
        }
    }

    /// Strict form, or a Notion URL that ends in an identifier.
    pub fn from_url_or_id(s: &str) -> (r: Result<Self, IdError>)
        ensures
            match r {
                Ok(id) => url_or_id(s@) == Some(id@),
                Err(IdError::InvalidId { reason }) => url_or_id(s@) is None && url_rest(s@) is None
                    && reason@ == strict_reason(s@),
                Err(IdError::InvalidUrl(u)) => url_or_id(s@) is None && url_rest(s@) is Some && u@
                    == s@,
            },
    {
        let v = chars_of(s);
        match url_or_id_chars(&v) {
            Ok(c) => {
                proof {
                    lemma_url_or_id_canonical(v@);
                }
                Ok(BlockId(string_of(&c)))
            },
            Err(e) => Err(e),
        }
    }

    /// The canonical text.
    pub fn as_str(&self) -> (r: &str)
        ensures
            r@ == self@,
            is_canonical(r@),
    {
        proof {
            use_type_invariant(self);
        }
        self.0.as_str()
    }
}

impl UserId {
    /// An independent copy of the identifier.
    pub fn duplicate(&self) -> (r: Self)
        ensures
            r@ == self@,
    {
        proof {
            use_type_invariant(self);
        }
        UserId(self.0.clone())
    }

    /// Whether two identifiers name the same object.
    pub fn same_as(&self, other: &Self) -> (b: bool)
        ensures
            b == (self@ == other@),
    {
        self.0 == other.0
    }

    #[verifier::type_invariant]
    closed spec fn inv(self) -> bool {
        is_canonical(self.0@)
    }

    /// Strict form only: 32 hex digits or a dashed UUID.
    pub fn parse(s: &str) -> (r: Result<Self, IdError>)
        ensures
            match r {
                Ok(id) => strict_id(s@) == Some(id@),
                Err(IdError::InvalidId { reason }) => strict_id(s@) is None && reason@
                    == strict_reason(s@),
                Err(IdError::InvalidUrl(_)) => false,
            },
    {
        let v = chars_of(s);
        match strict_only(&v) {
            Ok(c) => {
                proof {
                    lemma_url_or_id_canonical(v@);
                }
                Ok(UserId(string_of(&c)))
            },
            Err(e) => Err(e),
        }
    }

    /// Strict form, or a Notion URL that ends in an identifier.
    pub fn from_url_or_id(s: &str) -> (r: Result<Self, IdError>)
        ensures
            match r {
                Ok(id) => url_or_id(s@) == Some(id@),
                Err(IdError::InvalidId { reason }) => url_or_id(s@) is None && url_rest(s@) is None
                    && reason@ == strict_reason(s@),
                Err(IdError::InvalidUrl(u)) => url_or_id(s@) is None && url_rest(s@) is Some && u@
                    == s@,
            },
    {
        let v = chars_of(s);
        match url_or_id_chars(&v) {
            Ok(c) => {
                proof {
                    lemma_url_or_id_canonical(v@);
                }
                Ok(UserId(string_of(&c)))
            },
            Err(e) => Err(e),
        }
    }

    /// The canonical text.
    pub fn as_str(&self) -> (r: &str)
        ensures
            r@ == self@,
            is_canonical(r@),
    {
        proof {
            use_type_invariant(self);
        }
        self.0.as_str()
    }
}

} // verus!
