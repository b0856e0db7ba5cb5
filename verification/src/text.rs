//! Character-level helpers shared by the parsers and message builders.
//!
//! Strings are modelled by their `Seq<char>` views. Work is done on
//! `Vec<char>` copies, which keeps every loop index a plain `usize`.

use vstd::prelude::*;

verus! {

// === Specifications ========================================================

pub open spec fn is_ascii_upper(c: char) -> bool {
    65 <= (c as u32) && (c as u32) <= 90
}

pub open spec fn is_ascii_digit(c: char) -> bool {
    48 <= (c as u32) && (c as u32) <= 57
}

/// `char::to_ascii_lowercase`: only `A..=Z` change.
pub open spec fn lower_char(c: char) -> char {
    if is_ascii_upper(c) {
        ((c as u32) + 32) as char
    } else {
        c
    }
}

/// `str::to_ascii_lowercase` on a whole sequence.
pub open spec fn lower_seq(s: Seq<char>) -> Seq<char> {
    Seq::new(s.len(), |i: int| lower_char(s[i]))
}

pub open spec fn is_ascii_lower(c: char) -> bool {
    97 <= (c as u32) && (c as u32) <= 122
}

/// `char::to_ascii_uppercase`: only `a..=z` change.
pub open spec fn upper_char(c: char) -> char {
    if is_ascii_lower(c) {
        ((c as u32) - 32) as char
    } else {
        c
    }
}

/// `str::to_ascii_uppercase` on a whole sequence.
pub open spec fn upper_seq(s: Seq<char>) -> Seq<char> {
    Seq::new(s.len(), |i: int| upper_char(s[i]))
}

/// Lower-casing forgets an upper-casing before it.
pub proof fn lemma_lower_upper(s: Seq<char>)
    ensures
        lower_seq(upper_seq(s)) == lower_seq(s),
{
    assert forall|i: int| 0 <= i < s.len() implies lower_char(upper_char(s[i])) == lower_char(
        s[i],
    ) by {
        let c = s[i];
        if is_ascii_lower(c) {
            let u = ((c as u32) - 32) as char;
            assert(u as u32 == (c as u32) - 32);
            assert(is_ascii_upper(u));
            let x: u32 = ((u as u32) + 32) as u32;
            assert(x == c as u32);
            vstd::utf8::char_u32_cast(c, x);
        }
    }
    assert(lower_seq(upper_seq(s)) =~= lower_seq(s));
}

/// `p` occurs somewhere inside `s` (`str::contains`).
pub open spec fn has_sub(s: Seq<char>, p: Seq<char>) -> bool {
    exists|i: int| 0 <= i && i + p.len() <= s.len() && #[trigger] s.subrange(i, i + p.len()) == p
}

/// `s` begins with `p` (`str::starts_with`).
pub open spec fn has_prefix(s: Seq<char>, p: Seq<char>) -> bool {
    p.len() <= s.len() && s.subrange(0, p.len() as int) == p
}

/// ASCII case-insensitive equality (`str::eq_ignore_ascii_case`).
pub open spec fn eq_ignore_case(a: Seq<char>, b: Seq<char>) -> bool {
    lower_seq(a) == lower_seq(b)
}

pub open spec fn digit_char(d: nat) -> char {
    ((d % 10) + 48) as u8 as char
}

/// Decimal rendering of a natural number, as `Display` prints it.
pub open spec fn decimal(n: nat) -> Seq<char>
    decreases n,
{
    if n < 10 {
        seq![digit_char(n)]
    } else {
        decimal(n / 10).push(digit_char(n % 10))
    }
}

/// Value of a sequence of ASCII digits.
pub open spec fn digits_value(s: Seq<char>) -> nat
    decreases s.len(),
{
    if s.len() == 0 {
        0
    } else {
        digits_value(s.drop_last()) * 10 + ((s.last() as u32) - 48) as nat
    }
}

pub open spec fn all_digits(s: Seq<char>) -> bool {
    forall|i: int| 0 <= i < s.len() ==> is_ascii_digit(#[trigger] s[i])
}

/// What `str::parse::<u64>` accepts: an optional `+` followed by at
/// least one ASCII digit, with a value that fits in 64 bits.
pub open spec fn parse_u64_spec(s: Seq<char>) -> Option<u64> {
    let body = if s.len() > 0 && s[0] == '+' { s.drop_first() } else { s };
    if body.len() > 0 && all_digits(body) && digits_value(body) <= u64::MAX {
        Some(digits_value(body) as u64)
    } else {
        None
    }
}

/// Elements joined by a separator (`[&str]::join`).
pub open spec fn join_seqs(parts: Seq<Seq<char>>, sep: Seq<char>) -> Seq<char>
    decreases parts.len(),
{
    if parts.len() == 0 {
        Seq::empty()
    } else if parts.len() == 1 {
        parts[0]
    } else {
        join_seqs(parts.drop_last(), sep) + sep + parts.last()
    }
}

/// A substring of `s` is a substring of `s` with text added on either
/// side.
pub proof fn lemma_has_sub_extend(s: Seq<char>, t: Seq<char>, p: Seq<char>)
    requires
        has_sub(s, p),
    ensures
        has_sub(s + t, p),
        has_sub(t + s, p),
{
    let i = choose|i: int| 0 <= i && i + p.len() <= s.len() && #[trigger] s.subrange(i, i + p.len()) == p;
    assert((s + t).subrange(i, i + p.len()) =~= s.subrange(i, i + p.len()));
    assert((t + s).subrange(t.len() + i, t.len() + i + p.len()) =~= s.subrange(i, i + p.len()));
}

/// A text holds itself.
pub proof fn lemma_has_sub_self(p: Seq<char>)
    ensures
        has_sub(p, p),
{
    let z: int = 0;
    assert(p.subrange(z, z + p.len()) =~= p);
}

/// Every part of a join occurs in it.
pub proof fn lemma_join_has_part(parts: Seq<Seq<char>>, sep: Seq<char>, i: int)
    requires
        0 <= i < parts.len(),
    ensures
        has_sub(join_seqs(parts, sep), parts[i]),
    decreases parts.len(),
{
    if parts.len() == 1 {
        lemma_has_sub_self(parts[0]);
    } else if i == parts.len() - 1 {
        lemma_has_sub_self(parts[i]);
        lemma_has_sub_extend(parts[i], join_seqs(parts.drop_last(), sep) + sep, parts[i]);
    } else {
        lemma_join_has_part(parts.drop_last(), sep, i);
        assert(parts.drop_last()[i] == parts[i]);
        lemma_has_sub_extend(join_seqs(parts.drop_last(), sep), sep + parts.last(), parts[i]);
        assert(join_seqs(parts.drop_last(), sep) + sep + parts.last() =~= join_seqs(
            parts.drop_last(),
            sep,
        ) + (sep + parts.last()));
    }
}

/// A join begins with its first part.
pub proof fn lemma_join_starts_with_first(parts: Seq<Seq<char>>, sep: Seq<char>)
    requires
        parts.len() > 0,
    ensures
        join_seqs(parts, sep).len() >= parts[0].len(),
        join_seqs(parts, sep).subrange(0, parts[0].len() as int) == parts[0],
    decreases parts.len(),
{
    if parts.len() == 1 {
        assert(parts[0].subrange(0, parts[0].len() as int) =~= parts[0]);
    } else {
        let init = join_seqs(parts.drop_last(), sep);
        lemma_join_starts_with_first(parts.drop_last(), sep);
        assert(parts.drop_last()[0] == parts[0]);
        assert((init + sep + parts.last()).subrange(0, parts[0].len() as int) =~= init.subrange(
            0,
            parts[0].len() as int,
        ));
    }
}

/// A text that holds a non-empty part is not empty.
pub proof fn lemma_has_sub_nonempty(s: Seq<char>, p: Seq<char>)
    requires
        has_sub(s, p),
        p.len() > 0,
    ensures
        s.len() > 0,
{
}

// === Trusted access to std ================================================

/// `String::push`: appends one character.
#[verifier::external_body]
pub(crate) fn push_char(s: &mut String, c: char)
    ensures
        final(s)@ == old(s)@.push(c),
{
    s.push(c);
}

// === Conversions ===========================================================

/// The characters of a string slice, in order.
pub fn chars_of(s: &str) -> (v: Vec<char>)
    ensures
        v@ == s@,
{
    let n = s.unicode_len();
    let mut v: Vec<char> = Vec::new();
    let mut i: usize = 0;
    while i < n
        invariant
            n == s@.len(),
            i <= n,
            v@ == s@.subrange(0, i as int),
        decreases n - i,
    {
        v.push(s.get_char(i));
        i = i + 1;
        assert(v@ =~= s@.subrange(0, i as int));
    }
    assert(v@ =~= s@);
    v
}

/// A `String` holding exactly the given characters.
pub fn string_of(v: &Vec<char>) -> (s: String)
    ensures
        s@ == v@,
{
    let mut s = String::new();
    let mut i: usize = 0;
    while i < v.len()
        invariant
            i <= v.len(),
            s@ == v@.subrange(0, i as int),
        decreases v.len() - i,
    {
        push_char(&mut s, v[i]);
        i = i + 1;
        assert(s@ =~= v@.subrange(0, i as int));
    }
    assert(s@ =~= v@);
    s
}

/// A `String` copy of a string slice.
pub fn owned(s: &str) -> (r: String)
    ensures
        r@ == s@,
{
    let v = chars_of(s);
    string_of(&v)
}

/// Concatenation of two strings into a new one.
pub fn concat(a: &str, b: &str) -> (r: String)
    ensures
        r@ == a@ + b@,
{
    let mut r = owned(a);
    r.append(b);
    r
}

/// The characters `v[a..b]` as a new vector.
pub fn sub_vec(v: &Vec<char>, a: usize, b: usize) -> (r: Vec<char>)
    requires
        a <= b <= v.len(),
    ensures
        r@ == v@.subrange(a as int, b as int),
{
    let mut r: Vec<char> = Vec::new();
    let mut i: usize = a;
    while i < b
        invariant
            a <= i <= b <= v.len(),
            r@ == v@.subrange(a as int, i as int),
        decreases b - i,
    {
        r.push(v[i]);
        i = i + 1;
        assert(r@ =~= v@.subrange(a as int, i as int));
    }
    r
}

// === Queries ===============================================================

/// ASCII lower-casing, character by character.
pub fn lowercase(s: &Vec<char>) -> (r: Vec<char>)
    ensures
        r@ == lower_seq(s@),
{
    let mut r: Vec<char> = Vec::new();
    let mut i: usize = 0;
    while i < s.len()
        invariant
            i <= s.len(),
            r@ =~= Seq::new(i as nat, |k: int| lower_char(s@[k])),
        decreases s.len() - i,
    {
        let c = s[i];
        let cu = c as u32;
        let l = if 65 <= cu && cu <= 90 {
            let b = cu as u8;
            assert(b as u32 == cu);
            (b + 32) as char
        } else {
            c
        };
        assert(l == lower_char(s@[i as int]));
        r.push(l);
        i = i + 1;
    }
    r
}

/// Whether `p` matches `s` starting at position `at`.
pub fn matches_at(s: &Vec<char>, p: &Vec<char>, at: usize) -> (b: bool)
    requires
        at + p.len() <= s.len(),
    ensures
        b == (s@.subrange(at as int, at + p.len()) == p@),
{
    let mut k: usize = 0;
    while k < p.len()
        invariant
            k <= p.len(),
            at + p.len() <= s.len(),
            forall|j: int| 0 <= j < k ==> s@[at + j] == p@[j],
        decreases p.len() - k,
    {
        if s[at + k] != p[k] {
            assert(s@.subrange(at as int, at + p.len())[k as int] != p@[k as int]);
            return false;
        }
        k = k + 1;
    }
    assert(s@.subrange(at as int, at + p.len()) =~= p@);
    true
}

/// Substring search.
pub fn contains(s: &Vec<char>, p: &Vec<char>) -> (b: bool)
    ensures
        b == has_sub(s@, p@),
{
    if p.len() == 0 {
        assert(s@.subrange(0, 0 + p@.len() as int) =~= p@);
        return true;
    }
    if p.len() > s.len() {
        return false;
    }
    let last = s.len() - p.len();
    let mut i: usize = 0;
    while i <= last
        invariant
            last + p.len() == s.len(),
            p.len() >= 1,
            i <= last + 1,
            forall|j: int| 0 <= j < i ==> #[trigger] s@.subrange(j, j + p.len()) != p@,
        decreases last + 1 - i,
    {
        if matches_at(s, p, i) {
            return true;
        }
        i = i + 1;
    }
    false
}

/// Substring search for a string slice.
pub fn contains_str(s: &Vec<char>, p: &str) -> (b: bool)
    ensures
        b == has_sub(s@, p@),
{
    let pv = chars_of(p);
    contains(s, &pv)
}

pub fn starts_with(s: &Vec<char>, p: &Vec<char>) -> (b: bool)
    ensures
        b == has_prefix(s@, p@),
{
    if p.len() > s.len() {
        return false;
    }
    matches_at(s, p, 0)
}

pub fn starts_with_str(s: &str, p: &str) -> (b: bool)
    ensures
        b == has_prefix(s@, p@),
{
    let sv = chars_of(s);
    let pv = chars_of(p);
    starts_with(&sv, &pv)
}

/// Equality of two strings.
pub fn text_eq(a: &str, b: &str) -> (r: bool)
    ensures
        r == (a@ == b@),
{
    let av = chars_of(a);
    let bv = chars_of(b);
    if av.len() != bv.len() {
        return false;
    }
    let m = matches_at(&av, &bv, 0);
    assert(av@.subrange(0, bv@.len() as int) =~= av@);
    m
}

pub fn eq_ignore_ascii_case(a: &str, b: &str) -> (r: bool)
    ensures
        r == eq_ignore_case(a@, b@),
{
    let av = lowercase(&chars_of(a));
    let bv = lowercase(&chars_of(b));
    if av.len() != bv.len() {
        assert(lower_seq(a@).len() != lower_seq(b@).len());
        return false;
    }
    let same = matches_at(&av, &bv, 0);
    assert(av@.subrange(0, bv@.len() as int) =~= av@);
    same
}

// === Numbers ===============================================================

proof fn lemma_decimal_len(n: nat)
    ensures
        decimal(n).len() >= 1,
    decreases n,
{
    if n >= 10 {
        lemma_decimal_len(n / 10);
    }
}

/// Decimal text of an unsigned integer.
pub fn decimal_string(n: u64) -> (s: String)
    ensures
        s@ == decimal(n as nat),
{
    // Digits are produced least significant first, then reversed.
    let mut digits: Vec<char> = Vec::new();
    let mut m: u64 = n;
    let ghost mut done: Seq<char> = Seq::empty();
    while m >= 10
        invariant
            decimal(n as nat) == decimal(m as nat) + done,
            digits@ == done.reverse(),
        decreases m,
    {
        let c = ((m % 10) as u8 + 48) as char;
        proof {
            assert(decimal(m as nat) == decimal((m / 10) as nat).push(c));
            let old_done = done;
            done = seq![c] + done;
            assert(decimal((m / 10) as nat).push(c) + old_done =~= decimal((m / 10) as nat) + done);
        }
        digits.push(c);
        assert(digits@ =~= done.reverse());
        m = m / 10;
    }
    let c = (m as u8 + 48) as char;
    proof {
        assert(decimal(m as nat) == seq![c]);
        done = seq![c] + done;
    }
    digits.push(c);
    assert(digits@ =~= done.reverse());
    assert(decimal(n as nat) =~= done);
    let mut out = String::new();
    let mut k: usize = digits.len();
    while k > 0
        invariant
            k <= digits.len(),
            digits@ == done.reverse(),
            done.len() == digits.len(),
            out@ =~= done.subrange(0, (digits.len() - k) as int),
        decreases k,
    {
        k = k - 1;
        push_char(&mut out, digits[k]);
        assert(out@ =~= done.subrange(0, (digits.len() - k) as int));
    }
    assert(out@ =~= done);
    out
}

proof fn lemma_overflow(body: Seq<char>, k: int, acc: nat, d: nat)
    requires
        0 <= k < body.len(),
        digits_value(body.subrange(0, k + 1)) == acc * 10 + d,
        acc * 10 + d > u64::MAX,
    ensures
        !(all_digits(body) && digits_value(body) <= u64::MAX),
{
    if all_digits(body) {
        lemma_digits_value_mono(body, k + 1);
    }
}

/// Parse an unsigned decimal as `str::parse::<u64>` does.
pub fn parse_u64(s: &Vec<char>) -> (r: Option<u64>)
    ensures
        r == parse_u64_spec(s@),
{
    let start: usize = if s.len() > 0 && s[0] == '+' { 1 } else { 0 };
    let ghost body = s@.subrange(start as int, s@.len() as int);
    assert(body =~= (if s@.len() > 0 && s@[0] == '+' { s@.drop_first() } else { s@ }));
    assert(parse_u64_spec(s@) == (if body.len() > 0 && all_digits(body) && digits_value(body)
        <= u64::MAX {
        Some(digits_value(body) as u64)
    } else {
        None
    }));
    if start >= s.len() {
        return None;
    }
    let mut acc: u64 = 0;
    let mut i: usize = start;
    assert(body.subrange(0, 0) =~= Seq::<char>::empty());
    while i < s.len()
        invariant
            start <= i <= s.len(),
            body == s@.subrange(start as int, s@.len() as int),
            parse_u64_spec(s@) == (if body.len() > 0 && all_digits(body) && digits_value(body)
                <= u64::MAX {
                Some(digits_value(body) as u64)
            } else {
                None
            }),
            all_digits(body.subrange(0, i - start)),
            acc as nat == digits_value(body.subrange(0, i - start)),
        decreases s.len() - i,
    {
        let cu = s[i] as u32;
        let k: usize = i - start;
        assert(body[k as int] == s@[i as int]);
        if cu < 48 || cu > 57 {
            assert(!is_ascii_digit(body[k as int]));
            assert(!all_digits(body));
            return None;
        }
        let d = (cu - 48) as u64;
        let ghost next = body.subrange(0, k + 1);
        assert(next.drop_last() =~= body.subrange(0, k as int));
        assert(digits_value(next) == acc * 10 + d);
        if acc > (u64::MAX - d) / 10 {
            proof {
                assert(acc * 10 + d > u64::MAX) by (nonlinear_arith)
                    requires acc > (u64::MAX - d) / 10, d <= 9;
                lemma_overflow(body, k as int, acc as nat, d as nat);
                assert(parse_u64_spec(s@) is None);
            }
            return None;
        }
        assert(acc * 10 + d <= u64::MAX) by (nonlinear_arith)
            requires acc <= (u64::MAX - d) / 10, d <= 9;
        acc = acc * 10 + d;
        i = i + 1;
        assert(all_digits(next));
    }
    assert(body.subrange(0, i - start) =~= body);
    Some(acc)
}

proof fn lemma_digits_value_mono(s: Seq<char>, k: int)
    requires
        0 <= k <= s.len(),
        all_digits(s),
    ensures
        digits_value(s.subrange(0, k)) <= digits_value(s),
    decreases s.len() - k,
{
    if k < s.len() {
        lemma_digits_value_mono(s, k + 1);
        let a = s.subrange(0, k + 1);
        assert(a.drop_last() =~= s.subrange(0, k));
        assert(is_ascii_digit(s[k]));
    } else {
        assert(s.subrange(0, k) =~= s);
    }
}

// === Joining ===============================================================

/// Join strings with a separator.
pub fn join(parts: &Vec<String>, sep: &str) -> (r: String)
    ensures
        r@ == join_seqs(parts@.map_values(|p: String| p@), sep@),
{
    let ghost views = parts@.map_values(|p: String| p@);
    let mut r = String::new();
    let mut i: usize = 0;
    while i < parts.len()
        invariant
            i <= parts.len(),
            views == parts@.map_values(|p: String| p@),
            r@ == join_seqs(views.subrange(0, i as int), sep@),
        decreases parts.len() - i,
    {
        let ghost before = r@;
        if i > 0 {
            r.append(sep);
        }
        r.append(parts[i].as_str());
        proof {
            let pre = views.subrange(0, i as int);
            let post = views.subrange(0, i + 1);
            assert(post.drop_last() =~= pre);
            if i == 0 {
                assert(post =~= seq![views[0]]);
            }
        }
        i = i + 1;
    }
    assert(views.subrange(0, parts.len() as int) =~= views);
    r
}

// === Whitespace ============================================================

/// `char::is_whitespace`: the Unicode `White_Space` characters.
pub open spec fn is_space(c: char) -> bool {
    let n = c as u32;
    ||| 0x9 <= n && n <= 0xd
    ||| n == 0x20 || n == 0x85 || n == 0xa0 || n == 0x1680
    ||| 0x2000 <= n && n <= 0x200a
    ||| n == 0x2028 || n == 0x2029 || n == 0x202f || n == 0x205f || n == 0x3000
}

pub open spec fn trim_start(s: Seq<char>) -> Seq<char>
    decreases s.len(),
{
    if s.len() > 0 && is_space(s[0]) {
        trim_start(s.drop_first())
    } else {
        s
    }
}

pub open spec fn trim_end(s: Seq<char>) -> Seq<char>
    decreases s.len(),
{
    if s.len() > 0 && is_space(s.last()) {
        trim_end(s.drop_last())
    } else {
        s
    }
}

/// `str::trim`: whitespace removed at both ends.
pub open spec fn trimmed(s: Seq<char>) -> Seq<char> {
    trim_end(trim_start(s))
}

/// Text without its leading and trailing whitespace.
pub fn trim(s: &str) -> (r: String)
    ensures
        r@ == trimmed(s@),
{
    let v = chars_of(s);
    let n = v.len();
    let mut i: usize = 0;
    assert(v@.subrange(0, n as int) =~= v@);
    while i < n && is_space_exec(v[i])
        invariant
            i <= n,
            n == v@.len(),
            v@ == s@,
            trim_start(v@) == trim_start(v@.subrange(i as int, n as int)),
        decreases n - i,
    {
        assert(v@.subrange(i as int, n as int).drop_first() =~= v@.subrange(i + 1, n as int));
        i = i + 1;
    }
    assert(trim_start(v@.subrange(i as int, n as int)) == v@.subrange(i as int, n as int));
    let mut j: usize = n;
    while j > i && is_space_exec(v[j - 1])
        invariant
            i <= j <= n,
            n == v@.len(),
            trim_end(v@.subrange(i as int, n as int)) == trim_end(v@.subrange(i as int, j as int)),
        decreases j - i,
    {
        assert(v@.subrange(i as int, j as int).drop_last() =~= v@.subrange(i as int, j - 1));
        j = j - 1;
    }
    let t = sub_vec(&v, i, j);
    string_of(&t)
}

/// `char::is_whitespace`, executable.
pub fn is_space_exec(c: char) -> (b: bool)
    ensures
        b == is_space(c),
{
    let n = c as u32;
    (0x9 <= n && n <= 0xd) || n == 0x20 || n == 0x85 || n == 0xa0 || n == 0x1680 || (0x2000 <= n
        && n <= 0x200a) || n == 0x2028 || n == 0x2029 || n == 0x202f || n == 0x205f || n == 0x3000
}

} // verus!
