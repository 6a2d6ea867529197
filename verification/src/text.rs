//! Character-level text model shared by the message parsers.
//!
//! Every string is modelled as its sequence of Unicode scalar values
//! (`Seq<char>`). Trimming and tokenising follow the standard library's
//! `char::is_whitespace` classification; case folding is ASCII only.
use vstd::prelude::*;

verus! {

/// A class of characters that can be stripped from both ends of a string.
#[derive(Clone, Copy, PartialEq, Eq, Debug)]
pub enum CharClass {
    /// Unicode `White_Space` characters (what `char::is_whitespace` accepts).
    Whitespace,
    /// The angle brackets that WSJT uses around hashed callsigns.
    AngleBracket,
    /// Everything but ASCII letters and digits.
    NonAlphanumeric,
}

/// The Unicode `White_Space` property, as `char::is_whitespace` decides it.
pub open spec fn is_ws(c: char) -> bool {
    let n = c as u32;
    ||| (0x9 <= n && n <= 0xd)
    ||| n == 0x20
    ||| n == 0x85
    ||| n == 0xa0
    ||| n == 0x1680
    ||| (0x2000 <= n && n <= 0x200a)
    ||| n == 0x2028
    ||| n == 0x2029
    ||| n == 0x202f
    ||| n == 0x205f
    ||| n == 0x3000
}

pub open spec fn is_upper(c: char) -> bool {
    'A' <= c && c <= 'Z'
}

pub open spec fn is_lower(c: char) -> bool {
    'a' <= c && c <= 'z'
}

pub open spec fn is_digit(c: char) -> bool {
    '0' <= c && c <= '9'
}

pub open spec fn is_alpha(c: char) -> bool {
    is_upper(c) || is_lower(c)
}

pub open spec fn is_alnum(c: char) -> bool {
    is_alpha(c) || is_digit(c)
}

pub open spec fn in_class(k: CharClass, c: char) -> bool {
    match k {
        CharClass::Whitespace => is_ws(c),
        CharClass::AngleBracket => c == '<' || c == '>',
        CharClass::NonAlphanumeric => !is_alnum(c),
    }
}

/// ASCII upper-casing of one character; every other character is kept.
pub open spec fn upper_char(c: char) -> char {
    if is_lower(c) {
        ((c as u32) - 32) as char
    } else {
        c
    }
}

/// ASCII upper-casing of a string (`str::to_ascii_uppercase`).
pub open spec fn upper(s: Seq<char>) -> Seq<char> {
    s.map_values(|c: char| upper_char(c))
}

/// The string without its leading characters of class `k`.
pub open spec fn strip_start(s: Seq<char>, k: CharClass) -> Seq<char>
    decreases s.len(),
{
    if s.len() > 0 && in_class(k, s[0]) {
        strip_start(s.drop_first(), k)
    } else {
        s
    }
}

/// The string without its trailing characters of class `k`.
pub open spec fn strip_end(s: Seq<char>, k: CharClass) -> Seq<char>
    decreases s.len(),
{
    if s.len() > 0 && in_class(k, s.last()) {
        strip_end(s.drop_last(), k)
    } else {
        s
    }
}

/// `str::trim_matches` with the predicate of class `k`.
pub open spec fn strip(s: Seq<char>, k: CharClass) -> Seq<char> {
    strip_end(strip_start(s, k), k)
}

/// `str::trim`.
pub open spec fn trim(s: Seq<char>) -> Seq<char> {
    strip(s, CharClass::Whitespace)
}

/// The pending token `cur`, as a list of at most one word.
pub open spec fn flush(cur: Seq<char>) -> Seq<Seq<char>> {
    if cur.len() > 0 {
        seq![cur]
    } else {
        seq![]
    }
}

/// Whitespace-separated words of `s`, continuing a word `cur` already begun.
pub open spec fn split_ws(s: Seq<char>, cur: Seq<char>) -> Seq<Seq<char>>
    decreases s.len(),
{
    if s.len() == 0 {
        flush(cur)
    } else if is_ws(s[0]) {
        flush(cur) + split_ws(s.drop_first(), seq![])
    } else {
        split_ws(s.drop_first(), cur.push(s[0]))
    }
}

/// `str::split_whitespace`: the maximal runs of non-whitespace characters.
pub open spec fn words(s: Seq<char>) -> Seq<Seq<char>> {
    split_ws(s, seq![])
}

/// The character sequences held by a list of strings.
pub open spec fn string_views(s: Seq<String>) -> Seq<Seq<char>> {
    s.map_values(|x: String| x@)
}

/// Words joined with a separator (`[&str]::join(sep)`).
pub open spec fn join_with(ws: Seq<Seq<char>>, sep: Seq<char>) -> Seq<char>
    decreases ws.len(),
{
    if ws.len() == 0 {
        seq![]
    } else if ws.len() == 1 {
        ws[0]
    } else {
        join_with(ws.drop_last(), sep) + sep + ws.last()
    }
}

/// The character sequences held by a list of character vectors.
pub open spec fn views(v: Seq<Vec<char>>) -> Seq<Seq<char>> {
    v.map_values(|w: Vec<char>| w@)
}

pub open spec fn digit_value(c: char) -> int {
    (c as u32) - ('0' as u32)
}

pub open spec fn all_digits(s: Seq<char>) -> bool {
    forall|i: int| 0 <= i < s.len() ==> is_digit(#[trigger] s[i])
}

/// The value of a string of decimal digits.
pub open spec fn digits_value(s: Seq<char>) -> int
    decreases s.len(),
{
    if s.len() == 0 {
        0
    } else {
        digits_value(s.drop_last()) * 10 + digit_value(s.last())
    }
}

/// The integer that `str::parse` reads from `s` for a signed integer type
/// wide enough to hold it: an optional `+` or `-`, then at least one digit.
pub open spec fn parse_int(s: Seq<char>) -> Option<int> {
    if s.len() > 0 && (s[0] == '+' || s[0] == '-') {
        let d = s.drop_first();
        if d.len() > 0 && all_digits(d) {
            Some(if s[0] == '-' { -digits_value(d) } else { digits_value(d) })
        } else {
            None
        }
    } else if s.len() > 0 && all_digits(s) {
        Some(digits_value(s))
    } else {
        None
    }
}

/// `str::parse::<i8>`.
pub open spec fn parse_i8(s: Seq<char>) -> Option<i8> {
    match parse_int(s) {
        Some(v) => if -128 <= v && v <= 127 { Some(v as i8) } else { None },
        None => None,
    }
}

/// `str::parse::<i32>`.
pub open spec fn parse_i32(s: Seq<char>) -> Option<i32> {
    match parse_int(s) {
        Some(v) => if -0x8000_0000 <= v && v <= 0x7fff_ffff { Some(v as i32) } else { None },
        None => None,
    }
}

/// `str::parse::<u32>`: like a signed parse, but a leading `-` is refused.
pub open spec fn parse_u32(s: Seq<char>) -> Option<u32> {
    if s.len() > 0 && s[0] == '-' {
        None
    } else {
        match parse_int(s) {
            Some(v) => if 0 <= v && v <= 0xffff_ffff { Some(v as u32) } else { None },
            None => None,
        }
    }
}

pub open spec fn digit_char(d: int) -> char {
    (('0' as u32) + d) as char
}

/// A value of at most two digits written with a sign and zero padding to
/// three characters, as `format!("{v:+03}")` writes it.
pub open spec fn signed_two_digits(v: int) -> Seq<char> {
    let m = if v < 0 { -v } else { v };
    seq![if v < 0 { '-' } else { '+' }, digit_char(m / 10), digit_char(m % 10)]
}

/// The decimal digits of a natural number, most significant first.
pub open spec fn nat_decimal(n: nat) -> Seq<char>
    decreases n,
{
    if n < 10 {
        seq![digit_char(n as int)]
    } else {
        nat_decimal(n / 10) + seq![digit_char((n % 10) as int)]
    }
}

/// An integer written in decimal with a leading `-` when negative, as
/// `Display` writes integers.
pub open spec fn int_decimal(v: int) -> Seq<char> {
    if v < 0 {
        seq!['-'] + nat_decimal((-v) as nat)
    } else {
        nat_decimal(v as nat)
    }
}

proof fn lemma_digits_nonneg(s: Seq<char>)
    requires
        all_digits(s),
    ensures
        digits_value(s) >= 0,
    decreases s.len(),
{
    if s.len() > 0 {
        assert(all_digits(s.drop_last())) by {
            assert forall|i: int| 0 <= i < s.drop_last().len() implies is_digit(
                #[trigger] s.drop_last()[i],
            ) by {
                assert(s.drop_last()[i] == s[i]);
            }
        }
        lemma_digits_nonneg(s.drop_last());
        assert(is_digit(s.last()));
    }
}

pub proof fn lemma_upper_keeps_whitespace(c: char)
    ensures
        is_ws(upper_char(c)) == is_ws(c),
{
}

pub proof fn lemma_strip_start_upper(s: Seq<char>)
    ensures
        strip_start(upper(s), CharClass::Whitespace) == upper(strip_start(s, CharClass::Whitespace)),
    decreases s.len(),
{
    if s.len() > 0 {
        lemma_upper_keeps_whitespace(s[0]);
        assert(upper(s).drop_first() =~= upper(s.drop_first()));
        lemma_strip_start_upper(s.drop_first());
    }
}

pub proof fn lemma_strip_end_upper(s: Seq<char>)
    ensures
        strip_end(upper(s), CharClass::Whitespace) == upper(strip_end(s, CharClass::Whitespace)),
    decreases s.len(),
{
    if s.len() > 0 {
        lemma_upper_keeps_whitespace(s.last());
        assert(upper(s).drop_last() =~= upper(s.drop_last()));
        lemma_strip_end_upper(s.drop_last());
    }
}

/// Trimming and ASCII upper-casing commute.
pub proof fn lemma_trim_upper(s: Seq<char>)
    ensures
        trim(upper(s)) == upper(trim(s)),
{
    lemma_strip_start_upper(s);
    lemma_strip_end_upper(strip_start(s, CharClass::Whitespace));
}

/// Upper-casing twice is upper-casing once.
pub proof fn lemma_upper_idempotent(s: Seq<char>)
    ensures
        upper(upper(s)) == upper(s),
{
    assert(upper(upper(s)) =~= upper(s));
}

pub proof fn lemma_strip_start_shape(s: Seq<char>, k: CharClass)
    ensures
        strip_start(s, k).len() <= s.len(),
        strip_start(s, k) == s.subrange(s.len() - strip_start(s, k).len(), s.len() as int),
        strip_start(s, k).len() > 0 ==> !in_class(k, strip_start(s, k)[0]),
    decreases s.len(),
{
    if s.len() > 0 && in_class(k, s[0]) {
        lemma_strip_start_shape(s.drop_first(), k);
        let t = strip_start(s, k);
        assert(s.drop_first().subrange(
            s.drop_first().len() - t.len(),
            s.drop_first().len() as int,
        ) =~= s.subrange(s.len() - t.len(), s.len() as int));
    } else {
        assert(s.subrange(0, s.len() as int) =~= s);
    }
}

pub proof fn lemma_strip_end_shape(s: Seq<char>, k: CharClass)
    ensures
        strip_end(s, k).len() <= s.len(),
        strip_end(s, k) == s.subrange(0, strip_end(s, k).len() as int),
        strip_end(s, k).len() > 0 ==> !in_class(k, strip_end(s, k).last()),
    decreases s.len(),
{
    if s.len() > 0 && in_class(k, s.last()) {
        lemma_strip_end_shape(s.drop_last(), k);
        let t = strip_end(s, k);
        assert(s.drop_last().subrange(0, t.len() as int) =~= s.subrange(0, t.len() as int));
    } else {
        assert(s.subrange(0, s.len() as int) =~= s);
    }
}

/// Stripping a class twice is stripping it once.
pub proof fn lemma_strip_idempotent(s: Seq<char>, k: CharClass)
    ensures
        strip(strip(s, k), k) == strip(s, k),
{
    let u = strip_start(s, k);
    let t = strip_end(u, k);
    lemma_strip_start_shape(s, k);
    lemma_strip_end_shape(u, k);
    if t.len() > 0 {
        assert(t[0] == u[0]);
    }
    assert(strip_start(t, k) == t);
    assert(strip_end(t, k) == t);
}

/// Trimming and upper-casing a text that already is trimmed and upper-cased
/// changes nothing.
pub proof fn lemma_normalize_idempotent(s: Seq<char>)
    ensures
        upper(trim(upper(trim(s)))) == upper(trim(s)),
{
    lemma_trim_upper(trim(s));
    lemma_strip_idempotent(s, CharClass::Whitespace);
    lemma_upper_idempotent(trim(s));
}

/// ASCII lower-casing of one character; every other character is kept.
pub open spec fn lower_char(c: char) -> char {
    if is_upper(c) {
        ((c as u32) + 32) as char
    } else {
        c
    }
}

/// ASCII lower-casing of a string (`str::to_ascii_lowercase`).
pub open spec fn lower(s: Seq<char>) -> Seq<char> {
    s.map_values(|c: char| lower_char(c))
}

/// Lexicographic order of strings by code point (the order of `str`).
pub open spec fn lex_lt(a: Seq<char>, b: Seq<char>) -> bool
    decreases a.len(),
{
    if a.len() == 0 {
        b.len() > 0
    } else if b.len() == 0 {
        false
    } else if a[0] < b[0] {
        true
    } else if a[0] == b[0] {
        lex_lt(a.drop_first(), b.drop_first())
    } else {
        false
    }
}

pub proof fn lemma_lex_irreflexive(a: Seq<char>)
    ensures
        !lex_lt(a, a),
    decreases a.len(),
{
    if a.len() > 0 {
        lemma_lex_irreflexive(a.drop_first());
    }
}

pub proof fn lemma_lex_total(a: Seq<char>, b: Seq<char>)
    ensures
        lex_lt(a, b) || a == b || lex_lt(b, a),
    decreases a.len(),
{
    if a.len() > 0 && b.len() > 0 && a[0] == b[0] {
        lemma_lex_total(a.drop_first(), b.drop_first());
        if a.drop_first() == b.drop_first() {
            assert(a =~= seq![a[0]] + a.drop_first());
            assert(b =~= seq![b[0]] + b.drop_first());
        }
    } else if a.len() == 0 && b.len() == 0 {
        assert(a =~= b);
    }
}

pub proof fn lemma_lex_asymmetric(a: Seq<char>, b: Seq<char>)
    ensures
        lex_lt(a, b) ==> !lex_lt(b, a),
    decreases a.len(),
{
    if a.len() > 0 && b.len() > 0 && a[0] == b[0] {
        lemma_lex_asymmetric(a.drop_first(), b.drop_first());
    }
}

pub proof fn lemma_lex_transitive(a: Seq<char>, b: Seq<char>, c: Seq<char>)
    requires
        lex_lt(a, b),
        lex_lt(b, c),
    ensures
        lex_lt(a, c),
    decreases a.len(),
{
    if a.len() > 0 && b.len() > 0 && c.len() > 0 && a[0] == b[0] && b[0] == c[0] {
        lemma_lex_transitive(a.drop_first(), b.drop_first(), c.drop_first());
    }
}

pub fn lower_of(c: char) -> (r: char)
    ensures
        r == lower_char(c),
{
    if 'A' <= c && c <= 'Z' {
        let b: u8 = c as u8;
        assert(b == c as u32);
        (b + 32) as char
    } else {
        c
    }
}

/// ASCII lower-casing of every character.
pub fn lower_chars(v: &Vec<char>) -> (r: Vec<char>)
    ensures
        r@ == lower(v@),
{
    let mut r: Vec<char> = Vec::new();
    let mut i: usize = 0;
    while i < v.len()
        invariant
            i <= v.len(),
            r@ == lower(v@.subrange(0, i as int)),
        decreases v.len() - i,
    {
        r.push(lower_of(v[i]));
        i = i + 1;
        assert(r@ =~= lower(v@.subrange(0, i as int)));
    }
    assert(v@.subrange(0, v.len() as int) =~= v@);
    r
}

/// Whether `a` sorts before `b` by code point.
pub fn lex_lt_exec(a: &Vec<char>, b: &Vec<char>) -> (r: bool)
    ensures
        r == lex_lt(a@, b@),
{
    let mut i: usize = 0;
    assert(a@.skip(0) =~= a@);
    assert(b@.skip(0) =~= b@);
    while i < a.len() && i < b.len() && a[i] == b[i]
        invariant
            i <= a.len(),
            i <= b.len(),
            lex_lt(a@, b@) == lex_lt(a@.skip(i as int), b@.skip(i as int)),
        decreases a.len() - i,
    {
        assert(a@.skip(i as int).drop_first() =~= a@.skip(i + 1));
        assert(b@.skip(i as int).drop_first() =~= b@.skip(i + 1));
        i = i + 1;
    }
    if i == a.len() {
        i < b.len()
    } else if i == b.len() {
        false
    } else {
        a[i] < b[i]
    }
}

/// Reads a signed decimal integer the way `str::parse` does for a signed
/// type whose range is `min..=max`.
pub fn parse_signed(v: &Vec<char>, min: i64, max: i64) -> (r: Option<i64>)
    requires
        -0x1_0000_0000 <= min <= 0 <= max <= 0x1_0000_0000,
    ensures
        match parse_int(v@) {
            Some(x) => if min <= x && x <= max {
                r == Some(x as i64)
            } else {
                r is None
            },
            None => r is None,
        },
{
    let n = v.len();
    if n == 0 {
        return None;
    }
    let neg = v[0] == '-';
    let signed = v[0] == '+' || v[0] == '-';
    let start: usize = if signed { 1 } else { 0 };
    if start == n {
        return None;
    }
    let ghost d = v@.subrange(start as int, n as int);
    proof {
        if signed {
            assert(d =~= v@.drop_first());
        } else {
            assert(d =~= v@);
        }
    }
    let cap: i64 = if -min > max { -min } else { max };
    let mut acc: i64 = 0;
    let mut big = false;
    let mut i: usize = start;
    assert(v@.subrange(start as int, start as int) =~= Seq::<char>::empty());
    #[verifier::loop_isolation(false)]
    while i < n
        invariant
            start <= i <= n,
            n == v.len(),
            0 <= cap <= 0x1_0000_0000,
            all_digits(v@.subrange(start as int, i as int)),
            !big ==> acc == digits_value(v@.subrange(start as int, i as int)) && 0 <= acc <= cap,
            big ==> digits_value(v@.subrange(start as int, i as int)) > cap,
        decreases n - i,
    {
        let c = v[i];
        if !char_is_digit(c) {
            assert(d[i - start] == c);
            return None;
        }
        let ghost prev = v@.subrange(start as int, i as int);
        let ghost next = v@.subrange(start as int, i + 1);
        proof {
            assert(next.drop_last() =~= prev);
            assert(next.last() == c);
            assert(all_digits(next)) by {
                assert forall|j: int| 0 <= j < next.len() implies is_digit(#[trigger] next[j]) by {
                    if j < prev.len() {
                        assert(next[j] == prev[j]);
                    }
                }
            }
            lemma_digits_nonneg(prev);
        }
        let dv = (c as u32 - '0' as u32) as i64;
        if !big {
            let nv = acc * 10 + dv;
            if nv > cap {
                big = true;
            } else {
                acc = nv;
            }
        }
        i = i + 1;
    }
    if big {
        return None;
    }
    let val = if neg { -acc } else { acc };
    if min <= val && val <= max {
        Some(val)
    } else {
        None
    }
}

/// `str::parse::<i8>` on a character sequence.
pub fn parse_i8_chars(v: &Vec<char>) -> (r: Option<i8>)
    ensures
        r == parse_i8(v@),
{
    match parse_signed(v, -128, 127) {
        Some(x) => Some(x as i8),
        None => None,
    }
}

/// `str::parse::<u32>` on a character sequence.
pub fn parse_u32_chars(v: &Vec<char>) -> (r: Option<u32>)
    ensures
        r == parse_u32(v@),
{
    if v.len() > 0 && v[0] == '-' {
        return None;
    }
    match parse_signed(v, 0, 0xffff_ffff) {
        Some(x) => Some(x as u32),
        None => None,
    }
}

/// `str::parse::<i32>` on a character sequence.
pub fn parse_i32_chars(v: &Vec<char>) -> (r: Option<i32>)
    ensures
        r == parse_i32(v@),
{
    match parse_signed(v, -0x8000_0000, 0x7fff_ffff) {
        Some(x) => Some(x as i32),
        None => None,
    }
}

fn digit_of(d: u8) -> (c: char)
    requires
        d < 10,
    ensures
        c == digit_char(d as int),
{
    (48u8 + d) as char
}

/// Appends `format!("{v:+03}")` for a value of at most two digits.
pub fn push_signed_two_digits(s: &mut String, v: i8)
    requires
        -99 <= v <= 99,
    ensures
        final(s)@ == old(s)@ + signed_two_digits(v as int),
{
    let m: u8 = if v < 0 { (-(v as i16)) as u8 } else { v as u8 };
    let ghost start = s@;
    push_char(s, if v < 0 { '-' } else { '+' });
    push_char(s, digit_of(m / 10));
    push_char(s, digit_of(m % 10));
    assert(s@ =~= start + signed_two_digits(v as int));
}

/// Appends an `i8` written as `Display` writes it.
pub fn push_i8_decimal(s: &mut String, v: i8)
    ensures
        final(s)@ == old(s)@ + int_decimal(v as int),
{
    let ghost start = s@;
    let m: u8 = if v < 0 { (-(v as i16)) as u8 } else { v as u8 };
    if v < 0 {
        push_char(s, '-');
    }
    let ghost mid = s@;
    if m < 10 {
        push_char(s, digit_of(m));
        assert(s@ =~= mid + nat_decimal(m as nat));
    } else if m < 100 {
        push_char(s, digit_of(m / 10));
        push_char(s, digit_of(m % 10));
        assert(nat_decimal((m / 10) as nat) == seq![digit_char((m / 10) as int)]);
        assert(s@ =~= mid + nat_decimal(m as nat));
    } else {
        push_char(s, digit_of(m / 100));
        push_char(s, digit_of((m / 10) % 10));
        push_char(s, digit_of(m % 10));
        assert(nat_decimal((m / 100) as nat) == seq![digit_char((m / 100) as int)]);
        assert(((m / 10) as nat) / 10 == (m / 100) as nat);
        assert(nat_decimal((m / 10) as nat) =~= seq![
            digit_char((m / 100) as int),
            digit_char(((m / 10) % 10) as int),
        ]);
        assert(s@ =~= mid + nat_decimal(m as nat));
    }
    assert(s@ =~= start + int_decimal(v as int));
}

/// Appends a `u64` written as `Display` writes it.
pub fn push_u64_decimal(s: &mut String, v: u64)
    ensures
        final(s)@ == old(s)@ + nat_decimal(v as nat),
    decreases v,
{
    let ghost start = s@;
    if v >= 10 {
        push_u64_decimal(s, v / 10);
    }
    push_char(s, digit_of((v % 10) as u8));
    assert(s@ =~= start + nat_decimal(v as nat));
}

/// Appends the strings joined with `sep`.
pub fn append_joined(s: &mut String, ws: &Vec<String>, sep: &str)
    ensures
        final(s)@ == old(s)@ + join_with(string_views(ws@), sep@),
{
    let ghost start = s@;
    let ghost all = string_views(ws@);
    let mut i: usize = 0;
    assert(all.subrange(0, 0) =~= Seq::<Seq<char>>::empty());
    assert(start + seq![] =~= start);
    while i < ws.len()
        invariant
            i <= ws.len(),
            all == string_views(ws@),
            s@ == start + join_with(all.subrange(0, i as int), sep@),
        decreases ws.len() - i,
    {
        let ghost prev = all.subrange(0, i as int);
        let ghost next = all.subrange(0, i + 1);
        assert(next.drop_last() =~= prev);
        assert(next.last() == ws@[i as int]@);
        if i > 0 {
            s.append(sep);
        }
        s.append(ws[i].as_str());
        if i == 0 {
            assert(s@ =~= start + next[0]);
        } else {
            assert(s@ =~= start + (join_with(prev, sep@) + sep@ + ws@[i as int]@));
        }
        i = i + 1;
    }
    assert(all.subrange(0, ws.len() as int) =~= all);
}

/// Appends one character with `std`'s `String::push`. Trusted, not proved:
/// the contract claims what `String::push` documents, that the string's
/// characters afterwards are those before the call followed by `c`.
#[verifier::external_body]
pub(crate) fn push_char(s: &mut String, c: char)
    ensures
        final(s)@ == old(s)@.push(c),
{
    s.push(c)
}

pub fn char_in_class(k: CharClass, c: char) -> (r: bool)
    ensures
        r == in_class(k, c),
{
    match k {
        CharClass::Whitespace => {
            let n = c as u32;
            (0x9 <= n && n <= 0xd) || n == 0x20 || n == 0x85 || n == 0xa0 || n == 0x1680 || (
            0x2000 <= n && n <= 0x200a) || n == 0x2028 || n == 0x2029 || n == 0x202f || n
                == 0x205f || n == 0x3000
        },
        CharClass::AngleBracket => c == '<' || c == '>',
        CharClass::NonAlphanumeric => !(('A' <= c && c <= 'Z') || ('a' <= c && c <= 'z') || (
        '0' <= c && c <= '9')),
    }
}

pub fn char_is_digit(c: char) -> (r: bool)
    ensures
        r == is_digit(c),
{
    '0' <= c && c <= '9'
}

pub fn char_is_alpha(c: char) -> (r: bool)
    ensures
        r == is_alpha(c),
{
    ('A' <= c && c <= 'Z') || ('a' <= c && c <= 'z')
}

pub fn char_is_alnum(c: char) -> (r: bool)
    ensures
        r == is_alnum(c),
{
    char_is_alpha(c) || char_is_digit(c)
}

pub fn upper_of(c: char) -> (r: char)
    ensures
        r == upper_char(c),
{
    if 'a' <= c && c <= 'z' {
        let b: u8 = c as u8;
        assert(b == c as u32);
        (b - 32) as char
    } else {
        c
    }
}

/// The characters of a string slice.
pub fn chars_of(s: &str) -> (v: Vec<char>)
    ensures
        v@ == s@,
{
    let n = s.unicode_len();
    let mut v: Vec<char> = Vec::new();
    let mut i: usize = 0;
    while i < n
        invariant
            i <= n,
            n == s@.len(),
            v@ == s@.subrange(0, i as int),
        decreases n - i,
    {
        v.push(s.get_char(i));
        i = i + 1;
        assert(v@ =~= s@.subrange(0, i as int));
    }
    assert(v@ =~= s@);
    v
}

/// A string holding the given characters.
pub fn string_of(v: &Vec<char>) -> (s: String)
    ensures
        s@ == v@,
{
    let mut s = String::new();
    let mut i: usize = 0;
    while i < v.len()
        invariant
            i <= v.len(),
            s@ == v@.subrange(0, i as int),
        decreases v.len() - i,
    {
        push_char(&mut s, v[i]);
        i = i + 1;
        assert(s@ =~= v@.subrange(0, i as int));
    }
    assert(s@ =~= v@);
    s
}

/// An owned copy of a string slice.
pub fn owned(s: &str) -> (r: String)
    ensures
        r@ == s@,
{
    string_of(&chars_of(s))
}

/// Appends the characters of `v` to `s`.
pub fn append_chars(s: &mut String, v: &Vec<char>)
    ensures
        final(s)@ == old(s)@ + v@,
{
    let ghost start = s@;
    let mut i: usize = 0;
    while i < v.len()
        invariant
            i <= v.len(),
            s@ == start + v@.subrange(0, i as int),
        decreases v.len() - i,
    {
        push_char(s, v[i]);
        i = i + 1;
        assert(s@ =~= start + v@.subrange(0, i as int));
    }
    assert(v@.subrange(0, v.len() as int) =~= v@);
}

/// The characters `v[a..b]`.
pub fn sub_chars(v: &Vec<char>, a: usize, b: usize) -> (r: Vec<char>)
    requires
        a <= b <= v.len(),
    ensures
        r@ == v@.subrange(a as int, b as int),
{
    let mut r: Vec<char> = Vec::new();
    let mut i = a;
    while i < b
        invariant
            a <= i <= b,
            b <= v.len(),
            r@ == v@.subrange(a as int, i as int),
        decreases b - i,
    {
        r.push(v[i]);
        i = i + 1;
        assert(r@ =~= v@.subrange(a as int, i as int));
    }
    r
}

/// A copy of a character vector.
pub fn copy_chars(v: &Vec<char>) -> (r: Vec<char>)
    ensures
        r@ == v@,
{
    let r = sub_chars(v, 0, v.len());
    assert(v@.subrange(0, v.len() as int) =~= v@);
    r
}

/// ASCII upper-casing of every character.
pub fn upper_chars(v: &Vec<char>) -> (r: Vec<char>)
    ensures
        r@ == upper(v@),
{
    let mut r: Vec<char> = Vec::new();
    let mut i: usize = 0;
    while i < v.len()
        invariant
            i <= v.len(),
            r@ == upper(v@.subrange(0, i as int)),
        decreases v.len() - i,
    {
        r.push(upper_of(v[i]));
        i = i + 1;
        assert(r@ =~= upper(v@.subrange(0, i as int)));
    }
    assert(v@.subrange(0, v.len() as int) =~= v@);
    r
}

/// The bounds of `v` once the characters of class `k` are stripped from both ends.
pub fn strip_bounds(v: &Vec<char>, k: CharClass) -> (r: (usize, usize))
    ensures
        r.0 <= r.1 <= v.len(),
        v@.subrange(r.0 as int, r.1 as int) == strip(v@, k),
{
    let n = v.len();
    let mut a: usize = 0;
    assert(v@.subrange(0, n as int) =~= v@);
    while a < n && char_in_class(k, v[a])
        invariant
            a <= n,
            n == v.len(),
            strip_start(v@, k) == strip_start(v@.subrange(a as int, n as int), k),
        decreases n - a,
    {
        assert(v@.subrange(a as int, n as int).drop_first() =~= v@.subrange(a + 1, n as int));
        a = a + 1;
    }
    assert(strip_start(v@, k) == v@.subrange(a as int, n as int));
    let mut b: usize = n;
    while b > a && char_in_class(k, v[b - 1])
        invariant
            a <= b <= n,
            n == v.len(),
            strip_end(v@.subrange(a as int, n as int), k) == strip_end(
                v@.subrange(a as int, b as int),
                k,
            ),
        decreases b - a,
    {
        assert(v@.subrange(a as int, b as int).drop_last() =~= v@.subrange(a as int, b - 1));
        b = b - 1;
    }
    (a, b)
}

/// `v` with the characters of class `k` stripped from both ends.
pub fn strip_chars(v: &Vec<char>, k: CharClass) -> (r: Vec<char>)
    ensures
        r@ == strip(v@, k),
{
    let (a, b) = strip_bounds(v, k);
    sub_chars(v, a, b)
}

/// `str::trim` followed by `str::to_ascii_uppercase`, as characters.
/// `str::trim`, as characters.
pub fn trim_chars(s: &str) -> (r: Vec<char>)
    ensures
        r@ == trim(s@),
{
    strip_chars(&chars_of(s), CharClass::Whitespace)
}

/// `str::trim` followed by ASCII upper-casing, as characters.
pub fn trim_upper(s: &str) -> (r: Vec<char>)
    ensures
        r@ == upper(trim(s@)),
{
    let v = chars_of(s);
    let t = strip_chars(&v, CharClass::Whitespace);
    upper_chars(&t)
}

/// Whether two character sequences are equal.
pub fn chars_eq(a: &Vec<char>, b: &Vec<char>) -> (r: bool)
    ensures
        r == (a@ == b@),
{
    if a.len() != b.len() {
        return false;
    }
    let mut i: usize = 0;
    while i < a.len()
        invariant
            i <= a.len(),
            a.len() == b.len(),
            forall|j: int| 0 <= j < i ==> a@[j] == b@[j],
        decreases a.len() - i,
    {
        if a[i] != b[i] {
            return false;
        }
        i = i + 1;
    }
    assert(a@ =~= b@);
    true
}

/// Whether a character sequence spells the given text.
pub fn eq_lit(a: &Vec<char>, lit: &str) -> (r: bool)
    ensures
        r == (a@ == lit@),
{
    let b = chars_of(lit);
    chars_eq(a, &b)
}

/// Whether two character sequences are equal once both are ASCII upper-cased
/// (`str::eq_ignore_ascii_case`).
pub fn chars_eq_ignore_case(a: &Vec<char>, b: &Vec<char>) -> (r: bool)
    ensures
        r == (upper(a@) == upper(b@)),
{
    let ua = upper_chars(a);
    let ub = upper_chars(b);
    chars_eq(&ua, &ub)
}

/// `p` occurs in `s` starting at position `i`.
pub open spec fn occurs_at(s: Seq<char>, p: Seq<char>, i: int) -> bool {
    0 <= i && i + p.len() <= s.len() && s.subrange(i, i + p.len()) == p
}

/// `str::contains` with a string pattern.
pub open spec fn contains(s: Seq<char>, p: Seq<char>) -> bool {
    exists|i: int| occurs_at(s, p, i)
}

/// `str::starts_with` with a string pattern.
pub open spec fn starts_with(s: Seq<char>, p: Seq<char>) -> bool {
    occurs_at(s, p, 0)
}

/// `str::ends_with` with a string pattern.
pub open spec fn ends_with(s: Seq<char>, p: Seq<char>) -> bool {
    occurs_at(s, p, s.len() - p.len())
}

/// The characters before the first occurrence of `c` (all of `s` if none):
/// the first piece of `str::split(c)`.
pub open spec fn before_char(s: Seq<char>, c: char) -> Seq<char>
    decreases s.len(),
{
    if s.len() == 0 {
        s
    } else if s[0] == c {
        seq![]
    } else {
        seq![s[0]] + before_char(s.drop_first(), c)
    }
}

/// Words joined with single spaces (`[&str]::join(" ")`).
pub open spec fn join_spaced(ws: Seq<Seq<char>>) -> Seq<char>
    decreases ws.len(),
{
    if ws.len() == 0 {
        seq![]
    } else if ws.len() == 1 {
        ws[0]
    } else {
        join_spaced(ws.drop_last()) + seq![' '] + ws.last()
    }
}

fn occurs_at_exec(s: &Vec<char>, p: &Vec<char>, i: usize) -> (r: bool)
    ensures
        r == occurs_at(s@, p@, i as int),
{
    if i > s.len() || p.len() > s.len() - i {
        return false;
    }
    let mut j: usize = 0;
    while j < p.len()
        invariant
            j <= p.len(),
            i + p.len() <= s.len(),
            forall|k: int| 0 <= k < j ==> s@[i + k] == p@[k],
        decreases p.len() - j,
    {
        if s[i + j] != p[j] {
            assert(s@.subrange(i as int, i + p.len())[j as int] != p@[j as int]);
            return false;
        }
        j = j + 1;
    }
    assert(s@.subrange(i as int, i + p.len()) =~= p@);
    true
}

/// Whether `s` contains the text `lit`.
pub fn contains_lit(s: &Vec<char>, lit: &str) -> (r: bool)
    ensures
        r == contains(s@, lit@),
{
    let p = chars_of(lit);
    if p.len() > s.len() {
        assert(!contains(s@, p@)) by {
            assert forall|i: int| !occurs_at(s@, p@, i) by {}
        }
        return false;
    }
    let last = s.len() - p.len();
    let mut i: usize = 0;
    while i < last
        invariant
            i <= last,
            last == s.len() - p.len(),
            p@ == lit@,
            forall|k: int| 0 <= k < i ==> !occurs_at(s@, p@, k),
        decreases last - i,
    {
        if occurs_at_exec(s, &p, i) {
            return true;
        }
        i = i + 1;
    }
    if occurs_at_exec(s, &p, last) {
        return true;
    }
    assert forall|k: int| !occurs_at(s@, p@, k) by {
        if 0 <= k < i {
        }
    }
    false
}

/// Whether `s` begins with the text `lit`.
pub fn starts_with_lit(s: &Vec<char>, lit: &str) -> (r: bool)
    ensures
        r == starts_with(s@, lit@),
{
    let p = chars_of(lit);
    occurs_at_exec(s, &p, 0)
}

/// Whether `s` ends with the text `lit`.
pub fn ends_with_lit(s: &Vec<char>, lit: &str) -> (r: bool)
    ensures
        r == ends_with(s@, lit@),
{
    let p = chars_of(lit);
    if p.len() > s.len() {
        return false;
    }
    occurs_at_exec(s, &p, s.len() - p.len())
}

/// The characters of `v` before the first `c`.
pub fn before_char_exec(v: &Vec<char>, c: char) -> (r: Vec<char>)
    ensures
        r@ == before_char(v@, c),
{
    let n = v.len();
    let mut i: usize = 0;
    assert(v@.subrange(0, n as int) =~= v@);
    while i < n && v[i] != c
        invariant
            i <= n,
            n == v.len(),
            forall|k: int| 0 <= k < i ==> v@[k] != c,
            before_char(v@, c) == v@.subrange(0, i as int) + before_char(
                v@.subrange(i as int, n as int),
                c,
            ),
        decreases n - i,
    {
        let ghost rest = v@.subrange(i as int, n as int);
        assert(rest.drop_first() =~= v@.subrange(i + 1, n as int));
        assert(v@.subrange(0, i + 1) =~= v@.subrange(0, i as int) + seq![v@[i as int]]);
        i = i + 1;
    }
    assert(before_char(v@.subrange(i as int, n as int), c) =~= Seq::<char>::empty());
    sub_chars(v, 0, i)
}

/// The words `ws[from..]` joined with single spaces.
pub fn join_spaced_from(ws: &Vec<Vec<char>>, from: usize) -> (r: Vec<char>)
    requires
        from <= ws.len(),
    ensures
        r@ == join_spaced(views(ws@).subrange(from as int, ws.len() as int)),
{
    let ghost all = views(ws@);
    let mut r: Vec<char> = Vec::new();
    let mut i = from;
    assert(all.subrange(from as int, from as int) =~= Seq::<Seq<char>>::empty());
    while i < ws.len()
        invariant
            from <= i <= ws.len(),
            all == views(ws@),
            r@ == join_spaced(all.subrange(from as int, i as int)),
        decreases ws.len() - i,
    {
        let ghost prev = all.subrange(from as int, i as int);
        let ghost next = all.subrange(from as int, i + 1);
        assert(next.drop_last() =~= prev);
        assert(next.last() == ws@[i as int]@);
        if i > from {
            r.push(' ');
        }
        let ghost mid = r@;
        let mut j: usize = 0;
        while j < ws[i].len()
            invariant
                i < ws.len(),
                j <= ws@[i as int].len(),
                r@ == mid + ws@[i as int]@.subrange(0, j as int),
            decreases ws@[i as int].len() - j,
        {
            r.push(ws[i][j]);
            j = j + 1;
            assert(r@ =~= mid + ws@[i as int]@.subrange(0, j as int));
        }
        assert(ws@[i as int]@.subrange(0, j as int) =~= ws@[i as int]@);
        if i == from {
            assert(r@ =~= next[0]);
        } else {
            assert(r@ =~= join_spaced(prev) + seq![' '] + next.last());
        }
        i = i + 1;
    }
    r
}

proof fn lemma_split_ws_step(s: Seq<char>, cur: Seq<char>)
    requires
        s.len() > 0,
    ensures
        is_ws(s[0]) ==> split_ws(s, cur) == flush(cur) + split_ws(s.drop_first(), seq![]),
        !is_ws(s[0]) ==> split_ws(s, cur) == split_ws(s.drop_first(), cur.push(s[0])),
{
}

/// The whitespace-separated words of `v` (`str::split_whitespace`).
pub fn split_words(v: &Vec<char>) -> (r: Vec<Vec<char>>)
    ensures
        views(r@) == words(v@),
{
    let n = v.len();
    let mut out: Vec<Vec<char>> = Vec::new();
    let mut cur: Vec<char> = Vec::new();
    let mut i: usize = 0;
    assert(v@.subrange(0, n as int) =~= v@);
    assert(views(out@) =~= seq![]);
    while i < n
        invariant
            i <= n,
            n == v.len(),
            views(out@) + split_ws(v@.subrange(i as int, n as int), cur@) == words(v@),
        decreases n - i,
    {
        let ghost rest = v@.subrange(i as int, n as int);
        proof {
            lemma_split_ws_step(rest, cur@);
            assert(rest.drop_first() =~= v@.subrange(i + 1, n as int));
        }
        let c = v[i];
        let ghost cur_before = cur@;
        let ghost before = views(out@);
        if char_in_class(CharClass::Whitespace, c) {
            if cur.len() > 0 {
                let w = cur;
                out.push(w);
                cur = Vec::new();
                assert(views(out@) =~= before + seq![w@]);
            } else {
                assert(flush(cur@) =~= Seq::<Seq<char>>::empty());
                assert(views(out@) =~= before + flush(cur_before));
            }
            proof {
                let tail = split_ws(v@.subrange(i + 1, n as int), seq![]);
                assert(before + (flush(cur_before) + tail) =~= (before + flush(cur_before)) + tail);
                assert(cur@ =~= Seq::<char>::empty());
            }
        } else {
            cur.push(c);
        }
        i = i + 1;
    }
    assert(v@.subrange(n as int, n as int) =~= Seq::<char>::empty());
    if cur.len() > 0 {
        let ghost before = views(out@);
        let w = cur;
        out.push(w);
        assert(views(out@) =~= before + seq![w@]);
    } else {
        assert(views(out@) + flush(cur@) =~= views(out@));
    }
    out
}

} // verus!
