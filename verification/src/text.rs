//! Character-level building blocks shared by the modules that produce or
//! inspect text: decimal formatting, Unicode whitespace trimming, UTF-16
//! encoding and decoding, and case folding.

use vstd::prelude::*;

verus! {

// ---------------------------------------------------------------------------
// Reading and building strings
// ---------------------------------------------------------------------------

/// The characters of `s`, in order.
pub fn chars_of(s: &str) -> (out: Vec<char>)
    ensures
        out@ == s@,
{
    let mut out: Vec<char> = Vec::new();
    for c in it: s.chars()
        invariant
            out@ == it.seq().take(it.index() as int),
            it.seq() == s@,
    {
        out.push(c);
    }
    out
}

/// Appends one character (`String::push`).
#[verifier::external_body]
pub(crate) fn push_char(s: &mut String, c: char)
    ensures
        final(s)@ == old(s)@.push(c),
{
    s.push(c);
}

/// Appends every character of `chars`.
pub fn push_chars(s: &mut String, chars: &Vec<char>)
    ensures
        final(s)@ == old(s)@ + chars@,
{
    let ghost start = s@;
    let mut i: usize = 0;
    while i < chars.len()
        invariant
            i <= chars.len(),
            s@ == start + chars@.take(i as int),
        decreases chars.len() - i,
    {
        push_char(s, chars[i]);
        assert(chars@.take(i + 1) == chars@.take(i as int).push(chars@[i as int]));
        i += 1;
    }
    assert(chars@.take(chars.len() as int) == chars@);
}

/// A fresh string holding `chars`.
pub fn string_of(chars: &Vec<char>) -> (s: String)
    ensures
        s@ == chars@,
{
    let mut s = String::new();
    push_chars(&mut s, chars);
    s
}

/// The capital letter `index` places after `A`.
pub fn ascii_letter(index: u32) -> (c: char)
    requires
        index < 26,
    ensures
        c == (65 + index) as char,
{
    let c = core::char::from_u32(65 + index);
    c.unwrap()
}

/// Appends `t`.
pub fn push_str(s: &mut String, t: &str)
    ensures
        final(s)@ == old(s)@ + t@,
{
    s.append(t);
}

/// Whether `s` spells exactly `t`.
pub fn str_is(s: &str, t: &str) -> (r: bool)
    ensures
        r == (s@ == t@),
{
    let a = String::from_str(s);
    let b = String::from_str(t);
    a == b
}

// ---------------------------------------------------------------------------
// Decimal numbers
// ---------------------------------------------------------------------------

/// The ASCII digit for `d` (`d < 10`).
pub open spec fn digit_char(d: nat) -> char {
    (48 + d) as char
}

/// The decimal spelling of `n`, without sign or leading zeros.
pub open spec fn decimal(n: nat) -> Seq<char>
    decreases n,
{
    if n < 10 {
        seq![digit_char(n)]
    } else {
        decimal(n / 10).push(digit_char(n % 10))
    }
}

/// The decimal spelling of a signed number, as `Display` writes it.
pub open spec fn signed_decimal(i: int) -> Seq<char> {
    if i < 0 {
        seq!['-'] + decimal((-i) as nat)
    } else {
        decimal(i as nat)
    }
}

/// Appends the decimal spelling of `n`.
pub fn push_decimal(s: &mut String, n: u64)
    ensures
        final(s)@ == old(s)@ + decimal(n as nat),
    decreases n,
{
    if n >= 10 {
        push_decimal(s, n / 10);
    }
    let d = (n % 10) as u8;
    push_char(s, (48u8 + d) as char);
}

/// Appends the decimal spelling of `i` (with a leading `-` when negative).
pub fn push_signed_decimal(s: &mut String, i: i64)
    requires
        i > i64::MIN,
    ensures
        final(s)@ == old(s)@ + signed_decimal(i as int),
{
    if i < 0 {
        push_char(s, '-');
        let m = (-i) as u64;
        push_decimal(s, m);
        assert(seq!['-'] + decimal(m as nat) == seq!['-'] + decimal((-i) as nat));
    } else {
        push_decimal(s, i as u64);
    }
}

// ---------------------------------------------------------------------------
// Unicode whitespace (the `White_Space` property, as `char::is_whitespace`)
// ---------------------------------------------------------------------------

pub open spec fn is_white_space(c: char) -> bool {
    let u = c as u32;
    ||| 0x9 <= u <= 0xd
    ||| u == 0x20
    ||| u == 0x85
    ||| u == 0xa0
    ||| u == 0x1680
    ||| 0x2000 <= u <= 0x200a
    ||| u == 0x2028
    ||| u == 0x2029
    ||| u == 0x202f
    ||| u == 0x205f
    ||| u == 0x3000
}

pub fn is_whitespace(c: char) -> (r: bool)
    ensures
        r == is_white_space(c),
{
    let u = c as u32;
    (0x9 <= u && u <= 0xd) || u == 0x20 || u == 0x85 || u == 0xa0 || u == 0x1680 || (0x2000 <= u
        && u <= 0x200a) || u == 0x2028 || u == 0x2029 || u == 0x202f || u == 0x205f || u == 0x3000
}

/// `s` without its leading whitespace.
pub open spec fn trim_start(s: Seq<char>) -> Seq<char>
    decreases s.len(),
{
    if s.len() > 0 && is_white_space(s[0]) {
        trim_start(s.drop_first())
    } else {
        s
    }
}

/// `s` without its trailing whitespace.
pub open spec fn trim_end(s: Seq<char>) -> Seq<char>
    decreases s.len(),
{
    if s.len() > 0 && is_white_space(s.last()) {
        trim_end(s.drop_last())
    } else {
        s
    }
}

/// `s` without whitespace at either end (`str::trim`).
pub open spec fn trim(s: Seq<char>) -> Seq<char> {
    trim_end(trim_start(s))
}

proof fn lemma_trim_start_skip(s: Seq<char>, i: int)
    requires
        0 <= i <= s.len(),
        forall|j: int| 0 <= j < i ==> is_white_space(s[j]),
    ensures
        trim_start(s) == trim_start(s.skip(i)),
    decreases i,
{
    if i > 0 {
        assert(s.skip(1) == s.drop_first());
        lemma_trim_start_skip(s.drop_first(), i - 1);
        assert(s.drop_first().skip(i - 1) == s.skip(i));
    } else {
        assert(s.skip(0) == s);
    }
}

proof fn lemma_trim_end_take(s: Seq<char>, k: int)
    requires
        0 <= k <= s.len(),
        forall|j: int| k <= j < s.len() ==> is_white_space(s[j]),
    ensures
        trim_end(s) == trim_end(s.take(k)),
    decreases s.len() - k,
{
    if k < s.len() {
        assert(s.drop_last() == s.take(s.len() - 1));
        lemma_trim_end_take(s.drop_last(), k);
        assert(s.drop_last().take(k) == s.take(k));
    } else {
        assert(s.take(k) == s);
    }
}

/// `s` without whitespace at either end.
pub fn trim_chars(s: &Vec<char>) -> (out: Vec<char>)
    ensures
        out@ == trim(s@),
{
    let mut i: usize = 0;
    while i < s.len() && is_whitespace(s[i])
        invariant
            i <= s.len(),
            forall|j: int| 0 <= j < i ==> is_white_space(s@[j]),
        decreases s.len() - i,
    {
        i += 1;
    }
    proof {
        lemma_trim_start_skip(s@, i as int);
    }
    let ghost rest = s@.skip(i as int);
    assert(trim_start(rest) == rest);
    let mut k: usize = s.len();
    while k > i && is_whitespace(s[k - 1])
        invariant
            i <= k <= s.len(),
            forall|j: int| k <= j < s.len() ==> is_white_space(s@[j]),
        decreases k,
    {
        k -= 1;
    }
    proof {
        let n = k - i;
        assert forall|j: int| n <= j < rest.len() implies is_white_space(rest[j]) by {
            assert(rest[j] == s@[j + i]);
        }
        lemma_trim_end_take(rest, n);
        assert(rest.take(n) == s@.subrange(i as int, k as int));
        let t = rest.take(n);
        if n > 0 {
            assert(t.last() == s@[k - 1]);
        }
        assert(trim_end(t) == t);
    }
    let mut out: Vec<char> = Vec::new();
    let mut p: usize = i;
    while p < k
        invariant
            i <= p <= k <= s.len(),
            out@ == s@.subrange(i as int, p as int),
        decreases k - p,
    {
        out.push(s[p]);
        p += 1;
    }
    out
}

// ---------------------------------------------------------------------------
// ASCII case
// ---------------------------------------------------------------------------

/// The ASCII lower-case form of `c` (other characters unchanged).
pub open spec fn ascii_lower(c: char) -> char {
    if 'A' <= c <= 'Z' {
        ((c as u32) + 32) as char
    } else {
        c
    }
}

/// Whether `a` and `b` are equal ignoring ASCII case (`eq_ignore_ascii_case`).
pub open spec fn eq_ignore_ascii_case(a: Seq<char>, b: Seq<char>) -> bool {
    a.len() == b.len() && forall|i: int| 0 <= i < a.len() ==> ascii_lower(a[i]) == ascii_lower(
        b[i],
    )
}

pub fn to_ascii_lower(c: char) -> (r: char)
    ensures
        r == ascii_lower(c),
{
    if 'A' <= c && c <= 'Z' {
        let b = c as u8;
        (b + 32) as char
    } else {
        c
    }
}

pub fn chars_eq_ignore_ascii_case(a: &Vec<char>, b: &Vec<char>) -> (r: bool)
    ensures
        r == eq_ignore_ascii_case(a@, b@),
{
    if a.len() != b.len() {
        return false;
    }
    let mut i: usize = 0;
    while i < a.len()
        invariant
            a.len() == b.len(),
            i <= a.len(),
            forall|j: int| 0 <= j < i ==> ascii_lower(a@[j]) == ascii_lower(b@[j]),
        decreases a.len() - i,
    {
        if to_ascii_lower(a[i]) != to_ascii_lower(b[i]) {
            return false;
        }
        i += 1;
    }
    true
}

// ---------------------------------------------------------------------------
// Unicode case folding
// ---------------------------------------------------------------------------

/// What `str::to_lowercase` returns for a string with the characters `s`.
pub uninterp spec fn lowercase(s: Seq<char>) -> Seq<char>;

/// Whether every character of `s` is ASCII.
pub open spec fn is_ascii_text(s: Seq<char>) -> bool {
    forall|i: int| 0 <= i < s.len() ==> (#[trigger] s[i] as u32) < 128
}

/// The lower-case form of `s`: ASCII text lower-cases letter by letter; other
/// text as `str::to_lowercase` maps it.
pub open spec fn folded(s: Seq<char>) -> Seq<char> {
    if is_ascii_text(s) {
        s.map_values(|c: char| ascii_lower(c))
    } else {
        lowercase(s)
    }
}

/// `str::to_lowercase`: the Unicode lower-case mapping of every character.
///
/// The mapping is a fixed table of the Unicode standard (some characters
/// lower-case to several), so it is named rather than spelled out here: the
/// contract claims that the result is a function of the characters of `s`,
/// and, for ASCII text only, that each `A`..`Z` becomes `a`..`z` and every
/// other character is kept; nothing is said of other text.
#[verifier::external_body]
pub(crate) fn to_lowercase(s: &str) -> (r: String)
    ensures
        r@ == lowercase(s@),
        is_ascii_text(s@) ==> r@ == s@.map_values(|c: char| ascii_lower(c)),
{
    s.to_lowercase()
}

// ---------------------------------------------------------------------------
// UTF-16
// ---------------------------------------------------------------------------

/// `char::from_u32`: `Some` exactly for the Unicode scalar values.
pub assume_specification[ core::char::from_u32 ](i: u32) -> (r: Option<char>)
    ensures
        r is Some <==> (i < 0xD800 || (0xE000 <= i && i <= 0x10FFFF)),
        r matches Some(c) ==> c as u32 == i && c == i as char,
;

/// The UTF-16 code units of one character.
pub open spec fn utf16_of_char(c: char) -> Seq<u16> {
    let u = c as u32;
    if u < 0x10000 {
        seq![u as u16]
    } else {
        let v = (u - 0x10000) as u32;
        seq![(0xD800 + v / 0x400) as u16, (0xDC00 + v % 0x400) as u16]
    }
}

/// The UTF-16 encoding of `s` (`str::encode_utf16`).
pub open spec fn utf16(s: Seq<char>) -> Seq<u16>
    decreases s.len(),
{
    if s.len() == 0 {
        seq![]
    } else {
        utf16(s.drop_last()) + utf16_of_char(s.last())
    }
}

proof fn lemma_char_bound(c: char)
    ensures
        (c as u32) < 0xD800 || (0xE000 <= (c as u32) && (c as u32) <= 0x10FFFF),
{
}

/// Appends the UTF-16 code units of `c`.
pub fn push_utf16_char(out: &mut Vec<u16>, c: char)
    ensures
        final(out)@ == old(out)@ + utf16_of_char(c),
{
    let u = c as u32;
    proof {
        lemma_char_bound(c);
    }
    if u < 0x10000 {
        out.push(u as u16);
    } else {
        let v = u - 0x10000;
        out.push((0xD800 + v / 0x400) as u16);
        out.push((0xDC00 + v % 0x400) as u16);
    }
}

/// The UTF-16 code units of `chars`.
pub fn utf16_units(chars: &Vec<char>) -> (out: Vec<u16>)
    ensures
        out@ == utf16(chars@),
{
    let mut out: Vec<u16> = Vec::new();
    let mut i: usize = 0;
    while i < chars.len()
        invariant
            i <= chars.len(),
            out@ == utf16(chars@.take(i as int)),
        decreases chars.len() - i,
    {
        push_utf16_char(&mut out, chars[i]);
        assert(chars@.take(i + 1).drop_last() == chars@.take(i as int));
        i += 1;
    }
    assert(chars@.take(chars.len() as int) == chars@);
    out
}

pub open spec fn is_high_surrogate(u: u16) -> bool {
    0xD800 <= u <= 0xDBFF
}

pub open spec fn is_low_surrogate(u: u16) -> bool {
    0xDC00 <= u <= 0xDFFF
}

/// The character a surrogate pair stands for.
pub open spec fn pair_char(hi: u16, lo: u16) -> char {
    (0x10000 + (hi - 0xD800) * 0x400 + (lo - 0xDC00)) as char
}

/// `String::from_utf16_lossy`: code units to characters, each unpaired
/// surrogate becoming U+FFFD.
pub open spec fn decode_utf16_lossy(u: Seq<u16>) -> Seq<char>
    decreases u.len(),
{
    if u.len() == 0 {
        seq![]
    } else if is_high_surrogate(u[0]) && u.len() >= 2 && is_low_surrogate(u[1]) {
        seq![pair_char(u[0], u[1])] + decode_utf16_lossy(u.skip(2))
    } else if is_high_surrogate(u[0]) || is_low_surrogate(u[0]) {
        seq!['\u{FFFD}'] + decode_utf16_lossy(u.skip(1))
    } else {
        seq![u[0] as char] + decode_utf16_lossy(u.skip(1))
    }
}

proof fn lemma_decode_one(c: char, rest: Seq<u16>)
    ensures
        decode_utf16_lossy(utf16_of_char(c) + rest) == seq![c] + decode_utf16_lossy(rest),
{
    lemma_char_bound(c);
    let u = c as u32;
    let all = utf16_of_char(c) + rest;
    if u < 0x10000 {
        assert(all[0] == u as u16);
        assert(all.skip(1) =~= rest);
        assert((u as u16) as char == c);
    } else {
        let v = (u - 0x10000) as u32;
        let hi = (0xD800 + v / 0x400) as u16;
        let lo = (0xDC00 + v % 0x400) as u16;
        assert(v / 0x400 < 0x400);
        assert(all[0] == hi);
        assert(all[1] == lo);
        assert(all.skip(2) =~= rest);
        assert((hi - 0xD800) * 0x400 + (lo - 0xDC00) == v);
        assert(pair_char(hi, lo) == c);
    }
}

proof fn lemma_utf16_first(s: Seq<char>)
    requires
        s.len() > 0,
    ensures
        utf16(s) == utf16_of_char(s[0]) + utf16(s.drop_first()),
    decreases s.len(),
{
    if s.len() > 1 {
        lemma_utf16_first(s.drop_last());
        assert(s.drop_last().drop_first() =~= s.drop_first().drop_last());
        assert(s.drop_first().last() == s.last());
        assert(utf16(s.drop_first()) == utf16(s.drop_first().drop_last()) + utf16_of_char(s.last()));
        assert(s.drop_last()[0] == s[0]);
        assert(utf16(s) == utf16(s.drop_last()) + utf16_of_char(s.last()));
        assert((utf16_of_char(s[0]) + utf16(s.drop_last().drop_first())) + utf16_of_char(s.last())
            =~= utf16_of_char(s[0]) + (utf16(s.drop_first().drop_last()) + utf16_of_char(s.last())));
    } else {
        assert(s.drop_first().len() == 0);
        assert(s.drop_last().len() == 0);
        assert(s.last() == s[0]);
        assert(utf16(s) == utf16(s.drop_last()) + utf16_of_char(s.last()));
        assert(utf16(s.drop_last()) == Seq::<u16>::empty());
        assert(seq![] + utf16_of_char(s[0]) =~= utf16_of_char(s[0]));
        assert(utf16_of_char(s[0]) + seq![] =~= utf16_of_char(s[0]));
    }
}

/// Decoding the UTF-16 encoding of `s`, followed by any units, gives back `s`
/// followed by the decoding of those units.
pub proof fn lemma_decode_utf16(s: Seq<char>, rest: Seq<u16>)
    ensures
        decode_utf16_lossy(utf16(s) + rest) == s + decode_utf16_lossy(rest),
    decreases s.len(),
{
    if s.len() == 0 {
        assert(utf16(s) + rest =~= rest);
        assert(s + decode_utf16_lossy(rest) =~= decode_utf16_lossy(rest));
    } else {
        lemma_utf16_first(s);
        let tail = s.drop_first();
        assert(utf16(s) + rest =~= utf16_of_char(s[0]) + (utf16(tail) + rest));
        lemma_decode_one(s[0], utf16(tail) + rest);
        lemma_decode_utf16(tail, rest);
        assert(seq![s[0]] + (tail + decode_utf16_lossy(rest)) =~= s + decode_utf16_lossy(rest));
    }
}

/// Decodes the first `n` units of `units`.
pub fn decode_utf16_prefix(units: &Vec<u16>, n: usize) -> (out: Vec<char>)
    requires
        n <= units.len(),
    ensures
        out@ == decode_utf16_lossy(units@.take(n as int)),
{
    let ghost all = units@.take(n as int);
    let mut out: Vec<char> = Vec::new();
    let mut i: usize = 0;
    assert(all.skip(0) == all);
    assert(out@ + decode_utf16_lossy(all) == decode_utf16_lossy(all));
    while i < n
        invariant
            n <= units.len(),
            i <= n,
            all == units@.take(n as int),
            out@ + decode_utf16_lossy(all.skip(i as int)) == decode_utf16_lossy(all),
        decreases n - i,
    {
        let ghost rest = all.skip(i as int);
        let u0 = units[i];
        assert(rest[0] == u0);
        if 0xD800 <= u0 && u0 <= 0xDBFF && i + 1 < n && 0xDC00 <= units[i + 1] && units[i + 1]
            <= 0xDFFF {
            let u1 = units[i + 1];
            assert(rest[1] == u1);
            let cp: u32 = 0x10000 + ((u0 - 0xD800) as u32) * 0x400 + ((u1 - 0xDC00) as u32);
            let c = core::char::from_u32(cp).unwrap();
            assert(c == pair_char(u0, u1));
            out.push(c);
            assert(rest.skip(2) == all.skip(i + 2));
            i += 2;
        } else if 0xD800 <= u0 && u0 <= 0xDFFF {
            out.push('\u{FFFD}');
            assert(rest.skip(1) == all.skip(i + 1));
            i += 1;
        } else {
            let c = core::char::from_u32(u0 as u32).unwrap();
            assert(c == u0 as char);
            out.push(c);
            assert(rest.skip(1) == all.skip(i + 1));
            i += 1;
        }
    }
    assert(all.skip(n as int).len() == 0);
    assert(out@ + seq![] == out@);
    out
}

} // verus!
