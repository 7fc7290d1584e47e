//! Paint the *native* title bar to match the app's theme.
//!
//! The window keeps its native decorations (snap layouts, resize borders, the
//! system menu and accessibility come with them); only the caption is
//! re-tinted through DWM. Colours arrive from the frontend, which resolves the
//! CSS variables the skin defines, so the palette lives in one place.

use vstd::prelude::*;
use crate::text::{chars_of, string_of, trim, trim_chars};

verus! {

/// `DWMWA_USE_IMMERSIVE_DARK_MODE` — Windows 10 1809 (17763) and later.
pub const USE_IMMERSIVE_DARK_MODE: u32 = 20;
/// `DWMWA_BORDER_COLOR` — Windows 11 (22000) and later.
pub const BORDER_COLOR: u32 = 34;
/// `DWMWA_CAPTION_COLOR` — Windows 11 (22000) and later.
pub const CAPTION_COLOR: u32 = 35;
/// `DWMWA_TEXT_COLOR` — Windows 11 (22000) and later.
pub const TEXT_COLOR: u32 = 36;

// ---------------------------------------------------------------------------
// Colour syntax
// ---------------------------------------------------------------------------

/// The `0x00bbggrr` COLORREF of the channels `r`, `g`, `b` (each kept to its
/// low byte).
pub open spec fn colorref(r: u32, g: u32, b: u32) -> u32 {
    (r & 0xff) | ((g & 0xff) << 8) | ((b & 0xff) << 16)
}

/// Whether `v` begins with `p`.
pub open spec fn has_prefix(v: Seq<char>, p: Seq<char>) -> bool {
    p.len() <= v.len() && v.take(p.len() as int) == p
}

/// The value of a hexadecimal digit.
pub open spec fn hex_digit(c: char) -> Option<nat> {
    if '0' <= c <= '9' {
        Some((c as nat - 48) as nat)
    } else if 'a' <= c <= 'f' {
        Some((c as nat - 87) as nat)
    } else if 'A' <= c <= 'F' {
        Some((c as nat - 55) as nat)
    } else {
        None
    }
}

/// The value of a string of hexadecimal digits, if every character is one.
pub open spec fn hex_digits_value(d: Seq<char>) -> Option<nat>
    decreases d.len(),
{
    if d.len() == 0 {
        Some(0)
    } else {
        match (hex_digits_value(d.drop_last()), hex_digit(d.last())) {
            (Some(v), Some(x)) => Some(v * 16 + x),
            _ => None,
        }
    }
}

/// What `u32::from_str_radix(h, 16)` accepts: an optional `+`, then one or
/// more hexadecimal digits, of a value that fits in a `u32`.
pub open spec fn hex_u32(h: Seq<char>) -> Option<u32> {
    let d = if h.len() > 0 && h[0] == '+' {
        h.drop_first()
    } else {
        h
    };
    if d.len() == 0 {
        None
    } else {
        match hex_digits_value(d) {
            Some(v) => if v <= u32::MAX {
                Some(v as u32)
            } else {
                None
            },
            None => None,
        }
    }
}

/// The colour written `#rrggbb` or `rrggbb` (exactly six characters after the
/// optional `#`).
pub open spec fn hex_colour(v: Seq<char>) -> Option<u32> {
    let h = if v.len() > 0 && v[0] == '#' {
        v.drop_first()
    } else {
        v
    };
    if h.len() != 6 {
        None
    } else {
        match hex_u32(h) {
            Some(n) => Some(colorref((n >> 16) & 0xff, (n >> 8) & 0xff, n & 0xff)),
            None => None,
        }
    }
}

/// The inside of an `rgb(` / `rgba(` form, if `v` is one.
pub open spec fn functional_body(v: Seq<char>) -> Option<Seq<char>> {
    if has_prefix(v, "rgb("@) {
        Some(v.skip("rgb("@.len() as int))
    } else if has_prefix(v, "rgba("@) {
        Some(v.skip("rgba("@.len() as int))
    } else {
        None
    }
}

/// `s` without its trailing `)` characters.
pub open spec fn trim_close_parens(s: Seq<char>) -> Seq<char>
    decreases s.len(),
{
    if s.len() > 0 && s.last() == ')' {
        trim_close_parens(s.drop_last())
    } else {
        s
    }
}

/// `s` split at every `,` (`str::split(',')`: always at least one piece).
pub open spec fn split_commas(s: Seq<char>) -> Seq<Seq<char>>
    decreases s.len(),
{
    if s.len() == 0 {
        seq![Seq::<char>::empty()]
    } else {
        let p = split_commas(s.drop_last());
        if s.last() == ',' {
            p.push(Seq::<char>::empty())
        } else {
            p.update(p.len() - 1, p.last().push(s.last()))
        }
    }
}

/// The trimmed texts of the components of an `rgb(...)` body.
pub open spec fn component_texts(body: Seq<char>) -> Seq<Seq<char>> {
    split_commas(trim_close_parens(body)).map_values(|p: Seq<char>| trim(p))
}

/// The values among `outs`, in order.
pub open spec fn present(outs: Seq<Option<u32>>) -> Seq<u32>
    decreases outs.len(),
{
    if outs.len() == 0 {
        seq![]
    } else {
        match outs.last() {
            Some(v) => present(outs.drop_last()).push(v),
            None => present(outs.drop_last()),
        }
    }
}

/// The colour of an `rgb(...)` form whose components converted to `outs`:
/// the first three numbers (any alpha is dropped), or `None` when fewer than
/// three components were numbers.
pub open spec fn components_colour(outs: Seq<Option<u32>>) -> Option<u32> {
    let v = present(outs);
    if v.len() < 3 {
        None
    } else {
        Some(colorref(v[0], v[1], v[2]))
    }
}

/// Whether the conversion `number` may give `out` for the text `text`.
pub open spec fn converts_to<F: Fn(&str) -> Option<u32>>(
    number: F,
    text: Seq<char>,
    out: Option<u32>,
) -> bool {
    exists|s: &str| s@ == text && #[trigger] call_ensures(number, (s,), out)
}

/// `16` to the power `n`.
pub open spec fn pow16(n: nat) -> nat
    decreases n,
{
    if n == 0 {
        1
    } else {
        16 * pow16((n - 1) as nat)
    }
}

proof fn lemma_pow16_bound(d: Seq<char>, v: nat)
    requires
        hex_digits_value(d) == Some(v),
    ensures
        v < pow16(d.len()),
    decreases d.len(),
{
    if d.len() > 0 {
        let p = hex_digits_value(d.drop_last()).unwrap();
        lemma_pow16_bound(d.drop_last(), p);
        assert(pow16(d.len()) == 16 * pow16((d.len() - 1) as nat));
    }
}

proof fn lemma_pow16_mono(a: nat, b: nat)
    requires
        a <= b,
    ensures
        pow16(a) <= pow16(b),
    decreases b,
{
    if a < b {
        lemma_pow16_mono(a, (b - 1) as nat);
    }
}

fn hex_digit_of(c: char) -> (r: Option<u32>)
    ensures
        match hex_digit(c) {
            Some(x) => r == Some(x as u32),
            None => r is None,
        },
{
    if '0' <= c && c <= '9' {
        Some(c as u32 - 48)
    } else if 'a' <= c && c <= 'f' {
        Some(c as u32 - 87)
    } else if 'A' <= c && c <= 'F' {
        Some(c as u32 - 55)
    } else {
        None
    }
}

fn starts_with(v: &Vec<char>, p: &str) -> (r: bool)
    ensures
        r == has_prefix(v@, p@),
{
    let pc = chars_of(p);
    if pc.len() > v.len() {
        return false;
    }
    let mut i: usize = 0;
    while i < pc.len()
        invariant
            pc@ == p@,
            pc.len() <= v.len(),
            i <= pc.len(),
            forall|j: int| 0 <= j < i ==> v@[j] == pc@[j],
        decreases pc.len() - i,
    {
        if v[i] != pc[i] {
            assert(v@.take(pc.len() as int)[i as int] != pc@[i as int]);
            return false;
        }
        i += 1;
    }
    assert(v@.take(pc.len() as int) =~= pc@);
    true
}

/// The colour of `v` (already trimmed) written in hexadecimal.
fn parse_hex_form(v: &Vec<char>) -> (r: Option<u32>)
    ensures
        r == hex_colour(v@),
{
    let start: usize = if v.len() > 0 && v[0] == '#' {
        1
    } else {
        0
    };
    let ghost h = if v@.len() > 0 && v@[0] == '#' {
        v@.drop_first()
    } else {
        v@
    };
    assert(h =~= v@.skip(start as int));
    if v.len() - start != 6 {
        return None;
    }
    let digits_start: usize = if v[start] == '+' {
        start + 1
    } else {
        start
    };
    let ghost d = if h.len() > 0 && h[0] == '+' {
        h.drop_first()
    } else {
        h
    };
    assert(d =~= v@.skip(digits_start as int));
    if digits_start == v.len() {
        return None;
    }
    let mut n: u32 = 0;
    let mut i: usize = digits_start;
    while i < v.len()
        invariant
            digits_start <= i <= v.len(),
            v.len() - digits_start <= 6,
            d == v@.skip(digits_start as int),
            h == (if v@.len() > 0 && v@[0] == '#' {
                v@.drop_first()
            } else {
                v@
            }),
            h.len() == 6,
            d == (if h.len() > 0 && h[0] == '+' {
                h.drop_first()
            } else {
                h
            }),
            d.len() > 0,
            hex_digits_value(d.take(i - digits_start)) == Some(n as nat),
        decreases v.len() - i,
    {
        assert(d.take(i + 1 - digits_start).drop_last() =~= d.take(i - digits_start));
        assert(d.take(i + 1 - digits_start).last() == v@[i as int]);
        match hex_digit_of(v[i]) {
            None => {
                proof {
                    lemma_none_stays(d, (i + 1 - digits_start) as int);
                }
                return None;
            },
            Some(x) => {
                proof {
                    lemma_pow16_bound(d.take(i - digits_start), n as nat);
                    lemma_pow16_mono((i - digits_start) as nat, 5);
                    reveal_with_fuel(pow16, 6);
                }
                n = n * 16 + x;
            },
        }
        i += 1;
    }
    assert(d.take(d.len() as int) =~= d);
    Some(((n >> 16) & 0xff & 0xff) | ((((n >> 8) & 0xff) & 0xff) << 8) | (((n & 0xff) & 0xff) << 16))
}

proof fn lemma_none_stays(d: Seq<char>, k: int)
    requires
        0 <= k <= d.len(),
        hex_digits_value(d.take(k)) is None,
    ensures
        hex_digits_value(d) is None,
    decreases d.len() - k,
{
    if k < d.len() {
        assert(d.take(k + 1).drop_last() =~= d.take(k));
        lemma_none_stays(d, k + 1);
    } else {
        assert(d.take(k) =~= d);
    }
}

fn trim_close_parens_len(s: &Vec<char>) -> (k: usize)
    ensures
        k <= s.len(),
        trim_close_parens(s@) == s@.take(k as int),
{
    let mut k: usize = s.len();
    assert(s@.take(k as int) =~= s@);
    while k > 0 && s[k - 1] == ')'
        invariant
            k <= s.len(),
            trim_close_parens(s@) == trim_close_parens(s@.take(k as int)),
        decreases k,
    {
        assert(s@.take(k as int).drop_last() =~= s@.take(k - 1));
        k -= 1;
    }
    if k > 0 {
        assert(s@.take(k as int).last() == s@[k - 1]);
    }
    k
}

/// The trimmed components of the `rgb(...)` body `body`.
fn components_of(body: &Vec<char>) -> (out: Vec<String>)
    ensures
        string_views(out@) == component_texts(body@),
{
    let k = trim_close_parens_len(body);
    let ghost s = body@.take(k as int);
    let mut finished: Vec<String> = Vec::new();
    let mut current: Vec<char> = Vec::new();
    let mut i: usize = 0;
    assert(s.take(0) =~= Seq::<char>::empty());
    while i < k
        invariant
            k <= body.len(),
            i <= k,
            s == body@.take(k as int),
            finished.len() + 1 == split_commas(s.take(i as int)).len(),
            forall|j: int|
                0 <= j < finished.len() ==> #[trigger] finished@[j]@ == trim(
                    split_commas(s.take(i as int))[j],
                ),
            current@ == split_commas(s.take(i as int)).last(),
        decreases k - i,
    {
        let c = body[i];
        let ghost before = split_commas(s.take(i as int));
        assert(s.take(i + 1).drop_last() =~= s.take(i as int));
        assert(s.take(i + 1).last() == c);
        if c == ',' {
            let t = string_of(&trim_chars(&current));
            finished.push(t);
            current = Vec::new();
            assert(current@ =~= Seq::<char>::empty());
        } else {
            current.push(c);
        }
        i += 1;
    }
    let t = string_of(&trim_chars(&current));
    finished.push(t);
    assert(s.take(k as int) =~= s);
    assert(string_views(finished@) =~= component_texts(body@));
    finished
}

/// The views of a list of strings.
pub open spec fn string_views(v: Seq<String>) -> Seq<Seq<char>> {
    v.map_values(|s: String| s@)
}

/// `#rrggbb` (what the frontend reads out of the CSS variables) to the
/// `0x00bbggrr` COLORREF that DWM expects.
///
/// Also accepts the `rgb(r, g, b)` / `rgba(r, g, b, a)` form: a computed CSS
/// property can come back resolved. Alpha has no meaning for a caption, so it
/// is dropped. Each component is converted to a number by `number` (a
/// decimal, possibly fractional, rounded to the nearest integer); components
/// it gives no number for are skipped.
pub fn parse_hex<F: Fn(&str) -> Option<u32>>(value: &str, number: F) -> (r: Option<u32>)
    requires
        forall|s: &str| #[trigger] number.requires((s,)),
    ensures
        match functional_body(trim(value@)) {
            Some(body) => exists|outs: Seq<Option<u32>>|
                #![trigger components_colour(outs)]
                {
                    &&& outs.len() == component_texts(body).len()
                    &&& forall|i: int|
                        0 <= i < outs.len() ==> converts_to(
                            number,
                            component_texts(body)[i],
                            #[trigger] outs[i],
                        )
                    &&& r == components_colour(outs)
                },
            None => r == hex_colour(trim(value@)),
        },
{
    let v = trim_chars(&chars_of(value));
    let body_start: usize = if starts_with(&v, "rgb(") {
        4
    } else if starts_with(&v, "rgba(") {
        5
    } else {
        return parse_hex_form(&v);
    };
    proof {
        reveal_strlit("rgb(");
        reveal_strlit("rgba(");
    }
    let mut body: Vec<char> = Vec::new();
    let mut i: usize = body_start;
    while i < v.len()
        invariant
            body_start <= i <= v.len(),
            body@ == v@.subrange(body_start as int, i as int),
        decreases v.len() - i,
    {
        body.push(v[i]);
        i += 1;
    }
    assert(body@ =~= v@.skip(body_start as int));
    let texts = components_of(&body);
    let ghost views = component_texts(body@);
    let ghost mut outs: Seq<Option<u32>> = seq![];
    let mut values: Vec<u32> = Vec::new();
    let mut j: usize = 0;
    while j < texts.len()
        invariant
            forall|s: &str| #[trigger] number.requires((s,)),
            string_views(texts@) == views,
            j <= texts.len(),
            outs.len() == j,
            forall|q: int| 0 <= q < j ==> converts_to(number, views[q], #[trigger] outs[q]),
            values@ == present(outs),
        decreases texts.len() - j,
    {
        let p: &str = texts[j].as_str();
        assert(p@ == views[j as int]);
        let o = number(p);
        assert(call_ensures(number, (p,), o));
        assert(converts_to(number, views[j as int], o));
        proof {
            let next = outs.push(o);
            assert(next.drop_last() =~= outs);
            outs = next;
        }
        match o {
            Some(x) => values.push(x),
            None => {},
        }
        j += 1;
    }
    let r = if values.len() < 3 {
        None
    } else {
        Some((values[0] & 0xff) | ((values[1] & 0xff) << 8) | ((values[2] & 0xff) << 16))
    };
    proof {
        assert(functional_body(v@) == Some(body@));
        assert(r == components_colour(outs));
    }
    r
}

// ---------------------------------------------------------------------------
// Caption attributes
// ---------------------------------------------------------------------------

/// One DWM window attribute to set, and the name reported when the OS
/// accepts it.
#[derive(Debug, Clone, Copy, PartialEq, Eq)]
pub struct DwmSetting {
    pub attribute: u32,
    pub value: u32,
    pub name: &'static str,
}

/// The attribute, value and name of a setting.
pub open spec fn setting_view(s: DwmSetting) -> (u32, u32, Seq<char>) {
    (s.attribute, s.value, s.name@)
}

/// The attributes that theme the caption, in the order they are set: the
/// dark-mode flag; with a caption colour, the caption and the 1px border
/// around the window (part of the same surface: left at the system colour it
/// draws a bright line around a dark caption); with a text colour, the text.
pub open spec fn caption_plan(dark: bool, caption: Option<u32>, text: Option<u32>) -> Seq<
    (u32, u32, Seq<char>),
> {
    seq![(USE_IMMERSIVE_DARK_MODE, if dark { 1u32 } else { 0u32 }, "dark-mode"@)] + match caption {
        Some(c) => seq![(CAPTION_COLOR, c, "caption-color"@), (BORDER_COLOR, c, "border-color"@)],
        None => seq![],
    } + match text {
        Some(t) => seq![(TEXT_COLOR, t, "text-color"@)],
        None => seq![],
    }
}

/// The DWM attributes to set for the theme (`caption` and `text` are the
/// parsed colours, when they parsed). The caller sets each one and reports
/// the names of those the OS accepted: the colour attributes only exist on
/// Windows 11 and fail on Windows 10, which is expected.
pub fn caption_settings(dark: bool, caption: Option<u32>, text: Option<u32>) -> (v: Vec<DwmSetting>)
    ensures
        v@.map_values(|s: DwmSetting| setting_view(s)) == caption_plan(dark, caption, text),
{
    let mut v: Vec<DwmSetting> = Vec::new();
    v.push(
        DwmSetting {
            attribute: USE_IMMERSIVE_DARK_MODE,
            value: if dark {
                1
            } else {
                0
            },
            name: "dark-mode",
        },
    );
    match caption {
        Some(c) => {
            v.push(DwmSetting { attribute: CAPTION_COLOR, value: c, name: "caption-color" });
            v.push(DwmSetting { attribute: BORDER_COLOR, value: c, name: "border-color" });
        },
        None => {},
    }
    match text {
        Some(t) => {
            v.push(DwmSetting { attribute: TEXT_COLOR, value: t, name: "text-color" });
        },
        None => {},
    }
    assert(v@.map_values(|s: DwmSetting| setting_view(s)) =~= caption_plan(dark, caption, text));
    v
}

} // verus!
