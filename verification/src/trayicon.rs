//! Tray icon rendering: draws the memory percent as a bitmap number with the
//! configured background / foreground colours, plus optional transparency,
//! rounded corners and border.

use vstd::prelude::*;
use vstd::arithmetic::div_mod::lemma_fundamental_div_mod;
use vstd::arithmetic::div_mod::lemma_fundamental_div_mod_converse;

verus! {

/// Edge length of the square icon, in pixels.
pub const SIZE: usize = 32;

/// Colours and shape of the tray icon.
pub struct TrayIconStyle {
    pub bg: [u8; 3],
    pub fg: [u8; 3],
    pub transparent: bool,
    pub border: bool,
    pub round: bool,
}

impl Default for TrayIconStyle {
    fn default() -> (s: Self)
        ensures
            s.bg@ == seq![0x00u8, 0x80u8, 0x40u8],
            s.fg@ == seq![0xffu8, 0xffu8, 0xffu8],
            !s.transparent,
            !s.border,
            !s.round,
    {
        let s = TrayIconStyle {
            bg: [0x00, 0x80, 0x40],
            fg: [0xff, 0xff, 0xff],
            transparent: false,
            border: false,
            round: false,
        };
        assert(s.bg@ == seq![0x00u8, 0x80u8, 0x40u8]);
        assert(s.fg@ == seq![0xffu8, 0xffu8, 0xffu8]);
        s
    }
}

/// The `[r, g, b]` channels of a `0x00RRGGBB` colour.
pub open spec fn unpacked(rgb: u32) -> Seq<u8> {
    seq![((rgb / 0x10000) % 0x100) as u8, ((rgb / 0x100) % 0x100) as u8, (rgb % 0x100) as u8]
}

/// Convert a `0x00RRGGBB` colour into `[r, g, b]`.
pub fn unpack_color(rgb: u32) -> (c: [u8; 3])
    ensures
        c@ == unpacked(rgb),
{
    let r = ((rgb >> 16) & 0xff) as u8;
    let g = ((rgb >> 8) & 0xff) as u8;
    let b = (rgb & 0xff) as u8;
    assert(((rgb >> 16) & 0xff) == (rgb / 0x10000) % 0x100) by (bit_vector);
    assert(((rgb >> 8) & 0xff) == (rgb / 0x100) % 0x100) by (bit_vector);
    assert((rgb & 0xff) == rgb % 0x100) by (bit_vector);
    let c = [r, g, b];
    assert(c@ == unpacked(rgb));
    c
}

// ---------------------------------------------------------------------------
// The digit font and the layout of the number
// ---------------------------------------------------------------------------

/// Row `row` (top to bottom) of the 3x5 glyph for digit `d`, as three bits
/// read left to right.
pub open spec fn font_row(d: int, row: int) -> int {
    let rows: Seq<int> = if d == 0 {
        seq![7, 5, 5, 5, 7]
    } else if d == 1 {
        seq![2, 6, 2, 2, 7]
    } else if d == 2 {
        seq![7, 1, 7, 4, 7]
    } else if d == 3 {
        seq![7, 1, 7, 1, 7]
    } else if d == 4 {
        seq![5, 5, 7, 1, 1]
    } else if d == 5 {
        seq![7, 4, 7, 1, 7]
    } else if d == 6 {
        seq![7, 4, 7, 5, 7]
    } else if d == 7 {
        seq![7, 1, 2, 2, 2]
    } else if d == 8 {
        seq![7, 5, 7, 5, 7]
    } else {
        seq![7, 5, 7, 1, 7]
    };
    rows[row]
}

/// Whether the glyph for digit `d` has its cell `(row, col)` set.
pub open spec fn glyph_bit(d: int, row: int, col: int) -> bool {
    let bits = font_row(d, row);
    if col == 0 {
        bits >= 4
    } else if col == 1 {
        (bits / 2) % 2 == 1
    } else {
        bits % 2 == 1
    }
}

/// The number drawn: the percent, capped at 999.
pub open spec fn shown_value(percent: u32) -> int {
    if percent < 999 {
        percent as int
    } else {
        999
    }
}

/// The decimal digits of `p` (`0 <= p <= 999`), most significant first.
pub open spec fn digit_values(p: int) -> Seq<int> {
    if p < 10 {
        seq![p]
    } else if p < 100 {
        seq![p / 10, p % 10]
    } else {
        seq![p / 100, (p / 10) % 10, p % 10]
    }
}

/// The icon spells the percent in decimal: the number drawn is the percent
/// capped at 999, and the glyph in the `k`-th cell from the left is its `k`-th
/// decimal digit counted from the most significant one, with no leading zero;
/// one cell below 10, two below 100, three from 100 on.
pub proof fn icon_digits_spell_the_percent(percent: u32)
    ensures
        shown_value(percent) == (if percent <= 999 { percent as int } else { 999 }),
        ({
            let p = shown_value(percent);
            let ds = digit_values(p);
            &&& 1 <= ds.len() <= 3
            &&& (ds.len() == 1 <==> p < 10)
            &&& (ds.len() == 2 <==> 10 <= p < 100)
            &&& (ds.len() == 3 <==> 100 <= p)
            &&& forall|k: int| 0 <= k < ds.len() ==> 0 <= #[trigger] ds[k] < 10
            &&& ds.len() > 1 ==> ds[0] != 0
            &&& ds.len() == 1 ==> ds[0] == p
            &&& ds.len() == 2 ==> ds[0] * 10 + ds[1] == p
            &&& ds.len() == 3 ==> ds[0] * 100 + ds[1] * 10 + ds[2] == p
        }),
{
    let p = shown_value(percent);
    assert(0 <= p <= 999);
    if p >= 100 {
        assert(p / 100 * 100 + (p / 10) % 10 * 10 + p % 10 == p && 1 <= p / 100 < 10
            && 0 <= (p / 10) % 10 < 10 && 0 <= p % 10 < 10) by (nonlinear_arith)
            requires
                100 <= p <= 999,
        ;
    } else if p >= 10 {
        assert(p / 10 * 10 + p % 10 == p && 1 <= p / 10 < 10 && 0 <= p % 10 < 10)
            by (nonlinear_arith)
            requires
                10 <= p < 100,
        ;
    }
}

/// Size of one font cell in pixels, chosen so that `n` digits fit.
pub open spec fn glyph_scale(n: int) -> int {
    if n == 1 {
        5
    } else if n == 2 {
        3
    } else {
        2
    }
}

/// Width of the whole number: `n` glyphs of `3s` pixels with gaps of `s`.
pub open spec fn text_width(n: int, s: int) -> int {
    n * (3 * s) + (n - 1) * s
}

pub open spec fn origin_x(n: int) -> int {
    (32 - text_width(n, glyph_scale(n))) / 2
}

pub open spec fn origin_y(n: int) -> int {
    (32 - 5 * glyph_scale(n)) / 2
}

/// Pixel `(x, y)` belongs to the `scale x scale` block of the set cell
/// `(row, col)` of the `k`-th glyph.
pub open spec fn cell_hit(
    percent: u32,
    x: int,
    y: int,
    k: int,
    row: int,
    col: int,
    dx: int,
    dy: int,
) -> bool {
    let ds = digit_values(shown_value(percent));
    let n = ds.len() as int;
    let s = glyph_scale(n);
    &&& 0 <= k < n
    &&& 0 <= row < 5
    &&& 0 <= col < 3
    &&& 0 <= dx < s
    &&& 0 <= dy < s
    &&& glyph_bit(ds[k], row, col)
    &&& x == origin_x(n) + k * (4 * s) + col * s + dx
    &&& y == origin_y(n) + row * s + dy
}

/// Pixel `(x, y)` is painted by some glyph of the number.
pub open spec fn digit_covers(percent: u32, x: int, y: int) -> bool {
    exists|k: int, row: int, col: int, dx: int, dy: int|
        #[trigger] cell_hit(percent, x, y, k, row, col, dx, dy)
}

/// The number always fits in the icon: every pixel a glyph paints lies in
/// the 32 x 32 bitmap, whatever the percent (it is capped at 999).
pub proof fn digits_fit_in_the_icon(percent: u32, x: int, y: int)
    requires
        digit_covers(percent, x, y),
    ensures
        0 <= x < 32,
        0 <= y < 32,
{
    let (k, row, col, dx, dy) = choose|k: int, row: int, col: int, dx: int, dy: int|
        #[trigger] cell_hit(percent, x, y, k, row, col, dx, dy);
    let n = digit_values(shown_value(percent)).len() as int;
    let s = glyph_scale(n);
    assert(cell_hit(percent, x, y, k, row, col, dx, dy));
    assert(x == origin_x(n) + k * (4 * s) + col * s + dx);
    assert(y == origin_y(n) + row * s + dy);
    assert(1 <= n <= 3);
    if n == 1 {
        assert(glyph_scale(1) == 5);
        assert(origin_x(1) == 8 && origin_y(1) == 3);
        assert(k == 0);
        assert(k * (4 * s) == 0 && col * s == col * 5 && row * s == row * 5) by (nonlinear_arith)
            requires
                k == 0,
                s == 5,
        ;
        assert(col * 5 <= 10 && row * 5 <= 20) by (nonlinear_arith)
            requires
                0 <= col < 3,
                0 <= row < 5,
        ;
    } else if n == 2 {
        assert(glyph_scale(2) == 3);
        assert(3 * (3 * 3) == 27int && (2 - 1) * 3 == 3int);
        assert(origin_x(2) == 5 && origin_y(2) == 8);
        assert(k * (4 * s) == k * 12 && col * s == col * 3 && row * s == row * 3)
            by (nonlinear_arith)
            requires
                s == 3,
        ;
        assert(k * 12 <= 12 && col * 3 <= 6 && row * 3 <= 12) by (nonlinear_arith)
            requires
                0 <= k < 2,
                0 <= col < 3,
                0 <= row < 5,
        ;
    } else {
        assert(glyph_scale(3) == 2);
        assert(3 * (3 * 2) == 18int && (3 - 1) * 2 == 4int);
        assert(text_width(3, 2) == 22);
        assert(origin_x(3) == 5 && origin_y(3) == 11);
        assert(k * (4 * s) == k * 8 && col * s == col * 2 && row * s == row * 2)
            by (nonlinear_arith)
            requires
                s == 2,
        ;
        assert(k * 8 <= 16 && col * 2 <= 4 && row * 2 <= 8) by (nonlinear_arith)
            requires
                0 <= k < 3,
                0 <= col < 3,
                0 <= row < 5,
        ;
    }
}

// ---------------------------------------------------------------------------
// The background
// ---------------------------------------------------------------------------

/// Inside the square with corners rounded to a radius of 7 pixels.
pub open spec fn in_rounded_rect_spec(x: int, y: int) -> bool {
    let r = 7int;
    if x < 0 || y < 0 || x >= 32 || y >= 32 {
        false
    } else {
        let left = x < r;
        let right = x >= 32 - r;
        let top = y < r;
        let bottom = y >= 32 - r;
        if (left && top) || (right && top) || (left && bottom) || (right && bottom) {
            let corner_x = if left {
                r
            } else {
                32 - 1 - r
            };
            let corner_y = if top {
                r
            } else {
                32 - 1 - r
            };
            let dx = x - corner_x;
            let dy = y - corner_y;
            dx * dx + dy * dy <= r * r
        } else {
            true
        }
    }
}

/// On the one-pixel frame of the icon.
pub open spec fn is_border_spec(x: int, y: int) -> bool {
    x == 0 || y == 0 || x == 32 - 1 || y == 32 - 1
}

/// The RGBA value of pixel `(x, y)` of the icon for `percent`.
pub open spec fn icon_pixel(percent: u32, style: TrayIconStyle, x: int, y: int) -> Seq<u8> {
    if digit_covers(percent, x, y) {
        seq![style.fg[0], style.fg[1], style.fg[2], 255u8]
    } else if !style.round || in_rounded_rect_spec(x, y) {
        let border_px = style.border && is_border_spec(x, y);
        let alpha: u8 = if style.transparent && !border_px && !style.round {
            0
        } else {
            255
        };
        if border_px {
            seq![255u8, 255u8, 255u8, alpha]
        } else {
            seq![style.bg[0], style.bg[1], style.bg[2], alpha]
        }
    } else {
        seq![0u8, 0u8, 0u8, 0u8]
    }
}

/// Byte `i` of the row-major RGBA bitmap.
pub open spec fn icon_byte(percent: u32, style: TrayIconStyle, i: int) -> u8 {
    let p = i / 4;
    icon_pixel(percent, style, p % 32, p / 32)[i % 4]
}

// ---------------------------------------------------------------------------
// Executable parts
// ---------------------------------------------------------------------------

pub fn in_rounded_rect(x: usize, y: usize) -> (r: bool)
    ensures
        r == in_rounded_rect_spec(x as int, y as int),
{
    if x >= SIZE || y >= SIZE {
        return false;
    }
    let r: i64 = 7;
    let cx = x as i64;
    let cy = y as i64;
    let left = cx < r;
    let right = cx >= 32 - r;
    let top = cy < r;
    let bottom = cy >= 32 - r;
    if (left && top) || (right && top) || (left && bottom) || (right && bottom) {
        let corner_x = if left {
            r
        } else {
            32 - 1 - r
        };
        let corner_y = if top {
            r
        } else {
            32 - 1 - r
        };
        let dx = cx - corner_x;
        let dy = cy - corner_y;
        assert(-32 <= dx <= 32 && -32 <= dy <= 32);
        assert(dx * dx <= 1024 && dy * dy <= 1024) by (nonlinear_arith)
            requires
                -32 <= dx <= 32,
                -32 <= dy <= 32,
        ;
        assert(dx * dx >= 0 && dy * dy >= 0) by (nonlinear_arith);
        dx * dx + dy * dy <= r * r
    } else {
        true
    }
}

pub fn is_border(x: usize, y: usize) -> (r: bool)
    ensures
        r == is_border_spec(x as int, y as int),
{
    x == 0 || y == 0 || x == SIZE - 1 || y == SIZE - 1
}

fn font_row_bits(d: u8, row: usize) -> (bits: u8)
    requires
        d < 10,
        row < 5,
    ensures
        bits as int == font_row(d as int, row as int),
        bits < 8,
{
    let rows: [u8; 5] = if d == 0 {
        [7, 5, 5, 5, 7]
    } else if d == 1 {
        [2, 6, 2, 2, 7]
    } else if d == 2 {
        [7, 1, 7, 4, 7]
    } else if d == 3 {
        [7, 1, 7, 1, 7]
    } else if d == 4 {
        [5, 5, 7, 1, 1]
    } else if d == 5 {
        [7, 4, 7, 1, 7]
    } else if d == 6 {
        [7, 4, 7, 5, 7]
    } else if d == 7 {
        [7, 1, 2, 2, 2]
    } else if d == 8 {
        [7, 5, 7, 5, 7]
    } else {
        [7, 5, 7, 1, 7]
    };
    rows[row]
}

fn glyph_cell(d: u8, row: usize, col: usize) -> (set: bool)
    requires
        d < 10,
        row < 5,
        col < 3,
    ensures
        set == glyph_bit(d as int, row as int, col as int),
{
    let bits = font_row_bits(d, row);
    if col == 0 {
        bits >= 4
    } else if col == 1 {
        (bits / 2) % 2 == 1
    } else {
        bits % 2 == 1
    }
}

/// The division-based reading of `digit_covers`.
pub open spec fn covers_by_division(percent: u32, x: int, y: int) -> bool {
    let ds = digit_values(shown_value(percent));
    let n = ds.len() as int;
    let s = glyph_scale(n);
    let rel_x = x - origin_x(n);
    let rel_y = y - origin_y(n);
    &&& 0 <= rel_x
    &&& 0 <= rel_y < 5 * s
    &&& rel_x / (4 * s) < n
    &&& rel_x % (4 * s) < 3 * s
    &&& glyph_bit(ds[rel_x / (4 * s)], rel_y / s, (rel_x % (4 * s)) / s)
}

proof fn lemma_layout(percent: u32)
    ensures
        ({
            let ds = digit_values(shown_value(percent));
            let n = ds.len() as int;
            let s = glyph_scale(n);
            &&& 1 <= n <= 3
            &&& s == 5 || s == 3 || s == 2
            &&& 0 <= origin_x(n)
            &&& origin_x(n) + text_width(n, s) <= 32
            &&& origin_x(n) + n * (4 * s) <= 33
            &&& 0 <= origin_y(n)
            &&& origin_y(n) + 5 * s <= 32
            &&& forall|k: int| 0 <= k < n ==> 0 <= #[trigger] ds[k] < 10
        }),
{
    let p = shown_value(percent);
    let ds = digit_values(p);
    if p < 10 {
    } else if p < 100 {
    } else {
    }
}

proof fn lemma_covers(percent: u32, x: int, y: int)
    ensures
        digit_covers(percent, x, y) == covers_by_division(percent, x, y),
{
    lemma_layout(percent);
    let ds = digit_values(shown_value(percent));
    let n = ds.len() as int;
    let s = glyph_scale(n);
    let rel_x = x - origin_x(n);
    let rel_y = y - origin_y(n);
    if covers_by_division(percent, x, y) {
        let k = rel_x / (4 * s);
        let off = rel_x % (4 * s);
        let col = off / s;
        let dx = off % s;
        let row = rel_y / s;
        let dy = rel_y % s;
        lemma_fundamental_div_mod(rel_x, 4 * s);
        lemma_fundamental_div_mod(off, s);
        lemma_fundamental_div_mod(rel_y, s);
        assert(0 <= off < 4 * s) by {
            vstd::arithmetic::div_mod::lemma_mod_bound(rel_x, 4 * s);
        }
        assert(0 <= dx < s) by {
            vstd::arithmetic::div_mod::lemma_mod_bound(off, s);
        }
        assert(0 <= dy < s) by {
            vstd::arithmetic::div_mod::lemma_mod_bound(rel_y, s);
        }
        assert(0 <= k) by {
            vstd::arithmetic::div_mod::lemma_div_pos_is_pos(rel_x, 4 * s);
        }
        assert(0 <= col < 3) by (nonlinear_arith)
            requires
                off == s * col + dx,
                0 <= dx < s,
                0 <= off < 3 * s,
                s > 0,
        ;
        assert(0 <= row < 5) by (nonlinear_arith)
            requires
                rel_y == s * row + dy,
                0 <= dy < s,
                0 <= rel_y < 5 * s,
                s > 0,
        ;
        assert(x == origin_x(n) + k * (4 * s) + col * s + dx) by (nonlinear_arith)
            requires
                rel_x == x - origin_x(n),
                rel_x == (4 * s) * k + off,
                off == s * col + dx,
        ;
        assert(y == origin_y(n) + row * s + dy) by (nonlinear_arith)
            requires
                rel_y == y - origin_y(n),
                rel_y == s * row + dy,
        ;
        assert(cell_hit(percent, x, y, k, row, col, dx, dy));
    }
    if digit_covers(percent, x, y) {
        let (k, row, col, dx, dy) = choose|k: int, row: int, col: int, dx: int, dy: int|
            #[trigger] cell_hit(percent, x, y, k, row, col, dx, dy);
        let off = col * s + dx;
        assert(0 <= off < 3 * s) by (nonlinear_arith)
            requires
                0 <= col < 3,
                0 <= dx < s,
                off == col * s + dx,
        ;
        assert(rel_x == k * (4 * s) + off);
        lemma_fundamental_div_mod_converse(rel_x, 4 * s, k, off);
        lemma_fundamental_div_mod_converse(off, s, col, dx);
        assert(rel_y == row * s + dy);
        lemma_fundamental_div_mod_converse(rel_y, s, row, dy);
        assert(0 <= rel_x) by (nonlinear_arith)
            requires
                rel_x == k * (4 * s) + off,
                k >= 0,
                s > 0,
                off >= 0,
        ;
        assert(0 <= rel_y < 5 * s) by (nonlinear_arith)
            requires
                rel_y == row * s + dy,
                0 <= row < 5,
                0 <= dy < s,
        ;
    }
}

/// The decimal digits of `p`, most significant first.
fn digits_of(p: u32) -> (ds: Vec<u8>)
    requires
        p <= 999,
    ensures
        ds@.len() == digit_values(p as int).len(),
        forall|k: int| 0 <= k < ds@.len() ==> ds@[k] as int == #[trigger] digit_values(p as int)[k],
{
    let mut ds: Vec<u8> = Vec::new();
    if p >= 100 {
        ds.push((p / 100) as u8);
    }
    if p >= 10 {
        ds.push(((p / 10) % 10) as u8);
    }
    ds.push((p % 10) as u8);
    ds
}

/// Render `percent` as a 32x32 RGBA bitmap, row by row.
pub fn render(percent: u32, style: &TrayIconStyle) -> (buf: Vec<u8>)
    ensures
        buf@.len() == SIZE * SIZE * 4,
        forall|i: int| 0 <= i < SIZE * SIZE * 4 ==> buf@[i] == icon_byte(percent, *style, i),
{
    let p = if percent < 999 {
        percent
    } else {
        999
    };
    let ds = digits_of(p);
    let n = ds.len();
    let s: usize = if n == 1 {
        5
    } else if n == 2 {
        3
    } else {
        2
    };
    proof {
        lemma_layout(percent);
    }
    let total_w = n * (3 * s) + (n - 1) * s;
    let start_x = (SIZE - total_w) / 2;
    let start_y = (SIZE - 5 * s) / 2;
    assert(total_w as int == text_width(n as int, s as int));
    assert(start_x as int == origin_x(n as int));
    assert(start_y as int == origin_y(n as int));
    let mut buf: Vec<u8> = Vec::new();
    let mut pix: usize = 0;
    while pix < SIZE * SIZE
        invariant
            pix <= SIZE * SIZE,
            buf@.len() == pix * 4,
            forall|i: int| 0 <= i < pix * 4 ==> buf@[i] == icon_byte(percent, *style, i),
            p as int == shown_value(percent),
            ds@.len() == digit_values(p as int).len(),
            forall|k: int| 0 <= k < ds@.len() ==> ds@[k] as int == #[trigger] digit_values(
                p as int,
            )[k],
            n == ds@.len(),
            s as int == glyph_scale(n as int),
            start_x as int == origin_x(n as int),
            start_y as int == origin_y(n as int),
            1 <= n <= 3,
            s == 5 || s == 3 || s == 2,
        decreases SIZE * SIZE - pix,
    {
        let x = pix % SIZE;
        let y = pix / SIZE;
        // Is this pixel part of a digit glyph?
        let mut lit = false;
        if x >= start_x && y >= start_y && y - start_y < 5 * s {
            let rel_x = x - start_x;
            let rel_y = y - start_y;
            let k = rel_x / (4 * s);
            let off = rel_x % (4 * s);
            if k < n && off < 3 * s {
                proof {
                    assert(0 <= ds@[k as int] < 10) by {
                        lemma_layout(percent);
                        assert(ds@[k as int] as int == digit_values(p as int)[k as int]);
                        assert(0 <= digit_values(shown_value(percent))[k as int] < 10);
                    }
                    assert(rel_y / s < 5) by (nonlinear_arith)
                        requires
                            rel_y < 5 * s,
                            s > 0,
                    ;
                    assert(off / s < 3) by (nonlinear_arith)
                        requires
                            off < 3 * s,
                            s > 0,
                    ;
                }
                lit = glyph_cell(ds[k], rel_y / s, off / s);
            }
        }
        proof {
            lemma_covers(percent, x as int, y as int);
            assert(lit == covers_by_division(percent, x as int, y as int));
        }
        let px: [u8; 4] = if lit {
            [style.fg[0], style.fg[1], style.fg[2], 255]
        } else if !style.round || in_rounded_rect(x, y) {
            let border_px = style.border && is_border(x, y);
            let alpha: u8 = if style.transparent && !border_px && !style.round {
                0
            } else {
                255
            };
            if border_px {
                [255, 255, 255, alpha]
            } else {
                [style.bg[0], style.bg[1], style.bg[2], alpha]
            }
        } else {
            [0, 0, 0, 0]
        };
        let ghost want = icon_pixel(percent, *style, x as int, y as int);
        assert(px@ == want);
        let mut c: usize = 0;
        while c < 4
            invariant
                c <= 4,
                pix < SIZE * SIZE,
                buf@.len() == pix * 4 + c,
                forall|i: int| 0 <= i < pix * 4 ==> buf@[i] == icon_byte(percent, *style, i),
                forall|j: int| 0 <= j < c ==> buf@[pix * 4 + j] == want[j],
                px@ == want,
            decreases 4 - c,
        {
            buf.push(px[c]);
            c += 1;
        }
        proof {
            assert forall|i: int| 0 <= i < (pix + 1) * 4 implies buf@[i] == icon_byte(
                percent,
                *style,
                i,
            ) by {
                if i >= pix * 4 {
                    let j = i - pix * 4;
                    assert(i / 4 == pix as int);
                    assert(i % 4 == j);
                    assert(buf@[pix * 4 + j] == want[j]);
                }
            }
        }
        pix += 1;
    }
    buf
}

} // verus!
