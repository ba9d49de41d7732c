use crate::blur::{Rgb8, lemma_cell_index};
use crate::raster::{RgbaImage, image_bytes, image_height, image_width, pixel_byte};
use vstd::arithmetic::div_mod::lemma_fundamental_div_mod_converse;
use vstd::prelude::*;

verus! {

/// `v` clamped into `0 ..= hi`.
pub open spec fn clamp_to(v: int, hi: int) -> int {
    if v < 0 {
        0
    } else if v > hi {
        hi
    } else {
        v
    }
}

/// Byte `k` of cell `(col, row)` of the editor magnifier's zoomed block: the
/// screenshot pixel at offset `(col - r, row - r)` from `(px, py)`, clamped
/// into the image, with its alpha made opaque.
pub open spec fn magnifier_byte(img: RgbaImage, px: int, py: int, r: int, col: int, row: int, k: int) -> u8 {
    if k == 3 {
        255
    } else {
        pixel_byte(
            image_bytes(img),
            image_width(img),
            clamp_to(px + col - r, image_width(img) - 1),
            clamp_to(py + row - r, image_height(img) - 1),
            k,
        )
    }
}

/// Byte `j` of the zoomed block, `d` cells wide, laid out row by row.
spec fn block_byte(img: RgbaImage, px: int, py: int, r: int, d: int, j: int) -> u8 {
    magnifier_byte(img, px, py, r, (j / 4) % d, (j / 4) / d, j % 4)
}

/// The RGBA pixels the editor magnifier enlarges: the `(2r + 1)` x `(2r + 1)`
/// block centred on `(px, py)`, each position clamped into the screenshot,
/// every pixel opaque.
pub fn magnifier_pixels(img: &RgbaImage, px: i32, py: i32, sample_r: i32) -> (out: Vec<u8>)
    requires
        1 <= image_width(*img) <= i32::MAX,
        1 <= image_height(*img) <= i32::MAX,
        0 <= sample_r,
        4 * (2 * sample_r + 1) * (2 * sample_r + 1) <= usize::MAX,
    ensures
        out@.len() == 4 * (2 * sample_r + 1) * (2 * sample_r + 1),
        forall|row: int, col: int, k: int|
            0 <= row < 2 * sample_r + 1 && 0 <= col < 2 * sample_r + 1 && 0 <= k < 4
                ==> #[trigger] out@[(row * (2 * sample_r + 1) + col) * 4 + k] == magnifier_byte(
                *img,
                px as int,
                py as int,
                sample_r as int,
                col,
                row,
                k,
            ),
{
    let (iw, ih) = img.dimensions();
    let raw = img.as_raw();
    let raw_len = raw.len();
    let ghost bytes = image_bytes(*img);
    let ghost dd = 2 * sample_r + 1;
    assert(dd * dd <= 4 * dd * dd) by (nonlinear_arith)
        requires
            dd >= 1,
    ;
    let d: usize = (sample_r as usize) * 2 + 1;
    let n: usize = d * d;
    let mut out: Vec<u8> = Vec::new();
    let mut i: usize = 0;
    while i < n
        invariant
            d == dd,
            dd == 2 * sample_r + 1,
            n == d * d,
            4 * dd * dd <= usize::MAX,
            i <= n,
            out@.len() == 4 * i,
            iw == image_width(*img),
            ih == image_height(*img),
            1 <= iw <= i32::MAX,
            1 <= ih <= i32::MAX,
            raw@ == bytes,
            raw_len == bytes.len(),
            bytes == image_bytes(*img),
            4 * iw * ih <= raw@.len(),
            forall|j: int|
                0 <= j < 4 * i ==> #[trigger] out@[j] == block_byte(
                    *img,
                    px as int,
                    py as int,
                    sample_r as int,
                    dd,
                    j,
                ),
        decreases n - i,
    {
        let row = i / d;
        let col = i % d;
        assert(row < d) by (nonlinear_arith)
            requires
                row == i / d,
                i < d * d,
                d >= 1,
        ;
        let sx: i64 = px as i64 + col as i64 - sample_r as i64;
        let sy: i64 = py as i64 + row as i64 - sample_r as i64;
        let cx: i64 = if sx < 0 {
            0
        } else if sx > iw as i64 - 1 {
            iw as i64 - 1
        } else {
            sx
        };
        let cy: i64 = if sy < 0 {
            0
        } else if sy > ih as i64 - 1 {
            ih as i64 - 1
        } else {
            sy
        };
        proof {
            lemma_cell_index(cy as int, cx as int, iw as int, ih as int);
        }
        let base = (cy as usize * iw as usize + cx as usize) * 4;
        let ghost before = out@;
        out.push(raw[base]);
        out.push(raw[base + 1]);
        out.push(raw[base + 2]);
        out.push(255u8);
        proof {
            assert forall|j: int| 0 <= j < 4 * (i + 1) implies #[trigger] out@[j] == block_byte(
                *img,
                px as int,
                py as int,
                sample_r as int,
                dd,
                j,
            ) by {
                if j >= 4 * i {
                    lemma_fundamental_div_mod_converse(j, 4, i as int, j - 4 * i);
                } else {
                    assert(out@[j] == before[j]);
                }
            }
        }
        i = i + 1;
    }
    proof {
        assert forall|row: int, col: int, k: int|
            0 <= row < dd && 0 <= col < dd && 0 <= k < 4 implies #[trigger] out@[(row * dd + col) * 4
            + k] == magnifier_byte(*img, px as int, py as int, sample_r as int, col, row, k) by {
            let c = row * dd + col;
            assert(0 <= c < dd * dd) by (nonlinear_arith)
                requires
                    c == row * dd + col,
                    0 <= row < dd,
                    0 <= col < dd,
            ;
            lemma_fundamental_div_mod_converse(c * 4 + k, 4, c, k);
            lemma_fundamental_div_mod_converse(c, dd, row, col);
        }
        assert(4 * dd * dd == 4 * (dd * dd)) by (nonlinear_arith);
    }
    out
}

/// The character of hexadecimal digit `d` (0 to 15), upper case.
pub open spec fn hex_digit(d: int) -> char {
    if d == 0 {
        '0'
    } else if d == 1 {
        '1'
    } else if d == 2 {
        '2'
    } else if d == 3 {
        '3'
    } else if d == 4 {
        '4'
    } else if d == 5 {
        '5'
    } else if d == 6 {
        '6'
    } else if d == 7 {
        '7'
    } else if d == 8 {
        '8'
    } else if d == 9 {
        '9'
    } else if d == 10 {
        'A'
    } else if d == 11 {
        'B'
    } else if d == 12 {
        'C'
    } else if d == 13 {
        'D'
    } else if d == 14 {
        'E'
    } else {
        'F'
    }
}

/// The text of digit `d`.
fn digit_str(d: u8) -> (s: &'static str)
    requires
        d < 16,
    ensures
        s@ == seq![hex_digit(d as int)],
{
    proof {
        reveal_strlit("0");
        reveal_strlit("1");
        reveal_strlit("2");
        reveal_strlit("3");
        reveal_strlit("4");
        reveal_strlit("5");
        reveal_strlit("6");
        reveal_strlit("7");
        reveal_strlit("8");
        reveal_strlit("9");
        reveal_strlit("A");
        reveal_strlit("B");
        reveal_strlit("C");
        reveal_strlit("D");
        reveal_strlit("E");
        reveal_strlit("F");
    }
    match d {
        0 => "0",
        1 => "1",
        2 => "2",
        3 => "3",
        4 => "4",
        5 => "5",
        6 => "6",
        7 => "7",
        8 => "8",
        9 => "9",
        10 => "A",
        11 => "B",
        12 => "C",
        13 => "D",
        14 => "E",
        _ => "F",
    }
}

/// Decimal digits of `n`, most significant first, without leading zeros.
pub open spec fn decimal_text(n: nat) -> Seq<char>
    decreases n,
{
    if n < 10 {
        seq![hex_digit(n as int)]
    } else {
        decimal_text(n / 10).push(hex_digit((n % 10) as int))
    }
}

/// Two upper-case hexadecimal digits of a byte.
pub open spec fn hex_byte_text(b: u8) -> Seq<char> {
    seq![hex_digit(b as int / 16), hex_digit(b as int % 16)]
}

/// `#RRGGBB` for a colour.
pub open spec fn hex_color_text(c: Rgb8) -> Seq<char> {
    seq!['#'] + hex_byte_text(c.r) + hex_byte_text(c.g) + hex_byte_text(c.b)
}

/// `(x, y)` in decimal.
pub open spec fn coord_text(x: u32, y: u32) -> Seq<char> {
    seq!['('] + decimal_text(x as nat) + seq![',', ' '] + decimal_text(y as nat) + seq![')']
}

fn append_hex_byte(s: &mut String, b: u8)
    ensures
        final(s)@ == old(s)@ + hex_byte_text(b),
{
    s.append(digit_str(b / 16));
    s.append(digit_str(b % 16));
    assert(final(s)@ =~= old(s)@ + hex_byte_text(b));
}

fn append_decimal(s: &mut String, n: u32)
    ensures
        final(s)@ == old(s)@ + decimal_text(n as nat),
    decreases n,
{
    let ghost start = s@;
    if n >= 10 {
        append_decimal(s, n / 10);
    }
    s.append(digit_str((n % 10) as u8));
    proof {
        if n >= 10 {
            assert(s@ =~= start + decimal_text(n as nat));
        } else {
            assert(s@ =~= start + decimal_text(n as nat));
        }
    }
}

/// Decimal text of a signed integer: a minus sign before the digits of its
/// magnitude when it is negative.
pub open spec fn signed_decimal(v: int) -> Seq<char> {
    if v < 0 {
        seq!['-'] + decimal_text((-v) as nat)
    } else {
        decimal_text(v as nat)
    }
}

pub(crate) fn append_signed_decimal(s: &mut String, v: i32)
    ensures
        final(s)@ == old(s)@ + signed_decimal(v as int),
{
    let ghost start = s@;
    if v < 0 {
        proof {
            reveal_strlit("-");
        }
        s.append("-");
        let m: u32 = if v == i32::MIN {
            2147483648u32
        } else {
            (-v) as u32
        };
        append_decimal(s, m);
        assert(s@ =~= start + signed_decimal(v as int));
    } else {
        append_decimal(s, v as u32);
    }
}

/// The colour text of the editor magnifier, `#RRGGBB`.
pub fn hex_color(c: Rgb8) -> (s: String)
    ensures
        s@ == hex_color_text(c),
{
    let mut s = String::new();
    proof {
        reveal_strlit("#");
    }
    s.append("#");
    append_hex_byte(&mut s, c.r);
    append_hex_byte(&mut s, c.g);
    append_hex_byte(&mut s, c.b);
    assert(s@ =~= hex_color_text(c));
    s
}

/// The position text of the editor magnifier, `(x, y)`.
pub fn coord_label(x: u32, y: u32) -> (s: String)
    ensures
        s@ == coord_text(x, y),
{
    proof {
        reveal_strlit("(");
        reveal_strlit(", ");
        reveal_strlit(")");
    }
    let mut s = String::new();
    s.append("(");
    append_decimal(&mut s, x);
    s.append(", ");
    append_decimal(&mut s, y);
    s.append(")");
    assert(s@ =~= coord_text(x, y));
    s
}

/// What the editor magnifier's panel shows: the screenshot pixel under the
/// cursor, its colour as text and its position as text.
pub struct MagnifierReadout {
    pub x: u32,
    pub y: u32,
    pub color: Rgb8,
    pub hex: String,
    pub coords: String,
}

/// The panel under the editor magnifier for the cursor at screenshot pixel
/// `(px, py)`: the position clamped into the screenshot, the colour there
/// and both texts.
pub fn magnifier_readout(img: &RgbaImage, px: i32, py: i32) -> (m: MagnifierReadout)
    requires
        1 <= image_width(*img) <= i32::MAX,
        1 <= image_height(*img) <= i32::MAX,
    ensures
        m.x == clamp_to(px as int, image_width(*img) - 1),
        m.y == clamp_to(py as int, image_height(*img) - 1),
        m.color.r == pixel_byte(image_bytes(*img), image_width(*img), m.x as int, m.y as int, 0),
        m.color.g == pixel_byte(image_bytes(*img), image_width(*img), m.x as int, m.y as int, 1),
        m.color.b == pixel_byte(image_bytes(*img), image_width(*img), m.x as int, m.y as int, 2),
        m.hex@ == hex_color_text(m.color),
        m.coords@ == coord_text(m.x, m.y),
{
    let (iw, ih) = img.dimensions();
    let raw = img.as_raw();
    let _raw_len = raw.len();
    let x: u32 = if px < 0 {
        0
    } else if px as i64 > iw as i64 - 1 {
        iw - 1
    } else {
        px as u32
    };
    let y: u32 = if py < 0 {
        0
    } else if py as i64 > ih as i64 - 1 {
        ih - 1
    } else {
        py as u32
    };
    proof {
        lemma_cell_index(y as int, x as int, iw as int, ih as int);
    }
    let base = (y as usize * iw as usize + x as usize) * 4;
    let color = Rgb8 { r: raw[base], g: raw[base + 1], b: raw[base + 2] };
    let hex = hex_color(color);
    let coords = coord_label(x, y);
    MagnifierReadout { x, y, color, hex, coords }
}

/// The value of a digit character in base 16 (`0`-`9`, `A`-`F`), read from
/// its character code; -1 for any other character.
pub open spec fn digit_value(c: char) -> int {
    let k = c as int;
    if 48 <= k <= 57 {
        k - 48
    } else if 65 <= k <= 70 {
        k - 55
    } else {
        -1
    }
}

/// The number a sequence of decimal digits denotes.
pub open spec fn decimal_value(s: Seq<char>) -> int
    decreases s.len(),
{
    if s.len() == 0 {
        0
    } else {
        decimal_value(s.drop_last()) * 10 + digit_value(s.last())
    }
}

/// Every digit character stands for its own value: `hex_digit(d)` is the
/// `d`-th character of `0123456789ABCDEF`.
pub proof fn lemma_hex_digit_denotes(d: int)
    requires
        0 <= d < 16,
    ensures
        digit_value(hex_digit(d)) == d,
        d < 10 ==> hex_digit(d) as int == 48 + d,
        d >= 10 ==> hex_digit(d) as int == 55 + d,
{
}

/// The two hex digits of a byte, read in base 16, give back the byte.
pub proof fn lemma_hex_byte_denotes(b: u8)
    ensures
        hex_byte_text(b).len() == 2,
        digit_value(hex_byte_text(b)[0]) * 16 + digit_value(hex_byte_text(b)[1]) == b,
{
    lemma_hex_digit_denotes(b as int / 16);
    lemma_hex_digit_denotes(b as int % 16);
}

/// The colour text is `#` followed by red, green and blue, each as two hex
/// digits that read back as that channel.
pub proof fn lemma_hex_color_text_denotes(c: Rgb8)
    ensures
        ({
            let t = hex_color_text(c);
            &&& t.len() == 7
            &&& t[0] == '#'
            &&& digit_value(t[1]) * 16 + digit_value(t[2]) == c.r
            &&& digit_value(t[3]) * 16 + digit_value(t[4]) == c.g
            &&& digit_value(t[5]) * 16 + digit_value(t[6]) == c.b
        }),
{
    lemma_hex_byte_denotes(c.r);
    lemma_hex_byte_denotes(c.g);
    lemma_hex_byte_denotes(c.b);
    let t = hex_color_text(c);
    assert(t[1] == hex_byte_text(c.r)[0] && t[2] == hex_byte_text(c.r)[1]);
    assert(t[3] == hex_byte_text(c.g)[0] && t[4] == hex_byte_text(c.g)[1]);
    assert(t[5] == hex_byte_text(c.b)[0] && t[6] == hex_byte_text(c.b)[1]);
}

/// The decimal text of `n` is made of decimal digits, has no leading zero,
/// and reads back as `n`.
pub proof fn lemma_decimal_text_denotes(n: nat)
    ensures
        decimal_value(decimal_text(n)) == n,
        decimal_text(n).len() >= 1,
        n >= 10 ==> decimal_text(n).len() > 1,
        forall|i: int|
            0 <= i < decimal_text(n).len() ==> 0 <= #[trigger] digit_value(decimal_text(n)[i]) <= 9,
        decimal_text(n).len() > 1 ==> decimal_text(n)[0] != '0',
    decreases n,
{
    if n < 10 {
        lemma_hex_digit_denotes(n as int);
        let t = decimal_text(n);
        assert(t.drop_last() =~= Seq::<char>::empty());
        assert(decimal_value(t.drop_last()) == 0);
        assert(t.last() == hex_digit(n as int));
    } else {
        lemma_decimal_text_denotes(n / 10);
        lemma_hex_digit_denotes((n % 10) as int);
        let t = decimal_text(n);
        assert(t.drop_last() =~= decimal_text(n / 10));
        assert(t.last() == hex_digit((n % 10) as int));
        assert(n == (n / 10) * 10 + n % 10);
        assert(t[0] == decimal_text(n / 10)[0]);
        if n / 10 < 10 {
            lemma_hex_digit_denotes((n / 10) as int);
            assert(decimal_text(n / 10)[0] == hex_digit((n / 10) as int));
            assert(digit_value(t[0]) != 0);
        }
        assert forall|i: int| 0 <= i < t.len() implies 0 <= #[trigger] digit_value(t[i]) <= 9 by {
            if i < t.len() - 1 {
                assert(t[i] == decimal_text(n / 10)[i]);
            }
        }
    }
}

/// The signed decimal text of `v`: a minus sign, only for a negative `v`,
/// followed by digits that read back as the magnitude of `v`.
pub proof fn lemma_signed_decimal_denotes(v: int)
    ensures
        v < 0 ==> signed_decimal(v)[0] == '-' && decimal_value(signed_decimal(v).drop_first()) == -v,
        v >= 0 ==> decimal_value(signed_decimal(v)) == v && signed_decimal(v)[0] != '-',
{
    if v < 0 {
        lemma_decimal_text_denotes((-v) as nat);
        assert(signed_decimal(v).drop_first() =~= decimal_text((-v) as nat));
    } else {
        lemma_decimal_text_denotes(v as nat);
        assert(0 <= digit_value(decimal_text(v as nat)[0]) <= 9);
    }
}

} // verus!
