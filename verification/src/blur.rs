use crate::raster::{RgbaImage, image_bytes, image_height, image_width};
use vstd::prelude::*;

verus! {

/// An opaque colour given by its red, green and blue channels.
#[derive(Clone, Copy, Debug, PartialEq, Eq, Structural)]
pub struct Rgb8 {
    pub r: u8,
    pub g: u8,
    pub b: u8,
}

/// The pixel block that `avg_color` averages, as `(x0, x1, y0, y1)`: columns
/// `x0 .. x1` and rows `y0 .. y1` of an `iw` x `ih` image. The origin is
/// clamped to the last column and row, the far edges to the image size.
pub open spec fn sample_block(iw: int, ih: int, x: int, y: int, w: int, h: int) -> (
    int,
    int,
    int,
    int,
) {
    let x0 = if iw == 0 { 0 } else if x < iw - 1 { x } else { iw - 1 };
    let y0 = if ih == 0 { 0 } else if y < ih - 1 { y } else { ih - 1 };
    let x1 = if x + w < iw { x + w } else { iw };
    let y1 = if y + h < ih { y + h } else { ih };
    (x0, x1, y0, y1)
}

/// Number of pixels in the block.
pub open spec fn block_count(b: (int, int, int, int)) -> int {
    if b.0 < b.1 && b.2 < b.3 {
        (b.1 - b.0) * (b.3 - b.2)
    } else {
        0
    }
}

/// Sum of channel `k` over columns `x0 .. x1` of row `py`.
pub open spec fn row_channel_sum(bytes: Seq<u8>, iw: int, py: int, x0: int, x1: int, k: int) -> int
    decreases x1 - x0,
{
    if x1 <= x0 {
        0
    } else {
        row_channel_sum(bytes, iw, py, x0, x1 - 1, k) + bytes[(py * iw + x1 - 1) * 4 + k]
    }
}

/// Sum of channel `k` over columns `x0 .. x1` of rows `y0 .. y1`.
pub open spec fn block_channel_sum(
    bytes: Seq<u8>,
    iw: int,
    x0: int,
    x1: int,
    y0: int,
    y1: int,
    k: int,
) -> int
    decreases y1 - y0,
{
    if y1 <= y0 {
        0
    } else {
        block_channel_sum(bytes, iw, x0, x1, y0, y1 - 1, k) + row_channel_sum(
            bytes,
            iw,
            y1 - 1,
            x0,
            x1,
            k,
        )
    }
}

/// Sum of channel `k` of `img` over the block that `avg_color` samples.
pub open spec fn sample_sum(img: RgbaImage, x: u32, y: u32, w: u32, h: u32, k: int) -> int {
    let b = sample_block(image_width(img), image_height(img), x as int, y as int, w as int, h as int);
    if b.0 < b.1 {
        block_channel_sum(image_bytes(img), image_width(img), b.0, b.1, b.2, b.3, k)
    } else {
        0
    }
}

/// Number of pixels `avg_color` samples.
pub open spec fn sample_count(img: RgbaImage, x: u32, y: u32, w: u32, h: u32) -> int {
    block_count(
        sample_block(image_width(img), image_height(img), x as int, y as int, w as int, h as int),
    )
}

pub(crate) proof fn lemma_cell_index(py: int, px: int, iw: int, ih: int)
    requires
        0 <= py < ih,
        0 <= px < iw,
    ensures
        0 <= py * iw + px,
        (py * iw + px) * 4 + 4 <= 4 * iw * ih,
{
    assert(0 <= py * iw + px && (py * iw + px) * 4 + 4 <= 4 * iw * ih) by (nonlinear_arith)
        requires
            0 <= py < ih,
            0 <= px < iw,
    ;
}

proof fn lemma_count_bound(py: int, px: int, x0: int, x1: int, y0: int, y1: int)
    requires
        y0 <= py < y1,
        x0 <= px < x1,
    ensures
        (py - y0) * (x1 - x0) + (px - x0) < (x1 - x0) * (y1 - y0),
        (py - y0) * (x1 - x0) + (x1 - x0) == (py + 1 - y0) * (x1 - x0),
{
    assert((py - y0) * (x1 - x0) + (px - x0) < (x1 - x0) * (y1 - y0)) by (nonlinear_arith)
        requires
            y0 <= py < y1,
            x0 <= px < x1,
    ;
    assert((py - y0) * (x1 - x0) + (x1 - x0) == (py + 1 - y0) * (x1 - x0)) by (nonlinear_arith);
}

proof fn lemma_mean_fits(total: int, count: int)
    requires
        0 < count,
        0 <= total <= 255 * count,
    ensures
        0 <= total / count <= 255,
{
    assert(0 <= total / count <= 255) by (nonlinear_arith)
        requires
            0 < count,
            0 <= total <= 255 * count,
    ;
}

/// The smaller of two integers.
pub open spec fn min_int(a: int, b: int) -> int {
    if a <= b {
        a
    } else {
        b
    }
}

/// A block that starts inside the image is sampled over its part inside
/// the image: `min(x + w, width) - x` columns by `min(y + h, height) - y`
/// rows, the width coming from `w` and the height from `h` alone.
pub proof fn lemma_sample_count_in_image(img: RgbaImage, x: u32, y: u32, w: u32, h: u32)
    requires
        x < image_width(img),
        y < image_height(img),
    ensures
        sample_count(img, x, y, w, h) == (min_int(x + w, image_width(img)) - x) * (min_int(
            y + h,
            image_height(img),
        ) - y),
        w > 0 && h > 0 ==> sample_count(img, x, y, w, h) > 0,
{
    let cw = min_int(x + w, image_width(img)) - x;
    let ch = min_int(y + h, image_height(img)) - y;
    let b = sample_block(
        image_width(img),
        image_height(img),
        x as int,
        y as int,
        w as int,
        h as int,
    );
    assert(b.0 == x && b.2 == y);
    assert(b.1 - b.0 == cw && b.3 - b.2 == ch);
    assert(cw >= 0 && ch >= 0);
    assert(cw == 0 || ch == 0 ==> cw * ch == 0) by (nonlinear_arith);
    assert(w > 0 && h > 0 ==> cw * ch > 0) by (nonlinear_arith)
        requires
            w > 0 && h > 0 ==> cw > 0 && ch > 0,
    ;
}

proof fn lemma_uniform_row(bytes: Seq<u8>, iw: int, py: int, x0: int, x1: int, k: int, v: u8)
    requires
        x0 <= x1,
        forall|px: int| x0 <= px < x1 ==> #[trigger] bytes[(py * iw + px) * 4 + k] == v,
    ensures
        row_channel_sum(bytes, iw, py, x0, x1, k) == v * (x1 - x0),
    decreases x1 - x0,
{
    if x0 < x1 {
        lemma_uniform_row(bytes, iw, py, x0, x1 - 1, k, v);
        assert(bytes[(py * iw + (x1 - 1)) * 4 + k] == v);
        assert((py * iw + x1 - 1) * 4 + k == (py * iw + (x1 - 1)) * 4 + k);
        assert(v * (x1 - 1 - x0) + v == v * (x1 - x0)) by (nonlinear_arith);
    } else {
        assert(v * (x1 - x0) == 0) by (nonlinear_arith)
            requires
                x1 == x0,
        ;
    }
}

proof fn lemma_uniform_block(
    bytes: Seq<u8>,
    iw: int,
    x0: int,
    x1: int,
    y0: int,
    y1: int,
    k: int,
    v: u8,
)
    requires
        x0 <= x1,
        y0 <= y1,
        forall|px: int, py: int|
            x0 <= px < x1 && y0 <= py < y1 ==> #[trigger] bytes[(py * iw + px) * 4 + k] == v,
    ensures
        block_channel_sum(bytes, iw, x0, x1, y0, y1, k) == v * (x1 - x0) * (y1 - y0),
    decreases y1 - y0,
{
    if y0 < y1 {
        lemma_uniform_block(bytes, iw, x0, x1, y0, y1 - 1, k, v);
        assert forall|px: int| x0 <= px < x1 implies #[trigger] bytes[((y1 - 1) * iw + px) * 4 + k]
            == v by {}
        lemma_uniform_row(bytes, iw, y1 - 1, x0, x1, k, v);
        assert(v * (x1 - x0) * (y1 - 1 - y0) + v * (x1 - x0) == v * (x1 - x0) * (y1 - y0))
            by (nonlinear_arith);
        assert(block_channel_sum(bytes, iw, x0, x1, y0, y1, k) == block_channel_sum(
            bytes,
            iw,
            x0,
            x1,
            y0,
            y1 - 1,
            k,
        ) + row_channel_sum(bytes, iw, y1 - 1, x0, x1, k));
    } else {
        assert(v * (x1 - x0) * (y1 - y0) == 0) by (nonlinear_arith)
            requires
                y1 == y0,
        ;
    }
}

/// Where every sampled pixel of a block inside the image has value `v` in
/// channel `k` (the pixels in columns `x .. min(x + w, width)` and rows
/// `y .. min(y + h, height)`), the block's sum in that channel is `v` times
/// its size, so its mean, the channel `avg_color` gives, is `v`.
pub proof fn lemma_uniform_block_mean(img: RgbaImage, x: u32, y: u32, w: u32, h: u32, k: int, v: u8)
    requires
        x < image_width(img),
        y < image_height(img),
        w > 0,
        h > 0,
        forall|px: int, py: int|
            x <= px < min_int(x + w, image_width(img)) && y <= py < min_int(y + h, image_height(img))
                ==> #[trigger] image_bytes(img)[(py * image_width(img) + px) * 4 + k] == v,
    ensures
        sample_count(img, x, y, w, h) > 0,
        sample_sum(img, x, y, w, h, k) == v * sample_count(img, x, y, w, h),
        sample_sum(img, x, y, w, h, k) / sample_count(img, x, y, w, h) == v,
{
    lemma_sample_count_in_image(img, x, y, w, h);
    let iw = image_width(img);
    let x1 = min_int(x + w, iw);
    let y1 = min_int(y + h, image_height(img));
    lemma_uniform_block(image_bytes(img), iw, x as int, x1, y as int, y1, k, v);
    let n = sample_count(img, x, y, w, h);
    assert(n == (x1 - x) * (y1 - y));
    assert(v * (x1 - x) * (y1 - y) == v * n) by (nonlinear_arith)
        requires
            n == (x1 - x) * (y1 - y),
    ;
    assert((v * n) / n == v) by (nonlinear_arith)
        requires
            n > 0,
    ;
}

/// Mean colour of the pixels of `img` in the `w` x `h` block at `(x, y)`
/// (clamped as `sample_block` says); mid gray when the block is empty.
pub fn avg_color(img: &RgbaImage, x: u32, y: u32, w: u32, h: u32) -> (c: Rgb8)
    requires
        x + w <= u32::MAX,
        y + h <= u32::MAX,
        255 * sample_count(*img, x, y, w, h) <= u64::MAX,
    ensures
        sample_count(*img, x, y, w, h) == 0 ==> c == (Rgb8 { r: 128, g: 128, b: 128 }),
        sample_count(*img, x, y, w, h) > 0 ==> {
            &&& c.r == sample_sum(*img, x, y, w, h, 0) / sample_count(*img, x, y, w, h)
            &&& c.g == sample_sum(*img, x, y, w, h, 1) / sample_count(*img, x, y, w, h)
            &&& c.b == sample_sum(*img, x, y, w, h, 2) / sample_count(*img, x, y, w, h)
        },
{
    let (iw, ih) = img.dimensions();
    let x0 = if x < iw.saturating_sub(1) { x } else { iw.saturating_sub(1) };
    let y0 = if y < ih.saturating_sub(1) { y } else { ih.saturating_sub(1) };
    let x1 = if x + w < iw { x + w } else { iw };
    let y1 = if y + h < ih { y + h } else { ih };
    let raw = img.as_raw();
    let img_w = iw as usize;
    let raw_len = raw.len();
    let ghost bytes = raw@;
    let ghost b = (x0 as int, x1 as int, y0 as int, y1 as int);
    assert(b == sample_block(iw as int, ih as int, x as int, y as int, w as int, h as int));

    let mut rt: u64 = 0;
    let mut gt: u64 = 0;
    let mut bt: u64 = 0;
    let mut count: u64 = 0;

    if x0 < x1 {
        let mut py = y0;
        while py < y1
            invariant
                x0 < x1 <= iw,
                y0 <= py <= y1,
                y1 <= ih,
                img_w == iw,
                raw@ == bytes,
                raw_len == bytes.len(),
                4 * iw * ih <= bytes.len(),
                255 * block_count(b) <= u64::MAX,
                b == (x0 as int, x1 as int, y0 as int, y1 as int),
                count == (py - y0) * (x1 - x0),
                rt == block_channel_sum(bytes, iw as int, x0 as int, x1 as int, y0 as int, py as int, 0),
                gt == block_channel_sum(bytes, iw as int, x0 as int, x1 as int, y0 as int, py as int, 1),
                bt == block_channel_sum(bytes, iw as int, x0 as int, x1 as int, y0 as int, py as int, 2),
                rt <= 255 * count,
                gt <= 255 * count,
                bt <= 255 * count,
            decreases y1 - py,
        {
            let mut px = x0;
            while px < x1
                invariant
                    x0 <= px <= x1,
                    x1 <= iw,
                    y0 <= py < y1,
                    y1 <= ih,
                    img_w == iw,
                    raw@ == bytes,
                    raw_len == bytes.len(),
                    4 * iw * ih <= bytes.len(),
                    255 * block_count(b) <= u64::MAX,
                    b == (x0 as int, x1 as int, y0 as int, y1 as int),
                    count == (py - y0) * (x1 - x0) + (px - x0),
                    rt == block_channel_sum(bytes, iw as int, x0 as int, x1 as int, y0 as int, py as int, 0)
                        + row_channel_sum(bytes, iw as int, py as int, x0 as int, px as int, 0),
                    gt == block_channel_sum(bytes, iw as int, x0 as int, x1 as int, y0 as int, py as int, 1)
                        + row_channel_sum(bytes, iw as int, py as int, x0 as int, px as int, 1),
                    bt == block_channel_sum(bytes, iw as int, x0 as int, x1 as int, y0 as int, py as int, 2)
                        + row_channel_sum(bytes, iw as int, py as int, x0 as int, px as int, 2),
                    rt <= 255 * count,
                    gt <= 255 * count,
                    bt <= 255 * count,
                decreases x1 - px,
            {
                proof {
                    lemma_cell_index(py as int, px as int, iw as int, ih as int);
                    lemma_count_bound(py as int, px as int, x0 as int, x1 as int, y0 as int, y1 as int);
                }
                let idx = (py as usize * img_w + px as usize) * 4;
                rt = rt + raw[idx] as u64;
                gt = gt + raw[idx + 1] as u64;
                bt = bt + raw[idx + 2] as u64;
                count = count + 1;
                px = px + 1;
            }
            proof {
                lemma_count_bound(py as int, (x1 - 1) as int, x0 as int, x1 as int, y0 as int, y1 as int);
            }
            py = py + 1;
        }
        proof {
            assert((py - y0) * (x1 - x0) == (x1 - x0) * (y1 - y0)) by (nonlinear_arith)
                requires
                    py == y1,
            ;
        }
    }
    assert(count == block_count(b));
    assert(rt == sample_sum(*img, x, y, w, h, 0));
    assert(gt == sample_sum(*img, x, y, w, h, 1));
    assert(bt == sample_sum(*img, x, y, w, h, 2));

    if count == 0 {
        return Rgb8 { r: 128, g: 128, b: 128 };
    }
    proof {
        lemma_mean_fits(rt as int, count as int);
        lemma_mean_fits(gt as int, count as int);
        lemma_mean_fits(bt as int, count as int);
    }
    Rgb8 { r: (rt / count) as u8, g: (gt / count) as u8, b: (bt / count) as u8 }
}

} // verus!
