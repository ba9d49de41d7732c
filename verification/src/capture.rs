use crate::raster::{
    RgbaImage, block_bytes, crop_region, crop_to_image, cropped_bytes, image_bytes, image_height,
    image_width, pixel_byte,
};
use vstd::arithmetic::div_mod::lemma_fundamental_div_mod_converse;
use vstd::prelude::*;

verus! {

/// Byte `i` of `s` after the red and blue channels of every complete
/// 4-byte pixel have been exchanged. Bytes of a trailing partial pixel
/// are left as they are.
pub open spec fn rb_swapped_at(s: Seq<u8>, i: int) -> u8
    recommends
        0 <= i < s.len(),
{
    let base = i - i % 4;
    if base + 4 <= s.len() {
        if i % 4 == 0 {
            s[i + 2]
        } else if i % 4 == 2 {
            s[i - 2]
        } else {
            s[i]
        }
    } else {
        s[i]
    }
}

/// The whole buffer `s` with red and blue exchanged in every complete pixel.
pub open spec fn rb_swapped(s: Seq<u8>) -> Seq<u8> {
    Seq::new(s.len(), |i: int| rb_swapped_at(s, i))
}

/// Swapping red and blue twice gives back the original buffer: the
/// conversion works the same in both directions and undoes itself.
pub proof fn lemma_swap_rb_involution(s: Seq<u8>)
    ensures
        rb_swapped(rb_swapped(s)) == s,
        rb_swapped(s).len() == s.len(),
{
    let t = rb_swapped(s);
    assert forall|i: int| 0 <= i < s.len() implies #[trigger] rb_swapped(t)[i] == s[i] by {
        let base = i - i % 4;
        if base + 4 <= s.len() {
            if i % 4 == 0 {
                assert((i + 2) % 4 == 2);
                assert((i + 2) - (i + 2) % 4 == base);
            } else if i % 4 == 2 {
                assert((i - 2) % 4 == 0);
                assert((i - 2) - (i - 2) % 4 == base);
            }
        }
    }
    assert(rb_swapped(t) =~= s);
}

/// In-place RGBA <-> BGRA conversion: bytes 0 and 2 of every complete
/// 4-byte pixel are exchanged. Works in both directions.
pub fn swap_rb_inplace(buf: &mut [u8])
    ensures
        final(buf)@ == rb_swapped(old(buf)@),
{
    let len = buf.len();
    let ghost orig = buf@;
    let mut i: usize = 0;
    while len >= 8 && i <= len - 8
        invariant
            len == buf@.len(),
            len == orig.len(),
            i % 4 == 0,
            i <= len,
            forall|j: int| 0 <= j < i ==> buf@[j] == rb_swapped_at(orig, j),
            forall|j: int| i <= j < len ==> buf@[j] == orig[j],
        decreases len - i,
    {
        let t0 = buf[i];
        buf[i] = buf[i + 2];
        buf[i + 2] = t0;
        let t1 = buf[i + 4];
        buf[i + 4] = buf[i + 6];
        buf[i + 6] = t1;
        i = i + 8;
    }
    if len >= 4 && i <= len - 4 {
        let t = buf[i];
        buf[i] = buf[i + 2];
        buf[i + 2] = t;
    }
    assert(buf@ =~= rb_swapped(orig));
}

/// Byte `j` of a row of RGBA output whose BGRA source row starts at `off`:
/// blue and red trade places within each pixel.
pub open spec fn bgra_row_byte_as_rgba(bgra: Seq<u8>, off: int, j: int) -> u8 {
    if j % 4 == 0 {
        bgra[off + j + 2]
    } else if j % 4 == 2 {
        bgra[off + j - 2]
    } else {
        bgra[off + j]
    }
}

/// Start in a BGRA screen buffer `full_w` pixels wide of row `r` of the
/// block whose top-left pixel is `(x, y)`.
pub open spec fn block_row_offset(full_w: int, x: int, y: int, r: int) -> int {
    (y + r) * (4 * full_w) + 4 * x
}

proof fn lemma_row_index_bound(r: int, row: int, rb: int, jj: int)
    requires
        0 <= r < row,
        0 <= jj < rb,
    ensures
        0 <= r * rb + jj < row * rb,
{
    assert(0 <= r * rb + jj < row * rb) by (nonlinear_arith)
        requires
            0 <= r < row,
            0 <= jj < rb,
    ;
}

/// Crop the `w` x `h` block at `(x, y)` out of a full-screen BGRA buffer
/// `full_w` pixels wide and return it as an RGBA image.
pub fn crop_bgra_to_rgba(bgra: &[u8], full_w: u32, x: u32, y: u32, w: u32, h: u32) -> (img:
    RgbaImage)
    requires
        4 * full_w <= u32::MAX,
        4 * w <= u32::MAX,
        4 * w * h <= u32::MAX,
        y + h <= usize::MAX,
        h > 0 ==> block_row_offset(full_w as int, x as int, y as int, h - 1) + 4 * w
            <= bgra@.len(),
    ensures
        image_width(img) == w,
        image_height(img) == h,
        image_bytes(img).len() == 4 * w * h,
        forall|r: int, j: int|
            0 <= r < h && 0 <= j < 4 * w ==> #[trigger] image_bytes(img)[r * (4 * w) + j]
                == bgra_row_byte_as_rgba(
                bgra@,
                block_row_offset(full_w as int, x as int, y as int, r),
                j,
            ),
{
    let blen = bgra.len();
    let stride = (full_w * 4) as usize;
    let row_bytes32 = w * 4;
    proof {
        assert(row_bytes32 * h == 4 * w * h) by (nonlinear_arith)
            requires
                row_bytes32 == w * 4,
        ;
    }
    let row_bytes = row_bytes32 as usize;
    let total = (row_bytes32 * h) as usize;
    let mut out: Vec<u8> = Vec::with_capacity(total);
    let ghost rb = row_bytes as int;
    let mut row: usize = 0;
    while row < h as usize
        invariant
            stride == 4 * full_w,
            row_bytes == 4 * w,
            rb == row_bytes,
            total == 4 * w * h,
            row <= h,
            y + h <= usize::MAX,
            out@.len() == row * rb,
            blen == bgra@.len(),
            h > 0 ==> block_row_offset(full_w as int, x as int, y as int, h - 1) + 4 * w
                <= bgra@.len(),
            forall|r: int, j: int|
                0 <= r < row && 0 <= j < rb ==> #[trigger] out@[r * rb + j]
                    == bgra_row_byte_as_rgba(
                    bgra@,
                    block_row_offset(full_w as int, x as int, y as int, r),
                    j,
                ),
        decreases h - row,
    {
        proof {
            assert(block_row_offset(full_w as int, x as int, y as int, row as int) + 4 * w
                <= block_row_offset(full_w as int, x as int, y as int, h - 1) + 4 * w)
                by (nonlinear_arith)
                requires
                    row < h,
                    full_w >= 0,
            ;
        }
        assert((y + row) * stride == (y + row) * (4 * full_w));
        assert((y + row) * stride + 4 * x + row_bytes <= blen);
        let yr = y as usize + row;
        assert(yr * stride <= blen);
        let row_start = yr * stride;
        let src_off = row_start + (x as usize) * 4;
        let ghost done = out@;
        let mut j: usize = 0;
        while j < row_bytes
            invariant
                stride == 4 * full_w,
                row_bytes == 4 * w,
                rb == row_bytes,
                row < h,
                j <= row_bytes,
                j % 4 == 0,
                src_off == block_row_offset(full_w as int, x as int, y as int, row as int),
                src_off + row_bytes <= bgra@.len(),
                blen == bgra@.len(),
                out@.len() == row * rb + j,
                forall|r: int, jj: int|
                    0 <= r < row && 0 <= jj < rb ==> #[trigger] out@[r * rb + jj]
                        == bgra_row_byte_as_rgba(
                        bgra@,
                        block_row_offset(full_w as int, x as int, y as int, r),
                        jj,
                    ),
                forall|jj: int|
                    0 <= jj < j ==> #[trigger] out@[row * rb + jj] == bgra_row_byte_as_rgba(
                        bgra@,
                        src_off as int,
                        jj,
                    ),
            decreases row_bytes - j,
        {
            assert(j + 4 <= row_bytes);
            let p = src_off + j;
            let ghost before = out@;
            out.push(bgra[p + 2]);
            out.push(bgra[p + 1]);
            out.push(bgra[p]);
            out.push(bgra[p + 3]);
            proof {
                assert forall|r: int, jj: int| 0 <= r < row && 0 <= jj < rb implies #[trigger] out@[r
                    * rb + jj] == bgra_row_byte_as_rgba(
                    bgra@,
                    block_row_offset(full_w as int, x as int, y as int, r),
                    jj,
                ) by {
                    lemma_row_index_bound(r, row as int, rb, jj);
                    assert(out@[r * rb + jj] == before[r * rb + jj]);
                }
                assert forall|jj: int| 0 <= jj < j + 4 implies #[trigger] out@[row * rb + jj]
                    == bgra_row_byte_as_rgba(bgra@, src_off as int, jj) by {
                    if jj >= j {
                        assert((jj - j) % 4 == jj % 4 - j % 4);
                    }
                }
            }
            j = j + 4;
        }
        proof {
            assert((row + 1) * rb == row * rb + rb) by (nonlinear_arith);
        }
        row = row + 1;
    }
    proof {
        assert(row * rb == 4 * w * h) by (nonlinear_arith)
            requires
                row == h,
                rb == 4 * w,
        ;
    }
    match RgbaImage::from_raw(w, h, out) {
        Some(img) => img,
        None => {
            assert(false);
            RgbaImage::from_raw(0, 0, Vec::new()).unwrap()
        },
    }
}

/// Copy the part of `img` inside the `w` x `h` rectangle at `(x, y)` into a
/// new image; the rectangle is clamped to the image first.
pub fn capture_region(img: &RgbaImage, x: u32, y: u32, w: u32, h: u32) -> (r: RgbaImage)
    ensures
        image_width(r) == crop_region(*img, x, y, w, h).2,
        image_height(r) == crop_region(*img, x, y, w, h).3,
        image_bytes(r) == cropped_bytes(*img, x, y, w, h),
{
    crop_to_image(img, x, y, w, h)
}

/// Copy `rows` rows of `row_bytes` bytes each out of a mapped texture whose
/// rows start `row_pitch` bytes apart, dropping the padding at the end of
/// each row.
pub fn copy_pitched_rows(src: &[u8], row_pitch: usize, row_bytes: usize, rows: usize) -> (out:
    Vec<u8>)
    requires
        rows > 0 ==> (rows - 1) * row_pitch + row_bytes <= src@.len(),
    ensures
        out@.len() == rows * row_bytes,
        forall|r: int, j: int|
            0 <= r < rows && 0 <= j < row_bytes ==> #[trigger] out@[r * row_bytes + j] == src@[r
                * row_pitch + j],
{
    let mut out: Vec<u8> = Vec::new();
    let n = src.len();
    let ghost rb = row_bytes as int;
    let mut y: usize = 0;
    while y < rows
        invariant
            n == src@.len(),
            y <= rows,
            rb == row_bytes,
            rows > 0 ==> (rows - 1) * row_pitch + row_bytes <= src@.len(),
            out@.len() == y * rb,
            forall|r: int, j: int|
                0 <= r < y && 0 <= j < rb ==> #[trigger] out@[r * rb + j] == src@[r * row_pitch
                    + j],
        decreases rows - y,
    {
        proof {
            assert(y * row_pitch + row_bytes <= (rows - 1) * row_pitch + row_bytes)
                by (nonlinear_arith)
                requires
                    y < rows,
            ;
        }
        let start = y * row_pitch;
        let mut j: usize = 0;
        while j < row_bytes
            invariant
                n == src@.len(),
                y < rows,
                j <= row_bytes,
                rb == row_bytes,
                start == y * row_pitch,
                start + row_bytes <= src@.len(),
                out@.len() == y * rb + j,
                forall|r: int, jj: int|
                    0 <= r < y && 0 <= jj < rb ==> #[trigger] out@[r * rb + jj] == src@[r
                        * row_pitch + jj],
                forall|jj: int| 0 <= jj < j ==> #[trigger] out@[y * rb + jj] == src@[start + jj],
            decreases row_bytes - j,
        {
            let ghost before = out@;
            out.push(src[start + j]);
            proof {
                assert forall|r: int, jj: int| 0 <= r < y && 0 <= jj < rb implies #[trigger] out@[r
                    * rb + jj] == src@[r * row_pitch + jj] by {
                    lemma_row_index_bound(r, y as int, rb, jj);
                    assert(out@[r * rb + jj] == before[r * rb + jj]);
                }
            }
            j = j + 1;
        }
        proof {
            assert((y + 1) * rb == y * rb + rb) by (nonlinear_arith);
        }
        y = y + 1;
    }
    out
}

/// Both capture paths crop the same pixels: cutting a block out of a BGRA
/// screen buffer and converting it to RGBA (`crop_bgra_to_rgba`) gives, byte
/// for byte, what converting the whole screen to RGBA (`swap_rb_inplace`)
/// and then cutting the block out of it (`capture_region`) gives, for a
/// block inside a `full_w` x `full_h` screen.
pub proof fn lemma_crop_paths_agree(
    bgra: Seq<u8>,
    full_w: int,
    full_h: int,
    x: int,
    y: int,
    w: int,
    h: int,
    r: int,
    j: int,
)
    requires
        bgra.len() == 4 * full_w * full_h,
        0 <= x,
        0 <= y,
        x + w <= full_w,
        y + h <= full_h,
        0 <= r < h,
        0 <= j < 4 * w,
    ensures
        block_bytes(rb_swapped(bgra), full_w, x, y, w, h)[r * (4 * w) + j] == bgra_row_byte_as_rgba(
            bgra,
            block_row_offset(full_w, x, y, r),
            j,
        ),
        block_bytes(rb_swapped(bgra), full_w, x, y, w, h).len() == 4 * w * h,
{
    let i = r * (4 * w) + j;
    let c = j / 4;
    let k = j % 4;
    lemma_fundamental_div_mod_converse(j, 4, c, k);
    assert(0 <= c < w);
    assert(i == (r * w + c) * 4 + k) by (nonlinear_arith)
        requires
            i == r * (4 * w) + j,
            j == c * 4 + k,
    ;
    lemma_fundamental_div_mod_converse(i, 4, r * w + c, k);
    lemma_fundamental_div_mod_converse(r * w + c, w, r, c);
    assert(0 <= i < 4 * w * h) by (nonlinear_arith)
        requires
            i == r * (4 * w) + j,
            0 <= r < h,
            0 <= j < 4 * w,
    ;
    let idx = ((y + r) * full_w + x + c) * 4 + k;
    assert(block_bytes(rb_swapped(bgra), full_w, x, y, w, h)[i] == pixel_byte(
        rb_swapped(bgra),
        full_w,
        x + c,
        y + r,
        k,
    ));
    assert(idx == block_row_offset(full_w, x, y, r) + j) by (nonlinear_arith)
        requires
            idx == ((y + r) * full_w + x + c) * 4 + k,
            j == c * 4 + k,
    ;
    assert(0 <= (y + r) * full_w + x + c < full_w * full_h) by (nonlinear_arith)
        requires
            0 <= x,
            0 <= y,
            0 <= c < w,
            x + w <= full_w,
            0 <= r < h,
            y + h <= full_h,
    ;
    lemma_fundamental_div_mod_converse(idx, 4, (y + r) * full_w + x + c, k);
    let pix = (y + r) * full_w + x + c;
    assert(pix * 4 + 4 <= 4 * full_w * full_h) by (nonlinear_arith)
        requires
            0 <= pix < full_w * full_h,
    ;
    assert(idx - idx % 4 + 4 <= bgra.len());
}

} // verus!
