use vstd::prelude::*;

verus! {

/// An RGBA image with eight bits per channel, backed by `image::RgbaImage`.
/// Verus sees only what `rgba_image_view` says of it.
#[verifier::external_body]
pub struct RgbaImage {
    inner: image::RgbaImage,
}

/// What an RGBA image holds: its width, its height and its raw channel
/// bytes (four per pixel, row by row, as `as_raw` hands them out).
pub uninterp spec fn rgba_image_view(img: RgbaImage) -> (u32, u32, Seq<u8>);

pub open spec fn image_width(img: RgbaImage) -> int {
    rgba_image_view(img).0 as int
}

pub open spec fn image_height(img: RgbaImage) -> int {
    rgba_image_view(img).1 as int
}

pub open spec fn image_bytes(img: RgbaImage) -> Seq<u8> {
    rgba_image_view(img).2
}

/// Byte `k` (0 to 3) of pixel `(col, row)` in a row-major buffer `w` pixels wide.
pub open spec fn pixel_byte(bytes: Seq<u8>, w: int, col: int, row: int, k: int) -> u8 {
    bytes[(row * w + col) * 4 + k]
}

/// `image::RgbaImage::from_raw`: `Some` exactly when the buffer holds at
/// least `4 * width * height` bytes; the image then keeps the buffer as it
/// is, with the given dimensions.
#[verifier::external_body]
fn rgba_image_from_raw(width: u32, height: u32, buf: Vec<u8>) -> (r: Option<RgbaImage>)
    ensures
        r is Some <==> 4 * (width as int) * (height as int) <= buf@.len(),
        r matches Some(img) ==> rgba_image_view(img) == (width, height, buf@),
{
    image::RgbaImage::from_raw(width, height, buf).map(|inner| RgbaImage { inner })
}

/// `image::ImageBuffer::dimensions` on an RGBA image: width and height.
#[verifier::external_body]
fn rgba_image_dimensions(img: &RgbaImage) -> (r: (u32, u32))
    ensures
        r.0 == rgba_image_view(*img).0,
        r.1 == rgba_image_view(*img).1,
{
    img.inner.dimensions()
}

/// `image::ImageBuffer::as_raw` on an RGBA image: the raw buffer, which the
/// image crate keeps at least `4 * width * height` bytes long.
#[verifier::external_body]
fn rgba_image_as_raw(img: &RgbaImage) -> (r: &Vec<u8>)
    ensures
        r@ == image_bytes(*img),
        4 * image_width(*img) * image_height(*img) <= r@.len(),
{
    img.inner.as_raw()
}

/// The region that `image::imageops::crop_imm` keeps: the origin is clamped
/// into the image and the size to what is left right of and below it.
pub open spec fn clamped_region(iw: int, ih: int, x: int, y: int, w: int, h: int) -> (
    int,
    int,
    int,
    int,
) {
    let cx = if x < iw { x } else { iw };
    let cy = if y < ih { y } else { ih };
    let cw = if w < iw - cx { w } else { iw - cx };
    let ch = if h < ih - cy { h } else { ih - cy };
    (cx, cy, cw, ch)
}

/// The bytes of the `w` x `h` block at `(x, y)` of a row-major RGBA buffer
/// `src_w` pixels wide, row by row.
pub open spec fn block_bytes(src: Seq<u8>, src_w: int, x: int, y: int, w: int, h: int) -> Seq<u8> {
    Seq::new(
        (4 * w * h) as nat,
        |i: int| pixel_byte(src, src_w, x + (i / 4) % w, y + (i / 4) / w, i % 4),
    )
}

/// The region of `img` that a crop at `(x, y)` of size `w` x `h` keeps.
pub open spec fn crop_region(img: RgbaImage, x: u32, y: u32, w: u32, h: u32) -> (int, int, int, int) {
    clamped_region(image_width(img), image_height(img), x as int, y as int, w as int, h as int)
}

/// The bytes of that region, row by row.
pub open spec fn cropped_bytes(img: RgbaImage, x: u32, y: u32, w: u32, h: u32) -> Seq<u8> {
    let (cx, cy, cw, ch) = crop_region(img, x, y, w, h);
    block_bytes(image_bytes(img), image_width(img), cx, cy, cw, ch)
}

/// `image::imageops::crop_imm(img, x, y, w, h).to_image()`: a new image
/// holding the clamped region of `img`, pixel by pixel.
#[verifier::external_body]
pub(crate) fn crop_to_image(img: &RgbaImage, x: u32, y: u32, w: u32, h: u32) -> (r: RgbaImage)
    ensures
        image_width(r) == crop_region(*img, x, y, w, h).2,
        image_height(r) == crop_region(*img, x, y, w, h).3,
        image_bytes(r) == cropped_bytes(*img, x, y, w, h),
{
    RgbaImage { inner: image::imageops::crop_imm(&img.inner, x, y, w, h).to_image() }
}

impl RgbaImage {
    /// Wraps a raw RGBA buffer of `width` x `height` pixels; `None` when the
    /// buffer is shorter than `4 * width * height` bytes.
    pub fn from_raw(width: u32, height: u32, buf: Vec<u8>) -> (r: Option<RgbaImage>)
        ensures
            r is Some <==> 4 * (width as int) * (height as int) <= buf@.len(),
            r matches Some(img) ==> rgba_image_view(img) == (width, height, buf@),
    {
        rgba_image_from_raw(width, height, buf)
    }

    /// Width and height in pixels.
    pub fn dimensions(&self) -> (r: (u32, u32))
        ensures
            r.0 == image_width(*self),
            r.1 == image_height(*self),
    {
        rgba_image_dimensions(self)
    }

    /// The raw channel bytes, four per pixel, row by row.
    pub fn as_raw(&self) -> (r: &Vec<u8>)
        ensures
            r@ == image_bytes(*self),
            4 * image_width(*self) * image_height(*self) <= r@.len(),
    {
        rgba_image_as_raw(self)
    }
}

} // verus!
