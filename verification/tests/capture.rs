use snapvault::capture::{capture_region, copy_pitched_rows, crop_bgra_to_rgba, swap_rb_inplace};
use snapvault::raster::RgbaImage;

#[test]
fn swap_rb_swaps_every_pixel() {
    let mut buf = vec![1u8, 2, 3, 4, 5, 6, 7, 8, 9, 10, 11, 12];
    swap_rb_inplace(&mut buf);
    assert_eq!(buf, vec![3, 2, 1, 4, 7, 6, 5, 8, 11, 10, 9, 12]);
}

#[test]
fn swap_rb_leaves_partial_pixel() {
    let mut buf = vec![1u8, 2, 3, 4, 5, 6, 7];
    swap_rb_inplace(&mut buf);
    assert_eq!(buf, vec![3, 2, 1, 4, 5, 6, 7]);
    let mut short = vec![9u8, 8, 7];
    swap_rb_inplace(&mut short);
    assert_eq!(short, vec![9, 8, 7]);
}

#[test]
fn swap_rb_twice_is_identity() {
    let orig: Vec<u8> = (0u8..23).collect();
    let mut buf = orig.clone();
    swap_rb_inplace(&mut buf);
    assert_ne!(buf, orig);
    swap_rb_inplace(&mut buf);
    assert_eq!(buf, orig);
}

fn screen_2x2() -> Vec<u8> {
    // BGRA pixels (x, y): (0,0) (1,0) / (0,1) (1,1)
    vec![10, 20, 30, 40, 11, 21, 31, 41, 12, 22, 32, 42, 13, 23, 33, 43]
}

#[test]
fn crop_bgra_to_rgba_takes_column() {
    let img = crop_bgra_to_rgba(&screen_2x2(), 2, 1, 0, 1, 2);
    assert_eq!(img.dimensions(), (1, 2));
    assert_eq!(img.as_raw(), &vec![31u8, 21, 11, 41, 33, 23, 13, 43]);
}

#[test]
fn crop_bgra_to_rgba_empty_block() {
    let img = crop_bgra_to_rgba(&screen_2x2(), 2, 0, 0, 0, 0);
    assert_eq!(img.dimensions(), (0, 0));
    assert!(img.as_raw().is_empty());
}

#[test]
fn capture_region_clamps_to_image() {
    let mut rgba = screen_2x2();
    swap_rb_inplace(&mut rgba);
    let img = RgbaImage::from_raw(2, 2, rgba).unwrap();
    let cut = capture_region(&img, 1, 1, 5, 5);
    assert_eq!(cut.dimensions(), (1, 1));
    assert_eq!(cut.as_raw(), &vec![33u8, 23, 13, 43]);
    let whole = capture_region(&img, 0, 0, 2, 2);
    assert_eq!(whole.as_raw(), img.as_raw());
    let outside = capture_region(&img, 7, 7, 3, 3);
    assert_eq!(outside.dimensions(), (0, 0));
}

#[test]
fn crop_paths_agree_on_example() {
    let bgra = screen_2x2();
    let direct = crop_bgra_to_rgba(&bgra, 2, 0, 1, 2, 1);
    let mut rgba = bgra.clone();
    swap_rb_inplace(&mut rgba);
    let full = RgbaImage::from_raw(2, 2, rgba).unwrap();
    let via_full = capture_region(&full, 0, 1, 2, 1);
    assert_eq!(direct.dimensions(), via_full.dimensions());
    assert_eq!(direct.as_raw(), via_full.as_raw());
}

#[test]
fn from_raw_needs_enough_bytes() {
    assert!(RgbaImage::from_raw(2, 2, vec![0u8; 15]).is_none());
    let img = RgbaImage::from_raw(2, 1, vec![7u8; 9]).unwrap();
    assert_eq!(img.dimensions(), (2, 1));
    assert_eq!(img.as_raw().len(), 9);
}

#[test]
fn pitched_rows_drop_padding() {
    let src = vec![1u8, 2, 3, 9, 4, 5, 6, 9];
    assert_eq!(copy_pitched_rows(&src, 4, 3, 2), vec![1, 2, 3, 4, 5, 6]);
    assert_eq!(copy_pitched_rows(&src, 4, 4, 2), src);
    assert_eq!(copy_pitched_rows(&src, 4, 3, 0), Vec::<u8>::new());
    // the last row may end before the padding
    assert_eq!(copy_pitched_rows(&src[..7], 4, 3, 2), vec![1, 2, 3, 4, 5, 6]);
}
