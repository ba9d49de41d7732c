use snapvault::magnifier::{coord_label, hex_color, magnifier_pixels, magnifier_readout};
use snapvault::blur::Rgb8;
use snapvault::raster::RgbaImage;

/// A 3 x 2 image whose pixel (x, y) has red 10x + y, green 100 + x, blue 200 + y, alpha 7.
fn image() -> RgbaImage {
    let mut buf = Vec::new();
    for y in 0..2u8 {
        for x in 0..3u8 {
            buf.extend_from_slice(&[10 * x + y, 100 + x, 200 + y, 7]);
        }
    }
    RgbaImage::from_raw(3, 2, buf).unwrap()
}

#[test]
fn hex_and_coordinate_texts() {
    assert_eq!(hex_color(Rgb8 { r: 0x4F, g: 0xC3, b: 0xF7 }), "#4FC3F7");
    assert_eq!(hex_color(Rgb8 { r: 0, g: 10, b: 255 }), "#000AFF");
    assert_eq!(coord_label(0, 1080), "(0, 1080)");
    assert_eq!(coord_label(4294967295, 7), "(4294967295, 7)");
}

#[test]
fn zoomed_block_is_clamped_and_opaque() {
    let img = image();
    let px = magnifier_pixels(&img, 0, 1, 1);
    assert_eq!(px.len(), 4 * 3 * 3);
    // Row 0 looks at y = 0, rows 1 and 2 at y = 1 (clamped); columns at x = 0, 0, 1.
    let cell = |row: usize, col: usize| &px[(row * 3 + col) * 4..(row * 3 + col) * 4 + 4];
    assert_eq!(cell(0, 0), &[0, 100, 200, 255]);
    assert_eq!(cell(0, 2), &[10, 101, 200, 255]);
    assert_eq!(cell(1, 1), &[1, 100, 201, 255]);
    assert_eq!(cell(2, 2), &[11, 101, 201, 255]);
    let single = magnifier_pixels(&img, 2, 0, 0);
    assert_eq!(single, vec![20, 102, 200, 255]);
}

#[test]
fn readout_clamps_the_cursor() {
    let img = image();
    let m = magnifier_readout(&img, 9, -4);
    assert_eq!((m.x, m.y), (2, 0));
    assert_eq!(m.color, Rgb8 { r: 20, g: 102, b: 200 });
    assert_eq!(m.hex, "#1466C8");
    assert_eq!(m.coords, "(2, 0)");
}
