use snapvault::blur::{avg_color, Rgb8};
use snapvault::raster::RgbaImage;

fn sample_image() -> RgbaImage {
    // 2 x 2 RGBA: reds 10 20 / 30 40, greens 0 0 / 0 3, blues 255
    RgbaImage::from_raw(
        2,
        2,
        vec![10, 0, 255, 255, 20, 0, 255, 255, 30, 0, 255, 255, 40, 3, 255, 255],
    )
    .unwrap()
}

#[test]
fn avg_color_whole_image() {
    let c = avg_color(&sample_image(), 0, 0, 2, 2);
    assert_eq!(c, Rgb8 { r: 25, g: 0, b: 255 });
}

#[test]
fn avg_color_clamps_origin() {
    // x beyond the image: the last column is sampled
    let c = avg_color(&sample_image(), 5, 0, 1, 1);
    assert_eq!(c, Rgb8 { r: 20, g: 0, b: 255 });
    let c = avg_color(&sample_image(), 5, 9, 4, 4);
    assert_eq!(c, Rgb8 { r: 40, g: 3, b: 255 });
}

#[test]
fn avg_color_empty_block_is_gray() {
    let c = avg_color(&sample_image(), 0, 0, 0, 0);
    assert_eq!(c, Rgb8 { r: 128, g: 128, b: 128 });
    let empty = RgbaImage::from_raw(0, 0, Vec::new()).unwrap();
    assert_eq!(avg_color(&empty, 0, 0, 10, 10), Rgb8 { r: 128, g: 128, b: 128 });
}

#[test]
fn avg_color_bottom_row() {
    let c = avg_color(&sample_image(), 0, 1, 2, 1);
    assert_eq!(c, Rgb8 { r: 35, g: 1, b: 255 });
}
