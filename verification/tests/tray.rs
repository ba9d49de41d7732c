use snapvault::tray::{classify_menu_click, default_icon_pixels, TrayEvent};

fn pixel(px: &[u8], x: usize, y: usize) -> [u8; 4] {
    let o = (y * 32 + x) * 4;
    [px[o], px[o + 1], px[o + 2], px[o + 3]]
}

#[test]
fn menu_clicks() {
    let (c, s, q) = ("cap".to_string(), "set".to_string(), "quit".to_string());
    assert_eq!(classify_menu_click(Some(&"cap".to_string()), &c, &s, &q), TrayEvent::Capture);
    assert_eq!(classify_menu_click(Some(&"set".to_string()), &c, &s, &q), TrayEvent::Settings);
    assert_eq!(classify_menu_click(Some(&"quit".to_string()), &c, &s, &q), TrayEvent::Quit);
    assert_eq!(classify_menu_click(Some(&"x".to_string()), &c, &s, &q), TrayEvent::NoEvent);
    assert_eq!(classify_menu_click(None, &c, &s, &q), TrayEvent::NoEvent);
}

#[test]
fn icon_shape() {
    let px = default_icon_pixels();
    assert_eq!(px.len(), 32 * 32 * 4);
    let blue = [66, 133, 244, 255];
    let white = [220, 235, 255, 255];
    let clear = [0, 0, 0, 0];
    assert_eq!(pixel(&px, 15, 15), white);
    assert_eq!(pixel(&px, 15, 13), white);
    assert_eq!(pixel(&px, 16, 14), white);
    assert_eq!(pixel(&px, 17, 14), clear);
    assert_eq!(pixel(&px, 3, 3), blue);
    assert_eq!(pixel(&px, 12, 3), blue);
    assert_eq!(pixel(&px, 13, 3), clear);
    assert_eq!(pixel(&px, 5, 12), blue);
    assert_eq!(pixel(&px, 6, 12), clear);
    assert_eq!(pixel(&px, 28, 28), blue);
    assert_eq!(pixel(&px, 19, 26), blue);
    assert_eq!(pixel(&px, 28, 19), blue);
    assert_eq!(pixel(&px, 0, 0), clear);
    assert_eq!(pixel(&px, 31, 31), clear);
    let blue_count = (0..32 * 32).filter(|i| px[i * 4..i * 4 + 4] == blue).count();
    assert_eq!(blue_count, 4 * (30 + 30 - 9));
}
