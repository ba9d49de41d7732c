use snapvault::blur::Rgb8;
use snapvault::win_overlay::{
    colorref_rgb, darken_inplace, magnifier_layout, magnifier_panel_texts, point_from_lparam, pt_in_rect,
    rect_between, span_fits_in_i32, toolbar_fits_in_i32, toolbar_rects, OverlayAction, Rect, SelectionState, VK_C, VK_ESCAPE, VK_LEFT,
    VK_RETURN, VK_S,
};

fn selected() -> SelectionState {
    let mut st = SelectionState::new(1920, 1080);
    let e = st.on_lbutton_down(100, 100);
    assert!(e.capture_mouse && e.repaint && !e.quit);
    st.on_mouse_move(200, 150);
    let e = st.on_lbutton_up(300, 250);
    assert!(e.release_mouse && e.repaint);
    st
}

#[test]
fn drag_makes_selection() {
    let st = selected();
    assert!(st.has_selection());
    assert!(!st.is_selecting());
    assert_eq!(st.sel_rect(), Rect { left: 100, top: 100, right: 300, bottom: 250 });
    let r = st.result();
    assert_eq!(r.action, OverlayAction::Cancel);
    assert_eq!(r.selection, Some((100, 100, 200, 150)));
}

#[test]
fn drag_backwards_is_normalized() {
    let mut st = SelectionState::new(800, 600);
    st.on_lbutton_down(-20, 300);
    st.on_lbutton_up(50, 100);
    assert_eq!(st.sel_rect(), Rect { left: -20, top: 100, right: 50, bottom: 300 });
    assert_eq!(st.result().selection, Some((0, 100, 70, 200)));
}

#[test]
fn tiny_drag_is_not_a_selection() {
    let mut st = SelectionState::new(800, 600);
    st.on_lbutton_down(10, 10);
    st.on_lbutton_up(13, 40);
    assert!(!st.has_selection());
    assert_eq!(st.result().selection, None);
}

#[test]
fn toolbar_geometry() {
    let b = toolbar_rects(&Rect { left: 100, top: 100, right: 300, bottom: 250 });
    assert_eq!(b.copy_r, Rect { left: 138, top: 258, right: 178, bottom: 294 });
    assert_eq!(b.save_r, Rect { left: 180, top: 258, right: 220, bottom: 294 });
    assert_eq!(b.cancel_r, Rect { left: 222, top: 258, right: 262, bottom: 294 });
    let neg = toolbar_rects(&Rect { left: -101, top: 0, right: 0, bottom: 10 });
    assert_eq!(neg.copy_r.left, -50 - 62);
}

#[test]
fn toolbar_buttons_choose_action() {
    let mut st = selected();
    let e = st.on_lbutton_down(140, 260);
    assert!(e.quit);
    assert_eq!(st.result().action, OverlayAction::Copy);

    let mut st = selected();
    let e = st.on_lbutton_down(200, 270);
    assert!(e.quit);
    assert_eq!(st.result().action, OverlayAction::Save);

    let mut st = selected();
    let e = st.on_lbutton_down(261, 293);
    assert!(e.quit);
    assert_eq!(st.result().action, OverlayAction::Cancel);
}

#[test]
fn click_elsewhere_starts_new_selection() {
    let mut st = selected();
    let e = st.on_lbutton_down(179, 260);
    assert!(!e.quit);
    assert!(st.is_selecting());
    assert!(!st.has_selection());
}

#[test]
fn keys_choose_action() {
    let mut st = SelectionState::new(800, 600);
    let e = st.on_key_down(VK_RETURN, false, (0, 0));
    assert!(!e.quit);
    let e = st.on_key_down(VK_C, true, (0, 0));
    assert!(!e.quit);
    let e = st.on_key_down(VK_ESCAPE, false, (0, 0));
    assert!(e.quit);
    assert_eq!(st.result().action, OverlayAction::Cancel);

    let mut st = selected();
    assert!(st.on_key_down(VK_C, true, (0, 0)).quit);
    assert_eq!(st.result().action, OverlayAction::Copy);
    let mut st = selected();
    assert!(!st.on_key_down(VK_S, false, (0, 0)).quit);
    assert!(st.on_key_down(VK_S, true, (0, 0)).quit);
    assert_eq!(st.result().action, OverlayAction::Save);
}

#[test]
fn arrow_keys_nudge_cursor() {
    let mut st = SelectionState::new(800, 600);
    let e = st.on_key_down(VK_LEFT, false, (50, 60));
    assert_eq!(e.move_cursor, Some((49, 60)));
    assert_eq!(st.cursor(), (49, 60));
    st.on_lbutton_down(10, 10);
    let e = st.on_key_down(0x28, false, (30, 30));
    assert_eq!(e.move_cursor, Some((30, 31)));
    st.on_lbutton_up(30, 31);
    assert_eq!(st.sel_rect(), Rect { left: 10, top: 10, right: 30, bottom: 31 });
    let e = st.on_key_down(0x27, false, (30, 31));
    assert_eq!(e.move_cursor, None);
}

#[test]
fn mouse_move_follows_cursor_only() {
    let mut st = SelectionState::new(800, 600);
    st.on_mouse_move(5, 6);
    assert_eq!(st.cursor(), (5, 6));
    assert!(!st.is_selecting());
    assert_eq!(st.sel_rect(), Rect { left: 0, top: 0, right: 0, bottom: 0 });
}

#[test]
fn paint_plan_by_state() {
    let st = SelectionState::new(800, 600);
    let p = st.paint_plan();
    assert_eq!(p.bright, None);
    assert_eq!(p.toolbar, None);
    assert!(p.magnifier);
    let st = selected();
    let p = st.paint_plan();
    assert_eq!(p.bright, Some(Rect { left: 100, top: 100, right: 300, bottom: 250 }));
    assert_eq!(p.toolbar.unwrap().copy_r.left, 138);
    assert!(!p.magnifier);
}

#[test]
fn lparam_decoding() {
    assert_eq!(point_from_lparam(0x0014_000A), (10, 20));
    assert_eq!(point_from_lparam(0xFFFE_FFFFu32 as i32 as isize), (-1, -2));
    assert_eq!(point_from_lparam(0x7FFF_8000), (-32768, 32767));
}

#[test]
fn rect_helpers() {
    let r = rect_between((5, 9), (1, 2));
    assert_eq!(r, Rect { left: 1, top: 2, right: 5, bottom: 9 });
    assert!(pt_in_rect(&r, 1, 2));
    assert!(!pt_in_rect(&r, 5, 2));
    assert!(!pt_in_rect(&r, 1, 9));
}

#[test]
fn magnifier_placement() {
    let l = magnifier_layout(100, 100, 1920, 1080);
    assert_eq!((l.x, l.y), (120, 120));
    assert_eq!((l.src_x, l.src_y, l.sample, l.cell), (85, 85, 30, 8));
    assert_eq!((l.pixel_x, l.pixel_y), (100, 100));
    let l = magnifier_layout(1800, 900, 1920, 1080);
    assert_eq!((l.x, l.y), (1540, 608));
    let l = magnifier_layout(-5, 2000, 1920, 1080);
    assert_eq!((l.pixel_x, l.pixel_y), (0, 1079));
}

#[test]
fn colorref_channels() {
    assert_eq!(colorref_rgb(0x0033_2211), Rgb8 { r: 0x11, g: 0x22, b: 0x33 });
}

#[test]
fn darken_scales_colour_bytes() {
    let mut px = vec![255u8, 128, 0, 200, 10];
    darken_inplace(&mut px);
    assert_eq!(px, vec![99, 50, 0, 200, 10]);
}

#[test]
fn toolbar_fits_for_ordinary_and_extreme_selections() {
    let ordinary = Rect { left: 100, top: 100, right: 300, bottom: 200 };
    assert!(toolbar_fits_in_i32(&ordinary));
    let at_bottom = Rect { left: 0, top: 0, right: 10, bottom: i32::MAX - 43 };
    assert!(!toolbar_fits_in_i32(&at_bottom));
    let just_fits = Rect { left: 0, top: 0, right: 10, bottom: i32::MAX - 44 };
    assert!(toolbar_fits_in_i32(&just_fits));
    let wide = Rect { left: i32::MAX, top: 0, right: i32::MAX, bottom: 10 };
    assert!(!toolbar_fits_in_i32(&wide));
}

#[test]
fn span_fits_only_for_sides_within_i32() {
    assert!(span_fits_in_i32((0, 0), (100, -100)));
    assert!(span_fits_in_i32((-1, 0), (i32::MAX - 1, 0)));
    assert!(!span_fits_in_i32((i32::MIN, 0), (0, 0)));
    assert!(!span_fits_in_i32((0, i32::MAX), (0, -1)));
}

#[test]
fn magnifier_panel_shows_colour_and_signed_position() {
    let (hex, coords) = magnifier_panel_texts(0x00F7C34F, -12, 1080);
    assert_eq!(hex, "#4FC3F7");
    assert_eq!(coords, "(-12,1080)");
    let (hex, coords) = magnifier_panel_texts(0, i32::MIN, 0);
    assert_eq!(hex, "#000000");
    assert_eq!(coords, "(-2147483648,0)");
}
