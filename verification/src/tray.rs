use vstd::prelude::*;

verus! {

/// What a poll of the tray menu found.
#[derive(Clone, Copy, Debug, PartialEq, Eq, Structural)]
pub enum TrayEvent {
    Capture,
    Settings,
    Quit,
    NoEvent,
}

/// The event for a click on the menu item with id `clicked`, given the ids
/// of the three items; `NoEvent` when no poll found a click.
pub open spec fn menu_event(
    clicked: Option<Seq<char>>,
    capture: Seq<char>,
    settings: Seq<char>,
    quit: Seq<char>,
) -> TrayEvent {
    match clicked {
        Some(id) => if id == capture {
            TrayEvent::Capture
        } else if id == settings {
            TrayEvent::Settings
        } else if id == quit {
            TrayEvent::Quit
        } else {
            TrayEvent::NoEvent
        },
        None => TrayEvent::NoEvent,
    }
}

/// Tray event for the menu click a poll returned, if any.
pub fn classify_menu_click(
    clicked: Option<&String>,
    capture_id: &String,
    settings_id: &String,
    quit_id: &String,
) -> (e: TrayEvent)
    ensures
        e == menu_event(
            match clicked {
                Some(s) => Some(s@),
                None => None,
            },
            capture_id@,
            settings_id@,
            quit_id@,
        ),
{
    match clicked {
        Some(id) => {
            if *id == *capture_id {
                TrayEvent::Capture
            } else if *id == *settings_id {
                TrayEvent::Settings
            } else if *id == *quit_id {
                TrayEvent::Quit
            } else {
                TrayEvent::NoEvent
            }
        },
        None => TrayEvent::NoEvent,
    }
}

/// Side of the square tray icon.
pub const ICON_SIZE: u32 = 32;

/// Whether `v` lies on an arm of a corner bracket (3..=12 or 19..=28).
pub open spec fn on_arm(v: int) -> bool {
    (3 <= v <= 12) || (19 <= v <= 28)
}

/// Whether `v` lies across the thickness of a corner bracket (3..=5 or 26..=28).
pub open spec fn across_arm(v: int) -> bool {
    (3 <= v <= 5) || (26 <= v <= 28)
}

/// The four viewfinder corner brackets, 10 pixels long and 3 thick,
/// 3 pixels in from the edges.
pub open spec fn in_bracket(x: int, y: int) -> bool {
    (on_arm(x) && across_arm(y)) || (across_arm(x) && on_arm(y))
}

pub open spec fn abs_i(v: int) -> int {
    if v < 0 {
        -v
    } else {
        v
    }
}

/// The 5x5 diamond focus dot around pixel (15, 15).
pub open spec fn in_dot(x: int, y: int) -> bool {
    abs_i(x - 15) + abs_i(y - 15) <= 2
}

/// Channel `k` of pixel `(x, y)` of the tray icon: the dot in pale blue over
/// the brackets in blue, on a transparent background.
pub open spec fn icon_byte(x: int, y: int, k: int) -> u8 {
    if in_dot(x, y) {
        if k == 0 {
            220
        } else if k == 1 {
            235
        } else {
            255
        }
    } else if in_bracket(x, y) {
        if k == 0 {
            66
        } else if k == 1 {
            133
        } else if k == 2 {
            244
        } else {
            255
        }
    } else {
        0
    }
}

/// RGBA pixels of the 32 x 32 tray icon, row by row.
pub fn default_icon_pixels() -> (px: Vec<u8>)
    ensures
        px@.len() == 4 * ICON_SIZE * ICON_SIZE,
        forall|y: int, x: int, k: int|
            0 <= y < 32 && 0 <= x < 32 && 0 <= k < 4 ==> #[trigger] px@[(y * 32 + x) * 4 + k]
                == icon_byte(x, y, k),
{
    let blue: [u8; 4] = [66, 133, 244, 255];
    let white: [u8; 4] = [220, 235, 255, 255];
    let mut px: Vec<u8> = Vec::new();
    let mut y: u32 = 0;
    while y < ICON_SIZE
        invariant
            y <= 32,
            px@.len() == y * 128,
            blue@ == seq![66u8, 133u8, 244u8, 255u8],
            white@ == seq![220u8, 235u8, 255u8, 255u8],
            forall|yy: int, x: int, k: int|
                0 <= yy < y && 0 <= x < 32 && 0 <= k < 4 ==> #[trigger] px@[(yy * 32 + x) * 4 + k]
                    == icon_byte(x, yy, k),
        decreases 32 - y,
    {
        let mut x: u32 = 0;
        while x < ICON_SIZE
            invariant
                y < 32,
                x <= 32,
                px@.len() == y * 128 + x * 4,
                blue@ == seq![66u8, 133u8, 244u8, 255u8],
                white@ == seq![220u8, 235u8, 255u8, 255u8],
                forall|yy: int, xx: int, k: int|
                    ((0 <= yy < y && 0 <= xx < 32) || (yy == y && 0 <= xx < x)) && 0 <= k < 4
                        ==> #[trigger] px@[(yy * 32 + xx) * 4 + k] == icon_byte(xx, yy, k),
            decreases 32 - x,
        {
            let dx: i32 = if x >= 15 { (x - 15) as i32 } else { (15 - x) as i32 };
            let dy: i32 = if y >= 15 { (y - 15) as i32 } else { (15 - y) as i32 };
            let dot = dx + dy <= 2;
            let arm_x = (3 <= x && x <= 12) || (19 <= x && x <= 28);
            let arm_y = (3 <= y && y <= 12) || (19 <= y && y <= 28);
            let thick_x = (3 <= x && x <= 5) || (26 <= x && x <= 28);
            let thick_y = (3 <= y && y <= 5) || (26 <= y && y <= 28);
            let c: [u8; 4] = if dot {
                white
            } else if (arm_x && thick_y) || (thick_x && arm_y) {
                blue
            } else {
                [0, 0, 0, 0]
            };
            let ghost before = px@;
            let ghost base = (y * 32 + x) * 4;
            px.push(c[0]);
            px.push(c[1]);
            px.push(c[2]);
            px.push(c[3]);
            proof {
                assert(base == y * 128 + x * 4);
                assert forall|yy: int, xx: int, k: int|
                    ((0 <= yy < y && 0 <= xx < 32) || (yy == y && 0 <= xx < x + 1)) && 0 <= k < 4
                        implies #[trigger] px@[(yy * 32 + xx) * 4 + k] == icon_byte(xx, yy, k) by {
                    if yy == y && xx == x {
                        assert((yy * 32 + xx) * 4 + k == base + k);
                    } else {
                        assert((yy * 32 + xx) * 4 + k < base) by (nonlinear_arith)
                            requires
                                (0 <= yy < y && 0 <= xx < 32) || (yy == y && 0 <= xx < x),
                                0 <= k < 4,
                                base == (y * 32 + x) * 4,
                        ;
                        assert(px@[(yy * 32 + xx) * 4 + k] == before[(yy * 32 + xx) * 4 + k]);
                    }
                }
            }
            x = x + 1;
        }
        y = y + 1;
    }
    px
}

} // verus!
