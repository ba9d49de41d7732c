use crate::blur::Rgb8;
use crate::magnifier::{append_signed_decimal, hex_color, hex_color_text, signed_decimal};
use vstd::prelude::*;

verus! {

// ── toolbar geometry ────────────────────────────
/// Width of a toolbar button.
pub const BTN_W: i32 = 40;

/// Height of a toolbar button.
pub const BTN_H: i32 = 36;

/// Space between two toolbar buttons.
pub const BTN_GAP: i32 = 2;

/// Space between the selection and the toolbar below it.
pub const TB_MARGIN: i32 = 8;

/// Virtual-key codes the overlay reacts to.
pub const VK_RETURN: u32 = 0x0D;

pub const VK_ESCAPE: u32 = 0x1B;

pub const VK_LEFT: u32 = 0x25;

pub const VK_UP: u32 = 0x26;

pub const VK_RIGHT: u32 = 0x27;

pub const VK_DOWN: u32 = 0x28;

pub const VK_C: u32 = 0x43;

pub const VK_S: u32 = 0x53;

/// A rectangle in screen pixels; `right` and `bottom` are exclusive.
#[derive(Clone, Copy, Debug, PartialEq, Eq, Structural)]
pub struct Rect {
    pub left: i32,
    pub top: i32,
    pub right: i32,
    pub bottom: i32,
}

/// The three toolbar buttons under a selection.
#[derive(Clone, Copy, Debug, PartialEq, Eq, Structural)]
pub struct BtnRect {
    pub copy_r: Rect,
    pub save_r: Rect,
    pub cancel_r: Rect,
}

/// What the user chose in the overlay.
#[derive(Clone, Copy, Debug, PartialEq, Eq, Structural)]
pub enum OverlayAction {
    Cancel,
    Copy,
    Save,
}

/// Outcome of the overlay: the action, and `(x, y, w, h)` of the selection
/// when the user made one.
#[derive(Clone, Copy, Debug, PartialEq, Eq)]
pub struct OverlayResult {
    pub action: OverlayAction,
    pub selection: Option<(u32, u32, u32, u32)>,
}

pub open spec fn min_i(a: int, b: int) -> int {
    if a <= b {
        a
    } else {
        b
    }
}

pub open spec fn max_i(a: int, b: int) -> int {
    if a >= b {
        a
    } else {
        b
    }
}

/// The rectangle spanned by two corner points, whatever their order.
pub open spec fn spanned(a: (i32, i32), b: (i32, i32)) -> Rect {
    Rect {
        left: min_i(a.0 as int, b.0 as int) as i32,
        top: min_i(a.1 as int, b.1 as int) as i32,
        right: max_i(a.0 as int, b.0 as int) as i32,
        bottom: max_i(a.1 as int, b.1 as int) as i32,
    }
}

/// Normalized rectangle spanned by two corner points.
pub fn rect_between(a: (i32, i32), b: (i32, i32)) -> (r: Rect)
    ensures
        r == spanned(a, b),
        r.left <= r.right,
        r.top <= r.bottom,
{
    let x1 = if a.0 <= b.0 { a.0 } else { b.0 };
    let y1 = if a.1 <= b.1 { a.1 } else { b.1 };
    let x2 = if a.0 >= b.0 { a.0 } else { b.0 };
    let y2 = if a.1 >= b.1 { a.1 } else { b.1 };
    Rect { left: x1, top: y1, right: x2, bottom: y2 }
}

/// Rust's `/ 2` on integers: rounds toward zero.
pub open spec fn half_toward_zero(a: int) -> int {
    if a >= 0 {
        a / 2
    } else {
        -((-a) / 2)
    }
}

/// Left edge of the toolbar: the three buttons and two gaps centred under
/// the selection.
pub open spec fn toolbar_left(sel: Rect) -> int {
    half_toward_zero(sel.left + sel.right) - (3 * BTN_W + 2 * BTN_GAP) / 2
}

/// Top edge of the toolbar.
pub open spec fn toolbar_top(sel: Rect) -> int {
    sel.bottom + TB_MARGIN
}

/// Button `i` (0 = copy, 1 = save, 2 = cancel) of the toolbar under `sel`.
pub open spec fn toolbar_button(sel: Rect, i: int) -> Rect {
    Rect {
        left: (toolbar_left(sel) + i * (BTN_W + BTN_GAP)) as i32,
        top: toolbar_top(sel) as i32,
        right: (toolbar_left(sel) + i * (BTN_W + BTN_GAP) + BTN_W) as i32,
        bottom: (toolbar_top(sel) + BTN_H) as i32,
    }
}

/// The toolbar's coordinates can be computed in `i32` without overflow.
pub open spec fn toolbar_fits(sel: Rect) -> bool {
    &&& i32::MIN <= sel.left + sel.right <= i32::MAX
    &&& i32::MIN <= toolbar_left(sel)
    &&& toolbar_left(sel) + 2 * (BTN_W + BTN_GAP) + BTN_W <= i32::MAX
    &&& toolbar_top(sel) + BTN_H <= i32::MAX
}

/// Whether the toolbar under `sel` can be laid out in `i32` arithmetic.
pub fn toolbar_fits_in_i32(sel: &Rect) -> (b: bool)
    ensures
        b == toolbar_fits(*sel),
{
    let sum = sel.left as i64 + sel.right as i64;
    if sum < i32::MIN as i64 || sum > i32::MAX as i64 {
        return false;
    }
    let left = sum / 2 - 62;
    left >= i32::MIN as i64 && left + 124 <= i32::MAX as i64 && sel.bottom as i64 + 44
        <= i32::MAX as i64
}

/// Both sides of the rectangle between two corners fit in `i32`.
pub open spec fn span_fits(a: (i32, i32), b: (i32, i32)) -> bool {
    let r = spanned(a, b);
    r.right - r.left <= i32::MAX && r.bottom - r.top <= i32::MAX
}

/// Whether both sides of the rectangle between `a` and `b` fit in `i32`.
pub fn span_fits_in_i32(a: (i32, i32), b: (i32, i32)) -> (r: bool)
    ensures
        r == span_fits(a, b),
{
    let w = if a.0 <= b.0 { b.0 as i64 - a.0 as i64 } else { a.0 as i64 - b.0 as i64 };
    let h = if a.1 <= b.1 { b.1 as i64 - a.1 as i64 } else { a.1 as i64 - b.1 as i64 };
    w <= i32::MAX as i64 && h <= i32::MAX as i64
}

fn button_at(left: i32, top: i32, i: i32) -> (r: Rect)
    requires
        0 <= i <= 2,
        i32::MIN <= left,
        left + 2 * (BTN_W + BTN_GAP) + BTN_W <= i32::MAX,
        top + BTN_H <= i32::MAX,
    ensures
        r.left == left + i * (BTN_W + BTN_GAP),
        r.top == top,
        r.right == left + i * (BTN_W + BTN_GAP) + BTN_W,
        r.bottom == top + BTN_H,
{
    assert(0 <= i * (BTN_W + BTN_GAP) <= 2 * (BTN_W + BTN_GAP)) by (nonlinear_arith)
        requires
            0 <= i <= 2,
            BTN_W + BTN_GAP == 42,
    ;
    Rect {
        left: left + i * (BTN_W + BTN_GAP),
        top,
        right: left + i * (BTN_W + BTN_GAP) + BTN_W,
        bottom: top + BTN_H,
    }
}

/// Copy, save and cancel buttons, side by side, centred under `sel`.
pub fn toolbar_rects(sel: &Rect) -> (b: BtnRect)
    requires
        toolbar_fits(*sel),
    ensures
        b.copy_r == toolbar_button(*sel, 0),
        b.save_r == toolbar_button(*sel, 1),
        b.cancel_r == toolbar_button(*sel, 2),
{
    let total_w = BTN_W * 3 + BTN_GAP * 2;
    let cx = (sel.left + sel.right) / 2;
    let left = cx - total_w / 2;
    let top = sel.bottom + TB_MARGIN;
    BtnRect {
        copy_r: button_at(left, top, 0),
        save_r: button_at(left, top, 1),
        cancel_r: button_at(left, top, 2),
    }
}

/// Whether `(x, y)` lies in `r` (left and top edges included, right and
/// bottom excluded).
pub open spec fn contains(r: Rect, x: int, y: int) -> bool {
    r.left <= x < r.right && r.top <= y < r.bottom
}

/// Whether `(x, y)` lies in `r`.
pub fn pt_in_rect(r: &Rect, x: i32, y: i32) -> (b: bool)
    ensures
        b == contains(*r, x as int, y as int),
{
    x >= r.left && x < r.right && y >= r.top && y < r.bottom
}

/// A 16-bit field read as a signed number.
pub open spec fn signed16(v: int) -> int {
    if v < 0x8000 {
        v
    } else {
        v - 0x10000
    }
}

/// Cursor position packed into a mouse message's `lparam`: x in the low
/// 16 bits, y in the next 16, both signed.
pub fn point_from_lparam(lparam: isize) -> (p: (i32, i32))
    ensures
        p.0 == signed16((lparam & 0xFFFF) as int),
        p.1 == signed16(((lparam >> 16) & 0xFFFF) as int),
{
    let lo = lparam & 0xFFFF;
    let hi = (lparam >> 16) & 0xFFFF;
    let x = lo as i16 as i32;
    let y = hi as i16 as i32;
    assert(0 <= lo <= 0xFFFF) by (bit_vector)
        requires
            lo == lparam & 0xFFFF,
    ;
    assert(0 <= hi <= 0xFFFF) by (bit_vector)
        requires
            hi == (lparam >> 16) & 0xFFFF,
    ;
    assert(x == signed16(lo as int)) by (bit_vector)
        requires
            0 <= lo <= 0xFFFF,
            x == lo as i16 as i32,
    ;
    assert(y == signed16(hi as int)) by (bit_vector)
        requires
            0 <= hi <= 0xFFFF,
            y == hi as i16 as i32,
    ;
    (x, y)
}

/// Side effects a message handler asks the overlay window to carry out.
#[derive(Clone, Copy, Debug, PartialEq, Eq)]
pub struct Effects {
    /// End the message loop (`PostQuitMessage`).
    pub quit: bool,
    /// Capture the mouse (`SetCapture`).
    pub capture_mouse: bool,
    /// Release the mouse (`ReleaseCapture`).
    pub release_mouse: bool,
    /// Repaint the window (`InvalidateRect`).
    pub repaint: bool,
    /// Move the system cursor there (`SetCursorPos`).
    pub move_cursor: Option<(i32, i32)>,
}

pub open spec fn no_effects() -> Effects {
    Effects {
        quit: false,
        capture_mouse: false,
        release_mouse: false,
        repaint: false,
        move_cursor: None,
    }
}

pub open spec fn quit_effects() -> Effects {
    Effects { quit: true, ..no_effects() }
}

pub open spec fn repaint_effects() -> Effects {
    Effects { repaint: true, ..no_effects() }
}

fn effects(quit: bool, capture_mouse: bool, release_mouse: bool, repaint: bool) -> (e: Effects)
    ensures
        e == (Effects { quit, capture_mouse, release_mouse, repaint, move_cursor: None }),
{
    Effects { quit, capture_mouse, release_mouse, repaint, move_cursor: None }
}

/// Everything the overlay remembers between window messages.
#[derive(Clone, Copy, Debug, PartialEq, Eq)]
pub struct OverlayModel {
    pub width: i32,
    pub height: i32,
    pub selecting: bool,
    pub sel_start: (i32, i32),
    pub sel_end: (i32, i32),
    pub has_selection: bool,
    pub cursor: (i32, i32),
    pub action: Option<OverlayAction>,
}

/// A finished selection: its sides differ by more than 3 pixels and its
/// size fits in `i32`.
pub open spec fn selection_ok(r: Rect) -> bool {
    &&& r.right - r.left > 3
    &&& r.bottom - r.top > 3
    &&& r.right - r.left <= i32::MAX
    &&& r.bottom - r.top <= i32::MAX
}

/// The selection rectangle of a model.
pub open spec fn model_rect(m: OverlayModel) -> Rect {
    spanned(m.sel_start, m.sel_end)
}

/// What a left-button press at `(x, y)` does. With a finished selection,
/// a press on a toolbar button picks that button's action and ends the
/// overlay; any other press starts a new selection there.
pub open spec fn after_lbutton_down(m: OverlayModel, x: i32, y: i32) -> (OverlayModel, Effects) {
    let r = model_rect(m);
    if m.has_selection && !m.selecting && contains(toolbar_button(r, 0), x as int, y as int) {
        (OverlayModel { action: Some(OverlayAction::Copy), ..m }, quit_effects())
    } else if m.has_selection && !m.selecting && contains(toolbar_button(r, 1), x as int, y as int) {
        (OverlayModel { action: Some(OverlayAction::Save), ..m }, quit_effects())
    } else if m.has_selection && !m.selecting && contains(toolbar_button(r, 2), x as int, y as int) {
        (OverlayModel { action: Some(OverlayAction::Cancel), ..m }, quit_effects())
    } else {
        (
            OverlayModel {
                selecting: true,
                has_selection: false,
                sel_start: (x, y),
                sel_end: (x, y),
                ..m
            },
            Effects { capture_mouse: true, repaint: true, ..no_effects() },
        )
    }
}

/// What a mouse move to `(x, y)` does: the cursor follows, and so does the
/// free corner of a selection being dragged.
pub open spec fn after_mouse_move(m: OverlayModel, x: i32, y: i32) -> (OverlayModel, Effects) {
    (
        OverlayModel {
            cursor: (x, y),
            sel_end: if m.selecting {
                (x, y)
            } else {
                m.sel_end
            },
            ..m
        },
        repaint_effects(),
    )
}

/// What releasing the left button at `(x, y)` does: a drag in progress
/// ends there, and becomes a selection when both sides exceed 3 pixels.
pub open spec fn after_lbutton_up(m: OverlayModel, x: i32, y: i32) -> (OverlayModel, Effects) {
    if m.selecting {
        let done = OverlayModel { selecting: false, sel_end: (x, y), ..m };
        let r = model_rect(done);
        (
            OverlayModel {
                has_selection: if r.right - r.left > 3 && r.bottom - r.top > 3 {
                    true
                } else {
                    m.has_selection
                },
                ..done
            },
            Effects { release_mouse: true, repaint: true, ..no_effects() },
        )
    } else {
        (m, no_effects())
    }
}

/// Whether `vk` is one of the four arrow keys.
pub open spec fn is_arrow(vk: u32) -> bool {
    vk == VK_LEFT || vk == VK_RIGHT || vk == VK_UP || vk == VK_DOWN
}

/// The cursor position one pixel away from `p` in the arrow's direction.
pub open spec fn arrow_target(vk: u32, p: (i32, i32)) -> (int, int) {
    if vk == VK_LEFT {
        (p.0 - 1, p.1 as int)
    } else if vk == VK_RIGHT {
        (p.0 + 1, p.1 as int)
    } else if vk == VK_UP {
        (p.0 as int, p.1 - 1)
    } else {
        (p.0 as int, p.1 + 1)
    }
}

/// What a key press does. `cursor` is the system cursor position at that
/// moment; only the arrow keys read it.
pub open spec fn after_key_down(m: OverlayModel, vk: u32, ctrl: bool, cursor: (i32, i32)) -> (
    OverlayModel,
    Effects,
) {
    if vk == VK_ESCAPE {
        (OverlayModel { action: Some(OverlayAction::Cancel), ..m }, quit_effects())
    } else if vk == VK_RETURN || (vk == VK_C && ctrl) {
        if m.has_selection {
            (OverlayModel { action: Some(OverlayAction::Copy), ..m }, quit_effects())
        } else {
            (m, no_effects())
        }
    } else if vk == VK_S && ctrl {
        if m.has_selection {
            (OverlayModel { action: Some(OverlayAction::Save), ..m }, quit_effects())
        } else {
            (m, no_effects())
        }
    } else if is_arrow(vk) && (!m.has_selection || m.selecting) {
        let t = arrow_target(vk, cursor);
        let p = (t.0 as i32, t.1 as i32);
        (
            OverlayModel {
                cursor: p,
                sel_end: if m.selecting {
                    p
                } else {
                    m.sel_end
                },
                ..m
            },
            Effects { repaint: true, move_cursor: Some(p), ..no_effects() },
        )
    } else {
        (m, no_effects())
    }
}

/// The outcome of the overlay for a model: its action (cancel when none was
/// chosen) and, with a finished selection, its position clamped to the
/// screen's top-left corner and its size.
pub open spec fn model_result(m: OverlayModel) -> OverlayResult {
    let r = model_rect(m);
    OverlayResult {
        action: match m.action {
            Some(a) => a,
            None => OverlayAction::Cancel,
        },
        selection: if m.has_selection {
            Some(
                (
                    max_i(r.left as int, 0) as u32,
                    max_i(r.top as int, 0) as u32,
                    (r.right - r.left) as u32,
                    (r.bottom - r.top) as u32,
                ),
            )
        } else {
            None
        },
    }
}

/// The selection overlay's state: the rectangle being dragged or chosen,
/// the cursor, and the action picked so far.
pub struct SelectionState {
    width: i32,
    height: i32,
    selecting: bool,
    sel_start: (i32, i32),
    sel_end: (i32, i32),
    has_selection: bool,
    cursor_x: i32,
    cursor_y: i32,
    action: Option<OverlayAction>,
}

impl View for SelectionState {
    type V = OverlayModel;

    closed spec fn view(&self) -> OverlayModel {
        OverlayModel {
            width: self.width,
            height: self.height,
            selecting: self.selecting,
            sel_start: self.sel_start,
            sel_end: self.sel_end,
            has_selection: self.has_selection,
            cursor: (self.cursor_x, self.cursor_y),
            action: self.action,
        }
    }
}

/// A finished selection is never being dragged, and its size fits in `i32`.
pub open spec fn model_ok(m: OverlayModel) -> bool {
    m.has_selection ==> !m.selecting && selection_ok(model_rect(m))
}

impl SelectionState {
    #[verifier::type_invariant]
    spec fn inv(self) -> bool {
        model_ok(self@)
    }

    /// A fresh overlay over a `width` x `height` screen: nothing selected,
    /// nothing chosen, cursor at the origin.
    pub fn new(width: i32, height: i32) -> (s: Self)
        ensures
            s@ == (OverlayModel {
                width,
                height,
                selecting: false,
                sel_start: (0, 0),
                sel_end: (0, 0),
                has_selection: false,
                cursor: (0, 0),
                action: None,
            }),
    {
        SelectionState {
            width,
            height,
            selecting: false,
            sel_start: (0, 0),
            sel_end: (0, 0),
            has_selection: false,
            cursor_x: 0,
            cursor_y: 0,
            action: None,
        }
    }

    /// The normalized selection rectangle.
    pub fn sel_rect(&self) -> (r: Rect)
        ensures
            r == model_rect(self@),
    {
        rect_between(self.sel_start, self.sel_end)
    }

    /// Where the current drag started.
    pub fn sel_start(&self) -> (p: (i32, i32))
        ensures
            p == self@.sel_start,
    {
        self.sel_start
    }

    /// Where the current drag or selection ends.
    pub fn sel_end(&self) -> (p: (i32, i32))
        ensures
            p == self@.sel_end,
    {
        self.sel_end
    }

    /// Screen width given at creation.
    pub fn width(&self) -> (w: i32)
        ensures
            w == self@.width,
    {
        self.width
    }

    /// Screen height given at creation.
    pub fn height(&self) -> (h: i32)
        ensures
            h == self@.height,
    {
        self.height
    }

    /// Whether a selection is being dragged.
    pub fn is_selecting(&self) -> (b: bool)
        ensures
            b == self@.selecting,
    {
        self.selecting
    }

    /// Whether a selection has been made.
    pub fn has_selection(&self) -> (b: bool)
        ensures
            b == self@.has_selection,
            model_ok(self@),
    {
        proof {
            use_type_invariant(self);
        }
        self.has_selection
    }

    /// Last known cursor position.
    pub fn cursor(&self) -> (p: (i32, i32))
        ensures
            p == self@.cursor,
    {
        (self.cursor_x, self.cursor_y)
    }

    /// Left button pressed at `(x, y)`.
    pub fn on_lbutton_down(&mut self, x: i32, y: i32) -> (e: Effects)
        requires
            old(self)@.has_selection ==> toolbar_fits(model_rect(old(self)@)),
        ensures
            (final(self)@, e) == after_lbutton_down(old(self)@, x, y),
    {
        proof {
            use_type_invariant(&*self);
        }
        if self.has_selection && !self.selecting {
            let r = self.sel_rect();
            let btns = toolbar_rects(&r);
            if pt_in_rect(&btns.copy_r, x, y) {
                self.action = Some(OverlayAction::Copy);
                return effects(true, false, false, false);
            }
            if pt_in_rect(&btns.save_r, x, y) {
                self.action = Some(OverlayAction::Save);
                return effects(true, false, false, false);
            }
            if pt_in_rect(&btns.cancel_r, x, y) {
                self.action = Some(OverlayAction::Cancel);
                return effects(true, false, false, false);
            }
        }
        self.has_selection = false;
        self.selecting = true;
        self.sel_start = (x, y);
        self.sel_end = (x, y);
        effects(false, true, false, true)
    }

    /// Mouse moved to `(x, y)`.
    pub fn on_mouse_move(&mut self, x: i32, y: i32) -> (e: Effects)
        ensures
            (final(self)@, e) == after_mouse_move(old(self)@, x, y),
    {
        proof {
            use_type_invariant(&*self);
        }
        self.cursor_x = x;
        self.cursor_y = y;
        if self.selecting {
            self.sel_end = (x, y);
        }
        effects(false, false, false, true)
    }

    /// Left button released at `(x, y)`.
    pub fn on_lbutton_up(&mut self, x: i32, y: i32) -> (e: Effects)
        requires
            old(self)@.selecting ==> span_fits(old(self)@.sel_start, (x, y)),
        ensures
            (final(self)@, e) == after_lbutton_up(old(self)@, x, y),
    {
        proof {
            use_type_invariant(&*self);
        }
        if self.selecting {
            self.selecting = false;
            self.sel_end = (x, y);
            let r = self.sel_rect();
            if r.right - r.left > 3 && r.bottom - r.top > 3 {
                self.has_selection = true;
            }
            return effects(false, false, true, true);
        }
        effects(false, false, false, false)
    }

    /// Key `vk` pressed, with Ctrl held or not; `cursor` is where the
    /// system cursor is.
    pub fn on_key_down(&mut self, vk: u32, ctrl: bool, cursor: (i32, i32)) -> (e: Effects)
        requires
            is_arrow(vk) && (!old(self)@.has_selection || old(self)@.selecting) ==> {
                let t = arrow_target(vk, cursor);
                &&& i32::MIN <= t.0 <= i32::MAX
                &&& i32::MIN <= t.1 <= i32::MAX
            },
        ensures
            (final(self)@, e) == after_key_down(old(self)@, vk, ctrl, cursor),
    {
        proof {
            use_type_invariant(&*self);
        }
        if vk == VK_ESCAPE {
            self.action = Some(OverlayAction::Cancel);
            return effects(true, false, false, false);
        }
        if vk == VK_RETURN || (vk == VK_C && ctrl) {
            if self.has_selection {
                self.action = Some(OverlayAction::Copy);
                return effects(true, false, false, false);
            }
            return effects(false, false, false, false);
        }
        if vk == VK_S && ctrl {
            if self.has_selection {
                self.action = Some(OverlayAction::Save);
                return effects(true, false, false, false);
            }
            return effects(false, false, false, false);
        }
        if (vk == VK_LEFT || vk == VK_RIGHT || vk == VK_UP || vk == VK_DOWN) && (
        !self.has_selection || self.selecting) {
            let (mut px, mut py) = cursor;
            if vk == VK_LEFT {
                px = px - 1;
            } else if vk == VK_RIGHT {
                px = px + 1;
            } else if vk == VK_UP {
                py = py - 1;
            } else {
                py = py + 1;
            }
            self.cursor_x = px;
            self.cursor_y = py;
            if self.selecting {
                self.sel_end = (px, py);
            }
            return Effects {
                quit: false,
                capture_mouse: false,
                release_mouse: false,
                repaint: true,
                move_cursor: Some((px, py)),
            };
        }
        effects(false, false, false, false)
    }

    /// The overlay's outcome once its message loop has ended.
    pub fn result(&self) -> (r: OverlayResult)
        ensures
            r == model_result(self@),
    {
        proof {
            use_type_invariant(self);
        }
        let selection = if self.has_selection {
            let r = self.sel_rect();
            let sx = if r.left > 0 { r.left as u32 } else { 0 };
            let sy = if r.top > 0 { r.top as u32 } else { 0 };
            let sw = (r.right - r.left) as u32;
            let sh = (r.bottom - r.top) as u32;
            Some((sx, sy, sw, sh))
        } else {
            None
        };
        let action = match self.action {
            Some(a) => a,
            None => OverlayAction::Cancel,
        };
        OverlayResult { action, selection }
    }
}

/// Escape always ends the overlay with Cancel, whatever the state.
pub proof fn lemma_escape_cancels(m: OverlayModel, ctrl: bool, cursor: (i32, i32))
    ensures
        after_key_down(m, VK_ESCAPE, ctrl, cursor).1.quit,
        model_result(after_key_down(m, VK_ESCAPE, ctrl, cursor).0).action == OverlayAction::Cancel,
{
}

/// Enter (0x0D) does exactly what Ctrl+C (0x43 with Ctrl) does, whether or
/// not Ctrl is held. Once a selection is made, both end the overlay with
/// Copy and keep the selection for the outcome; Ctrl+S (0x53 with Ctrl)
/// ends it with Save.
pub proof fn lemma_enter_copies_like_ctrl_c(m: OverlayModel, ctrl: bool, cursor: (i32, i32))
    ensures
        after_key_down(m, 0x0Du32, ctrl, cursor) == after_key_down(m, 0x43u32, true, cursor),
        m.has_selection ==> {
            let (m2, e) = after_key_down(m, 0x0Du32, ctrl, cursor);
            &&& e.quit
            &&& model_result(m2).action == OverlayAction::Copy
            &&& model_result(m2).selection == model_result(m).selection
        },
        m.has_selection ==> {
            let (m2, e) = after_key_down(m, 0x53u32, true, cursor);
            &&& e.quit
            &&& model_result(m2).action == OverlayAction::Save
            &&& model_result(m2).selection == model_result(m).selection
        },
{
}

/// Without a selection, Enter, Ctrl+C and Ctrl+S do nothing.
pub proof fn lemma_no_copy_without_selection(m: OverlayModel, vk: u32, ctrl: bool, cursor: (i32, i32))
    requires
        !m.has_selection,
        vk == VK_RETURN || (ctrl && (vk == VK_C || vk == VK_S)),
    ensures
        after_key_down(m, vk, ctrl, cursor) == (m, no_effects()),
{
}

/// Pressing the button at one point and releasing it at another, with no
/// finished selection before, selects the rectangle between the two points
/// exactly when both its sides exceed 3 pixels; the outcome then reports
/// that rectangle, clamped to the screen's top-left corner.
pub proof fn lemma_drag_selects(m: OverlayModel, p: (i32, i32), q: (i32, i32))
    requires
        !m.has_selection,
    ensures
        ({
            let m2 = after_lbutton_up(after_lbutton_down(m, p.0, p.1).0, q.0, q.1).0;
            let r = spanned(p, q);
            &&& !m2.selecting
            &&& model_rect(m2) == r
            &&& m2.has_selection == (r.right - r.left > 3 && r.bottom - r.top > 3)
            &&& m2.has_selection ==> model_result(m2).selection == Some(
                (
                    max_i(r.left as int, 0) as u32,
                    max_i(r.top as int, 0) as u32,
                    (r.right - r.left) as u32,
                    (r.bottom - r.top) as u32,
                ),
            )
        }),
{
}

/// Mouse moves during a drag do not change where it started, and the
/// release point alone decides where it ends.
pub proof fn lemma_moves_do_not_matter(m: OverlayModel, a: (i32, i32), q: (i32, i32))
    requires
        m.selecting,
    ensures
        after_lbutton_up(after_mouse_move(m, a.0, a.1).0, q.0, q.1).0.sel_start == m.sel_start,
        after_lbutton_up(after_mouse_move(m, a.0, a.1).0, q.0, q.1).0.sel_end == q,
        model_rect(after_lbutton_up(after_mouse_move(m, a.0, a.1).0, q.0, q.1).0)
            == model_rect(after_lbutton_up(m, q.0, q.1).0),
{
}

/// A reported selection is never smaller than 4 x 4 pixels.
pub proof fn lemma_reported_selection_size(m: OverlayModel)
    requires
        model_ok(m),
    ensures
        model_result(m).selection matches Some(sel) ==> sel.2 > 3 && sel.3 > 3,
{
}

/// A press on the copy, save or cancel button under a finished selection
/// ends the overlay with that button's action.
pub proof fn lemma_toolbar_buttons(m: OverlayModel, x: i32, y: i32)
    requires
        m.has_selection,
        !m.selecting,
    ensures
        contains(toolbar_button(model_rect(m), 0), x as int, y as int) ==> {
            &&& after_lbutton_down(m, x, y).1.quit
            &&& model_result(after_lbutton_down(m, x, y).0).action == OverlayAction::Copy
        },
        !contains(toolbar_button(model_rect(m), 0), x as int, y as int) && contains(
            toolbar_button(model_rect(m), 1),
            x as int,
            y as int,
        ) ==> {
            &&& after_lbutton_down(m, x, y).1.quit
            &&& model_result(after_lbutton_down(m, x, y).0).action == OverlayAction::Save
        },
{
}

/// What to draw in the overlay for a model.
#[derive(Clone, Copy, Debug, PartialEq, Eq)]
pub struct PaintPlan {
    /// Area shown undimmed and framed: the selection, when it is being
    /// dragged or has been made and is not empty.
    pub bright: Option<Rect>,
    /// Toolbar buttons, shown under a finished selection.
    pub toolbar: Option<BtnRect>,
    /// Whether the magnifier follows the cursor.
    pub magnifier: bool,
}

/// The paint plan of a model.
pub open spec fn model_paint_plan(m: OverlayModel) -> PaintPlan {
    let r = model_rect(m);
    let shown = (m.has_selection || m.selecting) && r.right - r.left > 0 && r.bottom - r.top > 0;
    PaintPlan {
        bright: if shown {
            Some(r)
        } else {
            None
        },
        toolbar: if shown && m.has_selection && !m.selecting {
            Some(
                BtnRect {
                    copy_r: toolbar_button(r, 0),
                    save_r: toolbar_button(r, 1),
                    cancel_r: toolbar_button(r, 2),
                },
            )
        } else {
            None
        },
        magnifier: !m.has_selection || m.selecting,
    }
}

impl SelectionState {
    /// What the next paint draws.
    pub fn paint_plan(&self) -> (p: PaintPlan)
        requires
            self@.selecting ==> span_fits(self@.sel_start, self@.sel_end),
            self@.has_selection ==> toolbar_fits(model_rect(self@)),
        ensures
            p == model_paint_plan(self@),
    {
        proof {
            use_type_invariant(self);
        }
        let mut bright = None;
        let mut toolbar = None;
        if self.has_selection || self.selecting {
            let r = self.sel_rect();
            let sw = r.right - r.left;
            let sh = r.bottom - r.top;
            if sw > 0 && sh > 0 {
                bright = Some(r);
                if self.has_selection && !self.selecting {
                    toolbar = Some(toolbar_rects(&r));
                }
            }
        }
        PaintPlan { bright, toolbar, magnifier: !self.has_selection || self.selecting }
    }
}

/// Side of the magnifier square.
pub const MAG_SIZE: i32 = 240;

/// Zoom factor of the magnifier.
pub const MAG_ZOOM: i32 = 8;

/// Distance between the cursor and the magnifier.
pub const MAG_OFFSET: i32 = 20;

/// Height of the colour and position panel under the magnifier.
pub const MAG_INFO_H: i32 = 32;

/// Where the magnifier goes and what it shows.
#[derive(Clone, Copy, Debug, PartialEq, Eq, Structural)]
pub struct MagnifierLayout {
    /// Top-left corner of the magnifier square.
    pub x: i32,
    pub y: i32,
    /// Top-left corner of the screen area it enlarges.
    pub src_x: i32,
    pub src_y: i32,
    /// Side of that area in screen pixels.
    pub sample: i32,
    /// Side of one enlarged pixel.
    pub cell: i32,
    /// Screen pixel whose colour the panel shows: the cursor, clamped to the screen.
    pub pixel_x: i32,
    pub pixel_y: i32,
}

/// The magnifier sits right of and below the cursor, and moves to the other
/// side when it would leave the screen.
pub open spec fn magnifier_x(cx: int, width: int) -> int {
    if cx + MAG_OFFSET + MAG_SIZE > width {
        cx - MAG_SIZE - MAG_OFFSET
    } else {
        cx + MAG_OFFSET
    }
}

pub open spec fn magnifier_y(cy: int, height: int) -> int {
    if cy + MAG_OFFSET + MAG_SIZE + MAG_INFO_H > height {
        cy - (MAG_SIZE + MAG_INFO_H) - MAG_OFFSET
    } else {
        cy + MAG_OFFSET
    }
}

pub open spec fn clamp_i(v: int, lo: int, hi: int) -> int {
    if v < lo {
        lo
    } else if v > hi {
        hi
    } else {
        v
    }
}

/// Magnifier placement for cursor `(cx, cy)` on a `width` x `height` screen.
pub fn magnifier_layout(cx: i32, cy: i32, width: i32, height: i32) -> (l: MagnifierLayout)
    requires
        width >= 1,
        height >= 1,
        cx + MAG_OFFSET + MAG_SIZE <= i32::MAX,
        cy + MAG_OFFSET + MAG_SIZE + MAG_INFO_H <= i32::MAX,
        cx - MAG_SIZE - MAG_OFFSET >= i32::MIN,
        cy - (MAG_SIZE + MAG_INFO_H) - MAG_OFFSET >= i32::MIN,
    ensures
        l.x == magnifier_x(cx as int, width as int),
        l.y == magnifier_y(cy as int, height as int),
        l.sample as int == MAG_SIZE as int / MAG_ZOOM as int,
        l.src_x == cx - l.sample / 2,
        l.src_y == cy - l.sample / 2,
        l.cell as int == MAG_SIZE as int / l.sample as int,
        l.pixel_x == clamp_i(cx as int, 0, width - 1),
        l.pixel_y == clamp_i(cy as int, 0, height - 1),
{
    let sample = MAG_SIZE / MAG_ZOOM;
    let mut mx = cx + MAG_OFFSET;
    let mut my = cy + MAG_OFFSET;
    let total_h = MAG_SIZE + MAG_INFO_H;
    if mx + MAG_SIZE > width {
        mx = cx - MAG_SIZE - MAG_OFFSET;
    }
    if my + total_h > height {
        my = cy - total_h - MAG_OFFSET;
    }
    let pixel_x = if cx < 0 {
        0
    } else if cx > width - 1 {
        width - 1
    } else {
        cx
    };
    let pixel_y = if cy < 0 {
        0
    } else if cy > height - 1 {
        height - 1
    } else {
        cy
    };
    MagnifierLayout {
        x: mx,
        y: my,
        src_x: cx - sample / 2,
        src_y: cy - sample / 2,
        sample,
        cell: MAG_SIZE / sample,
        pixel_x,
        pixel_y,
    }
}

/// Red, green and blue of a GDI `COLORREF` (`0x00BBGGRR`).
pub fn colorref_rgb(pixel: u32) -> (c: Rgb8)
    ensures
        c.r == pixel % 256,
        c.g == (pixel / 256) % 256,
        c.b == (pixel / 65536) % 256,
{
    let r = (pixel & 0xFF) as u8;
    let g = ((pixel >> 8) & 0xFF) as u8;
    let b = ((pixel >> 16) & 0xFF) as u8;
    assert(pixel & 0xFF == pixel % 256) by (bit_vector);
    assert((pixel >> 8) & 0xFF == (pixel / 256) % 256) by (bit_vector);
    assert((pixel >> 16) & 0xFF == (pixel / 65536) % 256) by (bit_vector);
    Rgb8 { r, g, b }
}

/// The colour of a GDI `COLORREF` (`0x00BBGGRR`).
pub open spec fn colorref_color(pixel: u32) -> Rgb8 {
    Rgb8 { r: (pixel % 256) as u8, g: ((pixel / 256) % 256) as u8, b: ((pixel / 65536) % 256) as u8 }
}

/// The two lines of the Win32 magnifier's panel for the screen pixel
/// `pixel` under the cursor at `(cx, cy)`: the colour as `#RRGGBB`, and the
/// cursor position as `(x,y)`, as given (not clamped), in signed decimal.
pub fn magnifier_panel_texts(pixel: u32, cx: i32, cy: i32) -> (r: (String, String))
    ensures
        r.0@ == hex_color_text(colorref_color(pixel)),
        r.1@ == seq!['('] + signed_decimal(cx as int) + seq![','] + signed_decimal(cy as int)
            + seq![')'],
{
    let c = colorref_rgb(pixel);
    assert(c == colorref_color(pixel));
    let hex = hex_color(c);
    proof {
        reveal_strlit("(");
        reveal_strlit(",");
        reveal_strlit(")");
    }
    let mut coords = String::new();
    coords.append("(");
    append_signed_decimal(&mut coords, cx);
    coords.append(",");
    append_signed_decimal(&mut coords, cy);
    coords.append(")");
    assert(coords@ =~= seq!['('] + signed_decimal(cx as int) + seq![','] + signed_decimal(cy as int)
        + seq![')']);
    (hex, coords)
}

/// Byte `i` of `s` after dimming: the colour bytes of every complete 4-byte
/// pixel are scaled by 100/256, the alpha byte and a trailing partial pixel
/// stay as they are.
pub open spec fn darkened_at(s: Seq<u8>, i: int) -> u8 {
    if i - i % 4 + 4 <= s.len() && i % 4 != 3 {
        (s[i] * 100 / 256) as u8
    } else {
        s[i]
    }
}

/// Dim BGRA pixels in place, for the backdrop around the selection.
pub fn darken_inplace(bits: &mut [u8])
    ensures
        final(bits)@.len() == old(bits)@.len(),
        forall|i: int| 0 <= i < old(bits)@.len() ==> #[trigger] final(bits)@[i] == darkened_at(old(bits)@, i),
{
    let len = bits.len();
    let ghost orig = bits@;
    let mut i: usize = 0;
    while len >= 4 && i <= len - 4
        invariant
            len == bits@.len(),
            len == orig.len(),
            i % 4 == 0,
            i <= len,
            forall|j: int| 0 <= j < i ==> #[trigger] bits@[j] == darkened_at(orig, j),
            forall|j: int| i <= j < len ==> #[trigger] bits@[j] == orig[j],
        decreases len - i,
    {
        let p0 = bits[i] as u32 * 100;
        let p1 = bits[i + 1] as u32 * 100;
        let p2 = bits[i + 2] as u32 * 100;
        assert(p0 >> 8 == p0 / 256) by (bit_vector);
        assert(p1 >> 8 == p1 / 256) by (bit_vector);
        assert(p2 >> 8 == p2 / 256) by (bit_vector);
        bits[i] = (p0 >> 8) as u8;
        bits[i + 1] = (p1 >> 8) as u8;
        bits[i + 2] = (p2 >> 8) as u8;
        i = i + 4;
    }
}

} // verus!
