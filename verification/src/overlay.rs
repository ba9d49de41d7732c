use crate::annotation::{AnnotationHistory, HistoryView, ToolKind, after_redo, after_undo};
use vstd::prelude::*;

verus! {

/// What a drag on the editor overlay does, by where it started.
#[derive(Clone, Copy, Debug, PartialEq, Eq, Structural)]
pub enum DragKind {
    NewSelection,
    MoveSelection,
    ResizeTopLeft,
    ResizeTopRight,
    ResizeBottomLeft,
    ResizeBottomRight,
    ResizeTop,
    ResizeBottom,
    ResizeLeft,
    ResizeRight,
}

/// A button of the editor toolbar.
#[derive(Clone, Copy, Debug, PartialEq, Eq, Structural)]
pub enum ToolbarAction {
    SelectTool(ToolKind),
    Copy,
    Save,
    Cancel,
    Pin,
    Undo,
    Redo,
}

/// The editor toolbar shown under a confirmed selection.
pub struct Toolbar;

impl Toolbar {
    /// Carries out the toolbar button `action` clicked in a frame of the editor.
    /// The toolbar exists only under a confirmed selection that has a
    /// rectangle; elsewhere, or without a click, nothing changes and the editor
    /// stays open. Copy, Save, Cancel and Pin end the editor with that result;
    /// Undo and Redo act on the history; a tool button makes that tool active.
    pub fn apply_action<A>(
        confirmed: bool,
        has_rect: bool,
        action: Option<ToolbarAction>,
        history: &mut AnnotationHistory<A>,
        tool: &mut ToolKind,
    ) -> (r: OverlayResult)
        ensures
            ({
                let clicked = confirmed && has_rect && action is Some;
                &&& r == (if clicked {
                    toolbar_result(action->0)
                } else {
                    OverlayResult::Continue
                })
                &&& final(history)@ == (if clicked {
                    history_after_action(old(history)@, action->0)
                } else {
                    old(history)@
                })
                &&& *final(tool) == (if clicked {
                    tool_after_action(*old(tool), action->0)
                } else {
                    *old(tool)
                })
            }),
    {
        if !(confirmed && has_rect) {
            return OverlayResult::Continue;
        }
        match action {
            None => OverlayResult::Continue,
            Some(ToolbarAction::Cancel) => OverlayResult::Cancel,
            Some(ToolbarAction::Copy) => OverlayResult::Copy,
            Some(ToolbarAction::Save) => OverlayResult::Save,
            Some(ToolbarAction::Pin) => OverlayResult::Pin,
            Some(ToolbarAction::Undo) => {
                history.undo();
                OverlayResult::Continue
            },
            Some(ToolbarAction::Redo) => {
                history.redo();
                OverlayResult::Continue
            },
            Some(ToolbarAction::SelectTool(kind)) => {
                *tool = kind;
                OverlayResult::Continue
            },
        }
    }
}

/// Each toolbar button that ends the editor ends it with the result of its
/// own name (Copy with Copy, Save with Save, Cancel with Cancel, Pin with
/// Pin), so the four give four different results; Undo, Redo and the tool
/// buttons keep the editor open and leave the other's state alone: Undo
/// and Redo do not change the tool, a tool button does not touch the
/// history.
pub proof fn lemma_toolbar_buttons_name_their_result<A>(h: HistoryView<A>, tool: ToolKind, k: ToolKind)
    ensures
        toolbar_result(ToolbarAction::Copy) == OverlayResult::Copy,
        toolbar_result(ToolbarAction::Save) == OverlayResult::Save,
        toolbar_result(ToolbarAction::Cancel) == OverlayResult::Cancel,
        toolbar_result(ToolbarAction::Pin) == OverlayResult::Pin,
        toolbar_result(ToolbarAction::Undo) == OverlayResult::Continue,
        toolbar_result(ToolbarAction::Redo) == OverlayResult::Continue,
        toolbar_result(ToolbarAction::SelectTool(k)) == OverlayResult::Continue,
        history_after_action(h, ToolbarAction::SelectTool(k)) == h,
        tool_after_action(tool, ToolbarAction::SelectTool(k)) == k,
        tool_after_action(tool, ToolbarAction::Undo) == tool,
        tool_after_action(tool, ToolbarAction::Redo) == tool,
        forall|a: ToolbarAction| #[trigger] toolbar_result(a) != OverlayResult::Continue
            ==> history_after_action(h, a) == h && tool_after_action(tool, a) == tool,
{
}

/// What a frame of the editor overlay asks the app to do.
#[derive(Clone, Copy, Debug, PartialEq, Eq, Structural)]
pub enum OverlayResult {
    /// Keep showing the overlay (`None` in the editor).
    Continue,
    Cancel,
    Copy,
    Save,
    Pin,
}

/// The cursor shape over a confirmed selection, by what a drag there would do.
#[derive(Clone, Copy, Debug, PartialEq, Eq, Structural)]
pub enum CursorShape {
    Grabbing,
    ResizeNwSe,
    ResizeNeSw,
    ResizeVertical,
    ResizeHorizontal,
    Crosshair,
}

/// Cursor over a confirmed selection for the drag kind found under it.
pub open spec fn cursor_shape_for(hit: Option<DragKind>) -> CursorShape {
    match hit {
        Some(DragKind::MoveSelection) => CursorShape::Grabbing,
        Some(DragKind::ResizeTopLeft) | Some(DragKind::ResizeBottomRight) => CursorShape::ResizeNwSe,
        Some(DragKind::ResizeTopRight) | Some(DragKind::ResizeBottomLeft) => CursorShape::ResizeNeSw,
        Some(DragKind::ResizeTop) | Some(DragKind::ResizeBottom) => CursorShape::ResizeVertical,
        Some(DragKind::ResizeLeft) | Some(DragKind::ResizeRight) => CursorShape::ResizeHorizontal,
        _ => CursorShape::Crosshair,
    }
}

/// Cursor to show while hovering: the drag kind decides over a confirmed
/// selection, the crosshair is shown everywhere else.
pub fn hover_cursor(confirmed: bool, hit: Option<DragKind>) -> (c: CursorShape)
    ensures
        c == (if confirmed {
            cursor_shape_for(hit)
        } else {
            CursorShape::Crosshair
        }),
{
    if !confirmed {
        return CursorShape::Crosshair;
    }
    match hit {
        Some(DragKind::MoveSelection) => CursorShape::Grabbing,
        Some(DragKind::ResizeTopLeft) | Some(DragKind::ResizeBottomRight) => CursorShape::ResizeNwSe,
        Some(DragKind::ResizeTopRight) | Some(DragKind::ResizeBottomLeft) => CursorShape::ResizeNeSw,
        Some(DragKind::ResizeTop) | Some(DragKind::ResizeBottom) => CursorShape::ResizeVertical,
        Some(DragKind::ResizeLeft) | Some(DragKind::ResizeRight) => CursorShape::ResizeHorizontal,
        _ => CursorShape::Crosshair,
    }
}

/// Drag kind for a drag that starts where `hit` was found: handles and the
/// inside of a confirmed selection move or resize it, anything else starts
/// a new selection.
pub fn drag_kind_at(confirmed: bool, hit: Option<DragKind>) -> (k: DragKind)
    ensures
        k == (if confirmed {
            match hit {
                Some(h) => h,
                None => DragKind::NewSelection,
            }
        } else {
            DragKind::NewSelection
        }),
{
    if confirmed {
        match hit {
            Some(h) => h,
            None => DragKind::NewSelection,
        }
    } else {
        DragKind::NewSelection
    }
}

/// Whether the colour picker is shown for the active tool: not for the
/// selection tool nor the eraser.
pub fn shows_color_picker(tool: ToolKind) -> (b: bool)
    ensures
        b == (tool != ToolKind::Select && tool != ToolKind::Eraser),
{
    !(tool == ToolKind::Select || tool == ToolKind::Eraser)
}

/// The frame's result for a toolbar button: the four that end the editor
/// give their own result, the others keep it open.
pub open spec fn toolbar_result(action: ToolbarAction) -> OverlayResult {
    match action {
        ToolbarAction::Cancel => OverlayResult::Cancel,
        ToolbarAction::Copy => OverlayResult::Copy,
        ToolbarAction::Save => OverlayResult::Save,
        ToolbarAction::Pin => OverlayResult::Pin,
        _ => OverlayResult::Continue,
    }
}

/// The annotation history after a toolbar button.
pub open spec fn history_after_action<A>(h: HistoryView<A>, action: ToolbarAction) -> HistoryView<A> {
    match action {
        ToolbarAction::Undo => after_undo(h),
        ToolbarAction::Redo => after_redo(h),
        _ => h,
    }
}

/// The active tool after a toolbar button.
pub open spec fn tool_after_action(tool: ToolKind, action: ToolbarAction) -> ToolKind {
    match action {
        ToolbarAction::SelectTool(k) => k,
        _ => tool,
    }
}

} // verus!
