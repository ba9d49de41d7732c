use snapvault::annotation::{AnnotationHistory, ToolKind};
use snapvault::overlay::{
    drag_kind_at, hover_cursor, shows_color_picker, CursorShape, DragKind,
    OverlayResult, Toolbar, ToolbarAction,
};

#[test]
fn hover_cursors() {
    assert_eq!(hover_cursor(false, Some(DragKind::MoveSelection)), CursorShape::Crosshair);
    assert_eq!(hover_cursor(true, Some(DragKind::MoveSelection)), CursorShape::Grabbing);
    assert_eq!(hover_cursor(true, Some(DragKind::ResizeTopLeft)), CursorShape::ResizeNwSe);
    assert_eq!(hover_cursor(true, Some(DragKind::ResizeBottomLeft)), CursorShape::ResizeNeSw);
    assert_eq!(hover_cursor(true, Some(DragKind::ResizeBottom)), CursorShape::ResizeVertical);
    assert_eq!(hover_cursor(true, Some(DragKind::ResizeRight)), CursorShape::ResizeHorizontal);
    assert_eq!(hover_cursor(true, None), CursorShape::Crosshair);
}

#[test]
fn drag_kinds() {
    assert_eq!(drag_kind_at(false, Some(DragKind::ResizeTop)), DragKind::NewSelection);
    assert_eq!(drag_kind_at(true, Some(DragKind::ResizeTop)), DragKind::ResizeTop);
    assert_eq!(drag_kind_at(true, None), DragKind::NewSelection);
}

#[test]
fn color_picker_visibility() {
    assert!(!shows_color_picker(ToolKind::Select));
    assert!(!shows_color_picker(ToolKind::Eraser));
    assert!(shows_color_picker(ToolKind::Pen));
    assert!(shows_color_picker(ToolKind::Blur));
}

#[test]
fn toolbar_actions_apply_only_under_a_confirmed_selection() {
    let mut h: AnnotationHistory<u32> = AnnotationHistory::new();
    h.push(1);
    h.push(2);
    let mut tool = ToolKind::Select;
    assert_eq!(
        Toolbar::apply_action(false, true, Some(ToolbarAction::Copy), &mut h, &mut tool),
        OverlayResult::Continue
    );
    assert_eq!(
        Toolbar::apply_action(true, false, Some(ToolbarAction::Undo), &mut h, &mut tool),
        OverlayResult::Continue
    );
    assert_eq!(h.annotations(), &[1, 2]);
    assert_eq!(
        Toolbar::apply_action(true, true, Some(ToolbarAction::Undo), &mut h, &mut tool),
        OverlayResult::Continue
    );
    assert_eq!(h.annotations(), &[1]);
    Toolbar::apply_action(true, true, Some(ToolbarAction::Redo), &mut h, &mut tool);
    assert_eq!(h.annotations(), &[1, 2]);
    Toolbar::apply_action(true, true, Some(ToolbarAction::SelectTool(ToolKind::Pen)), &mut h, &mut tool);
    assert_eq!(tool, ToolKind::Pen);
    assert_eq!(Toolbar::apply_action(true, true, None, &mut h, &mut tool), OverlayResult::Continue);
    assert_eq!(
        Toolbar::apply_action(true, true, Some(ToolbarAction::Pin), &mut h, &mut tool),
        OverlayResult::Pin
    );
    assert_eq!(
        Toolbar::apply_action(true, true, Some(ToolbarAction::Save), &mut h, &mut tool),
        OverlayResult::Save
    );
}
