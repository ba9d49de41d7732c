use snapvault::annotation::{extend_stroke, AnnotationHistory, ToolKind};

#[test]
fn push_undo_redo() {
    let mut h: AnnotationHistory<i32> = AnnotationHistory::new();
    assert!(h.annotations().is_empty());
    h.push(1);
    h.push(2);
    assert_eq!(h.annotations(), &[1, 2]);
    h.undo();
    assert_eq!(h.annotations(), &[1]);
    h.redo();
    assert_eq!(h.annotations(), &[1, 2]);
    h.redo();
    assert_eq!(h.annotations(), &[1, 2]);
}

#[test]
fn push_forgets_redo() {
    let mut h = AnnotationHistory::new();
    h.push(1);
    h.push(2);
    h.undo();
    h.push(3);
    h.redo();
    assert_eq!(h.annotations(), &[1, 3]);
    h.undo();
    h.undo();
    h.undo();
    assert!(h.annotations().is_empty());
    h.redo();
    h.redo();
    assert_eq!(h.annotations(), &[1, 3]);
}

#[test]
fn eraser_removes_topmost_hit() {
    let mut h = AnnotationHistory::new();
    h.push(1);
    h.push(2);
    h.push(1);
    assert!(h.remove_at_pos(|a: &i32| *a == 1));
    assert_eq!(h.annotations(), &[1, 2]);
    assert!(!h.remove_at_pos(|a: &i32| *a == 7));
    assert_eq!(h.annotations(), &[1, 2]);
    assert!(h.remove_at_pos(|a: &i32| *a == 1));
    assert_eq!(h.annotations(), &[2]);
    h.redo();
    assert_eq!(h.annotations(), &[2, 1]);
    h.redo();
    assert_eq!(h.annotations(), &[2, 1, 1]);
}

#[test]
fn eraser_on_empty_history() {
    let mut h: AnnotationHistory<i32> = AnnotationHistory::new();
    assert!(!h.remove_at_pos(|_a: &i32| true));
}

#[test]
fn strokes_by_tool() {
    let mut pen = vec![(0, 0)];
    extend_stroke(&mut pen, ToolKind::Pen, (1, 1));
    extend_stroke(&mut pen, ToolKind::Pen, (2, 2));
    assert_eq!(pen, vec![(0, 0), (1, 1), (2, 2)]);
    let mut rect = vec![(0, 0)];
    extend_stroke(&mut rect, ToolKind::Rect, (1, 1));
    extend_stroke(&mut rect, ToolKind::Rect, (5, 6));
    assert_eq!(rect, vec![(0, 0), (5, 6)]);
}
