use vstd::prelude::*;

verus! {

/// Drawing tools of the editor toolbar.
#[derive(Clone, Copy, Debug, PartialEq, Eq, Structural)]
pub enum ToolKind {
    Select,
    Rect,
    Ellipse,
    Arrow,
    Pen,
    Text,
    Blur,
    Eraser,
}

/// Annotations drawn so far, oldest first, and the stack of annotations
/// taken away by undo or the eraser, most recent last, for redo.
pub struct AnnotationHistory<A> {
    annotations: Vec<A>,
    undo_stack: Vec<A>,
}

/// The history as two sequences: drawn annotations and the redo stack.
pub struct HistoryView<A> {
    pub drawn: Seq<A>,
    pub redo: Seq<A>,
}

impl<A> View for AnnotationHistory<A> {
    type V = HistoryView<A>;

    closed spec fn view(&self) -> HistoryView<A> {
        HistoryView { drawn: self.annotations@, redo: self.undo_stack@ }
    }
}

/// A new annotation goes on top and the redo stack is forgotten.
pub open spec fn after_push<A>(h: HistoryView<A>, a: A) -> HistoryView<A> {
    HistoryView { drawn: h.drawn.push(a), redo: Seq::empty() }
}

/// Undo moves the newest annotation to the redo stack; nothing happens
/// when nothing is drawn.
pub open spec fn after_undo<A>(h: HistoryView<A>) -> HistoryView<A> {
    if h.drawn.len() > 0 {
        HistoryView { drawn: h.drawn.drop_last(), redo: h.redo.push(h.drawn.last()) }
    } else {
        h
    }
}

/// Redo moves the top of the redo stack back on top of the drawing;
/// nothing happens when the redo stack is empty.
pub open spec fn after_redo<A>(h: HistoryView<A>) -> HistoryView<A> {
    if h.redo.len() > 0 {
        HistoryView { drawn: h.drawn.push(h.redo.last()), redo: h.redo.drop_last() }
    } else {
        h
    }
}

/// Erasing the annotation at index `i` takes it out of the drawing and puts
/// it on the redo stack.
pub open spec fn after_erase<A>(h: HistoryView<A>, i: int) -> HistoryView<A> {
    HistoryView { drawn: h.drawn.remove(i), redo: h.redo.push(h.drawn[i]) }
}

impl<A> AnnotationHistory<A> {
    /// An empty history.
    pub fn new() -> (h: Self)
        ensures
            h@.drawn == Seq::<A>::empty(),
            h@.redo == Seq::<A>::empty(),
    {
        AnnotationHistory { annotations: Vec::new(), undo_stack: Vec::new() }
    }

    /// Adds a finished annotation; what could be redone is dropped.
    pub fn push(&mut self, ann: A)
        ensures
            final(self)@ == after_push(old(self)@, ann),
    {
        self.annotations.push(ann);
        self.undo_stack.clear();
    }

    /// Takes back the newest annotation.
    pub fn undo(&mut self)
        ensures
            final(self)@ == after_undo(old(self)@),
    {
        if let Some(ann) = self.annotations.pop() {
            self.undo_stack.push(ann);
        }
    }

    /// Puts back the annotation taken away last.
    pub fn redo(&mut self)
        ensures
            final(self)@ == after_redo(old(self)@),
    {
        if let Some(ann) = self.undo_stack.pop() {
            self.annotations.push(ann);
        }
    }

    /// The drawn annotations, oldest first.
    pub fn annotations(&self) -> (r: &[A])
        ensures
            r@ == self@.drawn,
    {
        self.annotations.as_slice()
    }

    /// Eraser: removes the newest annotation for which `is_hit` answers
    /// `true` (the one drawn on top) and returns whether there was one.
    /// `is_hit` is asked about the annotations from the newest down, and
    /// no further once it answers `true`.
    pub fn remove_at_pos<F: Fn(&A) -> bool>(&mut self, is_hit: F) -> (removed: bool)
        requires
            forall|i: int| 0 <= i < old(self)@.drawn.len() ==> call_requires(is_hit, (&old(self)@.drawn[i],)),
        ensures
            !removed ==> final(self)@ == old(self)@ && forall|i: int|
                0 <= i < old(self)@.drawn.len() ==> call_ensures(is_hit, (&old(self)@.drawn[i],), false),
            removed ==> exists|i: int|
                0 <= i < old(self)@.drawn.len() && call_ensures(is_hit, (&old(self)@.drawn[i],), true)
                    && (forall|k: int| i < k < old(self)@.drawn.len() ==> call_ensures(is_hit, (&old(self)@.drawn[k],), false))
                    && final(self)@ == after_erase(old(self)@, i),
    {
        let mut idx = self.annotations.len();
        while idx > 0
            invariant
                idx <= self.annotations@.len(),
                self@ == old(self)@,
                forall|i: int| 0 <= i < old(self)@.drawn.len() ==> call_requires(is_hit, (&old(self)@.drawn[i],)),
                forall|k: int| idx <= k < old(self)@.drawn.len() ==> call_ensures(is_hit, (&old(self)@.drawn[k],), false),
            decreases idx,
        {
            let i = idx - 1;
            let ann = &self.annotations[i];
            assert(*ann == old(self)@.drawn[i as int]);
            let hit = is_hit(ann);
            if hit {
                let removed = self.annotations.remove(i);
                self.undo_stack.push(removed);
                assert(self@.drawn =~= old(self)@.drawn.remove(i as int));
                assert(self@ == after_erase(old(self)@, i as int));
                assert(call_ensures(is_hit, (&old(self)@.drawn[i as int],), true));
                return true;
            }
            idx = i;
        }
        false
    }
}

/// Redo right after undo puts back exactly what undo took away.
pub proof fn lemma_undo_then_redo<A>(h: HistoryView<A>)
    requires
        h.drawn.len() > 0,
    ensures
        after_redo(after_undo(h)) == h,
{
    assert(after_redo(after_undo(h)).drawn =~= h.drawn);
    assert(after_redo(after_undo(h)).redo =~= h.redo);
}

/// Undo right after redo takes back exactly what redo put back.
pub proof fn lemma_redo_then_undo<A>(h: HistoryView<A>)
    requires
        h.redo.len() > 0,
    ensures
        after_undo(after_redo(h)) == h,
{
    assert(after_undo(after_redo(h)).drawn =~= h.drawn);
    assert(after_undo(after_redo(h)).redo =~= h.redo);
}

/// Undo right after adding an annotation restores the drawing as it was,
/// and only that annotation can be redone.
pub proof fn lemma_push_then_undo<A>(h: HistoryView<A>, a: A)
    ensures
        after_undo(after_push(h, a)).drawn == h.drawn,
        after_undo(after_push(h, a)).redo == seq![a],
{
    assert(after_undo(after_push(h, a)).drawn =~= h.drawn);
    assert(after_undo(after_push(h, a)).redo =~= seq![a]);
}

/// After a new annotation there is nothing to redo.
pub proof fn lemma_push_clears_redo<A>(h: HistoryView<A>, a: A)
    ensures
        after_redo(after_push(h, a)) == after_push(h, a),
{
}

/// Undo and redo never lose or invent an annotation: drawn and redoable
/// annotations together keep their number.
pub proof fn lemma_undo_redo_keep_count<A>(h: HistoryView<A>)
    ensures
        after_undo(h).drawn.len() + after_undo(h).redo.len() == h.drawn.len() + h.redo.len(),
        after_redo(h).drawn.len() + after_redo(h).redo.len() == h.drawn.len() + h.redo.len(),
{
}

/// Redo after the eraser brings the erased annotation back, on top of the
/// drawing.
pub proof fn lemma_erase_then_redo<A>(h: HistoryView<A>, i: int)
    requires
        0 <= i < h.drawn.len(),
    ensures
        after_redo(after_erase(h, i)).drawn == h.drawn.remove(i).push(h.drawn[i]),
        after_redo(after_erase(h, i)).redo == h.redo,
{
    assert(after_redo(after_erase(h, i)).redo =~= h.redo);
}

/// A point the user dragged to while drawing with `tool`: the pen keeps
/// every point, the other tools keep the start point and the latest point.
pub open spec fn stroke_after<P>(points: Seq<P>, tool: ToolKind, pos: P) -> Seq<P> {
    if tool == ToolKind::Pen || points.len() < 2 {
        points.push(pos)
    } else {
        points.update(1, pos)
    }
}

/// Records a drag to `pos` in the stroke being drawn with `tool`.
pub fn extend_stroke<P>(points: &mut Vec<P>, tool: ToolKind, pos: P)
    ensures
        final(points)@ == stroke_after(old(points)@, tool, pos),
{
    match tool {
        ToolKind::Pen => {
            points.push(pos);
        },
        _ => {
            if points.len() < 2 {
                points.push(pos);
            } else {
                points.set(1, pos);
            }
        },
    }
}

} // verus!
