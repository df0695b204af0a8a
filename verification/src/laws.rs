//! What holds of the editor's operations whatever state they start from.

use crate::line::spliced;
use crate::model::{in_bounds, EditType, EditorState};
use vstd::prelude::*;

verus! {

/// Entering a mode twice leaves the editor as entering it once does, and
/// changes nothing but the mode.
pub proof fn mode_change_idempotent(state: EditorState, mode: EditType)
    ensures
        state.in_mode(mode).in_mode(mode) == state.in_mode(mode),
        state.in_mode(mode).mode == mode,
        state.in_mode(mode).lines == state.lines,
        state.in_mode(mode).carets == state.carets,
        state.wf() ==> state.in_mode(mode).wf(),
{
}

/// A loaded document has at least one line.
pub proof fn loaded_keeps_a_line(state: EditorState, lines: Seq<Seq<char>>)
    requires
        lines.len() >= 1,
    ensures
        state.loaded(lines).lines.len() >= 1,
{
}

/// After a move to the left, in either mode, the document is as it was and
/// every caret addresses a position of it.
pub proof fn moved_left_keeps_wf(state: EditorState)
    requires
        state.wf(),
    ensures
        state.moved_left().wf(),
        state.moved_left().lines == state.lines,
{
    let after = state.moved_left();
    assert forall|i: int| 0 <= i < after.carets.len() implies in_bounds(
        after.lines,
        #[trigger] after.carets[i],
    ) by {
        assert(in_bounds(state.lines, state.carets[i]));
    }
}

/// After a move to the right, in either mode, the document is as it was and
/// every caret addresses a position of it.
pub proof fn moved_right_keeps_wf(state: EditorState)
    requires
        state.wf(),
    ensures
        state.moved_right().wf(),
        state.moved_right().lines == state.lines,
{
    let after = state.moved_right();
    assert forall|i: int| 0 <= i < after.carets.len() implies in_bounds(
        after.lines,
        #[trigger] after.carets[i],
    ) by {
        assert(in_bounds(state.lines, state.carets[i]));
    }
}

/// After a move to the top every caret addresses the start of the document,
/// which is as it was.
pub proof fn moved_top_keeps_wf(state: EditorState)
    requires
        state.lines.len() >= 1,
        state.carets.len() >= 1,
    ensures
        state.moved_top().wf(),
        state.moved_top().lines == state.lines,
{
}

/// After a move to the end every caret addresses the end of the document,
/// which is as it was.
pub proof fn moved_end_keeps_wf(state: EditorState)
    requires
        state.lines.len() >= 1,
        state.carets.len() >= 1,
    ensures
        state.moved_end().wf(),
        state.moved_end().lines == state.lines,
{
}

/// After a move of some rows up the document is as it was and every caret
/// addresses a position of it.
pub proof fn moved_pageup_keeps_wf(state: EditorState, rows: int)
    requires
        state.wf(),
        rows >= 0,
    ensures
        state.moved_pageup(rows).wf(),
        state.moved_pageup(rows).lines == state.lines,
{
    let after = state.moved_pageup(rows);
    assert forall|i: int| 0 <= i < after.carets.len() implies in_bounds(
        after.lines,
        #[trigger] after.carets[i],
    ) by {
        assert(in_bounds(state.lines, state.carets[i]));
    }
}

/// After a move of some rows down the document is as it was and every caret
/// addresses a position of it.
pub proof fn moved_pagedown_keeps_wf(state: EditorState, rows: int)
    requires
        state.wf(),
        rows >= 0,
    ensures
        state.moved_pagedown(rows).wf(),
        state.moved_pagedown(rows).lines == state.lines,
{
    let after = state.moved_pagedown(rows);
    assert forall|i: int| 0 <= i < after.carets.len() implies in_bounds(
        after.lines,
        #[trigger] after.carets[i],
    ) by {
        assert(in_bounds(state.lines, state.carets[i]));
    }
}

/// After a move of one row up the document is as it was and every caret
/// addresses a position of it.
pub proof fn moved_up_keeps_wf(state: EditorState)
    requires
        state.wf(),
    ensures
        state.moved_up().wf(),
        state.moved_up().lines == state.lines,
{
    let after = state.moved_up();
    assert forall|i: int| 0 <= i < after.carets.len() implies in_bounds(
        after.lines,
        #[trigger] after.carets[i],
    ) by {
        assert(in_bounds(state.lines, state.carets[i]));
    }
}

/// After a move of one row down the document is as it was and every caret
/// addresses a position of it.
pub proof fn moved_down_keeps_wf(state: EditorState)
    requires
        state.wf(),
    ensures
        state.moved_down().wf(),
        state.moved_down().lines == state.lines,
{
    let after = state.moved_down();
    assert forall|i: int| 0 <= i < after.carets.len() implies in_bounds(
        after.lines,
        #[trigger] after.carets[i],
    ) by {
        assert(in_bounds(state.lines, state.carets[i]));
    }
}

/// After text was put in at the primary caret the document has as many
/// lines as before and every caret addresses a position of it.
pub proof fn typed_keeps_wf(state: EditorState, text: Seq<char>)
    requires
        state.wf(),
    ensures
        state.typed(text).wf(),
        state.typed(text).lines.len() == state.lines.len(),
{
    let after = state.typed(text);
    let primary = state.carets[0];
    assert(in_bounds(state.lines, primary));
    let line = state.lines[primary.row];
    assert(spliced(line, primary.col, text).len() == line.len() + text.len());
    assert forall|i: int| 0 <= i < after.carets.len() implies in_bounds(
        after.lines,
        #[trigger] after.carets[i],
    ) by {
        assert(in_bounds(state.lines, state.carets[i]));
    }
}

/// After a backspace the document still has a line and the primary caret
/// addresses a position of it. With one caret that is every caret; a second
/// caret is not moved along and may be left behind the end of its row or of
/// the document.
pub proof fn backspaced_keeps_primary(state: EditorState)
    requires
        state.primary_in_bounds(),
    ensures
        state.backspaced().lines.len() >= 1,
        state.backspaced().primary_in_bounds(),
        state.carets.len() == 1 ==> state.backspaced().wf(),
{
    let after = state.backspaced();
    assert(in_bounds(after.lines, after.carets[0]));
}

/// Carets that stand at the start of a row stay within the document while
/// the carets from `index` on break their rows, and those end up at the
/// start of a row themselves.
proof fn broken_from_keeps_wf(state: EditorState, index: int)
    requires
        0 <= index <= state.carets.len(),
        state.can_break_from(index),
        forall|i: int|
            0 <= i < index ==> (#[trigger] state.carets[i]).col == 0 && 0 <= state.carets[i].row
                < state.lines.len(),
    ensures
        state.broken_from(index).carets_in_bounds(),
        state.broken_from(index).carets.len() == state.carets.len(),
        state.broken_from(index).lines.len() == state.lines.len() + state.carets.len() - index,
    decreases state.carets.len() - index,
{
    if index < state.carets.len() {
        let next = state.broken_by(index);
        assert(in_bounds(state.lines, state.carets[index]));
        assert forall|i: int| 0 <= i < index + 1 implies (#[trigger] next.carets[i]).col == 0 && 0
            <= next.carets[i].row < next.lines.len() by {
            if i < index {
                assert(state.carets[i].col == 0);
            }
        }
        broken_from_keeps_wf(next, index + 1);
    } else {
        assert forall|i: int| 0 <= i < state.carets.len() implies in_bounds(
            state.lines,
            #[trigger] state.carets[i],
        ) by {
            assert(state.carets[i].col == 0);
        }
    }
}

/// After every caret has broken its row the document has one line more for
/// each caret, and every caret addresses a position of it.
pub proof fn broken_keeps_wf(state: EditorState)
    requires
        state.can_break_from(0),
    ensures
        state.broken_from(0).carets_in_bounds(),
        state.broken_from(0).carets.len() == state.carets.len(),
        state.broken_from(0).lines.len() == state.lines.len() + state.carets.len(),
        state.carets.len() >= 1 ==> state.broken_from(0).wf(),
{
    broken_from_keeps_wf(state, 0);
    if state.carets.len() >= 1 {
        assert(in_bounds(state.lines, state.carets[0]));
    }
}

} // verus!
