//! Records of edits, kept for a later undo and redo.

use crate::caret::Position;
use vstd::prelude::*;

verus! {

/// Whether an edit put text in or took it out.
pub enum ChangeType {
    Insert,
    Delete,
}

/// One recorded edit: where the carets stood, the text, and the direction.
pub struct Change {
    pos: Vec<Position>,
    text: String,
    ctype: ChangeType,
}

} // verus!
