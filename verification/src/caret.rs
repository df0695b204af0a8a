//! Carets as the editor stores them.

use crate::model::Caret;
use vstd::prelude::*;

verus! {

/// A caret: the row and column it stands at, and the signed number of
/// columns its selection spans from there.
#[derive(Clone, Copy, Debug, PartialEq, Eq, Structural)]
pub struct Position {
    pub row: usize,
    pub col: usize,
    pub range: isize,
}

impl View for Position {
    type V = Caret;

    open spec fn view(&self) -> Caret {
        Caret { row: self.row as int, col: self.col as int, range: self.range as int }
    }
}

/// The carets that `positions` stand for, in the same order.
pub open spec fn carets_of(positions: Seq<Position>) -> Seq<Caret> {
    positions.map_values(|position: Position| position@)
}

} // verus!
