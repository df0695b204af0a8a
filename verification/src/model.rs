//! The editor as a mathematical value, and each of its operations as a
//! function on such values.

use crate::history::Change;
use crate::line::spliced;
use vstd::prelude::*;

verus! {

/// How movement is read: in `Normal` it relocates a caret, in `Select` it
/// stretches or shrinks the caret's selection.
#[derive(Clone, Copy, Debug, PartialEq, Eq, Structural)]
pub enum EditType {
    Normal,
    Select,
}

/// A caret over the unbounded integers: the row and column it stands at, and
/// the signed number of columns its selection spans from there.
pub struct Caret {
    pub row: int,
    pub col: int,
    pub range: int,
}

/// Whether `caret` addresses a row of `lines` and a column of that row; the
/// column just behind the last character counts.
pub open spec fn in_bounds(lines: Seq<Seq<char>>, caret: Caret) -> bool {
    &&& 0 <= caret.row < lines.len()
    &&& 0 <= caret.col <= lines[caret.row].len()
}

/// `col` where it lies within a line of `len` characters, else the line's end.
pub open spec fn clamped(col: int, len: int) -> int {
    if len < col {
        len
    } else {
        col
    }
}

/// One column to the left; from the start of a row to the end of the row
/// above; at the start of the document no move.
pub open spec fn stepped_left(lines: Seq<Seq<char>>, caret: Caret) -> Caret {
    if caret.col == 0 {
        if caret.row > 0 {
            Caret { row: caret.row - 1, col: lines[caret.row - 1].len() as int, ..caret }
        } else {
            caret
        }
    } else {
        Caret { col: caret.col - 1, ..caret }
    }
}

/// One column to the right; from the end of a row to the start of the row
/// below; at the end of the document no move.
pub open spec fn stepped_right(lines: Seq<Seq<char>>, caret: Caret) -> Caret {
    let len = lines[caret.row].len() as int;
    if caret.col < len {
        Caret { col: caret.col + 1, ..caret }
    } else if lines.len() - 1 <= caret.row {
        Caret { col: len, ..caret }
    } else {
        Caret { row: caret.row + 1, col: 0, ..caret }
    }
}

/// One row up, the column kept as far as the row above reaches; in the first
/// row to its start.
pub open spec fn stepped_up(lines: Seq<Seq<char>>, caret: Caret) -> Caret {
    if caret.row > 0 {
        Caret {
            row: caret.row - 1,
            col: clamped(caret.col, lines[caret.row - 1].len() as int),
            ..caret
        }
    } else {
        Caret { col: 0, ..caret }
    }
}

/// One row down, the column kept as far as the row below reaches; in the
/// last row to its end.
pub open spec fn stepped_down(lines: Seq<Seq<char>>, caret: Caret) -> Caret {
    if caret.row < lines.len() - 1 {
        Caret {
            row: caret.row + 1,
            col: clamped(caret.col, lines[caret.row + 1].len() as int),
            ..caret
        }
    } else {
        Caret { col: lines[caret.row].len() as int, ..caret }
    }
}

/// `rows` rows up, but no further than the first row; the column kept as far
/// as the row arrived at reaches.
pub open spec fn paged_up(lines: Seq<Seq<char>>, caret: Caret, rows: int) -> Caret {
    let row = if caret.row < rows {
        0
    } else {
        caret.row - rows
    };
    Caret { row, col: clamped(caret.col, lines[row].len() as int), ..caret }
}

/// `rows` rows down, but no further than the last row; the column kept as
/// far as the row arrived at reaches.
pub open spec fn paged_down(lines: Seq<Seq<char>>, caret: Caret, rows: int) -> Caret {
    let row = if caret.row + rows > lines.len() - 1 {
        lines.len() - 1
    } else {
        caret.row + rows
    };
    Caret { row, col: clamped(caret.col, lines[row].len() as int), ..caret }
}

/// The start of the document.
pub open spec fn at_top(caret: Caret) -> Caret {
    Caret { row: 0, col: 0, ..caret }
}

/// The end of the document.
pub open spec fn at_end(lines: Seq<Seq<char>>, caret: Caret) -> Caret {
    Caret { row: lines.len() - 1, col: lines.last().len() as int, ..caret }
}

/// The selection's far end one column further left.
pub open spec fn widened_left(caret: Caret) -> Caret {
    Caret { range: caret.range - 1, ..caret }
}

/// The selection's far end one column further right, but in the last row no
/// further than the end of the document.
pub open spec fn widened_right(lines: Seq<Seq<char>>, caret: Caret) -> Caret {
    if caret.row == lines.len() - 1 && caret.range + 1 + caret.col > lines.last().len() {
        Caret { range: lines.last().len() - caret.col, ..caret }
    } else {
        Caret { range: caret.range + 1, ..caret }
    }
}

/// `lines` with the row of `caret` broken in two at its column: what stood
/// before the column stays in the row, the rest becomes the row below.
pub open spec fn broken_at(lines: Seq<Seq<char>>, caret: Caret) -> Seq<Seq<char>> {
    let line = lines[caret.row];
    lines.update(caret.row, line.take(caret.col)).insert(caret.row + 1, line.skip(caret.col))
}

/// The state of an editor: the document, the carets (the first is the
/// primary one), the mode, the document's name and its modified flag, and
/// the two logs of recorded edits.
pub struct EditorState {
    pub lines: Seq<Seq<char>>,
    pub carets: Seq<Caret>,
    pub mode: EditType,
    pub modified: bool,
    pub filename: Seq<char>,
    pub undo_pool: Seq<Change>,
    pub redo_pool: Seq<Change>,
}

impl EditorState {
    /// Whether every caret addresses a position of the document.
    pub open spec fn carets_in_bounds(self) -> bool {
        forall|i: int|
            0 <= i < self.carets.len() ==> in_bounds(self.lines, #[trigger] self.carets[i])
    }

    /// Whether there is a primary caret and it addresses a position of the
    /// document.
    pub open spec fn primary_in_bounds(self) -> bool {
        self.carets.len() >= 1 && in_bounds(self.lines, self.carets[0])
    }

    /// Whether the document has a line, there is a caret, and every caret
    /// addresses a position of the document.
    pub open spec fn wf(self) -> bool {
        &&& self.lines.len() >= 1
        &&& self.carets.len() >= 1
        &&& self.carets_in_bounds()
    }

    /// The state of a new editor: one empty line, one caret at its start,
    /// `Normal` mode, not modified, named "Untitled", nothing recorded.
    pub open spec fn initial() -> EditorState {
        EditorState {
            lines: seq![Seq::empty()],
            carets: seq![Caret { row: 0, col: 0, range: 0 }],
            mode: EditType::Normal,
            modified: false,
            filename: "Untitled"@,
            undo_pool: Seq::empty(),
            redo_pool: Seq::empty(),
        }
    }

    /// The same state in `mode`.
    pub open spec fn in_mode(self, mode: EditType) -> EditorState {
        EditorState { mode, ..self }
    }

    /// The same state with `lines` for its document; the carets stay where
    /// they were, whether or not they address a position of `lines`.
    pub open spec fn loaded(self, lines: Seq<Seq<char>>) -> EditorState {
        EditorState { lines, ..self }
    }

    /// The same state with the primary caret at `caret`.
    pub open spec fn placed(self, caret: Caret) -> EditorState {
        EditorState { carets: self.carets.update(0, caret), ..self }
    }

    /// Whether a move to the left is defined: in `Normal` mode every caret
    /// addresses a position; in `Select` mode no selection would reach past
    /// the start of its row, nor its span leave the range of `isize`.
    pub open spec fn can_move_left(self) -> bool {
        match self.mode {
            EditType::Normal => self.carets_in_bounds(),
            EditType::Select => forall|i: int|
                0 <= i < self.carets.len() ==> {
                    &&& (#[trigger] self.carets[i]).col + self.carets[i].range >= 1
                    &&& self.carets[i].range > isize::MIN
                },
        }
    }

    /// Every caret moved to the left: in `Normal` mode stepped, in `Select`
    /// mode its selection widened.
    pub open spec fn moved_left(self) -> EditorState {
        let lines = self.lines;
        match self.mode {
            EditType::Normal => EditorState {
                carets: self.carets.map_values(|c: Caret| stepped_left(lines, c)),
                ..self
            },
            EditType::Select => EditorState {
                carets: self.carets.map_values(|c: Caret| widened_left(c)),
                ..self
            },
        }
    }

    /// Whether a move to the right is defined: the document has a line and
    /// every caret addresses a position; in `Select` mode moreover no span
    /// would leave the range of `isize`.
    pub open spec fn can_move_right(self) -> bool {
        &&& self.lines.len() >= 1
        &&& self.carets_in_bounds()
        &&& self.mode == EditType::Select ==> forall|i: int|
            0 <= i < self.carets.len() ==> (#[trigger] self.carets[i]).range < isize::MAX
    }

    /// Every caret moved to the right: in `Normal` mode stepped, in `Select`
    /// mode its selection widened.
    pub open spec fn moved_right(self) -> EditorState {
        let lines = self.lines;
        match self.mode {
            EditType::Normal => EditorState {
                carets: self.carets.map_values(|c: Caret| stepped_right(lines, c)),
                ..self
            },
            EditType::Select => EditorState {
                carets: self.carets.map_values(|c: Caret| widened_right(lines, c)),
                ..self
            },
        }
    }

    /// Every caret at the start of the document.
    pub open spec fn moved_top(self) -> EditorState {
        EditorState { carets: self.carets.map_values(|c: Caret| at_top(c)), ..self }
    }

    /// Every caret at the end of the document.
    pub open spec fn moved_end(self) -> EditorState {
        let lines = self.lines;
        EditorState { carets: self.carets.map_values(|c: Caret| at_end(lines, c)), ..self }
    }

    /// Every caret `rows` rows up.
    pub open spec fn moved_pageup(self, rows: int) -> EditorState {
        let lines = self.lines;
        EditorState { carets: self.carets.map_values(|c: Caret| paged_up(lines, c, rows)), ..self }
    }

    /// Every caret `rows` rows down.
    pub open spec fn moved_pagedown(self, rows: int) -> EditorState {
        let lines = self.lines;
        EditorState {
            carets: self.carets.map_values(|c: Caret| paged_down(lines, c, rows)),
            ..self
        }
    }

    /// Every caret one row up.
    pub open spec fn moved_up(self) -> EditorState {
        let lines = self.lines;
        EditorState { carets: self.carets.map_values(|c: Caret| stepped_up(lines, c)), ..self }
    }

    /// Every caret one row down.
    pub open spec fn moved_down(self) -> EditorState {
        let lines = self.lines;
        EditorState { carets: self.carets.map_values(|c: Caret| stepped_down(lines, c)), ..self }
    }

    /// The state after the row of caret `index` was broken at that caret and
    /// the caret put at the start of the new row below.
    pub open spec fn broken_by(self, index: int) -> EditorState {
        let caret = self.carets[index];
        EditorState {
            lines: broken_at(self.lines, caret),
            carets: self.carets.update(index, Caret { row: caret.row + 1, col: 0, ..caret }),
            ..self
        }
    }

    /// Whether the carets from `index` on can break their rows one after the
    /// other, in ascending order: each must address a position of the
    /// document as the breaks before it have left it.
    pub open spec fn can_break_from(self, index: int) -> bool
        decreases self.carets.len() - index,
    {
        if 0 <= index < self.carets.len() {
            in_bounds(self.lines, self.carets[index]) && self.broken_by(index).can_break_from(
                index + 1,
            )
        } else {
            true
        }
    }

    /// The state after the carets from `index` on have broken their rows one
    /// after the other, in ascending order. A break moves the rows below it
    /// down, and a caret whose turn comes later is not moved with them: it
    /// breaks the row that then has its number.
    pub open spec fn broken_from(self, index: int) -> EditorState
        decreases self.carets.len() - index,
    {
        if 0 <= index < self.carets.len() {
            self.broken_by(index).broken_from(index + 1)
        } else {
            self
        }
    }

    /// The state after the character before the primary caret was taken out.
    /// At the start of a row that is the line end before it: the row is
    /// joined to the end of the row above and the caret stands where the two
    /// meet. At the start of the document nothing changes. No other caret
    /// is touched.
    pub open spec fn backspaced(self) -> EditorState {
        let caret = self.carets[0];
        if caret.col == 0 {
            if caret.row > 0 {
                let above = self.lines[caret.row - 1];
                EditorState {
                    lines: self.lines.update(caret.row - 1, above + self.lines[caret.row]).remove(
                        caret.row,
                    ),
                    carets: self.carets.update(
                        0,
                        Caret { row: caret.row - 1, col: above.len() as int, ..caret },
                    ),
                    ..self
                }
            } else {
                self
            }
        } else {
            EditorState {
                lines: self.lines.update(caret.row, self.lines[caret.row].remove(caret.col - 1)),
                carets: self.carets.update(0, Caret { col: caret.col - 1, ..caret }),
                ..self
            }
        }
    }

    /// The state after `text` was put in at the primary caret, which then
    /// stands behind it. No other caret is touched.
    pub open spec fn typed(self, text: Seq<char>) -> EditorState {
        let caret = self.carets[0];
        EditorState {
            lines: self.lines.update(caret.row, spliced(self.lines[caret.row], caret.col, text)),
            carets: self.carets.update(0, Caret { col: caret.col + text.len(), ..caret }),
            ..self
        }
    }
}

} // verus!
