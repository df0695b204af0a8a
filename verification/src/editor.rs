//! The editor: a document, its carets and the mode, and the operations on
//! them.

use crate::caret::{carets_of, Position};
use crate::history::Change;
use crate::laws::{
    backspaced_keeps_primary, broken_keeps_wf, moved_down_keeps_wf, moved_end_keeps_wf,
    moved_left_keeps_wf, moved_pagedown_keeps_wf, moved_pageup_keeps_wf, moved_right_keeps_wf,
    moved_top_keeps_wf, moved_up_keeps_wf, typed_keeps_wf,
};
use crate::line::{spliced, EditableLine, LineBuffer};
use crate::model::{
    at_end, at_top, broken_at, in_bounds, paged_down, paged_up, stepped_down, stepped_left,
    stepped_right, stepped_up, widened_left, widened_right, EditType, EditorState,
};
use crate::text::{document_of, joined, TextBuffer};
use vstd::prelude::*;

verus! {

/// A document under edit. The carets are open to the caller, who may place
/// them anywhere; the operations say what they need of them.
pub struct Editor {
    buffer: TextBuffer,
    pub carets: Vec<Position>,
    undo_pool: Vec<Change>,
    redo_pool: Vec<Change>,
    modified: bool,
    filename: String,
    edit_type: EditType,
}

impl View for Editor {
    type V = EditorState;

    closed spec fn view(&self) -> EditorState {
        EditorState {
            lines: self.buffer@,
            carets: carets_of(self.carets@),
            mode: self.edit_type,
            modified: self.modified,
            filename: self.filename@,
            undo_pool: self.undo_pool@,
            redo_pool: self.redo_pool@,
        }
    }
}

impl Editor {
    /// An editor on an empty document.
    pub fn new() -> (editor: Editor)
        ensures
            editor@ == EditorState::initial(),
            editor@.wf(),
    {
        let mut carets: Vec<Position> = Vec::new();
        carets.push(Position { row: 0, col: 0, range: 0 });
        let editor = Editor {
            buffer: TextBuffer::new(),
            carets,
            undo_pool: Vec::new(),
            redo_pool: Vec::new(),
            modified: false,
            filename: String::from_str("Untitled"),
            edit_type: EditType::Normal,
        };
        assert(editor@.carets =~= EditorState::initial().carets);
        assert(editor@.undo_pool =~= EditorState::initial().undo_pool);
        assert(editor@.redo_pool =~= EditorState::initial().redo_pool);
        editor
    }

    /// Enters `Select` mode.
    pub fn mode_select(&mut self)
        ensures
            final(self)@ == old(self)@.in_mode(EditType::Select),
            final(self)@.lines.len() == old(self)@.lines.len(),
            old(self)@.wf() ==> final(self)@.wf(),
    {
        self.edit_type = EditType::Select;
    }

    /// Enters `Normal` mode.
    pub fn mode_normal(&mut self)
        ensures
            final(self)@ == old(self)@.in_mode(EditType::Normal),
            final(self)@.lines.len() == old(self)@.lines.len(),
            old(self)@.wf() ==> final(self)@.wf(),
    {
        self.edit_type = EditType::Normal;
    }

    /// Replaces the document by the lines of `text`, or by one empty line
    /// where `text` has none. The carets are left where they were.
    pub fn load(&mut self, text: &str)
        ensures
            final(self)@ == old(self)@.loaded(document_of(text@)),
            final(self)@.lines.len() >= 1,
    {
        self.buffer.load(text);
    }

    /// The number of lines of the document.
    pub fn len(&self) -> (count: usize)
        ensures
            count == self@.lines.len(),
    {
        self.buffer.len()
    }

    /// The line at row `index`, or nothing where there is no such row.
    pub fn get(&self, index: usize) -> (line: Option<&LineBuffer>)
        ensures
            index < self@.lines.len() ==> line is Some && line.unwrap()@
                == self@.lines[index as int],
            index >= self@.lines.len() ==> line is None,
    {
        self.buffer.get(index)
    }

    /// The whole document as one string, its lines joined by line feeds.
    pub fn get_all(&self) -> (text: String)
        ensures
            text@ == joined(self@.lines),
    {
        self.buffer.extract()
    }

    /// Whether everything but the carets is as it is in `other`.
    spec fn rest_kept(&self, other: &Editor) -> bool {
        &&& self.buffer == other.buffer
        &&& self.edit_type == other.edit_type
        &&& self.modified == other.modified
        &&& self.filename == other.filename
        &&& self.undo_pool == other.undo_pool
        &&& self.redo_pool == other.redo_pool
    }

    /// Puts every caret at the start of the document.
    pub fn move_top(&mut self)
        ensures
            final(self)@ == old(self)@.moved_top(),
            final(self)@.lines.len() == old(self)@.lines.len(),
            old(self)@.wf() ==> final(self)@.wf(),
    {
        let count = self.carets.len();
        let mut i: usize = 0;
        while i < count
            invariant
                i <= count,
                count == self.carets@.len(),
                count == old(self).carets@.len(),
                self.rest_kept(old(self)),
                forall|j: int|
                    0 <= j < i ==> (#[trigger] self.carets@[j])@ == at_top(old(self).carets@[j]@),
                forall|j: int| i <= j < count ==> self.carets@[j] == old(self).carets@[j],
            decreases count - i,
        {
            let caret = self.carets[i];
            self.carets[i] = Position { row: 0, col: 0, range: caret.range };
            i = i + 1;
        }
        assert(self@.carets =~= old(self)@.moved_top().carets);
        proof {
            if old(self)@.wf() {
                moved_top_keeps_wf(old(self)@);
            }
        }
    }

    /// Puts every caret at the end of the document.
    pub fn move_end(&mut self)
        requires
            old(self)@.lines.len() >= 1,
        ensures
            final(self)@ == old(self)@.moved_end(),
            final(self)@.lines.len() == old(self)@.lines.len(),
            old(self)@.wf() ==> final(self)@.wf(),
    {
        let row = self.buffer.len() - 1;
        let col = self.buffer.back().unwrap().len();
        let count = self.carets.len();
        let mut i: usize = 0;
        while i < count
            invariant
                i <= count,
                count == self.carets@.len(),
                count == old(self).carets@.len(),
                self.rest_kept(old(self)),
                row == self.buffer@.len() - 1,
                col == self.buffer@.last().len(),
                forall|j: int|
                    0 <= j < i ==> (#[trigger] self.carets@[j])@ == at_end(
                        self.buffer@,
                        old(self).carets@[j]@,
                    ),
                forall|j: int| i <= j < count ==> self.carets@[j] == old(self).carets@[j],
            decreases count - i,
        {
            let caret = self.carets[i];
            self.carets[i] = Position { row, col, range: caret.range };
            i = i + 1;
        }
        assert(self@.carets =~= old(self)@.moved_end().carets);
        proof {
            if old(self)@.wf() {
                moved_end_keeps_wf(old(self)@);
            }
        }
    }

    /// Moves every caret to the left: in `Normal` mode one column, and from
    /// the start of a row to the end of the row above; in `Select` mode the
    /// far end of its selection.
    pub fn move_left(&mut self)
        requires
            old(self)@.can_move_left(),
        ensures
            final(self)@ == old(self)@.moved_left(),
            final(self)@.lines.len() == old(self)@.lines.len(),
            old(self)@.wf() ==> final(self)@.wf(),
    {
        let count = self.carets.len();
        let mut i: usize = 0;
        match self.edit_type {
            EditType::Normal => {
                while i < count
                    invariant
                        i <= count,
                        count == self.carets@.len(),
                        count == old(self).carets@.len(),
                        self.rest_kept(old(self)),
                        old(self)@.carets_in_bounds(),
                        forall|j: int|
                            0 <= j < i ==> (#[trigger] self.carets@[j])@ == stepped_left(
                                self.buffer@,
                                old(self).carets@[j]@,
                            ),
                        forall|j: int| i <= j < count ==> self.carets@[j] == old(self).carets@[j],
                    decreases count - i,
                {
                    let caret = self.carets[i];
                    assert(in_bounds(old(self)@.lines, old(self)@.carets[i as int]));
                    if caret.col == 0 {
                        if caret.row > 0 {
                            let row = caret.row - 1;
                            let col = self.buffer.get(row).unwrap().len();
                            self.carets[i] = Position { row, col, range: caret.range };
                        }
                    } else {
                        self.carets[i] = Position {
                            row: caret.row,
                            col: caret.col - 1,
                            range: caret.range,
                        };
                    }
                    i = i + 1;
                }
            },
            EditType::Select => {
                while i < count
                    invariant
                        i <= count,
                        count == self.carets@.len(),
                        count == old(self).carets@.len(),
                        self.rest_kept(old(self)),
                        old(self)@.can_move_left(),
                        old(self)@.mode == EditType::Select,
                        forall|j: int|
                            0 <= j < i ==> (#[trigger] self.carets@[j])@ == widened_left(
                                old(self).carets@[j]@,
                            ),
                        forall|j: int| i <= j < count ==> self.carets@[j] == old(self).carets@[j],
                    decreases count - i,
                {
                    let caret = self.carets[i];
                    assert(old(self)@.carets[i as int].range > isize::MIN);
                    self.carets[i] = Position {
                        row: caret.row,
                        col: caret.col,
                        range: caret.range - 1,
                    };
                    i = i + 1;
                }
            },
        }
        assert(self@.carets =~= old(self)@.moved_left().carets);
        proof {
            if old(self)@.wf() {
                moved_left_keeps_wf(old(self)@);
            }
        }
    }

    /// Moves every caret to the right: in `Normal` mode one column, and from
    /// the end of a row to the start of the row below; in `Select` mode the
    /// far end of its selection.
    pub fn move_right(&mut self)
        requires
            old(self)@.can_move_right(),
        ensures
            final(self)@ == old(self)@.moved_right(),
            final(self)@.lines.len() == old(self)@.lines.len(),
            old(self)@.wf() ==> final(self)@.wf(),
    {
        let count = self.carets.len();
        let mut i: usize = 0;
        let row_max = self.buffer.len() - 1;
        match self.edit_type {
            EditType::Normal => {
                while i < count
                    invariant
                        i <= count,
                        count == self.carets@.len(),
                        count == old(self).carets@.len(),
                        self.rest_kept(old(self)),
                        old(self)@.carets_in_bounds(),
                        row_max == self.buffer@.len() - 1,
                        forall|j: int|
                            0 <= j < i ==> (#[trigger] self.carets@[j])@ == stepped_right(
                                self.buffer@,
                                old(self).carets@[j]@,
                            ),
                        forall|j: int| i <= j < count ==> self.carets@[j] == old(self).carets@[j],
                    decreases count - i,
                {
                    let caret = self.carets[i];
                    assert(in_bounds(old(self)@.lines, old(self)@.carets[i as int]));
                    let len = self.buffer.get(caret.row).unwrap().len();
                    if caret.col < len {
                        self.carets[i] = Position {
                            row: caret.row,
                            col: caret.col + 1,
                            range: caret.range,
                        };
                    } else if row_max <= caret.row {
                        self.carets[i] = Position { row: caret.row, col: len, range: caret.range };
                    } else {
                        self.carets[i] = Position {
                            row: caret.row + 1,
                            col: 0,
                            range: caret.range,
                        };
                    }
                    i = i + 1;
                }
            },
            EditType::Select => {
                let col_row_max = self.buffer.get(row_max).unwrap().len();
                while i < count
                    invariant
                        i <= count,
                        count == self.carets@.len(),
                        count == old(self).carets@.len(),
                        self.rest_kept(old(self)),
                        old(self)@.can_move_right(),
                        old(self)@.mode == EditType::Select,
                        row_max == self.buffer@.len() - 1,
                        col_row_max == self.buffer@.last().len(),
                        forall|j: int|
                            0 <= j < i ==> (#[trigger] self.carets@[j])@ == widened_right(
                                self.buffer@,
                                old(self).carets@[j]@,
                            ),
                        forall|j: int| i <= j < count ==> self.carets@[j] == old(self).carets@[j],
                    decreases count - i,
                {
                    let caret = self.carets[i];
                    assert(in_bounds(old(self)@.lines, old(self)@.carets[i as int]));
                    assert(old(self)@.carets[i as int].range < isize::MAX);
                    let mut range = caret.range + 1;
                    if caret.row == row_max {
                        let room = col_row_max - caret.col;
                        if range > 0 && range as usize > room {
                            range = room as isize;
                        }
                    }
                    self.carets[i] = Position { row: caret.row, col: caret.col, range };
                    i = i + 1;
                }
            },
        }
        assert(self@.carets =~= old(self)@.moved_right().carets);
        proof {
            if old(self)@.wf() {
                moved_right_keeps_wf(old(self)@);
            }
        }
    }

    /// Moves every caret `row` rows up, stopping at the first row, and keeps
    /// its column as far as the row arrived at reaches.
    pub fn move_pageup(&mut self, row: usize)
        requires
            old(self)@.carets_in_bounds(),
        ensures
            final(self)@ == old(self)@.moved_pageup(row as int),
            final(self)@.lines.len() == old(self)@.lines.len(),
            old(self)@.wf() ==> final(self)@.wf(),
    {
        let count = self.carets.len();
        let mut i: usize = 0;
        while i < count
            invariant
                i <= count,
                count == self.carets@.len(),
                count == old(self).carets@.len(),
                self.rest_kept(old(self)),
                old(self)@.carets_in_bounds(),
                forall|j: int|
                    0 <= j < i ==> (#[trigger] self.carets@[j])@ == paged_up(
                        self.buffer@,
                        old(self).carets@[j]@,
                        row as int,
                    ),
                forall|j: int| i <= j < count ==> self.carets@[j] == old(self).carets@[j],
            decreases count - i,
        {
            let caret = self.carets[i];
            assert(in_bounds(old(self)@.lines, old(self)@.carets[i as int]));
            let target = if caret.row < row {
                0
            } else {
                caret.row - row
            };
            let len = self.buffer.get(target).unwrap().len();
            let col = if len < caret.col {
                len
            } else {
                caret.col
            };
            self.carets[i] = Position { row: target, col, range: caret.range };
            i = i + 1;
        }
        assert(self@.carets =~= old(self)@.moved_pageup(row as int).carets);
        proof {
            if old(self)@.wf() {
                moved_pageup_keeps_wf(old(self)@, row as int);
            }
        }
    }

    /// Moves every caret `row` rows down, stopping at the last row, and keeps
    /// its column as far as the row arrived at reaches.
    pub fn move_pagedown(&mut self, row: usize)
        requires
            old(self)@.carets_in_bounds(),
        ensures
            final(self)@ == old(self)@.moved_pagedown(row as int),
            final(self)@.lines.len() == old(self)@.lines.len(),
            old(self)@.wf() ==> final(self)@.wf(),
    {
        let count = self.carets.len();
        let mut i: usize = 0;
        while i < count
            invariant
                i <= count,
                count == self.carets@.len(),
                count == old(self).carets@.len(),
                self.rest_kept(old(self)),
                old(self)@.carets_in_bounds(),
                forall|j: int|
                    0 <= j < i ==> (#[trigger] self.carets@[j])@ == paged_down(
                        self.buffer@,
                        old(self).carets@[j]@,
                        row as int,
                    ),
                forall|j: int| i <= j < count ==> self.carets@[j] == old(self).carets@[j],
            decreases count - i,
        {
            let caret = self.carets[i];
            assert(in_bounds(old(self)@.lines, old(self)@.carets[i as int]));
            let row_max = self.buffer.len() - 1;
            let target = if row > row_max - caret.row {
                row_max
            } else {
                caret.row + row
            };
            let len = self.buffer.get(target).unwrap().len();
            let col = if len < caret.col {
                len
            } else {
                caret.col
            };
            self.carets[i] = Position { row: target, col, range: caret.range };
            i = i + 1;
        }
        assert(self@.carets =~= old(self)@.moved_pagedown(row as int).carets);
        proof {
            if old(self)@.wf() {
                moved_pagedown_keeps_wf(old(self)@, row as int);
            }
        }
    }

    /// Moves every caret one row up and keeps its column as far as that row
    /// reaches; a caret in the first row goes to the start of the row.
    pub fn move_up(&mut self)
        requires
            old(self)@.carets_in_bounds(),
        ensures
            final(self)@ == old(self)@.moved_up(),
            final(self)@.lines.len() == old(self)@.lines.len(),
            old(self)@.wf() ==> final(self)@.wf(),
    {
        let count = self.carets.len();
        let mut i: usize = 0;
        while i < count
            invariant
                i <= count,
                count == self.carets@.len(),
                count == old(self).carets@.len(),
                self.rest_kept(old(self)),
                old(self)@.carets_in_bounds(),
                forall|j: int|
                    0 <= j < i ==> (#[trigger] self.carets@[j])@ == stepped_up(
                        self.buffer@,
                        old(self).carets@[j]@,
                    ),
                forall|j: int| i <= j < count ==> self.carets@[j] == old(self).carets@[j],
            decreases count - i,
        {
            let caret = self.carets[i];
            assert(in_bounds(old(self)@.lines, old(self)@.carets[i as int]));
            if caret.row > 0 {
                let row = caret.row - 1;
                let len = self.buffer.get(row).unwrap().len();
                let col = if len < caret.col {
                    len
                } else {
                    caret.col
                };
                self.carets[i] = Position { row, col, range: caret.range };
            } else {
                self.carets[i] = Position { row: caret.row, col: 0, range: caret.range };
            }
            i = i + 1;
        }
        assert(self@.carets =~= old(self)@.moved_up().carets);
        proof {
            if old(self)@.wf() {
                moved_up_keeps_wf(old(self)@);
            }
        }
    }

    /// Moves every caret one row down and keeps its column as far as that
    /// row reaches; a caret in the last row goes to the end of the row.
    pub fn move_down(&mut self)
        requires
            old(self)@.carets_in_bounds(),
        ensures
            final(self)@ == old(self)@.moved_down(),
            final(self)@.lines.len() == old(self)@.lines.len(),
            old(self)@.wf() ==> final(self)@.wf(),
    {
        let count = self.carets.len();
        let mut i: usize = 0;
        while i < count
            invariant
                i <= count,
                count == self.carets@.len(),
                count == old(self).carets@.len(),
                self.rest_kept(old(self)),
                old(self)@.carets_in_bounds(),
                forall|j: int|
                    0 <= j < i ==> (#[trigger] self.carets@[j])@ == stepped_down(
                        self.buffer@,
                        old(self).carets@[j]@,
                    ),
                forall|j: int| i <= j < count ==> self.carets@[j] == old(self).carets@[j],
            decreases count - i,
        {
            let caret = self.carets[i];
            assert(in_bounds(old(self)@.lines, old(self)@.carets[i as int]));
            if caret.row < self.buffer.len() - 1 {
                let row = caret.row + 1;
                let len = self.buffer.get(row).unwrap().len();
                let col = if len < caret.col {
                    len
                } else {
                    caret.col
                };
                self.carets[i] = Position { row, col, range: caret.range };
            } else {
                let col = self.buffer.get(caret.row).unwrap().len();
                self.carets[i] = Position { row: caret.row, col, range: caret.range };
            }
            i = i + 1;
        }
        assert(self@.carets =~= old(self)@.moved_down().carets);
        proof {
            if old(self)@.wf() {
                moved_down_keeps_wf(old(self)@);
            }
        }
    }

    /// Puts `c` in at the primary caret, which then stands behind it. No
    /// other caret is touched.
    pub fn insert_char(&mut self, c: char)
        requires
            old(self)@.primary_in_bounds(),
        ensures
            final(self)@ == old(self)@.typed(seq![c]),
            final(self)@.lines.len() == old(self)@.lines.len(),
            old(self)@.wf() ==> final(self)@.wf(),
    {
        let caret = self.carets[0];
        assert(in_bounds(old(self)@.lines, old(self)@.carets[0]));
        let ghost before = self.buffer@[caret.row as int];
        match self.buffer.get_mut(caret.row) {
            Some(line) => {
                line.insert(caret.col, c);
                assert(line@ =~= spliced(before, caret.col as int, seq![c]));
                assert(caret.col < line.len());
            },
            None => {},
        }
        self.carets[0] = Position { row: caret.row, col: caret.col + 1, range: caret.range };
        assert(self@.carets =~= old(self)@.typed(seq![c]).carets);
        proof {
            if old(self)@.wf() {
                typed_keeps_wf(old(self)@, seq![c]);
            }
        }
    }

    /// Puts `text` in at the primary caret, which then stands behind it. No
    /// other caret is touched.
    pub fn insert(&mut self, text: String)
        requires
            old(self)@.primary_in_bounds(),
        ensures
            final(self)@ == old(self)@.typed(text@),
            final(self)@.lines.len() == old(self)@.lines.len(),
            old(self)@.wf() ==> final(self)@.wf(),
    {
        let caret = self.carets[0];
        assert(in_bounds(old(self)@.lines, old(self)@.carets[0]));
        let ghost before = self.buffer@[caret.row as int];
        let mut col = caret.col;
        match self.buffer.get_mut(caret.row) {
            Some(line) => {
                let count = if line.len() == caret.col {
                    line.input_back(text)
                } else if caret.col == 0 {
                    line.input_front(text)
                } else {
                    line.input_at(&caret.col, text)
                };
                assert(line@ =~= spliced(before, caret.col as int, text@));
                assert(caret.col + count <= line.len());
                col = caret.col + count;
            },
            None => {},
        }
        self.carets[0] = Position { row: caret.row, col, range: caret.range };
        assert(self@.carets =~= old(self)@.typed(text@).carets);
        proof {
            if old(self)@.wf() {
                typed_keeps_wf(old(self)@, text@);
            }
        }
    }

    /// Takes out the character before the primary caret. At the start of a
    /// row that is the line end before it: the row is joined to the end of
    /// the row above, and the caret stands where the two meet. At the start
    /// of the document nothing happens. No other caret is touched.
    pub fn backspace(&mut self)
        requires
            old(self)@.primary_in_bounds(),
        ensures
            final(self)@ == old(self)@.backspaced(),
            final(self)@.lines.len() >= 1,
            final(self)@.primary_in_bounds(),
            old(self)@.carets.len() == 1 ==> final(self)@.wf(),
    {
        let caret = self.carets[0];
        assert(in_bounds(old(self)@.lines, old(self)@.carets[0]));
        if caret.col == 0 {
            if caret.row > 0 {
                let row = caret.row - 1;
                let mut col: usize = 0;
                let ghost above = self.buffer@[row as int];
                let ghost below = self.buffer@[caret.row as int];
                let removed = self.buffer.remove(caret.row);
                let mut conc_line = removed.unwrap();
                match self.buffer.get_mut(row) {
                    Some(prev_line) => {
                        col = prev_line.len();
                        prev_line.append(&mut conc_line);
                    },
                    None => {},
                }
                assert(self.buffer@ =~= old(self)@.lines.update(row as int, above + below).remove(
                    caret.row as int,
                ));
                self.carets[0] = Position { row, col, range: caret.range };
            }
        } else {
            let ghost before = self.buffer@[caret.row as int];
            match self.buffer.get_mut(caret.row) {
                Some(line) => {
                    line.remove(caret.col - 1);
                },
                None => {},
            }
            self.carets[0] = Position { row: caret.row, col: caret.col - 1, range: caret.range };
        }
        assert(self@.carets =~= old(self)@.backspaced().carets);
        proof {
            backspaced_keeps_primary(old(self)@);
        }
    }

    /// Breaks the row of each caret at the caret, first the primary caret's
    /// and then the others' in ascending order, and puts each caret at the
    /// start of the row that its break has made.
    pub fn insert_line(&mut self)
        requires
            old(self)@.can_break_from(0),
        ensures
            final(self)@ == old(self)@.broken_from(0),
            final(self)@.lines.len() == old(self)@.lines.len() + old(self)@.carets.len(),
            final(self)@.carets_in_bounds(),
            old(self)@.carets.len() >= 1 ==> final(self)@.wf(),
    {
        proof {
            broken_keeps_wf(old(self)@);
        }
        let count = self.carets.len();
        let mut i: usize = 0;
        while i < count
            invariant
                i <= count,
                count == self.carets@.len(),
                self@.can_break_from(i as int),
                self@.broken_from(i as int) == old(self)@.broken_from(0),
            decreases count - i,
        {
            let caret = self.carets[i];
            let ghost state = self@;
            assert(in_bounds(state.lines, state.carets[i as int]));
            let ghost line = self.buffer@[caret.row as int];
            let mut conc_line: LineBuffer = <LineBuffer as EditableLine>::new();
            match self.buffer.get_mut(caret.row) {
                Some(line) => {
                    conc_line = line.split_off(caret.col);
                },
                None => {},
            }
            proof {
                self.buffer.rows_fit();
            }
            self.buffer.new_line(caret.row + 1, conc_line);
            self.carets[i] = Position { row: caret.row + 1, col: 0, range: caret.range };
            assert(self.buffer@ =~= broken_at(state.lines, state.carets[i as int]));
            assert(self@.carets =~= state.broken_by(i as int).carets);
            assert(self@ == state.broken_by(i as int));
            i = i + 1;
        }
    }

    /// The number of lines of the document fits in `usize`.
    pub proof fn rows_fit(&self)
        ensures
            self@.lines.len() <= usize::MAX,
    {
        self.buffer.rows_fit();
    }

    /// The number of carets.
    pub fn caret_count(&self) -> (count: usize)
        ensures
            count == self@.carets.len(),
    {
        self.carets.len()
    }

    /// Whether the editor is in `Select` mode.
    pub fn is_selecting(&self) -> (selecting: bool)
        ensures
            selecting == (self@.mode == EditType::Select),
    {
        match self.edit_type {
            EditType::Normal => false,
            EditType::Select => true,
        }
    }

    /// Puts the primary caret at `position`, whether or not the document
    /// has such a position.
    pub fn place_primary(&mut self, position: Position)
        requires
            old(self)@.carets.len() >= 1,
        ensures
            final(self)@ == old(self)@.placed(position@),
    {
        self.carets[0] = position;
        assert(self@.carets =~= old(self)@.placed(position@).carets);
    }

    /// The primary caret.
    pub fn primary(&self) -> (caret: Position)
        requires
            self@.carets.len() >= 1,
        ensures
            caret@ == self@.carets[0],
    {
        self.carets[0]
    }

    /// Whether `caret` addresses a position of the document.
    pub fn holds(&self, caret: Position) -> (within: bool)
        ensures
            within == in_bounds(self@.lines, caret@),
    {
        match self.buffer.get(caret.row) {
            Some(line) => caret.col <= line.len(),
            None => false,
        }
    }

    /// Whether every caret addresses a position of the document.
    pub fn carets_in_bounds(&self) -> (within: bool)
        ensures
            within == self@.carets_in_bounds(),
    {
        let count = self.carets.len();
        let mut i: usize = 0;
        while i < count
            invariant
                i <= count,
                count == self.carets@.len(),
                forall|j: int| 0 <= j < i ==> in_bounds(self@.lines, #[trigger] self@.carets[j]),
            decreases count - i,
        {
            if !self.holds(self.carets[i]) {
                assert(!in_bounds(self@.lines, self@.carets[i as int]));
                return false;
            }
            i = i + 1;
        }
        true
    }

    /// Whether there is a primary caret and it addresses a position of the
    /// document.
    pub fn primary_in_bounds(&self) -> (within: bool)
        ensures
            within == self@.primary_in_bounds(),
    {
        self.carets.len() >= 1 && self.holds(self.carets[0])
    }

    /// Whether a move to the left is defined in the current mode.
    pub fn can_move_left(&self) -> (defined: bool)
        ensures
            defined == self@.can_move_left(),
    {
        match self.edit_type {
            EditType::Normal => self.carets_in_bounds(),
            EditType::Select => {
                let count = self.carets.len();
                let mut i: usize = 0;
                while i < count
                    invariant
                        i <= count,
                        count == self.carets@.len(),
                        self@.mode == EditType::Select,
                        forall|j: int|
                            0 <= j < i ==> (#[trigger] self@.carets[j]).col + self@.carets[j].range
                                >= 1 && self@.carets[j].range > isize::MIN,
                    decreases count - i,
                {
                    let caret = self.carets[i];
                    let reaches = if caret.range > 0 {
                        true
                    } else if caret.range == isize::MIN {
                        false
                    } else {
                        let back = (-caret.range) as usize;
                        caret.col > back
                    };
                    if !reaches {
                        assert(!(self@.carets[i as int].col + self@.carets[i as int].range >= 1
                            && self@.carets[i as int].range > isize::MIN));
                        return false;
                    }
                    i = i + 1;
                }
                true
            },
        }
    }

    /// Whether a move to the right is defined in the current mode.
    pub fn can_move_right(&self) -> (defined: bool)
        ensures
            defined == self@.can_move_right(),
    {
        if self.buffer.len() == 0 || !self.carets_in_bounds() {
            return false;
        }
        match self.edit_type {
            EditType::Normal => true,
            EditType::Select => {
                let count = self.carets.len();
                let mut i: usize = 0;
                while i < count
                    invariant
                        i <= count,
                        count == self.carets@.len(),
                        self@.mode == EditType::Select,
                        self@.lines.len() >= 1,
                        self@.carets_in_bounds(),
                        forall|j: int|
                            0 <= j < i ==> (#[trigger] self@.carets[j]).range < isize::MAX,
                    decreases count - i,
                {
                    if self.carets[i].range == isize::MAX {
                        assert(!(self@.carets[i as int].range < isize::MAX));
                        return false;
                    }
                    i = i + 1;
                }
                true
            },
        }
    }

    /// Whether every caret can break its row when its turn comes: the
    /// primary caret first, then the others in ascending order, each on the
    /// document as the breaks before it have left it.
    pub fn can_insert_line(&self) -> (defined: bool)
        ensures
            defined == self@.can_break_from(0),
    {
        let rows = self.buffer.len();
        let mut lens: Vec<usize> = Vec::new();
        let mut row: usize = 0;
        while row < rows
            invariant
                row <= rows,
                rows == self.buffer@.len(),
                lens@.len() == row,
                forall|k: int| 0 <= k < row ==> lens@[k] == self.buffer@[k].len(),
            decreases rows - row,
        {
            lens.push(self.buffer.get(row).unwrap().len());
            row = row + 1;
        }
        let ghost mut state = self@;
        let count = self.carets.len();
        let mut i: usize = 0;
        while i < count
            invariant
                i <= count,
                count == self.carets@.len(),
                count == state.carets.len(),
                self@.can_break_from(0) == state.can_break_from(i as int),
                forall|j: int| i <= j < count ==> state.carets[j] == self@.carets[j],
                lens@.len() == state.lines.len(),
                forall|k: int|
                    0 <= k < lens@.len() ==> lens@[k] == (#[trigger] state.lines[k]).len(),
            decreases count - i,
        {
            let caret = self.carets[i];
            assert(state.carets[i as int] == caret@);
            if caret.row >= lens.len() || caret.col > lens[caret.row] {
                assert(!in_bounds(state.lines, state.carets[i as int]));
                return false;
            }
            let len = lens[caret.row];
            lens[caret.row] = caret.col;
            lens.insert(caret.row + 1, len - caret.col);
            proof {
                state = state.broken_by(i as int);
            }
            i = i + 1;
        }
        true
    }
}

} // verus!
