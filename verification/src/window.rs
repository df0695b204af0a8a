//! The window on the document that a terminal shows: which rows are
//! visible, what a key does, and what is to be drawn.

use crate::buffer::Color;
use crate::caret::Position;
use crate::editor::Editor;
use crate::laws::{
    backspaced_keeps_primary, broken_keeps_wf, moved_down_keeps_wf, moved_end_keeps_wf,
    moved_left_keeps_wf, moved_pagedown_keeps_wf, moved_pageup_keeps_wf, moved_right_keeps_wf,
    moved_top_keeps_wf, moved_up_keeps_wf, typed_keeps_wf,
};
use crate::model::{in_bounds, Caret, EditType, EditorState};
use crate::screen::{
    caret_of, decimal, decimal_text, drawn, push_decimal, right_aligned, right_aligned_text,
    row_drawn, row_runs, Drawn, Face, Run,
};
use crate::text::document_of;
use vstd::prelude::*;

verus! {

/// A key of the keyboard, as far as the editor tells keys apart.
#[derive(Clone, Copy, Debug, PartialEq, Eq, Structural)]
pub enum Key {
    Enter,
    Backspace,
    Home,
    End,
    PageUp,
    PageDown,
    Left,
    Right,
    Up,
    Down,
    Esc,
    Char(char),
    Other,
}

/// What the caller is to do after an event.
#[derive(Clone, Copy, Debug, PartialEq, Eq, Structural)]
pub enum Reaction {
    /// The document or the carets may have changed: draw the frame anew.
    Redraw,
    /// Nothing to do.
    Nothing,
    /// Leave the editor.
    Quit,
    /// The event asks for an operation that is not defined in the state
    /// the editor is in; nothing was changed.
    Fault,
}

/// The state of a window: the editor, the document row shown in the top
/// screen row, the number of screen rows for text, the number of screen
/// columns, and the width of the line numbers.
pub struct WindowState {
    pub editor: EditorState,
    pub top: int,
    pub rows: int,
    pub cols: int,
    pub pad: int,
}

/// What a key asks of the caller where its operation is defined.
pub open spec fn reaction_to(key: Key) -> Reaction {
    match key {
        Key::Esc => Reaction::Quit,
        Key::Other => Reaction::Nothing,
        _ => Reaction::Redraw,
    }
}

/// The top row after the primary caret has gone up to `row`: one row up
/// where the caret has left the window at its top.
pub open spec fn scrolled_up(top: int, row: int) -> int {
    if row < top {
        top - 1
    } else {
        top
    }
}

/// The top row after the primary caret has gone down to `row`: one row down
/// where the caret has left the window at its bottom.
pub open spec fn scrolled_down(top: int, rows: int, row: int) -> int {
    if row >= top + rows {
        top + 1
    } else {
        top
    }
}

/// The text of the status line for a caret: its row and its column, each
/// counted from one, with a colon between them.
pub open spec fn info_of(caret: Caret) -> Seq<char> {
    decimal((caret.row + 1) as nat) + seq![':'] + decimal((caret.col + 1) as nat)
}

impl WindowState {
    /// Whether the operation of `key` is defined.
    pub open spec fn can_press(self, key: Key) -> bool {
        match key {
            Key::Enter => self.editor.carets.len() >= 1 && self.editor.can_break_from(0),
            Key::Backspace => self.editor.primary_in_bounds(),
            Key::Home => true,
            Key::End => self.editor.lines.len() >= 1,
            Key::PageUp => self.rows >= 1 && self.editor.carets.len() >= 1
                && self.editor.carets_in_bounds(),
            Key::PageDown => self.rows >= 1 && self.editor.carets.len() >= 1
                && self.editor.carets_in_bounds(),
            Key::Left => self.editor.can_move_left(),
            Key::Right => self.editor.can_move_right(),
            Key::Up => self.editor.carets.len() >= 1 && self.editor.carets_in_bounds(),
            Key::Down => self.editor.carets.len() >= 1 && self.editor.carets_in_bounds(),
            Key::Esc => true,
            Key::Char(c) => self.editor.primary_in_bounds(),
            Key::Other => true,
        }
    }

    /// Whether a click into column `x` of screen row `y` is defined: there
    /// is a primary caret, and the row it is sent to has a number in
    /// `usize`.
    pub open spec fn can_click(self, x: int, y: int) -> bool {
        self.editor.carets.len() >= 1 && y + self.rows <= usize::MAX
    }

    /// The state after a click into column `x` of screen row `y`: the
    /// primary caret stands in column `x` of the row that lies the height of
    /// the window below row `y`, whether or not the document reaches there.
    pub open spec fn clicked(self, x: int, y: int) -> WindowState {
        WindowState {
            editor: self.editor.placed(
                Caret { row: y + self.rows, col: x, ..self.editor.carets[0] },
            ),
            ..self
        }
    }

    /// Whether the status line can be drawn: there is a primary caret, the
    /// numbers to show are in `usize`, and the text fits into the width of
    /// the screen.
    pub open spec fn info_defined(self) -> bool {
        &&& self.editor.carets.len() >= 1
        &&& self.editor.carets[0].row < usize::MAX
        &&& self.editor.carets[0].col < usize::MAX
        &&& info_of(self.editor.carets[0]).len() <= self.cols
    }

    /// The status line: the place of the primary caret at the right edge of
    /// the screen row below the text, white on blue.
    pub open spec fn info_drawn(self) -> Drawn {
        Drawn {
            x: 0,
            y: self.rows,
            face: Face::Normal,
            fg: Color::White,
            bg: Color::Blue,
            text: right_aligned(info_of(self.editor.carets[0]), self.cols),
        }
    }

    /// The row behind the last row of the document that the window shows.
    pub open spec fn bottom(self) -> int {
        if self.top + self.rows < self.editor.lines.len() {
            self.top + self.rows
        } else {
            self.editor.lines.len() as int
        }
    }

    /// The primary caret where it stands in row `index`.
    pub open spec fn caret_in(self, index: int) -> Option<Caret> {
        if self.editor.carets[0].row == index {
            Some(self.editor.carets[0])
        } else {
            None
        }
    }

    /// Whether row `index` of the document can be drawn: its number fits
    /// into the width of the line numbers, its cells have columns in
    /// `usize`, and the primary caret, where it stands in this row, stands
    /// within the line or at its end.
    pub open spec fn row_defined(self, index: int) -> bool {
        &&& decimal((index + 1) as nat).len() <= self.pad
        &&& self.pad + self.editor.lines[index].len() + 2 <= usize::MAX
        &&& self.editor.carets[0].row == index ==> self.editor.carets[0].col
            <= self.editor.lines[index].len()
    }

    /// What is drawn for the rows of the document from the top of the window
    /// up to row `to`, top row first. The selection is shown in `Select`
    /// mode only.
    pub open spec fn rows_drawn(self, to: int) -> Seq<Drawn>
        decreases to - self.top,
    {
        if to <= self.top {
            Seq::empty()
        } else {
            self.rows_drawn(to - 1) + row_drawn(
                self.editor.lines[to - 1],
                to - 1,
                to - 1 - self.top,
                self.pad,
                self.caret_in(to - 1),
                self.editor.mode == EditType::Select,
            )
        }
    }

    /// Whether the frame can be drawn: there is a primary caret, every row
    /// of the document that the window shows can be drawn, and so can the
    /// status line.
    pub open spec fn frame_defined(self) -> bool {
        &&& self.editor.carets.len() >= 1
        &&& forall|index: int| self.top <= index < self.bottom() ==> self.row_defined(index)
        &&& self.info_defined()
    }

    /// The frame: the rows of the document that the window shows, and the
    /// status line.
    pub open spec fn frame_drawn(self) -> Seq<Drawn> {
        self.rows_drawn(self.bottom()).push(self.info_drawn())
    }

    /// The state after the operation of `key`: the editor's operation for
    /// that key, and the window moved after the primary caret.
    pub open spec fn pressed(self, key: Key) -> WindowState {
        match key {
            Key::Enter => {
                let editor = self.editor.broken_from(0);
                WindowState {
                    editor,
                    top: scrolled_down(self.top, self.rows, editor.carets[0].row),
                    pad: decimal(editor.lines.len()).len() as int,
                    ..self
                }
            },
            Key::Backspace => {
                let editor = self.editor.backspaced();
                WindowState { editor, top: scrolled_up(self.top, editor.carets[0].row), ..self }
            },
            Key::Home => WindowState { editor: self.editor.moved_top(), top: 0, ..self },
            Key::End => WindowState {
                editor: self.editor.moved_end(),
                top: self.editor.lines.len() - 1,
                ..self
            },
            Key::PageUp => {
                let editor = self.editor.moved_pageup(self.rows - 1);
                WindowState { editor, top: editor.carets[0].row, ..self }
            },
            Key::PageDown => {
                let editor = self.editor.moved_pagedown(self.rows - 1);
                let below = editor.carets[0].row + 1;
                WindowState {
                    editor,
                    top: if below > self.rows {
                        below - self.rows
                    } else {
                        0
                    },
                    ..self
                }
            },
            Key::Left => WindowState { editor: self.editor.moved_left(), ..self },
            Key::Right => WindowState { editor: self.editor.moved_right(), ..self },
            Key::Up => {
                let editor = self.editor.moved_up();
                WindowState { editor, top: scrolled_up(self.top, editor.carets[0].row), ..self }
            },
            Key::Down => {
                let editor = self.editor.moved_down();
                WindowState {
                    editor,
                    top: scrolled_down(self.top, self.rows, editor.carets[0].row),
                    ..self
                }
            },
            Key::Esc => self,
            Key::Char(c) => WindowState { editor: self.editor.typed(seq![c]), ..self },
            Key::Other => self,
        }
    }
}

/// A key whose operation is defined leaves an editor with a document, a
/// caret, and every caret on a position of the document in such a state
/// again. Of a backspace this holds where there is one caret: a second one
/// is not moved along.
pub proof fn pressed_keeps_wf(state: WindowState, key: Key)
    requires
        state.editor.wf(),
        state.can_press(key),
        state.rows >= 0,
        key == Key::Backspace ==> state.editor.carets.len() == 1,
    ensures
        state.pressed(key).editor.wf(),
{
    let editor = state.editor;
    match key {
        Key::Enter => broken_keeps_wf(editor),
        Key::Backspace => backspaced_keeps_primary(editor),
        Key::Home => moved_top_keeps_wf(editor),
        Key::End => moved_end_keeps_wf(editor),
        Key::PageUp => moved_pageup_keeps_wf(editor, state.rows - 1),
        Key::PageDown => moved_pagedown_keeps_wf(editor, state.rows - 1),
        Key::Left => moved_left_keeps_wf(editor),
        Key::Right => moved_right_keeps_wf(editor),
        Key::Up => moved_up_keeps_wf(editor),
        Key::Down => moved_down_keeps_wf(editor),
        Key::Esc => {},
        Key::Char(c) => typed_keeps_wf(editor, seq![c]),
        Key::Other => {},
    }
}

/// An editor and the window through which a terminal shows it.
pub struct Window {
    editor: Editor,
    y: usize,
    row: usize,
    col: usize,
    lnum_pad: usize,
}

impl View for Window {
    type V = WindowState;

    closed spec fn view(&self) -> WindowState {
        WindowState {
            editor: self.editor@,
            top: self.y as int,
            rows: self.row as int,
            cols: self.col as int,
            pad: self.lnum_pad as int,
        }
    }
}

impl Window {
    /// A window on a new editor, for a terminal of `width` columns and
    /// `height` rows, the last of which is kept for the status line.
    pub fn new(width: usize, height: usize) -> (window: Window)
        requires
            height >= 1,
        ensures
            window@ == (WindowState {
                editor: EditorState::initial(),
                top: 0,
                rows: height - 1,
                cols: width as int,
                pad: 1,
            }),
    {
        Window { editor: Editor::new(), y: 0, row: height - 1, col: width, lnum_pad: 1 }
    }

    /// The editor behind the window.
    pub fn editor(&self) -> (editor: &Editor)
        ensures
            editor@ == self@.editor,
    {
        &self.editor
    }

    /// The editor behind the window, for the caller to change. The window
    /// itself stays where it is.
    pub fn editor_mut(&mut self) -> (editor: &mut Editor)
        ensures
            editor@ == old(self)@.editor,
            final(self)@ == (WindowState { editor: final(editor)@, ..old(self)@ }),
    {
        &mut self.editor
    }

    /// Replaces the document by the lines of `text`, or by one empty line
    /// where `text` has none. Carets and window are left where they were.
    pub fn load(&mut self, text: &str)
        ensures
            final(self)@ == (WindowState {
                editor: old(self)@.editor.loaded(document_of(text@)),
                ..old(self)@
            }),
    {
        self.editor.load(text);
    }

    /// Makes the line numbers as wide as the number of the last line.
    pub fn fit_line_numbers(&mut self)
        ensures
            final(self)@ == (WindowState {
                pad: decimal(old(self)@.editor.lines.len()).len() as int,
                ..old(self)@
            }),
    {
        let number = decimal_text(self.editor.len());
        self.lnum_pad = number.as_str().unicode_len();
    }

    /// Does what `key` stands for: the editor's operation, and the window
    /// moved after the primary caret. Where the operation is not defined
    /// nothing changes and the reaction is `Fault`.
    pub fn press(&mut self, key: Key) -> (reaction: Reaction)
        ensures
            old(self)@.can_press(key) ==> final(self)@ == old(self)@.pressed(key) && reaction
                == reaction_to(key),
            !old(self)@.can_press(key) ==> final(self)@ == old(self)@ && reaction
                == Reaction::Fault,
    {
        match key {
            Key::Enter => {
                if self.editor.caret_count() == 0 || !self.editor.can_insert_line() {
                    return Reaction::Fault;
                }
                self.editor.insert_line();
                let caret = self.editor.primary();
                if caret.row >= self.y && caret.row - self.y >= self.row {
                    proof {
                        broken_keeps_wf(old(self)@.editor);
                    }
                    assert(in_bounds(self@.editor.lines, self@.editor.carets[0]));
                    proof {
                        self.editor.rows_fit();
                    }
                    self.y = self.y + 1;
                }
                let number = decimal_text(self.editor.len());
                self.lnum_pad = number.as_str().unicode_len();
                Reaction::Redraw
            },
            Key::Backspace => {
                if !self.editor.primary_in_bounds() {
                    return Reaction::Fault;
                }
                self.editor.backspace();
                if self.editor.primary().row < self.y {
                    self.y = self.y - 1;
                }
                Reaction::Redraw
            },
            Key::Home => {
                self.y = 0;
                self.editor.move_top();
                Reaction::Redraw
            },
            Key::End => {
                let len = self.editor.len();
                if len == 0 {
                    return Reaction::Fault;
                }
                self.y = len - 1;
                self.editor.move_end();
                Reaction::Redraw
            },
            Key::PageUp => {
                if self.row == 0 || self.editor.caret_count() == 0
                    || !self.editor.carets_in_bounds() {
                    return Reaction::Fault;
                }
                self.editor.move_pageup(self.row - 1);
                self.y = self.editor.primary().row;
                Reaction::Redraw
            },
            Key::PageDown => {
                if self.row == 0 || self.editor.caret_count() == 0
                    || !self.editor.carets_in_bounds() {
                    return Reaction::Fault;
                }
                self.editor.move_pagedown(self.row - 1);
                let caret = self.editor.primary();
                proof {
                    moved_pagedown_keeps_wf(old(self)@.editor, self.row - 1);
                    assert(in_bounds(old(self)@.editor.lines, old(self)@.editor.carets[0]));
                    assert(in_bounds(self@.editor.lines, self@.editor.carets[0]));
                }
                proof {
                    self.editor.rows_fit();
                }
                let below = caret.row + 1;
                self.y = if below > self.row {
                    below - self.row
                } else {
                    0
                };
                Reaction::Redraw
            },
            Key::Left => {
                if !self.editor.can_move_left() {
                    return Reaction::Fault;
                }
                self.editor.move_left();
                Reaction::Redraw
            },
            Key::Right => {
                if !self.editor.can_move_right() {
                    return Reaction::Fault;
                }
                self.editor.move_right();
                Reaction::Redraw
            },
            Key::Up => {
                if self.editor.caret_count() == 0 || !self.editor.carets_in_bounds() {
                    return Reaction::Fault;
                }
                self.editor.move_up();
                if self.editor.primary().row < self.y {
                    self.y = self.y - 1;
                }
                Reaction::Redraw
            },
            Key::Down => {
                if self.editor.caret_count() == 0 || !self.editor.carets_in_bounds() {
                    return Reaction::Fault;
                }
                self.editor.move_down();
                let caret = self.editor.primary();
                if caret.row >= self.y && caret.row - self.y >= self.row {
                    proof {
                        moved_down_keeps_wf(old(self)@.editor);
                        assert(in_bounds(old(self)@.editor.lines, old(self)@.editor.carets[0]));
                        assert(in_bounds(self@.editor.lines, self@.editor.carets[0]));
                    }
                    proof {
                        self.editor.rows_fit();
                    }
                    self.y = self.y + 1;
                }
                Reaction::Redraw
            },
            Key::Esc => Reaction::Quit,
            Key::Char(c) => {
                if !self.editor.primary_in_bounds() {
                    return Reaction::Fault;
                }
                self.editor.insert_char(c);
                Reaction::Redraw
            },
            Key::Other => Reaction::Nothing,
        }
    }

    /// Puts the primary caret where a click into column `x` of screen row
    /// `y` sends it. Where that is not defined nothing changes and the
    /// reaction is `Fault`.
    pub fn click(&mut self, x: usize, y: usize) -> (reaction: Reaction)
        ensures
            old(self)@.can_click(x as int, y as int) ==> final(self)@ == old(self)@.clicked(
                x as int,
                y as int,
            ) && reaction == Reaction::Nothing,
            !old(self)@.can_click(x as int, y as int) ==> final(self)@ == old(self)@ && reaction
                == Reaction::Fault,
    {
        if self.editor.caret_count() == 0 || y > usize::MAX - self.row {
            return Reaction::Fault;
        }
        let caret = self.editor.primary();
        self.editor.place_primary(Position { row: y + self.row, col: x, range: caret.range });
        Reaction::Nothing
    }

    /// The text of the status line, or nothing where it cannot be drawn.
    pub fn format_info(&self) -> (info: Option<String>)
        ensures
            self@.info_defined() ==> info is Some && info.unwrap()@ == self@.info_drawn().text,
            !self@.info_defined() ==> info is None,
    {
        if self.editor.caret_count() == 0 {
            return None;
        }
        let caret = self.editor.primary();
        if caret.row == usize::MAX || caret.col == usize::MAX {
            return None;
        }
        let mut text = decimal_text(caret.row + 1);
        text.push(':');
        push_decimal(&mut text, caret.col + 1);
        assert(text@ =~= info_of(caret@));
        if text.as_str().unicode_len() > self.col {
            return None;
        }
        Some(right_aligned_text(text.as_str(), self.col))
    }

    /// The run that draws the status line, or nothing where it cannot be
    /// drawn.
    pub fn info_run(&self) -> (run: Option<Run>)
        ensures
            self@.info_defined() ==> run is Some && run.unwrap()@ == self@.info_drawn(),
            !self@.info_defined() ==> run is None,
    {
        match self.format_info() {
            Some(text) => Some(
                Run {
                    x: 0,
                    y: self.row,
                    face: Face::Normal,
                    fg: Color::White,
                    bg: Color::Blue,
                    text,
                },
            ),
            None => None,
        }
    }

    /// The runs that draw the frame, in the order in which they are to be
    /// drawn, or nothing where the frame cannot be drawn.
    pub fn frame(&self) -> (runs: Option<Vec<Run>>)
        ensures
            self@.frame_defined() ==> runs is Some && drawn(runs.unwrap()@)
                == self@.frame_drawn(),
            !self@.frame_defined() ==> runs is None,
    {
        if self.editor.caret_count() == 0 {
            return None;
        }
        let caret = self.editor.primary();
        let select = self.editor.is_selecting();
        let len = self.editor.len();
        let mut runs: Vec<Run> = Vec::new();
        let mut index: usize = self.y;
        while index < len && index - self.y < self.row
            invariant
                self.y <= index,
                index <= self@.bottom() || (self@.bottom() <= self.y && index == self.y),
                len == self@.editor.lines.len(),
                self@.editor.carets.len() >= 1,
                caret@ == self@.editor.carets[0],
                select == (self@.editor.mode == EditType::Select),
                drawn(runs@) == self@.rows_drawn(index as int),
                forall|i: int| self.y <= i < index ==> self@.row_defined(i),
            decreases len - index,
        {
            let line = self.editor.get(index).unwrap();
            let number = decimal_text(index + 1);
            if number.as_str().unicode_len() > self.lnum_pad || self.lnum_pad > usize::MAX - 2
                || line.len() > usize::MAX - 2 - self.lnum_pad {
                assert(!self@.row_defined(index as int));
                return None;
            }
            let here = if caret.row == index {
                Some(caret)
            } else {
                None
            };
            if caret.row == index && caret.col > line.len() {
                assert(!self@.row_defined(index as int));
                return None;
            }
            let mut row = row_runs(line, index, index - self.y, self.lnum_pad, here, select);
            let ghost before = runs@;
            let ghost added = row@;
            runs.append(&mut row);
            assert(drawn(runs@) =~= drawn(before) + drawn(added));
            assert(caret_of(here) == self@.caret_in(index as int));
            index = index + 1;
        }
        assert(index == self@.bottom() || (self@.bottom() <= self.y && index == self.y));
        assert(self@.rows_drawn(index as int) == self@.rows_drawn(self@.bottom())) by {
            if self@.bottom() <= self.y {
                assert(self@.rows_drawn(index as int) =~= Seq::<Drawn>::empty());
                assert(self@.rows_drawn(self@.bottom()) =~= Seq::<Drawn>::empty());
            }
        }
        match self.info_run() {
            Some(run) => {
                let ghost before = runs@;
                runs.push(run);
                assert(drawn(runs@) =~= drawn(before).push(run@));
                Some(runs)
            },
            None => None,
        }
    }
}

} // verus!
