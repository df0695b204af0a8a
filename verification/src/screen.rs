//! What a terminal is asked to draw: runs of text, each at a place, in a
//! face and two colours.

use crate::buffer::Color;
use crate::caret::Position;
use crate::line::LineBuffer;
use crate::model::Caret;
use vstd::prelude::*;

verus! {

/// `count` blanks.
pub open spec fn padding(count: int) -> Seq<char> {
    Seq::new(
        if count > 0 {
            count as nat
        } else {
            0
        },
        |i: int| ' ',
    )
}

/// `text` behind as many blanks as fill it up to `width` characters.
pub open spec fn right_aligned(text: Seq<char>, width: int) -> Seq<char> {
    padding(width - text.len()) + text
}

/// The character of the decimal digit `d`.
pub open spec fn digit(d: int) -> char {
    if d == 0 {
        '0'
    } else if d == 1 {
        '1'
    } else if d == 2 {
        '2'
    } else if d == 3 {
        '3'
    } else if d == 4 {
        '4'
    } else if d == 5 {
        '5'
    } else if d == 6 {
        '6'
    } else if d == 7 {
        '7'
    } else if d == 8 {
        '8'
    } else {
        '9'
    }
}

/// The decimal numeral of `n`, without leading zeros.
pub open spec fn decimal(n: nat) -> Seq<char>
    decreases n,
{
    if n < 10 {
        seq![digit(n as int)]
    } else {
        decimal(n / 10).push(digit((n % 10) as int))
    }
}

/// `text` moved to the right edge of a field of `width` characters.
pub fn right_aligned_text(text: &str, width: usize) -> (aligned: String)
    requires
        text@.len() <= width,
    ensures
        aligned@ == right_aligned(text@, width as int),
{
    let len = text.unicode_len();
    let mut aligned = String::new();
    let mut idx: usize = 0;
    while idx < width - len
        invariant
            len == text@.len(),
            len <= width,
            idx <= width - len,
            aligned@ == padding(idx as int),
        decreases width - len - idx,
    {
        aligned.push(' ');
        assert(aligned@ =~= padding(idx + 1));
        idx = idx + 1;
    }
    aligned.append(text);
    aligned
}

/// The character of the last decimal digit of `n`.
fn last_digit(n: usize) -> (c: char)
    ensures
        c == digit((n % 10) as int),
{
    let d = n % 10;
    if d == 0 {
        '0'
    } else if d == 1 {
        '1'
    } else if d == 2 {
        '2'
    } else if d == 3 {
        '3'
    } else if d == 4 {
        '4'
    } else if d == 5 {
        '5'
    } else if d == 6 {
        '6'
    } else if d == 7 {
        '7'
    } else if d == 8 {
        '8'
    } else {
        '9'
    }
}

/// Appends the decimal numeral of `n` to `text`.
pub fn push_decimal(text: &mut String, n: usize)
    ensures
        final(text)@ == old(text)@ + decimal(n as nat),
    decreases n,
{
    if n >= 10 {
        push_decimal(text, n / 10);
    }
    text.push(last_digit(n));
    assert(text@ =~= old(text)@ + decimal(n as nat));
}

/// The decimal numeral of `n`.
pub fn decimal_text(n: usize) -> (text: String)
    ensures
        text@ == decimal(n as nat),
{
    let mut text = String::new();
    push_decimal(&mut text, n);
    assert(text@ =~= decimal(n as nat));
    text
}

/// How a run is drawn.
#[derive(Clone, Copy, Debug, PartialEq, Eq, Structural)]
pub enum Face {
    Normal,
    Bold,
    Reverse,
}

/// A run of text for the terminal: its characters go into row `y`, the
/// first into column `x` and each following one into the next column, all
/// in one face and one pair of colours.
#[derive(Debug, PartialEq, Eq)]
pub struct Run {
    pub x: usize,
    pub y: usize,
    pub face: Face,
    pub fg: Color,
    pub bg: Color,
    pub text: String,
}

/// A run over the unbounded integers and sequences.
pub struct Drawn {
    pub x: int,
    pub y: int,
    pub face: Face,
    pub fg: Color,
    pub bg: Color,
    pub text: Seq<char>,
}

impl View for Run {
    type V = Drawn;

    open spec fn view(&self) -> Drawn {
        Drawn {
            x: self.x as int,
            y: self.y as int,
            face: self.face,
            fg: self.fg,
            bg: self.bg,
            text: self.text@,
        }
    }
}

/// What `runs` stand for, in the same order.
pub open spec fn drawn(runs: Seq<Run>) -> Seq<Drawn> {
    runs.map_values(|run: Run| run@)
}

/// The caret that `position` stands for, if there is one.
pub open spec fn caret_of(position: Option<Position>) -> Option<Caret> {
    match position {
        Some(p) => Some(p@),
        None => None,
    }
}

/// The cells of a row: the characters of its line, and behind them one
/// blank for a caret that stands at the end of the line.
pub open spec fn cells(line: Seq<char>, caret: Caret) -> Seq<char> {
    if caret.col == line.len() {
        line.push(' ')
    } else {
        line
    }
}

/// The first cell of a row that is drawn reversed. The reversed cells are
/// that of the caret and, where `select` holds, those that the caret's
/// selection spans to either side of it.
pub open spec fn marked_from(caret: Caret, select: bool) -> int {
    if select && caret.range < 0 {
        if caret.col + caret.range < 0 {
            0
        } else {
            caret.col + caret.range
        }
    } else {
        caret.col
    }
}

/// The cell behind the last that is drawn reversed, of a row of `count`
/// cells.
pub open spec fn marked_to(caret: Caret, select: bool, count: int) -> int {
    if select && caret.range > 0 {
        if caret.col + caret.range + 1 > count {
            count
        } else {
            caret.col + caret.range + 1
        }
    } else {
        caret.col + 1
    }
}

/// The label of row `index` of the document: its number, counted from one,
/// at the right edge of the `pad` columns at the left of screen row `y`.
pub open spec fn label_drawn(index: int, y: int, pad: int) -> Drawn {
    Drawn {
        x: 0,
        y,
        face: Face::Bold,
        fg: Color::Yellow,
        bg: Color::Black,
        text: right_aligned(decimal((index + 1) as nat), pad),
    }
}

/// A run of text of the document, white on black.
pub open spec fn text_drawn(x: int, y: int, face: Face, text: Seq<char>) -> Drawn {
    Drawn { x, y, face, fg: Color::White, bg: Color::Black, text }
}

/// What is drawn for row `index` of the document in screen row `y`: the
/// label, and from column `pad + 1` on the line. In a row without a caret
/// the line is one run. In the caret's row there are three: the cells
/// before the reversed ones, the reversed ones, and those behind them.
pub open spec fn row_drawn(
    line: Seq<char>,
    index: int,
    y: int,
    pad: int,
    caret: Option<Caret>,
    select: bool,
) -> Seq<Drawn> {
    match caret {
        None => seq![label_drawn(index, y, pad), text_drawn(pad + 1, y, Face::Normal, line)],
        Some(c) => {
            let all = cells(line, c);
            let from = marked_from(c, select);
            let to = marked_to(c, select, all.len() as int);
            seq![
                label_drawn(index, y, pad),
                text_drawn(pad + 1, y, Face::Normal, all.subrange(0, from)),
                text_drawn(pad + 1 + from, y, Face::Reverse, all.subrange(from, to)),
                text_drawn(pad + 1 + to, y, Face::Normal, all.subrange(to, all.len() as int)),
            ]
        },
    }
}

/// In the caret's row the three runs of text lie side by side from column
/// `pad + 1` on and hold, one after the other, exactly the cells of the row.
/// The reversed run is never empty, and the caret's cell is one of its
/// cells.
pub proof fn caret_row_covers_cells(
    line: Seq<char>,
    index: int,
    y: int,
    pad: int,
    caret: Caret,
    select: bool,
)
    requires
        0 <= caret.col <= line.len(),
    ensures
        ({
            let runs = row_drawn(line, index, y, pad, Some(caret), select);
            &&& runs.len() == 4
            &&& runs[1].text + runs[2].text + runs[3].text == cells(line, caret)
            &&& runs[1].x == pad + 1
            &&& runs[2].x == runs[1].x + runs[1].text.len()
            &&& runs[3].x == runs[2].x + runs[2].text.len()
            &&& runs[1].face == Face::Normal
            &&& runs[2].face == Face::Reverse
            &&& runs[3].face == Face::Normal
            &&& runs[1].text.len() <= caret.col < runs[1].text.len() + runs[2].text.len()
        }),
{
    let runs = row_drawn(line, index, y, pad, Some(caret), select);
    assert(runs[1].text + runs[2].text + runs[3].text =~= cells(line, caret));
}

/// The characters of `line` from index `from` up to `to`, as a string.
fn part_text(line: &LineBuffer, from: usize, to: usize) -> (text: String)
    requires
        from <= to <= line@.len(),
    ensures
        text@ == line@.subrange(from as int, to as int),
{
    let mut text = String::new();
    let mut i: usize = from;
    while i < to
        invariant
            from <= i <= to,
            to <= line@.len(),
            text@ == line@.subrange(from as int, i as int),
        decreases to - i,
    {
        text.push(line[i]);
        assert(text@ =~= line@.subrange(from as int, i + 1));
        i = i + 1;
    }
    text
}

/// A run of text of the document, white on black.
fn text_run(x: usize, y: usize, face: Face, text: String) -> (run: Run)
    ensures
        run@ == text_drawn(x as int, y as int, face, text@),
{
    Run { x, y, face, fg: Color::White, bg: Color::Black, text }
}

/// The runs that draw row `index` of the document, whose line is `line`,
/// in screen row `y`. `caret` is the primary caret where it stands in this
/// row.
pub fn row_runs(
    line: &LineBuffer,
    index: usize,
    y: usize,
    pad: usize,
    caret: Option<Position>,
    select: bool,
) -> (runs: Vec<Run>)
    requires
        index < usize::MAX,
        decimal((index + 1) as nat).len() <= pad,
        pad + line@.len() + 2 <= usize::MAX,
        caret is Some ==> caret.unwrap().col <= line@.len(),
    ensures
        drawn(runs@) == row_drawn(
            line@,
            index as int,
            y as int,
            pad as int,
            caret_of(caret),
            select,
        ),
{
    let number = decimal_text(index + 1);
    let label = Run {
        x: 0,
        y,
        face: Face::Bold,
        fg: Color::Yellow,
        bg: Color::Black,
        text: right_aligned_text(number.as_str(), pad),
    };
    let len = line.len();
    let mut runs: Vec<Run> = Vec::new();
    runs.push(label);
    match caret {
        None => {
            runs.push(text_run(pad + 1, y, Face::Normal, part_text(line, 0, len)));
            assert(line@.subrange(0, len as int) =~= line@);
            assert(drawn(runs@) =~= row_drawn(
                line@,
                index as int,
                y as int,
                pad as int,
                caret_of(caret),
                select,
            ));
        },
        Some(position) => {
            let col = position.col;
            let ghost all = cells(line@, position@);
            let count = if col == len {
                len + 1
            } else {
                len
            };
            let from = if select && position.range < 0 {
                let back = if position.range == isize::MIN {
                    isize::MAX as usize + 1
                } else {
                    (-position.range) as usize
                };
                if back > col {
                    0
                } else {
                    col - back
                }
            } else {
                col
            };
            let to = if select && position.range > 0 {
                if position.range as usize > count - col - 1 {
                    count
                } else {
                    col + position.range as usize + 1
                }
            } else {
                col + 1
            };
            assert(from == marked_from(position@, select));
            assert(to == marked_to(position@, select, all.len() as int));
            let before = part_text(line, 0, from);
            let mut marked = part_text(line, from, if to < len {
                to
            } else {
                len
            });
            if col == len {
                marked.push(' ');
            }
            let after = part_text(line, if to < len {
                to
            } else {
                len
            }, len);
            assert(before@ =~= all.subrange(0, from as int));
            assert(marked@ =~= all.subrange(from as int, to as int));
            assert(after@ =~= all.subrange(to as int, all.len() as int));
            runs.push(text_run(pad + 1, y, Face::Normal, before));
            runs.push(text_run(pad + 1 + from, y, Face::Reverse, marked));
            runs.push(text_run(pad + 1 + to, y, Face::Normal, after));
            assert(drawn(runs@) =~= row_drawn(
                line@,
                index as int,
                y as int,
                pad as int,
                caret_of(caret),
                select,
            ));
        },
    }
    runs
}

} // verus!
