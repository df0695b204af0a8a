//! The document: an ordered, never empty sequence of lines.

use crate::line::{EditableLine, LineBuffer};
use crate::trusted::deque_get_mut;
use std::collections::VecDeque;
use vstd::prelude::*;
use vstd::std_specs::iter::IteratorSpec;

verus! {

/// The content of each of `lines`, in the same order.
pub open spec fn contents(lines: Seq<LineBuffer>) -> Seq<Seq<char>> {
    lines.map_values(|line: LineBuffer| line@)
}

/// The number of characters of `text` that stand before its first line feed:
/// the length of `text` where it holds none.
pub open spec fn first_newline(text: Seq<char>) -> nat
    decreases text.len(),
{
    if text.len() == 0 || text[0] == '\n' {
        0
    } else {
        1 + first_newline(text.subrange(1, text.len() as int))
    }
}

/// `line` without the carriage return at its end, if it ends in one.
pub open spec fn strip_cr(line: Seq<char>) -> Seq<char> {
    if line.len() > 0 && line.last() == '\r' {
        line.drop_last()
    } else {
        line
    }
}

/// The lines of `text`. A line ends at a line feed, or at a carriage return
/// directly followed by a line feed; neither belongs to the line. What
/// follows the last line feed is a line of its own unless it is empty, so an
/// empty text has no lines, and a carriage return with no line feed behind it
/// stays in its line.
pub open spec fn split_lines(text: Seq<char>) -> Seq<Seq<char>>
    decreases text.len(),
{
    let end = first_newline(text);
    if text.len() == 0 {
        Seq::empty()
    } else if end >= text.len() {
        seq![text]
    } else {
        seq![strip_cr(text.take(end as int))] + split_lines(text.skip(end + 1 as int))
    }
}

/// The lines in row order with one line feed between each two neighbours and
/// none behind the last.
pub open spec fn joined(lines: Seq<Seq<char>>) -> Seq<char>
    decreases lines.len(),
{
    if lines.len() == 0 {
        Seq::empty()
    } else if lines.len() == 1 {
        lines[0]
    } else {
        joined(lines.drop_last()) + seq!['\n'] + lines.last()
    }
}

/// The document that a text is loaded as: its lines, or one empty line where
/// it has none.
pub open spec fn document_of(text: Seq<char>) -> Seq<Seq<char>> {
    if split_lines(text).len() == 0 {
        seq![Seq::empty()]
    } else {
        split_lines(text)
    }
}

/// Whether no character of `text` is a line feed.
pub open spec fn no_newline(text: Seq<char>) -> bool {
    forall|i: int| 0 <= i < text.len() ==> text[i] != '\n'
}

/// Behind a stretch without a line feed, the first line feed of what follows
/// is the first of the whole.
pub proof fn first_newline_after(head: Seq<char>, tail: Seq<char>)
    requires
        no_newline(head),
    ensures
        first_newline(head + tail) == head.len() + first_newline(tail),
    decreases head.len(),
{
    if head.len() == 0 {
        assert(head + tail =~= tail);
    } else {
        let whole = head + tail;
        let shorter = head.subrange(1, head.len() as int);
        assert(whole[0] == head[0]);
        assert(whole.subrange(1, whole.len() as int) =~= shorter + tail);
        first_newline_after(shorter, tail);
    }
}

/// The first line feed of a text is where `first_newline` says: no character
/// before that index is a line feed, and the character at it is one unless
/// the index is the length of the text.
pub proof fn first_newline_is_first(text: Seq<char>)
    ensures
        first_newline(text) <= text.len(),
        no_newline(text.take(first_newline(text) as int)),
        first_newline(text) < text.len() ==> text[first_newline(text) as int] == '\n',
    decreases text.len(),
{
    if text.len() == 0 || text[0] == '\n' {
    } else {
        let rest = text.subrange(1, text.len() as int);
        first_newline_is_first(rest);
        let end = first_newline(text) as int;
        assert forall|i: int| 0 <= i < end implies text.take(end)[i] != '\n' by {
            if i > 0 {
                assert(text.take(end)[i] == rest.take(end - 1)[i - 1]);
            }
        }
    }
}

/// No line of a text holds a line feed.
pub proof fn lines_hold_no_newline(text: Seq<char>)
    ensures
        forall|i: int|
            0 <= i < split_lines(text).len() ==> no_newline(#[trigger] split_lines(text)[i]),
    decreases text.len(),
{
    let end = first_newline(text);
    first_newline_is_first(text);
    if text.len() == 0 {
    } else if end >= text.len() {
        assert(text.take(end as int) =~= text);
    } else {
        let rest = split_lines(text.skip(end + 1 as int));
        lines_hold_no_newline(text.skip(end + 1 as int));
        let head = text.take(end as int);
        assert forall|j: int| 0 <= j < strip_cr(head).len() implies strip_cr(head)[j] != '\n' by {
            assert(strip_cr(head)[j] == head[j]);
        }
        assert forall|i: int| 0 <= i < split_lines(text).len() implies no_newline(
            #[trigger] split_lines(text)[i],
        ) by {
            if i > 0 {
                assert(split_lines(text)[i] == rest[i - 1]);
            }
        }
    }
}

/// A text that is loaded and then extracted again is the text's lines joined
/// by single line feeds: line ends are made uniform, and no line feed is
/// added or kept behind the last line.
pub proof fn load_extract_round_trip(text: Seq<char>)
    ensures
        joined(document_of(text)) == joined(split_lines(text)),
        document_of(text).len() >= 1,
{
}

/// The lines of a document, first row to last.
pub struct TextBuffer {
    lines: VecDeque<LineBuffer>,
}

impl View for TextBuffer {
    type V = Seq<Seq<char>>;

    closed spec fn view(&self) -> Seq<Seq<char>> {
        contents(self.lines@)
    }
}

impl TextBuffer {
    /// Whether the document holds at least one line, as every document does
    /// that was made and changed by the functions of this type.
    pub open spec fn wf(&self) -> bool {
        self@.len() >= 1
    }

    /// The number of lines of a document fits in `usize`.
    pub proof fn rows_fit(&self)
        ensures
            self@.len() <= usize::MAX,
    {
        assert(self.lines.len() == self.lines@.len());
    }

    /// A document of one empty line.
    pub fn new() -> (buffer: TextBuffer)
        ensures
            buffer@ == seq![Seq::<char>::empty()],
            buffer.wf(),
    {
        let mut lines: VecDeque<LineBuffer> = VecDeque::new();
        lines.push_back(<LineBuffer as EditableLine>::new());
        let buffer = TextBuffer { lines };
        assert(buffer@ =~= seq![Seq::<char>::empty()]);
        buffer
    }

    /// Puts `line` in at row `index`; the lines from there on move one row
    /// down.
    pub fn new_line(&mut self, index: usize, line: LineBuffer)
        requires
            index <= old(self)@.len(),
        ensures
            final(self)@ == old(self)@.insert(index as int, line@),
            final(self).wf(),
    {
        self.lines.insert(index, line);
        assert(self@ =~= old(self)@.insert(index as int, line@));
    }

    /// Takes the line at row `index` out and returns it; the lines behind it
    /// move one row up. Where there is no such row nothing changes and
    /// nothing is returned. The only line of a document cannot be taken out.
    pub fn remove(&mut self, index: usize) -> (line: Option<LineBuffer>)
        requires
            index < old(self)@.len() ==> old(self)@.len() >= 2,
        ensures
            index < old(self)@.len() ==> line is Some && line.unwrap()@ == old(self)@[index as int]
                && final(self)@ == old(self)@.remove(index as int),
            index >= old(self)@.len() ==> line is None && final(self)@ == old(self)@,
            old(self).wf() ==> final(self).wf(),
    {
        let line = self.lines.remove(index);
        assert(index < old(self)@.len() ==> self@ =~= old(self)@.remove(index as int));
        line
    }

    /// The line at row `index`, or nothing where there is no such row.
    pub fn get(&self, index: usize) -> (line: Option<&LineBuffer>)
        ensures
            index < self@.len() ==> line is Some && line.unwrap()@ == self@[index as int],
            index >= self@.len() ==> line is None,
    {
        if index < self.lines.len() {
            Some(&self.lines[index])
        } else {
            None
        }
    }

    /// The line at row `index` for the caller to change, or nothing where
    /// there is no such row. No other line changes.
    pub fn get_mut(&mut self, index: usize) -> (line: Option<&mut LineBuffer>)
        ensures
            index >= old(self)@.len() ==> line is None && final(self)@ == old(self)@,
            index < old(self)@.len() ==> line is Some && line.unwrap()@ == old(self)@[index as int]
                && final(self)@ == old(self)@.update(index as int, final(line.unwrap())@),
            old(self).wf() ==> final(self).wf(),
    {
        let line = deque_get_mut(&mut self.lines, index);
        line
    }

    /// The last line, or nothing where the document holds no line.
    pub fn back(&self) -> (line: Option<&LineBuffer>)
        ensures
            self@.len() > 0 ==> line is Some && line.unwrap()@ == self@.last(),
            self@.len() == 0 ==> line is None,
    {
        let count = self.lines.len();
        if count > 0 {
            Some(&self.lines[count - 1])
        } else {
            None
        }
    }

    /// The number of lines.
    pub fn len(&self) -> (count: usize)
        ensures
            count == self@.len(),
    {
        self.lines.len()
    }

    /// The whole document as one string, its lines joined by line feeds.
    pub fn extract(&self) -> (text: String)
        ensures
            text@ == joined(self@),
    {
        let mut view = String::new();
        let count = self.lines.len();
        let mut row: usize = 0;
        while row < count
            invariant
                row <= count,
                count == self@.len(),
                view@ == joined(self@.take(row as int)),
            decreases count - row,
        {
            if row > 0 {
                view.push('\n');
            }
            let line = self.lines[row].extract();
            view.append(line.as_str());
            proof {
                let upto = self@.take(row + 1);
                assert(upto.drop_last() =~= self@.take(row as int));
                assert(upto.last() == self@[row as int]);
                assert(line@ == self@[row as int]);
                if row == 0 {
                    assert(view@ =~= upto[0]);
                }
            }
            row = row + 1;
        }
        assert(self@.take(count as int) =~= self@);
        view
    }

    /// Replaces the document by the lines of `text`, or by one empty line
    /// where `text` has none.
    pub fn load(&mut self, text: &str)
        ensures
            final(self)@ == document_of(text@),
            final(self).wf(),
    {
        let mut lines: VecDeque<LineBuffer> = VecDeque::new();
        let mut current: LineBuffer = VecDeque::new();
        proof {
            assert(current@ + text@.skip(0) =~= text@);
            assert(contents(lines@) + split_lines(text@) =~= split_lines(text@));
        }
        for c in it: text.chars()
            invariant
                it.seq() == text@,
                no_newline(current@),
                split_lines(text@) == contents(lines@) + split_lines(
                    current@ + text@.skip(it.index() as int),
                ),
        {
            let ghost rest = text@.skip(it.index() as int);
            let ghost whole = current@ + rest;
            assert(rest.len() > 0 && rest[0] == c);
            assert(rest.skip(1) =~= text@.skip(it.index() + 1));
            if c == '\n' {
                proof {
                    first_newline_after(current@, rest);
                    assert(whole.take(current@.len() as int) =~= current@);
                    assert(whole.skip(current@.len() + 1 as int) =~= rest.skip(1));
                    assert(Seq::<char>::empty() + rest.skip(1) =~= rest.skip(1));
                }
                let ghost before = current@;
                let len = current.len();
                if len > 0 && current[len - 1] == '\r' {
                    current.pop_back();
                }
                assert(current@ =~= strip_cr(before));
                let ghost done = lines@;
                lines.push_back(current);
                current = VecDeque::new();
                assert(contents(lines@) =~= contents(done) + seq![strip_cr(before)]);
            } else {
                let ghost before = current@;
                current.push_back(c);
                assert(current@ + rest.skip(1) =~= before + rest);
            }
        }
        proof {
            assert(text@.skip(text@.len() as int) =~= Seq::<char>::empty());
            assert(current@ + Seq::<char>::empty() =~= current@);
            first_newline_after(current@, Seq::<char>::empty());
        }
        if current.len() > 0 {
            let ghost done = lines@;
            lines.push_back(current);
            assert(contents(lines@) =~= contents(done) + seq![current@]);
        }
        if lines.len() == 0 {
            lines.push_back(<LineBuffer as EditableLine>::new());
            assert(contents(lines@) =~= seq![Seq::<char>::empty()]);
        }
        self.lines = lines;
    }
}

} // verus!
