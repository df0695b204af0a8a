//! Editable lines: mutable ordered sequences of characters.

use std::collections::VecDeque;
use vstd::prelude::*;
use vstd::std_specs::iter::IteratorSpec;

verus! {

/// One document row: a double-ended queue of Unicode scalar values.
pub type LineBuffer = VecDeque<char>;

/// `line` with `text` placed so that its first character lands at index `at`.
/// Where `at` lies beyond the end of `line` nothing can be placed and the
/// line is left as it is.
pub open spec fn spliced(line: Seq<char>, at: int, text: Seq<char>) -> Seq<char> {
    if 0 <= at <= line.len() {
        line.subrange(0, at) + text + line.subrange(at, line.len() as int)
    } else {
        line
    }
}

/// `line` after the characters of `text` were inserted one at a time, the
/// first at index `at`, each following one directly behind its predecessor.
pub open spec fn inserted_each(line: Seq<char>, at: int, text: Seq<char>) -> Seq<char>
    decreases text.len(),
{
    if text.len() == 0 {
        line
    } else {
        inserted_each(line.insert(at, text[0]), at + 1, text.subrange(1, text.len() as int))
    }
}

/// Placing a text at an index of a line gives the same line as inserting its
/// characters one at a time at that index and the ones behind it. At the end
/// of the line this is the line followed by the text, and at its start the
/// text followed by the line.
pub proof fn insert_paths_agree(line: Seq<char>, at: int, text: Seq<char>)
    requires
        0 <= at <= line.len(),
    ensures
        spliced(line, at, text) == inserted_each(line, at, text),
        at == line.len() ==> line + text == inserted_each(line, at, text),
        at == 0 ==> text + line == inserted_each(line, at, text),
    decreases text.len(),
{
    if text.len() == 0 {
        assert(spliced(line, at, text) =~= line);
    } else {
        let grown = line.insert(at, text[0]);
        let rest = text.subrange(1, text.len() as int);
        insert_paths_agree(grown, at + 1, rest);
        assert(spliced(grown, at + 1, rest) =~= spliced(line, at, text));
    }
    assert(at == line.len() ==> line + text =~= spliced(line, at, text));
    assert(at == 0 ==> text + line =~= spliced(line, at, text));
}

/// The capability of a line of text to take input at its front, at its back
/// and at any index between, and to hand its content out as a string.
pub trait EditableLine: Sized {
    /// The characters of the line, first to last.
    spec fn content(&self) -> Seq<char>;

    /// An empty line.
    fn new() -> (line: Self)
        ensures
            line.content() == Seq::<char>::empty(),
    ;

    /// Puts `text` before the first character and returns how many
    /// characters were put in.
    fn input_front(&mut self, text: String) -> (count: usize)
        ensures
            final(self).content() == text@ + old(self).content(),
            count == text@.len(),
    ;

    /// Puts `text` into the line so that it starts at `index`, and returns
    /// how many characters were put in.
    fn input_at(&mut self, index: &usize, text: String) -> (count: usize)
        requires
            text@.len() > 0 ==> *index <= old(self).content().len(),
        ensures
            final(self).content() == spliced(old(self).content(), *index as int, text@),
            count == text@.len(),
    ;

    /// Puts `text` behind the last character and returns how many
    /// characters were put in.
    fn input_back(&mut self, text: String) -> (count: usize)
        ensures
            final(self).content() == old(self).content() + text@,
            count == text@.len(),
    ;

    /// The content of the line as a string.
    fn extract(&self) -> (text: String)
        ensures
            text@ == self.content(),
    ;
}

/// Collects the characters of `text`, in order.
pub fn chars_of(text: &str) -> (chars: Vec<char>)
    ensures
        chars@ == text@,
{
    let mut chars: Vec<char> = Vec::new();
    for c in it: text.chars()
        invariant
            it.seq() == text@,
            chars@ == it.seq().take(it.index() as int),
    {
        chars.push(c);
    }
    chars
}

impl EditableLine for LineBuffer {
    open spec fn content(&self) -> Seq<char> {
        self@
    }

    fn new() -> (line: LineBuffer) {
        VecDeque::new()
    }

    fn input_front(&mut self, text: String) -> (count: usize) {
        let chars = chars_of(text.as_str());
        let total: usize = chars.len();
        let mut left: usize = total;
        while left > 0
            invariant
                left <= total,
                total == chars@.len(),
                chars@ == text@,
                self@ == chars@.subrange(left as int, total as int) + old(self)@,
            decreases left,
        {
            left = left - 1;
            self.push_front(chars[left]);
        }
        total
    }

    fn input_at(&mut self, index: &usize, text: String) -> (count: usize) {
        let chars = chars_of(text.as_str());
        let total: usize = chars.len();
        let at: usize = *index;
        let mut len: usize = 0;
        while len < total
            invariant
                len <= total,
                total == chars@.len(),
                chars@ == text@,
                total > 0 ==> at <= old(self)@.len(),
                self@ == spliced(old(self)@, at as int, chars@.subrange(0, len as int)),
            decreases total - len,
        {
            assert(at + len <= self.len());
            self.insert(at + len, chars[len]);
            len = len + 1;
        }
        len
    }

    fn input_back(&mut self, text: String) -> (count: usize) {
        let chars = chars_of(text.as_str());
        let total: usize = chars.len();
        let mut len: usize = 0;
        while len < total
            invariant
                len <= total,
                total == chars@.len(),
                chars@ == text@,
                self@ == old(self)@ + chars@.subrange(0, len as int),
            decreases total - len,
        {
            self.push_back(chars[len]);
            len = len + 1;
        }
        len
    }

    fn extract(&self) -> (text: String) {
        let mut text = String::new();
        let mut i: usize = 0;
        while i < self.len()
            invariant
                i <= self@.len(),
                text@ == self@.subrange(0, i as int),
            decreases self@.len() - i,
        {
            text.push(self[i]);
            i = i + 1;
        }
        text
    }
}

} // verus!
