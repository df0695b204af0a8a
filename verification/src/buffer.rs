//! A chain of owned nodes, and the cells of styled text that a screen buffer
//! is made of.

use vstd::prelude::*;

verus! {

/// A link of a chain: a value, and the rest of the chain behind it.
#[derive(Debug)]
pub struct Node<T> {
    next: Option<Box<Node<T>>>,
    value: T,
}

/// The values of the chain that starts at `link`, first to last.
pub closed spec fn chain<T>(link: Option<Box<Node<T>>>) -> Seq<T>
    decreases link,
{
    match link {
        None => Seq::empty(),
        Some(node) => seq![node.value] + chain(node.next),
    }
}

impl<T> View for Node<T> {
    type V = Seq<T>;

    closed spec fn view(&self) -> Seq<T> {
        seq![self.value] + chain(self.next)
    }
}

impl<T> Node<T> {
    /// A chain of the one value `v`.
    pub fn new(v: T) -> (node: Node<T>)
        ensures
            node@ == seq![v],
    {
        let node = Node { value: v, next: None };
        assert(node@ =~= seq![v]);
        node
    }

    /// Puts `v` directly behind the first value; what stood behind the
    /// first value now follows `v`.
    pub fn insert_back(&mut self, v: T)
        ensures
            final(self)@ == old(self)@.insert(1, v),
    {
        let mut node = Node::new(v);
        assert(node.next is None) by {
            assert(node@.len() == 1);
            assert(node@.len() == seq![node.value].len() + chain(node.next).len());
        }
        match self.next {
            Some(_) => {
                std::mem::swap(&mut self.next, &mut node.next);
            },
            None => {},
        }
        assert(node.next == old(self).next);
        self.next = Some(Box::new(node));
        assert(chain(self.next) =~= seq![v] + chain(old(self).next));
        assert(self@ =~= old(self)@.insert(1, v));
    }

    /// The values of the chain, first to last.
    pub fn into_values(self) -> (values: Vec<T>)
        ensures
            values@ == self@,
    {
        let ghost all = self@;
        let Node { next, value } = self;
        let mut values: Vec<T> = Vec::new();
        values.push(value);
        let mut link = next;
        loop
            invariant
                values@ + chain(link) == all,
            ensures
                values@ == all,
            decreases chain(link).len(),
        {
            match link {
                Some(node) => {
                    let Node { next, value } = *node;
                    values.push(value);
                    assert(values@ + chain(next) =~= all);
                    link = next;
                },
                None => {
                    assert(values@ + chain(link) =~= values@);
                    break;
                },
            }
        }
        values
    }
}

/// A line as a chain of cells; an empty line has no head.
pub struct Line<T> {
    head: Option<Box<Node<T>>>,
}

/// A buffer as a chain of lines.
pub struct Buffer<T> {
    lines: Box<Node<Line<T>>>,
}

/// The colour of a cell: one of the eight of a terminal, or one of a
/// palette by its number.
#[derive(Clone, Copy, Debug, PartialEq, Eq, Structural)]
pub enum Color {
    Black,
    Red,
    Green,
    Yellow,
    Blue,
    Magenta,
    Cyan,
    White,
    Byte(u16),
}

/// How a cell is drawn.
pub struct Style {
    normal_color: bool,
    bold: bool,
    underline: bool,
    reverse: bool,
}

/// One cell of styled text.
pub struct Letter {
    fg: Color,
    bg: Color,
    style: Style,
    glyph: char,
    width: usize,
}

/// A buffer of styled text.
pub type EditorBuffer = Buffer<Letter>;

} // verus!
