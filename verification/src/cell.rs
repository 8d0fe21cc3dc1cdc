//! What the rendering layer hands over: cells, and where they are.

use crate::color::Color;
use crate::modifier::Modifier;
use vstd::prelude::*;

verus! {

/// A place on the screen; columns and rows are counted from zero.
#[derive(Debug, Clone, Copy, PartialEq, Eq, Hash, Structural)]
pub struct Position {
    pub x: u16,
    pub y: u16,
}

/// A width and a height, in cells or in pixels.
#[derive(Debug, Clone, Copy, PartialEq, Eq, Hash, Structural)]
pub struct Size {
    pub width: u16,
    pub height: u16,
}

/// One cell of the screen: its text and how the text is styled.
#[derive(Debug, Clone, PartialEq, Eq, Hash)]
pub struct Cell {
    /// The text of the cell, one grapheme cluster.
    pub symbol: String,
    pub fg: Color,
    pub bg: Color,
    pub underline_color: Color,
    pub modifier: Modifier,
}

impl Position {
    pub fn new(x: u16, y: u16) -> (p: Position)
        ensures
            p == (Position { x, y }),
    {
        Position { x, y }
    }

    /// Whether the protocol can name this place. It counts from one in the
    /// same sixteen bits, so the last column and the last row have no name.
    pub open spec fn spec_addressable(&self) -> bool {
        self.x < u16::MAX && self.y < u16::MAX
    }

    /// Whether the protocol can name this place.
    #[verifier::when_used_as_spec(spec_addressable)]
    pub fn addressable(&self) -> (yes: bool)
        ensures
            yes == self.spec_addressable(),
    {
        self.x < u16::MAX && self.y < u16::MAX
    }

    /// Whether this place is the one right of `other`, on the same row: the
    /// place the cursor is at after a cell was written at `other`.
    pub open spec fn spec_follows(&self, other: Position) -> bool {
        self.x == other.x + 1 && self.y == other.y
    }

    /// Whether this place is the one right of `other`, on the same row.
    #[verifier::when_used_as_spec(spec_follows)]
    pub fn follows(&self, other: Position) -> (yes: bool)
        ensures
            yes == self.spec_follows(other),
    {
        other.x < u16::MAX && self.x == other.x + 1 && self.y == other.y
    }
}

impl Size {
    pub fn new(width: u16, height: u16) -> (s: Size)
        ensures
            s == (Size { width, height }),
    {
        Size { width, height }
    }
}

impl Cell {
    /// A cell with the given text, default colours and no attribute.
    pub fn new(symbol: &str) -> (cell: Cell)
        ensures
            cell.symbol@ == symbol@,
            cell.fg == Color::Reset,
            cell.bg == Color::Reset,
            cell.underline_color == Color::Reset,
            cell.modifier.bits == 0,
    {
        Cell {
            symbol: String::from_str(symbol),
            fg: Color::Reset,
            bg: Color::Reset,
            underline_color: Color::Reset,
            modifier: Modifier::empty(),
        }
    }

    /// The text of the cell.
    pub fn symbol(&self) -> (symbol: &str)
        ensures
            symbol@ == self.symbol@,
    {
        self.symbol.as_str()
    }

    /// Whether two cells are styled alike, whatever their text.
    pub open spec fn same_style(self, other: Cell) -> bool {
        &&& self.fg == other.fg
        &&& self.bg == other.bg
        &&& self.underline_color == other.underline_color
        &&& self.modifier == other.modifier
    }
}

} // verus!
