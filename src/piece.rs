//! Cells, pieces and colors, with the predicates the rules ask of a cell.
use vstd::prelude::*;

verus! {

/// The two sides of a game.
#[derive(Clone, Copy, Debug, PartialEq, Eq, Structural)]
pub enum Color {
    White,
    Black,
}

/// The six kinds of chess piece.
#[derive(Clone, Copy, Debug, PartialEq, Eq, Structural)]
pub enum Kind {
    Pawn,
    Rook,
    Knight,
    Bishop,
    Queen,
    King,
}

/// The occupant of one board cell: nothing, or a piece of a kind and a color.
#[derive(Clone, Copy, Debug, PartialEq, Eq, Structural)]
pub enum Piece {
    Empty,
    Occupied(Kind, Color),
}

/// The color that moves when `white` tells whether White is to move.
pub open spec fn side(white: bool) -> Color {
    if white { Color::White } else { Color::Black }
}

/// The other side.
pub open spec fn opponent(c: Color) -> Color {
    match c {
        Color::White => Color::Black,
        Color::Black => Color::White,
    }
}

impl Piece {
    /// True when the cell holds a piece of color `c`.
    pub open spec fn has_color(self, c: Color) -> bool {
        match self {
            Piece::Empty => false,
            Piece::Occupied(_, col) => col == c,
        }
    }

    /// True when the cell holds a piece of kind `k`, whatever its color.
    pub open spec fn has_kind(self, k: Kind) -> bool {
        match self {
            Piece::Empty => false,
            Piece::Occupied(kind, _) => kind == k,
        }
    }

    /// Both cells hold pieces, and of one color.
    pub open spec fn same_color(self, other: Piece) -> bool {
        self.has_color(Color::White) && other.has_color(Color::White)
            || self.has_color(Color::Black) && other.has_color(Color::Black)
    }

    pub fn is_white(&self) -> (r: bool)
        ensures
            r == self.has_color(Color::White),
    {
        match self {
            Piece::Occupied(_, Color::White) => true,
            _ => false,
        }
    }

    pub fn is_black(&self) -> (r: bool)
        ensures
            r == self.has_color(Color::Black),
    {
        match self {
            Piece::Occupied(_, Color::Black) => true,
            _ => false,
        }
    }

    pub fn is_empty(&self) -> (r: bool)
        ensures
            r == (*self is Empty),
    {
        match self {
            Piece::Empty => true,
            _ => false,
        }
    }

    /// False whenever either cell is empty.
    pub fn is_same_color(&self, other: &Piece) -> (r: bool)
        ensures
            r == self.same_color(*other),
    {
        (self.is_white() && other.is_white()) || (self.is_black() && other.is_black())
    }

    /// True when the cell holds a piece of kind `k`.
    pub fn is_kind(&self, k: Kind) -> (r: bool)
        ensures
            r == self.has_kind(k),
    {
        match self {
            Piece::Empty => false,
            Piece::Occupied(kind, _) => *kind == k,
        }
    }

    /// True when the cell holds a piece of the side given by `white`.
    pub fn belongs_to(&self, white: bool) -> (r: bool)
        ensures
            r == self.has_color(side(white)),
    {
        if white { self.is_white() } else { self.is_black() }
    }
}

} // verus!
