//! The vocabulary of board contents: players, pieces, and how each is shown.

use vstd::prelude::*;
use crate::paint::{colored, foreground};

verus! {

/// The abstract colours a square or a glyph can be drawn in.
#[derive(Clone, Copy, PartialEq, Eq, Structural, Debug)]
pub enum Color {
    Black,
    Red,
    Blue,
    White,
}

/// The side that owns a piece.
#[derive(Clone, Copy, PartialEq, Eq, Structural, Debug)]
pub enum Player {
    Blue,
    Red,
}

impl Player {
    /// The colour this player's pieces are drawn in.
    pub open spec fn color(self) -> Color {
        match self {
            Player::Blue => Color::Blue,
            Player::Red => Color::Red,
        }
    }

    pub fn get_color(&self) -> (c: Color)
        ensures
            c == self.color(),
    {
        match *self {
            Player::Blue => Color::Blue,
            Player::Red => Color::Red,
        }
    }
}

/// What a square holds. Every piece but `Empty` belongs to one player.
#[derive(Clone, Copy, PartialEq, Eq, Structural, Debug)]
pub enum Piece {
    Empty,
    Pawn(Player),
    Knight(Player),
    Bishop(Player),
    Rook(Player),
    Queen(Player),
    King(Player),
}

impl Piece {
    /// The player that owns the piece; `Empty` has none.
    pub open spec fn owner(self) -> Option<Player> {
        match self {
            Piece::Empty => None,
            Piece::Pawn(p) | Piece::Knight(p) | Piece::Bishop(p) | Piece::Rook(p) | Piece::Queen(
                p,
            ) | Piece::King(p) => Some(p),
        }
    }

    /// The character a piece is drawn as: a blank for `Empty`, else the
    /// initial of its kind (`N` for the knight).
    pub open spec fn glyph_of(self) -> char {
        match self {
            Piece::Empty => ' ',
            Piece::Pawn(_) => 'P',
            Piece::Knight(_) => 'N',
            Piece::Bishop(_) => 'B',
            Piece::Rook(_) => 'R',
            Piece::Queen(_) => 'Q',
            Piece::King(_) => 'K',
        }
    }

    /// The foreground colour of a piece: its owner's colour, black for `Empty`.
    pub open spec fn color_of(self) -> Color {
        match self.owner() {
            None => Color::Black,
            Some(p) => p.color(),
        }
    }

    pub fn get_owner(&self) -> (o: Option<Player>)
        ensures
            o == self.owner(),
    {
        match *self {
            Piece::Empty => None,
            Piece::Pawn(p) => Some(p),
            Piece::Knight(p) => Some(p),
            Piece::Bishop(p) => Some(p),
            Piece::Rook(p) => Some(p),
            Piece::Queen(p) => Some(p),
            Piece::King(p) => Some(p),
        }
    }

    pub fn glyph(&self) -> (g: char)
        ensures
            g == self.glyph_of(),
    {
        match *self {
            Piece::Empty => ' ',
            Piece::Pawn(_) => 'P',
            Piece::Knight(_) => 'N',
            Piece::Bishop(_) => 'B',
            Piece::Rook(_) => 'R',
            Piece::Queen(_) => 'Q',
            Piece::King(_) => 'K',
        }
    }

    pub fn get_color(&self) -> (c: Color)
        ensures
            c == self.color_of(),
    {
        match self.get_owner() {
            None => Color::Black,
            Some(player) => player.get_color(),
        }
    }

    /// The glyph of the piece as text for a terminal, in the piece's colour.
    pub fn get_colored_str(&self) -> (s: String)
        ensures
            s@ == foreground(self.color_of(), seq![self.glyph_of()]),
    {
        colored(self.glyph(), self.get_color())
    }

    pub fn is_empty(&self) -> (b: bool)
        ensures
            b == (*self == Piece::Empty),
    {
        match *self {
            Piece::Empty => true,
            _ => false,
        }
    }
}

} // verus!
