//! Squares named the way a player names them: file first, then rank.

use vstd::prelude::*;
use vstd::std_specs::convert::FromSpecImpl;

verus! {

/// The number of files and of ranks of the board.
pub const SIZE: usize = 8;

/// A square given by its file `x` and its rank `y`, both counted from 0.
/// Rank 0 is the bottom row of the drawn board.
#[derive(Clone, Copy, PartialEq, Eq, Structural, Debug)]
pub struct Place {
    pub x: u8,
    pub y: u8,
}

impl Place {
    /// Both coordinates lie on the board.
    pub open spec fn on_board(self) -> bool {
        self.x < SIZE && self.y < SIZE
    }

    /// The row of the grid that holds this square: the rank, mirrored, so
    /// that the highest rank is row 0.
    pub open spec fn row(self) -> int
        recommends
            self.on_board(),
    {
        SIZE - 1 - self.y
    }

    /// The column of the grid that holds this square: the file.
    pub open spec fn col(self) -> int {
        self.x as int
    }

    pub fn new(x: u8, y: u8) -> (p: Place)
        ensures
            p == (Place { x, y }),
    {
        Place { x, y }
    }

    pub fn y(&self) -> (y: usize)
        ensures
            y == self.y,
    {
        self.y as usize
    }

    pub fn x(&self) -> (x: usize)
        ensures
            x == self.x,
    {
        self.x as usize
    }

    pub fn in_bounds(&self) -> (b: bool)
        ensures
            b == self.on_board(),
    {
        self.x() < SIZE && self.y() < SIZE
    }

    /// Where the square lies in the grid, as `(row, column)`; `None` for a
    /// square that is not on the board.
    pub fn storage_index(&self) -> (idx: Option<(usize, usize)>)
        ensures
            self.on_board() ==> idx == Some((self.row() as usize, self.col() as usize)),
            !self.on_board() ==> idx.is_none(),
    {
        if self.in_bounds() {
            Some((SIZE - 1 - self.y(), self.x()))
        } else {
            None
        }
    }
}

impl From<(u8, u8)> for Place {
    fn from(pair: (u8, u8)) -> (p: Place) {
        Place::new(pair.0, pair.1)
    }
}

impl FromSpecImpl<(u8, u8)> for Place {
    open spec fn obeys_from_spec() -> bool {
        true
    }

    open spec fn from_spec(pair: (u8, u8)) -> Place {
        Place { x: pair.0, y: pair.1 }
    }
}

impl From<[u8; 2]> for Place {
    fn from(pair: [u8; 2]) -> (p: Place) {
        Place::new(pair[0], pair[1])
    }
}

impl FromSpecImpl<[u8; 2]> for Place {
    open spec fn obeys_from_spec() -> bool {
        true
    }

    open spec fn from_spec(pair: [u8; 2]) -> Place {
        Place { x: pair[0], y: pair[1] }
    }
}

/// A square's place in the grid determines the square: two squares on the
/// board that share a row and a column are the same square.
pub proof fn lemma_index_injective(a: Place, b: Place)
    requires
        a.on_board(),
        b.on_board(),
        a.row() == b.row(),
        a.col() == b.col(),
    ensures
        a == b,
{
}

} // verus!
