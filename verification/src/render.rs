//! What a drawn board consists of, and the text that draws it.

use vstd::prelude::*;
use vstd::string::StringExecFns;
use crate::paint::{background, colored, foreground, on_colored};
use crate::piece::{Color, Piece};

verus! {

/// One drawn square: a glyph, the colour of the glyph and the colour of the
/// square behind it.
#[derive(Clone, Copy, PartialEq, Eq, Structural, Debug)]
pub struct Cell {
    pub glyph: char,
    pub fg: Color,
    pub bg: Color,
}

/// The colour of the square in a row and column of the grid: it depends on
/// the parity of their sum alone, white where it is even.
pub open spec fn square_color(row: int, col: int) -> Color {
    if (row + col) % 2 == 0 {
        Color::White
    } else {
        Color::Black
    }
}

/// How a piece is drawn on the square in a row and column of the grid.
pub open spec fn cell_of(piece: Piece, row: int, col: int) -> Cell {
    Cell { glyph: piece.glyph_of(), fg: piece.color_of(), bg: square_color(row, col) }
}

/// The glyphs of a row of cells, from left to right.
pub open spec fn glyphs(row: Seq<Cell>) -> Seq<char> {
    row.map_values(|cell: Cell| cell.glyph)
}

/// The text of one square: the coloured glyph on the coloured background.
pub open spec fn cell_text(cell: Cell) -> Seq<char> {
    background(cell.bg, foreground(cell.fg, seq![cell.glyph]))
}

/// The text of a row: its squares from left to right.
pub open spec fn row_text(row: Seq<Cell>) -> Seq<char>
    decreases row.len(),
{
    if row.len() == 0 {
        Seq::empty()
    } else {
        row_text(row.drop_last()) + cell_text(row.last())
    }
}

/// The text of a grid: its rows from top to bottom, with a line break
/// between two rows and none after the last.
pub open spec fn grid_text(rows: Seq<Seq<Cell>>) -> Seq<char>
    decreases rows.len(),
{
    if rows.len() == 0 {
        Seq::empty()
    } else if rows.len() == 1 {
        row_text(rows[0])
    } else {
        grid_text(rows.drop_last()) + seq!['\n'] + row_text(rows.last())
    }
}

/// The rows of a grid of cells, each as a sequence.
pub open spec fn rows_of(grid: Vec<Vec<Cell>>) -> Seq<Seq<Cell>> {
    Seq::new(grid@.len(), |r: int| grid@[r]@)
}

/// The colour of a square of the grid.
pub fn square_background(row: usize, col: usize) -> (c: Color)
    ensures
        c == square_color(row as int, col as int),
{
    if row % 2 == col % 2 {
        Color::White
    } else {
        Color::Black
    }
}

impl Cell {
    /// The cell as text for a terminal.
    pub fn text(&self) -> (s: String)
        ensures
            s@ == cell_text(*self),
    {
        let glyph = colored(self.glyph, self.fg);
        on_colored(glyph.as_str(), self.bg)
    }
}

/// The text that draws a grid of cells on a terminal.
pub fn draw(grid: &Vec<Vec<Cell>>) -> (s: String)
    ensures
        s@ == grid_text(rows_of(*grid)),
{
    let ghost rows = rows_of(*grid);
    let mut out = String::new();
    let mut r: usize = 0;
    while r < grid.len()
        invariant
            rows == rows_of(*grid),
            r <= grid.len(),
            out@ == grid_text(rows.take(r as int)),
        decreases grid.len() - r,
    {
        if r != 0 {
            proof {
                reveal_strlit("\n");
                assert("\n"@ =~= seq!['\n']);
            }
            out.append("\n");
        }
        let ghost start = out@;
        let row = &grid[r];
        let mut c: usize = 0;
        while c < row.len()
            invariant
                c <= row.len(),
                out@ == start + row_text(row@.take(c as int)),
            decreases row.len() - c,
        {
            let cell = row[c].text();
            out.append(cell.as_str());
            proof {
                assert(row@.take(c + 1).drop_last() =~= row@.take(c as int));
            }
            c += 1;
        }
        proof {
            assert(row@.take(row.len() as int) =~= row@);
            assert(rows.take(r + 1).drop_last() =~= rows.take(r as int));
            assert(rows.take(r + 1).last() == row@);
        }
        r += 1;
    }
    proof {
        assert(rows.take(grid.len() as int) =~= rows);
    }
    out
}

} // verus!
