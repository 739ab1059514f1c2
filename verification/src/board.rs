//! The board: an 8x8 grid of pieces, its starting position, and the one
//! operation that changes it.

use vstd::prelude::*;
use vstd::std_specs::convert::IntoSpec;
use crate::piece::{Color, Piece, Player};
use crate::place::{Place, SIZE};
use crate::render::{
    cell_of, draw, glyphs, grid_text, rows_of, square_background, square_color, Cell,
};

verus! {

/// Why a piece could not be relocated.
#[derive(Clone, Copy, PartialEq, Eq, Structural, Debug)]
pub enum MoveError {
    /// The two squares are the same, or one of them is not on the board.
    InvalidMove,
    /// The square to move from holds no piece.
    NoPieceToMove,
}

impl MoveError {
    /// The characters of the error's message.
    pub open spec fn text(self) -> Seq<char> {
        match self {
            MoveError::InvalidMove => "Invalid move"@,
            MoveError::NoPieceToMove => "No piece to move"@,
        }
    }

    /// The error in words.
    pub fn message(&self) -> (s: &'static str)
        ensures
            s@ == self.text(),
    {
        match *self {
            MoveError::InvalidMove => "Invalid move",
            MoveError::NoPieceToMove => "No piece to move",
        }
    }
}

/// The back rank of a player, in file order.
pub open spec fn back_rank(p: Player) -> Seq<Piece> {
    seq![
        Piece::Rook(p),
        Piece::Knight(p),
        Piece::Bishop(p),
        Piece::Queen(p),
        Piece::King(p),
        Piece::Bishop(p),
        Piece::Knight(p),
        Piece::Rook(p),
    ]
}

/// A row that holds the same piece on every file.
pub open spec fn uniform_row(piece: Piece) -> Seq<Piece> {
    Seq::new(SIZE as nat, |c: int| piece)
}

/// The starting position, top row first: Blue's back rank and pawns, four
/// empty rows, Red's pawns and back rank.
pub open spec fn initial_grid() -> Seq<Seq<Piece>> {
    seq![
        back_rank(Player::Blue),
        uniform_row(Piece::Pawn(Player::Blue)),
        uniform_row(Piece::Empty),
        uniform_row(Piece::Empty),
        uniform_row(Piece::Empty),
        uniform_row(Piece::Empty),
        uniform_row(Piece::Pawn(Player::Red)),
        back_rank(Player::Red),
    ]
}

/// The grid after the piece on `from` has gone to `to`: `from` is left
/// empty, and whatever stood on `to` is gone.
pub open spec fn relocated(grid: Seq<Seq<Piece>>, from: Place, to: Place) -> Seq<Seq<Piece>>
    recommends
        from.on_board(),
        to.on_board(),
{
    let piece = grid[from.row()][from.col()];
    let lifted = grid.update(from.row(), grid[from.row()].update(from.col(), Piece::Empty));
    lifted.update(to.row(), lifted[to.row()].update(to.col(), piece))
}

/// What a request to move from `from` to `to` is answered with on a grid.
/// The squares must differ and lie on the board; only then is the square to
/// move from looked at, which must hold a piece.
pub open spec fn move_outcome(grid: Seq<Seq<Piece>>, from: Place, to: Place) -> Result<
    (),
    MoveError,
> {
    if from == to || !from.on_board() || !to.on_board() {
        Err(MoveError::InvalidMove)
    } else if grid[from.row()][from.col()] == Piece::Empty {
        Err(MoveError::NoPieceToMove)
    } else {
        Ok(())
    }
}

/// An 8x8 grid of pieces. Row 0 is the top row of the drawn board, which is
/// the highest rank.
#[derive(Clone, Copy, PartialEq, Eq, Debug)]
pub struct Board {
    board: [[Piece; 8]; 8],
}

impl View for Board {
    type V = Seq<Seq<Piece>>;

    /// The grid as rows of pieces, top row first.
    closed spec fn view(&self) -> Seq<Seq<Piece>> {
        Seq::new(SIZE as nat, |r: int| self.board[r]@)
    }
}

impl Board {
    /// The piece on a square of the board.
    pub open spec fn at(self, place: Place) -> Piece
        recommends
            place.on_board(),
    {
        self@[place.row()][place.col()]
    }

    /// The board as it is drawn: for each square of the grid its glyph, the
    /// colour of its piece and the colour of the square.
    pub open spec fn rendering(self) -> Seq<Seq<Cell>> {
        Seq::new(
            SIZE as nat,
            |r: int| Seq::new(SIZE as nat, |c: int| cell_of(self@[r][c], r, c)),
        )
    }

    /// Every board has eight rows of eight squares, each of which holds one
    /// piece (`Piece::Empty` among them).
    pub broadcast proof fn lemma_dimensions(self)
        ensures
            #[trigger] self@.len() == SIZE,
            forall|r: int| 0 <= r < SIZE ==> (#[trigger] self@[r]).len() == SIZE,
    {
    }

    /// The starting position.
    pub fn new() -> (b: Board)
        ensures
            b@ == initial_grid(),
    {
        let blue = Player::Blue;
        let red = Player::Red;
        let b = Board {
            board: [
                [
                    Piece::Rook(blue),
                    Piece::Knight(blue),
                    Piece::Bishop(blue),
                    Piece::Queen(blue),
                    Piece::King(blue),
                    Piece::Bishop(blue),
                    Piece::Knight(blue),
                    Piece::Rook(blue),
                ],
                [Piece::Pawn(blue); 8],
                [Piece::Empty; 8],
                [Piece::Empty; 8],
                [Piece::Empty; 8],
                [Piece::Empty; 8],
                [Piece::Pawn(red); 8],
                [
                    Piece::Rook(red),
                    Piece::Knight(red),
                    Piece::Bishop(red),
                    Piece::Queen(red),
                    Piece::King(red),
                    Piece::Bishop(red),
                    Piece::Knight(red),
                    Piece::Rook(red),
                ],
            ],
        };
        proof {
            assert forall|r: int| 0 <= r < 8 implies #[trigger] b@[r] =~= initial_grid()[r] by {}
            assert(b@ =~= initial_grid());
        }
        b
    }

    /// The piece on a square, or `None` for a square that is not on the board.
    pub fn piece_at(&self, place: Place) -> (p: Option<Piece>)
        ensures
            place.on_board() ==> p == Some(self.at(place)),
            !place.on_board() ==> p.is_none(),
    {
        match place.storage_index() {
            Some((row, col)) => Some(self.board[row][col]),
            None => None,
        }
    }

    /// Describes the drawn board, row by row from the top. The board is
    /// left as it is.
    pub fn render(&self) -> (grid: Vec<Vec<Cell>>)
        ensures
            rows_of(grid) == self.rendering(),
            grid@.len() == SIZE,
            forall|r: int| 0 <= r < SIZE ==> (#[trigger] grid@[r])@.len() == SIZE,
            forall|r: int, c: int|
                0 <= r < SIZE && 0 <= c < SIZE ==> #[trigger] grid@[r]@[c] == cell_of(
                    self@[r][c],
                    r,
                    c,
                ),
    {
        let mut grid: Vec<Vec<Cell>> = Vec::new();
        let mut r: usize = 0;
        while r < SIZE
            invariant
                r <= SIZE,
                grid@.len() == r,
                forall|i: int| 0 <= i < r ==> (#[trigger] grid@[i])@ == self.rendering()[i],
            decreases SIZE - r,
        {
            let mut row: Vec<Cell> = Vec::new();
            let mut c: usize = 0;
            while c < SIZE
                invariant
                    r < SIZE,
                    c <= SIZE,
                    row@.len() == c,
                    forall|j: int|
                        0 <= j < c ==> #[trigger] row@[j] == cell_of(self@[r as int][j], r as int, j),
                decreases SIZE - c,
            {
                let piece = self.board[r][c];
                row.push(
                    Cell {
                        glyph: piece.glyph(),
                        fg: piece.get_color(),
                        bg: square_background(r, c),
                    },
                );
                c += 1;
            }
            proof {
                assert(row@ =~= self.rendering()[r as int]);
            }
            grid.push(row);
            r += 1;
        }
        proof {
            assert(rows_of(grid) =~= self.rendering());
        }
        grid
    }

    /// The text that draws the board on a terminal: the rows from the top,
    /// a line break between two rows and none after the last.
    pub fn to_text(&self) -> (s: String)
        ensures
            s@ == grid_text(self.rendering()),
    {
        let grid = self.render();
        draw(&grid)
    }

    /// Moves the piece on `from` to `to` and leaves `from` empty. Whatever
    /// stood on `to` is discarded. Fails, and changes nothing, when the
    /// squares are equal or off the board, or when `from` is empty.
    pub fn relocate(&mut self, from: Place, to: Place) -> (res: Result<(), MoveError>)
        ensures
            res == move_outcome(old(self)@, from, to),
            res.is_err() ==> *final(self) == *old(self),
            res.is_ok() ==> final(self)@ == relocated(old(self)@, from, to),
            res.is_ok() ==> final(self).at(to) == old(self).at(from),
            res.is_ok() ==> final(self).at(from) == Piece::Empty,
            res.is_ok() ==> forall|p: Place|
                p.on_board() && p != from && p != to ==> #[trigger] final(self).at(p) == old(
                    self,
                ).at(p),
    {
        if to == from {
            return Err(MoveError::InvalidMove);
        }
        let (src, dst) = match (from.storage_index(), to.storage_index()) {
            (Some(src), Some(dst)) => (src, dst),
            _ => return Err(MoveError::InvalidMove),
        };
        let piece = self.board[src.0][src.1];
        match piece {
            Piece::Empty => Err(MoveError::NoPieceToMove),
            _ => {
                self.board[dst.0][dst.1] = piece;
                self.board[src.0][src.1] = Piece::Empty;
                proof {
                    assert(self@ =~~= relocated(old(self)@, from, to));
                }
                Ok(())
            },
        }
    }

    /// `relocate` for squares given as anything that converts into a
    /// `Place`, such as a pair `(x, y)` or an array `[x, y]`. Both are
    /// converted, `from` first, and the move is made between the squares
    /// that come out.
    pub fn move_piece<A: Into<Place>, B: Into<Place>>(&mut self, from: A, to: B) -> (res: Result<
        (),
        MoveError,
    >)
        ensures
            exists|f: Place, t: Place|
                {
                    &&& call_ensures(A::into, (from,), f)
                    &&& call_ensures(B::into, (to,), t)
                    &&& #[trigger] move_outcome(old(self)@, f, t) == res
                    &&& res.is_ok() ==> final(self)@ == relocated(old(self)@, f, t)
                },
            res.is_err() ==> *final(self) == *old(self),
            A::obeys_into_spec() && B::obeys_into_spec() ==> {
                &&& res == move_outcome(old(self)@, from.into_spec(), to.into_spec())
                &&& res.is_ok() ==> final(self)@ == relocated(
                    old(self)@,
                    from.into_spec(),
                    to.into_spec(),
                )
            },
    {
        let from: Place = from.into();
        let to: Place = to.into();
        self.relocate(from, to)
    }
}

/// A move between two different squares of an 8x8 grid puts on `to` what
/// stood on `from`, leaves `from` empty, keeps every other square and the
/// shape of the grid.
pub proof fn lemma_relocated(grid: Seq<Seq<Piece>>, from: Place, to: Place)
    requires
        grid.len() == SIZE,
        forall|r: int| 0 <= r < SIZE ==> (#[trigger] grid[r]).len() == SIZE,
        from.on_board(),
        to.on_board(),
        from != to,
    ensures
        relocated(grid, from, to).len() == SIZE,
        forall|r: int| 0 <= r < SIZE ==> (#[trigger] relocated(grid, from, to)[r]).len() == SIZE,
        relocated(grid, from, to)[to.row()][to.col()] == grid[from.row()][from.col()],
        relocated(grid, from, to)[from.row()][from.col()] == Piece::Empty,
        forall|p: Place|
            p.on_board() && p != from && p != to ==> #[trigger] relocated(
                grid,
                from,
                to,
            )[p.row()][p.col()] == grid[p.row()][p.col()],
{
}

/// The starting position as it is drawn. From the top: Blue's back rank
/// reads R N B Q K B N R, then Blue's pawns, four blank rows, Red's pawns and
/// Red's back rank; pawns have the colour of the back rank next to them.
pub proof fn lemma_initial_rendering(board: Board)
    requires
        board@ == initial_grid(),
    ensures
        glyphs(board.rendering()[0]) == seq!['R', 'N', 'B', 'Q', 'K', 'B', 'N', 'R'],
        glyphs(board.rendering()[1]) == seq!['P', 'P', 'P', 'P', 'P', 'P', 'P', 'P'],
        forall|r: int|
            2 <= r < 6 ==> glyphs(#[trigger] board.rendering()[r]) == seq![
                ' ',
                ' ',
                ' ',
                ' ',
                ' ',
                ' ',
                ' ',
                ' ',
            ],
        glyphs(board.rendering()[6]) == glyphs(board.rendering()[1]),
        glyphs(board.rendering()[7]) == glyphs(board.rendering()[0]),
        forall|r: int, c: int|
            0 <= r < SIZE && 0 <= c < SIZE ==> (#[trigger] board.rendering()[r][c]).fg == (if r
                < 2 {
                Color::Blue
            } else if r < 6 {
                Color::Black
            } else {
                Color::Red
            }),
{
    let drawn = board.rendering();
    assert(glyphs(drawn[0]) =~= seq!['R', 'N', 'B', 'Q', 'K', 'B', 'N', 'R']);
    assert(glyphs(drawn[7]) =~= glyphs(drawn[0]));
    assert(glyphs(drawn[1]) =~= seq!['P', 'P', 'P', 'P', 'P', 'P', 'P', 'P']);
    assert(glyphs(drawn[6]) =~= glyphs(drawn[1]));
    assert forall|r: int| 2 <= r < 6 implies glyphs(#[trigger] drawn[r]) == seq![
        ' ',
        ' ',
        ' ',
        ' ',
        ' ',
        ' ',
        ' ',
        ' ',
    ] by {
        assert(glyphs(drawn[r]) =~= seq![' ', ' ', ' ', ' ', ' ', ' ', ' ', ' ']);
    }
}

/// Drawing is repeatable: two descriptions of one board, made with no move
/// in between, have the same rows and give the same text.
pub proof fn lemma_render_repeatable(board: Board, first: Vec<Vec<Cell>>, second: Vec<Vec<Cell>>)
    requires
        rows_of(first) == board.rendering(),
        rows_of(second) == board.rendering(),
    ensures
        rows_of(first) == rows_of(second),
        first@.len() == second@.len(),
        forall|r: int| 0 <= r < first@.len() ==> (#[trigger] first@[r])@ == second@[r]@,
        grid_text(rows_of(first)) == grid_text(rows_of(second)),
{
    assert(rows_of(first).len() == first@.len());
    assert(rows_of(second).len() == second@.len());
    assert forall|r: int| 0 <= r < first@.len() implies (#[trigger] first@[r])@ == second@[r]@ by {
        assert(rows_of(first)[r] == first@[r]@);
        assert(rows_of(second)[r] == second@[r]@);
    }
}

/// The colour of a drawn square follows from the parity of its row plus its
/// column, whatever stands on it: white where the sum is even, black where
/// it is odd, on every board alike.
pub proof fn lemma_checkerboard(a: Board, b: Board, row: int, col: int)
    requires
        0 <= row < SIZE,
        0 <= col < SIZE,
    ensures
        a.rendering()[row][col].bg == square_color(row, col),
        a.rendering()[row][col].bg == b.rendering()[row][col].bg,
        (row + col) % 2 == 0 ==> a.rendering()[row][col].bg == Color::White,
        (row + col) % 2 == 1 ==> a.rendering()[row][col].bg == Color::Black,
{
}

} // verus!
