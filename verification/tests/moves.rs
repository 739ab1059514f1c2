use chess_board::board::{Board, MoveError};
use chess_board::piece::{Piece, Player};
use chess_board::place::Place;

fn glyph_at(board: &Board, x: u8, y: u8) -> char {
    board.piece_at(Place::new(x, y)).unwrap().glyph()
}

#[test]
fn starting_position_by_place() {
    let board = Board::new();
    let back = [
        Piece::Rook as fn(Player) -> Piece,
        Piece::Knight,
        Piece::Bishop,
        Piece::Queen,
        Piece::King,
        Piece::Bishop,
        Piece::Knight,
        Piece::Rook,
    ];
    for x in 0..8u8 {
        let kind = back[x as usize];
        assert_eq!(board.piece_at(Place::new(x, 7)), Some(kind(Player::Blue)));
        assert_eq!(board.piece_at(Place::new(x, 6)), Some(Piece::Pawn(Player::Blue)));
        for y in 2..6u8 {
            assert_eq!(board.piece_at(Place::new(x, y)), Some(Piece::Empty));
        }
        assert_eq!(board.piece_at(Place::new(x, 1)), Some(Piece::Pawn(Player::Red)));
        assert_eq!(board.piece_at(Place::new(x, 0)), Some(kind(Player::Red)));
    }
}

#[test]
fn piece_at_off_the_board() {
    let board = Board::new();
    assert_eq!(board.piece_at(Place::new(8, 0)), None);
    assert_eq!(board.piece_at(Place::new(0, 8)), None);
    assert_eq!(board.piece_at(Place::new(200, 200)), None);
}

#[test]
fn move_carries_the_piece_and_empties_the_source() {
    let mut board = Board::new();
    let before = board;
    let from = Place::new(4, 1);
    let to = Place::new(4, 3);
    assert_eq!(board.relocate(from, to), Ok(()));
    assert_eq!(board.piece_at(to), before.piece_at(from));
    assert_eq!(board.piece_at(to), Some(Piece::Pawn(Player::Red)));
    assert_eq!(board.piece_at(from), Some(Piece::Empty));
    for x in 0..8u8 {
        for y in 0..8u8 {
            let p = Place::new(x, y);
            if p != from && p != to {
                assert_eq!(board.piece_at(p), before.piece_at(p));
            }
        }
    }
}

#[test]
fn move_onto_an_occupied_square_discards_the_occupant() {
    let mut board = Board::new();
    let from = Place::new(3, 0);
    let to = Place::new(3, 7);
    assert_eq!(board.piece_at(to), Some(Piece::Queen(Player::Blue)));
    assert_eq!(board.move_piece(from, to), Ok(()));
    assert_eq!(board.piece_at(to), Some(Piece::Queen(Player::Red)));
    assert_eq!(board.piece_at(from), Some(Piece::Empty));
    let mut queens = 0;
    for x in 0..8u8 {
        for y in 0..8u8 {
            if glyph_at(&board, x, y) == 'Q' {
                queens += 1;
            }
        }
    }
    assert_eq!(queens, 1);
}

#[test]
fn move_to_the_same_square_is_invalid() {
    let mut board = Board::new();
    let before = board;
    for (x, y) in [(0u8, 0u8), (4, 4), (7, 7), (9, 9), (0, 200)] {
        let p = Place::new(x, y);
        assert_eq!(board.relocate(p, p), Err(MoveError::InvalidMove));
        assert_eq!(board, before);
        assert_eq!(board.move_piece((x, y), [x, y]), Err(MoveError::InvalidMove));
        assert_eq!(board, before);
        assert_eq!(board.render(), before.render());
    }
}

#[test]
fn move_off_the_board_is_invalid() {
    let mut board = Board::new();
    let before = board;
    let cases = [
        ((8u8, 0u8), (0u8, 2u8)),
        ((0, 8), (0, 2)),
        ((0, 0), (8, 2)),
        ((0, 0), (0, 8)),
        ((255, 255), (0, 0)),
        ((0, 1), (255, 1)),
        ((3, 3), (3, 100)),
    ];
    for (from, to) in cases {
        assert_eq!(
            board.relocate(Place::from(from), Place::from(to)),
            Err(MoveError::InvalidMove)
        );
        assert_eq!(board, before);
        assert_eq!(board.move_piece(from, to), Err(MoveError::InvalidMove));
        assert_eq!(board, before);
    }
}

#[test]
fn move_from_an_empty_square_finds_no_piece() {
    let mut board = Board::new();
    let before = board;
    for y in 2..6u8 {
        for x in 0..8u8 {
            assert_eq!(
                board.relocate(Place::new(x, y), Place::new(0, 0)),
                Err(MoveError::NoPieceToMove)
            );
            assert_eq!(board, before);
            assert_eq!(board.move_piece([x, y], (7, 7)), Err(MoveError::NoPieceToMove));
            assert_eq!(board, before);
            assert_eq!(board.to_text(), before.to_text());
        }
    }
}

#[test]
fn bounds_are_tested_before_the_source() {
    let mut board = Board::new();
    assert_eq!(
        board.relocate(Place::new(0, 3), Place::new(0, 8)),
        Err(MoveError::InvalidMove)
    );
    assert_eq!(
        board.relocate(Place::new(0, 3), Place::new(0, 3)),
        Err(MoveError::InvalidMove)
    );
    assert_eq!(board.move_piece((0, 3), (0, 8)), Err(MoveError::InvalidMove));
}

#[test]
fn error_messages() {
    assert_eq!(MoveError::InvalidMove.message(), "Invalid move");
    assert_eq!(MoveError::NoPieceToMove.message(), "No piece to move");
    assert_ne!(MoveError::InvalidMove, MoveError::NoPieceToMove);
}

#[test]
fn rook_walk() {
    let mut board = Board::new();
    assert_eq!(glyph_at(&board, 0, 0), 'R');
    assert_eq!(board.move_piece((0, 0), (0, 2)), Ok(()));
    assert_eq!(board.piece_at(Place::new(0, 2)), Some(Piece::Rook(Player::Red)));
    assert_eq!(glyph_at(&board, 0, 0), ' ');
    let grid = board.render();
    assert_eq!(grid[5][0].glyph, 'R');
    assert_eq!(grid[7][0].glyph, ' ');

    assert_eq!(board.move_piece(Place::new(0, 2), Place::new(1, 4)), Ok(()));
    assert_eq!(board.piece_at(Place::new(1, 4)), Some(Piece::Rook(Player::Red)));
    assert_eq!(glyph_at(&board, 0, 2), ' ');
    let grid = board.render();
    assert_eq!(grid[3][1].glyph, 'R');
    assert_eq!(grid[5][0].glyph, ' ');
    assert_eq!(grid[7][0].glyph, ' ');

    assert_eq!(
        board.move_piece(Place::new(0, 2), Place::new(1, 4)),
        Err(MoveError::NoPieceToMove)
    );
}

#[test]
fn move_piece_and_relocate_agree() {
    let mut by_pair = Board::new();
    let mut by_array = Board::new();
    let mut by_place = Board::new();
    let steps = [((1u8, 0u8), (2u8, 2u8)), ((2, 2), (2, 2)), ((4, 4), (0, 0)), ((3, 7), (3, 0))];
    for (from, to) in steps {
        let expected = by_place.relocate(Place::new(from.0, from.1), Place::new(to.0, to.1));
        assert_eq!(by_pair.move_piece(from, to), expected);
        assert_eq!(by_array.move_piece([from.0, from.1], [to.0, to.1]), expected);
        assert_eq!(by_pair, by_place);
        assert_eq!(by_array, by_place);
    }
}
