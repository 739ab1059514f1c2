//! An 8x8 chess-style board that can be drawn with coloured squares and
//! pieces, and on which a piece can be relocated from one square to another.
//! No rule of chess is enforced.

pub mod piece;
pub mod place;
pub mod paint;
pub mod render;
pub mod board;
