//! Display characters: one glyph per (colour, piece) pair, and the
//! checkerboard fill for empty squares.

use vstd::prelude::*;

verus! {

use crate::board::Colour;
use crate::board::Piece;

/// The glyph that stands for a (colour, piece) pair.
pub open spec fn glyph_of(occupant: (Colour, Piece)) -> char {
    match occupant {
        (Colour::White, Piece::Pawn) => '♙',
        (Colour::White, Piece::Knight) => '♘',
        (Colour::White, Piece::Bishop) => '♗',
        (Colour::White, Piece::Rook) => '♖',
        (Colour::White, Piece::Queen) => '♕',
        (Colour::White, Piece::King) => '♔',
        (Colour::Black, Piece::Pawn) => '♟',
        (Colour::Black, Piece::Knight) => '♞',
        (Colour::Black, Piece::Bishop) => '♝',
        (Colour::Black, Piece::Rook) => '♜',
        (Colour::Black, Piece::Queen) => '♛',
        (Colour::Black, Piece::King) => '♚',
    }
}

/// The display character of an occupied square.
pub fn as_char(occupant: (Colour, Piece)) -> (c: char)
    ensures
        c == glyph_of(occupant),
{
    match occupant {
        (Colour::White, Piece::Pawn) => '♙',
        (Colour::White, Piece::Knight) => '♘',
        (Colour::White, Piece::Bishop) => '♗',
        (Colour::White, Piece::Rook) => '♖',
        (Colour::White, Piece::Queen) => '♕',
        (Colour::White, Piece::King) => '♔',
        (Colour::Black, Piece::Pawn) => '♟',
        (Colour::Black, Piece::Knight) => '♞',
        (Colour::Black, Piece::Bishop) => '♝',
        (Colour::Black, Piece::Rook) => '♜',
        (Colour::Black, Piece::Queen) => '♛',
        (Colour::Black, Piece::King) => '♚',
    }
}

/// The checkerboard fill of an empty square.
#[derive(Debug, PartialEq, Eq, Structural, Clone, Copy)]
pub enum BoardSquare {
    White,
    Black,
}

impl BoardSquare {
    /// The fill a square's position calls for, alternating by
    /// `(rank + file) % 2`.
    pub fn of_position(rank: usize, file: usize) -> (s: Self)
        requires
            rank < 8,
            file < 8,
        ensures
            s == if (rank + file) % 2 == 0 {
                BoardSquare::Black
            } else {
                BoardSquare::White
            },
    {
        if (rank + file) % 2 == 0 {
            BoardSquare::Black
        } else {
            BoardSquare::White
        }
    }

    /// The display character of an empty square.
    pub fn as_char(&self) -> (c: char)
        ensures
            c == match self {
                BoardSquare::White => ' ',
                BoardSquare::Black => 'X',
            },
    {
        match self {
            BoardSquare::White => ' ',
            BoardSquare::Black => 'X',
        }
    }
}

} // verus!
