//! The board: an 8x8 grid of optional (colour, piece) occupants.
//!
//! The grid is stored column by column, so `board[file][rank]` is the square
//! a `Coordinate` with that file and rank denotes. `new` builds the standard
//! initial layout; `apply` is the sole move primitive, composed from plain
//! cell writes, and performs no legality check of its own.

use vstd::prelude::*;

verus! {

use crate::coord::BoardError;
use crate::coord::Coordinate;
use crate::coord::parse_cell;
use crate::coord::parse_cell_result;
use crate::coord::is_file_char;
use crate::coord::file_index_of;
use crate::coord::is_rank_char;
use crate::coord::rank_index_of;

/// The side a piece belongs to.
#[derive(Debug, PartialEq, Eq, Structural, Clone, Copy)]
pub enum Colour {
    White,
    Black,
}

/// The six piece kinds.
#[derive(Debug, PartialEq, Eq, Structural, Clone, Copy)]
pub enum Piece {
    Pawn,
    Knight,
    Bishop,
    Rook,
    Queen,
    King,
}

/// The 8x8 grid, stored as `board[file][rank]`.
#[derive(Debug, Clone, PartialEq, Eq)]
pub struct Board {
    pub board: Vec<Vec<Option<(Colour, Piece)>>>,
}

/// The piece kind that starts on the back rank of the given file:
/// rook, knight, bishop, queen (file `D`), king (file `E`), bishop, knight, rook.
pub open spec fn back_rank_piece(file: int) -> Piece {
    if file == 0 || file == 7 {
        Piece::Rook
    } else if file == 1 || file == 6 {
        Piece::Knight
    } else if file == 2 || file == 5 {
        Piece::Bishop
    } else if file == 3 {
        Piece::Queen
    } else {
        Piece::King
    }
}

/// The occupant each square holds at game start: White's back rank on rank 0,
/// White pawns on rank 1, Black pawns on rank 6, Black's back rank on rank 7,
/// everything between empty.
pub open spec fn initial_occupant(file: int, rank: int) -> Option<(Colour, Piece)> {
    if rank == 0 {
        Some((Colour::White, back_rank_piece(file)))
    } else if rank == 1 {
        Some((Colour::White, Piece::Pawn))
    } else if rank == 6 {
        Some((Colour::Black, Piece::Pawn))
    } else if rank == 7 {
        Some((Colour::Black, back_rank_piece(file)))
    } else {
        None
    }
}

/// `b` holds the same occupant as `a` on every square.
pub open spec fn same_position(a: Board, b: Board) -> bool {
    forall|f: int, r: int| #[trigger] b.at(f, r) == a.at(f, r)
}

/// `b` is `a` after the occupant of `from` moved to `to`: `to` holds what
/// `from` held (any prior occupant of `to` is overwritten), `from` is empty,
/// and every other square is untouched.
pub open spec fn position_after_move(a: Board, b: Board, from: Coordinate, to: Coordinate) -> bool {
    forall|f: int, r: int|
        #[trigger] b.at(f, r) == if f == from.file && r == from.rank {
            None
        } else if f == to.file && r == to.rank {
            a.at(from.file as int, from.rank as int)
        } else {
            a.at(f, r)
        }
}

/// `b` is `a` with the square `c` overwritten by `data` and every other
/// square untouched.
pub open spec fn position_with(a: Board, b: Board, c: Coordinate, data: Option<(Colour, Piece)>) -> bool {
    forall|f: int, r: int|
        #[trigger] b.at(f, r) == if f == c.file && r == c.rank {
            data
        } else {
            a.at(f, r)
        }
}

impl Board {
    /// The grid really is 8x8.
    pub open spec fn wf(self) -> bool {
        self.board@.len() == 8 && forall|f: int| 0 <= f < 8 ==> (#[trigger] self.board@[f])@.len() == 8
    }

    /// The occupant at file `f`, rank `r`; squares off the board count as empty.
    pub open spec fn at(self, f: int, r: int) -> Option<(Colour, Piece)> {
        if 0 <= f < 8 && 0 <= r < 8 {
            self.board@[f]@[r]
        } else {
            None
        }
    }

    /// The occupant at a coordinate.
    pub open spec fn occ(self, c: Coordinate) -> Option<(Colour, Piece)> {
        self.at(c.file as int, c.rank as int)
    }

    /// The standard initial layout.
    pub fn new() -> (b: Self)
        ensures
            b.wf(),
            forall|f: int, r: int| 0 <= f < 8 && 0 <= r < 8 ==> #[trigger] b.at(f, r) == initial_occupant(f, r),
    {
        let mut board: Vec<Vec<Option<(Colour, Piece)>>> = Vec::new();
        let mut f: u8 = 0;
        while f < 8
            invariant
                f <= 8,
                board@.len() == f,
                forall|i: int| 0 <= i < f ==> (#[trigger] board@[i])@.len() == 8,
                forall|i: int, r: int|
                    0 <= i < f && 0 <= r < 8 ==> #[trigger] board@[i]@[r] == initial_occupant(i, r),
            decreases 8 - f,
        {
            board.push(initial_column(f));
            f = f + 1;
        }
        Board { board }
    }

    /// The column a letter denotes, as in the grid itself.
    pub fn get_column(&self, column: Option<char>) -> (r: Result<&Vec<Option<(Colour, Piece)>>, BoardError>)
        requires
            self.wf(),
        ensures
            column is None ==> r == Err::<&Vec<Option<(Colour, Piece)>>, BoardError>(BoardError::WrongLength),
            column matches Some(c) ==> if is_file_char(c) {
                r matches Ok(v) && *v == self.board@[file_index_of(c)]
            } else {
                r == Err::<&Vec<Option<(Colour, Piece)>>, BoardError>(BoardError::InvalidReference)
            },
    {
        let f = match self.get_column_index(column) {
            Ok(f) => f,
            Err(e) => {
                return Err(e);
            },
        };
        Ok(&self.board[f])
    }

    /// The zero-based index of a column letter: `WrongLength` for a missing
    /// character, `InvalidReference` for anything but `A`..`H`.
    pub fn get_column_index(&self, column: Option<char>) -> (r: Result<usize, BoardError>)
        ensures
            r == match column {
                None => Err::<usize, BoardError>(BoardError::WrongLength),
                Some(c) => if is_file_char(c) {
                    Ok(file_index_of(c) as usize)
                } else {
                    Err(BoardError::InvalidReference)
                },
            },
    {
        match column {
            None => Err(BoardError::WrongLength),
            Some(c) => match crate::coord::file_index(c) {
                Some(f) => Ok(f as usize),
                None => Err(BoardError::InvalidReference),
            },
        }
    }

    /// The zero-based index of a row digit: `WrongLength` for a missing
    /// character, `InvalidReference` for anything but `1`..`8`.
    pub fn get_row_index(&self, row: Option<char>) -> (r: Result<usize, BoardError>)
        ensures
            r == match row {
                None => Err::<usize, BoardError>(BoardError::WrongLength),
                Some(c) => if is_rank_char(c) {
                    Ok(rank_index_of(c) as usize)
                } else {
                    Err(BoardError::InvalidReference)
                },
            },
    {
        match row {
            None => Err(BoardError::WrongLength),
            Some(c) => match crate::coord::rank_index(c) {
                Some(k) => Ok(k as usize),
                None => Err(BoardError::InvalidReference),
            },
        }
    }

    /// Parse a cell reference into `(file, rank)` indices.
    pub fn get_cell_index(&self, cell: &str) -> (r: Result<(usize, usize), BoardError>)
        ensures
            r == match parse_cell_result(cell@) {
                Ok(c) => Ok((c.file as usize, c.rank as usize)),
                Err(e) => Err::<(usize, usize), BoardError>(e),
            },
    {
        let c = match parse_cell(cell) {
            Ok(c) => c,
            Err(e) => {
                return Err(e);
            },
        };
        Ok((c.file as usize, c.rank as usize))
    }

    /// The occupant of the cell a reference denotes, or the parse error.
    pub fn get_cell(&self, cell: &str) -> (r: Result<Option<(Colour, Piece)>, BoardError>)
        requires
            self.wf(),
        ensures
            r == match parse_cell_result(cell@) {
                Ok(c) => Ok(self.occ(c)),
                Err(e) => Err::<Option<(Colour, Piece)>, BoardError>(e),
            },
    {
        let c = match parse_cell(cell) {
            Ok(c) => c,
            Err(e) => {
                return Err(e);
            },
        };
        Ok(self.board[c.file as usize][c.rank as usize])
    }

    /// The row at rank `row`, read across the eight columns.
    pub fn get_row(&self, row: usize) -> (r: Vec<Option<(Colour, Piece)>>)
        requires
            self.wf(),
            row < 8,
        ensures
            r@.len() == 8,
            forall|f: int| 0 <= f < 8 ==> #[trigger] r@[f] == self.at(f, row as int),
    {
        let mut out: Vec<Option<(Colour, Piece)>> = Vec::new();
        let mut f: usize = 0;
        while f < 8
            invariant
                self.wf(),
                row < 8,
                f <= 8,
                out@.len() == f,
                forall|i: int| 0 <= i < f ==> #[trigger] out@[i] == self.at(i, row as int),
            decreases 8 - f,
        {
            out.push(self.board[f][row]);
            f = f + 1;
        }
        out
    }

    /// Overwrite the cell a reference denotes with `data`; purely mechanical,
    /// no legality check. On a parse error the board is untouched.
    pub fn set_cell(&mut self, cell: &str, data: Option<(Colour, Piece)>) -> (r: Result<(), BoardError>)
        requires
            old(self).wf(),
        ensures
            final(self).wf(),
            match parse_cell_result(cell@) {
                Ok(c) => r is Ok && position_with(*old(self), *final(self), c, data),
                Err(e) => r == Err::<(), BoardError>(e) && same_position(*old(self), *final(self)),
            },
    {
        let c = match parse_cell(cell) {
            Ok(c) => c,
            Err(e) => {
                return Err(e);
            },
        };
        self.write(c, data);
        Ok(())
    }

    /// Overwrite one square, given an already validated coordinate.
    pub fn write(&mut self, c: Coordinate, data: Option<(Colour, Piece)>)
        requires
            old(self).wf(),
            c.valid(),
        ensures
            final(self).wf(),
            position_with(*old(self), *final(self), c, data),
    {
        self.board[c.file as usize][c.rank as usize] = data;
    }

    /// Execute a move between two validated coordinates: copy the `from`
    /// occupant to `to` (capturing whatever stood there), then clear `from`.
    /// No legality check; run it only after validation has succeeded.
    pub fn apply(&mut self, from: Coordinate, to: Coordinate)
        requires
            old(self).wf(),
            from.valid(),
            to.valid(),
        ensures
            final(self).wf(),
            position_after_move(*old(self), *final(self), from, to),
    {
        let occupant = self.board[from.file as usize][from.rank as usize];
        self.write(to, occupant);
        self.write(from, None);
    }

    /// Move the occupant of one cell reference to another, with no legality
    /// check beyond parsing; on a parse error the board is untouched.
    pub fn board_move(&mut self, from_cell: &str, to_cell: &str) -> (r: Result<(), BoardError>)
        requires
            old(self).wf(),
        ensures
            final(self).wf(),
            match parse_cell_result(from_cell@) {
                Err(e) => r == Err::<(), BoardError>(e) && same_position(*old(self), *final(self)),
                Ok(from) => match parse_cell_result(to_cell@) {
                    Err(e) => r == Err::<(), BoardError>(e) && same_position(*old(self), *final(self)),
                    Ok(to) => r is Ok && position_after_move(*old(self), *final(self), from, to),
                },
            },
    {
        let from = match parse_cell(from_cell) {
            Ok(c) => c,
            Err(e) => {
                return Err(e);
            },
        };
        let to = match parse_cell(to_cell) {
            Ok(c) => c,
            Err(e) => {
                return Err(e);
            },
        };
        self.apply(from, to);
        Ok(())
    }
}

/// One column of the initial layout.
fn initial_column(file: u8) -> (col: Vec<Option<(Colour, Piece)>>)
    requires
        file < 8,
    ensures
        col@.len() == 8,
        forall|r: int| 0 <= r < 8 ==> #[trigger] col@[r] == initial_occupant(file as int, r),
{
    let back = back_rank(file);
    let mut col: Vec<Option<(Colour, Piece)>> = Vec::new();
    col.push(Some((Colour::White, back)));
    col.push(Some((Colour::White, Piece::Pawn)));
    col.push(None);
    col.push(None);
    col.push(None);
    col.push(None);
    col.push(Some((Colour::Black, Piece::Pawn)));
    col.push(Some((Colour::Black, back)));
    col
}

/// The back-rank piece kind of a file.
fn back_rank(file: u8) -> (p: Piece)
    requires
        file < 8,
    ensures
        p == back_rank_piece(file as int),
{
    match file {
        0 | 7 => Piece::Rook,
        1 | 6 => Piece::Knight,
        2 | 5 => Piece::Bishop,
        3 => Piece::Queen,
        _ => Piece::King,
    }
}

} // verus!
