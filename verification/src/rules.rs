//! Move legality: piece movement patterns, path obstruction, capture rules
//! and turn order, together with the validated move entry point.

use vstd::prelude::*;

verus! {

use crate::board::Board;
use crate::board::Colour;
use crate::board::Piece;
use crate::board::position_after_move;
use crate::board::same_position;
use crate::coord::BoardError;
use crate::coord::Coordinate;
use crate::coord::parse_cell;
use crate::coord::parse_cell_result;

/// The other side.
pub open spec fn opponent(side: Colour) -> Colour {
    match side {
        Colour::White => Colour::Black,
        Colour::Black => Colour::White,
    }
}

/// The rank a side's pawns start on.
pub open spec fn start_rank(side: Colour) -> int {
    match side {
        Colour::White => 1,
        Colour::Black => 6,
    }
}

/// The direction a side's pawns advance in: White toward increasing rank,
/// Black toward decreasing rank.
pub open spec fn forward(side: Colour) -> int {
    match side {
        Colour::White => 1,
        Colour::Black => -1,
    }
}

/// How far the move strays sideways, signed.
pub open spec fn lateral_of(from: Coordinate, to: Coordinate) -> int {
    to.file - from.file
}

/// How far the move advances in the moving side's forward direction, signed.
pub open spec fn advance_of(side: Colour, from: Coordinate, to: Coordinate) -> int {
    match side {
        Colour::White => to.rank - from.rank,
        Colour::Black => from.rank - to.rank,
    }
}

/// The magnitude of a signed distance.
pub open spec fn delta_mag(x: int) -> int {
    if x < 0 { -x } else { x }
}

/// A rook-shaped move: exactly one of the two deltas is zero.
pub open spec fn straight_move(from: Coordinate, to: Coordinate) -> bool {
    (from.file == to.file) != (from.rank == to.rank)
}

/// A bishop-shaped move: both deltas nonzero and of equal magnitude.
pub open spec fn diagonal_move(from: Coordinate, to: Coordinate) -> bool {
    from.file != to.file && delta_mag(to.file - from.file) == delta_mag(to.rank - from.rank)
}

/// A knight-shaped move: the delta magnitudes are a permutation of (1, 2).
pub open spec fn knight_move(from: Coordinate, to: Coordinate) -> bool {
    let df = delta_mag(to.file - from.file);
    let dr = delta_mag(to.rank - from.rank);
    (df == 1 && dr == 2) || (df == 2 && dr == 1)
}

/// A king-shaped move: a single step, so the larger delta magnitude is 1.
pub open spec fn king_move(from: Coordinate, to: Coordinate) -> bool {
    let df = delta_mag(to.file - from.file);
    let dr = delta_mag(to.rank - from.rank);
    df <= 1 && dr <= 1 && (df == 1 || dr == 1)
}

/// How many king steps the move spans along its line: the larger delta magnitude.
pub open spec fn span(from: Coordinate, to: Coordinate) -> int {
    let df = delta_mag(to.file - from.file);
    let dr = delta_mag(to.rank - from.rank);
    if df > dr { df } else { dr }
}

/// The file of the `k`-th square along the line from `from` toward `to`.
pub open spec fn between_file(from: Coordinate, to: Coordinate, k: int) -> int {
    if to.file > from.file {
        from.file + k
    } else if to.file < from.file {
        from.file - k
    } else {
        from.file as int
    }
}

/// The rank of the `k`-th square along the line from `from` toward `to`.
pub open spec fn between_rank(from: Coordinate, to: Coordinate, k: int) -> int {
    if to.rank > from.rank {
        from.rank + k
    } else if to.rank < from.rank {
        from.rank - k
    } else {
        from.rank as int
    }
}

/// Every square strictly between `from` and `to` along their straight or
/// diagonal line is empty.
pub open spec fn path_clear(b: Board, from: Coordinate, to: Coordinate) -> bool {
    forall|k: int|
        1 <= k < span(from, to) ==> #[trigger] b.at(between_file(from, to, k), between_rank(from, to, k)) is None
}

/// The destination square is free for `side` to move onto: empty, or held by
/// the opposing side (a capture). A square held by `side` itself is never a
/// legal destination.
pub open spec fn dest_open(b: Board, side: Colour, to: Coordinate) -> bool {
    match b.occ(to) {
        None => true,
        Some((c, p)) => c == opponent(side),
    }
}

/// The pawn rule. Straight ahead: one step to an empty square, or two steps
/// from the side's starting rank with both the intermediate and the
/// destination square empty. One step diagonally forward: only as a capture
/// of an opposing occupant. Nothing else; in particular a straight-ahead
/// capture and a diagonal step onto an empty square are both illegal.
pub open spec fn pawn_move_ok(b: Board, side: Colour, from: Coordinate, to: Coordinate) -> bool {
    let lat = lateral_of(from, to);
    let adv = advance_of(side, from, to);
    if lat == 0 {
        (adv == 1 && b.occ(to) is None) || (adv == 2 && from.rank == start_rank(side)
            && b.at(from.file as int, from.rank + forward(side)) is None && b.occ(to) is None)
    } else if delta_mag(lat) == 1 && adv == 1 {
        match b.occ(to) {
            Some((c, p)) => c == opponent(side),
            None => false,
        }
    } else {
        false
    }
}

/// The movement rule of one piece kind, obstruction and capture checks included.
pub open spec fn piece_rule(b: Board, side: Colour, p: Piece, from: Coordinate, to: Coordinate) -> bool {
    match p {
        Piece::Pawn => pawn_move_ok(b, side, from, to),
        Piece::Knight => knight_move(from, to) && dest_open(b, side, to),
        Piece::Bishop => diagonal_move(from, to) && path_clear(b, from, to) && dest_open(b, side, to),
        Piece::Rook => straight_move(from, to) && path_clear(b, from, to) && dest_open(b, side, to),
        Piece::Queen => (diagonal_move(from, to) || straight_move(from, to)) && path_clear(b, from, to)
            && dest_open(b, side, to),
        Piece::King => king_move(from, to) && dest_open(b, side, to),
    }
}

/// What validation returns: `EmptyCell` if `from` holds no occupant,
/// `InvalidMove` if the occupant is not `side`'s to move or its piece rule
/// rejects the move, `Ok` otherwise.
pub open spec fn validate_result(b: Board, side: Colour, from: Coordinate, to: Coordinate) -> Result<
    (),
    BoardError,
> {
    match b.occ(from) {
        None => Err(BoardError::EmptyCell),
        Some((c, p)) => if c != side {
            Err(BoardError::InvalidMove)
        } else if piece_rule(b, side, p, from, to) {
            Ok(())
        } else {
            Err(BoardError::InvalidMove)
        },
    }
}

impl Board {
    /// Is the square at a validated coordinate empty?
    fn is_empty_at(&self, c: Coordinate) -> (r: bool)
        requires
            self.wf(),
            c.valid(),
        ensures
            r == (self.occ(c) is None),
    {
        self.board[c.file as usize][c.rank as usize].is_none()
    }

    /// May `side` move onto the square: empty or held by the opponent?
    fn dest_is_open(&self, side: Colour, to: Coordinate) -> (r: bool)
        requires
            self.wf(),
            to.valid(),
        ensures
            r == dest_open(*self, side, to),
    {
        match self.board[to.file as usize][to.rank as usize] {
            None => true,
            Some((c, _)) => c != side,
        }
    }

    /// Does the opposing side hold the square?
    fn opponent_at(&self, side: Colour, c: Coordinate) -> (r: bool)
        requires
            self.wf(),
            c.valid(),
        ensures
            r == match self.occ(c) {
                Some((cc, p)) => cc == opponent(side),
                None => false,
            },
    {
        match self.board[c.file as usize][c.rank as usize] {
            None => false,
            Some((cc, _)) => cc != side,
        }
    }

    /// Walk the open interval of squares strictly between `from` and `to`
    /// along their rank, file or diagonal; report whether any is occupied.
    pub fn check_collision(&self, from: Coordinate, to: Coordinate) -> (r: bool)
        requires
            self.wf(),
            from.valid(),
            to.valid(),
            straight_move(from, to) || diagonal_move(from, to),
        ensures
            r == !path_clear(*self, from, to),
    {
        let ff: i16 = from.file as i16;
        let fr: i16 = from.rank as i16;
        let df: i16 = to.file as i16 - ff;
        let dr: i16 = to.rank as i16 - fr;
        let adf: i16 = if df < 0 { -df } else { df };
        let adr: i16 = if dr < 0 { -dr } else { dr };
        let steps: i16 = if adf > adr { adf } else { adr };
        let mut k: i16 = 1;
        while k < steps
            invariant
                self.wf(),
                from.valid(),
                to.valid(),
                straight_move(from, to) || diagonal_move(from, to),
                ff == from.file,
                fr == from.rank,
                df == to.file - from.file,
                dr == to.rank - from.rank,
                steps == span(from, to),
                1 <= k <= steps,
                forall|j: int|
                    1 <= j < k ==> #[trigger] self.at(between_file(from, to, j), between_rank(from, to, j)) is None,
            decreases steps - k,
        {
            let f: i16 = if df > 0 {
                ff + k
            } else if df < 0 {
                ff - k
            } else {
                ff
            };
            let r: i16 = if dr > 0 {
                fr + k
            } else if dr < 0 {
                fr - k
            } else {
                fr
            };
            proof {
                assert(f == between_file(from, to, k as int));
                assert(r == between_rank(from, to, k as int));
                assert(df != 0 ==> delta_mag(df as int) == span(from, to));
                assert(dr != 0 ==> delta_mag(dr as int) == span(from, to));
                assert(0 <= f < 8);
                assert(0 <= r < 8);
            }
            if self.board[f as usize][r as usize].is_some() {
                proof {
                    assert(self.at(f as int, r as int) is Some);
                    assert(!(self.at(between_file(from, to, k as int), between_rank(from, to, k as int)) is None));
                }
                return true;
            }
            k = k + 1;
        }
        false
    }

    /// Decide whether moving the occupant of `from` to `to` is legal for
    /// `side_to_move`, per the piece's movement pattern with obstruction,
    /// capture and turn-order checks. Reads the board only; never mutates it.
    pub fn validate(&self, side_to_move: Colour, from: Coordinate, to: Coordinate) -> (r: Result<
        (),
        BoardError,
    >)
        requires
            self.wf(),
            from.valid(),
            to.valid(),
        ensures
            r == validate_result(*self, side_to_move, from, to),
    {
        let (colour, piece) = match self.board[from.file as usize][from.rank as usize] {
            Some(x) => x,
            None => {
                return Err(BoardError::EmptyCell);
            },
        };
        if colour != side_to_move {
            return Err(BoardError::InvalidMove);
        }
        let lat: i16 = to.file as i16 - from.file as i16;
        let adv: i16 = match side_to_move {
            Colour::White => to.rank as i16 - from.rank as i16,
            Colour::Black => from.rank as i16 - to.rank as i16,
        };
        let alat: i16 = if lat < 0 { -lat } else { lat };
        let aadv: i16 = if adv < 0 { -adv } else { adv };
        let ok: bool = match piece {
            Piece::Pawn => {
                if lat == 0 {
                    if adv == 1 {
                        self.is_empty_at(to)
                    } else if adv == 2 && from.rank == pawn_start_rank(side_to_move) {
                        let mid = Coordinate {
                            file: from.file,
                            rank: match side_to_move {
                                Colour::White => from.rank + 1,
                                Colour::Black => from.rank - 1,
                            },
                        };
                        self.is_empty_at(mid) && self.is_empty_at(to)
                    } else {
                        false
                    }
                } else if alat == 1 && adv == 1 {
                    self.opponent_at(side_to_move, to)
                } else {
                    false
                }
            },
            Piece::Knight => ((alat == 1 && aadv == 2) || (alat == 2 && aadv == 1)) && self.dest_is_open(
                side_to_move,
                to,
            ),
            Piece::Bishop => alat == aadv && alat != 0 && !self.check_collision(from, to) && self.dest_is_open(
                side_to_move,
                to,
            ),
            Piece::Rook => ((lat == 0) != (adv == 0)) && !self.check_collision(from, to) && self.dest_is_open(
                side_to_move,
                to,
            ),
            Piece::Queen => ((alat == aadv && alat != 0) || ((lat == 0) != (adv == 0)))
                && !self.check_collision(from, to) && self.dest_is_open(side_to_move, to),
            Piece::King => alat <= 1 && aadv <= 1 && (alat == 1 || aadv == 1) && self.dest_is_open(
                side_to_move,
                to,
            ),
        };
        if ok {
            Ok(())
        } else {
            Err(BoardError::InvalidMove)
        }
    }

    /// Parse both cell references, validate the move for `side_to_move`, and
    /// apply it only if validation succeeds. On any error the board is
    /// untouched: a move either fully succeeds or is rejected atomically.
    pub fn validated_move(&mut self, side_to_move: Colour, from_cell: &str, to_cell: &str) -> (r: Result<
        (),
        BoardError,
    >)
        requires
            old(self).wf(),
        ensures
            final(self).wf(),
            match parse_cell_result(from_cell@) {
                Err(e) => r == Err::<(), BoardError>(e) && same_position(*old(self), *final(self)),
                Ok(from) => match parse_cell_result(to_cell@) {
                    Err(e) => r == Err::<(), BoardError>(e) && same_position(*old(self), *final(self)),
                    Ok(to) => match validate_result(*old(self), side_to_move, from, to) {
                        Err(e) => r == Err::<(), BoardError>(e) && same_position(*old(self), *final(self)),
                        Ok(u) => r is Ok && position_after_move(*old(self), *final(self), from, to),
                    },
                },
            },
    {
        let from = match parse_cell(from_cell) {
            Ok(c) => c,
            Err(e) => {
                return Err(e);
            },
        };
        let to = match parse_cell(to_cell) {
            Ok(c) => c,
            Err(e) => {
                return Err(e);
            },
        };
        match self.validate(side_to_move, from, to) {
            Ok(u) => {},
            Err(e) => {
                return Err(e);
            },
        }
        self.apply(from, to);
        Ok(())
    }
}

/// Validation reads the position alone: two boards that hold the same
/// occupant on every square are judged identically.
proof fn lemma_validation_reads_position(a: Board, b: Board, side: Colour, from: Coordinate, to: Coordinate)
    requires
        same_position(a, b),
    ensures
        validate_result(b, side, from, to) == validate_result(a, side, from, to),
{
    assert(b.occ(from) == a.occ(from));
    assert(b.occ(to) == a.occ(to));
    assert(b.at(from.file as int, from.rank + forward(side)) == a.at(
        from.file as int,
        from.rank + forward(side),
    ));
    assert(path_clear(b, from, to) == path_clear(a, from, to)) by {
        if path_clear(a, from, to) {
            assert forall|k: int|
                1 <= k < span(from, to) implies #[trigger] b.at(
                between_file(from, to, k),
                between_rank(from, to, k),
            ) is None by {
                assert(a.at(between_file(from, to, k), between_rank(from, to, k)) is None);
            }
        }
        if path_clear(b, from, to) {
            assert forall|k: int|
                1 <= k < span(from, to) implies #[trigger] a.at(
                between_file(from, to, k),
                between_rank(from, to, k),
            ) is None by {
                assert(b.at(between_file(from, to, k), between_rank(from, to, k)) is None);
            }
        }
    }
}

/// Rejection is idempotent. A rejected move leaves the board untouched (see
/// the contract of `validated_move`), so `after` here is any board that
/// holds the same position as `b` — in particular the board as it stands
/// after a failed attempt. Validating the same move again is then judged
/// against the same position and yields the very same error, however often
/// it is retried.
pub proof fn lemma_rejection_idempotent(b: Board, after: Board, side: Colour, from: Coordinate, to: Coordinate)
    requires
        same_position(b, after),
        validate_result(b, side, from, to) is Err,
    ensures
        validate_result(after, side, from, to) == validate_result(b, side, from, to),
        validate_result(after, side, from, to) is Err,
{
    lemma_validation_reads_position(b, after, side, from, to);
}

/// The rank index a side's pawns start on.
fn pawn_start_rank(side: Colour) -> (r: u8)
    ensures
        r == start_rank(side),
{
    match side {
        Colour::White => 1,
        Colour::Black => 6,
    }
}

} // verus!
