//! Cell references and board coordinates.
//!
//! A cell reference is two characters: an uppercase file letter `A`..`H`
//! followed by a rank digit `1`..`8`. Parsing turns it into a `Coordinate`
//! holding zero-based file and rank indices, each in `[0, 7]`.

use vstd::prelude::*;

verus! {

/// Everything that can go wrong while parsing a cell reference or
/// validating and applying a move.
#[derive(Debug, PartialEq, Eq, Structural, Clone, Copy)]
pub enum BoardError {
    /// The cell reference is not exactly two characters long.
    WrongLength,
    /// The file letter or rank digit of a cell reference is out of range.
    InvalidReference,
    /// A move was attempted from a square that holds no piece.
    EmptyCell,
    /// The move breaks the moving piece's movement rules, is obstructed,
    /// or targets a square held by the moving side itself.
    InvalidMove,
}

/// A board square: zero-based file (column, `A` is 0) and rank (row, `1` is 0).
#[derive(Debug, PartialEq, Eq, Structural, Clone, Copy)]
pub struct Coordinate {
    pub file: u8,
    pub rank: u8,
}

impl Coordinate {
    /// Both components lie on the board.
    pub open spec fn valid(self) -> bool {
        self.file < 8 && self.rank < 8
    }

    /// The two-character cell reference that denotes this coordinate,
    /// file letter first.
    pub fn cell_text(&self) -> (r: String)
        requires
            self.valid(),
        ensures
            r@ == encode_cell(*self),
    {
        let f = file_text(self.file);
        let k = rank_text(self.rank);
        let out = String::from_str(f).concat(k);
        proof {
            assert(out@ =~= encode_cell(*self));
        }
        out
    }
}

/// Is `c` an uppercase file letter `A`..`H`?
pub open spec fn is_file_char(c: char) -> bool {
    c == 'A' || c == 'B' || c == 'C' || c == 'D' || c == 'E' || c == 'F' || c == 'G' || c == 'H'
}

/// Is `c` a rank digit `1`..`8`?
pub open spec fn is_rank_char(c: char) -> bool {
    c == '1' || c == '2' || c == '3' || c == '4' || c == '5' || c == '6' || c == '7' || c == '8'
}

/// The file index a letter denotes: `A` is 0, ..., `H` is 7.
pub open spec fn file_index_of(c: char) -> int {
    if c == 'A' { 0 } else if c == 'B' { 1 } else if c == 'C' { 2 } else if c == 'D' { 3
    } else if c == 'E' { 4 } else if c == 'F' { 5 } else if c == 'G' { 6 } else { 7 }
}

/// The rank index a digit denotes: `1` is 0, ..., `8` is 7.
pub open spec fn rank_index_of(c: char) -> int {
    if c == '1' { 0 } else if c == '2' { 1 } else if c == '3' { 2 } else if c == '4' { 3
    } else if c == '5' { 4 } else if c == '6' { 5 } else if c == '7' { 6 } else { 7 }
}

/// The letter that denotes a file index.
pub open spec fn file_char_of(f: int) -> char {
    if f == 0 { 'A' } else if f == 1 { 'B' } else if f == 2 { 'C' } else if f == 3 { 'D'
    } else if f == 4 { 'E' } else if f == 5 { 'F' } else if f == 6 { 'G' } else { 'H' }
}

/// The digit that denotes a rank index.
pub open spec fn rank_char_of(r: int) -> char {
    if r == 0 { '1' } else if r == 1 { '2' } else if r == 2 { '3' } else if r == 3 { '4'
    } else if r == 4 { '5' } else if r == 5 { '6' } else if r == 6 { '7' } else { '8' }
}

/// What parsing a cell reference returns: `WrongLength` unless the text is
/// exactly two characters, `InvalidReference` unless those are a file letter
/// and a rank digit, otherwise the coordinate they denote.
pub open spec fn parse_cell_result(s: Seq<char>) -> Result<Coordinate, BoardError> {
    if s.len() != 2 {
        Err(BoardError::WrongLength)
    } else if !(is_file_char(s[0]) && is_rank_char(s[1])) {
        Err(BoardError::InvalidReference)
    } else {
        Ok(Coordinate { file: file_index_of(s[0]) as u8, rank: rank_index_of(s[1]) as u8 })
    }
}

/// The two-character text that denotes a coordinate.
pub open spec fn encode_cell(c: Coordinate) -> Seq<char> {
    seq![file_char_of(c.file as int), rank_char_of(c.rank as int)]
}

/// Turn a cell reference such as `"E2"` into a `Coordinate`.
pub fn parse_cell(text: &str) -> (r: Result<Coordinate, BoardError>)
    ensures
        r == parse_cell_result(text@),
        r matches Ok(c) ==> c.valid(),
{
    if text.unicode_len() != 2 {
        return Err(BoardError::WrongLength);
    }
    let fc = text.get_char(0);
    let rc = text.get_char(1);
    let file = match file_index(fc) {
        Some(f) => f,
        None => {
            return Err(BoardError::InvalidReference);
        },
    };
    let rank = match rank_index(rc) {
        Some(r) => r,
        None => {
            return Err(BoardError::InvalidReference);
        },
    };
    Ok(Coordinate { file, rank })
}

/// The file index of an uppercase letter `A`..`H`, or `None` for any other character.
pub fn file_index(c: char) -> (r: Option<u8>)
    ensures
        r matches Some(f) ==> is_file_char(c) && f == file_index_of(c) && f < 8,
        r is None ==> !is_file_char(c),
{
    match c {
        'A' => Some(0),
        'B' => Some(1),
        'C' => Some(2),
        'D' => Some(3),
        'E' => Some(4),
        'F' => Some(5),
        'G' => Some(6),
        'H' => Some(7),
        _ => None,
    }
}

/// The rank index of a digit `1`..`8`, or `None` for any other character.
pub fn rank_index(c: char) -> (r: Option<u8>)
    ensures
        r matches Some(k) ==> is_rank_char(c) && k == rank_index_of(c) && k < 8,
        r is None ==> !is_rank_char(c),
{
    match c {
        '1' => Some(0),
        '2' => Some(1),
        '3' => Some(2),
        '4' => Some(3),
        '5' => Some(4),
        '6' => Some(5),
        '7' => Some(6),
        '8' => Some(7),
        _ => None,
    }
}

/// The one-character text of a file letter.
fn file_text(file: u8) -> (r: &'static str)
    requires
        file < 8,
    ensures
        r@ == seq![file_char_of(file as int)],
{
    match file {
        0 => {
            proof {
                reveal_strlit("A");
                assert("A"@ =~= seq!['A']);
            }
            "A"
        },
        1 => {
            proof {
                reveal_strlit("B");
                assert("B"@ =~= seq!['B']);
            }
            "B"
        },
        2 => {
            proof {
                reveal_strlit("C");
                assert("C"@ =~= seq!['C']);
            }
            "C"
        },
        3 => {
            proof {
                reveal_strlit("D");
                assert("D"@ =~= seq!['D']);
            }
            "D"
        },
        4 => {
            proof {
                reveal_strlit("E");
                assert("E"@ =~= seq!['E']);
            }
            "E"
        },
        5 => {
            proof {
                reveal_strlit("F");
                assert("F"@ =~= seq!['F']);
            }
            "F"
        },
        6 => {
            proof {
                reveal_strlit("G");
                assert("G"@ =~= seq!['G']);
            }
            "G"
        },
        _ => {
            proof {
                reveal_strlit("H");
                assert("H"@ =~= seq!['H']);
            }
            "H"
        },
    }
}

/// The one-character text of a rank digit.
fn rank_text(rank: u8) -> (r: &'static str)
    requires
        rank < 8,
    ensures
        r@ == seq![rank_char_of(rank as int)],
{
    match rank {
        0 => {
            proof {
                reveal_strlit("1");
                assert("1"@ =~= seq!['1']);
            }
            "1"
        },
        1 => {
            proof {
                reveal_strlit("2");
                assert("2"@ =~= seq!['2']);
            }
            "2"
        },
        2 => {
            proof {
                reveal_strlit("3");
                assert("3"@ =~= seq!['3']);
            }
            "3"
        },
        3 => {
            proof {
                reveal_strlit("4");
                assert("4"@ =~= seq!['4']);
            }
            "4"
        },
        4 => {
            proof {
                reveal_strlit("5");
                assert("5"@ =~= seq!['5']);
            }
            "5"
        },
        5 => {
            proof {
                reveal_strlit("6");
                assert("6"@ =~= seq!['6']);
            }
            "6"
        },
        6 => {
            proof {
                reveal_strlit("7");
                assert("7"@ =~= seq!['7']);
            }
            "7"
        },
        _ => {
            proof {
                reveal_strlit("8");
                assert("8"@ =~= seq!['8']);
            }
            "8"
        },
    }
}

/// Parsing and encoding are mutually inverse: any two-character text made of
/// a file letter and a rank digit parses to a coordinate whose components
/// lie in `[0, 7]`, and encoding that coordinate yields the original text.
pub proof fn lemma_parse_encode_round_trip(s: Seq<char>)
    requires
        s.len() == 2,
        is_file_char(s[0]),
        is_rank_char(s[1]),
    ensures
        parse_cell_result(s) is Ok,
        parse_cell_result(s)->Ok_0.valid(),
        encode_cell(parse_cell_result(s)->Ok_0) == s,
{
    let c = parse_cell_result(s)->Ok_0;
    assert(file_char_of(c.file as int) == s[0]);
    assert(rank_char_of(c.rank as int) == s[1]);
    assert(encode_cell(c) =~= s);
}

/// Encoding and parsing are mutually inverse the other way round: the text
/// of any valid coordinate parses back to that same coordinate.
pub proof fn lemma_encode_parse_round_trip(c: Coordinate)
    requires
        c.valid(),
    ensures
        parse_cell_result(encode_cell(c)) == Ok::<Coordinate, BoardError>(c),
{
    let s = encode_cell(c);
    assert(is_file_char(s[0]));
    assert(is_rank_char(s[1]));
    assert(file_index_of(s[0]) == c.file as int);
    assert(rank_index_of(s[1]) == c.rank as int);
}

} // verus!
