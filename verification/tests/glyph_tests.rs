use chessboard::board::Colour;
use chessboard::board::Piece;
use chessboard::glyph::as_char;
use chessboard::glyph::BoardSquare;

#[test]
fn piece_glyphs() {
    assert_eq!(as_char((Colour::White, Piece::Pawn)), '♙');
    assert_eq!(as_char((Colour::White, Piece::Knight)), '♘');
    assert_eq!(as_char((Colour::White, Piece::Bishop)), '♗');
    assert_eq!(as_char((Colour::White, Piece::Rook)), '♖');
    assert_eq!(as_char((Colour::White, Piece::Queen)), '♕');
    assert_eq!(as_char((Colour::White, Piece::King)), '♔');
    assert_eq!(as_char((Colour::Black, Piece::Pawn)), '♟');
    assert_eq!(as_char((Colour::Black, Piece::Knight)), '♞');
    assert_eq!(as_char((Colour::Black, Piece::Bishop)), '♝');
    assert_eq!(as_char((Colour::Black, Piece::Rook)), '♜');
    assert_eq!(as_char((Colour::Black, Piece::Queen)), '♛');
    assert_eq!(as_char((Colour::Black, Piece::King)), '♚');
}

#[test]
fn square_glyphs() {
    assert_eq!(BoardSquare::White.as_char(), ' ');
    assert_eq!(BoardSquare::Black.as_char(), 'X');
    assert_eq!(BoardSquare::of_position(0, 0), BoardSquare::Black);
    assert_eq!(BoardSquare::of_position(0, 1), BoardSquare::White);
    assert_eq!(BoardSquare::of_position(1, 0), BoardSquare::White);
    assert_eq!(BoardSquare::of_position(1, 1), BoardSquare::Black);
}
