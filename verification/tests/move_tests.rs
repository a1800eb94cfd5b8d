use chessboard::board::Board;
use chessboard::board::Colour;
use chessboard::board::Piece;
use chessboard::coord::parse_cell;
use chessboard::coord::BoardError;

fn validate_cells(board: &Board, side: Colour, from: &str, to: &str) -> Result<(), BoardError> {
    let from = parse_cell(from).unwrap();
    let to = parse_cell(to).unwrap();
    board.validate(side, from, to)
}

#[test]
fn king_two_squares_rejected() {
    let mut board = Board::new();
    let before = board.clone();
    assert_eq!(
        board.validated_move(Colour::White, "E1", "E3"),
        Err(BoardError::InvalidMove)
    );
    assert_eq!(board, before);
}

#[test]
fn pawn_double_step_applies() {
    let mut board = Board::new();
    assert_eq!(board.validated_move(Colour::White, "E2", "E4"), Ok(()));
    assert_eq!(board.get_cell("E2").unwrap(), None);
    assert_eq!(
        board.get_cell("E4").unwrap(),
        Some((Colour::White, Piece::Pawn))
    );
}

#[test]
fn rook_blocked_by_intervening_occupant() {
    let mut board = Board::new();
    board.set_cell("A2", None).unwrap();
    board.set_cell("A3", Some((Colour::White, Piece::Pawn))).unwrap();
    let before = board.clone();
    assert_eq!(
        board.validated_move(Colour::White, "A1", "A5"),
        Err(BoardError::InvalidMove)
    );
    assert_eq!(board, before);
}

#[test]
fn rejection_is_idempotent() {
    let mut board = Board::new();
    let before = board.clone();
    for _ in 0..3 {
        assert_eq!(
            board.validated_move(Colour::White, "E1", "E3"),
            Err(BoardError::InvalidMove)
        );
        assert_eq!(board, before);
    }
    for _ in 0..3 {
        assert_eq!(
            validate_cells(&board, Colour::White, "A1", "A5"),
            Err(BoardError::InvalidMove)
        );
        assert_eq!(board, before);
    }
}

#[test]
fn empty_cell_rejected() {
    let mut board = Board::new();
    let before = board.clone();
    assert_eq!(
        board.validated_move(Colour::White, "E4", "E5"),
        Err(BoardError::EmptyCell)
    );
    assert_eq!(board, before);
}

#[test]
fn parse_errors_reported_before_validation() {
    let mut board = Board::new();
    let before = board.clone();
    assert_eq!(
        board.validated_move(Colour::White, "E", "E4"),
        Err(BoardError::WrongLength)
    );
    assert_eq!(
        board.validated_move(Colour::White, "E2", "E9"),
        Err(BoardError::InvalidReference)
    );
    assert_eq!(board, before);
}

#[test]
fn wrong_side_rejected() {
    let board = Board::new();
    assert_eq!(
        validate_cells(&board, Colour::White, "E7", "E5"),
        Err(BoardError::InvalidMove)
    );
    assert_eq!(validate_cells(&board, Colour::Black, "E7", "E5"), Ok(()));
}

#[test]
fn own_piece_on_destination_rejected() {
    let board = Board::new();
    assert_eq!(
        validate_cells(&board, Colour::White, "A1", "A2"),
        Err(BoardError::InvalidMove)
    );
}

#[test]
fn knight_moves() {
    let board = Board::new();
    assert_eq!(validate_cells(&board, Colour::White, "B1", "C3"), Ok(()));
    assert_eq!(validate_cells(&board, Colour::White, "B1", "A3"), Ok(()));
    assert_eq!(
        validate_cells(&board, Colour::White, "B1", "B3"),
        Err(BoardError::InvalidMove)
    );
    assert_eq!(
        validate_cells(&board, Colour::White, "B1", "D2"),
        Err(BoardError::InvalidMove)
    );
}

#[test]
fn bishop_moves() {
    let mut board = Board::new();
    assert_eq!(
        validate_cells(&board, Colour::White, "C1", "E3"),
        Err(BoardError::InvalidMove)
    );
    board.validated_move(Colour::White, "D2", "D3").unwrap();
    assert_eq!(validate_cells(&board, Colour::Black, "C8", "G4"), Err(BoardError::InvalidMove));
    assert_eq!(validate_cells(&board, Colour::White, "C1", "E3"), Ok(()));
    assert_eq!(
        validate_cells(&board, Colour::White, "C1", "C3"),
        Err(BoardError::InvalidMove)
    );
}

#[test]
fn queen_moves() {
    let mut board = Board::new();
    board.validated_move(Colour::White, "E2", "E4").unwrap();
    assert_eq!(validate_cells(&board, Colour::White, "D1", "H5"), Ok(()));
    assert_eq!(
        validate_cells(&board, Colour::White, "D1", "D2"),
        Err(BoardError::InvalidMove)
    );
    assert_eq!(
        validate_cells(&board, Colour::White, "D1", "E3"),
        Err(BoardError::InvalidMove)
    );
}

#[test]
fn rook_open_file_moves() {
    let mut board = Board::new();
    board.set_cell("A2", None).unwrap();
    assert_eq!(validate_cells(&board, Colour::White, "A1", "A5"), Ok(()));
    assert_eq!(validate_cells(&board, Colour::White, "A1", "A7"), Ok(()));
    assert_eq!(
        validate_cells(&board, Colour::White, "A1", "A8"),
        Err(BoardError::InvalidMove)
    );
    assert_eq!(
        validate_cells(&board, Colour::White, "A1", "B3"),
        Err(BoardError::InvalidMove)
    );
}

#[test]
fn king_single_step() {
    let mut board = Board::new();
    board.validated_move(Colour::White, "E2", "E4").unwrap();
    assert_eq!(validate_cells(&board, Colour::White, "E1", "E2"), Ok(()));
    assert_eq!(
        validate_cells(&board, Colour::White, "E1", "D1"),
        Err(BoardError::InvalidMove)
    );
}

#[test]
fn pawn_rules() {
    let mut board = Board::new();
    assert_eq!(validate_cells(&board, Colour::White, "E2", "E3"), Ok(()));
    assert_eq!(
        validate_cells(&board, Colour::White, "E2", "E5"),
        Err(BoardError::InvalidMove)
    );
    assert_eq!(
        validate_cells(&board, Colour::White, "E2", "D3"),
        Err(BoardError::InvalidMove)
    );
    assert_eq!(
        validate_cells(&board, Colour::White, "E2", "E1"),
        Err(BoardError::InvalidMove)
    );
    board.validated_move(Colour::White, "E2", "E4").unwrap();
    board.validated_move(Colour::Black, "D7", "D5").unwrap();
    assert_eq!(validate_cells(&board, Colour::White, "E4", "D5"), Ok(()));
    assert_eq!(
        validate_cells(&board, Colour::White, "E4", "E6"),
        Err(BoardError::InvalidMove)
    );
    board.set_cell("E5", Some((Colour::Black, Piece::Knight))).unwrap();
    assert_eq!(
        validate_cells(&board, Colour::White, "E4", "E5"),
        Err(BoardError::InvalidMove)
    );
}

#[test]
fn pawn_double_step_blocked() {
    let mut board = Board::new();
    board.set_cell("E3", Some((Colour::Black, Piece::Knight))).unwrap();
    assert_eq!(
        validate_cells(&board, Colour::White, "E2", "E4"),
        Err(BoardError::InvalidMove)
    );
    let mut board2 = Board::new();
    board2.set_cell("E4", Some((Colour::Black, Piece::Knight))).unwrap();
    assert_eq!(
        validate_cells(&board2, Colour::White, "E2", "E4"),
        Err(BoardError::InvalidMove)
    );
}

#[test]
fn capture_overwrites_destination() {
    let mut board = Board::new();
    board.validated_move(Colour::White, "E2", "E4").unwrap();
    board.validated_move(Colour::Black, "D7", "D5").unwrap();
    board.validated_move(Colour::White, "E4", "D5").unwrap();
    assert_eq!(board.get_cell("E4").unwrap(), None);
    assert_eq!(
        board.get_cell("D5").unwrap(),
        Some((Colour::White, Piece::Pawn))
    );
}
