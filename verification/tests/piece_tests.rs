use chess::board::ChessBoard;
use chess::pieces::{Color, Movable, Piece, PieceType};

#[test]
fn test_knight_valid_move() {
    let knight = Piece::new(PieceType::Knight, Color::White);
    assert!(knight.is_valid_move((3, 3), (5, 4)));
}

#[test]
fn test_knight_invalid_move() {
    let knight = Piece::new(PieceType::Knight, Color::White);
    assert!(!knight.is_valid_move((3, 3), (4, 4)));
}

#[test]
fn test_pawn_valid_move() {
    let pawn = Piece::new(PieceType::Pawn, Color::White);
    // (valid first double move in the new orientation)
    assert!(pawn.is_valid_move((1, 0), (3, 0)));
}

#[test]
fn test_pawn_invalid_move() {
    let pawn = Piece::new(PieceType::Pawn, Color::White);
    assert!(!pawn.is_valid_move((6, 0), (4, 0)));
}

#[test]
fn test_pawn_valid_first_double_move() {
    let pawn = Piece::new(PieceType::Pawn, Color::White);
    assert!(pawn.is_valid_move((1, 0), (3, 0)));
    assert!(pawn.is_valid_move((1, 0), (2, 0)));
}

#[test]
fn test_valid_pawn_first_double_move() {
    let mut board = ChessBoard::new();
    assert!(board.make_move((6, 0), (4, 0))); // Valid first double move
}

#[test]
fn test_invalid_pawn_second_double_move() {
    let mut board = ChessBoard::new();
    assert!(board.make_move((6, 0), (5, 0))); // First single move valid
    assert!(!board.make_move((5, 0), (3, 0))); // Invalid second double move
}

#[test]
fn test_valid_pawn_single_move_after_first_move() {
    let mut board = ChessBoard::new();
    assert!(board.make_move((6, 0), (5, 0))); // First single move valid
    assert!(board.make_move((5, 0), (4, 0))); // Valid single move forward
}

#[test]
fn test_piece_new_and_set_moved() {
    let mut piece = Piece::new(PieceType::Bishop, Color::Black);
    assert_eq!(piece.piece_type, PieceType::Bishop);
    assert_eq!(piece.color, Color::Black);
    assert!(!piece.has_moved);
    piece.set_moved();
    assert!(piece.has_moved);
    piece.set_moved(); // idempotent
    assert!(piece.has_moved);
}

#[test]
fn test_black_pawn_shapes() {
    let pawn = Piece::new(PieceType::Pawn, Color::Black);
    assert!(pawn.is_valid_move((6, 3), (5, 3))); // single step forward
    assert!(pawn.is_valid_move((6, 3), (4, 3))); // double step while unmoved
    assert!(pawn.is_valid_move((6, 3), (5, 4))); // diagonal shape
    assert!(pawn.is_valid_move((6, 3), (5, 2))); // diagonal shape
    assert!(!pawn.is_valid_move((6, 3), (7, 3))); // backward
    assert!(!pawn.is_valid_move((6, 3), (6, 4))); // sideways

    let mut moved = Piece::new(PieceType::Pawn, Color::Black);
    moved.set_moved();
    assert!(moved.is_valid_move((5, 3), (4, 3)));
    assert!(!moved.is_valid_move((5, 3), (3, 3))); // double step used up
}

#[test]
fn test_rook_shapes() {
    let rook = Piece::new(PieceType::Rook, Color::White);
    assert!(rook.is_valid_move((3, 3), (3, 7))); // same row
    assert!(rook.is_valid_move((3, 3), (0, 3))); // same column
    assert!(!rook.is_valid_move((3, 3), (4, 4))); // diagonal
}

#[test]
fn test_bishop_shapes() {
    let bishop = Piece::new(PieceType::Bishop, Color::White);
    assert!(bishop.is_valid_move((3, 3), (6, 6)));
    assert!(bishop.is_valid_move((3, 3), (0, 6)));
    assert!(!bishop.is_valid_move((3, 3), (3, 5)));
}

#[test]
fn test_queen_shapes() {
    let queen = Piece::new(PieceType::Queen, Color::Black);
    assert!(queen.is_valid_move((3, 3), (3, 0))); // rook-like
    assert!(queen.is_valid_move((3, 3), (7, 7))); // bishop-like
    assert!(!queen.is_valid_move((3, 3), (5, 4))); // knight-like
}

#[test]
fn test_king_shapes() {
    let king = Piece::new(PieceType::King, Color::White);
    assert!(king.is_valid_move((4, 4), (5, 5)));
    assert!(king.is_valid_move((4, 4), (3, 4)));
    assert!(king.is_valid_move((4, 4), (4, 4))); // zero delta passes the shape rule
    assert!(!king.is_valid_move((4, 4), (6, 4)));
}

#[test]
fn test_symbols() {
    assert_eq!(Piece::new(PieceType::King, Color::White).symbol(), '\u{2654}');
    assert_eq!(Piece::new(PieceType::Queen, Color::White).symbol(), '\u{2655}');
    assert_eq!(Piece::new(PieceType::Rook, Color::White).symbol(), '\u{2656}');
    assert_eq!(Piece::new(PieceType::Bishop, Color::White).symbol(), '\u{2657}');
    assert_eq!(Piece::new(PieceType::Knight, Color::White).symbol(), '\u{2658}');
    assert_eq!(Piece::new(PieceType::Pawn, Color::White).symbol(), '\u{2659}');
    assert_eq!(Piece::new(PieceType::King, Color::Black).symbol(), '\u{265A}');
    assert_eq!(Piece::new(PieceType::Queen, Color::Black).symbol(), '\u{265B}');
    assert_eq!(Piece::new(PieceType::Rook, Color::Black).symbol(), '\u{265C}');
    assert_eq!(Piece::new(PieceType::Bishop, Color::Black).symbol(), '\u{265D}');
    assert_eq!(Piece::new(PieceType::Knight, Color::Black).symbol(), '\u{265E}');
    assert_eq!(Piece::new(PieceType::Pawn, Color::Black).symbol(), '\u{265F}');
}
