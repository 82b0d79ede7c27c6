//! Piece identities and the purely geometric shape rules.
//!
//! A shape rule decides legality from the piece's type, color and
//! `has_moved` flag together with the two coordinates alone; it never
//! consults board occupancy, which is the board's business.

use vstd::prelude::*;

verus! {

#[derive(Debug, Clone, Copy, PartialEq, Eq, Structural)]
pub enum Color {
    Black,
    White,
}

#[derive(Debug, Clone, Copy, PartialEq, Eq, Structural)]
pub enum PieceType {
    King,
    Queen,
    Bishop,
    Knight,
    Rook,
    Pawn,
}

#[derive(Debug, Clone, Copy, PartialEq, Eq, Structural)]
pub struct Piece {
    pub color: Color,
    pub piece_type: PieceType,
    pub has_moved: bool,
}

/// The row direction a pawn of this color advances: `+1` for White
/// (pawns start low, on row 1), `-1` for Black (pawns start high, on
/// row 6).
pub open spec fn forward(c: Color) -> int {
    match c {
        Color::White => 1,
        Color::Black => -1,
    }
}

/// Pawn shape: straight ahead by one row, by two rows only while the
/// pawn has never moved, or one row forward with one column aside
/// (the diagonal step, whose capture requirement the board enforces).
pub open spec fn pawn_shape(p: Piece, start: (int, int), end: (int, int)) -> bool {
    let row_diff = end.0 - start.0;
    let col_diff = end.1 - start.1;
    if col_diff == 0 {
        row_diff == forward(p.color) || (!p.has_moved && row_diff == 2 * forward(p.color))
    } else {
        (col_diff == 1 || col_diff == -1) && row_diff == forward(p.color)
    }
}

/// Rook shape: same row or same column, any distance, no path check.
pub open spec fn rook_shape(start: (int, int), end: (int, int)) -> bool {
    start.0 == end.0 || start.1 == end.1
}

/// Bishop shape: equal row and column distance, any length, no path
/// check.
pub open spec fn bishop_shape(start: (int, int), end: (int, int)) -> bool {
    vstd::math::abs(end.0 - start.0) == vstd::math::abs(end.1 - start.1)
}

/// Knight shape: row and column distances are 2 and 1 in either order.
pub open spec fn knight_shape(start: (int, int), end: (int, int)) -> bool {
    let row_abs = vstd::math::abs(end.0 - start.0);
    let col_abs = vstd::math::abs(end.1 - start.1);
    (row_abs == 2 && col_abs == 1) || (row_abs == 1 && col_abs == 2)
}

/// King shape: at most one row and one column away; the zero-delta
/// "move" passes this rule and is left for the board to reject.
pub open spec fn king_shape(start: (int, int), end: (int, int)) -> bool {
    vstd::math::abs(end.0 - start.0) <= 1 && vstd::math::abs(end.1 - start.1) <= 1
}

/// The shape rule of each piece type, as one exhaustive dispatch.
pub open spec fn shape_ok(p: Piece, start: (int, int), end: (int, int)) -> bool {
    match p.piece_type {
        PieceType::Pawn => pawn_shape(p, start, end),
        PieceType::Rook => rook_shape(start, end),
        PieceType::Bishop => bishop_shape(start, end),
        PieceType::Knight => knight_shape(start, end),
        PieceType::Queen => rook_shape(start, end) || bishop_shape(start, end),
        PieceType::King => king_shape(start, end),
    }
}

impl Piece {
    /// A fresh piece: `has_moved` starts false and is set exactly when
    /// the piece is relocated by an accepted move.
    pub fn new(piece_type: PieceType, color: Color) -> (p: Self)
        ensures
            p == (Piece { piece_type, color, has_moved: false }),
    {
        Self { piece_type, color, has_moved: false }
    }

    /// Marks the piece as having moved; idempotent.
    pub fn set_moved(&mut self)
        ensures
            *final(self) == (Piece { has_moved: true, ..*old(self) }),
    {
        self.has_moved = true;
    }

    /// The fixed display glyph of each (type, color) pair.
    pub open spec fn spec_symbol(self) -> char {
        match (self.piece_type, self.color) {
            (PieceType::King, Color::White) => '\u{2654}',
            (PieceType::Queen, Color::White) => '\u{2655}',
            (PieceType::Rook, Color::White) => '\u{2656}',
            (PieceType::Bishop, Color::White) => '\u{2657}',
            (PieceType::Knight, Color::White) => '\u{2658}',
            (PieceType::Pawn, Color::White) => '\u{2659}',
            (PieceType::King, Color::Black) => '\u{265A}',
            (PieceType::Queen, Color::Black) => '\u{265B}',
            (PieceType::Rook, Color::Black) => '\u{265C}',
            (PieceType::Bishop, Color::Black) => '\u{265D}',
            (PieceType::Knight, Color::Black) => '\u{265E}',
            (PieceType::Pawn, Color::Black) => '\u{265F}',
        }
    }

    /// Returns the display glyph; pure, no state.
    pub fn symbol(&self) -> (c: char)
        ensures
            c == self.spec_symbol(),
    {
        match (self.piece_type, self.color) {
            (PieceType::King, Color::White) => '\u{2654}',
            (PieceType::Queen, Color::White) => '\u{2655}',
            (PieceType::Rook, Color::White) => '\u{2656}',
            (PieceType::Bishop, Color::White) => '\u{2657}',
            (PieceType::Knight, Color::White) => '\u{2658}',
            (PieceType::Pawn, Color::White) => '\u{2659}',
            (PieceType::King, Color::Black) => '\u{265A}',
            (PieceType::Queen, Color::Black) => '\u{265B}',
            (PieceType::Rook, Color::Black) => '\u{265C}',
            (PieceType::Bishop, Color::Black) => '\u{265D}',
            (PieceType::Knight, Color::Black) => '\u{265E}',
            (PieceType::Pawn, Color::Black) => '\u{265F}',
        }
    }
}

/// Shape-legality testing for a candidate move, ignoring occupancy.
pub trait Movable {
    /// The geometric rule the executable test answers to.
    spec fn move_shape(&self, start: (int, int), end: (int, int)) -> bool;

    /// True iff the move from `start` to `end` is shape-legal.
    fn is_valid_move(&self, start: (usize, usize), end: (usize, usize)) -> (r: bool)
        requires
            start.0 < 8,
            start.1 < 8,
            end.0 < 8,
            end.1 < 8,
        ensures
            r == self.move_shape(
                (start.0 as int, start.1 as int),
                (end.0 as int, end.1 as int),
            ),
    ;
}

impl Movable for Piece {
    open spec fn move_shape(&self, start: (int, int), end: (int, int)) -> bool {
        shape_ok(*self, start, end)
    }

    fn is_valid_move(&self, start: (usize, usize), end: (usize, usize)) -> (r: bool) {
        let (start_row, start_col) = start;
        let (end_row, end_col) = end;

        match self.piece_type {
            PieceType::Pawn => {
                let row_diff: isize = end_row as isize - start_row as isize;
                let col_diff: isize = end_col as isize - start_col as isize;
                if self.color == Color::White {
                    if col_diff == 0 {
                        if !self.has_moved {
                            row_diff == 1 || row_diff == 2
                        } else {
                            row_diff == 1
                        }
                    } else {
                        (col_diff == 1 || col_diff == -1) && row_diff == 1
                    }
                } else {
                    if col_diff == 0 {
                        if !self.has_moved {
                            row_diff == -1 || row_diff == -2
                        } else {
                            row_diff == -1
                        }
                    } else {
                        (col_diff == 1 || col_diff == -1) && row_diff == -1
                    }
                }
            },
            PieceType::Rook => start_row == end_row || start_col == end_col,
            PieceType::Bishop => {
                let row_diff: isize = end_row as isize - start_row as isize;
                let col_diff: isize = end_col as isize - start_col as isize;
                let row_abs: isize = if row_diff < 0 { -row_diff } else { row_diff };
                let col_abs: isize = if col_diff < 0 { -col_diff } else { col_diff };
                row_abs == col_abs
            },
            PieceType::Knight => {
                let row_diff: isize = end_row as isize - start_row as isize;
                let col_diff: isize = end_col as isize - start_col as isize;
                let row_abs: isize = if row_diff < 0 { -row_diff } else { row_diff };
                let col_abs: isize = if col_diff < 0 { -col_diff } else { col_diff };
                (row_abs == 2 && col_abs == 1) || (row_abs == 1 && col_abs == 2)
            },
            PieceType::Queen => {
                let row_diff: isize = end_row as isize - start_row as isize;
                let col_diff: isize = end_col as isize - start_col as isize;
                let row_abs: isize = if row_diff < 0 { -row_diff } else { row_diff };
                let col_abs: isize = if col_diff < 0 { -col_diff } else { col_diff };
                start_row == end_row || start_col == end_col || row_abs == col_abs
            },
            PieceType::King => {
                let row_diff: isize = end_row as isize - start_row as isize;
                let col_diff: isize = end_col as isize - start_col as isize;
                let row_abs: isize = if row_diff < 0 { -row_diff } else { row_diff };
                let col_abs: isize = if col_diff < 0 { -col_diff } else { col_diff };
                row_abs <= 1 && col_abs <= 1
            },
        }
    }
}

} // verus!
