//! The 8x8 board, the occupancy and capture rules layered on top of
//! the shape rules, and the move protocol.
//!
//! The board's mathematical model is [`BoardView`]: a sequence of 8
//! rows of 8 optional pieces plus the side to move. `move_ok` is the
//! exact acceptance condition of `make_move`, and `apply_move` is the
//! exact state transition; every accepted move mutates the grid and
//! toggles the turn, and every rejected move leaves both unchanged.

use vstd::prelude::*;

use crate::pieces::{forward, shape_ok, Color, Movable, Piece, PieceType};

verus! {

/// Both coordinates lie on the 8x8 grid.
pub open spec fn in_range(row: int, col: int) -> bool {
    0 <= row < 8 && 0 <= col < 8
}

/// The other side.
pub open spec fn toggled(c: Color) -> Color {
    match c {
        Color::White => Color::Black,
        Color::Black => Color::White,
    }
}

/// The mathematical model of a board: 8 rows of 8 optional pieces,
/// and the side to move.
#[verifier::ext_equal]
pub struct BoardView {
    pub squares: Seq<Seq<Option<Piece>>>,
    pub turn: Color,
}

impl BoardView {
    /// The grid really is 8x8.
    pub open spec fn wf(self) -> bool {
        &&& self.squares.len() == 8
        &&& forall|r: int| 0 <= r < 8 ==> (#[trigger] self.squares[r]).len() == 8
    }

    /// The occupant of a square; an off-grid square holds nothing.
    pub open spec fn piece_at(self, row: int, col: int) -> Option<Piece> {
        if in_range(row, col) {
            self.squares[row][col]
        } else {
            None
        }
    }

    /// The square holds a piece of color `c`.
    pub open spec fn own_color_at(self, c: Color, sq: (int, int)) -> bool {
        match self.piece_at(sq.0, sq.1) {
            Some(q) => q.color == c,
            None => false,
        }
    }

    /// The board-level pawn rule, on top of the pawn's shape rule: a
    /// diagonal step must capture an opposing piece; a straight step
    /// must land on an empty square.
    pub open spec fn pawn_board_ok(self, p: Piece, start: (int, int), end: (int, int)) -> bool {
        let row_diff = end.0 - start.0;
        let col_diff = end.1 - start.1;
        if (col_diff == 1 || col_diff == -1) && row_diff == forward(p.color) {
            match self.piece_at(end.0, end.1) {
                Some(q) => q.color != p.color,
                None => false,
            }
        } else {
            self.piece_at(end.0, end.1) is None
        }
    }

    /// The exact acceptance condition of `make_move`: both squares on
    /// the grid, a piece on `start`, its shape rule satisfied, the
    /// pawn occupancy rule where the piece is a pawn, and no piece of
    /// the mover's own color on `end`. The mover's color is not
    /// checked against the turn here; only the read-only pre-check
    /// `candidate_ok` does that.
    pub open spec fn move_ok(self, start: (int, int), end: (int, int)) -> bool {
        &&& in_range(start.0, start.1)
        &&& in_range(end.0, end.1)
        &&& match self.piece_at(start.0, start.1) {
            Some(p) => {
                &&& shape_ok(p, start, end)
                &&& (p.piece_type == PieceType::Pawn ==> self.pawn_board_ok(p, start, end))
                &&& !self.own_color_at(p.color, end)
            },
            None => false,
        }
    }

    /// What `is_valid_move` answers: a piece of the side to move
    /// stands on `start` and its shape rule accepts the move. Strictly
    /// weaker than `move_ok` on occupancy, and stricter on the turn.
    pub open spec fn candidate_ok(self, start: (int, int), end: (int, int)) -> bool {
        &&& in_range(start.0, start.1)
        &&& in_range(end.0, end.1)
        &&& match self.piece_at(start.0, start.1) {
            Some(p) => p.color == self.turn && shape_ok(p, start, end),
            None => false,
        }
    }

    /// The exact state transition of `make_move`: an accepted move
    /// copies the mover to `end` with `has_moved` set, empties
    /// `start`, and toggles the turn; a rejected move changes nothing.
    pub open spec fn apply_move(self, start: (int, int), end: (int, int)) -> BoardView {
        if self.move_ok(start, end) {
            let p = self.piece_at(start.0, start.1)->Some_0;
            let moved = Piece { has_moved: true, ..p };
            let placed = self.squares.update(
                end.0,
                self.squares[end.0].update(end.1, Some(moved)),
            );
            let cleared = placed.update(start.0, placed[start.0].update(start.1, None));
            BoardView { squares: cleared, turn: toggled(self.turn) }
        } else {
            self
        }
    }
}

/// The back-rank piece of each file: Rook, Knight, Bishop, Queen,
/// King, Bishop, Knight, Rook.
pub open spec fn back_rank_type(col: int) -> PieceType {
    if col == 0 || col == 7 {
        PieceType::Rook
    } else if col == 1 || col == 6 {
        PieceType::Knight
    } else if col == 2 || col == 5 {
        PieceType::Bishop
    } else if col == 3 {
        PieceType::Queen
    } else {
        PieceType::King
    }
}

/// The standard starting layout: White's back rank on row 0 and pawns
/// on row 1, Black's pawns on row 6 and back rank on row 7, the four
/// middle rows empty.
pub open spec fn initial_piece(row: int, col: int) -> Option<Piece> {
    if row == 0 {
        Some(Piece { color: Color::White, piece_type: back_rank_type(col), has_moved: false })
    } else if row == 1 {
        Some(Piece { color: Color::White, piece_type: PieceType::Pawn, has_moved: false })
    } else if row == 6 {
        Some(Piece { color: Color::Black, piece_type: PieceType::Pawn, has_moved: false })
    } else if row == 7 {
        Some(Piece { color: Color::Black, piece_type: back_rank_type(col), has_moved: false })
    } else {
        None
    }
}

pub struct ChessBoard {
    pub grid: [[Option<Piece>; 8]; 8],
    pub current_turn: Color,
}

impl View for ChessBoard {
    type V = BoardView;

    open spec fn view(&self) -> BoardView {
        BoardView {
            squares: self.grid@.map_values(|row: [Option<Piece>; 8]| row@),
            turn: self.current_turn,
        }
    }
}

impl ChessBoard {
    /// Builds the standard starting position with White to move.
    pub fn new() -> (board: Self)
        ensures
            board@.wf(),
            board@.turn == Color::White,
            forall|r: int, c: int|
                in_range(r, c) ==> #[trigger] board@.piece_at(r, c) == initial_piece(r, c),
    {
        let empty: [Option<Piece>; 8] = [None, None, None, None, None, None, None, None];
        let wp = Some(Piece::new(PieceType::Pawn, Color::White));
        let white_pawns: [Option<Piece>; 8] = [wp, wp, wp, wp, wp, wp, wp, wp];
        let bp = Some(Piece::new(PieceType::Pawn, Color::Black));
        let black_pawns: [Option<Piece>; 8] = [bp, bp, bp, bp, bp, bp, bp, bp];
        let white_back: [Option<Piece>; 8] = [
            Some(Piece::new(PieceType::Rook, Color::White)),
            Some(Piece::new(PieceType::Knight, Color::White)),
            Some(Piece::new(PieceType::Bishop, Color::White)),
            Some(Piece::new(PieceType::Queen, Color::White)),
            Some(Piece::new(PieceType::King, Color::White)),
            Some(Piece::new(PieceType::Bishop, Color::White)),
            Some(Piece::new(PieceType::Knight, Color::White)),
            Some(Piece::new(PieceType::Rook, Color::White)),
        ];
        let black_back: [Option<Piece>; 8] = [
            Some(Piece::new(PieceType::Rook, Color::Black)),
            Some(Piece::new(PieceType::Knight, Color::Black)),
            Some(Piece::new(PieceType::Bishop, Color::Black)),
            Some(Piece::new(PieceType::Queen, Color::Black)),
            Some(Piece::new(PieceType::King, Color::Black)),
            Some(Piece::new(PieceType::Bishop, Color::Black)),
            Some(Piece::new(PieceType::Knight, Color::Black)),
            Some(Piece::new(PieceType::Rook, Color::Black)),
        ];
        let board = Self {
            grid: [
                white_back,
                white_pawns,
                empty,
                empty,
                empty,
                empty,
                black_pawns,
                black_back,
            ],
            current_turn: Color::White,
        };
        board
    }

    /// Returns the occupant of the square, or nothing when the square
    /// is empty or off the grid.
    pub fn get_piece(&self, row: usize, col: usize) -> (r: Option<Piece>)
        ensures
            r == self@.piece_at(row as int, col as int),
    {
        if row < 8 && col < 8 {
            self.grid[row][col]
        } else {
            None
        }
    }

    /// Read-only pre-check: a piece of the side to move stands on
    /// `start` and its shape rule accepts the move. Weaker than
    /// `make_move`'s acceptance: occupancy of `end` is not examined.
    pub fn is_valid_move(&self, start: (usize, usize), end: (usize, usize)) -> (r: bool)
        ensures
            r == self@.candidate_ok(
                (start.0 as int, start.1 as int),
                (end.0 as int, end.1 as int),
            ),
    {
        if start.0 < 8 && start.1 < 8 && end.0 < 8 && end.1 < 8 {
            if let Some(piece) = self.get_piece(start.0, start.1) {
                if piece.color == self.current_turn {
                    return piece.is_valid_move(start, end);
                }
            }
        }
        false
    }

    /// The sole mutating entry point. Accepts the move exactly when
    /// `move_ok` holds of the state before the call — notably the
    /// mover's color is not checked against the turn — and then
    /// performs exactly the `apply_move` transition; a rejected move
    /// leaves the board and the turn unchanged.
    pub fn make_move(&mut self, start: (usize, usize), end: (usize, usize)) -> (accepted: bool)
        ensures
            accepted == old(self)@.move_ok(
                (start.0 as int, start.1 as int),
                (end.0 as int, end.1 as int),
            ),
            final(self)@ == old(self)@.apply_move(
                (start.0 as int, start.1 as int),
                (end.0 as int, end.1 as int),
            ),
    {
        if !(start.0 < 8 && start.1 < 8 && end.0 < 8 && end.1 < 8) {
            return false;
        }
        if let Some(piece) = self.grid[start.0][start.1] {
            let mut piece = piece;
            if !piece.is_valid_move(start, end) {
                return false;
            }

            let row_diff: isize = end.0 as isize - start.0 as isize;
            let col_diff: isize = end.1 as isize - start.1 as isize;

            if piece.piece_type == PieceType::Pawn {
                match piece.color {
                    Color::White => {
                        if (col_diff == 1 || col_diff == -1) && row_diff == 1 {
                            // Diagonal step: must capture an opponent.
                            if let Some(dest_piece) = self.grid[end.0][end.1] {
                                if dest_piece.color == piece.color {
                                    return false;
                                }
                            } else {
                                return false;
                            }
                        } else {
                            // Straight step: the square ahead must be empty.
                            if self.grid[end.0][end.1].is_some() {
                                return false;
                            }
                        }
                    },
                    Color::Black => {
                        if (col_diff == 1 || col_diff == -1) && row_diff == -1 {
                            if let Some(dest_piece) = self.grid[end.0][end.1] {
                                if dest_piece.color == piece.color {
                                    return false;
                                }
                            } else {
                                return false;
                            }
                        } else {
                            if self.grid[end.0][end.1].is_some() {
                                return false;
                            }
                        }
                    },
                }
            }

            // No piece may land on one of its own color.
            if let Some(dest_piece) = self.grid[end.0][end.1] {
                if dest_piece.color == piece.color {
                    return false;
                }
            }

            piece.set_moved();
            let mut end_row: [Option<Piece>; 8] = self.grid[end.0];
            end_row[end.1] = Some(piece);
            self.grid[end.0] = end_row;
            let mut start_row: [Option<Piece>; 8] = self.grid[start.0];
            start_row[start.1] = None;
            self.grid[start.0] = start_row;
            self.toggle_turn();
            true
        } else {
            false
        }
    }

    /// Flips the side to move; the grid is untouched.
    pub fn toggle_turn(&mut self)
        ensures
            final(self)@ == (BoardView { turn: toggled(old(self)@.turn), ..old(self)@ }),
    {
        self.current_turn = match self.current_turn {
            Color::White => Color::Black,
            Color::Black => Color::White,
        };
    }
}

/// The board reached by attempting the given moves in order,
/// accepted or not, starting from `v`.
pub open spec fn run_moves(v: BoardView, moves: Seq<((int, int), (int, int))>) -> BoardView
    decreases moves.len(),
{
    if moves.len() == 0 {
        v
    } else {
        run_moves(v.apply_move(moves[0].0, moves[0].1), moves.drop_first())
    }
}

/// How many of the given moves are accepted when attempted in order
/// from `v`.
pub open spec fn accepted_count(v: BoardView, moves: Seq<((int, int), (int, int))>) -> nat
    decreases moves.len(),
{
    if moves.len() == 0 {
        0
    } else {
        (if v.move_ok(moves[0].0, moves[0].1) {
            1nat
        } else {
            0nat
        }) + accepted_count(v.apply_move(moves[0].0, moves[0].1), moves.drop_first())
    }
}

/// Turn alternation: over any sequence of attempted moves, the side
/// to move depends only on the parity of the number of accepted ones —
/// even leaves the turn where it started, odd flips it. In particular,
/// from a fresh board (White to move), the turn is White after an even
/// number of accepted moves and Black after an odd number, and a
/// rejected move never changes it.
pub proof fn lemma_turn_alternation(v: BoardView, moves: Seq<((int, int), (int, int))>)
    ensures
        run_moves(v, moves).turn == (if accepted_count(v, moves) % 2 == 0 {
            v.turn
        } else {
            toggled(v.turn)
        }),
    decreases moves.len(),
{
    if moves.len() > 0 {
        let v2 = v.apply_move(moves[0].0, moves[0].1);
        lemma_turn_alternation(v2, moves.drop_first());
    }
}

/// No self-capture: whenever the destination holds a piece of the
/// mover's own color, the move is rejected and the board is unchanged.
pub proof fn lemma_no_self_capture(v: BoardView, start: (int, int), end: (int, int))
    requires
        v.piece_at(start.0, start.1) is Some,
        v.piece_at(end.0, end.1) is Some,
        v.piece_at(end.0, end.1)->Some_0.color == v.piece_at(start.0, start.1)->Some_0.color,
    ensures
        !v.move_ok(start, end),
        v.apply_move(start, end) == v,
{
}

/// A pawn's diagonal step onto an empty square is rejected and
/// changes nothing.
pub proof fn lemma_pawn_diagonal_empty_rejected(v: BoardView, start: (int, int), end: (int, int))
    requires
        v.piece_at(start.0, start.1) matches Some(p) && {
            &&& p.piece_type == PieceType::Pawn
            &&& (end.1 - start.1 == 1 || end.1 - start.1 == -1)
            &&& end.0 - start.0 == forward(p.color)
        },
        v.piece_at(end.0, end.1) is None,
    ensures
        !v.move_ok(start, end),
        v.apply_move(start, end) == v,
{
}

/// The same diagonal step onto a square holding an opposing piece is
/// accepted: the destination ends up holding the mover with
/// `has_moved` set, and the source becomes empty.
pub proof fn lemma_pawn_diagonal_capture_accepted(v: BoardView, start: (int, int), end: (int, int))
    requires
        v.wf(),
        in_range(start.0, start.1),
        in_range(end.0, end.1),
        v.piece_at(start.0, start.1) matches Some(p) && {
            &&& p.piece_type == PieceType::Pawn
            &&& (end.1 - start.1 == 1 || end.1 - start.1 == -1)
            &&& end.0 - start.0 == forward(p.color)
            &&& (v.piece_at(end.0, end.1) matches Some(q) && q.color != p.color)
        },
    ensures
        v.move_ok(start, end),
        v.apply_move(start, end).piece_at(end.0, end.1) == Some(
            (Piece { has_moved: true, ..v.piece_at(start.0, start.1)->Some_0 }),
        ),
        v.apply_move(start, end).piece_at(start.0, start.1) is None,
{
}

/// A pawn that has never moved may step two rows forward onto an
/// empty square: the move is accepted, and the pawn lands with
/// `has_moved` set, so the permission is used up by any move.
pub proof fn lemma_pawn_double_step_unmoved(v: BoardView, start: (int, int), end: (int, int))
    requires
        v.wf(),
        in_range(start.0, start.1),
        in_range(end.0, end.1),
        v.piece_at(start.0, start.1) matches Some(p) && {
            &&& p.piece_type == PieceType::Pawn
            &&& !p.has_moved
            &&& end.1 == start.1
            &&& end.0 - start.0 == 2 * forward(p.color)
        },
        v.piece_at(end.0, end.1) is None,
    ensures
        v.move_ok(start, end),
        v.apply_move(start, end).piece_at(end.0, end.1) == Some(
            (Piece { has_moved: true, ..v.piece_at(start.0, start.1)->Some_0 }),
        ),
        v.apply_move(start, end).piece_at(start.0, start.1) is None,
{
}

/// A pawn that has already moved may never step two rows forward: the
/// attempt is rejected and changes nothing.
pub proof fn lemma_pawn_double_step_moved_rejected(v: BoardView, start: (int, int), end: (int, int))
    requires
        v.piece_at(start.0, start.1) matches Some(p) && {
            &&& p.piece_type == PieceType::Pawn
            &&& p.has_moved
            &&& end.1 == start.1
            &&& end.0 - start.0 == 2 * forward(p.color)
        },
    ensures
        !v.move_ok(start, end),
        v.apply_move(start, end) == v,
{
}

/// Rejection is idempotent: a rejected move leaves the board — grid
/// and turn alike — exactly as it was, so repeating the same call
/// keeps being rejected and keeps changing nothing.
pub proof fn lemma_rejected_move_unchanged(v: BoardView, start: (int, int), end: (int, int))
    requires
        !v.move_ok(start, end),
    ensures
        v.apply_move(start, end) == v,
        !v.apply_move(start, end).move_ok(start, end),
{
}

} // verus!
