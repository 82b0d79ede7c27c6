//! A small two-player chess position with per-piece move legality.
//!
//! `pieces` holds the piece identities and the purely geometric shape
//! rules; `board` holds the 8x8 grid, the occupancy and capture rules
//! layered on top of the shape rules, and the move protocol that
//! mutates the grid and alternates the turn.

pub mod board;
pub mod pieces;
