//! A chess rules engine: bitboard position representation, legal move
//! generation (castling, en passant, promotion), terminal-state detection,
//! and a negamax searcher with alpha-beta pruning and quiescence.

mod apply;
mod attack;
mod bitboard;
mod bitops;
mod board;
mod consts;
mod direction;
mod fen;
mod file;
mod game;
mod laws;
mod mov;
mod movegen;
mod piece;
mod player;
mod pos;
mod rank;
mod repr;
mod search;

pub use bitboard::Bitboard;
pub use bitops::add;
pub use board::Board;
pub use mov::Move;
pub use repr::Repr;
pub use consts::{
    ADJACENT_BITBOARDS, BISHOP_MOVE_BITBOARDS, BLACK_PAWN_CHECK_BITBOARDS, KNIGHT_BITBOARDS,
    ROOK_MOVE_BITBOARDS, WHITE_PAWN_CHECK_BITBOARDS,
};
pub use direction::{Direction, ADJACENT_DIRECTIONS, DIAGONAL_DIRECTIONS, ORTHOGONAL_DIRECTIONS};
pub use file::{File, FILES};
pub use fen::FenError;
pub use game::{DrawReason, GameResult, WinReason};
pub use piece::{Piece, HOME_ROW};
pub use search::search;
pub use player::Player;
pub use pos::Pos;
pub use rank::{Rank, RANKS};
