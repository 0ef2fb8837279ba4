//! A two-player chess rules engine: board state, move legality (castling,
//! en passant, promotion), attack detection, and check, checkmate and
//! stalemate queries, each stated against a mathematical model of the rules.

pub mod piece;
pub mod rules;
pub mod board;
pub mod laws;
pub mod session;
