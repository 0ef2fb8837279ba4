//! A game driven by clicks on squares: the first click selects a piece of
//! the side to move, the second tries to move it there.
use vstd::prelude::*;
use crate::piece::side;
use crate::board::{Board, GameState};
use crate::rules::{after_move_cells, after_move_state, at, checkmate, legal, on_board, stalemate, start_piece};

verus! {

/// What a presentation layer should tell the players after a click.
#[derive(Clone, Copy, Debug, PartialEq, Eq, Structural)]
pub enum Status {
    /// Nothing to report.
    Clear,
    /// The side to move is mated; the other side has won.
    Checkmate { white_wins: bool },
    /// The side to move has no legal move and is not in check.
    Stalemate,
    /// The attempted move is illegal and the square clicked holds no piece to select.
    InvalidMove,
    /// The square clicked holds a piece of the side not to move.
    OpponentPiece,
}

/// The board together with the selection and end-of-game state of a game.
#[derive(Clone, Copy, Debug)]
pub struct Session {
    pub board: Board,
    pub selected: Option<(usize, usize)>,
    pub game_over: bool,
    pub status: Status,
}

impl Session {
    /// The selected square, if any, lies on the board.
    pub open spec fn wf(&self) -> bool {
        match self.selected {
            Some((r, c)) => on_board(r as int, c as int),
            None => true,
        }
    }

    /// A fresh game: standard position, nothing selected.
    pub fn new() -> (s: Session)
        ensures
            s.wf(),
            s.selected is None,
            !s.game_over,
            s.status == Status::Clear,
            forall|r: int, c: int| on_board(r, c) ==> at(s.board.squares@, r, c) == start_piece(r, c),
            s.board.white_to_move,
            s.board.game_state == GameState::initial(),
    {
        Session { board: Board::new(), selected: None, game_over: false, status: Status::Clear }
    }

    /// Selects (row, col) and clears the status when it holds a piece of the
    /// side to move; otherwise changes nothing. Returns whether it selected.
    fn select(&mut self, row: usize, col: usize) -> (r: bool)
        requires
            old(self).wf(),
            on_board(row as int, col as int),
        ensures
            final(self).wf(),
            r == at(old(self).board.squares@, row as int, col as int).has_color(side(old(self).board.white_to_move)),
            r ==> final(self).selected == Some((row, col)) && final(self).status == Status::Clear,
            !r ==> final(self).selected == old(self).selected && final(self).status == old(self).status,
            final(self).board == old(self).board,
            final(self).game_over == old(self).game_over,
    {
        let piece = self.board.piece_at(row, col);
        if piece.belongs_to(self.board.white_to_move) {
            self.selected = Some((row, col));
            self.status = Status::Clear;
            true
        } else {
            false
        }
    }

    /// Handles a click on (row, col). With nothing selected, it selects a
    /// piece of the side to move (an empty square changes nothing). With a
    /// square selected, a click on that same square clears the selection;
    /// on another square it plays the move when legal, clears the selection
    /// and reports checkmate or stalemate, which end the game; when the move
    /// is illegal the click selects instead, as with nothing selected.
    pub fn handle_square_click(&mut self, row: usize, col: usize)
        requires
            old(self).wf(),
            on_board(row as int, col as int),
        ensures
            final(self).wf(),
            match old(self).selected {
                None => {
                    let p = at(old(self).board.squares@, row as int, col as int);
                    &&& final(self).board == old(self).board
                    &&& final(self).game_over == old(self).game_over
                    &&& if p.has_color(side(old(self).board.white_to_move)) {
                        final(self).selected == Some((row, col)) && final(self).status == Status::Clear
                    } else if p is Empty {
                        final(self).selected is None && final(self).status == old(self).status
                    } else {
                        final(self).selected is None && final(self).status == Status::OpponentPiece
                    }
                },
                Some((sr, sc)) => if sr == row && sc == col {
                    &&& final(self).selected is None
                    &&& final(self).board == old(self).board
                    &&& final(self).game_over == old(self).game_over
                    &&& final(self).status == old(self).status
                } else if legal(old(self).board, sr as int, sc as int, row as int, col as int) {
                    let nb = final(self).board;
                    &&& nb.squares@ == after_move_cells(old(self).board, sr as int, sc as int, row as int, col as int)
                    &&& nb.game_state == after_move_state(old(self).board, sr as int, sc as int, row as int, col as int)
                    &&& nb.white_to_move == !old(self).board.white_to_move
                    &&& final(self).selected is None
                    &&& if checkmate(nb) {
                        final(self).game_over && final(self).status == (Status::Checkmate {
                            white_wins: !nb.white_to_move,
                        })
                    } else if stalemate(nb) {
                        final(self).game_over && final(self).status == Status::Stalemate
                    } else {
                        final(self).game_over == old(self).game_over && final(self).status == Status::Clear
                    }
                } else {
                    let p = at(old(self).board.squares@, row as int, col as int);
                    &&& final(self).board == old(self).board
                    &&& final(self).game_over == old(self).game_over
                    &&& if p.has_color(side(old(self).board.white_to_move)) {
                        final(self).selected == Some((row, col)) && final(self).status == Status::Clear
                    } else {
                        final(self).selected == old(self).selected && final(self).status == Status::InvalidMove
                    }
                },
            },
    {
        match self.selected {
            None => {
                if !self.select(row, col) && !self.board.piece_at(row, col).is_empty() {
                    self.status = Status::OpponentPiece;
                }
            },
            Some((from_row, from_col)) => {
                if from_row == row && from_col == col {
                    self.selected = None;
                } else if self.board.make_move(from_row, from_col, row, col) {
                    self.selected = None;
                    if self.board.is_checkmate() {
                        self.status = Status::Checkmate { white_wins: !self.board.white_to_move };
                        self.game_over = true;
                    } else if self.board.is_stalemate() {
                        self.status = Status::Stalemate;
                        self.game_over = true;
                    } else {
                        self.status = Status::Clear;
                    }
                } else {
                    if !self.select(row, col) {
                        self.status = Status::InvalidMove;
                    }
                }
            },
        }
    }
}

} // verus!
