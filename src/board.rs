//! The board and its position state, and the engine that checks, plays and
//! judges moves on it. Every query is stated exactly over the spec functions
//! of `rules`; a move either happens with all its effects or not at all.
use vstd::prelude::*;
use crate::piece::{Color, Kind, Piece, side};
use crate::rules::{
    after_move_cells, after_move_state, at, attacker_at, attacks, bishop_move, castle_ok, cell,
    checkmate, diagonal, dist, first_king_from, has_legal_move, in_check, king_move, king_square,
    knight_move, legal, on_board, path_clear, pawn_move, queen_move, rights_after,
    rights_kept, rook_move, shape_ok, span, square_attacked, stalemate, start_piece, straight,
    toward,
};

verus! {

/// Castling rights (whether each king and each corner rook has ever moved)
/// and the current en-passant target.
#[derive(Clone, Copy, Debug, PartialEq, Eq)]
pub struct GameState {
    pub white_king_moved: bool,
    pub black_king_moved: bool,
    /// The a1 rook.
    pub white_rook_queenside_moved: bool,
    /// The h1 rook.
    pub white_rook_kingside_moved: bool,
    /// The a8 rook.
    pub black_rook_queenside_moved: bool,
    /// The h8 rook.
    pub black_rook_kingside_moved: bool,
    /// The cell (row, column) a pawn passed over on the last move, if it advanced two.
    pub en_passant_target: Option<(usize, usize)>,
}

impl GameState {
    pub open spec fn initial() -> GameState {
        GameState {
            white_king_moved: false,
            black_king_moved: false,
            white_rook_queenside_moved: false,
            white_rook_kingside_moved: false,
            black_rook_queenside_moved: false,
            black_rook_kingside_moved: false,
            en_passant_target: None,
        }
    }
}

impl Default for GameState {
    fn default() -> (r: Self)
        ensures
            r == GameState::initial(),
    {
        GameState {
            white_king_moved: false,
            black_king_moved: false,
            white_rook_queenside_moved: false,
            white_rook_kingside_moved: false,
            black_rook_queenside_moved: false,
            black_rook_kingside_moved: false,
            en_passant_target: None,
        }
    }
}

/// A chess position: 64 cells in row-major order, the side to move, and the
/// castling and en-passant state.
#[derive(Clone, Copy, Debug, PartialEq, Eq)]
pub struct Board {
    pub squares: [Piece; 64],
    pub white_to_move: bool,
    pub game_state: GameState,
}

/// The display glyph of each occupant: one per kind and color, one for an empty cell.
pub open spec fn glyph(p: Piece) -> Seq<char> {
    match p {
        Piece::Empty => seq!['\u{b7}'],
        Piece::Occupied(k, Color::White) => match k {
            Kind::Pawn => seq!['\u{2659}'],
            Kind::Rook => seq!['\u{2656}'],
            Kind::Knight => seq!['\u{2658}'],
            Kind::Bishop => seq!['\u{2657}'],
            Kind::Queen => seq!['\u{2655}'],
            Kind::King => seq!['\u{2654}'],
        },
        Piece::Occupied(k, Color::Black) => match k {
            Kind::Pawn => seq!['\u{265f}'],
            Kind::Rook => seq!['\u{265c}'],
            Kind::Knight => seq!['\u{265e}'],
            Kind::Bishop => seq!['\u{265d}'],
            Kind::Queen => seq!['\u{265b}'],
            Kind::King => seq!['\u{265a}'],
        },
    }
}

/// The piece of the standard starting position on (row, col).
fn home_piece(row: usize, col: usize) -> (p: Piece)
    ensures
        p == start_piece(row as int, col as int),
{
    let back = if col == 0 || col == 7 {
        Kind::Rook
    } else if col == 1 || col == 6 {
        Kind::Knight
    } else if col == 2 || col == 5 {
        Kind::Bishop
    } else if col == 3 {
        Kind::Queen
    } else {
        Kind::King
    };
    if row == 0 {
        Piece::Occupied(back, Color::Black)
    } else if row == 1 {
        Piece::Occupied(Kind::Pawn, Color::Black)
    } else if row == 6 {
        Piece::Occupied(Kind::Pawn, Color::White)
    } else if row == 7 {
        Piece::Occupied(back, Color::White)
    } else {
        Piece::Empty
    }
}

/// `k` steps from `x` toward `target`.
fn advance(x: usize, target: usize, k: usize) -> (r: usize)
    requires
        x != target ==> k <= dist(x as int, target as int),
    ensures
        r as int == toward(x as int, target as int, k as int),
{
    if target > x {
        x + k
    } else if target < x {
        x - k
    } else {
        x
    }
}

fn abs_diff(a: usize, b: usize) -> (r: usize)
    ensures
        r as int == dist(a as int, b as int),
{
    if a >= b { a - b } else { b - a }
}

proof fn lemma_king_square_on_board(s: Seq<Piece>, color: Color, r: int, c: int)
    ensures
        match first_king_from(s, color, r, c) {
            Some((kr, kc)) => on_board(kr, kc),
            None => true,
        },
    decreases 8 - r, 8 - c,
{
    if r >= 8 || r < 0 || c < 0 {
    } else if c >= 8 {
        lemma_king_square_on_board(s, color, r + 1, 0);
    } else if at(s, r, c) == Piece::Occupied(Kind::King, color) {
    } else {
        lemma_king_square_on_board(s, color, r, c + 1);
    }
}

impl Board {
    /// The standard starting position, White to move, no rights lost.
    pub fn new() -> (b: Board)
        ensures
            forall|r: int, c: int| on_board(r, c) ==> at(b.squares@, r, c) == start_piece(r, c),
            b.white_to_move,
            b.game_state == GameState::initial(),
    {
        let mut squares = [Piece::Empty; 64];
        let mut row: usize = 0;
        while row < 8
            invariant
                row <= 8,
                forall|r: int, c: int| 0 <= r < row && 0 <= c < 8 ==> at(squares@, r, c) == start_piece(r, c),
            decreases 8 - row,
        {
            let mut col: usize = 0;
            while col < 8
                invariant
                    row < 8,
                    col <= 8,
                    forall|r: int, c: int|
                        (0 <= r < row && 0 <= c < 8) || (r == row && 0 <= c < col) ==> at(squares@, r, c)
                            == start_piece(r, c),
                decreases 8 - col,
            {
                squares[row * 8 + col] = home_piece(row, col);
                col += 1;
            }
            row += 1;
        }
        Board { squares, white_to_move: true, game_state: GameState::default() }
    }

    /// A board with no pieces on it, White to move, no rights lost.
    pub fn empty() -> (b: Board)
        ensures
            forall|i: int| 0 <= i < 64 ==> b.squares@[i] is Empty,
            b.white_to_move,
            b.game_state == GameState::initial(),
    {
        Board { squares: [Piece::Empty; 64], white_to_move: true, game_state: GameState::default() }
    }

    /// Puts `p` on (row, col), leaving everything else as it was.
    pub fn set_piece(&mut self, row: usize, col: usize, p: Piece)
        requires
            row < 8,
            col < 8,
        ensures
            final(self).squares@ == old(self).squares@.update(cell(row as int, col as int), p),
            final(self).white_to_move == old(self).white_to_move,
            final(self).game_state == old(self).game_state,
    {
        self.squares[row * 8 + col] = p;
    }

    /// The piece on (row, col).
    pub fn piece_at(&self, row: usize, col: usize) -> (p: Piece)
        requires
            row < 8,
            col < 8,
        ensures
            p == at(self.squares@, row as int, col as int),
    {
        self.squares[row * 8 + col]
    }

    pub fn is_rook_move_valid(&self, from_row: usize, from_col: usize, to_row: usize, to_col: usize) -> (r: bool)
        requires
            on_board(from_row as int, from_col as int),
            on_board(to_row as int, to_col as int),
        ensures
            r == rook_move(self.squares@, from_row as int, from_col as int, to_row as int, to_col as int),
    {
        if from_row != to_row && from_col != to_col {
            return false;
        }
        self.is_path_clear(from_row, from_col, to_row, to_col)
    }

    pub fn is_knight_move_valid(&self, from_row: usize, from_col: usize, to_row: usize, to_col: usize) -> (r: bool)
        ensures
            r == knight_move(from_row as int, from_col as int, to_row as int, to_col as int),
    {
        let dr = abs_diff(from_row, to_row);
        let dc = abs_diff(from_col, to_col);
        (dr == 2 && dc == 1) || (dr == 1 && dc == 2)
    }

    pub fn is_bishop_move_valid(&self, from_row: usize, from_col: usize, to_row: usize, to_col: usize) -> (r: bool)
        requires
            on_board(from_row as int, from_col as int),
            on_board(to_row as int, to_col as int),
        ensures
            r == bishop_move(self.squares@, from_row as int, from_col as int, to_row as int, to_col as int),
    {
        if abs_diff(from_row, to_row) != abs_diff(from_col, to_col) {
            return false;
        }
        self.is_path_clear(from_row, from_col, to_row, to_col)
    }

    pub fn is_queen_move_valid(&self, from_row: usize, from_col: usize, to_row: usize, to_col: usize) -> (r: bool)
        requires
            on_board(from_row as int, from_col as int),
            on_board(to_row as int, to_col as int),
        ensures
            r == queen_move(self.squares@, from_row as int, from_col as int, to_row as int, to_col as int),
    {
        self.is_rook_move_valid(from_row, from_col, to_row, to_col) || self.is_bishop_move_valid(
            from_row,
            from_col,
            to_row,
            to_col,
        )
    }

    /// Pawn movement rule for `piece` (its color sets the direction).
    pub fn is_pawn_move_valid(
        &self,
        piece: Piece,
        from_row: usize,
        from_col: usize,
        to_row: usize,
        to_col: usize,
    ) -> (r: bool)
        requires
            on_board(from_row as int, from_col as int),
            on_board(to_row as int, to_col as int),
        ensures
            r == pawn_move(
                self.squares@,
                self.game_state.en_passant_target,
                piece.has_color(Color::White),
                from_row as int,
                from_col as int,
                to_row as int,
                to_col as int,
            ),
    {
        let white = piece.is_white();
        let one = if white { from_row >= 1 && to_row == from_row - 1 } else { to_row == from_row + 1 };
        if to_col == from_col {
            if one && self.squares[to_row * 8 + to_col].is_empty() {
                return true;
            }
            let start: usize = if white { 6 } else { 1 };
            if from_row == start {
                let mid = if white { from_row - 1 } else { from_row + 1 };
                let two = if white { to_row == from_row - 2 } else { to_row == from_row + 2 };
                if two && self.squares[mid * 8 + from_col].is_empty() && self.squares[to_row * 8
                    + to_col].is_empty() {
                    return true;
                }
            }
            false
        } else if abs_diff(from_col, to_col) == 1 && one {
            if !self.squares[to_row * 8 + to_col].is_empty() {
                return true;
            }
            match self.game_state.en_passant_target {
                Some((ep_row, ep_col)) => to_row == ep_row && to_col == ep_col,
                None => false,
            }
        } else {
            false
        }
    }

    /// Whether `piece` standing on (from_row, from_col) attacks (to_row, to_col).
    pub fn can_piece_attack(
        &self,
        piece: Piece,
        from_row: usize,
        from_col: usize,
        to_row: usize,
        to_col: usize,
    ) -> (r: bool)
        requires
            on_board(from_row as int, from_col as int),
            on_board(to_row as int, to_col as int),
        ensures
            r == attacks(self.squares@, piece, from_row as int, from_col as int, to_row as int, to_col as int),
    {
        match piece {
            Piece::Empty => false,
            Piece::Occupied(Kind::Pawn, color) => {
                let one = match color {
                    Color::White => from_row >= 1 && to_row == from_row - 1,
                    Color::Black => to_row == from_row + 1,
                };
                one && abs_diff(from_col, to_col) == 1
            },
            Piece::Occupied(Kind::Rook, _) => self.is_rook_move_valid(from_row, from_col, to_row, to_col),
            Piece::Occupied(Kind::Knight, _) => self.is_knight_move_valid(from_row, from_col, to_row, to_col),
            Piece::Occupied(Kind::Bishop, _) => self.is_bishop_move_valid(from_row, from_col, to_row, to_col),
            Piece::Occupied(Kind::Queen, _) => self.is_queen_move_valid(from_row, from_col, to_row, to_col),
            Piece::Occupied(Kind::King, _) => abs_diff(from_row, to_row) <= 1 && abs_diff(from_col, to_col) <= 1,
        }
    }

    /// Whether a piece of the side given by `by_white` attacks (row, col).
    pub fn is_square_under_attack(&self, row: usize, col: usize, by_white: bool) -> (r: bool)
        requires
            on_board(row as int, col as int),
        ensures
            r == square_attacked(self.squares@, row as int, col as int, side(by_white)),
    {
        let mut r: usize = 0;
        while r < 8
            invariant
                r <= 8,
                on_board(row as int, col as int),
                forall|i: int, j: int|
                    0 <= i < r && 0 <= j < 8 ==> !#[trigger] attacker_at(
                        self.squares@,
                        i,
                        j,
                        row as int,
                        col as int,
                        side(by_white),
                    ),
            decreases 8 - r,
        {
            let mut c: usize = 0;
            while c < 8
                invariant
                    r < 8,
                    c <= 8,
                    on_board(row as int, col as int),
                    forall|i: int, j: int|
                        (0 <= i < r && 0 <= j < 8) || (i == r && 0 <= j < c) ==> !#[trigger] attacker_at(
                            self.squares@,
                            i,
                            j,
                            row as int,
                            col as int,
                            side(by_white),
                        ),
                decreases 8 - c,
            {
                let piece = self.squares[r * 8 + c];
                if piece.belongs_to(by_white) && self.can_piece_attack(piece, r, c, row, col) {
                    assert(attacker_at(self.squares@, r as int, c as int, row as int, col as int, side(by_white)));
                    return true;
                }
                c += 1;
            }
            r += 1;
        }
        proof {
            assert forall|i: int, j: int| !#[trigger] attacker_at(self.squares@, i, j, row as int, col as int, side(by_white)) by {
                if on_board(i, j) {
                    assert(0 <= i < 8 && 0 <= j < 8);
                }
            }
        }
        false
    }

    /// The first cell, in row-major order, holding the king of the side given by `white`.
    pub fn find_king(&self, white: bool) -> (r: Option<(usize, usize)>)
        ensures
            match r {
                Some((kr, kc)) => king_square(self.squares@, side(white)) == Some((kr as int, kc as int)),
                None => king_square(self.squares@, side(white)) is None,
            },
    {
        let target = Piece::Occupied(Kind::King, if white { Color::White } else { Color::Black });
        let mut r: usize = 0;
        while r < 8
            invariant
                r <= 8,
                target == Piece::Occupied(Kind::King, side(white)),
                king_square(self.squares@, side(white)) == first_king_from(self.squares@, side(white), r as int, 0),
            decreases 8 - r,
        {
            let mut c: usize = 0;
            while c < 8
                invariant
                    r < 8,
                    c <= 8,
                    target == Piece::Occupied(Kind::King, side(white)),
                    king_square(self.squares@, side(white)) == first_king_from(
                        self.squares@,
                        side(white),
                        r as int,
                        c as int,
                    ),
                decreases 8 - c,
            {
                if self.squares[r * 8 + c] == target {
                    return Some((r, c));
                }
                c += 1;
            }
            assert(first_king_from(self.squares@, side(white), r as int, 8) == first_king_from(
                self.squares@,
                side(white),
                r as int + 1,
                0,
            ));
            r += 1;
        }
        None
    }

    /// Whether the king of the side given by `white` is attacked.
    pub fn is_in_check(&self, white: bool) -> (r: bool)
        ensures
            r == in_check(self.squares@, side(white)),
    {
        match self.find_king(white) {
            Some((king_row, king_col)) => {
                proof {
                    lemma_king_square_on_board(self.squares@, side(white), 0, 0);
                }
                self.is_square_under_attack(king_row, king_col, !white)
            },
            None => false,
        }
    }

    /// The five castling conditions, for the king on (from_row, from_col)
    /// moving to column `to_col` (kingside when it is 6, queenside otherwise).
    pub fn can_castle(&self, from_row: usize, from_col: usize, to_row: usize, to_col: usize) -> (r: bool)
        requires
            on_board(from_row as int, from_col as int),
            on_board(to_row as int, to_col as int),
        ensures
            r == castle_ok(*self, from_row as int, from_col as int, to_col as int),
    {
        let piece = self.squares[from_row * 8 + from_col];
        if !piece.is_kind(Kind::King) {
            return false;
        }
        let white = piece.is_white();
        let home: usize = if white { 7 } else { 0 };
        if from_row != home || from_col != 4 {
            return false;
        }
        let g = &self.game_state;
        if (white && g.white_king_moved) || (!white && g.black_king_moved) {
            return false;
        }
        let kingside = to_col == 6;
        let rook_moved = if white {
            if kingside { g.white_rook_kingside_moved } else { g.white_rook_queenside_moved }
        } else {
            if kingside { g.black_rook_kingside_moved } else { g.black_rook_queenside_moved }
        };
        if rook_moved {
            return false;
        }
        let rook_col: usize = if kingside { 7 } else { 0 };
        let rook = Piece::Occupied(Kind::Rook, if white { Color::White } else { Color::Black });
        if self.squares[home * 8 + rook_col] != rook {
            return false;
        }
        if kingside {
            if !self.squares[home * 8 + 5].is_empty() || !self.squares[home * 8 + 6].is_empty() {
                return false;
            }
            !self.is_square_under_attack(home, 4, !white) && !self.is_square_under_attack(home, 5, !white)
                && !self.is_square_under_attack(home, 6, !white)
        } else {
            if !self.squares[home * 8 + 1].is_empty() || !self.squares[home * 8 + 2].is_empty()
                || !self.squares[home * 8 + 3].is_empty() {
                return false;
            }
            !self.is_square_under_attack(home, 2, !white) && !self.is_square_under_attack(home, 3, !white)
                && !self.is_square_under_attack(home, 4, !white)
        }
    }

    /// King movement: one step in any direction, or a castle.
    pub fn is_king_move_valid(&self, from_row: usize, from_col: usize, to_row: usize, to_col: usize) -> (r: bool)
        requires
            on_board(from_row as int, from_col as int),
            on_board(to_row as int, to_col as int),
        ensures
            r == king_move(*self, from_row as int, from_col as int, to_row as int, to_col as int),
    {
        let dr = abs_diff(from_row, to_row);
        let dc = abs_diff(from_col, to_col);
        if dr <= 1 && dc <= 1 {
            return true;
        }
        if dr == 0 && dc == 2 {
            return self.can_castle(from_row, from_col, to_row, to_col);
        }
        false
    }

    /// The displacement rule of `piece`'s kind.
    pub fn is_piece_move_valid(
        &self,
        piece: Piece,
        from_row: usize,
        from_col: usize,
        to_row: usize,
        to_col: usize,
    ) -> (r: bool)
        requires
            on_board(from_row as int, from_col as int),
            on_board(to_row as int, to_col as int),
        ensures
            r == shape_ok(*self, piece, from_row as int, from_col as int, to_row as int, to_col as int),
    {
        match piece {
            Piece::Empty => false,
            Piece::Occupied(Kind::Pawn, _) => self.is_pawn_move_valid(piece, from_row, from_col, to_row, to_col),
            Piece::Occupied(Kind::Rook, _) => self.is_rook_move_valid(from_row, from_col, to_row, to_col),
            Piece::Occupied(Kind::Knight, _) => self.is_knight_move_valid(from_row, from_col, to_row, to_col),
            Piece::Occupied(Kind::Bishop, _) => self.is_bishop_move_valid(from_row, from_col, to_row, to_col),
            Piece::Occupied(Kind::Queen, _) => self.is_queen_move_valid(from_row, from_col, to_row, to_col),
            Piece::Occupied(Kind::King, _) => self.is_king_move_valid(from_row, from_col, to_row, to_col),
        }
    }

    /// Applies a move to the cells with all its effects (the pawn taken en
    /// passant, the rook carried over by castling, promotion), without
    /// checking it and without touching the turn or the position state.
    pub fn make_move_unchecked(&mut self, from_row: usize, from_col: usize, to_row: usize, to_col: usize)
        requires
            on_board(from_row as int, from_col as int),
            on_board(to_row as int, to_col as int),
        ensures
            final(self).squares@ == after_move_cells(
                *old(self),
                from_row as int,
                from_col as int,
                to_row as int,
                to_col as int,
            ),
            final(self).white_to_move == old(self).white_to_move,
            final(self).game_state == old(self).game_state,
    {
        let ghost b0 = *self;
        let piece = self.squares[from_row * 8 + from_col];
        if piece.is_kind(Kind::Pawn) {
            match self.game_state.en_passant_target {
                Some((ep_row, ep_col)) => {
                    if to_row == ep_row && to_col == ep_col {
                        // the pawn taken stands beside the origin, on the destination's column
                        self.squares[from_row * 8 + to_col] = Piece::Empty;
                    }
                },
                None => {},
            }
        }
        if piece.is_kind(Kind::King) && abs_diff(from_col, to_col) == 2 {
            let rook_from: usize = if to_col == 6 { 7 } else { 0 };
            let rook_to: usize = if to_col == 6 { 5 } else { 3 };
            let rook = self.squares[from_row * 8 + rook_from];
            self.squares[from_row * 8 + rook_to] = rook;
            self.squares[from_row * 8 + rook_from] = Piece::Empty;
        }
        self.squares[from_row * 8 + from_col] = Piece::Empty;
        let placed = match piece {
            Piece::Occupied(Kind::Pawn, Color::White) => if to_row == 0 {
                Piece::Occupied(Kind::Queen, Color::White)
            } else {
                piece
            },
            Piece::Occupied(Kind::Pawn, Color::Black) => if to_row == 7 {
                Piece::Occupied(Kind::Queen, Color::Black)
            } else {
                piece
            },
            _ => piece,
        };
        self.squares[to_row * 8 + to_col] = placed;
        proof {
            assert(self.squares@ =~= after_move_cells(
                b0,
                from_row as int,
                from_col as int,
                to_row as int,
                to_col as int,
            ));
        }
    }

    /// Whether the side to move would stand in check once the move is played
    /// with all its effects, judged on a copy of the board.
    pub fn would_be_in_check_after_move(
        &self,
        from_row: usize,
        from_col: usize,
        to_row: usize,
        to_col: usize,
    ) -> (r: bool)
        requires
            on_board(from_row as int, from_col as int),
            on_board(to_row as int, to_col as int),
        ensures
            r == in_check(
                after_move_cells(*self, from_row as int, from_col as int, to_row as int, to_col as int),
                side(self.white_to_move),
            ),
    {
        let mut scratch = *self;
        scratch.make_move_unchecked(from_row, from_col, to_row, to_col);
        scratch.is_in_check(self.white_to_move)
    }

    /// Whether moving the piece on the origin to the destination is legal for
    /// the side to move.
    pub fn is_valid_move(&self, from_row: usize, from_col: usize, to_row: usize, to_col: usize) -> (r: bool)
        requires
            on_board(from_row as int, from_col as int),
            on_board(to_row as int, to_col as int),
        ensures
            r == legal(*self, from_row as int, from_col as int, to_row as int, to_col as int),
    {
        let piece = self.squares[from_row * 8 + from_col];
        let target = self.squares[to_row * 8 + to_col];
        if piece.is_empty() {
            return false;
        }
        if !piece.belongs_to(self.white_to_move) {
            return false;
        }
        if piece.is_same_color(&target) {
            return false;
        }
        if !self.is_piece_move_valid(piece, from_row, from_col, to_row, to_col) {
            return false;
        }
        !self.would_be_in_check_after_move(from_row, from_col, to_row, to_col)
    }

    /// Records lost castling rights after `piece` leaves (from_row, from_col).
    pub fn update_game_state_after_move(&mut self, piece: Piece, from_row: usize, from_col: usize)
        ensures
            final(self).game_state == rights_after(old(self).game_state, piece, from_row as int, from_col as int),
            final(self).squares == old(self).squares,
            final(self).white_to_move == old(self).white_to_move,
    {
        match piece {
            Piece::Occupied(Kind::King, Color::White) => self.game_state.white_king_moved = true,
            Piece::Occupied(Kind::King, Color::Black) => self.game_state.black_king_moved = true,
            Piece::Occupied(Kind::Rook, Color::White) => {
                if from_row == 7 && from_col == 0 {
                    self.game_state.white_rook_queenside_moved = true;
                } else if from_row == 7 && from_col == 7 {
                    self.game_state.white_rook_kingside_moved = true;
                }
            },
            Piece::Occupied(Kind::Rook, Color::Black) => {
                if from_row == 0 && from_col == 0 {
                    self.game_state.black_rook_queenside_moved = true;
                } else if from_row == 0 && from_col == 7 {
                    self.game_state.black_rook_kingside_moved = true;
                }
            },
            _ => {},
        }
    }

    /// Plays the move if it is legal, with all its effects, and passes the
    /// turn; leaves everything unchanged and returns false otherwise.
    pub fn make_move(&mut self, from_row: usize, from_col: usize, to_row: usize, to_col: usize) -> (r: bool)
        requires
            on_board(from_row as int, from_col as int),
            on_board(to_row as int, to_col as int),
        ensures
            r == legal(*old(self), from_row as int, from_col as int, to_row as int, to_col as int),
            !r ==> *final(self) == *old(self),
            r ==> final(self).squares@ == after_move_cells(
                *old(self),
                from_row as int,
                from_col as int,
                to_row as int,
                to_col as int,
            ),
            r ==> final(self).game_state == after_move_state(
                *old(self),
                from_row as int,
                from_col as int,
                to_row as int,
                to_col as int,
            ),
            r ==> final(self).white_to_move == !old(self).white_to_move,
            r ==> (final(self).game_state.en_passant_target is Some <==> (at(
                old(self).squares@,
                from_row as int,
                from_col as int,
            ).has_kind(Kind::Pawn) && dist(from_row as int, to_row as int) == 2)),
            rights_kept(old(self).game_state, final(self).game_state),
    {
        if !self.is_valid_move(from_row, from_col, to_row, to_col) {
            return false;
        }
        let piece = self.squares[from_row * 8 + from_col];
        self.make_move_unchecked(from_row, from_col, to_row, to_col);
        if piece.is_kind(Kind::Pawn) && abs_diff(from_row, to_row) == 2 {
            let passed = if to_row > from_row { from_row + 1 } else { from_row - 1 };
            self.game_state.en_passant_target = Some((passed, from_col));
        } else {
            self.game_state.en_passant_target = None;
        }
        self.update_game_state_after_move(piece, from_row, from_col);
        self.white_to_move = !self.white_to_move;
        true
    }

    /// Whether some destination is legal for the piece on (from_row, from_col).
    fn has_legal_move_from(&self, from_row: usize, from_col: usize) -> (r: bool)
        requires
            on_board(from_row as int, from_col as int),
        ensures
            r == exists|tr: int, tc: int| #[trigger] legal(*self, from_row as int, from_col as int, tr, tc),
    {
        let mut r: usize = 0;
        while r < 8
            invariant
                r <= 8,
                on_board(from_row as int, from_col as int),
                forall|i: int, j: int|
                    0 <= i < r && 0 <= j < 8 ==> !#[trigger] legal(*self, from_row as int, from_col as int, i, j),
            decreases 8 - r,
        {
            let mut c: usize = 0;
            while c < 8
                invariant
                    r < 8,
                    c <= 8,
                    on_board(from_row as int, from_col as int),
                    forall|i: int, j: int|
                        (0 <= i < r && 0 <= j < 8) || (i == r && 0 <= j < c) ==> !#[trigger] legal(
                            *self,
                            from_row as int,
                            from_col as int,
                            i,
                            j,
                        ),
                decreases 8 - c,
            {
                if self.is_valid_move(from_row, from_col, r, c) {
                    return true;
                }
                c += 1;
            }
            r += 1;
        }
        false
    }

    /// Whether the side to move has any legal move.
    fn has_any_legal_move(&self) -> (r: bool)
        ensures
            r == has_legal_move(*self),
    {
        let mut r: usize = 0;
        while r < 8
            invariant
                r <= 8,
                forall|i: int, j: int, tr: int, tc: int|
                    0 <= i < r && 0 <= j < 8 ==> !#[trigger] legal(*self, i, j, tr, tc),
            decreases 8 - r,
        {
            let mut c: usize = 0;
            while c < 8
                invariant
                    r < 8,
                    c <= 8,
                    forall|i: int, j: int, tr: int, tc: int|
                        (0 <= i < r && 0 <= j < 8) || (i == r && 0 <= j < c) ==> !#[trigger] legal(
                            *self,
                            i,
                            j,
                            tr,
                            tc,
                        ),
                decreases 8 - c,
            {
                let piece = self.squares[r * 8 + c];
                if piece.belongs_to(self.white_to_move) && self.has_legal_move_from(r, c) {
                    return true;
                }
                c += 1;
            }
            r += 1;
        }
        false
    }

    /// The side to move is in check and has no legal move.
    pub fn is_checkmate(&self) -> (r: bool)
        ensures
            r == checkmate(*self),
    {
        if !self.is_in_check(self.white_to_move) {
            return false;
        }
        !self.has_any_legal_move()
    }

    /// The side to move is not in check and has no legal move.
    pub fn is_stalemate(&self) -> (r: bool)
        ensures
            r == stalemate(*self),
    {
        if self.is_in_check(self.white_to_move) {
            return false;
        }
        !self.has_any_legal_move()
    }

    /// The display glyph of a cell's occupant.
    pub fn piece_symbol(p: Piece) -> (r: &'static str)
        ensures
            r@ == glyph(p),
    {
        proof {
            reveal_strlit("·");
            reveal_strlit("♙");
            reveal_strlit("♟");
            reveal_strlit("♖");
            reveal_strlit("♜");
            reveal_strlit("♘");
            reveal_strlit("♞");
            reveal_strlit("♗");
            reveal_strlit("♝");
            reveal_strlit("♕");
            reveal_strlit("♛");
            reveal_strlit("♔");
            reveal_strlit("♚");
        }
        match p {
            Piece::Empty => "·",
            Piece::Occupied(Kind::Pawn, Color::White) => "♙",
            Piece::Occupied(Kind::Pawn, Color::Black) => "♟",
            Piece::Occupied(Kind::Rook, Color::White) => "♖",
            Piece::Occupied(Kind::Rook, Color::Black) => "♜",
            Piece::Occupied(Kind::Knight, Color::White) => "♘",
            Piece::Occupied(Kind::Knight, Color::Black) => "♞",
            Piece::Occupied(Kind::Bishop, Color::White) => "♗",
            Piece::Occupied(Kind::Bishop, Color::Black) => "♝",
            Piece::Occupied(Kind::Queen, Color::White) => "♕",
            Piece::Occupied(Kind::Queen, Color::Black) => "♛",
            Piece::Occupied(Kind::King, Color::White) => "♔",
            Piece::Occupied(Kind::King, Color::Black) => "♚",
        }
    }

    /// True when every cell strictly between the two ends of a line is empty.
    pub fn is_path_clear(&self, from_row: usize, from_col: usize, to_row: usize, to_col: usize) -> (r: bool)
        requires
            on_board(from_row as int, from_col as int),
            on_board(to_row as int, to_col as int),
            straight(from_row as int, from_col as int, to_row as int, to_col as int) || diagonal(
                from_row as int,
                from_col as int,
                to_row as int,
                to_col as int,
            ),
        ensures
            r == path_clear(self.squares@, from_row as int, from_col as int, to_row as int, to_col as int),
    {
        let dr = abs_diff(from_row, to_row);
        let dc = abs_diff(from_col, to_col);
        let n = if dr >= dc { dr } else { dc };
        let mut k: usize = 1;
        while k < n
            invariant
                1 <= k,
                on_board(from_row as int, from_col as int),
                on_board(to_row as int, to_col as int),
                straight(from_row as int, from_col as int, to_row as int, to_col as int) || diagonal(
                    from_row as int,
                    from_col as int,
                    to_row as int,
                    to_col as int,
                ),
                n as int == span(from_row as int, from_col as int, to_row as int, to_col as int),
                forall|j: int|
                    0 < j < k ==> (#[trigger] at(
                        self.squares@,
                        toward(from_row as int, to_row as int, j),
                        toward(from_col as int, to_col as int, j),
                    )) is Empty,
            decreases n - k,
        {
            let r = advance(from_row, to_row, k);
            let c = advance(from_col, to_col, k);
            if !self.squares[r * 8 + c].is_empty() {
                assert(!(at(
                    self.squares@,
                    toward(from_row as int, to_row as int, k as int),
                    toward(from_col as int, to_col as int, k as int),
                ) is Empty));
                return false;
            }
            k += 1;
        }
        true
    }
}

} // verus!
