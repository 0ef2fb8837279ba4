//! The rules of chess as spec functions over the 64 cells of a board, held
//! row-major: cell `r * 8 + c` is row `r`, column `c`. Row 0 is Black's back
//! rank, row 7 White's; columns 0 to 7 are files a to h.
use vstd::prelude::*;
use crate::piece::{Color, Kind, Piece, side, opponent};
use crate::board::{Board, GameState};

verus! {

pub open spec fn on_board(r: int, c: int) -> bool {
    0 <= r < 8 && 0 <= c < 8
}

/// Index of the cell at row `r`, column `c`.
pub open spec fn cell(r: int, c: int) -> int {
    r * 8 + c
}

pub open spec fn at(s: Seq<Piece>, r: int, c: int) -> Piece {
    s[cell(r, c)]
}

pub open spec fn dist(a: int, b: int) -> int {
    if a >= b { a - b } else { b - a }
}

/// `k` steps from `x` toward `target` (staying put when they are equal).
pub open spec fn toward(x: int, target: int, k: int) -> int {
    if target > x { x + k } else if target < x { x - k } else { x }
}

/// Number of king steps from one cell to the other along a line.
pub open spec fn span(fr: int, fc: int, tr: int, tc: int) -> int {
    if dist(fr, tr) >= dist(fc, tc) { dist(fr, tr) } else { dist(fc, tc) }
}

pub open spec fn straight(fr: int, fc: int, tr: int, tc: int) -> bool {
    fr == tr || fc == tc
}

pub open spec fn diagonal(fr: int, fc: int, tr: int, tc: int) -> bool {
    dist(fr, tr) == dist(fc, tc)
}

/// Every cell strictly between the two ends of a line is empty.
pub open spec fn path_clear(s: Seq<Piece>, fr: int, fc: int, tr: int, tc: int) -> bool {
    forall|k: int|
        0 < k < span(fr, fc, tr, tc) ==> (#[trigger] at(s, toward(fr, tr, k), toward(fc, tc, k))) is Empty
}

pub open spec fn rook_move(s: Seq<Piece>, fr: int, fc: int, tr: int, tc: int) -> bool {
    straight(fr, fc, tr, tc) && path_clear(s, fr, fc, tr, tc)
}

pub open spec fn bishop_move(s: Seq<Piece>, fr: int, fc: int, tr: int, tc: int) -> bool {
    diagonal(fr, fc, tr, tc) && path_clear(s, fr, fc, tr, tc)
}

pub open spec fn queen_move(s: Seq<Piece>, fr: int, fc: int, tr: int, tc: int) -> bool {
    rook_move(s, fr, fc, tr, tc) || bishop_move(s, fr, fc, tr, tc)
}

pub open spec fn knight_move(fr: int, fc: int, tr: int, tc: int) -> bool {
    (dist(fr, tr) == 2 && dist(fc, tc) == 1) || (dist(fr, tr) == 1 && dist(fc, tc) == 2)
}

pub open spec fn king_step(fr: int, fc: int, tr: int, tc: int) -> bool {
    dist(fr, tr) <= 1 && dist(fc, tc) <= 1
}

/// The en-passant target is the cell (r, c).
pub open spec fn ep_hits(ep: Option<(usize, usize)>, r: int, c: int) -> bool {
    match ep {
        Some((er, ec)) => er as int == r && ec as int == c,
        None => false,
    }
}

/// One row forward for a pawn of the side given by `white`.
pub open spec fn forward(white: bool, fr: int, n: int) -> int {
    if white { fr - n } else { fr + n }
}

pub open spec fn pawn_start_row(white: bool) -> int {
    if white { 6 } else { 1 }
}

/// Pawn movement: a push onto an empty cell, a double push from the start row
/// over an empty cell onto an empty cell, or a diagonal step that captures a
/// piece or lands on the en-passant target.
pub open spec fn pawn_move(
    s: Seq<Piece>,
    ep: Option<(usize, usize)>,
    white: bool,
    fr: int,
    fc: int,
    tr: int,
    tc: int,
) -> bool {
    if tc == fc {
        (tr == forward(white, fr, 1) && at(s, tr, tc) is Empty) || (fr == pawn_start_row(white) && tr
            == forward(white, fr, 2) && at(s, forward(white, fr, 1), fc) is Empty && at(s, tr, tc) is Empty)
    } else {
        dist(fc, tc) == 1 && tr == forward(white, fr, 1) && (!(at(s, tr, tc) is Empty) || ep_hits(
            ep,
            tr,
            tc,
        ))
    }
}

pub open spec fn home_row(white: bool) -> int {
    if white { 7 } else { 0 }
}

pub open spec fn king_moved(g: GameState, white: bool) -> bool {
    if white { g.white_king_moved } else { g.black_king_moved }
}

pub open spec fn rook_moved(g: GameState, white: bool, kingside: bool) -> bool {
    if white {
        if kingside { g.white_rook_kingside_moved } else { g.white_rook_queenside_moved }
    } else {
        if kingside { g.black_rook_kingside_moved } else { g.black_rook_queenside_moved }
    }
}

/// Column the rook starts from, for a castle toward column `tc`.
pub open spec fn rook_home_col(tc: int) -> int {
    if tc == 6 { 7 } else { 0 }
}

/// Column the rook lands on, for a castle toward column `tc`.
pub open spec fn rook_castled_col(tc: int) -> int {
    if tc == 6 { 5 } else { 3 }
}

/// Castling, first condition: a king on its own original square that has never moved.
pub open spec fn castle_king_unmoved(b: Board, fr: int, fc: int) -> bool {
    let p = at(b.squares@, fr, fc);
    let white = p.has_color(Color::White);
    p.has_kind(Kind::King) && fr == home_row(white) && fc == 4 && !king_moved(b.game_state, white)
}

/// Castling, second condition: the rook on that side has never moved.
pub open spec fn castle_rook_unmoved(b: Board, fr: int, fc: int, tc: int) -> bool {
    let white = at(b.squares@, fr, fc).has_color(Color::White);
    !rook_moved(b.game_state, white, tc == 6)
}

/// Castling, third condition: that rook still stands on its original square.
pub open spec fn castle_rook_present(b: Board, fr: int, fc: int, tc: int) -> bool {
    let white = at(b.squares@, fr, fc).has_color(Color::White);
    at(b.squares@, home_row(white), rook_home_col(tc)) == Piece::Occupied(Kind::Rook, side(white))
}

/// Castling, fourth condition: every cell strictly between king and rook is empty.
pub open spec fn castle_between_empty(b: Board, fr: int, tc: int) -> bool {
    let s = b.squares@;
    if tc == 6 {
        at(s, fr, 5) is Empty && at(s, fr, 6) is Empty
    } else {
        at(s, fr, 1) is Empty && at(s, fr, 2) is Empty && at(s, fr, 3) is Empty
    }
}

/// Castling, fifth condition: no cell the king stands on, crosses or reaches is attacked.
pub open spec fn castle_path_safe(b: Board, fr: int, fc: int, tc: int) -> bool {
    let s = b.squares@;
    let foe = opponent(side(at(s, fr, fc).has_color(Color::White)));
    if tc == 6 {
        !square_attacked(s, fr, 4, foe) && !square_attacked(s, fr, 5, foe) && !square_attacked(
            s,
            fr,
            6,
            foe,
        )
    } else {
        !square_attacked(s, fr, 2, foe) && !square_attacked(s, fr, 3, foe) && !square_attacked(
            s,
            fr,
            4,
            foe,
        )
    }
}

pub open spec fn castle_ok(b: Board, fr: int, fc: int, tc: int) -> bool {
    castle_king_unmoved(b, fr, fc) && castle_rook_unmoved(b, fr, fc, tc) && castle_rook_present(
        b,
        fr,
        fc,
        tc,
    ) && castle_between_empty(b, fr, tc) && castle_path_safe(b, fr, fc, tc)
}

pub open spec fn king_move(b: Board, fr: int, fc: int, tr: int, tc: int) -> bool {
    king_step(fr, fc, tr, tc) || (fr == tr && dist(fc, tc) == 2 && castle_ok(b, fr, fc, tc))
}

/// The displacement rule of the piece's kind.
pub open spec fn shape_ok(b: Board, p: Piece, fr: int, fc: int, tr: int, tc: int) -> bool {
    let s = b.squares@;
    match p {
        Piece::Empty => false,
        Piece::Occupied(k, _) => match k {
            Kind::Pawn => pawn_move(
                s,
                b.game_state.en_passant_target,
                p.has_color(Color::White),
                fr,
                fc,
                tr,
                tc,
            ),
            Kind::Rook => rook_move(s, fr, fc, tr, tc),
            Kind::Knight => knight_move(fr, fc, tr, tc),
            Kind::Bishop => bishop_move(s, fr, fc, tr, tc),
            Kind::Queen => queen_move(s, fr, fc, tr, tc),
            Kind::King => king_move(b, fr, fc, tr, tc),
        },
    }
}

/// The cells a piece standing on (fr, fc) attacks: pawns only diagonally
/// forward, whatever stands there; kings only their neighbours; the others
/// as they move.
pub open spec fn attacks(s: Seq<Piece>, p: Piece, fr: int, fc: int, tr: int, tc: int) -> bool {
    match p {
        Piece::Empty => false,
        Piece::Occupied(k, c) => match k {
            Kind::Pawn => dist(fc, tc) == 1 && tr == forward(c == Color::White, fr, 1),
            Kind::Rook => rook_move(s, fr, fc, tr, tc),
            Kind::Knight => knight_move(fr, fc, tr, tc),
            Kind::Bishop => bishop_move(s, fr, fc, tr, tc),
            Kind::Queen => queen_move(s, fr, fc, tr, tc),
            Kind::King => king_step(fr, fc, tr, tc),
        },
    }
}

/// A piece of color `by` on (r, c) attacks (tr, tc).
pub open spec fn attacker_at(s: Seq<Piece>, r: int, c: int, tr: int, tc: int, by: Color) -> bool {
    on_board(r, c) && at(s, r, c).has_color(by) && attacks(s, at(s, r, c), r, c, tr, tc)
}

pub open spec fn square_attacked(s: Seq<Piece>, tr: int, tc: int, by: Color) -> bool {
    exists|r: int, c: int| #[trigger] attacker_at(s, r, c, tr, tc, by)
}

/// The first cell, in row-major order from (r, c) on, that holds the king of `color`.
pub open spec fn first_king_from(s: Seq<Piece>, color: Color, r: int, c: int) -> Option<(int, int)>
    decreases 8 - r, 8 - c,
{
    if r >= 8 || r < 0 || c < 0 {
        None
    } else if c >= 8 {
        first_king_from(s, color, r + 1, 0)
    } else if at(s, r, c) == Piece::Occupied(Kind::King, color) {
        Some((r, c))
    } else {
        first_king_from(s, color, r, c + 1)
    }
}

pub open spec fn king_square(s: Seq<Piece>, color: Color) -> Option<(int, int)> {
    first_king_from(s, color, 0, 0)
}

/// The king of `color` (the first one found, if several) stands attacked.
pub open spec fn in_check(s: Seq<Piece>, color: Color) -> bool {
    match king_square(s, color) {
        Some((r, c)) => square_attacked(s, r, c, opponent(color)),
        None => false,
    }
}

/// A legal move for the side to move: its own piece, no capture of its own
/// color, the piece's movement rule, and its king not attacked once the move
/// is played with all its effects.
pub open spec fn legal(b: Board, fr: int, fc: int, tr: int, tc: int) -> bool {
    let s = b.squares@;
    let p = at(s, fr, fc);
    let me = side(b.white_to_move);
    on_board(fr, fc) && on_board(tr, tc) && p.has_color(me) && !p.same_color(at(s, tr, tc))
        && shape_ok(b, p, fr, fc, tr, tc) && !in_check(after_move_cells(b, fr, fc, tr, tc), me)
}

pub open spec fn has_legal_move(b: Board) -> bool {
    exists|fr: int, fc: int, tr: int, tc: int| #[trigger] legal(b, fr, fc, tr, tc)
}

pub open spec fn checkmate(b: Board) -> bool {
    in_check(b.squares@, side(b.white_to_move)) && !has_legal_move(b)
}

pub open spec fn stalemate(b: Board) -> bool {
    !in_check(b.squares@, side(b.white_to_move)) && !has_legal_move(b)
}

/// What a pawn becomes on arriving at row `tr`: a queen on the far rank.
pub open spec fn promoted(p: Piece, tr: int) -> Piece {
    match p {
        Piece::Occupied(Kind::Pawn, Color::White) => if tr == 0 {
            Piece::Occupied(Kind::Queen, Color::White)
        } else {
            p
        },
        Piece::Occupied(Kind::Pawn, Color::Black) => if tr == 7 {
            Piece::Occupied(Kind::Queen, Color::Black)
        } else {
            p
        },
        _ => p,
    }
}

/// The cells after a legal move with all its effects: the pawn taken en
/// passant (beside the origin, on the destination's column), the rook that
/// castling carries over, the piece itself, and promotion.
pub open spec fn after_move_cells(b: Board, fr: int, fc: int, tr: int, tc: int) -> Seq<Piece> {
    let s0 = b.squares@;
    let p = at(s0, fr, fc);
    let s1 = if p.has_kind(Kind::Pawn) && ep_hits(b.game_state.en_passant_target, tr, tc) {
        s0.update(cell(fr, tc), Piece::Empty)
    } else {
        s0
    };
    let s2 = if p.has_kind(Kind::King) && dist(fc, tc) == 2 {
        s1.update(cell(fr, rook_castled_col(tc)), at(s1, fr, rook_home_col(tc))).update(
            cell(fr, rook_home_col(tc)),
            Piece::Empty,
        )
    } else {
        s1
    };
    s2.update(cell(fr, fc), Piece::Empty).update(cell(tr, tc), promoted(p, tr))
}

/// The en-passant target after a move of `p`: the cell passed over by a
/// pawn's double advance, and none after any other move.
pub open spec fn ep_after(p: Piece, fr: int, fc: int, tr: int) -> Option<(usize, usize)> {
    if p.has_kind(Kind::Pawn) && dist(fr, tr) == 2 {
        Some(((if tr > fr { fr + 1 } else { fr - 1 }) as usize, fc as usize))
    } else {
        None
    }
}

/// Castling rights after `p` leaves (fr, fc): a king loses them, a rook
/// leaving its original corner loses its side's; the en-passant target is kept.
pub open spec fn rights_after(g: GameState, p: Piece, fr: int, fc: int) -> GameState {
    let wr = p == Piece::Occupied(Kind::Rook, Color::White) && fr == 7;
    let br = p == Piece::Occupied(Kind::Rook, Color::Black) && fr == 0;
    GameState {
        white_king_moved: g.white_king_moved || p == Piece::Occupied(Kind::King, Color::White),
        black_king_moved: g.black_king_moved || p == Piece::Occupied(Kind::King, Color::Black),
        white_rook_queenside_moved: g.white_rook_queenside_moved || (wr && fc == 0),
        white_rook_kingside_moved: g.white_rook_kingside_moved || (wr && fc == 7),
        black_rook_queenside_moved: g.black_rook_queenside_moved || (br && fc == 0),
        black_rook_kingside_moved: g.black_rook_kingside_moved || (br && fc == 7),
        en_passant_target: g.en_passant_target,
    }
}

/// The position state after a legal move.
pub open spec fn after_move_state(b: Board, fr: int, fc: int, tr: int, tc: int) -> GameState {
    let p = at(b.squares@, fr, fc);
    let g = rights_after(b.game_state, p, fr, fc);
    GameState { en_passant_target: ep_after(p, fr, fc, tr), ..g }
}

/// No castling-rights flag that was set in `g0` is clear in `g1`.
pub open spec fn rights_kept(g0: GameState, g1: GameState) -> bool {
    (g0.white_king_moved ==> g1.white_king_moved) && (g0.black_king_moved ==> g1.black_king_moved)
        && (g0.white_rook_queenside_moved ==> g1.white_rook_queenside_moved) && (
    g0.white_rook_kingside_moved ==> g1.white_rook_kingside_moved) && (g0.black_rook_queenside_moved
        ==> g1.black_rook_queenside_moved) && (g0.black_rook_kingside_moved
        ==> g1.black_rook_kingside_moved)
}

/// The piece that stands on (r, c) in the standard starting position.
pub open spec fn start_piece(r: int, c: int) -> Piece {
    let back = if c == 0 || c == 7 {
        Kind::Rook
    } else if c == 1 || c == 6 {
        Kind::Knight
    } else if c == 2 || c == 5 {
        Kind::Bishop
    } else if c == 3 {
        Kind::Queen
    } else {
        Kind::King
    };
    if r == 0 {
        Piece::Occupied(back, Color::Black)
    } else if r == 1 {
        Piece::Occupied(Kind::Pawn, Color::Black)
    } else if r == 6 {
        Piece::Occupied(Kind::Pawn, Color::White)
    } else if r == 7 {
        Piece::Occupied(back, Color::White)
    } else {
        Piece::Empty
    }
}

} // verus!
