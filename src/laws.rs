//! Properties of the rules that relate several moves or several conditions.
use vstd::prelude::*;
use crate::piece::{Color, Kind, opponent, side};
use crate::board::{Board, GameState};
use crate::rules::{
    at, castle_between_empty, castle_king_unmoved, castle_path_safe, castle_rook_present,
    castle_rook_unmoved, dist, ep_hits, in_check, legal, after_move_cells, on_board, promoted,
    rights_kept, rook_home_col, square_attacked,
};

verus! {

/// A castle (a king moving two columns along its row) is legal exactly when
/// all five castling conditions hold together with the conditions every move
/// needs: so a board on which any one of the five fails (king already moved,
/// rook already moved or gone, a piece in between, the king attacked on its
/// square, on the square it crosses or on the one it reaches) allows no castle.
pub proof fn castling_needs_all_conditions(b: Board, fr: int, fc: int, tr: int, tc: int)
    requires
        at(b.squares@, fr, fc).has_kind(Kind::King),
        fr == tr,
        dist(fc, tc) == 2,
    ensures
        legal(b, fr, fc, tr, tc) <==> (castle_king_unmoved(b, fr, fc) && castle_rook_unmoved(
            b,
            fr,
            fc,
            tc,
        ) && castle_rook_present(b, fr, fc, tc) && castle_between_empty(b, fr, tc)
            && castle_path_safe(b, fr, fc, tc) && on_board(fr, fc) && on_board(tr, tc) && at(
            b.squares@,
            fr,
            fc,
        ).has_color(side(b.white_to_move)) && !at(b.squares@, fr, fc).same_color(
            at(b.squares@, tr, tc),
        ) && !in_check(after_move_cells(b, fr, fc, tr, tc), side(b.white_to_move))),
        legal(b, fr, fc, tr, tc) ==> castle_king_unmoved(b, fr, fc),
        legal(b, fr, fc, tr, tc) ==> castle_rook_unmoved(b, fr, fc, tc),
        legal(b, fr, fc, tr, tc) ==> castle_rook_present(b, fr, fc, tc),
        legal(b, fr, fc, tr, tc) ==> castle_between_empty(b, fr, tc),
        legal(b, fr, fc, tr, tc) ==> castle_path_safe(b, fr, fc, tc),
{
}

proof fn rights_kept_between(states: Seq<GameState>, i: int, j: int)
    requires
        0 <= i <= j < states.len(),
        forall|k: int| 0 <= k < states.len() - 1 ==> rights_kept(#[trigger] states[k], states[k + 1]),
    ensures
        rights_kept(states[i], states[j]),
    decreases j - i,
{
    if i < j {
        rights_kept_between(states, i, j - 1);
        assert(rights_kept(states[j - 1], states[j]));
    }
}

/// Castling rights only shrink: once a king-moved or rook-moved flag is set,
/// it stays set across any number of moves, each of which keeps it.
pub proof fn rights_kept_along(states: Seq<GameState>)
    requires
        forall|i: int| 0 <= i < states.len() - 1 ==> rights_kept(#[trigger] states[i], states[i + 1]),
    ensures
        forall|i: int, j: int| 0 <= i <= j < states.len() ==> rights_kept(#[trigger] states[i], #[trigger] states[j]),
{
    assert forall|i: int, j: int| 0 <= i <= j < states.len() implies rights_kept(
        #[trigger] states[i],
        #[trigger] states[j],
    ) by {
        rights_kept_between(states, i, j);
    }
}

/// The fourth and fifth castling conditions as column ranges: every cell
/// strictly between the king's column and the rook's is empty, and no cell
/// from the king's column to its destination, both included, is attacked.
pub proof fn castling_conditions_as_ranges(b: Board, fr: int, fc: int, tc: int)
    requires
        fc == 4,
        dist(fc, tc) == 2,
    ensures
        castle_between_empty(b, fr, tc) <==> (forall|c: int|
            (if tc > 4 { 4 < c < rook_home_col(tc) } else { rook_home_col(tc) < c < 4 }) ==> (#[trigger] at(
                b.squares@,
                fr,
                c,
            )) is Empty),
        castle_path_safe(b, fr, fc, tc) <==> (forall|c: int|
            (if tc > 4 { 4 <= c <= tc } else { tc <= c <= 4 }) ==> !#[trigger] square_attacked(
                b.squares@,
                fr,
                c,
                opponent(side(at(b.squares@, fr, fc).has_color(Color::White))),
            )),
{
}

/// An en-passant capture empties the origin and the cell of the pawn taken
/// (beside the origin, on the destination's column), and puts the capturing
/// pawn on the destination: as it stands, or as a queen on the far rank.
pub proof fn en_passant_takes_the_passed_pawn(b: Board, fr: int, fc: int, tr: int, tc: int)
    requires
        legal(b, fr, fc, tr, tc),
        at(b.squares@, fr, fc).has_kind(Kind::Pawn),
        ep_hits(b.game_state.en_passant_target, tr, tc),
    ensures
        at(after_move_cells(b, fr, fc, tr, tc), tr, tc) == promoted(at(b.squares@, fr, fc), tr),
        tr != 0 && tr != 7 ==> at(after_move_cells(b, fr, fc, tr, tc), tr, tc) == at(b.squares@, fr, fc),
        at(after_move_cells(b, fr, fc, tr, tc), fr, fc) is Empty,
        at(after_move_cells(b, fr, fc, tr, tc), fr, tc) is Empty,
{
}

} // verus!
