use gk_chess::board::{Board, GameState};
use gk_chess::piece::{Color, Kind, Piece};
use gk_chess::session::{Session, Status};

/// (row, column) of a square written as file and rank, such as "e2".
fn sq(name: &str) -> (usize, usize) {
    let b = name.as_bytes();
    let col = (b[0] - b'a') as usize;
    let rank = (b[1] - b'0') as usize;
    (8 - rank, col)
}

fn play(board: &mut Board, from: &str, to: &str) -> bool {
    let (fr, fc) = sq(from);
    let (tr, tc) = sq(to);
    board.make_move(fr, fc, tr, tc)
}

fn legal(board: &Board, from: &str, to: &str) -> bool {
    let (fr, fc) = sq(from);
    let (tr, tc) = sq(to);
    board.is_valid_move(fr, fc, tr, tc)
}

fn put(board: &mut Board, at: &str, p: Piece) {
    let (r, c) = sq(at);
    board.set_piece(r, c, p);
}

fn get(board: &Board, at: &str) -> Piece {
    let (r, c) = sq(at);
    board.piece_at(r, c)
}

fn w(k: Kind) -> Piece {
    Piece::Occupied(k, Color::White)
}

fn b(k: Kind) -> Piece {
    Piece::Occupied(k, Color::Black)
}

fn count_legal_moves(board: &Board) -> usize {
    let mut n = 0;
    for fr in 0..8 {
        for fc in 0..8 {
            for tr in 0..8 {
                for tc in 0..8 {
                    if board.is_valid_move(fr, fc, tr, tc) {
                        n += 1;
                    }
                }
            }
        }
    }
    n
}

/// White king e1, rooks a1 and h1; black king e8. White to move.
fn castling_board() -> Board {
    let mut board = Board::empty();
    put(&mut board, "e1", w(Kind::King));
    put(&mut board, "a1", w(Kind::Rook));
    put(&mut board, "h1", w(Kind::Rook));
    put(&mut board, "e8", b(Kind::King));
    board
}

#[test]
fn piece_predicates() {
    let e = Piece::Empty;
    assert!(e.is_empty() && !e.is_white() && !e.is_black());
    assert!(w(Kind::Pawn).is_white() && !w(Kind::Pawn).is_black());
    assert!(b(Kind::Queen).is_black() && !b(Kind::Queen).is_empty());
    assert!(w(Kind::Rook).is_same_color(&w(Kind::Knight)));
    assert!(!w(Kind::Rook).is_same_color(&b(Kind::Rook)));
    assert!(!e.is_same_color(&e));
    assert!(!e.is_same_color(&w(Kind::King)));
}

#[test]
fn glyphs_per_piece() {
    assert_eq!(Board::piece_symbol(Piece::Empty), "\u{b7}");
    assert_eq!(Board::piece_symbol(w(Kind::Pawn)), "\u{2659}");
    assert_eq!(Board::piece_symbol(b(Kind::Pawn)), "\u{265f}");
    assert_eq!(Board::piece_symbol(w(Kind::King)), "\u{2654}");
    assert_eq!(Board::piece_symbol(b(Kind::Queen)), "\u{265b}");
    assert_eq!(Board::piece_symbol(b(Kind::Knight)), "\u{265e}");
}

#[test]
fn starting_position_layout() {
    let board = Board::new();
    assert!(board.white_to_move);
    assert_eq!(board.game_state, GameState::default());
    assert_eq!(get(&board, "e1"), w(Kind::King));
    assert_eq!(get(&board, "d1"), w(Kind::Queen));
    assert_eq!(get(&board, "e8"), b(Kind::King));
    assert_eq!(get(&board, "a8"), b(Kind::Rook));
    assert_eq!(get(&board, "g8"), b(Kind::Knight));
    assert_eq!(get(&board, "c1"), w(Kind::Bishop));
    assert_eq!(get(&board, "c7"), b(Kind::Pawn));
    assert_eq!(get(&board, "h2"), w(Kind::Pawn));
    assert_eq!(get(&board, "e4"), Piece::Empty);
    assert_eq!(board.find_king(true), Some((7, 4)));
    assert_eq!(board.find_king(false), Some((0, 4)));
}

#[test]
fn starting_position_has_twenty_moves() {
    let board = Board::new();
    assert_eq!(count_legal_moves(&board), 20);
    assert!(!board.is_in_check(true));
    assert!(!board.is_checkmate());
    assert!(!board.is_stalemate());
}

#[test]
fn side_to_move_alternates() {
    let mut board = Board::new();
    let moves = [("e2", "e4"), ("e7", "e5"), ("g1", "f3"), ("b8", "c6"), ("f1", "c4"), ("g8", "f6")];
    let mut white = true;
    for (from, to) in moves.iter() {
        assert_eq!(board.white_to_move, white);
        assert!(play(&mut board, from, to));
        white = !white;
        assert_eq!(board.white_to_move, white);
    }
    // a black piece cannot move while White is to move
    assert!(!play(&mut board, "e5", "e4"));
    assert!(board.white_to_move);
}

#[test]
fn rejected_move_changes_nothing() {
    let mut board = Board::new();
    assert!(play(&mut board, "e2", "e4"));
    let before = board;
    assert!(!play(&mut board, "e7", "e4"));
    assert!(!play(&mut board, "d8", "d5"));
    assert!(!play(&mut board, "e4", "e5"));
    assert!(!play(&mut board, "a6", "a5"));
    assert!(!play(&mut board, "b8", "d7"));
    assert_eq!(board, before);
    assert_eq!(board.game_state.en_passant_target, Some((5, 4)));
}

#[test]
fn en_passant_target_lasts_one_move() {
    let mut board = Board::new();
    assert!(play(&mut board, "e2", "e4"));
    assert_eq!(board.game_state.en_passant_target, Some(sq("e3")));
    assert!(play(&mut board, "e7", "e6"));
    assert_eq!(board.game_state.en_passant_target, None);
    assert!(play(&mut board, "d2", "d4"));
    assert_eq!(board.game_state.en_passant_target, Some(sq("d3")));
    assert!(play(&mut board, "g8", "f6"));
    assert_eq!(board.game_state.en_passant_target, None);
    assert!(play(&mut board, "a2", "a3"));
    assert_eq!(board.game_state.en_passant_target, None);
    assert!(play(&mut board, "c7", "c5"));
    assert_eq!(board.game_state.en_passant_target, Some(sq("c6")));
}

#[test]
fn castling_rights_never_come_back() {
    let mut board = castling_board();
    assert!(play(&mut board, "e1", "f1"));
    assert!(board.game_state.white_king_moved);
    assert!(play(&mut board, "e8", "d8"));
    assert!(play(&mut board, "f1", "e1"));
    assert!(play(&mut board, "d8", "e8"));
    assert!(board.game_state.white_king_moved);
    assert!(board.game_state.black_king_moved);
    assert!(!legal(&board, "e1", "g1"));
    assert!(play(&mut board, "h1", "h2"));
    assert!(board.game_state.white_rook_kingside_moved);
    assert!(!board.game_state.white_rook_queenside_moved);
    assert!(play(&mut board, "e8", "d8"));
    assert!(play(&mut board, "h2", "h1"));
    assert!(board.game_state.white_rook_kingside_moved);
    assert!(board.game_state.white_king_moved);
}

#[test]
fn castling_both_sides_when_all_conditions_hold() {
    let board = castling_board();
    assert!(legal(&board, "e1", "g1"));
    assert!(legal(&board, "e1", "c1"));

    let mut kingside = board;
    assert!(play(&mut kingside, "e1", "g1"));
    assert_eq!(get(&kingside, "g1"), w(Kind::King));
    assert_eq!(get(&kingside, "f1"), w(Kind::Rook));
    assert_eq!(get(&kingside, "h1"), Piece::Empty);
    assert_eq!(get(&kingside, "e1"), Piece::Empty);
    assert!(kingside.game_state.white_king_moved);

    let mut queenside = board;
    assert!(play(&mut queenside, "e1", "c1"));
    assert_eq!(get(&queenside, "c1"), w(Kind::King));
    assert_eq!(get(&queenside, "d1"), w(Kind::Rook));
    assert_eq!(get(&queenside, "a1"), Piece::Empty);
}

#[test]
fn castling_refused_when_king_moved() {
    let mut board = castling_board();
    board.game_state.white_king_moved = true;
    assert!(!legal(&board, "e1", "g1"));
    assert!(!legal(&board, "e1", "c1"));
}

#[test]
fn castling_refused_when_rook_moved() {
    let mut board = castling_board();
    board.game_state.white_rook_kingside_moved = true;
    assert!(!legal(&board, "e1", "g1"));
    assert!(legal(&board, "e1", "c1"));
    let mut gone = castling_board();
    put(&mut gone, "a1", Piece::Empty);
    assert!(!legal(&gone, "e1", "c1"));
}

#[test]
fn castling_refused_when_path_blocked() {
    let mut board = castling_board();
    put(&mut board, "b1", w(Kind::Knight));
    assert!(!legal(&board, "e1", "c1"));
    assert!(legal(&board, "e1", "g1"));
    put(&mut board, "f1", w(Kind::Bishop));
    assert!(!legal(&board, "e1", "g1"));
}

#[test]
fn castling_refused_when_in_check() {
    let mut board = castling_board();
    put(&mut board, "e5", b(Kind::Rook));
    assert!(board.is_in_check(true));
    assert!(!legal(&board, "e1", "g1"));
    assert!(!legal(&board, "e1", "c1"));
}

#[test]
fn castling_refused_through_attacked_square() {
    let mut board = castling_board();
    put(&mut board, "f5", b(Kind::Rook));
    assert!(!board.is_in_check(true));
    assert!(!legal(&board, "e1", "g1"));
    assert!(legal(&board, "e1", "c1"));
    let mut other = castling_board();
    put(&mut other, "d5", b(Kind::Rook));
    assert!(!legal(&other, "e1", "c1"));
    // b1 is crossed by the rook, not the king: an attack there does not matter
    let mut far = castling_board();
    put(&mut far, "b5", b(Kind::Rook));
    assert!(legal(&far, "e1", "c1"));
}

#[test]
fn fools_mate_is_checkmate() {
    let mut board = Board::new();
    assert!(play(&mut board, "f2", "f3"));
    assert!(play(&mut board, "e7", "e5"));
    assert!(play(&mut board, "g2", "g4"));
    assert!(play(&mut board, "d8", "h4"));
    assert!(board.white_to_move);
    assert!(board.is_in_check(true));
    assert!(board.is_checkmate());
    assert!(!board.is_stalemate());
    assert_eq!(count_legal_moves(&board), 0);
}

#[test]
fn king_and_pawn_stalemate() {
    let mut board = Board::empty();
    put(&mut board, "a8", b(Kind::King));
    put(&mut board, "a7", w(Kind::Pawn));
    put(&mut board, "b6", w(Kind::King));
    board.white_to_move = false;
    assert!(!board.is_in_check(false));
    assert!(board.is_stalemate());
    assert!(!board.is_checkmate());
    assert_eq!(count_legal_moves(&board), 0);
}

#[test]
fn pawn_promotes_to_queen() {
    let mut board = Board::empty();
    put(&mut board, "a1", w(Kind::King));
    put(&mut board, "h8", b(Kind::King));
    put(&mut board, "c7", w(Kind::Pawn));
    put(&mut board, "d8", b(Kind::Rook));
    let mut capture = board;
    assert!(play(&mut capture, "c7", "d8"));
    assert_eq!(get(&capture, "d8"), w(Kind::Queen));
    assert_eq!(get(&capture, "c7"), Piece::Empty);
    let mut push = board;
    assert!(play(&mut push, "c7", "c8"));
    assert_eq!(get(&push, "c8"), w(Kind::Queen));
}

#[test]
fn black_pawn_promotes_to_black_queen() {
    let mut board = Board::empty();
    put(&mut board, "a1", w(Kind::King));
    put(&mut board, "h8", b(Kind::King));
    put(&mut board, "f2", b(Kind::Pawn));
    put(&mut board, "g1", w(Kind::Knight));
    board.white_to_move = false;
    assert!(play(&mut board, "f2", "g1"));
    assert_eq!(get(&board, "g1"), b(Kind::Queen));
}

#[test]
fn en_passant_removes_the_passed_pawn() {
    let mut board = Board::new();
    assert!(play(&mut board, "e2", "e4"));
    assert!(play(&mut board, "a7", "a6"));
    assert!(play(&mut board, "e4", "e5"));
    assert!(play(&mut board, "d7", "d5"));
    assert_eq!(board.game_state.en_passant_target, Some(sq("d6")));
    assert!(play(&mut board, "e5", "d6"));
    assert_eq!(get(&board, "d6"), w(Kind::Pawn));
    assert_eq!(get(&board, "d5"), Piece::Empty);
    assert_eq!(get(&board, "e5"), Piece::Empty);
    assert_eq!(board.game_state.en_passant_target, None);
}

#[test]
fn en_passant_only_right_after_double_push() {
    let mut board = Board::new();
    assert!(play(&mut board, "e2", "e4"));
    assert!(play(&mut board, "a7", "a6"));
    assert!(play(&mut board, "e4", "e5"));
    assert!(play(&mut board, "d7", "d5"));
    assert!(play(&mut board, "h2", "h3"));
    assert!(play(&mut board, "h7", "h6"));
    assert!(!legal(&board, "e5", "d6"));
}

#[test]
fn double_push_needs_both_cells_empty() {
    let mut board = Board::new();
    put(&mut board, "e3", b(Kind::Knight));
    assert!(!legal(&board, "e2", "e4"));
    assert!(legal(&board, "d2", "d4"));
    assert!(!legal(&board, "d2", "d5"));
}

#[test]
fn pinned_piece_cannot_move() {
    let mut board = Board::empty();
    put(&mut board, "e1", w(Kind::King));
    put(&mut board, "e2", w(Kind::Bishop));
    put(&mut board, "e8", b(Kind::Rook));
    put(&mut board, "a8", b(Kind::King));
    assert!(!legal(&board, "e2", "d3"));
    assert!(legal(&board, "e1", "d1"));
    assert!(!legal(&board, "e1", "e2"));
}

#[test]
fn sliding_pieces_are_blocked() {
    let board = Board::new();
    assert!(!legal(&board, "a1", "a3"));
    assert!(!legal(&board, "c1", "e3"));
    assert!(!legal(&board, "d1", "d3"));
    assert!(legal(&board, "b1", "c3"));
    assert!(!legal(&board, "b1", "d2"));
    assert!(board.is_path_clear(7, 1, 5, 1) == false);
    assert!(board.is_path_clear(6, 0, 4, 0));
}

#[test]
fn pawn_attacks_empty_diagonal() {
    let mut board = Board::empty();
    put(&mut board, "d4", w(Kind::Pawn));
    assert!(board.is_square_under_attack(sq("e5").0, sq("e5").1, true));
    assert!(board.is_square_under_attack(sq("c5").0, sq("c5").1, true));
    assert!(!board.is_square_under_attack(sq("d5").0, sq("d5").1, true));
    assert!(!board.is_square_under_attack(sq("e3").0, sq("e3").1, true));
    assert!(!board.is_square_under_attack(sq("e5").0, sq("e5").1, false));
}

#[test]
fn knight_shape_and_king_attack() {
    let board = Board::new();
    assert!(board.is_knight_move_valid(7, 1, 5, 2));
    assert!(board.is_knight_move_valid(7, 1, 6, 3));
    assert!(!board.is_knight_move_valid(7, 1, 5, 1));
    let mut lone = Board::empty();
    put(&mut lone, "e4", b(Kind::King));
    assert!(lone.is_square_under_attack(sq("d3").0, sq("d3").1, false));
    assert!(!lone.is_square_under_attack(sq("e2").0, sq("e2").1, false));
}

#[test]
fn session_select_and_move() {
    let mut s = Session::new();
    let (r, c) = sq("e2");
    s.handle_square_click(r, c);
    assert_eq!(s.selected, Some((r, c)));
    assert_eq!(s.status, Status::Clear);
    let (tr, tc) = sq("e4");
    s.handle_square_click(tr, tc);
    assert_eq!(s.selected, None);
    assert!(!s.board.white_to_move);
    assert_eq!(get(&s.board, "e4"), w(Kind::Pawn));
}

#[test]
fn session_click_same_square_deselects() {
    let mut s = Session::new();
    let (r, c) = sq("g1");
    s.handle_square_click(r, c);
    s.handle_square_click(r, c);
    assert_eq!(s.selected, None);
    assert!(s.board.white_to_move);
}

#[test]
fn session_reports_opponent_piece_and_invalid_move() {
    let mut s = Session::new();
    let (r, c) = sq("e7");
    s.handle_square_click(r, c);
    assert_eq!(s.status, Status::OpponentPiece);
    assert_eq!(s.selected, None);
    let (er, ec) = sq("e4");
    s.handle_square_click(er, ec);
    assert_eq!(s.selected, None);
    let (fr, fc) = sq("e2");
    s.handle_square_click(fr, fc);
    assert_eq!(s.status, Status::Clear);
    let (br, bc) = sq("e5");
    s.handle_square_click(br, bc);
    assert_eq!(s.status, Status::InvalidMove);
    assert_eq!(s.selected, Some((fr, fc)));
    let (nr, nc) = sq("b1");
    s.handle_square_click(nr, nc);
    assert_eq!(s.selected, Some((nr, nc)));
    assert_eq!(s.status, Status::Clear);
}

#[test]
fn session_ends_on_checkmate() {
    let mut s = Session::new();
    for (from, to) in [("f2", "f3"), ("e7", "e5"), ("g2", "g4"), ("d8", "h4")].iter() {
        let (fr, fc) = sq(from);
        let (tr, tc) = sq(to);
        s.handle_square_click(fr, fc);
        s.handle_square_click(tr, tc);
    }
    assert!(s.game_over);
    assert_eq!(s.status, Status::Checkmate { white_wins: false });
}

#[test]
fn en_passant_cannot_uncover_own_king() {
    let mut board = Board::empty();
    put(&mut board, "f8", w(Kind::King));
    put(&mut board, "b5", w(Kind::Pawn));
    put(&mut board, "c5", b(Kind::Pawn));
    put(&mut board, "a3", b(Kind::Bishop));
    put(&mut board, "h8", b(Kind::King));
    board.game_state.en_passant_target = Some(sq("c6"));
    assert!(!board.is_in_check(true));
    assert!(!legal(&board, "b5", "c6"));
    let before = board;
    assert!(!play(&mut board, "b5", "c6"));
    assert_eq!(board, before);
    // the plain push stays legal: c5 still shields the king
    assert!(legal(&board, "b5", "b6"));
}

#[test]
fn session_starts_from_standard_position() {
    let s = Session::new();
    assert_eq!(s.board, Board::new());
    assert_eq!(s.selected, None);
    assert!(!s.game_over);
}
