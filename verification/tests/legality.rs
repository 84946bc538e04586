//! Tests for the per-kind move legality rules, path clearance and the
//! occupancy view.

use chess_engine::pieces::{is_path_clear, piece_at, square_color};
use chess_engine::{Piece, PieceColor, PieceType};

fn piece(color: PieceColor, piece_type: PieceType, x: u8, y: u8) -> Piece {
    Piece { color, piece_type, x, y }
}

#[test]
fn king_moves_exactly_one_square() {
    let king = piece(PieceColor::White, PieceType::King, 4, 4);
    let board = vec![king];
    assert!(king.is_move_valid((5, 4), &board));
    assert!(king.is_move_valid((3, 4), &board));
    assert!(king.is_move_valid((4, 5), &board));
    assert!(king.is_move_valid((4, 3), &board));
    assert!(king.is_move_valid((5, 5), &board));
    assert!(king.is_move_valid((3, 3), &board));
    assert!(king.is_move_valid((5, 3), &board));
    assert!(king.is_move_valid((3, 5), &board));
    assert!(!king.is_move_valid((6, 4), &board));
    assert!(!king.is_move_valid((4, 4), &board));
    assert!(!king.is_move_valid((6, 6), &board));
    assert!(!king.is_move_valid((5, 6), &board));
}

#[test]
fn own_color_destination_is_illegal_for_every_kind() {
    // The universal guard, checked for each piece kind with an otherwise
    // legal destination held by a piece of the mover's own color.
    let cases = vec![
        (PieceType::King, 4u8, 4u8, 5u8, 4u8),
        (PieceType::Queen, 4, 4, 4, 7),
        (PieceType::Bishop, 4, 4, 6, 6),
        (PieceType::Knight, 4, 4, 6, 5),
        (PieceType::Rook, 4, 4, 0, 4),
        (PieceType::Pawn, 4, 4, 5, 5),
    ];
    for (kind, x, y, dx, dy) in cases {
        let mover = piece(PieceColor::White, kind, x, y);
        let friend = piece(PieceColor::White, PieceType::Pawn, dx, dy);
        let board = vec![mover, friend];
        // Sanity: with an enemy there instead, every one of these moves is
        // legal (for the pawn it is a diagonal capture).
        let enemy = piece(PieceColor::Black, PieceType::Pawn, dx, dy);
        let board_enemy = vec![mover, enemy];
        assert!(mover.is_move_valid((dx, dy), &board_enemy));
        assert!(!mover.is_move_valid((dx, dy), &board));
    }
}

#[test]
fn rook_moves_straight_over_clear_path() {
    let rook = piece(PieceColor::White, PieceType::Rook, 0, 0);
    let board = vec![rook];
    assert!(rook.is_move_valid((0, 5), &board));
    assert!(rook.is_move_valid((6, 0), &board));
    assert!(!rook.is_move_valid((3, 3), &board));
    assert!(!rook.is_move_valid((0, 0), &board));
    assert!(!rook.is_move_valid((2, 1), &board));
}

#[test]
fn blocker_between_flips_rook_move_to_illegal() {
    // Inserting a third piece strictly between start and destination
    // turns a previously legal sliding move illegal.
    let rook = piece(PieceColor::White, PieceType::Rook, 0, 0);
    let blocker = piece(PieceColor::Black, PieceType::Pawn, 0, 3);
    assert!(rook.is_move_valid((0, 5), &vec![rook]));
    assert!(!rook.is_move_valid((0, 5), &vec![rook, blocker]));
    let blocker_row = piece(PieceColor::Black, PieceType::Pawn, 4, 0);
    assert!(rook.is_move_valid((6, 0), &vec![rook]));
    assert!(!rook.is_move_valid((6, 0), &vec![rook, blocker_row]));
}

#[test]
fn bishop_moves_diagonally_over_clear_path() {
    let bishop = piece(PieceColor::White, PieceType::Bishop, 2, 2);
    let board = vec![bishop];
    assert!(bishop.is_move_valid((5, 5), &board));
    assert!(bishop.is_move_valid((0, 4), &board));
    assert!(bishop.is_move_valid((4, 0), &board));
    assert!(!bishop.is_move_valid((2, 6), &board));
    assert!(!bishop.is_move_valid((5, 2), &board));
    assert!(!bishop.is_move_valid((2, 2), &board));
}

#[test]
fn blocker_between_flips_bishop_move_to_illegal() {
    let bishop = piece(PieceColor::White, PieceType::Bishop, 2, 2);
    let blocker = piece(PieceColor::White, PieceType::Pawn, 3, 3);
    assert!(bishop.is_move_valid((5, 5), &vec![bishop]));
    assert!(!bishop.is_move_valid((5, 5), &vec![bishop, blocker]));
}

#[test]
fn queen_moves_straight_or_diagonally() {
    let queen = piece(PieceColor::White, PieceType::Queen, 3, 3);
    let board = vec![queen];
    assert!(queen.is_move_valid((3, 7), &board));
    assert!(queen.is_move_valid((0, 3), &board));
    assert!(queen.is_move_valid((6, 6), &board));
    assert!(queen.is_move_valid((0, 0), &board));
    assert!(!queen.is_move_valid((5, 2), &board));
    assert!(!queen.is_move_valid((4, 5), &board));
}

#[test]
fn blocker_between_flips_queen_move_to_illegal() {
    let queen = piece(PieceColor::White, PieceType::Queen, 3, 3);
    let blocker = piece(PieceColor::Black, PieceType::Knight, 3, 5);
    assert!(queen.is_move_valid((3, 7), &vec![queen]));
    assert!(!queen.is_move_valid((3, 7), &vec![queen, blocker]));
    let diag_blocker = piece(PieceColor::Black, PieceType::Knight, 5, 5);
    assert!(queen.is_move_valid((6, 6), &vec![queen]));
    assert!(!queen.is_move_valid((6, 6), &vec![queen, diag_blocker]));
}

#[test]
fn knight_is_never_blocked() {
    // Knight legality depends only on the (2,1)/(1,2) delta shape; a
    // fully crowded neighborhood changes nothing.
    let knight = piece(PieceColor::White, PieceType::Knight, 3, 3);
    let mut crowded = vec![knight];
    for (x, y) in [(2, 2), (2, 3), (2, 4), (3, 2), (3, 4), (4, 2), (4, 3), (4, 4)] {
        crowded.push(piece(PieceColor::Black, PieceType::Pawn, x, y));
    }
    assert!(knight.is_move_valid((5, 4), &crowded));
    assert!(knight.is_move_valid((5, 2), &crowded));
    assert!(knight.is_move_valid((1, 4), &crowded));
    assert!(knight.is_move_valid((1, 2), &crowded));
    assert!(knight.is_move_valid((4, 5), &crowded));
    assert!(knight.is_move_valid((2, 5), &crowded));
    assert!(knight.is_move_valid((4, 1), &crowded));
    assert!(knight.is_move_valid((2, 1), &crowded));
    assert!(!knight.is_move_valid((5, 5), &crowded));
    assert!(!knight.is_move_valid((4, 3), &crowded));
    assert!(!knight.is_move_valid((6, 3), &crowded));
}

#[test]
fn white_pawn_single_step_onto_empty_square() {
    let pawn = piece(PieceColor::White, PieceType::Pawn, 1, 4);
    assert!(pawn.is_move_valid((2, 4), &vec![pawn]));
    assert!(!pawn.is_move_valid((0, 4), &vec![pawn]));
    assert!(!pawn.is_move_valid((2, 5), &vec![pawn]));
}

#[test]
fn white_pawn_double_step_iff_both_squares_empty() {
    // From rank 1 to rank 3 iff the squares at ranks 2 and 3 on the same
    // file are both empty.
    let pawn = piece(PieceColor::White, PieceType::Pawn, 1, 4);
    assert!(pawn.is_move_valid((3, 4), &vec![pawn]));
    let mid_block = piece(PieceColor::Black, PieceType::Knight, 2, 4);
    assert!(!pawn.is_move_valid((3, 4), &vec![pawn, mid_block]));
    let dest_block = piece(PieceColor::Black, PieceType::Knight, 3, 4);
    assert!(!pawn.is_move_valid((3, 4), &vec![pawn, dest_block]));
    // Not from any other rank.
    let advanced = piece(PieceColor::White, PieceType::Pawn, 2, 4);
    assert!(!advanced.is_move_valid((4, 4), &vec![advanced]));
}

#[test]
fn pawn_cannot_capture_straight_ahead() {
    // An enemy straight ahead blocks the pawn instead of being captured.
    let pawn = piece(PieceColor::White, PieceType::Pawn, 1, 4);
    let enemy = piece(PieceColor::Black, PieceType::Pawn, 2, 4);
    assert!(!pawn.is_move_valid((2, 4), &vec![pawn, enemy]));
    let far_enemy = piece(PieceColor::Black, PieceType::Pawn, 3, 4);
    assert!(!pawn.is_move_valid((3, 4), &vec![pawn, far_enemy]));
}

#[test]
fn pawn_captures_diagonally_only_onto_an_enemy() {
    let pawn = piece(PieceColor::White, PieceType::Pawn, 1, 4);
    let enemy = piece(PieceColor::Black, PieceType::Rook, 2, 5);
    assert!(pawn.is_move_valid((2, 5), &vec![pawn, enemy]));
    // A diagonal step onto an empty square is not a move.
    assert!(!pawn.is_move_valid((2, 5), &vec![pawn]));
    assert!(!pawn.is_move_valid((2, 3), &vec![pawn]));
}

#[test]
fn black_pawn_advances_toward_smaller_ranks() {
    let pawn = piece(PieceColor::Black, PieceType::Pawn, 6, 4);
    assert!(pawn.is_move_valid((5, 4), &vec![pawn]));
    assert!(pawn.is_move_valid((4, 4), &vec![pawn]));
    assert!(!pawn.is_move_valid((7, 4), &vec![pawn]));
    let mid_block = piece(PieceColor::White, PieceType::Knight, 5, 4);
    assert!(!pawn.is_move_valid((4, 4), &vec![pawn, mid_block]));
    let advanced = piece(PieceColor::Black, PieceType::Pawn, 5, 4);
    assert!(!advanced.is_move_valid((3, 4), &vec![advanced]));
    let target = piece(PieceColor::White, PieceType::Bishop, 5, 3);
    assert!(pawn.is_move_valid((5, 3), &vec![pawn, target]));
    assert!(!pawn.is_move_valid((5, 5), &vec![pawn]));
}

#[test]
fn destinations_off_the_board_are_rejected() {
    let king = piece(PieceColor::White, PieceType::King, 7, 7);
    assert!(!king.is_move_valid((8, 7), &vec![king]));
    assert!(!king.is_move_valid((7, 8), &vec![king]));
    let rook = piece(PieceColor::White, PieceType::Rook, 0, 0);
    assert!(!rook.is_move_valid((0, 200), &vec![rook]));
}

#[test]
fn path_clear_ignores_endpoints_and_shapeless_pairs() {
    let rook = piece(PieceColor::White, PieceType::Rook, 0, 0);
    let at_destination = piece(PieceColor::Black, PieceType::Pawn, 0, 5);
    // The occupant of the destination itself never blocks the path.
    assert!(is_path_clear((0, 0), (0, 5), &vec![rook, at_destination]));
    // A pair on no common line or diagonal has no intermediate squares, so
    // the path counts as clear whatever stands around.
    let clutter = vec![
        piece(PieceColor::Black, PieceType::Pawn, 1, 1),
        piece(PieceColor::Black, PieceType::Pawn, 1, 2),
        piece(PieceColor::Black, PieceType::Pawn, 2, 2),
    ];
    assert!(is_path_clear((0, 0), (1, 3), &clutter));
}

#[test]
fn path_clear_sees_blockers_on_all_three_shapes() {
    let column_blocker = piece(PieceColor::White, PieceType::Pawn, 4, 3);
    assert!(!is_path_clear((4, 1), (4, 6), &vec![column_blocker]));
    let row_blocker = piece(PieceColor::White, PieceType::Pawn, 3, 4);
    assert!(!is_path_clear((1, 4), (6, 4), &vec![row_blocker]));
    let diagonal_blocker = piece(PieceColor::White, PieceType::Pawn, 3, 3);
    assert!(!is_path_clear((1, 1), (5, 5), &vec![diagonal_blocker]));
    assert!(!is_path_clear((5, 1), (1, 5), &vec![piece(
        PieceColor::White,
        PieceType::Pawn,
        2,
        4
    )]));
}

#[test]
fn occupancy_view_reports_piece_and_color() {
    let rook = piece(PieceColor::White, PieceType::Rook, 0, 0);
    let pawn = piece(PieceColor::Black, PieceType::Pawn, 6, 2);
    let board = vec![rook, pawn];
    assert_eq!(piece_at(&board, (0, 0)), Some(rook));
    assert_eq!(piece_at(&board, (6, 2)), Some(pawn));
    assert_eq!(piece_at(&board, (3, 3)), None);
    assert_eq!(square_color((0, 0), &board), Some(PieceColor::White));
    assert_eq!(square_color((6, 2), &board), Some(PieceColor::Black));
    assert_eq!(square_color((5, 5), &board), None);
}
