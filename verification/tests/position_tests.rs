use scidtopgn::position::{ChessPosition, Color, Move, PieceType, Square};

#[test]
fn test_square_creation() {
    let square = Square::from_algebraic("e4").unwrap();
    assert_eq!(square.file(), 4); // e-file
    assert_eq!(square.rank(), 3); // 4th rank (0-indexed)
    assert_eq!(square.to_algebraic(), "e4");
}

#[test]
fn test_starting_position() {
    let position = ChessPosition::starting_position();

    // Test white king on e1
    let e1 = Square::from_algebraic("e1").unwrap();
    let king = position.get_piece_at(e1).unwrap();
    assert_eq!(king.piece_type, PieceType::King);
    assert_eq!(king.color, Color::White);

    // Test piece location tracking
    assert_eq!(position.get_piece_location(0), Some(e1)); // King should be piece 0
}

#[test]
fn test_position_display() {
    let position = ChessPosition::starting_position();
    let board_display = position.display_board();
    assert!(board_display.contains("r n b q k b n r")); // Black back rank
    assert!(board_display.contains("R N B Q K B N R")); // White back rank
}

#[test]
fn test_starting_position_all_pieces_tracked() {
    let position = ChessPosition::starting_position();
    // All 32 stable ids are tracked, and each tracked square's occupant
    // carries the id that points at it.
    for id in 0u8..32 {
        let square = position
            .get_piece_location(id)
            .expect("every starting piece has a tracked square");
        let piece = position
            .get_piece_at(square)
            .expect("every tracked square is occupied");
        assert_eq!(piece.id, id);
    }
    // Ids out of range are not tracked.
    assert_eq!(position.get_piece_location(32), None);
    assert_eq!(position.get_piece_by_number(40), None);
}

#[test]
fn test_apply_move_no_capture() {
    let mut position = ChessPosition::starting_position();
    let from = Square::from_algebraic("e2").unwrap();
    let to = Square::from_algebraic("e4").unwrap();
    let pawn = position.get_piece_at(from).unwrap();

    // Destination is empty before the move.
    assert!(position.get_piece_at(to).is_none());

    let mv = Move::new(from, to, pawn);
    position.apply_move(&mv).unwrap();

    // Destination holds exactly the moved piece, source is empty.
    let moved = position.get_piece_at(to).unwrap();
    assert_eq!(moved.id, pawn.id);
    assert_eq!(moved.piece_type, PieceType::Pawn);
    assert_eq!(moved.color, Color::White);
    assert!(position.get_piece_at(from).is_none());
    assert_eq!(position.to_move, Color::Black);
    assert_eq!(position.half_moves, 0);
    assert_eq!(position.full_moves, 1);
}

#[test]
fn test_apply_move_identity_mismatch() {
    let mut position = ChessPosition::starting_position();
    let from = Square::from_algebraic("e2").unwrap();
    let to = Square::from_algebraic("e3").unwrap();
    let mut pawn = position.get_piece_at(from).unwrap();
    pawn.id = 31; // claim the wrong identity
    let mv = Move::new(from, to, pawn);
    assert!(position.apply_move(&mv).is_err());
}

#[test]
fn test_apply_move_empty_source() {
    let mut position = ChessPosition::starting_position();
    let from = Square::from_algebraic("e4").unwrap();
    let to = Square::from_algebraic("e5").unwrap();
    let pawn = position
        .get_piece_at(Square::from_algebraic("e2").unwrap())
        .unwrap();
    let mv = Move::new(from, to, pawn);
    assert!(position.apply_move(&mv).is_err());
}

#[test]
fn test_square_new_rejects_out_of_range() {
    assert!(Square::new(8, 0).is_err());
    assert!(Square::new(0, 8).is_err());
    assert!(Square::from_algebraic("i1").is_err());
    assert!(Square::from_algebraic("a9").is_err());
    assert!(Square::from_algebraic("e44").is_err());
}

#[test]
fn test_castling_rights_updates() {
    let mut position = ChessPosition::starting_position();
    assert!(position.castling_rights.can_castle(Color::White, true));

    // Move the white king: both of White's rights disappear.
    let e1 = Square::from_algebraic("e1").unwrap();
    let e2 = Square::from_algebraic("e2").unwrap();
    let pawn = position.get_piece_at(e2).unwrap();
    let fwd = Move::new(e2, Square::from_algebraic("e3").unwrap(), pawn);
    position.apply_move(&fwd).unwrap();

    let king = position.get_piece_at(e1).unwrap();
    // A quiet king step (the e2 square is now free).
    let mv = Move::new(e1, e2, king);
    position.apply_move(&mv).unwrap();
    assert!(!position.castling_rights.can_castle(Color::White, true));
    assert!(!position.castling_rights.can_castle(Color::White, false));
    assert!(position.castling_rights.can_castle(Color::Black, true));
}

#[test]
fn test_double_push_sets_en_passant_target() {
    let mut position = ChessPosition::starting_position();
    let from = Square::from_algebraic("e2").unwrap();
    let to = Square::from_algebraic("e4").unwrap();
    let pawn = position.get_piece_at(from).unwrap();
    position.apply_move(&Move::new(from, to, pawn)).unwrap();
    assert_eq!(
        position.en_passant_target,
        Some(Square::from_algebraic("e3").unwrap())
    );
}

#[test]
fn test_find_king() {
    let position = ChessPosition::starting_position();
    assert_eq!(
        position.find_king(Color::White),
        Some(Square::from_algebraic("e1").unwrap())
    );
    assert_eq!(
        position.find_king(Color::Black),
        Some(Square::from_algebraic("e8").unwrap())
    );
    assert!(!position.is_king_in_check(Color::White));
}
