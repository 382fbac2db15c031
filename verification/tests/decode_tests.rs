use scidtopgn::decode::{
    decode_move_with_position, decode_pawn_promotion, map_scid_piece_number_to_actual,
    test_simple_move_decoding,
};
use scidtopgn::elements::{find_game_boundaries, parse_pgn_tags, GameElement, ParseError};
use scidtopgn::game::{parse_game_with_position_tracking, parse_game_with_variation_trees};
use scidtopgn::position::{ChessPosition, Color, PieceType};

/// Move byte 0x00 on the starting position is a king null move: piece
/// index 0, value 0, destination equal to source.
#[test]
fn test_king_null_move_byte() {
    let position = ChessPosition::starting_position();
    let (mv, notation) = decode_move_with_position(&0, &0, &0x00, &position).unwrap();
    assert_eq!(mv.from, mv.to);
    assert_eq!(mv.piece.piece_type, PieceType::King);
    assert_eq!(mv.piece.id, 0);
    assert_eq!(notation, "Kxe1"); // the null move "captures" its own square
}

/// Move byte for piece index 12 with value 15 is White's e-pawn double
/// push from e2 to e4.
#[test]
fn test_pawn_double_push_byte() {
    let position = ChessPosition::starting_position();
    let byte: u8 = (12 << 4) | 15;
    assert_eq!(byte, 0xCF);
    let (mv, notation) = decode_move_with_position(&12, &15, &byte, &position).unwrap();
    assert_eq!(mv.from.to_algebraic(), "e2");
    assert_eq!(mv.to.to_algebraic(), "e4");
    assert_eq!(mv.piece.piece_type, PieceType::Pawn);
    assert!(mv.captured_piece.is_none());
    assert_eq!(notation, "e4");
}

/// Every king move value 0-10 forms a move byte outside the reserved
/// marker range 11-15.
#[test]
fn test_king_move_bytes_avoid_markers() {
    for value in 0u8..=10 {
        let byte = (0u8 << 4) | (value & 15);
        assert!(byte < 11 || byte > 15, "king value {} collides with a marker", value);
    }
}

/// A stream that ends without the end-of-game byte is still fully
/// consumed into a complete element list.
#[test]
fn test_stream_without_terminator_fully_consumed() {
    // Empty tag section, flags byte, then three move bytes and no 15.
    let data: [u8; 5] = [0x00, 0x00, 0xC1, 0x10, 0x21];
    let state = parse_pgn_tags(&data).unwrap();
    assert_eq!(state.elements.len(), 3);
    for element in &state.elements {
        assert!(matches!(element, GameElement::Move { .. }));
    }
}

/// The element sequence `[VariationStart, move, VariationEnd]` after a
/// main-line move attaches a one-node subtree to that move.
#[test]
fn test_variation_attaches_to_preceding_move() {
    // Tags end, flags, main-line move (White e-pawn double push),
    // variation start, one move byte inside it, variation end, game end.
    let data: [u8; 7] = [0x00, 0x00, 0xCF, 13, 0xCF, 14, 15];
    let (tree, moves, notation) = parse_game_with_variation_trees(&data, 1).unwrap();

    assert_eq!(moves.len(), 1);
    assert_eq!(tree.main_line.len(), 1);
    assert_eq!(tree.current_depth, 0);
    assert_eq!(tree.main_line[0].variations.len(), 1);
    let subtree = &tree.main_line[0].variations[0];
    assert_eq!(subtree.main_line.len(), 1);
    assert!(subtree.main_line[0].variations.is_empty());

    // The variation move's notation is parenthesized.
    assert_eq!(notation.len(), 2);
    assert_eq!(notation[0], "e4");
    assert!(notation[1].starts_with('(') && notation[1].ends_with(')'));
}

/// Decoding the same byte slice twice from two freshly constructed
/// starting positions yields identical move and notation lists.
#[test]
fn test_decode_idempotence() {
    let data: [u8; 8] = [0x00, 0x00, 0xCF, 0xCF, 0x47, 0x4C, 0x21, 15];
    let first = parse_game_with_position_tracking(&data, 1).unwrap();
    let second = parse_game_with_position_tracking(&data, 2).unwrap();
    assert_eq!(first.0, second.0);
    assert_eq!(first.1, second.1);

    let t1 = parse_game_with_variation_trees(&data, 1).unwrap();
    let t2 = parse_game_with_variation_trees(&data, 2).unwrap();
    assert_eq!(t1.1, t2.1);
    assert_eq!(t1.2, t2.2);
}

/// Comments are read up to their null terminator; a missing terminator
/// is a structural error.
#[test]
fn test_comment_parsing() {
    let data: [u8; 8] = [0x00, 0x00, 12, b'h', b'i', 0, 0xCF, 15];
    let state = parse_pgn_tags(&data).unwrap();
    assert_eq!(state.elements.len(), 3);
    match &state.elements[0] {
        GameElement::Comment { text, offset } => {
            assert_eq!(text, "hi");
            assert_eq!(*offset, 2);
        },
        other => panic!("expected a comment, got {:?}", other),
    }

    let bad: [u8; 5] = [0x00, 0x00, 12, b'h', b'i'];
    assert!(matches!(parse_pgn_tags(&bad), Err(ParseError::UnterminatedComment)));
}

/// An annotation marker with no value byte, and a record with no flags
/// byte, are structural errors.
#[test]
fn test_structural_errors() {
    let truncated_nag: [u8; 3] = [0x00, 0x00, 11];
    assert!(matches!(parse_pgn_tags(&truncated_nag), Err(ParseError::MissingNagValue)));

    let no_flags: [u8; 1] = [0x00];
    assert!(matches!(parse_pgn_tags(&no_flags), Err(ParseError::MissingFlagsByte)));
}

/// Tags: a common tag coded as one byte, with a length-prefixed value.
#[test]
fn test_common_tag_parsing() {
    // 249 = the ECO common tag; value "B12"; then end of tags, flags, game end.
    let data: [u8; 9] = [249, 3, b'B', b'1', b'2', 0x00, 0x00, 15, 0];
    let state = parse_pgn_tags(&data[..8]).unwrap();
    assert_eq!(state.tags.len(), 1);
    assert_eq!(state.tags[0].name, "ECO");
    assert_eq!(state.tags[0].value, "B12");
    assert_eq!(state.flags.raw_value, 0);
}

/// The flags byte decodes its three low bits.
#[test]
fn test_game_flags_bits() {
    let data: [u8; 3] = [0x00, 0x07, 15];
    let state = parse_pgn_tags(&data).unwrap();
    assert!(state.flags.non_standard_start);
    assert!(state.flags.has_promotions);
    assert!(state.flags.has_under_promotions);
    assert_eq!(state.flags.raw_value, 7);
}

/// Game boundaries split at each end-of-game byte, with a trailing
/// record for leftover bytes.
#[test]
fn test_find_game_boundaries() {
    let data: [u8; 7] = [0x20, 15, 0x30, 0x40, 15, 0x50, 0x60];
    let boundaries = find_game_boundaries(&data);
    assert_eq!(boundaries, vec![(0, 2), (2, 5), (5, 7)]);

    let empty: [u8; 0] = [];
    assert!(find_game_boundaries(&empty).is_empty());
}

/// The piece-number resolver maps White directly and Black with an
/// offset of 16; indices above 15 are rejected.
#[test]
fn test_piece_number_resolution() {
    assert_eq!(map_scid_piece_number_to_actual(0, Color::White), Ok(0));
    assert_eq!(map_scid_piece_number_to_actual(15, Color::White), Ok(15));
    assert_eq!(map_scid_piece_number_to_actual(0, Color::Black), Ok(16));
    assert_eq!(map_scid_piece_number_to_actual(15, Color::Black), Ok(31));
    assert!(map_scid_piece_number_to_actual(16, Color::White).is_err());
}

/// Pawn move values carry their promotion piece in bands of three.
#[test]
fn test_pawn_promotion_bands() {
    assert_eq!(decode_pawn_promotion(1), None);
    assert_eq!(decode_pawn_promotion(4), Some(PieceType::Queen));
    assert_eq!(decode_pawn_promotion(7), Some(PieceType::Rook));
    assert_eq!(decode_pawn_promotion(10), Some(PieceType::Bishop));
    assert_eq!(decode_pawn_promotion(13), Some(PieceType::Knight));
    assert_eq!(decode_pawn_promotion(15), None);
}

/// A capture decode records the destination's occupant and prints `x`.
#[test]
fn test_capture_notation() {
    // e2-e3, d7-d6, e3-e4, d6-d5, e4xd5 (White e-pawn captures left).
    let data: [u8; 8] = [0x00, 0x00, 0xC1, 0x81, 0xC1, 0x81, 0xC0, 15];
    let (moves, notation) = parse_game_with_position_tracking(&data, 1).unwrap();
    assert_eq!(moves.len(), 5);
    assert!(moves[4].captured_piece.is_some());
    assert_eq!(notation[4], "xd5");
}

/// The readable one-move summary names the piece and its move value.
#[test]
fn test_simple_move_decoding_output() {
    let text = test_simple_move_decoding(12, 15).unwrap();
    assert_eq!(text, "P12 (Pawn): e4 (pawn double push)");

    let king = test_simple_move_decoding(0, 10).unwrap();
    assert_eq!(king, "P0 (King): O-O (kingside castling)");

    assert!(test_simple_move_decoding(40, 1).is_err());
}
