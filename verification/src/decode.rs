//! Position-aware move decoding.
//!
//! A move byte names a piece by its index relative to the side to move
//! and a 4-bit move value.  Decoding resolves the index to a stable
//! piece id, looks the piece up in the position, computes the
//! destination square by a piece-type-specific rule, detects captures
//! and special moves, and renders algebraic notation.

use vstd::prelude::*;

use crate::position::{
    ChessPosition, Color, Move, Piece, PieceType, PosModel, Square, spec_file_char,
};
use crate::strutil::{append_decimal, push_char, spec_decimal};

verus! {

/// Errors raised while decoding a single move against a position.
/// Decode errors are recoverable: the caller skips the move and goes
/// on with the next element.
#[derive(Debug, Clone, Copy, PartialEq, Eq, Structural)]
pub enum DecodeError {
    /// The relative piece index is outside 0-15.
    InvalidPieceNumber,
    /// The resolved piece is no longer on the board.
    PieceNotFound,
    /// The resolved piece has no tracked location.
    LocationNotTracked,
    /// A castling move value with the king away from its home rank.
    CastlingNotOnHomeRank,
    /// The computed destination lies outside the board.
    TargetOutOfBounds,
    /// A move value with no meaning for this piece type.
    InvalidMoveValue,
    /// A multi-byte decode was asked for with fewer than two bytes.
    MultiByteTooShort,
    /// A multi-byte destination outside the board.
    InvalidMultiByteTarget,
}

/// Map a relative piece index (0-15, meaningful only for the side to
/// move) to a stable id: White maps directly, Black is offset by 16.
pub open spec fn spec_map_piece_number(n: u8, to_move: Color) -> Result<u8, DecodeError> {
    if n < 16 {
        if to_move == Color::White {
            Ok(n)
        } else {
            Ok((n + 16) as u8)
        }
    } else {
        Err(DecodeError::InvalidPieceNumber)
    }
}

/// Resolve a relative piece index against the side to move: White's
/// indices are the stable ids 0-15, Black's the ids 16-31.  Indices
/// above 15 are a decode error.
pub fn map_scid_piece_number_to_actual(scid_piece_num: u8, to_move: Color) -> (r: Result<
    u8,
    DecodeError,
>)
    ensures
        r == spec_map_piece_number(scid_piece_num, to_move),
{
    if scid_piece_num < 16 {
        match to_move {
            Color::White => Ok(scid_piece_num),
            Color::Black => Ok(scid_piece_num + 16),
        }
    } else {
        Err(DecodeError::InvalidPieceNumber)
    }
}

/// The king's square-number offset for each move value: no movement,
/// the eight adjacent squares, then the two castling jumps.
pub open spec fn spec_king_diff(v: int) -> int {
    if v == 0 {
        0
    } else if v == 1 {
        -9
    } else if v == 2 {
        -8
    } else if v == 3 {
        -7
    } else if v == 4 {
        -1
    } else if v == 5 {
        1
    } else if v == 6 {
        7
    } else if v == 7 {
        8
    } else if v == 8 {
        9
    } else if v == 9 {
        -2
    } else {
        2
    }
}

/// Destination of a king move: values 10 and 11 are the castling
/// destinations on the king's home rank, values 0-10 use the offset
/// table, anything else is invalid.
pub open spec fn spec_decode_king_target(v: u8, from: Square) -> Result<Square, DecodeError> {
    if v == 10 {
        if from.0 / 8 == 0 {
            Ok(Square(6))
        } else if from.0 / 8 == 7 {
            Ok(Square(62))
        } else {
            Err(DecodeError::CastlingNotOnHomeRank)
        }
    } else if v == 11 {
        if from.0 / 8 == 0 {
            Ok(Square(2))
        } else if from.0 / 8 == 7 {
            Ok(Square(58))
        } else {
            Err(DecodeError::CastlingNotOnHomeRank)
        }
    } else if v <= 10 {
        let t = from.0 + spec_king_diff(v as int);
        if 0 <= t < 64 {
            Ok(Square(t as u8))
        } else {
            Err(DecodeError::TargetOutOfBounds)
        }
    } else {
        Err(DecodeError::InvalidMoveValue)
    }
}

/// Decode a king's destination square.  Value 10 is kingside castling
/// (g-file), 11 queenside (c-file), both only from the home rank;
/// values 0-10 are the offset table, with off-board results rejected.
pub fn decode_king_target(move_value: u8, from_square: Square) -> (r: Result<Square, DecodeError>)
    requires
        from_square.0 < 64,
    ensures
        r == spec_decode_king_target(move_value, from_square),
        r matches Ok(sq) ==> sq.0 < 64,
{
    if move_value == 10 {
        // Kingside castling: the king lands on the g-file.
        match from_square.rank() {
            0 => Ok(Square(6)),
            7 => Ok(Square(62)),
            _ => Err(DecodeError::CastlingNotOnHomeRank),
        }
    } else if move_value == 11 {
        // Queenside castling: the king lands on the c-file.
        match from_square.rank() {
            0 => Ok(Square(2)),
            7 => Ok(Square(58)),
            _ => Err(DecodeError::CastlingNotOnHomeRank),
        }
    } else if move_value <= 10 {
        let diff: i8 = match move_value {
            0 => 0,
            1 => -9,
            2 => -8,
            3 => -7,
            4 => -1,
            5 => 1,
            6 => 7,
            7 => 8,
            8 => 9,
            9 => -2,
            _ => 2,
        };
        let target: i8 = (from_square.0 as i8) + diff;
        if target >= 0 && target < 64 {
            Ok(Square(target as u8))
        } else {
            Err(DecodeError::TargetOutOfBounds)
        }
    } else {
        Err(DecodeError::InvalidMoveValue)
    }
}

/// Destination of a rook move: values 8-15 go vertically to rank
/// `value - 8` on the same file, values 0-7 horizontally to file
/// `value` on the same rank.
pub open spec fn spec_decode_rook_target(v: u8, from: Square) -> Result<Square, DecodeError> {
    if v >= 8 {
        Ok(Square((((v - 8) * 8) + from.0 % 8) as u8))
    } else {
        Ok(Square(((from.0 / 8) * 8 + v) as u8))
    }
}

/// Decode a rook's destination square; always on the board for a
/// 4-bit move value.
pub fn decode_rook_target(move_value: u8, from_square: Square) -> (r: Result<Square, DecodeError>)
    requires
        from_square.0 < 64,
        move_value < 16,
    ensures
        r == spec_decode_rook_target(move_value, from_square),
        r matches Ok(sq) ==> sq.0 < 64,
{
    if move_value >= 8 {
        let target_rank = move_value - 8;
        match Square::new(from_square.file(), target_rank) {
            Ok(sq) => Ok(sq),
            Err(_) => Err(DecodeError::TargetOutOfBounds),
        }
    } else {
        match Square::new(move_value, from_square.rank()) {
            Ok(sq) => Ok(sq),
            Err(_) => Err(DecodeError::TargetOutOfBounds),
        }
    }
}

/// Destination of a bishop move: file taken from the low three bits,
/// rank kept.  (An approximation reconstructed from samples: the
/// direction bit is not yet interpreted.)
pub open spec fn spec_decode_bishop_target(v: u8, from: Square) -> Result<Square, DecodeError> {
    Ok(Square(((from.0 / 8) * 8 + (v & 7)) as u8))
}

/// Decode a bishop's destination square.
pub fn decode_bishop_target(move_value: u8, from_square: Square) -> (r: Result<
    Square,
    DecodeError,
>)
    requires
        from_square.0 < 64,
    ensures
        r == spec_decode_bishop_target(move_value, from_square),
        r matches Ok(sq) ==> sq.0 < 64,
{
    let target_file = move_value & 7;
    assert(target_file < 8) by (bit_vector)
        requires
            target_file == move_value & 7,
    ;
    match Square::new(target_file, from_square.rank()) {
        Ok(sq) => Ok(sq),
        Err(_) => Err(DecodeError::TargetOutOfBounds),
    }
}

/// The knight's square-number offset for each move value: the eight
/// canonical L-shaped jumps for 1-8, speculative extended offsets for
/// 9-15.
pub open spec fn spec_knight_diff(v: int) -> int {
    if v == 0 {
        0
    } else if v == 1 {
        -17
    } else if v == 2 {
        -15
    } else if v == 3 {
        -10
    } else if v == 4 {
        -6
    } else if v == 5 {
        6
    } else if v == 6 {
        10
    } else if v == 7 {
        15
    } else if v == 8 {
        17
    } else if v == 9 {
        -33
    } else if v == 10 {
        -31
    } else if v == 11 {
        -19
    } else if v == 12 {
        -13
    } else if v == 13 {
        13
    } else if v == 14 {
        19
    } else {
        33
    }
}

/// Destination of a knight move via the offset table, rejected when it
/// leaves the board.
pub open spec fn spec_decode_knight_target(v: u8, from: Square) -> Result<Square, DecodeError> {
    let t = from.0 + spec_knight_diff(v as int);
    if 0 <= t < 64 {
        Ok(Square(t as u8))
    } else {
        Err(DecodeError::TargetOutOfBounds)
    }
}

/// Decode a knight's destination square from the L-shape offset table.
pub fn decode_knight_target(move_value: u8, from_square: Square) -> (r: Result<
    Square,
    DecodeError,
>)
    requires
        from_square.0 < 64,
        move_value < 16,
    ensures
        r == spec_decode_knight_target(move_value, from_square),
        r matches Ok(sq) ==> sq.0 < 64,
{
    let diff: i8 = match move_value {
        0 => 0,
        1 => -17,
        2 => -15,
        3 => -10,
        4 => -6,
        5 => 6,
        6 => 10,
        7 => 15,
        8 => 17,
        9 => -33,
        10 => -31,
        11 => -19,
        12 => -13,
        13 => 13,
        14 => 19,
        _ => 33,
    };
    let target: i8 = (from_square.0 as i8) + diff;
    if target >= 0 && target < 64 {
        Ok(Square(target as u8))
    } else {
        Err(DecodeError::TargetOutOfBounds)
    }
}

/// The base direction (0 capture-left, 1 forward, 2 capture-right)
/// that a pawn move value repeats through its promotion bands.
pub open spec fn spec_pawn_base(v: u8) -> u8 {
    if 3 <= v <= 5 {
        (v - 3) as u8
    } else if 6 <= v <= 8 {
        (v - 6) as u8
    } else if 9 <= v <= 11 {
        (v - 9) as u8
    } else if 12 <= v <= 14 {
        (v - 12) as u8
    } else {
        v
    }
}

/// Destination of a pawn move: value 15 is a double forward push;
/// everything else moves one rank (sign by color) with the file
/// shifted left, kept, or shifted right.  Off-board results are
/// rejected.
pub open spec fn spec_decode_pawn_target(v: u8, from: Square, color: Color) -> Result<
    Square,
    DecodeError,
> {
    let dir: int = if color == Color::White {
        1
    } else {
        -1
    };
    let base = spec_pawn_base(v);
    let nf: int = if v == 15 {
        (from.0 % 8) as int
    } else if base == 0 {
        from.0 % 8 - 1
    } else if base == 1 {
        (from.0 % 8) as int
    } else {
        from.0 % 8 + 1
    };
    let nr: int = if v == 15 {
        from.0 / 8 + 2 * dir
    } else {
        from.0 / 8 + dir
    };
    if 0 <= nf < 8 && 0 <= nr < 8 {
        Ok(Square((nr * 8 + nf) as u8))
    } else {
        Err(DecodeError::TargetOutOfBounds)
    }
}

/// Decode a pawn's destination square; the color of the pawn on the
/// source square chooses the direction sign.  An empty source square
/// is a decode error.
pub fn decode_pawn_target(move_value: u8, from_square: Square, position: &ChessPosition) -> (r:
    Result<Square, DecodeError>)
    requires
        position@.board.len() == 64,
        from_square.0 < 64,
        move_value < 16,
    ensures
        r == (match position@.board[from_square.0 as int] {
            Some(piece) => spec_decode_pawn_target(move_value, from_square, piece.color),
            None => Err(DecodeError::PieceNotFound),
        }),
        r matches Ok(sq) ==> sq.0 < 64,
{
    let piece = match position.get_piece_at(from_square) {
        Some(p) => p,
        None => {
            return Err(DecodeError::PieceNotFound);
        },
    };

    let white = piece.color == Color::White;
    let file = from_square.file();
    let rank = from_square.rank();

    let base = if move_value == 15 {
        15u8
    } else if move_value >= 12 {
        move_value - 12
    } else if move_value >= 9 {
        move_value - 9
    } else if move_value >= 6 {
        move_value - 6
    } else if move_value >= 3 {
        move_value - 3
    } else {
        move_value
    };

    let nf: i8 = if base == 15 {
        file as i8
    } else if base == 0 {
        (file as i8) - 1
    } else if base == 1 {
        file as i8
    } else {
        (file as i8) + 1
    };
    let nr: i8 = if base == 15 {
        if white {
            (rank as i8) + 2
        } else {
            (rank as i8) - 2
        }
    } else {
        if white {
            (rank as i8) + 1
        } else {
            (rank as i8) - 1
        }
    };

    if nf >= 0 && nf < 8 && nr >= 0 && nr < 8 {
        Ok(Square((nr as u8) * 8 + (nf as u8)))
    } else {
        Err(DecodeError::TargetOutOfBounds)
    }
}

/// Destination of a single-byte queen move: the rook rule, as an
/// approximation; true diagonal moves use the multi-byte path.
pub open spec fn spec_decode_queen_target(v: u8, from: Square) -> Result<Square, DecodeError> {
    spec_decode_rook_target(v, from)
}

/// Decode a single-byte queen move with the rook rule.
pub fn decode_queen_target(move_value: u8, from_square: Square, _position: &ChessPosition) -> (r:
    Result<Square, DecodeError>)
    requires
        from_square.0 < 64,
        move_value < 16,
    ensures
        r == spec_decode_queen_target(move_value, from_square),
        r matches Ok(sq) ==> sq.0 < 64,
{
    decode_rook_target(move_value, from_square)
}

/// Destination square for any piece type, dispatching to the
/// type-specific rule.
pub open spec fn spec_decode_target(piece_type: PieceType, v: u8, from: Square, p: PosModel) -> Result<
    Square,
    DecodeError,
> {
    match piece_type {
        PieceType::King => spec_decode_king_target(v, from),
        PieceType::Queen => spec_decode_queen_target(v, from),
        PieceType::Rook => spec_decode_rook_target(v, from),
        PieceType::Bishop => spec_decode_bishop_target(v, from),
        PieceType::Knight => spec_decode_knight_target(v, from),
        PieceType::Pawn => match p.board[from.0 as int] {
            Some(piece) => spec_decode_pawn_target(v, from, piece.color),
            None => Err(DecodeError::PieceNotFound),
        },
    }
}

/// Decode the destination square for a piece of any type.
pub fn decode_target_square(
    piece_type: PieceType,
    move_value: u8,
    from_square: Square,
    position: &ChessPosition,
) -> (r: Result<Square, DecodeError>)
    requires
        position@.board.len() == 64,
        from_square.0 < 64,
        move_value < 16,
    ensures
        r == spec_decode_target(piece_type, move_value, from_square, position@),
        r matches Ok(sq) ==> sq.0 < 64,
{
    match piece_type {
        PieceType::King => decode_king_target(move_value, from_square),
        PieceType::Queen => decode_queen_target(move_value, from_square, position),
        PieceType::Rook => decode_rook_target(move_value, from_square),
        PieceType::Bishop => decode_bishop_target(move_value, from_square),
        PieceType::Knight => decode_knight_target(move_value, from_square),
        PieceType::Pawn => decode_pawn_target(move_value, from_square, position),
    }
}

} // verus!

verus! {

/// A king move of exactly two files out of the home file is castling.
pub open spec fn spec_is_castling_move(piece_type: PieceType, from: Square, to: Square) -> bool {
    piece_type == PieceType::King && from.0 % 8 == 4 && (to.0 % 8 == 6 || to.0 % 8 == 2)
}

/// Whether a move has the shape of castling: a king leaving the e-file
/// for the g-file or the c-file.
pub fn is_castling_move(piece_type: PieceType, from_square: Square, to_square: Square) -> (r: bool)
    ensures
        r == spec_is_castling_move(piece_type, from_square, to_square),
{
    piece_type == PieceType::King && from_square.file() == 4 && (to_square.file() == 6
        || to_square.file() == 2)
}

/// Whether the rook needed for this castling stands on its home
/// square: chosen by the moving color (the source square's occupant,
/// White when the square is empty) and the wing.
pub open spec fn spec_is_castling_legal(from: Square, to: Square, p: PosModel) -> bool {
    let kingside = to.0 % 8 == 6;
    let color = match p.board[from.0 as int] {
        Some(piece) => piece.color,
        None => Color::White,
    };
    let rook_sq: int = if color == Color::White {
        if kingside {
            7
        } else {
            0
        }
    } else {
        if kingside {
            63
        } else {
            56
        }
    };
    match p.board[rook_sq] {
        Some(rook) => rook.piece_type == PieceType::Rook && rook.color == color,
        None => false,
    }
}

/// Check that the rook required for a castling move is present with
/// the right type and color.
pub fn is_castling_legal(from_square: Square, to_square: Square, position: &ChessPosition) -> (r:
    bool)
    requires
        position@.board.len() == 64,
        from_square.0 < 64,
    ensures
        r == spec_is_castling_legal(from_square, to_square, position@),
{
    let is_kingside = to_square.file() == 6;
    let color = match position.get_piece_at(from_square) {
        Some(p) => p.color,
        None => Color::White,
    };

    let rook_square: Square = if color == Color::White {
        if is_kingside {
            Square(7)
        } else {
            Square(0)
        }
    } else {
        if is_kingside {
            Square(63)
        } else {
            Square(56)
        }
    };

    if let Some(rook) = position.get_piece_at(rook_square) {
        rook.piece_type == PieceType::Rook && rook.color == color
    } else {
        false
    }
}

/// A pawn landing on the tracked en-passant target with a file change
/// captures en passant.
pub open spec fn spec_is_en_passant_move(
    piece_type: PieceType,
    from: Square,
    to: Square,
    p: PosModel,
) -> bool {
    piece_type == PieceType::Pawn && p.ep == Some(to) && from.0 % 8 != to.0 % 8
}

/// Whether a move is an en-passant capture.
pub fn is_en_passant_move(
    piece_type: PieceType,
    from_square: Square,
    to_square: Square,
    position: &ChessPosition,
) -> (r: bool)
    ensures
        r == spec_is_en_passant_move(piece_type, from_square, to_square, position@),
{
    piece_type == PieceType::Pawn && position.en_passant_target == Some(to_square)
        && from_square.file() != to_square.file()
}

/// The promotion piece a pawn move value encodes: three consecutive
/// values for each of queen, rook, bishop and knight; none otherwise.
pub open spec fn spec_pawn_promotion(v: u8) -> Option<PieceType> {
    if 3 <= v <= 5 {
        Some(PieceType::Queen)
    } else if 6 <= v <= 8 {
        Some(PieceType::Rook)
    } else if 9 <= v <= 11 {
        Some(PieceType::Bishop)
    } else if 12 <= v <= 14 {
        Some(PieceType::Knight)
    } else {
        None
    }
}

/// Decode the promotion piece from a pawn move value.
pub fn decode_pawn_promotion(move_value: u8) -> (r: Option<PieceType>)
    ensures
        r == spec_pawn_promotion(move_value),
{
    if 3 <= move_value && move_value <= 5 {
        Some(PieceType::Queen)
    } else if 6 <= move_value && move_value <= 8 {
        Some(PieceType::Rook)
    } else if 9 <= move_value && move_value <= 11 {
        Some(PieceType::Bishop)
    } else if 12 <= move_value && move_value <= 14 {
        Some(PieceType::Knight)
    } else {
        None
    }
}

/// The algebraic-notation letter for a piece type; empty for a pawn.
pub open spec fn spec_piece_letter(t: PieceType) -> Seq<char> {
    match t {
        PieceType::King => "K"@,
        PieceType::Queen => "Q"@,
        PieceType::Rook => "R"@,
        PieceType::Bishop => "B"@,
        PieceType::Knight => "N"@,
        PieceType::Pawn => Seq::<char>::empty(),
    }
}

/// The promotion suffix of a move, `=Q/=R/=B/=N`, empty otherwise.
pub open spec fn spec_promotion_suffix(promotion: Option<PieceType>) -> Seq<char> {
    match promotion {
        Some(PieceType::Queen) => "=Q"@,
        Some(PieceType::Rook) => "=R"@,
        Some(PieceType::Bishop) => "=B"@,
        Some(PieceType::Knight) => "=N"@,
        _ => Seq::<char>::empty(),
    }
}

/// Basic algebraic notation for a move: `O-O`/`O-O-O` for castling,
/// else piece letter, `x` on a capture, the destination square and any
/// promotion suffix.  Disambiguation is not performed.
pub open spec fn spec_basic_notation(m: Move) -> Seq<char> {
    if m.is_castling {
        if m.to.0 % 8 > m.from.0 % 8 {
            "O-O"@
        } else {
            "O-O-O"@
        }
    } else {
        spec_piece_letter(m.piece.piece_type) + (if m.captured_piece is Some {
            "x"@
        } else {
            Seq::<char>::empty()
        }) + m.to.spec_algebraic() + spec_promotion_suffix(m.promotion)
    }
}

/// Render basic algebraic notation for a decoded move against the
/// position before it is applied.
pub fn generate_basic_algebraic_notation(chess_move: &Move, _position: &ChessPosition) -> (r:
    Result<String, DecodeError>)
    requires
        chess_move.to.0 < 64,
    ensures
        r matches Ok(s) && s@ == spec_basic_notation(*chess_move),
{
    if chess_move.is_castling {
        let mut s = String::new();
        if chess_move.to.file() > chess_move.from.file() {
            s.append("O-O");
        } else {
            s.append("O-O-O");
        }
        return Ok(s);
    }

    let mut s = String::new();
    match chess_move.piece.piece_type {
        PieceType::King => s.append("K"),
        PieceType::Queen => s.append("Q"),
        PieceType::Rook => s.append("R"),
        PieceType::Bishop => s.append("B"),
        PieceType::Knight => s.append("N"),
        PieceType::Pawn => (),
    }
    if chess_move.captured_piece.is_some() {
        s.append("x");
    }
    let sq = chess_move.to.to_algebraic();
    s.append(sq.as_str());
    match chess_move.promotion {
        Some(PieceType::Queen) => s.append("=Q"),
        Some(PieceType::Rook) => s.append("=R"),
        Some(PieceType::Bishop) => s.append("=B"),
        Some(PieceType::Knight) => s.append("=N"),
        _ => (),
    }
    proof {
        assert(s@ =~= spec_basic_notation(*chess_move));
    }
    Ok(s)
}

/// The move and notation that single-byte decoding yields for a
/// relative piece index and move value against a position, or the
/// decode error.
pub open spec fn spec_decode_move(n: u8, v: u8, p: PosModel) -> Result<
    (Move, Seq<char>),
    DecodeError,
> {
    match spec_map_piece_number(n, p.to_move) {
        Err(e) => Err(e),
        Ok(id) => match p.piece_by_number(id) {
            None => Err(DecodeError::PieceNotFound),
            Some(piece) => match p.piece_location(id) {
                None => Err(DecodeError::LocationNotTracked),
                Some(from) => match spec_decode_target(piece.piece_type, v, from, p) {
                    Err(e) => Err(e),
                    Ok(to) => {
                        let m = Move {
                            from,
                            to,
                            piece,
                            captured_piece: p.board[to.0 as int],
                            promotion: if piece.piece_type == PieceType::Pawn {
                                spec_pawn_promotion(v)
                            } else {
                                None
                            },
                            is_castling: spec_is_castling_move(piece.piece_type, from, to)
                                && spec_is_castling_legal(from, to, p),
                            is_en_passant: spec_is_en_passant_move(piece.piece_type, from, to, p),
                            gives_check: false,
                            is_checkmate: false,
                        };
                        Ok((m, spec_basic_notation(m)))
                    },
                },
            },
        },
    }
}

/// Whether an executable decode result agrees with a spec-level one.
pub open spec fn decode_result_matches(
    r: Result<(Move, String), DecodeError>,
    s: Result<(Move, Seq<char>), DecodeError>,
) -> bool {
    match (r, s) {
        (Ok((m1, n1)), Ok((m2, n2))) => m1 == m2 && n1@ == n2,
        (Err(e1), Err(e2)) => e1 == e2,
        _ => false,
    }
}

/// Decode one move byte against the position: resolve the relative
/// piece index, look the piece up, compute the destination, record any
/// capture, detect castling (demoted when no legal rook is present),
/// en passant and promotion, and render notation.
pub fn decode_move_with_position(
    piece_num: &u8,
    move_value: &u8,
    raw_byte: &u8,
    position: &ChessPosition,
) -> (r: Result<(Move, String), DecodeError>)
    requires
        position.bounds_ok(),
        *move_value < 16,
    ensures
        decode_result_matches(r, spec_decode_move(*piece_num, *move_value, position@)),
        r matches Ok(t) ==> t.0.from.0 < 64 && t.0.to.0 < 64 && (t.0.is_en_passant
            ==> position@.ep == Some(t.0.to)),
{
    let actual_piece_id = match map_scid_piece_number_to_actual(*piece_num, position.to_move) {
        Ok(id) => id,
        Err(e) => {
            return Err(e);
        },
    };

    let piece = match position.get_piece_by_number(actual_piece_id) {
        Some(p) => p,
        None => {
            return Err(DecodeError::PieceNotFound);
        },
    };

    let from_square = match position.get_piece_location(actual_piece_id) {
        Some(sq) => sq,
        None => {
            return Err(DecodeError::LocationNotTracked);
        },
    };

    let to_square = match decode_target_square(piece.piece_type, *move_value, from_square, position)
        {
        Ok(sq) => sq,
        Err(e) => {
            return Err(e);
        },
    };

    let mut chess_move = Move::new(from_square, to_square, piece);

    if let Some(captured_piece) = position.get_piece_at(to_square) {
        chess_move.captured_piece = Some(captured_piece);
    }

    chess_move.is_castling = is_castling_move(piece.piece_type, from_square, to_square)
        && is_castling_legal(from_square, to_square, position);
    chess_move.is_en_passant = is_en_passant_move(piece.piece_type, from_square, to_square, position);

    if piece.piece_type == PieceType::Pawn {
        chess_move.promotion = decode_pawn_promotion(*move_value);
    }

    let algebraic_notation = match generate_basic_algebraic_notation(&chess_move, position) {
        Ok(s) => s,
        Err(e) => {
            return Err(e);
        },
    };

    Ok((chess_move, algebraic_notation))
}

} // verus!

verus! {

/// Destination of a two-byte queen move: the two bytes combine into a
/// 16-bit value whose low nibble is the file and next nibble the rank.
pub open spec fn spec_decode_multi_queen_target(bytes: Seq<u8>) -> Result<Square, DecodeError> {
    if bytes.len() < 2 {
        Err(DecodeError::MultiByteTooShort)
    } else {
        let ext = ((bytes[0] as u16) << 8u16) | (bytes[1] as u16);
        let tf = (ext & 0x0F) as u8;
        let tr = ((ext >> 4u16) & 0x0F) as u8;
        if tf < 8 && tr < 8 {
            Ok(Square((tr * 8 + tf) as u8))
        } else {
            Err(DecodeError::InvalidMultiByteTarget)
        }
    }
}

/// Decode a two-byte queen destination (long diagonal moves).
pub fn decode_multi_byte_queen_target(move_value: u8, move_bytes: &[u8], from_square: Square) -> (r:
    Result<Square, DecodeError>)
    ensures
        r == spec_decode_multi_queen_target(move_bytes@),
        r matches Ok(sq) ==> sq.0 < 64,
{
    if move_bytes.len() < 2 {
        return Err(DecodeError::MultiByteTooShort);
    }

    let first_byte = move_bytes[0];
    let second_byte = move_bytes[1];

    let extended_target: u16 = ((first_byte as u16) << 8u16) | (second_byte as u16);
    let target_file = (extended_target & 0x0F) as u8;
    let target_rank = ((extended_target >> 4u16) & 0x0F) as u8;

    if target_file < 8 && target_rank < 8 {
        match Square::new(target_file, target_rank) {
            Ok(sq) => Ok(sq),
            Err(_) => Err(DecodeError::InvalidMultiByteTarget),
        }
    } else {
        Err(DecodeError::InvalidMultiByteTarget)
    }
}

/// Decode a two-byte king move: falls back to the single-byte king
/// rule once the length is checked.
pub fn decode_multi_byte_king_target(move_value: u8, move_bytes: &[u8], from_square: Square) -> (r:
    Result<Square, DecodeError>)
    requires
        from_square.0 < 64,
    ensures
        r == (if move_bytes@.len() < 2 {
            Err::<Square, DecodeError>(DecodeError::MultiByteTooShort)
        } else {
            spec_decode_king_target(move_value, from_square)
        }),
        r matches Ok(sq) ==> sq.0 < 64,
{
    if move_bytes.len() < 2 {
        return Err(DecodeError::MultiByteTooShort);
    }
    decode_king_target(move_value, from_square)
}

/// Decode a two-byte pawn move: the destination follows the
/// single-byte pawn rule; the second byte carries the promotion.
pub fn decode_multi_byte_pawn_target(
    move_value: u8,
    move_bytes: &[u8],
    from_square: Square,
    position: &ChessPosition,
) -> (r: Result<Square, DecodeError>)
    requires
        position@.board.len() == 64,
        from_square.0 < 64,
        move_value < 16,
    ensures
        r == (if move_bytes@.len() < 2 {
            Err::<Square, DecodeError>(DecodeError::MultiByteTooShort)
        } else {
            match position@.board[from_square.0 as int] {
                Some(piece) => spec_decode_pawn_target(move_value, from_square, piece.color),
                None => Err(DecodeError::PieceNotFound),
            }
        }),
        r matches Ok(sq) ==> sq.0 < 64,
{
    if move_bytes.len() < 2 {
        return Err(DecodeError::MultiByteTooShort);
    }
    decode_pawn_target(move_value, from_square, position)
}

/// Multi-byte destination square for any piece type: queens, kings and
/// pawns have multi-byte rules, everything else falls back to the
/// single-byte rule.
pub open spec fn spec_decode_multi_target(
    piece_type: PieceType,
    v: u8,
    bytes: Seq<u8>,
    from: Square,
    p: PosModel,
) -> Result<Square, DecodeError> {
    match piece_type {
        PieceType::Queen => spec_decode_multi_queen_target(bytes),
        PieceType::King => if bytes.len() < 2 {
            Err(DecodeError::MultiByteTooShort)
        } else {
            spec_decode_king_target(v, from)
        },
        PieceType::Pawn => if bytes.len() < 2 {
            Err(DecodeError::MultiByteTooShort)
        } else {
            match p.board[from.0 as int] {
                Some(piece) => spec_decode_pawn_target(v, from, piece.color),
                None => Err(DecodeError::PieceNotFound),
            }
        },
        _ => spec_decode_target(piece_type, v, from, p),
    }
}

/// Decode the destination square of a multi-byte move.
pub fn decode_multi_byte_target_square(
    piece_type: PieceType,
    move_value: u8,
    move_bytes: &[u8],
    from_square: Square,
    position: &ChessPosition,
) -> (r: Result<Square, DecodeError>)
    requires
        position@.board.len() == 64,
        from_square.0 < 64,
        move_value < 16,
    ensures
        r == spec_decode_multi_target(piece_type, move_value, move_bytes@, from_square, position@),
        r matches Ok(sq) ==> sq.0 < 64,
{
    match piece_type {
        PieceType::Queen => decode_multi_byte_queen_target(move_value, move_bytes, from_square),
        PieceType::King => decode_multi_byte_king_target(move_value, move_bytes, from_square),
        PieceType::Pawn => decode_multi_byte_pawn_target(
            move_value,
            move_bytes,
            from_square,
            position,
        ),
        _ => decode_target_square(piece_type, move_value, from_square, position),
    }
}

/// The promotion piece coded in the second byte of a multi-byte pawn
/// move: its low nibble selects queen, rook, bishop or knight in
/// bands of four.
pub open spec fn spec_multi_pawn_promotion(bytes: Seq<u8>) -> Option<PieceType> {
    if bytes.len() < 2 {
        None
    } else {
        let nibble = bytes[1] & 0x0F;
        if nibble <= 3 {
            Some(PieceType::Queen)
        } else if nibble <= 7 {
            Some(PieceType::Rook)
        } else if nibble <= 11 {
            Some(PieceType::Bishop)
        } else {
            Some(PieceType::Knight)
        }
    }
}

/// Decode the promotion piece from a multi-byte pawn move.
pub fn decode_multi_byte_pawn_promotion(move_bytes: &[u8]) -> (r: Option<PieceType>)
    ensures
        r == spec_multi_pawn_promotion(move_bytes@),
{
    if move_bytes.len() < 2 {
        return None;
    }

    let nibble = move_bytes[1] & 0x0F;
    if nibble <= 3 {
        Some(PieceType::Queen)
    } else if nibble <= 7 {
        Some(PieceType::Rook)
    } else if nibble <= 11 {
        Some(PieceType::Bishop)
    } else {
        Some(PieceType::Knight)
    }
}

/// Notation for a multi-byte move: the basic notation with a suffix
/// naming how many bytes the move took.
pub open spec fn spec_multi_notation(m: Move, len: nat) -> Seq<char> {
    if len > 1 {
        spec_basic_notation(m) + seq![' ', '['] + spec_decimal(len) + seq!['B', ']']
    } else {
        spec_basic_notation(m)
    }
}

/// Render notation for a multi-byte move: the standard notation plus a
/// byte-count marker such as `[2B]`.
pub fn generate_multi_byte_algebraic_notation(
    chess_move: &Move,
    move_bytes: &[u8],
    position: &ChessPosition,
) -> (r: Result<String, DecodeError>)
    requires
        chess_move.to.0 < 64,
    ensures
        r matches Ok(s) && s@ == spec_multi_notation(*chess_move, move_bytes@.len()),
{
    let mut standard_notation = match generate_basic_algebraic_notation(chess_move, position) {
        Ok(s) => s,
        Err(e) => {
            return Err(e);
        },
    };

    if move_bytes.len() > 1 {
        push_char(&mut standard_notation, ' ');
        push_char(&mut standard_notation, '[');
        append_decimal(&mut standard_notation, move_bytes.len() as u64);
        push_char(&mut standard_notation, 'B');
        push_char(&mut standard_notation, ']');
        proof {
            assert(standard_notation@ =~= spec_multi_notation(
                *chess_move,
                move_bytes@.len(),
            ));
        }
        Ok(standard_notation)
    } else {
        Ok(standard_notation)
    }
}

/// The move and notation that multi-byte decoding yields: with fewer
/// than two bytes it is exactly the single-byte decode, else the
/// multi-byte target and promotion rules apply and the notation gains
/// the byte-count marker.
pub open spec fn spec_decode_multi_move(n: u8, v: u8, bytes: Seq<u8>, p: PosModel) -> Result<
    (Move, Seq<char>),
    DecodeError,
> {
    if bytes.len() < 2 {
        spec_decode_move(n, v, p)
    } else {
        match spec_map_piece_number(n, p.to_move) {
            Err(e) => Err(e),
            Ok(id) => match p.piece_by_number(id) {
                None => Err(DecodeError::PieceNotFound),
                Some(piece) => match p.piece_location(id) {
                    None => Err(DecodeError::LocationNotTracked),
                    Some(from) => match spec_decode_multi_target(piece.piece_type, v, bytes, from, p) {
                        Err(e) => Err(e),
                        Ok(to) => {
                            let m = Move {
                                from,
                                to,
                                piece,
                                captured_piece: p.board[to.0 as int],
                                promotion: if piece.piece_type == PieceType::Pawn {
                                    spec_multi_pawn_promotion(bytes)
                                } else {
                                    None
                                },
                                is_castling: spec_is_castling_move(piece.piece_type, from, to)
                                    && spec_is_castling_legal(from, to, p),
                                is_en_passant: spec_is_en_passant_move(piece.piece_type, from, to, p),
                                gives_check: false,
                                is_checkmate: false,
                            };
                            Ok((m, spec_multi_notation(m, bytes.len())))
                        },
                    },
                },
            },
        }
    }
}

/// Decode a multi-byte move against the position: like the single-byte
/// decode, but with the multi-byte destination and promotion rules.
/// With fewer than two bytes it falls back to single-byte decoding of
/// the first byte.
pub fn decode_multi_byte_move_with_position(
    piece_num: &u8,
    move_value: &u8,
    move_bytes: &[u8],
    position: &ChessPosition,
) -> (r: Result<(Move, String), DecodeError>)
    requires
        position.bounds_ok(),
        *move_value < 16,
        move_bytes@.len() >= 1,
    ensures
        decode_result_matches(
            r,
            spec_decode_multi_move(*piece_num, *move_value, move_bytes@, position@),
        ),
        r matches Ok(t) ==> t.0.from.0 < 64 && t.0.to.0 < 64 && (t.0.is_en_passant
            ==> position@.ep == Some(t.0.to)),
{
    if move_bytes.len() < 2 {
        return decode_move_with_position(piece_num, move_value, &move_bytes[0], position);
    }

    let actual_piece_id = match map_scid_piece_number_to_actual(*piece_num, position.to_move) {
        Ok(id) => id,
        Err(e) => {
            return Err(e);
        },
    };

    let piece = match position.get_piece_by_number(actual_piece_id) {
        Some(p) => p,
        None => {
            return Err(DecodeError::PieceNotFound);
        },
    };

    let from_square = match position.get_piece_location(actual_piece_id) {
        Some(sq) => sq,
        None => {
            return Err(DecodeError::LocationNotTracked);
        },
    };

    let to_square = match decode_multi_byte_target_square(
        piece.piece_type,
        *move_value,
        move_bytes,
        from_square,
        position,
    ) {
        Ok(sq) => sq,
        Err(e) => {
            return Err(e);
        },
    };

    let mut chess_move = Move::new(from_square, to_square, piece);

    if let Some(captured_piece) = position.get_piece_at(to_square) {
        chess_move.captured_piece = Some(captured_piece);
    }

    chess_move.is_castling = is_castling_move(piece.piece_type, from_square, to_square)
        && is_castling_legal(from_square, to_square, position);
    chess_move.is_en_passant = is_en_passant_move(piece.piece_type, from_square, to_square, position);

    if piece.piece_type == PieceType::Pawn {
        chess_move.promotion = decode_multi_byte_pawn_promotion(move_bytes);
    }

    let algebraic_notation = match generate_multi_byte_algebraic_notation(
        &chess_move,
        move_bytes,
        position,
    ) {
        Ok(s) => s,
        Err(e) => {
            return Err(e);
        },
    };

    Ok((chess_move, algebraic_notation))
}

} // verus!

verus! {

/// The description text that `test_simple_move_decoding` renders for a
/// piece and move value.
pub open spec fn spec_simple_move_desc(piece: Piece, from: Square, v: u8) -> Seq<char> {
    match piece.piece_type {
        PieceType::King => if v == 10 {
            "O-O (kingside castling)"@
        } else if v == 9 {
            "O-O-O (queenside castling)"@
        } else if 1 <= v <= 8 {
            "King move (direction "@ + spec_decimal(v as nat) + ")"@
        } else {
            "Unknown king move ("@ + spec_decimal(v as nat) + ")"@
        },
        PieceType::Pawn => if v == 15 {
            seq![spec_file_char((from.0 % 8) as nat)] + "4 (pawn double push)"@
        } else if v == 1 {
            seq![spec_file_char((from.0 % 8) as nat)] + "3 (pawn forward)"@
        } else {
            "Pawn move "@ + spec_decimal(v as nat) + " from "@ + from.spec_algebraic()
        },
        _ => piece.piece_type.spec_name() + " move "@ + spec_decimal(v as nat) + " from "@
            + from.spec_algebraic(),
    }
}

/// The full output line of `test_simple_move_decoding`.
pub open spec fn spec_simple_move_output(piece: Piece, from: Square, n: u8, v: u8) -> Seq<char> {
    "P"@ + spec_decimal(n as nat) + " ("@ + piece.piece_type.spec_name() + "): "@
        + spec_simple_move_desc(piece, from, v)
}

/// Describe one move value against the starting position, by the
/// stable id of the piece it names: a readable line naming the piece
/// and a rough reading of the move value.  Ids with no piece in the
/// starting position are a decode error.
pub fn test_simple_move_decoding(piece_num: u8, move_value: u8) -> (r: Result<String, DecodeError>)
    ensures
        piece_num < 32 ==> (r matches Ok(s) && s@ == spec_simple_move_output(
            (match crate::position::spec_starting_piece_at(
                crate::position::spec_starting_square_of(piece_num as int),
            ) {
                Some(pc) => pc,
                None => arbitrary(),
            }),
            Square(crate::position::spec_starting_square_of(piece_num as int) as u8),
            piece_num,
            move_value,
        )),
        piece_num >= 32 ==> r == Err::<String, DecodeError>(DecodeError::PieceNotFound),
{
    let position = ChessPosition::starting_position();
    proof {
        crate::position::lemma_starting_tables_consistent();
    }

    let piece = match position.get_piece_by_number(piece_num) {
        Some(p) => p,
        None => {
            return Err(DecodeError::PieceNotFound);
        },
    };

    let from_square = match position.get_piece_location(piece_num) {
        Some(sq) => sq,
        None => {
            return Err(DecodeError::LocationNotTracked);
        },
    };

    let mut desc = String::new();
    match piece.piece_type {
        PieceType::King => {
            if move_value == 10 {
                desc.append("O-O (kingside castling)");
            } else if move_value == 9 {
                desc.append("O-O-O (queenside castling)");
            } else if 1 <= move_value && move_value <= 8 {
                desc.append("King move (direction ");
                append_decimal(&mut desc, move_value as u64);
                desc.append(")");
            } else {
                desc.append("Unknown king move (");
                append_decimal(&mut desc, move_value as u64);
                desc.append(")");
            }
        },
        PieceType::Pawn => {
            if move_value == 15 {
                push_char(&mut desc, crate::position::file_char(from_square.file()));
                desc.append("4 (pawn double push)");
            } else if move_value == 1 {
                push_char(&mut desc, crate::position::file_char(from_square.file()));
                desc.append("3 (pawn forward)");
            } else {
                desc.append("Pawn move ");
                append_decimal(&mut desc, move_value as u64);
                desc.append(" from ");
                let sq = from_square.to_algebraic();
                desc.append(sq.as_str());
            }
        },
        _ => {
            desc.append(piece.piece_type.name());
            desc.append(" move ");
            append_decimal(&mut desc, move_value as u64);
            desc.append(" from ");
            let sq = from_square.to_algebraic();
            desc.append(sq.as_str());
        },
    }

    let mut out = String::new();
    out.append("P");
    append_decimal(&mut out, piece_num as u64);
    out.append(" (");
    out.append(piece.piece_type.name());
    out.append("): ");
    out.append(desc.as_str());

    proof {
        assert(desc@ =~= spec_simple_move_desc(piece, from_square, move_value));
        assert(out@ =~= spec_simple_move_output(piece, from_square, piece_num, move_value));
    }
    Ok(out)
}

} // verus!
