//! Game-record elements and the element tokenizer.
//!
//! A game record holds optional non-standard PGN tags, a flags byte,
//! and a stream of elements: move bytes (upper four bits the relative
//! piece index, lower four the move value), and the five reserved
//! marker bytes 11-15 for annotation glyphs, comments, variation
//! brackets and the end of the game.

use vstd::prelude::*;

use crate::strutil::{
    append_decimal, append_hex2, append_hex4, append_hex_list, push_char, spec_decimal, spec_hex2,
    spec_hex4, spec_hex_list, utf8_lossy, utf8_lossy_of,
};

verus! {

/// Marker byte introducing an annotation glyph.
pub const ENCODE_NAG: u8 = 11;

/// Marker byte introducing a null-terminated comment.
pub const ENCODE_COMMENT: u8 = 12;

/// Marker byte opening a variation.
pub const ENCODE_START_MARKER: u8 = 13;

/// Marker byte closing a variation.
pub const ENCODE_END_MARKER: u8 = 14;

/// Marker byte ending the game record.
pub const ENCODE_END_GAME: u8 = 15;

/// First and last reserved marker values.
pub const ENCODE_FIRST: u8 = 11;

pub const ENCODE_LAST: u8 = 15;

/// A non-standard PGN tag carried in the game record.
#[derive(Debug, Clone)]
pub struct PgnTag {
    pub name: String,
    pub value: String,
}

/// Spec-level picture of a tag: its name and value as character
/// sequences.
pub struct TagModel {
    pub name: Seq<char>,
    pub value: Seq<char>,
}

impl View for PgnTag {
    type V = TagModel;

    open spec fn view(&self) -> TagModel {
        TagModel { name: self.name@, value: self.value@ }
    }
}

/// The game flags byte: bit 0 a non-standard starting position, bit 1
/// promotions, bit 2 under-promotions.
#[derive(Debug, Clone, Copy, PartialEq, Eq, Structural)]
pub struct GameFlags {
    pub non_standard_start: bool,
    pub has_promotions: bool,
    pub has_under_promotions: bool,
    pub raw_value: u8,
}

/// The flags decoded from one byte.
pub open spec fn spec_game_flags(b: u8) -> GameFlags {
    GameFlags {
        non_standard_start: b & 1 != 0,
        has_promotions: b & 2 != 0,
        has_under_promotions: b & 4 != 0,
        raw_value: b,
    }
}

/// A decoded reading of one move byte, without position context.
#[derive(Debug, Clone)]
pub struct DecodedMove {
    pub piece_num: u8,
    pub move_value: u8,
    pub raw_byte: u8,
    pub interpretation: MoveInterpretation,
}

/// A rough, position-free interpretation of a move value for each
/// piece type, with a human-readable description.
#[derive(Debug, Clone)]
pub enum MoveInterpretation {
    King { direction_code: u8, description: String },
    Queen { move_type: String, description: String },
    Rook { target_info: String, description: String },
    Bishop { direction: String, description: String },
    Knight { l_shape_code: u8, description: String },
    Pawn { direction: String, promotion: Option<String>, description: String },
    Unknown { reason: String },
}

/// Spec-level picture of an interpretation.
pub enum InterpModel {
    King { direction_code: u8, description: Seq<char> },
    Queen { move_type: Seq<char>, description: Seq<char> },
    Rook { target_info: Seq<char>, description: Seq<char> },
    Bishop { direction: Seq<char>, description: Seq<char> },
    Knight { l_shape_code: u8, description: Seq<char> },
    Pawn { direction: Seq<char>, promotion: Option<Seq<char>>, description: Seq<char> },
    Unknown { reason: Seq<char> },
}

impl View for MoveInterpretation {
    type V = InterpModel;

    open spec fn view(&self) -> InterpModel {
        match self {
            MoveInterpretation::King { direction_code, description } => InterpModel::King {
                direction_code: *direction_code,
                description: description@,
            },
            MoveInterpretation::Queen { move_type, description } => InterpModel::Queen {
                move_type: move_type@,
                description: description@,
            },
            MoveInterpretation::Rook { target_info, description } => InterpModel::Rook {
                target_info: target_info@,
                description: description@,
            },
            MoveInterpretation::Bishop { direction, description } => InterpModel::Bishop {
                direction: direction@,
                description: description@,
            },
            MoveInterpretation::Knight { l_shape_code, description } => InterpModel::Knight {
                l_shape_code: *l_shape_code,
                description: description@,
            },
            MoveInterpretation::Pawn { direction, promotion, description } => InterpModel::Pawn {
                direction: direction@,
                promotion: match promotion {
                    Some(p) => Some(p@),
                    None => None,
                },
                description: description@,
            },
            MoveInterpretation::Unknown { reason } => InterpModel::Unknown { reason: reason@ },
        }
    }
}

/// Spec-level picture of a decoded move byte.
pub struct DecodedMoveModel {
    pub piece_num: u8,
    pub move_value: u8,
    pub raw_byte: u8,
    pub interpretation: InterpModel,
}

impl View for DecodedMove {
    type V = DecodedMoveModel;

    open spec fn view(&self) -> DecodedMoveModel {
        DecodedMoveModel {
            piece_num: self.piece_num,
            move_value: self.move_value,
            raw_byte: self.raw_byte,
            interpretation: self.interpretation@,
        }
    }
}

/// One element of a game record, with the byte offset it was read at.
#[derive(Debug, Clone)]
pub enum GameElement {
    Move {
        piece_num: u8,
        move_value: u8,
        raw_byte: u8,
        offset: usize,
        decoded: Option<DecodedMove>,
    },
    Nag { nag_value: u8, offset: usize },
    Comment { text: String, offset: usize },
    VariationStart { offset: usize },
    VariationEnd { offset: usize },
    GameEnd { offset: usize },
}

/// Spec-level picture of a game element.
pub enum ElemModel {
    Move {
        piece_num: u8,
        move_value: u8,
        raw_byte: u8,
        offset: int,
        decoded: Option<DecodedMoveModel>,
    },
    Nag { nag_value: u8, offset: int },
    Comment { text: Seq<char>, offset: int },
    VariationStart { offset: int },
    VariationEnd { offset: int },
    GameEnd { offset: int },
}

impl View for GameElement {
    type V = ElemModel;

    open spec fn view(&self) -> ElemModel {
        match self {
            GameElement::Move { piece_num, move_value, raw_byte, offset, decoded } => (
            ElemModel::Move {
                piece_num: *piece_num,
                move_value: *move_value,
                raw_byte: *raw_byte,
                offset: *offset as int,
                decoded: match decoded {
                    Some(d) => Some(d@),
                    None => None,
                },
            }),
            GameElement::Nag { nag_value, offset } => ElemModel::Nag {
                nag_value: *nag_value,
                offset: *offset as int,
            },
            GameElement::Comment { text, offset } => ElemModel::Comment {
                text: text@,
                offset: *offset as int,
            },
            GameElement::VariationStart { offset } => ElemModel::VariationStart {
                offset: *offset as int,
            },
            GameElement::VariationEnd { offset } => ElemModel::VariationEnd {
                offset: *offset as int,
            },
            GameElement::GameEnd { offset } => ElemModel::GameEnd { offset: *offset as int },
        }
    }
}

} // verus!

verus! {

/// The description text for each king move value 0-10.
pub open spec fn spec_king_move_desc(v: int) -> Seq<char> {
    if v == 0 {
        "null move (stay in place)"@
    } else if v == 1 {
        "up-left (-9)"@
    } else if v == 2 {
        "up (-8)"@
    } else if v == 3 {
        "up-right (-7)"@
    } else if v == 4 {
        "left (-1)"@
    } else if v == 5 {
        "right (+1)"@
    } else if v == 6 {
        "down-left (+7)"@
    } else if v == 7 {
        "down (+8)"@
    } else if v == 8 {
        "down-right (+9)"@
    } else if v == 9 {
        "queenside castling (-2)"@
    } else {
        "kingside castling (+2)"@
    }
}

/// Interpretation of a king move value: the direction table for 0-10,
/// unknown otherwise.
pub open spec fn spec_decode_king_move(v: u8) -> InterpModel {
    if v <= 10 {
        InterpModel::King { direction_code: v, description: spec_king_move_desc(v as int) }
    } else {
        InterpModel::Unknown {
            reason: "Invalid king move value: "@ + spec_decimal(v as nat),
        }
    }
}

/// Read a king move value: one of the eleven direction and castling
/// codes, or unknown.
pub fn decode_king_move(move_value: u8) -> (r: MoveInterpretation)
    ensures
        r@ == spec_decode_king_move(move_value),
{
    if move_value <= 10 {
        let description: &str = match move_value {
            0 => "null move (stay in place)",
            1 => "up-left (-9)",
            2 => "up (-8)",
            3 => "up-right (-7)",
            4 => "left (-1)",
            5 => "right (+1)",
            6 => "down-left (+7)",
            7 => "down (+8)",
            8 => "down-right (+9)",
            9 => "queenside castling (-2)",
            _ => "kingside castling (+2)",
        };
        MoveInterpretation::King { direction_code: move_value, description: description.to_owned() }
    } else {
        let mut reason = String::new();
        reason.append("Invalid king move value: ");
        append_decimal(&mut reason, move_value as u64);
        MoveInterpretation::Unknown { reason }
    }
}

/// Interpretation of a queen move value: vertical rook-like for 8-15,
/// else horizontal or diagonal.
pub open spec fn spec_decode_queen_move(v: u8) -> InterpModel {
    if v >= 8 {
        InterpModel::Queen {
            move_type: "rook-like vertical"@,
            description: "vertical to rank "@ + spec_decimal((v - 8) as nat),
        }
    } else {
        InterpModel::Queen {
            move_type: "rook-like horizontal or diagonal"@,
            description: "horizontal to file "@ + spec_decimal(v as nat) + " or diagonal"@,
        }
    }
}

/// Read a queen move value.
pub fn decode_queen_move(move_value: u8) -> (r: MoveInterpretation)
    ensures
        r@ == spec_decode_queen_move(move_value),
{
    if move_value >= 8 {
        let target_rank = move_value - 8;
        let mut description = String::new();
        description.append("vertical to rank ");
        append_decimal(&mut description, target_rank as u64);
        MoveInterpretation::Queen {
            move_type: "rook-like vertical".to_owned(),
            description,
        }
    } else {
        let mut description = String::new();
        description.append("horizontal to file ");
        append_decimal(&mut description, move_value as u64);
        description.append(" or diagonal");
        MoveInterpretation::Queen {
            move_type: "rook-like horizontal or diagonal".to_owned(),
            description,
        }
    }
}

/// Interpretation of a rook move value: vertical to a rank for 8-15,
/// horizontal to a file otherwise.
pub open spec fn spec_decode_rook_move(v: u8) -> InterpModel {
    if v >= 8 {
        InterpModel::Rook {
            target_info: "rank "@ + spec_decimal((v - 8) as nat),
            description: "vertical to rank "@ + spec_decimal((v - 8) as nat),
        }
    } else {
        InterpModel::Rook {
            target_info: "file "@ + spec_decimal(v as nat),
            description: "horizontal to file "@ + spec_decimal(v as nat),
        }
    }
}

/// Read a rook move value.
pub fn decode_rook_move(move_value: u8) -> (r: MoveInterpretation)
    ensures
        r@ == spec_decode_rook_move(move_value),
{
    if move_value >= 8 {
        let target_rank = move_value - 8;
        let mut target_info = String::new();
        target_info.append("rank ");
        append_decimal(&mut target_info, target_rank as u64);
        let mut description = String::new();
        description.append("vertical to rank ");
        append_decimal(&mut description, target_rank as u64);
        MoveInterpretation::Rook { target_info, description }
    } else {
        let mut target_info = String::new();
        target_info.append("file ");
        append_decimal(&mut target_info, move_value as u64);
        let mut description = String::new();
        description.append("horizontal to file ");
        append_decimal(&mut description, move_value as u64);
        MoveInterpretation::Rook { target_info, description }
    }
}

/// Interpretation of a bishop move value: a diagonal direction chosen
/// by bit 3 and a target file from the low three bits.
pub open spec fn spec_decode_bishop_move(v: u8) -> InterpModel {
    let dir: Seq<char> = if v >= 8 {
        "up-left/down-right"@
    } else {
        "up-right/down-left"@
    };
    InterpModel::Bishop {
        direction: dir,
        description: dir + " diagonal to file "@ + spec_decimal((v & 7) as nat),
    }
}

/// Read a bishop move value.
pub fn decode_bishop_move(move_value: u8) -> (r: MoveInterpretation)
    ensures
        r@ == spec_decode_bishop_move(move_value),
{
    let target_file = move_value & 7;
    let direction: &str = if move_value >= 8 {
        "up-left/down-right"
    } else {
        "up-right/down-left"
    };

    let mut description = String::new();
    description.append(direction);
    description.append(" diagonal to file ");
    append_decimal(&mut description, target_file as u64);

    MoveInterpretation::Bishop { direction: direction.to_owned(), description }
}

/// The description text for each canonical knight move value 1-8.
pub open spec fn spec_knight_move_desc(v: int) -> Seq<char> {
    if v == 1 {
        "L-shape (-17)"@
    } else if v == 2 {
        "L-shape (-15)"@
    } else if v == 3 {
        "L-shape (-10)"@
    } else if v == 4 {
        "L-shape (-6)"@
    } else if v == 5 {
        "L-shape (+6)"@
    } else if v == 6 {
        "L-shape (+10)"@
    } else if v == 7 {
        "L-shape (+15)"@
    } else {
        "L-shape (+17)"@
    }
}

/// Interpretation of a knight move value: the eight L-shaped jumps for
/// 1-8, unknown otherwise.
pub open spec fn spec_decode_knight_move(v: u8) -> InterpModel {
    if 1 <= v <= 8 {
        InterpModel::Knight { l_shape_code: v, description: spec_knight_move_desc(v as int) }
    } else {
        InterpModel::Unknown {
            reason: "Invalid knight move value: "@ + spec_decimal(v as nat),
        }
    }
}

/// Read a knight move value.
pub fn decode_knight_move(move_value: u8) -> (r: MoveInterpretation)
    ensures
        r@ == spec_decode_knight_move(move_value),
{
    if 1 <= move_value && move_value <= 8 {
        let description: &str = match move_value {
            1 => "L-shape (-17)",
            2 => "L-shape (-15)",
            3 => "L-shape (-10)",
            4 => "L-shape (-6)",
            5 => "L-shape (+6)",
            6 => "L-shape (+10)",
            7 => "L-shape (+15)",
            _ => "L-shape (+17)",
        };
        MoveInterpretation::Knight {
            l_shape_code: move_value,
            description: description.to_owned(),
        }
    } else {
        let mut reason = String::new();
        reason.append("Invalid knight move value: ");
        append_decimal(&mut reason, move_value as u64);
        MoveInterpretation::Unknown { reason }
    }
}

/// The direction text for each pawn move value 0-15.
pub open spec fn spec_pawn_move_desc(v: int) -> Seq<char> {
    if v == 0 {
        "capture left"@
    } else if v == 1 {
        "forward"@
    } else if v == 2 {
        "capture right"@
    } else if v == 3 {
        "capture left+Q"@
    } else if v == 4 {
        "forward+Q"@
    } else if v == 5 {
        "capture right+Q"@
    } else if v == 6 {
        "capture left+R"@
    } else if v == 7 {
        "forward+R"@
    } else if v == 8 {
        "capture right+R"@
    } else if v == 9 {
        "capture left+B"@
    } else if v == 10 {
        "forward+B"@
    } else if v == 11 {
        "capture right+B"@
    } else if v == 12 {
        "capture left+N"@
    } else if v == 13 {
        "forward+N"@
    } else if v == 14 {
        "capture right+N"@
    } else {
        "double forward"@
    }
}

/// The promotion name a pawn move value carries, if any.
pub open spec fn spec_pawn_move_promo(v: int) -> Option<Seq<char>> {
    if 3 <= v <= 5 {
        Some("Queen"@)
    } else if 6 <= v <= 8 {
        Some("Rook"@)
    } else if 9 <= v <= 11 {
        Some("Bishop"@)
    } else if 12 <= v <= 14 {
        Some("Knight"@)
    } else {
        None
    }
}

/// Interpretation of a pawn move value: direction, promotion bands,
/// and the double push; unknown above 15.
pub open spec fn spec_decode_pawn_move(v: u8) -> InterpModel {
    if v <= 15 {
        InterpModel::Pawn {
            direction: spec_pawn_move_desc(v as int),
            promotion: spec_pawn_move_promo(v as int),
            description: spec_pawn_move_desc(v as int),
        }
    } else {
        InterpModel::Unknown {
            reason: "Invalid pawn move value: "@ + spec_decimal(v as nat),
        }
    }
}

/// Read a pawn move value.
pub fn decode_pawn_move(move_value: u8) -> (r: MoveInterpretation)
    ensures
        r@ == spec_decode_pawn_move(move_value),
{
    if move_value <= 15 {
        let direction: &str = match move_value {
            0 => "capture left",
            1 => "forward",
            2 => "capture right",
            3 => "capture left+Q",
            4 => "forward+Q",
            5 => "capture right+Q",
            6 => "capture left+R",
            7 => "forward+R",
            8 => "capture right+R",
            9 => "capture left+B",
            10 => "forward+B",
            11 => "capture right+B",
            12 => "capture left+N",
            13 => "forward+N",
            14 => "capture right+N",
            _ => "double forward",
        };
        let promotion: Option<String> = if 3 <= move_value && move_value <= 5 {
            Some("Queen".to_owned())
        } else if 6 <= move_value && move_value <= 8 {
            Some("Rook".to_owned())
        } else if 9 <= move_value && move_value <= 11 {
            Some("Bishop".to_owned())
        } else if 12 <= move_value && move_value <= 14 {
            Some("Knight".to_owned())
        } else {
            None
        };
        MoveInterpretation::Pawn {
            direction: direction.to_owned(),
            promotion,
            description: direction.to_owned(),
        }
    } else {
        let mut reason = String::new();
        reason.append("Invalid pawn move value: ");
        append_decimal(&mut reason, move_value as u64);
        MoveInterpretation::Unknown { reason }
    }
}

/// Position-free interpretation of a move byte, guessing the piece
/// type from the common starting-position index assignment.
pub open spec fn spec_try_decode_move(n: u8, v: u8, raw: u8) -> Option<DecodedMoveModel> {
    let interp: InterpModel = if n == 0 {
        spec_decode_king_move(v)
    } else if n == 1 || n == 7 {
        spec_decode_queen_move(v)
    } else if n == 2 || n == 9 {
        spec_decode_rook_move(v)
    } else if n == 3 || n == 10 {
        spec_decode_bishop_move(v)
    } else if n == 4 || n == 11 {
        spec_decode_knight_move(v)
    } else if n == 5 || n == 6 || n == 8 || (12 <= n <= 15) {
        spec_decode_pawn_move(v)
    } else {
        InterpModel::Unknown {
            reason: "Piece "@ + spec_decimal(n as nat) + " interpretation uncertain"@,
        }
    };
    Some(DecodedMoveModel { piece_num: n, move_value: v, raw_byte: raw, interpretation: interp })
}

/// Attempt a position-free reading of a move byte, from piece-number
/// conventions alone.
pub fn try_decode_move(piece_num: u8, move_value: u8, raw_byte: u8) -> (r: Option<DecodedMove>)
    ensures
        r matches Some(d) && Some(d@) == spec_try_decode_move(piece_num, move_value, raw_byte),
{
    let interpretation: MoveInterpretation = if piece_num == 0 {
        decode_king_move(move_value)
    } else if piece_num == 1 || piece_num == 7 {
        decode_queen_move(move_value)
    } else if piece_num == 2 || piece_num == 9 {
        decode_rook_move(move_value)
    } else if piece_num == 3 || piece_num == 10 {
        decode_bishop_move(move_value)
    } else if piece_num == 4 || piece_num == 11 {
        decode_knight_move(move_value)
    } else if piece_num == 5 || piece_num == 6 || piece_num == 8 || (12 <= piece_num && piece_num
        <= 15) {
        decode_pawn_move(move_value)
    } else {
        let mut reason = String::new();
        reason.append("Piece ");
        append_decimal(&mut reason, piece_num as u64);
        reason.append(" interpretation uncertain");
        MoveInterpretation::Unknown { reason }
    };

    Some(
        DecodedMove {
            piece_num,
            move_value,
            raw_byte,
            interpretation,
        },
    )
}

} // verus!

verus! {

/// Whether a queen move may take a second byte: a high move value
/// whose first byte is outside the top bit range.
pub open spec fn spec_needs_queen_second_byte(v: u8, first: u8) -> bool {
    v >= 8 && first & 0x80 == 0
}

/// A heuristic: queen values 8-15 on a first byte with the top bit
/// clear may continue into a second byte (long diagonal moves).
pub fn needs_queen_second_byte(move_value: u8, first_byte: u8) -> (r: bool)
    ensures
        r == spec_needs_queen_second_byte(move_value, first_byte),
{
    move_value >= 8 && (first_byte & 0x80) == 0
}

/// A heuristic: king values 12 and up may continue into a second byte.
pub fn needs_king_second_byte(move_value: u8) -> (r: bool)
    ensures
        r == (move_value >= 12),
{
    move_value >= 12
}

/// A heuristic: pawn values 14 and up may continue into a second byte.
pub fn needs_pawn_second_byte(move_value: u8) -> (r: bool)
    ensures
        r == (move_value >= 14),
{
    move_value >= 14
}

/// Whether a move may take a rare third byte.
pub open spec fn spec_needs_rare_third_byte(n: u8, v: u8, first: u8) -> bool {
    n <= 1 && v >= 14 && first & 0xF0 == 0x10
}

/// A heuristic for the rare three-byte form: king or queen, a top-band
/// move value, and a first byte in the 0x10 range.
pub fn needs_rare_third_byte(piece_num: u8, move_value: u8, first_byte: u8) -> (r: bool)
    ensures
        r == spec_needs_rare_third_byte(piece_num, move_value, first_byte),
{
    piece_num <= 1 && move_value >= 14 && (first_byte & 0xF0) == 0x10
}

/// A byte can extend a move only when it is not a reserved marker.
pub open spec fn spec_is_valid_ext_byte(b: u8) -> bool {
    b < 11 || b > 15
}

/// Whether a byte may serve as a move's second byte: it must lie
/// outside the reserved marker range.
pub fn is_valid_second_move_byte(byte: u8) -> (r: bool)
    ensures
        r == spec_is_valid_ext_byte(byte),
{
    byte < ENCODE_FIRST || byte > ENCODE_LAST
}

/// Whether a byte may serve as a move's third byte: the same marker
/// exclusion as for the second.
pub fn is_valid_third_move_byte(byte: u8) -> (r: bool)
    ensures
        r == spec_is_valid_ext_byte(byte),
{
    is_valid_second_move_byte(byte)
}

/// Structural errors that abort the current game's decode.
#[derive(Debug, Clone, Copy, PartialEq, Eq, Structural)]
pub enum ParseError {
    /// A binary event-date tag with fewer than three bytes left.
    TruncatedEventDate,
    /// A common-tag byte outside the known table.
    InvalidCommonTag,
    /// A tag name running past the end of the data.
    TruncatedTagName,
    /// No value-length byte after a tag name.
    MissingValueLength,
    /// A tag value running past the end of the data.
    TruncatedTagValue,
    /// No game-flags byte after the tags.
    MissingFlagsByte,
    /// An annotation marker with no value byte.
    MissingNagValue,
    /// A comment with no null terminator.
    UnterminatedComment,
    /// A move-byte scan started past the end of the data.
    InvalidMultiByteStart,
    /// The end of a variation with none open.
    NotInVariation,
}

/// How many bytes a move starting at `start` takes, and those bytes:
/// one byte normally; a second when the piece-specific heuristic fires
/// and the next byte is no marker; a rare third for king/queen edge
/// forms.
pub open spec fn spec_parse_multi(data: Seq<u8>, start: int, n: u8, v: u8) -> Result<
    (int, Seq<u8>),
    ParseError,
> {
    if start < 0 || start >= data.len() {
        Err(ParseError::InvalidMultiByteStart)
    } else {
        let first = data[start];
        if n == 1 {
            if spec_needs_queen_second_byte(v, first) && start + 1 < data.len()
                && spec_is_valid_ext_byte(data[start + 1]) {
                Ok((2, seq![first, data[start + 1]]))
            } else {
                Ok((1, seq![first]))
            }
        } else if n == 0 {
            if v >= 12 && start + 1 < data.len() && spec_is_valid_ext_byte(data[start + 1]) {
                Ok((2, seq![first, data[start + 1]]))
            } else {
                Ok((1, seq![first]))
            }
        } else if (5 <= n <= 8) || (12 <= n <= 15) {
            if v >= 14 && start + 1 < data.len() && spec_is_valid_ext_byte(data[start + 1]) {
                Ok((2, seq![first, data[start + 1]]))
            } else {
                Ok((1, seq![first]))
            }
        } else {
            if spec_needs_rare_third_byte(n, v, first) && start + 2 < data.len()
                && spec_is_valid_ext_byte(data[start + 1]) && spec_is_valid_ext_byte(
                data[start + 2],
            ) {
                Ok((3, seq![first, data[start + 1], data[start + 2]]))
            } else {
                Ok((1, seq![first]))
            }
        }
    }
}

/// Scan a possible multi-byte move starting at `start_pos`: return how
/// many bytes it takes and a copy of those bytes.  A candidate
/// extension byte is taken only when it is not a reserved marker.
pub fn parse_multi_byte_move(game_data: &[u8], start_pos: usize, piece_num: u8, move_value: u8) -> (r:
    Result<(usize, Vec<u8>), ParseError>)
    ensures
        match (r, spec_parse_multi(game_data@, start_pos as int, piece_num, move_value)) {
            (Ok((c1, b1)), Ok((c2, b2))) => c1 == c2 && b1@ == b2,
            (Err(e1), Err(e2)) => e1 == e2,
            _ => false,
        },
{
    if start_pos >= game_data.len() {
        return Err(ParseError::InvalidMultiByteStart);
    }

    let first_byte = game_data[start_pos];
    let mut move_bytes: Vec<u8> = Vec::new();
    move_bytes.push(first_byte);
    let mut bytes_consumed: usize = 1;

    if piece_num == 1 {
        // Queen: long diagonal moves may take a second byte.
        if needs_queen_second_byte(move_value, first_byte) {
            if start_pos + 1 < game_data.len() {
                let second_byte = game_data[start_pos + 1];
                if is_valid_second_move_byte(second_byte) {
                    move_bytes.push(second_byte);
                    bytes_consumed = 2;
                }
            }
        }
    } else if piece_num == 0 {
        // King: rare castling edge forms may take a second byte.
        if needs_king_second_byte(move_value) {
            if start_pos + 1 < game_data.len() {
                let second_byte = game_data[start_pos + 1];
                if is_valid_second_move_byte(second_byte) {
                    move_bytes.push(second_byte);
                    bytes_consumed = 2;
                }
            }
        }
    } else if (5 <= piece_num && piece_num <= 8) || (12 <= piece_num && piece_num <= 15) {
        // Pawns: complex promotions may take a second byte.
        if needs_pawn_second_byte(move_value) {
            if start_pos + 1 < game_data.len() {
                let second_byte = game_data[start_pos + 1];
                if is_valid_second_move_byte(second_byte) {
                    move_bytes.push(second_byte);
                    bytes_consumed = 2;
                }
            }
        }
    } else {
        // Other pieces: only the rare three-byte form applies.
        if needs_rare_third_byte(piece_num, move_value, first_byte) {
            if start_pos + 2 < game_data.len() {
                let second_byte = game_data[start_pos + 1];
                let third_byte = game_data[start_pos + 2];
                if is_valid_second_move_byte(second_byte) && is_valid_third_move_byte(third_byte) {
                    move_bytes.push(second_byte);
                    move_bytes.push(third_byte);
                    bytes_consumed = 3;
                }
            }
        }
    }

    proof {
        assert(match spec_parse_multi(game_data@, start_pos as int, piece_num, move_value) {
            Ok((c2, b2)) => bytes_consumed as int == c2 && move_bytes@ =~= b2,
            Err(_) => false,
        });
    }
    Ok((bytes_consumed, move_bytes))
}

/// Interpretation of a two-byte queen move, when the combined target
/// is on the board.
pub open spec fn spec_decode_queen_multi(v: u8, b0: u8, b1: u8) -> Option<DecodedMoveModel> {
    let ext = ((b0 as u16) << 8u16) | (b1 as u16);
    let tf = (ext & 0x0F) as u8;
    let tr = ((ext >> 4u16) & 0x0F) as u8;
    if tf < 8 && tr < 8 {
        Some(
            DecodedMoveModel {
                piece_num: 1,
                move_value: v,
                raw_byte: b0,
                interpretation: InterpModel::Queen {
                    move_type: "2-byte diagonal"@,
                    description: "2-byte diagonal to "@ + seq![
                        crate::position::spec_file_char(tf as nat),
                        crate::position::spec_rank_char(tr as nat),
                    ] + " (Extended target: 0x"@ + spec_hex4(ext) + ")"@,
                },
            },
        )
    } else {
        None
    }
}

/// Read a two-byte queen diagonal move.
pub fn decode_queen_multi_byte(move_value: u8, first_byte: u8, second_byte: u8) -> (r: Option<
    DecodedMove,
>)
    ensures
        match (r, spec_decode_queen_multi(move_value, first_byte, second_byte)) {
            (Some(d), Some(m)) => d@ == m,
            (None, None) => true,
            _ => false,
        },
{
    let extended_target: u16 = ((first_byte as u16) << 8u16) | (second_byte as u16);
    let target_file = (extended_target & 0x0F) as u8;
    let target_rank = ((extended_target >> 4u16) & 0x0F) as u8;

    if target_file < 8 && target_rank < 8 {
        let mut description = String::new();
        description.append("2-byte diagonal to ");
        push_char(&mut description, crate::position::file_char(target_file));
        push_char(&mut description, crate::position::rank_char(target_rank));
        description.append(" (Extended target: 0x");
        append_hex4(&mut description, extended_target);
        description.append(")");
        proof {
            assert(description@ =~= ("2-byte diagonal to "@ + seq![
                crate::position::spec_file_char(target_file as nat),
                crate::position::spec_rank_char(target_rank as nat),
            ] + " (Extended target: 0x"@ + spec_hex4(extended_target) + ")"@));
        }
        Some(
            DecodedMove {
                piece_num: 1,
                move_value,
                raw_byte: first_byte,
                interpretation: MoveInterpretation::Queen {
                    move_type: "2-byte diagonal".to_owned(),
                    description,
                },
            },
        )
    } else {
        None
    }
}

/// Interpretation of a two-byte king move.
pub open spec fn spec_decode_king_multi(v: u8, b0: u8, b1: u8) -> Option<DecodedMoveModel> {
    Some(
        DecodedMoveModel {
            piece_num: 0,
            move_value: v,
            raw_byte: b0,
            interpretation: InterpModel::King {
                direction_code: v,
                description: "2-byte King move (bytes: 0x"@ + spec_hex2(b0) + " 0x"@ + spec_hex2(b1)
                    + ")"@,
            },
        },
    )
}

/// Read a two-byte king move.
pub fn decode_king_multi_byte(move_value: u8, first_byte: u8, second_byte: u8) -> (r: Option<
    DecodedMove,
>)
    ensures
        match (r, spec_decode_king_multi(move_value, first_byte, second_byte)) {
            (Some(d), Some(m)) => d@ == m,
            _ => false,
        },
{
    let mut description = String::new();
    description.append("2-byte King move (bytes: 0x");
    append_hex2(&mut description, first_byte);
    description.append(" 0x");
    append_hex2(&mut description, second_byte);
    description.append(")");
    proof {
        assert(description@ =~= ("2-byte King move (bytes: 0x"@ + spec_hex2(first_byte) + " 0x"@
            + spec_hex2(second_byte) + ")"@));
    }
    Some(
        DecodedMove {
            piece_num: 0,
            move_value,
            raw_byte: first_byte,
            interpretation: MoveInterpretation::King { direction_code: move_value, description },
        },
    )
}

/// The promotion name coded in a second pawn byte's low nibble.
pub open spec fn spec_multi_promo_name(b1: u8) -> Seq<char> {
    let nibble = b1 & 0x0F;
    if nibble <= 3 {
        "Queen"@
    } else if nibble <= 7 {
        "Rook"@
    } else if nibble <= 11 {
        "Bishop"@
    } else {
        "Knight"@
    }
}

/// Interpretation of a two-byte pawn promotion.
pub open spec fn spec_decode_pawn_multi(v: u8, b0: u8, b1: u8) -> Option<DecodedMoveModel> {
    Some(
        DecodedMoveModel {
            piece_num: 12,
            move_value: v,
            raw_byte: b0,
            interpretation: InterpModel::Pawn {
                direction: "2-byte promotion"@,
                promotion: Some(spec_multi_promo_name(b1)),
                description: "2-byte promotion to "@ + spec_multi_promo_name(b1)
                    + " (bytes: 0x"@ + spec_hex2(b0) + " 0x"@ + spec_hex2(b1) + ")"@,
            },
        },
    )
}

/// Read a two-byte pawn promotion.
pub fn decode_pawn_multi_byte(move_value: u8, first_byte: u8, second_byte: u8) -> (r: Option<
    DecodedMove,
>)
    ensures
        match (r, spec_decode_pawn_multi(move_value, first_byte, second_byte)) {
            (Some(d), Some(m)) => d@ == m,
            _ => false,
        },
{
    let nibble = second_byte & 0x0F;
    let promotion_type: &str = if nibble <= 3 {
        "Queen"
    } else if nibble <= 7 {
        "Rook"
    } else if nibble <= 11 {
        "Bishop"
    } else {
        "Knight"
    };

    let mut description = String::new();
    description.append("2-byte promotion to ");
    description.append(promotion_type);
    description.append(" (bytes: 0x");
    append_hex2(&mut description, first_byte);
    description.append(" 0x");
    append_hex2(&mut description, second_byte);
    description.append(")");
    proof {
        assert(description@ =~= ("2-byte promotion to "@ + spec_multi_promo_name(second_byte)
            + " (bytes: 0x"@ + spec_hex2(first_byte) + " 0x"@ + spec_hex2(second_byte) + ")"@));
    }
    Some(
        DecodedMove {
            piece_num: 12,
            move_value,
            raw_byte: first_byte,
            interpretation: MoveInterpretation::Pawn {
                direction: "2-byte promotion".to_owned(),
                promotion: Some(promotion_type.to_owned()),
                description,
            },
        },
    )
}

/// Interpretation of the rare three-byte form.
pub open spec fn spec_decode_rare_three(n: u8, v: u8, bytes: Seq<u8>) -> Option<DecodedMoveModel> {
    Some(
        DecodedMoveModel {
            piece_num: n,
            move_value: v,
            raw_byte: bytes[0],
            interpretation: InterpModel::Unknown {
                reason: "3-byte move (piece: "@ + spec_decimal(n as nat) + ", value: "@
                    + spec_decimal(v as nat) + ", bytes: "@ + spec_hex_list(bytes) + ")"@,
            },
        },
    )
}

/// Read the rare three-byte move form (left uninterpreted).
pub fn decode_rare_three_byte_move(piece_num: u8, move_value: u8, move_bytes: &[u8]) -> (r: Option<
    DecodedMove,
>)
    requires
        move_bytes@.len() >= 1,
    ensures
        match (r, spec_decode_rare_three(piece_num, move_value, move_bytes@)) {
            (Some(d), Some(m)) => d@ == m,
            _ => false,
        },
{
    let mut reason = String::new();
    reason.append("3-byte move (piece: ");
    append_decimal(&mut reason, piece_num as u64);
    reason.append(", value: ");
    append_decimal(&mut reason, move_value as u64);
    reason.append(", bytes: ");
    append_hex_list(&mut reason, move_bytes);
    reason.append(")");
    proof {
        assert(reason@ =~= ("3-byte move (piece: "@ + spec_decimal(piece_num as nat) + ", value: "@
            + spec_decimal(move_value as nat) + ", bytes: "@ + spec_hex_list(move_bytes@) + ")"@));
    }
    Some(
        DecodedMove {
            piece_num,
            move_value,
            raw_byte: move_bytes[0],
            interpretation: MoveInterpretation::Unknown { reason },
        },
    )
}

/// Position-free interpretation of a possibly multi-byte move.
pub open spec fn spec_try_decode_multi(n: u8, v: u8, bytes: Seq<u8>) -> Option<DecodedMoveModel> {
    if bytes.len() < 2 {
        spec_try_decode_move(n, v, bytes[0])
    } else if n == 1 {
        spec_decode_queen_multi(v, bytes[0], bytes[1])
    } else if n == 0 {
        spec_decode_king_multi(v, bytes[0], bytes[1])
    } else if (5 <= n <= 8) || (12 <= n <= 15) {
        spec_decode_pawn_multi(v, bytes[0], bytes[1])
    } else if bytes.len() >= 3 {
        spec_decode_rare_three(n, v, bytes)
    } else {
        spec_try_decode_move(n, v, bytes[0])
    }
}

/// Attempt a position-free reading of a multi-byte move sequence.
pub fn try_decode_multi_byte_move(piece_num: u8, move_value: u8, move_bytes: &[u8]) -> (r: Option<
    DecodedMove,
>)
    requires
        move_bytes@.len() >= 1,
    ensures
        match (r, spec_try_decode_multi(piece_num, move_value, move_bytes@)) {
            (Some(d), Some(m)) => d@ == m,
            (None, None) => true,
            _ => false,
        },
{
    if move_bytes.len() < 2 {
        return try_decode_move(piece_num, move_value, move_bytes[0]);
    }

    let first_byte = move_bytes[0];
    let second_byte = move_bytes[1];

    if piece_num == 1 {
        decode_queen_multi_byte(move_value, first_byte, second_byte)
    } else if piece_num == 0 {
        decode_king_multi_byte(move_value, first_byte, second_byte)
    } else if (5 <= piece_num && piece_num <= 8) || (12 <= piece_num && piece_num <= 15) {
        decode_pawn_multi_byte(move_value, first_byte, second_byte)
    } else if move_bytes.len() >= 3 {
        decode_rare_three_byte_move(piece_num, move_value, move_bytes)
    } else {
        try_decode_move(piece_num, move_value, first_byte)
    }
}

} // verus!

verus! {

/// The table of common tag names coded as single bytes 241-255.
pub open spec fn spec_common_tag(idx: int) -> Seq<char> {
    if idx == 0 {
        "WhiteCountry"@
    } else if idx == 1 {
        "BlackCountry"@
    } else if idx == 2 {
        "Annotator"@
    } else if idx == 3 {
        "PlyCount"@
    } else if idx == 4 {
        "EventDate"@
    } else if idx == 5 {
        "Opening"@
    } else if idx == 6 {
        "Variation"@
    } else if idx == 7 {
        "SubVariation"@
    } else if idx == 8 {
        "ECO"@
    } else if idx == 9 {
        "WhiteTitle"@
    } else if idx == 10 {
        "BlackTitle"@
    } else if idx == 11 {
        "WhiteElo"@
    } else if idx == 12 {
        "BlackElo"@
    } else if idx == 13 {
        "WhiteFideId"@
    } else {
        "BlackFideId"@
    }
}

fn common_tag(idx: u8) -> (r: &'static str)
    requires
        idx < 15,
    ensures
        r@ == spec_common_tag(idx as int),
{
    match idx {
        0 => "WhiteCountry",
        1 => "BlackCountry",
        2 => "Annotator",
        3 => "PlyCount",
        4 => "EventDate",
        5 => "Opening",
        6 => "Variation",
        7 => "SubVariation",
        8 => "ECO",
        9 => "WhiteTitle",
        10 => "BlackTitle",
        11 => "WhiteElo",
        12 => "BlackElo",
        13 => "WhiteFideId",
        _ => "BlackFideId",
    }
}

/// The views of a sequence of tags.
pub open spec fn tag_views(s: Seq<PgnTag>) -> Seq<TagModel> {
    s.map_values(|t: PgnTag| t@)
}

/// The views of a sequence of elements.
pub open spec fn elem_views(s: Seq<GameElement>) -> Seq<ElemModel> {
    s.map_values(|e: GameElement| e@)
}

/// Parse the tag section from `pos`: each entry is a length byte (0
/// ends the section; 255 skips a three-byte coded event date; 241-254
/// name a common tag; anything else prefixes a name) followed by a
/// length-prefixed value.  Returns the tags and the position after the
/// terminating zero (or the data length when none came).
pub open spec fn spec_tags_from(data: Seq<u8>, pos: int) -> Result<
    (Seq<TagModel>, int),
    ParseError,
>
    decreases data.len() - pos,
{
    if pos < 0 || pos >= data.len() {
        Ok((Seq::empty(), if pos < 0 {
            pos
        } else {
            data.len() as int
        }))
    } else {
        let b = data[pos];
        if b == 0 {
            Ok((Seq::empty(), pos + 1))
        } else if b == 255 {
            if pos + 4 > data.len() {
                Err(ParseError::TruncatedEventDate)
            } else {
                spec_tags_from(data, pos + 4)
            }
        } else if b >= 241 {
            let name = spec_common_tag(b - 241);
            let vlp = pos + 1;
            if vlp >= data.len() {
                Err(ParseError::MissingValueLength)
            } else {
                let vl = data[vlp] as int;
                if vlp + 1 + vl > data.len() {
                    Err(ParseError::TruncatedTagValue)
                } else {
                    let value = utf8_lossy_of(data.subrange(vlp + 1, vlp + 1 + vl));
                    match spec_tags_from(data, vlp + 1 + vl) {
                        Ok((rest, end)) => Ok(
                            (seq![TagModel { name, value }] + rest, end),
                        ),
                        Err(e) => Err(e),
                    }
                }
            }
        } else {
            let tl = b as int;
            if pos + 1 + tl > data.len() {
                Err(ParseError::TruncatedTagName)
            } else {
                let name = utf8_lossy_of(data.subrange(pos + 1, pos + 1 + tl));
                let vlp = pos + 1 + tl;
                if vlp >= data.len() {
                    Err(ParseError::MissingValueLength)
                } else {
                    let vl = data[vlp] as int;
                    if vlp + 1 + vl > data.len() {
                        Err(ParseError::TruncatedTagValue)
                    } else {
                        let value = utf8_lossy_of(data.subrange(vlp + 1, vlp + 1 + vl));
                        match spec_tags_from(data, vlp + 1 + vl) {
                            Ok((rest, end)) => Ok(
                                (seq![TagModel { name, value }] + rest, end),
                            ),
                            Err(e) => Err(e),
                        }
                    }
                }
            }
        }
    }
}

/// `spec_find_zero` never looks backward and never runs past the end.
pub proof fn lemma_find_zero_bounds(data: Seq<u8>, from: int)
    requires
        0 <= from <= data.len(),
    ensures
        from <= spec_find_zero(data, from) <= data.len(),
    decreases data.len() - from,
{
    if from < data.len() && data[from] != 0 {
        lemma_find_zero_bounds(data, from + 1);
    }
}

#[via_fn]
proof fn spec_elements_from_decreases(data: Seq<u8>, pos: int) {
    if 0 <= pos < data.len() {
        lemma_find_zero_bounds(data, pos + 1);
    }
}

/// The first index at or after `from` holding a zero byte, or the data
/// length when none does.
pub open spec fn spec_find_zero(data: Seq<u8>, from: int) -> int
    decreases data.len() - from,
{
    if from < 0 || from >= data.len() {
        data.len() as int
    } else if data[from] == 0 {
        from
    } else {
        spec_find_zero(data, from + 1)
    }
}

/// Tokenize the element stream from `pos`: marker bytes 11-15 become
/// annotation, comment, variation and end elements, every other byte
/// is a move byte (with its multi-byte extension scan).  Returns the
/// elements and the position after the last byte consumed.
pub open spec fn spec_elements_from(data: Seq<u8>, pos: int) -> Result<
    (Seq<ElemModel>, int),
    ParseError,
>
    decreases data.len() - pos,
    via spec_elements_from_decreases
{
    if pos < 0 || pos >= data.len() {
        Ok((Seq::empty(), if pos < 0 {
            pos
        } else {
            data.len() as int
        }))
    } else {
        let b = data[pos];
        if b == 15 {
            Ok((seq![ElemModel::GameEnd { offset: pos }], pos + 1))
        } else if b == 11 {
            if pos + 1 >= data.len() {
                Err(ParseError::MissingNagValue)
            } else {
                match spec_elements_from(data, pos + 2) {
                    Ok((rest, end)) => Ok(
                        (
                            seq![ElemModel::Nag { nag_value: data[pos + 1], offset: pos }]
                                + rest,
                            end,
                        ),
                    ),
                    Err(e) => Err(e),
                }
            }
        } else if b == 12 {
            let z = spec_find_zero(data, pos + 1);
            if z >= data.len() {
                Err(ParseError::UnterminatedComment)
            } else {
                match spec_elements_from(data, z + 1) {
                    Ok((rest, end)) => Ok(
                        (
                            seq![
                                ElemModel::Comment {
                                    text: utf8_lossy_of(data.subrange(pos + 1, z)),
                                    offset: pos,
                                },
                            ] + rest,
                            end,
                        ),
                    ),
                    Err(e) => Err(e),
                }
            }
        } else if b == 13 {
            match spec_elements_from(data, pos + 1) {
                Ok((rest, end)) => Ok(
                    (seq![ElemModel::VariationStart { offset: pos }] + rest, end),
                ),
                Err(e) => Err(e),
            }
        } else if b == 14 {
            match spec_elements_from(data, pos + 1) {
                Ok((rest, end)) => Ok(
                    (seq![ElemModel::VariationEnd { offset: pos }] + rest, end),
                ),
                Err(e) => Err(e),
            }
        } else {
            let n = b >> 4u8;
            let v = b & 0x0F;
            match spec_parse_multi(data, pos, n, v) {
                Err(e) => Err(e),
                Ok((c, bytes)) => {
                    let decoded = if bytes.len() > 1 {
                        spec_try_decode_multi(n, v, bytes)
                    } else {
                        spec_try_decode_move(n, v, b)
                    };
                    let step = if c < 1 {
                        1int
                    } else {
                        c
                    };
                    match spec_elements_from(data, pos + step) {
                        Ok((rest, end)) => Ok(
                            (
                                seq![
                                    ElemModel::Move {
                                        piece_num: n,
                                        move_value: v,
                                        raw_byte: b,
                                        offset: pos,
                                        decoded,
                                    },
                                ] + rest,
                                end,
                            ),
                        ),
                        Err(e) => Err(e),
                    }
                },
            }
        }
    }
}

} // verus!

verus! {

/// Everything read from one game record: the tags, the flags byte,
/// the element stream, and the section offsets.
#[derive(Debug)]
pub struct GameParseState {
    pub tags: Vec<PgnTag>,
    pub flags: GameFlags,
    pub elements: Vec<GameElement>,
    pub tags_end_offset: usize,
    pub flags_offset: usize,
    pub moves_start_offset: usize,
}

/// Spec-level picture of a parsed game record.
pub struct GameStateModel {
    pub tags: Seq<TagModel>,
    pub flags: GameFlags,
    pub elements: Seq<ElemModel>,
    pub tags_end_offset: int,
    pub flags_offset: int,
    pub moves_start_offset: int,
}

impl View for GameParseState {
    type V = GameStateModel;

    open spec fn view(&self) -> GameStateModel {
        GameStateModel {
            tags: tag_views(self.tags@),
            flags: self.flags,
            elements: elem_views(self.elements@),
            tags_end_offset: self.tags_end_offset as int,
            flags_offset: self.flags_offset as int,
            moves_start_offset: self.moves_start_offset as int,
        }
    }
}

/// The full parse of one game record: the tag section, then the flags
/// byte, then the element stream.
pub open spec fn spec_game_parse(data: Seq<u8>) -> Result<GameStateModel, ParseError> {
    match spec_tags_from(data, 0) {
        Err(e) => Err(e),
        Ok((tags, tend)) => if tend >= data.len() {
            Err(ParseError::MissingFlagsByte)
        } else {
            match spec_elements_from(data, tend + 1) {
                Err(e) => Err(e),
                Ok((elements, _end)) => Ok(
                    GameStateModel {
                        tags,
                        flags: spec_game_flags(data[tend]),
                        elements,
                        tags_end_offset: tend,
                        flags_offset: tend,
                        moves_start_offset: tend + 1,
                    },
                ),
            }
        },
    }
}

/// Parse one game record: the optional non-standard tag section, the
/// game flags byte, and the element stream up to the end-of-game
/// marker (or the end of the data).  Fails exactly on the structural
/// errors `spec_game_parse` names; everything else is tokenized.
pub fn parse_pgn_tags(game_data: &[u8]) -> (r: Result<GameParseState, ParseError>)
    ensures
        match r {
            Ok(state) => spec_game_parse(game_data@) == Ok::<GameStateModel, ParseError>(state@),
            Err(e) => spec_game_parse(game_data@) == Err::<GameStateModel, ParseError>(e),
        },
{
    let len = game_data.len();

    let (tags, tags_end_offset) = match parse_tags_section(game_data) {
        Ok(t) => t,
        Err(e) => {
            return Err(e);
        },
    };
    let pos = tags_end_offset;

    // The game flags byte follows the tag section.
    if pos >= len {
        return Err(ParseError::MissingFlagsByte);
    }

    let flags_byte = game_data[pos];
    let flags_offset = pos;
    let moves_start_offset = pos + 1;

    let flags = GameFlags {
        non_standard_start: (flags_byte & 1) != 0,
        has_promotions: (flags_byte & 2) != 0,
        has_under_promotions: (flags_byte & 4) != 0,
        raw_value: flags_byte,
    };

    let elements = match parse_elements_section(game_data, moves_start_offset) {
        Ok(t) => t,
        Err(e) => {
            return Err(e);
        },
    };

    Ok(
        GameParseState {
            tags,
            flags,
            elements,
            tags_end_offset,
            flags_offset,
            moves_start_offset,
        },
    )
}

/// Parse the non-standard tag section at the front of a game record.
#[verifier::rlimit(100)]
fn parse_tags_section(game_data: &[u8]) -> (r: Result<(Vec<PgnTag>, usize), ParseError>)
    ensures
        match r {
            Ok((tags, end)) => spec_tags_from(game_data@, 0) == Ok::<
                (Seq<TagModel>, int),
                ParseError,
            >((tag_views(tags@), end as int)),
            Err(e) => spec_tags_from(game_data@, 0) == Err::<(Seq<TagModel>, int), ParseError>(e),
        },
{
    let ghost data_s = game_data@;
    let len = game_data.len();

    let mut tags: Vec<PgnTag> = Vec::new();
    let mut pos: usize = 0;
    let mut done: bool = false;

    while !done && pos < len
        invariant
            pos <= len,
            len == data_s.len(),
            data_s == game_data@,
            !done ==> spec_tags_from(data_s, 0) == (match spec_tags_from(data_s, pos as int) {
                Ok((rest, end)) => Ok::<(Seq<TagModel>, int), ParseError>(
                    (tag_views(tags@) + rest, end),
                ),
                Err(e) => Err::<(Seq<TagModel>, int), ParseError>(e),
            }),
            done ==> spec_tags_from(data_s, 0) == Ok::<(Seq<TagModel>, int), ParseError>(
                (tag_views(tags@), pos as int),
            ),
        decreases (if done {
            0int
        } else {
            data_s.len() - pos + 1
        }),
    {
        let ghost pos0 = pos as int;
        let ghost tags0 = tags@;
        let tag_length_byte = game_data[pos];
        pos = pos + 1;

        if tag_length_byte == 0 {
            done = true;
            proof {
                assert(spec_tags_from(data_s, pos0) == Ok::<(Seq<TagModel>, int), ParseError>(
                    (Seq::empty(), pos0 + 1),
                ));
                assert(tag_views(tags@) + Seq::<TagModel>::empty() =~= tag_views(tags@));
            }
        } else if tag_length_byte == 255 {
            // A binary coded event date: three bytes follow.
            if len - pos < 3 {
                proof {
                    assert(spec_tags_from(data_s, pos0) == Err::<
                        (Seq<TagModel>, int),
                        ParseError,
                    >(ParseError::TruncatedEventDate));
                }
                return Err(ParseError::TruncatedEventDate);
            }
            pos = pos + 3;
        } else {
            let (tag_name, value_length_pos): (String, usize) = if tag_length_byte >= 241 {
                let common_tag_index = tag_length_byte - 241;
                (common_tag(common_tag_index).to_owned(), pos)
            } else {
                let tag_len = tag_length_byte as usize;
                if tag_len > len - pos {
                    proof {
                        assert(spec_tags_from(data_s, pos0) == Err::<
                            (Seq<TagModel>, int),
                            ParseError,
                        >(ParseError::TruncatedTagName));
                    }
                    return Err(ParseError::TruncatedTagName);
                }
                let name_bytes = vstd::slice::slice_subrange(game_data, pos, pos + tag_len);
                let name = utf8_lossy(name_bytes);
                pos = pos + tag_len;
                (name, pos)
            };

            if value_length_pos >= len {
                proof {
                    assert(spec_tags_from(data_s, pos0) == Err::<(Seq<TagModel>, int), ParseError>(
                        ParseError::MissingValueLength,
                    ));
                }
                return Err(ParseError::MissingValueLength);
            }
            let value_len = game_data[value_length_pos] as usize;
            pos = value_length_pos + 1;

            if value_len > len - pos {
                proof {
                    assert(spec_tags_from(data_s, pos0) == Err::<(Seq<TagModel>, int), ParseError>(
                        ParseError::TruncatedTagValue,
                    ));
                }
                return Err(ParseError::TruncatedTagValue);
            }
            let value_bytes = vstd::slice::slice_subrange(game_data, pos, pos + value_len);
            let tag_value = utf8_lossy(value_bytes);
            pos = pos + value_len;

            tags.push(PgnTag { name: tag_name, value: tag_value });

            proof {
                let tm = TagModel { name: tags@[tags@.len() - 1].name@, value: tags@[tags@.len() - 1].value@ };
                assert(tag_views(tags@) =~= tag_views(tags0).push(tags@[tags@.len() - 1]@));
                match spec_tags_from(data_s, pos as int) {
                    Ok((rest, end)) => {
                        assert(tag_views(tags@) + rest =~= tag_views(tags0) + (seq![
                            tags@[tags@.len() - 1]@,
                        ] + rest));
                    },
                    Err(_) => {},
                }
            }
        }
    }

    proof {
        if !done {
            assert(spec_tags_from(data_s, pos as int) == Ok::<(Seq<TagModel>, int), ParseError>(
                (Seq::empty(), data_s.len() as int),
            ));
            assert(tag_views(tags@) + Seq::<TagModel>::empty() =~= tag_views(tags@));
        }
    }
    Ok((tags, pos))
}

/// Tokenize the element stream of a game record, from
/// `moves_start_offset` to the end-of-game marker or the end of the
/// data.
#[verifier::rlimit(100)]
fn parse_elements_section(game_data: &[u8], moves_start_offset: usize) -> (r: Result<
    Vec<GameElement>,
    ParseError,
>)
    requires
        moves_start_offset <= game_data@.len(),
    ensures
        match r {
            Ok(elements) => (match spec_elements_from(game_data@, moves_start_offset as int) {
                Ok((elems, _end)) => elem_views(elements@) == elems,
                Err(_) => false,
            }),
            Err(e) => spec_elements_from(game_data@, moves_start_offset as int) == Err::<
                (Seq<ElemModel>, int),
                ParseError,
            >(e),
        },
{
    let ghost data_s = game_data@;
    let len = game_data.len();
    let mut pos: usize = moves_start_offset;

    // Tokenize the element stream.
    let mut elements: Vec<GameElement> = Vec::new();
    let mut edone: bool = false;

    while !edone && pos < len
        invariant
            pos <= len,
            len == data_s.len(),
            data_s == game_data@,
            moves_start_offset <= len,
            !edone ==> spec_elements_from(data_s, moves_start_offset as int) == (
            match spec_elements_from(data_s, pos as int) {
                Ok((rest, end)) => Ok::<(Seq<ElemModel>, int), ParseError>(
                    (elem_views(elements@) + rest, end),
                ),
                Err(e) => Err::<(Seq<ElemModel>, int), ParseError>(e),
            }),
            edone ==> spec_elements_from(data_s, moves_start_offset as int) == Ok::<
                (Seq<ElemModel>, int),
                ParseError,
            >((elem_views(elements@), pos as int)),
        decreases (if edone {
            0int
        } else {
            data_s.len() - pos + 1
        }),
    {
        let ghost posE = pos as int;
        let ghost elems0 = elements@;
        let byte_val = game_data[pos];
        let element_offset = pos;
        pos = pos + 1;

        if byte_val == ENCODE_END_GAME {
            elements.push(GameElement::GameEnd { offset: element_offset });
            edone = true;
            proof {
                assert(elem_views(elements@) =~= elem_views(elems0).push(
                    elements@[elements@.len() - 1]@,
                ));
                assert(elem_views(elements@) =~= elem_views(elems0) + seq![
                    ElemModel::GameEnd { offset: posE },
                ]);
            }
        } else if byte_val == ENCODE_NAG {
            if pos >= len {
                return Err(ParseError::MissingNagValue);
            }
            let nag_value = game_data[pos];
            pos = pos + 1;
            elements.push(GameElement::Nag { nag_value, offset: element_offset });
            proof {
                assert(elem_views(elements@) =~= elem_views(elems0).push(
                    elements@[elements@.len() - 1]@,
                ));
                match spec_elements_from(data_s, pos as int) {
                    Ok((rest, end)) => {
                        assert(elem_views(elements@) + rest =~= elem_views(elems0) + (seq![
                            ElemModel::Nag { nag_value, offset: posE },
                        ] + rest));
                    },
                    Err(_) => {},
                }
            }
        } else if byte_val == ENCODE_COMMENT {
            // The comment text runs to the next zero byte.
            let comment_start = pos;
            let mut comment_end = pos;
            while comment_end < len && game_data[comment_end] != 0
                invariant
                    comment_start <= comment_end <= len,
                    len == data_s.len(),
                    data_s == game_data@,
                    spec_find_zero(data_s, comment_start as int) == spec_find_zero(
                        data_s,
                        comment_end as int,
                    ),
                decreases data_s.len() - comment_end,
            {
                comment_end = comment_end + 1;
            }

            if comment_end >= len {
                return Err(ParseError::UnterminatedComment);
            }

            let text_bytes = vstd::slice::slice_subrange(game_data, comment_start, comment_end);
            let comment_text = utf8_lossy(text_bytes);
            pos = comment_end + 1;

            elements.push(GameElement::Comment { text: comment_text, offset: element_offset });
            proof {
                assert(spec_find_zero(data_s, comment_start as int) == comment_end as int);
                assert(elem_views(elements@) =~= elem_views(elems0).push(
                    elements@[elements@.len() - 1]@,
                ));
                match spec_elements_from(data_s, pos as int) {
                    Ok((rest, end)) => {
                        assert(elem_views(elements@) + rest =~= elem_views(elems0) + (seq![
                            elements@[elements@.len() - 1]@,
                        ] + rest));
                    },
                    Err(_) => {},
                }
            }
        } else if byte_val == ENCODE_START_MARKER {
            elements.push(GameElement::VariationStart { offset: element_offset });
            proof {
                assert(elem_views(elements@) =~= elem_views(elems0).push(
                    elements@[elements@.len() - 1]@,
                ));
                match spec_elements_from(data_s, pos as int) {
                    Ok((rest, end)) => {
                        assert(elem_views(elements@) + rest =~= elem_views(elems0) + (seq![
                            ElemModel::VariationStart { offset: posE },
                        ] + rest));
                    },
                    Err(_) => {},
                }
            }
        } else if byte_val == ENCODE_END_MARKER {
            elements.push(GameElement::VariationEnd { offset: element_offset });
            proof {
                assert(elem_views(elements@) =~= elem_views(elems0).push(
                    elements@[elements@.len() - 1]@,
                ));
                match spec_elements_from(data_s, pos as int) {
                    Ok((rest, end)) => {
                        assert(elem_views(elements@) + rest =~= elem_views(elems0) + (seq![
                            ElemModel::VariationEnd { offset: posE },
                        ] + rest));
                    },
                    Err(_) => {},
                }
            }
        } else {
            // A move byte: index in the high nibble, value in the low.
            let piece_num = (byte_val >> 4u8) & 0x0F;
            let move_value = byte_val & 0x0F;
            proof {
                assert(piece_num == byte_val >> 4u8 && byte_val >> 4u8 < 16) by (bit_vector)
                    requires
                        piece_num == (byte_val >> 4u8) & 0x0F,
                ;
            }

            let (bytes_consumed, multi_byte_data) = match parse_multi_byte_move(
                game_data,
                element_offset,
                piece_num,
                move_value,
            ) {
                Ok(t) => t,
                Err(e) => {
                    return Err(e);
                },
            };

            let decoded: Option<DecodedMove> = if multi_byte_data.len() > 1 {
                try_decode_multi_byte_move(piece_num, move_value, multi_byte_data.as_slice())
            } else {
                try_decode_move(piece_num, move_value, byte_val)
            };

            elements.push(
                GameElement::Move {
                    piece_num,
                    move_value,
                    raw_byte: byte_val,
                    offset: element_offset,
                    decoded,
                },
            );

            if bytes_consumed > 1 {
                pos = pos + (bytes_consumed - 1);
            }

            proof {
                assert(elem_views(elements@) =~= elem_views(elems0).push(
                    elements@[elements@.len() - 1]@,
                ));
                match spec_elements_from(data_s, pos as int) {
                    Ok((rest, end)) => {
                        assert(elem_views(elements@) + rest =~= elem_views(elems0) + (seq![
                            elements@[elements@.len() - 1]@,
                        ] + rest));
                    },
                    Err(_) => {},
                }
            }
        }
    }

    proof {
        if !edone {
            assert(spec_elements_from(data_s, pos as int) == Ok::<(Seq<ElemModel>, int), ParseError>(
                (Seq::empty(), data_s.len() as int),
            ));
            assert(elem_views(elements@) + Seq::<ElemModel>::empty() =~= elem_views(elements@));
        }
    }

    Ok(elements)
}

} // verus!

verus! {

/// Game boundaries in a buffer: each end-of-game marker closes a game
/// (inclusive of the marker), and a trailing stretch with no marker
/// forms a final game.
pub open spec fn spec_boundaries_from(data: Seq<u8>, start: int, i: int) -> Seq<(int, int)>
    decreases data.len() - i,
{
    if i < 0 || i >= data.len() {
        if start < data.len() {
            seq![(start, data.len() as int)]
        } else {
            Seq::empty()
        }
    } else if data[i] == 15 {
        seq![(start, i + 1)] + spec_boundaries_from(data, i + 1, i + 1)
    } else {
        spec_boundaries_from(data, start, i + 1)
    }
}

/// The views of a sequence of index pairs.
pub open spec fn pair_views(s: Seq<(usize, usize)>) -> Seq<(int, int)> {
    s.map_values(|p: (usize, usize)| (p.0 as int, p.1 as int))
}

/// Split a buffer into game records at each end-of-game marker; bytes
/// after the last marker form one final record.
pub fn find_game_boundaries(buffer: &[u8]) -> (r: Vec<(usize, usize)>)
    ensures
        pair_views(r@) == spec_boundaries_from(buffer@, 0, 0),
{
    let mut boundaries: Vec<(usize, usize)> = Vec::new();
    let mut game_start: usize = 0;
    let len = buffer.len();

    let mut i: usize = 0;
    while i < len
        invariant
            i <= len,
            game_start <= i,
            len == buffer@.len(),
            spec_boundaries_from(buffer@, 0, 0) == pair_views(boundaries@)
                + spec_boundaries_from(buffer@, game_start as int, i as int),
        decreases len - i,
    {
        let ghost bs0 = boundaries@;
        let ghost gs0 = game_start as int;
        if buffer[i] == ENCODE_END_GAME {
            let game_end = i + 1;
            boundaries.push((game_start, game_end));
            game_start = game_end;
            proof {
                assert(pair_views(boundaries@) =~= pair_views(bs0).push((gs0, i as int + 1)));
                assert(pair_views(bs0) + (seq![(gs0, i as int + 1)] + spec_boundaries_from(
                    buffer@,
                    i as int + 1,
                    i as int + 1,
                )) =~= pair_views(boundaries@) + spec_boundaries_from(
                    buffer@,
                    i as int + 1,
                    i as int + 1,
                ));
            }
        }
        i = i + 1;
    }

    if game_start < len {
        let ghost bs0 = boundaries@;
        boundaries.push((game_start, len));
        proof {
            assert(spec_boundaries_from(buffer@, game_start as int, len as int) =~= seq![
                (game_start as int, len as int),
            ]);
            assert(pair_views(boundaries@) =~= pair_views(bs0).push(
                (game_start as int, len as int),
            ));
            assert(pair_views(boundaries@) =~= pair_views(bs0) + seq![
                (game_start as int, len as int),
            ]);
        }
    } else {
        proof {
            assert(spec_boundaries_from(buffer@, game_start as int, len as int)
                =~= Seq::<(int, int)>::empty());
            assert(pair_views(boundaries@) + Seq::<(int, int)>::empty() =~= pair_views(
                boundaries@,
            ));
        }
    }

    boundaries
}

/// A byte stream that holds no end-of-game marker is still fully
/// consumed: whenever tokenization succeeds on such data, it has read
/// every byte, and no implicit terminator is required.
pub proof fn lemma_elements_consume_all(data: Seq<u8>, pos: int)
    requires
        0 <= pos <= data.len(),
        forall|i: int| pos <= i < data.len() ==> data[i] != 15,
    ensures
        match spec_elements_from(data, pos) {
            Ok((elems, end)) => end == data.len(),
            Err(_) => true,
        },
    decreases data.len() - pos,
{
    if pos < data.len() {
        let b = data[pos];
        if b == 11 {
            if pos + 1 < data.len() {
                lemma_elements_consume_all(data, pos + 2);
            }
        } else if b == 12 {
            lemma_find_zero_bounds(data, pos + 1);
            let z = spec_find_zero(data, pos + 1);
            if z < data.len() {
                lemma_elements_consume_all(data, z + 1);
            }
        } else if b == 13 || b == 14 {
            lemma_elements_consume_all(data, pos + 1);
        } else if b == 15 {
            assert(false);
        } else {
            let n = b >> 4u8;
            let v = b & 0x0F;
            match spec_parse_multi(data, pos, n, v) {
                Ok((c, bytes)) => {
                    let step = if c < 1 {
                        1int
                    } else {
                        c
                    };
                    assert(pos + step <= data.len());
                    lemma_elements_consume_all(data, pos + step);
                },
                Err(_) => {},
            }
        }
    }
}

} // verus!

verus! {

/// The move byte for a relative piece index and move value, as the
/// encoder forms it: index in the high nibble, value in the low.
pub open spec fn spec_move_byte(piece_num: u8, value: u8) -> u8 {
    ((piece_num & 15) << 4u8) | (value & 15)
}

/// Marker safety: every move byte the king (piece index 0) can form
/// with its move values 0-10 stays outside the reserved marker range
/// 11-15, so marker bytes can never collide with a legal king move.
pub proof fn lemma_king_moves_avoid_markers(value: u8)
    requires
        value <= 10,
    ensures
        spec_move_byte(0, value) < 11,
{
    assert(((0u8 & 15) << 4u8) | (value & 15) < 11) by (bit_vector)
        requires
            value <= 10,
    ;
}

/// A move byte splits back into the index and value that formed it.
pub proof fn lemma_move_byte_round_trip(piece_num: u8, value: u8)
    requires
        piece_num < 16,
        value < 16,
    ensures
        spec_move_byte(piece_num, value) >> 4u8 == piece_num,
        spec_move_byte(piece_num, value) & 0x0F == value,
{
    assert((((piece_num & 15) << 4u8) | (value & 15)) >> 4u8 == piece_num && (((piece_num & 15)
        << 4u8) | (value & 15)) & 0x0F == value) by (bit_vector)
        requires
            piece_num < 16,
            value < 16,
    ;
}

} // verus!
