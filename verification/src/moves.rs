//! A minimal move representation used by the PGN export path.  The
//! full position-aware decoder lives in the other modules; this one
//! carries just enough structure to print square-to-square text.

use vstd::prelude::*;

use crate::strutil::{append_decimal, push_char, spec_decimal};

verus! {

/// A move as the exporter sees it: source and destination square
/// numbers and the pieces involved.
#[derive(Debug, Clone)]
pub struct Move {
    pub from_square: u8,
    pub to_square: u8,
    pub piece: Piece,
    pub captured_piece: Option<Piece>,
    pub promotion: Option<Piece>,
    pub is_castling: bool,
    pub is_en_passant: bool,
}

#[derive(Debug, Clone, Copy, PartialEq, Eq, Structural)]
pub enum Piece {
    Pawn,
    Knight,
    Bishop,
    Rook,
    Queen,
    King,
}

/// A minimal position: whose turn it is and the move counters.
#[derive(Debug, Clone, Copy, PartialEq, Eq, Structural)]
pub struct Position {
    pub to_move: Color,
    pub half_move_clock: u16,
    pub full_move_number: u16,
}

#[derive(Debug, Clone, Copy, PartialEq, Eq, Structural)]
pub enum Color {
    White,
    Black,
}

impl Position {
    /// The game's initial scalar state: White to move, fresh counters.
    pub fn starting_position() -> (r: Self)
        ensures
            r == (Position {
                to_move: Color::White,
                half_move_clock: 0u16,
                full_move_number: 1u16,
            }),
    {
        Position { to_move: Color::White, half_move_clock: 0, full_move_number: 1 }
    }
}

/// The square text for a square number below 64: its file letter and
/// one-based rank number.
pub open spec fn spec_square_text(square: u8) -> Seq<char> {
    seq![crate::position::spec_file_char((square % 8) as nat)] + spec_decimal((square / 8 + 1) as nat)
}

/// Render a square number as algebraic text such as `a1`.
pub fn square_to_algebraic(square: u8) -> (r: String)
    requires
        square < 64,
    ensures
        r@ == spec_square_text(square),
{
    let mut s = String::new();
    push_char(&mut s, crate::position::file_char(square % 8));
    append_decimal(&mut s, (square / 8 + 1) as u64);
    proof {
        assert(s@ =~= spec_square_text(square));
    }
    s
}

impl Move {
    /// Source-and-destination text for the move, such as `e2e4`.
    pub fn to_algebraic(&self) -> (r: String)
        requires
            self.from_square < 64,
            self.to_square < 64,
        ensures
            r@ == spec_square_text(self.from_square) + spec_square_text(self.to_square),
    {
        let mut s = square_to_algebraic(self.from_square);
        let t = square_to_algebraic(self.to_square);
        s.append(t.as_str());
        s
    }
}

impl Piece {
    /// The upper-case letter for the piece.
    pub fn to_char(&self) -> (r: char)
        ensures
            r == (match self {
                Piece::Pawn => 'P',
                Piece::Knight => 'N',
                Piece::Bishop => 'B',
                Piece::Rook => 'R',
                Piece::Queen => 'Q',
                Piece::King => 'K',
            }),
    {
        match self {
            Piece::Pawn => 'P',
            Piece::Knight => 'N',
            Piece::Bishop => 'B',
            Piece::Rook => 'R',
            Piece::Queen => 'Q',
            Piece::King => 'K',
        }
    }
}

/// Move decoding for the export path is not implemented: every input
/// yields an empty move list, and the exporter prints a placeholder.
pub fn parse_scid_moves(_data: &[u8]) -> (r: Vec<Move>)
    ensures
        r@.len() == 0,
{
    Vec::new()
}

} // verus!
