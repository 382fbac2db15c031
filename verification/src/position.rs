//! Chess position tracking for SCID move decoding.
//!
//! A `ChessPosition` owns the board grid, a map from each piece's stable
//! id (0-31) to its current square, castling rights, the en-passant
//! target, the side to move and the move counters.  The board grid and
//! the id-to-square map are kept mutually consistent at all times; that
//! consistency is the `wf` well-formedness predicate below.

use vstd::prelude::*;

use crate::strutil::push_char;
use vstd::string::StringSliceAdditionalSpecFns;

verus! {

/// A chess piece: its type, its color, and its stable id (0-31; white
/// pieces take 0-15, black pieces 16-31, the king of each side first).
#[derive(Debug, Clone, Copy, PartialEq, Eq, Structural)]
pub struct Piece {
    pub piece_type: PieceType,
    pub color: Color,
    pub id: u8,
}

#[derive(Debug, Clone, Copy, PartialEq, Eq, Structural)]
pub enum PieceType {
    King,
    Queen,
    Rook,
    Bishop,
    Knight,
    Pawn,
}

impl PieceType {
    /// Full name of the piece type, as display code spells it.
    pub fn name(&self) -> (r: &'static str)
        ensures
            r@ == self.spec_name(),
    {
        match self {
            PieceType::King => "King",
            PieceType::Queen => "Queen",
            PieceType::Rook => "Rook",
            PieceType::Bishop => "Bishop",
            PieceType::Knight => "Knight",
            PieceType::Pawn => "Pawn",
        }
    }

    pub open spec fn spec_name(self) -> Seq<char> {
        match self {
            PieceType::King => "King"@,
            PieceType::Queen => "Queen"@,
            PieceType::Rook => "Rook"@,
            PieceType::Bishop => "Bishop"@,
            PieceType::Knight => "Knight"@,
            PieceType::Pawn => "Pawn"@,
        }
    }
}

#[derive(Debug, Clone, Copy, PartialEq, Eq, Structural)]
pub enum Color {
    White,
    Black,
}

impl Color {
    /// The other side.
    pub fn opposite(self) -> (r: Color)
        ensures
            r == self.spec_opposite(),
    {
        match self {
            Color::White => Color::Black,
            Color::Black => Color::White,
        }
    }

    pub open spec fn spec_opposite(self) -> Color {
        match self {
            Color::White => Color::Black,
            Color::Black => Color::White,
        }
    }
}

/// Errors raised while building squares or applying moves.
#[derive(Debug, Clone, Copy, PartialEq, Eq, Structural)]
pub enum PositionError {
    /// File or rank out of the 0-7 range.
    InvalidSquare,
    /// Algebraic square text is not exactly two characters.
    NotationLength,
    /// First character of algebraic square text is not `a`-`h`.
    InvalidFile,
    /// Second character of algebraic square text is not `1`-`8`.
    InvalidRank,
    /// No piece stands on the move's source square.
    NoPieceAtSource,
    /// The piece on the source square is not the one the move claims.
    PieceIdMismatch,
}

/// A board square, stored as `rank * 8 + file` (0 = a1, 63 = h8).
#[derive(Debug, Clone, Copy, PartialEq, Eq, Hash, Structural)]
pub struct Square(pub u8);

impl Square {
    /// Build a square from file (0 = a) and rank (0 = rank 1); both
    /// must be below 8, else `InvalidSquare`.
    pub fn new(file: u8, rank: u8) -> (r: Result<Square, PositionError>)
        ensures
            r == Self::spec_new(file, rank),
    {
        if file >= 8 || rank >= 8 {
            return Err(PositionError::InvalidSquare);
        }
        Ok(Square(rank * 8 + file))
    }

    pub open spec fn spec_new(file: u8, rank: u8) -> Result<Square, PositionError> {
        if file >= 8 || rank >= 8 {
            Err(PositionError::InvalidSquare)
        } else {
            Ok(Square((rank * 8 + file) as u8))
        }
    }

    /// Parse two-character algebraic square text such as `e4`.  The
    /// result is `Ok` exactly when the text is two bytes, the first
    /// `a`-`h` and the second `1`-`8`.
    pub fn from_algebraic(notation: &str) -> (r: Result<Square, PositionError>)
        ensures
            r == Self::spec_from_algebraic(notation.spec_bytes()),
    {
        let bytes = notation.as_bytes();
        if bytes.len() != 2 {
            return Err(PositionError::NotationLength);
        }

        let c0 = bytes[0];
        let file: u8 = if ('a' as u8) <= c0 && c0 <= ('h' as u8) {
            c0 - ('a' as u8)
        } else {
            return Err(PositionError::InvalidFile);
        };

        let c1 = bytes[1];
        let rank: u8 = if ('1' as u8) <= c1 && c1 <= ('8' as u8) {
            c1 - ('1' as u8)
        } else {
            return Err(PositionError::InvalidRank);
        };

        Ok(Square(rank * 8 + file))
    }

    pub open spec fn spec_from_algebraic(bytes: Seq<u8>) -> Result<Square, PositionError> {
        if bytes.len() != 2 {
            Err(PositionError::NotationLength)
        } else if !(('a' as u8) <= bytes[0] <= ('h' as u8)) {
            Err(PositionError::InvalidFile)
        } else if !(('1' as u8) <= bytes[1] <= ('8' as u8)) {
            Err(PositionError::InvalidRank)
        } else {
            Ok(Square(((bytes[1] - ('1' as u8)) * 8 + (bytes[0] - ('a' as u8))) as u8))
        }
    }

    /// File of the square, 0 (a) to 7 (h).
    pub fn file(self) -> (r: u8)
        ensures
            r == self.0 % 8,
    {
        self.0 % 8
    }

    /// Rank of the square, 0 (rank 1) to 7 (rank 8).
    pub fn rank(self) -> (r: u8)
        ensures
            r == self.0 / 8,
    {
        self.0 / 8
    }

    /// The two algebraic characters of the square: its file letter
    /// followed by its rank digit.
    pub open spec fn spec_algebraic(self) -> Seq<char> {
        seq![spec_file_char((self.0 % 8) as nat), spec_rank_char((self.0 / 8) as nat)]
    }

    /// Render the square as two-character algebraic text.
    pub fn to_algebraic(self) -> (r: String)
        requires
            self.0 < 64,
        ensures
            r@ == self.spec_algebraic(),
    {
        let mut s = String::new();
        push_char(&mut s, file_char(self.0 % 8));
        push_char(&mut s, rank_char(self.0 / 8));
        proof {
            assert(s@ =~= self.spec_algebraic());
        }
        s
    }
}

/// The letter for a file index.
pub open spec fn spec_file_char(file: nat) -> char {
    if file == 0 {
        'a'
    } else if file == 1 {
        'b'
    } else if file == 2 {
        'c'
    } else if file == 3 {
        'd'
    } else if file == 4 {
        'e'
    } else if file == 5 {
        'f'
    } else if file == 6 {
        'g'
    } else {
        'h'
    }
}

/// The digit for a rank index (rank 0 prints as `1`).
pub open spec fn spec_rank_char(rank: nat) -> char {
    if rank == 0 {
        '1'
    } else if rank == 1 {
        '2'
    } else if rank == 2 {
        '3'
    } else if rank == 3 {
        '4'
    } else if rank == 4 {
        '5'
    } else if rank == 5 {
        '6'
    } else if rank == 6 {
        '7'
    } else {
        '8'
    }
}

pub fn file_char(file: u8) -> (c: char)
    requires
        file < 8,
    ensures
        c == spec_file_char(file as nat),
{
    match file {
        0 => 'a',
        1 => 'b',
        2 => 'c',
        3 => 'd',
        4 => 'e',
        5 => 'f',
        6 => 'g',
        _ => 'h',
    }
}

pub fn rank_char(rank: u8) -> (c: char)
    requires
        rank < 8,
    ensures
        c == spec_rank_char(rank as nat),
{
    match rank {
        0 => '1',
        1 => '2',
        2 => '3',
        3 => '4',
        4 => '5',
        5 => '6',
        6 => '7',
        _ => '8',
    }
}

/// Which castlings are still available to each side.
#[derive(Debug, Clone, Copy, PartialEq, Eq, Structural)]
pub struct CastlingRights {
    pub white_kingside: bool,
    pub white_queenside: bool,
    pub black_kingside: bool,
    pub black_queenside: bool,
}

impl CastlingRights {
    /// All four castlings available.
    pub fn new() -> (r: Self)
        ensures
            r.white_kingside && r.white_queenside && r.black_kingside && r.black_queenside,
    {
        CastlingRights {
            white_kingside: true,
            white_queenside: true,
            black_kingside: true,
            black_queenside: true,
        }
    }

    pub open spec fn spec_can_castle(self, color: Color, kingside: bool) -> bool {
        match (color, kingside) {
            (Color::White, true) => self.white_kingside,
            (Color::White, false) => self.white_queenside,
            (Color::Black, true) => self.black_kingside,
            (Color::Black, false) => self.black_queenside,
        }
    }

    /// Whether the given side may still castle on the given wing.
    pub fn can_castle(&self, color: Color, kingside: bool) -> (r: bool)
        ensures
            r == self.spec_can_castle(color, kingside),
    {
        match (color, kingside) {
            (Color::White, true) => self.white_kingside,
            (Color::White, false) => self.white_queenside,
            (Color::Black, true) => self.black_kingside,
            (Color::Black, false) => self.black_queenside,
        }
    }

    /// Rights after disabling one wing (`Some`) or both (`None`) for a
    /// color.
    pub open spec fn spec_disabled(self, color: Color, kingside: Option<bool>) -> CastlingRights {
        match (color, kingside) {
            (Color::White, Some(true)) => CastlingRights { white_kingside: false, ..self },
            (Color::White, Some(false)) => CastlingRights { white_queenside: false, ..self },
            (Color::White, None) => CastlingRights {
                white_kingside: false,
                white_queenside: false,
                ..self
            },
            (Color::Black, Some(true)) => CastlingRights { black_kingside: false, ..self },
            (Color::Black, Some(false)) => CastlingRights { black_queenside: false, ..self },
            (Color::Black, None) => CastlingRights {
                black_kingside: false,
                black_queenside: false,
                ..self
            },
        }
    }

    /// Disable castling for `color`: one wing when `kingside` is
    /// `Some`, both wings when it is `None`.
    pub fn disable_castling(&mut self, color: Color, kingside: Option<bool>)
        ensures
            *final (self) == old(self).spec_disabled(color, kingside),
    {
        match (color, kingside) {
            (Color::White, Some(true)) => self.white_kingside = false,
            (Color::White, Some(false)) => self.white_queenside = false,
            (Color::White, None) => {
                self.white_kingside = false;
                self.white_queenside = false;
            },
            (Color::Black, Some(true)) => self.black_kingside = false,
            (Color::Black, Some(false)) => self.black_queenside = false,
            (Color::Black, None) => {
                self.black_kingside = false;
                self.black_queenside = false;
            },
        }
    }
}

/// One chess move: source, destination, the moving piece's pre-move
/// identity, any captured piece, any promotion, and the special-move
/// flags.
#[derive(Debug, Clone, Copy, PartialEq, Eq, Structural)]
pub struct Move {
    pub from: Square,
    pub to: Square,
    pub piece: Piece,
    pub captured_piece: Option<Piece>,
    pub promotion: Option<PieceType>,
    pub is_castling: bool,
    pub is_en_passant: bool,
    pub gives_check: bool,
    pub is_checkmate: bool,
}

impl Move {
    /// A plain move of `piece` from `from` to `to`: no capture, no
    /// promotion, no special flags.
    pub fn new(from: Square, to: Square, piece: Piece) -> (r: Self)
        ensures
            r == (Move {
                from,
                to,
                piece,
                captured_piece: None::<Piece>,
                promotion: None::<PieceType>,
                is_castling: false,
                is_en_passant: false,
                gives_check: false,
                is_checkmate: false,
            }),
    {
        Move {
            from,
            to,
            piece,
            captured_piece: None,
            promotion: None,
            is_castling: false,
            is_en_passant: false,
            gives_check: false,
            is_checkmate: false,
        }
    }
}

} // verus!

use vstd::prelude::*;

verus! {

/// Mathematical model of a `ChessPosition`: the board as a sequence of
/// 64 cells, the id-to-square map as a sequence of 32 entries, and the
/// scalar state.
pub struct PosModel {
    pub board: Seq<Option<Piece>>,
    pub locs: Seq<Option<Square>>,
    pub castling: CastlingRights,
    pub ep: Option<Square>,
    pub to_move: Color,
    pub half_moves: u16,
    pub full_moves: u16,
    pub history: Seq<Move>,
}

impl PosModel {
    /// Well-formedness: 64 board cells, 32 location entries, and the
    /// two maps are mutual inverses restricted to occupied squares.
    pub open spec fn wf(self) -> bool {
        &&& self.board.len() == 64
        &&& self.locs.len() == 32
        &&& forall|id: int|
            0 <= id < 32 ==> match #[trigger] self.locs[id] {
                Some(sq) => sq.0 < 64 && match self.board[sq.0 as int] {
                    Some(p) => p.id == id,
                    None => false,
                },
                None => true,
            }
        &&& forall|s: int|
            0 <= s < 64 ==> match #[trigger] self.board[s] {
                Some(p) => p.id < 32 && self.locs[p.id as int] == Some(Square(s as u8)),
                None => true,
            }
    }
}

/// Complete chess position state: board grid, piece-id location map,
/// castling rights, en-passant target, side to move and move counters.
#[derive(Debug, Clone)]
pub struct ChessPosition {
    /// Cell `rank * 8 + file` holds the occupant of that square.
    pub board: Vec<Option<Piece>>,
    /// Entry `id` holds the current square of the piece with that
    /// stable id, or `None` once it has been captured.
    pub piece_locations: Vec<Option<Square>>,
    pub castling_rights: CastlingRights,
    pub en_passant_target: Option<Square>,
    pub to_move: Color,
    pub half_moves: u16,
    pub full_moves: u16,
    pub move_history: Vec<Move>,
}

impl View for ChessPosition {
    type V = PosModel;

    open spec fn view(&self) -> PosModel {
        PosModel {
            board: self.board@,
            locs: self.piece_locations@,
            castling: self.castling_rights,
            ep: self.en_passant_target,
            to_move: self.to_move,
            half_moves: self.half_moves,
            full_moves: self.full_moves,
            history: self.move_history@,
        }
    }
}

/// Piece type on the back rank, by file.
pub open spec fn spec_back_rank_type(file: int) -> PieceType {
    if file == 0 {
        PieceType::Rook
    } else if file == 1 {
        PieceType::Knight
    } else if file == 2 {
        PieceType::Bishop
    } else if file == 3 {
        PieceType::Queen
    } else if file == 4 {
        PieceType::King
    } else if file == 5 {
        PieceType::Bishop
    } else if file == 6 {
        PieceType::Knight
    } else {
        PieceType::Rook
    }
}

/// Stable id of White's back-rank piece, by file.
pub open spec fn spec_white_back_id(file: int) -> u8 {
    if file == 0 {
        2
    } else if file == 1 {
        11
    } else if file == 2 {
        10
    } else if file == 3 {
        1
    } else if file == 4 {
        0
    } else if file == 5 {
        3
    } else if file == 6 {
        4
    } else {
        9
    }
}

/// Stable id of White's pawn, by file.
pub open spec fn spec_white_pawn_id(file: int) -> u8 {
    if file == 0 {
        5
    } else if file == 1 {
        6
    } else if file == 2 {
        7
    } else if file == 3 {
        8
    } else if file == 4 {
        12
    } else if file == 5 {
        13
    } else if file == 6 {
        14
    } else {
        15
    }
}

/// Occupant of each square in the starting position.  Black mirrors
/// White with ids offset by 16.
pub open spec fn spec_starting_piece_at(s: int) -> Option<Piece> {
    let file = s % 8;
    let rank = s / 8;
    if rank == 0 {
        Some(
            Piece {
                piece_type: spec_back_rank_type(file),
                color: Color::White,
                id: spec_white_back_id(file),
            },
        )
    } else if rank == 1 {
        Some(Piece { piece_type: PieceType::Pawn, color: Color::White, id: spec_white_pawn_id(file) })
    } else if rank == 6 {
        Some(
            Piece {
                piece_type: PieceType::Pawn,
                color: Color::Black,
                id: (spec_white_pawn_id(file) + 16) as u8,
            },
        )
    } else if rank == 7 {
        Some(
            Piece {
                piece_type: spec_back_rank_type(file),
                color: Color::Black,
                id: (spec_white_back_id(file) + 16) as u8,
            },
        )
    } else {
        None
    }
}

/// Square number that each stable id occupies in the starting position.
pub open spec fn spec_starting_square_of(id: int) -> int
    decreases (if id < 16 { 0int } else { id }),
{
    if id < 16 {
        if id == 0 {
            4
        } else if id == 1 {
            3
        } else if id == 2 {
            0
        } else if id == 3 {
            5
        } else if id == 4 {
            6
        } else if id == 9 {
            7
        } else if id == 10 {
            2
        } else if id == 11 {
            1
        } else if id == 5 {
            8
        } else if id == 6 {
            9
        } else if id == 7 {
            10
        } else if id == 8 {
            11
        } else {
            id  // pawns 12-15 stand on squares 12-15
        }
    } else {
        let w = spec_starting_square_of(id - 16);
        if w < 8 {
            w + 56
        } else {
            w + 40
        }
    }
}

impl ChessPosition {
    /// Shorthand for the occupant of board cell `s`.
    pub open spec fn spec_at(self, s: int) -> Option<Piece> {
        self@.board[s]
    }

    /// Well-formedness of the position's maps.
    pub open spec fn wf(self) -> bool {
        self@.wf()
    }

    /// The standard starting position: every one of the 32 pieces is
    /// placed and tracked, the two maps agree, White is to move, all
    /// castling rights are available and the counters are fresh.
    pub fn starting_position() -> (r: Self)
        ensures
            r.wf(),
            forall|s: int| 0 <= s < 64 ==> r.spec_at(s) == spec_starting_piece_at(s),
            forall|id: int|
                0 <= id < 32 ==> #[trigger] r@.locs[id] == Some(
                    Square(spec_starting_square_of(id) as u8),
                ),
            r.castling_rights == CastlingRights::spec_all(),
            r.en_passant_target is None,
            r.to_move == Color::White,
            r.half_moves == 0,
            r.full_moves == 1,
            r.move_history@.len() == 0,
    {
        let mut board: Vec<Option<Piece>> = Vec::new();
        let mut i: usize = 0;
        while i < 64
            invariant
                i <= 64,
                board@.len() == i,
                forall|j: int| 0 <= j < i ==> board@[j] is None,
            decreases 64 - i,
        {
            board.push(None);
            i = i + 1;
        }

        let mut piece_locations: Vec<Option<Square>> = Vec::new();
        let mut k: usize = 0;
        while k < 32
            invariant
                k <= 32,
                piece_locations@.len() == k,
                forall|j: int| 0 <= j < k ==> piece_locations@[j] is None,
            decreases 32 - k,
        {
            piece_locations.push(None);
            k = k + 1;
        }

        let mut position = ChessPosition {
            board,
            piece_locations,
            castling_rights: CastlingRights::new(),
            en_passant_target: None,
            to_move: Color::White,
            half_moves: 0,
            full_moves: 1,
            move_history: Vec::new(),
        };
        position.setup_starting_pieces();
        proof {
            lemma_starting_tables_consistent();
            assert forall|id: int| 0 <= id < 32 implies match #[trigger] position@.locs[id] {
                Some(sq) => sq.0 < 64 && match position@.board[sq.0 as int] {
                    Some(p) => p.id == id,
                    None => false,
                },
                None => true,
            } by {
                let sq0 = spec_starting_square_of(id);
                assert(position@.locs[id] == Some(Square(sq0 as u8)));
                assert(0 <= sq0 < 64);
                assert(position@.board[sq0] == spec_starting_piece_at(sq0));
            }
            assert forall|s: int| 0 <= s < 64 implies match #[trigger] position@.board[s] {
                Some(p) => p.id < 32 && position@.locs[p.id as int] == Some(Square(s as u8)),
                None => true,
            } by {
                assert(position@.board[s] == spec_starting_piece_at(s));
                match spec_starting_piece_at(s) {
                    Some(p) => {
                        assert(p.id < 32 && spec_starting_square_of(p.id as int) == s);
                        assert(position@.locs[p.id as int] == Some(
                            Square(spec_starting_square_of(p.id as int) as u8),
                        ));
                    },
                    None => {},
                }
            }
        }
        position
    }

    /// Place one piece on an empty position under construction,
    /// updating both the board cell and the id location entry.
    fn place_piece(&mut self, square: Square, piece: Piece)
        requires
            old(self)@.board.len() == 64,
            old(self)@.locs.len() == 32,
            square.0 < 64,
            piece.id < 32,
        ensures
            final (self)@ == (PosModel {
                board: old(self)@.board.update(square.0 as int, Some(piece)),
                locs: old(self)@.locs.update(piece.id as int, Some(square)),
                ..old(self)@
            }),
    {
        self.board.set(square.0 as usize, Some(piece));
        self.piece_locations.set(piece.id as usize, Some(square));
    }

    /// Fill an empty position with the 32 starting pieces, using the
    /// documented id table.
    fn setup_starting_pieces(&mut self)
        requires
            old(self)@.board.len() == 64,
            old(self)@.locs.len() == 32,
            forall|j: int| 0 <= j < 64 ==> old(self)@.board[j] is None,
            forall|j: int| 0 <= j < 32 ==> old(self)@.locs[j] is None,
        ensures
            forall|s: int| 0 <= s < 64 ==> final (self)@.board[s] == spec_starting_piece_at(s),
            forall|id: int|
                0 <= id < 32 ==> #[trigger] final (self)@.locs[id] == Some(
                    Square(spec_starting_square_of(id) as u8),
                ),
            final (self)@.castling == old(self)@.castling,
            final (self)@.ep == old(self)@.ep,
            final (self)@.to_move == old(self)@.to_move,
            final (self)@.half_moves == old(self)@.half_moves,
            final (self)@.full_moves == old(self)@.full_moves,
            final (self)@.history == old(self)@.history,
            final (self)@.board.len() == 64,
            final (self)@.locs.len() == 32,
    {
        // White back rank (a1-h1).
        self.place_piece(Square(0), Piece { piece_type: PieceType::Rook, color: Color::White, id: 2 });
        self.place_piece(Square(1), Piece { piece_type: PieceType::Knight, color: Color::White, id: 11 });
        self.place_piece(Square(2), Piece { piece_type: PieceType::Bishop, color: Color::White, id: 10 });
        self.place_piece(Square(3), Piece { piece_type: PieceType::Queen, color: Color::White, id: 1 });
        self.place_piece(Square(4), Piece { piece_type: PieceType::King, color: Color::White, id: 0 });
        self.place_piece(Square(5), Piece { piece_type: PieceType::Bishop, color: Color::White, id: 3 });
        self.place_piece(Square(6), Piece { piece_type: PieceType::Knight, color: Color::White, id: 4 });
        self.place_piece(Square(7), Piece { piece_type: PieceType::Rook, color: Color::White, id: 9 });
        // White pawns (a2-h2).
        self.place_piece(Square(8), Piece { piece_type: PieceType::Pawn, color: Color::White, id: 5 });
        self.place_piece(Square(9), Piece { piece_type: PieceType::Pawn, color: Color::White, id: 6 });
        self.place_piece(Square(10), Piece { piece_type: PieceType::Pawn, color: Color::White, id: 7 });
        self.place_piece(Square(11), Piece { piece_type: PieceType::Pawn, color: Color::White, id: 8 });
        self.place_piece(Square(12), Piece { piece_type: PieceType::Pawn, color: Color::White, id: 12 });
        self.place_piece(Square(13), Piece { piece_type: PieceType::Pawn, color: Color::White, id: 13 });
        self.place_piece(Square(14), Piece { piece_type: PieceType::Pawn, color: Color::White, id: 14 });
        self.place_piece(Square(15), Piece { piece_type: PieceType::Pawn, color: Color::White, id: 15 });
        // Black pawns (a7-h7).
        self.place_piece(Square(48), Piece { piece_type: PieceType::Pawn, color: Color::Black, id: 21 });
        self.place_piece(Square(49), Piece { piece_type: PieceType::Pawn, color: Color::Black, id: 22 });
        self.place_piece(Square(50), Piece { piece_type: PieceType::Pawn, color: Color::Black, id: 23 });
        self.place_piece(Square(51), Piece { piece_type: PieceType::Pawn, color: Color::Black, id: 24 });
        self.place_piece(Square(52), Piece { piece_type: PieceType::Pawn, color: Color::Black, id: 28 });
        self.place_piece(Square(53), Piece { piece_type: PieceType::Pawn, color: Color::Black, id: 29 });
        self.place_piece(Square(54), Piece { piece_type: PieceType::Pawn, color: Color::Black, id: 30 });
        self.place_piece(Square(55), Piece { piece_type: PieceType::Pawn, color: Color::Black, id: 31 });
        // Black back rank (a8-h8).
        self.place_piece(Square(56), Piece { piece_type: PieceType::Rook, color: Color::Black, id: 18 });
        self.place_piece(Square(57), Piece { piece_type: PieceType::Knight, color: Color::Black, id: 27 });
        self.place_piece(Square(58), Piece { piece_type: PieceType::Bishop, color: Color::Black, id: 26 });
        self.place_piece(Square(59), Piece { piece_type: PieceType::Queen, color: Color::Black, id: 17 });
        self.place_piece(Square(60), Piece { piece_type: PieceType::King, color: Color::Black, id: 16 });
        self.place_piece(Square(61), Piece { piece_type: PieceType::Bishop, color: Color::Black, id: 19 });
        self.place_piece(Square(62), Piece { piece_type: PieceType::Knight, color: Color::Black, id: 20 });
        self.place_piece(Square(63), Piece { piece_type: PieceType::Rook, color: Color::Black, id: 25 });

        assert forall|s: int| 0 <= s < 64 implies self@.board[s] == spec_starting_piece_at(s) by {
            assert(self@.board[s] == spec_starting_piece_at(s));
        }
        assert forall|id: int|
            0 <= id < 32 implies #[trigger] self@.locs[id] == Some(
            Square(spec_starting_square_of(id) as u8),
        ) by {
            reveal_with_fuel(spec_starting_square_of, 3);
            assert(self@.locs[id] == Some(Square(spec_starting_square_of(id) as u8)));
        }
    }
}

/// The two starting tables are mutual inverses: each id's starting
/// square holds the piece with that id, and each occupied square's
/// piece is tracked back at that square.
pub(crate) proof fn lemma_starting_tables_consistent()
    ensures
        forall|id: int| 0 <= id < 32 ==> 0 <= #[trigger] spec_starting_square_of(id) < 64,
        forall|id: int|
            0 <= id < 32 ==> match spec_starting_piece_at(#[trigger] spec_starting_square_of(id)) {
                Some(p) => p.id == id,
                None => false,
            },
        forall|s: int|
            0 <= s < 64 ==> match #[trigger] spec_starting_piece_at(s) {
                Some(p) => p.id < 32 && spec_starting_square_of(p.id as int) == s,
                None => true,
            },
{
    reveal_with_fuel(spec_starting_square_of, 3);
    assert forall|id: int| 0 <= id < 32 implies 0 <= #[trigger] spec_starting_square_of(id)
        < 64 by {
        if id >= 16 {
            assert(0 <= spec_starting_square_of(id - 16) < 16);
        }
    }
    assert forall|id: int| 0 <= id < 32 implies match spec_starting_piece_at(
        #[trigger] spec_starting_square_of(id),
    ) {
        Some(p) => p.id == id,
        None => false,
    } by {
        if id >= 16 {
            assert(0 <= spec_starting_square_of(id - 16) < 16);
        }
    }
    assert forall|s: int| 0 <= s < 64 implies match #[trigger] spec_starting_piece_at(s) {
        Some(p) => p.id < 32 && spec_starting_square_of(p.id as int) == s,
        None => true,
    } by {
        let file = s % 8;
        let rank = s / 8;
        assert(0 <= file < 8);
        assert(0 <= rank < 8);
        assert(s == rank * 8 + file);
    }
}

impl CastlingRights {
    /// All four castling rights available.
    pub open spec fn spec_all() -> CastlingRights {
        CastlingRights {
            white_kingside: true,
            white_queenside: true,
            black_kingside: true,
            black_queenside: true,
        }
    }
}

} // verus!

verus! {

/// Location map after removing whatever stands on `to` (a capture);
/// the board cell itself is overwritten by the relocation that follows.
pub open spec fn spec_capture_at(p: PosModel, to: Square) -> PosModel {
    match p.board[to.0 as int] {
        Some(captured) => PosModel { locs: p.locs.update(captured.id as int, None), ..p },
        None => p,
    }
}

/// Board and location map after moving `piece` from `m.from` to `m.to`.
pub open spec fn spec_relocate(p: PosModel, m: Move, piece: Piece) -> PosModel {
    PosModel {
        board: p.board.update(m.from.0 as int, None).update(m.to.0 as int, Some(piece)),
        locs: p.locs.update(piece.id as int, Some(m.to)),
        ..p
    }
}

/// Rook source and destination squares for a castling king move, chosen
/// by color and the king's destination file; `None` when the
/// destination file is not a castling file.
pub open spec fn spec_castling_rook_squares(color: Color, to_file: int) -> Option<(int, int)> {
    if to_file == 6 {
        if color == Color::White {
            Some((7int, 5int))
        } else {
            Some((63int, 61int))
        }
    } else if to_file == 2 {
        if color == Color::White {
            Some((0int, 3int))
        } else {
            Some((56int, 59int))
        }
    } else {
        None
    }
}

/// Position after the castling rook relocation.  When no rook of the
/// right color stands on the expected square (or the destination file
/// is not a castling file), the position is unchanged: the castling is
/// a soft failure and the move proceeds as a plain king move.
pub open spec fn spec_apply_castling(p: PosModel, m: Move) -> PosModel {
    match spec_castling_rook_squares(m.piece.color, (m.to.0 % 8) as int) {
        None => p,
        Some((rf, rt)) => match p.board[rf] {
            Some(rook) => if rook.piece_type == PieceType::Rook && rook.color == m.piece.color {
                PosModel {
                    board: p.board.update(rf, None).update(rt, Some(rook)),
                    locs: p.locs.update(rook.id as int, Some(Square(rt as u8))),
                    ..p
                }
            } else {
                p
            },
            None => p,
        },
    }
}

/// The square of the pawn captured en passant: directly behind the
/// destination, relative to the moving color.
pub open spec fn spec_ep_captured_square(m: Move) -> int {
    if m.piece.color == Color::White {
        m.to.0 - 8
    } else {
        m.to.0 + 8
    }
}

/// Position after removing the pawn captured en passant, if any piece
/// stands on that square.
pub open spec fn spec_apply_en_passant(p: PosModel, m: Move) -> PosModel {
    let cs = spec_ep_captured_square(m);
    match p.board[cs] {
        Some(cp) => PosModel {
            board: p.board.update(cs, None),
            locs: p.locs.update(cp.id as int, None),
            ..p
        },
        None => p,
    }
}

/// Position after replacing the promoted pawn's type in place, keeping
/// its color and stable id.
pub open spec fn spec_apply_promotion_at(p: PosModel, to: Square, piece: Piece, pt: PieceType) -> PosModel {
    PosModel {
        board: p.board.update(
            to.0 as int,
            Some(Piece { piece_type: pt, color: piece.color, id: piece.id }),
        ),
        ..p
    }
}

/// Castling rights after a move: a king move clears both wings for its
/// color, a rook move clears that rook's wing, and a captured rook
/// clears the opponent's corresponding wing.
pub open spec fn spec_update_castling_rights(c: CastlingRights, m: Move) -> CastlingRights {
    let c1 = if m.piece.piece_type == PieceType::King {
        c.spec_disabled(m.piece.color, None)
    } else {
        c
    };
    let c2 = if m.piece.piece_type == PieceType::Rook {
        c1.spec_disabled(m.piece.color, Some(m.from.0 % 8 > 4))
    } else {
        c1
    };
    match m.captured_piece {
        Some(cap) => if cap.piece_type == PieceType::Rook {
            c2.spec_disabled(cap.color, Some(m.to.0 % 8 > 4))
        } else {
            c2
        },
        None => c2,
    }
}

/// En-passant target after a move: set to the square a double pawn push
/// jumped over, cleared otherwise.
pub open spec fn spec_update_ep_target(m: Move) -> Option<Square> {
    if m.piece.piece_type == PieceType::Pawn {
        let from_rank = m.from.0 / 8;
        let to_rank = m.to.0 / 8;
        if to_rank == from_rank + 2 || from_rank == to_rank + 2 {
            Some(Square((((from_rank + to_rank) / 2) * 8 + m.to.0 % 8) as u8))
        } else {
            None
        }
    } else {
        None
    }
}

/// Full effect of applying a move: the result (`Err` exactly when the
/// source square is empty or holds a different piece than claimed, in
/// which case nothing changes) and the position afterwards.
pub open spec fn spec_apply_move(p: PosModel, m: Move) -> (Result<(), PositionError>, PosModel) {
    match p.board[m.from.0 as int] {
        None => (Err(PositionError::NoPieceAtSource), p),
        Some(piece) => if piece.id != m.piece.id {
            (Err(PositionError::PieceIdMismatch), p)
        } else {
            let p1 = spec_capture_at(p, m.to);
            let p2 = spec_relocate(p1, m, piece);
            let p3 = if m.is_castling {
                spec_apply_castling(p2, m)
            } else {
                p2
            };
            let p4 = if m.is_en_passant {
                spec_apply_en_passant(p3, m)
            } else {
                p3
            };
            let p5 = match m.promotion {
                Some(pt) => spec_apply_promotion_at(p4, m.to, piece, pt),
                None => p4,
            };
            let half = if m.piece.piece_type == PieceType::Pawn || m.captured_piece is Some {
                0u16
            } else if p.half_moves == 0xFFFF {
                0u16
            } else {
                (p.half_moves + 1) as u16
            };
            let full = if p.to_move != Color::Black {
                p.full_moves
            } else if p.full_moves == 0xFFFF {
                0u16
            } else {
                (p.full_moves + 1) as u16
            };
            (
                Ok(()),
                PosModel {
                    castling: spec_update_castling_rights(p5.castling, m),
                    ep: spec_update_ep_target(m),
                    to_move: p.to_move.spec_opposite(),
                    half_moves: half,
                    full_moves: full,
                    history: p.history.push(m),
                    ..p5
                },
            )
        },
    }
}

impl ChessPosition {
    /// Occupant of a square.
    pub fn get_piece_at(&self, square: Square) -> (r: Option<Piece>)
        requires
            self@.board.len() == 64,
            square.0 < 64,
        ensures
            r == self@.board[square.0 as int],
    {
        self.board[square.0 as usize]
    }

    /// The piece currently tracked under a stable id, if any.
    pub open spec fn spec_piece_by_number(self, piece_num: u8) -> Option<Piece> {
        if piece_num < 32 {
            match self@.locs[piece_num as int] {
                Some(sq) => self@.board[sq.0 as int],
                None => None,
            }
        } else {
            None
        }
    }

    /// Look a piece up by its stable id: its tracked square's occupant,
    /// or `None` when the id is out of range or no longer tracked.
    pub fn get_piece_by_number(&self, piece_num: u8) -> (r: Option<Piece>)
        requires
            self@.board.len() == 64,
            self@.locs.len() == 32,
            self.locs_bounded(),
        ensures
            r == self.spec_piece_by_number(piece_num),
    {
        if piece_num < 32 {
            match self.piece_locations[piece_num as usize] {
                Some(sq) => self.get_piece_at(sq),
                None => None,
            }
        } else {
            None
        }
    }

    /// The tracked square of a stable id, if any.
    pub open spec fn spec_piece_location(self, piece_num: u8) -> Option<Square> {
        if piece_num < 32 {
            self@.locs[piece_num as int]
        } else {
            None
        }
    }

    /// Current square of the piece with a stable id, or `None` when the
    /// id is out of range or the piece has been captured.
    pub fn get_piece_location(&self, piece_num: u8) -> (r: Option<Square>)
        requires
            self@.locs.len() == 32,
        ensures
            r == self.spec_piece_location(piece_num),
    {
        if piece_num < 32 {
            self.piece_locations[piece_num as usize]
        } else {
            None
        }
    }

    /// Whether a square is occupied.
    pub fn is_occupied(&self, square: Square) -> (r: bool)
        requires
            self@.board.len() == 64,
            square.0 < 64,
        ensures
            r == (self@.board[square.0 as int] is Some),
    {
        self.get_piece_at(square).is_some()
    }

    /// Whether a square holds a piece of the other color than `color`.
    pub fn is_opponent_piece(&self, square: Square, color: Color) -> (r: bool)
        requires
            self@.board.len() == 64,
            square.0 < 64,
        ensures
            r == match self@.board[square.0 as int] {
                Some(p) => p.color != color,
                None => false,
            },
    {
        match self.get_piece_at(square) {
            Some(piece) => piece.color != color,
            None => false,
        }
    }
}

} // verus!

verus! {

impl ChessPosition {
    /// Every piece on the board carries an id below 32.  This is the
    /// part of well-formedness that survives the intermediate states
    /// inside `apply_move`.
    pub open spec fn ids_bounded(self) -> bool {
        forall|s: int|
            0 <= s < 64 ==> match #[trigger] self@.board[s] {
                Some(p) => p.id < 32,
                None => true,
            }
    }

    /// Every tracked location names a real board square.
    pub open spec fn locs_bounded(self) -> bool {
        forall|id: int|
            0 <= id < 32 ==> match #[trigger] self@.locs[id] {
                Some(sq) => sq.0 < 64,
                None => true,
            }
    }

    /// The bounds that every reachable position keeps, well-formed or
    /// not: full-size maps, piece ids below 32, tracked squares on the
    /// board, and an en-passant target on rank 2 or 5.  Unlike full
    /// well-formedness, these bounds survive decoding desynchronized
    /// game data, so the decode loop can keep applying moves.
    pub open spec fn bounds_ok(self) -> bool {
        &&& self@.board.len() == 64
        &&& self@.locs.len() == 32
        &&& self.ids_bounded()
        &&& self.locs_bounded()
        &&& match self@.ep {
            Some(sq) => 8 <= sq.0 < 56,
            None => true,
        }
    }

    /// Apply a move to the position: capture, relocation, castling rook
    /// relocation, en-passant removal, promotion, castling-rights and
    /// en-passant bookkeeping, move counters and turn switch.  Fails
    /// (leaving the position unchanged) exactly when the source square
    /// is empty or holds a piece with a different id than the move
    /// claims.
    pub fn apply_move(&mut self, chess_move: &Move) -> (r: Result<(), PositionError>)
        requires
            old(self).bounds_ok(),
            chess_move.from.0 < 64,
            chess_move.to.0 < 64,
            chess_move.is_en_passant ==> (chess_move.piece.color == Color::White
                ==> chess_move.to.0 >= 8) && (chess_move.piece.color == Color::Black
                ==> chess_move.to.0 < 56),
        ensures
            r == spec_apply_move(old(self)@, *chess_move).0,
            final (self)@ == spec_apply_move(old(self)@, *chess_move).1,
            final (self).bounds_ok(),
    {
        let m = *chess_move;
        let piece = match self.get_piece_at(m.from) {
            Some(p) => p,
            None => {
                return Err(PositionError::NoPieceAtSource);
            },
        };
        if piece.id != m.piece.id {
            return Err(PositionError::PieceIdMismatch);
        }

        assert(piece.id < 32);
        self.apply_move_effects(&m, piece);
        Ok(())
    }

    /// The mutating phase of `apply_move`, once the source piece has
    /// been checked: board and map updates, special-move handling,
    /// bookkeeping, counters and turn switch.
    #[verifier::rlimit(100)]
    #[verifier::spinoff_prover]
    fn apply_move_effects(&mut self, m: &Move, piece: Piece)
        requires
            old(self).bounds_ok(),
            m.from.0 < 64,
            m.to.0 < 64,
            old(self)@.board[m.from.0 as int] == Some(piece),
            piece.id == m.piece.id,
            piece.id < 32,
            m.is_en_passant ==> (m.piece.color == Color::White ==> m.to.0 >= 8) && (
            m.piece.color == Color::Black ==> m.to.0 < 56),
        ensures
            final (self)@ == spec_apply_move(old(self)@, *m).1,
            spec_apply_move(old(self)@, *m).0 is Ok,
    {
        let m = *m;
        self.capture_and_relocate(&m, piece);

        let ghost p2 = spec_relocate(spec_capture_at(old(self)@, m.to), m, piece);
        let ghost p3 = if m.is_castling {
            spec_apply_castling(p2, m)
        } else {
            p2
        };
        let ghost p4 = if m.is_en_passant {
            spec_apply_en_passant(p3, m)
        } else {
            p3
        };
        let ghost p5 = match m.promotion {
            Some(pt) => spec_apply_promotion_at(p4, m.to, piece, pt),
            None => p4,
        };

        if m.is_castling {
            self.apply_castling_rook_move(&m);
        }
        assert(self@ == p3);
        if m.is_en_passant {
            self.apply_en_passant_capture(&m);
        }
        assert(self@ == p4);
        if let Some(promotion_type) = m.promotion {
            self.apply_promotion(m.to, piece, promotion_type);
        }
        assert(self@ == p5);

        self.update_castling_rights(&m);
        self.update_en_passant_target(&m);
        assert(self@ == (PosModel {
            castling: spec_update_castling_rights(p5.castling, m),
            ep: spec_update_ep_target(m),
            ..p5
        }));

        if m.piece.piece_type == PieceType::Pawn || m.captured_piece.is_some() {
            self.half_moves = 0;
        } else {
            self.half_moves = self.half_moves.wrapping_add(1);
        }
        if self.to_move == Color::Black {
            self.full_moves = self.full_moves.wrapping_add(1);
        }
        self.to_move = self.to_move.opposite();
        self.move_history.push(m);

        proof {
            match spec_update_ep_target(m) {
                Some(sq) => {
                    assert(8 <= sq.0 < 56);
                },
                None => {},
            }
            assert(self.half_moves == (if m.piece.piece_type == PieceType::Pawn
                || m.captured_piece is Some {
                0u16
            } else if old(self)@.half_moves == 0xFFFF {
                0u16
            } else {
                (old(self)@.half_moves + 1) as u16
            }));
            assert(self.full_moves == (if old(self)@.to_move != Color::Black {
                old(self)@.full_moves
            } else if old(self)@.full_moves == 0xFFFF {
                0u16
            } else {
                (old(self)@.full_moves + 1) as u16
            }));
            assert(self@.history == old(self)@.history.push(m));
            assert(self@.to_move == old(self)@.to_move.spec_opposite());
        }
    }

    /// Remove the destination square's occupant from the location map
    /// (a capture) and relocate the moving piece in both maps.
    fn capture_and_relocate(&mut self, m: &Move, piece: Piece)
        requires
            old(self)@.board.len() == 64,
            old(self)@.locs.len() == 32,
            old(self).ids_bounded(),
            old(self).locs_bounded(),
            m.from.0 < 64,
            m.to.0 < 64,
            piece.id < 32,
        ensures
            final (self)@ == spec_relocate(spec_capture_at(old(self)@, m.to), *m, piece),
            final (self).ids_bounded(),
            final (self).locs_bounded(),
    {
        if let Some(captured) = self.get_piece_at(m.to) {
            assert(captured.id < 32);
            self.piece_locations.set(captured.id as usize, None);
        }

        self.board.set(m.from.0 as usize, None);
        self.board.set(m.to.0 as usize, Some(piece));
        self.piece_locations.set(piece.id as usize, Some(m.to));

        proof {
            assert forall|s: int| 0 <= s < 64 implies match #[trigger] self@.board[s] {
                Some(p) => p.id < 32,
                None => true,
            } by {
                if self@.board[s] is Some && s != m.to.0 as int && s != m.from.0 as int {
                    assert(self@.board[s] == old(self)@.board[s]);
                }
            }
        }
    }

    /// Relocate the castling rook chosen by the king's color and
    /// destination file.  When the expected rook is absent or the
    /// destination file is not a castling file, nothing changes and the
    /// castling is silently demoted (soft failure); the return value
    /// says whether the rook actually moved.
    fn apply_castling_rook_move(&mut self, m: &Move) -> (applied: bool)
        requires
            old(self)@.board.len() == 64,
            old(self)@.locs.len() == 32,
            old(self).ids_bounded(),
            old(self).locs_bounded(),
        ensures
            final (self)@ == spec_apply_castling(old(self)@, *m),
            final (self).ids_bounded(),
            final (self).locs_bounded(),
    {
        let to_file = m.to.0 % 8;
        if to_file != 6 && to_file != 2 {
            return false;
        }
        let kingside = to_file == 6;
        let (rook_from, rook_to): (Square, Square) = if kingside {
            if m.piece.color == Color::White {
                (Square(7), Square(5))
            } else {
                (Square(63), Square(61))
            }
        } else {
            if m.piece.color == Color::White {
                (Square(0), Square(3))
            } else {
                (Square(56), Square(59))
            }
        };

        if let Some(rook) = self.get_piece_at(rook_from) {
            if rook.piece_type == PieceType::Rook && rook.color == m.piece.color {
                assert(rook.id < 32);
                self.board.set(rook_from.0 as usize, None);
                self.board.set(rook_to.0 as usize, Some(rook));
                self.piece_locations.set(rook.id as usize, Some(rook_to));
                proof {
                    assert forall|s: int| 0 <= s < 64 implies match #[trigger] self@.board[s] {
                        Some(p) => p.id < 32,
                        None => true,
                    } by {
                        if self@.board[s] is Some && s != rook_to.0 as int {
                            assert(self@.board[s] == old(self)@.board[s]);
                        }
                    }
                }
                return true;
            }
        }
        false
    }

    /// Remove the pawn captured en passant: the square directly behind
    /// the destination, relative to the moving color.
    fn apply_en_passant_capture(&mut self, m: &Move)
        requires
            old(self)@.board.len() == 64,
            old(self)@.locs.len() == 32,
            old(self).ids_bounded(),
            old(self).locs_bounded(),
            0 <= spec_ep_captured_square(*m) < 64,
        ensures
            final (self)@ == spec_apply_en_passant(old(self)@, *m),
            final (self).ids_bounded(),
            final (self).locs_bounded(),
    {
        let captured_square = if m.piece.color == Color::White {
            Square(m.to.0 - 8)
        } else {
            Square(m.to.0 + 8)
        };

        if let Some(captured_pawn) = self.get_piece_at(captured_square) {
            assert(captured_pawn.id < 32);
            self.board.set(captured_square.0 as usize, None);
            self.piece_locations.set(captured_pawn.id as usize, None);
            proof {
                assert forall|s: int| 0 <= s < 64 implies match #[trigger] self@.board[s] {
                    Some(p) => p.id < 32,
                    None => true,
                } by {
                    if self@.board[s] is Some {
                        assert(self@.board[s] == old(self)@.board[s]);
                    }
                }
            }
        }
    }

    /// Replace the promoted pawn's type in place, keeping its stable id.
    fn apply_promotion(&mut self, square: Square, pawn: Piece, promotion_type: PieceType)
        requires
            old(self)@.board.len() == 64,
            square.0 < 64,
            pawn.id < 32,
        ensures
            final (self)@ == spec_apply_promotion_at(old(self)@, square, pawn, promotion_type),
            old(self).ids_bounded() ==> final (self).ids_bounded(),
    {
        let promoted_piece = Piece {
            piece_type: promotion_type,
            color: pawn.color,
            id: pawn.id,
        };
        self.board.set(square.0 as usize, Some(promoted_piece));
        proof {
            if old(self).ids_bounded() {
                assert forall|s: int| 0 <= s < 64 implies match #[trigger] self@.board[s] {
                    Some(p) => p.id < 32,
                    None => true,
                } by {
                    if self@.board[s] is Some && s != square.0 as int {
                        assert(self@.board[s] == old(self)@.board[s]);
                    }
                }
            }
        }
    }

    /// Update castling rights after a move: a king move clears both
    /// wings for its color, a rook move clears that wing, a captured
    /// rook clears the opponent's wing on the capture side.
    fn update_castling_rights(&mut self, chess_move: &Move)
        ensures
            final (self)@ == (PosModel {
                castling: spec_update_castling_rights(old(self)@.castling, *chess_move),
                ..old(self)@
            }),
    {
        if chess_move.piece.piece_type == PieceType::King {
            self.castling_rights.disable_castling(chess_move.piece.color, None);
        }

        if chess_move.piece.piece_type == PieceType::Rook {
            let kingside = chess_move.from.file() > 4;
            self.castling_rights.disable_castling(chess_move.piece.color, Some(kingside));
        }

        if let Some(captured) = chess_move.captured_piece {
            if captured.piece_type == PieceType::Rook {
                let kingside = chess_move.to.file() > 4;
                self.castling_rights.disable_castling(captured.color, Some(kingside));
            }
        }
    }

    /// Recompute the en-passant target: set to the jumped-over square
    /// after a double pawn push, cleared otherwise.
    fn update_en_passant_target(&mut self, chess_move: &Move)
        requires
            chess_move.from.0 < 64,
            chess_move.to.0 < 64,
        ensures
            final (self)@ == (PosModel {
                ep: spec_update_ep_target(*chess_move),
                ..old(self)@
            }),
    {
        self.en_passant_target = None;

        if chess_move.piece.piece_type == PieceType::Pawn {
            let from_rank = chess_move.from.rank();
            let to_rank = chess_move.to.rank();
            if to_rank == from_rank + 2 || from_rank == to_rank + 2 {
                let target_rank = (from_rank + to_rank) / 2;
                if let Ok(target_square) = Square::new(chess_move.to.file(), target_rank) {
                    self.en_passant_target = Some(target_square);
                }
            }
        }
    }
}

} // verus!

verus! {

/// For any decoded move with no capture — one whose recorded capture is
/// exactly the destination's occupant, and that occupant is absent —
/// the destination square is empty immediately before application,
/// holds exactly the moved piece (with any promotion applied to its
/// type) immediately after, and the source square is empty after.
pub proof fn lemma_no_capture_move_effect(p: PosModel, m: Move)
    requires
        p.board.len() == 64,
        m.from.0 < 64,
        m.to.0 < 64,
        m.from.0 != m.to.0,
        // what the decoder records: the capture is the destination's occupant
        m.captured_piece == p.board[m.to.0 as int],
        m.captured_piece is None,
        // a decoded castling move starts from the king's home file
        m.is_castling ==> m.from.0 % 8 == 4,
        // a decoded en-passant capture changes file
        m.is_en_passant ==> m.from.0 % 8 != m.to.0 % 8,
        m.is_en_passant ==> (m.piece.color == Color::White ==> m.to.0 >= 8) && (m.piece.color
            == Color::Black ==> m.to.0 < 56),
        spec_apply_move(p, m).0 is Ok,
    ensures
        p.board[m.to.0 as int] is None,
        spec_apply_move(p, m).1.board[m.from.0 as int] is None,
        match (p.board[m.from.0 as int], spec_apply_move(p, m).1.board[m.to.0 as int]) {
            (Some(piece), Some(q)) => q.id == piece.id && q.color == piece.color && q.piece_type
                == (match m.promotion {
                Some(pt) => pt,
                None => piece.piece_type,
            }),
            _ => false,
        },
{
    let piece = match p.board[m.from.0 as int] {
        Some(pc) => pc,
        None => arbitrary(),
    };
    assert(p.board[m.from.0 as int] is Some);
    let p2 = spec_relocate(spec_capture_at(p, m.to), m, piece);
    if m.is_castling {
        match spec_castling_rook_squares(m.piece.color, (m.to.0 % 8) as int) {
            Some((rf, rt)) => {
                assert(rf != m.from.0 as int && rf != m.to.0 as int);
                assert(rt != m.from.0 as int && rt != m.to.0 as int);
            },
            None => {},
        }
    }
    if m.is_en_passant {
        let cs = spec_ep_captured_square(m);
        assert(cs % 8 == m.to.0 % 8) by {
            assert((m.to.0 - 8) % 8 == m.to.0 % 8 && (m.to.0 + 8) % 8 == m.to.0 % 8) by (nonlinear_arith)
                requires
                    8 <= m.to.0 < 64 || (0 <= m.to.0 < 56),
            ;
        }
        assert(cs != m.from.0 as int && cs != m.to.0 as int);
    }
}

impl ChessPosition {
    /// The square that the first tracked king of `color` (lowest stable
    /// id) stands on, searching ids from `i` upward.
    pub open spec fn spec_find_king_from(self, color: Color, i: int) -> Option<Square>
        decreases 32 - i,
    {
        if i < 0 || i >= 32 {
            None
        } else {
            match self@.locs[i] {
                Some(sq) => if sq.0 < 64 && (match self@.board[sq.0 as int] {
                    Some(pc) => pc.piece_type == PieceType::King && pc.color == color,
                    None => false,
                }) {
                    Some(sq)
                } else {
                    self.spec_find_king_from(color, i + 1)
                },
                None => self.spec_find_king_from(color, i + 1),
            }
        }
    }

    /// Find the tracked king of the given color: the square of the
    /// lowest stable id whose piece is a king of that color, or `None`
    /// when no such piece is tracked.
    pub fn find_king(&self, color: Color) -> (r: Option<Square>)
        requires
            self@.board.len() == 64,
            self@.locs.len() == 32,
            self.locs_bounded(),
        ensures
            r == self.spec_find_king_from(color, 0),
    {
        let mut id: u8 = 0;
        while id < 32
            invariant
                id <= 32,
                self@.board.len() == 64,
                self@.locs.len() == 32,
                self.locs_bounded(),
                self.spec_find_king_from(color, 0) == self.spec_find_king_from(color, id as int),
            decreases 32 - id,
        {
            match self.piece_locations[id as usize] {
                Some(square) => {
                    if let Some(piece) = self.get_piece_at(square) {
                        if piece.piece_type == PieceType::King && piece.color == color {
                            return Some(square);
                        }
                    }
                },
                None => {},
            }
            id = id + 1;
        }
        None
    }

    /// Whether the king of the given color stands on a square attacked
    /// by the other side.  Attack detection is not implemented (a
    /// stated non-goal), so this is always false.
    pub fn is_king_in_check(&self, color: Color) -> (r: bool)
        requires
            self@.board.len() == 64,
            self@.locs.len() == 32,
            self.locs_bounded(),
        ensures
            r == false,
    {
        if let Some(king_square) = self.find_king(color) {
            self.is_square_attacked(king_square, color.opposite())
        } else {
            false
        }
    }

    /// Whether a square is attacked by the given color.  Attack
    /// detection is not implemented (full legality checking is a
    /// stated non-goal), so this is always false.
    pub fn is_square_attacked(&self, square: Square, by_color: Color) -> (r: bool)
        ensures
            r == false,
    {
        false
    }
}

} // verus!

verus! {

/// One-letter symbol for a piece: upper case for White, lower for Black.
pub open spec fn spec_piece_symbol(p: Piece) -> char {
    match (p.piece_type, p.color) {
        (PieceType::King, Color::White) => 'K',
        (PieceType::Queen, Color::White) => 'Q',
        (PieceType::Rook, Color::White) => 'R',
        (PieceType::Bishop, Color::White) => 'B',
        (PieceType::Knight, Color::White) => 'N',
        (PieceType::Pawn, Color::White) => 'P',
        (PieceType::King, Color::Black) => 'k',
        (PieceType::Queen, Color::Black) => 'q',
        (PieceType::Rook, Color::Black) => 'r',
        (PieceType::Bishop, Color::Black) => 'b',
        (PieceType::Knight, Color::Black) => 'n',
        (PieceType::Pawn, Color::Black) => 'p',
    }
}

fn piece_symbol(p: Piece) -> (c: char)
    ensures
        c == spec_piece_symbol(p),
{
    match (p.piece_type, p.color) {
        (PieceType::King, Color::White) => 'K',
        (PieceType::Queen, Color::White) => 'Q',
        (PieceType::Rook, Color::White) => 'R',
        (PieceType::Bishop, Color::White) => 'B',
        (PieceType::Knight, Color::White) => 'N',
        (PieceType::Pawn, Color::White) => 'P',
        (PieceType::King, Color::Black) => 'k',
        (PieceType::Queen, Color::Black) => 'q',
        (PieceType::Rook, Color::Black) => 'r',
        (PieceType::Bishop, Color::Black) => 'b',
        (PieceType::Knight, Color::Black) => 'n',
        (PieceType::Pawn, Color::Black) => 'p',
    }
}

/// The cells of one displayed rank from `file` rightward: each cell's
/// symbol (or `.` for an empty square) followed by a space.
pub open spec fn spec_board_cells(p: PosModel, rank: int, file: int) -> Seq<char>
    decreases 8 - file,
{
    if file < 0 || file >= 8 {
        Seq::empty()
    } else {
        let c = match p.board[rank * 8 + file] {
            Some(piece) => spec_piece_symbol(piece),
            None => '.',
        };
        seq![c, ' '] + spec_board_cells(p, rank, file + 1)
    }
}

/// The displayed rows from `rank` down to rank 0: each row is the rank
/// digit, the eight cells, and the rank digit again.
pub open spec fn spec_board_rows(p: PosModel, rank: int) -> Seq<char>
    decreases rank + 1,
{
    if rank < 0 {
        Seq::empty()
    } else {
        seq![spec_rank_char(rank as nat), ' '] + spec_board_cells(p, rank, 0) + seq![' ', spec_rank_char(rank as nat), '\n']
            + spec_board_rows(p, rank - 1)
    }
}

/// The whole board display: a file-letter header, the eight ranks from
/// 8 down to 1, and the header again.
pub open spec fn spec_display_board(p: PosModel) -> Seq<char> {
    "  a b c d e f g h\n"@ + spec_board_rows(p, 7) + "  a b c d e f g h\n"@
}

impl ChessPosition {
    /// Render the position as a text diagram, rank 8 at the top, one
    /// symbol per square (`.` for an empty one).
    pub fn display_board(&self) -> (r: String)
        requires
            self@.board.len() == 64,
        ensures
            r@ == spec_display_board(self@),
    {
        let mut result = String::new();
        result.append("  a b c d e f g h\n");
        self.append_rows(&mut result, 7);
        result.append("  a b c d e f g h\n");
        proof {
            assert(result@ =~= spec_display_board(self@));
        }
        result
    }

    /// Append the display rows for `rank` down to rank 0.
    fn append_rows(&self, out: &mut String, rank: u8)
        requires
            self@.board.len() == 64,
            rank < 8,
        ensures
            final (out)@ == old(out)@ + spec_board_rows(self@, rank as int),
        decreases rank,
    {
        push_char(out, rank_char(rank));
        push_char(out, ' ');
        self.append_cells(out, rank, 0);
        push_char(out, ' ');
        push_char(out, rank_char(rank));
        push_char(out, '\n');
        if rank > 0 {
            self.append_rows(out, rank - 1);
        } else {
            proof {
                assert(spec_board_rows(self@, -1) =~= Seq::<char>::empty());
            }
        }
        proof {
            assert(out@ =~= old(out)@ + spec_board_rows(self@, rank as int));
        }
    }

    /// Append the cells of one displayed rank from `file` rightward.
    fn append_cells(&self, out: &mut String, rank: u8, file: u8)
        requires
            self@.board.len() == 64,
            rank < 8,
            file < 8,
        ensures
            final (out)@ == old(out)@ + spec_board_cells(self@, rank as int, file as int),
        decreases 8 - file,
    {
        let c = match self.board[(rank * 8 + file) as usize] {
            Some(piece) => piece_symbol(piece),
            None => '.',
        };
        push_char(out, c);
        push_char(out, ' ');
        if file < 7 {
            self.append_cells(out, rank, file + 1);
        } else {
            proof {
                assert(spec_board_cells(self@, rank as int, 8) =~= Seq::<char>::empty());
            }
        }
        proof {
            assert(out@ =~= old(out)@ + spec_board_cells(self@, rank as int, file as int));
        }
    }
}

} // verus!

verus! {

impl PosModel {
    /// The piece currently tracked under a stable id, if any.
    pub open spec fn piece_by_number(self, n: u8) -> Option<Piece> {
        if n < 32 {
            match self.locs[n as int] {
                Some(sq) => self.board[sq.0 as int],
                None => None,
            }
        } else {
            None
        }
    }

    /// The tracked square of a stable id, if any.
    pub open spec fn piece_location(self, n: u8) -> Option<Square> {
        if n < 32 {
            self.locs[n as int]
        } else {
            None
        }
    }
}

} // verus!
