//! The database index: a fixed header followed by one 47-byte entry
//! per game, holding offsets, packed name ids, the packed date field,
//! ratings, flags and counters.  All multi-byte fields here are read
//! little-endian from an in-memory byte slice; the caller supplies the
//! bytes.

use vstd::prelude::*;

use crate::strutil::{append_zero_padded, push_char, spec_zero_padded};

verus! {

/// Errors raised while reading the index bytes.
#[derive(Debug, Clone, Copy, PartialEq, Eq, Structural)]
pub enum IndexError {
    /// The magic header is absent or wrong.
    BadMagic,
    /// The data ends inside the header.
    TruncatedHeader,
    /// The data ends inside a game entry.
    TruncatedEntry,
}

/// The index file header.
#[derive(Debug, Clone)]
pub struct ScidHeader {
    pub magic: [u8; 8],
    pub version: u16,
    pub db_type: u32,
    pub num_games: u32,
    pub auto_load_game: u32,
    pub database_info: Vec<u8>,
    pub custom_flags: Vec<u8>,
}

/// One game's index entry.
#[derive(Debug, Clone, PartialEq, Eq)]
pub struct GameIndex {
    pub offset: u32,
    pub length: u16,
    pub white_id: u32,
    pub black_id: u32,
    pub event_id: u32,
    pub site_id: u32,
    pub round_id: u16,
    pub year: u16,
    pub month: u8,
    pub day: u8,
    pub result: u8,
    pub eco: u16,
    pub white_elo: u16,
    pub black_elo: u16,
    pub flags: u16,
    pub num_half_moves: u16,
    pub stored_line_code: u8,
    pub final_material: [u8; 2],
    pub pawn_advancement: [u8; 2],
    pub var_count: u8,
    pub comment_count: u8,
    pub nag_count: u8,
    pub deleted: u8,
    pub reserved: [u8; 5],
}

/// Two bytes read little-endian.
pub open spec fn spec_u16_le(b0: u8, b1: u8) -> u16 {
    (b0 + b1 * 0x100) as u16
}

/// Three bytes read little-endian.
pub open spec fn spec_u24_le(b0: u8, b1: u8, b2: u8) -> u32 {
    (b0 + b1 * 0x100 + b2 * 0x10000) as u32
}

/// Four bytes read little-endian.
pub open spec fn spec_u32_le(b0: u8, b1: u8, b2: u8, b3: u8) -> u32 {
    (b0 + b1 * 0x100 + b2 * 0x10000 + b3 * 0x1000000) as u32
}

impl GameIndex {
    /// The text for a result code: `*` unknown, `1-0`, `0-1`,
    /// `1/2-1/2`, and `*` again for anything out of range.
    pub open spec fn spec_result_string(self) -> Seq<char> {
        if self.result == 1 {
            "1-0"@
        } else if self.result == 2 {
            "0-1"@
        } else if self.result == 3 {
            "1/2-1/2"@
        } else {
            "*"@
        }
    }

    /// Render the game result as text.
    pub fn result_string(&self) -> (r: &'static str)
        ensures
            r@ == self.spec_result_string(),
    {
        match self.result {
            0 => "*",
            1 => "1-0",
            2 => "0-1",
            3 => "1/2-1/2",
            _ => "*",
        }
    }

    /// Whether the game is marked deleted.
    pub fn is_deleted(&self) -> (r: bool)
        ensures
            r == (self.deleted != 0),
    {
        self.deleted != 0
    }

    /// The `YYYY.MM.DD` date text: unknown years give a placeholder,
    /// and out-of-range months or days fall back to 1.
    pub open spec fn spec_date_string(self) -> Seq<char> {
        if self.year == 0 || self.year > 2100 {
            "????.??.??"@
        } else {
            let safe_month: u8 = if self.month == 0 || self.month > 12 {
                1
            } else {
                self.month
            };
            let safe_day: u8 = if self.day == 0 || self.day > 31 {
                1
            } else {
                self.day
            };
            spec_zero_padded(self.year as nat, 4) + seq!['.'] + spec_zero_padded(
                safe_month as nat,
                2,
            ) + seq!['.'] + spec_zero_padded(safe_day as nat, 2)
        }
    }

    /// Format the game date as `YYYY.MM.DD`, guarding invalid parts.
    pub fn date_string(&self) -> (r: String)
        ensures
            r@ == self.spec_date_string(),
    {
        if self.year == 0 || self.year > 2100 {
            let mut s = String::new();
            s.append("????.??.??");
            s
        } else {
            let safe_month: u8 = if self.month == 0 || self.month > 12 {
                1
            } else {
                self.month
            };
            let safe_day: u8 = if self.day == 0 || self.day > 31 {
                1
            } else {
                self.day
            };

            let mut s = String::new();
            append_zero_padded(&mut s, self.year as u64, 4);
            push_char(&mut s, '.');
            append_zero_padded(&mut s, safe_month as u64, 2);
            push_char(&mut s, '.');
            append_zero_padded(&mut s, safe_day as u64, 2);
            proof {
                assert(s@ =~= self.spec_date_string());
            }
            s
        }
    }
}

/// An index file read into memory: the header and one entry per game.
pub struct IndexFile {
    pub header: ScidHeader,
    pub games: Vec<GameIndex>,
}

impl IndexFile {
    /// The parsed header.
    pub fn header(&self) -> (r: &ScidHeader)
        ensures
            r == self.header,
    {
        &self.header
    }

    /// How many game entries were read.
    pub fn num_games(&self) -> (r: usize)
        ensures
            r == self.games@.len(),
    {
        self.games.len()
    }

    /// One game's entry, if the id is in range.
    pub fn game_index(&self, game_id: usize) -> (r: Option<&GameIndex>)
        ensures
            game_id < self.games@.len() ==> r == Some(&self.games@[game_id as int]),
            game_id >= self.games@.len() ==> r is None,
    {
        if game_id < self.games.len() {
            Some(&self.games[game_id])
        } else {
            None
        }
    }

    /// All game entries.
    pub fn game_indices(&self) -> (r: &[GameIndex])
        ensures
            r@ == self.games@,
    {
        self.games.as_slice()
    }

    /// One byte of the entry.
    pub fn read_u8(data: &[u8], pos: usize) -> (r: u8)
        requires
            pos < data@.len(),
        ensures
            r == data@[pos as int],
    {
        data[pos]
    }

    /// Two bytes of the entry, little-endian.
    pub fn read_u16_le(data: &[u8], pos: usize) -> (r: u16)
        requires
            pos + 2 <= data@.len(),
        ensures
            r == spec_u16_le(data@[pos as int], data@[pos as int + 1]),
    {
        (data[pos] as u16) + (data[pos + 1] as u16) * 0x100
    }

    /// Three bytes of the entry, little-endian.
    pub fn read_u24_le(data: &[u8], pos: usize) -> (r: u32)
        requires
            pos + 3 <= data@.len(),
        ensures
            r == spec_u24_le(data@[pos as int], data@[pos as int + 1], data@[pos as int + 2]),
    {
        (data[pos] as u32) + (data[pos + 1] as u32) * 0x100 + (data[pos + 2] as u32) * 0x10000
    }

    /// Four bytes of the entry, little-endian.
    pub fn read_u32_le(data: &[u8], pos: usize) -> (r: u32)
        requires
            pos + 4 <= data@.len(),
        ensures
            r == spec_u32_le(
                data@[pos as int],
                data@[pos as int + 1],
                data@[pos as int + 2],
                data@[pos as int + 3],
            ),
    {
        (data[pos] as u32) + (data[pos + 1] as u32) * 0x100 + (data[pos + 2] as u32) * 0x10000
            + (data[pos + 3] as u32) * 0x1000000
    }
}

} // verus!

verus! {

/// Copy a byte range out of a slice.
fn copy_range(data: &[u8], a: usize, b: usize) -> (r: Vec<u8>)
    requires
        a <= b <= data@.len(),
    ensures
        r@ == data@.subrange(a as int, b as int),
{
    let mut out: Vec<u8> = Vec::new();
    let mut i: usize = a;
    while i < b
        invariant
            a <= i <= b <= data@.len(),
            out@ == data@.subrange(a as int, i as int),
        decreases b - i,
    {
        out.push(data[i]);
        proof {
            assert(out@ =~= data@.subrange(a as int, i as int + 1));
        }
        i = i + 1;
    }
    out
}

/// The fixed size of the index header.
pub const INDEX_HEADER_SIZE: usize = 184;

/// The fixed size of one game entry.
pub const INDEX_ENTRY_SIZE: usize = 47;

/// The game entry read from one 47-byte record: offsets and packed
/// ids are read little-endian; the 20-bit game date sits in the low
/// bits of the four bytes at offset 25; the high id bits come from
/// the two packed bytes.  (The rating fields repeat the byte range of
/// the date field, faithfully to the reference reader.)
pub open spec fn spec_parse_game_index(b: Seq<u8>) -> GameIndex {
    let flags = spec_u16_le(b[7], b[8]);
    let var_counts = spec_u16_le(b[21], b[22]);
    let date_value = spec_u32_le(b[25], b[26], b[27], b[28]);
    let date20 = date_value & 0x000FFFFF;
    GameIndex {
        offset: spec_u32_le(b[0], b[1], b[2], b[3]),
        length: ((spec_u16_le(b[4], b[5]) + (((b[6] & 0x80) as u32) << 9u32)) % 0x10000) as u16,
        white_id: (((b[9] & 0xF0) as u32) << 12u32) | spec_u16_le(b[10], b[11]) as u32,
        black_id: (((b[9] & 0x0F) as u32) << 16u32) | spec_u16_le(b[12], b[13]) as u32,
        event_id: (((b[14] & 0xE0) as u32) << 11u32) | spec_u16_le(b[15], b[16]) as u32,
        site_id: (((b[14] & 0x1C) as u32) << 14u32) | spec_u16_le(b[17], b[18]) as u32,
        round_id: (((((b[14] & 0x03) as u32) << 16u32) | spec_u16_le(b[19], b[20]) as u32)
            % 0x10000) as u16,
        year: ((date20 >> 9u32) & 0x7FF) as u16,
        month: ((date20 >> 5u32) & 15) as u8,
        day: (date20 & 31) as u8,
        result: (var_counts >> 12u16) as u8,
        eco: spec_u16_le(b[23], b[24]),
        white_elo: spec_u16_le(b[25], b[26]) & 0x0FFF,
        black_elo: spec_u16_le(b[27], b[28]) & 0x0FFF,
        flags,
        num_half_moves: (b[33] as u16) | (((b[34] >> 6u8) as u16) << 8u16),
        stored_line_code: 0,
        final_material: [0, 0],
        pawn_advancement: [0, 0],
        var_count: (var_counts & 15) as u8,
        comment_count: ((var_counts >> 4u16) & 15) as u8,
        nag_count: ((var_counts >> 8u16) & 15) as u8,
        deleted: if flags & 0x08 != 0 {
            1
        } else {
            0
        },
        reserved: [0, 0, 0, 0, 0],
    }
}

impl IndexFile {
    /// Read one 47-byte game entry.
    pub fn parse_game_index(entry: &[u8]) -> (r: Result<GameIndex, IndexError>)
        ensures
            entry@.len() >= 47 ==> r == Ok::<GameIndex, IndexError>(
                spec_parse_game_index(entry@),
            ),
            entry@.len() < 47 ==> r == Err::<GameIndex, IndexError>(IndexError::TruncatedEntry),
    {
        if entry.len() < 47 {
            return Err(IndexError::TruncatedEntry);
        }

        let offset = Self::read_u32_le(entry, 0);
        let length_low = Self::read_u16_le(entry, 4);
        let length_high = entry[6];
        let flags = Self::read_u16_le(entry, 7);

        let white_black_high = entry[9];
        let white_id_low = Self::read_u16_le(entry, 10);
        let black_id_low = Self::read_u16_le(entry, 12);

        let event_site_rnd_high = entry[14];
        let event_id_low = Self::read_u16_le(entry, 15);
        let site_id_low = Self::read_u16_le(entry, 17);
        let round_id_low = Self::read_u16_le(entry, 19);

        let var_counts = Self::read_u16_le(entry, 21);
        let eco = Self::read_u16_le(entry, 23);

        // The packed dates field: the game date in the low 20 bits.
        let date_value = Self::read_u32_le(entry, 25);
        let date_20bit = date_value & 0x000FFFFF;
        let day = (date_20bit & 31) as u8;
        let month = ((date_20bit >> 5u32) & 15) as u8;
        let year = ((date_20bit >> 9u32) & 0x7FF) as u16;

        let white_elo = Self::read_u16_le(entry, 25) & 0x0FFF;
        let black_elo = Self::read_u16_le(entry, 27) & 0x0FFF;

        let num_half_moves_low = entry[33];
        let home_pawn_first = entry[34];
        let num_half_moves = (num_half_moves_low as u16) | (((home_pawn_first >> 6u8) as u16)
            << 8u16);

        let white_id = (((white_black_high & 0xF0) as u32) << 12u32) | (white_id_low as u32);
        let black_id = (((white_black_high & 0x0F) as u32) << 16u32) | (black_id_low as u32);
        let event_id = (((event_site_rnd_high & 0xE0) as u32) << 11u32) | (event_id_low as u32);
        let site_id = (((event_site_rnd_high & 0x1C) as u32) << 14u32) | (site_id_low as u32);
        let round_id_full = (((event_site_rnd_high & 0x03) as u32) << 16u32) | (round_id_low
            as u32);

        proof {
            assert(length_high & 0x80 <= 0x80) by (bit_vector);
            assert(((length_high & 0x80) as u32) << 9u32 <= 0x10000) by (bit_vector);
        }
        let length_full = (length_low as u32) + (((length_high & 0x80) as u32) << 9u32);

        let result = (var_counts >> 12u16) as u8;
        let var_count = (var_counts & 15) as u8;
        let comment_count = ((var_counts >> 4u16) & 15) as u8;
        let nag_count = ((var_counts >> 8u16) & 15) as u8;

        let deleted: u8 = if flags & 0x08 != 0 {
            1
        } else {
            0
        };

        Ok(
            GameIndex {
                offset,
                length: (length_full % 0x10000) as u16,
                white_id,
                black_id,
                event_id,
                site_id,
                round_id: (round_id_full % 0x10000) as u16,
                year,
                month,
                day,
                result,
                eco,
                white_elo,
                black_elo,
                flags,
                num_half_moves,
                stored_line_code: 0,
                final_material: [0, 0],
                pawn_advancement: [0, 0],
                var_count,
                comment_count,
                nag_count,
                deleted,
                reserved: [0, 0, 0, 0, 0],
            },
        )
    }

    /// Read the fixed-size header: the magic text, the version, and
    /// the game counts; the description and custom-flag bytes are
    /// carried along uninterpreted.  The game count is capped at 1000.
    pub fn parse_header(data: &[u8]) -> (r: Result<ScidHeader, IndexError>)
        ensures
            r matches Ok(h) ==> {
                &&& data@.len() >= 184
                &&& data@[0] == 0x53 && data@[1] == 0x63 && data@[2] == 0x69 && data@[3] == 0x64
                &&& data@[4] == 0x2E && data@[5] == 0x73 && data@[6] == 0x69 && data@[7] == 0
                &&& h.version == spec_u16_le(data@[8], data@[9])
                &&& h.num_games == (if spec_u24_le(data@[16], data@[17], data@[18]) < 1000 {
                    spec_u24_le(data@[16], data@[17], data@[18])
                } else {
                    1000u32
                })
                &&& h.auto_load_game == spec_u24_le(data@[19], data@[20], data@[21])
                &&& h.database_info@ == data@.subrange(22, 130)
                &&& h.custom_flags@ == data@.subrange(130, 184)
            },
            r matches Err(e) ==> (e == IndexError::TruncatedHeader && data@.len() < 184) || (e
                == IndexError::BadMagic),
    {
        if data.len() < 184 {
            return Err(IndexError::TruncatedHeader);
        }

        // Magic: the text "Scid.si" and a trailing zero.
        if data[0] != 0x53 || data[1] != 0x63 || data[2] != 0x69 || data[3] != 0x64 || data[4]
            != 0x2E || data[5] != 0x73 || data[6] != 0x69 || data[7] != 0x00 {
            return Err(IndexError::BadMagic);
        }
        let magic: [u8; 8] = [0x53, 0x63, 0x69, 0x64, 0x2E, 0x73, 0x69, 0x00];

        let version = Self::read_u16_le(data, 8);
        // Six reserved bytes follow the version.
        let num_games_raw = Self::read_u24_le(data, 16);
        let auto_load_game = Self::read_u24_le(data, 19);

        let database_info = copy_range(data, 22, 130);
        let custom_flags = copy_range(data, 130, 184);

        // Keep the entry scan bounded.
        let num_games = if num_games_raw < 1000 {
            num_games_raw
        } else {
            1000
        };

        Ok(
            ScidHeader {
                magic,
                version,
                db_type: 0,
                num_games,
                auto_load_game,
                database_info,
                custom_flags,
            },
        )
    }

    /// Read a whole index image: the header, then one entry per game
    /// (up to the header's capped count and the bytes available).
    pub fn parse(data: &[u8]) -> (r: Result<IndexFile, IndexError>)
        ensures
            r matches Ok(f) ==> forall|i: int|
                0 <= i < f.games@.len() ==> #[trigger] f.games@[i] == spec_parse_game_index(
                    data@.subrange(184 + i * 47, 184 + i * 47 + 47),
                ),
    {
        let header = match Self::parse_header(data) {
            Ok(h) => h,
            Err(e) => {
                return Err(e);
            },
        };

        let count = header.num_games as usize;
        let mut games: Vec<GameIndex> = Vec::new();
        let mut i: usize = 0;

        while i < count
            invariant
                i <= count,
                count <= 1000,
                games@.len() == i,
                forall|j: int|
                    0 <= j < i ==> #[trigger] games@[j] == spec_parse_game_index(
                        data@.subrange(184 + j * 47, 184 + j * 47 + 47),
                    ),
            decreases count - i,
        {
            let start = 184 + i * 47;
            if start + 47 > data.len() {
                break ;
            }
            let entry = vstd::slice::slice_subrange(data, start, start + 47);
            match Self::parse_game_index(entry) {
                Ok(g) => games.push(g),
                Err(_) => {
                    break ;
                },
            }
            i = i + 1;
        }

        Ok(IndexFile { header, games })
    }
}

} // verus!
