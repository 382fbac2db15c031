//! Decoder library for SCID chess databases: the compact binary game
//! encoding (moves, annotations, variations), the index and name files,
//! and the helpers needed to render games as PGN text.

use vstd::prelude::*;

pub mod date;
pub mod decode;
pub mod elements;
pub mod game;
pub mod exporter;
pub mod index;
pub mod moves;
pub mod position;
pub mod strutil;
pub mod vartree;

verus! {

} // verus!
