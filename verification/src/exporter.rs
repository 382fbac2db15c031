//! Configuration for the PGN exporter.  The exporter's file writing
//! lives outside the library; the options and the small pure helpers
//! are here.

use vstd::prelude::*;

use crate::strutil::{append_zero_padded, spec_zero_padded};

verus! {

/// Options for a PGN export run.
#[derive(Debug, Clone, Copy, PartialEq, Eq)]
pub struct PgnExporter {
    pub include_variations: bool,
    pub include_comments: bool,
    pub max_games: Option<usize>,
}

impl PgnExporter {
    /// Default options: no variations, no comments, no game limit.
    pub fn new() -> (r: Self)
        ensures
            r == (PgnExporter {
                include_variations: false,
                include_comments: false,
                max_games: None::<usize>,
            }),
    {
        PgnExporter { include_variations: false, include_comments: false, max_games: None }
    }

    /// Choose whether variations are exported.
    pub fn with_variations(self, enabled: bool) -> (r: Self)
        ensures
            r == (PgnExporter { include_variations: enabled, ..self }),
    {
        PgnExporter { include_variations: enabled, ..self }
    }

    /// Choose whether comments are exported.
    pub fn with_comments(self, enabled: bool) -> (r: Self)
        ensures
            r == (PgnExporter { include_comments: enabled, ..self }),
    {
        PgnExporter { include_comments: enabled, ..self }
    }

    /// Cap how many games are exported.
    pub fn with_max_games(self, max: usize) -> (r: Self)
        ensures
            r == (PgnExporter { max_games: Some(max), ..self }),
    {
        PgnExporter { max_games: Some(max), ..self }
    }

    /// The text for an ECO code: `?` for zero, else the code printed
    /// with at least three digits after `ECO`.
    pub open spec fn spec_eco_string(eco: u16) -> Seq<char> {
        if eco == 0 {
            "?"@
        } else {
            "ECO"@ + spec_zero_padded(eco as nat, 3)
        }
    }

    /// Render an ECO code as text.
    pub fn eco_to_string(&self, eco: u16) -> (r: String)
        ensures
            r@ == Self::spec_eco_string(eco),
    {
        if eco == 0 {
            let mut s = String::new();
            s.append("?");
            s
        } else {
            let mut s = String::new();
            s.append("ECO");
            append_zero_padded(&mut s, eco as u64, 3);
            proof {
                assert(s@ =~= Self::spec_eco_string(eco));
            }
            s
        }
    }
}

impl Default for PgnExporter {
    /// The same options as `new`.
    fn default() -> (r: Self)
        ensures
            r == (PgnExporter {
                include_variations: false,
                include_comments: false,
                max_games: None::<usize>,
            }),
    {
        Self::new()
    }
}

} // verus!
