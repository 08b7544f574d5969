//! Parser for the compact logogram move notation of the board game cetkaik.
//!
//! A move string encodes a source square, the profession of the moving piece
//! (or a wildcard when the record could not determine it), an optional
//! intermediate step, a destination, and — for moves that cross a water or
//! bridge hazard — the outcome of a random stick throw.  The grammar is
//! locally ambiguous: several move shapes share a lexical prefix, so the
//! top-level entry tries the shape decoders in a fixed priority order and
//! accepts the first that matches.

pub mod domain;
pub mod movement;
pub mod laws;

pub use domain::{Column, Row, Coord, Profession, Color, ParseError};
pub use movement::{
    Move, parse, parse_square, parse_profession, parse_profession_or_wildcard,
    parse_water_stick, parse_bridge_stick_size, parse_tam_sqbracket,
};
