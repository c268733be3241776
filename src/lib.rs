//! Parsing of PC Screen Font version 2 (PSF2) bitmap fonts, and read-only
//! access to their glyphs by Unicode character.

use vstd::prelude::*;

mod arith;
pub mod glyph;
pub mod utf8;
pub mod error;
pub mod table;
pub mod header;
pub mod font;
pub mod laws;

pub use error::PsfError;
pub use font::{Font, FontModel};
pub use glyph::{Glyph, GlyphModel};
