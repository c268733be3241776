//! The ways in which font data can be rejected.

use vstd::prelude::*;

verus! {

/// Why a byte buffer is not a font that this library accepts.
#[derive(Debug, Clone, Copy, PartialEq, Eq, Structural)]
pub enum PsfError {
    /// Fewer than the 32 bytes of the header.
    TruncatedHeader,
    /// The first four bytes are not the PSF2 magic number.
    InvalidMagic,
    /// The version field is not 0.
    UnsupportedVersion,
    /// The bytes per glyph do not match the rows that the width and height
    /// describe, or a row is too wide to index on this platform.
    InconsistentGeometry,
    /// The buffer ends before the last glyph bitmap does.
    TruncatedGlyphTable,
    /// The buffer ends in the middle of a mapping table entry.
    TruncatedUnicodeTable,
    /// A character of the mapping table is not well-formed UTF-8.
    InvalidUtf8Sequence,
    /// The mapping table has a different number of entries than there are glyphs.
    InconsistentUnicodeTable,
}

} // verus!
