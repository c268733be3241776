//! The fixed 32-byte PSF2 header.

use vstd::prelude::*;

verus! {

/// The size in bytes of the header; the glyph bitmaps follow it.
pub const HEADER_SIZE: usize = 32;

/// The little-endian unsigned 32-bit integer stored at `b[off..off + 4]`.
pub open spec fn le_u32(b: Seq<u8>, off: int) -> nat {
    (b[off] + b[off + 1] * 0x100 + b[off + 2] * 0x10000 + b[off + 3] * 0x1000000) as nat
}

/// The header opens with the PSF2 magic number `72 b5 4a 86`.
pub open spec fn has_magic(b: Seq<u8>) -> bool {
    &&& b[0] == 0x72
    &&& b[1] == 0xb5
    &&& b[2] == 0x4a
    &&& b[3] == 0x86
}

/// The format version, which must be 0.
pub open spec fn version(b: Seq<u8>) -> nat {
    le_u32(b, 4)
}

/// The number of glyphs.
pub open spec fn glyph_count(b: Seq<u8>) -> nat {
    le_u32(b, 16)
}

/// The number of bytes of each glyph bitmap.
pub open spec fn glyph_size(b: Seq<u8>) -> nat {
    le_u32(b, 20)
}

/// The nominal height of the glyphs in pixels.
pub open spec fn nominal_height(b: Seq<u8>) -> nat {
    le_u32(b, 24)
}

/// The nominal width of the glyphs in pixels.
pub open spec fn nominal_width(b: Seq<u8>) -> nat {
    le_u32(b, 28)
}

/// The number of bytes in a row of `width` pixels: `width / 8`, rounded up.
pub open spec fn row_bytes(width: nat) -> nat {
    width / 8 + if width % 8 == 0 {
        0nat
    } else {
        1nat
    }
}

/// Reads the little-endian unsigned 32-bit integer at `b[off..off + 4]`.
pub fn read_u32_le(b: &[u8], off: usize) -> (r: u32)
    requires
        off + 4 <= b@.len(),
    ensures
        r == le_u32(b@, off as int),
{
    b[off] as u32 + b[off + 1] as u32 * 0x100 + b[off + 2] as u32 * 0x10000 + b[off + 3] as u32
        * 0x1000000
}

/// Whether `b`, at least a header long, opens with the magic number.
pub fn check_magic(b: &[u8]) -> (r: bool)
    requires
        b@.len() >= HEADER_SIZE,
    ensures
        r == has_magic(b@),
{
    b[0] == 0x72 && b[1] == 0xb5 && b[2] == 0x4a && b[3] == 0x86
}

} // verus!
