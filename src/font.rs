//! A parsed font: its nominal size, its glyphs, and the table that maps
//! Unicode scalar values to glyphs.

use vstd::prelude::*;
use vstd::slice::{slice_subrange, slice_to_vec};

use crate::arith::div_ceil_usize;
use crate::error::PsfError;
use crate::glyph::{Glyph, GlyphModel};
use crate::header::{
    check_magic, glyph_count, glyph_size, has_magic, nominal_height, nominal_width, read_u32_le,
    row_bytes, version, HEADER_SIZE,
};
use crate::laws::lemma_glyph_width;
use crate::table::{decode_table, decode_unicode_table, entries_model, UnicodeMap};

verus! {

/// The mathematical content of a font.
pub struct FontModel {
    /// Nominal width in pixels.
    pub width: nat,
    /// Nominal height in pixels.
    pub height: nat,
    /// The glyphs; a glyph's id is its index.
    pub glyphs: Seq<GlyphModel>,
    /// The (scalar value, glyph id) associations, in the order of the table.
    pub map: Seq<(u32, nat)>,
}

/// The glyph id of the first association of `map` from position `k` on
/// whose scalar value is `v`.
pub open spec fn find_from(map: Seq<(u32, nat)>, v: u32, k: int) -> Option<nat>
    decreases map.len() - k,
{
    if k < 0 || k >= map.len() {
        None
    } else if map[k].0 == v {
        Some(map[k].1)
    } else {
        find_from(map, v, k + 1)
    }
}

/// The glyph id of the first association of `map` whose scalar value is `v`.
pub open spec fn first_glyph(map: Seq<(u32, nat)>, v: u32) -> Option<nat> {
    find_from(map, v, 0)
}

impl FontModel {
    /// Every glyph has the font's height and rows of `row_bytes(width)`
    /// bytes, and every association names an existing glyph.
    pub open spec fn wf(self) -> bool {
        &&& forall|k: int|
            0 <= k < self.glyphs.len() ==> {
                &&& (#[trigger] self.glyphs[k]).wf()
                &&& self.glyphs[k].line_size == row_bytes(self.width)
                &&& self.glyphs[k].height == self.height
            }
        &&& forall|k: int| 0 <= k < self.map.len() ==> (#[trigger] self.map[k]).1 < self.glyphs.len()
    }

    /// The id of the glyph that `c` maps to.
    pub open spec fn glyph_for(self, c: char) -> Option<nat> {
        first_glyph(self.map, c as u32)
    }
}

/// The glyph with id `k` of the font in `b`: its bitmap is copied verbatim
/// from the glyph table.
pub open spec fn glyph_at(b: Seq<u8>, k: int) -> GlyphModel {
    let start = HEADER_SIZE + k * glyph_size(b);
    let line_size = row_bytes(nominal_width(b));
    GlyphModel {
        bitmap: b.subrange(start, start + glyph_size(b)),
        line_size,
        width: line_size * 8,
        height: nominal_height(b),
    }
}

/// Why the header or the glyph table of `b` is rejected, if it is.
pub open spec fn layout_error(b: Seq<u8>) -> Option<PsfError> {
    if b.len() < HEADER_SIZE {
        Some(PsfError::TruncatedHeader)
    } else if !has_magic(b) {
        Some(PsfError::InvalidMagic)
    } else if version(b) != 0 {
        Some(PsfError::UnsupportedVersion)
    } else if glyph_size(b) != row_bytes(nominal_width(b)) * nominal_height(b)
        || row_bytes(nominal_width(b)) * 8 > usize::MAX {
        Some(PsfError::InconsistentGeometry)
    } else if b.len() < HEADER_SIZE + glyph_count(b) * glyph_size(b) {
        Some(PsfError::TruncatedGlyphTable)
    } else {
        None
    }
}

/// The mapping table of `b`: all that follows the glyph table.
pub open spec fn unicode_table(b: Seq<u8>) -> Seq<u8> {
    b.subrange(HEADER_SIZE + glyph_count(b) * glyph_size(b), b.len() as int)
}

/// The font that the bytes `b` hold, or why they are rejected.
pub open spec fn parse_font(b: Seq<u8>) -> Result<FontModel, PsfError> {
    match layout_error(b) {
        Some(e) => Err(e),
        None => match decode_table(unicode_table(b)) {
            Err(e) => Err(e),
            Ok((map, entries)) => if entries != glyph_count(b) {
                Err(PsfError::InconsistentUnicodeTable)
            } else {
                Ok(
                    FontModel {
                        width: nominal_width(b),
                        height: nominal_height(b),
                        glyphs: Seq::new(glyph_count(b), |k: int| glyph_at(b, k)),
                        map,
                    },
                )
            },
        },
    }
}

/// A parsed PSF2 font. Immutable once built.
pub struct Font {
    /// The width in pixels of this font's bounding box.
    width: usize,
    /// The height in pixels of this font's bounding box.
    height: usize,
    /// Every single glyph in the font.
    glyphs: Vec<Glyph>,
    /// The associations between Unicode scalar values and indexes into `glyphs`.
    unicode: Vec<UnicodeMap>,
}

impl View for Font {
    type V = FontModel;

    closed spec fn view(&self) -> FontModel {
        FontModel {
            width: self.width as nat,
            height: self.height as nat,
            glyphs: self.glyphs@.map_values(|g: Glyph| g@),
            map: entries_model(self.unicode@),
        }
    }
}

impl Font {
    #[verifier::type_invariant]
    closed spec fn inv(&self) -> bool {
        self@.wf()
    }

    /// The width in pixels of this font's bounding box.
    pub fn width(&self) -> (r: usize)
        ensures
            r == self@.width,
    {
        self.width
    }

    /// The height in pixels of this font's bounding box.
    pub fn height(&self) -> (r: usize)
        ensures
            r == self@.height,
    {
        self.height
    }

    /// The width and height in pixels of this font's bounding box.
    pub fn bounding_box(&self) -> (r: (usize, usize))
        ensures
            r.0 == self@.width,
            r.1 == self@.height,
    {
        (self.width, self.height)
    }

    /// The index of the glyph associated with a Unicode character: that of
    /// the first association for it in the table.
    pub fn index_of(&self, c: char) -> (r: Option<usize>)
        ensures
            r is None <==> self@.glyph_for(c) is None,
            r matches Some(i) ==> self@.glyph_for(c) == Some(i as nat),
            r matches Some(i) ==> i < self@.glyphs.len(),
    {
        proof {
            use_type_invariant(self);
        }
        let v = c as u32;
        let ghost map = self@.map;
        let mut k: usize = 0;
        while k < self.unicode.len()
            invariant
                k <= self.unicode@.len(),
                map == entries_model(self.unicode@),
                map.len() == self.unicode@.len(),
                v == c as u32,
                find_from(map, v, k as int) == first_glyph(map, v),
                forall|j: int| 0 <= j < map.len() ==> (#[trigger] map[j]).1 < self@.glyphs.len(),
            decreases self.unicode@.len() - k,
        {
            let entry = &self.unicode[k];
            assert(map[k as int] == (entry.c, entry.i as nat));
            if entry.c == v {
                return Some(entry.i);
            }
            k = k + 1;
        }
        None
    }

    /// The glyph associated with a Unicode character, or `None` if the font
    /// has none for it.
    pub fn lookup(&self, c: char) -> (r: Option<&Glyph>)
        ensures
            r is None <==> self@.glyph_for(c) is None,
            r matches Some(g) ==> {
                &&& self@.glyph_for(c) matches Some(i)
                &&& i < self@.glyphs.len()
                &&& g@ == self@.glyphs[i as int]
                &&& g@.width >= self@.width
                &&& g@.height == self@.height
            },
    {
        proof {
            use_type_invariant(self);
        }
        match self.index_of(c) {
            None => None,
            Some(i) => {
                let g = &self.glyphs[i];
                assert(self@.glyphs[i as int] == g@);
                proof {
                    lemma_glyph_width(self@, i as int);
                }
                Some(g)
            },
        }
    }

    /// Parses a version 2 PC Screen Font from its bytes.
    pub fn parse(font: &[u8]) -> (r: Result<Font, PsfError>)
        ensures
            r matches Ok(f) ==> parse_font(font@) == Ok::<_, PsfError>(f@) && f@.wf(),
            r matches Err(e) ==> parse_font(font@) == Err::<FontModel, _>(e),
    {
        if font.len() < HEADER_SIZE {
            return Err(PsfError::TruncatedHeader);
        }
        if !check_magic(font) {
            return Err(PsfError::InvalidMagic);
        }
        if read_u32_le(font, 4) != 0 {
            return Err(PsfError::UnsupportedVersion);
        }
        // The number of glyphs in this font.
        let length = read_u32_le(font, 16) as usize;
        // The size in bytes of a single glyph.
        let charsize = read_u32_le(font, 20) as usize;
        // The height in pixels of this font's bounding box.
        let height = read_u32_le(font, 24) as usize;
        // The width in pixels of this font's bounding box.
        let width = read_u32_le(font, 28) as usize;
        // The size in bytes of a single row of pixels in a glyph.
        let line_size = div_ceil_usize(width, 8);
        assert(line_size == row_bytes(width as nat));
        assert(line_size as u64 * height as u64 <= u64::MAX) by (nonlinear_arith)
            requires
                line_size <= 0x2000_0000,
                height <= u32::MAX,
        ;
        if charsize as u64 != line_size as u64 * height as u64 || line_size > usize::MAX / 8 {
            return Err(PsfError::InconsistentGeometry);
        }
        assert(length as u64 * charsize as u64 <= 0xFFFF_FFFE_0000_0001) by (nonlinear_arith)
            requires
                length <= u32::MAX,
                charsize <= u32::MAX,
        ;
        let glyphs_size: u64 = length as u64 * charsize as u64;
        if glyphs_size > (font.len() - HEADER_SIZE) as u64 {
            return Err(PsfError::TruncatedGlyphTable);
        }
        let unicode_offset = HEADER_SIZE + glyphs_size as usize;
        let unicode_info = slice_subrange(font, unicode_offset, font.len());
        let (unicode, entries) = match decode_unicode_table(unicode_info) {
            Err(e) => {
                return Err(e);
            },
            Ok(decoded) => decoded,
        };
        if entries != length {
            return Err(PsfError::InconsistentUnicodeTable);
        }
        let glyphs = glyph_table(font, length, charsize, line_size, height);
        let f = Font { width, height, glyphs, unicode };
        proof {
            assert(f@.glyphs =~= Seq::new(glyph_count(font@), |k: int| glyph_at(font@, k)));
        }
        Ok(f)
    }
}

/// Copies the bitmaps of the `length` glyphs that follow the header.
fn glyph_table(font: &[u8], length: usize, charsize: usize, line_size: usize, height: usize) -> (r:
    Vec<Glyph>)
    requires
        font@.len() >= HEADER_SIZE + length * charsize,
        charsize == line_size * height,
        line_size * 8 <= usize::MAX,
    ensures
        r@.len() == length,
        forall|k: int| 0 <= k < length ==> (#[trigger] r@[k])@.wf(),
        forall|k: int|
            0 <= k < length ==> (#[trigger] r@[k])@ == (GlyphModel {
                bitmap: font@.subrange(
                    HEADER_SIZE + k * charsize,
                    HEADER_SIZE + k * charsize + charsize,
                ),
                line_size: line_size as nat,
                width: line_size as nat * 8,
                height: height as nat,
            }),
{
    let mut glyphs: Vec<Glyph> = Vec::with_capacity(length);
    let mut k: usize = 0;
    while k < length
        invariant
            k <= length,
            glyphs@.len() == k,
            font@.len() >= HEADER_SIZE + length * charsize,
            charsize == line_size * height,
            line_size * 8 <= usize::MAX,
            forall|m: int| 0 <= m < k ==> (#[trigger] glyphs@[m])@.wf(),
            forall|m: int|
                0 <= m < k ==> (#[trigger] glyphs@[m])@ == (GlyphModel {
                    bitmap: font@.subrange(
                        HEADER_SIZE + m * charsize,
                        HEADER_SIZE + m * charsize + charsize,
                    ),
                    line_size: line_size as nat,
                    width: line_size as nat * 8,
                    height: height as nat,
                }),
        decreases length - k,
    {
        assert(0 <= k * charsize && k * charsize + charsize <= length * charsize)
            by (nonlinear_arith)
            requires
                k < length,
        ;
        let n = font.len();
        let begin = HEADER_SIZE + k * charsize;
        let end = begin + charsize;
        let bitmap = slice_to_vec(slice_subrange(font, begin, end));
        glyphs.push(Glyph::new(bitmap, line_size, height));
        k = k + 1;
    }
    glyphs
}

} // verus!
