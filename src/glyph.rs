//! A single glyph: a byte-padded, row-major, most-significant-bit-first bitmap.

use vstd::prelude::*;

use crate::arith::div_rem_usize;

verus! {

/// Whether bit `k` of `byte` is set, counting from the most significant bit.
pub open spec fn bit_set(byte: u8, k: nat) -> bool {
    byte & (0x80u8 >> (k as u8)) != 0
}

/// The mathematical content of a glyph.
pub struct GlyphModel {
    /// The pixel rows, `line_size` bytes each.
    pub bitmap: Seq<u8>,
    /// Bytes per pixel row.
    pub line_size: nat,
    /// Width in pixels: every bit of a row, padding included.
    pub width: nat,
    /// Height in pixels.
    pub height: nat,
}

impl GlyphModel {
    /// The bitmap holds exactly `height` rows, and the width covers every bit of a row.
    pub open spec fn wf(self) -> bool {
        &&& self.bitmap.len() == self.line_size * self.height
        &&& self.width == self.line_size * 8
    }

    /// The pixel at column `x` and row `y`, or `None` outside the glyph.
    pub open spec fn pixel(self, x: int, y: int) -> Option<bool> {
        if 0 <= x < self.width && 0 <= y < self.height {
            Some(bit_set(self.bitmap[y * self.line_size + x / 8], (x % 8) as nat))
        } else {
            None
        }
    }
}

/// One glyph of a font. Immutable once built.
pub struct Glyph {
    /// A set bit indicates that a pixel should be drawn for this glyph.
    bitmap: Vec<u8>,
    /// The number of bytes taken up by each row of pixels.
    line_size: usize,
    /// See `Glyph::width`.
    width: usize,
    /// See `Glyph::height`.
    height: usize,
}

impl View for Glyph {
    type V = GlyphModel;

    closed spec fn view(&self) -> GlyphModel {
        GlyphModel {
            bitmap: self.bitmap@,
            line_size: self.line_size as nat,
            width: self.width as nat,
            height: self.height as nat,
        }
    }
}

impl Glyph {
    #[verifier::type_invariant]
    closed spec fn inv(&self) -> bool {
        self@.wf()
    }

    /// Builds a glyph from `height` rows of `line_size` bytes each.
    pub(crate) fn new(bitmap: Vec<u8>, line_size: usize, height: usize) -> (g: Glyph)
        requires
            bitmap@.len() == line_size * height,
            line_size * 8 <= usize::MAX,
        ensures
            g@.wf(),
            g@ == (GlyphModel {
                bitmap: bitmap@,
                line_size: line_size as nat,
                width: line_size as nat * 8,
                height: height as nat,
            }),
    {
        Glyph { bitmap, line_size, width: line_size * 8, height }
    }

    /// The width in pixels of this individual glyph.
    ///
    /// Each row is stored rounded up to a whole byte, and some fonts draw
    /// into those padding bits to make a glyph slightly wider than the
    /// font's nominal width; so the width counts every bit of a row.
    pub fn width(&self) -> (r: usize)
        ensures
            r == self@.width,
            r % 8 == 0,
    {
        proof {
            use_type_invariant(self);
        }
        self.width
    }

    /// The height in pixels of this glyph: always the height of its font.
    pub fn height(&self) -> (r: usize)
        ensures
            r == self@.height,
    {
        self.height
    }

    /// Whether the pixel at column `x` and row `y` is set, or `None` when
    /// `x` or `y` lies outside the glyph. A column equal to the width, or a
    /// row equal to the height, is outside: it would reach into the next row
    /// or past the bitmap.
    pub fn get(&self, x: usize, y: usize) -> (r: Option<bool>)
        ensures
            r == self@.pixel(x as int, y as int),
            r.is_some() <==> (x < self@.width && y < self@.height),
    {
        proof {
            use_type_invariant(self);
        }
        if x >= self.width || y >= self.height {
            return None;
        }
        let (line_byte_index, bit_index) = div_rem_usize(x, 8);
        let ls = self.line_size;
        let h = self.height;
        assert(y * ls + line_byte_index < ls * h) by (nonlinear_arith)
            requires
                y < h,
                x < ls * 8,
                line_byte_index == x / 8,
        ;
        let n = self.bitmap.len();
        assert(n == ls * h);
        let row_start = y * ls;
        let mask: u8 = 0x80u8 >> (bit_index as u8);
        let byte = self.bitmap[row_start + line_byte_index];
        Some(byte & mask != 0)
    }
}

} // verus!
