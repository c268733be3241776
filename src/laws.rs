//! Properties that hold of every font this library builds.

use vstd::prelude::*;

use crate::error::PsfError;
use crate::font::{
    find_from, first_glyph, layout_error, parse_font, unicode_table, FontModel,
};
use crate::header::{glyph_count, nominal_height, nominal_width};
use crate::table::{decode_table, SPELLING_START, ENTRY_END};
use crate::utf8::{sequence_len, utf8_scalar};

verus! {

/// The bounding box of a parsed font is the width and height that its
/// header declares.
pub proof fn lemma_bounding_box_is_header(b: Seq<u8>)
    requires
        parse_font(b) is Ok,
    ensures
        parse_font(b)->Ok_0.width == nominal_width(b),
        parse_font(b)->Ok_0.height == nominal_height(b),
{
}

/// A glyph's width is a whole number of bytes' worth of pixels, and at
/// least the nominal width of its font.
pub proof fn lemma_glyph_width(m: FontModel, k: int)
    requires
        m.wf(),
        0 <= k < m.glyphs.len(),
    ensures
        m.glyphs[k].width % 8 == 0,
        m.glyphs[k].width >= m.width,
{
}

/// Among several associations for one scalar value, the first one in the
/// table decides the glyph.
pub proof fn lemma_first_association_wins(map: Seq<(u32, nat)>, v: u32, k: int)
    requires
        0 <= k < map.len(),
        map[k].0 == v,
        forall|j: int| 0 <= j < k ==> (#[trigger] map[j]).0 != v,
    ensures
        first_glyph(map, v) == Some(map[k].1),
{
    lemma_find_reaches(map, v, 0, k);
}

proof fn lemma_find_reaches(map: Seq<(u32, nat)>, v: u32, i: int, k: int)
    requires
        0 <= i <= k < map.len(),
        map[k].0 == v,
        forall|j: int| i <= j < k ==> (#[trigger] map[j]).0 != v,
    ensures
        find_from(map, v, i) == Some(map[k].1),
    decreases k - i,
{
    if i < k {
        lemma_find_reaches(map, v, i + 1, k);
    }
}

/// A mapping table with a different number of entries than there are
/// glyphs is rejected.
pub proof fn lemma_entry_count_must_match(b: Seq<u8>)
    requires
        layout_error(b) is None,
        decode_table(unicode_table(b)) is Ok,
        decode_table(unicode_table(b))->Ok_0.1 != glyph_count(b),
    ensures
        parse_font(b) == Err::<FontModel, _>(PsfError::InconsistentUnicodeTable),
{
}

/// A parsed font holds as many mapping table entries as glyphs.
pub proof fn lemma_entry_count_of_font(b: Seq<u8>)
    requires
        parse_font(b) is Ok,
    ensures
        decode_table(unicode_table(b)) is Ok,
        decode_table(unicode_table(b))->Ok_0.1 == glyph_count(b),
        parse_font(b)->Ok_0.glyphs.len() == glyph_count(b),
{
}

/// A first character of the mapping table whose bytes are all present but
/// are not well-formed UTF-8 has the font rejected as such.
pub proof fn lemma_malformed_utf8_rejected(b: Seq<u8>)
    requires
        layout_error(b) is None,
        unicode_table(b).len() > 0,
        unicode_table(b)[0] != ENTRY_END,
        unicode_table(b)[0] != SPELLING_START,
        sequence_len(unicode_table(b)[0]) <= unicode_table(b).len(),
        utf8_scalar(unicode_table(b).subrange(0, sequence_len(unicode_table(b)[0]) as int)) is None,
    ensures
        parse_font(b) == Err::<FontModel, _>(PsfError::InvalidUtf8Sequence),
{
}

} // verus!
