use psf2::utf8::{decode_scalar, lead_sequence_len};
use psf2::{Font, PsfError};

const MAGIC: [u8; 4] = [0x72, 0xb5, 0x4a, 0x86];

fn push_u32(v: &mut Vec<u8>, x: u32) {
    v.extend_from_slice(&x.to_le_bytes());
}

fn font_bytes(length: u32, charsize: u32, height: u32, width: u32, glyphs: &[u8], table: &[u8]) -> Vec<u8> {
    let mut v = Vec::new();
    v.extend_from_slice(&MAGIC);
    push_u32(&mut v, 0); // version
    push_u32(&mut v, 32); // header size
    push_u32(&mut v, 1); // flags
    push_u32(&mut v, length);
    push_u32(&mut v, charsize);
    push_u32(&mut v, height);
    push_u32(&mut v, width);
    v.extend_from_slice(glyphs);
    v.extend_from_slice(table);
    v
}

/// Four single-row glyphs of width 8, glyph `k` drawn as the byte `k + 1`,
/// with the given mapping table.
fn four_glyphs(table: &[u8]) -> Vec<u8> {
    font_bytes(4, 1, 1, 8, &[1, 2, 3, 4], table)
}

fn row(font: &Font, c: char) -> Option<u8> {
    let g = font.lookup(c)?;
    let mut byte = 0u8;
    for x in 0..8 {
        if g.get(x, 0)? {
            byte |= 0x80 >> x;
        }
    }
    Some(byte)
}

fn parse_err(bytes: &[u8]) -> PsfError {
    match Font::parse(bytes) {
        Ok(_) => panic!("expected an error"),
        Err(e) => e,
    }
}

#[test]
fn bounding_box_is_header_size() {
    let f = Font::parse(&font_bytes(1, 2, 2, 5, &[0, 0], &[0xFF])).unwrap();
    assert_eq!(f.bounding_box(), (5, 2));
    assert_eq!(f.width(), 5);
    assert_eq!(f.height(), 2);

    let f = Font::parse(&font_bytes(2, 4, 2, 10, &[0; 8], &[0xFF, 0xFF])).unwrap();
    assert_eq!(f.bounding_box(), (10, 2));
}

#[test]
fn glyph_width_is_padded_row() {
    let f = Font::parse(&font_bytes(1, 4, 2, 10, &[0; 4], &[b'a', 0xFF])).unwrap();
    let g = f.lookup('a').unwrap();
    assert_eq!(g.width(), 16);
    assert_eq!(g.width() % 8, 0);
    assert!(g.width() >= f.width());
    assert_eq!(g.height(), 2);

    let f = Font::parse(&font_bytes(1, 1, 1, 8, &[0], &[b'a', 0xFF])).unwrap();
    assert_eq!(f.lookup('a').unwrap().width(), 8);
}

#[test]
fn get_out_of_bounds_is_none() {
    let f = Font::parse(&font_bytes(1, 2, 2, 8, &[0xFF, 0x00], &[b'a', 0xFF])).unwrap();
    let g = f.lookup('a').unwrap();
    assert_eq!(g.get(7, 0), Some(true));
    assert_eq!(g.get(7, 1), Some(false));
    assert_eq!(g.get(8, 0), None);
    assert_eq!(g.get(0, 2), None);
    assert_eq!(g.get(8, 1), None);
    assert_eq!(g.get(usize::MAX, usize::MAX), None);
}

#[test]
fn single_row_round_trip() {
    let f = Font::parse(&font_bytes(1, 1, 1, 8, &[0b10110000], &[b'x', 0xFF])).unwrap();
    let g = f.lookup('x').unwrap();
    assert_eq!(g.get(0, 0), Some(true));
    assert_eq!(g.get(1, 0), Some(false));
    assert_eq!(g.get(2, 0), Some(true));
    assert_eq!(g.get(3, 0), Some(true));
    for x in 4..8 {
        assert_eq!(g.get(x, 0), Some(false));
    }
}

#[test]
fn pixel_in_second_byte_of_row() {
    // Width 10: rows of two bytes, glyph width 16.
    let f = Font::parse(&font_bytes(1, 4, 2, 10, &[0x00, 0x40, 0x80, 0x01], &[b'a', 0xFF])).unwrap();
    let g = f.lookup('a').unwrap();
    assert_eq!(g.get(9, 0), Some(true));
    assert_eq!(g.get(8, 0), Some(false));
    assert_eq!(g.get(0, 1), Some(true));
    assert_eq!(g.get(15, 1), Some(true));
    assert_eq!(g.get(1, 0), Some(false));
    assert_eq!(g.get(16, 0), None);
}

#[test]
fn lookup_finds_mapped_glyph() {
    let f = Font::parse(&four_glyphs(&[0xFF, 0xFF, 0x41, 0xFF, 0xFF])).unwrap();
    assert_eq!(f.index_of('A'), Some(2));
    assert_eq!(row(&f, 'A'), Some(3));
    assert!(f.lookup('B').is_none());
    assert_eq!(f.index_of('B'), None);
}

#[test]
fn duplicate_mapping_keeps_first() {
    let f = Font::parse(&four_glyphs(&[0xFF, b'A', 0xFF, b'A', b'B', 0xFF, b'B', 0xFF])).unwrap();
    assert_eq!(f.index_of('A'), Some(1));
    assert_eq!(row(&f, 'A'), Some(2));
    assert_eq!(f.index_of('B'), Some(2));
}

#[test]
fn several_characters_for_one_glyph() {
    let f = Font::parse(&four_glyphs(&[b'a', b'b', 0xFF, 0xFF, 0xFF, b'c', 0xFF])).unwrap();
    assert_eq!(f.index_of('a'), Some(0));
    assert_eq!(f.index_of('b'), Some(0));
    assert_eq!(f.index_of('c'), Some(3));
}

#[test]
fn multibyte_characters() {
    let table = [
        0xC3, 0xA9, 0xFF, // é
        0xE2, 0x82, 0xAC, 0xFF, // €
        0xF0, 0x9F, 0x98, 0x80, 0xFF, // 😀
        b'z', 0xFF,
    ];
    let f = Font::parse(&four_glyphs(&table)).unwrap();
    assert_eq!(f.index_of('é'), Some(0));
    assert_eq!(f.index_of('€'), Some(1));
    assert_eq!(f.index_of('😀'), Some(2));
    assert_eq!(f.index_of('z'), Some(3));
    assert_eq!(row(&f, '😀'), Some(3));
}

#[test]
fn alternate_spellings_are_skipped() {
    let table = [b'a', 0xFE, b'b', 0xC3, 0xA9, 0xFF, 0xFE, b'c', 0xFF, 0xFF, b'd', 0xFF];
    let f = Font::parse(&four_glyphs(&table)).unwrap();
    assert_eq!(f.index_of('a'), Some(0));
    assert_eq!(f.index_of('b'), None);
    assert_eq!(f.index_of('é'), None);
    assert_eq!(f.index_of('c'), None);
    assert_eq!(f.index_of('d'), Some(3));
}

#[test]
fn empty_font() {
    let f = Font::parse(&font_bytes(0, 1, 1, 8, &[], &[])).unwrap();
    assert_eq!(f.bounding_box(), (8, 1));
    assert!(f.lookup('a').is_none());
}

#[test]
fn too_few_entries_rejected() {
    assert_eq!(parse_err(&four_glyphs(&[b'a', 0xFF, 0xFF, 0xFF])), PsfError::InconsistentUnicodeTable);
    assert_eq!(parse_err(&four_glyphs(&[])), PsfError::InconsistentUnicodeTable);
}

#[test]
fn too_many_entries_rejected() {
    assert_eq!(
        parse_err(&four_glyphs(&[0xFF, 0xFF, 0xFF, 0xFF, b'e', 0xFF])),
        PsfError::InconsistentUnicodeTable
    );
    assert_eq!(parse_err(&font_bytes(0, 1, 1, 8, &[], &[0xFF])), PsfError::InconsistentUnicodeTable);
}

#[test]
fn malformed_utf8_rejected() {
    // A lead byte announcing three bytes, followed by no continuation bytes.
    assert_eq!(parse_err(&four_glyphs(&[0xE2, 0x41, 0x42, 0xFF, 0xFF, 0xFF, 0xFF])), PsfError::InvalidUtf8Sequence);
    // Only one continuation byte, then the terminator.
    assert_eq!(parse_err(&four_glyphs(&[0xE2, 0x82, 0xFF, 0xFF, 0xFF, 0xFF])), PsfError::InvalidUtf8Sequence);
    // A lone continuation byte.
    assert_eq!(parse_err(&four_glyphs(&[0x80, 0xFF, 0xFF, 0xFF, 0xFF])), PsfError::InvalidUtf8Sequence);
    // An overlong encoding of NUL.
    assert_eq!(parse_err(&four_glyphs(&[0xC0, 0x80, 0xFF, 0xFF, 0xFF, 0xFF])), PsfError::InvalidUtf8Sequence);
    // A surrogate.
    assert_eq!(parse_err(&four_glyphs(&[0xED, 0xA0, 0x80, 0xFF, 0xFF, 0xFF, 0xFF])), PsfError::InvalidUtf8Sequence);
    // Above U+10FFFF.
    assert_eq!(parse_err(&four_glyphs(&[0xF4, 0x90, 0x80, 0x80, 0xFF, 0xFF, 0xFF, 0xFF])), PsfError::InvalidUtf8Sequence);
    // A lead byte announcing five bytes.
    assert_eq!(parse_err(&four_glyphs(&[0xF8, 0x80, 0x80, 0x80, 0x80, 0xFF, 0xFF, 0xFF, 0xFF])), PsfError::InvalidUtf8Sequence);
}

#[test]
fn truncated_header_rejected() {
    let bytes = font_bytes(0, 1, 1, 8, &[], &[]);
    assert_eq!(parse_err(&bytes[..31]), PsfError::TruncatedHeader);
    assert_eq!(parse_err(&[]), PsfError::TruncatedHeader);
}

#[test]
fn invalid_magic_rejected() {
    let mut bytes = font_bytes(1, 1, 1, 8, &[0], &[0xFF]);
    bytes[0] = 0x36;
    assert_eq!(parse_err(&bytes), PsfError::InvalidMagic);
}

#[test]
fn unsupported_version_rejected() {
    let mut bytes = font_bytes(1, 1, 1, 8, &[0], &[0xFF]);
    bytes[4] = 1;
    assert_eq!(parse_err(&bytes), PsfError::UnsupportedVersion);
}

#[test]
fn inconsistent_geometry_rejected() {
    assert_eq!(parse_err(&font_bytes(1, 2, 1, 8, &[0, 0], &[0xFF])), PsfError::InconsistentGeometry);
    assert_eq!(parse_err(&font_bytes(1, 1, 1, 9, &[0], &[0xFF])), PsfError::InconsistentGeometry);
}

#[test]
fn truncated_glyph_table_rejected() {
    assert_eq!(parse_err(&font_bytes(4, 1, 1, 8, &[1, 2, 3], &[])), PsfError::TruncatedGlyphTable);
    assert_eq!(parse_err(&font_bytes(u32::MAX, 1, 1, 8, &[0; 8], &[])), PsfError::TruncatedGlyphTable);
}

#[test]
fn truncated_unicode_table_rejected() {
    assert_eq!(parse_err(&four_glyphs(&[0xFF, 0xFF, 0xFF, b'a'])), PsfError::TruncatedUnicodeTable);
    assert_eq!(parse_err(&four_glyphs(&[0xFF, 0xFF, 0xFF, 0xFE, b'a'])), PsfError::TruncatedUnicodeTable);
    assert_eq!(parse_err(&four_glyphs(&[0xFF, 0xFF, 0xFF, 0xE2, 0x82])), PsfError::TruncatedUnicodeTable);
}

#[test]
fn decode_scalar_values() {
    let bytes = [0x41, 0xC3, 0xA9, 0xE2, 0x82, 0xAC, 0xF0, 0x9F, 0x98, 0x80];
    assert_eq!(decode_scalar(&bytes, 0, 1), Some(0x41));
    assert_eq!(decode_scalar(&bytes, 1, 2), Some(0xE9));
    assert_eq!(decode_scalar(&bytes, 3, 3), Some(0x20AC));
    assert_eq!(decode_scalar(&bytes, 6, 4), Some(0x1F600));
    assert_eq!(decode_scalar(&bytes, 2, 1), None);
    assert_eq!(decode_scalar(&bytes, 0, 0), None);
}

#[test]
fn lead_byte_lengths() {
    assert_eq!(lead_sequence_len(0x41), 1);
    assert_eq!(lead_sequence_len(0x80), 1);
    assert_eq!(lead_sequence_len(0xC3), 2);
    assert_eq!(lead_sequence_len(0xE2), 3);
    assert_eq!(lead_sequence_len(0xF0), 4);
    assert_eq!(lead_sequence_len(0xF8), 5);
    assert_eq!(lead_sequence_len(0xFC), 6);
    assert_eq!(lead_sequence_len(0xFE), 7);
    assert_eq!(lead_sequence_len(0xFF), 8);
}
