//! Decoding of a single UTF-8 encoded Unicode scalar value.

use vstd::prelude::*;

verus! {

/// The number of bytes of a UTF-8 sequence announced by its lead byte: the
/// count of leading one bits, but at least one.
pub open spec fn sequence_len(lead: u8) -> nat {
    if lead < 0xC0 {
        1
    } else if lead < 0xE0 {
        2
    } else if lead < 0xF0 {
        3
    } else if lead < 0xF8 {
        4
    } else if lead < 0xFC {
        5
    } else if lead < 0xFE {
        6
    } else if lead < 0xFF {
        7
    } else {
        8
    }
}

/// A UTF-8 continuation byte, `10xxxxxx`.
pub open spec fn is_continuation(b: u8) -> bool {
    0x80 <= b < 0xC0
}

/// The scalar value that `s` encodes as exactly one well-formed UTF-8
/// sequence (no overlong form, no surrogate, nothing above U+10FFFF), or
/// `None` when `s` is not such a sequence.
pub open spec fn utf8_scalar(s: Seq<u8>) -> Option<u32> {
    if s.len() == 1 {
        if s[0] < 0x80 {
            Some(s[0] as u32)
        } else {
            None
        }
    } else if s.len() == 2 {
        let v = (s[0] - 0xC0) * 0x40 + (s[1] - 0x80);
        if 0xC0 <= s[0] < 0xE0 && is_continuation(s[1]) && v >= 0x80 {
            Some(v as u32)
        } else {
            None
        }
    } else if s.len() == 3 {
        let v = (s[0] - 0xE0) * 0x1000 + (s[1] - 0x80) * 0x40 + (s[2] - 0x80);
        if 0xE0 <= s[0] < 0xF0 && is_continuation(s[1]) && is_continuation(s[2]) && v >= 0x800
            && !(0xD800 <= v <= 0xDFFF) {
            Some(v as u32)
        } else {
            None
        }
    } else if s.len() == 4 {
        let v = (s[0] - 0xF0) * 0x40000 + (s[1] - 0x80) * 0x1000 + (s[2] - 0x80) * 0x40 + (s[3]
            - 0x80);
        if 0xF0 <= s[0] < 0xF8 && is_continuation(s[1]) && is_continuation(s[2])
            && is_continuation(s[3]) && 0x10000 <= v <= 0x10FFFF {
            Some(v as u32)
        } else {
            None
        }
    } else {
        None
    }
}

/// The length announced by a lead byte.
pub fn lead_sequence_len(lead: u8) -> (r: usize)
    ensures
        r == sequence_len(lead),
{
    if lead < 0xC0 {
        1
    } else if lead < 0xE0 {
        2
    } else if lead < 0xF0 {
        3
    } else if lead < 0xF8 {
        4
    } else if lead < 0xFC {
        5
    } else if lead < 0xFE {
        6
    } else if lead < 0xFF {
        7
    } else {
        8
    }
}

fn continuation(b: u8) -> (r: bool)
    ensures
        r == is_continuation(b),
{
    0x80 <= b && b < 0xC0
}

/// Decodes the `n` bytes of `t` that start at `start` as one UTF-8 sequence.
pub fn decode_scalar(t: &[u8], start: usize, n: usize) -> (r: Option<u32>)
    requires
        start + n <= t@.len(),
    ensures
        r == utf8_scalar(t@.subrange(start as int, start + n)),
{
    let ghost s = t@.subrange(start as int, start + n);
    if n == 1 {
        let b0 = t[start];
        if b0 < 0x80 {
            Some(b0 as u32)
        } else {
            None
        }
    } else if n == 2 {
        let b0 = t[start];
        let b1 = t[start + 1];
        assert(b0 == s[0] && b1 == s[1]);
        if 0xC0 <= b0 && b0 < 0xE0 && continuation(b1) {
            let v: u32 = (b0 as u32 - 0xC0) * 0x40 + (b1 as u32 - 0x80);
            if v >= 0x80 {
                Some(v)
            } else {
                None
            }
        } else {
            None
        }
    } else if n == 3 {
        let b0 = t[start];
        let b1 = t[start + 1];
        let b2 = t[start + 2];
        assert(b0 == s[0] && b1 == s[1] && b2 == s[2]);
        if 0xE0 <= b0 && b0 < 0xF0 && continuation(b1) && continuation(b2) {
            let v: u32 = (b0 as u32 - 0xE0) * 0x1000 + (b1 as u32 - 0x80) * 0x40 + (b2 as u32
                - 0x80);
            if v >= 0x800 && !(0xD800 <= v && v <= 0xDFFF) {
                Some(v)
            } else {
                None
            }
        } else {
            None
        }
    } else if n == 4 {
        let b0 = t[start];
        let b1 = t[start + 1];
        let b2 = t[start + 2];
        let b3 = t[start + 3];
        assert(b0 == s[0] && b1 == s[1] && b2 == s[2] && b3 == s[3]);
        if 0xF0 <= b0 && b0 < 0xF8 && continuation(b1) && continuation(b2) && continuation(b3) {
            let v: u32 = (b0 as u32 - 0xF0) * 0x40000 + (b1 as u32 - 0x80) * 0x1000 + (b2 as u32
                - 0x80) * 0x40 + (b3 as u32 - 0x80);
            if 0x10000 <= v && v <= 0x10FFFF {
                Some(v)
            } else {
                None
            }
        } else {
            None
        }
    } else {
        None
    }
}

} // verus!
