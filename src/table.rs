//! The Unicode mapping table: per glyph, a run of UTF-8 characters,
//! optionally followed by `0xFE` and alternate spellings, and closed by `0xFF`.

use vstd::prelude::*;

use crate::error::PsfError;
use crate::utf8::{decode_scalar, lead_sequence_len, sequence_len, utf8_scalar};

verus! {

/// Closes one glyph's entry.
pub const ENTRY_END: u8 = 0xFF;

/// Starts the alternate spellings of an entry; they are skipped.
pub const SPELLING_START: u8 = 0xFE;

/// Where the decoder stands within the table.
#[derive(Clone, Copy)]
pub enum Phase {
    /// At the start of an entry, or at the end of the table.
    EntryStart,
    /// Among the characters of an entry.
    InEntry,
    /// Among the alternate spellings of an entry.
    Skipping,
}

/// The associations (scalar value, glyph id) that the table `t` holds,
/// decoded from position `i` on, in state `phase`, with the current glyph id
/// `glyph` and the associations `acc` found before `i`; on success, also the
/// number of entries.
pub open spec fn decode_from(
    t: Seq<u8>,
    i: nat,
    phase: Phase,
    glyph: nat,
    acc: Seq<(u32, nat)>,
) -> Result<(Seq<(u32, nat)>, nat), PsfError>
    decreases t.len() - i,
{
    if i >= t.len() {
        match phase {
            Phase::EntryStart => Ok((acc, glyph)),
            _ => Err(PsfError::TruncatedUnicodeTable),
        }
    } else if t[i as int] == ENTRY_END {
        decode_from(t, i + 1, Phase::EntryStart, glyph + 1, acc)
    } else if phase is Skipping || t[i as int] == SPELLING_START {
        decode_from(t, i + 1, Phase::Skipping, glyph, acc)
    } else {
        let n = sequence_len(t[i as int]);
        if i + n > t.len() {
            Err(PsfError::TruncatedUnicodeTable)
        } else {
            match utf8_scalar(t.subrange(i as int, (i + n) as int)) {
                None => Err(PsfError::InvalidUtf8Sequence),
                Some(v) => decode_from(t, i + n, Phase::InEntry, glyph, acc.push((v, glyph))),
            }
        }
    }
}

/// The associations that the whole table `t` holds, in the order of the
/// table, and the number of its entries.
pub open spec fn decode_table(t: Seq<u8>) -> Result<(Seq<(u32, nat)>, nat), PsfError> {
    decode_from(t, 0, Phase::EntryStart, 0, Seq::empty())
}

/// Associates a Unicode scalar value and a glyph.
pub(crate) struct UnicodeMap {
    pub(crate) c: u32,
    /// The index of the glyph.
    pub(crate) i: usize,
}

pub(crate) open spec fn entries_model(v: Seq<UnicodeMap>) -> Seq<(u32, nat)> {
    v.map_values(|e: UnicodeMap| (e.c, e.i as nat))
}

/// Decodes the mapping table `t`.
pub(crate) fn decode_unicode_table(t: &[u8]) -> (r: Result<(Vec<UnicodeMap>, usize), PsfError>)
    ensures
        r matches Ok((v, n)) ==> decode_table(t@) == Ok::<_, PsfError>((entries_model(v@), n as nat)),
        r matches Ok((v, n)) ==> forall|k: int| 0 <= k < v@.len() ==> v@[k].i < n,
        r matches Err(e) ==> decode_table(t@) == Err::<(Seq<(u32, nat)>, nat), _>(e),
{
    let mut map: Vec<UnicodeMap> = Vec::new();
    let mut i: usize = 0;
    let mut phase = Phase::EntryStart;
    let mut glyph: usize = 0;
    assert(entries_model(map@) =~= Seq::empty());
    while i < t.len()
        invariant
            i <= t@.len(),
            glyph <= i,
            decode_from(t@, i as nat, phase, glyph as nat, entries_model(map@)) == decode_table(
                t@,
            ),
            forall|k: int| 0 <= k < map@.len() ==> map@[k].i <= glyph,
            phase is EntryStart ==> forall|k: int| 0 <= k < map@.len() ==> map@[k].i < glyph,
        decreases t@.len() - i,
    {
        let b = t[i];
        let skipping = match phase {
            Phase::Skipping => true,
            _ => false,
        };
        if b == ENTRY_END {
            i = i + 1;
            glyph = glyph + 1;
            phase = Phase::EntryStart;
        } else if skipping || b == SPELLING_START {
            i = i + 1;
            phase = Phase::Skipping;
        } else {
            let n = lead_sequence_len(b);
            if n > t.len() - i {
                return Err(PsfError::TruncatedUnicodeTable);
            }
            match decode_scalar(t, i, n) {
                None => {
                    return Err(PsfError::InvalidUtf8Sequence);
                },
                Some(v) => {
                    let ghost before = entries_model(map@);
                    map.push(UnicodeMap { c: v, i: glyph });
                    assert(entries_model(map@) =~= before.push((v, glyph as nat)));
                    i = i + n;
                    phase = Phase::InEntry;
                },
            }
        }
    }
    match phase {
        Phase::EntryStart => Ok((map, glyph)),
        _ => Err(PsfError::TruncatedUnicodeTable),
    }
}

} // verus!
