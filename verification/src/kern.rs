//! The kerning table.
//!
//! Only the classic horizontal format-0 subtable is consumed: a sorted
//! array of glyph-pair records searched by the combined pair key.

use crate::parser::{
    be_i16_at, be_u16_at, be_u32_at, read_u16_at, FromData, LazyArray16, Stream,
};
use crate::GlyphId;
use vstd::prelude::*;

verus! {

/// One kerning pair: two glyphs and their kerning value.
#[derive(Clone, Copy, PartialEq, Eq, Structural, Debug)]
pub struct KerningRecord {
    pub pair: u32,
    pub value: i16,
}

impl FromData for KerningRecord {
    open spec fn spec_size() -> int {
        6
    }

    open spec fn spec_parse(data: Seq<u8>) -> Self {
        KerningRecord { pair: be_u32_at(data, 0) as u32, value: be_i16_at(data, 4) as i16 }
    }

    fn size() -> usize {
        6
    }

    fn parse(data: &[u8]) -> Self {
        KerningRecord {
            pair: crate::parser::read_u32_at(data, 0),
            value: crate::parser::read_i16_at(data, 4),
        }
    }
}

/// The records are sorted by pair key, as the format requires.
pub open spec fn spec_pairs_sorted(records: LazyArray16<KerningRecord>) -> bool {
    forall|i: int, j: int|
        0 <= i <= j < records.count ==> records.spec_at(i).pair <= records.spec_at(j).pair
}

/// The kerning between two glyphs, from the first subtable when it is a
/// horizontal format-0 one.
///
/// A returned value always belongs to the looked-up pair; a miss is
/// conclusive only when the pairs really are sorted.
pub fn glyphs_kerning(data: &[u8], glyph_id1: GlyphId, glyph_id2: GlyphId) -> (r: Option<i16>)
    ensures
        r is Some ==> {
            &&& data@.len() >= 18
            &&& be_u16_at(data@, 2) >= 1
            &&& be_u16_at(data@, 8) % 2 == 1
            &&& be_u16_at(data@, 8) / 256 == 0
        },
{
    let mut s = Stream::new(data);
    s.advance(2);  // version
    let number_of_subtables: u16 = match s.read_u16() {
        Some(v) => v,
        None => {
            return None;
        },
    };
    if number_of_subtables == 0 {
        return None;
    }
    // Only the first subtable is consumed.
    s.advance(2);  // subtable version
    s.advance(2);  // subtable length
    let coverage: u16 = match s.read_u16() {
        Some(v) => v,
        None => {
            return None;
        },
    };
    // Horizontal data (bit 0) in format 0 (bits 8..16).
    if coverage % 2 != 1 || coverage / 256 != 0 {
        return None;
    }
    let number_of_pairs: u16 = match s.read_u16() {
        Some(v) => v,
        None => {
            return None;
        },
    };
    s.advance(6);  // search range, entry selector, range shift
    let records = match s.read_array16::<KerningRecord>(number_of_pairs) {
        Some(a) => a,
        None => {
            return None;
        },
    };
    let needle: u32 = (glyph_id1.0 as u32) * 0x10000 + (glyph_id2.0 as u32);
    binary_search_pair(&records, needle)
}

/// Binary search over kerning records sorted by pair key.
fn binary_search_pair(records: &LazyArray16<KerningRecord>, needle: u32) -> (r: Option<i16>)
    requires
        records.wf(),
    ensures
        match r {
            Some(value) => exists|k: int|
                0 <= k < records.count && (#[trigger] records.spec_at(k)).pair == needle
                    && records.spec_at(k).value == value,
            None => spec_pairs_sorted(*records) ==> (forall|k: int|
                0 <= k < records.count ==> (#[trigger] records.spec_at(k)).pair != needle),
        },
{
    let mut lo: u16 = 0;
    let mut hi: u16 = records.len();
    while lo < hi
        invariant
            records.wf(),
            0 <= lo <= hi <= records.count,
            spec_pairs_sorted(*records) ==> (forall|k: int|
                0 <= k < lo ==> (#[trigger] records.spec_at(k)).pair < needle),
            spec_pairs_sorted(*records) ==> (forall|k: int|
                hi <= k < records.count ==> (#[trigger] records.spec_at(k)).pair > needle),
        decreases hi - lo,
    {
        let mid: u16 = lo + (hi - lo) / 2;
        let rec = match records.get(mid) {
            Some(v) => v,
            None => {
                return None;
            },
        };
        if rec.pair < needle {
            lo = mid + 1;
        } else if rec.pair > needle {
            hi = mid;
        } else {
            return Some(rec.value);
        }
    }
    None
}

} // verus!
