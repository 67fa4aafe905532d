//! The vertical origin table.
//!
//! A default vertical origin plus per-glyph exceptions, sorted by glyph
//! ID and found by binary search.

use crate::parser::{be_i16_at, be_u16_at, be_u32_at, FromData, LazyArray16, Stream};
use crate::GlyphId;
use vstd::prelude::*;

verus! {

/// One vertical-origin exception record.
#[derive(Clone, Copy, PartialEq, Eq, Structural, Debug)]
pub struct VertOriginRecord {
    pub glyph_index: u16,
    pub vert_origin_y: i16,
}

impl FromData for VertOriginRecord {
    open spec fn spec_size() -> int {
        4
    }

    open spec fn spec_parse(data: Seq<u8>) -> Self {
        VertOriginRecord {
            glyph_index: be_u16_at(data, 0) as u16,
            vert_origin_y: be_i16_at(data, 2) as i16,
        }
    }

    fn size() -> usize {
        4
    }

    fn parse(data: &[u8]) -> Self {
        VertOriginRecord {
            glyph_index: crate::parser::read_u16_at(data, 0),
            vert_origin_y: crate::parser::read_i16_at(data, 2),
        }
    }
}

/// The records are sorted by glyph ID, as the format requires.
pub open spec fn spec_origins_sorted(records: LazyArray16<VertOriginRecord>) -> bool {
    forall|i: int, j: int|
        0 <= i <= j < records.count ==> records.spec_at(i).glyph_index <= records.spec_at(
            j,
        ).glyph_index
}

/// A parsed vertical origin table.
#[derive(Clone, Copy)]
pub struct Table<'a> {
    pub default_y: i16,
    pub records: LazyArray16<'a, VertOriginRecord>,
}

impl<'a> Table<'a> {
    pub open spec fn wf(&self) -> bool {
        self.records.wf()
    }

    pub fn parse(data: &'a [u8]) -> (r: Option<Self>)
        ensures
            match r {
                Some(t) => {
                    &&& t.wf()
                    &&& data@.len() >= 8
                    &&& be_u32_at(data@, 0) == 0x00010000
                    &&& t.default_y as int == be_i16_at(data@, 4)
                },
                None => true,
            },
    {
        let mut s = Stream::new(data);
        let version: u32 = match s.read_u32() {
            Some(v) => v,
            None => {
                return None;
            },
        };
        if version != 0x00010000 {
            return None;
        }
        let default_y: i16 = match s.read_i16() {
            Some(v) => v,
            None => {
                return None;
            },
        };
        let records = match s.read_count_array16::<VertOriginRecord>() {
            Some(a) => a,
            None => {
                return None;
            },
        };
        Some(Table { default_y, records })
    }

    /// The vertical origin of `glyph_id`: its exception record's value,
    /// or the table default.
    ///
    /// A returned exception always belongs to the glyph; falling back to
    /// the default is conclusive only when the records really are sorted.
    pub fn glyph_y_origin(&self, glyph_id: GlyphId) -> (r: i16)
        requires
            self.wf(),
        ensures
            r == self.default_y || exists|k: int|
                0 <= k < self.records.count && (#[trigger] self.records.spec_at(k)).glyph_index
                    == glyph_id.0 && self.records.spec_at(k).vert_origin_y == r,
    {
        let mut lo: u16 = 0;
        let mut hi: u16 = self.records.len();
        while lo < hi
            invariant
                self.wf(),
                0 <= lo <= hi <= self.records.count,
            decreases hi - lo,
        {
            let mid: u16 = lo + (hi - lo) / 2;
            let rec = match self.records.get(mid) {
                Some(v) => v,
                None => {
                    return self.default_y;
                },
            };
            if rec.glyph_index < glyph_id.0 {
                lo = mid + 1;
            } else if rec.glyph_index > glyph_id.0 {
                hi = mid;
            } else {
                return rec.vert_origin_y;
            }
        }
        self.default_y
    }
}

} // verus!
