//! The index-to-location table.
//!
//! Maps a glyph ID to the byte range of its outline inside the glyph-data
//! table. Offsets are stored either "short" (16-bit, halved) or "long"
//! (32-bit), selected by a flag in the font header.

use crate::parser::{LazyArray16, Stream};
use crate::{GlyphId, IndexToLocationFormat};
use vstd::prelude::*;

verus! {

/// A parsed index-to-location table: one offset per glyph, plus a final
/// offset that ends the last glyph.
#[derive(Clone, Copy)]
pub enum Table<'a> {
    Short(LazyArray16<'a, u16>),
    Long(LazyArray16<'a, u32>),
}

impl<'a> Table<'a> {
    pub open spec fn wf(&self) -> bool {
        match *self {
            Table::Short(a) => a.wf(),
            Table::Long(a) => a.wf(),
        }
    }

    /// The number of stored offsets.
    pub open spec fn spec_len(&self) -> int {
        match *self {
            Table::Short(a) => a.count as int,
            Table::Long(a) => a.count as int,
        }
    }

    /// The byte offset (into the glyph-data table) that entry `i` denotes.
    /// Short entries hold half the real offset.
    pub open spec fn spec_offset(&self, i: int) -> int {
        match *self {
            Table::Short(a) => 2 * (a.spec_at(i) as int),
            Table::Long(a) => a.spec_at(i) as int,
        }
    }

    /// Parses a table of `number_of_glyphs + 1` offsets.
    pub fn parse(data: &'a [u8], number_of_glyphs: u16, format: IndexToLocationFormat) -> (r:
        Option<Self>)
        ensures
            r is Some <==> number_of_glyphs < 0xFFFF && (match format {
                IndexToLocationFormat::Short => 2int,
                IndexToLocationFormat::Long => 4int,
            }) * (number_of_glyphs + 1) <= data@.len(),
            match r {
                Some(t) => t.wf() && t.spec_len() == number_of_glyphs + 1 && number_of_glyphs
                    < 0xFFFF,
                None => true,
            },
    {
        if number_of_glyphs == 0xFFFF {
            return None;
        }
        let total: u16 = number_of_glyphs + 1;
        let mut s = Stream::new(data);
        match format {
            IndexToLocationFormat::Short => {
                match s.read_array16::<u16>(total) {
                    Some(array) => Some(Table::Short(array)),
                    None => None,
                }
            },
            IndexToLocationFormat::Long => {
                match s.read_array16::<u32>(total) {
                    Some(array) => Some(Table::Long(array)),
                    None => None,
                }
            },
        }
    }

    /// The byte range of a glyph's outline data.
    ///
    /// A range that is empty, reversed, or out of the table is reported as
    /// absent; an empty range means the glyph has no outline.
    pub fn glyph_range(&self, glyph_id: GlyphId) -> (r: Option<(u32, u32)>)
        requires
            self.wf(),
        ensures
            match r {
                Some((start, end)) => {
                    &&& glyph_id.0 + 1 < self.spec_len()
                    &&& start == self.spec_offset(glyph_id.0 as int)
                    &&& end == self.spec_offset(glyph_id.0 as int + 1)
                    &&& start < end
                },
                None => glyph_id.0 + 1 >= self.spec_len() || self.spec_offset(glyph_id.0 as int)
                    >= self.spec_offset(glyph_id.0 as int + 1),
            },
    {
        if glyph_id.0 == 0xFFFF {
            return None;
        }
        let (start, end): (u32, u32) = match *self {
            Table::Short(array) => {
                let s = match array.get(glyph_id.0) {
                    Some(v) => v,
                    None => {
                        return None;
                    },
                };
                let e = match array.get(glyph_id.0 + 1) {
                    Some(v) => v,
                    None => {
                        return None;
                    },
                };
                ((s as u32) * 2, (e as u32) * 2)
            },
            Table::Long(array) => {
                let s = match array.get(glyph_id.0) {
                    Some(v) => v,
                    None => {
                        return None;
                    },
                };
                let e = match array.get(glyph_id.0 + 1) {
                    Some(v) => v,
                    None => {
                        return None;
                    },
                };
                (s, e)
            },
        };
        if start < end {
            Some((start, end))
        } else {
            None
        }
    }
}

} // verus!
