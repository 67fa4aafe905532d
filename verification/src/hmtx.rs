//! The horizontal metrics table.
//!
//! An array of `(advance, side bearing)` records, one per glyph up to the
//! header's metrics count; glyphs past that count share the last advance
//! and have their own side bearings in a trailing array. The vertical
//! metrics table has the same layout and reuses this view.

use crate::parser::{be_i16_at, be_u16_at, FromData, LazyArray16, Stream};
use crate::GlyphId;
use vstd::prelude::*;

verus! {

/// One full metrics record: an advance and a side bearing.
#[derive(Clone, Copy, PartialEq, Eq, Structural, Debug)]
pub struct Metric {
    pub advance: u16,
    pub side_bearing: i16,
}

impl FromData for Metric {
    open spec fn spec_size() -> int {
        4
    }

    open spec fn spec_parse(data: Seq<u8>) -> Self {
        Metric { advance: be_u16_at(data, 0) as u16, side_bearing: be_i16_at(data, 2) as i16 }
    }

    fn size() -> usize {
        4
    }

    fn parse(data: &[u8]) -> Self {
        Metric {
            advance: crate::parser::read_u16_at(data, 0),
            side_bearing: crate::parser::read_i16_at(data, 2),
        }
    }
}

/// A parsed metrics table.
#[derive(Clone, Copy)]
pub struct Table<'a> {
    pub metrics: LazyArray16<'a, Metric>,
    pub bearings: LazyArray16<'a, i16>,
    pub number_of_metrics: u16,
    pub number_of_glyphs: u16,
}

impl<'a> Table<'a> {
    /// The advance of glyph `gid`: its own record's below the metrics
    /// count, the last record's above it.
    pub open spec fn spec_advance(&self, gid: int) -> int {
        if gid < self.number_of_metrics {
            self.metrics.spec_at(gid).advance as int
        } else {
            self.metrics.spec_at(self.number_of_metrics - 1).advance as int
        }
    }

    /// The side bearing of glyph `gid`: from its full record below the
    /// metrics count, from the trailing array above it.
    pub open spec fn spec_side_bearing(&self, gid: int) -> int {
        if gid < self.number_of_metrics {
            self.metrics.spec_at(gid).side_bearing as int
        } else {
            self.bearings.spec_at(gid - self.number_of_metrics) as int
        }
    }

    pub open spec fn wf(&self) -> bool {
        &&& self.metrics.wf()
        &&& self.bearings.wf()
        &&& self.metrics.count == self.number_of_metrics
        &&& self.number_of_metrics >= 1
        &&& self.bearings.count == if self.number_of_glyphs > self.number_of_metrics {
            self.number_of_glyphs - self.number_of_metrics
        } else {
            0
        }
    }

    pub fn parse(data: &'a [u8], number_of_metrics: u16, number_of_glyphs: u16) -> (r: Option<Self>)
        requires
            number_of_metrics >= 1,
        ensures
            r is Some <==> 4 * number_of_metrics + 2 * (if number_of_glyphs > number_of_metrics {
                number_of_glyphs - number_of_metrics
            } else {
                0int
            }) <= data@.len(),
            match r {
                Some(t) => t.wf() && t.number_of_metrics == number_of_metrics
                    && t.number_of_glyphs == number_of_glyphs,
                None => true,
            },
    {
        let mut s = Stream::new(data);
        let metrics = match s.read_array16::<Metric>(number_of_metrics) {
            Some(a) => a,
            None => {
                return None;
            },
        };
        let number_of_side_bearings: u16 = if number_of_glyphs > number_of_metrics {
            number_of_glyphs - number_of_metrics
        } else {
            0
        };
        let bearings = match s.read_array16::<i16>(number_of_side_bearings) {
            Some(a) => a,
            None => {
                return None;
            },
        };
        Some(Table { metrics, bearings, number_of_metrics, number_of_glyphs })
    }

    /// The advance of `glyph_id`: its own record's advance below the
    /// metrics count, the last record's advance above it.
    pub fn advance(&self, glyph_id: GlyphId) -> (r: Option<u16>)
        requires
            self.wf(),
        ensures
            match r {
                Some(v) => glyph_id.0 < self.number_of_glyphs && v as int == self.spec_advance(
                    glyph_id.0 as int,
                ),
                None => glyph_id.0 >= self.number_of_glyphs,
            },
    {
        if glyph_id.0 >= self.number_of_glyphs {
            return None;
        }
        let index: u16 = if glyph_id.0 < self.number_of_metrics {
            glyph_id.0
        } else {
            self.number_of_metrics - 1
        };
        match self.metrics.get(index) {
            Some(m) => Some(m.advance),
            None => None,
        }
    }

    /// The side bearing of `glyph_id`: from its full record below the
    /// metrics count, from the trailing array above it.
    pub fn side_bearing(&self, glyph_id: GlyphId) -> (r: Option<i16>)
        requires
            self.wf(),
        ensures
            match r {
                Some(v) => glyph_id.0 < self.number_of_glyphs && v as int == self.spec_side_bearing(
                    glyph_id.0 as int,
                ),
                None => glyph_id.0 >= self.number_of_glyphs,
            },
    {
        if glyph_id.0 >= self.number_of_glyphs {
            return None;
        }
        if glyph_id.0 < self.number_of_metrics {
            match self.metrics.get(glyph_id.0) {
                Some(m) => Some(m.side_bearing),
                None => None,
            }
        } else {
            self.bearings.get(glyph_id.0 - self.number_of_metrics)
        }
    }
}

} // verus!
