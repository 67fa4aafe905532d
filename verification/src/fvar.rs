//! The font variations table.
//!
//! Lists the variation axes of a variable font. Axis positions in design
//! space are 16.16 fixed-point values; normalized positions are f2.14
//! values in `[-16384, +16384]`.

use crate::parser::{
    be_i32_at, be_u16_at, be_u32_at, read_i32_at, read_u16_at, FromData, LazyArray16, Stream,
};
use crate::{NormalizedCoord, Tag};
use vstd::arithmetic::div_mod::{lemma_div_is_ordered, lemma_div_multiples_vanish};
use vstd::prelude::*;

verus! {

/// One axis record as stored: tag, min/default/max (16.16), flags, name id.
#[derive(Clone, Copy, PartialEq, Eq, Structural, Debug)]
pub struct AxisRecord {
    pub tag: u32,
    pub min_value: i32,
    pub default_value: i32,
    pub max_value: i32,
    pub flags: u16,
    pub name_id: u16,
}

impl FromData for AxisRecord {
    open spec fn spec_size() -> int {
        20
    }

    open spec fn spec_parse(data: Seq<u8>) -> Self {
        AxisRecord {
            tag: be_u32_at(data, 0) as u32,
            min_value: be_i32_at(data, 4) as i32,
            default_value: be_i32_at(data, 8) as i32,
            max_value: be_i32_at(data, 12) as i32,
            flags: be_u16_at(data, 16) as u16,
            name_id: be_u16_at(data, 18) as u16,
        }
    }

    fn size() -> usize {
        20
    }

    fn parse(data: &[u8]) -> Self {
        AxisRecord {
            tag: crate::parser::read_u32_at(data, 0),
            min_value: read_i32_at(data, 4),
            default_value: read_i32_at(data, 8),
            max_value: read_i32_at(data, 12),
            flags: read_u16_at(data, 16),
            name_id: read_u16_at(data, 18),
        }
    }
}

/// A variation axis, with its range forced to bracket its default.
///
/// `min_value`, `default_value` and `max_value` are 16.16 fixed point.
#[derive(Clone, Copy, PartialEq, Eq, Structural, Debug)]
pub struct VariationAxis {
    pub tag: Tag,
    pub min_value: i32,
    pub default_value: i32,
    pub max_value: i32,
    /// Axis name in the naming table.
    pub name_id: u16,
    pub hidden: bool,
}

/// The axis that `record` describes: min and max are forced to bracket
/// the default, and bit 3 of the flags is the hidden flag.
pub open spec fn spec_axis_of(record: AxisRecord) -> VariationAxis {
    VariationAxis {
        tag: Tag(record.tag),
        min_value: if record.min_value > record.default_value {
            record.default_value
        } else {
            record.min_value
        },
        default_value: record.default_value,
        max_value: if record.max_value < record.default_value {
            record.default_value
        } else {
            record.max_value
        },
        name_id: record.name_id,
        hidden: (record.flags as int / 8) % 2 == 1,
    }
}

/// Clamping of `v` into the axis range.
pub open spec fn spec_axis_clamp(axis: VariationAxis, v: int) -> int {
    if v < axis.min_value {
        axis.min_value as int
    } else if v > axis.max_value {
        axis.max_value as int
    } else {
        v
    }
}

/// Normalization of a design-space value `v` (16.16) into the f2.14 range:
/// the default maps to 0, the clamped ends map to -16384 and +16384, and
/// positions between are scaled linearly with the quotient rounded toward
/// zero.
pub open spec fn spec_normalize(axis: VariationAxis, v: int) -> int
    recommends
        axis.min_value <= axis.default_value <= axis.max_value,
{
    let c = spec_axis_clamp(axis, v);
    if c == axis.default_value {
        0
    } else if c < axis.default_value {
        -(((axis.default_value - c) * 16384) / (axis.default_value - axis.min_value))
    } else {
        ((c - axis.default_value) * 16384) / (axis.max_value - axis.default_value)
    }
}

impl VariationAxis {
    /// The range brackets the default.
    pub open spec fn wf(&self) -> bool {
        self.min_value <= self.default_value <= self.max_value
    }

    /// Maps a design-space value (16.16) onto the axis's normalized range.
    ///
    /// Values outside `[min_value, max_value]` saturate.
    pub fn normalized_value(&self, v: i32) -> (r: NormalizedCoord)
        requires
            self.wf(),
        ensures
            r.0 == spec_normalize(*self, v as int),
            -16384 <= r.0 <= 16384,
    {
        let c: i32 = if v < self.min_value {
            self.min_value
        } else if v > self.max_value {
            self.max_value
        } else {
            v
        };
        if c == self.default_value {
            NormalizedCoord(0)
        } else if c < self.default_value {
            // Here min_value <= c < default_value, so the denominator is
            // positive and at least the numerator's base.
            let num: u64 = ((self.default_value as i64 - c as i64) as u64) * 16384;
            let den: u64 = (self.default_value as i64 - self.min_value as i64) as u64;
            let q: u64 = num / den;
            proof {
                lemma_div_is_ordered(num as int, den as int * 16384, den as int);
                lemma_div_multiples_vanish(16384, den as int);
            }
            NormalizedCoord(-((q as i32) as i16) as i16)
        } else {
            let num: u64 = ((c as i64 - self.default_value as i64) as u64) * 16384;
            let den: u64 = (self.max_value as i64 - self.default_value as i64) as u64;
            let q: u64 = num / den;
            proof {
                lemma_div_is_ordered(num as int, den as int * 16384, den as int);
                lemma_div_multiples_vanish(16384, den as int);
            }
            NormalizedCoord((q as i32) as i16)
        }
    }
}

/// A parsed font variations table: the array of axis records.
#[derive(Clone, Copy)]
pub struct Table<'a> {
    pub axes: LazyArray16<'a, AxisRecord>,
}

impl<'a> Table<'a> {
    pub open spec fn wf(&self) -> bool {
        self.axes.wf() && self.axes.count >= 1
    }

    /// Parses the table header and locates the axis array.
    ///
    /// A table whose axis count is zero does not make the font variable
    /// and is rejected, as is an unknown version.
    pub fn parse(data: &'a [u8]) -> (r: Option<Self>)
        ensures
            match r {
                Some(t) => {
                    &&& t.wf()
                    &&& data@.len() >= 10
                    &&& be_u32_at(data@, 0) == 0x00010000
                    &&& t.axes.count as int == be_u16_at(data@, 8)
                    &&& t.axes.count >= 1
                },
                None => data@.len() < 10 || be_u32_at(data@, 0) != 0x00010000 || be_u16_at(data@, 8)
                    == 0 || be_u16_at(data@, 4) + be_u16_at(data@, 8) * 20 > data@.len(),
            },
    {
        let mut s = Stream::new(data);
        let version: u32 = match s.read_u32() {
            Some(v) => v,
            None => {
                return None;
            },
        };
        if version != 0x00010000 {
            return None;
        }
        let axes_array_offset: u16 = match s.read_u16() {
            Some(v) => v,
            None => {
                return None;
            },
        };
        s.advance(2);  // reserved
        let axis_count: u16 = match s.read_u16() {
            Some(v) => v,
            None => {
                return None;
            },
        };
        if axis_count == 0 {
            return None;
        }
        let mut s = Stream::new_at(data, axes_array_offset as usize);
        match s.read_array16::<AxisRecord>(axis_count) {
            Some(axes) => Some(Table { axes }),
            None => None,
        }
    }
}

/// An iterator-like view over the variation axes of a font.
///
/// Yields nothing when the font has no font variations table.
#[derive(Clone, Copy)]
pub struct VariationAxes<'a> {
    pub axes: Option<LazyArray16<'a, AxisRecord>>,
    pub index: u16,
}

impl<'a> VariationAxes<'a> {
    pub open spec fn wf(&self) -> bool {
        match self.axes {
            Some(a) => a.wf(),
            None => true,
        }
    }

    /// The number of axes.
    pub open spec fn spec_len(&self) -> int {
        match self.axes {
            Some(a) => a.count as int,
            None => 0,
        }
    }

    /// The axis at position `i`.
    pub open spec fn spec_axis(&self, i: int) -> VariationAxis {
        spec_axis_of(self.axes.unwrap().spec_at(i))
    }

    /// An empty sequence of axes.
    pub fn empty() -> (r: Self)
        ensures
            r.wf(),
            r.axes is None,
            r.spec_len() == 0,
            r.index == 0,
    {
        VariationAxes { axes: None, index: 0 }
    }

    pub fn len(&self) -> (r: u16)
        requires
            self.wf(),
        ensures
            r == self.spec_len(),
    {
        match self.axes {
            Some(a) => a.len(),
            None => 0,
        }
    }

    /// The next axis, with min and max forced to bracket the default.
    pub fn next(&mut self) -> (r: Option<VariationAxis>)
        requires
            old(self).wf(),
        ensures
            final(self).wf(),
            final(self).axes == old(self).axes,
            match r {
                Some(axis) => {
                    &&& old(self).index < old(self).spec_len()
                    &&& axis == old(self).spec_axis(old(self).index as int)
                    &&& axis.wf()
                    &&& final(self).index == old(self).index + 1
                },
                None => old(self).index >= old(self).spec_len() && *final(self) == *old(self),
            },
    {
        let a = match self.axes {
            Some(a) => a,
            None => {
                return None;
            },
        };
        let record = match a.get(self.index) {
            Some(rec) => rec,
            None => {
                return None;
            },
        };
        self.index = self.index + 1;
        let min_value: i32 = if record.min_value > record.default_value {
            record.default_value
        } else {
            record.min_value
        };
        let max_value: i32 = if record.max_value < record.default_value {
            record.default_value
        } else {
            record.max_value
        };
        Some(
            VariationAxis {
                tag: Tag(record.tag),
                min_value,
                default_value: record.default_value,
                max_value,
                name_id: record.name_id,
                hidden: (record.flags / 8) % 2 == 1,
            },
        )
    }
}

} // verus!
