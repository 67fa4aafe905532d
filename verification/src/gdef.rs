//! The glyph definition table.
//!
//! Carries the glyph class definition, the mark attachment class
//! definition, and the mark glyph sets. Classes come from class
//! definition tables (a dense range in format 1, class ranges in format
//! 2); mark glyph sets are coverage tables.

use crate::parser::{be_u16_at, read_u16_at, read_u32_at, FromData, LazyArray16, Stream};
use crate::GlyphId;
use vstd::prelude::*;

verus! {

/// A glyph class as the glyph class definition assigns it.
#[derive(Clone, Copy, PartialEq, Eq, Structural, Debug)]
pub enum GlyphClass {
    Base,
    Ligature,
    Mark,
    Component,
}

/// A raw class number, as the mark attachment class definition assigns
/// it; glyphs in no class fall into class 0.
#[derive(Clone, Copy, PartialEq, Eq, Structural, Debug)]
pub struct Class(pub u16);

/// One class range of a format-2 class definition.
#[derive(Clone, Copy, PartialEq, Eq, Structural, Debug)]
pub struct ClassRangeRecord {
    pub start: u16,
    pub end: u16,
    pub class: u16,
}

impl FromData for ClassRangeRecord {
    open spec fn spec_size() -> int {
        6
    }

    open spec fn spec_parse(data: Seq<u8>) -> Self {
        ClassRangeRecord {
            start: be_u16_at(data, 0) as u16,
            end: be_u16_at(data, 2) as u16,
            class: be_u16_at(data, 4) as u16,
        }
    }

    fn size() -> usize {
        6
    }

    fn parse(data: &[u8]) -> Self {
        ClassRangeRecord {
            start: read_u16_at(data, 0),
            end: read_u16_at(data, 2),
            class: read_u16_at(data, 4),
        }
    }
}

/// The class of the first range of `ranges` from `i` on that covers `g`,
/// or 0 when none does.
pub open spec fn spec_range_class(
    ranges: LazyArray16<ClassRangeRecord>,
    g: int,
    i: int,
) -> int
    decreases ranges.count - i,
{
    if i >= ranges.count {
        0
    } else if ranges.spec_at(i).start <= g <= ranges.spec_at(i).end {
        ranges.spec_at(i).class as int
    } else {
        spec_range_class(ranges, g, i + 1)
    }
}

/// A class definition table: format 1 (dense) or format 2 (ranges).
#[derive(Clone, Copy)]
pub enum ClassDef<'a> {
    Dense { start_glyph: u16, classes: LazyArray16<'a, u16> },
    Ranges(LazyArray16<'a, ClassRangeRecord>),
}

impl<'a> ClassDef<'a> {
    pub open spec fn wf(&self) -> bool {
        match *self {
            ClassDef::Dense { start_glyph, classes } => classes.wf(),
            ClassDef::Ranges(ranges) => ranges.wf(),
        }
    }

    /// The class the table assigns to `g`; unassigned glyphs are class 0.
    pub open spec fn spec_class(&self, g: int) -> int {
        match *self {
            ClassDef::Dense { start_glyph, classes } => if start_glyph <= g < start_glyph
                + classes.count {
                classes.spec_at(g - start_glyph) as int
            } else {
                0
            },
            ClassDef::Ranges(ranges) => spec_range_class(ranges, g, 0),
        }
    }

    pub fn parse(data: &'a [u8]) -> (r: Option<Self>)
        ensures
            match r {
                Some(t) => t.wf(),
                None => true,
            },
    {
        let mut s = Stream::new(data);
        let format: u16 = match s.read_u16() {
            Some(v) => v,
            None => {
                return None;
            },
        };
        if format == 1 {
            let start_glyph: u16 = match s.read_u16() {
                Some(v) => v,
                None => {
                    return None;
                },
            };
            let classes = match s.read_count_array16::<u16>() {
                Some(a) => a,
                None => {
                    return None;
                },
            };
            Some(ClassDef::Dense { start_glyph, classes })
        } else if format == 2 {
            let ranges = match s.read_count_array16::<ClassRangeRecord>() {
                Some(a) => a,
                None => {
                    return None;
                },
            };
            Some(ClassDef::Ranges(ranges))
        } else {
            None
        }
    }

    /// Looks up the class of `glyph_id`.
    pub fn class(&self, glyph_id: GlyphId) -> (r: u16)
        requires
            self.wf(),
        ensures
            r as int == self.spec_class(glyph_id.0 as int),
    {
        match *self {
            ClassDef::Dense { start_glyph, classes } => {
                if glyph_id.0 >= start_glyph {
                    match classes.get(glyph_id.0 - start_glyph) {
                        Some(c) => c,
                        None => 0,
                    }
                } else {
                    0
                }
            },
            ClassDef::Ranges(ranges) => {
                let count: u16 = ranges.len();
                let mut i: u16 = 0;
                while i < count
                    invariant
                        *self == ClassDef::Ranges(ranges),
                        ranges.wf(),
                        count == ranges.count,
                        i <= count,
                        spec_range_class(ranges, glyph_id.0 as int, 0) == spec_range_class(
                            ranges,
                            glyph_id.0 as int,
                            i as int,
                        ),
                    decreases count - i,
                {
                    let range = match ranges.get(i) {
                        Some(rec) => rec,
                        None => {
                            return 0;
                        },
                    };
                    if range.start <= glyph_id.0 && glyph_id.0 <= range.end {
                        proof {
                            assert(spec_range_class(ranges, glyph_id.0 as int, i as int)
                                == range.class);
                        }
                        return range.class;
                    }
                    i = i + 1;
                }
                0
            },
        }
    }
}

/// Whether a coverage table at `data` covers `g`: a sorted glyph list in
/// format 1, coverage ranges in format 2. The scan takes the first hit.
pub open spec fn spec_coverage_contains_from(data: Seq<u8>, g: int, format: int, i: int) -> bool
    decreases be_u16_at(data, 2) - i,
{
    if i >= be_u16_at(data, 2) {
        false
    } else if format == 1 {
        if be_u16_at(data, 4 + 2 * i) == g {
            true
        } else {
            spec_coverage_contains_from(data, g, format, i + 1)
        }
    } else {
        if be_u16_at(data, 4 + 6 * i) <= g <= be_u16_at(data, 4 + 6 * i + 2) {
            true
        } else {
            spec_coverage_contains_from(data, g, format, i + 1)
        }
    }
}

/// Tests whether the coverage table at `data` covers `glyph_id`.
fn coverage_contains(data: &[u8], glyph_id: GlyphId) -> (r: bool) {
    let mut s = Stream::new(data);
    let format: u16 = match s.read_u16() {
        Some(v) => v,
        None => {
            return false;
        },
    };
    if format != 1 && format != 2 {
        return false;
    }
    let count: u16 = match s.read_u16() {
        Some(v) => v,
        None => {
            return false;
        },
    };
    let mut i: u16 = 0;
    while i < count
        invariant
            i <= count,
        decreases count - i,
    {
        if format == 1 {
            let pos: usize = 4 + 2 * (i as usize);
            if pos + 2 > data.len() {
                return false;
            }
            if read_u16_at(data, pos) == glyph_id.0 {
                return true;
            }
        } else {
            let pos: usize = 4 + 6 * (i as usize);
            if pos + 6 > data.len() {
                return false;
            }
            let start: u16 = read_u16_at(data, pos);
            let end: u16 = read_u16_at(data, pos + 2);
            if start <= glyph_id.0 && glyph_id.0 <= end {
                return true;
            }
        }
        i = i + 1;
    }
    false
}

/// A parsed glyph definition table.
#[derive(Clone, Copy)]
pub struct Table<'a> {
    pub data: &'a [u8],
    pub glyph_classes: Option<ClassDef<'a>>,
    pub mark_attach_classes: Option<ClassDef<'a>>,
    /// The mark-glyph-sets sub-table bytes, when the version has them.
    pub mark_glyph_sets: Option<&'a [u8]>,
}

impl<'a> Table<'a> {
    pub open spec fn wf(&self) -> bool {
        &&& match self.glyph_classes {
            Some(t) => t.wf(),
            None => true,
        }
        &&& match self.mark_attach_classes {
            Some(t) => t.wf(),
            None => true,
        }
    }

    pub fn parse(data: &'a [u8]) -> (r: Option<Self>)
        ensures
            match r {
                Some(t) => t.wf(),
                None => true,
            },
    {
        if data.len() < 12 {
            return None;
        }
        let major: u16 = read_u16_at(data, 0);
        let minor: u16 = read_u16_at(data, 2);
        if major != 1 {
            return None;
        }
        let glyph_class_off: u16 = read_u16_at(data, 4);
        let mark_attach_off: u16 = read_u16_at(data, 10);
        let mut glyph_classes: Option<ClassDef<'a>> = None;
        if glyph_class_off != 0 && (glyph_class_off as usize) < data.len() {
            glyph_classes = ClassDef::parse(&data[glyph_class_off as usize..data.len()]);
        }
        let mut mark_attach_classes: Option<ClassDef<'a>> = None;
        if mark_attach_off != 0 && (mark_attach_off as usize) < data.len() {
            mark_attach_classes = ClassDef::parse(&data[mark_attach_off as usize..data.len()]);
        }
        let mut mark_glyph_sets: Option<&'a [u8]> = None;
        if minor >= 2 && data.len() >= 14 {
            let sets_off: u16 = read_u16_at(data, 12);
            if sets_off != 0 && (sets_off as usize) < data.len() {
                mark_glyph_sets = Some(&data[sets_off as usize..data.len()]);
            }
        }
        Some(Table { data, glyph_classes, mark_attach_classes, mark_glyph_sets })
    }

    /// The glyph class of `glyph_id`, absent when the class definition
    /// is missing or assigns no known class.
    pub fn glyph_class(&self, glyph_id: GlyphId) -> (r: Option<GlyphClass>)
        requires
            self.wf(),
        ensures
            match r {
                Some(c) => {
                    &&& self.glyph_classes is Some
                    &&& {
                        let cl = self.glyph_classes.unwrap().spec_class(glyph_id.0 as int);
                        c == if cl == 1 {
                            GlyphClass::Base
                        } else if cl == 2 {
                            GlyphClass::Ligature
                        } else if cl == 3 {
                            GlyphClass::Mark
                        } else {
                            GlyphClass::Component
                        }
                    }
                },
                None => self.glyph_classes is None || {
                    let c = self.glyph_classes.unwrap().spec_class(glyph_id.0 as int);
                    c == 0 || c > 4
                },
            },
    {
        let def = match &self.glyph_classes {
            Some(d) => d,
            None => {
                return None;
            },
        };
        match def.class(glyph_id) {
            1 => Some(GlyphClass::Base),
            2 => Some(GlyphClass::Ligature),
            3 => Some(GlyphClass::Mark),
            4 => Some(GlyphClass::Component),
            _ => None,
        }
    }

    /// The mark attachment class of `glyph_id`; glyphs in no class fall
    /// into class 0.
    pub fn glyph_mark_attachment_class(&self, glyph_id: GlyphId) -> (r: Class)
        requires
            self.wf(),
        ensures
            r.0 as int == match self.mark_attach_classes {
                Some(d) => d.spec_class(glyph_id.0 as int),
                None => 0,
            },
    {
        match &self.mark_attach_classes {
            Some(d) => Class(d.class(glyph_id)),
            None => Class(0),
        }
    }

    /// Checks the glyph against one mark glyph set, or against all of
    /// them when no set index is given. Returns `false` without the
    /// mark-glyph-sets sub-table.
    pub fn is_mark_glyph(&self, glyph_id: GlyphId, set_index: Option<u16>) -> (r: bool)
        requires
            self.wf(),
    {
        let sets: &[u8] = match self.mark_glyph_sets {
            Some(d) => d,
            None => {
                return false;
            },
        };
        if sets.len() < 4 {
            return false;
        }
        let format: u16 = read_u16_at(sets, 0);
        if format != 1 {
            return false;
        }
        let count: u16 = read_u16_at(sets, 2);
        match set_index {
            Some(index) => {
                if index >= count {
                    return false;
                }
                let pos: usize = 4 + 4 * (index as usize);
                if pos + 4 > sets.len() {
                    return false;
                }
                let cov_off: u32 = read_u32_at(sets, pos);
                if (cov_off as usize) < sets.len() {
                    coverage_contains(&sets[cov_off as usize..sets.len()], glyph_id)
                } else {
                    false
                }
            },
            None => {
                let mut i: u16 = 0;
                while i < count
                    invariant
                        i <= count,
                    decreases count - i,
                {
                    let pos: usize = 4 + 4 * (i as usize);
                    if pos + 4 > sets.len() {
                        return false;
                    }
                    let cov_off: u32 = read_u32_at(sets, pos);
                    if (cov_off as usize) < sets.len() {
                        if coverage_contains(&sets[cov_off as usize..sets.len()], glyph_id) {
                            return true;
                        }
                    }
                    i = i + 1;
                }
                false
            },
        }
    }
}

} // verus!
