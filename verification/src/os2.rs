//! The Windows metrics table.
//!
//! Style flags, weight and width classes, and the typographic metrics
//! that override the horizontal header when the use-typo-metrics flag is
//! set.

use crate::parser::{be_i16_at, be_u16_at, read_i16_at, read_u16_at};
use crate::LineMetrics;
use vstd::prelude::*;

verus! {

/// The byte length of the oldest table version.
pub const TABLE_SIZE: usize = 78;

/// A font weight class.
#[derive(Clone, Copy, PartialEq, Eq, Structural, Debug)]
pub enum Weight {
    Thin,
    ExtraLight,
    Light,
    Normal,
    Medium,
    SemiBold,
    Bold,
    ExtraBold,
    Black,
    Other(u16),
}

/// The weight class that the stored number denotes.
pub open spec fn spec_weight_of(n: int) -> Weight {
    if n == 100 {
        Weight::Thin
    } else if n == 200 {
        Weight::ExtraLight
    } else if n == 300 {
        Weight::Light
    } else if n == 400 {
        Weight::Normal
    } else if n == 500 {
        Weight::Medium
    } else if n == 600 {
        Weight::SemiBold
    } else if n == 700 {
        Weight::Bold
    } else if n == 800 {
        Weight::ExtraBold
    } else if n == 900 {
        Weight::Black
    } else {
        Weight::Other(n as u16)
    }
}

/// A font width class.
#[derive(Clone, Copy, PartialEq, Eq, Structural, Debug)]
pub enum Width {
    UltraCondensed,
    ExtraCondensed,
    Condensed,
    SemiCondensed,
    Normal,
    SemiExpanded,
    Expanded,
    ExtraExpanded,
    UltraExpanded,
}

/// The width class that the stored number denotes; an invalid number is
/// the normal width.
pub open spec fn spec_width_of(n: int) -> Width {
    if n == 1 {
        Width::UltraCondensed
    } else if n == 2 {
        Width::ExtraCondensed
    } else if n == 3 {
        Width::Condensed
    } else if n == 4 {
        Width::SemiCondensed
    } else if n == 6 {
        Width::SemiExpanded
    } else if n == 7 {
        Width::Expanded
    } else if n == 8 {
        Width::ExtraExpanded
    } else if n == 9 {
        Width::UltraExpanded
    } else {
        Width::Normal
    }
}

/// Subscript or superscript metrics.
#[derive(Clone, Copy, PartialEq, Eq, Structural, Debug)]
pub struct ScriptMetrics {
    pub x_size: i16,
    pub y_size: i16,
    pub x_offset: i16,
    pub y_offset: i16,
}

/// A view over a Windows metrics table.
#[derive(Clone, Copy)]
pub struct Table<'a> {
    pub data: &'a [u8],
}

impl<'a> Table<'a> {
    pub open spec fn wf(&self) -> bool {
        self.data@.len() >= TABLE_SIZE
    }

    /// The stored version word.
    pub open spec fn spec_version(&self) -> int {
        be_u16_at(self.data@, 0)
    }

    /// The stored selection flags.
    pub open spec fn spec_selection(&self) -> int {
        be_u16_at(self.data@, 62)
    }

    pub fn parse(data: &'a [u8]) -> (r: Option<Self>)
        ensures
            match r {
                Some(t) => data@.len() >= TABLE_SIZE && t.data@ == data@ && t.wf(),
                None => data@.len() < TABLE_SIZE,
            },
    {
        if data.len() >= TABLE_SIZE {
            Some(Table { data })
        } else {
            None
        }
    }

    pub fn version(&self) -> (r: u16)
        requires
            self.wf(),
        ensures
            r as int == self.spec_version(),
    {
        read_u16_at(self.data, 0)
    }

    /// Bit 6 of the selection flags.
    pub fn is_regular(&self) -> (r: bool)
        requires
            self.wf(),
        ensures
            r == (self.spec_selection() / 64 % 2 == 1),
    {
        read_u16_at(self.data, 62) / 64 % 2 == 1
    }

    /// Bit 0 of the selection flags.
    pub fn is_italic(&self) -> (r: bool)
        requires
            self.wf(),
        ensures
            r == (self.spec_selection() % 2 == 1),
    {
        read_u16_at(self.data, 62) % 2 == 1
    }

    /// Bit 5 of the selection flags.
    pub fn is_bold(&self) -> (r: bool)
        requires
            self.wf(),
        ensures
            r == (self.spec_selection() / 32 % 2 == 1),
    {
        read_u16_at(self.data, 62) / 32 % 2 == 1
    }

    /// Bit 9 of the selection flags, defined from version 4 on.
    pub fn is_oblique(&self) -> (r: bool)
        requires
            self.wf(),
        ensures
            r == (self.spec_version() >= 4 && self.spec_selection() / 512 % 2 == 1),
    {
        self.version() >= 4 && read_u16_at(self.data, 62) / 512 % 2 == 1
    }

    /// Bit 7 of the selection flags.
    pub fn is_use_typo_metrics(&self) -> (r: bool)
        requires
            self.wf(),
        ensures
            r == (self.spec_selection() / 128 % 2 == 1),
    {
        read_u16_at(self.data, 62) / 128 % 2 == 1
    }

    pub fn weight(&self) -> (r: Weight)
        requires
            self.wf(),
        ensures
            r == spec_weight_of(be_u16_at(self.data@, 4)),
    {
        let n: u16 = read_u16_at(self.data, 4);
        if n == 100 {
            Weight::Thin
        } else if n == 200 {
            Weight::ExtraLight
        } else if n == 300 {
            Weight::Light
        } else if n == 400 {
            Weight::Normal
        } else if n == 500 {
            Weight::Medium
        } else if n == 600 {
            Weight::SemiBold
        } else if n == 700 {
            Weight::Bold
        } else if n == 800 {
            Weight::ExtraBold
        } else if n == 900 {
            Weight::Black
        } else {
            Weight::Other(n)
        }
    }

    pub fn width(&self) -> (r: Width)
        requires
            self.wf(),
        ensures
            r == spec_width_of(be_u16_at(self.data@, 6)),
    {
        let n: u16 = read_u16_at(self.data, 6);
        if n == 1 {
            Width::UltraCondensed
        } else if n == 2 {
            Width::ExtraCondensed
        } else if n == 3 {
            Width::Condensed
        } else if n == 4 {
            Width::SemiCondensed
        } else if n == 6 {
            Width::SemiExpanded
        } else if n == 7 {
            Width::Expanded
        } else if n == 8 {
            Width::ExtraExpanded
        } else if n == 9 {
            Width::UltraExpanded
        } else {
            Width::Normal
        }
    }

    pub fn s_typo_ascender(&self) -> (r: i16)
        requires
            self.wf(),
        ensures
            r as int == be_i16_at(self.data@, 68),
    {
        read_i16_at(self.data, 68)
    }

    pub fn s_typo_descender(&self) -> (r: i16)
        requires
            self.wf(),
        ensures
            r as int == be_i16_at(self.data@, 70),
    {
        read_i16_at(self.data, 70)
    }

    pub fn s_typo_line_gap(&self) -> (r: i16)
        requires
            self.wf(),
        ensures
            r as int == be_i16_at(self.data@, 72),
    {
        read_i16_at(self.data, 72)
    }

    /// The x-height, stored from version 2 on.
    pub fn x_height(&self) -> (r: Option<i16>)
        requires
            self.wf(),
        ensures
            match r {
                Some(v) => self.spec_version() >= 2 && self.data@.len() >= 88 && v as int
                    == be_i16_at(self.data@, 86),
                None => self.spec_version() < 2 || self.data@.len() < 88,
            },
    {
        if self.version() >= 2 && self.data.len() >= 88 {
            Some(read_i16_at(self.data, 86))
        } else {
            None
        }
    }

    pub fn strikeout_metrics(&self) -> (r: LineMetrics)
        requires
            self.wf(),
        ensures
            r.thickness as int == be_i16_at(self.data@, 26),
            r.position as int == be_i16_at(self.data@, 28),
    {
        LineMetrics {
            thickness: read_i16_at(self.data, 26),
            position: read_i16_at(self.data, 28),
        }
    }

    pub fn subscript_metrics(&self) -> (r: ScriptMetrics)
        requires
            self.wf(),
        ensures
            r.x_size as int == be_i16_at(self.data@, 10),
            r.y_size as int == be_i16_at(self.data@, 12),
            r.x_offset as int == be_i16_at(self.data@, 14),
            r.y_offset as int == be_i16_at(self.data@, 16),
    {
        ScriptMetrics {
            x_size: read_i16_at(self.data, 10),
            y_size: read_i16_at(self.data, 12),
            x_offset: read_i16_at(self.data, 14),
            y_offset: read_i16_at(self.data, 16),
        }
    }

    pub fn superscript_metrics(&self) -> (r: ScriptMetrics)
        requires
            self.wf(),
        ensures
            r.x_size as int == be_i16_at(self.data@, 18),
            r.y_size as int == be_i16_at(self.data@, 20),
            r.x_offset as int == be_i16_at(self.data@, 22),
            r.y_offset as int == be_i16_at(self.data@, 24),
    {
        ScriptMetrics {
            x_size: read_i16_at(self.data, 18),
            y_size: read_i16_at(self.data, 20),
            x_offset: read_i16_at(self.data, 22),
            y_offset: read_i16_at(self.data, 24),
        }
    }
}

} // verus!
