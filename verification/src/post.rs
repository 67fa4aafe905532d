//! The PostScript table.
//!
//! The library consumes only the underline metrics.

use crate::parser::{be_i16_at, be_u32_at, read_i16_at, read_u32_at};
use crate::LineMetrics;
use vstd::prelude::*;

verus! {

/// A recognized version word of the table.
pub open spec fn spec_known_version(v: int) -> bool {
    v == 0x00010000 || v == 0x00020000 || v == 0x00025000 || v == 0x00030000 || v == 0x00040000
}

/// A view over a PostScript table.
#[derive(Clone, Copy)]
pub struct Table<'a> {
    pub data: &'a [u8],
}

impl<'a> Table<'a> {
    pub open spec fn wf(&self) -> bool {
        self.data@.len() >= 12
    }

    pub fn parse(data: &'a [u8]) -> (r: Option<Self>)
        ensures
            match r {
                Some(t) => {
                    &&& data@.len() >= 12
                    &&& spec_known_version(be_u32_at(data@, 0))
                    &&& t.data@ == data@
                    &&& t.wf()
                },
                None => data@.len() < 12 || !spec_known_version(be_u32_at(data@, 0)),
            },
    {
        if data.len() < 12 {
            return None;
        }
        let version: u32 = read_u32_at(data, 0);
        if version != 0x00010000 && version != 0x00020000 && version != 0x00025000 && version
            != 0x00030000 && version != 0x00040000 {
            return None;
        }
        Some(Table { data })
    }

    /// The underline position and thickness.
    pub fn underline_metrics(&self) -> (r: LineMetrics)
        requires
            self.wf(),
        ensures
            r.position as int == be_i16_at(self.data@, 8),
            r.thickness as int == be_i16_at(self.data@, 10),
    {
        LineMetrics {
            position: read_i16_at(self.data, 8),
            thickness: read_i16_at(self.data, 10),
        }
    }
}

} // verus!
