//! The shared frame of the glyph positioning and substitution tables.
//!
//! Both tables open with the same header: a version and offsets to their
//! script, feature and lookup lists. The library validates the frame and
//! hands out raw access; enumerating the lists is out of its scope.

use crate::parser::{be_u16_at, read_u16_at};
use vstd::prelude::*;

verus! {

/// A validated positioning or substitution table frame.
#[derive(Clone, Copy)]
pub struct GsubGposTable<'a> {
    pub data: &'a [u8],
}

impl<'a> GsubGposTable<'a> {
    pub open spec fn wf(&self) -> bool {
        &&& self.data@.len() >= 10
        &&& be_u16_at(self.data@, 0) == 1
    }

    /// Accepts a table whose major version is 1 and whose three list
    /// offsets are present.
    pub fn parse(data: &'a [u8]) -> (r: Option<Self>)
        ensures
            match r {
                Some(t) => t.wf() && t.data@ == data@,
                None => data@.len() < 10 || be_u16_at(data@, 0) != 1,
            },
    {
        if data.len() < 10 {
            return None;
        }
        let major_version: u16 = read_u16_at(data, 0);
        if major_version != 1 {
            return None;
        }
        Some(GsubGposTable { data })
    }

    /// The offset of the script list.
    pub fn script_list_offset(&self) -> (r: u16)
        requires
            self.wf(),
        ensures
            r as int == be_u16_at(self.data@, 4),
    {
        read_u16_at(self.data, 4)
    }

    /// The offset of the feature list.
    pub fn feature_list_offset(&self) -> (r: u16)
        requires
            self.wf(),
        ensures
            r as int == be_u16_at(self.data@, 6),
    {
        read_u16_at(self.data, 6)
    }

    /// The offset of the lookup list.
    pub fn lookup_list_offset(&self) -> (r: u16)
        requires
            self.wf(),
        ensures
            r as int == be_u16_at(self.data@, 8),
    {
        read_u16_at(self.data, 8)
    }
}

} // verus!
