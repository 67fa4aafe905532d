//! The horizontal header table.
//!
//! One of the three mandatory tables. The vertical header table shares the
//! same layout for every field the library reads, so this view serves both.

use crate::parser::{be_i16_at, be_u16_at, read_i16_at, read_u16_at};
use vstd::prelude::*;

verus! {

/// The byte length of the horizontal (and vertical) header table.
pub const TABLE_SIZE: usize = 36;

/// A view over a horizontal or vertical header table.
#[derive(Clone, Copy)]
pub struct Table<'a> {
    pub data: &'a [u8],
}

impl<'a> Table<'a> {
    pub open spec fn wf(&self) -> bool {
        self.data@.len() >= TABLE_SIZE
    }

    pub fn parse(data: &'a [u8]) -> (r: Option<Self>)
        ensures
            match r {
                Some(t) => data@.len() >= TABLE_SIZE && t.data@ == data@ && t.wf(),
                None => data@.len() < TABLE_SIZE,
            },
    {
        if data.len() >= TABLE_SIZE {
            Some(Table { data })
        } else {
            None
        }
    }

    pub fn ascender(&self) -> (r: i16)
        requires
            self.wf(),
        ensures
            r as int == be_i16_at(self.data@, 4),
    {
        read_i16_at(self.data, 4)
    }

    pub fn descender(&self) -> (r: i16)
        requires
            self.wf(),
        ensures
            r as int == be_i16_at(self.data@, 6),
    {
        read_i16_at(self.data, 6)
    }

    pub fn line_gap(&self) -> (r: i16)
        requires
            self.wf(),
        ensures
            r as int == be_i16_at(self.data@, 8),
    {
        read_i16_at(self.data, 8)
    }

    /// The number of entries in the full metrics array of the matching
    /// metrics table, or `None` when that count is zero.
    pub fn number_of_metrics(&self) -> (r: Option<u16>)
        requires
            self.wf(),
        ensures
            match r {
                Some(n) => n as int == be_u16_at(self.data@, 34) && n > 0,
                None => be_u16_at(self.data@, 34) == 0,
            },
    {
        let n: u16 = read_u16_at(self.data, 34);
        if n > 0 {
            Some(n)
        } else {
            None
        }
    }
}

} // verus!
