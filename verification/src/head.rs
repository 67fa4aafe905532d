//! The font header table.
//!
//! One of the three mandatory tables. The fields the library consumes are
//! the units-per-em value and the index-to-location format flag.

use crate::parser::{be_i16_at, be_u16_at, read_i16_at, read_u16_at};
use vstd::prelude::*;

verus! {

/// The byte length of the font header table.
pub const TABLE_SIZE: usize = 54;

/// A view over a font header table of at least the required length.
#[derive(Clone, Copy)]
pub struct Table<'a> {
    pub data: &'a [u8],
}

impl<'a> Table<'a> {
    pub open spec fn wf(&self) -> bool {
        self.data@.len() >= TABLE_SIZE
    }

    pub fn parse(data: &'a [u8]) -> (r: Option<Self>)
        ensures
            match r {
                Some(t) => data@.len() >= TABLE_SIZE && t.data@ == data@ && t.wf(),
                None => data@.len() < TABLE_SIZE,
            },
    {
        if data.len() >= TABLE_SIZE {
            Some(Table { data })
        } else {
            None
        }
    }

    /// The font's design units per em.
    pub fn units_per_em(&self) -> (r: u16)
        requires
            self.wf(),
        ensures
            r as int == be_u16_at(self.data@, 18),
    {
        read_u16_at(self.data, 18)
    }

    /// The format flag of the index-to-location table: 0 is short, 1 is long.
    pub fn index_to_loc_format(&self) -> (r: i16)
        requires
            self.wf(),
        ensures
            r as int == be_i16_at(self.data@, 50),
    {
        read_i16_at(self.data, 50)
    }
}

} // verus!
