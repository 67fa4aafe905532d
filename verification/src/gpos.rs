//! The glyph positioning table.

use crate::ggg::GsubGposTable;
use vstd::prelude::*;

verus! {

/// A reference to a glyph positioning table.
#[derive(Clone, Copy)]
pub struct PositioningTable<'a> {
    pub table: GsubGposTable<'a>,
}

impl<'a> PositioningTable<'a> {
    pub open spec fn wf(&self) -> bool {
        self.table.wf()
    }
}

} // verus!
