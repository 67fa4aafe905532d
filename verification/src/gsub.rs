//! The glyph substitution table.

use crate::ggg::GsubGposTable;
use vstd::prelude::*;

verus! {

/// A reference to a glyph substitution table.
#[derive(Clone, Copy)]
pub struct SubstitutionTable<'a> {
    pub table: GsubGposTable<'a>,
}

impl<'a> SubstitutionTable<'a> {
    pub open spec fn wf(&self) -> bool {
        self.table.wf()
    }
}

} // verus!
