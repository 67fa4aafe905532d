//! The color palette table.
//!
//! Only version 0 is decoded: palettes of BGRA colors addressed through
//! a per-palette first-color index.

use crate::parser::{be_u16_at, be_u32_at, FromData, LazyArray16, Stream};
use vstd::prelude::*;

verus! {

/// One palette color, stored blue-green-red-alpha.
#[derive(Clone, Copy, PartialEq, Eq, Structural, Debug)]
pub struct Color {
    pub b: u8,
    pub g: u8,
    pub r: u8,
    pub a: u8,
}

impl FromData for Color {
    open spec fn spec_size() -> int {
        4
    }

    open spec fn spec_parse(data: Seq<u8>) -> Self {
        Color { b: data[0], g: data[1], r: data[2], a: data[3] }
    }

    fn size() -> usize {
        4
    }

    fn parse(data: &[u8]) -> Self {
        Color { b: data[0], g: data[1], r: data[2], a: data[3] }
    }
}

/// A parsed color palette table.
#[derive(Clone, Copy)]
pub struct Table<'a> {
    pub color_indices: LazyArray16<'a, u16>,
    pub colors: LazyArray16<'a, Color>,
    pub colors_per_palette: u16,
}

impl<'a> Table<'a> {
    pub open spec fn wf(&self) -> bool {
        self.color_indices.wf() && self.colors.wf()
    }

    /// The color at `index` of palette `palette`, absent when either
    /// index runs out of the stored arrays.
    pub fn get_color(&self, palette: u16, index: u16) -> (r: Option<Color>)
        requires
            self.wf(),
        ensures
            r is Some <==> palette < self.color_indices.count && self.color_indices.spec_at(
                palette as int,
            ) + index < self.colors.count,
            match r {
                Some(color) => color == self.colors.spec_at(
                    self.color_indices.spec_at(palette as int) + index,
                ),
                None => true,
            },
    {
        let offset: u16 = match self.color_indices.get(palette) {
            Some(o) => o,
            None => {
                return None;
            },
        };
        let slot: u32 = offset as u32 + index as u32;
        if slot > 0xFFFF {
            return None;
        }
        self.colors.get(slot as u16)
    }
}

/// Parses a color palette table.
pub fn parse(data: &[u8]) -> (r: Option<Table>)
    ensures
        r is Some <==> 12 + 2 * be_u16_at(data@, 4) <= data@.len() && be_u32_at(data@, 8)
            <= data@.len() && be_u32_at(data@, 8) + 4 * be_u16_at(data@, 6) <= data@.len(),
        match r {
            Some(t) => t.wf(),
            None => true,
        },
{
    let mut s = Stream::new(data);
    s.advance(2);  // version
    let colors_per_palette: u16 = match s.read_u16() {
        Some(v) => v,
        None => {
            return None;
        },
    };
    let palette_count: u16 = match s.read_u16() {
        Some(v) => v,
        None => {
            return None;
        },
    };
    let color_count: u16 = match s.read_u16() {
        Some(v) => v,
        None => {
            return None;
        },
    };
    let color_offset: u32 = match s.read_u32() {
        Some(v) => v,
        None => {
            return None;
        },
    };
    let color_indices = match s.read_array16::<u16>(palette_count) {
        Some(a) => a,
        None => {
            return None;
        },
    };
    if color_offset as usize > data.len() {
        return None;
    }
    let mut colors_s = Stream::new_at(data, color_offset as usize);
    let colors = match colors_s.read_array16::<Color>(color_count) {
        Some(a) => a,
        None => {
            return None;
        },
    };
    Some(Table { color_indices, colors, colors_per_palette })
}

} // verus!
