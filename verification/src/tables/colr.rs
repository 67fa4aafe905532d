//! The layered color glyph table.
//!
//! Maps a base glyph to a run of layers, each a glyph drawn in one
//! palette color.

use crate::parser::{be_u16_at, be_u32_at, FromData, LazyArray16, Stream};
use vstd::prelude::*;

verus! {

/// One base-glyph record: a glyph and its layer run.
#[derive(Clone, Copy, PartialEq, Eq, Structural, Debug)]
pub struct BaseGlyph {
    pub ref_glyph_id: u16,
    pub layer_index: u16,
    pub layer_count: u16,
}

impl FromData for BaseGlyph {
    open spec fn spec_size() -> int {
        6
    }

    open spec fn spec_parse(data: Seq<u8>) -> Self {
        BaseGlyph {
            ref_glyph_id: be_u16_at(data, 0) as u16,
            layer_index: be_u16_at(data, 2) as u16,
            layer_count: be_u16_at(data, 4) as u16,
        }
    }

    fn size() -> usize {
        6
    }

    fn parse(data: &[u8]) -> Self {
        BaseGlyph {
            ref_glyph_id: crate::parser::read_u16_at(data, 0),
            layer_index: crate::parser::read_u16_at(data, 2),
            layer_count: crate::parser::read_u16_at(data, 4),
        }
    }
}

/// One layer: a glyph and the palette slot it is drawn in.
#[derive(Clone, Copy, PartialEq, Eq, Structural, Debug)]
pub struct Layer {
    pub glyph_id: u16,
    pub palette_index: u16,
}

impl FromData for Layer {
    open spec fn spec_size() -> int {
        4
    }

    open spec fn spec_parse(data: Seq<u8>) -> Self {
        Layer {
            glyph_id: be_u16_at(data, 0) as u16,
            palette_index: be_u16_at(data, 2) as u16,
        }
    }

    fn size() -> usize {
        4
    }

    fn parse(data: &[u8]) -> Self {
        Layer {
            glyph_id: crate::parser::read_u16_at(data, 0),
            palette_index: crate::parser::read_u16_at(data, 2),
        }
    }
}

/// The first base-glyph record carrying `id`, scanning from `i`.
pub open spec fn spec_base_index(
    base_glyphs: LazyArray16<BaseGlyph>,
    id: int,
    i: int,
) -> Option<int>
    decreases base_glyphs.count - i,
{
    if i >= base_glyphs.count {
        None
    } else if base_glyphs.spec_at(i).ref_glyph_id == id {
        Some(i)
    } else {
        spec_base_index(base_glyphs, id, i + 1)
    }
}

/// A parsed layered color glyph table.
#[derive(Clone, Copy)]
pub struct Table<'a> {
    pub base_glyphs: LazyArray16<'a, BaseGlyph>,
    pub layers: LazyArray16<'a, Layer>,
}

/// An iterator-like view over the layers of one base glyph.
#[derive(Clone, Copy)]
pub struct LayerIter<'a> {
    pub layers: LazyArray16<'a, Layer>,
    pub layer_index: u16,
    pub layer_count: u16,
    pub i: u16,
}

impl<'a> LayerIter<'a> {
    pub open spec fn wf(&self) -> bool {
        self.layers.wf()
    }

    /// The next layer of the run; a run past the layer array ends early.
    pub fn next(&mut self) -> (r: Option<Layer>)
        requires
            old(self).wf(),
        ensures
            final(self).wf(),
            final(self).layers == old(self).layers,
            final(self).layer_index == old(self).layer_index,
            final(self).layer_count == old(self).layer_count,
            r is Some <==> old(self).i < old(self).layer_count && old(self).layer_index + old(
                self,
            ).i < old(self).layers.count,
            match r {
                Some(layer) => {
                    &&& layer == old(self).layers.spec_at(
                        old(self).layer_index + old(self).i,
                    )
                    &&& final(self).i == old(self).i + 1
                },
                None => *final(self) == *old(self),
            },
    {
        if self.i >= self.layer_count {
            return None;
        }
        let slot: u32 = self.layer_index as u32 + self.i as u32;
        if slot > 0xFFFF {
            return None;
        }
        let layer = match self.layers.get(slot as u16) {
            Some(l) => l,
            None => {
                return None;
            },
        };
        self.i = self.i + 1;
        Some(layer)
    }
}

impl<'a> Table<'a> {
    pub open spec fn wf(&self) -> bool {
        self.base_glyphs.wf() && self.layers.wf()
    }

    /// The layer run of base glyph `id`, from the first base-glyph record
    /// that carries it.
    pub fn get_layers(&self, id: u16) -> (r: Option<LayerIter<'a>>)
        requires
            self.wf(),
        ensures
            r is Some <==> spec_base_index(self.base_glyphs, id as int, 0) is Some,
            match r {
                Some(iter) => {
                    let k = spec_base_index(self.base_glyphs, id as int, 0).unwrap();
                    &&& iter.wf()
                    &&& iter.layers == self.layers
                    &&& iter.layer_index == self.base_glyphs.spec_at(k).layer_index
                    &&& iter.layer_count == self.base_glyphs.spec_at(k).layer_count
                    &&& iter.i == 0
                },
                None => true,
            },
    {
        let count: u16 = self.base_glyphs.len();
        let mut k: u16 = 0;
        while k < count
            invariant
                self.wf(),
                count == self.base_glyphs.count,
                k <= count,
                spec_base_index(self.base_glyphs, id as int, 0) == spec_base_index(
                    self.base_glyphs,
                    id as int,
                    k as int,
                ),
            decreases count - k,
        {
            let glyph = match self.base_glyphs.get(k) {
                Some(g) => g,
                None => {
                    return None;
                },
            };
            if glyph.ref_glyph_id == id {
                return Some(
                    LayerIter {
                        layers: self.layers,
                        layer_index: glyph.layer_index,
                        layer_count: glyph.layer_count,
                        i: 0,
                    },
                );
            }
            k = k + 1;
        }
        None
    }
}

/// Parses a layered color glyph table.
pub fn parse(data: &[u8]) -> (r: Option<Table>)
    ensures
        r is Some <==> data@.len() >= 14 && be_u32_at(data@, 4) <= data@.len() && be_u32_at(
            data@,
            8,
        ) <= data@.len() && be_u32_at(data@, 4) + 6 * be_u16_at(data@, 2) <= data@.len()
            && be_u32_at(data@, 8) + 4 * be_u16_at(data@, 12) <= data@.len(),
        match r {
            Some(t) => t.wf(),
            None => true,
        },
{
    let mut s = Stream::new(data);
    s.advance(2);  // version
    let base_glyphs_count: u16 = match s.read_u16() {
        Some(v) => v,
        None => {
            return None;
        },
    };
    let base_glyphs_offset: u32 = match s.read_u32() {
        Some(v) => v,
        None => {
            return None;
        },
    };
    let layers_offset: u32 = match s.read_u32() {
        Some(v) => v,
        None => {
            return None;
        },
    };
    let layers_count: u16 = match s.read_u16() {
        Some(v) => v,
        None => {
            return None;
        },
    };
    if base_glyphs_offset as usize > data.len() || layers_offset as usize > data.len() {
        return None;
    }
    let mut base_s = Stream::new_at(data, base_glyphs_offset as usize);
    let base_glyphs = match base_s.read_array16::<BaseGlyph>(base_glyphs_count) {
        Some(a) => a,
        None => {
            return None;
        },
    };
    let mut layers_s = Stream::new_at(data, layers_offset as usize);
    let layers = match layers_s.read_array16::<Layer>(layers_count) {
        Some(a) => a,
        None => {
            return None;
        },
    };
    Some(Table { base_glyphs, layers })
}

} // verus!
