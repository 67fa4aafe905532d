//! The horizontal metrics variations table.
//!
//! Holds an item variation store plus optional delta-set index maps from
//! glyph IDs to `(outer, inner)` delta addresses, for advance-width and
//! side-bearing deltas. The vertical metrics variations table has the same
//! layout and reuses this view.

use crate::parser::{
    be_u16_at, be_u32_at, be_value_at, spec_pow2, pow2_u32, Stream,
};
use crate::var_store::ItemVariationStore;
use crate::GlyphId;
use vstd::prelude::*;

verus! {

/// A parsed metrics variations table.
#[derive(Clone, Copy)]
pub struct Table<'a> {
    pub data: &'a [u8],
    pub variation_store: ItemVariationStore<'a>,
    pub advance_width_mapping_offset: Option<u32>,
    pub lsb_mapping_offset: Option<u32>,
}

impl<'a> Table<'a> {
    pub open spec fn wf(&self) -> bool {
        self.variation_store.wf()
    }

    /// Parses the table header, its variation store, and the offsets of
    /// the two optional index maps (stored zero when absent).
    pub fn parse(data: &'a [u8]) -> (r: Option<Self>)
        ensures
            r is Some <==> data@.len() >= 16 && be_u32_at(data@, 0) == 0x00010000 && be_u32_at(
                data@,
                4,
            ) <= data@.len() && crate::var_store::spec_store_ok(
                data@.subrange(be_u32_at(data@, 4), data@.len() as int),
            ),
            match r {
                Some(t) => {
                    &&& t.wf()
                    &&& t.data@ == data@
                    &&& data@.len() >= 16
                    &&& be_u32_at(data@, 0) == 0x00010000
                    &&& t.variation_store.data@ == data@.subrange(
                        be_u32_at(data@, 4),
                        data@.len() as int,
                    )
                    &&& t.advance_width_mapping_offset == if be_u32_at(data@, 8) != 0 {
                        Some(be_u32_at(data@, 8) as u32)
                    } else {
                        Option::<u32>::None
                    }
                    &&& t.lsb_mapping_offset == if be_u32_at(data@, 12) != 0 {
                        Some(be_u32_at(data@, 12) as u32)
                    } else {
                        Option::<u32>::None
                    }
                },
                None => true,
            },
    {
        let mut s = Stream::new(data);
        let version: u32 = match s.read_u32() {
            Some(v) => v,
            None => {
                return None;
            },
        };
        if version != 0x00010000 {
            return None;
        }
        let variation_store_offset: u32 = match s.read_u32() {
            Some(v) => v,
            None => {
                return None;
            },
        };
        if variation_store_offset as usize > data.len() {
            return None;
        }
        let var_store_s = Stream::new_at(data, variation_store_offset as usize);
        let variation_store = match ItemVariationStore::new(var_store_s) {
            Some(store) => store,
            None => {
                return None;
            },
        };
        let advance: u32 = match s.read_u32() {
            Some(v) => v,
            None => {
                return None;
            },
        };
        let lsb: u32 = match s.read_u32() {
            Some(v) => v,
            None => {
                return None;
            },
        };
        Some(
            Table {
                data,
                variation_store,
                advance_width_mapping_offset: if advance != 0 {
                    Some(advance)
                } else {
                    None
                },
                lsb_mapping_offset: if lsb != 0 {
                    Some(lsb)
                } else {
                    None
                },
            },
        )
    }
}

/// The `(outer, inner)` pair a delta-set index map assigns to glyph `gid`.
///
/// The map is a header of an entry format and a count, then packed entries
/// of one to four bytes; the format's low nibble says how many low bits of
/// an entry hold the inner index, its next two bits the entry width. A
/// glyph at or past the count uses the last entry.
pub open spec fn spec_map_entry(data: Seq<u8>, gid: int) -> Option<(int, int)> {
    let entry_format = be_u16_at(data, 0);
    let map_count = be_u16_at(data, 2);
    let entry_size = (entry_format / 16) % 4 + 1;
    let inner_bits = entry_format % 16 + 1;
    let idx = if gid >= map_count {
        map_count - 1
    } else {
        gid
    };
    if map_count == 0 || data.len() < 4 + entry_size * idx + entry_size {
        None
    } else {
        let n = be_value_at(data, 4 + entry_size * idx, entry_size);
        Some(((n / spec_pow2(inner_bits)) % 0x10000, n % spec_pow2(inner_bits)))
    }
}

/// A delta-set index map: a packed table from glyph ID to an `(outer,
/// inner)` address into an item variation store.
pub struct DeltaSetIndexMap<'a> {
    pub data: &'a [u8],
}

impl<'a> DeltaSetIndexMap<'a> {
    pub fn new(data: &'a [u8]) -> (r: Self)
        ensures
            r.data@ == data@,
    {
        DeltaSetIndexMap { data }
    }

    /// The `(outer, inner)` pair for `glyph_id`.
    pub fn map(&self, glyph_id: GlyphId) -> (r: Option<(u16, u16)>)
        ensures
            match r {
                Some((outer, inner)) => spec_map_entry(self.data@, glyph_id.0 as int) == Some(
                    ((outer as int), (inner as int)),
                ),
                None => spec_map_entry(self.data@, glyph_id.0 as int) is None,
            },
    {
        let mut idx: u16 = glyph_id.0;
        let mut s = Stream::new(self.data);
        let entry_format: u16 = match s.read_u16() {
            Some(v) => v,
            None => {
                return None;
            },
        };
        let map_count: u16 = match s.read_u16() {
            Some(v) => v,
            None => {
                return None;
            },
        };
        if map_count == 0 {
            return None;
        }
        // A glyph ID past the map reuses the last entry.
        if idx >= map_count {
            idx = map_count - 1;
        }
        let entry_size: u16 = ((entry_format / 16) % 4) + 1;
        let inner_index_bit_count: u16 = (entry_format % 16) + 1;
        proof {
            assert((entry_size as int) * (idx as int) <= 4 * 0xFFFF) by (nonlinear_arith)
                requires
                    1 <= entry_size <= 4,
                    0 <= idx <= 0xFFFF,
            ;
        }
        s.advance((entry_size as usize) * (idx as usize));
        let entry = match s.read_bytes(entry_size as usize) {
            Some(b) => b,
            None => {
                return None;
            },
        };
        let mut n: u32 = 0;
        let mut j: usize = 0;
        while j < entry.len()
            invariant
                entry@.len() == entry_size,
                1 <= entry_size <= 4,
                0 <= j <= entry@.len(),
                n as int == be_value_at(entry@, 0, j as int),
                j == 0 ==> n == 0,
                j == 1 ==> n < 0x100,
                j == 2 ==> n < 0x10000,
                j == 3 ==> n < 0x1000000,
            decreases entry@.len() - j,
        {
            n = n * 256 + (entry[j] as u32);
            j = j + 1;
        }
        let pow: u32 = pow2_u32(inner_index_bit_count);
        let outer_index: u32 = (n / pow) % 0x10000;
        let inner_index: u32 = n % pow;
        proof {
            lemma_be_value_window(
                entry@,
                self.data@,
                4 + (entry_size as int) * (idx as int),
                entry_size as int,
            );
            assert(inner_index < pow);
        }
        Some((outer_index as u16, inner_index as u16))
    }
}

/// The `(outer, inner)` delta address of a glyph's advance-width delta:
/// through the index map when the table has one, else outer 0 and the
/// glyph ID itself as inner index.
pub open spec fn spec_advance_pair(t: Table, gid: int) -> Option<(int, int)> {
    match t.advance_width_mapping_offset {
        Some(off) => spec_map_entry(t.data@.subrange(off as int, t.data@.len() as int), gid),
        None => Some((0, gid)),
    }
}

/// The advance-width delta of `glyph_id` at `coordinates`, in f2.14.
pub fn glyph_advance_offset(table: Table, glyph_id: GlyphId, coordinates: &Vec<i16>) -> (r: Option<
    i64,
>)
    requires
        table.wf(),
        coordinates@.len() <= 32,
    ensures
        r is Some <==> (match table.advance_width_mapping_offset {
            Some(off) => off <= table.data@.len(),
            None => true,
        }) && spec_advance_pair(table, glyph_id.0 as int) is Some
            && table.variation_store.spec_delta_ok(
            spec_advance_pair(table, glyph_id.0 as int).unwrap().0,
            spec_advance_pair(table, glyph_id.0 as int).unwrap().1,
        ),
        match r {
            Some(d) => {
                &&& -0x400000000000 <= d <= 0x400000000000
                &&& spec_advance_pair(table, glyph_id.0 as int) is Some
                &&& d == table.variation_store.spec_delta(
                    spec_advance_pair(table, glyph_id.0 as int).unwrap().0,
                    spec_advance_pair(table, glyph_id.0 as int).unwrap().1,
                    coordinates@,
                )
            },
            None => true,
        },
{
    let (outer_idx, inner_idx): (u16, u16) = match table.advance_width_mapping_offset {
        Some(offset) => {
            if offset as usize > table.data.len() {
                return None;
            }
            let sub: &[u8] = &table.data[offset as usize..table.data.len()];
            match DeltaSetIndexMap::new(sub).map(glyph_id) {
                Some(pair) => pair,
                None => {
                    return None;
                },
            }
        },
        None => (0, glyph_id.0),
    };
    table.variation_store.parse_delta(outer_idx, inner_idx, coordinates)
}

/// The side-bearing delta of `glyph_id` at `coordinates`, in f2.14.
///
/// Unlike the advance delta, this one is only defined when the table has a
/// side-bearing index map.
pub fn glyph_side_bearing_offset(table: Table, glyph_id: GlyphId, coordinates: &Vec<i16>) -> (r:
    Option<i64>)
    requires
        table.wf(),
        coordinates@.len() <= 32,
    ensures
        r is Some <==> table.lsb_mapping_offset is Some && table.lsb_mapping_offset.unwrap()
            <= table.data@.len() && spec_map_entry(
            table.data@.subrange(
                table.lsb_mapping_offset.unwrap() as int,
                table.data@.len() as int,
            ),
            glyph_id.0 as int,
        ) is Some && table.variation_store.spec_delta_ok(
            spec_map_entry(
                table.data@.subrange(
                    table.lsb_mapping_offset.unwrap() as int,
                    table.data@.len() as int,
                ),
                glyph_id.0 as int,
            ).unwrap().0,
            spec_map_entry(
                table.data@.subrange(
                    table.lsb_mapping_offset.unwrap() as int,
                    table.data@.len() as int,
                ),
                glyph_id.0 as int,
            ).unwrap().1,
        ),
        match r {
            Some(d) => {
                &&& -0x400000000000 <= d <= 0x400000000000
                &&& table.lsb_mapping_offset is Some
                &&& spec_map_entry(
                    table.data@.subrange(
                        table.lsb_mapping_offset.unwrap() as int,
                        table.data@.len() as int,
                    ),
                    glyph_id.0 as int,
                ) is Some
                &&& d == table.variation_store.spec_delta(
                    spec_map_entry(
                        table.data@.subrange(
                            table.lsb_mapping_offset.unwrap() as int,
                            table.data@.len() as int,
                        ),
                        glyph_id.0 as int,
                    ).unwrap().0,
                    spec_map_entry(
                        table.data@.subrange(
                            table.lsb_mapping_offset.unwrap() as int,
                            table.data@.len() as int,
                        ),
                        glyph_id.0 as int,
                    ).unwrap().1,
                    coordinates@,
                )
            },
            None => true,
        },
{
    let offset: u32 = match table.lsb_mapping_offset {
        Some(o) => o,
        None => {
            return None;
        },
    };
    if offset as usize > table.data.len() {
        return None;
    }
    let sub: &[u8] = &table.data[offset as usize..table.data.len()];
    let (outer_idx, inner_idx): (u16, u16) = match DeltaSetIndexMap::new(sub).map(glyph_id) {
        Some(pair) => pair,
        None => {
            return None;
        },
    };
    table.variation_store.parse_delta(outer_idx, inner_idx, coordinates)
}

/// A big-endian value only looks at the bytes under its window.
proof fn lemma_be_value_window(entry: Seq<u8>, data: Seq<u8>, start: int, len: int)
    requires
        0 <= len,
        0 <= start,
        start + len <= data.len(),
        len <= entry.len(),
        forall|k: int| 0 <= k < len ==> entry[k] == data[start + k],
    ensures
        be_value_at(entry, 0, len) == be_value_at(data, start, len),
    decreases len,
{
    if len > 0 {
        lemma_be_value_window(entry, data, start, len - 1);
    }
}

} // verus!
