//! The character-to-glyph-index mapping table.
//!
//! A list of encoding records, each pointing at a subtable in one of
//! several formats. Lookups search the subtables on the fly; nothing is
//! decoded up front. The byte-encoding (0), segment-mapping (4), trimmed
//! (6) and segmented-coverage (12) formats are supported.

use crate::parser::{
    be_u16_at, be_u32_at, read_u16_at, read_u32_at, FromData, LazyArray16, Stream,
};
use crate::GlyphId;
use vstd::prelude::*;

verus! {

/// One encoding record: a platform, an encoding, and a subtable offset.
#[derive(Clone, Copy, PartialEq, Eq, Structural, Debug)]
pub struct EncodingRecord {
    pub platform_id: u16,
    pub encoding_id: u16,
    pub offset: u32,
}

impl FromData for EncodingRecord {
    open spec fn spec_size() -> int {
        8
    }

    open spec fn spec_parse(data: Seq<u8>) -> Self {
        EncodingRecord {
            platform_id: be_u16_at(data, 0) as u16,
            encoding_id: be_u16_at(data, 2) as u16,
            offset: be_u32_at(data, 4) as u32,
        }
    }

    fn size() -> usize {
        8
    }

    fn parse(data: &[u8]) -> Self {
        EncodingRecord {
            platform_id: read_u16_at(data, 0),
            encoding_id: read_u16_at(data, 2),
            offset: read_u32_at(data, 4),
        }
    }
}

/// A record that maps Unicode code points: the Unicode platform, or the
/// Windows platform with a Unicode encoding.
pub open spec fn spec_is_unicode_record(r: EncodingRecord) -> bool {
    r.platform_id == 0 || (r.platform_id == 3 && (r.encoding_id == 1 || r.encoding_id == 10))
}


/// The glyph the byte-encoding format assigns: a direct byte read for
/// code points below 256.
pub open spec fn spec_lookup_format0(data: Seq<u8>, c: int) -> Option<int> {
    if c > 255 || 6 + c >= data.len() {
        None
    } else {
        Some(data[6 + c] as int)
    }
}

/// The first segment of the segment-mapping format, from `i` on, whose
/// end code reaches `code`; the segment count when there is none.
pub open spec fn spec_f4_segment(data: Seq<u8>, seg_count: int, code: int, i: int) -> int
    decreases seg_count - i,
{
    if i >= seg_count {
        seg_count
    } else if be_u16_at(data, 14 + 2 * i) >= code {
        i
    } else {
        spec_f4_segment(data, seg_count, code, i + 1)
    }
}

/// The glyph the segment-mapping format assigns: the bracketing segment's
/// delta applied to the code point directly, or through the glyph array
/// addressed relative to the segment's range-offset word.
pub open spec fn spec_lookup_format4(data: Seq<u8>, c: int) -> Option<int> {
    if c > 0xFFFF || data.len() < 14 {
        None
    } else {
        let seg_count_x2 = be_u16_at(data, 6);
        if seg_count_x2 < 2 || seg_count_x2 % 2 == 1 {
            None
        } else {
            let sc = seg_count_x2 / 2;
            if 16 + 6 * sc + 2 * sc > data.len() {
                None
            } else {
                let i = spec_f4_segment(data, sc, c, 0);
                if i == sc {
                    None
                } else if be_u16_at(data, 16 + 2 * sc + 2 * i) > c {
                    None
                } else {
                    let range_offset = be_u16_at(data, 16 + 6 * sc + 2 * i);
                    let delta = be_u16_at(data, 16 + 4 * sc + 2 * i);
                    if range_offset == 0 {
                        Some((c + delta) % 0x10000)
                    } else {
                        let glyph_pos = 16 + 6 * sc + 2 * i + range_offset + 2 * (c - be_u16_at(
                            data,
                            16 + 2 * sc + 2 * i,
                        ));
                        if glyph_pos + 2 > data.len() {
                            None
                        } else if be_u16_at(data, glyph_pos) == 0 {
                            None
                        } else {
                            Some((be_u16_at(data, glyph_pos) + delta) % 0x10000)
                        }
                    }
                }
            }
        }
    }
}

/// The glyph the trimmed format assigns: a dense run from a first code.
pub open spec fn spec_lookup_format6(data: Seq<u8>, c: int) -> Option<int> {
    if data.len() < 10 {
        None
    } else {
        let first = be_u16_at(data, 6);
        let count = be_u16_at(data, 8);
        if c < first || c >= first + count {
            None
        } else if 10 + 2 * (c - first) + 2 > data.len() {
            None
        } else {
            Some(be_u16_at(data, 10 + 2 * (c - first)))
        }
    }
}

/// The glyph of the first in-bounds group of the segmented-coverage
/// format that contains `c`, scanning from group `i`.
pub open spec fn spec_f12_scan(data: Seq<u8>, num_groups: int, c: int, i: int) -> Option<int>
    decreases num_groups - i,
{
    if i >= num_groups {
        None
    } else if 16 + 12 * i + 12 > data.len() {
        None
    } else if be_u32_at(data, 16 + 12 * i) <= c <= be_u32_at(data, 16 + 12 * i + 4) {
        Some(be_u32_at(data, 16 + 12 * i + 8) + c - be_u32_at(data, 16 + 12 * i))
    } else {
        spec_f12_scan(data, num_groups, c, i + 1)
    }
}

/// The glyph the segmented-coverage format assigns, absent when it does
/// not fit sixteen bits.
pub open spec fn spec_lookup_format12(data: Seq<u8>, c: int) -> Option<int> {
    if data.len() < 16 {
        None
    } else {
        match spec_f12_scan(data, be_u32_at(data, 12), c, 0) {
            Some(g) => if g > 0xFFFF {
                None
            } else {
                Some(g)
            },
            None => None,
        }
    }
}

/// The glyph one subtable assigns to `c`, by its format word; unknown
/// formats assign nothing.
pub open spec fn spec_lookup_subtable(data: Seq<u8>, c: int) -> Option<int> {
    if data.len() < 2 {
        None
    } else if be_u16_at(data, 0) == 0 {
        spec_lookup_format0(data, c)
    } else if be_u16_at(data, 0) == 4 {
        spec_lookup_format4(data, c)
    } else if be_u16_at(data, 0) == 6 {
        spec_lookup_format6(data, c)
    } else if be_u16_at(data, 0) == 12 {
        spec_lookup_format12(data, c)
    } else {
        None
    }
}

/// The glyph of the first Unicode encoding record, from `i` on, whose
/// subtable assigns `c` a glyph other than the missing-glyph slot.
pub open spec fn spec_glyph_index_scan(
    data: Seq<u8>,
    records: LazyArray16<EncodingRecord>,
    c: int,
    i: int,
) -> Option<int>
    decreases records.count - i,
{
    if i >= records.count {
        None
    } else {
        let r = records.spec_at(i);
        let hit = if spec_is_unicode_record(r) && r.offset < data.len() {
            spec_lookup_subtable(data.subrange(r.offset as int, data.len() as int), c)
        } else {
            None
        };
        match hit {
            Some(id) => if id != 0 {
                Some(id)
            } else {
                spec_glyph_index_scan(data, records, c, i + 1)
            },
            None => spec_glyph_index_scan(data, records, c, i + 1),
        }
    }
}

/// A parsed character-map table: its encoding records.
#[derive(Clone, Copy)]
pub struct Table<'a> {
    pub data: &'a [u8],
    pub records: LazyArray16<'a, EncodingRecord>,
}

impl<'a> Table<'a> {
    pub open spec fn wf(&self) -> bool {
        self.records.wf()
    }

    pub fn parse(data: &'a [u8]) -> (r: Option<Self>)
        ensures
            r is Some <==> 4 + 8 * be_u16_at(data@, 2) <= data@.len(),
            match r {
                Some(t) => {
                    &&& t.wf()
                    &&& t.data@ == data@
                    &&& t.records.count as int == be_u16_at(data@, 2)
                },
                None => true,
            },
    {
        let mut s = Stream::new(data);
        s.advance(2);  // version
        let records = match s.read_count_array16::<EncodingRecord>() {
            Some(a) => a,
            None => {
                return None;
            },
        };
        Some(Table { data, records })
    }

    /// The glyph for code point `c`, from the first Unicode subtable that
    /// resolves it to a glyph other than the missing-glyph slot.
    pub fn glyph_index(&self, c: u32) -> (r: Option<GlyphId>)
        requires
            self.wf(),
        ensures
            match r {
                Some(id) => id.0 != 0 && spec_glyph_index_scan(self.data@, self.records, c as int, 0)
                    == Some(id.0 as int),
                None => spec_glyph_index_scan(self.data@, self.records, c as int, 0) is None,
            },
    {
        let count: u16 = self.records.len();
        let mut i: u16 = 0;
        while i < count
            invariant
                self.wf(),
                count == self.records.count,
                i <= count,
                spec_glyph_index_scan(self.data@, self.records, c as int, 0)
                    == spec_glyph_index_scan(self.data@, self.records, c as int, i as int),
            decreases count - i,
        {
            let record = match self.records.get(i) {
                Some(rec) => rec,
                None => {
                    return None;
                },
            };
            let unicode: bool = record.platform_id == 0 || (record.platform_id == 3 && (
            record.encoding_id == 1 || record.encoding_id == 10));
            if unicode && (record.offset as usize) < self.data.len() {
                let subtable: &[u8] = &self.data[record.offset as usize..self.data.len()];
                match lookup_subtable(subtable, c) {
                    Some(id) => {
                        if id != 0 {
                            return Some(GlyphId(id));
                        }
                    },
                    None => {},
                }
            }
            i = i + 1;
        }
        None
    }
}


/// The outcome of a variation-selector lookup: the default glyph (fall
/// back to the plain character map), a specific glyph, or nothing.
enum UvsLookup {
    Default,
    Found(u16),
    Missing,
}

/// Reads the big-endian 24-bit integer at `offset`.
fn read_u24_at(data: &[u8], offset: usize) -> (r: u32)
    requires
        offset + 3 <= data@.len(),
{
    (data[offset] as u32) * 0x10000 + (data[offset + 1] as u32) * 0x100 + (data[offset
        + 2] as u32)
}

/// The Unicode variation sequences format: variation-selector records,
/// each with an optional default-set table (ranges of code points that
/// keep their default glyph) and an optional non-default table (explicit
/// code-point-to-glyph mappings).
fn lookup_format14(data: &[u8], c: u32, variation: u32) -> (r: UvsLookup) {
    if data.len() < 10 {
        return UvsLookup::Missing;
    }
    let num_records: u32 = read_u32_at(data, 6);
    let mut i: u32 = 0;
    while i < num_records
        invariant
            data@.len() >= 10,
            i <= num_records,
        decreases num_records - i,
    {
        let pos: u64 = 10 + 11 * (i as u64);
        if pos + 11 > data.len() as u64 {
            return UvsLookup::Missing;
        }
        let selector: u32 = read_u24_at(data, pos as usize);
        if selector == variation {
            let default_offset: u32 = read_u32_at(data, pos as usize + 3);
            let non_default_offset: u32 = read_u32_at(data, pos as usize + 7);
            if default_offset != 0 && (default_offset as usize) < data.len() {
                if default_uvs_contains(&data[default_offset as usize..data.len()], c) {
                    return UvsLookup::Default;
                }
            }
            if non_default_offset != 0 && (non_default_offset as usize) < data.len() {
                match non_default_uvs_lookup(&data[non_default_offset as usize..data.len()], c) {
                    Some(g) => {
                        return UvsLookup::Found(g);
                    },
                    None => {},
                }
            }
            return UvsLookup::Missing;
        }
        i = i + 1;
    }
    UvsLookup::Missing
}

/// Whether a default-set table covers `c`: ranges of a 24-bit start and
/// an additional count.
fn default_uvs_contains(data: &[u8], c: u32) -> (r: bool) {
    if data.len() < 4 {
        return false;
    }
    let n: u32 = read_u32_at(data, 0);
    let mut i: u32 = 0;
    while i < n
        invariant
            data@.len() >= 4,
            i <= n,
        decreases n - i,
    {
        let pos: u64 = 4 + 4 * (i as u64);
        if pos + 4 > data.len() as u64 {
            return false;
        }
        let start: u32 = read_u24_at(data, pos as usize);
        let additional: u8 = data[pos as usize + 3];
        if start <= c && (c as u64) <= (start as u64) + (additional as u64) {
            return true;
        }
        i = i + 1;
    }
    false
}

/// The glyph a non-default table maps `c` to: mappings of a 24-bit code
/// point and a glyph.
fn non_default_uvs_lookup(data: &[u8], c: u32) -> (r: Option<u16>) {
    if data.len() < 4 {
        return None;
    }
    let n: u32 = read_u32_at(data, 0);
    let mut i: u32 = 0;
    while i < n
        invariant
            data@.len() >= 4,
            i <= n,
        decreases n - i,
    {
        let pos: u64 = 4 + 5 * (i as u64);
        if pos + 5 > data.len() as u64 {
            return None;
        }
        let unicode_value: u32 = read_u24_at(data, pos as usize);
        if unicode_value == c {
            return Some(read_u16_at(data, pos as usize + 3));
        }
        i = i + 1;
    }
    None
}

impl<'a> Table<'a> {
    /// The glyph for the variation sequence `(c, variation)`, from the
    /// first variation-sequences subtable that knows the selector: the
    /// plain lookup when the sequence keeps its default glyph, the
    /// mapped glyph otherwise.
    pub fn glyph_variation_index(&self, c: u32, variation: u32) -> (r: Option<GlyphId>)
        requires
            self.wf(),
        ensures
            match r {
                Some(id) => id.0 != 0,
                None => true,
            },
    {
        let count: u16 = self.records.len();
        let mut i: u16 = 0;
        while i < count
            invariant
                self.wf(),
                count == self.records.count,
                i <= count,
            decreases count - i,
        {
            let record = match self.records.get(i) {
                Some(rec) => rec,
                None => {
                    return None;
                },
            };
            if (record.offset as usize) < self.data.len() {
                let subtable: &[u8] = &self.data[record.offset as usize..self.data.len()];
                if subtable.len() >= 2 && read_u16_at(subtable, 0) == 14 {
                    match lookup_format14(subtable, c, variation) {
                        UvsLookup::Default => {
                            return self.glyph_index(c);
                        },
                        UvsLookup::Found(g) => {
                            if g != 0 {
                                return Some(GlyphId(g));
                            }
                            return None;
                        },
                        UvsLookup::Missing => {
                            return None;
                        },
                    }
                }
            }
            i = i + 1;
        }
        None
    }
}

/// Resolves `c` in one subtable, dispatching on its format word.
fn lookup_subtable(data: &[u8], c: u32) -> (r: Option<u16>)
    ensures
        match r {
            Some(id) => spec_lookup_subtable(data@, c as int) == Some(id as int),
            None => spec_lookup_subtable(data@, c as int) is None,
        },
{
    if data.len() < 2 {
        return None;
    }
    let format: u16 = read_u16_at(data, 0);
    if format == 0 {
        lookup_format0(data, c)
    } else if format == 4 {
        lookup_format4(data, c)
    } else if format == 6 {
        lookup_format6(data, c)
    } else if format == 12 {
        lookup_format12(data, c)
    } else {
        None
    }
}

/// The byte-encoding format: 256 one-byte glyph indices.
fn lookup_format0(data: &[u8], c: u32) -> (r: Option<u16>)
    ensures
        match r {
            Some(id) => spec_lookup_format0(data@, c as int) == Some(id as int),
            None => spec_lookup_format0(data@, c as int) is None,
        },
{
    if c > 255 {
        return None;
    }
    let pos: usize = 6 + (c as usize);
    if pos < data.len() {
        Some(data[pos] as u16)
    } else {
        None
    }
}

/// The segment-mapping format: parallel end, start, delta and
/// range-offset arrays, searched segment by segment.
fn lookup_format4(data: &[u8], c: u32) -> (r: Option<u16>)
    ensures
        match r {
            Some(id) => spec_lookup_format4(data@, c as int) == Some(id as int),
            None => spec_lookup_format4(data@, c as int) is None,
        },
{
    if c > 0xFFFF {
        return None;
    }
    let code: u16 = c as u16;
    if data.len() < 14 {
        return None;
    }
    let seg_count_x2: u16 = read_u16_at(data, 6);
    if seg_count_x2 < 2 || seg_count_x2 % 2 == 1 {
        return None;
    }
    let seg_count: u16 = seg_count_x2 / 2;
    let end_codes: usize = 14;
    let start_codes: usize = 16 + 2 * (seg_count as usize);
    let id_deltas: usize = 16 + 4 * (seg_count as usize);
    let id_range_offsets: usize = 16 + 6 * (seg_count as usize);
    if id_range_offsets + 2 * (seg_count as usize) > data.len() {
        return None;
    }
    let mut i: u16 = 0;
    while i < seg_count
        invariant
            seg_count_x2 == 2 * seg_count,
            seg_count_x2 as int == be_u16_at(data@, 6),
            code == c,
            c <= 0xFFFF,
            end_codes == 14,
            start_codes == 16 + 2 * seg_count,
            id_deltas == 16 + 4 * seg_count,
            id_range_offsets == 16 + 6 * seg_count,
            id_range_offsets + 2 * seg_count <= data@.len(),
            i <= seg_count,
            spec_f4_segment(data@, seg_count as int, c as int, 0) == spec_f4_segment(
                data@,
                seg_count as int,
                c as int,
                i as int,
            ),
        decreases seg_count - i,
    {
        let end: u16 = read_u16_at(data, end_codes + 2 * (i as usize));
        if end >= code {
            let start: u16 = read_u16_at(data, start_codes + 2 * (i as usize));
            if start > code {
                return None;
            }
            let range_offset_pos: usize = id_range_offsets + 2 * (i as usize);
            let range_offset: u16 = read_u16_at(data, range_offset_pos);
            let delta: u16 = read_u16_at(data, id_deltas + 2 * (i as usize));
            if range_offset == 0 {
                // The glyph is the code point shifted by the delta,
                // modulo 2^16.
                return Some(wrapping_add_u16(code, delta));
            }
            // The glyph is read from the glyph array at a position
            // relative to this range-offset entry.
            let glyph_pos: usize = range_offset_pos + (range_offset as usize) + 2 * ((code - start)
                as usize);
            if glyph_pos + 2 > data.len() {
                return None;
            }
            let glyph: u16 = read_u16_at(data, glyph_pos);
            if glyph == 0 {
                return None;
            }
            return Some(wrapping_add_u16(glyph, delta));
        }
        i = i + 1;
    }
    None
}

/// The trimmed format: a dense glyph range starting at a first code.
fn lookup_format6(data: &[u8], c: u32) -> (r: Option<u16>)
    ensures
        match r {
            Some(id) => spec_lookup_format6(data@, c as int) == Some(id as int),
            None => spec_lookup_format6(data@, c as int) is None,
        },
{
    if data.len() < 10 {
        return None;
    }
    let first: u16 = read_u16_at(data, 6);
    let count: u16 = read_u16_at(data, 8);
    if c < first as u32 || c >= first as u32 + count as u32 {
        return None;
    }
    let index: usize = (c - first as u32) as usize;
    let pos: usize = 10 + 2 * index;
    if pos + 2 > data.len() {
        return None;
    }
    Some(read_u16_at(data, pos))
}

/// The segmented-coverage format: 32-bit character groups, each mapped
/// onto a run of glyph indices.
fn lookup_format12(data: &[u8], c: u32) -> (r: Option<u16>)
    ensures
        match r {
            Some(id) => spec_lookup_format12(data@, c as int) == Some(id as int),
            None => spec_lookup_format12(data@, c as int) is None,
        },
{
    if data.len() < 16 {
        return None;
    }
    let num_groups: u32 = read_u32_at(data, 12);
    let mut i: u32 = 0;
    while i < num_groups
        invariant
            data@.len() >= 16,
            i <= num_groups,
            num_groups as int == be_u32_at(data@, 12),
            spec_f12_scan(data@, num_groups as int, c as int, 0) == spec_f12_scan(
                data@,
                num_groups as int,
                c as int,
                i as int,
            ),
        decreases num_groups - i,
    {
        let pos: u64 = 16 + 12 * (i as u64);
        if pos + 12 > data.len() as u64 {
            return None;
        }
        let start_char: u32 = read_u32_at(data, pos as usize);
        let end_char: u32 = read_u32_at(data, pos as usize + 4);
        if c >= start_char && c <= end_char {
            let start_glyph: u32 = read_u32_at(data, pos as usize + 8);
            let glyph: u64 = (start_glyph as u64) + ((c - start_char) as u64);
            if glyph > 0xFFFF {
                return None;
            }
            return Some(glyph as u16);
        }
        i = i + 1;
    }
    None
}

/// Wrapping 16-bit addition, as the segment-mapping delta rule demands.
fn wrapping_add_u16(a: u16, b: u16) -> (r: u16)
    ensures
        r as int == (a as int + b as int) % 0x10000,
{
    let s: u32 = a as u32 + b as u32;
    if s > 0xFFFF {
        proof {
            vstd::arithmetic::div_mod::lemma_mod_multiples_vanish(
                1,
                a as int + b as int - 0x10000,
                0x10000,
            );
            vstd::arithmetic::div_mod::lemma_small_mod(
                (a as int + b as int - 0x10000) as nat,
                0x10000,
            );
        }
        (s - 0x10000) as u16
    } else {
        proof {
            vstd::arithmetic::div_mod::lemma_small_mod((a as int + b as int) as nat, 0x10000);
        }
        s as u16
    }
}

} // verus!
