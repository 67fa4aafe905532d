//! The item variation store: the shared delta-lookup engine behind the
//! metrics, advance and side-bearing variation tables.
//!
//! A store holds a list of regions — per-axis `(start, peak, end)` tents in
//! f2.14 — and an array of variation-data subtables of delta rows. A delta
//! is addressed by an `(outer, inner)` pair: `outer` picks the subtable,
//! `inner` the row. The delta is the sum over the subtable's regions of
//! `weight * signed delta`, where the weight is the product of the per-axis
//! tent factors at the current coordinates.
//!
//! Weights are carried in f2.14 (`16384` is one); a summed delta is
//! therefore also an f2.14 value.

use crate::parser::{be_i16_at, be_i8_at, be_u16_at, be_u32_at, FromData, LazyArray16, Stream};
use vstd::arithmetic::div_mod::{lemma_div_is_ordered, lemma_div_multiples_vanish};
use vstd::prelude::*;

verus! {

/// One axis of a region: a tent `(start, peak, end)` in f2.14.
#[derive(Clone, Copy, PartialEq, Eq, Structural, Debug)]
pub struct RegionAxisCoordinatesRecord {
    pub start_coord: i16,
    pub peak_coord: i16,
    pub end_coord: i16,
}

impl FromData for RegionAxisCoordinatesRecord {
    open spec fn spec_size() -> int {
        6
    }

    open spec fn spec_parse(data: Seq<u8>) -> Self {
        RegionAxisCoordinatesRecord {
            start_coord: be_i16_at(data, 0) as i16,
            peak_coord: be_i16_at(data, 2) as i16,
            end_coord: be_i16_at(data, 4) as i16,
        }
    }

    fn size() -> usize {
        6
    }

    fn parse(data: &[u8]) -> Self {
        RegionAxisCoordinatesRecord {
            start_coord: crate::parser::read_i16_at(data, 0),
            peak_coord: crate::parser::read_i16_at(data, 2),
            end_coord: crate::parser::read_i16_at(data, 4),
        }
    }
}

/// The tent factor of one axis at coordinate `coord`, in f2.14.
///
/// A malformed tent (unordered, straddling zero asymmetrically, or with a
/// zero peak) does not constrain the region and contributes factor one; a
/// coordinate at or outside the tent ends contributes zero; between an end
/// and the peak the factor is linear, with the quotient rounded down.
pub open spec fn spec_evaluate_axis(rec: RegionAxisCoordinatesRecord, coord: int) -> int {
    let start = rec.start_coord as int;
    let peak = rec.peak_coord as int;
    let end = rec.end_coord as int;
    if start > peak || peak > end {
        16384
    } else if start < 0 && end > 0 && peak != 0 {
        16384
    } else if peak == 0 || coord == peak {
        16384
    } else if coord <= start || end <= coord {
        0
    } else if coord < peak {
        (coord - start) * 16384 / (peak - start)
    } else {
        (end - coord) * 16384 / (end - peak)
    }
}

impl RegionAxisCoordinatesRecord {
    /// The tent factor of this axis at `coord`, in f2.14.
    pub fn evaluate_axis(&self, coord: i16) -> (r: u16)
        ensures
            r as int == spec_evaluate_axis(*self, coord as int),
            0 <= r <= 16384,
    {
        let start: i16 = self.start_coord;
        let peak: i16 = self.peak_coord;
        let end: i16 = self.end_coord;
        if start > peak || peak > end {
            return 16384;
        }
        if start < 0 && end > 0 && peak != 0 {
            return 16384;
        }
        if peak == 0 || coord == peak {
            return 16384;
        }
        if coord <= start || end <= coord {
            return 0;
        }
        if coord < peak {
            // Here start < coord < peak, so the denominator is positive
            // and at least the numerator's base.
            let num: u64 = ((coord as i64 - start as i64) as u64) * 16384;
            let den: u64 = (peak as i64 - start as i64) as u64;
            let q: u64 = num / den;
            proof {
                lemma_div_is_ordered(num as int, den as int * 16384, den as int);
                lemma_div_multiples_vanish(16384, den as int);
            }
            q as u16
        } else {
            let num: u64 = ((end as i64 - coord as i64) as u64) * 16384;
            let den: u64 = (end as i64 - peak as i64) as u64;
            let q: u64 = num / den;
            proof {
                lemma_div_is_ordered(num as int, den as int * 16384, den as int);
                lemma_div_multiples_vanish(16384, den as int);
            }
            q as u16
        }
    }
}

/// The regions of a store: `region_count * axis_count` tent records.
#[derive(Clone, Copy)]
pub struct VariationRegionList<'a> {
    pub axis_count: u16,
    pub regions: LazyArray16<'a, RegionAxisCoordinatesRecord>,
}

/// The weight of region `index` at `coords`, accumulated from axis `i` on
/// with the partial product `acc` (f2.14): each step multiplies by the
/// axis's tent factor and rounds down. A missing tent record makes the
/// weight zero.
pub open spec fn spec_region_weight_from(
    list: VariationRegionList,
    index: int,
    coords: Seq<i16>,
    i: int,
    acc: int,
) -> int
    decreases coords.len() - i,
{
    if i >= coords.len() {
        acc
    } else if index * list.axis_count + i >= list.regions.count {
        0
    } else {
        let f = spec_evaluate_axis(
            list.regions.spec_at(index * list.axis_count + i),
            coords[i] as int,
        );
        if f == 0 {
            0
        } else {
            spec_region_weight_from(list, index, coords, i + 1, acc * f / 16384)
        }
    }
}

/// The weight of region `index` at `coords`, in f2.14.
pub open spec fn spec_region_weight(
    list: VariationRegionList,
    index: int,
    coords: Seq<i16>,
) -> int {
    spec_region_weight_from(list, index, coords, 0, 16384)
}

impl<'a> VariationRegionList<'a> {
    pub open spec fn wf(&self) -> bool {
        self.regions.wf()
    }

    /// The weight of region `index` at `coordinates`, in f2.14.
    pub fn evaluate_region(&self, index: u16, coordinates: &Vec<i16>) -> (r: u16)
        requires
            self.wf(),
            coordinates@.len() <= 32,
        ensures
            r as int == spec_region_weight(*self, index as int, coordinates@),
            0 <= r <= 16384,
    {
        let mut v: u16 = 16384;
        let mut i: usize = 0;
        while i < coordinates.len()
            invariant
                self.wf(),
                coordinates@.len() <= 32,
                0 <= i <= coordinates@.len(),
                0 <= v <= 16384,
                spec_region_weight(*self, index as int, coordinates@) == spec_region_weight_from(
                    *self,
                    index as int,
                    coordinates@,
                    i as int,
                    v as int,
                ),
            decreases coordinates@.len() - i,
        {
            let ac: u16 = self.axis_count;
            proof {
                assert(0 <= (index as int) * (ac as int) <= 0xFFFF * 0xFFFF) by (nonlinear_arith)
                    requires
                        0 <= index <= 0xFFFF,
                        0 <= ac <= 0xFFFF,
                ;
            }
            let slot: u64 = (index as u64) * (ac as u64) + (i as u64);
            if slot > 0xFFFF {
                return 0;
            }
            let region = match self.regions.get(slot as u16) {
                Some(r) => r,
                None => {
                    return 0;
                },
            };
            let factor: u16 = region.evaluate_axis(coordinates[i]);
            if factor == 0 {
                return 0;
            }
            proof {
                assert(0 <= (v as int) * (factor as int) <= 16384 * 16384) by (nonlinear_arith)
                    requires
                        0 <= v <= 16384,
                        0 < factor <= 16384,
                ;
                lemma_div_is_ordered((v as int) * (factor as int), (16384 * 16384) as int, 16384int);
            }
            v = ((v as u32) * (factor as u32) / 16384) as u16;
            i = i + 1;
        }
        v
    }
}

/// A store can be parsed from `d`: known format, the subtable offset
/// array fits, the region list lies inside, its record count does not
/// overflow, and the records fit.
pub open spec fn spec_store_ok(d: Seq<u8>) -> bool {
    let rl = be_u32_at(d, 2);
    let ac = be_u16_at(d, rl);
    let rc = be_u16_at(d, rl + 2);
    &&& be_u16_at(d, 0) == 1
    &&& 8 + 4 * be_u16_at(d, 6) <= d.len()
    &&& rl <= d.len()
    &&& rl + 4 <= d.len()
    &&& rc * ac <= 0xFFFF
    &&& rl + 4 + 6 * (rc * ac) <= d.len()
}

/// A parsed item variation store.
#[derive(Clone, Copy)]
pub struct ItemVariationStore<'a> {
    /// The store's own bytes; subtable offsets are relative to their start.
    pub data: &'a [u8],
    /// Offsets from the start of the store to each variation-data subtable.
    pub data_offsets: LazyArray16<'a, u32>,
    pub regions: VariationRegionList<'a>,
}

impl<'a> ItemVariationStore<'a> {
    pub open spec fn wf(&self) -> bool {
        self.data_offsets.wf() && self.regions.wf()
    }

    /// Parses a store from a stream positioned at its first byte.
    pub fn new(mut s: Stream<'a>) -> (r: Option<ItemVariationStore<'a>>)
        ensures
            r is Some <==> s.offset <= s.data@.len() && spec_store_ok(
                s.data@.subrange(s.offset as int, s.data@.len() as int),
            ),
            match r {
                Some(store) => {
                    let d = s.data@.subrange(s.offset as int, s.data@.len() as int);
                    &&& store.wf()
                    &&& store.data@ == d
                    &&& store.regions.axis_count as int == be_u16_at(d, be_u32_at(d, 2))
                    &&& store.regions.regions.count as int == be_u16_at(d, be_u32_at(d, 2) + 2)
                        * be_u16_at(d, be_u32_at(d, 2))
                    &&& store.data_offsets.count as int == be_u16_at(d, 6)
                    &&& store.data_offsets.data@ == d.subrange(8, 8 + 4 * be_u16_at(d, 6))
                },
                None => true,
            },
    {
        let data: &'a [u8] = match s.tail() {
            Some(t) => t,
            None => {
                return None;
            },
        };
        let mut s = Stream::new(data);
        let format: u16 = match s.read_u16() {
            Some(v) => v,
            None => {
                return None;
            },
        };
        if format != 1 {
            return None;
        }
        let region_list_offset: u32 = match s.read_u32() {
            Some(v) => v,
            None => {
                return None;
            },
        };
        let offsets = match s.read_count_array16::<u32>() {
            Some(a) => a,
            None => {
                return None;
            },
        };
        if region_list_offset as usize > data.len() {
            return None;
        }
        let mut regions_s = Stream::new_at(data, region_list_offset as usize);
        let axis_count: u16 = match regions_s.read_u16() {
            Some(v) => v,
            None => {
                return None;
            },
        };
        let region_count: u16 = match regions_s.read_u16() {
            Some(v) => v,
            None => {
                return None;
            },
        };
        let total: u16 = match region_count.checked_mul(axis_count) {
            Some(t) => t,
            None => {
                return None;
            },
        };
        let regions = match regions_s.read_array16::<RegionAxisCoordinatesRecord>(total) {
            Some(a) => a,
            None => {
                return None;
            },
        };
        Some(
            ItemVariationStore {
                data,
                data_offsets: offsets,
                regions: VariationRegionList { axis_count, regions },
            },
        )
    }

    /// One signed delta of a row: 16-bit for the first `short` positions,
    /// 8-bit after, scaled by its region's weight at `coords` (f2.14).
    pub open spec fn spec_delta_term(
        &self,
        coords: Seq<i16>,
        off: int,
        short: int,
        row: int,
        k: int,
    ) -> int {
        let d = if k < short {
            be_i16_at(self.data@, row + 2 * k)
        } else {
            be_i8_at(self.data@, row + short + k)
        };
        d * spec_region_weight(
            self.regions,
            be_u16_at(self.data@, off + 6 + 2 * k),
            coords,
        )
    }

    /// The sum of the first `k` weighted deltas of a row, in f2.14.
    pub open spec fn spec_delta_sum(
        &self,
        coords: Seq<i16>,
        off: int,
        short: int,
        row: int,
        k: int,
    ) -> int
        decreases k,
    {
        if k <= 0 {
            0
        } else {
            self.spec_delta_sum(coords, off, short, row, k - 1) + self.spec_delta_term(
                coords,
                off,
                short,
                row,
                k - 1,
            )
        }
    }

    /// The delta row addressed by `(outer, inner)` lies inside the store:
    /// the subtable exists and fits, the row index is in range, the word
    /// count does not exceed the region count, and the row's bytes fit.
    pub open spec fn spec_delta_ok(&self, outer: int, inner: int) -> bool {
        let off = self.data_offsets.spec_at(outer) as int;
        let short = be_u16_at(self.data@, off + 2);
        let count = be_u16_at(self.data@, off + 4);
        let row = off + 6 + 2 * count + inner * (short + count);
        &&& 0 <= outer < self.data_offsets.count
        &&& off + 6 + 2 * count <= self.data@.len()
        &&& 0 <= inner < be_u16_at(self.data@, off)
        &&& short <= count
        &&& row + short + count <= self.data@.len()
    }

    /// The delta addressed by `(outer, inner)` at `coords`, in f2.14.
    pub open spec fn spec_delta(&self, outer: int, inner: int, coords: Seq<i16>) -> int {
        let off = self.data_offsets.spec_at(outer) as int;
        let short = be_u16_at(self.data@, off + 2);
        let count = be_u16_at(self.data@, off + 4);
        let row = off + 6 + 2 * count + inner * (short + count);
        self.spec_delta_sum(coords, off, short, row, count)
    }

    /// The delta addressed by `(outer, inner)` at `coordinates`, in f2.14.
    ///
    /// Fails when `outer` is not a subtable, `inner` is not one of its rows,
    /// or a delta runs out of bytes.
    pub fn parse_delta(&self, outer: u16, inner: u16, coordinates: &Vec<i16>) -> (r: Option<i64>)
        requires
            self.wf(),
            coordinates@.len() <= 32,
        ensures
            r is Some <==> self.spec_delta_ok(outer as int, inner as int),
            match r {
                Some(d) => {
                    let off = self.data_offsets.spec_at(outer as int) as int;
                    &&& outer < self.data_offsets.count
                    &&& inner < be_u16_at(self.data@, off)
                    &&& d == self.spec_delta(outer as int, inner as int, coordinates@)
                    &&& -0x400000000000 <= d <= 0x400000000000
                },
                None => true,
            },
    {
        let offset: u32 = match self.data_offsets.get(outer) {
            Some(o) => o,
            None => {
                return None;
            },
        };
        let mut s = Stream::new_at(self.data, offset as usize);
        let item_count: u16 = match s.read_u16() {
            Some(v) => v,
            None => {
                return None;
            },
        };
        if inner >= item_count {
            return None;
        }
        let short_delta_count: u16 = match s.read_u16() {
            Some(v) => v,
            None => {
                return None;
            },
        };
        let region_indexes = match s.read_count_array16::<u16>() {
            Some(a) => a,
            None => {
                return None;
            },
        };
        let region_index_count: u16 = region_indexes.len();
        let row_size: u64 = (short_delta_count as u64) + (region_index_count as u64);
        proof {
            assert((inner as int) * ((short_delta_count as int) + (region_index_count as int))
                <= 0xFFFF * 0x1FFFE) by (nonlinear_arith)
                requires
                    0 <= inner <= 0xFFFF,
                    0 <= short_delta_count <= 0xFFFF,
                    0 <= region_index_count <= 0xFFFF,
            ;
        }
        let skip: u64 = (inner as u64) * row_size;
        let remaining: u64 = (self.data.len() - s.offset()) as u64;
        if skip > remaining {
            return None;
        }
        s.advance(skip as usize);
        let ghost off = self.data_offsets.spec_at(outer as int) as int;
        let ghost short = short_delta_count as int;
        let ghost count = region_index_count as int;
        let ghost row = off + 6 + 2 * count + inner * (short + count);
        assert(s.offset == row);
        let mut delta: i64 = 0;
        let mut i: u16 = 0;
        while i < short_delta_count
            invariant
                self.wf(),
                coordinates@.len() <= 32,
                0 <= i <= short,
                i <= count,
                short == short_delta_count as int,
                count == region_index_count as int,
                short < 0x10000,
                count < 0x10000,
                outer < self.data_offsets.count,
                off == self.data_offsets.spec_at(outer as int),
                (inner as int) < be_u16_at(self.data@, off),
                short == be_u16_at(self.data@, off + 2),
                count == be_u16_at(self.data@, off + 4),
                row == off + 6 + 2 * count + inner * (short + count),
                s.offset <= self.data@.len(),
                region_indexes.wf(),
                region_indexes.count == count,
                region_indexes.data@ == self.data@.subrange(off + 6, off + 6 + 2 * count),
                0 <= off,
                0 <= off + 6 + 2 * count <= self.data@.len(),
                s.data@ == self.data@,
                s.offset == row + 2 * i,
                row >= 0,
                delta == self.spec_delta_sum(coordinates@, off, short, row, i as int),
                -0x40000000 * (i as int) <= delta <= 0x40000000 * (i as int),
            decreases short - i,
    {
            let idx: u16 = match region_indexes.get(i) {
                Some(v) => v,
                None => {
                    return None;
                },
            };
            let d: i16 = match s.read_i16() {
                Some(v) => v,
                None => {
                    return None;
                },
            };
            let w: u16 = self.regions.evaluate_region(idx, coordinates);
            proof {
                let sub = region_indexes.data@.subrange(
                    (i as int) * 2,
                    (i as int) * 2 + 2,
                );
                assert(sub[0] == self.data@[off + 6 + 2 * i]);
                assert(sub[1] == self.data@[off + 6 + 2 * i + 1]);
                assert(region_indexes.spec_at(i as int) as int == be_u16_at(
                    self.data@,
                    off + 6 + 2 * i,
                ));
                assert(-0x40000000 <= (d as int) * (w as int) <= 0x40000000) by (nonlinear_arith)
                    requires
                        -32768 <= d <= 32767,
                        0 <= w <= 16384,
                ;
            }
            delta = delta + (d as i64) * (w as i64);
            i = i + 1;
        }
        while i < region_index_count
            invariant
                self.wf(),
                coordinates@.len() <= 32,
                short <= i <= count,
                short == short_delta_count as int,
                count == region_index_count as int,
                short < 0x10000,
                count < 0x10000,
                outer < self.data_offsets.count,
                off == self.data_offsets.spec_at(outer as int),
                (inner as int) < be_u16_at(self.data@, off),
                short == be_u16_at(self.data@, off + 2),
                count == be_u16_at(self.data@, off + 4),
                row == off + 6 + 2 * count + inner * (short + count),
                s.offset <= self.data@.len(),
                region_indexes.wf(),
                region_indexes.count == count,
                region_indexes.data@ == self.data@.subrange(off + 6, off + 6 + 2 * count),
                0 <= off,
                0 <= off + 6 + 2 * count <= self.data@.len(),
                s.data@ == self.data@,
                s.offset == row + short + i,
                row >= 0,
                delta == self.spec_delta_sum(coordinates@, off, short, row, i as int),
                -0x40000000 * (i as int) <= delta <= 0x40000000 * (i as int),
            decreases count - i,
    {
            let idx: u16 = match region_indexes.get(i) {
                Some(v) => v,
                None => {
                    return None;
                },
            };
            let d: i8 = match s.read_i8() {
                Some(v) => v,
                None => {
                    return None;
                },
            };
            let w: u16 = self.regions.evaluate_region(idx, coordinates);
            proof {
                let sub = region_indexes.data@.subrange(
                    (i as int) * 2,
                    (i as int) * 2 + 2,
                );
                assert(sub[0] == self.data@[off + 6 + 2 * i]);
                assert(sub[1] == self.data@[off + 6 + 2 * i + 1]);
                assert(region_indexes.spec_at(i as int) as int == be_u16_at(
                    self.data@,
                    off + 6 + 2 * i,
                ));
                assert(-0x40000000 <= (d as int) * (w as int) <= 0x40000000) by (nonlinear_arith)
                    requires
                        -128 <= d <= 127,
                        0 <= w <= 16384,
                ;
            }
            delta = delta + (d as i64) * (w as i64);
            i = i + 1;
        }
        Some(delta)
    }

    /// The region indices of variation-data subtable `index`.
    pub fn region_indices(&self, index: u16) -> (r: Option<LazyArray16<'a, u16>>)
        requires
            self.wf(),
        ensures
            r is Some <==> index < self.data_offsets.count && self.data_offsets.spec_at(
                index as int,
            ) <= self.data@.len() && self.data_offsets.spec_at(index as int) + 6 + 2 * be_u16_at(
                self.data@,
                self.data_offsets.spec_at(index as int) + 4,
            ) <= self.data@.len(),
            match r {
                Some(a) => {
                    let off = self.data_offsets.spec_at(index as int) as int;
                    &&& a.wf()
                    &&& a.count as int == be_u16_at(self.data@, off + 4)
                    &&& a.data@ == self.data@.subrange(off + 6, off + 6 + 2 * a.count)
                },
                None => true,
            },
    {
        let offset: u32 = match self.data_offsets.get(index) {
            Some(o) => o,
            None => {
                return None;
            },
        };
        if offset as usize > self.data.len() {
            return None;
        }
        let mut s = Stream::new_at(self.data, offset as usize);
        s.advance(2);  // item count
        s.advance(2);  // short delta count
        s.read_count_array16::<u16>()
    }
}


/// A tent that actually constrains its axis: well-ordered, not
/// straddling zero, with a non-zero peak.
pub open spec fn spec_axis_active(rec: RegionAxisCoordinatesRecord) -> bool {
    &&& rec.start_coord <= rec.peak_coord <= rec.end_coord
    &&& rec.peak_coord != 0
    &&& !(rec.start_coord < 0 && rec.end_coord > 0)
}

/// An active tent has factor zero at the default position.
pub proof fn lemma_active_axis_zero_at_default(rec: RegionAxisCoordinatesRecord)
    requires
        spec_axis_active(rec),
    ensures
        spec_evaluate_axis(rec, 0) == 0,
{
}

/// At the all-zero coordinate vector, a region with an active axis among
/// the coordinates has weight zero, whatever partial product was
/// accumulated so far.
proof fn lemma_region_weight_from_zero_at_default(
    list: VariationRegionList,
    index: int,
    coords: Seq<i16>,
    i: int,
    acc: int,
    j: int,
)
    requires
        forall|k: int| 0 <= k < coords.len() ==> coords[k] == 0,
        0 <= i <= j < coords.len(),
        index * list.axis_count + j < list.regions.count,
        spec_axis_active(list.regions.spec_at(index * list.axis_count + j)),
    ensures
        spec_region_weight_from(list, index, coords, i, acc) == 0,
    decreases j - i,
{
    if index * list.axis_count + i >= list.regions.count {
    } else {
        let f = spec_evaluate_axis(
            list.regions.spec_at(index * list.axis_count + i),
            coords[i] as int,
        );
        if i == j {
            lemma_active_axis_zero_at_default(list.regions.spec_at(index * list.axis_count + j));
        } else if f != 0 {
            lemma_region_weight_from_zero_at_default(list, index, coords, i + 1, acc * f / 16384, j);
        }
    }
}

/// Under zero coordinates, a region that constrains at least one axis
/// contributes nothing: its weight is zero.
pub proof fn lemma_region_weight_zero_at_default(
    list: VariationRegionList,
    index: int,
    coords: Seq<i16>,
    j: int,
)
    requires
        forall|k: int| 0 <= k < coords.len() ==> coords[k] == 0,
        0 <= j < coords.len(),
        index * list.axis_count + j < list.regions.count,
        spec_axis_active(list.regions.spec_at(index * list.axis_count + j)),
    ensures
        spec_region_weight(list, index, coords) == 0,
{
    lemma_region_weight_from_zero_at_default(list, index, coords, 0, 16384, j);
}

impl<'a> ItemVariationStore<'a> {
    /// Under zero coordinates, a delta row whose referenced regions all
    /// have weight zero sums to zero: every variation delta evaluates to
    /// nothing, and every variation-aware metric equals its non-variable
    /// counterpart.
    pub proof fn lemma_delta_sum_zero(
        &self,
        coords: Seq<i16>,
        off: int,
        short: int,
        row: int,
        count: int,
    )
        requires
            forall|j: int|
                0 <= j < count ==> #[trigger] spec_region_weight(
                    self.regions,
                    be_u16_at(self.data@, off + 6 + 2 * j),
                    coords,
                ) == 0,
        ensures
            self.spec_delta_sum(coords, off, short, row, count) == 0,
        decreases count,
    {
        if count > 0 {
            self.lemma_delta_sum_zero(coords, off, short, row, count - 1);
            assert(self.spec_delta_term(coords, off, short, row, count - 1) == 0);
        }
    }
}

} // verus!
