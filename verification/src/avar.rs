//! The axis variations table.
//!
//! Stores, per axis, a piecewise-linear segment map from input normalized
//! coordinates to output normalized coordinates, as `(from, to)` pairs
//! sorted by `from`.

use crate::parser::{be_i16_at, be_u16_at, be_u32_at, FromData, LazyArray16, Stream};
use vstd::prelude::*;

verus! {

/// One segment-map record: an input and an output coordinate in f2.14.
#[derive(Clone, Copy, PartialEq, Eq, Structural, Debug)]
pub struct AxisValueMapRecord {
    pub from_coordinate: i16,
    pub to_coordinate: i16,
}

impl FromData for AxisValueMapRecord {
    open spec fn spec_size() -> int {
        4
    }

    open spec fn spec_parse(data: Seq<u8>) -> Self {
        AxisValueMapRecord {
            from_coordinate: be_i16_at(data, 0) as i16,
            to_coordinate: be_i16_at(data, 2) as i16,
        }
    }

    fn size() -> usize {
        4
    }

    fn parse(data: &[u8]) -> Self {
        AxisValueMapRecord {
            from_coordinate: crate::parser::read_i16_at(data, 0),
            to_coordinate: crate::parser::read_i16_at(data, 2),
        }
    }
}

/// The `from` coordinate of record `i` of a segment map whose records
/// start at byte 0 of `data`.
pub open spec fn spec_seg_from(data: Seq<u8>, i: int) -> int {
    be_i16_at(data, 4 * i)
}

/// The `to` coordinate of record `i` of a segment map.
pub open spec fn spec_seg_to(data: Seq<u8>, i: int) -> int {
    be_i16_at(data, 4 * i + 2)
}

/// The position of the first record past `start` whose `from` coordinate
/// is at or beyond `value`, or the record count when there is none.
pub open spec fn spec_break_index(data: Seq<u8>, count: int, value: int, j: int) -> int
    recommends
        1 <= j <= count,
    decreases count - j,
{
    if j >= count {
        count
    } else if value <= spec_seg_from(data, j) {
        j
    } else {
        spec_break_index(data, count, value, j + 1)
    }
}

/// A record of a lazy segment-map array reads the same through the array
/// view and straight from its bytes.
proof fn lemma_seg_record(map: LazyArray16<AxisValueMapRecord>, i: int)
    requires
        map.wf(),
        0 <= i < map.count,
    ensures
        map.spec_at(i).from_coordinate as int == spec_seg_from(map.data@, i),
        map.spec_at(i).to_coordinate as int == spec_seg_to(map.data@, i),
{
    let sub = map.data@.subrange(4 * i, 4 * i + 4);
    assert(sub[0] == map.data@[4 * i]);
    assert(sub[1] == map.data@[4 * i + 1]);
    assert(sub[2] == map.data@[4 * i + 2]);
    assert(sub[3] == map.data@[4 * i + 3]);
}

/// The absolute value of `v`.
pub open spec fn spec_abs(v: int) -> int {
    if v >= 0 {
        v
    } else {
        -v
    }
}

/// Truncating division of `num` by a non-zero `den` (rounds toward zero).
pub open spec fn spec_div_trunc(num: int, den: int) -> int
    recommends
        den != 0,
{
    if (num >= 0) == (den > 0) {
        spec_abs(num) / spec_abs(den)
    } else {
        -(spec_abs(num) / spec_abs(den))
    }
}

/// The value an `i16` expression clamps to: itself in range, 0 outside.
pub open spec fn spec_into_i16_or_zero(v: int) -> int {
    if -32768 <= v <= 32767 {
        v
    } else {
        0
    }
}

/// The remapped value of `value` under the segment map of `count`
/// records starting at byte 0 of `data`.
///
/// An empty map is the identity; one record, or a value at or outside the
/// ends, applies that end's constant offset; between two bracketing records
/// the value is interpolated linearly, with a `denominator / 2` rounding
/// bias and a degenerate bracket collapsing to the earlier record's output.
pub open spec fn spec_map_value(data: Seq<u8>, count: int, value: int) -> int {
    if count == 0 {
        value
    } else if count == 1 {
        spec_into_i16_or_zero(value - spec_seg_from(data, 0) + spec_seg_to(data, 0))
    } else if value <= spec_seg_from(data, 0) {
        spec_into_i16_or_zero(value - spec_seg_from(data, 0) + spec_seg_to(data, 0))
    } else {
        let k = spec_break_index(data, count, value, 1);
        let i = if k == count {
            k - 1
        } else {
            k
        };
        if value >= spec_seg_from(data, i) {
            spec_into_i16_or_zero(value - spec_seg_from(data, i) + spec_seg_to(data, i))
        } else if spec_seg_from(data, i - 1) == spec_seg_from(data, i) {
            spec_seg_to(data, i - 1)
        } else {
            let denom = spec_seg_from(data, i) - spec_seg_from(data, i - 1);
            let num = (spec_seg_to(data, i) - spec_seg_to(data, i - 1)) * (value - spec_seg_from(
                data,
                i - 1,
            )) + spec_div_trunc(denom, 2);
            spec_into_i16_or_zero(spec_seg_to(data, i - 1) + spec_div_trunc(num, denom))
        }
    }
}

/// Truncating division (rounds toward zero, as the format's fixed-point
/// interpolation demands).
fn div_trunc(n: i64, d: i64) -> (r: i64)
    requires
        d != 0,
        n != i64::MIN,
        d != i64::MIN,
    ensures
        r as int == spec_div_trunc(n as int, d as int),
{
    let an: u64 = if n >= 0 {
        n as u64
    } else {
        (-n) as u64
    };
    let ad: u64 = if d >= 0 {
        d as u64
    } else {
        (-d) as u64
    };
    let q: u64 = an / ad;
    proof {
        vstd::arithmetic::div_mod::lemma_div_nonincreasing(an as int, ad as int);
    }
    if (n >= 0) == (d > 0) {
        q as i64
    } else {
        -(q as i64)
    }
}

/// Converts `v` to `i16`, yielding 0 when it does not fit.
fn into_i16_or_zero(v: i64) -> (r: i16)
    ensures
        r as int == spec_into_i16_or_zero(v as int),
{
    if -32768 <= v && v <= 32767 {
        v as i16
    } else {
        0
    }
}

/// Remaps one normalized coordinate through one axis's segment map.
pub fn map_value(map: &LazyArray16<AxisValueMapRecord>, value: i16) -> (r: i16)
    requires
        map.wf(),
    ensures
        r as int == spec_map_value(map.data@, map.count as int, value as int),
{
    if map.len() == 0 {
        return value;
    }
    if map.len() == 1 {
        let record = map.get(0).unwrap();
        proof {
            lemma_seg_record(*map, 0);
        }
        return into_i16_or_zero(
            value as i64 - record.from_coordinate as i64 + record.to_coordinate as i64,
        );
    }
    let record_0 = map.get(0).unwrap();
    proof {
        lemma_seg_record(*map, 0);
    }
    if value <= record_0.from_coordinate {
        return into_i16_or_zero(
            value as i64 - record_0.from_coordinate as i64 + record_0.to_coordinate as i64,
        );
    }
    let mut i: u16 = 1;
    loop
        invariant
            map.wf(),
            map.count >= 2,
            1 <= i <= map.count,
            spec_break_index(map.data@, map.count as int, value as int, 1) == spec_break_index(
                map.data@,
                map.count as int,
                value as int,
                i as int,
            ),
        ensures
            1 <= i <= map.count,
            i as int == spec_break_index(map.data@, map.count as int, value as int, 1),
        decreases map.count - i,
    {
        if i >= map.len() {
            break ;
        }
        let record = map.get(i).unwrap();
        proof {
            lemma_seg_record(*map, i as int);
        }
        if value > record.from_coordinate {
            i = i + 1;
        } else {
            break ;
        }
    }
    if i == map.len() {
        i = i - 1;
    }
    let record_i = map.get(i).unwrap();
    proof {
        lemma_seg_record(*map, i as int);
        lemma_seg_record(*map, i as int - 1);
    }
    if value >= record_i.from_coordinate {
        return into_i16_or_zero(
            value as i64 - record_i.from_coordinate as i64 + record_i.to_coordinate as i64,
        );
    }
    let record_prev = map.get(i - 1).unwrap();
    if record_prev.from_coordinate == record_i.from_coordinate {
        return record_prev.to_coordinate;
    }
    let denom: i64 = record_i.from_coordinate as i64 - record_prev.from_coordinate as i64;
    let half: i64 = div_trunc(denom, 2);
    let da: i64 = record_i.to_coordinate as i64 - record_prev.to_coordinate as i64;
    let dv: i64 = value as i64 - record_prev.from_coordinate as i64;
    proof {
        assert(-65535 <= da <= 65535 && -65535 <= dv <= 65535 ==> -0x100000000 <= da * dv
            <= 0x100000000) by (nonlinear_arith);
    }
    let num: i64 = da * dv + half;
    let q: i64 = div_trunc(num, denom);
    into_i16_or_zero(record_prev.to_coordinate as i64 + q)
}

/// The byte position of axis `i`'s segment map (its leading record
/// count): the maps are laid out one after another from byte 8.
pub open spec fn spec_axis_map_pos(data: Seq<u8>, i: int) -> int
    decreases i,
{
    if i <= 0 {
        8
    } else {
        let p = spec_axis_map_pos(data, i - 1);
        p + 2 + 4 * be_u16_at(data, p)
    }
}

/// The record count of axis `i`'s segment map.
pub open spec fn spec_axis_map_count(data: Seq<u8>, i: int) -> int {
    be_u16_at(data, spec_axis_map_pos(data, i))
}

/// The record bytes of axis `i`'s segment map.
pub open spec fn spec_axis_map_seq(data: Seq<u8>, i: int) -> Seq<u8> {
    data.subrange(
        spec_axis_map_pos(data, i) + 2,
        spec_axis_map_pos(data, i) + 2 + 4 * spec_axis_map_count(data, i),
    )
}

/// The first `n` segment maps lie inside the table.
pub open spec fn spec_maps_fit(data: Seq<u8>, n: int) -> bool
    decreases n,
{
    n <= 0 || (spec_maps_fit(data, n - 1) && spec_axis_map_pos(data, n - 1) + 2 + 4
        * spec_axis_map_count(data, n - 1) <= data.len())
}

/// The table remaps a vector of `n` coordinates: known version, matching
/// axis count, and every segment map inside the table.
pub open spec fn spec_remap_accepts(data: Seq<u8>, n: int) -> bool {
    &&& data.len() >= 8
    &&& be_u32_at(data, 0) == 0x00010000
    &&& be_u16_at(data, 6) == n
    &&& spec_maps_fit(data, n)
}

/// Fitting maps fit prefix-wise: when the first `n` maps fit, so do the
/// first `m` for any `m` at most `n`.
proof fn lemma_maps_fit_prefix(data: Seq<u8>, m: int, n: int)
    requires
        m <= n,
    ensures
        spec_maps_fit(data, n) ==> spec_maps_fit(data, m),
    decreases n - m,
{
    if m < n {
        lemma_maps_fit_prefix(data, m, n - 1);
    }
}

/// Remaps every normalized coordinate in place through the table's
/// per-axis segment maps.
///
/// Fails when the version is unknown, the axis count disagrees with the
/// coordinate count (the vector is then untouched), or a segment map runs
/// out of bytes (a prefix is then already remapped).
pub fn map_variation_coordinates(data: &[u8], coordinates: &mut Vec<i16>) -> (r: Option<()>)
    ensures
        final(coordinates)@.len() == old(coordinates)@.len(),
        r is Some <==> spec_remap_accepts(data@, old(coordinates)@.len() as int),
        r is Some ==> forall|j: int|
            0 <= j < old(coordinates)@.len() ==> final(coordinates)@[j] as int
                == #[trigger] spec_map_value(
                spec_axis_map_seq(data@, j),
                spec_axis_map_count(data@, j),
                old(coordinates)@[j] as int,
            ),
        (data@.len() < 8 || be_u32_at(data@, 0) != 0x00010000 || be_u16_at(data@, 6) != old(
            coordinates,
        )@.len()) ==> final(coordinates)@ == old(coordinates)@,
{
    let mut s = Stream::new(data);
    let version: u32 = match s.read_u32() {
        Some(v) => v,
        None => {
            return None;
        },
    };
    if version != 0x00010000 {
        return None;
    }
    s.advance(2);  // reserved
    let axis_count: u16 = match s.read_u16() {
        Some(v) => v,
        None => {
            return None;
        },
    };
    if axis_count as usize != coordinates.len() {
        return None;
    }
    let mut i: usize = 0;
    while i < axis_count as usize
        invariant
            coordinates@.len() == old(coordinates)@.len(),
            coordinates@.len() == axis_count,
            i <= axis_count,
            data@.len() >= 8,
            be_u32_at(data@, 0) == 0x00010000,
            axis_count as int == be_u16_at(data@, 6),
            s.data@ == data@,
            s.offset == spec_axis_map_pos(data@, i as int),
            spec_maps_fit(data@, i as int),
            forall|j: int|
                0 <= j < i ==> coordinates@[j] as int == #[trigger] spec_map_value(
                    spec_axis_map_seq(data@, j),
                    spec_axis_map_count(data@, j),
                    old(coordinates)@[j] as int,
                ),
            forall|j: int| i <= j < coordinates@.len() ==> coordinates@[j] == old(coordinates)@[j],
        decreases axis_count - i,
    {
        let map = match s.read_count_array16::<AxisValueMapRecord>() {
            Some(m) => m,
            None => {
                proof {
                    assert(!spec_maps_fit(data@, axis_count as int)) by {
                        lemma_maps_fit_prefix(data@, i as int + 1, axis_count as int);
                    }
                }
                return None;
            },
        };
        let v: i16 = coordinates[i];
        let mapped: i16 = map_value(&map, v);
        coordinates[i] = mapped;
        i = i + 1;
    }
    Some(())
}

} // verus!
