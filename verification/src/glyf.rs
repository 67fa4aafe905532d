//! The glyph-data table: decoding of simple and composite glyph outlines.
//!
//! A glyph starts with a signed contour count and four 16-bit bounds. A
//! positive count is a simple glyph: packed flag, x-delta and y-delta
//! streams that expand into absolute points. A negative count is a
//! composite glyph: a list of sub-glyph references, each with an affine
//! transform. Zero contours is an empty glyph.
//!
//! Transform entries and emitted outline coordinates are signed 16.16
//! fixed-point values.

use crate::parser::{be_i16_at, be_i8_at, be_u16_at, LazyArray16, Stream};
use crate::loca;
use crate::{GlyphId, OutlineBuilder};
use vstd::arithmetic::mul::{
    lemma_mul_is_associative, lemma_mul_is_distributive_add, lemma_mul_is_distributive_add_other_way,
};
use vstd::arithmetic::div_mod::{
    lemma_div_nonincreasing, lemma_mod_multiples_vanish, lemma_small_mod,
};
use vstd::prelude::*;

verus! {

/// One in 16.16 fixed point.
pub const FIXED_ONE: i64 = 65536;

/// The magnitude bound kept on every transform entry and every coordinate
/// that runs through a transform; products saturate here instead of
/// wrapping.
pub const COORD_LIMIT: i64 = 0x2000000000000000;

/// The flag byte of a simple-glyph point.
#[derive(Clone, Copy, PartialEq, Eq, Structural, Debug)]
pub struct SimpleGlyphFlags(pub u8);

impl SimpleGlyphFlags {
    pub fn on_curve_point(self) -> (r: bool)
        ensures
            r == (self.0 & 0x01 != 0),
    {
        self.0 & 0x01 != 0
    }

    pub fn x_short(self) -> (r: bool)
        ensures
            r == (self.0 & 0x02 != 0),
    {
        self.0 & 0x02 != 0
    }

    pub fn y_short(self) -> (r: bool)
        ensures
            r == (self.0 & 0x04 != 0),
    {
        self.0 & 0x04 != 0
    }

    pub fn repeat_flag(self) -> (r: bool)
        ensures
            r == (self.0 & 0x08 != 0),
    {
        self.0 & 0x08 != 0
    }

    pub fn x_is_same_or_positive_short(self) -> (r: bool)
        ensures
            r == (self.0 & 0x10 != 0),
    {
        self.0 & 0x10 != 0
    }

    pub fn y_is_same_or_positive_short(self) -> (r: bool)
        ensures
            r == (self.0 & 0x20 != 0),
    {
        self.0 & 0x20 != 0
    }
}

/// The flag word of a composite-glyph component.
#[derive(Clone, Copy, PartialEq, Eq, Structural, Debug)]
pub struct CompositeGlyphFlags(pub u16);

impl CompositeGlyphFlags {
    pub fn arg_1_and_2_are_words(self) -> (r: bool)
        ensures
            r == (self.0 & 0x0001 != 0),
    {
        self.0 & 0x0001 != 0
    }

    pub fn args_are_xy_values(self) -> (r: bool)
        ensures
            r == (self.0 & 0x0002 != 0),
    {
        self.0 & 0x0002 != 0
    }

    pub fn we_have_a_scale(self) -> (r: bool)
        ensures
            r == (self.0 & 0x0008 != 0),
    {
        self.0 & 0x0008 != 0
    }

    pub fn more_components(self) -> (r: bool)
        ensures
            r == (self.0 & 0x0020 != 0),
    {
        self.0 & 0x0020 != 0
    }

    pub fn we_have_an_x_and_y_scale(self) -> (r: bool)
        ensures
            r == (self.0 & 0x0040 != 0),
    {
        self.0 & 0x0040 != 0
    }

    pub fn we_have_a_two_by_two(self) -> (r: bool)
        ensures
            r == (self.0 & 0x0080 != 0),
    {
        self.0 & 0x0080 != 0
    }
}

/// Clamping of `v` into the coordinate magnitude bound.
pub open spec fn spec_saturate(v: int) -> int {
    if v > COORD_LIMIT {
        COORD_LIMIT as int
    } else if v < -COORD_LIMIT {
        -COORD_LIMIT
    } else {
        v
    }
}

/// The 16.16 fixed-point product: the exact product scaled down with the
/// quotient rounded toward zero, then clamped into the coordinate bound.
pub open spec fn spec_fmul(a: int, b: int) -> int {
    let p = a * b;
    let q = if p >= 0 {
        p / 65536
    } else {
        -((-p) / 65536)
    };
    spec_saturate(q)
}

/// The clamped 16.16 fixed-point sum.
pub open spec fn spec_fadd(a: int, b: int) -> int {
    spec_saturate(a + b)
}

/// Clamps `v` into the coordinate magnitude bound.
fn saturate_i128(v: i128) -> (r: i64)
    ensures
        r as int == spec_saturate(v as int),
        -COORD_LIMIT <= r <= COORD_LIMIT,
{
    if v > COORD_LIMIT as i128 {
        COORD_LIMIT
    } else if v < -(COORD_LIMIT as i128) {
        -COORD_LIMIT
    } else {
        v as i64
    }
}

/// The 16.16 fixed-point product of `a` and `b`.
pub fn fmul(a: i64, b: i64) -> (r: i64)
    ensures
        r as int == spec_fmul(a as int, b as int),
        -COORD_LIMIT <= r <= COORD_LIMIT,
{
    proof {
        assert(-0x8000000000000000 <= a <= 0x7FFFFFFFFFFFFFFF && -0x8000000000000000 <= b
            <= 0x7FFFFFFFFFFFFFFF ==> -0x40000000000000000000000000000000 <= (a as int) * (
        b as int) <= 0x40000000000000000000000000000000) by (nonlinear_arith);
    }
    let p: i128 = (a as i128) * (b as i128);
    let q: i128 = if p >= 0 {
        (p / 65536) as i128
    } else {
        -((-p) / 65536)
    };
    proof {
        if p >= 0 {
            lemma_div_nonincreasing(p as int, 65536);
        } else {
            lemma_div_nonincreasing((-p) as int, 65536);
        }
    }
    saturate_i128(q)
}

/// The clamped 16.16 fixed-point sum of `a` and `b`.
pub fn fadd(a: i64, b: i64) -> (r: i64)
    ensures
        r as int == spec_fadd(a as int, b as int),
        -COORD_LIMIT <= r <= COORD_LIMIT,
{
    saturate_i128((a as i128) + (b as i128))
}

/// An affine transform `(a b c d e f)`, entries in 16.16 fixed point,
/// applied as `x' = a*x + c*y + e`, `y' = b*x + d*y + f`.
#[derive(Clone, Copy, PartialEq, Eq, Structural, Debug)]
pub struct Transform {
    pub a: i64,
    pub b: i64,
    pub c: i64,
    pub d: i64,
    pub e: i64,
    pub f: i64,
}

/// The composition `ts1 ∘ ts2` in clamped 16.16 arithmetic: the transform
/// that applies `ts2` first and `ts1` second.
pub open spec fn spec_combine(ts1: Transform, ts2: Transform) -> Transform {
    Transform {
        a: spec_fadd(spec_fmul(ts1.a as int, ts2.a as int), spec_fmul(ts1.c as int, ts2.b as int))
            as i64,
        b: spec_fadd(spec_fmul(ts1.b as int, ts2.a as int), spec_fmul(ts1.d as int, ts2.b as int))
            as i64,
        c: spec_fadd(spec_fmul(ts1.a as int, ts2.c as int), spec_fmul(ts1.c as int, ts2.d as int))
            as i64,
        d: spec_fadd(spec_fmul(ts1.b as int, ts2.c as int), spec_fmul(ts1.d as int, ts2.d as int))
            as i64,
        e: spec_fadd(
            spec_fadd(
                spec_fmul(ts1.a as int, ts2.e as int),
                spec_fmul(ts1.c as int, ts2.f as int),
            ),
            ts1.e as int,
        ) as i64,
        f: spec_fadd(
            spec_fadd(
                spec_fmul(ts1.b as int, ts2.e as int),
                spec_fmul(ts1.d as int, ts2.f as int),
            ),
            ts1.f as int,
        ) as i64,
    }
}

impl Transform {
    /// The identity transform.
    pub open spec fn spec_default() -> Transform {
        Transform { a: FIXED_ONE, b: 0, c: 0, d: FIXED_ONE, e: 0, f: 0 }
    }

    pub fn identity() -> (r: Self)
        ensures
            r == Transform::spec_default(),
    {
        Transform { a: FIXED_ONE, b: 0, c: 0, d: FIXED_ONE, e: 0, f: 0 }
    }

    /// A pure translation by `(tx, ty)`.
    pub fn new_translate(tx: i64, ty: i64) -> (r: Self)
        ensures
            r == (Transform { a: FIXED_ONE, b: 0, c: 0, d: FIXED_ONE, e: tx, f: ty }),
    {
        Transform { a: FIXED_ONE, b: 0, c: 0, d: FIXED_ONE, e: tx, f: ty }
    }

    /// The composition that applies `ts2` first and `ts1` second.
    pub fn combine(ts1: Self, ts2: Self) -> (r: Self)
        ensures
            r == spec_combine(ts1, ts2),
    {
        Transform {
            a: fadd(fmul(ts1.a, ts2.a), fmul(ts1.c, ts2.b)),
            b: fadd(fmul(ts1.b, ts2.a), fmul(ts1.d, ts2.b)),
            c: fadd(fmul(ts1.a, ts2.c), fmul(ts1.c, ts2.d)),
            d: fadd(fmul(ts1.b, ts2.c), fmul(ts1.d, ts2.d)),
            e: fadd(fadd(fmul(ts1.a, ts2.e), fmul(ts1.c, ts2.f)), ts1.e),
            f: fadd(fadd(fmul(ts1.b, ts2.e), fmul(ts1.d, ts2.f)), ts1.f),
        }
    }

    /// Applies the transform to the point `(x, y)`.
    pub fn apply_to(&self, x: i64, y: i64) -> (r: (i64, i64))
        ensures
            r.0 as int == spec_fadd(
                spec_fadd(spec_fmul(self.a as int, x as int), spec_fmul(self.c as int, y as int)),
                self.e as int,
            ),
            r.1 as int == spec_fadd(
                spec_fadd(spec_fmul(self.b as int, x as int), spec_fmul(self.d as int, y as int)),
                self.f as int,
            ),
    {
        (
            fadd(fadd(fmul(self.a, x), fmul(self.c, y)), self.e),
            fadd(fadd(fmul(self.b, x), fmul(self.d, y)), self.f),
        )
    }

    pub fn is_default(&self) -> (r: bool)
        ensures
            r == (*self == Transform::spec_default()),
    {
        self.a == FIXED_ONE && self.b == 0 && self.c == 0 && self.d == FIXED_ONE && self.e == 0
            && self.f == 0
    }
}

impl Default for Transform {
    fn default() -> (r: Self)
        ensures
            r == Transform::spec_default(),
    {
        Transform::identity()
    }
}

/// An ideal affine transform with unbounded entries: the mathematical
/// model that the fixed-point `Transform` rounds.
pub struct TransformModel {
    pub a: int,
    pub b: int,
    pub c: int,
    pub d: int,
    pub e: int,
    pub f: int,
}

/// Exact composition of ideal transforms: apply `t2` first, `t1` second.
pub open spec fn spec_model_combine(t1: TransformModel, t2: TransformModel) -> TransformModel {
    TransformModel {
        a: t1.a * t2.a + t1.c * t2.b,
        b: t1.b * t2.a + t1.d * t2.b,
        c: t1.a * t2.c + t1.c * t2.d,
        d: t1.b * t2.c + t1.d * t2.d,
        e: t1.a * t2.e + t1.c * t2.f + t1.e,
        f: t1.b * t2.e + t1.d * t2.f + t1.f,
    }
}

/// Applying an ideal transform to an ideal point.
pub open spec fn spec_model_apply(t: TransformModel, x: int, y: int) -> (int, int) {
    (t.a * x + t.c * y + t.e, t.b * x + t.d * y + t.f)
}

/// Composition of affine transforms is associative: over a nested
/// composite, grouping parent-first or child-first builds one and the
/// same transform.
pub proof fn lemma_combine_associative(t1: TransformModel, t2: TransformModel, t3: TransformModel)
    ensures
        spec_model_combine(spec_model_combine(t1, t2), t3) == spec_model_combine(
            t1,
            spec_model_combine(t2, t3),
        ),
{
    lemma_regroup(t1.a, t1.c, t2.a, t2.b, t2.c, t2.d, t3.a, t3.b);
    lemma_regroup(t1.b, t1.d, t2.a, t2.b, t2.c, t2.d, t3.a, t3.b);
    lemma_regroup(t1.a, t1.c, t2.a, t2.b, t2.c, t2.d, t3.c, t3.d);
    lemma_regroup(t1.b, t1.d, t2.a, t2.b, t2.c, t2.d, t3.c, t3.d);
    lemma_regroup_affine(t1.a, t1.c, t2.a, t2.b, t2.c, t2.d, t2.e, t2.f, t1.e, t3.e, t3.f);
    lemma_regroup_affine(t1.b, t1.d, t2.a, t2.b, t2.c, t2.d, t2.e, t2.f, t1.f, t3.e, t3.f);
}

/// Regrouping of one linear entry of a composed transform.
proof fn lemma_regroup(p: int, q: int, a: int, b: int, ap: int, bp: int, c: int, d: int)
    ensures
        (p * a + q * b) * c + (p * ap + q * bp) * d == p * (a * c + ap * d) + q * (b * c + bp * d),
{
    lemma_mul_is_distributive_add_other_way(c, p * a, q * b);
    lemma_mul_is_distributive_add_other_way(d, p * ap, q * bp);
    lemma_mul_is_associative(p, a, c);
    lemma_mul_is_associative(q, b, c);
    lemma_mul_is_associative(p, ap, d);
    lemma_mul_is_associative(q, bp, d);
    lemma_mul_is_distributive_add(p, a * c, ap * d);
    lemma_mul_is_distributive_add(q, b * c, bp * d);
}

/// Regrouping of one translation entry of a composed transform.
proof fn lemma_regroup_affine(
    p: int,
    q: int,
    a: int,
    b: int,
    ap: int,
    bp: int,
    ep: int,
    eq: int,
    e0: int,
    c: int,
    d: int,
)
    ensures
        (p * a + q * b) * c + (p * ap + q * bp) * d + (p * ep + q * eq + e0) == p * (a * c + ap * d
            + ep) + q * (b * c + bp * d + eq) + e0,
{
    lemma_regroup(p, q, a, b, ap, bp, c, d);
    lemma_mul_is_distributive_add(p, a * c + ap * d, ep);
    lemma_mul_is_distributive_add(q, b * c + bp * d, eq);
}

/// Composing and then applying an ideal transform is applying the two in
/// turn: the composite's commands are the child's commands under the
/// combined transform.
pub proof fn lemma_combine_applies(t1: TransformModel, t2: TransformModel, x: int, y: int)
    ensures
        spec_model_apply(spec_model_combine(t1, t2), x, y) == spec_model_apply(
            t1,
            spec_model_apply(t2, x, y).0,
            spec_model_apply(t2, x, y).1,
        ),
{
    lemma_regroup_affine(t1.a, t1.c, t2.a, t2.b, t2.c, t2.d, t2.e, t2.f, t1.e, x, y);
    lemma_regroup_affine(t1.b, t1.d, t2.a, t2.b, t2.c, t2.d, t2.e, t2.f, t1.f, x, y);
}

/// Two's-complement wrap of `v` into the 16-bit signed range.
pub open spec fn spec_wrap_i16(v: int) -> int {
    (v + 32768) % 65536 - 32768
}

/// Wrapping 16-bit addition, as point-delta accumulation demands.
pub fn wrapping_add_i16(a: i16, b: i16) -> (r: i16)
    ensures
        r as int == spec_wrap_i16(a as int + b as int),
{
    let s: i32 = a as i32 + b as i32;
    let w: i32 = if s > 32767 {
        s - 65536
    } else if s < -32768 {
        s + 65536
    } else {
        s
    };
    proof {
        let v = a as int + b as int;
        if s > 32767 {
            lemma_mod_multiples_vanish(1, v + 32768 - 65536, 65536);
            lemma_small_mod((v + 32768 - 65536) as nat, 65536);
        } else if s < -32768 {
            lemma_mod_multiples_vanish(-1, v + 32768 + 65536, 65536);
            lemma_small_mod((v + 32768 + 65536) as nat, 65536);
        } else {
            lemma_small_mod((v + 32768) as nat, 65536);
        }
    }
    w as i16
}

/// One decoded point of a simple glyph.
#[derive(Clone, Copy, PartialEq, Eq, Structural, Debug)]
pub struct GlyphPoint {
    pub x: i16,
    pub y: i16,
    /// The point lies on the contour (it is not a control point).
    pub on_curve_point: bool,
    /// The point is the last of its contour.
    pub last_point: bool,
}


/// A ghost mirror of the point decoder's state: the three stream views
/// and the running counters, over plain sequences and integers.
pub struct PointWalk {
    pub endpoints_data: Seq<u8>,
    pub endpoints_count: int,
    pub endpoint_index: int,
    pub flags_data: Seq<u8>,
    pub flags_off: int,
    pub x_data: Seq<u8>,
    pub x_off: int,
    pub y_data: Seq<u8>,
    pub y_off: int,
    pub points_left: int,
    pub last_point_index: int,
    pub contour_points_left: int,
    pub current_contour: int,
    pub flag_repeats: int,
    pub last_flags: u8,
    pub x: int,
    pub y: int,
}

/// The flag byte that governs the next point: a fresh byte (with its
/// repeat count) when no repeats are pending, else the previous one.
/// Yields `(flag, pending repeats, new flag position)`.
pub open spec fn spec_flag_fetch(w: PointWalk) -> Option<(u8, int, int)> {
    if w.flag_repeats == 0 {
        if w.flags_off + 1 > w.flags_data.len() {
            None
        } else {
            let nf = w.flags_data[w.flags_off];
            if nf & 0x08 != 0 {
                if w.flags_off + 2 > w.flags_data.len() {
                    None
                } else {
                    Some((nf, w.flags_data[w.flags_off + 1] as int, w.flags_off + 2))
                }
            } else {
                Some((nf, 0, w.flags_off + 1))
            }
        }
    } else {
        Some((w.last_flags, w.flag_repeats - 1, w.flags_off))
    }
}

/// One coordinate delta under the four-way rule: a positive byte, a
/// negated byte, zero, or a signed word. Yields `(delta, new position)`.
pub open spec fn spec_delta_fetch(data: Seq<u8>, off: int, short: bool, same_or_positive: bool)
    -> Option<(int, int)> {
    if !short && same_or_positive {
        Some((0, off))
    } else if short {
        if off + 1 > data.len() {
            None
        } else if same_or_positive {
            Some((data[off] as int, off + 1))
        } else {
            Some((-(data[off] as int), off + 1))
        }
    } else {
        if off + 2 > data.len() {
            None
        } else {
            Some((be_i16_at(data, off), off + 2))
        }
    }
}

/// The next contour of at least two points, scanning the end-point
/// indices from `j`: shorter contours are degenerate and skipped, an
/// index below the points already produced fails. Yields the new scan
/// position and the contour's remaining point count.
pub open spec fn spec_next_contour(eps: Seq<u8>, count: int, j: int, lpi: int) -> Option<
    (int, int),
>
    decreases count - j,
{
    if j >= count {
        None
    } else if be_u16_at(eps, 2 * j) < lpi {
        None
    } else if be_u16_at(eps, 2 * j) - lpi >= 2 {
        Some((j + 1, be_u16_at(eps, 2 * j) - lpi))
    } else {
        spec_next_contour(eps, count, j + 1, lpi)
    }
}


/// Scans the end-point indices from `start` for the next contour of at
/// least two points.
fn scan_next_contour(eps: &LazyArray16<u16>, start: u16, lpi: u16) -> (r: Option<(u16, u16)>)
    requires
        eps.wf(),
    ensures
        match r {
            Some((j2, cpl)) => spec_next_contour(
                eps.data@,
                eps.count as int,
                start as int,
                lpi as int,
            ) == Some((j2 as int, cpl as int)),
            None => spec_next_contour(eps.data@, eps.count as int, start as int, lpi as int)
                is None,
        },
{
    let count: u16 = eps.len();
    let mut j: u16 = start;
    while j < count
        invariant
            eps.wf(),
            count == eps.count,
            start <= j,
            j <= count || j == start,
            spec_next_contour(eps.data@, eps.count as int, start as int, lpi as int)
                == spec_next_contour(eps.data@, eps.count as int, j as int, lpi as int),
        decreases count - j,
    {
        let endpoint: u16 = match eps.get(j) {
            Some(v) => v,
            None => {
                return None;
            },
        };
        proof {
            let sub = eps.data@.subrange(2 * (j as int), 2 * (j as int) + 2);
            assert(sub[0] == eps.data@[2 * (j as int)]);
            assert(sub[1] == eps.data@[2 * (j as int) + 1]);
            assert(endpoint as int == be_u16_at(eps.data@, 2 * (j as int)));
        }
        if endpoint < lpi {
            return None;
        }
        let cpl: u16 = endpoint - lpi;
        if cpl >= 2 {
            return Some((j + 1, cpl));
        }
        j = j + 1;
    }
    None
}

/// One step of the point decoder: fetch the flag (honoring repeats),
/// fetch the x and y deltas under the four-way rule, accumulate them with
/// wrapping 16-bit arithmetic, mark the point on-curve from flag bit 0
/// and last-in-contour exactly when the contour's count runs out, and at
/// a contour end locate the next non-degenerate contour.
pub open spec fn spec_point_step(w: PointWalk) -> Option<(GlyphPoint, PointWalk)> {
    if w.points_left <= 0 {
        None
    } else {
        match spec_flag_fetch(w) {
            None => None,
            Some((nf, reps, foff)) => {
                match spec_delta_fetch(w.x_data, w.x_off, nf & 0x02 != 0, nf & 0x10 != 0) {
                    None => None,
                    Some((dx, xoff)) => {
                        match spec_delta_fetch(w.y_data, w.y_off, nf & 0x04 != 0, nf & 0x20 != 0) {
                            None => None,
                            Some((dy, yoff)) => {
                                let nx = spec_wrap_i16(w.x + dx);
                                let ny = spec_wrap_i16(w.y + dy);
                                let pl = w.points_left - 1;
                                let lpi = if w.last_point_index != 0xFFFF {
                                    w.last_point_index + 1
                                } else {
                                    w.last_point_index
                                };
                                let last_point = w.contour_points_left == 0;
                                let cc = if w.current_contour != 0xFFFF {
                                    w.current_contour + 1
                                } else {
                                    w.current_contour
                                };
                                let point = GlyphPoint {
                                    x: nx as i16,
                                    y: ny as i16,
                                    on_curve_point: nf & 0x01 != 0,
                                    last_point,
                                };
                                let w2 = PointWalk {
                                    endpoints_data: w.endpoints_data,
                                    endpoints_count: w.endpoints_count,
                                    endpoint_index: w.endpoint_index,
                                    flags_data: w.flags_data,
                                    flags_off: foff,
                                    x_data: w.x_data,
                                    x_off: xoff,
                                    y_data: w.y_data,
                                    y_off: yoff,
                                    points_left: pl,
                                    last_point_index: lpi,
                                    contour_points_left: w.contour_points_left,
                                    current_contour: w.current_contour,
                                    flag_repeats: reps,
                                    last_flags: nf,
                                    x: nx,
                                    y: ny,
                                };
                                if last_point {
                                    if pl != 0 {
                                        match spec_next_contour(
                                            w.endpoints_data,
                                            w.endpoints_count,
                                            w.endpoint_index,
                                            lpi,
                                        ) {
                                            None => None,
                                            Some((j2, cpl2)) => Some(
                                                (
                                                    point,
                                                    PointWalk {
                                                        endpoint_index: j2,
                                                        contour_points_left: cpl2,
                                                        current_contour: cc,
                                                        ..w2
                                                    },
                                                ),
                                            ),
                                        }
                                    } else {
                                        Some((point, PointWalk { current_contour: cc, ..w2 }))
                                    }
                                } else {
                                    Some(
                                        (
                                            point,
                                            PointWalk {
                                                contour_points_left: w.contour_points_left - 1,
                                                ..w2
                                            },
                                        ),
                                    )
                                }
                            },
                        }
                    },
                }
            },
        }
    }
}

/// A lazy decoder for the points of a simple glyph: three packed streams
/// (flags, x-deltas, y-deltas) expanded one absolute point at a time.
#[derive(Clone)]
pub struct GlyphPoints<'a> {
    /// The contour end-point indices; each marks a contour's last point.
    pub endpoints: LazyArray16<'a, u16>,
    pub endpoint_index: u16,
    pub flags: Stream<'a>,
    pub x_coords: Stream<'a>,
    pub y_coords: Stream<'a>,
    /// Number of points left in the glyph.
    pub points_left: u16,
    /// Number of points already produced.
    pub last_point_index: u16,
    /// Number of points left in the current contour.
    pub contour_points_left: u16,
    pub current_contour: u16,
    /// How many more times `last_flags` applies before a new flag byte.
    pub flag_repeats: u8,
    pub last_flags: SimpleGlyphFlags,
    /// The running absolute coordinates (points are stored as deltas).
    pub x: i16,
    pub y: i16,
}

impl<'a> GlyphPoints<'a> {
    pub open spec fn wf(&self) -> bool {
        self.endpoints.wf()
    }

    /// The decoder's state as the ghost walk mirror.
    pub open spec fn spec_walk(&self) -> PointWalk {
        PointWalk {
            endpoints_data: self.endpoints.data@,
            endpoints_count: self.endpoints.count as int,
            endpoint_index: self.endpoint_index as int,
            flags_data: self.flags.data@,
            flags_off: self.flags.offset as int,
            x_data: self.x_coords.data@,
            x_off: self.x_coords.offset as int,
            y_data: self.y_coords.data@,
            y_off: self.y_coords.offset as int,
            points_left: self.points_left as int,
            last_point_index: self.last_point_index as int,
            contour_points_left: self.contour_points_left as int,
            current_contour: self.current_contour as int,
            flag_repeats: self.flag_repeats as int,
            last_flags: self.last_flags.0,
            x: self.x as int,
            y: self.y as int,
        }
    }

    /// Decodes the next point: its flag (honoring repeat counts), then its
    /// x- and y-deltas under the four-way short/same rule, accumulated
    /// with wrapping arithmetic. The returned point and the new state are
    /// exactly one `spec_point_step` of the old state.
    pub fn next(&mut self) -> (r: Option<GlyphPoint>)
        requires
            old(self).wf(),
        ensures
            final(self).wf(),
            r is Some <==> spec_point_step(old(self).spec_walk()) is Some,
            match r {
                Some(p) => spec_point_step(old(self).spec_walk()) == Some(
                    (p, final(self).spec_walk()),
                ) && old(self).points_left > 0 && final(self).points_left == old(self).points_left
                    - 1,
                None => true,
            },
    {
        if self.points_left == 0 {
            return None;
        }
        if self.flag_repeats == 0 {
            self.last_flags = SimpleGlyphFlags(
                match self.flags.read_u8() {
                    Some(v) => v,
                    None => {
                        return None;
                    },
                },
            );
            if self.last_flags.repeat_flag() {
                self.flag_repeats = match self.flags.read_u8() {
                    Some(v) => v,
                    None => {
                        return None;
                    },
                };
            }
        } else {
            self.flag_repeats = self.flag_repeats - 1;
        }
        let dx: i16 = match (self.last_flags.x_short(), self.last_flags.x_is_same_or_positive_short(
        )) {
            (true, true) => {
                match self.x_coords.read_u8() {
                    Some(v) => v as i16,
                    None => {
                        return None;
                    },
                }
            },
            (true, false) => {
                match self.x_coords.read_u8() {
                    Some(v) => -(v as i16),
                    None => {
                        return None;
                    },
                }
            },
            (false, true) => 0,
            (false, false) => {
                match self.x_coords.read_i16() {
                    Some(v) => v,
                    None => {
                        return None;
                    },
                }
            },
        };
        self.x = wrapping_add_i16(self.x, dx);
        let dy: i16 = match (self.last_flags.y_short(), self.last_flags.y_is_same_or_positive_short(
        )) {
            (true, true) => {
                match self.y_coords.read_u8() {
                    Some(v) => v as i16,
                    None => {
                        return None;
                    },
                }
            },
            (true, false) => {
                match self.y_coords.read_u8() {
                    Some(v) => -(v as i16),
                    None => {
                        return None;
                    },
                }
            },
            (false, true) => 0,
            (false, false) => {
                match self.y_coords.read_i16() {
                    Some(v) => v,
                    None => {
                        return None;
                    },
                }
            },
        };
        self.y = wrapping_add_i16(self.y, dy);
        self.points_left = self.points_left - 1;
        if self.last_point_index != 0xFFFF {
            self.last_point_index = self.last_point_index + 1;
        }
        let last_point: bool = self.contour_points_left == 0;
        if last_point {
            if self.points_left != 0 {
                // Find the next contour of at least two points; shorter
                // contours are degenerate and are skipped.
                match scan_next_contour(
                    &self.endpoints,
                    self.endpoint_index,
                    self.last_point_index,
                ) {
                    Some(found) => {
                        self.endpoint_index = found.0;
                        self.contour_points_left = found.1;
                    },
                    None => {
                        return None;
                    },
                }
            }
            if self.current_contour != 0xFFFF {
                self.current_contour = self.current_contour + 1;
            }
        } else {
            self.contour_points_left = self.contour_points_left - 1;
        }
        Some(
            GlyphPoint {
                x: self.x,
                y: self.y,
                on_curve_point: self.last_flags.on_curve_point(),
                last_point,
            },
        )
    }
}

/// The walk of the flag stream from `pos` with `flags_left` points still
/// to account for and `acc` x-bytes already counted: each flag byte (with
/// its repeat count expanded) adds one x-byte per short flag, two when
/// the x coordinate is neither short nor repeated, and none otherwise.
/// The walk fails when the flags run out of bytes, a sum leaves the
/// 16-bit range, or the repeats overrun the point count.
pub open spec fn spec_x_scan(data: Seq<u8>, pos: int, flags_left: int, acc: int) -> Option<
    (int, int),
>
    decreases flags_left,
{
    if flags_left <= 0 {
        Some((acc, pos))
    } else if pos + 1 > data.len() {
        None
    } else {
        let flags = data[pos];
        if flags & 0x08 != 0 && pos + 2 > data.len() {
            None
        } else {
            let repeats: int = if flags & 0x08 != 0 {
                data[pos + 1] + 1
            } else {
                1
            };
            let pos2: int = if flags & 0x08 != 0 {
                pos + 2
            } else {
                pos + 1
            };
            let add: int = if flags & 0x02 != 0 {
                repeats
            } else if flags & 0x10 == 0 {
                2 * repeats
            } else {
                0
            };
            if acc + add > 0xFFFF {
                None
            } else if repeats > flags_left {
                None
            } else {
                spec_x_scan(data, pos2, flags_left - repeats, acc + add)
            }
        }
    }
}

/// Sums the x-coordinate bytes that the flag stream implies, so that the
/// three packed streams can be split without decoding them twice.
///
/// On success the stream stands at the first x-coordinate byte.
pub fn resolve_x_coords_len(s: &mut Stream, points_total: u16) -> (r: Option<u16>)
    ensures
        final(s).data@ == old(s).data@,
        match r {
            Some(n) => {
                &&& spec_x_scan(old(s).data@, old(s).offset as int, points_total as int, 0)
                    == Some((n as int, final(s).offset as int))
                &&& final(s).offset >= old(s).offset
                &&& (final(s).offset <= old(s).data@.len() || final(s).offset == old(s).offset)
            },
            None => spec_x_scan(old(s).data@, old(s).offset as int, points_total as int, 0)
                is None,
        },
{
    let mut flags_left: u16 = points_total;
    let mut x_coords_len: u16 = 0;
    while flags_left > 0
        invariant
            s.data@ == old(s).data@,
            s.offset <= s.data@.len() || s.offset == old(s).offset,
            s.offset >= old(s).offset,
            spec_x_scan(old(s).data@, old(s).offset as int, points_total as int, 0) == spec_x_scan(
                s.data@,
                s.offset as int,
                flags_left as int,
                x_coords_len as int,
            ),
        decreases flags_left,
    {
        let flags = SimpleGlyphFlags(
            match s.read_u8() {
                Some(v) => v,
                None => {
                    return None;
                },
            },
        );
        // The number of times a glyph point repeats.
        let repeats: u16 = if flags.repeat_flag() {
            let r: u8 = match s.read_u8() {
                Some(v) => v,
                None => {
                    return None;
                },
            };
            r as u16 + 1
        } else {
            1
        };
        if flags.x_short() {
            // The coordinate is one byte long.
            x_coords_len = match x_coords_len.checked_add(repeats) {
                Some(v) => v,
                None => {
                    return None;
                },
            };
        } else if !flags.x_is_same_or_positive_short() {
            // The coordinate is two bytes long.
            match repeats.checked_mul(2) {
                Some(two) => {
                    x_coords_len = match x_coords_len.checked_add(two) {
                        Some(v) => v,
                        None => {
                            return None;
                        },
                    };
                },
                None => {
                    return None;
                },
            }
        }
        if repeats <= flags_left {
            flags_left = flags_left - repeats;
        } else {
            return None;
        }
    }
    Some(x_coords_len)
}

/// The point decoder of a simple glyph can be built from the bytes after
/// the glyph header: the end-point indices and the instruction length fit,
/// the point count does not overflow, the flag walk succeeds, and the
/// x-coordinate region it implies fits.
pub open spec fn spec_simple_parse_ok(body: Seq<u8>, n: int) -> bool {
    let fo = 2 * n + 2 + be_u16_at(body, 2 * n);
    let total = be_u16_at(body, 2 * (n - 1)) + 1;
    &&& 2 * n + 2 <= body.len()
    &&& be_u16_at(body, 2 * (n - 1)) != 0xFFFF
    &&& spec_x_scan(body, fo, total, 0) is Some
    &&& spec_x_scan(body, fo, total, 0).unwrap().1 + spec_x_scan(body, fo, total, 0).unwrap().0
        <= body.len()
}

/// The freshly built point decoder of a simple glyph, as a walk mirror.
pub open spec fn spec_init_walk(body: Seq<u8>, n: int) -> PointWalk {
    let fo = 2 * n + 2 + be_u16_at(body, 2 * n);
    let total = be_u16_at(body, 2 * (n - 1)) + 1;
    let xlen = spec_x_scan(body, fo, total, 0).unwrap().0;
    let xo = spec_x_scan(body, fo, total, 0).unwrap().1;
    PointWalk {
        endpoints_data: body.subrange(0, 2 * n),
        endpoints_count: n,
        endpoint_index: 1,
        flags_data: body.subrange(fo, xo),
        flags_off: 0,
        x_data: body.subrange(xo, xo + xlen),
        x_off: 0,
        y_data: body.subrange(xo + xlen, body.len() as int),
        y_off: 0,
        points_left: total,
        last_point_index: 0,
        contour_points_left: be_u16_at(body, 0),
        current_contour: 0,
        flag_repeats: 0,
        last_flags: 0,
        x: 0,
        y: 0,
    }
}

/// Builds the lazy point decoder of a simple glyph from the bytes after
/// the glyph header: the end-point indices, the skipped instructions, and
/// the three packed streams, split where the flag walk puts them.
pub fn parse_simple_outline<'a>(glyph_data: &'a [u8], number_of_contours: u16) -> (r: Option<
    GlyphPoints<'a>,
>)
    requires
        number_of_contours > 0,
    ensures
        r is Some <==> spec_simple_parse_ok(glyph_data@, number_of_contours as int),
        match r {
            Some(gp) => {
                let n = number_of_contours as int;
                let fo = 2 * n + 2 + be_u16_at(glyph_data@, 2 * n);
                let total = be_u16_at(glyph_data@, 2 * (n - 1)) + 1;
                &&& gp.spec_walk() == spec_init_walk(glyph_data@, n)
                &&& gp.wf()
                &&& 2 * n + 2 <= glyph_data@.len()
                &&& gp.endpoints.count == number_of_contours
                &&& gp.endpoints.data@ == glyph_data@.subrange(0, 2 * n)
                &&& gp.points_left as int == total
                &&& spec_x_scan(glyph_data@, fo, total, 0) is Some
                &&& {
                    let xlen = spec_x_scan(glyph_data@, fo, total, 0).unwrap().0;
                    let xo = spec_x_scan(glyph_data@, fo, total, 0).unwrap().1;
                    &&& gp.flags.data@ == glyph_data@.subrange(fo, xo)
                    &&& gp.x_coords.data@ == glyph_data@.subrange(xo, xo + xlen)
                    &&& gp.y_coords.data@ == glyph_data@.subrange(
                        xo + xlen,
                        glyph_data@.len() as int,
                    )
                    &&& gp.flags.offset == 0
                    &&& gp.x_coords.offset == 0
                    &&& gp.y_coords.offset == 0
                }
                &&& gp.contour_points_left as int == be_u16_at(glyph_data@, 0)
                &&& gp.endpoint_index == 1
                &&& gp.last_point_index == 0
                &&& gp.current_contour == 0
                &&& gp.flag_repeats == 0
                &&& gp.x == 0
                &&& gp.y == 0
            },
            None => true,
        },
{
    let mut s = Stream::new(glyph_data);
    let endpoints = match s.read_array16::<u16>(number_of_contours) {
        Some(a) => a,
        None => {
            return None;
        },
    };
    let last_endpoint: u16 = match endpoints.last() {
        Some(v) => v,
        None => {
            return None;
        },
    };
    let points_total: u16 = match last_endpoint.checked_add(1) {
        Some(v) => v,
        None => {
            proof {
                let n = number_of_contours as int;
                let subl = endpoints.data@.subrange(2 * (n - 1), 2 * (n - 1) + 2);
                assert(subl[0] == glyph_data@[2 * (n - 1)]);
                assert(subl[1] == glyph_data@[2 * (n - 1) + 1]);
            }
            return None;
        },
    };
    // Skip the instruction byte code.
    let instructions_len: u16 = match s.read_u16() {
        Some(v) => v,
        None => {
            return None;
        },
    };
    s.advance(instructions_len as usize);
    let flags_offset: usize = s.offset();
    proof {
        let n = number_of_contours as int;
        let subl = endpoints.data@.subrange(2 * (n - 1), 2 * (n - 1) + 2);
        assert(subl[0] == glyph_data@[2 * (n - 1)]);
        assert(subl[1] == glyph_data@[2 * (n - 1) + 1]);
    }
    let x_coords_len: u16 = match resolve_x_coords_len(&mut s, points_total) {
        Some(v) => v,
        None => {
            proof {
                // Either the skip landed exactly, or it saturated and the
                // walk could not read its first flag either way.
                if flags_offset as int != 2 * (number_of_contours as int) + 2 + be_u16_at(
                    glyph_data@,
                    2 * (number_of_contours as int),
                ) {
                    assert(flags_offset == usize::MAX);
                }
            }
            return None;
        },
    };
    proof {
        if flags_offset as int != 2 * (number_of_contours as int) + 2 + be_u16_at(
            glyph_data@,
            2 * (number_of_contours as int),
        ) {
            assert(flags_offset == usize::MAX);
            assert(false);
        }
    }
    let x_coords_offset: usize = s.offset();
    let y_coords_offset: usize = match x_coords_offset.checked_add(x_coords_len as usize) {
        Some(v) => v,
        None => {
            // The sum exceeds the address range, so it exceeds the data.
            let data_len: usize = glyph_data.len();
            return None;
        },
    };
    if y_coords_offset > glyph_data.len() || flags_offset > x_coords_offset {
        return None;
    }
    let first_endpoint: u16 = match endpoints.get(0) {
        Some(v) => v,
        None => {
            return None;
        },
    };
    proof {
        // The first end-point index reads the same through the array view
        // and straight from the bytes.
        let sub0 = endpoints.data@.subrange(0, 2);
        assert(sub0[0] == glyph_data@[0]);
        assert(sub0[1] == glyph_data@[1]);
    }
    Some(
        GlyphPoints {
            endpoints,
            endpoint_index: 1,
            flags: Stream::new(&glyph_data[flags_offset..x_coords_offset]),
            x_coords: Stream::new(&glyph_data[x_coords_offset..y_coords_offset]),
            y_coords: Stream::new(&glyph_data[y_coords_offset..glyph_data.len()]),
            points_left: points_total,
            last_point_index: 0,
            contour_points_left: first_endpoint,
            current_contour: 0,
            flag_repeats: 0,
            last_flags: SimpleGlyphFlags(0),
            x: 0,
            y: 0,
        },
    )
}


/// The byte just past the component record at `pos`: four header bytes,
/// the argument words or bytes, and the optional scale words.
pub open spec fn spec_component_end(d: Seq<u8>, pos: int) -> int {
    let flags = be_u16_at(d, pos) as u16;
    let args = if flags & 0x0002 != 0 {
        if flags & 0x0001 != 0 {
            4int
        } else {
            2int
        }
    } else {
        0int
    };
    let scales = if flags & 0x0080 != 0 {
        8int
    } else if flags & 0x0040 != 0 {
        4int
    } else if flags & 0x0008 != 0 {
        2int
    } else {
        0int
    };
    pos + 4 + args + scales
}

/// The transform the component record at `pos` carries: offsets from the
/// argument words or bytes when they are positions, and a 2x2 matrix, an
/// x/y scale pair, or one uniform scale (clamped into `[-2, 2]`) in f2.14,
/// by falling priority.
pub open spec fn spec_component_transform(d: Seq<u8>, pos: int) -> Transform {
    let flags = be_u16_at(d, pos) as u16;
    let e: i64 = if flags & 0x0002 != 0 {
        if flags & 0x0001 != 0 {
            (be_i16_at(d, pos + 4) * 65536) as i64
        } else {
            (be_i8_at(d, pos + 4) * 65536) as i64
        }
    } else {
        0
    };
    let f: i64 = if flags & 0x0002 != 0 {
        if flags & 0x0001 != 0 {
            (be_i16_at(d, pos + 6) * 65536) as i64
        } else {
            (be_i8_at(d, pos + 5) * 65536) as i64
        }
    } else {
        0
    };
    let p3 = pos + 4 + (if flags & 0x0002 != 0 {
        if flags & 0x0001 != 0 {
            4int
        } else {
            2int
        }
    } else {
        0int
    });
    if flags & 0x0080 != 0 {
        Transform {
            a: (be_i16_at(d, p3) * 4) as i64,
            b: (be_i16_at(d, p3 + 2) * 4) as i64,
            c: (be_i16_at(d, p3 + 4) * 4) as i64,
            d: (be_i16_at(d, p3 + 6) * 4) as i64,
            e,
            f,
        }
    } else if flags & 0x0040 != 0 {
        Transform { a: (be_i16_at(d, p3) * 4) as i64, b: 0, c: 0, d: (be_i16_at(d, p3 + 2) * 4) as i64, e, f }
    } else if flags & 0x0008 != 0 {
        let v = be_i16_at(d, p3) * 4;
        let cl: i64 = if v > 2 * FIXED_ONE {
            (2 * FIXED_ONE) as i64
        } else if v < -2 * FIXED_ONE {
            (-2 * FIXED_ONE) as i64
        } else {
            v as i64
        };
        Transform { a: cl, b: 0, c: 0, d: cl, e, f }
    } else {
        Transform { a: FIXED_ONE, b: 0, c: 0, d: FIXED_ONE, e, f }
    }
}

/// One component of a composite glyph.
pub struct CompositeGlyphInfo {
    pub glyph_id: GlyphId,
    pub transform: Transform,
    pub flags: CompositeGlyphFlags,
}

/// An iterator-like view over the components of a composite glyph.
#[derive(Clone)]
pub struct CompositeGlyphIter<'a> {
    pub stream: Stream<'a>,
}

impl<'a> CompositeGlyphIter<'a> {
    pub fn new(data: &'a [u8]) -> (r: Self)
        ensures
            r.stream.data@ == data@,
            r.stream.offset == 0,
    {
        CompositeGlyphIter { stream: Stream::new(data) }
    }

    /// Decodes the next component record: flags, sub-glyph ID, the two
    /// arguments (offsets when `args_are_xy_values`), and an optional
    /// scale, x/y-scale or 2x2 matrix in f2.14.
    pub fn next(&mut self) -> (r: Option<CompositeGlyphInfo>)
        ensures
            final(self).stream.data@ == old(self).stream.data@,
            r is Some <==> old(self).stream.offset < old(self).stream.data@.len()
                && spec_component_end(old(self).stream.data@, old(self).stream.offset as int)
                <= old(self).stream.data@.len(),
            match r {
                Some(comp) => {
                    let d = old(self).stream.data@;
                    let pos = old(self).stream.offset as int;
                    &&& comp.flags.0 as int == be_u16_at(d, pos)
                    &&& comp.glyph_id.0 as int == be_u16_at(d, pos + 2)
                    &&& comp.transform == spec_component_transform(d, pos)
                    &&& final(self).stream.offset as int == if (be_u16_at(d, pos) as u16) & 0x0020
                        != 0 {
                        spec_component_end(d, pos)
                    } else {
                        d.len() as int
                    }
                    &&& old(self).stream.offset < final(self).stream.offset
                    &&& final(self).stream.offset <= old(self).stream.data@.len()
                },
                None => final(self).stream.offset <= final(self).stream.data@.len() || final(self).stream.offset == old(self).stream.offset,
            },
    {
        if self.stream.at_end() {
            return None;
        }
        let flags = CompositeGlyphFlags(
            match self.stream.read_u16() {
                Some(v) => v,
                None => {
                    return None;
                },
            },
        );
        let glyph_id = GlyphId(
            match self.stream.read_u16() {
                Some(v) => v,
                None => {
                    return None;
                },
            },
        );
        let mut ts = Transform::identity();
        if flags.args_are_xy_values() {
            if flags.arg_1_and_2_are_words() {
                let e: i16 = match self.stream.read_i16() {
                    Some(v) => v,
                    None => {
                        return None;
                    },
                };
                let f: i16 = match self.stream.read_i16() {
                    Some(v) => v,
                    None => {
                        return None;
                    },
                };
                ts.e = (e as i64) * FIXED_ONE;
                ts.f = (f as i64) * FIXED_ONE;
            } else {
                let e: i8 = match self.stream.read_i8() {
                    Some(v) => v,
                    None => {
                        return None;
                    },
                };
                let f: i8 = match self.stream.read_i8() {
                    Some(v) => v,
                    None => {
                        return None;
                    },
                };
                ts.e = (e as i64) * FIXED_ONE;
                ts.f = (f as i64) * FIXED_ONE;
            }
        }
        if flags.we_have_a_two_by_two() {
            let a: i16 = match self.stream.read_i16() {
                Some(v) => v,
                None => {
                    return None;
                },
            };
            let b: i16 = match self.stream.read_i16() {
                Some(v) => v,
                None => {
                    return None;
                },
            };
            let c: i16 = match self.stream.read_i16() {
                Some(v) => v,
                None => {
                    return None;
                },
            };
            let d: i16 = match self.stream.read_i16() {
                Some(v) => v,
                None => {
                    return None;
                },
            };
            ts.a = f2dot14_to_fixed(a);
            ts.b = f2dot14_to_fixed(b);
            ts.c = f2dot14_to_fixed(c);
            ts.d = f2dot14_to_fixed(d);
        } else if flags.we_have_an_x_and_y_scale() {
            let a: i16 = match self.stream.read_i16() {
                Some(v) => v,
                None => {
                    return None;
                },
            };
            let d: i16 = match self.stream.read_i16() {
                Some(v) => v,
                None => {
                    return None;
                },
            };
            ts.a = f2dot14_to_fixed(a);
            ts.d = f2dot14_to_fixed(d);
        } else if flags.we_have_a_scale() {
            // The scale is an f2.14 value between -2 and almost +2.
            let a: i16 = match self.stream.read_i16() {
                Some(v) => v,
                None => {
                    return None;
                },
            };
            ts.a = i64_bound(-2 * FIXED_ONE, f2dot14_to_fixed(a), 2 * FIXED_ONE);
            ts.d = ts.a;
        }
        if !flags.more_components() {
            // End the iteration even if the stream still has bytes.
            self.stream.jump_to_end();
        }
        Some(CompositeGlyphInfo { glyph_id, transform: ts, flags })
    }
}

/// A bounding box accumulated in 16.16 fixed point.
#[derive(Clone, Copy, PartialEq, Eq, Structural, Debug)]
pub struct BBox {
    pub x_min: i64,
    pub y_min: i64,
    pub x_max: i64,
    pub y_max: i64,
}

/// Every point of `pts` lies inside `b`.
pub open spec fn spec_bbox_bounds(b: BBox, pts: Seq<(int, int)>) -> bool {
    forall|k: int|
        0 <= k < pts.len() ==> b.x_min <= #[trigger] pts[k].0 <= b.x_max && b.y_min <= pts[k].1
            <= b.y_max
}

/// `b` is exactly the hull of `pts`: it bounds every point, each of its
/// four edges is attained by some point, and it is the empty sentinel
/// when there are no points.
pub open spec fn spec_bbox_is_hull(b: BBox, pts: Seq<(int, int)>) -> bool {
    &&& spec_bbox_bounds(b, pts)
    &&& pts.len() == 0 ==> b == BBox::spec_new()
    &&& pts.len() > 0 ==> (exists|k: int| 0 <= k < pts.len() && (#[trigger] pts[k]).0 == b.x_min)
    &&& pts.len() > 0 ==> (exists|k: int| 0 <= k < pts.len() && (#[trigger] pts[k]).0 == b.x_max)
    &&& pts.len() > 0 ==> (exists|k: int| 0 <= k < pts.len() && (#[trigger] pts[k]).1 == b.y_min)
    &&& pts.len() > 0 ==> (exists|k: int| 0 <= k < pts.len() && (#[trigger] pts[k]).1 == b.y_max)
}

impl BBox {
    /// The empty box: sentinels that any point improves.
    pub open spec fn spec_new() -> BBox {
        BBox { x_min: i64::MAX, y_min: i64::MAX, x_max: i64::MIN, y_max: i64::MIN }
    }

    pub fn new() -> (r: Self)
        ensures
            r == BBox::spec_new(),
    {
        BBox { x_min: i64::MAX, y_min: i64::MAX, x_max: i64::MIN, y_max: i64::MIN }
    }

    /// Whether no point has been folded in yet.
    pub fn is_default(&self) -> (r: bool)
        ensures
            r == (*self == BBox::spec_new()),
    {
        self.x_min == i64::MAX && self.y_min == i64::MAX && self.x_max == i64::MIN && self.y_max
            == i64::MIN
    }

    /// Widens the box to cover `(x, y)`.
    pub fn extend_by(&mut self, x: i64, y: i64)
        ensures
            final(self).x_min == if x < old(self).x_min {
                x as int
            } else {
                old(self).x_min as int
            },
            final(self).y_min == if y < old(self).y_min {
                y as int
            } else {
                old(self).y_min as int
            },
            final(self).x_max == if x > old(self).x_max {
                x as int
            } else {
                old(self).x_max as int
            },
            final(self).y_max == if y > old(self).y_max {
                y as int
            } else {
                old(self).y_max as int
            },
    {
        if x < self.x_min {
            self.x_min = x;
        }
        if y < self.y_min {
            self.y_min = y;
        }
        if x > self.x_max {
            self.x_max = x;
        }
        if y > self.y_max {
            self.y_max = y;
        }
    }

    /// The box as design-unit integers, when all four corners fit the
    /// 16-bit range; the fixed-point corners are truncated toward zero.
    pub fn to_rect(&self) -> (r: Option<crate::Rect>)
        ensures
            match r {
                Some(rect) => {
                    &&& -0x80000000 <= self.x_min <= 0x7FFF0000
                    &&& -0x80000000 <= self.y_min <= 0x7FFF0000
                    &&& -0x80000000 <= self.x_max <= 0x7FFF0000
                    &&& -0x80000000 <= self.y_max <= 0x7FFF0000
                    &&& rect.x_min as int == spec_fixed_trunc(self.x_min as int)
                    &&& rect.y_min as int == spec_fixed_trunc(self.y_min as int)
                    &&& rect.x_max as int == spec_fixed_trunc(self.x_max as int)
                    &&& rect.y_max as int == spec_fixed_trunc(self.y_max as int)
                },
                None => !(-0x80000000 <= self.x_min <= 0x7FFF0000) || !(-0x80000000 <= self.y_min
                    <= 0x7FFF0000) || !(-0x80000000 <= self.x_max <= 0x7FFF0000) || !(-0x80000000
                    <= self.y_max <= 0x7FFF0000),
            },
    {
        let x_min = match fixed_to_i16(self.x_min) {
            Some(v) => v,
            None => {
                return None;
            },
        };
        let y_min = match fixed_to_i16(self.y_min) {
            Some(v) => v,
            None => {
                return None;
            },
        };
        let x_max = match fixed_to_i16(self.x_max) {
            Some(v) => v,
            None => {
                return None;
            },
        };
        let y_max = match fixed_to_i16(self.y_max) {
            Some(v) => v,
            None => {
                return None;
            },
        };
        Some(crate::Rect { x_min, y_min, x_max, y_max })
    }
}

/// The design-unit value of a 16.16 coordinate, truncated toward zero.
pub open spec fn spec_fixed_trunc(v: int) -> int {
    if v >= 0 {
        v / 65536
    } else {
        -((-v) / 65536)
    }
}

/// Converts a 16.16 value to a design-unit integer, failing outside the
/// 16-bit range `[-32768.0, 32767.0]`.
fn fixed_to_i16(v: i64) -> (r: Option<i16>)
    ensures
        match r {
            Some(n) => -0x80000000 <= v <= 0x7FFF0000 && n as int == spec_fixed_trunc(v as int),
            None => !(-0x80000000 <= v <= 0x7FFF0000),
        },
{
    if -0x80000000 <= v && v <= 0x7FFF0000 {
        let q: i64 = if v >= 0 {
            ((v as u64) / 65536) as i64
        } else {
            -((((-v) as u64) / 65536) as i64)
        };
        proof {
            if v >= 0 {
                vstd::arithmetic::div_mod::lemma_div_is_ordered(v as int, 0x7FFF0000, 65536);
                vstd::arithmetic::div_mod::lemma_div_multiples_vanish(0x7FFF, 65536);
            } else {
                vstd::arithmetic::div_mod::lemma_div_is_ordered((-v) as int, 0x80000000, 65536);
                vstd::arithmetic::div_mod::lemma_div_multiples_vanish(0x8000, 65536);
            }
        }
        Some(q as i16)
    } else {
        None
    }
}

/// The recursion cap on composite glyphs. The format itself sets no
/// limit; this is a defensive bound.
pub const MAX_COMPONENTS: u8 = 32;

/// Applying `t` to `(x, y)` in clamped 16.16 arithmetic.
pub open spec fn spec_apply(t: Transform, x: int, y: int) -> (int, int) {
    (
        spec_fadd(spec_fadd(spec_fmul(t.a as int, x), spec_fmul(t.c as int, y)), t.e as int),
        spec_fadd(spec_fadd(spec_fmul(t.b as int, x), spec_fmul(t.d as int, y)), t.f as int),
    )
}

/// The identity transform moves no point of the coordinate range.
proof fn lemma_identity_apply(x: int, y: int)
    requires
        -0x80000000 <= x <= 0x80000000,
        -0x80000000 <= y <= 0x80000000,
    ensures
        spec_apply(Transform::spec_default(), x, y) == (x, y),
{
    lemma_one_fmul(x);
    lemma_one_fmul(y);
}

/// Multiplying by one in 16.16 fixed point is exact in the coordinate
/// range.
proof fn lemma_one_fmul(x: int)
    requires
        -0x80000000 <= x <= 0x80000000,
    ensures
        spec_fmul(65536, x) == x,
{
    if x >= 0 {
        vstd::arithmetic::div_mod::lemma_div_multiples_vanish(x, 65536);
    } else {
        assert(-(65536 * x) == 65536 * (-x)) by (nonlinear_arith);
        vstd::arithmetic::div_mod::lemma_div_multiples_vanish(-x, 65536);
    }
}

/// One draw command handed to the receiver, recorded with its transformed
/// 16.16 coordinates.
pub enum DrawCommand {
    MoveTo { x: int, y: int },
    LineTo { x: int, y: int },
    QuadTo { x1: int, y1: int, x: int, y: int },
    Close,
}

/// The MoveTo that `t` makes of the raw point `(x, y)`.
pub open spec fn spec_move_cmd(t: Transform, x: int, y: int) -> DrawCommand {
    DrawCommand::MoveTo { x: spec_apply(t, x, y).0, y: spec_apply(t, x, y).1 }
}

/// The LineTo that `t` makes of the raw point `(x, y)`.
pub open spec fn spec_line_cmd(t: Transform, x: int, y: int) -> DrawCommand {
    DrawCommand::LineTo { x: spec_apply(t, x, y).0, y: spec_apply(t, x, y).1 }
}

/// The QuadTo that `t` makes of the raw control point `(x1, y1)` and end
/// point `(x, y)`.
pub open spec fn spec_quad_cmd(t: Transform, x1: int, y1: int, x: int, y: int) -> DrawCommand {
    DrawCommand::QuadTo {
        x1: spec_apply(t, x1, y1).0,
        y1: spec_apply(t, x1, y1).1,
        x: spec_apply(t, x, y).0,
        y: spec_apply(t, x, y).1,
    }
}

/// The midpoint of two raw coordinates.
pub open spec fn spec_mid(a: int, b: int) -> int {
    (a + b) / 2
}

/// The commands one point makes the contour translation emit: the first
/// point of a contour opens it with a MoveTo (from the implied midpoint
/// when the contour starts with two off-curve points); later points emit a
/// LineTo per on-curve run and a QuadTo per off-curve control, with the
/// implied on-curve midpoint between consecutive controls.
pub open spec fn spec_push_emits(
    t: Transform,
    fon: Option<(i64, i64)>,
    foff: Option<(i64, i64)>,
    loff: Option<(i64, i64)>,
    x: i64,
    y: i64,
    on_curve_point: bool,
) -> Seq<DrawCommand> {
    if fon is None {
        if on_curve_point {
            seq![spec_move_cmd(t, x as int, y as int)]
        } else {
            match foff {
                Some(off) => seq![
                    spec_move_cmd(
                        t,
                        spec_mid(off.0 as int, x as int),
                        spec_mid(off.1 as int, y as int),
                    ),
                ],
                None => Seq::empty(),
            }
        }
    } else {
        match (loff, on_curve_point) {
            (Some(off), true) => seq![
                spec_quad_cmd(t, off.0 as int, off.1 as int, x as int, y as int),
            ],
            (Some(off), false) => seq![
                spec_quad_cmd(
                    t,
                    off.0 as int,
                    off.1 as int,
                    spec_mid(off.0 as int, x as int),
                    spec_mid(off.1 as int, y as int),
                ),
            ],
            (None, true) => seq![spec_line_cmd(t, x as int, y as int)],
            (None, false) => Seq::empty(),
        }
    }
}

/// The pending-point slots after one point of the contour translation:
/// `(first on-curve, first off-curve, last off-curve)`.
pub open spec fn spec_push_slots(
    fon: Option<(i64, i64)>,
    foff: Option<(i64, i64)>,
    loff: Option<(i64, i64)>,
    x: i64,
    y: i64,
    on_curve_point: bool,
) -> (Option<(i64, i64)>, Option<(i64, i64)>, Option<(i64, i64)>) {
    if fon is None {
        if on_curve_point {
            (Some((x, y)), foff, loff)
        } else {
            match foff {
                Some(off) => (
                    Some(
                        (
                            spec_mid(off.0 as int, x as int) as i64,
                            spec_mid(off.1 as int, y as int) as i64,
                        ),
                    ),
                    foff,
                    Some((x, y)),
                ),
                None => (None, Some((x, y)), loff),
            }
        }
    } else {
        match (loff, on_curve_point) {
            (Some(off), true) => (fon, foff, None),
            (Some(off), false) => (fon, foff, Some((x, y))),
            (None, true) => (fon, foff, loff),
            (None, false) => (fon, foff, Some((x, y))),
        }
    }
}

/// The commands that close a contour: the trailing and leading off-curve
/// controls joined through their midpoint, the ring back to the first
/// on-curve point, and exactly one ClosePath.
pub open spec fn spec_finish_emits(
    t: Transform,
    fon: Option<(i64, i64)>,
    foff: Option<(i64, i64)>,
    loff: Option<(i64, i64)>,
) -> Seq<DrawCommand> {
    let join = if foff is Some && loff is Some {
        seq![
            spec_quad_cmd(
                t,
                loff.unwrap().0 as int,
                loff.unwrap().1 as int,
                spec_mid(loff.unwrap().0 as int, foff.unwrap().0 as int),
                spec_mid(loff.unwrap().1 as int, foff.unwrap().1 as int),
            ),
        ]
    } else {
        Seq::empty()
    };
    let loff2: Option<(i64, i64)> = if foff is Some && loff is Some {
        None
    } else {
        loff
    };
    let ring = match (fon, foff, loff2) {
        (Some(p), Some(off1), _) => seq![
            spec_quad_cmd(t, off1.0 as int, off1.1 as int, p.0 as int, p.1 as int),
        ],
        (Some(p), None, Some(off2)) => seq![
            spec_quad_cmd(t, off2.0 as int, off2.1 as int, p.0 as int, p.1 as int),
        ],
        (Some(p), None, None) => seq![spec_line_cmd(t, p.0 as int, p.1 as int)],
        _ => Seq::empty(),
    };
    join + ring + seq![DrawCommand::Close]
}

/// Being a prefix is transitive.
proof fn lemma_prefix_transitive<T>(a: Seq<T>, b: Seq<T>, c: Seq<T>)
    requires
        a.is_prefix_of(b),
        b.is_prefix_of(c),
    ensures
        a.is_prefix_of(c),
{
    assert forall|i: int| 0 <= i < a.len() implies a[i] == c[i] by {
        assert(a[i] == b.subrange(0, a.len() as int)[i]);
        assert(b[i] == c.subrange(0, b.len() as int)[i]);
    }
    assert(a =~= c.subrange(0, a.len() as int));
}

/// A pending off-curve point: a raw glyph coordinate scaled to 16.16.
pub open spec fn spec_off_pt(p: (i64, i64)) -> bool {
    &&& -0x80000000 <= p.0 <= 0x80000000
    &&& -0x80000000 <= p.1 <= 0x80000000
    &&& p.0 % 65536 == 0
    &&& p.1 % 65536 == 0
}

/// A pending on-curve point: a raw point or a midpoint of two raw points.
pub open spec fn spec_on_pt(p: (i64, i64)) -> bool {
    &&& -0x80000000 <= p.0 <= 0x80000000
    &&& -0x80000000 <= p.1 <= 0x80000000
}

/// The walking state of the contour-to-command translation, shared down a
/// composite tree: the active transform, the accumulated tight bounding
/// box, and the three pending-point slots of the current contour.
pub struct OutlineState {
    pub transform: Transform,
    pub is_default_ts: bool,
    pub bbox: BBox,
    pub first_oncurve: Option<(i64, i64)>,
    pub first_offcurve: Option<(i64, i64)>,
    pub last_offcurve: Option<(i64, i64)>,
    /// Every coordinate pair handed to the receiver, after transform.
    pub emitted: Ghost<Seq<(int, int)>>,
    /// Every draw command handed to the receiver, after transform.
    pub commands: Ghost<Seq<DrawCommand>>,
}

impl OutlineState {
    /// The state invariant: the box is exactly the hull of what was
    /// emitted, the fast-path flag is honest, and pending points are
    /// in range.
    pub open spec fn inv(&self) -> bool {
        &&& spec_bbox_is_hull(self.bbox, self.emitted@)
        &&& (self.is_default_ts ==> self.transform == Transform::spec_default())
        &&& match self.first_oncurve {
            Some(p) => spec_on_pt(p),
            None => true,
        }
        &&& match self.first_offcurve {
            Some(p) => spec_off_pt(p),
            None => true,
        }
        &&& match self.last_offcurve {
            Some(p) => spec_off_pt(p),
            None => true,
        }
    }

    /// A fresh state under `transform`, with an empty box.
    pub fn new(transform: Transform) -> (r: Self)
        ensures
            r.inv(),
            r.transform == transform,
            r.bbox == BBox::spec_new(),
            r.emitted@ == Seq::<(int, int)>::empty(),
            r.commands@ == Seq::<DrawCommand>::empty(),
    {
        let is_default_ts = transform.is_default();
        OutlineState {
            transform,
            is_default_ts,
            bbox: BBox::new(),
            first_oncurve: None,
            first_offcurve: None,
            last_offcurve: None,
            emitted: Ghost(Seq::empty()),
            commands: Ghost(Seq::empty()),
        }
    }

    /// Transforms one point and folds it into the box and the ghost
    /// record of emitted points.
    fn project(&mut self, x: i64, y: i64) -> (r: (i64, i64))
        requires
            old(self).inv(),
            -0x80000000 <= x <= 0x80000000,
            -0x80000000 <= y <= 0x80000000,
        ensures
            final(self).inv(),
            final(self).transform == old(self).transform,
            final(self).is_default_ts == old(self).is_default_ts,
            final(self).first_oncurve == old(self).first_oncurve,
            final(self).first_offcurve == old(self).first_offcurve,
            final(self).last_offcurve == old(self).last_offcurve,
            (r.0 as int, r.1 as int) == spec_apply(old(self).transform, x as int, y as int),
            final(self).emitted@ == old(self).emitted@.push((r.0 as int, r.1 as int)),
            final(self).commands == old(self).commands,
    {
        let (tx, ty): (i64, i64) = if self.is_default_ts {
            proof {
                lemma_identity_apply(x as int, y as int);
            }
            (x, y)
        } else {
            self.transform.apply_to(x, y)
        };
        let ghost old_pts = self.emitted@;
        let ghost old_bbox = self.bbox;
        self.bbox.extend_by(tx, ty);
        proof {
            self.emitted@ = self.emitted@.push((tx as int, ty as int));
            lemma_hull_push(old_bbox, self.bbox, old_pts, tx as int, ty as int);
        }
        (tx, ty)
    }
}

/// The exact midpoint of two raw coordinates (their sum is even).
fn midpoint(a: i64, b: i64) -> (r: i64)
    requires
        a % 65536 == 0,
        b % 65536 == 0,
        -0x80000000 <= a <= 0x80000000,
        -0x80000000 <= b <= 0x80000000,
    ensures
        2 * r == a + b,
        r as int == spec_mid(a as int, b as int),
        -0x80000000 <= r <= 0x80000000,
{
    proof {
        assert(a % 65536 == 0 && b % 65536 == 0 ==> (a + b) % 2 == 0) by (nonlinear_arith);
    }
    let s: i64 = a + b;
    if s >= 0 {
        let q: u64 = (s as u64) / 2;
        proof {
            vstd::arithmetic::div_mod::lemma_fundamental_div_mod(s as int, 2);
        }
        q as i64
    } else {
        let q: u64 = ((-s) as u64) / 2;
        proof {
            vstd::arithmetic::div_mod::lemma_fundamental_div_mod((-s) as int, 2);
            vstd::arithmetic::div_mod::lemma_fundamental_div_mod(s as int, 2);
        }
        -(q as i64)
    }
}

impl OutlineState {
    /// Emits a MoveTo through the receiver.
    fn emit_move<B: OutlineBuilder>(&mut self, sink: &mut B, x: i64, y: i64)
        requires
            old(self).inv(),
            -0x80000000 <= x <= 0x80000000,
            -0x80000000 <= y <= 0x80000000,
        ensures
            final(self).inv(),
            final(self).transform == old(self).transform,
            final(self).is_default_ts == old(self).is_default_ts,
            final(self).first_oncurve == old(self).first_oncurve,
            final(self).first_offcurve == old(self).first_offcurve,
            final(self).last_offcurve == old(self).last_offcurve,
            final(self).commands@ == old(self).commands@.push(
                spec_move_cmd(old(self).transform, x as int, y as int),
            ),
    {
        let (tx, ty) = self.project(x, y);
        proof {
            self.commands@ = self.commands@.push(
                DrawCommand::MoveTo { x: tx as int, y: ty as int },
            );
        }
        sink.move_to(tx, ty);
    }

    /// Emits a LineTo through the receiver.
    fn emit_line<B: OutlineBuilder>(&mut self, sink: &mut B, x: i64, y: i64)
        requires
            old(self).inv(),
            -0x80000000 <= x <= 0x80000000,
            -0x80000000 <= y <= 0x80000000,
        ensures
            final(self).inv(),
            final(self).transform == old(self).transform,
            final(self).is_default_ts == old(self).is_default_ts,
            final(self).first_oncurve == old(self).first_oncurve,
            final(self).first_offcurve == old(self).first_offcurve,
            final(self).last_offcurve == old(self).last_offcurve,
            final(self).commands@ == old(self).commands@.push(
                spec_line_cmd(old(self).transform, x as int, y as int),
            ),
    {
        let (tx, ty) = self.project(x, y);
        proof {
            self.commands@ = self.commands@.push(
                DrawCommand::LineTo { x: tx as int, y: ty as int },
            );
        }
        sink.line_to(tx, ty);
    }

    /// Emits a QuadTo through the receiver; both the control point and
    /// the end point count toward the box.
    fn emit_quad<B: OutlineBuilder>(&mut self, sink: &mut B, x1: i64, y1: i64, x: i64, y: i64)
        requires
            old(self).inv(),
            -0x80000000 <= x1 <= 0x80000000,
            -0x80000000 <= y1 <= 0x80000000,
            -0x80000000 <= x <= 0x80000000,
            -0x80000000 <= y <= 0x80000000,
        ensures
            final(self).inv(),
            final(self).transform == old(self).transform,
            final(self).is_default_ts == old(self).is_default_ts,
            final(self).first_oncurve == old(self).first_oncurve,
            final(self).first_offcurve == old(self).first_offcurve,
            final(self).last_offcurve == old(self).last_offcurve,
            final(self).commands@ == old(self).commands@.push(
                spec_quad_cmd(old(self).transform, x1 as int, y1 as int, x as int, y as int),
            ),
    {
        let (tx1, ty1) = self.project(x1, y1);
        let (tx, ty) = self.project(x, y);
        proof {
            self.commands@ = self.commands@.push(
                DrawCommand::QuadTo { x1: tx1 as int, y1: ty1 as int, x: tx as int, y: ty as int },
            );
        }
        sink.quad_to(tx1, ty1, tx, ty);
    }

    /// Feeds one decoded point (raw coordinates scaled to 16.16) into the
    /// contour-to-command translation.
    ///
    /// The first point of a contour opens it with a MoveTo — from an
    /// implied midpoint when the contour starts off-curve. Later points
    /// emit a LineTo per on-curve run, a QuadTo per off-curve control,
    /// with implied on-curve midpoints between consecutive controls. The
    /// contour's last point closes the ring.
    pub fn push_point<B: OutlineBuilder>(
        &mut self,
        sink: &mut B,
        x: i64,
        y: i64,
        on_curve_point: bool,
        last_point: bool,
    )
        requires
            old(self).inv(),
            x % 65536 == 0,
            y % 65536 == 0,
            -0x80000000 <= x <= 0x80000000,
            -0x80000000 <= y <= 0x80000000,
        ensures
            final(self).inv(),
            final(self).transform == old(self).transform,
            final(self).is_default_ts == old(self).is_default_ts,
            ({
                let pushed = spec_push_slots(
                    old(self).first_oncurve,
                    old(self).first_offcurve,
                    old(self).last_offcurve,
                    x,
                    y,
                    on_curve_point,
                );
                let emits = spec_push_emits(
                    old(self).transform,
                    old(self).first_oncurve,
                    old(self).first_offcurve,
                    old(self).last_offcurve,
                    x,
                    y,
                    on_curve_point,
                );
                if last_point {
                    &&& final(self).commands@ =~= old(self).commands@ + emits
                        + spec_finish_emits(old(self).transform, pushed.0, pushed.1, pushed.2)
                    &&& final(self).first_oncurve is None
                    &&& final(self).first_offcurve is None
                    &&& final(self).last_offcurve is None
                } else {
                    &&& final(self).commands@ =~= old(self).commands@ + emits
                    &&& final(self).first_oncurve == pushed.0
                    &&& final(self).first_offcurve == pushed.1
                    &&& final(self).last_offcurve == pushed.2
                }
            }),
    {
        if self.first_oncurve.is_none() {
            if on_curve_point {
                self.first_oncurve = Some((x, y));
                self.emit_move(sink, x, y);
            } else {
                match self.first_offcurve {
                    Some(offcurve) => {
                        let mid_x = midpoint(offcurve.0, x);
                        let mid_y = midpoint(offcurve.1, y);
                        self.first_oncurve = Some((mid_x, mid_y));
                        self.last_offcurve = Some((x, y));
                        self.emit_move(sink, mid_x, mid_y);
                    },
                    None => {
                        self.first_offcurve = Some((x, y));
                    },
                }
            }
        } else {
            match (self.last_offcurve, on_curve_point) {
                (Some(offcurve), true) => {
                    self.last_offcurve = None;
                    self.emit_quad(sink, offcurve.0, offcurve.1, x, y);
                },
                (Some(offcurve), false) => {
                    let mid_x = midpoint(offcurve.0, x);
                    let mid_y = midpoint(offcurve.1, y);
                    self.last_offcurve = Some((x, y));
                    self.emit_quad(sink, offcurve.0, offcurve.1, mid_x, mid_y);
                },
                (None, true) => {
                    self.emit_line(sink, x, y);
                },
                (None, false) => {
                    self.last_offcurve = Some((x, y));
                },
            }
        }
        if last_point {
            self.finish_contour(sink);
        }
    }

    /// Closes the current contour: joins the trailing and leading
    /// off-curve controls through their midpoint, rings back to the
    /// contour's first on-curve point, emits a ClosePath, and clears the
    /// pending slots.
    pub fn finish_contour<B: OutlineBuilder>(&mut self, sink: &mut B)
        requires
            old(self).inv(),
        ensures
            final(self).inv(),
            final(self).transform == old(self).transform,
            final(self).is_default_ts == old(self).is_default_ts,
            final(self).first_oncurve is None,
            final(self).first_offcurve is None,
            final(self).last_offcurve is None,
            final(self).commands@ =~= old(self).commands@ + spec_finish_emits(
                old(self).transform,
                old(self).first_oncurve,
                old(self).first_offcurve,
                old(self).last_offcurve,
            ),
    {
        match (self.first_offcurve, self.last_offcurve) {
            (Some(offcurve1), Some(offcurve2)) => {
                self.last_offcurve = None;
                let mid_x = midpoint(offcurve2.0, offcurve1.0);
                let mid_y = midpoint(offcurve2.1, offcurve1.1);
                self.emit_quad(sink, offcurve2.0, offcurve2.1, mid_x, mid_y);
            },
            _ => {},
        }
        match (self.first_oncurve, self.first_offcurve, self.last_offcurve) {
            (Some(p), Some(offcurve1), _) => {
                self.emit_quad(sink, offcurve1.0, offcurve1.1, p.0, p.1);
            },
            (Some(p), None, Some(offcurve2)) => {
                self.emit_quad(sink, offcurve2.0, offcurve2.1, p.0, p.1);
            },
            (Some(p), None, None) => {
                self.emit_line(sink, p.0, p.1);
            },
            _ => {},
        }
        proof {
            self.commands@ = self.commands@.push(DrawCommand::Close);
        }
        sink.close();
        self.first_oncurve = None;
        self.first_offcurve = None;
        self.last_offcurve = None;
    }
}

/// Extending a hull box by a point keeps it the hull.
proof fn lemma_hull_push(b_old: BBox, b_new: BBox, pts: Seq<(int, int)>, x: int, y: int)
    requires
        spec_bbox_is_hull(b_old, pts),
        b_new.x_min == if x < b_old.x_min {
            x
        } else {
            b_old.x_min as int
        },
        b_new.y_min == if y < b_old.y_min {
            y
        } else {
            b_old.y_min as int
        },
        b_new.x_max == if x > b_old.x_max {
            x
        } else {
            b_old.x_max as int
        },
        b_new.y_max == if y > b_old.y_max {
            y
        } else {
            b_old.y_max as int
        },
    ensures
        spec_bbox_is_hull(b_new, pts.push((x, y))),
{
    let pts2 = pts.push((x, y));
    assert(pts2[pts.len() as int] == (x, y));
    assert forall|k: int| 0 <= k < pts2.len() implies b_new.x_min <= #[trigger] pts2[k].0
        <= b_new.x_max && b_new.y_min <= pts2[k].1 <= b_new.y_max by {
        if k < pts.len() {
            assert(pts2[k] == pts[k]);
        }
    }
    if pts.len() == 0 {
        assert(pts2[0] == (x, y));
    } else {
        if x < b_old.x_min {
            assert(pts2[pts.len() as int].0 == b_new.x_min);
        } else {
            let k = choose|k: int| 0 <= k < pts.len() && (#[trigger] pts[k]).0 == b_old.x_min;
            assert(pts2[k].0 == b_new.x_min);
        }
        if x > b_old.x_max {
            assert(pts2[pts.len() as int].0 == b_new.x_max);
        } else {
            let k = choose|k: int| 0 <= k < pts.len() && (#[trigger] pts[k]).0 == b_old.x_max;
            assert(pts2[k].0 == b_new.x_max);
        }
        if y < b_old.y_min {
            assert(pts2[pts.len() as int].1 == b_new.y_min);
        } else {
            let k = choose|k: int| 0 <= k < pts.len() && (#[trigger] pts[k]).1 == b_old.y_min;
            assert(pts2[k].1 == b_new.y_min);
        }
        if y > b_old.y_max {
            assert(pts2[pts.len() as int].1 == b_new.y_max);
        } else {
            let k = choose|k: int| 0 <= k < pts.len() && (#[trigger] pts[k]).1 == b_old.y_max;
            assert(pts2[k].1 == b_new.y_max);
        }
    }
}

/// Converts an f2.14 value to 16.16 fixed point (exactly).
pub fn f2dot14_to_fixed(v: i16) -> (r: i64)
    ensures
        r as int == (v as int) * 4,
        -0x20000 <= r <= 0x1FFFC,
{
    (v as i64) * 4
}

/// Clamps `val` into `[min, max]`.
pub fn i64_bound(min: i64, val: i64, max: i64) -> (r: i64)
    requires
        min <= max,
    ensures
        r == if val > max {
            max
        } else if val < min {
            min
        } else {
            val
        },
{
    if val > max {
        max
    } else if val < min {
        min
    } else {
        val
    }
}


/// The glyph has outline bytes: its location range is forward, not
/// empty, and lies inside the glyph-data table.
pub open spec fn spec_has_glyph_data(
    loca_table: loca::Table,
    glyf_data: Seq<u8>,
    gid: int,
) -> bool {
    &&& gid + 1 < loca_table.spec_len()
    &&& loca_table.spec_offset(gid) < loca_table.spec_offset(gid + 1)
    &&& loca_table.spec_offset(gid + 1) <= glyf_data.len()
}


/// An outline walk of the glyph bytes `gdata` succeeds: the depth cap is
/// not hit, the header is readable, the glyph is not empty, a simple
/// body's point decoder can be built (the streamed point walk itself may
/// end early without failing the outline), and every composite component
/// that has glyph bytes outlines recursively; a component record that
/// runs out of bytes ends the component list without failing it.
pub open spec fn spec_outline_ok(
    loca_table: loca::Table,
    glyf_data: Seq<u8>,
    gdata: Seq<u8>,
    depth: int,
) -> bool
    decreases 32 - depth, 1int, 0int,
{
    if depth < 0 || depth >= MAX_COMPONENTS {
        false
    } else if gdata.len() < 10 {
        false
    } else {
        let n = be_i16_at(gdata, 0);
        if n > 0 {
            spec_simple_parse_ok(gdata.subrange(10, gdata.len() as int), n)
        } else if n < 0 {
            spec_comps_ok(loca_table, glyf_data, gdata.subrange(10, gdata.len() as int), 0, depth)
        } else {
            false
        }
    }
}

/// Every component of the list at `cd` from `pos` on outlines: a record
/// that runs out of bytes ends the list successfully, a referenced glyph
/// without bytes is skipped, and the list ends after a record without the
/// more-components flag.
pub open spec fn spec_comps_ok(
    loca_table: loca::Table,
    glyf_data: Seq<u8>,
    cd: Seq<u8>,
    pos: int,
    depth: int,
) -> bool
    decreases 32 - depth, 0int, cd.len() - pos,
{
    if depth < 0 || depth >= MAX_COMPONENTS {
        false
    } else if pos >= cd.len() || spec_component_end(cd, pos) > cd.len() {
        true
    } else {
        let gid = be_u16_at(cd, pos + 2);
        let child_ok = if spec_has_glyph_data(loca_table, glyf_data, gid) {
            spec_outline_ok(
                loca_table,
                glyf_data,
                glyf_data.subrange(
                    loca_table.spec_offset(gid),
                    loca_table.spec_offset(gid + 1),
                ),
                depth + 1,
            )
        } else {
            true
        };
        &&& child_ok
        &&& if (be_u16_at(cd, pos) as u16) & 0x0020 != 0 {
            spec_comps_ok(loca_table, glyf_data, cd, spec_component_end(cd, pos), depth)
        } else {
            true
        }
    }
}

/// The bytes of one glyph inside the glyph-data table, located through
/// the index-to-location table.
///
/// An empty, reversed or out-of-table range is absent; an empty range
/// means the glyph has no outline.
pub fn glyph_data<'a>(
    loca_table: &loca::Table<'a>,
    glyf_data: &'a [u8],
    glyph_id: GlyphId,
) -> (r: Option<&'a [u8]>)
    requires
        loca_table.wf(),
    ensures
        r is Some <==> spec_has_glyph_data(*loca_table, glyf_data@, glyph_id.0 as int),
        match r {
            Some(d) => {
                let start = loca_table.spec_offset(glyph_id.0 as int);
                let end = loca_table.spec_offset(glyph_id.0 as int + 1);
                &&& glyph_id.0 + 1 < loca_table.spec_len()
                &&& start < end <= glyf_data@.len()
                &&& d@ == glyf_data@.subrange(start, end)
            },
            None => true,
        },
{
    let (start, end): (u32, u32) = match loca_table.glyph_range(glyph_id) {
        Some(range) => range,
        None => {
            return None;
        },
    };
    if (end as usize) <= glyf_data.len() {
        Some(&glyf_data[start as usize..end as usize])
    } else {
        None
    }
}

/// The bounding box stored in a glyph's header, straight from the four
/// bound fields, in O(1).
pub fn glyph_bbox(
    loca_table: &loca::Table,
    glyf_data: &[u8],
    glyph_id: GlyphId,
) -> (r: Option<crate::Rect>)
    requires
        loca_table.wf(),
    ensures
        r is Some <==> spec_has_glyph_data(*loca_table, glyf_data@, glyph_id.0 as int)
            && loca_table.spec_offset(glyph_id.0 as int + 1) - loca_table.spec_offset(
            glyph_id.0 as int,
        ) >= 10,
        match r {
            Some(rect) => {
                let start = loca_table.spec_offset(glyph_id.0 as int);
                &&& loca_table.spec_offset(glyph_id.0 as int + 1) - start >= 10
                &&& rect.x_min as int == be_i16_at(glyf_data@, start + 2)
                &&& rect.y_min as int == be_i16_at(glyf_data@, start + 4)
                &&& rect.x_max as int == be_i16_at(glyf_data@, start + 6)
                &&& rect.y_max as int == be_i16_at(glyf_data@, start + 8)
            },
            None => true,
        },
{
    let data = match glyph_data(loca_table, glyf_data, glyph_id) {
        Some(d) => d,
        None => {
            return None;
        },
    };
    if data.len() < 10 {
        return None;
    }
    Some(
        crate::Rect {
            x_min: crate::parser::read_i16_at(data, 2),
            y_min: crate::parser::read_i16_at(data, 4),
            x_max: crate::parser::read_i16_at(data, 6),
            y_max: crate::parser::read_i16_at(data, 8),
        },
    )
}

/// Outlines one glyph's bytes into the receiver: decodes the header,
/// walks the simple or composite body, and returns the header's stored
/// bounding box.
///
/// Composite references recurse with the combined transform, sharing the
/// receiver and the accumulated tight box; recursion past the component
/// cap, and any truncated stream, aborts the outline.
pub fn outline_impl<'a, B: OutlineBuilder>(
    loca_table: &loca::Table<'a>,
    glyf_data: &'a [u8],
    data: &[u8],
    depth: u8,
    state: &mut OutlineState,
    sink: &mut B,
) -> (r: Option<crate::Rect>)
    requires
        loca_table.wf(),
        old(state).inv(),
    ensures
        final(state).inv(),
        old(state).commands@.is_prefix_of(final(state).commands@),
        r is Some <==> spec_outline_ok(*loca_table, glyf_data@, data@, depth as int),
        (depth >= MAX_COMPONENTS || data@.len() < 10 || be_i16_at(data@, 0) == 0)
            ==> final(state).commands@ == old(state).commands@,

        match r {
            Some(rect) => {
                &&& depth < MAX_COMPONENTS
                &&& data@.len() >= 10
                &&& be_i16_at(data@, 0) != 0
                &&& rect.x_min as int == be_i16_at(data@, 2)
                &&& rect.y_min as int == be_i16_at(data@, 4)
                &&& rect.x_max as int == be_i16_at(data@, 6)
                &&& rect.y_max as int == be_i16_at(data@, 8)
            },
            None => true,
        },
    decreases MAX_COMPONENTS - depth,
{
    if depth >= MAX_COMPONENTS {
        return None;
    }
    let mut s = Stream::new(data);
    let number_of_contours: i16 = match s.read_i16() {
        Some(v) => v,
        None => {
            return None;
        },
    };
    let x_min: i16 = match s.read_i16() {
        Some(v) => v,
        None => {
            return None;
        },
    };
    let y_min: i16 = match s.read_i16() {
        Some(v) => v,
        None => {
            return None;
        },
    };
    let x_max: i16 = match s.read_i16() {
        Some(v) => v,
        None => {
            return None;
        },
    };
    let y_max: i16 = match s.read_i16() {
        Some(v) => v,
        None => {
            return None;
        },
    };
    let rect = crate::Rect { x_min, y_min, x_max, y_max };
    if number_of_contours > 0 {
        // A simple glyph.
        let body = match s.tail() {
            Some(t) => t,
            None => {
                return None;
            },
        };
        let mut points = match parse_simple_outline(body, number_of_contours as u16) {
            Some(p) => p,
            None => {
                return None;
            },
        };
        loop
            invariant
                points.wf(),
                state.inv(),
                old(state).commands@.is_prefix_of(state.commands@),
            decreases points.points_left,
        {
            let point = match points.next() {
                Some(p) => p,
                None => {
                    break ;
                },
            };
            let ghost before_cmds = state.commands@;
            state.push_point(
                sink,
                (point.x as i64) * 65536,
                (point.y as i64) * 65536,
                point.on_curve_point,
                point.last_point,
            );
            proof {
                assert(before_cmds.is_prefix_of(state.commands@)) by {
                    assert(before_cmds =~= state.commands@.subrange(
                        0,
                        before_cmds.len() as int,
                    ));
                }
                lemma_prefix_transitive(old(state).commands@, before_cmds, state.commands@);
            }
        }
    } else if number_of_contours < 0 {
        // A composite glyph.
        let body = match s.tail() {
            Some(t) => t,
            None => {
                return None;
            },
        };
        let mut iter = CompositeGlyphIter::new(body);
        loop
            invariant_except_break
                spec_comps_ok(*loca_table, glyf_data@, body@, 0, depth as int) == spec_comps_ok(
                    *loca_table,
                    glyf_data@,
                    body@,
                    iter.stream.offset as int,
                    depth as int,
                ),
            invariant
                loca_table.wf(),
                state.inv(),
                old(state).commands@.is_prefix_of(state.commands@),
                iter.stream.offset <= iter.stream.data@.len() || iter.stream.offset == 0,
                depth < MAX_COMPONENTS,
                iter.stream.data@ == body@,
                data@.len() >= 10,
                be_i16_at(data@, 0) < 0,
                body@ == data@.subrange(10, data@.len() as int),
            ensures
                spec_comps_ok(*loca_table, glyf_data@, body@, 0, depth as int),
                data@.len() >= 10,
                be_i16_at(data@, 0) < 0,
            decreases iter.stream.data@.len() - iter.stream.offset,
        {
            let ghost pos_top = iter.stream.offset as int;
            let comp = match iter.next() {
                Some(c) => c,
                None => {
                    proof {
                        assert(spec_comps_ok(*loca_table, glyf_data@, body@, pos_top, depth as int));
                    }
                    break ;
                },
            };
            match glyph_data(loca_table, glyf_data, comp.glyph_id) {
                Some(child_data) => {
                    let transform = Transform::combine(state.transform, comp.transform);
                    let is_default_ts = transform.is_default();
                    let mut child = OutlineState {
                        transform,
                        is_default_ts,
                        bbox: state.bbox,
                        first_oncurve: None,
                        first_offcurve: None,
                        last_offcurve: None,
                        emitted: state.emitted,
                        commands: state.commands,
                    };
                    match outline_impl(loca_table, glyf_data, child_data, depth + 1, &mut child, sink) {
                        Some(_) => {
                            proof {
                                lemma_prefix_transitive(
                                    old(state).commands@,
                                    state.commands@,
                                    child.commands@,
                                );
                            }
                            state.bbox = child.bbox;
                            state.emitted = child.emitted;
                            state.commands = child.commands;
                        },
                        None => {
                            proof {
                                assert(!spec_comps_ok(
                                    *loca_table,
                                    glyf_data@,
                                    body@,
                                    pos_top,
                                    depth as int,
                                ));
                            }
                            return None;
                        },
                    }
                },
                None => {},
            }
            proof {
                assert(spec_comps_ok(*loca_table, glyf_data@, body@, pos_top, depth as int)
                    == spec_comps_ok(
                    *loca_table,
                    glyf_data@,
                    body@,
                    iter.stream.offset as int,
                    depth as int,
                ));
            }
        }
    } else {
        // An empty glyph.
        return None;
    }
    Some(rect)
}

/// Outlines `glyph_id` into the receiver and returns the bounding box
/// stored in its header.
pub fn outline<'a, B: OutlineBuilder>(
    loca_table: &loca::Table<'a>,
    glyf_data: &'a [u8],
    glyph_id: GlyphId,
    state: &mut OutlineState,
    sink: &mut B,
) -> (r: Option<crate::Rect>)
    requires
        loca_table.wf(),
        old(state).inv(),
    ensures
        final(state).inv(),
        old(state).commands@.is_prefix_of(final(state).commands@),
        r is Some <==> spec_has_glyph_data(*loca_table, glyf_data@, glyph_id.0 as int)
            && spec_outline_ok(
            *loca_table,
            glyf_data@,
            glyf_data@.subrange(
                loca_table.spec_offset(glyph_id.0 as int),
                loca_table.spec_offset(glyph_id.0 as int + 1),
            ),
            0,
        ),
        !spec_has_glyph_data(*loca_table, glyf_data@, glyph_id.0 as int) ==> final(state).commands@
            == old(state).commands@,
        (spec_has_glyph_data(*loca_table, glyf_data@, glyph_id.0 as int) && (loca_table.spec_offset(
            glyph_id.0 as int + 1,
        ) - loca_table.spec_offset(glyph_id.0 as int) < 10 || be_i16_at(
            glyf_data@,
            loca_table.spec_offset(glyph_id.0 as int),
        ) == 0)) ==> final(state).commands@ == old(state).commands@,
        match r {
            Some(rect) => {
                let start = loca_table.spec_offset(glyph_id.0 as int);
                &&& loca_table.spec_offset(glyph_id.0 as int + 1) - start >= 10
                &&& rect.x_min as int == be_i16_at(glyf_data@, start + 2)
                &&& rect.y_min as int == be_i16_at(glyf_data@, start + 4)
                &&& rect.x_max as int == be_i16_at(glyf_data@, start + 6)
                &&& rect.y_max as int == be_i16_at(glyf_data@, start + 8)
            },
            None => true,
        },
{
    let data = match glyph_data(loca_table, glyf_data, glyph_id) {
        Some(d) => d,
        None => {
            return None;
        },
    };
    outline_impl(loca_table, glyf_data, data, 0, state, sink)
}

} // verus!
