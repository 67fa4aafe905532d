//! Bounds-checked big-endian binary parsing.
//!
//! Every multi-byte integer in a font file is big-endian. `Stream` is a
//! cursor over a byte slice whose reads either return the value at the
//! cursor or fail; no read ever touches bytes outside the slice.

use core::marker::PhantomData;
use vstd::arithmetic::mul::lemma_mul_inequality;
use vstd::prelude::*;

verus! {

/// The value of the big-endian 16-bit integer at `i`.
pub open spec fn be_u16_at(s: Seq<u8>, i: int) -> int
    recommends
        0 <= i,
        i + 2 <= s.len(),
{
    (s[i] as int) * 256 + (s[i + 1] as int)
}

/// The value of the big-endian 32-bit integer at `i`.
pub open spec fn be_u32_at(s: Seq<u8>, i: int) -> int
    recommends
        0 <= i,
        i + 4 <= s.len(),
{
    (s[i] as int) * 0x1000000 + (s[i + 1] as int) * 0x10000 + (s[i + 2] as int) * 0x100 + (s[i
        + 3] as int)
}

/// The two's-complement value of the byte at `i`.
pub open spec fn be_i8_at(s: Seq<u8>, i: int) -> int
    recommends
        0 <= i < s.len(),
{
    if (s[i] as int) < 128 {
        s[i] as int
    } else {
        (s[i] as int) - 256
    }
}

/// The two's-complement value of the big-endian 16-bit integer at `i`.
pub open spec fn be_i16_at(s: Seq<u8>, i: int) -> int
    recommends
        0 <= i,
        i + 2 <= s.len(),
{
    if be_u16_at(s, i) < 32768 {
        be_u16_at(s, i)
    } else {
        be_u16_at(s, i) - 65536
    }
}

/// Reads the big-endian 16-bit integer at `offset`.
pub fn read_u16_at(data: &[u8], offset: usize) -> (r: u16)
    requires
        offset + 2 <= data@.len(),
    ensures
        r as int == be_u16_at(data@, offset as int),
{
    (data[offset] as u16) * 256 + (data[offset + 1] as u16)
}

/// Reads the big-endian two's-complement 16-bit integer at `offset`.
pub fn read_i16_at(data: &[u8], offset: usize) -> (r: i16)
    requires
        offset + 2 <= data@.len(),
    ensures
        r as int == be_i16_at(data@, offset as int),
{
    let v: u16 = read_u16_at(data, offset);
    if v < 32768 {
        v as i16
    } else {
        -1i16 - ((65535u16 - v) as i16)
    }
}

/// Reads the big-endian 32-bit integer at `offset`.
pub fn read_u32_at(data: &[u8], offset: usize) -> (r: u32)
    requires
        offset + 4 <= data@.len(),
    ensures
        r as int == be_u32_at(data@, offset as int),
{
    (data[offset] as u32) * 0x1000000 + (data[offset + 1] as u32) * 0x10000 + (data[offset
        + 2] as u32) * 0x100 + (data[offset + 3] as u32)
}

/// The two's-complement value of the big-endian 32-bit integer at `i`.
pub open spec fn be_i32_at(s: Seq<u8>, i: int) -> int
    recommends
        0 <= i,
        i + 4 <= s.len(),
{
    if be_u32_at(s, i) < 0x80000000 {
        be_u32_at(s, i)
    } else {
        be_u32_at(s, i) - 0x100000000
    }
}

/// The value of the big-endian integer of `len` bytes at `pos`.
pub open spec fn be_value_at(s: Seq<u8>, pos: int, len: int) -> int
    decreases len,
{
    if len <= 0 {
        0
    } else {
        be_value_at(s, pos, len - 1) * 256 + (s[pos + len - 1] as int)
    }
}

/// Two to the power `e`.
pub open spec fn spec_pow2(e: int) -> int
    decreases e,
{
    if e <= 0 {
        1
    } else {
        2 * spec_pow2(e - 1)
    }
}

/// Two to the power `e`, for small exponents.
pub fn pow2_u32(e: u16) -> (r: u32)
    requires
        e <= 16,
    ensures
        r as int == spec_pow2(e as int),
        1 <= r <= 0x10000,
{
    proof {
        lemma_pow2_pos(16);
    }
    let mut r: u32 = 1;
    let mut i: u16 = 0;
    while i < e
        invariant
            i <= e <= 16,
            r as int == spec_pow2(i as int),
            1 <= r as int <= spec_pow2(16),
        decreases e - i,
    {
        proof {
            assert(spec_pow2(16) == 0x10000) by {
                reveal_with_fuel(spec_pow2, 17);
            }
            assert(spec_pow2(i + 1) == 2 * spec_pow2(i as int));
            lemma_pow2_increases(i as int + 1, 16);
        }
        r = r * 2;
        i = i + 1;
    }
    proof {
        assert(spec_pow2(16) == 0x10000) by {
            reveal_with_fuel(spec_pow2, 17);
        }
    }
    r
}

/// Every power of two is positive.
proof fn lemma_pow2_pos(e: int)
    ensures
        spec_pow2(e) >= 1,
    decreases e,
{
    if e > 0 {
        lemma_pow2_pos(e - 1);
    }
}

/// A larger exponent gives a larger power.
proof fn lemma_pow2_increases(a: int, b: int)
    requires
        0 <= a <= b,
    ensures
        spec_pow2(a) <= spec_pow2(b),
    decreases b,
{
    if a < b {
        lemma_pow2_increases(a, b - 1);
        lemma_pow2_pos(b - 1);
    }
}

/// Reads the big-endian two's-complement 32-bit integer at `offset`.
pub fn read_i32_at(data: &[u8], offset: usize) -> (r: i32)
    requires
        offset + 4 <= data@.len(),
    ensures
        r as int == be_i32_at(data@, offset as int),
{
    let v: u32 = read_u32_at(data, offset);
    if v < 0x80000000 {
        v as i32
    } else {
        -1i32 - ((0xFFFFFFFFu32 - v) as i32)
    }
}

/// A cursor over a byte slice.
///
/// `offset` may run past the end of `data`; every read checks that the
/// requested bytes lie inside `data` and fails otherwise.
#[derive(Clone, Copy)]
pub struct Stream<'a> {
    pub data: &'a [u8],
    pub offset: usize,
}

impl<'a> Stream<'a> {
    pub fn new(data: &'a [u8]) -> (r: Self)
        ensures
            r.data@ == data@,
            r.offset == 0,
    {
        Stream { data, offset: 0 }
    }

    /// A cursor positioned at `offset`, which may lie past the end.
    pub fn new_at(data: &'a [u8], offset: usize) -> (r: Self)
        ensures
            r.data@ == data@,
            r.offset == offset,
    {
        Stream { data, offset }
    }

    pub fn offset(&self) -> (r: usize)
        ensures
            r == self.offset,
    {
        self.offset
    }

    pub fn at_end(&self) -> (r: bool)
        ensures
            r == (self.offset >= self.data@.len()),
    {
        self.offset >= self.data.len()
    }

    /// Moves the cursor to the end, so that every later read fails.
    pub fn jump_to_end(&mut self)
        ensures
            final(self).data@ == old(self).data@,
            final(self).offset == old(self).data@.len(),
    {
        self.offset = self.data.len();
    }

    /// Moves the cursor forward by `n` bytes, saturating at `usize::MAX`.
    pub fn advance(&mut self, n: usize)
        ensures
            final(self).data@ == old(self).data@,
            final(self).offset == if old(self).offset + n <= usize::MAX {
                old(self).offset + n
            } else {
                usize::MAX as int
            },
    {
        match self.offset.checked_add(n) {
            Some(o) => {
                self.offset = o;
            },
            None => {
                self.offset = usize::MAX;
            },
        }
    }

    /// The bytes from the cursor to the end of the slice.
    pub fn tail(&self) -> (r: Option<&'a [u8]>)
        ensures
            match r {
                Some(t) => self.offset <= self.data@.len() && t@ == self.data@.subrange(
                    self.offset as int,
                    self.data@.len() as int,
                ),
                None => self.offset > self.data@.len(),
            },
    {
        if self.offset <= self.data.len() {
            Some(&self.data[self.offset..self.data.len()])
        } else {
            None
        }
    }

    pub fn read_u8(&mut self) -> (r: Option<u8>)
        ensures
            final(self).data@ == old(self).data@,
            match r {
                Some(v) => old(self).offset + 1 <= old(self).data@.len() && v == old(
                    self,
                ).data@[old(self).offset as int] && final(self).offset == old(self).offset + 1,
                None => old(self).offset + 1 > old(self).data@.len() && *final(self) == *old(self),
            },
    {
        if self.offset < self.data.len() {
            let v: u8 = self.data[self.offset];
            self.offset = self.offset + 1;
            Some(v)
        } else {
            None
        }
    }

    pub fn read_i8(&mut self) -> (r: Option<i8>)
        ensures
            final(self).data@ == old(self).data@,
            match r {
                Some(v) => old(self).offset + 1 <= old(self).data@.len() && v as int == be_i8_at(
                    old(self).data@,
                    old(self).offset as int,
                ) && final(self).offset == old(self).offset + 1,
                None => old(self).offset + 1 > old(self).data@.len() && *final(self) == *old(self),
            },
    {
        match self.read_u8() {
            Some(b) => {
                if b < 128 {
                    Some(b as i8)
                } else {
                    Some(-1i8 - ((255u8 - b) as i8))
                }
            },
            None => None,
        }
    }

    pub fn read_u16(&mut self) -> (r: Option<u16>)
        ensures
            final(self).data@ == old(self).data@,
            match r {
                Some(v) => old(self).offset + 2 <= old(self).data@.len() && v as int == be_u16_at(
                    old(self).data@,
                    old(self).offset as int,
                ) && final(self).offset == old(self).offset + 2,
                None => old(self).offset + 2 > old(self).data@.len() && *final(self) == *old(self),
            },
    {
        if self.offset < self.data.len() && self.data.len() - self.offset >= 2 {
            let b0: u8 = self.data[self.offset];
            let b1: u8 = self.data[self.offset + 1];
            self.offset = self.offset + 2;
            Some((b0 as u16) * 256 + (b1 as u16))
        } else {
            None
        }
    }

    pub fn read_i16(&mut self) -> (r: Option<i16>)
        ensures
            final(self).data@ == old(self).data@,
            match r {
                Some(v) => old(self).offset + 2 <= old(self).data@.len() && v as int == be_i16_at(
                    old(self).data@,
                    old(self).offset as int,
                ) && final(self).offset == old(self).offset + 2,
                None => old(self).offset + 2 > old(self).data@.len() && *final(self) == *old(self),
            },
    {
        match self.read_u16() {
            Some(v) => {
                if v < 32768 {
                    Some(v as i16)
                } else {
                    Some(-1i16 - ((65535u16 - v) as i16))
                }
            },
            None => None,
        }
    }

    pub fn read_u32(&mut self) -> (r: Option<u32>)
        ensures
            final(self).data@ == old(self).data@,
            match r {
                Some(v) => old(self).offset + 4 <= old(self).data@.len() && v as int == be_u32_at(
                    old(self).data@,
                    old(self).offset as int,
                ) && final(self).offset == old(self).offset + 4,
                None => old(self).offset + 4 > old(self).data@.len() && *final(self) == *old(self),
            },
    {
        if self.offset < self.data.len() && self.data.len() - self.offset >= 4 {
            let b0: u8 = self.data[self.offset];
            let b1: u8 = self.data[self.offset + 1];
            let b2: u8 = self.data[self.offset + 2];
            let b3: u8 = self.data[self.offset + 3];
            self.offset = self.offset + 4;
            Some(
                (b0 as u32) * 0x1000000 + (b1 as u32) * 0x10000 + (b2 as u32) * 0x100 + (b3 as u32),
            )
        } else {
            None
        }
    }

    /// Reads `n` bytes and returns them as a sub-slice.
    pub fn read_bytes(&mut self, n: usize) -> (r: Option<&'a [u8]>)
        ensures
            final(self).data@ == old(self).data@,
            match r {
                Some(b) => old(self).offset + n <= old(self).data@.len() && b@ == old(
                    self,
                ).data@.subrange(
                    old(self).offset as int,
                    old(self).offset + n,
                ) && final(self).offset == old(self).offset + n,
                None => old(self).offset + n > old(self).data@.len() && *final(self) == *old(self),
            },
    {
        let d: &'a [u8] = self.data;
        let len: usize = d.len();
        match self.offset.checked_add(n) {
            Some(end) => {
                if end <= len {
                    let b: &'a [u8] = &d[self.offset..end];
                    self.offset = end;
                    Some(b)
                } else {
                    None
                }
            },
            None => None,
        }
    }

    /// Reads a 16-bit record count and then that many records.
    pub fn read_count_array16<T: FromData>(&mut self) -> (r: Option<LazyArray16<'a, T>>)
        ensures
            final(self).data@ == old(self).data@,
            match r {
                Some(a) => {
                    &&& a.wf()
                    &&& a.count as int == be_u16_at(old(self).data@, old(self).offset as int)
                    &&& final(self).offset == old(self).offset + 2 + a.count * T::spec_size()
                    &&& final(self).offset <= old(self).data@.len()
                    &&& a.data@ == old(self).data@.subrange(
                        old(self).offset + 2,
                        old(self).offset + 2 + a.count * T::spec_size(),
                    )
                },
                None => old(self).offset + 2 + T::spec_size() * be_u16_at(
                    old(self).data@,
                    old(self).offset as int,
                ) > old(self).data@.len(),
            },
    {
        let stride: usize = T::size();
        proof {
            let c = be_u16_at(self.data@, self.offset as int);
            assert(stride * c >= 0 && stride * c <= 64 * 0xFFFF) by (nonlinear_arith)
                requires
                    1 <= stride <= 64,
                    0 <= c <= 0xFFFF,
            ;
        }
        let _ = stride;
        match self.read_u16() {
            Some(count) => self.read_array16::<T>(count),
            None => None,
        }
    }

    /// Reads `count` records of a fixed-stride type as a lazy view.
    pub fn read_array16<T: FromData>(&mut self, count: u16) -> (r: Option<LazyArray16<'a, T>>)
        ensures
            final(self).data@ == old(self).data@,
            match r {
                Some(a) => {
                    &&& a.wf()
                    &&& a.count == count
                    &&& count * T::spec_size() <= usize::MAX
                    &&& old(self).offset + count * T::spec_size() <= old(self).data@.len()
                    &&& a.data@ == old(self).data@.subrange(
                        old(self).offset as int,
                        old(self).offset + count * T::spec_size(),
                    )
                    &&& final(self).offset == old(self).offset + count * T::spec_size()
                },
                None => *final(self) == *old(self) && (count * T::spec_size() > usize::MAX || old(
                    self,
                ).offset + count * T::spec_size() > old(self).data@.len()),
            },
    {
        let size: usize = T::size();
        match (count as usize).checked_mul(size) {
            Some(total) => {
                match self.read_bytes(total) {
                    Some(data) => Some(LazyArray16 { data, count, phantom: PhantomData }),
                    None => None,
                }
            },
            None => None,
        }
    }
}

/// A record type with a fixed byte stride, materialized lazily from bytes.
pub trait FromData: Sized {
    /// The byte stride of one record.
    spec fn spec_size() -> int;

    /// The record that `data` (exactly one stride long) holds.
    spec fn spec_parse(data: Seq<u8>) -> Self;

    fn size() -> (r: usize)
        ensures
            r == Self::spec_size(),
            1 <= r <= 64,
    ;

    fn parse(data: &[u8]) -> (r: Self)
        requires
            data@.len() == Self::spec_size(),
        ensures
            r == Self::spec_parse(data@),
    ;
}

impl FromData for u8 {
    open spec fn spec_size() -> int {
        1
    }

    open spec fn spec_parse(data: Seq<u8>) -> Self {
        data[0]
    }

    fn size() -> usize {
        1
    }

    fn parse(data: &[u8]) -> Self {
        data[0]
    }
}

impl FromData for u16 {
    open spec fn spec_size() -> int {
        2
    }

    open spec fn spec_parse(data: Seq<u8>) -> Self {
        be_u16_at(data, 0) as u16
    }

    fn size() -> usize {
        2
    }

    fn parse(data: &[u8]) -> Self {
        (data[0] as u16) * 256 + (data[1] as u16)
    }
}

impl FromData for i16 {
    open spec fn spec_size() -> int {
        2
    }

    open spec fn spec_parse(data: Seq<u8>) -> Self {
        be_i16_at(data, 0) as i16
    }

    fn size() -> usize {
        2
    }

    fn parse(data: &[u8]) -> Self {
        read_i16_at(data, 0)
    }
}

impl FromData for u32 {
    open spec fn spec_size() -> int {
        4
    }

    open spec fn spec_parse(data: Seq<u8>) -> Self {
        be_u32_at(data, 0) as u32
    }

    fn size() -> usize {
        4
    }

    fn parse(data: &[u8]) -> Self {
        (data[0] as u32) * 0x1000000 + (data[1] as u32) * 0x10000 + (data[2] as u32) * 0x100 + (
        data[3] as u32)
    }
}

/// A view `(bytes, record count)` over an array of fixed-stride records.
///
/// Elements are materialized on access; nothing is copied up front.
pub struct LazyArray16<'a, T: FromData> {
    pub data: &'a [u8],
    pub count: u16,
    pub phantom: PhantomData<T>,
}

impl<'a, T: FromData> Clone for LazyArray16<'a, T> {
    fn clone(&self) -> (r: Self)
        ensures
            r == *self,
    {
        LazyArray16 { data: self.data, count: self.count, phantom: PhantomData }
    }
}

impl<'a, T: FromData> Copy for LazyArray16<'a, T> {

}

impl<'a, T: FromData> LazyArray16<'a, T> {
    /// The records all lie within the view's bytes.
    pub open spec fn wf(&self) -> bool {
        self.count * T::spec_size() <= self.data@.len()
    }

    /// The record at `index`.
    pub open spec fn spec_at(&self, index: int) -> T {
        T::spec_parse(
            self.data@.subrange(index * T::spec_size(), index * T::spec_size() + T::spec_size()),
        )
    }

    pub fn len(&self) -> (r: u16)
        ensures
            r == self.count,
    {
        self.count
    }

    pub fn get(&self, index: u16) -> (r: Option<T>)
        requires
            self.wf(),
        ensures
            match r {
                Some(v) => index < self.count && v == self.spec_at(index as int),
                None => index >= self.count,
            },
    {
        if index < self.count {
            let size: usize = T::size();
            let len: usize = self.data.len();
            proof {
                lemma_mul_inequality(index as int + 1, self.count as int, T::spec_size());
                lemma_mul_inequality(0, index as int, T::spec_size());
                assert((index as int + 1) * T::spec_size() == index as int * T::spec_size()
                    + T::spec_size()) by (nonlinear_arith);
            }
            let start: usize = (index as usize) * size;
            Some(T::parse(&self.data[start..start + size]))
        } else {
            None
        }
    }

    pub fn last(&self) -> (r: Option<T>)
        requires
            self.wf(),
        ensures
            match r {
                Some(v) => self.count > 0 && v == self.spec_at(self.count - 1),
                None => self.count == 0,
            },
    {
        if self.count > 0 {
            self.get(self.count - 1)
        } else {
            None
        }
    }
}

} // verus!
