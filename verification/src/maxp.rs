//! The maximum profile table.
//!
//! One of the three mandatory tables; the library only consumes the glyph
//! count, which must be non-zero.

use crate::parser::{be_u16_at, be_u32_at, Stream};
use vstd::prelude::*;

verus! {

/// Extracts the number of glyphs.
///
/// Fails when the table is shorter than its header, when the version is
/// neither 0.5 nor 1.0, or when the glyph count is zero.
pub fn parse(data: &[u8]) -> (r: Option<u16>)
    ensures
        match r {
            Some(n) => {
                &&& data@.len() >= 6
                &&& (be_u32_at(data@, 0) == 0x00005000 || be_u32_at(data@, 0) == 0x00010000)
                &&& n as int == be_u16_at(data@, 4)
                &&& n > 0
            },
            None => data@.len() < 6 || (be_u32_at(data@, 0) != 0x00005000 && be_u32_at(data@, 0)
                != 0x00010000) || be_u16_at(data@, 4) == 0,
        },
{
    let mut s = Stream::new(data);
    let version: u32 = match s.read_u32() {
        Some(v) => v,
        None => {
            return None;
        },
    };
    if version != 0x00005000 && version != 0x00010000 {
        return None;
    }
    let number_of_glyphs: u16 = match s.read_u16() {
        Some(v) => v,
        None => {
            return None;
        },
    };
    if number_of_glyphs == 0 {
        return None;
    }
    Some(number_of_glyphs)
}

} // verus!
