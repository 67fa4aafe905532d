//! A high-level, safe, zero-copy TrueType font parser.
//!
//! Given an immutable byte buffer holding a font file — or one entry of a
//! font collection — the library exposes a query API: enumerate tables, map
//! code points to glyph identifiers, read metrics, and stream a glyph's
//! vector outline into a caller-supplied receiver. Malformed input is never
//! an error condition: every failure maps to `None` at the query boundary,
//! and no byte sequence can make a query panic or read outside the buffer.
//!
//! Values the format defines as fractional (transform entries, variation
//! deltas, outline coordinates after transformation) are carried as signed
//! 16.16 fixed-point integers.

pub mod avar;
pub mod cmap;
pub mod fvar;
pub mod gdef;
pub mod ggg;
pub mod gpos;
pub mod gsub;
pub mod glyf;
pub mod head;
pub mod hhea;
pub mod hmtx;
pub mod hvar;
pub mod kern;
pub mod loca;
pub mod maxp;
pub mod mvar;
pub mod os2;
pub mod parser;
pub mod post;
pub mod tables;
pub mod vorg;
pub mod var_store;

use crate::parser::{be_u16_at, be_u32_at, Stream};
use vstd::prelude::*;

verus! {

/// A type-safe wrapper for a glyph ID.
#[derive(Clone, Copy, PartialEq, Eq, Structural, PartialOrd, Ord, Debug, Hash)]
pub struct GlyphId(pub u16);

impl parser::FromData for GlyphId {
    open spec fn spec_size() -> int {
        2
    }

    open spec fn spec_parse(data: Seq<u8>) -> Self {
        GlyphId(be_u16_at(data, 0) as u16)
    }

    fn size() -> usize {
        2
    }

    fn parse(data: &[u8]) -> Self {
        GlyphId((data[0] as u16) * 256 + (data[1] as u16))
    }
}

/// A 4-byte tag, compared bitwise as a 32-bit integer.
#[derive(Clone, Copy, PartialEq, Eq, Structural, PartialOrd, Ord, Debug, Hash)]
pub struct Tag(pub u32);

/// The 32-bit value of four tag bytes.
pub open spec fn spec_tag_value(b0: u8, b1: u8, b2: u8, b3: u8) -> int {
    (b0 as int) * 0x1000000 + (b1 as int) * 0x10000 + (b2 as int) * 0x100 + (b3 as int)
}

/// The byte a short tag is padded with: a space for present positions,
/// zero for the empty input.
pub open spec fn spec_tag_pad(bytes: Seq<u8>, i: int) -> u8 {
    if bytes.len() == 0 {
        0
    } else if i < bytes.len() {
        bytes[i]
    } else {
        32
    }
}

/// ASCII case folding of one byte.
pub open spec fn spec_ascii_lower(b: u8) -> u8 {
    if 65 <= b <= 90 {
        (b + 32) as u8
    } else {
        b
    }
}

/// ASCII upper-casing of one byte.
pub open spec fn spec_ascii_upper(b: u8) -> u8 {
    if 97 <= b <= 122 {
        (b - 32) as u8
    } else {
        b
    }
}

impl Tag {
    /// The four bytes of the tag, most significant first.
    pub open spec fn spec_byte(&self, i: int) -> u8 {
        if i == 0 {
            (self.0 / 0x1000000 % 0x100) as u8
        } else if i == 1 {
            (self.0 / 0x10000 % 0x100) as u8
        } else if i == 2 {
            (self.0 / 0x100 % 0x100) as u8
        } else {
            (self.0 % 0x100) as u8
        }
    }

    /// Creates a `Tag` from bytes.
    pub fn from_bytes(bytes: &[u8; 4]) -> (r: Self)
        ensures
            r.0 == spec_tag_value(bytes@[0], bytes@[1], bytes@[2], bytes@[3]),
    {
        Tag(
            (bytes[0] as u32) * 0x1000000 + (bytes[1] as u32) * 0x10000 + (bytes[2] as u32) * 0x100
                + (bytes[3] as u32),
        )
    }

    /// Creates a `Tag` from bytes.
    ///
    /// In case of empty data will return `Tag` set to 0.
    ///
    /// When `bytes` are shorter than 4, will set missing bytes to ` `.
    ///
    /// Data after first 4 bytes is ignored.
    pub fn from_bytes_lossy(bytes: &[u8]) -> (r: Self)
        ensures
            r.0 == spec_tag_value(
                spec_tag_pad(bytes@, 0),
                spec_tag_pad(bytes@, 1),
                spec_tag_pad(bytes@, 2),
                spec_tag_pad(bytes@, 3),
            ),
    {
        if bytes.len() == 0 {
            return Tag(0);
        }
        let b0: u8 = if bytes.len() > 0 {
            bytes[0]
        } else {
            32
        };
        let b1: u8 = if bytes.len() > 1 {
            bytes[1]
        } else {
            32
        };
        let b2: u8 = if bytes.len() > 2 {
            bytes[2]
        } else {
            32
        };
        let b3: u8 = if bytes.len() > 3 {
            bytes[3]
        } else {
            32
        };
        Tag((b0 as u32) * 0x1000000 + (b1 as u32) * 0x10000 + (b2 as u32) * 0x100 + (b3 as u32))
    }

    /// Returns tag as 4-element byte array.
    pub fn to_bytes(self) -> (r: [u8; 4])
        ensures
            r@[0] == self.spec_byte(0),
            r@[1] == self.spec_byte(1),
            r@[2] == self.spec_byte(2),
            r@[3] == self.spec_byte(3),
            spec_tag_value(r@[0], r@[1], r@[2], r@[3]) == self.0,
    {
        proof {
            let x: u32 = self.0;
            assert((x / 0x1000000 % 0x100) * 0x1000000 + (x / 0x10000 % 0x100) * 0x10000 + (x
                / 0x100 % 0x100) * 0x100 + (x % 0x100) == x) by (bit_vector);
        }
        [
            (self.0 / 0x1000000 % 0x100) as u8,
            (self.0 / 0x10000 % 0x100) as u8,
            (self.0 / 0x100 % 0x100) as u8,
            (self.0 % 0x100) as u8,
        ]
    }

    /// Returns tag as 4-element character array.
    pub fn to_chars(self) -> (r: [char; 4])
        ensures
            r@[0] == self.spec_byte(0) as char,
            r@[1] == self.spec_byte(1) as char,
            r@[2] == self.spec_byte(2) as char,
            r@[3] == self.spec_byte(3) as char,
    {
        let b = self.to_bytes();
        [b[0] as char, b[1] as char, b[2] as char, b[3] as char]
    }

    /// Returns tag for a default script.
    pub fn default_script() -> (r: Self)
        ensures
            r.0 == 0x44464C54,
    {
        // The four bytes read `DFLT`.
        Tag(0x44464C54)
    }

    /// Returns tag for a default language.
    pub fn default_language() -> (r: Self)
        ensures
            r.0 == 0x64666C74,
    {
        // The four bytes read `dflt`.
        Tag(0x64666C74)
    }

    /// Checks if tag is null / `[0, 0, 0, 0]`.
    pub fn is_null(&self) -> (r: bool)
        ensures
            r == (self.0 == 0),
    {
        self.0 == 0
    }

    /// Returns tag value as `u32` number.
    pub fn as_u32(&self) -> (r: u32)
        ensures
            r == self.0,
    {
        self.0
    }

    /// Converts tag to lowercase.
    pub fn to_lowercase(&self) -> (r: Self)
        ensures
            r.0 == spec_tag_value(
                spec_ascii_lower(self.spec_byte(0)),
                spec_ascii_lower(self.spec_byte(1)),
                spec_ascii_lower(self.spec_byte(2)),
                spec_ascii_lower(self.spec_byte(3)),
            ),
    {
        let b = self.to_bytes();
        Tag(
            (ascii_lower(b[0]) as u32) * 0x1000000 + (ascii_lower(b[1]) as u32) * 0x10000 + (
            ascii_lower(b[2]) as u32) * 0x100 + (ascii_lower(b[3]) as u32),
        )
    }

    /// Converts tag to uppercase.
    pub fn to_uppercase(&self) -> (r: Self)
        ensures
            r.0 == spec_tag_value(
                spec_ascii_upper(self.spec_byte(0)),
                spec_ascii_upper(self.spec_byte(1)),
                spec_ascii_upper(self.spec_byte(2)),
                spec_ascii_upper(self.spec_byte(3)),
            ),
    {
        let b = self.to_bytes();
        Tag(
            (ascii_upper(b[0]) as u32) * 0x1000000 + (ascii_upper(b[1]) as u32) * 0x10000 + (
            ascii_upper(b[2]) as u32) * 0x100 + (ascii_upper(b[3]) as u32),
        )
    }
}

/// ASCII case folding of one byte.
fn ascii_lower(b: u8) -> (r: u8)
    ensures
        r == spec_ascii_lower(b),
{
    if 65 <= b && b <= 90 {
        b + 32
    } else {
        b
    }
}

/// ASCII upper-casing of one byte.
fn ascii_upper(b: u8) -> (r: u8)
    ensures
        r == spec_ascii_upper(b),
{
    if 97 <= b && b <= 122 {
        b - 32
    } else {
        b
    }
}

impl parser::FromData for Tag {
    open spec fn spec_size() -> int {
        4
    }

    open spec fn spec_parse(data: Seq<u8>) -> Self {
        Tag(be_u32_at(data, 0) as u32)
    }

    fn size() -> usize {
        4
    }

    fn parse(data: &[u8]) -> Self {
        Tag(
            (data[0] as u32) * 0x1000000 + (data[1] as u32) * 0x10000 + (data[2] as u32) * 0x100 + (
            data[3] as u32),
        )
    }
}

/// A line metrics.
///
/// Used for underline and strikeout.
#[derive(Clone, Copy, PartialEq, Eq, Structural, Debug)]
pub struct LineMetrics {
    /// Line position.
    pub position: i16,
    /// Line thickness.
    pub thickness: i16,
}

/// A rectangle, in font design units.
#[derive(Clone, Copy, PartialEq, Eq, Structural, Debug)]
pub struct Rect {
    pub x_min: i16,
    pub y_min: i16,
    pub x_max: i16,
    pub y_max: i16,
}

/// A variation coordinate in a normalized coordinate system.
///
/// A number in the closed range [-16384, +16384], stored as f2.14,
/// where 0 is the axis default and the ends are the axis endpoints.
#[derive(Clone, Copy, PartialEq, Eq, Structural, Debug)]
pub struct NormalizedCoord(pub i16);

/// Clamping of `val` into `[min, max]`.
pub open spec fn spec_i16_bound(min: i16, val: i16, max: i16) -> i16 {
    if val > max {
        max
    } else if val < min {
        min
    } else {
        val
    }
}

/// Clamps `val` into `[min, max]`.
pub fn i16_bound(min: i16, val: i16, max: i16) -> (r: i16)
    ensures
        r == spec_i16_bound(min, val, max),
{
    if val > max {
        max
    } else if val < min {
        min
    } else {
        val
    }
}

impl NormalizedCoord {
    /// Creates a new coordinate, clamped to the -16384..16384 range.
    pub fn new(n: i16) -> (r: Self)
        ensures
            r.0 == spec_i16_bound(-16384i16, n, 16384i16),
            -16384 <= r.0 <= 16384,
    {
        NormalizedCoord(i16_bound(-16384, n, 16384))
    }

    /// Returns the coordinate value as f2.14.
    pub fn get(self) -> (r: i16)
        ensures
            r == self.0,
    {
        self.0
    }
}

/// A trait for glyph outline construction.
///
/// Coordinates are signed 16.16 fixed-point values in the font's design
/// units.
pub trait OutlineBuilder {
    /// Appends a MoveTo segment: the start of a contour.
    fn move_to(&mut self, x: i64, y: i64);

    /// Appends a LineTo segment.
    fn line_to(&mut self, x: i64, y: i64);

    /// Appends a QuadTo segment.
    fn quad_to(&mut self, x1: i64, y1: i64, x: i64, y: i64);

    /// Appends a CurveTo segment.
    fn curve_to(&mut self, x1: i64, y1: i64, x2: i64, y2: i64, x: i64, y: i64);

    /// Appends a ClosePath segment: the end of a contour.
    fn close(&mut self);
}

/// A receiver that discards every segment; used to compute a tight
/// bounding box without keeping the outline.
pub struct DummyOutline;

impl OutlineBuilder for DummyOutline {
    fn move_to(&mut self, x: i64, y: i64) {
    }

    fn line_to(&mut self, x: i64, y: i64) {
    }

    fn quad_to(&mut self, x1: i64, y1: i64, x: i64, y: i64) {
    }

    fn curve_to(&mut self, x1: i64, y1: i64, x2: i64, y2: i64, x: i64, y: i64) {
    }

    fn close(&mut self) {
    }
}

/// The format of the index-to-location table.
#[derive(Clone, Copy, PartialEq, Eq, Structural, Debug)]
pub enum IndexToLocationFormat {
    Short,
    Long,
}

/// A table name.
#[derive(Clone, Copy, PartialEq, Eq, Structural, Debug)]
pub enum TableName {
    AxisVariations,
    CharacterToGlyphIndexMapping,
    CompactFontFormat,
    CompactFontFormat2,
    FontVariations,
    GlyphData,
    GlyphDefinition,
    GlyphPositioning,
    GlyphSubstitution,
    GlyphVariations,
    Header,
    HorizontalHeader,
    HorizontalMetrics,
    HorizontalMetricsVariations,
    IndexToLocation,
    Kerning,
    MaximumProfile,
    MetricsVariations,
    Naming,
    PostScript,
    VerticalHeader,
    VerticalMetrics,
    VerticalMetricsVariations,
    VerticalOrigin,
    WindowsMetrics,
}

/// A font variation value: an axis tag and a value on that axis in
/// design-space units, as 16.16 fixed point.
#[derive(Clone, Copy, PartialEq, Eq, Structural, Debug)]
pub struct Variation {
    /// An axis tag name.
    pub axis: Tag,
    /// An axis value, 16.16 fixed point.
    pub value: i32,
}


/// One entry of the table directory: a tag and the table's byte range.
#[derive(Clone, Copy, PartialEq, Eq, Structural, Debug)]
pub struct TableRecord {
    pub tag: u32,
    pub offset: u32,
    pub length: u32,
}

impl parser::FromData for TableRecord {
    open spec fn spec_size() -> int {
        16
    }

    open spec fn spec_parse(data: Seq<u8>) -> Self {
        TableRecord {
            tag: be_u32_at(data, 0) as u32,
            offset: be_u32_at(data, 8) as u32,
            length: be_u32_at(data, 12) as u32,
        }
    }

    fn size() -> usize {
        16
    }

    fn parse(data: &[u8]) -> Self {
        TableRecord {
            tag: parser::read_u32_at(data, 0),
            offset: parser::read_u32_at(data, 8),
            length: parser::read_u32_at(data, 12),
        }
    }
}

/// The table tags the library recognizes, as 32-bit values of their four
/// ASCII bytes.
pub const TAG_AVAR: u32 = 0x61766172;

pub const TAG_CMAP: u32 = 0x636D6170;

pub const TAG_FVAR: u32 = 0x66766172;

pub const TAG_GDEF: u32 = 0x47444546;

pub const TAG_GLYF: u32 = 0x676C7966;

pub const TAG_GPOS: u32 = 0x47504F53;

pub const TAG_GSUB: u32 = 0x47535542;

pub const TAG_HEAD: u32 = 0x68656164;

pub const TAG_HHEA: u32 = 0x68686561;

pub const TAG_HMTX: u32 = 0x686D7478;

pub const TAG_HVAR: u32 = 0x48564152;

pub const TAG_KERN: u32 = 0x6B65726E;

pub const TAG_LOCA: u32 = 0x6C6F6361;

pub const TAG_MAXP: u32 = 0x6D617870;

pub const TAG_MVAR: u32 = 0x4D564152;

pub const TAG_OS_2: u32 = 0x4F532F32;

pub const TAG_POST: u32 = 0x706F7374;

pub const TAG_VHEA: u32 = 0x76686561;

pub const TAG_VORG: u32 = 0x564F5247;

pub const TAG_VMTX: u32 = 0x766D7478;

pub const TAG_VVAR: u32 = 0x56564152;

/// The collection magic, the four bytes `ttcf`.
pub const TTC_MAGIC: u32 = 0x74746366;

/// The TrueType-outline font magic.
pub const MAGIC_TRUE_TYPE: u32 = 0x00010000;

/// The compact-outline font magic, the four bytes `OTTO`.
pub const MAGIC_OPEN_TYPE: u32 = 0x4F54544F;

/// The capacity of the normalized axis coordinate vector.
pub const MAX_VAR_COORDS: usize = 32;

/// The normalized variation coordinates of a font handle, one f2.14 value
/// per axis, up to the capacity.
#[derive(Clone)]
pub struct VarCoords {
    pub data: Vec<i16>,
}

/// Returns the number of fonts stored in a TrueType font collection.
///
/// Returns `None` if the data is not a font collection.
pub fn fonts_in_collection(data: &[u8]) -> (r: Option<u32>)
    ensures
        match r {
            Some(n) => data@.len() >= 12 && be_u32_at(data@, 0) == TTC_MAGIC && n as int
                == be_u32_at(data@, 8),
            None => data@.len() < 12 || be_u32_at(data@, 0) != TTC_MAGIC,
        },
{
    if data.len() < 12 {
        return None;
    }
    if parser::read_u32_at(data, 0) != TTC_MAGIC {
        return None;
    }
    Some(parser::read_u32_at(data, 8))
}


/// The byte range the table directory assigns to `tag` after its first
/// `i` records: the last record carrying the tag whose range lies inside
/// the file wins, since later directory entries override earlier ones.
/// Offsets are relative to the start of the whole file.
pub open spec fn spec_table_range(data: Seq<u8>, td: Seq<u8>, tag: int, i: int) -> Option<
    (int, int),
>
    decreases i,
{
    if i <= 0 {
        None
    } else {
        let off = be_u32_at(td, 12 + 16 * (i - 1) + 8);
        let len = be_u32_at(td, 12 + 16 * (i - 1) + 12);
        if be_u32_at(td, 12 + 16 * (i - 1)) == tag && off + len <= data.len() {
            Some((off, off + len))
        } else {
            spec_table_range(data, td, tag, i - 1)
        }
    }
}

/// The directory yields a font header table of at least its required
/// length.
pub open spec fn spec_head_ok(data: Seq<u8>, td: Seq<u8>, count: int) -> bool {
    match spec_table_range(data, td, TAG_HEAD as int, count) {
        Some(range) => range.1 - range.0 >= head::TABLE_SIZE,
        None => false,
    }
}

/// The directory yields a horizontal header table of at least its
/// required length.
pub open spec fn spec_hhea_ok(data: Seq<u8>, td: Seq<u8>, count: int) -> bool {
    match spec_table_range(data, td, TAG_HHEA as int, count) {
        Some(range) => range.1 - range.0 >= hhea::TABLE_SIZE,
        None => false,
    }
}

/// The glyph count the directory's maximum profile table yields, absent
/// when the table is missing, short, of unknown version, or empty.
pub open spec fn spec_maxp_glyphs(data: Seq<u8>, td: Seq<u8>, count: int) -> Option<int> {
    match spec_table_range(data, td, TAG_MAXP as int, count) {
        Some(range) => {
            if range.1 - range.0 >= 6 && (be_u32_at(data, range.0) == 0x00005000 || be_u32_at(
                data,
                range.0,
            ) == 0x00010000) && be_u16_at(data, range.0 + 4) > 0 {
                Some(be_u16_at(data, range.0 + 4))
            } else {
                None
            }
        },
        None => None,
    }
}

/// The sub-buffer holding the selected font's offset table: the file
/// itself for a plain font; for a collection, the tail at the selected
/// 32-bit offset, absent when the index or the offset runs out of the
/// buffer.
pub open spec fn spec_font_table_data(data: Seq<u8>, index: int) -> Option<Seq<u8>> {
    if data.len() >= 12 && be_u32_at(data, 0) == TTC_MAGIC {
        if index < be_u32_at(data, 8) && 16 + 4 * index <= data.len() && be_u32_at(
            data,
            12 + 4 * index,
        ) <= data.len() {
            Some(data.subrange(be_u32_at(data, 12 + 4 * index), data.len() as int))
        } else {
            None
        }
    } else {
        Some(data)
    }
}

/// Construction succeeds exactly here: the buffer holds at least an
/// offset table, a collection index resolves to an in-buffer font, the
/// magic is a known one, the whole record array fits, and the directory
/// yields valid font header, horizontal header and maximum profile
/// tables.
pub open spec fn spec_can_construct(data: Seq<u8>, index: int) -> bool {
    &&& data.len() >= 12
    &&& spec_font_table_data(data, index) is Some
    &&& {
        let td = spec_font_table_data(data, index).unwrap();
        &&& (be_u32_at(td, 0) == MAGIC_TRUE_TYPE || be_u32_at(td, 0) == MAGIC_OPEN_TYPE)
        &&& 12 + 16 * be_u16_at(td, 4) <= td.len()
        &&& spec_head_ok(data, td, be_u16_at(td, 4))
        &&& spec_hhea_ok(data, td, be_u16_at(td, 4))
        &&& spec_maxp_glyphs(data, td, be_u16_at(td, 4)) is Some
    }
}

/// A range the directory assigns always lies inside the file.
proof fn lemma_table_range_bounds(data: Seq<u8>, td: Seq<u8>, tag: int, i: int)
    ensures
        match spec_table_range(data, td, tag, i) {
            Some(rg) => 0 <= rg.0 <= rg.1 <= data.len(),
            None => true,
        },
    decreases i,
{
    if i > 0 {
        lemma_table_range_bounds(data, td, tag, i - 1);
    }
}

/// The three big-endian fields of a directory record read the same from
/// the record's own sixteen bytes and from the directory.
proof fn lemma_record_fields(td: Seq<u8>, sub: Seq<u8>, base: int)
    requires
        0 <= base,
        base + 16 <= td.len(),
        sub == td.subrange(base, base + 16),
    ensures
        be_u32_at(sub, 0) == be_u32_at(td, base),
        be_u32_at(sub, 8) == be_u32_at(td, base + 8),
        be_u32_at(sub, 12) == be_u32_at(td, base + 12),
{
    assert(sub[0] == td[base]);
    assert(sub[1] == td[base + 1]);
    assert(sub[2] == td[base + 2]);
    assert(sub[3] == td[base + 3]);
    assert(sub[8] == td[base + 8]);
    assert(sub[9] == td[base + 9]);
    assert(sub[10] == td[base + 10]);
    assert(sub[11] == td[base + 11]);
    assert(sub[12] == td[base + 12]);
    assert(sub[13] == td[base + 13]);
    assert(sub[14] == td[base + 14]);
    assert(sub[15] == td[base + 15]);
}

/// A table's leading fields read the same from its own slice and from
/// the whole file.
proof fn lemma_table_header_fields(data: Seq<u8>, sl: Seq<u8>, start: int, end: int)
    requires
        0 <= start,
        start + 6 <= end <= data.len(),
        sl == data.subrange(start, end),
    ensures
        be_u32_at(sl, 0) == be_u32_at(data, start),
        be_u16_at(sl, 4) == be_u16_at(data, start + 4),
{
    assert(sl[0] == data[start]);
    assert(sl[1] == data[start + 1]);
    assert(sl[2] == data[start + 2]);
    assert(sl[3] == data[start + 3]);
    assert(sl[4] == data[start + 4]);
    assert(sl[5] == data[start + 5]);
}


/// The table bytes that the directory's records assign to `tag`: the
/// last record with an in-file range wins, so the scan runs backward and
/// returns at the first hit.
fn locate_table<'a>(
    data: &'a [u8],
    tables: &parser::LazyArray16<TableRecord>,
    Ghost(td): Ghost<Seq<u8>>,
    tag: u32,
) -> (r: Option<&'a [u8]>)
    requires
        tables.wf(),
        12 + 16 * (tables.count as int) <= td.len(),
        tables.data@ == td.subrange(12, 12 + 16 * (tables.count as int)),
    ensures
        match r {
            Some(b) => {
                let rg = spec_table_range(data@, td, tag as int, tables.count as int);
                &&& rg is Some
                &&& b@ == data@.subrange(rg.unwrap().0, rg.unwrap().1)
            },
            None => spec_table_range(data@, td, tag as int, tables.count as int) is None,
        },
{
    let count: u16 = tables.len();
    let mut j: u16 = count;
    while j > 0
        invariant
            tables.wf(),
            count == tables.count,
            j <= count,
            12 + 16 * (count as int) <= td.len(),
            tables.data@ == td.subrange(12, 12 + 16 * (count as int)),
            spec_table_range(data@, td, tag as int, count as int) == spec_table_range(
                data@,
                td,
                tag as int,
                j as int,
            ),
        decreases j,
    {
        let idx: u16 = j - 1;
        let record = match tables.get(idx) {
            Some(rec) => rec,
            None => {
                return None;
            },
        };
        proof {
            assert(tables.data@.subrange(16 * (idx as int), 16 * (idx as int) + 16)
                =~= td.subrange(12 + 16 * (idx as int), 12 + 16 * (idx as int) + 16));
            lemma_record_fields(
                td,
                tables.data@.subrange(16 * (idx as int), 16 * (idx as int) + 16),
                12 + 16 * (idx as int),
            );
            assert(record.tag as int == be_u32_at(td, 12 + 16 * (idx as int)));
            assert(record.offset as int == be_u32_at(td, 12 + 16 * (idx as int) + 8));
            assert(record.length as int == be_u32_at(td, 12 + 16 * (idx as int) + 12));
        }
        let start: u64 = record.offset as u64;
        let end: u64 = start + record.length as u64;
        if record.tag == tag && end <= data.len() as u64 {
            return Some(&data[record.offset as usize..end as usize]);
        }
        j = idx;
    }
    None
}

/// A font data handle: borrowed views over each recognized table, the
/// cached glyph count, and the normalized axis coordinates — the handle's
/// only mutable state.
#[derive(Clone)]
pub struct Font<'a> {
    pub avar: Option<&'a [u8]>,
    pub cmap: Option<cmap::Table<'a>>,
    pub fvar: Option<fvar::Table<'a>>,
    pub gdef: Option<gdef::Table<'a>>,
    pub glyf: Option<&'a [u8]>,
    pub gpos: Option<ggg::GsubGposTable<'a>>,
    pub gsub: Option<ggg::GsubGposTable<'a>>,
    pub head: head::Table<'a>,
    pub hhea: hhea::Table<'a>,
    pub hmtx: Option<hmtx::Table<'a>>,
    pub hvar: Option<hvar::Table<'a>>,
    pub kern: Option<&'a [u8]>,
    pub loca: Option<loca::Table<'a>>,
    pub mvar: Option<mvar::Table<'a>>,
    pub os_2: Option<os2::Table<'a>>,
    pub post: Option<post::Table<'a>>,
    pub vhea: Option<hhea::Table<'a>>,
    pub vmtx: Option<hmtx::Table<'a>>,
    pub vorg: Option<vorg::Table<'a>>,
    pub vvar: Option<hvar::Table<'a>>,
    pub number_of_glyphs: u16,
    pub coordinates: VarCoords,
}

impl<'a> Font<'a> {
    /// The handle invariant: every mandatory table is present and long
    /// enough, every optional table parsed well-formed, the glyph count
    /// is non-zero, and the coordinate vector has one entry per axis up
    /// to the capacity.
    pub open spec fn wf(&self) -> bool {
        &&& self.head.wf()
        &&& self.hhea.wf()
        &&& self.number_of_glyphs >= 1
        &&& match self.cmap {
            Some(t) => t.wf(),
            None => true,
        }
        &&& match self.fvar {
            Some(t) => t.wf(),
            None => true,
        }
        &&& match self.gdef {
            Some(t) => t.wf(),
            None => true,
        }
        &&& match self.vorg {
            Some(t) => t.wf(),
            None => true,
        }
        &&& match self.gpos {
            Some(t) => t.wf(),
            None => true,
        }
        &&& match self.gsub {
            Some(t) => t.wf(),
            None => true,
        }
        &&& match self.hmtx {
            Some(t) => t.wf(),
            None => true,
        }
        &&& match self.hvar {
            Some(t) => t.wf(),
            None => true,
        }
        &&& match self.loca {
            Some(t) => t.wf(),
            None => true,
        }
        &&& match self.mvar {
            Some(t) => t.wf(),
            None => true,
        }
        &&& match self.os_2 {
            Some(t) => t.wf(),
            None => true,
        }
        &&& match self.post {
            Some(t) => t.wf(),
            None => true,
        }
        &&& match self.vhea {
            Some(t) => t.wf(),
            None => true,
        }
        &&& match self.vmtx {
            Some(t) => t.wf(),
            None => true,
        }
        &&& match self.vvar {
            Some(t) => t.wf(),
            None => true,
        }
        &&& self.coordinates.data@.len() <= MAX_VAR_COORDS
        &&& match self.fvar {
            Some(t) => self.coordinates.data@.len() == if t.axes.count <= MAX_VAR_COORDS {
                t.axes.count as int
            } else {
                MAX_VAR_COORDS as int
            },
            None => self.coordinates.data@.len() == 0,
        }
    }

    /// Creates a `Font` object from raw data.
    ///
    /// `index` selects a font inside a collection; for a plain font it
    /// is 0.
    ///
    /// The font header, horizontal header and maximum profile tables are
    /// required; an optional table with invalid data is skipped.
    #[verifier::rlimit(100)]
    pub fn from_data(data: &'a [u8], index: u32) -> (r: Option<Font<'a>>)
        ensures
            r is Some <==> spec_can_construct(data@, index as int),
            match r {
                Some(f) => {
                    let td = spec_font_table_data(data@, index as int).unwrap();
                    let count = be_u16_at(td, 4);
                    &&& f.wf()
                    &&& f.number_of_glyphs as int == spec_maxp_glyphs(data@, td, count).unwrap()
                    &&& f.head.data@ == data@.subrange(
                        spec_table_range(data@, td, TAG_HEAD as int, count).unwrap().0,
                        spec_table_range(data@, td, TAG_HEAD as int, count).unwrap().1,
                    )
                    &&& f.hhea.data@ == data@.subrange(
                        spec_table_range(data@, td, TAG_HHEA as int, count).unwrap().0,
                        spec_table_range(data@, td, TAG_HHEA as int, count).unwrap().1,
                    )
                },
                None => true,
            },
    {
        let table_data: &'a [u8] = match fonts_in_collection(data) {
            Some(n) => {
                if index >= n {
                    return None;
                }
                // The collection header is followed by one 32-bit offset
                // per font.
                let off: u64 = 12 + 4 * (index as u64);
                if off + 4 > data.len() as u64 {
                    return None;
                }
                let font_offset: u32 = parser::read_u32_at(data, off as usize);
                if font_offset as usize > data.len() {
                    return None;
                }
                &data[font_offset as usize..data.len()]
            },
            None => data,
        };
        let ghost td = table_data@;
        proof {
            assert(spec_font_table_data(data@, index as int) == Some(td));
        }
        if data.len() < 12 {
            return None;
        }
        let mut s = Stream::new(table_data);
        let sfnt_version: u32 = match s.read_u32() {
            Some(v) => v,
            None => {
                return None;
            },
        };
        if sfnt_version != MAGIC_TRUE_TYPE && sfnt_version != MAGIC_OPEN_TYPE {
            return None;
        }
        let num_tables: u16 = match s.read_u16() {
            Some(v) => v,
            None => {
                return None;
            },
        };
        s.advance(6);  // search range, entry selector, range shift
        let tables = match s.read_array16::<TableRecord>(num_tables) {
            Some(a) => a,
            None => {
                return None;
            },
        };
        let mut avar: Option<&'a [u8]> = None;
        let mut cmap_table: Option<cmap::Table<'a>> = None;
        let mut fvar_table: Option<fvar::Table<'a>> = None;
        let mut gdef_table: Option<gdef::Table<'a>> = None;
        let mut glyf: Option<&'a [u8]> = None;
        let mut gpos: Option<ggg::GsubGposTable<'a>> = None;
        let mut gsub: Option<ggg::GsubGposTable<'a>> = None;
        let mut hmtx_raw: Option<&'a [u8]> = None;
        let mut hvar_table: Option<hvar::Table<'a>> = None;
        let mut kern: Option<&'a [u8]> = None;
        let mut loca_raw: Option<&'a [u8]> = None;
        let mut mvar_table: Option<mvar::Table<'a>> = None;
        let mut os_2: Option<os2::Table<'a>> = None;
        let mut post_table: Option<post::Table<'a>> = None;
        let mut vhea_table: Option<hhea::Table<'a>> = None;
        let mut vmtx_raw: Option<&'a [u8]> = None;
        let mut vorg_table: Option<vorg::Table<'a>> = None;
        let mut vvar_table: Option<hvar::Table<'a>> = None;
        let count: u16 = tables.len();
        let mut i: u16 = 0;
        while i < count
            invariant
                tables.wf(),
                count == tables.count,
                i <= count,
                match cmap_table {
                    Some(t) => t.wf(),
                    None => true,
                },
                match fvar_table {
                    Some(t) => t.wf(),
                    None => true,
                },
                match gdef_table {
                    Some(t) => t.wf(),
                    None => true,
                },
                match vorg_table {
                    Some(t) => t.wf(),
                    None => true,
                },
                match gpos {
                    Some(t) => t.wf(),
                    None => true,
                },
                match gsub {
                    Some(t) => t.wf(),
                    None => true,
                },
                match hvar_table {
                    Some(t) => t.wf(),
                    None => true,
                },
                match mvar_table {
                    Some(t) => t.wf(),
                    None => true,
                },
                match os_2 {
                    Some(t) => t.wf(),
                    None => true,
                },
                match post_table {
                    Some(t) => t.wf(),
                    None => true,
                },
                match vhea_table {
                    Some(t) => t.wf(),
                    None => true,
                },
                match vvar_table {
                    Some(t) => t.wf(),
                    None => true,
                },
            decreases count - i,
        {
            let record = match tables.get(i) {
                Some(rec) => rec,
                None => {
                    return None;
                },
            };
            i = i + 1;
            // The table's range is relative to the start of the file.
            let start: u64 = record.offset as u64;
            let end: u64 = start + record.length as u64;
            if end > data.len() as u64 {
                continue ;
            }
            let table_bytes: &'a [u8] = &data[record.offset as usize..end as usize];
            if record.tag == TAG_AVAR {
                avar = Some(table_bytes);
            } else if record.tag == TAG_CMAP {
                cmap_table = cmap::Table::parse(table_bytes);
            } else if record.tag == TAG_FVAR {
                fvar_table = fvar::Table::parse(table_bytes);
            } else if record.tag == TAG_GDEF {
                gdef_table = gdef::Table::parse(table_bytes);
            } else if record.tag == TAG_GLYF {
                glyf = Some(table_bytes);
            } else if record.tag == TAG_GPOS {
                gpos = ggg::GsubGposTable::parse(table_bytes);
            } else if record.tag == TAG_GSUB {
                gsub = ggg::GsubGposTable::parse(table_bytes);
            } else if record.tag == TAG_HMTX {
                hmtx_raw = Some(table_bytes);
            } else if record.tag == TAG_HVAR {
                hvar_table = hvar::Table::parse(table_bytes);
            } else if record.tag == TAG_KERN {
                kern = Some(table_bytes);
            } else if record.tag == TAG_LOCA {
                loca_raw = Some(table_bytes);
            } else if record.tag == TAG_MVAR {
                mvar_table = mvar::Table::parse(table_bytes);
            } else if record.tag == TAG_OS_2 {
                os_2 = os2::Table::parse(table_bytes);
            } else if record.tag == TAG_POST {
                post_table = post::Table::parse(table_bytes);
            } else if record.tag == TAG_VHEA {
                vhea_table = hhea::Table::parse(table_bytes);
            } else if record.tag == TAG_VORG {
                vorg_table = vorg::Table::parse(table_bytes);
            } else if record.tag == TAG_VMTX {
                vmtx_raw = Some(table_bytes);
            } else if record.tag == TAG_VVAR {
                vvar_table = hvar::Table::parse(table_bytes);
            }
        }
        // The three mandatory tables, from the directory's last in-bounds
        // record of each tag.
        let head_table = match locate_table(data, &tables, Ghost(td), TAG_HEAD) {
            Some(bytes) => {
                proof {
                    lemma_table_range_bounds(data@, td, TAG_HEAD as int, count as int);
                }
                match head::Table::parse(bytes) {
                    Some(t) => t,
                    None => {
                        return None;
                    },
                }
            },
            None => {
                return None;
            },
        };
        let hhea_table = match locate_table(data, &tables, Ghost(td), TAG_HHEA) {
            Some(bytes) => {
                proof {
                    lemma_table_range_bounds(data@, td, TAG_HHEA as int, count as int);
                }
                match hhea::Table::parse(bytes) {
                    Some(t) => t,
                    None => {
                        return None;
                    },
                }
            },
            None => {
                return None;
            },
        };
        let number_of_glyphs: u16 = match locate_table(data, &tables, Ghost(td), TAG_MAXP) {
            Some(bytes) => {
                proof {
                    lemma_table_range_bounds(data@, td, TAG_MAXP as int, count as int);
                    let rg = spec_table_range(data@, td, TAG_MAXP as int, count as int).unwrap();
                    if rg.1 - rg.0 >= 6 {
                        lemma_table_header_fields(data@, bytes@, rg.0, rg.1);
                    }
                }
                match maxp::parse(bytes) {
                    Some(n) => n,
                    None => {
                        return None;
                    },
                }
            },
            None => {
                return None;
            },
        };
        // One zeroed coordinate per axis, up to the capacity.
        let mut coordinates = VarCoords { data: Vec::new() };
        match fvar_table {
            Some(t) => {
                let axis_count: u16 = t.axes.len();
                let wanted: usize = if (axis_count as usize) <= MAX_VAR_COORDS {
                    axis_count as usize
                } else {
                    MAX_VAR_COORDS
                };
                let mut k: usize = 0;
                while k < wanted
                    invariant
                        coordinates.data@.len() == k,
                        k <= wanted,
                        forall|j: int| 0 <= j < k ==> coordinates.data@[j] == 0i16,
                    decreases wanted - k,
                {
                    coordinates.data.push(0);
                    k = k + 1;
                }
            },
            None => {},
        }
        // Metrics tables need counts from the headers.
        let mut hmtx_table: Option<hmtx::Table<'a>> = None;
        match hmtx_raw {
            Some(bytes) => {
                match hhea_table.number_of_metrics() {
                    Some(n) => {
                        hmtx_table = hmtx::Table::parse(bytes, n, number_of_glyphs);
                    },
                    None => {},
                }
            },
            None => {},
        }
        let mut vmtx_table: Option<hmtx::Table<'a>> = None;
        match (vhea_table, vmtx_raw) {
            (Some(vhea), Some(bytes)) => {
                match vhea.number_of_metrics() {
                    Some(n) => {
                        vmtx_table = hmtx::Table::parse(bytes, n, number_of_glyphs);
                    },
                    None => {},
                }
            },
            _ => {},
        }
        let mut loca_table: Option<loca::Table<'a>> = None;
        match loca_raw {
            Some(bytes) => {
                let format_flag: i16 = head_table.index_to_loc_format();
                if format_flag == 0 {
                    loca_table = loca::Table::parse(
                        bytes,
                        number_of_glyphs,
                        IndexToLocationFormat::Short,
                    );
                } else if format_flag == 1 {
                    loca_table = loca::Table::parse(
                        bytes,
                        number_of_glyphs,
                        IndexToLocationFormat::Long,
                    );
                }
            },
            None => {},
        }
        Some(
            Font {
                avar,
                cmap: cmap_table,
                fvar: fvar_table,
                gdef: gdef_table,
                glyf,
                gpos,
                gsub,
                head: head_table,
                hhea: hhea_table,
                hmtx: hmtx_table,
                hvar: hvar_table,
                kern,
                loca: loca_table,
                mvar: mvar_table,
                os_2,
                post: post_table,
                vhea: vhea_table,
                vmtx: vmtx_table,
                vorg: vorg_table,
                vvar: vvar_table,
                number_of_glyphs,
                coordinates,
            },
        )
    }
}


/// The least axis position whose record carries `tag`, among the axis
/// records of a font variations table.
pub open spec fn spec_axis_index_from(
    axes: parser::LazyArray16<fvar::AxisRecord>,
    tag: u32,
    i: int,
) -> Option<int>
    decreases axes.count - i,
{
    if i >= axes.count {
        None
    } else if axes.spec_at(i).tag == tag {
        Some(i)
    } else {
        spec_axis_index_from(axes, tag, i + 1)
    }
}

impl<'a> Font<'a> {
    /// The font is vertical: it has a vertical header table.
    pub open spec fn spec_is_vertical(&self) -> bool {
        self.vhea is Some
    }

    /// Checks that font has a specified table.
    ///
    /// Returns `true` only for tables that were successfully parsed, and
    /// always for the three mandatory ones.
    pub fn has_table(&self, name: TableName) -> (r: bool)
        ensures
            r == match name {
                TableName::Header => true,
                TableName::HorizontalHeader => true,
                TableName::MaximumProfile => true,
                TableName::AxisVariations => self.avar is Some,
                TableName::CharacterToGlyphIndexMapping => self.cmap is Some,
                TableName::FontVariations => self.fvar is Some,
                TableName::GlyphData => self.glyf is Some,
                TableName::GlyphDefinition => self.gdef is Some,
                TableName::GlyphPositioning => self.gpos is Some,
                TableName::GlyphSubstitution => self.gsub is Some,
                TableName::HorizontalMetrics => self.hmtx is Some,
                TableName::HorizontalMetricsVariations => self.hvar is Some,
                TableName::IndexToLocation => self.loca is Some,
                TableName::Kerning => self.kern is Some,
                TableName::MetricsVariations => self.mvar is Some,
                TableName::PostScript => self.post is Some,
                TableName::VerticalHeader => self.vhea is Some,
                TableName::VerticalMetrics => self.vmtx is Some,
                TableName::VerticalMetricsVariations => self.vvar is Some,
                TableName::VerticalOrigin => self.vorg is Some,
                TableName::WindowsMetrics => self.os_2 is Some,
                _ => false,
            },
    {
        match name {
            TableName::Header => true,
            TableName::HorizontalHeader => true,
            TableName::MaximumProfile => true,
            TableName::AxisVariations => self.avar.is_some(),
            TableName::CharacterToGlyphIndexMapping => self.cmap.is_some(),
            TableName::FontVariations => self.fvar.is_some(),
            TableName::GlyphData => self.glyf.is_some(),
            TableName::GlyphDefinition => self.gdef.is_some(),
            TableName::GlyphPositioning => self.gpos.is_some(),
            TableName::GlyphSubstitution => self.gsub.is_some(),
            TableName::HorizontalMetrics => self.hmtx.is_some(),
            TableName::HorizontalMetricsVariations => self.hvar.is_some(),
            TableName::IndexToLocation => self.loca.is_some(),
            TableName::Kerning => self.kern.is_some(),
            TableName::MetricsVariations => self.mvar.is_some(),
            TableName::PostScript => self.post.is_some(),
            TableName::VerticalHeader => self.vhea.is_some(),
            TableName::VerticalMetrics => self.vmtx.is_some(),
            TableName::VerticalMetricsVariations => self.vvar.is_some(),
            TableName::VerticalOrigin => self.vorg.is_some(),
            TableName::WindowsMetrics => self.os_2.is_some(),
            _ => false,
        }
    }

    /// Checks that font is marked as *Regular*.
    ///
    /// Returns `false` when the Windows metrics table is not present.
    pub fn is_regular(&self) -> (r: bool)
        requires
            self.wf(),
        ensures
            r == match self.os_2 {
                Some(t) => t.spec_selection() / 64 % 2 == 1,
                None => false,
            },
    {
        match &self.os_2 {
            Some(t) => t.is_regular(),
            None => false,
        }
    }

    /// Checks that font is marked as *Italic*.
    ///
    /// Returns `false` when the Windows metrics table is not present.
    pub fn is_italic(&self) -> (r: bool)
        requires
            self.wf(),
        ensures
            r == match self.os_2 {
                Some(t) => t.spec_selection() % 2 == 1,
                None => false,
            },
    {
        match &self.os_2 {
            Some(t) => t.is_italic(),
            None => false,
        }
    }

    /// Checks that font is marked as *Bold*.
    ///
    /// Returns `false` when the Windows metrics table is not present.
    pub fn is_bold(&self) -> (r: bool)
        requires
            self.wf(),
        ensures
            r == match self.os_2 {
                Some(t) => t.spec_selection() / 32 % 2 == 1,
                None => false,
            },
    {
        match &self.os_2 {
            Some(t) => t.is_bold(),
            None => false,
        }
    }

    /// Checks that font is marked as *Oblique*.
    ///
    /// Returns `false` when the Windows metrics table is not present or
    /// older than version 4.
    pub fn is_oblique(&self) -> (r: bool)
        requires
            self.wf(),
        ensures
            r == match self.os_2 {
                Some(t) => t.spec_version() >= 4 && t.spec_selection() / 512 % 2 == 1,
                None => false,
            },
    {
        match &self.os_2 {
            Some(t) => t.is_oblique(),
            None => false,
        }
    }

    /// Checks that font is vertical: that it has a vertical header table.
    pub fn is_vertical(&self) -> (r: bool)
        ensures
            r == self.spec_is_vertical(),
    {
        self.vhea.is_some()
    }

    /// Checks that font is variable: that it has a font variations table
    /// (whose parser already rejected a zero axis count).
    pub fn is_variable(&self) -> (r: bool)
        ensures
            r == (self.fvar is Some),
    {
        self.fvar.is_some()
    }

    /// Returns font's weight, normal when the Windows metrics table is
    /// not present.
    pub fn weight(&self) -> (r: os2::Weight)
        requires
            self.wf(),
        ensures
            r == match self.os_2 {
                Some(t) => os2::spec_weight_of(parser::be_u16_at(t.data@, 4)),
                None => os2::Weight::Normal,
            },
    {
        match &self.os_2 {
            Some(t) => t.weight(),
            None => os2::Weight::Normal,
        }
    }

    /// Returns font's width, normal when the Windows metrics table is
    /// not present or the stored class invalid.
    pub fn width(&self) -> (r: os2::Width)
        requires
            self.wf(),
        ensures
            r == match self.os_2 {
                Some(t) => os2::spec_width_of(parser::be_u16_at(t.data@, 6)),
                None => os2::Width::Normal,
            },
    {
        match &self.os_2 {
            Some(t) => t.width(),
            None => os2::Width::Normal,
        }
    }

    /// Returns font's ascender: the typographic one when the Windows
    /// metrics table asks for it, else the vertical or horizontal
    /// header's.
    pub fn ascender(&self) -> (r: i16)
        requires
            self.wf(),
        ensures
            r as int == if self.os_2 is Some && self.os_2.unwrap().spec_selection() / 128 % 2 == 1 {
                parser::be_i16_at(self.os_2.unwrap().data@, 68)
            } else if self.vhea is Some {
                parser::be_i16_at(self.vhea.unwrap().data@, 4)
            } else {
                parser::be_i16_at(self.hhea.data@, 4)
            },
    {
        match &self.os_2 {
            Some(t) => {
                if t.is_use_typo_metrics() {
                    return t.s_typo_ascender();
                }
            },
            None => {},
        }
        match &self.vhea {
            Some(t) => t.ascender(),
            None => self.hhea.ascender(),
        }
    }

    /// Returns font's descender, chosen like the ascender.
    pub fn descender(&self) -> (r: i16)
        requires
            self.wf(),
        ensures
            r as int == if self.os_2 is Some && self.os_2.unwrap().spec_selection() / 128 % 2 == 1 {
                parser::be_i16_at(self.os_2.unwrap().data@, 70)
            } else if self.vhea is Some {
                parser::be_i16_at(self.vhea.unwrap().data@, 6)
            } else {
                parser::be_i16_at(self.hhea.data@, 6)
            },
    {
        match &self.os_2 {
            Some(t) => {
                if t.is_use_typo_metrics() {
                    return t.s_typo_descender();
                }
            },
            None => {},
        }
        match &self.vhea {
            Some(t) => t.descender(),
            None => self.hhea.descender(),
        }
    }

    /// Returns font's height: the ascender minus the descender.
    pub fn height(&self) -> (r: Option<i16>)
        requires
            self.wf(),
        ensures
            match r {
                Some(h) => h == self.spec_ascender_value() - self.spec_descender_value(),
                None => !(-32768 <= self.spec_ascender_value() - self.spec_descender_value()
                    <= 32767),
            },
    {
        let a: i16 = self.ascender();
        let d: i16 = self.descender();
        let h: i32 = a as i32 - d as i32;
        if -32768 <= h && h <= 32767 {
            Some(h as i16)
        } else {
            None
        }
    }

    /// The ascender the handle reports.
    pub open spec fn spec_ascender_value(&self) -> int {
        if self.os_2 is Some && self.os_2.unwrap().spec_selection() / 128 % 2 == 1 {
            parser::be_i16_at(self.os_2.unwrap().data@, 68)
        } else if self.vhea is Some {
            parser::be_i16_at(self.vhea.unwrap().data@, 4)
        } else {
            parser::be_i16_at(self.hhea.data@, 4)
        }
    }

    /// The descender the handle reports.
    pub open spec fn spec_descender_value(&self) -> int {
        if self.os_2 is Some && self.os_2.unwrap().spec_selection() / 128 % 2 == 1 {
            parser::be_i16_at(self.os_2.unwrap().data@, 70)
        } else if self.vhea is Some {
            parser::be_i16_at(self.vhea.unwrap().data@, 6)
        } else {
            parser::be_i16_at(self.hhea.data@, 6)
        }
    }

    /// Returns font's line gap, chosen like the ascender.
    pub fn line_gap(&self) -> (r: i16)
        requires
            self.wf(),
        ensures
            r as int == if self.os_2 is Some && self.os_2.unwrap().spec_selection() / 128 % 2 == 1 {
                parser::be_i16_at(self.os_2.unwrap().data@, 72)
            } else if self.vhea is Some {
                parser::be_i16_at(self.vhea.unwrap().data@, 8)
            } else {
                parser::be_i16_at(self.hhea.data@, 8)
            },
    {
        match &self.os_2 {
            Some(t) => {
                if t.is_use_typo_metrics() {
                    return t.s_typo_line_gap();
                }
            },
            None => {},
        }
        match &self.vhea {
            Some(t) => t.line_gap(),
            None => self.hhea.line_gap(),
        }
    }

    /// Returns glyphs index to location format.
    pub fn index_to_location_format(&self) -> (r: Option<IndexToLocationFormat>)
        requires
            self.wf(),
        ensures
            r == if parser::be_i16_at(self.head.data@, 50) == 0 {
                Some(IndexToLocationFormat::Short)
            } else if parser::be_i16_at(self.head.data@, 50) == 1 {
                Some(IndexToLocationFormat::Long)
            } else {
                Option::<IndexToLocationFormat>::None
            },
    {
        let flag: i16 = self.head.index_to_loc_format();
        if flag == 0 {
            Some(IndexToLocationFormat::Short)
        } else if flag == 1 {
            Some(IndexToLocationFormat::Long)
        } else {
            None
        }
    }

    /// Returns font's units per EM, absent outside the valid range
    /// 16..=16384.
    pub fn units_per_em(&self) -> (r: Option<u16>)
        requires
            self.wf(),
        ensures
            match r {
                Some(n) => n as int == parser::be_u16_at(self.head.data@, 18) && 16 <= n <= 16384,
                None => !(16 <= parser::be_u16_at(self.head.data@, 18) <= 16384),
            },
    {
        let num: u16 = self.head.units_per_em();
        if num >= 16 && num <= 16384 {
            Some(num)
        } else {
            None
        }
    }

    /// Returns font's x-height, absent without a Windows metrics table
    /// of version 2 or later.
    pub fn x_height(&self) -> (r: Option<i16>)
        requires
            self.wf(),
        ensures
            r is Some <==> self.os_2 is Some && self.os_2.unwrap().spec_version() >= 2
                && self.os_2.unwrap().data@.len() >= 88,
            match r {
                Some(v) => v as int == parser::be_i16_at(self.os_2.unwrap().data@, 86),
                None => true,
            },
    {
        match &self.os_2 {
            Some(t) => t.x_height(),
            None => None,
        }
    }

    /// Returns font's underline metrics, from the PostScript table.
    pub fn underline_metrics(&self) -> (r: Option<LineMetrics>)
        requires
            self.wf(),
        ensures
            match r {
                Some(m) => {
                    &&& self.post is Some
                    &&& m.position as int == parser::be_i16_at(self.post.unwrap().data@, 8)
                    &&& m.thickness as int == parser::be_i16_at(self.post.unwrap().data@, 10)
                },
                None => self.post is None,
            },
    {
        match &self.post {
            Some(t) => Some(t.underline_metrics()),
            None => None,
        }
    }

    /// Returns font's strikeout metrics, from the Windows metrics table.
    pub fn strikeout_metrics(&self) -> (r: Option<LineMetrics>)
        requires
            self.wf(),
        ensures
            match r {
                Some(m) => {
                    &&& self.os_2 is Some
                    &&& m.thickness as int == parser::be_i16_at(self.os_2.unwrap().data@, 26)
                    &&& m.position as int == parser::be_i16_at(self.os_2.unwrap().data@, 28)
                },
                None => self.os_2 is None,
            },
    {
        match &self.os_2 {
            Some(t) => Some(t.strikeout_metrics()),
            None => None,
        }
    }

    /// Returns font's subscript metrics, from the Windows metrics table.
    pub fn subscript_metrics(&self) -> (r: Option<os2::ScriptMetrics>)
        requires
            self.wf(),
        ensures
            r is Some <==> self.os_2 is Some,
            match r {
                Some(m) => {
                    &&& m.x_size as int == parser::be_i16_at(self.os_2.unwrap().data@, 10)
                    &&& m.y_size as int == parser::be_i16_at(self.os_2.unwrap().data@, 12)
                    &&& m.x_offset as int == parser::be_i16_at(self.os_2.unwrap().data@, 14)
                    &&& m.y_offset as int == parser::be_i16_at(self.os_2.unwrap().data@, 16)
                },
                None => true,
            },
    {
        match &self.os_2 {
            Some(t) => Some(t.subscript_metrics()),
            None => None,
        }
    }

    /// Returns font's superscript metrics, from the Windows metrics
    /// table.
    pub fn superscript_metrics(&self) -> (r: Option<os2::ScriptMetrics>)
        requires
            self.wf(),
        ensures
            r is Some <==> self.os_2 is Some,
            match r {
                Some(m) => {
                    &&& m.x_size as int == parser::be_i16_at(self.os_2.unwrap().data@, 18)
                    &&& m.y_size as int == parser::be_i16_at(self.os_2.unwrap().data@, 20)
                    &&& m.x_offset as int == parser::be_i16_at(self.os_2.unwrap().data@, 22)
                    &&& m.y_offset as int == parser::be_i16_at(self.os_2.unwrap().data@, 24)
                },
                None => true,
            },
    {
        match &self.os_2 {
            Some(t) => Some(t.superscript_metrics()),
            None => None,
        }
    }

    /// Returns a total number of glyphs in the font. Never zero.
    pub fn number_of_glyphs(&self) -> (r: u16)
        requires
            self.wf(),
        ensures
            r == self.number_of_glyphs,
            r >= 1,
    {
        self.number_of_glyphs
    }

    /// Returns an iterator-like view over variation axes.
    pub fn variation_axes(&self) -> (r: fvar::VariationAxes<'a>)
        requires
            self.wf(),
        ensures
            r.wf(),
            r.index == 0,
            match self.fvar {
                Some(t) => r.axes is Some && r.axes.unwrap().data@ == t.axes.data@
                    && r.axes.unwrap().count == t.axes.count,
                None => r.axes is None,
            },
    {
        match &self.fvar {
            Some(t) => fvar::VariationAxes { axes: Some(t.axes), index: 0 },
            None => fvar::VariationAxes::empty(),
        }
    }

    /// Resolves a glyph ID for a code point; the result is always below
    /// the font's glyph count.
    ///
    /// Returns `None` instead of glyph 0 when the glyph is not found.
    pub fn glyph_index(&self, c: char) -> (r: Option<GlyphId>)
        requires
            self.wf(),
        ensures
            match r {
                Some(id) => {
                    &&& self.cmap is Some
                    &&& 0 < id.0 < self.number_of_glyphs
                    &&& cmap::spec_glyph_index_scan(
                        self.cmap.unwrap().data@,
                        self.cmap.unwrap().records,
                        (c as u32) as int,
                        0,
                    ) == Some(id.0 as int)
                },
                None => self.cmap is None || cmap::spec_glyph_index_scan(
                    self.cmap.unwrap().data@,
                    self.cmap.unwrap().records,
                    (c as u32) as int,
                    0,
                ) is None || cmap::spec_glyph_index_scan(
                    self.cmap.unwrap().data@,
                    self.cmap.unwrap().records,
                    (c as u32) as int,
                    0,
                ).unwrap() >= self.number_of_glyphs,
            },
    {
        let table = match &self.cmap {
            Some(t) => t,
            None => {
                return None;
            },
        };
        let id = match table.glyph_index(c as u32) {
            Some(id) => id,
            None => {
                return None;
            },
        };
        if id.0 < self.number_of_glyphs {
            Some(id)
        } else {
            None
        }
    }

    /// Resolves a variation of a glyph ID from a code point and a
    /// variation selector, per the character map's variation sequences;
    /// the result is always below the font's glyph count.
    ///
    /// Returns `None` instead of glyph 0 when the glyph is not found.
    pub fn glyph_variation_index(&self, c: char, variation: char) -> (r: Option<GlyphId>)
        requires
            self.wf(),
        ensures
            match r {
                Some(id) => self.cmap is Some && 0 < id.0 < self.number_of_glyphs,
                None => true,
            },
    {
        let table = match &self.cmap {
            Some(t) => t,
            None => {
                return None;
            },
        };
        let id = match table.glyph_variation_index(c as u32, variation as u32) {
            Some(id) => id,
            None => {
                return None;
            },
        };
        if id.0 < self.number_of_glyphs {
            Some(id)
        } else {
            None
        }
    }

    /// Returns a reference to the glyph positioning table.
    pub fn positioning_table(&self) -> (r: Option<gpos::PositioningTable<'a>>)
        requires
            self.wf(),
        ensures
            match r {
                Some(t) => t.wf() && Some(t.table) == self.gpos,
                None => self.gpos is None,
            },
    {
        match &self.gpos {
            Some(t) => Some(gpos::PositioningTable { table: *t }),
            None => None,
        }
    }

    /// Returns a reference to the glyph substitution table.
    pub fn substitution_table(&self) -> (r: Option<gsub::SubstitutionTable<'a>>)
        requires
            self.wf(),
        ensures
            match r {
                Some(t) => t.wf() && Some(t.table) == self.gsub,
                None => self.gsub is None,
            },
    {
        match &self.gsub {
            Some(t) => Some(gsub::SubstitutionTable { table: *t }),
            None => None,
        }
    }

    /// Returns a vertical origin of a glyph, from the vertical origin
    /// table.
    pub fn glyph_y_origin(&self, glyph_id: GlyphId) -> (r: Option<i16>)
        requires
            self.wf(),
        ensures
            r is Some <==> self.vorg is Some,
            match r {
                Some(y) => y == self.vorg.unwrap().default_y || exists|k: int|
                    {
                        &&& 0 <= k < self.vorg.unwrap().records.count
                        &&& (#[trigger] self.vorg.unwrap().records.spec_at(k)).glyph_index
                            == glyph_id.0
                        &&& self.vorg.unwrap().records.spec_at(k).vert_origin_y == y
                    },
                None => true,
            },
    {
        match &self.vorg {
            Some(t) => Some(t.glyph_y_origin(glyph_id)),
            None => None,
        }
    }

    /// Checks that font has a glyph class definition, by probing the
    /// first glyph slot.
    pub fn has_glyph_classes(&self) -> (r: bool)
        requires
            self.wf(),
    {
        self.glyph_class(GlyphId(0)).is_some()
    }

    /// Returns glyph's class from the glyph class definition, absent
    /// when the definition is missing or the class not set.
    pub fn glyph_class(&self, glyph_id: GlyphId) -> (r: Option<gdef::GlyphClass>)
        requires
            self.wf(),
        ensures
            r is Some ==> self.gdef is Some,
    {
        match &self.gdef {
            Some(t) => t.glyph_class(glyph_id),
            None => None,
        }
    }

    /// Returns glyph's mark attachment class; glyphs in no class fall
    /// into class 0.
    pub fn glyph_mark_attachment_class(&self, glyph_id: GlyphId) -> (r: gdef::Class)
        requires
            self.wf(),
        ensures
            r.0 as int == match self.gdef {
                Some(t) => match t.mark_attach_classes {
                    Some(d) => d.spec_class(glyph_id.0 as int),
                    None => 0,
                },
                None => 0,
            },
    {
        match &self.gdef {
            Some(t) => t.glyph_mark_attachment_class(glyph_id),
            None => gdef::Class(0),
        }
    }

    /// Checks that glyph is a mark according to the mark glyph sets;
    /// `set_index` checks one specific set, `None` checks them all.
    ///
    /// Returns `false` when the sets are not present.
    pub fn is_mark_glyph(&self, glyph_id: GlyphId, set_index: Option<u16>) -> (r: bool)
        requires
            self.wf(),
    {
        match &self.gdef {
            Some(t) => t.is_mark_glyph(glyph_id, set_index),
            None => false,
        }
    }

    /// Returns a glyphs pair kerning; only horizontal kerning is
    /// supported.
    pub fn glyphs_kerning(&self, glyph_id1: GlyphId, glyph_id2: GlyphId) -> (r: Option<i16>)
        requires
            self.wf(),
        ensures
            r is Some ==> self.kern is Some,
    {
        match &self.kern {
            Some(data) => kern::glyphs_kerning(data, glyph_id1, glyph_id2),
            None => None,
        }
    }
}


/// The first axis position carrying `tag`, or `None`.
fn find_axis_index(axes: &parser::LazyArray16<fvar::AxisRecord>, tag: u32) -> (r: Option<u16>)
    requires
        axes.wf(),
    ensures
        match r {
            Some(i) => i < axes.count && spec_axis_index_from(*axes, tag, 0) == Some(i as int),
            None => spec_axis_index_from(*axes, tag, 0) is None,
        },
{
    let count: u16 = axes.len();
    let mut i: u16 = 0;
    while i < count
        invariant
            axes.wf(),
            count == axes.count,
            i <= count,
            spec_axis_index_from(*axes, tag, 0) == spec_axis_index_from(*axes, tag, i as int),
        decreases count - i,
    {
        let record = match axes.get(i) {
            Some(rec) => rec,
            None => {
                return None;
            },
        };
        if record.tag == tag {
            return Some(i);
        }
        i = i + 1;
    }
    None
}

impl<'a> Font<'a> {
    /// The handle's table views, everything but the coordinate vector.
    pub open spec fn spec_same_tables(&self, other: &Font<'a>) -> bool {
        &&& self.avar == other.avar
        &&& self.cmap == other.cmap
        &&& self.fvar == other.fvar
        &&& self.gdef == other.gdef
        &&& self.glyf == other.glyf
        &&& self.gpos == other.gpos
        &&& self.gsub == other.gsub
        &&& self.head == other.head
        &&& self.hhea == other.hhea
        &&& self.hmtx == other.hmtx
        &&& self.hvar == other.hvar
        &&& self.kern == other.kern
        &&& self.loca == other.loca
        &&& self.mvar == other.mvar
        &&& self.os_2 == other.os_2
        &&& self.post == other.post
        &&& self.vhea == other.vhea
        &&& self.vmtx == other.vmtx
        &&& self.vorg == other.vorg
        &&& self.vvar == other.vvar
        &&& self.number_of_glyphs == other.number_of_glyphs
    }

    /// Sets a variation axis coordinate: finds the axis by tag,
    /// normalizes `value` (16.16 design units) onto it, stores the
    /// coordinate, and reruns the axis-variations remap over the whole
    /// vector.
    ///
    /// This is the handle's only mutable operation. It fails — leaving
    /// the coordinates unchanged — when the font is not variable, has no
    /// such axis, or the axis lies past the coordinate capacity.
    pub fn set_variation(&mut self, axis: Tag, value: i32) -> (r: Option<()>)
        requires
            old(self).wf(),
        ensures
            final(self).wf(),
            final(self).spec_same_tables(old(self)),
            final(self).coordinates.data@.len() == old(self).coordinates.data@.len(),
            match r {
                Some(_) => {
                    &&& old(self).fvar is Some
                    &&& spec_axis_index_from(old(self).fvar.unwrap().axes, axis.0, 0) is Some
                    &&& {
                        let i = spec_axis_index_from(old(self).fvar.unwrap().axes, axis.0, 0).unwrap();
                        let updated = old(self).coordinates.data@.update(
                            i,
                            fvar::spec_normalize(
                                fvar::spec_axis_of(old(self).fvar.unwrap().axes.spec_at(i)),
                                value as int,
                            ) as i16,
                        );
                        &&& i < MAX_VAR_COORDS
                        &&& (old(self).avar is None ==> final(self).coordinates.data@ == updated)
                        &&& (old(self).avar is Some ==> {
                            let av = old(self).avar.unwrap()@;
                            &&& (avar::spec_remap_accepts(av, updated.len() as int) ==> forall|
                                j: int,
                            |
                                0 <= j < updated.len() ==> final(self).coordinates.data@[j] as int
                                    == #[trigger] avar::spec_map_value(
                                    avar::spec_axis_map_seq(av, j),
                                    avar::spec_axis_map_count(av, j),
                                    updated[j] as int,
                                ))
                            &&& ((av.len() < 8 || be_u32_at(av, 0) != 0x00010000 || be_u16_at(
                                av,
                                6,
                            ) != updated.len()) ==> final(self).coordinates.data@ == updated)
                        })
                    }
                },
                None => {
                    &&& final(self).coordinates.data@ == old(self).coordinates.data@
                    &&& (old(self).fvar is None || spec_axis_index_from(
                        old(self).fvar.unwrap().axes,
                        axis.0,
                        0,
                    ) is None || spec_axis_index_from(
                        old(self).fvar.unwrap().axes,
                        axis.0,
                        0,
                    ).unwrap() >= MAX_VAR_COORDS)
                },
            },
    {
        let fvar_table = match &self.fvar {
            Some(t) => *t,
            None => {
                return None;
            },
        };
        let axes = fvar_table.axes;
        let index: u16 = match find_axis_index(&axes, axis.0) {
            Some(i) => i,
            None => {
                return None;
            },
        };
        if (index as usize) >= MAX_VAR_COORDS {
            return None;
        }
        let record = match axes.get(index) {
            Some(rec) => rec,
            None => {
                return None;
            },
        };
        let min_value: i32 = if record.min_value > record.default_value {
            record.default_value
        } else {
            record.min_value
        };
        let max_value: i32 = if record.max_value < record.default_value {
            record.default_value
        } else {
            record.max_value
        };
        let axis_info = fvar::VariationAxis {
            tag: Tag(record.tag),
            min_value,
            default_value: record.default_value,
            max_value,
            name_id: record.name_id,
            hidden: (record.flags / 8) % 2 == 1,
        };
        let coord: NormalizedCoord = axis_info.normalized_value(value);
        self.coordinates.data[index as usize] = coord.get();
        let avar_data = self.avar;
        match avar_data {
            Some(bytes) => {
                // A failed remap is ignored, as the table is optional.
                let _ = avar::map_variation_coordinates(bytes, &mut self.coordinates.data);
            },
            None => {},
        }
        Some(())
    }

    /// Returns glyph's advance in 16.16 design units, for horizontal or
    /// vertical fonts, with the variation delta applied on a variable
    /// font.
    pub fn glyph_advance(&self, glyph_id: GlyphId) -> (r: Option<i64>)
        requires
            self.wf(),
        ensures
            match r {
                Some(a) => {
                    let mtx = if self.spec_is_vertical() {
                        self.vmtx
                    } else {
                        self.hmtx
                    };
                    &&& mtx is Some
                    &&& glyph_id.0 < mtx.unwrap().number_of_glyphs
                    &&& (self.fvar is None ==> a == 65536 * mtx.unwrap().spec_advance(
                        glyph_id.0 as int,
                    ))
                    &&& (self.fvar is Some ==> {
                        let vtab = if self.spec_is_vertical() {
                            self.vvar
                        } else {
                            self.hvar
                        };
                        &&& vtab is Some
                        &&& hvar::spec_advance_pair(vtab.unwrap(), glyph_id.0 as int) is Some
                        &&& a == 65536 * mtx.unwrap().spec_advance(glyph_id.0 as int) + 4
                            * vtab.unwrap().variation_store.spec_delta(
                            hvar::spec_advance_pair(vtab.unwrap(), glyph_id.0 as int).unwrap().0,
                            hvar::spec_advance_pair(vtab.unwrap(), glyph_id.0 as int).unwrap().1,
                            self.coordinates.data@,
                        )
                    })
                },
                None => {
                    let mtx = if self.spec_is_vertical() {
                        self.vmtx
                    } else {
                        self.hmtx
                    };
                    let vtab = if self.spec_is_vertical() {
                        self.vvar
                    } else {
                        self.hvar
                    };
                    mtx is None || glyph_id.0 >= mtx.unwrap().number_of_glyphs || (self.fvar
                        is Some && (vtab is None || !((match vtab.unwrap().advance_width_mapping_offset {
                        Some(off) => off <= vtab.unwrap().data@.len(),
                        None => true,
                    }) && hvar::spec_advance_pair(vtab.unwrap(), glyph_id.0 as int) is Some
                        && vtab.unwrap().variation_store.spec_delta_ok(
                        hvar::spec_advance_pair(vtab.unwrap(), glyph_id.0 as int).unwrap().0,
                        hvar::spec_advance_pair(vtab.unwrap(), glyph_id.0 as int).unwrap().1,
                    ))))
                },
            },
    {
        let base: u16 = if self.is_vertical() {
            match &self.vmtx {
                Some(t) => {
                    match t.advance(glyph_id) {
                        Some(v) => v,
                        None => {
                            return None;
                        },
                    }
                },
                None => {
                    return None;
                },
            }
        } else {
            match &self.hmtx {
                Some(t) => {
                    match t.advance(glyph_id) {
                        Some(v) => v,
                        None => {
                            return None;
                        },
                    }
                },
                None => {
                    return None;
                },
            }
        };
        let mut advance: i64 = (base as i64) * 65536;
        if self.is_variable() {
            let vtab = if self.is_vertical() {
                &self.vvar
            } else {
                &self.hvar
            };
            let delta: i64 = match vtab {
                Some(t) => {
                    match hvar::glyph_advance_offset(*t, glyph_id, &self.coordinates.data) {
                        Some(d) => d,
                        None => {
                            return None;
                        },
                    }
                },
                None => {
                    return None;
                },
            };
            advance = advance + 4 * delta;
        }
        Some(advance)
    }

    /// Returns glyph's side bearing in 16.16 design units, for horizontal
    /// or vertical fonts, with the variation delta applied on a variable
    /// font.
    pub fn glyph_side_bearing(&self, glyph_id: GlyphId) -> (r: Option<i64>)
        requires
            self.wf(),
        ensures
            match r {
                Some(a) => {
                    let mtx = if self.spec_is_vertical() {
                        self.vmtx
                    } else {
                        self.hmtx
                    };
                    &&& mtx is Some
                    &&& glyph_id.0 < mtx.unwrap().number_of_glyphs
                    &&& (self.fvar is None ==> a == 65536 * mtx.unwrap().spec_side_bearing(
                        glyph_id.0 as int,
                    ))
                    &&& (self.fvar is Some ==> {
                        let vtab = if self.spec_is_vertical() {
                            self.vvar
                        } else {
                            self.hvar
                        };
                        &&& vtab is Some
                        &&& a == 65536 * mtx.unwrap().spec_side_bearing(glyph_id.0 as int) + 4
                            * vtab.unwrap().variation_store.spec_delta(
                            hvar::spec_map_entry(
                                vtab.unwrap().data@.subrange(
                                    vtab.unwrap().lsb_mapping_offset.unwrap() as int,
                                    vtab.unwrap().data@.len() as int,
                                ),
                                glyph_id.0 as int,
                            ).unwrap().0,
                            hvar::spec_map_entry(
                                vtab.unwrap().data@.subrange(
                                    vtab.unwrap().lsb_mapping_offset.unwrap() as int,
                                    vtab.unwrap().data@.len() as int,
                                ),
                                glyph_id.0 as int,
                            ).unwrap().1,
                            self.coordinates.data@,
                        )
                    })
                },
                None => {
                    let mtx = if self.spec_is_vertical() {
                        self.vmtx
                    } else {
                        self.hmtx
                    };
                    let vtab = if self.spec_is_vertical() {
                        self.vvar
                    } else {
                        self.hvar
                    };
                    mtx is None || glyph_id.0 >= mtx.unwrap().number_of_glyphs || (self.fvar
                        is Some && (vtab is None || vtab.unwrap().lsb_mapping_offset is None
                        || !(vtab.unwrap().lsb_mapping_offset.unwrap() <= vtab.unwrap().data@.len()
                        && hvar::spec_map_entry(
                        vtab.unwrap().data@.subrange(
                            vtab.unwrap().lsb_mapping_offset.unwrap() as int,
                            vtab.unwrap().data@.len() as int,
                        ),
                        glyph_id.0 as int,
                    ) is Some && vtab.unwrap().variation_store.spec_delta_ok(
                        hvar::spec_map_entry(
                            vtab.unwrap().data@.subrange(
                                vtab.unwrap().lsb_mapping_offset.unwrap() as int,
                                vtab.unwrap().data@.len() as int,
                            ),
                            glyph_id.0 as int,
                        ).unwrap().0,
                        hvar::spec_map_entry(
                            vtab.unwrap().data@.subrange(
                                vtab.unwrap().lsb_mapping_offset.unwrap() as int,
                                vtab.unwrap().data@.len() as int,
                            ),
                            glyph_id.0 as int,
                        ).unwrap().1,
                    ))))
                },
            },
    {
        let base: i16 = if self.is_vertical() {
            match &self.vmtx {
                Some(t) => {
                    match t.side_bearing(glyph_id) {
                        Some(v) => v,
                        None => {
                            return None;
                        },
                    }
                },
                None => {
                    return None;
                },
            }
        } else {
            match &self.hmtx {
                Some(t) => {
                    match t.side_bearing(glyph_id) {
                        Some(v) => v,
                        None => {
                            return None;
                        },
                    }
                },
                None => {
                    return None;
                },
            }
        };
        let mut bearing: i64 = (base as i64) * 65536;
        if self.is_variable() {
            let vtab = if self.is_vertical() {
                &self.vvar
            } else {
                &self.hvar
            };
            let delta: i64 = match vtab {
                Some(t) => {
                    match hvar::glyph_side_bearing_offset(*t, glyph_id, &self.coordinates.data) {
                        Some(d) => d,
                        None => {
                            return None;
                        },
                    }
                },
                None => {
                    return None;
                },
            };
            bearing = bearing + 4 * delta;
        }
        Some(bearing)
    }

    /// Outlines a glyph into the receiver and returns the bounding box
    /// stored in its header.
    ///
    /// Since outlining is streamed, the receiver sees segments even when
    /// the outline turns out malformed halfway; check the result before
    /// using them. The command stream itself is specified on the walking
    /// state: `glyf::outline` extends the state's ghost command record,
    /// and `OutlineState::push_point` and `finish_contour` state exactly
    /// which commands each decoded point appends.
    pub fn outline_glyph<B: OutlineBuilder>(&self, glyph_id: GlyphId, builder: &mut B) -> (r:
        Option<Rect>)
        requires
            self.wf(),
        ensures
            r is Some <==> self.loca is Some && self.glyf is Some && glyf::spec_has_glyph_data(
                self.loca.unwrap(),
                self.glyf.unwrap()@,
                glyph_id.0 as int,
            ) && glyf::spec_outline_ok(
                self.loca.unwrap(),
                self.glyf.unwrap()@,
                self.glyf.unwrap()@.subrange(
                    self.loca.unwrap().spec_offset(glyph_id.0 as int),
                    self.loca.unwrap().spec_offset(glyph_id.0 as int + 1),
                ),
                0,
            ),
            match r {
                Some(rect) => {
                    &&& self.loca is Some
                    &&& self.glyf is Some
                    &&& {
                        let start = self.loca.unwrap().spec_offset(glyph_id.0 as int);
                        &&& self.loca.unwrap().spec_offset(glyph_id.0 as int + 1) - start >= 10
                        &&& rect.x_min as int == parser::be_i16_at(self.glyf.unwrap()@, start + 2)
                        &&& rect.y_min as int == parser::be_i16_at(self.glyf.unwrap()@, start + 4)
                        &&& rect.x_max as int == parser::be_i16_at(self.glyf.unwrap()@, start + 6)
                        &&& rect.y_max as int == parser::be_i16_at(self.glyf.unwrap()@, start + 8)
                    }
                },
                None => true,
            },
    {
        let loca_table = match &self.loca {
            Some(t) => t,
            None => {
                return None;
            },
        };
        let glyf_data: &'a [u8] = match self.glyf {
            Some(d) => d,
            None => {
                return None;
            },
        };
        let mut state = glyf::OutlineState::new(glyf::Transform::identity());
        glyf::outline(loca_table, glyf_data, glyph_id, &mut state, builder)
    }

    /// Returns the glyph bounding box stored in the glyph header, in
    /// O(1).
    pub fn glyph_bounding_box(&self, glyph_id: GlyphId) -> (r: Option<Rect>)
        requires
            self.wf(),
        ensures
            r is Some <==> self.loca is Some && self.glyf is Some && glyf::spec_has_glyph_data(
                self.loca.unwrap(),
                self.glyf.unwrap()@,
                glyph_id.0 as int,
            ) && self.loca.unwrap().spec_offset(glyph_id.0 as int + 1)
                - self.loca.unwrap().spec_offset(glyph_id.0 as int) >= 10,
            match r {
                Some(rect) => {
                    &&& self.loca is Some
                    &&& self.glyf is Some
                    &&& {
                        let start = self.loca.unwrap().spec_offset(glyph_id.0 as int);
                        &&& self.loca.unwrap().spec_offset(glyph_id.0 as int + 1) - start >= 10
                        &&& rect.x_min as int == parser::be_i16_at(self.glyf.unwrap()@, start + 2)
                        &&& rect.y_min as int == parser::be_i16_at(self.glyf.unwrap()@, start + 4)
                        &&& rect.x_max as int == parser::be_i16_at(self.glyf.unwrap()@, start + 6)
                        &&& rect.y_max as int == parser::be_i16_at(self.glyf.unwrap()@, start + 8)
                    }
                },
                None => true,
            },
    {
        let loca_table = match &self.loca {
            Some(t) => t,
            None => {
                return None;
            },
        };
        let glyf_data: &'a [u8] = match self.glyf {
            Some(d) => d,
            None => {
                return None;
            },
        };
        glyf::glyph_bbox(loca_table, glyf_data, glyph_id)
    }

    /// Returns a tight glyph bounding box, accumulated by running the
    /// outline through a discarding receiver and folding every emitted
    /// point — control points included — into a box.
    ///
    /// That the box is exactly the hull of the emitted points is the
    /// walking state's invariant, kept by `glyf::outline`; the final
    /// corners are clamped into the 16-bit range by `BBox::to_rect`, whose
    /// contract fixes the truncation exactly.
    pub fn glyph_tight_bounding_box(&self, glyph_id: GlyphId) -> (r: (
        Option<Rect>,
        Ghost<glyf::OutlineState>,
    ))
        requires
            self.wf(),
        ensures
            r.0 is Some <==> self.loca is Some && self.glyf is Some && glyf::spec_has_glyph_data(
                self.loca.unwrap(),
                self.glyf.unwrap()@,
                glyph_id.0 as int,
            ) && glyf::spec_outline_ok(
                self.loca.unwrap(),
                self.glyf.unwrap()@,
                self.glyf.unwrap()@.subrange(
                    self.loca.unwrap().spec_offset(glyph_id.0 as int),
                    self.loca.unwrap().spec_offset(glyph_id.0 as int + 1),
                ),
                0,
            ) && r.1@.bbox != glyf::BBox::spec_new() && -0x80000000 <= r.1@.bbox.x_min
                <= 0x7FFF0000 && -0x80000000 <= r.1@.bbox.y_min <= 0x7FFF0000 && -0x80000000
                <= r.1@.bbox.x_max <= 0x7FFF0000 && -0x80000000 <= r.1@.bbox.y_max <= 0x7FFF0000,
            r.0 is Some ==> {
                let b = r.1@.bbox;
                &&& glyf::spec_bbox_is_hull(b, r.1@.emitted@)
                &&& r.1@.emitted@.len() > 0
                &&& r.0.unwrap().x_min as int == glyf::spec_fixed_trunc(b.x_min as int)
                &&& r.0.unwrap().y_min as int == glyf::spec_fixed_trunc(b.y_min as int)
                &&& r.0.unwrap().x_max as int == glyf::spec_fixed_trunc(b.x_max as int)
                &&& r.0.unwrap().y_max as int == glyf::spec_fixed_trunc(b.y_max as int)
            },
    {
        let mut state = glyf::OutlineState::new(glyf::Transform::identity());
        let loca_table = match &self.loca {
            Some(t) => t,
            None => {
                return (None, Ghost(state));
            },
        };
        let glyf_data: &'a [u8] = match self.glyf {
            Some(d) => d,
            None => {
                return (None, Ghost(state));
            },
        };
        let mut sink = DummyOutline;
        match glyf::outline(loca_table, glyf_data, glyph_id, &mut state, &mut sink) {
            Some(_) => {},
            None => {
                return (None, Ghost(state));
            },
        }
        if state.bbox.is_default() {
            return (None, Ghost(state));
        }
        let rect = state.bbox.to_rect();
        proof {
            if state.emitted@.len() == 0 {
                assert(state.bbox == glyf::BBox::spec_new());
            }
        }
        (rect, Ghost(state))
    }
}

/// Setting one coordinate twice to one value is setting it once: with
/// `set_variation`'s contract on a font without an axis-variations table,
/// repeating a call changes nothing the first call did not already do.
pub proof fn lemma_set_variation_idempotent(coords: Seq<i16>, i: int, v: i16)
    requires
        0 <= i < coords.len(),
    ensures
        coords.update(i, v).update(i, v) == coords.update(i, v),
{
    assert(coords.update(i, v).update(i, v) =~= coords.update(i, v));
}

} // verus!
