use ttf_parser::gdef::{Class, GlyphClass};
use ttf_parser::glyf::Transform;
use ttf_parser::os2::Weight;
use ttf_parser::{fonts_in_collection, Font, GlyphId, OutlineBuilder, Rect, Tag, TableName};

const FIX: i64 = 65536;

fn push_u16(data: &mut Vec<u8>, v: u16) {
    data.push((v >> 8) as u8);
    data.push(v as u8);
}

fn push_i16(data: &mut Vec<u8>, v: i16) {
    push_u16(data, v as u16);
}

fn push_u32(data: &mut Vec<u8>, v: u32) {
    push_u16(data, (v >> 16) as u16);
    push_u16(data, v as u16);
}

/// Builds a font file from `(tag, bytes)` pairs, laying out a correct
/// table directory.
fn build_font(tables: &[(&[u8; 4], Vec<u8>)]) -> Vec<u8> {
    let mut data = Vec::new();
    push_u32(&mut data, 0x00010000);
    push_u16(&mut data, tables.len() as u16);
    push_u16(&mut data, 0);
    push_u16(&mut data, 0);
    push_u16(&mut data, 0);
    let mut offset = 12 + 16 * tables.len() as u32;
    for (tag, bytes) in tables {
        data.extend_from_slice(*tag);
        push_u32(&mut data, 0); // checksum
        push_u32(&mut data, offset);
        push_u32(&mut data, bytes.len() as u32);
        offset += bytes.len() as u32;
    }
    for (_, bytes) in tables {
        data.extend_from_slice(bytes);
    }
    data
}

fn build_head(index_to_loc_format: i16) -> Vec<u8> {
    let mut t = vec![0u8; 54];
    t[18] = 0x03; // 1000 units per em
    t[19] = 0xE8;
    t[50] = (index_to_loc_format >> 8) as u8;
    t[51] = index_to_loc_format as u8;
    t
}

fn build_hhea(ascender: i16, descender: i16, number_of_h_metrics: u16) -> Vec<u8> {
    let mut t = Vec::new();
    push_u32(&mut t, 0x00010000);
    push_i16(&mut t, ascender);
    push_i16(&mut t, descender);
    push_i16(&mut t, 0); // line gap
    while t.len() < 34 {
        t.push(0);
    }
    push_u16(&mut t, number_of_h_metrics);
    t
}

fn build_maxp(number_of_glyphs: u16) -> Vec<u8> {
    let mut t = Vec::new();
    push_u32(&mut t, 0x00005000);
    push_u16(&mut t, number_of_glyphs);
    t
}

fn build_loca_short(offsets: &[u16]) -> Vec<u8> {
    let mut t = Vec::new();
    for &o in offsets {
        push_u16(&mut t, o / 2);
    }
    t
}

/// A simple one-contour rectangle glyph traced clockwise with on-curve
/// points, with explicit 16-bit deltas throughout.
fn build_rect_glyph() -> Vec<u8> {
    let mut g = Vec::new();
    push_i16(&mut g, 1); // one contour
    push_i16(&mut g, 50);
    push_i16(&mut g, 0);
    push_i16(&mut g, 450);
    push_i16(&mut g, 750);
    push_u16(&mut g, 3); // last point index
    push_u16(&mut g, 0); // no instructions
    for _ in 0..4 {
        g.push(0x01); // on-curve, long x, long y
    }
    for dx in [50i16, 0, 400, 0] {
        push_i16(&mut g, dx);
    }
    for dy in [0i16, 750, 0, -750] {
        push_i16(&mut g, dy);
    }
    g
}

struct Recorder {
    cmds: Vec<(char, Vec<i64>)>,
}

impl OutlineBuilder for Recorder {
    fn move_to(&mut self, x: i64, y: i64) {
        self.cmds.push(('M', vec![x, y]));
    }

    fn line_to(&mut self, x: i64, y: i64) {
        self.cmds.push(('L', vec![x, y]));
    }

    fn quad_to(&mut self, x1: i64, y1: i64, x: i64, y: i64) {
        self.cmds.push(('Q', vec![x1, y1, x, y]));
    }

    fn curve_to(&mut self, x1: i64, y1: i64, x2: i64, y2: i64, x: i64, y: i64) {
        self.cmds.push(('C', vec![x1, y1, x2, y2, x, y]));
    }

    fn close(&mut self) {
        self.cmds.push(('Z', vec![]));
    }
}

#[test]
fn empty_font() {
    assert!(Font::from_data(&[], 0).is_none());
}

#[test]
fn incomplete_header() {
    let mut data = Vec::new();
    push_u32(&mut data, 0x00010000);
    push_u16(&mut data, 0); // numTables
    push_u16(&mut data, 0); // searchRange
    push_u16(&mut data, 0); // entrySelector
    push_u16(&mut data, 0); // rangeShift
    for i in 0..data.len() {
        assert!(Font::from_data(&data[0..i], 0).is_none());
    }
}

#[test]
fn zero_tables() {
    let mut data = Vec::new();
    push_u32(&mut data, 0x00010000);
    push_u16(&mut data, 0);
    push_u16(&mut data, 0);
    push_u16(&mut data, 0);
    push_u16(&mut data, 0);
    assert!(Font::from_data(&data, 0).is_none());
}

#[test]
fn tables_count_overflow() {
    let mut data = Vec::new();
    push_u32(&mut data, 0x00010000);
    push_u16(&mut data, u16::MAX);
    push_u16(&mut data, 0);
    push_u16(&mut data, 0);
    push_u16(&mut data, 0);
    assert!(Font::from_data(&data, 0).is_none());
}

#[test]
fn open_type_magic() {
    let mut data = Vec::new();
    push_u32(&mut data, 0x4F54544F);
    push_u16(&mut data, 0);
    push_u16(&mut data, 0);
    push_u16(&mut data, 0);
    push_u16(&mut data, 0);
    assert!(Font::from_data(&data, 0).is_none());
}

#[test]
fn unknown_magic() {
    let mut data = Vec::new();
    push_u32(&mut data, 0xFFFFFFFF);
    push_u16(&mut data, 0);
    push_u16(&mut data, 0);
    push_u16(&mut data, 0);
    push_u16(&mut data, 0);
    assert!(Font::from_data(&data, 0).is_none());
}

#[test]
fn empty_font_collection() {
    let mut data = Vec::new();
    push_u32(&mut data, 0x74746366); // ttcf
    push_u16(&mut data, 1); // majorVersion
    push_u16(&mut data, 0); // minorVersion
    push_u32(&mut data, 0); // numFonts
    assert_eq!(fonts_in_collection(&data), Some(0));
    assert!(Font::from_data(&data, 0).is_none());
}

#[test]
fn font_collection_num_fonts_overflow() {
    let mut data = Vec::new();
    push_u32(&mut data, 0x74746366);
    push_u16(&mut data, 1);
    push_u16(&mut data, 0);
    push_u32(&mut data, u32::MAX);
    assert_eq!(fonts_in_collection(&data), Some(u32::MAX));
    assert!(Font::from_data(&data, 0).is_none());
}

#[test]
fn font_index_overflow_1() {
    let mut data = Vec::new();
    push_u32(&mut data, 0x74746366);
    push_u16(&mut data, 1);
    push_u16(&mut data, 0);
    push_u32(&mut data, 1);
    assert_eq!(fonts_in_collection(&data), Some(1));
    assert!(Font::from_data(&data, u32::MAX).is_none());
}

#[test]
fn font_index_overflow_2() {
    let mut data = Vec::new();
    push_u32(&mut data, 0x74746366);
    push_u16(&mut data, 1);
    push_u16(&mut data, 0);
    push_u32(&mut data, u32::MAX);
    assert_eq!(fonts_in_collection(&data), Some(u32::MAX));
    assert!(Font::from_data(&data, u32::MAX - 1).is_none());
}

fn rect_font() -> Vec<u8> {
    let glyph = build_rect_glyph();
    let glyph_len = glyph.len() as u16;
    build_font(&[
        (b"glyf", glyph),
        (b"head", build_head(0)),
        (b"hhea", build_hhea(800, -200, 1)),
        (b"loca", build_loca_short(&[0, glyph_len, glyph_len])),
        (b"maxp", build_maxp(2)),
    ])
}

#[test]
fn rectangle_outline() {
    let data = rect_font();
    let font = Font::from_data(&data, 0).unwrap();
    let mut rec = Recorder { cmds: Vec::new() };
    let bbox = font.outline_glyph(GlyphId(0), &mut rec).unwrap();
    assert_eq!(
        bbox,
        Rect { x_min: 50, y_min: 0, x_max: 450, y_max: 750 }
    );
    let expected: Vec<(char, Vec<i64>)> = vec![
        ('M', vec![50 * FIX, 0]),
        ('L', vec![50 * FIX, 750 * FIX]),
        ('L', vec![450 * FIX, 750 * FIX]),
        ('L', vec![450 * FIX, 0]),
        ('L', vec![50 * FIX, 0]),
        ('Z', vec![]),
    ];
    assert_eq!(rec.cmds, expected);
    assert_eq!(
        font.glyph_bounding_box(GlyphId(0)),
        Some(Rect { x_min: 50, y_min: 0, x_max: 450, y_max: 750 })
    );
}

#[test]
fn tight_bounding_box_matches_emitted_points() {
    let data = rect_font();
    let font = Font::from_data(&data, 0).unwrap();
    // Every emitted coordinate of the rectangle is a corner, so the
    // tight box equals the header box.
    assert_eq!(
        font.glyph_tight_bounding_box(GlyphId(0)).0,
        Some(Rect { x_min: 50, y_min: 0, x_max: 450, y_max: 750 })
    );
}

#[test]
fn empty_glyph_range_is_absent() {
    let data = rect_font();
    let font = Font::from_data(&data, 0).unwrap();
    // Glyph 1 has an empty range in the location table.
    let mut rec = Recorder { cmds: Vec::new() };
    assert!(font.outline_glyph(GlyphId(1), &mut rec).is_none());
    assert!(rec.cmds.is_empty());
}

/// A composite component: translate by words, more components follow.
fn push_translate_component(g: &mut Vec<u8>, glyph: u16, dx: i16, dy: i16, more: bool) {
    let mut flags = 0x0001 | 0x0002;
    if more {
        flags |= 0x0020;
    }
    push_u16(g, flags);
    push_u16(g, glyph);
    push_i16(g, dx);
    push_i16(g, dy);
}

#[test]
fn composite_two_references() {
    let rect = build_rect_glyph();
    let rect_len = rect.len() as u16;
    let mut comp = Vec::new();
    push_i16(&mut comp, -1);
    push_i16(&mut comp, 0);
    push_i16(&mut comp, 0);
    push_i16(&mut comp, 500);
    push_i16(&mut comp, 800);
    // First: glyph 0 translated by (10, 0).
    push_translate_component(&mut comp, 0, 10, 0, true);
    // Second: glyph 0 scaled by one half.
    push_u16(&mut comp, 0x0001 | 0x0002 | 0x0008);
    push_u16(&mut comp, 0);
    push_i16(&mut comp, 0);
    push_i16(&mut comp, 0);
    push_i16(&mut comp, 0x2000); // 0.5 in f2.14
    let comp_len = comp.len() as u16;
    let mut glyf = rect.clone();
    glyf.extend_from_slice(&comp);
    let data = build_font(&[
        (b"glyf", glyf),
        (b"head", build_head(0)),
        (b"hhea", build_hhea(800, -200, 1)),
        (b"loca", build_loca_short(&[0, rect_len, rect_len + comp_len])),
        (b"maxp", build_maxp(2)),
    ]);
    let font = Font::from_data(&data, 0).unwrap();
    let mut rec = Recorder { cmds: Vec::new() };
    let bbox = font.outline_glyph(GlyphId(1), &mut rec).unwrap();
    assert_eq!(bbox, Rect { x_min: 0, y_min: 0, x_max: 500, y_max: 800 });
    // The receiver sees the rectangle twice: translated, then halved.
    assert_eq!(rec.cmds.len(), 12);
    assert_eq!(rec.cmds[0], ('M', vec![60 * FIX, 0]));
    assert_eq!(rec.cmds[1], ('L', vec![60 * FIX, 750 * FIX]));
    assert_eq!(rec.cmds[2], ('L', vec![460 * FIX, 750 * FIX]));
    assert_eq!(rec.cmds[6], ('M', vec![25 * FIX, 0]));
    assert_eq!(rec.cmds[7], ('L', vec![25 * FIX, 375 * FIX]));
    assert_eq!(rec.cmds[8], ('L', vec![225 * FIX, 375 * FIX]));
    assert_eq!(rec.cmds[11], ('Z', vec![]));
}

/// A chain of `n` glyphs: every glyph but the last references the next;
/// the last is the rectangle.
fn chain_font(n: u16) -> Vec<u8> {
    let rect = build_rect_glyph();
    let mut glyf = Vec::new();
    let mut offsets = vec![0u16];
    for i in 0..n - 1 {
        let mut comp = Vec::new();
        push_i16(&mut comp, -1);
        push_i16(&mut comp, 0);
        push_i16(&mut comp, 0);
        push_i16(&mut comp, 500);
        push_i16(&mut comp, 800);
        push_translate_component(&mut comp, i + 1, 0, 0, false);
        glyf.extend_from_slice(&comp);
        offsets.push(glyf.len() as u16);
    }
    glyf.extend_from_slice(&rect);
    offsets.push(glyf.len() as u16);
    build_font(&[
        (b"glyf", glyf),
        (b"head", build_head(0)),
        (b"hhea", build_hhea(800, -200, 1)),
        (b"loca", build_loca_short(&offsets)),
        (b"maxp", build_maxp(n)),
    ])
}

#[test]
fn composite_depth_limit() {
    // Thirty-two glyphs deep: the last reference still resolves.
    let data = chain_font(32);
    let font = Font::from_data(&data, 0).unwrap();
    let mut rec = Recorder { cmds: Vec::new() };
    assert!(font.outline_glyph(GlyphId(0), &mut rec).is_some());
    assert_eq!(rec.cmds.len(), 6);
    // One more level exceeds the recursion cap.
    let data = chain_font(33);
    let font = Font::from_data(&data, 0).unwrap();
    let mut rec = Recorder { cmds: Vec::new() };
    assert!(font.outline_glyph(GlyphId(0), &mut rec).is_none());
}

fn build_fvar_wght() -> Vec<u8> {
    let mut t = Vec::new();
    push_u32(&mut t, 0x00010000);
    push_u16(&mut t, 16); // axes array offset
    push_u16(&mut t, 2); // reserved
    push_u16(&mut t, 1); // axis count
    push_u16(&mut t, 20); // axis size
    push_u16(&mut t, 0); // instance count
    push_u16(&mut t, 0); // instance size
    t.extend_from_slice(b"wght");
    push_u32(&mut t, 100 << 16); // min
    push_u32(&mut t, 400 << 16); // default
    push_u32(&mut t, 900 << 16); // max
    push_u16(&mut t, 0); // flags
    push_u16(&mut t, 256); // name id
    t
}

/// A metrics variations table with one region peaking at the axis
/// maximum and one row whose single word delta is 100.
fn build_hvar() -> Vec<u8> {
    let mut t = Vec::new();
    push_u32(&mut t, 0x00010000);
    push_u32(&mut t, 16); // variation store offset
    push_u32(&mut t, 0); // no advance index map
    push_u32(&mut t, 0); // no side-bearing index map
    // The item variation store starts here (offset 16).
    push_u16(&mut t, 1); // format
    push_u32(&mut t, 22); // region list offset
    push_u16(&mut t, 1); // one subtable
    push_u32(&mut t, 12); // subtable offset
    // The subtable (offset 12 from the store).
    push_u16(&mut t, 1); // item count
    push_u16(&mut t, 1); // word delta count
    push_u16(&mut t, 1); // region index count
    push_u16(&mut t, 0); // region index 0
    push_i16(&mut t, 100); // the delta
    // The region list (offset 22 from the store).
    push_u16(&mut t, 1); // axis count
    push_u16(&mut t, 1); // region count
    push_i16(&mut t, 0); // start
    push_i16(&mut t, 16384); // peak
    push_i16(&mut t, 16384); // end
    t
}

fn build_hmtx_single(advance: u16, bearing: i16, extra_bearings: &[i16]) -> Vec<u8> {
    let mut t = Vec::new();
    push_u16(&mut t, advance);
    push_i16(&mut t, bearing);
    for &b in extra_bearings {
        push_i16(&mut t, b);
    }
    t
}

fn variable_font() -> Vec<u8> {
    build_font(&[
        (b"HVAR", build_hvar()),
        (b"fvar", build_fvar_wght()),
        (b"head", build_head(0)),
        (b"hhea", build_hhea(800, -200, 1)),
        (b"hmtx", build_hmtx_single(500, 10, &[0])),
        (b"maxp", build_maxp(2)),
    ])
}

#[test]
fn set_variation_normalizes_to_axis_range() {
    let data = variable_font();
    let mut font = Font::from_data(&data, 0).unwrap();
    assert!(font.is_variable());
    let wght = Tag::from_bytes(b"wght");
    assert!(font.set_variation(wght, 400 << 16).is_some());
    assert_eq!(font.coordinates.data[0], 0);
    assert!(font.set_variation(wght, 900 << 16).is_some());
    assert_eq!(font.coordinates.data[0], 16384);
    assert!(font.set_variation(wght, 100 << 16).is_some());
    assert_eq!(font.coordinates.data[0], -16384);
    // Saturation beyond the ends.
    assert!(font.set_variation(wght, 1200 << 16).is_some());
    assert_eq!(font.coordinates.data[0], 16384);
    // An unknown axis fails and leaves the state unchanged.
    assert!(font.set_variation(Tag::from_bytes(b"wdth"), 100 << 16).is_none());
    assert_eq!(font.coordinates.data[0], 16384);
}

#[test]
fn set_variation_is_idempotent() {
    let data = variable_font();
    let mut font = Font::from_data(&data, 0).unwrap();
    let wght = Tag::from_bytes(b"wght");
    assert!(font.set_variation(wght, 700 << 16).is_some());
    let once = font.coordinates.data.clone();
    assert!(font.set_variation(wght, 700 << 16).is_some());
    assert_eq!(font.coordinates.data, once);
}

#[test]
fn zero_coordinates_give_no_delta() {
    let data = variable_font();
    let mut font = Font::from_data(&data, 0).unwrap();
    // At the default position the variation delta vanishes and the
    // advance equals its non-variable value.
    assert_eq!(font.glyph_advance(GlyphId(0)), Some(500 * FIX));
    // At the axis maximum the region weight is one and the delta full.
    let wght = Tag::from_bytes(b"wght");
    assert!(font.set_variation(wght, 900 << 16).is_some());
    assert_eq!(font.glyph_advance(GlyphId(0)), Some(600 * FIX));
    // Back at the default the delta vanishes again.
    assert!(font.set_variation(wght, 400 << 16).is_some());
    assert_eq!(font.glyph_advance(GlyphId(0)), Some(500 * FIX));
}

#[test]
fn advance_past_metrics_count_shares_last() {
    let data = build_font(&[
        (b"head", build_head(0)),
        (b"hhea", build_hhea(800, -200, 1)),
        (b"hmtx", build_hmtx_single(500, 10, &[7])),
        (b"maxp", build_maxp(2)),
    ]);
    let font = Font::from_data(&data, 0).unwrap();
    assert_eq!(font.glyph_advance(GlyphId(0)), Some(500 * FIX));
    assert_eq!(font.glyph_advance(GlyphId(1)), Some(500 * FIX));
    assert_eq!(font.glyph_side_bearing(GlyphId(0)), Some(10 * FIX));
    assert_eq!(font.glyph_side_bearing(GlyphId(1)), Some(7 * FIX));
    assert!(font.glyph_advance(GlyphId(2)).is_none());
}

fn build_cmap_format4() -> Vec<u8> {
    let mut t = Vec::new();
    push_u16(&mut t, 0); // version
    push_u16(&mut t, 1); // one encoding record
    push_u16(&mut t, 3); // platform: Windows
    push_u16(&mut t, 1); // encoding: Unicode BMP
    push_u32(&mut t, 12); // subtable offset
    // The format-4 subtable.
    push_u16(&mut t, 4); // format
    push_u16(&mut t, 32); // length
    push_u16(&mut t, 0); // language
    push_u16(&mut t, 4); // segCountX2
    push_u16(&mut t, 0);
    push_u16(&mut t, 0);
    push_u16(&mut t, 0);
    push_u16(&mut t, 0x0043); // end codes: 'C'
    push_u16(&mut t, 0xFFFF);
    push_u16(&mut t, 0); // reserved pad
    push_u16(&mut t, 0x0041); // start codes: 'A'
    push_u16(&mut t, 0xFFFF);
    push_u16(&mut t, 0xFFC0u16); // id delta: glyph = code - 0x40
    push_u16(&mut t, 1);
    push_u16(&mut t, 0); // id range offsets
    push_u16(&mut t, 0);
    t
}

#[test]
fn glyph_index_is_below_glyph_count() {
    let data = build_font(&[
        (b"cmap", build_cmap_format4()),
        (b"head", build_head(0)),
        (b"hhea", build_hhea(800, -200, 1)),
        (b"maxp", build_maxp(3)),
    ]);
    let font = Font::from_data(&data, 0).unwrap();
    assert_eq!(font.glyph_index('A'), Some(GlyphId(1)));
    assert_eq!(font.glyph_index('B'), Some(GlyphId(2)));
    // 'C' resolves to glyph 3, at the glyph count, so it is absent.
    assert_eq!(font.glyph_index('C'), None);
    assert_eq!(font.glyph_index('D'), None);
    assert_eq!(font.number_of_glyphs(), 3);
}

#[test]
fn tables_and_metrics_queries() {
    let data = rect_font();
    let font = Font::from_data(&data, 0).unwrap();
    assert!(font.has_table(TableName::Header));
    assert!(font.has_table(TableName::GlyphData));
    assert!(font.has_table(TableName::IndexToLocation));
    assert!(!font.has_table(TableName::CharacterToGlyphIndexMapping));
    assert!(!font.has_table(TableName::WindowsMetrics));
    assert_eq!(font.ascender(), 800);
    assert_eq!(font.descender(), -200);
    assert_eq!(font.height(), Some(1000));
    assert_eq!(font.units_per_em(), Some(1000));
    assert!(!font.is_variable());
    assert!(!font.is_vertical());
    assert!(!font.is_bold());
    assert_eq!(font.weight(), Weight::Normal);
    assert_eq!(font.variation_axes().len(), 0);
}

#[test]
fn tag_operations() {
    let tag = Tag::from_bytes(b"wght");
    assert_eq!(tag.as_u32(), 0x77676874);
    assert_eq!(tag.to_bytes(), *b"wght");
    assert_eq!(tag.to_chars(), ['w', 'g', 'h', 't']);
    assert!(!tag.is_null());
    assert!(Tag(0).is_null());
    assert_eq!(Tag::from_bytes_lossy(b""), Tag(0));
    assert_eq!(Tag::from_bytes_lossy(b"ab"), Tag::from_bytes(b"ab  "));
    assert_eq!(Tag::from_bytes_lossy(b"abcdef"), Tag::from_bytes(b"abcd"));
    assert_eq!(Tag::from_bytes(b"OS/2").to_lowercase(), Tag::from_bytes(b"os/2"));
    assert_eq!(Tag::from_bytes(b"os/2").to_uppercase(), Tag::from_bytes(b"OS/2"));
    assert_eq!(Tag::default_script(), Tag::from_bytes(b"DFLT"));
    assert_eq!(Tag::default_language(), Tag::from_bytes(b"dflt"));
}

#[test]
fn transform_combination() {
    let translate = Transform::new_translate(10 * FIX, 0);
    let mut half = Transform::identity();
    half.a = FIX / 2;
    half.d = FIX / 2;
    let combined = Transform::combine(translate, half);
    // Scaling first, then translating: x' = x/2 + 10.
    let (x, y) = combined.apply_to(100 * FIX, 40 * FIX);
    assert_eq!(x, 60 * FIX);
    assert_eq!(y, 20 * FIX);
    // Composition against the identity changes nothing.
    let same = Transform::combine(Transform::identity(), half);
    assert_eq!(same, half);
}

#[test]
fn collection_entry_parses() {
    // A one-entry collection wrapping the rectangle font.
    let inner = rect_font();
    let mut data = Vec::new();
    push_u32(&mut data, 0x74746366);
    push_u16(&mut data, 1);
    push_u16(&mut data, 0);
    push_u32(&mut data, 1); // numFonts
    push_u32(&mut data, 16); // offset of font 0
    // The inner font's table directory offsets are relative to the file
    // start, so shift them.
    let shift = data.len() as u32;
    let mut inner_shifted = inner.clone();
    let num_tables = u16::from_be_bytes([inner[4], inner[5]]) as usize;
    for t in 0..num_tables {
        let pos = 12 + 16 * t + 8;
        let old = u32::from_be_bytes([inner[pos], inner[pos + 1], inner[pos + 2], inner[pos + 3]]);
        inner_shifted[pos..pos + 4].copy_from_slice(&(old + shift).to_be_bytes());
    }
    data.extend_from_slice(&inner_shifted);
    let font = Font::from_data(&data, 0).unwrap();
    assert_eq!(font.number_of_glyphs(), 2);
    assert!(Font::from_data(&data, 1).is_none());
}

fn build_kern() -> Vec<u8> {
    let mut t = Vec::new();
    push_u16(&mut t, 0); // version
    push_u16(&mut t, 1); // one subtable
    push_u16(&mut t, 0); // subtable version
    push_u16(&mut t, 20); // subtable length
    push_u16(&mut t, 0x0001); // horizontal, format 0
    push_u16(&mut t, 1); // one pair
    push_u16(&mut t, 0);
    push_u16(&mut t, 0);
    push_u16(&mut t, 0);
    push_u16(&mut t, 1); // left glyph
    push_u16(&mut t, 2); // right glyph
    push_i16(&mut t, -50);
    t
}

#[test]
fn kerning_pair_lookup() {
    let data = build_font(&[
        (b"head", build_head(0)),
        (b"hhea", build_hhea(800, -200, 1)),
        (b"kern", build_kern()),
        (b"maxp", build_maxp(3)),
    ]);
    let font = Font::from_data(&data, 0).unwrap();
    assert_eq!(font.glyphs_kerning(GlyphId(1), GlyphId(2)), Some(-50));
    assert_eq!(font.glyphs_kerning(GlyphId(2), GlyphId(1)), None);
}

#[test]
fn vertical_origin_lookup() {
    let mut vorg = Vec::new();
    push_u32(&mut vorg, 0x00010000);
    push_i16(&mut vorg, 880); // default origin
    push_u16(&mut vorg, 1); // one exception
    push_u16(&mut vorg, 5);
    push_i16(&mut vorg, 900);
    let data = build_font(&[
        (b"VORG", vorg),
        (b"head", build_head(0)),
        (b"hhea", build_hhea(800, -200, 1)),
        (b"maxp", build_maxp(8)),
    ]);
    let font = Font::from_data(&data, 0).unwrap();
    assert_eq!(font.glyph_y_origin(GlyphId(5)), Some(900));
    assert_eq!(font.glyph_y_origin(GlyphId(0)), Some(880));
}

#[test]
fn glyph_classes() {
    let mut gdef = Vec::new();
    push_u16(&mut gdef, 1); // major
    push_u16(&mut gdef, 0); // minor
    push_u16(&mut gdef, 12); // glyph class def offset
    push_u16(&mut gdef, 0); // attach list
    push_u16(&mut gdef, 0); // lig caret list
    push_u16(&mut gdef, 22); // mark attach class def offset
    // Class definition, dense format: glyphs 1..=2 get classes 3, 1.
    push_u16(&mut gdef, 1);
    push_u16(&mut gdef, 1); // start glyph
    push_u16(&mut gdef, 2); // count
    push_u16(&mut gdef, 3);
    push_u16(&mut gdef, 1);
    // Mark attachment classes, range format: glyphs 1..=1 get class 7.
    push_u16(&mut gdef, 2);
    push_u16(&mut gdef, 1); // one range
    push_u16(&mut gdef, 1);
    push_u16(&mut gdef, 1);
    push_u16(&mut gdef, 7);
    let data = build_font(&[
        (b"GDEF", gdef),
        (b"head", build_head(0)),
        (b"hhea", build_hhea(800, -200, 1)),
        (b"maxp", build_maxp(3)),
    ]);
    let font = Font::from_data(&data, 0).unwrap();
    assert_eq!(font.glyph_class(GlyphId(1)), Some(GlyphClass::Mark));
    assert_eq!(font.glyph_class(GlyphId(2)), Some(GlyphClass::Base));
    assert_eq!(font.glyph_class(GlyphId(0)), None);
    assert!(!font.has_glyph_classes());
    assert_eq!(font.glyph_mark_attachment_class(GlyphId(1)), Class(7));
    assert_eq!(font.glyph_mark_attachment_class(GlyphId(2)), Class(0));
    assert!(!font.is_mark_glyph(GlyphId(1), None));
}

#[test]
fn color_palette_tables() {
    // A palette table with two colors and one palette.
    let mut cpal = Vec::new();
    push_u16(&mut cpal, 0); // version
    push_u16(&mut cpal, 2); // colors per palette
    push_u16(&mut cpal, 1); // palette count
    push_u16(&mut cpal, 2); // color count
    push_u32(&mut cpal, 14); // color array offset
    push_u16(&mut cpal, 0); // palette 0 starts at color 0
    cpal.extend_from_slice(&[10, 20, 30, 40]); // b g r a
    cpal.extend_from_slice(&[50, 60, 70, 80]);
    let cpal_table = ttf_parser::tables::cpal::parse(&cpal).unwrap();
    let c = cpal_table.get_color(0, 1).unwrap();
    assert_eq!((c.b, c.g, c.r, c.a), (50, 60, 70, 80));
    assert!(cpal_table.get_color(0, 2).is_none());
    assert!(cpal_table.get_color(1, 0).is_none());
    // A layered color glyph table: base glyph 3 has two layers.
    let mut colr = Vec::new();
    push_u16(&mut colr, 0); // version
    push_u16(&mut colr, 1); // one base glyph
    push_u32(&mut colr, 14); // base glyph records offset
    push_u32(&mut colr, 20); // layer records offset
    push_u16(&mut colr, 2); // layer count
    push_u16(&mut colr, 3); // base glyph id
    push_u16(&mut colr, 0); // first layer
    push_u16(&mut colr, 2); // layer run length
    push_u16(&mut colr, 7); // layer 0: glyph
    push_u16(&mut colr, 0); // layer 0: palette slot
    push_u16(&mut colr, 8);
    push_u16(&mut colr, 1);
    let colr_table = ttf_parser::tables::colr::parse(&colr).unwrap();
    let mut layers = colr_table.get_layers(3).unwrap();
    let first = layers.next().unwrap();
    assert_eq!((first.glyph_id, first.palette_index), (7, 0));
    let second = layers.next().unwrap();
    assert_eq!((second.glyph_id, second.palette_index), (8, 1));
    assert!(layers.next().is_none());
    assert!(colr_table.get_layers(4).is_none());
}

#[test]
fn metrics_variation_lookup() {
    // A metrics variations table with one record for a made-up tag,
    // addressing the same store shape the advance test uses.
    let mut t = Vec::new();
    push_u32(&mut t, 0x00010000);
    push_u16(&mut t, 0); // reserved
    push_u16(&mut t, 8); // value record size
    push_u16(&mut t, 1); // one record
    push_u16(&mut t, 20); // variation store offset
    t.extend_from_slice(b"xhgt");
    push_u16(&mut t, 0); // outer
    push_u16(&mut t, 0); // inner
    // The item variation store (offset 20).
    push_u16(&mut t, 1); // format
    push_u32(&mut t, 22); // region list offset
    push_u16(&mut t, 1); // one subtable
    push_u32(&mut t, 12); // subtable offset
    push_u16(&mut t, 1); // item count
    push_u16(&mut t, 1); // word delta count
    push_u16(&mut t, 1); // region index count
    push_u16(&mut t, 0); // region index
    push_i16(&mut t, 64); // the delta
    push_u16(&mut t, 1); // axis count
    push_u16(&mut t, 1); // region count
    push_i16(&mut t, 0);
    push_i16(&mut t, 16384);
    push_i16(&mut t, 16384);
    let table = ttf_parser::mvar::Table::parse(&t).unwrap();
    let coords = vec![16384i16];
    let delta = ttf_parser::mvar::metrics_offset(&table, Tag::from_bytes(b"xhgt"), &coords);
    assert_eq!(delta, Some(64 * 16384));
    let miss = ttf_parser::mvar::metrics_offset(&table, Tag::from_bytes(b"hasc"), &coords);
    assert_eq!(miss, None);
    // At the default position the delta vanishes.
    let zero = ttf_parser::mvar::metrics_offset(&table, Tag::from_bytes(b"xhgt"), &vec![0i16]);
    assert_eq!(zero, Some(0));
}

fn build_avar_shift() -> Vec<u8> {
    let mut t = Vec::new();
    push_u32(&mut t, 0x00010000);
    push_u16(&mut t, 0); // reserved
    push_u16(&mut t, 1); // axis count
    push_u16(&mut t, 3); // three segment pairs
    push_i16(&mut t, -16384);
    push_i16(&mut t, -16384);
    push_i16(&mut t, 0);
    push_i16(&mut t, 0);
    push_i16(&mut t, 16384);
    push_i16(&mut t, 8192); // the positive end maps to one half
    t
}

#[test]
fn axis_remap_applies_after_set_variation() {
    let data = build_font(&[
        (b"avar", build_avar_shift()),
        (b"fvar", build_fvar_wght()),
        (b"head", build_head(0)),
        (b"hhea", build_hhea(800, -200, 1)),
        (b"maxp", build_maxp(2)),
    ]);
    let mut font = Font::from_data(&data, 0).unwrap();
    let wght = Tag::from_bytes(b"wght");
    assert!(font.set_variation(wght, 900 << 16).is_some());
    assert_eq!(font.coordinates.data[0], 8192);
    assert!(font.set_variation(wght, 400 << 16).is_some());
    assert_eq!(font.coordinates.data[0], 0);
}

#[test]
fn arbitrary_bytes_never_panic() {
    // A deterministic pseudo-random walk over byte buffers: every query
    // must return, absent or not, on any input.
    let mut seed: u64 = 0x1234_5678_9ABC_DEF0;
    for round in 0..64 {
        let len = (round * 7) % 256;
        let mut data = Vec::with_capacity(len);
        for _ in 0..len {
            seed = seed.wrapping_mul(6364136223846793005).wrapping_add(1442695040888963407);
            data.push((seed >> 33) as u8);
        }
        // Nudge some buffers toward the interesting magic values.
        if round % 3 == 0 && data.len() >= 4 {
            data[0..4].copy_from_slice(&0x00010000u32.to_be_bytes());
        }
        let _ = fonts_in_collection(&data);
        if let Some(mut font) = Font::from_data(&data, 0) {
            let _ = font.number_of_glyphs();
            let _ = font.ascender();
            let _ = font.descender();
            let _ = font.height();
            let _ = font.units_per_em();
            let _ = font.glyph_index('A');
            let _ = font.glyph_advance(GlyphId(0));
            let _ = font.glyph_side_bearing(GlyphId(0));
            let _ = font.glyph_bounding_box(GlyphId(0));
            let _ = font.glyph_tight_bounding_box(GlyphId(0)).0;
            let mut rec = Recorder { cmds: Vec::new() };
            let _ = font.outline_glyph(GlyphId(0), &mut rec);
            let _ = font.set_variation(Tag::from_bytes(b"wght"), 500 << 16);
            let _ = font.glyphs_kerning(GlyphId(0), GlyphId(1));
            let _ = font.glyph_y_origin(GlyphId(0));
            let _ = font.glyph_class(GlyphId(0));
        }
    }
}

fn build_cmap_with_uvs() -> Vec<u8> {
    let mut t = Vec::new();
    push_u16(&mut t, 0); // version
    push_u16(&mut t, 2); // two encoding records
    push_u16(&mut t, 3); // platform: Windows
    push_u16(&mut t, 1); // encoding: Unicode BMP
    push_u32(&mut t, 20); // format-4 subtable offset
    push_u16(&mut t, 0); // platform: Unicode
    push_u16(&mut t, 5); // encoding: variation sequences
    push_u32(&mut t, 52); // format-14 subtable offset
    // The format-4 subtable (offset 20, 32 bytes).
    push_u16(&mut t, 4);
    push_u16(&mut t, 32);
    push_u16(&mut t, 0);
    push_u16(&mut t, 4); // segCountX2
    push_u16(&mut t, 0);
    push_u16(&mut t, 0);
    push_u16(&mut t, 0);
    push_u16(&mut t, 0x0043);
    push_u16(&mut t, 0xFFFF);
    push_u16(&mut t, 0);
    push_u16(&mut t, 0x0041);
    push_u16(&mut t, 0xFFFF);
    push_u16(&mut t, 0xFFC0u16);
    push_u16(&mut t, 1);
    push_u16(&mut t, 0);
    push_u16(&mut t, 0);
    // The format-14 subtable (offset 52): one selector record.
    push_u16(&mut t, 14);
    push_u32(&mut t, 41); // length
    push_u32(&mut t, 1); // one variation-selector record
    // Record: selector FE00, default set at 21, non-default at 29.
    t.push(0x0F);
    t.push(0xE0);
    t.push(0x00);
    push_u32(&mut t, 21);
    push_u32(&mut t, 29);
    // Default set (offset 21 within the subtable): 'A' keeps its glyph.
    push_u32(&mut t, 1);
    t.push(0x00);
    t.push(0x00);
    t.push(0x41);
    t.push(0); // no additional code points
    // Non-default mappings (offset 29): 'B' + selector maps to glyph 2.
    push_u32(&mut t, 1);
    t.push(0x00);
    t.push(0x00);
    t.push(0x42);
    push_u16(&mut t, 2);
    t
}

#[test]
fn variation_sequence_lookup() {
    let data = build_font(&[
        (b"cmap", build_cmap_with_uvs()),
        (b"head", build_head(0)),
        (b"hhea", build_hhea(800, -200, 1)),
        (b"maxp", build_maxp(3)),
    ]);
    let font = Font::from_data(&data, 0).unwrap();
    let vs = char::from_u32(0xFE000).unwrap();
    // 'A' with the selector keeps its default glyph.
    assert_eq!(font.glyph_variation_index('A', vs), Some(GlyphId(1)));
    // 'B' with the selector maps to an explicit glyph.
    assert_eq!(font.glyph_variation_index('B', vs), Some(GlyphId(2)));
    // 'C' is in neither set.
    assert_eq!(font.glyph_variation_index('C', vs), None);
    // An unknown selector finds nothing.
    assert_eq!(font.glyph_variation_index('A', '\u{FE01}'), None);
}
