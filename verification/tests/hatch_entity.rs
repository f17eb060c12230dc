use std::collections::{HashMap, VecDeque};

use acadrust::hatch_entity::{BoundaryEdge, HatchPatternType, HatchStyleType};
use acadrust::object_reader::DwgObjectReader;
use acadrust::stream_reader::DwgStreamReaderBase;
use acadrust::stream_set::StreamSet;
use acadrust::templates::CadTemplate;
use acadrust::version::DxfVersion;

/// Bits written most significant first, packed into bytes.
struct Bits {
    bits: Vec<bool>,
}

impl Bits {
    fn new() -> Bits {
        Bits { bits: Vec::new() }
    }

    fn code(mut self, value: u8, n: u32) -> Bits {
        for i in (0..n).rev() {
            self.bits.push((value >> i) & 1 == 1);
        }
        self
    }

    fn bytes(mut self, bytes: &[u8]) -> Bits {
        for &b in bytes {
            self = self.code(b, 8);
        }
        self
    }

    fn finish(self) -> Vec<u8> {
        let mut out = Vec::new();
        for chunk in self.bits.chunks(8) {
            let mut byte = 0u8;
            for (i, &bit) in chunk.iter().enumerate() {
                if bit {
                    byte |= 1 << (7 - i);
                }
            }
            out.push(byte);
        }
        out
    }
}

fn reader_over(version: DxfVersion, data: Vec<u8>) -> DwgObjectReader {
    DwgObjectReader::new(version, data, VecDeque::new(), HashMap::new(), &[])
}

/// The streams of an object whose data starts at byte 0 of `data`, whose
/// strings start at byte `text_at` and whose handles start at byte
/// `handles_at`, read merged.
fn merged_streams(version: DxfVersion, data: &[u8], text_at: u64, handles_at: u64) -> StreamSet {
    StreamSet {
        object_reader: DwgStreamReaderBase::new(data.to_vec(), version),
        text_reader: DwgStreamReaderBase::new_at(data.to_vec(), version, text_at),
        handles_reader: DwgStreamReaderBase::new_at(data.to_vec(), version, handles_at),
        merged: true,
        has_separate_text_reader: true,
        current_handle: 0,
    }
}


/// The common data of an R2010 entity with handle 0x2A: no extended data,
/// no graphics, model space, no reactors, no dictionary, color index 7,
/// linetype scale 1.0, linetype and plot style by layer, no material,
/// shadows, visible, lineweight 0x1D; its layer handle comes first in the
/// handle stream.
fn r2010_entity() -> Bits {
    Bits::new()
        .bytes(&[0x51, 0x2A])
        .code(0b10, 2)
        .code(0b0, 1)
        .code(0b10, 2)
        .code(0b10, 2)
        .code(0b1, 1)
        .code(0b01, 2).bytes(&[7])
        .code(0b01, 2)
        .code(0b00, 2)
        .code(0b00, 2).bytes(&[0])
        .code(0b00, 2)
        .code(0b000, 3)
        .code(0b10, 2)
        .bytes(&[0x1D])
}

fn raw(b: Bits, x: f64) -> Bits {
    b.bytes(&x.to_bits().to_le_bytes())
}

/// `data` with the object bits padded to `handles_at` bytes, then the
/// handle stream, then the string stream; the start of the strings.
fn layout(object: Vec<u8>, handles_at: usize, handles: &[u8], strings: Vec<u8>) -> (Vec<u8>, u64) {
    let mut data = object;
    assert!(data.len() <= handles_at);
    data.resize(handles_at, 0);
    data.extend(handles);
    let text_at = data.len() as u64;
    data.extend(strings);
    (data, text_at)
}


fn codes(mut b: Bits, cs: &[u8]) -> Bits {
    for &c in cs {
        b = b.code(c, 2);
    }
    b
}

fn short_text(b: Bits, s: &str) -> Bits {
    let mut b = b.code(0b01, 2).bytes(&[s.len() as u8]);
    for c in s.bytes() {
        b = b.bytes(&[c, 0]);
    }
    b
}

#[test]
fn solid_hatch_with_polyline_and_edge_paths() {
    // No gradient; elevation 0, normal (0, 0, 1); solid, not associative;
    // two paths.
    let mut bits = codes(r2010_entity(), &[0b10, 0b10, 0b10, 0b10, 0b01]);
    bits = bits.code(0b1, 1).code(0b0, 1).code(0b01, 2).bytes(&[2]);
    // A polyline path with bulges: (0, 0) bulge 0, (1, 0) bulge 0.5.
    bits = bits.code(0b01, 2).bytes(&[2]).code(0b1, 1).code(0b1, 1).code(0b01, 2).bytes(&[2]);
    bits = raw(raw(bits, 0.0), 0.0).code(0b10, 2);
    bits = raw(raw(bits, 1.0), 0.0);
    bits = raw(bits.code(0b00, 2), 0.5).code(0b10, 2);
    // An edge path: a line, an edge of unknown type, a circular arc.
    bits = bits.code(0b10, 2).code(0b01, 2).bytes(&[3]);
    bits = bits.bytes(&[1]);
    for x in [0.0, 0.0, 1.0, 1.0] {
        bits = raw(bits, x);
    }
    bits = bits.bytes(&[9]).bytes(&[2]);
    bits = raw(raw(bits, 0.0), 0.0);
    bits = codes(bits, &[0b01, 0b10, 0b01]).code(0b1, 1).code(0b10, 2);
    // Style outer, predefined pattern; no pixel size; one seed (5, 6).
    bits = bits.code(0b01, 2).bytes(&[1]).code(0b01, 2).bytes(&[1]);
    bits = bits.code(0b0, 1).code(0b01, 2).bytes(&[1]);
    bits = raw(raw(bits, 5.0), 6.0);
    // Boundary objects: one for the first path, none for the second.
    bits = bits.code(0b01, 2).bytes(&[1]).code(0b10, 2);
    let strings = short_text(Bits::new(), "SOLID").finish();
    let (data, text_at) = layout(bits.finish(), 160, &[0x51, 0x0F, 0x41, 0x77], strings);
    let mut reader = reader_over(DxfVersion::AC1024, data.clone());
    let mut streams = merged_streams(DxfVersion::AC1024, &data, text_at, 160);
    let one = 1.0f64.to_bits();
    match reader.read_hatch(&mut streams).unwrap() {
        CadTemplate::Hatch { hatch_data, entity, .. } => {
            assert_eq!(hatch_data.boundary_handles, vec![vec![0x77], vec![]]);
            assert!(!entity.gradient.enabled);
            assert_eq!(entity.normal, (0, 0, one));
            assert_eq!(entity.pattern_name, "SOLID");
            assert!(entity.is_solid);
            assert!(!entity.is_associative);
            assert_eq!(entity.style, HatchStyleType::Outer);
            assert_eq!(entity.pattern_type, HatchPatternType::Predefined);
            assert_eq!(entity.pattern_angle, 0);
            assert_eq!(entity.pattern_scale, one);
            assert!(entity.pattern_lines.is_empty());
            assert_eq!(entity.seed_points, vec![(5.0f64.to_bits(), 6.0f64.to_bits())]);
            assert_eq!(entity.pixel_size, 0);
            assert_eq!(entity.paths.len(), 2);
            assert_eq!(entity.paths[0].flags, 2);
            match &entity.paths[0].edges[..] {
                [BoundaryEdge::Polyline { vertices, is_closed }] => {
                    assert!(*is_closed);
                    assert_eq!(vertices, &vec![(0, 0, 0), (one, 0, 0.5f64.to_bits())]);
                },
                _ => panic!("not one polyline edge"),
            }
            assert_eq!(entity.paths[1].flags, 0);
            match &entity.paths[1].edges[..] {
                [BoundaryEdge::Line { start, end }, BoundaryEdge::CircularArc { radius, end_angle,
                    counter_clockwise, .. }] => {
                    assert_eq!(*start, (0, 0));
                    assert_eq!(*end, (one, one));
                    assert_eq!(*radius, one);
                    assert_eq!(*end_angle, one);
                    assert!(*counter_clockwise);
                },
                _ => panic!("not a line and an arc"),
            }
        },
        _ => panic!("not a hatch"),
    }
}

#[test]
fn gradient_hatch_with_spline_edge_and_pattern_line() {
    // A gradient: reserved 0, angle 1.0, shift 0, single color, tint 0,
    // one color at 1.0; named G.
    let mut bits = r2010_entity().code(0b01, 2).bytes(&[1]);
    bits = codes(bits, &[0b10, 0b01, 0b10]).code(0b01, 2).bytes(&[1]).code(0b10, 2);
    bits = bits.code(0b01, 2).bytes(&[1]).code(0b01, 2).code(0b10, 2).code(0b10, 2).bytes(&[0]);
    // Not solid, associative, one path.
    bits = codes(bits, &[0b10, 0b10, 0b10, 0b01]).code(0b0, 1).code(0b1, 1).code(0b01, 2).bytes(&[1]);
    // An edge path with one spline of degree 3: knots 0 and 1, one control
    // point (1, 2), no fit points.
    bits = bits.code(0b10, 2).code(0b01, 2).bytes(&[1]).bytes(&[4]);
    bits = bits.code(0b01, 2).bytes(&[3]).code(0b0, 1).code(0b0, 1);
    bits = bits.code(0b01, 2).bytes(&[2]).code(0b01, 2).bytes(&[1]);
    bits = bits.code(0b10, 2).code(0b01, 2);
    bits = raw(raw(bits, 1.0), 2.0);
    bits = bits.code(0b10, 2).code(0b10, 2);
    // Normal style, user-defined pattern: angle 0, scale 1, double, one
    // line through (0, 0) offset (0, 1) with dashes 1 and 0.
    bits = bits.code(0b10, 2).code(0b10, 2).code(0b10, 2).code(0b01, 2).code(0b1, 1).code(0b01, 2).bytes(&[1]);
    bits = bits.code(0b10, 2);
    for x in [0.0, 0.0, 0.0, 1.0] {
        bits = raw(bits, x);
    }
    bits = bits.code(0b01, 2).bytes(&[2]).code(0b01, 2).code(0b10, 2);
    // Pixel size 0.25, no seeds, no boundary objects.
    bits = raw(bits.code(0b1, 1).code(0b00, 2), 0.25).code(0b10, 2);
    bits = bits.code(0b10, 2);
    let strings = short_text(short_text(Bits::new(), "G"), "P").finish();
    let (data, text_at) = layout(bits.finish(), 96, &[0x51, 0x0F], strings);
    let mut reader = reader_over(DxfVersion::AC1024, data.clone());
    let mut streams = merged_streams(DxfVersion::AC1024, &data, text_at, 96);
    let one = 1.0f64.to_bits();
    match reader.read_hatch(&mut streams).unwrap() {
        CadTemplate::Hatch { hatch_data, entity, .. } => {
            assert_eq!(hatch_data.boundary_handles, vec![Vec::<u64>::new()]);
            let g = &entity.gradient;
            assert!(g.enabled);
            assert_eq!(g.angle, one);
            assert!(g.is_single_color);
            assert_eq!(g.colors.len(), 1);
            assert_eq!(g.colors[0].value, one);
            assert_eq!(g.name, "G");
            assert_eq!(entity.pattern_name, "P");
            assert!(!entity.is_solid);
            assert!(entity.is_associative);
            assert_eq!(entity.style, HatchStyleType::Normal);
            assert_eq!(entity.pattern_type, HatchPatternType::UserDefined);
            assert_eq!(entity.pattern_scale, one);
            assert!(entity.is_double);
            assert_eq!(entity.pattern_lines.len(), 1);
            assert_eq!(entity.pattern_lines[0].offset, (0, one));
            assert_eq!(entity.pattern_lines[0].dash_lengths, vec![one, 0]);
            assert_eq!(f64::from_bits(entity.pixel_size), 0.25);
            match &entity.paths[0].edges[..] {
                [BoundaryEdge::Spline { degree, rational, knots, control_points, fit_points, start_tangent, .. }] => {
                    assert_eq!(*degree, 3);
                    assert!(!*rational);
                    assert_eq!(knots, &vec![0, one]);
                    assert_eq!(control_points, &vec![(one, 2.0f64.to_bits(), one)]);
                    assert!(fit_points.is_empty());
                    assert_eq!(*start_tangent, (0, 0));
                },
                _ => panic!("not one spline edge"),
            }
        },
        _ => panic!("not a hatch"),
    }
}
