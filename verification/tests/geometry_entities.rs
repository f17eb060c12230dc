use std::collections::{HashMap, VecDeque};

use acadrust::object_reader::DwgObjectReader;
use acadrust::stream_reader::DwgStreamReaderBase;
use acadrust::stream_set::StreamSet;
use acadrust::templates::CadTemplate;
use acadrust::version::DxfVersion;

/// Bits written most significant first, packed into bytes.
struct Bits {
    bits: Vec<bool>,
}

impl Bits {
    fn new() -> Bits {
        Bits { bits: Vec::new() }
    }

    fn code(mut self, value: u8, n: u32) -> Bits {
        for i in (0..n).rev() {
            self.bits.push((value >> i) & 1 == 1);
        }
        self
    }

    fn bytes(mut self, bytes: &[u8]) -> Bits {
        for &b in bytes {
            self = self.code(b, 8);
        }
        self
    }

    fn finish(self) -> Vec<u8> {
        let mut out = Vec::new();
        for chunk in self.bits.chunks(8) {
            let mut byte = 0u8;
            for (i, &bit) in chunk.iter().enumerate() {
                if bit {
                    byte |= 1 << (7 - i);
                }
            }
            out.push(byte);
        }
        out
    }
}

fn reader_over(version: DxfVersion, data: Vec<u8>) -> DwgObjectReader {
    DwgObjectReader::new(version, data, VecDeque::new(), HashMap::new(), &[])
}

/// The streams of an object whose data starts at byte 0 of `data`, whose
/// strings start at byte `text_at` and whose handles start at byte
/// `handles_at`, read merged.
fn merged_streams(version: DxfVersion, data: &[u8], text_at: u64, handles_at: u64) -> StreamSet {
    StreamSet {
        object_reader: DwgStreamReaderBase::new(data.to_vec(), version),
        text_reader: DwgStreamReaderBase::new_at(data.to_vec(), version, text_at),
        handles_reader: DwgStreamReaderBase::new_at(data.to_vec(), version, handles_at),
        merged: true,
        has_separate_text_reader: true,
        current_handle: 0,
    }
}


/// The common data of an R2010 entity with handle 0x2A: no extended data,
/// no graphics, model space, no reactors, no dictionary, color index 7,
/// linetype scale 1.0, linetype and plot style by layer, no material,
/// shadows, visible, lineweight 0x1D; its layer handle comes first in the
/// handle stream.
fn r2010_entity() -> Bits {
    Bits::new()
        .bytes(&[0x51, 0x2A])
        .code(0b10, 2)
        .code(0b0, 1)
        .code(0b10, 2)
        .code(0b10, 2)
        .code(0b1, 1)
        .code(0b01, 2).bytes(&[7])
        .code(0b01, 2)
        .code(0b00, 2)
        .code(0b00, 2).bytes(&[0])
        .code(0b00, 2)
        .code(0b000, 3)
        .code(0b10, 2)
        .bytes(&[0x1D])
}

fn raw(b: Bits, x: f64) -> Bits {
    b.bytes(&x.to_bits().to_le_bytes())
}

/// `data` with the object bits padded to `handles_at` bytes, then the
/// handle stream, then the string stream; the start of the strings.
fn layout(object: Vec<u8>, handles_at: usize, handles: &[u8], strings: Vec<u8>) -> (Vec<u8>, u64) {
    let mut data = object;
    assert!(data.len() <= handles_at);
    data.resize(handles_at, 0);
    data.extend(handles);
    let text_at = data.len() as u64;
    data.extend(strings);
    (data, text_at)
}


fn one() -> u64 {
    1.0f64.to_bits()
}

fn read_with<T>(data: &[u8], handles_at: u64, text_at: u64,
    f: impl FnOnce(&mut DwgObjectReader, &mut StreamSet) -> T) -> (T, StreamSet) {
    let mut reader = reader_over(DxfVersion::AC1024, data.to_vec());
    let mut streams = merged_streams(DxfVersion::AC1024, data, text_at, handles_at);
    let t = f(&mut reader, &mut streams);
    (t, streams)
}

#[test]
fn line_with_zero_z_and_default_end_y() {
    // Both Z zero; X from 1.0 to 4.0; Y 2.0 at both ends; default
    // thickness and normal.
    let mut bits = r2010_entity().code(0b1, 1);
    bits = raw(bits, 1.0);
    bits = raw(bits.code(0b11, 2), 4.0);
    bits = raw(bits, 2.0).code(0b00, 2);
    bits = bits.code(0b1, 1).code(0b1, 1);
    let (data, text_at) = layout(bits.finish(), 48, &[0x51, 0x0F], Vec::new());
    let (t, _) = read_with(&data, 48, text_at, |r, s| r.read_line(s));
    match t.unwrap() {
        CadTemplate::Entity { common, entity_data, entity } => {
            assert_eq!(common.handle, 0x2A);
            assert_eq!(entity_data.layer_handle, 0x0F);
            assert_eq!(entity.start, (one(), 2.0f64.to_bits(), 0));
            assert_eq!(entity.end, (4.0f64.to_bits(), 2.0f64.to_bits(), 0));
            assert_eq!(entity.thickness, 0);
            assert_eq!(entity.normal, (0, 0, one()));
        },
        _ => panic!("not a plain entity"),
    }
}

#[test]
fn circle_and_arc_read_their_values() {
    // Center (1, 1, 0), radius 2.5, default thickness and normal; the arc
    // adds angles 0.0 and 1.0.
    let base = |b: Bits| raw(b.code(0b01, 2).code(0b01, 2).code(0b10, 2).code(0b00, 2), 2.5)
        .code(0b1, 1).code(0b1, 1);
    let (data, text_at) = layout(base(r2010_entity()).finish(), 32, &[0x51, 0x0F], Vec::new());
    let (t, _) = read_with(&data, 32, text_at, |r, s| r.read_circle(s));
    match t.unwrap() {
        CadTemplate::Entity { entity, .. } => {
            assert_eq!(entity.center, (one(), one(), 0));
            assert_eq!(f64::from_bits(entity.radius), 2.5);
            assert_eq!(entity.thickness, 0);
            assert_eq!(entity.normal, (0, 0, one()));
        },
        _ => panic!("not a plain entity"),
    }
    let arc_bits = base(r2010_entity()).code(0b10, 2).code(0b01, 2);
    let (data, text_at) = layout(arc_bits.finish(), 32, &[0x51, 0x0F], Vec::new());
    let (t, _) = read_with(&data, 32, text_at, |r, s| r.read_arc(s));
    match t.unwrap() {
        CadTemplate::Entity { entity, .. } => {
            assert_eq!(f64::from_bits(entity.radius), 2.5);
            assert_eq!(entity.start_angle, 0);
            assert_eq!(entity.end_angle, one());
        },
        _ => panic!("not a plain entity"),
    }
}

#[test]
fn point_keeps_its_thickness() {
    let bits = r2010_entity().code(0b10, 2).code(0b10, 2).code(0b01, 2)
        .code(0b0, 1).code(0b01, 2).code(0b1, 1).code(0b10, 2);
    let (data, text_at) = layout(bits.finish(), 32, &[0x51, 0x0F], Vec::new());
    let (t, _) = read_with(&data, 32, text_at, |r, s| r.read_point(s));
    match t.unwrap() {
        CadTemplate::Entity { entity, .. } => {
            assert_eq!(entity.location, (0, 0, one()));
            assert_eq!(entity.thickness, one());
            assert_eq!(entity.normal, (0, 0, one()));
        },
        _ => panic!("not a plain entity"),
    }
}

#[test]
fn ellipse_ray_and_xline() {
    let mut bits = r2010_entity();
    for code in [0b10u8, 0b10, 0b10, 0b01, 0b10, 0b10, 0b10, 0b10, 0b01] {
        bits = bits.code(code, 2);
    }
    bits = raw(bits.code(0b00, 2), 0.5).code(0b10, 2).code(0b01, 2);
    let (data, text_at) = layout(bits.finish(), 40, &[0x51, 0x0F], Vec::new());
    let (t, _) = read_with(&data, 40, text_at, |r, s| r.read_ellipse(s));
    match t.unwrap() {
        CadTemplate::Entity { entity, .. } => {
            assert_eq!(entity.center, (0, 0, 0));
            assert_eq!(entity.major_axis, (one(), 0, 0));
            assert_eq!(entity.normal, (0, 0, one()));
            assert_eq!(f64::from_bits(entity.minor_axis_ratio), 0.5);
            assert_eq!(entity.start_parameter, 0);
            assert_eq!(entity.end_parameter, one());
        },
        _ => panic!("not a plain entity"),
    }
    let mut bits = r2010_entity();
    for code in [0b01u8, 0b10, 0b10, 0b10, 0b01, 0b10] {
        bits = bits.code(code, 2);
    }
    let (data, text_at) = layout(bits.finish(), 24, &[0x51, 0x0F], Vec::new());
    for xline in [false, true] {
        let (t, _) = read_with(&data, 24, text_at, |r, s| if xline { r.read_xline(s) } else { r.read_ray(s) });
        match t.unwrap() {
            CadTemplate::Entity { entity, .. } => {
                assert_eq!(entity.base_point, (one(), 0, 0));
                assert_eq!(entity.direction, (0, one(), 0));
            },
            _ => panic!("not a plain entity"),
        }
    }
}

#[test]
fn solid_corners_take_the_elevation() {
    let mut bits = r2010_entity().code(0b1, 1).code(0b01, 2);
    for x in [0.0, 0.0, 2.0, 0.0, 0.0, 2.0, 2.0, 2.0] {
        bits = raw(bits, x);
    }
    bits = bits.code(0b1, 1);
    let (data, text_at) = layout(bits.finish(), 88, &[0x51, 0x0F], Vec::new());
    let (t, _) = read_with(&data, 88, text_at, |r, s| r.read_solid(s));
    let two = 2.0f64.to_bits();
    match t.unwrap() {
        CadTemplate::Entity { entity, .. } => {
            assert_eq!(entity.first_corner, (0, 0, one()));
            assert_eq!(entity.second_corner, (two, 0, one()));
            assert_eq!(entity.third_corner, (0, two, one()));
            assert_eq!(entity.fourth_corner, (two, two, one()));
            assert_eq!(entity.thickness, 0);
            assert_eq!(entity.normal, (0, 0, one()));
        },
        _ => panic!("not a plain entity"),
    }
}

#[test]
fn shape_reads_its_file_handle() {
    let mut bits = r2010_entity().code(0b10, 2).code(0b10, 2).code(0b10, 2);
    bits = bits.code(0b01, 2).code(0b10, 2).code(0b01, 2).code(0b10, 2);
    bits = bits.code(0b1, 1).code(0b1, 1).code(0b01, 2).bytes(&[7]);
    let (data, text_at) = layout(bits.finish(), 32, &[0x51, 0x0F, 0x41, 0x33], Vec::new());
    let (t, _) = read_with(&data, 32, text_at, |r, s| r.read_shape(s));
    match t.unwrap() {
        CadTemplate::Shape { shape_data, entity, .. } => {
            assert_eq!(shape_data.shape_file_handle, 0x33);
            assert_eq!(entity.size, one());
            assert_eq!(entity.relative_x_scale, one());
            assert_eq!(entity.rotation, 0);
            assert_eq!(entity.shape_number, 7);
        },
        _ => panic!("not a shape"),
    }
}

#[test]
fn face_corners_default_to_the_previous_corner() {
    // Edge flags stored, first Z zero; (0,0,0), (1,0,0), (1,1,0), (0,1,0);
    // edge flags 5.
    let mut bits = r2010_entity().code(0b0, 1).code(0b1, 1);
    bits = raw(raw(bits, 0.0), 0.0);
    bits = raw(bits.code(0b11, 2), 1.0).code(0b00, 2).code(0b00, 2);
    bits = bits.code(0b00, 2);
    bits = raw(bits.code(0b11, 2), 1.0).code(0b00, 2);
    bits = raw(bits.code(0b11, 2), 0.0).code(0b00, 2).code(0b00, 2);
    bits = bits.code(0b01, 2).bytes(&[5]);
    let (data, text_at) = layout(bits.finish(), 64, &[0x51, 0x0F], Vec::new());
    let (t, _) = read_with(&data, 64, text_at, |r, s| r.read_3d_face(s));
    match t.unwrap() {
        CadTemplate::Entity { entity, .. } => {
            assert_eq!(entity.first_corner, (0, 0, 0));
            assert_eq!(entity.second_corner, (one(), 0, 0));
            assert_eq!(entity.third_corner, (one(), one(), 0));
            assert_eq!(entity.fourth_corner, (0, one(), 0));
            assert_eq!(entity.invisible_edges, 5);
        },
        _ => panic!("not a plain entity"),
    }
}

#[test]
fn block_markers() {
    let strings = Bits::new().code(0b01, 2).bytes(&[2, b'B', 0, b'1', 0]).finish();
    let (data, text_at) = layout(r2010_entity().finish(), 16, &[0x51, 0x0F], strings);
    let (t, _) = read_with(&data, 16, text_at, |r, s| r.read_block(s));
    match t.unwrap() {
        CadTemplate::Entity { entity, .. } => {
            assert_eq!(entity.name, "B1");
            assert_eq!(entity.common.handle, 0x2A);
        },
        _ => panic!("not a plain entity"),
    }
    let (data, text_at) = layout(r2010_entity().finish(), 16, &[0x51, 0x0F], Vec::new());
    let (t, _) = read_with(&data, 16, text_at, |r, s| r.read_end_block(s));
    assert!(matches!(t.unwrap(), CadTemplate::Entity { entity, .. } if entity.common.handle == 0x2A));
    let (t, _) = read_with(&data, 16, text_at, |r, s| r.read_seqend(s));
    assert!(matches!(t.unwrap(), CadTemplate::Entity { entity, .. } if entity.common.handle == 0x2A));
}

#[test]
fn vertex_with_negative_start_width_skips_its_end_width() {
    let head = r2010_entity();
    let start = head.bits.len();
    let mut bits = head.bytes(&[0]).code(0b10, 2).code(0b10, 2).code(0b10, 2);
    bits = raw(bits.code(0b00, 2), -2.0);
    bits = bits.code(0b10, 2).code(0b10, 2).code(0b10, 2);
    let end = bits.bits.len();
    let (data, text_at) = layout(bits.finish(), 32, &[0x51, 0x0F], Vec::new());
    let (t, streams) = read_with(&data, 32, text_at, |r, s| r.read_vertex_2d(s));
    match t.unwrap() {
        CadTemplate::Entity { entity, .. } => assert_eq!(entity.dxf_name, "VERTEX_2D"),
        _ => panic!("not a plain entity"),
    }
    assert!(start < end);
    assert_eq!(streams.object_reader.position_in_bits(), end as i64);
}

#[test]
fn vertex_with_positive_start_width_reads_its_end_width() {
    let mut bits = r2010_entity().bytes(&[0]).code(0b10, 2).code(0b10, 2).code(0b10, 2);
    bits = bits.code(0b01, 2).code(0b01, 2).code(0b10, 2).code(0b10, 2).code(0b10, 2);
    let end = bits.bits.len();
    let (data, text_at) = layout(bits.finish(), 32, &[0x51, 0x0F], Vec::new());
    let (t, streams) = read_with(&data, 32, text_at, |r, s| r.read_vertex_2d(s));
    assert!(t.is_ok());
    assert_eq!(streams.object_reader.position_in_bits(), end as i64);
}

#[test]
fn other_vertices_are_named() {
    let bits = r2010_entity().bytes(&[3]).code(0b10, 2).code(0b10, 2).code(0b10, 2);
    let (data, text_at) = layout(bits.finish(), 32, &[0x51, 0x0F], Vec::new());
    let (t, _) = read_with(&data, 32, text_at, |r, s| r.read_vertex_3d(s));
    match t.unwrap() {
        CadTemplate::Entity { entity, .. } => assert_eq!(entity.dxf_name, "VERTEX_3D"),
        _ => panic!("not a plain entity"),
    }
    let bits = r2010_entity().code(0b01, 2).bytes(&[1]).code(0b01, 2).bytes(&[2]).code(0b01, 2).bytes(&[3])
        .code(0b10, 2);
    let (data, text_at) = layout(bits.finish(), 32, &[0x51, 0x0F], Vec::new());
    let (t, _) = read_with(&data, 32, text_at, |r, s| r.read_pface_vertex(s));
    match t.unwrap() {
        CadTemplate::Entity { entity, .. } => assert_eq!(entity.dxf_name, "VERTEX_PFACE_FACE"),
        _ => panic!("not a plain entity"),
    }
}
