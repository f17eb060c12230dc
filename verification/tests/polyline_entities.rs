use std::collections::{HashMap, VecDeque};

use acadrust::error::DxfError;
use acadrust::object_reader::DwgObjectReader;
use acadrust::polyline_entities::SurfaceSmoothType;
use acadrust::stream_reader::DwgStreamReaderBase;
use acadrust::stream_set::StreamSet;
use acadrust::templates::CadTemplate;
use acadrust::version::DxfVersion;

/// Bits written most significant first, packed into bytes.
struct Bits {
    bits: Vec<bool>,
}

impl Bits {
    fn new() -> Bits {
        Bits { bits: Vec::new() }
    }

    fn code(mut self, value: u8, n: u32) -> Bits {
        for i in (0..n).rev() {
            self.bits.push((value >> i) & 1 == 1);
        }
        self
    }

    fn bytes(mut self, bytes: &[u8]) -> Bits {
        for &b in bytes {
            self = self.code(b, 8);
        }
        self
    }

    fn finish(self) -> Vec<u8> {
        let mut out = Vec::new();
        for chunk in self.bits.chunks(8) {
            let mut byte = 0u8;
            for (i, &bit) in chunk.iter().enumerate() {
                if bit {
                    byte |= 1 << (7 - i);
                }
            }
            out.push(byte);
        }
        out
    }
}

fn reader_over(version: DxfVersion, data: Vec<u8>) -> DwgObjectReader {
    DwgObjectReader::new(version, data, VecDeque::new(), HashMap::new(), &[])
}

/// The streams of an object whose data starts at byte 0 of `data`, whose
/// strings start at byte `text_at` and whose handles start at byte
/// `handles_at`, read merged.
fn merged_streams(version: DxfVersion, data: &[u8], text_at: u64, handles_at: u64) -> StreamSet {
    StreamSet {
        object_reader: DwgStreamReaderBase::new(data.to_vec(), version),
        text_reader: DwgStreamReaderBase::new_at(data.to_vec(), version, text_at),
        handles_reader: DwgStreamReaderBase::new_at(data.to_vec(), version, handles_at),
        merged: true,
        has_separate_text_reader: true,
        current_handle: 0,
    }
}


/// The common data of an R2010 entity with handle 0x2A: no extended data,
/// no graphics, model space, no reactors, no dictionary, color index 7,
/// linetype scale 1.0, linetype and plot style by layer, no material,
/// shadows, visible, lineweight 0x1D; its layer handle comes first in the
/// handle stream.
fn r2010_entity() -> Bits {
    Bits::new()
        .bytes(&[0x51, 0x2A])
        .code(0b10, 2)
        .code(0b0, 1)
        .code(0b10, 2)
        .code(0b10, 2)
        .code(0b1, 1)
        .code(0b01, 2).bytes(&[7])
        .code(0b01, 2)
        .code(0b00, 2)
        .code(0b00, 2).bytes(&[0])
        .code(0b00, 2)
        .code(0b000, 3)
        .code(0b10, 2)
        .bytes(&[0x1D])
}

fn raw(b: Bits, x: f64) -> Bits {
    b.bytes(&x.to_bits().to_le_bytes())
}

/// `data` with the object bits padded to `handles_at` bytes, then the
/// handle stream, then the string stream; the start of the strings.
fn layout(object: Vec<u8>, handles_at: usize, handles: &[u8], strings: Vec<u8>) -> (Vec<u8>, u64) {
    let mut data = object;
    assert!(data.len() <= handles_at);
    data.resize(handles_at, 0);
    data.extend(handles);
    let text_at = data.len() as u64;
    data.extend(strings);
    (data, text_at)
}


#[test]
fn lwpolyline_builds_vertices_from_its_rows() {
    // Flag 0x634: closed, constant width, bulges, widths and (R2010) ids.
    let mut bits = r2010_entity().code(0b00, 2).bytes(&[0x34, 0x06]);
    // Constant width 1.0, then three points, one bulge, two ids, one width pair.
    bits = bits.code(0b01, 2);
    bits = bits.code(0b01, 2).bytes(&[3]).code(0b01, 2).bytes(&[1]).code(0b01, 2).bytes(&[2]);
    bits = bits.code(0b01, 2).bytes(&[1]);
    for (x, y) in [(0.0, 0.0), (2.0, 0.0), (2.0, 3.0)] {
        bits = raw(raw(bits, x), y);
    }
    bits = raw(bits.code(0b00, 2), 0.5);
    bits = bits.code(0b01, 2).bytes(&[7]).code(0b10, 2);
    bits = bits.code(0b10, 2).code(0b01, 2);
    let (data, text_at) = layout(bits.finish(), 96, &[0x51, 0x0F], Vec::new());
    let mut reader = reader_over(DxfVersion::AC1024, data.clone());
    let mut streams = merged_streams(DxfVersion::AC1024, &data, text_at, 96);
    let t = reader.read_lwpolyline(&mut streams).unwrap();
    let one = 1.0f64.to_bits();
    match t {
        CadTemplate::Entity { entity, .. } => {
            assert!(entity.is_closed);
            assert_eq!(entity.constant_width, one);
            assert_eq!(entity.elevation, 0);
            assert_eq!(entity.thickness, 0);
            assert_eq!(entity.normal, (0, 0, one));
            assert_eq!(entity.vertices.len(), 3);
            let v0 = entity.vertices[0];
            assert_eq!(v0.location, (0, 0));
            assert_eq!(f64::from_bits(v0.bulge), 0.5);
            assert_eq!((v0.start_width, v0.end_width), (0, one));
            let v1 = entity.vertices[1];
            assert_eq!(v1.location, (2.0f64.to_bits(), 0));
            assert_eq!(v1.bulge, 0);
            assert_eq!((v1.start_width, v1.end_width), (one, one));
            let v2 = entity.vertices[2];
            assert_eq!(v2.location, (2.0f64.to_bits(), 3.0f64.to_bits()));
            assert_eq!((v2.start_width, v2.end_width), (one, one));
        },
        _ => panic!("not a plain entity"),
    }
}

#[test]
fn lwpolyline_with_normal_and_no_points() {
    // Flag 0x0B: normal, thickness and elevation stored, open.
    let mut bits = r2010_entity().code(0b01, 2).bytes(&[0x0B]);
    bits = raw(bits.code(0b00, 2), 4.0);
    bits = bits.code(0b01, 2);
    bits = bits.code(0b10, 2).code(0b01, 2).code(0b10, 2);
    bits = bits.code(0b10, 2);
    let (data, text_at) = layout(bits.finish(), 32, &[0x51, 0x0F], Vec::new());
    let mut reader = reader_over(DxfVersion::AC1024, data.clone());
    let mut streams = merged_streams(DxfVersion::AC1024, &data, text_at, 32);
    let t = reader.read_lwpolyline(&mut streams).unwrap();
    match t {
        CadTemplate::Entity { entity, .. } => {
            assert!(!entity.is_closed);
            assert_eq!(entity.constant_width, 0);
            assert_eq!(f64::from_bits(entity.elevation), 4.0);
            assert_eq!(f64::from_bits(entity.thickness), 1.0);
            assert_eq!(entity.normal, (0, 1.0f64.to_bits(), 0));
            assert!(entity.vertices.is_empty());
        },
        _ => panic!("not a plain entity"),
    }
}

#[test]
fn lwpolyline_refuses_too_many_points() {
    let bits = r2010_entity().code(0b10, 2).code(0b00, 2).bytes(&10_000_001u32.to_le_bytes());
    let (data, text_at) = layout(bits.finish(), 24, &[0x51, 0x0F], Vec::new());
    let mut reader = reader_over(DxfVersion::AC1024, data.clone());
    let mut streams = merged_streams(DxfVersion::AC1024, &data, text_at, 24);
    assert!(matches!(reader.read_lwpolyline(&mut streams), Err(DxfError::InvalidFormat)));
}

#[test]
fn lwpolyline_cut_short_fails() {
    // Ten points declared, the data ends after the first.
    let mut bits = r2010_entity().code(0b10, 2).code(0b01, 2).bytes(&[10]);
    bits = raw(raw(bits, 1.0), 1.0);
    let (data, text_at) = layout(bits.finish(), 32, &[0x51, 0x0F], Vec::new());
    let mut reader = reader_over(DxfVersion::AC1024, data.clone());
    let mut streams = merged_streams(DxfVersion::AC1024, &data, text_at, 32);
    assert!(matches!(reader.read_lwpolyline(&mut streams), Err(DxfError::UnexpectedEof)));
}

#[test]
fn polyline_2d_reads_its_owned_vertices() {
    let mut bits = r2010_entity().code(0b01, 2).bytes(&[1]).code(0b10, 2).code(0b10, 2).code(0b01, 2);
    bits = bits.code(0b1, 1).code(0b10, 2).code(0b1, 1);
    bits = bits.code(0b01, 2).bytes(&[2]);
    let handles = [0x51, 0x0F, 0x41, 0x60, 0x41, 0x61, 0x41, 0x62];
    let (data, text_at) = layout(bits.finish(), 24, &handles, Vec::new());
    let mut reader = reader_over(DxfVersion::AC1024, data.clone());
    let mut streams = merged_streams(DxfVersion::AC1024, &data, text_at, 24);
    match reader.read_polyline_2d(&mut streams).unwrap() {
        CadTemplate::Polyline { polyline_data, entity, .. } => {
            assert_eq!(entity.flags, 1);
            assert_eq!(entity.start_width, 0);
            assert_eq!(entity.end_width, 1.0f64.to_bits());
            assert_eq!(entity.normal, (0, 0, 1.0f64.to_bits()));
            assert_eq!(polyline_data.owned_objects_handles, vec![0x60, 0x61]);
            assert_eq!(polyline_data.seqend_handle, 0x62);
            assert_eq!(polyline_data.first_vertex_handle, 0);
        },
        _ => panic!("not a polyline"),
    }
}

#[test]
fn polygon_mesh_reads_its_counts_and_smoothing() {
    let mut bits = r2010_entity().code(0b01, 2).bytes(&[16]).code(0b01, 2).bytes(&[6]);
    bits = bits.code(0b01, 2).bytes(&[3]).code(0b01, 2).bytes(&[4]).code(0b10, 2).code(0b10, 2);
    bits = bits.code(0b10, 2);
    let (data, text_at) = layout(bits.finish(), 24, &[0x51, 0x0F, 0x41, 0x70], Vec::new());
    let mut reader = reader_over(DxfVersion::AC1024, data.clone());
    let mut streams = merged_streams(DxfVersion::AC1024, &data, text_at, 24);
    match reader.read_polygon_mesh(&mut streams).unwrap() {
        CadTemplate::Polyline { polyline_data, entity, .. } => {
            assert_eq!(entity.flags, 16);
            assert_eq!(entity.m_vertex_count, 3);
            assert_eq!(entity.n_vertex_count, 4);
            assert_eq!(entity.smooth_type, SurfaceSmoothType::Cubic);
            assert!(polyline_data.owned_objects_handles.is_empty());
            assert_eq!(polyline_data.seqend_handle, 0x70);
        },
        _ => panic!("not a polyline"),
    }
}

#[test]
fn polyline_3d_and_polyface_headers() {
    let bits = r2010_entity().bytes(&[0, 0]).code(0b01, 2).bytes(&[1]);
    let (data, text_at) = layout(bits.finish(), 24, &[0x51, 0x0F, 0x41, 0x60, 0x41, 0x62], Vec::new());
    let mut reader = reader_over(DxfVersion::AC1024, data.clone());
    let mut streams = merged_streams(DxfVersion::AC1024, &data, text_at, 24);
    match reader.read_polyline_3d(&mut streams).unwrap() {
        CadTemplate::Polyline { polyline_data, entity, .. } => {
            assert_eq!(entity.common.handle, 0x2A);
            assert_eq!(polyline_data.owned_objects_handles, vec![0x60]);
            assert_eq!(polyline_data.seqend_handle, 0x62);
        },
        _ => panic!("not a polyline"),
    }
    let bits = r2010_entity().code(0b01, 2).bytes(&[4]).code(0b01, 2).bytes(&[2]).code(0b10, 2);
    let (data, text_at) = layout(bits.finish(), 24, &[0x51, 0x0F, 0x41, 0x62], Vec::new());
    let mut reader = reader_over(DxfVersion::AC1024, data.clone());
    let mut streams = merged_streams(DxfVersion::AC1024, &data, text_at, 24);
    match reader.read_polyface_mesh(&mut streams).unwrap() {
        CadTemplate::Polyline { polyline_data, .. } => assert_eq!(polyline_data.seqend_handle, 0x62),
        _ => panic!("not a polyline"),
    }
}
