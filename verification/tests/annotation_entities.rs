use std::collections::{HashMap, VecDeque};

use acadrust::annotation_entities::{AttachmentPoint, DrawingDirection, LeaderCreationType, LeaderPathType};
use acadrust::object_reader::DwgObjectReader;
use acadrust::stream_reader::DwgStreamReaderBase;
use acadrust::stream_set::StreamSet;
use acadrust::templates::CadTemplate;
use acadrust::version::DxfVersion;

/// Bits written most significant first, packed into bytes.
struct Bits {
    bits: Vec<bool>,
}

impl Bits {
    fn new() -> Bits {
        Bits { bits: Vec::new() }
    }

    fn code(mut self, value: u8, n: u32) -> Bits {
        for i in (0..n).rev() {
            self.bits.push((value >> i) & 1 == 1);
        }
        self
    }

    fn bytes(mut self, bytes: &[u8]) -> Bits {
        for &b in bytes {
            self = self.code(b, 8);
        }
        self
    }

    fn finish(self) -> Vec<u8> {
        let mut out = Vec::new();
        for chunk in self.bits.chunks(8) {
            let mut byte = 0u8;
            for (i, &bit) in chunk.iter().enumerate() {
                if bit {
                    byte |= 1 << (7 - i);
                }
            }
            out.push(byte);
        }
        out
    }
}

fn reader_over(version: DxfVersion, data: Vec<u8>) -> DwgObjectReader {
    DwgObjectReader::new(version, data, VecDeque::new(), HashMap::new(), &[])
}

/// The streams of an object whose data starts at byte 0 of `data`, whose
/// strings start at byte `text_at` and whose handles start at byte
/// `handles_at`, read merged.
fn merged_streams(version: DxfVersion, data: &[u8], text_at: u64, handles_at: u64) -> StreamSet {
    StreamSet {
        object_reader: DwgStreamReaderBase::new(data.to_vec(), version),
        text_reader: DwgStreamReaderBase::new_at(data.to_vec(), version, text_at),
        handles_reader: DwgStreamReaderBase::new_at(data.to_vec(), version, handles_at),
        merged: true,
        has_separate_text_reader: true,
        current_handle: 0,
    }
}


/// The common data of an R2010 entity with handle 0x2A: no extended data,
/// no graphics, model space, no reactors, no dictionary, color index 7,
/// linetype scale 1.0, linetype and plot style by layer, no material,
/// shadows, visible, lineweight 0x1D; its layer handle comes first in the
/// handle stream.
fn r2010_entity() -> Bits {
    Bits::new()
        .bytes(&[0x51, 0x2A])
        .code(0b10, 2)
        .code(0b0, 1)
        .code(0b10, 2)
        .code(0b10, 2)
        .code(0b1, 1)
        .code(0b01, 2).bytes(&[7])
        .code(0b01, 2)
        .code(0b00, 2)
        .code(0b00, 2).bytes(&[0])
        .code(0b00, 2)
        .code(0b000, 3)
        .code(0b10, 2)
        .bytes(&[0x1D])
}

fn raw(b: Bits, x: f64) -> Bits {
    b.bytes(&x.to_bits().to_le_bytes())
}

/// `data` with the object bits padded to `handles_at` bytes, then the
/// handle stream, then the string stream; the start of the strings.
fn layout(object: Vec<u8>, handles_at: usize, handles: &[u8], strings: Vec<u8>) -> (Vec<u8>, u64) {
    let mut data = object;
    assert!(data.len() <= handles_at);
    data.resize(handles_at, 0);
    data.extend(handles);
    let text_at = data.len() as u64;
    data.extend(strings);
    (data, text_at)
}


fn codes(mut b: Bits, cs: &[u8]) -> Bits {
    for &c in cs {
        b = b.code(c, 2);
    }
    b
}

#[test]
fn mtext_maps_its_codes() {
    let mut bits = codes(r2010_entity(), &[0b01, 0b10, 0b10, 0b10, 0b10, 0b01, 0b10, 0b01, 0b10]);
    bits = raw(bits.code(0b00, 2), 10.0).code(0b10, 2);
    bits = raw(bits.code(0b00, 2), 2.5);
    bits = bits.code(0b01, 2).bytes(&[5]).code(0b01, 2).bytes(&[3]);
    bits = codes(bits, &[0b10, 0b10, 0b10, 0b01]);
    let strings = Bits::new().code(0b01, 2).bytes(&[2, b'H', 0, b'i', 0]).finish();
    let (data, text_at) = layout(bits.finish(), 48, &[0x51, 0x0F, 0x41, 0x33], strings);
    let mut reader = reader_over(DxfVersion::AC1024, data.clone());
    let mut streams = merged_streams(DxfVersion::AC1024, &data, text_at, 48);
    let one = 1.0f64.to_bits();
    match reader.read_mtext(&mut streams).unwrap() {
        CadTemplate::TextEntity { text_data, entity, .. } => {
            assert_eq!(text_data.style_handle, 0x33);
            assert_eq!(entity.value, "Hi");
            assert_eq!(entity.insertion_point, (one, 0, 0));
            assert_eq!(entity.normal, (0, 0, one));
            assert_eq!(entity.direction, (0, one, 0));
            assert_eq!(f64::from_bits(entity.rectangle_width), 10.0);
            assert_eq!(entity.rectangle_height, Some(0));
            assert_eq!(f64::from_bits(entity.height), 2.5);
            assert_eq!(entity.attachment_point, AttachmentPoint::MiddleCenter);
            assert_eq!(entity.drawing_direction, DrawingDirection::TopToBottom);
            assert_eq!(entity.line_spacing_factor, one);
        },
        _ => panic!("not a text entity"),
    }
}

#[test]
fn leader_reads_its_vertices() {
    let mut bits = r2010_entity().code(0b0, 1).code(0b01, 2).bytes(&[2]).code(0b01, 2).bytes(&[1]);
    bits = bits.code(0b01, 2).bytes(&[2]);
    bits = codes(bits, &[0b01, 0b10, 0b10, 0b10, 0b01, 0b10]);
    bits = codes(bits, &[0b10, 0b10, 0b01, 0b01, 0b10, 0b10, 0b10, 0b10, 0b10, 0b10, 0b10, 0b10]);
    bits = raw(bits.code(0b00, 2), 0.25);
    bits = bits.code(0b1, 1).code(0b1, 1).code(0b10, 2);
    let handles = [0x51, 0x0F, 0x41, 0x40, 0x41, 0x41];
    let (data, text_at) = layout(bits.finish(), 48, &handles, Vec::new());
    let mut reader = reader_over(DxfVersion::AC1024, data.clone());
    let mut streams = merged_streams(DxfVersion::AC1024, &data, text_at, 48);
    let one = 1.0f64.to_bits();
    match reader.read_leader(&mut streams).unwrap() {
        CadTemplate::Leader { leader_data, entity, .. } => {
            assert_eq!(leader_data.annotation_handle, 0x40);
            assert_eq!(leader_data.dimstyle_handle, 0x41);
            assert_eq!(f64::from_bits(leader_data.dimasz), 0.25);
            assert_eq!(entity.vertices, vec![(one, 0, 0), (0, one, 0)]);
            assert_eq!(entity.normal, (0, 0, one));
            assert_eq!(entity.horizontal_direction, (one, 0, 0));
            assert_eq!(entity.block_offset, (0, 0, 0));
            assert!(entity.hookline_enabled);
            assert!(entity.arrow_enabled);
            assert_eq!(entity.path_type, LeaderPathType::Spline);
            assert_eq!(entity.creation_type, LeaderCreationType::WithBlock);
            assert_eq!(entity.text_width, 0);
        },
        _ => panic!("not a leader"),
    }
}

#[test]
fn tolerance_reads_its_text_and_style() {
    let bits = codes(r2010_entity(), &[0b10, 0b01, 0b10, 0b10, 0b10, 0b01, 0b10]);
    let strings = Bits::new().code(0b01, 2).bytes(&[2, b'T', 0, b'1', 0]).finish();
    let (data, text_at) = layout(bits.finish(), 32, &[0x51, 0x0F, 0x41, 0x44], strings);
    let mut reader = reader_over(DxfVersion::AC1024, data.clone());
    let mut streams = merged_streams(DxfVersion::AC1024, &data, text_at, 32);
    let one = 1.0f64.to_bits();
    match reader.read_tolerance(&mut streams).unwrap() {
        CadTemplate::Entity { entity, .. } => {
            assert_eq!(entity.text, "T1");
            assert_eq!(entity.insertion_point, (one, 0, 0));
            assert_eq!(entity.direction, (0, one, 0));
            assert_eq!(entity.normal, (0, 0, one));
            assert_eq!(entity.dimension_style_handle, 0x44);
        },
        _ => panic!("not a plain entity"),
    }
}
