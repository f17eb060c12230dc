use std::collections::{HashMap, VecDeque};

use acadrust::dimension_entities::DimensionKind;
use acadrust::object_reader::DwgObjectReader;
use acadrust::stream_reader::DwgStreamReaderBase;
use acadrust::stream_set::StreamSet;
use acadrust::templates::CadTemplate;
use acadrust::version::DxfVersion;

/// Bits written most significant first, packed into bytes.
struct Bits {
    bits: Vec<bool>,
}

impl Bits {
    fn new() -> Bits {
        Bits { bits: Vec::new() }
    }

    fn code(mut self, value: u8, n: u32) -> Bits {
        for i in (0..n).rev() {
            self.bits.push((value >> i) & 1 == 1);
        }
        self
    }

    fn bytes(mut self, bytes: &[u8]) -> Bits {
        for &b in bytes {
            self = self.code(b, 8);
        }
        self
    }

    fn finish(self) -> Vec<u8> {
        let mut out = Vec::new();
        for chunk in self.bits.chunks(8) {
            let mut byte = 0u8;
            for (i, &bit) in chunk.iter().enumerate() {
                if bit {
                    byte |= 1 << (7 - i);
                }
            }
            out.push(byte);
        }
        out
    }
}

fn reader_over(version: DxfVersion, data: Vec<u8>) -> DwgObjectReader {
    DwgObjectReader::new(version, data, VecDeque::new(), HashMap::new(), &[])
}

/// The streams of an object whose data starts at byte 0 of `data`, whose
/// strings start at byte `text_at` and whose handles start at byte
/// `handles_at`, read merged.
fn merged_streams(version: DxfVersion, data: &[u8], text_at: u64, handles_at: u64) -> StreamSet {
    StreamSet {
        object_reader: DwgStreamReaderBase::new(data.to_vec(), version),
        text_reader: DwgStreamReaderBase::new_at(data.to_vec(), version, text_at),
        handles_reader: DwgStreamReaderBase::new_at(data.to_vec(), version, handles_at),
        merged: true,
        has_separate_text_reader: true,
        current_handle: 0,
    }
}


/// The common data of an R2010 entity with handle 0x2A: no extended data,
/// no graphics, model space, no reactors, no dictionary, color index 7,
/// linetype scale 1.0, linetype and plot style by layer, no material,
/// shadows, visible, lineweight 0x1D; its layer handle comes first in the
/// handle stream.
fn r2010_entity() -> Bits {
    Bits::new()
        .bytes(&[0x51, 0x2A])
        .code(0b10, 2)
        .code(0b0, 1)
        .code(0b10, 2)
        .code(0b10, 2)
        .code(0b1, 1)
        .code(0b01, 2).bytes(&[7])
        .code(0b01, 2)
        .code(0b00, 2)
        .code(0b00, 2).bytes(&[0])
        .code(0b00, 2)
        .code(0b000, 3)
        .code(0b10, 2)
        .bytes(&[0x1D])
}

fn raw(b: Bits, x: f64) -> Bits {
    b.bytes(&x.to_bits().to_le_bytes())
}

/// `data` with the object bits padded to `handles_at` bytes, then the
/// handle stream, then the string stream; the start of the strings.
fn layout(object: Vec<u8>, handles_at: usize, handles: &[u8], strings: Vec<u8>) -> (Vec<u8>, u64) {
    let mut data = object;
    assert!(data.len() <= handles_at);
    data.resize(handles_at, 0);
    data.extend(handles);
    let text_at = data.len() as u64;
    data.extend(strings);
    (data, text_at)
}


/// The data every R2010 dimension starts with: format version 1, default
/// normal, text middle point (1, 2), elevation 0, no flags, rotations 0,
/// insertion scale (1, 1, 1), attachment 5, spacing style 1, spacing
/// factor 1.0, measurement 3.0, two clear bits, definition point (4, 5).
fn r2010_dimension_head() -> Bits {
    let mut bits = r2010_entity().bytes(&[1]).code(0b1, 1);
    bits = raw(raw(bits, 1.0), 2.0);
    bits = bits.code(0b10, 2).bytes(&[0]).code(0b10, 2).code(0b10, 2);
    bits = bits.code(0b01, 2).code(0b01, 2).code(0b01, 2).code(0b10, 2);
    bits = bits.code(0b01, 2).bytes(&[5]).code(0b01, 2).bytes(&[1]).code(0b01, 2);
    bits = raw(bits.code(0b00, 2), 3.0);
    bits = bits.code(0b0, 1).code(0b0, 1);
    raw(raw(bits, 4.0), 5.0)
}

#[test]
fn linear_dimension_reads_its_points_and_handles() {
    let mut bits = r2010_dimension_head();
    for code in [0b10u8, 0b10, 0b10, 0b01, 0b10, 0b10, 0b10, 0b01, 0b10, 0b10, 0b01] {
        bits = bits.code(code, 2);
    }
    let strings = Bits::new().code(0b01, 2).bytes(&[1, b'5', 0]).finish();
    let handles = [0x51, 0x0F, 0x41, 0x21, 0x41, 0x22];
    let (data, text_at) = layout(bits.finish(), 72, &handles, strings);
    let mut reader = reader_over(DxfVersion::AC1024, data.clone());
    let mut streams = merged_streams(DxfVersion::AC1024, &data, text_at, 72);
    let one = 1.0f64.to_bits();
    match reader.read_dim_linear(&mut streams).unwrap() {
        CadTemplate::Dimension { dim_data, entity, .. } => {
            assert_eq!(dim_data.style_handle, 0x21);
            assert_eq!(dim_data.block_handle, 0x22);
            assert_eq!(entity.version, 1);
            assert_eq!(entity.text_middle_point, (one, 2.0f64.to_bits(), 0));
            assert_eq!(entity.user_text.as_deref(), Some("5"));
            assert_eq!(entity.line_spacing_factor, one);
            assert_eq!(entity.definition_point, (4.0f64.to_bits(), 5.0f64.to_bits(), 0));
            assert_eq!(entity.normal, (0, 0, one));
            match entity.kind {
                DimensionKind::Linear { first_point, second_point, definition_point, rotation, ext_line_rotation } => {
                    assert_eq!(first_point, (0, 0, 0));
                    assert_eq!(second_point, (one, 0, 0));
                    assert_eq!(definition_point, (0, one, 0));
                    assert_eq!(rotation, 0);
                    assert_eq!(ext_line_rotation, one);
                },
                _ => panic!("not a linear dimension"),
            }
        },
        _ => panic!("not a dimension"),
    }
}

#[test]
fn ordinate_dimension_without_user_text() {
    let mut bits = r2010_dimension_head();
    for _ in 0..9 {
        bits = bits.code(0b10, 2);
    }
    bits = bits.bytes(&[3]);
    let strings = Bits::new().code(0b10, 2).finish();
    let handles = [0x51, 0x0F, 0x41, 0x21, 0x41, 0x22];
    let (data, text_at) = layout(bits.finish(), 72, &handles, strings);
    let mut reader = reader_over(DxfVersion::AC1024, data.clone());
    let mut streams = merged_streams(DxfVersion::AC1024, &data, text_at, 72);
    match reader.read_dim_ordinate(&mut streams).unwrap() {
        CadTemplate::Dimension { entity, .. } => {
            assert!(entity.user_text.is_none());
            assert!(matches!(entity.kind, DimensionKind::Ordinate { is_ordinate_type_x: true, .. }));
        },
        _ => panic!("not a dimension"),
    }
}

#[test]
fn radius_and_diameter_dimensions() {
    let mut bits = r2010_dimension_head();
    for _ in 0..6 {
        bits = bits.code(0b10, 2);
    }
    bits = bits.code(0b01, 2);
    let strings = Bits::new().code(0b10, 2).finish();
    let handles = [0x51, 0x0F, 0x41, 0x21, 0x41, 0x22];
    let (data, text_at) = layout(bits.finish(), 72, &handles, strings);
    let mut reader = reader_over(DxfVersion::AC1024, data.clone());
    let mut streams = merged_streams(DxfVersion::AC1024, &data, text_at, 72);
    match reader.read_dim_radius(&mut streams).unwrap() {
        CadTemplate::Dimension { entity, .. } => {
            assert!(matches!(entity.kind, DimensionKind::Radius { leader_length, .. } if leader_length == 1.0f64.to_bits()));
        },
        _ => panic!("not a dimension"),
    }
    let mut reader = reader_over(DxfVersion::AC1024, data.clone());
    let mut streams = merged_streams(DxfVersion::AC1024, &data, text_at, 72);
    assert!(matches!(reader.read_dim_diameter(&mut streams).unwrap(),
        CadTemplate::Dimension { entity, .. } if matches!(entity.kind, DimensionKind::Diameter { .. })));
}
