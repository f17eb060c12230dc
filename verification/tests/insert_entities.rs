use std::collections::{HashMap, VecDeque};

use acadrust::object_reader::DwgObjectReader;
use acadrust::stream_reader::DwgStreamReaderBase;
use acadrust::stream_set::StreamSet;
use acadrust::templates::CadTemplate;
use acadrust::version::DxfVersion;

/// Bits written most significant first, packed into bytes.
struct Bits {
    bits: Vec<bool>,
}

impl Bits {
    fn new() -> Bits {
        Bits { bits: Vec::new() }
    }

    fn code(mut self, value: u8, n: u32) -> Bits {
        for i in (0..n).rev() {
            self.bits.push((value >> i) & 1 == 1);
        }
        self
    }

    fn bytes(mut self, bytes: &[u8]) -> Bits {
        for &b in bytes {
            self = self.code(b, 8);
        }
        self
    }

    fn finish(self) -> Vec<u8> {
        let mut out = Vec::new();
        for chunk in self.bits.chunks(8) {
            let mut byte = 0u8;
            for (i, &bit) in chunk.iter().enumerate() {
                if bit {
                    byte |= 1 << (7 - i);
                }
            }
            out.push(byte);
        }
        out
    }
}

fn reader_over(version: DxfVersion, data: Vec<u8>) -> DwgObjectReader {
    DwgObjectReader::new(version, data, VecDeque::new(), HashMap::new(), &[])
}

/// The streams of an object whose data starts at byte 0 of `data`, whose
/// strings start at byte `text_at` and whose handles start at byte
/// `handles_at`, read merged.
fn merged_streams(version: DxfVersion, data: &[u8], text_at: u64, handles_at: u64) -> StreamSet {
    StreamSet {
        object_reader: DwgStreamReaderBase::new(data.to_vec(), version),
        text_reader: DwgStreamReaderBase::new_at(data.to_vec(), version, text_at),
        handles_reader: DwgStreamReaderBase::new_at(data.to_vec(), version, handles_at),
        merged: true,
        has_separate_text_reader: true,
        current_handle: 0,
    }
}


/// The common data of an R2010 entity with handle 0x2A: no extended data,
/// no graphics, model space, no reactors, no dictionary, color index 7,
/// linetype scale 1.0, linetype and plot style by layer, no material,
/// shadows, visible, lineweight 0x1D; its layer handle comes first in the
/// handle stream.
fn r2010_entity() -> Bits {
    Bits::new()
        .bytes(&[0x51, 0x2A])
        .code(0b10, 2)
        .code(0b0, 1)
        .code(0b10, 2)
        .code(0b10, 2)
        .code(0b1, 1)
        .code(0b01, 2).bytes(&[7])
        .code(0b01, 2)
        .code(0b00, 2)
        .code(0b00, 2).bytes(&[0])
        .code(0b00, 2)
        .code(0b000, 3)
        .code(0b10, 2)
        .bytes(&[0x1D])
}

fn raw(b: Bits, x: f64) -> Bits {
    b.bytes(&x.to_bits().to_le_bytes())
}

/// `data` with the object bits padded to `handles_at` bytes, then the
/// handle stream, then the string stream; the start of the strings.
fn layout(object: Vec<u8>, handles_at: usize, handles: &[u8], strings: Vec<u8>) -> (Vec<u8>, u64) {
    let mut data = object;
    assert!(data.len() <= handles_at);
    data.resize(handles_at, 0);
    data.extend(handles);
    let text_at = data.len() as u64;
    data.extend(strings);
    (data, text_at)
}


#[test]
fn insert_with_owned_attributes() {
    // Insertion point (1.0, 0.0, 0.0); X scale 1.0 by the flags, Y scale
    // defaulting to X, Z scale 2.0; rotation 0.0, default normal, with
    // attributes: two owned objects.
    let mut bits = r2010_entity().code(0b01, 2).code(0b10, 2).code(0b10, 2);
    bits = bits.code(0b01, 2).code(0b00, 2).code(0b11, 2);
    bits = raw(bits, 2.0);
    bits = bits.code(0b10, 2).code(0b1, 1).code(0b1, 1).code(0b01, 2).bytes(&[2]);
    let handles = [0x51, 0x0F, 0x41, 0x50, 0x41, 0x51, 0x41, 0x52, 0x41, 0x53];
    let (data, text_at) = layout(bits.finish(), 24, &handles, Vec::new());
    let mut reader = reader_over(DxfVersion::AC1024, data.clone());
    let mut streams = merged_streams(DxfVersion::AC1024, &data, text_at, 24);
    let t = reader.read_insert(&mut streams).unwrap();
    match t {
        CadTemplate::Insert { insert_data, entity, .. } => {
            assert_eq!(entity.insert_point, (1.0f64.to_bits(), 0, 0));
            assert_eq!(f64::from_bits(entity.x_scale), 1.0);
            assert_eq!(f64::from_bits(entity.y_scale), 1.0);
            assert_eq!(f64::from_bits(entity.z_scale), 2.0);
            assert_eq!(entity.rotation, 0);
            assert_eq!(entity.normal, (0, 0, 1.0f64.to_bits()));
            assert_eq!(entity.column_count, 1);
            assert_eq!(entity.row_count, 1);
            assert_eq!(insert_data.block_header_handle, 0x50);
            assert!(insert_data.has_atts);
            assert_eq!(insert_data.owned_objects_count, 2);
            assert_eq!(insert_data.owned_objects_handles, vec![0x51, 0x52]);
            assert_eq!(insert_data.seqend_handle, 0x53);
        },
        _ => panic!("not an insert"),
    }
}

#[test]
fn multiple_insert_reads_its_grid() {
    let mut bits = r2010_entity().code(0b10, 2).code(0b10, 2).code(0b10, 2);
    bits = bits.code(0b11, 2).code(0b00, 2);
    bits = bits.code(0b10, 2).code(0b1, 1).code(0b0, 1);
    bits = bits.code(0b01, 2).bytes(&[3]).code(0b01, 2).bytes(&[2]).code(0b01, 2).code(0b10, 2);
    let (data, text_at) = layout(bits.finish(), 16, &[0x51, 0x0F, 0x41, 0x50], Vec::new());
    let mut reader = reader_over(DxfVersion::AC1024, data.clone());
    let mut streams = merged_streams(DxfVersion::AC1024, &data, text_at, 16);
    let t = reader.read_minsert(&mut streams).unwrap();
    match t {
        CadTemplate::Insert { insert_data, entity, .. } => {
            assert_eq!(f64::from_bits(entity.x_scale), 1.0);
            assert_eq!(f64::from_bits(entity.y_scale), 1.0);
            assert_eq!(f64::from_bits(entity.z_scale), 1.0);
            assert_eq!(entity.column_count, 3);
            assert_eq!(entity.row_count, 2);
            assert_eq!(f64::from_bits(entity.column_spacing), 1.0);
            assert_eq!(entity.row_spacing, 0);
            assert!(!insert_data.has_atts);
            assert_eq!(insert_data.block_header_handle, 0x50);
            assert!(insert_data.owned_objects_handles.is_empty());
        },
        _ => panic!("not an insert"),
    }
    assert_eq!(streams.handles_reader.position(), 20);
}
