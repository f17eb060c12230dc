use std::collections::{HashMap, VecDeque};

use acadrust::error::DxfError;
use acadrust::modeler_geometry::{AcisVersion, ModelerGeoType};
use acadrust::object_reader::DwgObjectReader;
use acadrust::stream_reader::DwgStreamReaderBase;
use acadrust::stream_set::StreamSet;
use acadrust::templates::CadTemplate;
use acadrust::version::DxfVersion;

/// Bits written most significant first, packed into bytes.
struct Bits {
    bits: Vec<bool>,
}

impl Bits {
    fn new() -> Bits {
        Bits { bits: Vec::new() }
    }

    fn code(mut self, value: u8, n: u32) -> Bits {
        for i in (0..n).rev() {
            self.bits.push((value >> i) & 1 == 1);
        }
        self
    }

    fn bytes(mut self, bytes: &[u8]) -> Bits {
        for &b in bytes {
            self = self.code(b, 8);
        }
        self
    }

    fn finish(self) -> Vec<u8> {
        let mut out = Vec::new();
        for chunk in self.bits.chunks(8) {
            let mut byte = 0u8;
            for (i, &bit) in chunk.iter().enumerate() {
                if bit {
                    byte |= 1 << (7 - i);
                }
            }
            out.push(byte);
        }
        out
    }
}

fn reader_over(version: DxfVersion, data: Vec<u8>) -> DwgObjectReader {
    DwgObjectReader::new(version, data, VecDeque::new(), HashMap::new(), &[])
}

/// The streams of an object whose data starts at byte 0 of `data`, whose
/// strings start at byte `text_at` and whose handles start at byte
/// `handles_at`, read merged.
fn merged_streams(version: DxfVersion, data: &[u8], text_at: u64, handles_at: u64) -> StreamSet {
    StreamSet {
        object_reader: DwgStreamReaderBase::new(data.to_vec(), version),
        text_reader: DwgStreamReaderBase::new_at(data.to_vec(), version, text_at),
        handles_reader: DwgStreamReaderBase::new_at(data.to_vec(), version, handles_at),
        merged: true,
        has_separate_text_reader: true,
        current_handle: 0,
    }
}


/// The common data of an R2010 entity with handle 0x2A: no extended data,
/// no graphics, model space, no reactors, no dictionary, color index 7,
/// linetype scale 1.0, linetype and plot style by layer, no material,
/// shadows, visible, lineweight 0x1D; its layer handle comes first in the
/// handle stream.
fn r2010_entity() -> Bits {
    Bits::new()
        .bytes(&[0x51, 0x2A])
        .code(0b10, 2)
        .code(0b0, 1)
        .code(0b10, 2)
        .code(0b10, 2)
        .code(0b1, 1)
        .code(0b01, 2).bytes(&[7])
        .code(0b01, 2)
        .code(0b00, 2)
        .code(0b00, 2).bytes(&[0])
        .code(0b00, 2)
        .code(0b000, 3)
        .code(0b10, 2)
        .bytes(&[0x1D])
}

fn raw(b: Bits, x: f64) -> Bits {
    b.bytes(&x.to_bits().to_le_bytes())
}

/// `data` with the object bits padded to `handles_at` bytes, then the
/// handle stream, then the string stream; the start of the strings.
fn layout(object: Vec<u8>, handles_at: usize, handles: &[u8], strings: Vec<u8>) -> (Vec<u8>, u64) {
    let mut data = object;
    assert!(data.len() <= handles_at);
    data.resize(handles_at, 0);
    data.extend(handles);
    let text_at = data.len() as u64;
    data.extend(strings);
    (data, text_at)
}


/// ACIS version 2, chunks [1, 2, 3] and [4, 5], then the end; the history
/// handle 0x55 follows the layer in the handle stream.
fn sab_solid() -> (Vec<u8>, u64) {
    let bits = r2010_entity().bytes(&[2]).code(0b01, 2).bytes(&[3]).bytes(&[1, 2, 3])
        .code(0b01, 2).bytes(&[2]).bytes(&[4, 5]).code(0b10, 2);
    layout(bits.finish(), 32, &[0x51, 0x0F, 0x41, 0x55], Vec::new())
}

#[test]
fn solid_3d_joins_its_binary_chunks() {
    let (data, text_at) = sab_solid();
    let mut reader = reader_over(DxfVersion::AC1024, data.clone());
    let mut streams = merged_streams(DxfVersion::AC1024, &data, text_at, 32);
    match reader.read_solid_3d(&mut streams).unwrap() {
        CadTemplate::Solid3D { solid3d_data, entity, .. } => {
            assert_eq!(solid3d_data.history_handle, 0x55);
            assert_eq!(entity.kind, ModelerGeoType::Solid3D);
            assert_eq!(entity.acis_data.version, AcisVersion::Version2);
            assert!(entity.acis_data.is_binary);
            assert_eq!(entity.acis_data.sab_data, vec![1, 2, 3, 4, 5]);
            assert!(entity.acis_data.sat_data.is_empty());
        },
        _ => panic!("not a 3D solid"),
    }
}

#[test]
fn region_is_a_plain_entity() {
    let (data, text_at) = sab_solid();
    let mut reader = reader_over(DxfVersion::AC1024, data.clone());
    let mut streams = merged_streams(DxfVersion::AC1024, &data, text_at, 32);
    match reader.read_modeler_geometry(&mut streams, ModelerGeoType::Region).unwrap() {
        CadTemplate::Entity { entity, .. } => {
            assert_eq!(entity.kind, ModelerGeoType::Region);
            assert_eq!(entity.acis_data.sab_data, vec![1, 2, 3, 4, 5]);
        },
        _ => panic!("not a plain entity"),
    }
}

#[test]
fn solid_3d_with_a_chunk_past_the_end_fails() {
    let bits = r2010_entity().bytes(&[1]).code(0b01, 2).bytes(&[200]).bytes(&[1, 2, 3]);
    let (data, text_at) = layout(bits.finish(), 32, &[0x51, 0x0F, 0x41, 0x55], Vec::new());
    let mut reader = reader_over(DxfVersion::AC1024, data.clone());
    let mut streams = merged_streams(DxfVersion::AC1024, &data, text_at, 32);
    assert!(matches!(reader.read_solid_3d(&mut streams), Err(DxfError::UnexpectedEof)));
}
