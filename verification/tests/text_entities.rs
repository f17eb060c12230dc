use std::collections::{HashMap, VecDeque};

use acadrust::error::DxfError;
use acadrust::object_reader::DwgObjectReader;
use acadrust::text_entities::AttributeFlags;
use acadrust::stream_reader::DwgStreamReaderBase;
use acadrust::stream_set::StreamSet;
use acadrust::templates::CadTemplate;
use acadrust::version::DxfVersion;

/// Bits written most significant first, packed into bytes.
struct Bits {
    bits: Vec<bool>,
}

impl Bits {
    fn new() -> Bits {
        Bits { bits: Vec::new() }
    }

    fn code(mut self, value: u8, n: u32) -> Bits {
        for i in (0..n).rev() {
            self.bits.push((value >> i) & 1 == 1);
        }
        self
    }

    fn bytes(mut self, bytes: &[u8]) -> Bits {
        for &b in bytes {
            self = self.code(b, 8);
        }
        self
    }

    fn finish(self) -> Vec<u8> {
        let mut out = Vec::new();
        for chunk in self.bits.chunks(8) {
            let mut byte = 0u8;
            for (i, &bit) in chunk.iter().enumerate() {
                if bit {
                    byte |= 1 << (7 - i);
                }
            }
            out.push(byte);
        }
        out
    }
}

fn reader_over(version: DxfVersion, data: Vec<u8>) -> DwgObjectReader {
    DwgObjectReader::new(version, data, VecDeque::new(), HashMap::new(), &[])
}

/// The streams of an object whose data starts at byte 0 of `data`, whose
/// strings start at byte `text_at` and whose handles start at byte
/// `handles_at`, read merged.
fn merged_streams(version: DxfVersion, data: &[u8], text_at: u64, handles_at: u64) -> StreamSet {
    StreamSet {
        object_reader: DwgStreamReaderBase::new(data.to_vec(), version),
        text_reader: DwgStreamReaderBase::new_at(data.to_vec(), version, text_at),
        handles_reader: DwgStreamReaderBase::new_at(data.to_vec(), version, handles_at),
        merged: true,
        has_separate_text_reader: true,
        current_handle: 0,
    }
}


/// The common data of an R2010 entity with handle 0x2A: no extended data,
/// no graphics, model space, no reactors, no dictionary, color index 7,
/// linetype scale 1.0, linetype and plot style by layer, no material,
/// shadows, visible, lineweight 0x1D; its layer handle comes first in the
/// handle stream.
fn r2010_entity() -> Bits {
    Bits::new()
        .bytes(&[0x51, 0x2A])
        .code(0b10, 2)
        .code(0b0, 1)
        .code(0b10, 2)
        .code(0b10, 2)
        .code(0b1, 1)
        .code(0b01, 2).bytes(&[7])
        .code(0b01, 2)
        .code(0b00, 2)
        .code(0b00, 2).bytes(&[0])
        .code(0b00, 2)
        .code(0b000, 3)
        .code(0b10, 2)
        .bytes(&[0x1D])
}

fn raw(b: Bits, x: f64) -> Bits {
    b.bytes(&x.to_bits().to_le_bytes())
}

/// `data` with the object bits padded to `handles_at` bytes, then the
/// handle stream, then the string stream; the start of the strings.
fn layout(object: Vec<u8>, handles_at: usize, handles: &[u8], strings: Vec<u8>) -> (Vec<u8>, u64) {
    let mut data = object;
    assert!(data.len() <= handles_at);
    data.resize(handles_at, 0);
    data.extend(handles);
    let text_at = data.len() as u64;
    data.extend(strings);
    (data, text_at)
}

#[test]
fn text_with_flagged_defaults() {
    // Elevation 2.0, insertion (1.0, 3.0), alignment as the insertion,
    // default normal and thickness, no oblique angle, rotation 0.5, height
    // 2.5, default width factor and generation, alignments 2 and 9 (kept as
    // 0).
    let mut bits = r2010_entity().bytes(&[0x36]);
    bits = raw(bits, 2.0);
    bits = raw(raw(bits, 1.0), 3.0);
    bits = bits.code(0b1, 1).code(0b1, 1);
    bits = raw(raw(bits, 0.5), 2.5);
    bits = bits.code(0b01, 2).bytes(&[2]).code(0b01, 2).bytes(&[9]);
    let strings = Bits::new().code(0b01, 2).bytes(&[2, b'H', 0, b'i', 0]).finish();
    let (data, text_at) = layout(bits.finish(), 56, &[0x51, 0x0F, 0x41, 0x33], strings);
    let mut reader = reader_over(DxfVersion::AC1024, data.clone());
    let mut streams = merged_streams(DxfVersion::AC1024, &data, text_at, 56);
    let t = reader.read_text(&mut streams).unwrap();
    match t {
        CadTemplate::TextEntity { common, entity_data, text_data, entity } => {
            assert_eq!(common.handle, 0x2A);
            assert_eq!(entity_data.layer_handle, 0x0F);
            assert_eq!(text_data.style_handle, 0x33);
            assert_eq!(entity.common.handle, 0x2A);
            assert_eq!(entity.value, "Hi");
            assert_eq!(entity.insertion_point, (1.0f64.to_bits(), 3.0f64.to_bits(), 2.0f64.to_bits()));
            assert_eq!(entity.alignment_point, entity.insertion_point);
            assert_eq!(entity.normal, (0, 0, 1.0f64.to_bits()));
            assert_eq!(f64::from_bits(entity.height), 2.5);
            assert_eq!(f64::from_bits(entity.rotation), 0.5);
            assert_eq!(f64::from_bits(entity.width_factor), 1.0);
            assert_eq!(entity.oblique_angle, 0);
            assert_eq!(entity.horizontal_alignment, 2);
            assert_eq!(entity.vertical_alignment, 0);
        },
        _ => panic!("not a text entity"),
    }
}

/// The text data of an attribute with every optional value left out: the
/// insertion point (1.0, 3.0), the height 2.5.
fn short_text(b: Bits) -> Bits {
    let mut bits = raw(raw(b.bytes(&[0xFF]), 1.0), 3.0);
    bits = bits.code(0b1, 1).code(0b1, 1);
    raw(bits, 2.5)
}

#[test]
fn attribute_keeps_its_tag_flags_and_second_style() {
    let bits = short_text(r2010_entity()).code(0b01, 2).bytes(&[5]).bytes(&[0x09]).code(0b1, 1).code(0b0, 1);
    let strings = Bits::new()
        .code(0b01, 2).bytes(&[1, b'V', 0])
        .code(0b01, 2).bytes(&[1, b'T', 0])
        .finish();
    let (data, text_at) = layout(bits.finish(), 40, &[0x51, 0x0F, 0x41, 0x33, 0x41, 0x34], strings);
    let mut reader = reader_over(DxfVersion::AC1024, data.clone());
    let mut streams = merged_streams(DxfVersion::AC1024, &data, text_at, 40);
    let t = reader.read_attribute(&mut streams).unwrap();
    match t {
        CadTemplate::TextEntity { text_data, entity, .. } => {
            assert_eq!(text_data.style_handle, 0x34);
            assert_eq!(entity.tag, "T");
            assert_eq!(entity.value, "V");
            assert_eq!(entity.field_length, 5);
            assert_eq!(entity.flags, AttributeFlags { invisible: true, constant: false, verify: false, preset: true });
            assert!(entity.lock_position);
            assert_eq!(entity.alignment_point, entity.insertion_point);
            assert_eq!(f64::from_bits(entity.width_factor), 1.0);
        },
        _ => panic!("not an attribute"),
    }
}

#[test]
fn attribute_definition_keeps_its_prompt() {
    let bits = short_text(r2010_entity()).code(0b10, 2).bytes(&[0x02]).code(0b0, 1).code(0b0, 1);
    let strings = Bits::new()
        .code(0b01, 2).bytes(&[1, b'D', 0])
        .code(0b01, 2).bytes(&[1, b'T', 0])
        .code(0b01, 2).bytes(&[1, b'P', 0])
        .finish();
    let (data, text_at) = layout(bits.finish(), 40, &[0x51, 0x0F, 0x41, 0x33, 0x41, 0x35], strings);
    let mut reader = reader_over(DxfVersion::AC1024, data.clone());
    let mut streams = merged_streams(DxfVersion::AC1024, &data, text_at, 40);
    let t = reader.read_attribute_definition(&mut streams).unwrap();
    match t {
        CadTemplate::TextEntity { text_data, entity, .. } => {
            assert_eq!(text_data.style_handle, 0x35);
            assert_eq!(entity.tag, "T");
            assert_eq!(entity.prompt, "P");
            assert_eq!(entity.default_value, "D");
            assert_eq!(entity.field_length, 0);
            assert!(entity.flags.constant);
            assert!(!entity.lock_position);
        },
        _ => panic!("not an attribute definition"),
    }
}

#[test]
fn text_cut_short_fails() {
    let bits = r2010_entity().bytes(&[0x00]).bytes(&[0, 0, 0]);
    let object = bits.finish();
    let len = object.len() as u64;
    let mut reader = reader_over(DxfVersion::AC1024, object.clone());
    let mut streams = merged_streams(DxfVersion::AC1024, &object, len, len);
    assert_eq!(reader.read_text(&mut streams).err(), Some(DxfError::UnexpectedEof));
}
