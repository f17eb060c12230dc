use std::collections::{HashMap, VecDeque};

use acadrust::error::DxfError;
use acadrust::object_common::XDataValue;
use acadrust::object_reader::DwgObjectReader;
use acadrust::object_records::{group_code_value_type, GroupCodeType};
use acadrust::stream_reader::DwgStreamReaderBase;
use acadrust::stream_set::StreamSet;
use acadrust::templates::CadTemplate;
use acadrust::version::DxfVersion;

/// Bits written most significant first, packed into bytes.
struct Bits {
    bits: Vec<bool>,
}

impl Bits {
    fn new() -> Bits {
        Bits { bits: Vec::new() }
    }

    fn code(mut self, value: u8, n: u32) -> Bits {
        for i in (0..n).rev() {
            self.bits.push((value >> i) & 1 == 1);
        }
        self
    }

    fn bytes(mut self, bytes: &[u8]) -> Bits {
        for &b in bytes {
            self = self.code(b, 8);
        }
        self
    }

    fn finish(self) -> Vec<u8> {
        let mut out = Vec::new();
        for chunk in self.bits.chunks(8) {
            let mut byte = 0u8;
            for (i, &bit) in chunk.iter().enumerate() {
                if bit {
                    byte |= 1 << (7 - i);
                }
            }
            out.push(byte);
        }
        out
    }
}

fn reader_over(version: DxfVersion, data: Vec<u8>) -> DwgObjectReader {
    DwgObjectReader::new(version, data, VecDeque::new(), HashMap::new(), &[])
}

/// The streams of an object whose data starts at byte 0 of `data`, whose
/// strings start at byte `text_at` and whose handles start at byte
/// `handles_at`, read merged.
fn merged_streams(version: DxfVersion, data: &[u8], text_at: u64, handles_at: u64) -> StreamSet {
    StreamSet {
        object_reader: DwgStreamReaderBase::new(data.to_vec(), version),
        text_reader: DwgStreamReaderBase::new_at(data.to_vec(), version, text_at),
        handles_reader: DwgStreamReaderBase::new_at(data.to_vec(), version, handles_at),
        merged: true,
        has_separate_text_reader: true,
        current_handle: 0,
    }
}

/// The streams of an R2000 object: the handle stream is found from the
/// size at the start of the data.
fn plain_streams(version: DxfVersion, data: &[u8]) -> StreamSet {
    StreamSet {
        object_reader: DwgStreamReaderBase::new(data.to_vec(), version),
        text_reader: DwgStreamReaderBase::new(data.to_vec(), version),
        handles_reader: DwgStreamReaderBase::new(data.to_vec(), version),
        merged: false,
        has_separate_text_reader: false,
        current_handle: 0,
    }
}

/// The object data of a non-graphical R2010 object with handle 0x2A, no
/// extended data, `reactors` reactors and no extended dictionary.
fn r2010_common(reactors: u8) -> Bits {
    Bits::new()
        .bytes(&[0x51, 0x2A])
        .code(0b10, 2)
        .code(0b01, 2).bytes(&[reactors])
        .code(0b1, 1)
}

/// The data of an R2010 object: `object` padded to `handles_at` bytes,
/// the handle stream, then the string stream.
fn r2010_object(object: Vec<u8>, handles_at: usize, handles: &[u8], strings: Vec<u8>) -> (Vec<u8>, u64) {
    let mut data = object;
    assert!(data.len() <= handles_at);
    data.resize(handles_at, 0);
    data.extend(handles);
    let text_at = data.len() as u64;
    data.extend(strings);
    (data, text_at)
}

/// An R2010 block header: name "AB", not an xref when `xref` is false,
/// two owned objects, two inserts, a two-byte preview.
fn r2010_block(xref: bool) -> Vec<u8> {
    let mut bits = r2010_common(0)
        .code(0b10, 2)
        .code(0b00, 2)
        .code(if xref { 1 } else { 0 }, 1)
        .code(0b0, 1)
        .code(0b0, 1);
    if !xref {
        bits = bits.code(0b01, 2).bytes(&[2]);
    }
    bits.code(0b10, 2).code(0b10, 2).code(0b10, 2)
        .bytes(&[1, 1, 0])
        .code(0b01, 2).bytes(&[2]).bytes(&[0xAA, 0xBB])
        .code(0b10, 2)
        .code(0b1, 1)
        .bytes(&[1])
        .finish()
}

#[test]
fn block_header_r2010_lists_its_owned_objects() {
    let handles = [
        0x41, 0x05, // owner
        0x40, // block control
        0x41, 0x30, // block entity
        0x41, 0x31, 0x41, 0x32, // owned objects
        0x41, 0x33, // end of block
        0x41, 0x34, 0x41, 0x35, // inserts
        0x41, 0x36, // layout
    ];
    let strings = Bits::new()
        .code(0b01, 2).bytes(&[2, b'A', 0, b'B', 0])
        .code(0b10, 2)
        .code(0b10, 2)
        .finish();
    let (data, text_at) = r2010_object(r2010_block(false), 16, &handles, strings);
    let mut reader = reader_over(DxfVersion::AC1024, data.clone());
    let mut streams = merged_streams(DxfVersion::AC1024, &data, text_at, 16);
    let t: CadTemplate<XDataValue, ()> = reader.read_block_header(&mut streams).unwrap();
    match t {
        CadTemplate::BlockHeader { common, block_data } => {
            assert_eq!(common.handle, 0x2A);
            assert_eq!(common.owner_handle, 5);
            assert_eq!(block_data.block_entity_handle, 0x30);
            assert_eq!(block_data.first_entity_handle, 0);
            assert_eq!(block_data.last_entity_handle, 0);
            assert_eq!(block_data.owned_object_handles, vec![0x31, 0x32]);
            assert_eq!(block_data.end_block_handle, 0x33);
            assert_eq!(block_data.layout_handle, 0x36);
            assert!(block_data.insert_count.is_empty());
        },
        _ => panic!("not a block header"),
    }
}

#[test]
fn block_header_of_an_xref_owns_nothing() {
    let handles = [
        0x41, 0x05, // owner
        0x40, // block control
        0x41, 0x30, // block entity
        0x41, 0x33, // end of block
        0x41, 0x34, 0x41, 0x35, // inserts
        0x41, 0x36, // layout
    ];
    let strings = Bits::new().code(0b10, 2).code(0b10, 2).code(0b10, 2).finish();
    let (data, text_at) = r2010_object(r2010_block(true), 16, &handles, strings);
    let mut reader = reader_over(DxfVersion::AC1024, data.clone());
    let mut streams = merged_streams(DxfVersion::AC1024, &data, text_at, 16);
    let t: CadTemplate<XDataValue, ()> = reader.read_block_header(&mut streams).unwrap();
    match t {
        CadTemplate::BlockHeader { block_data, .. } => {
            assert_eq!(block_data.block_entity_handle, 0x30);
            assert!(block_data.owned_object_handles.is_empty());
            assert_eq!(block_data.end_block_handle, 0x33);
            assert_eq!(block_data.layout_handle, 0x36);
        },
        _ => panic!("not a block header"),
    }
}

#[test]
fn block_header_r2000_has_first_and_last_entities() {
    // Size in bits 128: the handles start at byte 16.  Name "B" (code
    // page), not xref-dependent, no flags, base point zero, empty path,
    // one insert, empty description, no preview.
    let mut data = Bits::new()
        .bytes(&[128, 0, 0, 0])
        .bytes(&[0x51, 0x2A])
        .code(0b10, 2)
        .code(0b10, 2)
        .code(0b01, 2).bytes(&[1, b'B'])
        .code(0b0, 1).code(0b10, 2).code(0b0, 1)
        .code(0b0000, 4)
        .code(0b0, 1)
        .code(0b10, 2).code(0b10, 2).code(0b10, 2)
        .code(0b10, 2)
        .bytes(&[7, 0])
        .code(0b10, 2)
        .code(0b10, 2)
        .finish();
    assert!(data.len() <= 16);
    data.resize(16, 0);
    data.extend(&[
        0x41, 0x05, // owner
        0x40, // extended dictionary
        0x40, // block control
        0x41, 0x30, // block entity
        0x41, 0x31, 0x41, 0x32, // first and last entities
        0x41, 0x33, // end of block
        0x41, 0x34, // insert
        0x41, 0x36, // layout
    ]);
    let mut reader = reader_over(DxfVersion::AC1015, data.clone());
    let mut streams = plain_streams(DxfVersion::AC1015, &data);
    let t: CadTemplate<XDataValue, ()> = reader.read_block_header(&mut streams).unwrap();
    match t {
        CadTemplate::BlockHeader { common, block_data } => {
            assert_eq!(common.handle, 0x2A);
            assert_eq!(common.xdict_handle, 0);
            assert_eq!(block_data.block_entity_handle, 0x30);
            assert_eq!(block_data.first_entity_handle, 0x31);
            assert_eq!(block_data.last_entity_handle, 0x32);
            assert!(block_data.owned_object_handles.is_empty());
            assert_eq!(block_data.end_block_handle, 0x33);
            assert_eq!(block_data.layout_handle, 0x36);
        },
        _ => panic!("not a block header"),
    }
}

#[test]
fn block_header_without_the_end_of_its_insert_count_fails() {
    // The insert count never meets its zero byte.
    let data = r2010_common(0)
        .code(0b10, 2)
        .code(0b00, 2)
        .code(0b000, 3)
        .code(0b01, 2).bytes(&[0])
        .code(0b10, 2).code(0b10, 2).code(0b10, 2)
        .bytes(&[1, 1, 1])
        .finish();
    let mut reader = reader_over(DxfVersion::AC1024, data.clone());
    let len = data.len() as u64;
    let mut streams = merged_streams(DxfVersion::AC1024, &data, len, len);
    let r: Result<CadTemplate<XDataValue, ()>, DxfError> = reader.read_block_header(&mut streams);
    assert_eq!(r.err(), Some(DxfError::UnexpectedEof));
}

#[test]
fn scale_object_keeps_its_common_data() {
    // Unused BitShort, name "S", paper and drawing units 1.0, unit scale.
    let object = r2010_common(1)
        .code(0b10, 2)
        .code(0b01, 2).code(0b01, 2)
        .code(0b1, 1)
        .finish();
    let strings = Bits::new().code(0b01, 2).bytes(&[1, b'S', 0]).finish();
    let (data, text_at) = r2010_object(object, 8, &[0x41, 0x05, 0x41, 0x07], strings);
    let mut reader = reader_over(DxfVersion::AC1024, data.clone());
    let mut streams = merged_streams(DxfVersion::AC1024, &data, text_at, 8);
    let t: CadTemplate<XDataValue, ()> = reader.read_scale(&mut streams).unwrap();
    match t {
        CadTemplate::ScaleObj { common } => {
            assert_eq!(common.handle, 0x2A);
            assert_eq!(common.owner_handle, 5);
            assert_eq!(common.reactor_handles, vec![7]);
        },
        _ => panic!("not a scale"),
    }
}

#[test]
fn sort_entities_table_pairs_sort_and_entity_handles() {
    let object = r2010_common(0)
        .code(0b01, 2).bytes(&[2])
        .bytes(&[0x41, 0x70])
        .bytes(&[0x41, 0x71])
        .finish();
    let handles = [0x41, 0x05, 0x41, 0x40, 0x41, 0x50, 0x41, 0x51];
    let (data, text_at) = r2010_object(object, 12, &handles, Vec::new());
    let mut reader = reader_over(DxfVersion::AC1024, data.clone());
    let mut streams = merged_streams(DxfVersion::AC1024, &data, text_at, 12);
    let t: CadTemplate<XDataValue, ()> = reader.read_sort_entities_table(&mut streams).unwrap();
    match t {
        CadTemplate::SortEntsTableObj { sort_data, .. } => {
            assert_eq!(sort_data.block_owner_handle, 0x40);
            assert_eq!(sort_data.sort_handle_pairs, vec![(0x70, 0x50), (0x71, 0x51)]);
        },
        _ => panic!("not a sort table"),
    }
}

#[test]
fn xrecord_items_are_skipped_to_their_end() {
    // Three data bytes: one item, code 70 with the BitShort 5; then the
    // cloning flag.
    let object = r2010_common(0)
        .code(0b01, 2).bytes(&[3])
        .bytes(&[70, 0])
        .code(0b01, 2).bytes(&[5])
        .code(0b10, 2)
        .finish();
    let (data, text_at) = r2010_object(object, 12, &[0x41, 0x05], Vec::new());
    let mut reader = reader_over(DxfVersion::AC1024, data.clone());
    let mut streams = merged_streams(DxfVersion::AC1024, &data, text_at, 12);
    let t: CadTemplate<XDataValue, ()> = reader.read_xrecord(&mut streams).unwrap();
    assert!(matches!(t, CadTemplate::XRecordObj { .. }));
    // 29 bits of common data, 10 of size, 26 of the item, 2 of the flag.
    assert_eq!(streams.object_reader.position_in_bits(), 67);
}

#[test]
fn xrecord_cut_short_fails() {
    let object = r2010_common(0)
        .code(0b01, 2).bytes(&[40])
        .bytes(&[70, 0])
        .finish();
    let len = object.len() as u64;
    let mut reader = reader_over(DxfVersion::AC1024, object.clone());
    let mut streams = merged_streams(DxfVersion::AC1024, &object, len, len);
    let r: Result<CadTemplate<XDataValue, ()>, DxfError> = reader.read_xrecord(&mut streams);
    assert_eq!(r.err(), Some(DxfError::UnexpectedEof));
}

#[test]
fn group_code_value_types() {
    assert_eq!(group_code_value_type(0), GroupCodeType::String);
    assert_eq!(group_code_value_type(10), GroupCodeType::Point3D);
    assert_eq!(group_code_value_type(40), GroupCodeType::Double);
    assert_eq!(group_code_value_type(70), GroupCodeType::Int16);
    assert_eq!(group_code_value_type(90), GroupCodeType::Int32);
    assert_eq!(group_code_value_type(102), GroupCodeType::String);
    assert_eq!(group_code_value_type(105), GroupCodeType::Handle);
    assert_eq!(group_code_value_type(160), GroupCodeType::Int64);
    assert_eq!(group_code_value_type(290), GroupCodeType::Bool);
    assert_eq!(group_code_value_type(310), GroupCodeType::Chunk);
    assert_eq!(group_code_value_type(330), GroupCodeType::Handle);
    assert_eq!(group_code_value_type(999), GroupCodeType::String);
    assert_eq!(group_code_value_type(1071), GroupCodeType::Int32);
    assert_eq!(group_code_value_type(80), GroupCodeType::Unknown);
    assert_eq!(group_code_value_type(-1), GroupCodeType::Unknown);
}

#[test]
fn viewport_entity_header_is_a_generic_entry() {
    // Not xref-dependent, flag set; the control object handle.
    let object = r2010_common(0).code(0b10, 2).code(0b1, 1).finish();
    let (data, text_at) = r2010_object(object, 8, &[0x41, 0x05, 0x41, 0x09], Vec::new());
    let mut reader = reader_over(DxfVersion::AC1024, data.clone());
    let mut streams = merged_streams(DxfVersion::AC1024, &data, text_at, 8);
    let t: CadTemplate<XDataValue, ()> = reader.read_viewport_entity_header(&mut streams).unwrap();
    match t {
        CadTemplate::GenericTableEntry { common } => assert_eq!(common.owner_handle, 5),
        _ => panic!("not a table entry"),
    }
    assert_eq!(streams.handles_reader.position(), 12);
}

#[test]
fn mline_style_reads_each_element() {
    // Empty name and description, flags 0, fill color index 0, angles
    // 0.0, two elements of offset 1.0, color index 0 and linetype 0.
    let color = |b: Bits| b.code(0b10, 2).code(0b10, 2).bytes(&[0]);
    let mut bits = r2010_common(0).code(0b10, 2);
    bits = color(bits);
    bits = bits.code(0b10, 2).code(0b10, 2).bytes(&[2]);
    for _ in 0..2 {
        bits = bits.code(0b01, 2);
        bits = color(bits);
        bits = bits.code(0b10, 2);
    }
    let object = bits.finish();
    let strings = Bits::new().code(0b10, 2).code(0b10, 2).finish();
    let (data, text_at) = r2010_object(object, 12, &[0x41, 0x05], strings);
    let mut reader = reader_over(DxfVersion::AC1024, data.clone());
    let mut streams = merged_streams(DxfVersion::AC1024, &data, text_at, 12);
    let t: CadTemplate<XDataValue, ()> = reader.read_mline_style(&mut streams).unwrap();
    match t {
        CadTemplate::MLineStyleObj { mls_data, .. } => {
            assert_eq!(mls_data.element_linetype_handles, vec![0, 0]);
        },
        _ => panic!("not a multiline style"),
    }
}
