use std::collections::{HashMap, HashSet, VecDeque};

use acadrust::classes_reader::DxfClass;
use acadrust::error::DxfError;
use acadrust::notification::NotificationType;
use acadrust::object_common::{handle_hex_name, XDataValue};
use acadrust::object_reader::DwgObjectReader;
use acadrust::stream_reader::DwgStreamReaderBase;
use acadrust::stream_set::StreamSet;
use acadrust::templates::{CadTemplate, TableControlType};
use acadrust::version::DxfVersion;

/// Bits written most significant first, packed into bytes.
struct Bits {
    bits: Vec<bool>,
}

impl Bits {
    fn new() -> Bits {
        Bits { bits: Vec::new() }
    }

    fn code(mut self, value: u8, n: u32) -> Bits {
        for i in (0..n).rev() {
            self.bits.push((value >> i) & 1 == 1);
        }
        self
    }

    fn bytes(mut self, bytes: &[u8]) -> Bits {
        for &b in bytes {
            self = self.code(b, 8);
        }
        self
    }

    fn finish(self) -> Vec<u8> {
        let mut out = Vec::new();
        for chunk in self.bits.chunks(8) {
            let mut byte = 0u8;
            for (i, &bit) in chunk.iter().enumerate() {
                if bit {
                    byte |= 1 << (7 - i);
                }
            }
            out.push(byte);
        }
        out
    }
}

fn class(number: i16, name: &str) -> DxfClass {
    DxfClass {
        class_number: number,
        proxy_flags: 0,
        application_name: String::new(),
        cpp_class_name: String::new(),
        dxf_name: name.to_string(),
        was_zombie: false,
        item_class_id: 0x1F3,
        is_an_entity: false,
        instance_count: 0,
        dwg_version: 0,
        maintenance_version: 0,
    }
}

fn reader_over(version: DxfVersion, data: Vec<u8>) -> DwgObjectReader {
    DwgObjectReader::new(version, data, VecDeque::new(), HashMap::new(), &[])
}

/// The streams of an object whose data starts at byte 0 of `data`, whose
/// strings start at byte `text_at` and whose handles start at byte
/// `handles_at`, read merged.
fn merged_streams(version: DxfVersion, data: &[u8], text_at: u64, handles_at: u64) -> StreamSet {
    StreamSet {
        object_reader: DwgStreamReaderBase::new(data.to_vec(), version),
        text_reader: DwgStreamReaderBase::new_at(data.to_vec(), version, text_at),
        handles_reader: DwgStreamReaderBase::new_at(data.to_vec(), version, handles_at),
        merged: true,
        has_separate_text_reader: true,
        current_handle: 0,
    }
}

/// The object data of a non-graphical R2010 object with handle 0x2A, no
/// extended data, `reactors` reactors and no extended dictionary, padded
/// to eight bytes.
fn r2010_common(reactors: u8) -> Bits {
    Bits::new()
        .bytes(&[0x51, 0x2A])
        .code(0b10, 2)
        .code(0b01, 2).bytes(&[reactors])
        .code(0b1, 1)
}

#[test]
fn new_reader_has_an_empty_state() {
    let classes = vec![class(500, "A"), class(501, "B"), class(500, "C")];
    let mut queue = VecDeque::new();
    queue.push_back(0x10u64);
    let mut map = HashMap::new();
    map.insert(0x10u64, 0i64);
    let mut reader = DwgObjectReader::new(DxfVersion::AC1015, vec![0u8; 4], queue, map, &classes);
    assert!(reader.failsafe);
    assert!(reader.notifications.is_empty());
    reader.notify("first", NotificationType::Warning);
    assert_eq!(reader.notifications.len(), 1);
    assert_eq!(reader.notifications[0].message, "first");
    assert_eq!(reader.notifications[0].notification_type, NotificationType::Warning);
}

#[test]
fn handle_reference_queues_only_new_handles() {
    let read: HashSet<u64> = [5u64].into_iter().collect();
    let existing: HashSet<u64> = [6u64].into_iter().collect();
    let mut queue = VecDeque::new();

    let mut r = DwgStreamReaderBase::new(vec![0x41, 0x07], DxfVersion::AC1015);
    assert_eq!(DwgObjectReader::handle_reference(&mut r, 0, &mut queue, &read, &existing).unwrap(), 7);
    assert_eq!(queue.iter().copied().collect::<Vec<u64>>(), vec![7]);

    let mut r = DwgStreamReaderBase::new(vec![0x41, 0x05], DxfVersion::AC1015);
    assert_eq!(DwgObjectReader::handle_reference(&mut r, 0, &mut queue, &read, &existing).unwrap(), 5);
    let mut r = DwgStreamReaderBase::new(vec![0x41, 0x06], DxfVersion::AC1015);
    assert_eq!(DwgObjectReader::handle_reference(&mut r, 0, &mut queue, &read, &existing).unwrap(), 6);
    let mut r = DwgStreamReaderBase::new(vec![0x40], DxfVersion::AC1015);
    assert_eq!(DwgObjectReader::handle_reference(&mut r, 0, &mut queue, &read, &existing).unwrap(), 0);
    assert_eq!(queue.len(), 1);

    // Relative code 6: the reference plus one.
    let mut r = DwgStreamReaderBase::new(vec![0x60], DxfVersion::AC1015);
    assert_eq!(DwgObjectReader::handle_reference(&mut r, 0x20, &mut queue, &read, &existing).unwrap(), 0x21);
    assert_eq!(queue.iter().copied().collect::<Vec<u64>>(), vec![7, 0x21]);

    let mut r = DwgStreamReaderBase::new(vec![0x41], DxfVersion::AC1015);
    assert_eq!(
        DwgObjectReader::handle_reference(&mut r, 0, &mut queue, &read, &existing),
        Err(DxfError::UnexpectedEof)
    );
    assert_eq!(queue.len(), 2);
}

#[test]
fn entity_type_before_r2010() {
    // Size 16, then the type code 0x13 as a BitShort (code 01, one byte).
    let mut data = vec![0x10, 0x00];
    data.extend(Bits::new().code(0b01, 2).bytes(&[0x13]).finish());
    data.resize(18, 0);
    let mut reader = reader_over(DxfVersion::AC1015, data);
    let (code, streams) = reader.get_entity_type(0).unwrap();
    assert_eq!(code, 0x13);
    let streams = streams.unwrap();
    assert!(!streams.merged);
    assert!(!streams.has_separate_text_reader);
    assert_eq!(streams.object_reader.position_in_bits(), 26);
    assert_eq!(streams.handles_reader.position(), 0);
    assert_eq!(streams.text_reader.position(), 0);
    assert_eq!(streams.current_handle, 0);
}

#[test]
fn entity_type_of_an_empty_object() {
    let mut reader = reader_over(DxfVersion::AC1015, vec![0x00, 0x00, 0x00]);
    let (code, streams) = reader.get_entity_type(0).unwrap();
    assert_eq!(code, -1);
    assert!(streams.is_none());
}

#[test]
fn entity_type_past_the_end_fails() {
    let mut reader = reader_over(DxfVersion::AC1015, vec![0x10, 0x00]);
    assert_eq!(reader.get_entity_type(5).err(), Some(DxfError::UnexpectedEof));
    assert_eq!(reader.get_entity_type(-1).err(), Some(DxfError::UnexpectedEof));
}

#[test]
fn entity_type_from_r2010() {
    // Size 4 bytes, handle stream of 8 bits: the object data starts at bit
    // 24 and the handles at 24 + 32 - 8 = 48; bit 47 is clear (no strings).
    let mut data = vec![0x04, 0x00, 0x08];
    data.extend(Bits::new().code(0b00, 2).bytes(&[0x22]).finish());
    data.resize(6, 0);
    data.extend(&[0x41, 0x09]);
    let mut reader = reader_over(DxfVersion::AC1024, data);
    let (code, streams) = reader.get_entity_type(0).unwrap();
    assert_eq!(code, 0x22);
    let mut streams = streams.unwrap();
    assert!(streams.merged);
    assert!(streams.has_separate_text_reader);
    assert!(streams.text_reader.is_empty());
    assert_eq!(streams.handles_reader.position_in_bits(), 48);
    assert_eq!(streams.object_reader.position_in_bits(), 34);
    assert_eq!(streams.handle_ref().unwrap(), 9);
}

#[test]
fn entity_type_with_a_handle_stream_too_large_fails() {
    let mut data = vec![0x01, 0x00, 0x7F];
    data.resize(8, 0);
    let mut reader = reader_over(DxfVersion::AC1024, data);
    assert_eq!(reader.get_entity_type(0).err(), Some(DxfError::InvalidFormat));
}

#[test]
fn update_handle_reader_moves_the_handle_stream() {
    // A raw long 40: the handles start at bit 40.
    let mut data = vec![40, 0, 0, 0, 0];
    data.extend(&[0x41, 0x0C]);
    let reader = reader_over(DxfVersion::AC1015, data.clone());
    let mut streams = StreamSet {
        object_reader: DwgStreamReaderBase::new(data.clone(), DxfVersion::AC1015),
        text_reader: DwgStreamReaderBase::new(data.clone(), DxfVersion::AC1015),
        handles_reader: DwgStreamReaderBase::new(data, DxfVersion::AC1015),
        merged: false,
        has_separate_text_reader: false,
        current_handle: 0,
    };
    reader.update_handle_reader(&mut streams).unwrap();
    assert!(streams.merged);
    assert!(!streams.has_separate_text_reader);
    assert_eq!(streams.handles_reader.position_in_bits(), 40);
    assert_eq!(streams.handle_ref().unwrap(), 0x0C);
}

#[test]
fn xref_dependant_bit() {
    let reader = reader_over(DxfVersion::AC1021, Vec::new());
    let mut r = DwgStreamReaderBase::new(Bits::new().code(0b11, 2).finish(), DxfVersion::AC1021);
    assert!(reader.read_xref_dependant_bit(&mut r).unwrap());
    let mut r = DwgStreamReaderBase::new(Bits::new().code(0b10, 2).finish(), DxfVersion::AC1021);
    assert!(!reader.read_xref_dependant_bit(&mut r).unwrap());

    let reader = reader_over(DxfVersion::AC1015, Vec::new());
    let mut r = DwgStreamReaderBase::new(Bits::new().code(0b0, 1).code(0b10, 2).code(0b1, 1).finish(), DxfVersion::AC1015);
    assert!(reader.read_xref_dependant_bit(&mut r).unwrap());
}

#[test]
fn hex_names_of_handles() {
    assert_eq!(handle_hex_name(0), "0x0");
    assert_eq!(handle_hex_name(255), "0xFF");
    assert_eq!(handle_hex_name(0x1A2B), "0x1A2B");
    assert_eq!(handle_hex_name(u64::MAX), "0xFFFFFFFFFFFFFFFF");
}

#[test]
fn extended_data_groups() {
    let data = Bits::new()
        .code(0b01, 2).bytes(&[5])
        .bytes(&[0x51, 0x10])
        .bytes(&[0x01, 0x7B])
        .bytes(&[0x0B, 0x34, 0x12])
        .code(0b10, 2)
        .finish();
    let mut reader = reader_over(DxfVersion::AC1015, data.clone());
    let mut streams = merged_streams(DxfVersion::AC1015, &data, 0, 0);
    let edata = reader.read_extended_data(&mut streams).unwrap();
    assert_eq!(edata.entries.len(), 1);
    assert_eq!(edata.entries[0].app_handle, 0x10);
    let values = &edata.entries[0].values;
    assert_eq!(values.len(), 2);
    assert!(matches!(&values[0], XDataValue::ControlString(s) if s == "{"));
    assert!(matches!(&values[1], XDataValue::Integer16(0x1234)));
}

#[test]
fn extended_data_values_of_each_code() {
    let mut values = Vec::new();
    values.extend(&[0x00, 0x02, 0xE4, 0x04, b'h', b'i']);
    values.extend(&[0x01, 0x7D]);
    values.extend(&[0x02, 0x41, 0xAB]);
    values.extend(&[0x03, 0x02, 0xDE, 0xAD]);
    values.extend(&[0x04, 0x41, 0x33]);
    values.extend(&[0x0C, 0x00, 0x00, 0x00, 0x80]);
    let data = Bits::new()
        .code(0b00, 2).bytes(&[values.len() as u8, 0])
        .bytes(&[0x51, 0x11])
        .bytes(&values)
        .code(0b10, 2)
        .finish();
    let mut reader = reader_over(DxfVersion::AC1015, data.clone());
    let mut streams = merged_streams(DxfVersion::AC1015, &data, 0, 0);
    let edata = reader.read_extended_data(&mut streams).unwrap();
    let v = &edata.entries[0].values;
    assert_eq!(v.len(), 6);
    assert!(matches!(&v[0], XDataValue::String(s) if s == "hi"));
    assert!(matches!(&v[1], XDataValue::ControlString(s) if s == "}"));
    assert!(matches!(&v[2], XDataValue::LayerName(s) if s == "0xAB"));
    assert!(matches!(&v[3], XDataValue::BinaryData(b) if b == &vec![0xDE, 0xAD]));
    assert!(matches!(&v[4], XDataValue::Handle(0x33)));
    assert!(matches!(&v[5], XDataValue::Integer32(i32::MIN)));
}

#[test]
fn extended_data_unknown_code_skips_the_group() {
    // Size 4: code 0x63 is not known, the rest of the group is skipped.
    let data = Bits::new()
        .code(0b01, 2).bytes(&[4])
        .bytes(&[0x51, 0x10])
        .bytes(&[0x63, 0xFF, 0xFF, 0xFF])
        .code(0b10, 2)
        .finish();
    let mut reader = reader_over(DxfVersion::AC1015, data.clone());
    let mut streams = merged_streams(DxfVersion::AC1015, &data, 0, 0);
    let edata = reader.read_extended_data(&mut streams).unwrap();
    assert_eq!(edata.entries.len(), 1);
    assert!(edata.entries[0].values.is_empty());
}

#[test]
fn common_non_entity_data_from_r2010() {
    let mut data = r2010_common(1).finish();
    data.resize(8, 0);
    data.extend(&[0x41, 0x05, 0x41, 0x07]);
    let mut reader = reader_over(DxfVersion::AC1024, data.clone());
    let mut streams = merged_streams(DxfVersion::AC1024, &data, 8, 8);
    let common = reader.read_common_non_entity_data(&mut streams).unwrap();
    assert_eq!(common.handle, 0x2A);
    assert_eq!(common.owner_handle, 5);
    assert_eq!(common.reactor_handles, vec![7]);
    assert_eq!(common.xdict_handle, 0);
    assert!(common.edata.entries.is_empty());
}

#[test]
fn reactor_count_out_of_step_is_refused() {
    let data = Bits::new().code(0b00, 2).bytes(&[0x20, 0x4E, 0, 0]).finish();
    let mut reader = reader_over(DxfVersion::AC1015, data.clone());
    let mut streams = merged_streams(DxfVersion::AC1015, &data, 0, 0);
    assert_eq!(reader.read_reactors_and_dictionary_handle(&mut streams).err(), Some(DxfError::InvalidFormat));
}

#[test]
fn reactors_and_dictionary_of_an_entity() {
    // Two reactors, a dictionary (R2004: "missing" bit clear).
    let mut data = Bits::new().code(0b01, 2).bytes(&[2]).code(0b0, 1).finish();
    data.resize(4, 0);
    data.extend(&[0x41, 0x03, 0x41, 0x04, 0x31, 0x09]);
    let mut reader = reader_over(DxfVersion::AC1018, data.clone());
    let mut streams = merged_streams(DxfVersion::AC1018, &data, 0, 4);
    let (reactors, xdict) = reader.read_reactors_and_dictionary_handle(&mut streams).unwrap();
    assert_eq!(reactors, vec![3, 4]);
    assert_eq!(xdict, 9);
}

#[test]
fn common_entity_data_from_r2010() {
    // Handle 0x2A, no extended data, no graphics, entity mode 2, no
    // reactors, no dictionary, color index 7, linetype scale 1.0, layer,
    // linetype by layer, plot style by layer, no material, shadow 0, no
    // visual styles, visible, lineweight 0x1D.
    let mut data = Bits::new()
        .bytes(&[0x51, 0x2A])
        .code(0b10, 2)
        .code(0b0, 1)
        .code(0b10, 2)
        .code(0b10, 2)
        .code(0b1, 1)
        .code(0b01, 2).bytes(&[7])
        .code(0b01, 2)
        .code(0b00, 2)
        .code(0b00, 2).bytes(&[0])
        .code(0b00, 2)
        .code(0b000, 3)
        .code(0b10, 2)
        .bytes(&[0x1D])
        .finish();
    data.resize(12, 0);
    data.extend(&[0x51, 0x0F]);
    let mut reader = reader_over(DxfVersion::AC1024, data.clone());
    let mut streams = merged_streams(DxfVersion::AC1024, &data, 12, 12);
    let (common, ent, props) = reader.read_common_entity_data(&mut streams).unwrap();
    assert_eq!(common.handle, 0x2A);
    assert!(common.reactor_handles.is_empty());
    assert_eq!(ent.entity_mode, 2);
    assert_eq!(ent.layer_handle, 0x0F);
    assert_eq!(ent.ltype_flags, 0);
    assert_eq!(props.handle, 0x2A);
    assert_eq!(props.color, acadrust::color::DwgColor::Index(7));
    assert!(!props.invisible);
    assert_eq!(props.line_weight, Some(0x1D));
}

#[test]
fn table_control_entries() {
    let mut data = r2010_common(0).code(0b01, 2).bytes(&[2]).finish();
    data.resize(8, 0);
    data.extend(&[0x40, 0x41, 0x11, 0x41, 0x12, 0x41, 0x13, 0x41, 0x14]);
    let mut reader = reader_over(DxfVersion::AC1024, data.clone());

    let mut streams = merged_streams(DxfVersion::AC1024, &data, 8, 8);
    let t: CadTemplate<XDataValue, ()> = reader.read_table_control(&mut streams, TableControlType::LayerControl).unwrap();
    match t {
        CadTemplate::TableControl { common, table_data, table_type } => {
            assert_eq!(common.handle, 0x2A);
            assert_eq!(table_data.entry_handles, vec![0x11, 0x12]);
            assert_eq!(table_type, TableControlType::LayerControl);
        },
        _ => panic!("not a table control"),
    }

    let mut streams = merged_streams(DxfVersion::AC1024, &data, 8, 8);
    let t: CadTemplate<XDataValue, ()> = reader.read_block_control(&mut streams).unwrap();
    match t {
        CadTemplate::TableControl { table_data, table_type, .. } => {
            assert_eq!(table_data.entry_handles, vec![0x11, 0x12, 0x13, 0x14]);
            assert_eq!(table_type, TableControlType::BlockControl);
        },
        _ => panic!("not a table control"),
    }

    let mut streams = merged_streams(DxfVersion::AC1024, &data, 8, 8);
    let t: CadTemplate<XDataValue, ()> = reader.read_ltype_control(&mut streams).unwrap();
    match t {
        CadTemplate::TableControl { table_data, table_type, .. } => {
            assert_eq!(table_data.entry_handles, vec![0x11, 0x12]);
            assert_eq!(table_type, TableControlType::LineTypeControl);
        },
        _ => panic!("not a table control"),
    }
}

#[test]
fn dictionary_keeps_named_entries_with_a_handle() {
    // Two entries; R2000 flags; the strings are UTF-16 in the string stream.
    let mut data = r2010_common(0)
        .code(0b01, 2).bytes(&[2])
        .code(0b10, 2)
        .bytes(&[0])
        .finish();
    data.resize(8, 0);
    data.extend(&[0x40, 0x41, 0x21, 0x41, 0x22, 0x41, 0x23]);
    let text_at = data.len() as u64;
    data.extend(Bits::new().code(0b01, 2).bytes(&[1, b'A', 0]).code(0b10, 2).finish());
    let mut reader = reader_over(DxfVersion::AC1024, data.clone());

    let mut streams = merged_streams(DxfVersion::AC1024, &data, text_at, 8);
    let t: CadTemplate<XDataValue, ()> = reader.read_dictionary(&mut streams).unwrap();
    match t {
        CadTemplate::DictionaryObj { dict_data, .. } => {
            assert_eq!(dict_data.entries, vec![("A".to_string(), 0x21)]);
        },
        _ => panic!("not a dictionary"),
    }

    let mut streams = merged_streams(DxfVersion::AC1024, &data, text_at, 8);
    let t: CadTemplate<XDataValue, ()> = reader.read_dictionary_with_default(&mut streams).unwrap();
    match t {
        CadTemplate::DictWithDefault { dict_default_data, .. } => {
            assert_eq!(dict_default_data.dict_data.entries, vec![("A".to_string(), 0x21)]);
            assert_eq!(dict_default_data.default_entry_handle, 0x23);
        },
        _ => panic!("not a dictionary with default"),
    }
}

#[test]
fn group_entity_handles() {
    let mut data = r2010_common(0)
        .code(0b10, 2)
        .code(0b10, 2)
        .code(0b01, 2).bytes(&[1])
        .finish();
    data.resize(8, 0);
    data.extend(&[0x40, 0x41, 0x31]);
    let text_at = data.len() as u64;
    data.extend(Bits::new().code(0b10, 2).finish());
    let mut reader = reader_over(DxfVersion::AC1024, data.clone());
    let mut streams = merged_streams(DxfVersion::AC1024, &data, text_at, 8);
    let t: CadTemplate<XDataValue, ()> = reader.read_group(&mut streams).unwrap();
    match t {
        CadTemplate::GroupObj { common, group_data } => {
            assert_eq!(common.handle, 0x2A);
            assert_eq!(group_data.entity_handles, vec![0x31]);
        },
        _ => panic!("not a group"),
    }
}

#[test]
fn unknown_and_proxy_objects_are_generic() {
    let mut data = r2010_common(0).finish();
    data.resize(8, 0);
    data.extend(&[0x40]);
    let mut reader = reader_over(DxfVersion::AC1024, data.clone());
    let mut streams = merged_streams(DxfVersion::AC1024, &data, 8, 8);
    let t: CadTemplate<XDataValue, ()> = reader.read_placeholder(&mut streams).unwrap();
    assert!(matches!(t, CadTemplate::GenericObject { .. }));
    let mut streams = merged_streams(DxfVersion::AC1024, &data, 8, 8);
    let t: CadTemplate<XDataValue, ()> = reader.read_proxy_object(&mut streams).unwrap();
    assert_eq!(t.handle(), 0x2A);
}
