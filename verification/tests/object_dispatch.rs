use std::collections::{HashMap, VecDeque};

use acadrust::classes_reader::DxfClass;
use acadrust::error::DxfError;
use acadrust::notification::NotificationType;
use acadrust::object_dispatch::{handles_of, object_type_of, ObjectType};
use acadrust::object_reader::DwgObjectReader;
use acadrust::stream_reader::DwgStreamReaderBase;
use acadrust::stream_set::StreamSet;
use acadrust::templates::{CadTemplate, TableControlType};
use acadrust::version::DxfVersion;
use acadrust::object_dispatch::AnyEntity;

/// Bits written most significant first, packed into bytes.
struct Bits {
    bits: Vec<bool>,
}

impl Bits {
    fn new() -> Bits {
        Bits { bits: Vec::new() }
    }

    fn code(mut self, value: u8, n: u32) -> Bits {
        for i in (0..n).rev() {
            self.bits.push((value >> i) & 1 == 1);
        }
        self
    }

    fn bytes(mut self, bytes: &[u8]) -> Bits {
        for &b in bytes {
            self = self.code(b, 8);
        }
        self
    }

    fn finish(self) -> Vec<u8> {
        let mut out = Vec::new();
        for chunk in self.bits.chunks(8) {
            let mut byte = 0u8;
            for (i, &bit) in chunk.iter().enumerate() {
                if bit {
                    byte |= 1 << (7 - i);
                }
            }
            out.push(byte);
        }
        out
    }
}

/// The data of a non-graphical R2010 object with handle 0x2A, no extended
/// data, no reactors and no extended dictionary, then a count of two.
fn control_body() -> Bits {
    Bits::new()
        .bytes(&[0x51, 0x2A])
        .code(0b10, 2)
        .code(0b01, 2).bytes(&[0])
        .code(0b1, 1)
        .code(0b01, 2).bytes(&[2])
}

fn merged_streams(version: DxfVersion, data: &[u8], text_at: u64, handles_at: u64) -> StreamSet {
    StreamSet {
        object_reader: DwgStreamReaderBase::new(data.to_vec(), version),
        text_reader: DwgStreamReaderBase::new_at(data.to_vec(), version, text_at),
        handles_reader: DwgStreamReaderBase::new_at(data.to_vec(), version, handles_at),
        merged: true,
        has_separate_text_reader: true,
        current_handle: 0,
    }
}

/// A layer control object stored at byte 0 of an R2010 objects section:
/// its size, the size of its handle stream, its type code (50) and its
/// data, then its handles: owner 0 and the entries 0x11 and 0x12.
fn layer_control_section() -> Vec<u8> {
    let object = Bits::new().code(0b00, 2).bytes(&[0x32]);
    let mut bits = object;
    for b in control_body().bits {
        bits.bits.push(b);
    }
    let body = bits.finish();
    assert_eq!(body.len(), 7);
    let handles = [0x40, 0x41, 0x11, 0x41, 0x12];
    let mut data = vec![12, 0x00, 40];
    data.extend(body);
    data.extend(&handles);
    data.extend(&[0, 0]);
    data
}

fn class(number: i16, is_an_entity: bool) -> DxfClass {
    named_class(number, "SOMETHING", is_an_entity)
}

fn named_class(number: i16, name: &str, is_an_entity: bool) -> DxfClass {
    DxfClass {
        class_number: number,
        proxy_flags: 0,
        application_name: String::new(),
        cpp_class_name: String::new(),
        dxf_name: name.to_string(),
        was_zombie: false,
        item_class_id: 0x1F3,
        is_an_entity,
        instance_count: 0,
        dwg_version: 0,
        maintenance_version: 0,
    }
}

#[test]
fn object_types_by_code() {
    assert_eq!(object_type_of(-1), ObjectType::Invalid);
    assert_eq!(object_type_of(0), ObjectType::Undefined);
    assert_eq!(object_type_of(1), ObjectType::Text);
    assert_eq!(object_type_of(9), ObjectType::Unknown9);
    assert_eq!(object_type_of(0x13), ObjectType::Line);
    assert_eq!(object_type_of(0x32), ObjectType::LayerControlObj);
    assert_eq!(object_type_of(0x4D), ObjectType::LwPolyline);
    assert_eq!(object_type_of(0x52), ObjectType::Layout);
    assert_eq!(object_type_of(0x53), ObjectType::Undefined);
    assert_eq!(object_type_of(498), ObjectType::AcadProxyEntity);
    assert_eq!(object_type_of(499), ObjectType::AcadProxyObject);
    assert_eq!(object_type_of(500), ObjectType::Unlisted);
    assert_eq!(object_type_of(i16::MAX), ObjectType::Unlisted);
}

#[test]
fn read_object_dispatches_a_table_control() {
    let mut data = control_body().finish();
    data.resize(8, 0);
    data.extend(&[0x40, 0x41, 0x11, 0x41, 0x12]);
    let mut reader = DwgObjectReader::new(DxfVersion::AC1024, data.clone(), VecDeque::new(), HashMap::new(), &[]);
    let mut streams = merged_streams(DxfVersion::AC1024, &data, 8, 8);
    let t = reader.read_object(ObjectType::LayerControlObj, 0x32, &mut streams).unwrap().unwrap();
    match &t {
        CadTemplate::TableControl { common, table_data, table_type } => {
            assert_eq!(common.handle, 0x2A);
            assert_eq!(table_data.entry_handles, vec![0x11, 0x12]);
            assert_eq!(*table_type, TableControlType::LayerControl);
        },
        _ => panic!("not a table control"),
    }
    assert_eq!(handles_of(&t), vec![0, 0, 0x11, 0x12]);
    assert!(reader.notifications.is_empty());
}

#[test]
fn read_object_of_a_type_without_reader_gives_nothing() {
    let mut data = control_body().finish();
    data.resize(8, 0);
    let mut reader = DwgObjectReader::new(DxfVersion::AC1024, data.clone(), VecDeque::new(), HashMap::new(), &[]);
    for t in [ObjectType::Spline, ObjectType::Viewport, ObjectType::Mline,
        ObjectType::Invalid, ObjectType::Undefined, ObjectType::Unknown36] {
        let mut streams = merged_streams(DxfVersion::AC1024, &data, 8, 8);
        assert!(reader.read_object(t, 0, &mut streams).unwrap().is_none());
        assert_eq!(streams.object_reader.position_in_bits(), 0);
    }
    assert!(reader.notifications.is_empty());
}

#[test]
fn read_object_of_an_unlisted_type_without_class_warns() {
    let data = vec![0u8; 8];
    let mut reader = DwgObjectReader::new(DxfVersion::AC1024, data.clone(), VecDeque::new(), HashMap::new(), &[]);
    let mut streams = merged_streams(DxfVersion::AC1024, &data, 8, 8);
    assert!(reader.read_object(ObjectType::Unlisted, 600, &mut streams).unwrap().is_none());
    assert_eq!(reader.notifications.len(), 1);
    assert_eq!(reader.notifications[0].notification_type, NotificationType::Warning);
}

#[test]
fn read_object_of_an_unlisted_object_class_reads_a_generic_object() {
    let mut data = control_body().finish();
    data.resize(8, 0);
    data.extend(&[0x40]);
    let classes = [class(600, false)];
    let mut reader = DwgObjectReader::new(DxfVersion::AC1024, data.clone(), VecDeque::new(), HashMap::new(), &classes);
    let mut streams = merged_streams(DxfVersion::AC1024, &data, 8, 8);
    let t = reader.read_object(ObjectType::Unlisted, 600, &mut streams).unwrap().unwrap();
    match t {
        CadTemplate::GenericObject { common } => assert_eq!(common.handle, 0x2A),
        _ => panic!("not a generic object"),
    }
    assert_eq!(reader.notifications.len(), 1);
    assert_eq!(reader.notifications[0].notification_type, NotificationType::Warning);
}

#[test]
fn read_object_of_a_long_transaction_warns() {
    let mut data = control_body().finish();
    data.resize(8, 0);
    data.extend(&[0x40]);
    let mut reader = DwgObjectReader::new(DxfVersion::AC1024, data.clone(), VecDeque::new(), HashMap::new(), &[]);
    let mut streams = merged_streams(DxfVersion::AC1024, &data, 8, 8);
    let t = reader.read_object(ObjectType::LongTransaction, 0x4C, &mut streams).unwrap().unwrap();
    assert!(matches!(t, CadTemplate::GenericObject { .. }));
    assert_eq!(reader.notifications.len(), 1);
    assert_eq!(reader.notifications[0].notification_type, NotificationType::Warning);
}

#[test]
fn read_follows_the_queue_and_skips_unmapped_handles() {
    let data = layer_control_section();
    let mut queue = VecDeque::new();
    queue.push_back(0x2Au64);
    queue.push_back(0x99u64);
    queue.push_back(0x2Au64);
    let mut map = HashMap::new();
    map.insert(0x2Au64, 0i64);
    let mut reader = DwgObjectReader::new(DxfVersion::AC1024, data, queue, map, &[]);
    let templates = reader.read().unwrap();
    assert_eq!(templates.len(), 1);
    match &templates[0] {
        CadTemplate::TableControl { common, table_data, table_type } => {
            assert_eq!(common.handle, 0x2A);
            assert_eq!(table_data.entry_handles, vec![0x11, 0x12]);
            assert_eq!(*table_type, TableControlType::LayerControl);
        },
        _ => panic!("not a table control"),
    }
    assert_eq!(reader.pending(), 0);
    assert!(reader.is_done(0x2A));
    assert!(!reader.is_done(0x11));
    assert!(reader.notifications.is_empty());
}

#[test]
fn read_failure_is_recorded_when_failsafe() {
    let mut queue = VecDeque::new();
    queue.push_back(0x2Au64);
    let mut map = HashMap::new();
    map.insert(0x2Au64, 100i64);
    let mut reader = DwgObjectReader::new(DxfVersion::AC1024, vec![0u8; 4], queue, map, &[]);
    let templates = reader.read().unwrap();
    assert!(templates.is_empty());
    assert_eq!(reader.notifications.len(), 1);
    assert_eq!(reader.notifications[0].notification_type, NotificationType::Error);
    assert!(!reader.is_done(0x2A));
}

#[test]
fn read_failure_is_returned_when_not_failsafe() {
    let mut queue = VecDeque::new();
    queue.push_back(0x2Au64);
    let mut map = HashMap::new();
    map.insert(0x2Au64, 100i64);
    let mut reader = DwgObjectReader::new(DxfVersion::AC1024, vec![0u8; 4], queue, map, &[]);
    reader.failsafe = false;
    assert_eq!(reader.read().err(), Some(DxfError::UnexpectedEof));
    assert!(reader.notifications.is_empty());
}

#[test]
fn read_of_an_empty_object_warns() {
    let mut queue = VecDeque::new();
    queue.push_back(0x2Au64);
    let mut map = HashMap::new();
    map.insert(0x2Au64, 0i64);
    let mut reader = DwgObjectReader::new(DxfVersion::AC1015, vec![0u8; 4], queue, map, &[]);
    let templates = reader.read().unwrap();
    assert!(templates.is_empty());
    assert_eq!(reader.notifications.len(), 1);
    assert_eq!(reader.notifications[0].notification_type, NotificationType::Warning);
    assert!(reader.is_done(0x2A));
}

#[test]
fn read_object_of_a_class_dispatches_by_its_name_in_any_case() {
    let mut data = control_body().finish();
    data.resize(8, 0);
    data.extend(&[0x40]);
    let classes = [named_class(600, "AcDbPlaceHolder", false)];
    let mut reader = DwgObjectReader::new(DxfVersion::AC1024, data.clone(), VecDeque::new(), HashMap::new(), &classes);
    let mut streams = merged_streams(DxfVersion::AC1024, &data, 8, 8);
    let t = reader.read_object(ObjectType::Unlisted, 600, &mut streams).unwrap().unwrap();
    match t {
        CadTemplate::GenericObject { common } => assert_eq!(common.handle, 0x2A),
        _ => panic!("not a generic object"),
    }
    assert!(reader.notifications.is_empty());
}

#[test]
fn read_object_of_a_class_kind_without_reader_gives_nothing() {
    let data = vec![0u8; 8];
    let classes = [named_class(601, "Wipeout", true), named_class(602, "Mesh", true)];
    let mut reader = DwgObjectReader::new(DxfVersion::AC1024, data.clone(), VecDeque::new(), HashMap::new(), &classes);
    for code in [601i16, 602] {
        let mut streams = merged_streams(DxfVersion::AC1024, &data, 8, 8);
        assert!(reader.read_object(ObjectType::Unlisted, code, &mut streams).unwrap().is_none());
        assert_eq!(streams.object_reader.position_in_bits(), 0);
    }
    assert!(reader.notifications.is_empty());
}

/// The common data of an R2010 entity with handle 0x2A: no extended data,
/// no graphics, entity mode 2, no reactors, no dictionary, color index 7,
/// linetype scale 1.0, linetype and plot style by layer, no material,
/// shadow 0, no visual styles, visible, lineweight 0x1D.
fn entity_common_bits() -> Bits {
    Bits::new()
        .bytes(&[0x51, 0x2A])
        .code(0b10, 2)
        .code(0b0, 1)
        .code(0b10, 2)
        .code(0b10, 2)
        .code(0b1, 1)
        .code(0b01, 2).bytes(&[7])
        .code(0b01, 2)
        .code(0b00, 2)
        .code(0b00, 2).bytes(&[0])
        .code(0b00, 2)
        .code(0b000, 3)
        .code(0b10, 2)
        .bytes(&[0x1D])
}

#[test]
fn read_object_reads_an_ole_frame() {
    let mut data = entity_common_bits()
        .code(0b01, 2).bytes(&[2])
        .code(0b01, 2).bytes(&[3])
        .bytes(&[1, 2, 3])
        .finish();
    data.resize(16, 0);
    data.extend(&[0x51, 0x0F]);
    let mut reader = DwgObjectReader::new(DxfVersion::AC1024, data.clone(), VecDeque::new(), HashMap::new(), &[]);
    let mut streams = merged_streams(DxfVersion::AC1024, &data, 16, 16);
    let t = reader.read_object(ObjectType::Ole2Frame, 74, &mut streams).unwrap().unwrap();
    match t {
        CadTemplate::Entity { common, entity_data, entity: AnyEntity::Ole2Frame(ole) } => {
            assert_eq!(common.handle, 0x2A);
            assert_eq!(entity_data.layer_handle, 0x0F);
            assert_eq!(ole.version, 2);
            assert_eq!(ole.data, vec![1, 2, 3]);
        },
        _ => panic!("not an OLE frame"),
    }
    assert!(reader.notifications.is_empty());
}

#[test]
fn read_object_of_an_ole_frame_cut_short_fails() {
    let mut data = entity_common_bits()
        .code(0b01, 2).bytes(&[2])
        .code(0b01, 2).bytes(&[200])
        .finish();
    data.resize(16, 0);
    data.extend(&[0x51, 0x0F]);
    let mut reader = DwgObjectReader::new(DxfVersion::AC1024, data.clone(), VecDeque::new(), HashMap::new(), &[]);
    let mut streams = merged_streams(DxfVersion::AC1024, &data, 16, 16);
    assert_eq!(reader.read_object(ObjectType::Ole2Frame, 74, &mut streams).err(), Some(DxfError::UnexpectedEof));
}

#[test]
fn read_object_of_a_multileader_class_reads_its_common_data() {
    let mut data = entity_common_bits().finish();
    data.resize(12, 0);
    data.extend(&[0x51, 0x0F]);
    let classes = [named_class(700, "MultiLeader", true)];
    let mut reader = DwgObjectReader::new(DxfVersion::AC1024, data.clone(), VecDeque::new(), HashMap::new(), &classes);
    let mut streams = merged_streams(DxfVersion::AC1024, &data, 12, 12);
    let t = reader.read_object(ObjectType::Unlisted, 700, &mut streams).unwrap().unwrap();
    match t {
        CadTemplate::MultiLeader { common, entity_data, mleader_data, entity: AnyEntity::MultiLeader(ml) } => {
            assert_eq!(common.handle, 0x2A);
            assert_eq!(entity_data.layer_handle, 0x0F);
            assert_eq!(mleader_data.leader_style_handle, 0);
            assert!(mleader_data.arrowhead_handles.is_empty());
            assert_eq!(ml.common.handle, 0x2A);
        },
        _ => panic!("not a multileader"),
    }
    assert!(reader.notifications.is_empty());
}
