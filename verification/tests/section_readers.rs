use acadrust::app_info_reader::{AppInfo, DwgAppInfoReader};
use acadrust::classes_reader::DwgClassesReader;
use acadrust::error::DxfError;
use acadrust::handle_reader::DwgHandleReader;
use acadrust::header_reader::DwgHeaderReader;
use acadrust::preview_reader::DwgPreviewReader;
use acadrust::summary_info_reader::{DwgSummaryInfoReader, JulianDate};
use acadrust::version::DxfVersion;

/// Writes a DWG bit stream.
struct BitWriter {
    bits: Vec<bool>,
}

impl BitWriter {
    fn new() -> Self {
        BitWriter { bits: Vec::new() }
    }
    fn bit(&mut self, b: bool) {
        self.bits.push(b);
    }
    fn byte(&mut self, v: u8) {
        for j in (0..8).rev() {
            self.bits.push((v >> j) & 1 == 1);
        }
    }
    fn bit_short(&mut self, v: i16) {
        if v == 0 {
            self.bit(true);
            self.bit(false);
        } else if v == 256 {
            self.bit(true);
            self.bit(true);
        } else if (0..256).contains(&v) {
            self.bit(false);
            self.bit(true);
            self.byte(v as u8);
        } else {
            self.bit(false);
            self.bit(false);
            for b in v.to_le_bytes() {
                self.byte(b);
            }
        }
    }
    fn text(&mut self, s: &str) {
        self.bit_short(s.len() as i16);
        for b in s.bytes() {
            self.byte(b);
        }
    }
    fn bytes(&self) -> Vec<u8> {
        let mut out = Vec::new();
        for chunk in self.bits.chunks(8) {
            let mut byte = 0u8;
            for (i, &bit) in chunk.iter().enumerate() {
                if bit {
                    byte |= 1 << (7 - i);
                }
            }
            out.push(byte);
        }
        out
    }
}

#[test]
fn test_app_info_reader_creation() {
    let reader = DwgAppInfoReader::new(DxfVersion::AC1015, vec![]);
    assert_eq!(reader.version(), DxfVersion::AC1015);
}

#[test]
fn test_app_info_default() {
    let info = AppInfo::default();
    assert!(info.info_name.is_empty());
    assert!(info.version.is_empty());
    assert!(info.comment.is_empty());
    assert!(info.product.is_empty());
}

#[test]
fn test_classes_reader_creation() {
    let reader = DwgClassesReader::new(DxfVersion::AC1015, vec![0u8; 64], DxfVersion::AC1015, 0);
    assert_eq!(reader.version(), DxfVersion::AC1015);
}

#[test]
fn test_handle_reader_creation() {
    let reader = DwgHandleReader::new(DxfVersion::AC1015, vec![]);
    assert_eq!(reader.version(), DxfVersion::AC1015);
}

#[test]
fn test_handle_reader_empty_section() {
    let data = vec![0x00, 0x02];
    let reader = DwgHandleReader::new(DxfVersion::AC1015, data);
    let map = reader.read().unwrap();
    assert!(map.is_empty());
}

#[test]
fn test_header_reader_creation() {
    let reader = DwgHeaderReader::new(DxfVersion::AC1015, vec![]);
    assert_eq!(reader.version(), DxfVersion::AC1015);
}

#[test]
fn test_preview_reader_creation() {
    let reader = DwgPreviewReader::new(DxfVersion::AC1015, vec![]);
    assert_eq!(reader.version(), DxfVersion::AC1015);
}

#[test]
fn test_summary_info_reader_creation() {
    let reader = DwgSummaryInfoReader::new(DxfVersion::AC1015, vec![]);
    assert_eq!(reader.version(), DxfVersion::AC1015);
}

// ---- reading sections ----

#[test]
fn handle_map_from_one_chunk() {
    let data = vec![0x00, 0x06, 0x01, 0x05, 0x02, 0x43, 0xAA, 0xBB, 0x00, 0x02];
    let map = DwgHandleReader::new(DxfVersion::AC1015, data).read().unwrap();
    assert_eq!(map.len(), 2);
    assert_eq!(map.get(&1), Some(&5));
    assert_eq!(map.get(&3), Some(&2));
}

#[test]
fn handle_map_skips_zero_offsets_and_restarts_per_chunk() {
    let data = vec![
        0x00, 0x06, 0x04, 0x0A, 0x00, 0x01, 0, 0, // handle 4 -> 10, then a zero offset
        0x00, 0x04, 0x02, 0x03, 0, 0, // new chunk: handle 2 -> 3
        0x00, 0x02,
    ];
    let map = DwgHandleReader::new(DxfVersion::AC1015, data).read().unwrap();
    assert_eq!(map.len(), 2);
    assert_eq!(map.get(&4), Some(&10));
    assert_eq!(map.get(&2), Some(&3));
}

#[test]
fn handle_map_of_truncated_section_fails() {
    let data = vec![0x00, 0x06, 0x81];
    assert_eq!(DwgHandleReader::new(DxfVersion::AC1015, data).read(), Err(DxfError::UnexpectedEof));
    assert_eq!(DwgHandleReader::new(DxfVersion::AC1015, vec![]).read(), Err(DxfError::UnexpectedEof));
}

fn le32(v: i32) -> Vec<u8> {
    v.to_le_bytes().to_vec()
}

#[test]
fn summary_info_before_r2007() {
    let mut data = vec![1, 0, b'T'];
    for _ in 0..7 {
        data.extend_from_slice(&[0, 0]);
    }
    data.extend_from_slice(&[0; 8]);
    data.extend(le32(2451545));
    data.extend(le32(100));
    data.extend(le32(2451546));
    data.extend(le32(200));
    data.extend_from_slice(&[2, 0, 1, 0, b'a', 1, 0, b'b', 0, 0, 1, 0, b'x']);
    let info = DwgSummaryInfoReader::new(DxfVersion::AC1015, data).read().unwrap();
    assert_eq!(info.title, "T");
    assert_eq!(info.author, "");
    assert_eq!(info.created_date, JulianDate { day: 2451545, milliseconds: 100 });
    assert_eq!(info.modified_date, JulianDate { day: 2451546, milliseconds: 200 });
    assert_eq!(info.properties, vec![("a".to_string(), "b".to_string())]);
}

#[test]
fn summary_info_from_r2007_is_utf16() {
    let mut data = vec![2, 0, b'H', 0, b'i', 0];
    for _ in 0..7 {
        data.extend_from_slice(&[0, 0]);
    }
    data.extend_from_slice(&[0; 24]);
    data.extend_from_slice(&[0xFF, 0xFF]);
    let info = DwgSummaryInfoReader::new(DxfVersion::AC1021, data).read().unwrap();
    assert_eq!(info.title, "Hi");
    assert!(info.properties.is_empty());
}

#[test]
fn preview_with_header_and_image() {
    let mut data = vec![0u8; 16];
    data.extend(le32(0));
    data.push(2);
    data.push(1);
    data.extend(le32(0));
    data.extend(le32(3));
    data.push(6);
    data.extend(le32(0));
    data.extend(le32(2));
    data.extend_from_slice(&[7, 8, 9, 0xAB, 0xCD]);
    data.extend_from_slice(&[0u8; 16]);
    let p = DwgPreviewReader::new(DxfVersion::AC1015, data).read().unwrap();
    assert_eq!(p.code, 6);
    assert_eq!(p.raw_header, vec![7, 8, 9]);
    assert_eq!(p.raw_image, vec![0xAB, 0xCD]);
}

#[test]
fn preview_without_end_sentinel_fails() {
    let mut data = vec![0u8; 16];
    data.extend(le32(0));
    data.push(0);
    assert_eq!(DwgPreviewReader::new(DxfVersion::AC1015, data).read().unwrap_err(), DxfError::UnexpectedEof);
}

#[test]
fn app_info_r2007() {
    let mut data = le32(2);
    data.extend_from_slice(&[1, 0, b'A', 0]);
    data.extend(le32(3));
    data.extend_from_slice(&[0u8; 16]);
    data.extend_from_slice(&[1, 0, b'2', 0]);
    data.extend_from_slice(&[0u8; 16]);
    let info = DwgAppInfoReader::new(DxfVersion::AC1021, data).read().unwrap();
    assert_eq!(info.info_name, "A");
    assert_eq!(info.version, "2");
    assert_eq!(info.comment, "");
    assert_eq!(info.version_checksum, vec![0u8; 16]);
}

#[test]
fn classes_before_r2007() {
    let mut w = BitWriter::new();
    w.bit_short(500);
    w.bit_short(0);
    w.text("APP");
    w.text("Cls");
    w.text("MYENT");
    w.bit(false);
    w.bit_short(0x1F2);
    let body = w.bytes();
    let mut data = vec![0u8; 16];
    data.extend(le32(body.len() as i32));
    data.extend_from_slice(&body);
    data.extend_from_slice(&[0, 0]);
    data.extend_from_slice(&[0u8; 16]);
    let classes = DwgClassesReader::new(DxfVersion::AC1015, data, DxfVersion::AC1015, 0).read().unwrap();
    assert_eq!(classes.len(), 1);
    let c = &classes[0];
    assert_eq!(c.class_number, 500);
    assert_eq!(c.proxy_flags, 0);
    assert_eq!(c.application_name, "APP");
    assert_eq!(c.cpp_class_name, "Cls");
    assert_eq!(c.dxf_name, "MYENT");
    assert!(!c.was_zombie);
    assert_eq!(c.item_class_id, 0x1F2);
    assert!(c.is_an_entity);
    assert_eq!(c.instance_count, 0);
}

#[test]
fn summary_info_cut_short_keeps_what_was_read() {
    // A complete title "T", then the data ends.
    let info = DwgSummaryInfoReader::new(DxfVersion::AC1015, vec![1, 0, b'T']).read().unwrap();
    assert_eq!(info.title, "T");
    assert_eq!(info.subject, "");
    assert_eq!(info.hyperlink_base, "");
    assert_eq!(info.created_date, JulianDate { day: 0, milliseconds: 0 });
    assert!(info.properties.is_empty());
}

#[test]
fn summary_info_of_empty_data_is_all_defaults() {
    let info = DwgSummaryInfoReader::new(DxfVersion::AC1015, vec![]).read().unwrap();
    assert_eq!(info.title, "");
    assert!(info.properties.is_empty());
}

#[test]
fn summary_info_keeps_the_creation_date_when_the_second_date_is_cut() {
    let mut data = Vec::new();
    for _ in 0..8 {
        data.extend_from_slice(&[0, 0]);
    }
    data.extend_from_slice(&[0; 8]);
    data.extend(le32(2451545));
    data.extend(le32(100));
    data.extend(le32(7));
    let info = DwgSummaryInfoReader::new(DxfVersion::AC1015, data).read().unwrap();
    assert_eq!(info.created_date, JulianDate { day: 2451545, milliseconds: 100 });
    assert_eq!(info.modified_date, JulianDate { day: 0, milliseconds: 0 });
}

#[test]
fn summary_info_property_given_twice_keeps_its_last_value() {
    let mut data = Vec::new();
    for _ in 0..8 {
        data.extend_from_slice(&[0, 0]);
    }
    data.extend_from_slice(&[0; 24]);
    data.extend_from_slice(&[3, 0]);
    data.extend_from_slice(&[1, 0, b'a', 1, 0, b'1']);
    data.extend_from_slice(&[1, 0, b'b', 1, 0, b'2']);
    data.extend_from_slice(&[1, 0, b'a', 1, 0, b'3']);
    let info = DwgSummaryInfoReader::new(DxfVersion::AC1015, data).read().unwrap();
    assert_eq!(info.properties, vec![("a".to_string(), "3".to_string()), ("b".to_string(), "2".to_string())]);
}

#[test]
fn classes_do_not_depend_on_the_start_sentinel() {
    let mut w = BitWriter::new();
    w.bit_short(501);
    w.bit_short(1);
    w.text("APP");
    w.text("Cls");
    w.text("MYOBJ");
    w.bit(false);
    w.bit_short(0x1F3);
    let body = w.bytes();
    let mut a = vec![0u8; 16];
    a.extend(le32(body.len() as i32));
    a.extend_from_slice(&body);
    a.extend_from_slice(&[0, 0]);
    a.extend_from_slice(&[0u8; 16]);
    let mut b = a.clone();
    for x in b.iter_mut().take(16) {
        *x = 0xA5;
    }
    let ca = DwgClassesReader::new(DxfVersion::AC1015, a, DxfVersion::AC1015, 0).read().unwrap();
    let cb = DwgClassesReader::new(DxfVersion::AC1015, b, DxfVersion::AC1015, 0).read().unwrap();
    assert_eq!(ca.len(), 1);
    assert_eq!(cb.len(), 1);
    assert_eq!(ca[0].class_number, cb[0].class_number);
    assert_eq!(ca[0].dxf_name, "MYOBJ");
    assert_eq!(cb[0].dxf_name, "MYOBJ");
    assert_eq!(ca[0].is_an_entity, cb[0].is_an_entity);
    assert_eq!(ca[0].item_class_id, cb[0].item_class_id);
}
