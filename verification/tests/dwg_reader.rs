use acadrust::dwg_reader::{decrypt_file_header_ac18, DwgReader, DwgReaderConfiguration};
use acadrust::error::DxfError;
use acadrust::notification::NotificationType;
use acadrust::templates::{CadLayerTemplateData, CadTemplate, CadTemplateCommon, EDataTemplate, TableControlType};
use acadrust::version::DxfVersion;

#[test]
fn test_configuration_default() {
    let config = DwgReaderConfiguration::default();
    assert!(!config.failsafe);
    assert!(!config.keep_unknown_entities);
}

#[test]
fn version_comes_from_the_signature() {
    let r = DwgReader::from_reader(b"AC1018 rest".to_vec()).unwrap();
    assert_eq!(r.version(), DxfVersion::AC1018);
    assert_eq!(r.config(), DwgReaderConfiguration::default());
    match DwgReader::from_reader(b"AC9999".to_vec()) {
        Err(DxfError::UnsupportedVersion(sig)) => assert_eq!(sig, b"AC9999".to_vec()),
        _ => panic!("an unknown signature is refused"),
    }
    assert!(matches!(DwgReader::from_reader(vec![0xFF; 6]), Err(DxfError::InvalidFormat)));
    assert!(matches!(DwgReader::from_reader(b"AC10".to_vec()), Err(DxfError::UnexpectedEof)));
}

#[test]
fn with_config_and_notify() {
    let config = DwgReaderConfiguration { failsafe: true, keep_unknown_entities: true };
    let mut r = DwgReader::from_reader(b"AC1015".to_vec()).unwrap().with_config(config);
    assert_eq!(r.config(), config);
    r.notify("odd", NotificationType::Warning);
    assert_eq!(r.version(), DxfVersion::AC1015);
}

fn ac15_file() -> Vec<u8> {
    let mut f = b"AC1015".to_vec();
    f.extend_from_slice(&[0, 0, 0, 0, 0, 3, 1]);
    f.extend_from_slice(&0x200i32.to_le_bytes());
    f.extend_from_slice(&[0, 0]);
    f.extend_from_slice(&30u16.to_le_bytes());
    f.extend_from_slice(&2i32.to_le_bytes());
    f.push(0);
    f.extend_from_slice(&100i32.to_le_bytes());
    f.extend_from_slice(&4i32.to_le_bytes());
    f.push(2);
    f.extend_from_slice(&104i32.to_le_bytes());
    f.extend_from_slice(&10i32.to_le_bytes());
    f.extend_from_slice(&[0, 0]);
    f.extend_from_slice(&[0u8; 16]);
    f.resize(100, 0);
    f.extend_from_slice(&[1, 2, 3, 4]);
    f.extend_from_slice(&[0x00, 0x06, 0x01, 0x05, 0x02, 0x43, 0xAA, 0xBB, 0x00, 0x02]);
    f
}

#[test]
fn file_header_before_r2004_locates_sections() {
    let mut r = DwgReader::from_reader(ac15_file()).unwrap();
    r.read_file_header().unwrap();
    let h = r.file_header();
    assert_eq!(h.maintenance_version, 3);
    assert_eq!(h.preview_address, 0x200);
    assert_eq!(h.drawing_code_page, 30);
    assert_eq!(h.records.len(), 2);
    assert_eq!(h.records.get(&2).unwrap().seeker, 104);
    assert_eq!(r.file_length(), 114);
    assert_eq!(r.get_section_stream("AcDb:Header").unwrap(), vec![1, 2, 3, 4]);
    let map = r.read_handles().unwrap();
    assert_eq!(map.len(), 2);
    assert_eq!(map.get(&1), Some(&5));
    assert_eq!(map.get(&3), Some(&2));
    assert_eq!(r.get_section_stream("AcDb:Classes"), Err(DxfError::InvalidFormat));
    assert_eq!(r.get_section_stream("Nothing"), Err(DxfError::InvalidFormat));
    assert!(r.read_summary_info().is_none());
    assert!(r.read_app_info().is_none());
    assert!(r.read_preview().is_none());
}

#[test]
fn truncated_file_header_fails() {
    let mut f = ac15_file();
    f.truncate(50);
    let mut r = DwgReader::from_reader(f).unwrap();
    assert_eq!(r.read_file_header(), Err(DxfError::UnexpectedEof));
}

fn mask_bytes() -> Vec<u8> {
    let mut state: u32 = 1;
    let mut out = Vec::new();
    for _ in 0..108 {
        state = state.wrapping_mul(0x343FD).wrapping_add(0x269EC3);
        out.push((state >> 16) as u8);
    }
    out
}

#[test]
fn encrypted_header_block_is_decrypted() {
    let mask = mask_bytes();
    let mut plain = vec![0u8; 108];
    plain[0x68..0x6C].copy_from_slice(&0xDEADBEEFu32.to_le_bytes());
    plain[0x54..0x5C].copy_from_slice(&0x1000u64.to_le_bytes());
    plain[0x28..0x2C].copy_from_slice(&(-7i32).to_le_bytes());
    let encrypted: Vec<u8> = plain.iter().zip(mask.iter()).map(|(p, m)| p ^ m).collect();
    let h = decrypt_file_header_ac18(&encrypted);
    assert_eq!(h.crc_seed, 0xDEADBEEF);
    assert_eq!(h.page_map_address, 0x1100);
    assert_eq!(h.last_page_id, -7);
    assert_eq!(h.gap_amount, 0);
}

#[test]
fn file_header_from_r2004_reads_preamble() {
    let mut f = b"AC1018".to_vec();
    f.extend_from_slice(&[0, 0, 0, 0, 0, 25, 0]);
    f.extend_from_slice(&0x1C0i32.to_le_bytes());
    f.extend_from_slice(&[33, 1]);
    f.extend_from_slice(&30u16.to_le_bytes());
    f.resize(0x80 + 108, 0);
    let mut r = DwgReader::from_reader(f).unwrap();
    r.read_file_header().unwrap();
    let h = r.file_header();
    assert_eq!(h.maintenance_version, 25);
    assert_eq!(h.preview_address, 0x1C0);
    assert_eq!(h.dwg_version, 33);
    assert_eq!(h.app_release_version, 1);
    assert_eq!(h.drawing_code_page, 30);
    assert!(h.encrypted_header.is_some());
    assert_eq!(r.get_section_stream("AcDb:Handles"), Err(DxfError::InvalidFormat));
    assert!(r.read_preview().is_none());
    let mut short = DwgReader::from_reader(b"AC1018".to_vec()).unwrap();
    assert_eq!(short.read_file_header(), Err(DxfError::UnexpectedEof));
}

#[test]
fn edata_template_appends_in_order() {
    let mut t: EDataTemplate<i32> = EDataTemplate::new();
    t.add(5, vec![1, 2]);
    t.add(9, vec![]);
    assert_eq!(t.entries.len(), 2);
    assert_eq!(t.entries[0].app_handle, 5);
    assert_eq!(t.entries[0].values, vec![1, 2]);
    assert_eq!(t.entries[1].app_handle, 9);
    let common: CadTemplateCommon<i32> = CadTemplateCommon::default();
    assert_eq!(common.handle, 0);
    assert_ne!(TableControlType::LayerControl, TableControlType::BlockControl);
}

#[test]
fn ac21_metadata_fields_in_order() {
    let mut data = Vec::new();
    for i in 0..34u64 {
        data.extend_from_slice(&(i + 1).to_le_bytes());
    }
    let m = acadrust::dwg_reader::parse_ac21_metadata_fields(&data).unwrap();
    assert_eq!(m.header_size, 1);
    assert_eq!(m.file_size, 2);
    assert_eq!(m.pages_map_offset, 8);
    assert_eq!(m.sections_map_id, 25);
    assert_eq!(m.header_crc64, 34);
    assert_eq!(acadrust::dwg_reader::parse_ac21_metadata_fields(&data[..0x10F]), Err(DxfError::InvalidFormat));
}

#[test]
fn template_handle_comes_from_its_common_fields() {
    let mut common: CadTemplateCommon<i32> = CadTemplateCommon::default();
    common.handle = 0x42;
    common.owner_handle = 7;
    let t: CadTemplate<i32, ()> = CadTemplate::LayerEntry { common, layer_data: CadLayerTemplateData::default() };
    assert_eq!(t.handle(), 0x42);
    assert_eq!(t.common().owner_handle, 7);
    let g: CadTemplate<i32, ()> = CadTemplate::GenericObject { common: CadTemplateCommon::default() };
    assert_eq!(g.handle(), 0);
}

fn le32_bytes(v: i32) -> Vec<u8> {
    v.to_le_bytes().to_vec()
}

#[test]
fn page_map_records_follow_the_running_position() {
    let mut b = Vec::new();
    b.extend(le32_bytes(1));
    b.extend(le32_bytes(0x200));
    b.extend(le32_bytes(-1));
    b.extend(le32_bytes(0x100));
    b.extend(vec![0u8; 16]);
    b.extend(le32_bytes(2));
    b.extend(le32_bytes(0x80));
    b.extend(vec![0u8; 5]);
    let records = acadrust::dwg_reader::page_map_records(&b);
    assert_eq!(records.len(), 2);
    assert_eq!((records[0].number, records[0].seeker, records[0].size), (1, 0x100, 0x200));
    assert_eq!((records[1].number, records[1].seeker, records[1].size), (2, 0x400, 0x80));
}

#[test]
fn page_map_gap_cut_short_ends_the_map() {
    let mut b = Vec::new();
    b.extend(le32_bytes(3));
    b.extend(le32_bytes(0x10));
    b.extend(le32_bytes(-2));
    b.extend(le32_bytes(0x10));
    b.extend(vec![0u8; 8]);
    let records = acadrust::dwg_reader::page_map_records(&b);
    assert_eq!(records.len(), 1);
    assert_eq!((records[0].number, records[0].seeker, records[0].size), (3, 0x100, 0x10));
    assert!(acadrust::dwg_reader::page_map_records(&vec![1, 2, 3]).is_empty());
}
