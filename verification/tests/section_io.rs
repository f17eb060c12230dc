use acadrust::notification::NotificationType;
use acadrust::section_io::SectionIO;
use acadrust::sentinels::{header_start, header_end, classes_start, classes_end, preview_start, preview_end};
use acadrust::version::DxfVersion;

#[test]
fn test_version_flags_ac1012() {
    let sio = SectionIO::new(DxfVersion::AC1012);
    assert!(sio.r13_14_only);
    assert!(sio.r13_15_only);
    assert!(!sio.r2000_plus);
    assert!(sio.r2004_pre);
    assert!(!sio.r2004_plus);
    assert!(!sio.r2007_plus);
    assert!(!sio.r2010_plus);
    assert!(!sio.r2013_plus);
    assert!(!sio.r2018_plus);
}

#[test]
fn test_version_flags_ac1015() {
    let sio = SectionIO::new(DxfVersion::AC1015);
    assert!(!sio.r13_14_only);
    assert!(sio.r13_15_only);
    assert!(sio.r2000_plus);
    assert!(sio.r2004_pre);
    assert!(!sio.r2004_plus);
}

#[test]
fn test_version_flags_ac1018() {
    let sio = SectionIO::new(DxfVersion::AC1018);
    assert!(!sio.r13_14_only);
    assert!(!sio.r13_15_only);
    assert!(sio.r2000_plus);
    assert!(!sio.r2004_pre);
    assert!(sio.r2004_plus);
    assert!(!sio.r2007_plus);
}

#[test]
fn test_version_flags_ac1021() {
    let sio = SectionIO::new(DxfVersion::AC1021);
    assert!(sio.r2004_plus);
    assert!(sio.r2007_plus);
    assert!(sio.r2007_pre);
    assert!(!sio.r2010_plus);
}

#[test]
fn test_version_flags_ac1032() {
    let sio = SectionIO::new(DxfVersion::AC1032);
    assert!(sio.r2000_plus);
    assert!(sio.r2004_plus);
    assert!(sio.r2007_plus);
    assert!(sio.r2010_plus);
    assert!(sio.r2013_plus);
    assert!(sio.r2018_plus);
    assert!(!sio.r2004_pre);
    assert!(!sio.r13_14_only);
}

#[test]
fn test_check_sentinel_match() {
    let a = [0xCF, 0x7B, 0x1F, 0x23, 0xFD, 0xDE, 0x38, 0xA9, 0x5F, 0x7C, 0x68, 0xB8, 0x4E, 0x6D, 0x33, 0x5F];
    let b = [0xCF, 0x7B, 0x1F, 0x23, 0xFD, 0xDE, 0x38, 0xA9, 0x5F, 0x7C, 0x68, 0xB8, 0x4E, 0x6D, 0x33, 0x5F];
    assert!(SectionIO::check_sentinel(&a, &b));
}

#[test]
fn test_check_sentinel_mismatch() {
    let a = [0xCF, 0x7B, 0x1F, 0x23, 0xFD, 0xDE, 0x38, 0xA9, 0x5F, 0x7C, 0x68, 0xB8, 0x4E, 0x6D, 0x33, 0x5F];
    let b = [0x00; 16];
    assert!(!SectionIO::check_sentinel(&a, &b));
}

#[test]
fn test_validate_sentinel_ok() {
    let sentinel = header_start();
    assert!(SectionIO::validate_sentinel(&sentinel, &header_start(), "Header").is_none());
}

#[test]
fn test_validate_sentinel_mismatch() {
    let bad = [0u8; 16];
    let notif = SectionIO::validate_sentinel(&bad, &header_start(), "Header");
    assert!(notif.is_some());
    assert_eq!(notif.unwrap().notification_type, NotificationType::Warning);
}

#[test]
fn validate_sentinel_names_the_section() {
    let notif = SectionIO::validate_sentinel(&[1u8; 16], &classes_start(), "AcDb:Classes").unwrap();
    assert_eq!(notif.message, "Invalid section sentinel found in AcDb:Classes");
}

#[test]
fn sentinels_by_section_name() {
    assert_eq!(SectionIO::start_sentinel("AcDb:Header"), Some(header_start()));
    assert_eq!(SectionIO::end_sentinel("AcDb:Header"), Some(header_end()));
    assert_eq!(SectionIO::start_sentinel("AcDb:Classes"), Some(classes_start()));
    assert_eq!(SectionIO::end_sentinel("AcDb:Classes"), Some(classes_end()));
    assert_eq!(SectionIO::start_sentinel("AcDb:Preview"), Some(preview_start()));
    assert_eq!(SectionIO::end_sentinel("AcDb:Preview"), Some(preview_end()));
    assert_eq!(SectionIO::start_sentinel("AcDb:Handles"), None);
    assert_eq!(SectionIO::end_sentinel("Header"), None);
}

#[test]
fn end_sentinel_is_bitwise_complement_of_start() {
    for (s, e) in [(header_start(), header_end()), (classes_start(), classes_end()), (preview_start(), preview_end())] {
        for i in 0..16 {
            assert_eq!(s[i] ^ e[i], 0xFF);
        }
    }
}

#[test]
fn version_getter_and_middle_flags() {
    let sio = SectionIO::new(DxfVersion::AC1024);
    assert_eq!(sio.version(), DxfVersion::AC1024);
    assert!(sio.r2010_plus);
    assert!(!sio.r2013_plus);
    assert!(!sio.r2007_pre);
}
