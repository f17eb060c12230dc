use acadrust::merged_reader::DwgMergedReader;
use acadrust::stream_reader::DwgStreamReaderBase;
use acadrust::stream_set::StreamSet;
use acadrust::version::DxfVersion;

fn make_merged(main: &[u8], text: &[u8], handle: &[u8]) -> DwgMergedReader {
    let v = DxfVersion::AC1021;
    DwgMergedReader::new(
        DwgStreamReaderBase::new(main.to_vec(), v),
        DwgStreamReaderBase::new(text.to_vec(), v),
        DwgStreamReaderBase::new(handle.to_vec(), v),
        v,
    )
}

#[test]
fn test_merged_bit_short_from_main() {
    let mut reader = make_merged(&[0x80], &[], &[]);
    assert_eq!(reader.read_bit_short().unwrap(), 0);
}

#[test]
fn test_merged_handle_from_handle_stream() {
    let mut reader = make_merged(&[], &[], &[0x41, 0x1A]);
    assert_eq!(reader.handle_reference().unwrap(), 0x1A);
}

#[test]
fn test_merged_text_from_text_stream_empty() {
    let v = DxfVersion::AC1021;
    let text_reader = DwgStreamReaderBase::new(vec![], v);
    let main = DwgStreamReaderBase::new(vec![0x80], v);
    let handle = DwgStreamReaderBase::new(vec![], v);
    let _reader = DwgMergedReader::new(main, text_reader, handle, v);
}

#[test]
fn test_merged_variable_text_unicode() {
    let text_data = vec![0x40, 0xD0, 0x40, 0x10, 0x80, 0x10, 0xC0, 0x00];
    let mut reader = make_merged(&[], &text_data, &[]);
    let text = reader.read_variable_text().unwrap();
    assert_eq!(text, "ABC");
}

#[test]
fn merged_text_is_empty_once_the_string_stream_is_absent() {
    let v = DxfVersion::AC1021;
    let mut text_reader = DwgStreamReaderBase::new(vec![0x00, 0x00], v);
    assert_eq!(text_reader.set_position_by_flag(8).unwrap(), 8);
    let mut reader = DwgMergedReader::new(DwgStreamReaderBase::new(vec![0xFF], v), text_reader,
        DwgStreamReaderBase::new(vec![], v), v);
    assert_eq!(reader.read_variable_text().unwrap(), "");
    assert_eq!(reader.read_text_unicode().unwrap(), "");
    assert!(reader.read_bit().unwrap());
    assert_eq!(reader.position(), 1);
    assert_eq!(reader.bit_shift(), 1);
    assert!(!reader.is_empty());
}

#[test]
fn stream_set_routes_handles_and_texts() {
    let mut set = StreamSet::default();
    assert!(!set.merged);
    assert_eq!(set.current_handle, 0);
    set.handles_reader = DwgStreamReaderBase::new(vec![0x60, 0xA1, 0x05], DxfVersion::AC1015);
    set.current_handle = 0x20;
    assert_eq!(set.handle_ref().unwrap(), 0x21);
    assert_eq!(set.handle_ref().unwrap(), 0x25);
    set.object_reader = DwgStreamReaderBase::new(vec![0x40, 0x50, 0x40], DxfVersion::AC1015);
    assert_eq!(set.read_text().unwrap(), "A");
    set.has_separate_text_reader = true;
    set.text_reader = DwgStreamReaderBase::new(vec![0x80], DxfVersion::AC1021);
    assert_eq!(set.read_text().unwrap(), "");
}
