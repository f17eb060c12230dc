use acadrust::encoding::{encoding_from_code_page, TextEncoding};
use acadrust::error::DxfError;
use acadrust::reference_type::DwgReferenceType;
use acadrust::stream_reader::{get_stream_handler, DwgStreamReaderBase};
use acadrust::version::DxfVersion;

fn make_reader(data: &[u8]) -> DwgStreamReaderBase {
    DwgStreamReaderBase::new(data.to_vec(), DxfVersion::AC1015)
}

fn bits_to_bytes(bits: &[bool]) -> Vec<u8> {
    let mut result = Vec::new();
    for chunk in bits.chunks(8) {
        let mut byte = 0u8;
        for (i, &bit) in chunk.iter().enumerate() {
            if bit {
                byte |= 1 << (7 - i);
            }
        }
        result.push(byte);
    }
    result
}

fn pack_prefix(prefix: &[bool], value: &[u8]) -> Vec<u8> {
    let mut bits: Vec<bool> = prefix.to_vec();
    for &b in value {
        for j in (0..8).rev() {
            bits.push((b >> j) & 1 == 1);
        }
    }
    bits_to_bytes(&bits)
}

fn pack_2bit(code: u8, value: &[u8]) -> Vec<u8> {
    pack_prefix(&[(code >> 1) & 1 == 1, code & 1 == 1], value)
}

fn pack_3bit(code: u8, value: &[u8]) -> Vec<u8> {
    pack_prefix(&[(code >> 2) & 1 == 1, (code >> 1) & 1 == 1, code & 1 == 1], value)
}

#[test]
fn test_read_bit() {
    let mut reader = make_reader(&[0xB0]);
    assert!(reader.read_bit().unwrap());
    assert!(!reader.read_bit().unwrap());
    assert!(reader.read_bit().unwrap());
    assert!(reader.read_bit().unwrap());
    assert!(!reader.read_bit().unwrap());
    assert!(!reader.read_bit().unwrap());
    assert!(!reader.read_bit().unwrap());
    assert!(!reader.read_bit().unwrap());
}

#[test]
fn test_read_2bits() {
    let mut reader = make_reader(&[0xD0]);
    assert_eq!(reader.read_2bits().unwrap(), 3);
    assert_eq!(reader.read_2bits().unwrap(), 1);
}

#[test]
fn test_read_bit_short_zero() {
    let mut reader = make_reader(&[0x80]);
    assert_eq!(reader.read_bit_short().unwrap(), 0);
}

#[test]
fn test_read_bit_short_256() {
    let mut reader = make_reader(&[0xC0]);
    assert_eq!(reader.read_bit_short().unwrap(), 256);
}

#[test]
fn test_read_bit_short_one_byte() {
    let data = pack_2bit(0b01, &[0x42]);
    let mut reader = make_reader(&data);
    assert_eq!(reader.read_bit_short().unwrap(), 0x42);
}

#[test]
fn test_read_bit_long_zero() {
    let mut reader = make_reader(&[0x80]);
    assert_eq!(reader.read_bit_long().unwrap(), 0);
}

#[test]
fn test_read_bit_double_zero() {
    let mut reader = make_reader(&[0x80]);
    assert_eq!(f64::from_bits(reader.read_bit_double().unwrap()), 0.0);
}

#[test]
fn test_read_bit_double_one() {
    let mut reader = make_reader(&[0x40]);
    assert_eq!(f64::from_bits(reader.read_bit_double().unwrap()), 1.0);
}

#[test]
fn test_read_byte_no_shift() {
    let mut reader = make_reader(&[0xAB]);
    assert_eq!(reader.read_byte().unwrap(), 0xAB);
}

#[test]
fn test_read_modular_char_single() {
    let mut reader = make_reader(&[0x3F]);
    assert_eq!(reader.read_modular_char().unwrap(), 63);
}

#[test]
fn test_read_modular_char_multi() {
    let mut reader = make_reader(&[0x81, 0x01]);
    assert_eq!(reader.read_modular_char().unwrap(), 129);
}

#[test]
fn test_read_signed_modular_char_positive() {
    let mut reader = make_reader(&[0x05]);
    assert_eq!(reader.read_signed_modular_char().unwrap(), 5);
}

#[test]
fn test_read_signed_modular_char_negative() {
    let mut reader = make_reader(&[0x45]);
    assert_eq!(reader.read_signed_modular_char().unwrap(), -5);
}

#[test]
fn test_read_modular_short() {
    let mut reader = make_reader(&[0x10, 0x00]);
    assert_eq!(reader.read_modular_short().unwrap(), 16);
}

#[test]
fn test_handle_reference_absolute() {
    let mut reader = make_reader(&[0x41, 0x1A]);
    let (handle, ref_type) = reader.handle_reference_typed(0).unwrap();
    assert_eq!(handle, 0x1A);
    assert_eq!(ref_type, DwgReferenceType::SoftPointer);
}

#[test]
fn test_handle_reference_plus1() {
    let mut reader = make_reader(&[0x60]);
    let handle = reader.handle_reference_resolved(0x100).unwrap();
    assert_eq!(handle, 0x101);
}

#[test]
fn test_position_in_bits() {
    let mut reader = make_reader(&[0xFF, 0xFF, 0xFF, 0xFF]);
    assert_eq!(reader.position_in_bits(), 0);
    reader.read_bit().unwrap();
    assert_eq!(reader.position_in_bits(), 1);
}

#[test]
fn test_set_position_in_bits() {
    let mut reader = make_reader(&[0x00, 0x00, 0xFF, 0xFF]);
    reader.set_position_in_bits(16);
    let b = reader.read_byte().unwrap();
    assert_eq!(b, 0xFF);
}

#[test]
fn test_read_sentinel() {
    let sentinel_data: [u8; 16] = [1, 2, 3, 4, 5, 6, 7, 8, 9, 10, 11, 12, 13, 14, 15, 16];
    let mut reader = make_reader(&sentinel_data);
    let sentinel = reader.read_sentinel().unwrap();
    assert_eq!(sentinel, sentinel_data);
}

#[test]
fn test_read_variable_text_empty() {
    let mut reader = make_reader(&[0x80]);
    let text = reader.read_variable_text().unwrap();
    assert!(text.is_empty());
}

#[test]
fn test_read_bit_long_long() {
    let data = pack_3bit(0b001, &[0x42]);
    let mut reader = make_reader(&data);
    assert_eq!(reader.read_bit_long_long().unwrap(), 0x42);
}

fn as_floats(v: (u64, u64, u64)) -> (f64, f64, f64) {
    (f64::from_bits(v.0), f64::from_bits(v.1), f64::from_bits(v.2))
}

#[test]
fn test_read_bit_extrusion_ac12() {
    let mut reader = DwgStreamReaderBase::new(vec![0xA8], DxfVersion::AC1014);
    let extrusion = as_floats(reader.read_bit_extrusion().unwrap());
    assert_eq!(extrusion, (0.0, 0.0, 0.0));
}

#[test]
fn test_read_bit_extrusion_ac15_flag_set() {
    let mut reader = DwgStreamReaderBase::new(vec![0x80], DxfVersion::AC1015);
    let extrusion = as_floats(reader.read_bit_extrusion().unwrap());
    assert_eq!(extrusion, (0.0, 0.0, 1.0));
}

#[test]
fn test_read_bit_extrusion_ac15_flag_clear() {
    let mut reader = DwgStreamReaderBase::new(vec![0x54, 0x00], DxfVersion::AC1015);
    let extrusion = as_floats(reader.read_bit_extrusion().unwrap());
    assert_eq!(extrusion, (0.0, 0.0, 0.0));
}

#[test]
fn test_read_bit_thickness_ac15_flag_set() {
    let mut reader = DwgStreamReaderBase::new(vec![0x80], DxfVersion::AC1015);
    assert_eq!(f64::from_bits(reader.read_bit_thickness().unwrap()), 0.0);
}

#[test]
fn test_read_object_type_ac24() {
    let data = pack_2bit(0b00, &[0x01]);
    let mut reader = DwgStreamReaderBase::new(data, DxfVersion::AC1024);
    assert_eq!(reader.read_object_type().unwrap(), 1);
}

#[test]
fn test_read_object_type_ac24_offset() {
    let data = pack_2bit(0b01, &[0x02]);
    let mut reader = DwgStreamReaderBase::new(data, DxfVersion::AC1024);
    assert_eq!(reader.read_object_type().unwrap(), 0x1F2);
}

#[test]
fn test_read_bit_short_full_short() {
    let data = pack_2bit(0b00, &[0x34, 0x12]);
    let mut reader = make_reader(&data);
    assert_eq!(reader.read_bit_short().unwrap(), 0x1234);
}

#[test]
fn test_read_bit_long_full() {
    let data = pack_2bit(0b00, &[0x78, 0x56, 0x34, 0x12]);
    let mut reader = make_reader(&data);
    assert_eq!(reader.read_bit_long().unwrap(), 0x12345678);
}

#[test]
fn test_read_bit_long_one_byte() {
    let data = pack_2bit(0b01, &[0xFF]);
    let mut reader = make_reader(&data);
    assert_eq!(reader.read_bit_long().unwrap(), 255);
}

#[test]
fn test_read_bit_double_full() {
    let val_bytes = 3.14f64.to_le_bytes();
    let data = pack_2bit(0b00, &val_bytes);
    let mut reader = make_reader(&data);
    let result = f64::from_bits(reader.read_bit_double().unwrap());
    assert!((result - 3.14).abs() < 1e-15);
}

#[test]
fn test_read_bit_double_with_default_no_change() {
    let mut reader = make_reader(&[0x00]);
    let r = reader.read_bit_double_with_default(42.0f64.to_bits()).unwrap();
    assert_eq!(f64::from_bits(r), 42.0);
}

#[test]
fn test_read_3bit_double() {
    let mut reader = make_reader(&[0xA8]);
    let v = as_floats(reader.read_3bit_double().unwrap());
    assert_eq!(v, (0.0, 0.0, 0.0));
}

#[test]
fn test_read_raw_short() {
    let mut reader = make_reader(&[0x34, 0x12]);
    assert_eq!(reader.read_raw_short().unwrap(), 0x1234);
}

#[test]
fn test_read_raw_long() {
    let mut reader = make_reader(&[0x78, 0x56, 0x34, 0x12]);
    assert_eq!(reader.read_raw_long().unwrap(), 0x12345678);
}

#[test]
fn test_read_bytes_with_shift() {
    let mut reader = make_reader(&[0xFF, 0x80]);
    assert!(reader.read_bit().unwrap());
    let b = reader.read_byte().unwrap();
    assert_eq!(b, 0xFF);
}

#[test]
fn test_handle_reference_minus1() {
    let mut reader = make_reader(&[0x80]);
    let handle = reader.handle_reference_resolved(0x100).unwrap();
    assert_eq!(handle, 0xFF);
}

#[test]
fn test_handle_reference_plus_offset() {
    let mut reader = make_reader(&[0xA1, 0x05]);
    let handle = reader.handle_reference_resolved(0x100).unwrap();
    assert_eq!(handle, 0x105);
}

#[test]
fn test_handle_reference_minus_offset() {
    let mut reader = make_reader(&[0xC1, 0x05]);
    let handle = reader.handle_reference_resolved(0x100).unwrap();
    assert_eq!(handle, 0xFB);
}

#[test]
fn test_encoding_from_code_page() {
    assert_eq!(encoding_from_code_page(0x00).name(), "windows-1252");
    assert_eq!(encoding_from_code_page(0x0B).name(), "Shift_JIS");
    assert_eq!(encoding_from_code_page(0x0C).name(), "GBK");
}

// ---- further behaviour of the reader ----

#[test]
fn bit_reads_past_the_end_give_zero_bits() {
    let mut reader = make_reader(&[]);
    assert!(!reader.read_bit().unwrap());
    assert_eq!(reader.read_2bits().unwrap(), 0);
    assert_eq!(reader.position(), 0);
}

#[test]
fn byte_reads_past_the_end_fail() {
    let mut reader = make_reader(&[0x12]);
    assert_eq!(reader.read_byte().unwrap(), 0x12);
    assert_eq!(reader.read_byte(), Err(DxfError::UnexpectedEof));
    assert_eq!(reader.read_bytes(2), Err(DxfError::UnexpectedEof));
    assert_eq!(reader.read_bytes(16 * 1024 * 1024 + 1), Err(DxfError::ReadTooLarge));
}

#[test]
fn bit_long_code_three_is_refused() {
    let mut reader = make_reader(&[0xC0]);
    assert_eq!(reader.read_bit_long(), Err(DxfError::InvalidBitLong));
    let mut reader = make_reader(&[0xC0]);
    assert_eq!(reader.read_bit_double(), Err(DxfError::InvalidBitDouble));
}

#[test]
fn raw_values_are_little_endian_and_signed() {
    let mut reader = make_reader(&[0xFF, 0xFF, 0xFE, 0xFF, 0xFF, 0xFF, 1, 2, 3, 4, 5, 6, 7, 8]);
    assert_eq!(reader.read_raw_short().unwrap(), -1);
    assert_eq!(reader.read_raw_long().unwrap(), -2);
    assert_eq!(reader.read_raw_ulong().unwrap(), 0x0807060504030201);
    let mut reader = make_reader(&[0xFE, 0xFF]);
    assert_eq!(reader.read_raw_ushort().unwrap(), 0xFFFE);
}

#[test]
fn bit_double_with_default_patches_bytes() {
    let def = 0x1122_3344_5566_7788u64;
    let data = pack_2bit(0b01, &[0xAA, 0xBB, 0xCC, 0xDD]);
    let mut reader = make_reader(&data);
    assert_eq!(reader.read_bit_double_with_default(def).unwrap(), 0x1122_3344_DDCC_BBAA);
    let data = pack_2bit(0b10, &[0x01, 0x02, 0xAA, 0xBB, 0xCC, 0xDD]);
    let mut reader = make_reader(&data);
    assert_eq!(reader.read_bit_double_with_default(def).unwrap(), 0x1122_0201_DDCC_BBAA);
    let data = pack_2bit(0b11, &2.5f64.to_le_bytes());
    let mut reader = make_reader(&data);
    assert_eq!(f64::from_bits(reader.read_bit_double_with_default(def).unwrap()), 2.5);
}

#[test]
fn modular_values_over_several_bytes() {
    let mut reader = make_reader(&[0xFF, 0xFF, 0x03]);
    assert_eq!(reader.read_modular_char().unwrap(), 0xFFFF);
    let mut reader = make_reader(&[0x81, 0x41]);
    assert_eq!(reader.read_signed_modular_char().unwrap(), -129);
    let mut reader = make_reader(&[0x01, 0x80, 0x02, 0x00]);
    assert_eq!(reader.read_modular_short().unwrap(), 1 + 2 * 0x8000);
    let mut reader = make_reader(&[0x80; 11]);
    assert_eq!(reader.read_modular_char(), Err(DxfError::InvalidFormat));
    let mut reader = make_reader(&[0x80]);
    assert_eq!(reader.read_modular_char(), Err(DxfError::UnexpectedEof));
}

#[test]
fn handle_reference_errors() {
    let mut reader = make_reader(&[0x70]);
    assert_eq!(reader.handle_reference(), Err(DxfError::InvalidReferenceCode(7)));
    let mut reader = make_reader(&[0x49, 0, 0, 0, 0, 0, 0, 0, 0, 0]);
    assert_eq!(reader.handle_reference(), Err(DxfError::HandleTooLong(9)));
    let mut reader = make_reader(&[0x32, 0x01, 0x02]);
    assert_eq!(reader.handle_reference().unwrap(), 0x0102);
    let mut reader = make_reader(&[0x52, 0x01]);
    assert_eq!(reader.handle_reference(), Err(DxfError::UnexpectedEof));
}

#[test]
fn variable_text_in_code_page_and_utf16() {
    let data = pack_2bit(0b01, &[3, b'a', 0, b'c']);
    let mut reader = make_reader(&data);
    assert_eq!(reader.read_variable_text().unwrap(), "ac");
    let data = pack_2bit(0b01, &[2, 0xE9, 0x41]);
    let mut reader = make_reader(&data);
    reader.set_encoding(TextEncoding::Windows1252);
    assert_eq!(reader.read_variable_text().unwrap(), "\u{e9}A");
    let data = pack_2bit(0b01, &[3, 0x41, 0x00, 0x42, 0x00, 0x00, 0x00]);
    let mut reader = DwgStreamReaderBase::new(data, DxfVersion::AC1021);
    assert_eq!(reader.read_variable_text().unwrap(), "AB");
}

#[test]
fn text_unicode_before_and_after_r2007() {
    let mut reader = make_reader(&[2, 0, 0x1E, b'h', b'i']);
    assert_eq!(reader.read_text_unicode().unwrap(), "hi");
    let mut reader = make_reader(&[2, 0, 0x03, 0xC0, 0xC1]);
    assert_eq!(reader.read_text_unicode().unwrap(), "\u{410}\u{411}");
    let mut reader = DwgStreamReaderBase::new(vec![2, 0, 0x48, 0x00, 0x69, 0x00], DxfVersion::AC1024);
    assert_eq!(reader.read_text_unicode().unwrap(), "Hi");
    let mut reader = DwgStreamReaderBase::new(vec![0xFF, 0xFF], DxfVersion::AC1024);
    assert_eq!(reader.read_text_unicode(), Err(DxfError::ReadTooLarge));
}

#[test]
fn positions_and_stream_handler() {
    let mut reader = get_stream_handler(DxfVersion::AC1018, vec![1, 2, 3]);
    assert_eq!(reader.version(), DxfVersion::AC1018);
    assert_eq!(reader.stream_length(), 3);
    assert_eq!(reader.encoding(), TextEncoding::Windows1252);
    reader.set_position_in_bits(10);
    assert_eq!(reader.position(), 2);
    assert_eq!(reader.bit_shift(), 2);
    assert_eq!(reader.position_in_bits(), 10);
    let reader = DwgStreamReaderBase::new_at(vec![1, 2, 3], DxfVersion::AC1015, 2);
    assert_eq!(reader.position(), 2);
}

#[test]
fn reset_shift_reads_the_next_two_bytes() {
    let mut reader = make_reader(&[0xFF, 0x34, 0x12]);
    reader.read_bit().unwrap();
    assert_eq!(reader.reset_shift().unwrap(), 0x1234);
}

#[test]
fn string_stream_found_from_its_flag() {
    // Without the flag bit the reader is marked empty and moved to the end.
    let mut reader = make_reader(&[0x00, 0x00, 0x00]);
    assert_eq!(reader.set_position_by_flag(20).unwrap(), 20);
    assert!(reader.is_empty());
    assert_eq!(reader.position(), 3);
    // With the flag bit (bit 144): the size 0x0010 sits 16 bits before it,
    // and the stream starts that many bits before the size.
    let mut data = vec![0u8; 20];
    data[16] = 0x10;
    data[18] = 0x80;
    let mut reader = make_reader(&data);
    assert_eq!(reader.set_position_by_flag(144).unwrap(), 112);
    assert!(!reader.is_empty());
}

#[test]
fn julian_date_is_two_raw_longs() {
    let mut reader = make_reader(&[0x01, 0x00, 0x00, 0x00, 0xE8, 0x03, 0x00, 0x00]);
    assert_eq!(reader.read_8bit_julian_date().unwrap(), (1, 1000));
}
