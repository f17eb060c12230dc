use acadrust::color::{DwgColor, DwgTransparency};
use acadrust::merged_reader::DwgMergedReader;
use acadrust::stream_reader::DwgStreamReaderBase;
use acadrust::version::DxfVersion;

/// Bits written most significant first, packed into bytes.
struct Bits {
    bits: Vec<bool>,
}

impl Bits {
    fn new() -> Bits {
        Bits { bits: Vec::new() }
    }

    fn code(mut self, value: u8, n: u32) -> Bits {
        for i in (0..n).rev() {
            self.bits.push((value >> i) & 1 == 1);
        }
        self
    }

    fn bytes(mut self, bytes: &[u8]) -> Bits {
        for &b in bytes {
            self = self.code(b, 8);
        }
        self
    }

    fn finish(self) -> Vec<u8> {
        let mut out = Vec::new();
        for chunk in self.bits.chunks(8) {
            let mut byte = 0u8;
            for (i, &bit) in chunk.iter().enumerate() {
                if bit {
                    byte |= 1 << (7 - i);
                }
            }
            out.push(byte);
        }
        out
    }
}

fn pack_2bit(code: u8, value: &[u8]) -> Vec<u8> {
    Bits::new().code(code, 2).bytes(value).finish()
}

#[test]
fn test_read_en_color_ac18_indexed() {
    let data = pack_2bit(0b01, &[0x07]);
    let mut reader = DwgStreamReaderBase::new(data, DxfVersion::AC1018);
    let (color, transparency, is_book) = reader.read_en_color().unwrap();
    assert_eq!(color, DwgColor::Index(7));
    assert_eq!(transparency, DwgTransparency::ByLayer);
    assert!(!is_book);
}

#[test]
fn test_read_en_color_pre_ac18() {
    let data = pack_2bit(0b01, &[0x07]);
    let mut reader = DwgStreamReaderBase::new(data, DxfVersion::AC1015);
    let (color, transparency, is_book) = reader.read_en_color().unwrap();
    assert_eq!(color, DwgColor::Index(7));
    assert_eq!(transparency, DwgTransparency::ByLayer);
    assert!(!is_book);
}

#[test]
fn en_color_size_zero_is_by_block_and_opaque() {
    let data = Bits::new().code(0b10, 2).finish();
    let mut reader = DwgStreamReaderBase::new(data, DxfVersion::AC1018);
    assert_eq!(reader.read_en_color().unwrap(), (DwgColor::ByBlock, DwgTransparency::Opaque, false));
}

#[test]
fn en_color_true_color_with_transparency() {
    // BitShort 0xA000 (raw short): true color and transparency flags.
    let data = Bits::new()
        .code(0b00, 2).bytes(&[0x00, 0xA0])
        .code(0b00, 2).bytes(&[0x33, 0x22, 0x11, 0x00])
        .code(0b01, 2).bytes(&[0x40])
        .finish();
    let mut reader = DwgStreamReaderBase::new(data, DxfVersion::AC1018);
    let (color, transparency, book) = reader.read_en_color().unwrap();
    assert_eq!(color, DwgColor::Rgb(0x11, 0x22, 0x33));
    assert_eq!(transparency, DwgTransparency::Alpha(0x40));
    assert!(!book);
}

#[test]
fn en_color_book_reference() {
    // BitShort 0xC000: book color (0x4000 wins over 0x8000), no BitLong read.
    let data = Bits::new().code(0b00, 2).bytes(&[0x00, 0xC0]).finish();
    let mut reader = DwgStreamReaderBase::new(data, DxfVersion::AC1018);
    assert_eq!(reader.read_en_color().unwrap(), (DwgColor::ByBlock, DwgTransparency::ByLayer, true));
}

#[test]
fn en_color_index_keeps_low_twelve_bits() {
    // BitShort 0x0105 with no flags: index 0x105.
    let data = Bits::new().code(0b00, 2).bytes(&[0x05, 0x01]).finish();
    let mut reader = DwgStreamReaderBase::new(data, DxfVersion::AC1024);
    assert_eq!(reader.read_en_color().unwrap(), (DwgColor::Index(0x105), DwgTransparency::ByLayer, false));
}

#[test]
fn en_color_invalid_bit_long_fails() {
    // True color flag, then the unused BitLong code 11.
    let data = Bits::new().code(0b00, 2).bytes(&[0x00, 0x80]).code(0b11, 2).finish();
    let mut reader = DwgStreamReaderBase::new(data, DxfVersion::AC1018);
    assert!(reader.read_en_color().is_err());
}

#[test]
fn cm_color_before_r2004_is_an_index() {
    let data = pack_2bit(0b01, &[0x03]);
    let mut reader = DwgStreamReaderBase::new(data, DxfVersion::AC1015);
    assert_eq!(reader.read_cm_color().unwrap(), DwgColor::Index(3));
}

#[test]
fn cm_color_values_from_r2004() {
    let by_layer = Bits::new().code(0b10, 2).code(0b00, 2).bytes(&[0x00, 0x00, 0x00, 0xC0]).bytes(&[0x00]).finish();
    let mut reader = DwgStreamReaderBase::new(by_layer, DxfVersion::AC1018);
    assert_eq!(reader.read_cm_color().unwrap(), DwgColor::ByLayer);

    let indexed = Bits::new().code(0b10, 2).code(0b00, 2).bytes(&[0x05, 0x00, 0x00, 0xC3]).bytes(&[0x00]).finish();
    let mut reader = DwgStreamReaderBase::new(indexed, DxfVersion::AC1018);
    assert_eq!(reader.read_cm_color().unwrap(), DwgColor::Index(5));

    let rgb = Bits::new().code(0b10, 2).code(0b00, 2).bytes(&[0x33, 0x22, 0x11, 0xC2]).bytes(&[0x00]).finish();
    let mut reader = DwgStreamReaderBase::new(rgb, DxfVersion::AC1018);
    assert_eq!(reader.read_cm_color().unwrap(), DwgColor::Rgb(0x11, 0x22, 0x33));
}

#[test]
fn cm_color_skips_its_names() {
    // Flag byte 3: a color name and a book name follow (empty texts, BitShort 0),
    // then a bit that must be the next thing read.
    let data = Bits::new()
        .code(0b10, 2)
        .code(0b01, 2).bytes(&[0x07])
        .bytes(&[0x03])
        .code(0b10, 2)
        .code(0b10, 2)
        .code(0b1, 1)
        .finish();
    let mut reader = DwgStreamReaderBase::new(data, DxfVersion::AC1018);
    assert_eq!(reader.read_cm_color().unwrap(), DwgColor::Rgb(0, 0, 7));
    assert!(reader.read_bit().unwrap());
}

#[test]
fn color_by_index_reads_a_bit_short() {
    let data = Bits::new().code(0b11, 2).finish();
    let mut reader = DwgStreamReaderBase::new(data, DxfVersion::AC1018);
    assert_eq!(reader.read_color_by_index().unwrap(), DwgColor::Index(256));
}

#[test]
fn merged_cm_color_takes_names_from_the_string_stream() {
    let main = Bits::new()
        .code(0b10, 2)
        .code(0b01, 2).bytes(&[0x09])
        .bytes(&[0x01])
        .code(0b1, 1)
        .finish();
    // The string stream: a text of length 0 (BitShort code 10), then a bit.
    let text = Bits::new().code(0b10, 2).code(0b1, 1).finish();
    let mut merged = DwgMergedReader::new(
        DwgStreamReaderBase::new(main, DxfVersion::AC1021),
        DwgStreamReaderBase::new(text, DxfVersion::AC1021),
        DwgStreamReaderBase::new(Vec::new(), DxfVersion::AC1021),
        DxfVersion::AC1021,
    );
    assert_eq!(merged.read_cm_color().unwrap(), DwgColor::Rgb(0, 0, 9));
    assert!(merged.read_bit().unwrap());
}

#[test]
fn merged_en_color_reads_the_main_stream() {
    let main = pack_2bit(0b01, &[0x07]);
    let mut merged = DwgMergedReader::new(
        DwgStreamReaderBase::new(main, DxfVersion::AC1018),
        DwgStreamReaderBase::new(Vec::new(), DxfVersion::AC1018),
        DwgStreamReaderBase::new(Vec::new(), DxfVersion::AC1018),
        DxfVersion::AC1018,
    );
    assert_eq!(merged.read_en_color().unwrap(), (DwgColor::Index(7), DwgTransparency::ByLayer, false));
    assert!(merged.read_color_by_index().is_err());
}
