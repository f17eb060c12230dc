use std::collections::{HashMap, VecDeque};

use acadrust::object_common::XDataValue;
use acadrust::object_reader::DwgObjectReader;
use acadrust::stream_reader::DwgStreamReaderBase;
use acadrust::stream_set::StreamSet;
use acadrust::templates::CadTemplate;
use acadrust::version::DxfVersion;

/// Bits written most significant first, packed into bytes.
struct Bits {
    bits: Vec<bool>,
}

impl Bits {
    fn new() -> Bits {
        Bits { bits: Vec::new() }
    }

    fn code(mut self, value: u8, n: u32) -> Bits {
        for i in (0..n).rev() {
            self.bits.push((value >> i) & 1 == 1);
        }
        self
    }

    fn bytes(mut self, bytes: &[u8]) -> Bits {
        for &b in bytes {
            self = self.code(b, 8);
        }
        self
    }

    fn finish(self) -> Vec<u8> {
        let mut out = Vec::new();
        for chunk in self.bits.chunks(8) {
            let mut byte = 0u8;
            for (i, &bit) in chunk.iter().enumerate() {
                if bit {
                    byte |= 1 << (7 - i);
                }
            }
            out.push(byte);
        }
        out
    }
}

fn reader_over(version: DxfVersion, data: Vec<u8>) -> DwgObjectReader {
    DwgObjectReader::new(version, data, VecDeque::new(), HashMap::new(), &[])
}

/// The streams of an object whose data starts at byte 0 of `data`, whose
/// strings start at byte `text_at` and whose handles start at byte
/// `handles_at`, read merged.
fn merged_streams(version: DxfVersion, data: &[u8], text_at: u64, handles_at: u64) -> StreamSet {
    StreamSet {
        object_reader: DwgStreamReaderBase::new(data.to_vec(), version),
        text_reader: DwgStreamReaderBase::new_at(data.to_vec(), version, text_at),
        handles_reader: DwgStreamReaderBase::new_at(data.to_vec(), version, handles_at),
        merged: true,
        has_separate_text_reader: true,
        current_handle: 0,
    }
}

/// The streams of an R2000 object: the handle stream is found from the
/// size at the start of the data.
fn plain_streams(version: DxfVersion, data: &[u8]) -> StreamSet {
    StreamSet {
        object_reader: DwgStreamReaderBase::new(data.to_vec(), version),
        text_reader: DwgStreamReaderBase::new(data.to_vec(), version),
        handles_reader: DwgStreamReaderBase::new(data.to_vec(), version),
        merged: false,
        has_separate_text_reader: false,
        current_handle: 0,
    }
}

/// The object data of a non-graphical R2010 object with handle 0x2A, no
/// extended data, `reactors` reactors and no extended dictionary.
fn r2010_common(reactors: u8) -> Bits {
    Bits::new()
        .bytes(&[0x51, 0x2A])
        .code(0b10, 2)
        .code(0b01, 2).bytes(&[reactors])
        .code(0b1, 1)
}

/// The data of an R2010 object: `object` padded to `handles_at` bytes,
/// the handle stream, then the string stream.
fn r2010_object(object: Vec<u8>, handles_at: usize, handles: &[u8], strings: Vec<u8>) -> (Vec<u8>, u64) {
    let mut data = object;
    assert!(data.len() <= handles_at);
    data.resize(handles_at, 0);
    data.extend(handles);
    let text_at = data.len() as u64;
    data.extend(strings);
    (data, text_at)
}


/// A color index 0 with no true color and no names (R2004 and later).
fn no_color(b: Bits) -> Bits {
    b.code(0b10, 2).code(0b10, 2).bytes(&[0])
}

/// `n` zero BitDoubles.
fn zero_doubles(mut b: Bits, n: usize) -> Bits {
    for _ in 0..n {
        b = b.code(0b10, 2);
    }
    b
}

/// `n` zero raw doubles.
fn raw_zeros(b: Bits, n: usize) -> Bits {
    b.bytes(&vec![0u8; 8 * n])
}

#[test]
fn layer_keeps_its_linetype_material_and_plot_style() {
    let object = no_color(r2010_common(0).code(0b10, 2).code(0b10, 2)).finish();
    let handles = [0x41, 0x05, 0x40, 0x41, 0x11, 0x41, 0x12, 0x41, 0x13];
    let strings = Bits::new().code(0b01, 2).bytes(&[1, b'L', 0]).finish();
    let (data, text_at) = r2010_object(object, 8, &handles, strings);
    let mut reader = reader_over(DxfVersion::AC1024, data.clone());
    let mut streams = merged_streams(DxfVersion::AC1024, &data, text_at, 8);
    let t: CadTemplate<XDataValue, ()> = reader.read_layer(&mut streams).unwrap();
    match t {
        CadTemplate::LayerEntry { common, layer_data } => {
            assert_eq!(common.handle, 0x2A);
            assert_eq!(layer_data.plotstyle_handle, 0x11);
            assert_eq!(layer_data.material_handle, 0x12);
            assert_eq!(layer_data.linetype_handle, 0x13);
        },
        _ => panic!("not a layer"),
    }
}

#[test]
fn linetype_keeps_its_pattern_length_and_segments() {
    // Pattern length 1.0, alignment 'A', one dash of length 1.0.
    let mut bits = r2010_common(0).code(0b10, 2).code(0b01, 2).bytes(&[b'A', 1]);
    bits = bits.code(0b01, 2).code(0b10, 2);
    bits = raw_zeros(bits, 2);
    bits = zero_doubles(bits, 2).code(0b10, 2);
    let object = bits.finish();
    let handles = [0x41, 0x05, 0x41, 0x20, 0x41, 0x21];
    let strings = Bits::new().code(0b10, 2).code(0b10, 2).code(0b10, 2).finish();
    let (data, text_at) = r2010_object(object, 24, &handles, strings);
    let mut reader = reader_over(DxfVersion::AC1024, data.clone());
    let mut streams = merged_streams(DxfVersion::AC1024, &data, text_at, 24);
    let t: CadTemplate<XDataValue, ()> = reader.read_ltype(&mut streams).unwrap();
    match t {
        CadTemplate::LineTypeEntry { ltype_data, .. } => {
            assert_eq!(ltype_data.ltype_control_handle, 0x20);
            assert_eq!(f64::from_bits(ltype_data.total_len), 1.0);
            assert_eq!(ltype_data.segment_handles, vec![0x21]);
        },
        _ => panic!("not a linetype"),
    }
}

#[test]
fn view_with_an_associated_ucs_keeps_it() {
    let mut bits = r2010_common(0).code(0b10, 2);
    bits = zero_doubles(bits, 2);
    bits = raw_zeros(bits, 2);
    bits = zero_doubles(bits, 10).code(0b000, 3);
    bits = bits.bytes(&[0]).code(0b1, 1);
    bits = zero_doubles(bits, 10).code(0b10, 2);
    bits = bits.code(0b0, 1);
    let object = bits.finish();
    let handles = [0x41, 0x05, 0x40, 0x40, 0x40, 0x40, 0x41, 0x30, 0x41, 0x31, 0x40];
    let strings = Bits::new().code(0b10, 2).finish();
    let (data, text_at) = r2010_object(object, 28, &handles, strings);
    let mut reader = reader_over(DxfVersion::AC1024, data.clone());
    let mut streams = merged_streams(DxfVersion::AC1024, &data, text_at, 28);
    let t: CadTemplate<XDataValue, ()> = reader.read_view(&mut streams).unwrap();
    match t {
        CadTemplate::ViewEntry { view_data, .. } => {
            assert_eq!(view_data.ucs_handle, 0x30);
            assert_eq!(view_data.named_ucs_handle, 0);
        },
        _ => panic!("not a view"),
    }
    assert_eq!(streams.handles_reader.position(), 28 + handles.len() as u64);
}

#[test]
fn viewport_keeps_its_handles() {
    let mut bits = r2010_common(0).code(0b10, 2);
    bits = zero_doubles(bits, 2);
    bits = raw_zeros(bits, 2);
    bits = zero_doubles(bits, 10).code(0b10, 2).bytes(&[0]);
    bits = bits.code(0b0, 1).bytes(&[0]).code(0b10, 2).code(0b10, 2).bytes(&[0, 0, 0, 0]);
    bits = raw_zeros(bits, 4).code(0b0, 1).code(0b10, 2).code(0b00, 2).code(0b10, 2).code(0b10, 2);
    bits = raw_zeros(bits, 4).code(0b0, 1);
    bits = raw_zeros(bits, 2);
    bits = zero_doubles(bits.code(0b0, 1), 10).code(0b10, 2);
    bits = bits.code(0b10, 2).code(0b10, 2);
    let object = bits.finish();
    assert!(object.len() <= 120);
    let handles = [0x41, 0x05, 0x41, 0x40, 0x41, 0x41, 0x41, 0x42, 0x41, 0x43, 0x41, 0x44, 0x41, 0x45];
    let strings = Bits::new().code(0b10, 2).finish();
    let (data, text_at) = r2010_object(object, 120, &handles, strings);
    let mut reader = reader_over(DxfVersion::AC1024, data.clone());
    let mut streams = merged_streams(DxfVersion::AC1024, &data, text_at, 120);
    let t: CadTemplate<XDataValue, ()> = reader.read_vport(&mut streams).unwrap();
    match t {
        CadTemplate::VPortEntry { vport_data, .. } => {
            assert_eq!(vport_data.vport_control_handle, 0x40);
            assert_eq!(vport_data.background_handle, 0x41);
            assert_eq!(vport_data.style_handle, 0x42);
            assert_eq!(vport_data.sun_handle, 0x43);
            assert_eq!(vport_data.named_ucs_handle, 0x44);
            assert_eq!(vport_data.base_ucs_handle, 0x45);
        },
        _ => panic!("not a viewport"),
    }
}

#[test]
fn dimension_style_from_r2010_keeps_its_handles() {
    let mut bits = r2010_common(0).code(0b10, 2);
    bits = zero_doubles(bits, 9);
    bits = no_color(bits.code(0b10, 2).code(0b0, 1).code(0b10, 2).code(0b10, 2));
    bits = bits.code(0, 6).code(0b10, 2).code(0b10, 2).code(0b10, 2);
    bits = bits.code(0b10, 2);
    bits = zero_doubles(bits, 9).code(0, 1).code(0b10, 2).code(0, 4);
    bits = no_color(no_color(no_color(bits)));
    for _ in 0..12 {
        bits = bits.code(0b10, 2);
    }
    bits = bits.code(0, 2).code(0b10, 2).code(0b10, 2).code(0b10, 2).code(0b10, 2).code(0, 1).code(0b10, 2);
    bits = bits.code(0, 1);
    bits = zero_doubles(bits, 2).code(0b10, 2);
    bits = bits.code(0b10, 2);
    let object = bits.finish();
    let handles = [0x41, 0x05, 0x40, 0x41, 0x50, 0x41, 0x51, 0x41, 0x52, 0x41, 0x53, 0x41, 0x54, 0x41, 0x55,
        0x41, 0x56, 0x41, 0x57];
    let strings = Bits::new().code(0b10, 2).code(0b10, 2).code(0b10, 2).finish();
    let (data, text_at) = r2010_object(object, 24, &handles, strings);
    let mut reader = reader_over(DxfVersion::AC1024, data.clone());
    let mut streams = merged_streams(DxfVersion::AC1024, &data, text_at, 24);
    let t: CadTemplate<XDataValue, ()> = reader.read_dimstyle(&mut streams).unwrap();
    match t {
        CadTemplate::DimStyleEntry { dimstyle_data: d, .. } => {
            assert_eq!(d.dimtxsty_handle, 0x50);
            assert_eq!(d.dimldrblk_handle, 0x51);
            assert_eq!(d.dimblk_handle, 0x52);
            assert_eq!(d.dimblk1_handle, 0x53);
            assert_eq!(d.dimblk2_handle, 0x54);
            assert_eq!(d.dimltype_handle, 0x55);
            assert_eq!(d.dimltex1_handle, 0x56);
            assert_eq!(d.dimltex2_handle, 0x57);
            assert!(d.dimblk_name.is_empty());
        },
        _ => panic!("not a dimension style"),
    }
    assert_eq!(streams.handles_reader.position(), 24 + handles.len() as u64);
}

#[test]
fn dimension_style_from_r14_keeps_its_arrow_block_names() {
    // R14: handle, no extended data, the size in bits (320: the handles
    // start at byte 40), no reactors; the strings are inline.
    let text = |b: Bits, s: &[u8]| {
        if s.is_empty() { b.code(0b10, 2) } else { b.code(0b01, 2).bytes(&[s.len() as u8]).bytes(s) }
    };
    let mut bits = Bits::new().bytes(&[0x51, 0x2A]).code(0b10, 2).bytes(&[0x40, 0x01, 0, 0]).code(0b10, 2);
    bits = text(bits, b"N");
    bits = bits.code(0, 1).code(0b10, 2).code(0, 1);
    bits = bits.code(0, 6).code(0, 5).bytes(&[0, 0]).code(0, 2).bytes(&[0, 0, 0]).code(0, 1).bytes(&[0, 0, 0, 0]);
    for _ in 0..6 {
        bits = bits.code(0b10, 2);
    }
    bits = zero_doubles(bits, 17);
    bits = text(text(bits, b""), b"");
    bits = text(text(text(bits, b"A"), b"B"), b"C");
    bits = bits.code(0b10, 2).code(0b10, 2).code(0b10, 2);
    let mut data = bits.finish();
    assert!(data.len() <= 40);
    data.resize(40, 0);
    data.extend(&[0x41, 0x05, 0x40, 0x40, 0x41, 0x50]);
    let mut reader = reader_over(DxfVersion::AC1014, data.clone());
    let mut streams = plain_streams(DxfVersion::AC1014, &data);
    let t: CadTemplate<XDataValue, ()> = reader.read_dimstyle(&mut streams).unwrap();
    match t {
        CadTemplate::DimStyleEntry { common, dimstyle_data: d } => {
            assert_eq!(common.handle, 0x2A);
            assert_eq!(common.owner_handle, 5);
            assert_eq!(d.dimtxsty_handle, 0x50);
            assert_eq!(d.dimblk_handle, 0);
            assert_eq!(d.dimblk_name, "A");
            assert_eq!(d.dimblk1_name, "B");
            assert_eq!(d.dimblk2_name, "C");
        },
        _ => panic!("not a dimension style"),
    }
}

#[test]
fn registered_application_and_ucs_are_generic_entries() {
    let object = r2010_common(0).code(0b10, 2).bytes(&[0]).finish();
    let strings = Bits::new().code(0b10, 2).finish();
    let (data, text_at) = r2010_object(object, 8, &[0x41, 0x05, 0x41, 0x09], strings);
    let mut reader = reader_over(DxfVersion::AC1024, data.clone());
    let mut streams = merged_streams(DxfVersion::AC1024, &data, text_at, 8);
    let t: CadTemplate<XDataValue, ()> = reader.read_appid(&mut streams).unwrap();
    assert!(matches!(t, CadTemplate::GenericTableEntry { .. }));
    assert_eq!(streams.handles_reader.position(), 12);

    let object = zero_doubles(r2010_common(0).code(0b10, 2), 10).code(0b10, 2).finish();
    let (data, text_at) = r2010_object(object, 12, &[0x41, 0x05, 0x41, 0x09, 0x40, 0x40], strings_of_one());
    let mut reader = reader_over(DxfVersion::AC1024, data.clone());
    let mut streams = merged_streams(DxfVersion::AC1024, &data, text_at, 12);
    let t: CadTemplate<XDataValue, ()> = reader.read_ucs(&mut streams).unwrap();
    assert!(matches!(t, CadTemplate::GenericTableEntry { .. }));
    assert_eq!(streams.handles_reader.position(), 18);
}

/// A string stream holding one empty text.
fn strings_of_one() -> Vec<u8> {
    Bits::new().code(0b10, 2).finish()
}

#[test]
fn text_style_is_a_generic_entry() {
    let mut bits = r2010_common(0).code(0b10, 2).code(0b00, 2);
    bits = zero_doubles(bits, 3).bytes(&[0]).code(0b10, 2);
    let object = bits.finish();
    let strings = Bits::new().code(0b10, 2).code(0b10, 2).code(0b10, 2).finish();
    let (data, text_at) = r2010_object(object, 12, &[0x41, 0x05, 0x41, 0x09], strings);
    let mut reader = reader_over(DxfVersion::AC1024, data.clone());
    let mut streams = merged_streams(DxfVersion::AC1024, &data, text_at, 12);
    let t: CadTemplate<XDataValue, ()> = reader.read_text_style(&mut streams).unwrap();
    match t {
        CadTemplate::GenericTableEntry { common } => assert_eq!(common.owner_handle, 5),
        _ => panic!("not a table entry"),
    }
    assert_eq!(streams.handles_reader.position(), 16);
}
