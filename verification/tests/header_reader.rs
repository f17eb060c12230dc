use acadrust::color::DwgColor;
use acadrust::dwg_reader::DwgReader;
use acadrust::error::DxfError;
use acadrust::header_layout::{header_after_seed_fields, header_before_seed_fields, header_tail_fields};
use acadrust::header_reader::DwgHeaderReader;
use acadrust::header_variables::{after_seed_stored_list, before_seed_stored_list, header_handles, header_variables,
    HeaderVariables, ANGULAR_UNIT_PRECISION_AT, FACET_RESOLUTION_AT, FLAGS_AT, ISOLINES_AT, LINEAR_UNIT_PRECISION_AT,
    TEXT_QUALITY_AT, PLOT_STYLE_TYPE_AT, tail_stored_list, header_value_of, HeaderVar};
use acadrust::object_reader::{FieldKind, FieldValue};
use acadrust::version::DxfVersion;

/// Bits written most significant first, packed into bytes.
struct Bits {
    bits: Vec<bool>,
}

impl Bits {
    fn new() -> Bits {
        Bits { bits: Vec::new() }
    }

    fn code(mut self, value: u8, n: u32) -> Bits {
        for i in (0..n).rev() {
            self.bits.push((value >> i) & 1 == 1);
        }
        self
    }

    fn bytes(mut self, bytes: &[u8]) -> Bits {
        for &b in bytes {
            self = self.code(b, 8);
        }
        self
    }

    fn len(&self) -> usize {
        self.bits.len()
    }

    fn finish(self) -> Vec<u8> {
        let mut out = Vec::new();
        for chunk in self.bits.chunks(8) {
            let mut byte = 0u8;
            for (i, &bit) in chunk.iter().enumerate() {
                if bit {
                    byte |= 1 << (7 - i);
                }
            }
            out.push(byte);
        }
        out
    }
}

/// The main-stream bits of a zero value of `kind`; a text and a handle
/// are left out when the variables are read merged (they are in their
/// own streams).
fn zero_value(b: Bits, kind: &FieldKind, merged: bool, r2004: bool) -> Bits {
    match kind {
        FieldKind::Bit => b.code(0, 1),
        FieldKind::BitShort | FieldKind::BitLong | FieldKind::BitDouble => b.code(0b10, 2),
        FieldKind::BitLongLong => b.code(0, 3),
        FieldKind::RawChar => b.bytes(&[0]),
        FieldKind::RawLong => b.bytes(&[0; 4]),
        FieldKind::RawDouble => b.bytes(&[0; 8]),
        FieldKind::CmColor => {
            if r2004 {
                b.code(0b10, 2).code(0b10, 2).bytes(&[0])
            } else {
                b.code(0b10, 2)
            }
        },
        FieldKind::Text => {
            if merged {
                b
            } else {
                b.code(0b10, 2)
            }
        },
        FieldKind::Handle => {
            if merged {
                b
            } else {
                b.bytes(&[0x40])
            }
        },
        FieldKind::ObjectHandle => b.bytes(&[0x40]),
        FieldKind::XrefBit => b.code(0b10, 2),
        FieldKind::Extrusion | FieldKind::Thickness => b.code(0b1, 1),
        FieldKind::Point3 => b.code(0b10, 2).code(0b10, 2).code(0b10, 2),
    }
}

/// An R2000 header section: every variable zero but the plot style type,
/// 3, so the current plot style handle (0x77) follows; handle seed 0x2A.
fn r2000_header() -> Vec<u8> {
    let v = DxfVersion::AC1015;
    let mut bits = Bits::new();
    for k in header_before_seed_fields(v).iter() {
        bits = zero_value(bits, k, false, false);
    }
    bits = bits.bytes(&[0x41, 0x2A]);
    let after = header_after_seed_fields(v);
    for (i, k) in after.iter().enumerate() {
        if i + 1 == after.len() {
            bits = bits.code(0b01, 2).bytes(&[3]);
        } else {
            bits = zero_value(bits, k, false, false);
        }
    }
    bits = bits.bytes(&[0x41, 0x77]);
    for k in header_tail_fields(v).iter() {
        bits = zero_value(bits, k, false, false);
    }
    let vars = bits.finish();
    let mut data = vec![0xCFu8; 16];
    data.extend_from_slice(&(vars.len() as i32).to_le_bytes());
    data.extend(vars);
    data.extend_from_slice(&[0u8; 18]);
    data
}

#[test]
fn r2000_header_variables_in_order() {
    let data = r2000_header();
    let values = DwgHeaderReader::new(DxfVersion::AC1015, data).read(0).unwrap();
    assert_eq!(values.handle_seed, 0x2A);
    assert_eq!(values.before_seed.len(), 89);
    assert_eq!(values.after_seed.len(), 183 + 1 + 7);
    assert!(matches!(values.after_seed[182], FieldValue::Short(3)));
    assert!(matches!(values.after_seed[183], FieldValue::Handle(0x77)));
    assert!(matches!(values.before_seed[88], FieldValue::Color(DwgColor::Index(0))));
    assert!(matches!(&values.after_seed[0], FieldValue::Handle(0)));
}

#[test]
fn r2000_header_without_its_end_sentinel_fails() {
    let mut data = r2000_header();
    data.truncate(data.len() - 10);
    assert_eq!(DwgHeaderReader::new(DxfVersion::AC1015, data).read(0).err(), Some(DxfError::UnexpectedEof));
}

#[test]
fn header_shorter_than_its_sentinel_fails() {
    let data = vec![0u8; 10];
    assert_eq!(DwgHeaderReader::new(DxfVersion::AC1015, data).read(0).err(), Some(DxfError::UnexpectedEof));
}

#[test]
fn r2010_header_variables_read_merged() {
    let v = DxfVersion::AC1024;
    let mut bits = Bits::new();
    let mut handles = Vec::new();
    for k in header_before_seed_fields(v).iter() {
        bits = zero_value(bits, k, true, true);
        if *k == FieldKind::Handle {
            handles.push(0x40u8);
        }
    }
    bits = bits.bytes(&[0x41, 0x2A]);
    let mut first = true;
    for k in header_after_seed_fields(v).iter().chain(header_tail_fields(v).iter()) {
        bits = zero_value(bits, k, true, true);
        if *k == FieldKind::Handle {
            if first {
                handles.extend_from_slice(&[0x41, 0x10]);
                first = false;
            } else {
                handles.push(0x40);
            }
        }
    }
    // The variables end with a clear flag bit: there is no string stream.
    let main_bits = bits.len();
    let region = 4 + (main_bits + 1 + 7) / 8;
    let mut main = bits.finish();
    main.resize(region - 4, 0);
    let mut data = vec![0xCFu8; 16];
    data.extend_from_slice(&((region + handles.len()) as i32).to_le_bytes());
    data.extend_from_slice(&((region * 8) as i32).to_le_bytes());
    data.extend(main);
    data.extend(handles);
    data.extend_from_slice(&[0u8; 18]);
    let values = DwgHeaderReader::new(v, data).read(0).unwrap();
    assert_eq!(values.handle_seed, 0x2A);
    assert_eq!(values.before_seed.len(), 95);
    assert_eq!(values.after_seed.len(), 200 + 52);
    assert!(matches!(&values.after_seed[0], FieldValue::Handle(0x10)));
    assert!(matches!(&values.before_seed[4], FieldValue::Text(t) if t.is_empty()));
}

/// An R2000 file whose header section is `header`.
fn ac15_file_with_header(header: &[u8]) -> Vec<u8> {
    let mut f = b"AC1015".to_vec();
    f.extend_from_slice(&[0, 0, 0, 0, 0, 3, 1]);
    f.extend_from_slice(&0x200i32.to_le_bytes());
    f.extend_from_slice(&[0, 0]);
    f.extend_from_slice(&30u16.to_le_bytes());
    f.extend_from_slice(&1i32.to_le_bytes());
    f.push(0);
    f.extend_from_slice(&100i32.to_le_bytes());
    f.extend_from_slice(&(header.len() as i32).to_le_bytes());
    f.extend_from_slice(&[0, 0]);
    f.extend_from_slice(&[0u8; 16]);
    f.resize(100, 0);
    f.extend_from_slice(header);
    f
}

#[test]
fn dwg_reader_reads_the_header_section() {
    let mut r = DwgReader::from_reader(ac15_file_with_header(&r2000_header())).unwrap();
    r.read_file_header().unwrap();
    let values = r.read_header().unwrap();
    assert_eq!(values.handle_seed, 0x2A);
    assert_eq!(values.before_seed.len(), 89);

    let mut r = DwgReader::from_reader(ac15_file_with_header(&[1, 2, 3, 4])).unwrap();
    r.read_file_header().unwrap();
    assert_eq!(r.read_header().err(), Some(DxfError::UnexpectedEof));
}

fn stored_place(p: &[bool], k: usize) -> usize {
    p[..k].iter().filter(|b| **b).count()
}

fn initial_variables() -> HeaderVariables {
    HeaderVariables {
        linear_unit_precision: 4,
        angular_unit_precision: 0,
        isolines: 4,
        text_quality: 50,
        facet_resolution: 0.5f64.to_bits(),
        current_line_weight: -1,
        end_caps: 0,
        join_style: 0,
        lineweight_display: false,
        xedit: false,
        extended_names: false,
        plotstyle_mode: false,
        ole_startup: false,
        handle_seed: 0,
    }
}

#[test]
fn header_variables_check_ranges_and_split_the_flags() {
    let v = DxfVersion::AC1015;
    let mut values = DwgHeaderReader::new(v, r2000_header()).read(0).unwrap();
    let bp = before_seed_stored_list(v);
    values.before_seed[stored_place(&bp, LINEAR_UNIT_PRECISION_AT)] = FieldValue::Short(9);
    values.before_seed[stored_place(&bp, ANGULAR_UNIT_PRECISION_AT)] = FieldValue::Short(3);
    values.before_seed[stored_place(&bp, ISOLINES_AT)] = FieldValue::Short(2048);
    values.before_seed[stored_place(&bp, TEXT_QUALITY_AT)] = FieldValue::Short(100);
    values.before_seed[stored_place(&bp, FACET_RESOLUTION_AT)] = FieldValue::Double(10.0f64.to_bits());
    let ap = after_seed_stored_list(v);
    values.after_seed[stored_place(&ap, FLAGS_AT)] = FieldValue::Long(0x1F | 0x40 | 0x200 | 0x800 | 0x4000);
    let h = header_variables(initial_variables(), v, &values);
    assert_eq!(h.linear_unit_precision, 4);
    assert_eq!(h.angular_unit_precision, 3);
    assert_eq!(h.isolines, 4);
    assert_eq!(h.text_quality, 100);
    assert_eq!(f64::from_bits(h.facet_resolution), 10.0);
    assert_eq!(h.current_line_weight, 0x1F);
    assert_eq!(h.end_caps, 0x40);
    assert_eq!(h.join_style, 0);
    assert!(!h.lineweight_display);
    assert!(h.xedit);
    assert!(h.extended_names);
    assert!(!h.plotstyle_mode);
    assert!(h.ole_startup);
    assert_eq!(h.handle_seed, 0x2A);
}

#[test]
fn header_variables_keep_a_facet_resolution_out_of_range() {
    let v = DxfVersion::AC1015;
    let mut values = DwgHeaderReader::new(v, r2000_header()).read(0).unwrap();
    let bp = before_seed_stored_list(v);
    values.before_seed[stored_place(&bp, FACET_RESOLUTION_AT)] = FieldValue::Double((-1.0f64).to_bits());
    let h = header_variables(initial_variables(), v, &values);
    assert_eq!(f64::from_bits(h.facet_resolution), 0.5);
    // The zero flags word: line weight 0, display and xedit on.
    assert_eq!(h.current_line_weight, 0);
    assert!(h.lineweight_display);
    assert!(h.xedit);
    assert_eq!(h.linear_unit_precision, 0);
}

#[test]
fn header_handles_are_named() {
    let v = DxfVersion::AC1015;
    let values = DwgHeaderReader::new(v, r2000_header()).read(0).unwrap();
    let hs = header_handles(v, &values.after_seed);
    assert_eq!(hs.cpsnid, Some(0x77));
    assert_eq!(hs.clayer, Some(0));
    assert_eq!(hs.cmaterial, None);
}

#[test]
fn header_does_not_depend_on_the_start_sentinel() {
    let a = r2000_header();
    let mut b = a.clone();
    for (i, x) in b.iter_mut().take(16).enumerate() {
        *x = i as u8;
    }
    let va = DwgHeaderReader::new(DxfVersion::AC1015, a).read(0).unwrap();
    let vb = DwgHeaderReader::new(DxfVersion::AC1015, b).read(0).unwrap();
    assert_eq!(va.handle_seed, vb.handle_seed);
    assert_eq!(va.before_seed.len(), vb.before_seed.len());
    assert_eq!(va.after_seed.len(), vb.after_seed.len());
    assert_eq!(format!("{:?}", va.before_seed), format!("{:?}", vb.before_seed));
    assert_eq!(format!("{:?}", va.after_seed), format!("{:?}", vb.after_seed));
}

/// An R2000 file with the sections header (`header`), classes (none) and
/// handles, whose handle map gives handle 0x77 the location `location`
/// (a signed modular char, as stored).
fn ac15_file_with_objects(header: &[u8], location: &[u8]) -> Vec<u8> {
    let mut classes = vec![0u8; 16];
    classes.extend_from_slice(&0i32.to_le_bytes());
    classes.extend_from_slice(&[0, 0]);
    classes.extend_from_slice(&[0u8; 16]);
    let mut handles = vec![0x00, (2 + 1 + location.len()) as u8, 0x77];
    handles.extend_from_slice(location);
    handles.extend_from_slice(&[0xAA, 0xBB, 0x00, 0x02]);
    let header_at = 100i32;
    let classes_at = header_at + header.len() as i32;
    let handles_at = classes_at + classes.len() as i32;
    let mut f = b"AC1015".to_vec();
    f.extend_from_slice(&[0, 0, 0, 0, 0, 3, 1]);
    f.extend_from_slice(&0x200i32.to_le_bytes());
    f.extend_from_slice(&[0, 0]);
    f.extend_from_slice(&30u16.to_le_bytes());
    f.extend_from_slice(&3i32.to_le_bytes());
    for (number, at, len) in [(0u8, header_at, header.len()), (1, classes_at, classes.len()), (2, handles_at, handles.len())] {
        f.push(number);
        f.extend_from_slice(&at.to_le_bytes());
        f.extend_from_slice(&(len as i32).to_le_bytes());
    }
    f.extend_from_slice(&[0, 0]);
    f.extend_from_slice(&[0u8; 16]);
    f.resize(100, 0);
    f.extend_from_slice(header);
    f.extend(classes);
    f.extend(handles);
    f
}

#[test]
fn dwg_reader_reads_the_objects_the_header_leads_to() {
    // Handle 0x77 (the current plot style of the header) lies at byte 60,
    // where an empty object stands: it is read and gives no template.
    let mut r = DwgReader::from_reader(ac15_file_with_objects(&r2000_header(), &[0x3C])).unwrap();
    r.read_file_header().unwrap();
    let (values, classes, templates) = r.read_objects().unwrap();
    assert_eq!(values.handle_seed, 0x2A);
    assert!(classes.is_empty());
    assert!(templates.is_empty());
}

#[test]
fn dwg_reader_object_failure_is_returned_when_not_failsafe() {
    // Handle 0x77 lies at byte 8000, past the end of the file.
    let mut r = DwgReader::from_reader(ac15_file_with_objects(&r2000_header(), &[0xC0, 0x3E])).unwrap();
    r.read_file_header().unwrap();
    assert_eq!(r.read_objects().err(), Some(DxfError::UnexpectedEof));
}

/// The kind of the variable at place `k` of a list whose stored entries
/// are `p`, read with the layout `kinds`, when it is stored.
fn kind_at(p: &[bool], kinds: &[FieldKind], k: usize) -> Option<FieldKind> {
    if p[k] { Some(kinds[stored_place(p, k)]) } else { None }
}

#[test]
fn named_places_hold_their_kinds_in_every_version() {
    let versions = [DxfVersion::AC1012, DxfVersion::AC1014, DxfVersion::AC1015, DxfVersion::AC1018,
        DxfVersion::AC1021, DxfVersion::AC1024, DxfVersion::AC1027, DxfVersion::AC1032];
    let handle_places = [0usize, 1, 2, 3, 4, 5, 30, 31, 33, 75, 76, 78, 128, 200, 201, 202, 203, 204, 205, 206,
        207, 210, 211, 212, 213, 214, 215, 216, 217, 218, 219, 220, 221, 222, 227, 228, 229, 230, 231, 232, 233,
        237, 251, 252, 253, 254, 255, 285, 286, 287];
    for v in versions {
        let bp = before_seed_stored_list(v);
        let bk = header_before_seed_fields(v);
        assert_eq!(bp.iter().filter(|b| **b).count(), bk.len());
        for k in [LINEAR_UNIT_PRECISION_AT, ANGULAR_UNIT_PRECISION_AT, ISOLINES_AT, TEXT_QUALITY_AT] {
            assert!(matches!(kind_at(&bp, &bk, k), None | Some(FieldKind::BitShort)));
        }
        assert!(matches!(kind_at(&bp, &bk, FACET_RESOLUTION_AT), None | Some(FieldKind::BitDouble)));
        for plot in [false, true] {
            let mut p = after_seed_stored_list(v);
            p.push(plot);
            p.extend(tail_stored_list(v));
            let mut ks = header_after_seed_fields(v);
            if plot {
                ks.push(FieldKind::Handle);
            }
            ks.extend(header_tail_fields(v));
            assert_eq!(p.iter().filter(|b| **b).count(), ks.len());
            assert!(matches!(kind_at(&p, &ks, FLAGS_AT), None | Some(FieldKind::BitLong)));
            assert!(matches!(kind_at(&p, &ks, PLOT_STYLE_TYPE_AT), None | Some(FieldKind::BitShort)));
            for k in handle_places {
                assert!(matches!(kind_at(&p, &ks, k), None | Some(FieldKind::Handle)), "version {:?} place {}", v, k);
            }
        }
    }
}

#[test]
fn header_variables_by_name() {
    let v = DxfVersion::AC1015;
    let mut values = DwgHeaderReader::new(v, r2000_header()).read(0).unwrap();
    let bp = before_seed_stored_list(v);
    values.before_seed[stored_place(&bp, LINEAR_UNIT_PRECISION_AT)] = FieldValue::Short(9);
    assert!(matches!(header_value_of(v, &values, HeaderVar::LinearUnitPrecision), Some(FieldValue::Short(9))));
    assert!(matches!(header_value_of(v, &values, HeaderVar::CurrentPlotstyleType), Some(FieldValue::Short(3))));
    // Stored before R2000 only.
    assert!(header_value_of(v, &values, HeaderVar::BlipMode).is_none());
    assert!(header_value_of(DxfVersion::AC1014, &values, HeaderVar::BlipMode).is_some());
    // Stored from R2007 on only.
    assert!(header_value_of(v, &values, HeaderVar::CameraDisplay).is_none());
    assert!(matches!(header_value_of(v, &values, HeaderVar::DimTolerance), Some(FieldValue::Bool(false))));
}
