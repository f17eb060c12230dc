//! The `AcDb:Classes` section: the DXF classes of the custom objects and
//! entities of the drawing.
//!
//! Before R2007 a class is read from one stream.  From R2007 on the texts
//! of the classes are in a string stream at the end of the section data,
//! found from a flag bit (see [`spec_string_stream_start`]); the other
//! values stay in the main stream.

use vstd::prelude::*;
use crate::bit_model::{BitCursor, spec_next_byte, valid_cursor, spec_read_bit, spec_read_bit_short, spec_read_bit_long,
    spec_read_raw_long, spec_read_byte, spec_read_bytes, raw_remaining, bits_left, spec_next_bytes};
use crate::encoding::TextEncoding;
use crate::error::DxfError;
use crate::section_io::SectionIO;
use crate::sentinels::{classes_start, classes_end};
use crate::stream_reader::{DwgStreamReaderBase, get_stream_handler, cursor_at, bits_cursor, position_after_bits,
    spec_string_stream_start};
use crate::stream_values::{or_eof, bit_long_error, spec_read_variable_text, r2007_plus};
use crate::version::{DxfVersion, version_rank};

verus! {

/// A DXF class: the description of a custom object or entity type.
#[derive(Debug, Clone)]
pub struct DxfClass {
    /// The class number.
    pub class_number: i16,
    /// The proxy capability flags.
    pub proxy_flags: u16,
    /// The application that defines the class.
    pub application_name: String,
    /// The C++ class name.
    pub cpp_class_name: String,
    /// The DXF record name.
    pub dxf_name: String,
    /// Whether the class was a zombie.
    pub was_zombie: bool,
    /// The item class id: 0x1F2 for entities, 0x1F3 for objects.
    pub item_class_id: i16,
    /// Whether the class is an entity (`item_class_id == 0x1F2`).
    pub is_an_entity: bool,
    /// The number of instances (R2004 and later).
    pub instance_count: i32,
    /// The DWG version of the class (R2004 and later).
    pub dwg_version: i32,
    /// The maintenance version of the class (R2004 and later).
    pub maintenance_version: i16,
}

/// The content of a [`DxfClass`].
pub struct DxfClassModel {
    pub class_number: i16,
    pub proxy_flags: u16,
    pub application_name: Seq<char>,
    pub cpp_class_name: Seq<char>,
    pub dxf_name: Seq<char>,
    pub was_zombie: bool,
    pub item_class_id: i16,
    pub is_an_entity: bool,
    pub instance_count: i32,
    pub dwg_version: i32,
    pub maintenance_version: i16,
}

impl View for DxfClass {
    type V = DxfClassModel;

    open spec fn view(&self) -> DxfClassModel {
        DxfClassModel {
            class_number: self.class_number,
            proxy_flags: self.proxy_flags,
            application_name: self.application_name@,
            cpp_class_name: self.cpp_class_name@,
            dxf_name: self.dxf_name@,
            was_zombie: self.was_zombie,
            item_class_id: self.item_class_id,
            is_an_entity: self.is_an_entity,
            instance_count: self.instance_count,
            dwg_version: self.dwg_version,
            maintenance_version: self.maintenance_version,
        }
    }
}

/// A BitLong read, with its error.
pub open spec fn bit_long_result(c: BitCursor) -> Result<(int, BitCursor), DxfError> {
    match spec_read_bit_long(c) {
        Some(x) => Ok(x),
        None => Err(bit_long_error(c)),
    }
}

/// A text of a class: from the text stream `ct` when the streams are
/// merged, else from the main stream `cm`.
pub open spec fn spec_class_text(cm: BitCursor, ct: BitCursor, merged: bool, v: DxfVersion)
    -> Result<(Seq<char>, BitCursor, BitCursor), DxfError>
{
    if merged {
        match spec_read_variable_text(ct, v, TextEncoding::Windows1252) {
            Err(e) => Err(e),
            Ok((s, ct1)) => Ok((s, cm, ct1)),
        }
    } else {
        match spec_read_variable_text(cm, v, TextEncoding::Windows1252) {
            Err(e) => Err(e),
            Ok((s, cm1)) => Ok((s, cm1, ct)),
        }
    }
}

/// The R2004 tail of a class: the instance count, the DWG version, the
/// maintenance version (a BitLong kept to 16 bits) and two unused BitLongs.
pub open spec fn spec_class_tail(cm: BitCursor, m: DxfClassModel) -> Result<(DxfClassModel, BitCursor), DxfError> {
    match bit_long_result(cm) {
        Err(e) => Err(e),
        Ok((count, c1)) => match bit_long_result(c1) {
            Err(e) => Err(e),
            Ok((dwg, c2)) => match bit_long_result(c2) {
                Err(e) => Err(e),
                Ok((maint, c3)) => match bit_long_result(c3) {
                    Err(e) => Err(e),
                    Ok((_, c4)) => match bit_long_result(c4) {
                        Err(e) => Err(e),
                        Ok((_, c5)) => Ok((DxfClassModel {
                            instance_count: count as i32,
                            dwg_version: dwg as i32,
                            maintenance_version: maint as i16,
                            ..m
                        }, c5)),
                    },
                },
            },
        },
    }
}

/// One class: the class number and the proxy flags (BitShorts), the
/// application, C++ and DXF names (texts), the zombie bit, the item class
/// id (BitShort), and from R2004 on the tail.
#[verifier::opaque]
pub open spec fn spec_read_class(cm: BitCursor, ct: BitCursor, merged: bool, v: DxfVersion, r2004: bool)
    -> Result<(DxfClassModel, BitCursor, BitCursor), DxfError>
{
    match or_eof(spec_read_bit_short(cm)) {
        Err(e) => Err(e),
        Ok((number, c1)) => match or_eof(spec_read_bit_short(c1)) {
            Err(e) => Err(e),
            Ok((flags, c2)) => match spec_class_text(c2, ct, merged, v) {
                Err(e) => Err(e),
                Ok((app, c3, t3)) => match spec_class_text(c3, t3, merged, v) {
                    Err(e) => Err(e),
                    Ok((cpp, c4, t4)) => match spec_class_text(c4, t4, merged, v) {
                        Err(e) => Err(e),
                        Ok((dxf, c5, t5)) => {
                            let (zombie, c6) = spec_read_bit(c5);
                            match or_eof(spec_read_bit_short(c6)) {
                                Err(e) => Err(e),
                                Ok((item, c7)) => {
                                    let m = DxfClassModel {
                                        class_number: number as i16,
                                        proxy_flags: number_to_flags(flags),
                                        application_name: app,
                                        cpp_class_name: cpp,
                                        dxf_name: dxf,
                                        was_zombie: zombie,
                                        item_class_id: item as i16,
                                        is_an_entity: item == 0x1F2,
                                        instance_count: 0,
                                        dwg_version: 0,
                                        maintenance_version: 0,
                                    };
                                    if r2004 {
                                        match spec_class_tail(c7, m) {
                                            Err(e) => Err(e),
                                            Ok((m2, c8)) => Ok((m2, c8, t5)),
                                        }
                                    } else {
                                        Ok((m, c7, t5))
                                    }
                                },
                            }
                        },
                    },
                },
            },
        },
    }
}

/// The proxy flags of a BitShort value (its 16 bits, unsigned).
pub open spec fn number_to_flags(v: int) -> u16 {
    (v as i16) as u16
}

/// Whether the class list goes on: the position of the main stream (in
/// bits, or in bytes) is before `end`.
pub open spec fn class_list_continues(len: nat, c: BitCursor, end: int, in_bits: bool) -> bool {
    if in_bits {
        len * 8 - bits_left(c) < end
    } else {
        len - raw_remaining(c) < end
    }
}

/// The classes read while the main stream is before `end`, appended to
/// `acc`.  A class that does not move the main stream forward is refused.
#[verifier::opaque]
pub open spec fn spec_class_list(cm: BitCursor, ct: BitCursor, merged: bool, v: DxfVersion, r2004: bool,
    len: nat, end: int, in_bits: bool, acc: Seq<DxfClassModel>) -> Result<(Seq<DxfClassModel>, BitCursor), DxfError>
    decreases (if raw_remaining(cm) >= 0 { raw_remaining(cm) } else { 0 }) as nat,
{
    if !class_list_continues(len, cm, end, in_bits) {
        Ok((acc, cm))
    } else {
        match spec_read_class(cm, ct, merged, v, r2004) {
            Err(e) => Err(e),
            Ok((class, cm2, ct2)) => if raw_remaining(cm2) < 0 || raw_remaining(cm2) >= raw_remaining(cm) {
                Err(DxfError::InvalidFormat)
            } else {
                spec_class_list(cm2, ct2, merged, v, r2004, len, end, in_bits, acc.push(class))
            },
        }
    }
}

/// One step of the class list.
proof fn lemma_class_list_step(cm: BitCursor, ct: BitCursor, merged: bool, v: DxfVersion, r2004: bool,
    len: nat, end: int, in_bits: bool, acc: Seq<DxfClassModel>)
    ensures
        spec_class_list(cm, ct, merged, v, r2004, len, end, in_bits, acc) == (if !class_list_continues(len, cm, end, in_bits) {
            Ok((acc, cm))
        } else {
            match spec_read_class(cm, ct, merged, v, r2004) {
                Err(e) => Err(e),
                Ok((class, cm2, ct2)) => if raw_remaining(cm2) < 0 || raw_remaining(cm2) >= raw_remaining(cm) {
                    Err(DxfError::InvalidFormat)
                } else {
                    spec_class_list(cm2, ct2, merged, v, r2004, len, end, in_bits, acc.push(class))
                },
            }
        }),
{
    reveal_with_fuel(spec_class_list, 1);
}

/// The end of the section at byte position `pos`: the partly read byte is
/// dropped, two bytes are skipped and the end sentinel follows.
pub open spec fn spec_classes_end(data: Seq<u8>, pos: nat) -> Result<(), DxfError> {
    let c = spec_next_bytes(cursor_at(data, pos, 0), 2).1;
    match or_eof(spec_read_bytes(c, 16)) {
        Err(e) => Err(e),
        Ok(_) => Ok(()),
    }
}

/// Whether `v` is R2004 or later.
pub open spec fn r2004_plus(v: DxfVersion) -> bool {
    version_rank(v) >= version_rank(DxfVersion::AC1018)
}

/// The text stream of a reader whose texts are in its main stream.
pub open spec fn no_text_stream() -> BitCursor {
    BitCursor { bytes: Seq::empty(), shift: 0 }
}

/// The classes before R2007, from `c` (after the size): R2004 files have
/// a BitShort, two bytes and a bit first; then the classes up to byte
/// `size` after `c`.
pub open spec fn spec_classes_r18(data: Seq<u8>, c: BitCursor, size: int, v: DxfVersion) -> Result<Seq<DxfClassModel>, DxfError> {
    let len = data.len();
    let end = (len - raw_remaining(c)) + size;
    let pre = if v == DxfVersion::AC1018 {
        match or_eof(spec_read_bit_short(c)) {
            Err(e) => Err(e),
            Ok((_, c1)) => match or_eof(spec_read_byte(c1)) {
                Err(e) => Err(e),
                Ok((_, c2)) => match or_eof(spec_read_byte(c2)) {
                    Err(e) => Err(e),
                    Ok((_, c3)) => Ok(spec_read_bit(c3).1),
                },
            },
        }
    } else {
        Ok(c)
    };
    match pre {
        Err(e) => Err(e),
        Ok(c4) => match spec_class_list(c4, no_text_stream(), false, v, r2004_plus(v), len, end, false, Seq::empty()) {
            Err(e) => Err(e),
            Ok((list, c5)) => match spec_classes_end(data, (len - raw_remaining(c5)) as nat) {
                Err(e) => Err(e),
                Ok(_) => Ok(list),
            },
        },
    }
}

/// The classes from R2007 on, from `c` (after the size): a raw long gives
/// the size in bits of the main data, which ends one bit before; the
/// string stream is found from there.  A BitLong and a bit precede the
/// classes, which run up to the string stream; the end sentinel follows
/// the main data.
pub open spec fn spec_classes_r2007(data: Seq<u8>, c: BitCursor, v: DxfVersion) -> Result<Seq<DxfClassModel>, DxfError> {
    let len = data.len();
    let start_bits = len * 8 - bits_left(c);
    match or_eof(spec_read_raw_long(c)) {
        Err(e) => Err(e),
        Ok((size_bits, c1)) => {
            let flag_pos = start_bits + size_bits - 1;
            let saved = len * 8 - bits_left(c1);
            match spec_string_stream_start(data, flag_pos as i64) {
                Err(e) => Err(e),
                Ok(start) => {
                    let end = match start { Some(s) => s as i64, None => flag_pos as i64 };
                    let cm = bits_cursor(data, saved as i64);
                    let ct = bits_cursor(data, end);
                    match bit_long_result(cm) {
                        Err(e) => Err(e),
                        Ok((_, cm1)) => match spec_class_list(spec_read_bit(cm1).1, ct, true, v, r2004_plus(v), len, end as int, true, Seq::empty()) {
                            Err(e) => Err(e),
                            Ok((list, _)) => match spec_classes_end(data, position_after_bits(len, (flag_pos + 1) as i64)) {
                                Err(e) => Err(e),
                                Ok(_) => Ok(list),
                            },
                        },
                    }
                },
            }
        },
    }
}

/// Whether the section has an extra raw long after its size: R2010 files
/// of maintenance version above 3, and files after R2013.
pub open spec fn has_extra_long(fhv: DxfVersion, fhmv: u8) -> bool {
    (version_rank(fhv) >= version_rank(DxfVersion::AC1024) && fhmv > 3) || version_rank(fhv) > version_rank(DxfVersion::AC1027)
}

/// The classes of the section `data` of a `v` file whose file header has
/// version `fhv` and maintenance version `fhmv`: a start sentinel, a raw
/// long size, maybe an extra raw long, then the classes.
pub open spec fn spec_classes(data: Seq<u8>, v: DxfVersion, fhv: DxfVersion, fhmv: u8) -> Result<Seq<DxfClassModel>, DxfError> {
    let c0 = BitCursor { bytes: data, shift: 0 };
    match or_eof(spec_read_bytes(c0, 16)) {
        Err(e) => Err(e),
        Ok((_, c1)) => match or_eof(spec_read_raw_long(c1)) {
            Err(e) => Err(e),
            Ok((size, c2)) => {
                let c3 = if has_extra_long(fhv, fhmv) {
                    match or_eof(spec_read_raw_long(c2)) {
                        Err(e) => Err(e),
                        Ok((_, c)) => Ok(c),
                    }
                } else {
                    Ok(c2)
                };
                match c3 {
                    Err(e) => Err(e),
                    Ok(c4) => if r2007_plus(v) {
                        spec_classes_r2007(data, c4, v)
                    } else {
                        spec_classes_r18(data, c4, size, v)
                    },
                }
            },
        },
    }
}

/// The bit position of a reader at byte position `len - raw_remaining(c)`.
proof fn lemma_bit_position(len: nat, c: BitCursor)
    requires
        valid_cursor(c),
    ensures
        (len - raw_remaining(c)) * 8 + (if c.shift > 0 { c.shift - 8 } else { 0 }) == len * 8 - bits_left(c),
{
}

/// A reader moved to a non-negative bit position within its data is at
/// the byte position that its unread stream tells.
proof fn lemma_position_after_bits(data: Seq<u8>, p: i64)
    requires
        0 <= p <= data.len() * 8,
    ensures
        position_after_bits(data.len(), p) == data.len() - raw_remaining(bits_cursor(data, p)),
        position_after_bits(data.len(), p) <= data.len(),
        valid_cursor(bits_cursor(data, p)),
{
    assert(p >= 0 ==> (p >> 3u64) == p / 8 && (p & 7i64) == p % 8) by (bit_vector);
}

/// Reader of the `AcDb:Classes` section.
pub struct DwgClassesReader {
    data: Vec<u8>,
    version: DxfVersion,
    file_header_version: DxfVersion,
    file_header_maintenance_version: u8,
}

impl DwgClassesReader {
    /// The section data.
    pub closed spec fn data(&self) -> Seq<u8> {
        self.data@
    }

    /// The version of the file.
    pub closed spec fn spec_version(&self) -> DxfVersion {
        self.version
    }

    /// The version the file header gives.
    pub closed spec fn spec_file_header_version(&self) -> DxfVersion {
        self.file_header_version
    }

    /// The maintenance version the file header gives.
    pub closed spec fn spec_file_header_maintenance_version(&self) -> u8 {
        self.file_header_maintenance_version
    }

    /// A reader of the section `data` (already decompressed) of a
    /// `version` file, with the version and maintenance version of its
    /// file header.
    pub fn new(version: DxfVersion, data: Vec<u8>, file_header_version: DxfVersion,
        file_header_maintenance_version: u8) -> (r: Self)
        ensures
            r.data() == data@,
            r.spec_version() == version,
            r.spec_file_header_version() == file_header_version,
            r.spec_file_header_maintenance_version() == file_header_maintenance_version,
    {
        DwgClassesReader { data, version, file_header_version, file_header_maintenance_version }
    }

    /// The version of the file.
    pub fn version(&self) -> (r: DxfVersion)
        ensures
            r == self.spec_version(),
    {
        self.version
    }

    /// Read the classes, in the order of the section.  The sentinels are
    /// read but their content is not checked.
    pub fn read(&self) -> (r: Result<Vec<DxfClass>, DxfError>)
        requires
            self.data().len() * 8 + 0x1_0000_0000 <= i64::MAX,
        ensures
            spec_classes(self.data(), self.spec_version(), self.spec_file_header_version(),
                self.spec_file_header_maintenance_version()) == (match r {
                Ok(list) => Ok(list@.map_values(|c: DxfClass| c@)),
                Err(e) => Err(e),
            }),
    {
        let data = self.data.clone();
        assert(data@ =~= self.data@);
        let mut reader = get_stream_handler(self.version, data);
        let sio = SectionIO::new(self.version);
        let sentinel = reader.read_sentinel()?;
        let _ = SectionIO::check_sentinel(&sentinel, &classes_start());
        let size = reader.read_raw_long()?;
        if (self.file_header_version.at_least(DxfVersion::AC1024) && self.file_header_maintenance_version > 3)
            || DxfVersion::AC1027.before(self.file_header_version) {
            reader.read_raw_long()?;
        }
        if sio.r2007_plus {
            self.read_r2007(reader)
        } else {
            self.read_r18(reader, size)
        }
    }

    /// Read the classes of a file before R2007.
    fn read_r18(&self, reader: DwgStreamReaderBase, size: i32) -> (r: Result<Vec<DxfClass>, DxfError>)
        requires
            self.data().len() * 8 + 0x1_0000_0000 <= i64::MAX,
            reader.data() == self.data(),
            reader.spec_version() == self.spec_version(),
            reader.spec_encoding() == TextEncoding::Windows1252,
            reader.spec_position() == self.data().len() - raw_remaining(reader.cursor()),
            valid_cursor(reader.cursor()),
        ensures
            spec_classes_r18(self.data(), reader.cursor(), size as int, self.spec_version()) == (match r {
                Ok(list) => Ok(list@.map_values(|c: DxfClass| c@)),
                Err(e) => Err(e),
            }),
    {
        let mut reader = reader;
        let end_section: i64 = reader.position() as i64 + size as i64;
        if self.version.same_as(DxfVersion::AC1018) {
            reader.read_bit_short()?;
            reader.read_raw_char()?;
            reader.read_raw_char()?;
            reader.read_bit()?;
        }
        let mut no_text = DwgStreamReaderBase::new(Vec::new(), self.version);
        assert(no_text.cursor() == no_text_stream());
        let r2004 = self.version.at_least(DxfVersion::AC1018);
        let list = Self::read_class_list(&mut reader, &mut no_text, false, end_section, false, r2004)?;
        reader.reset_shift()?;
        let sentinel = reader.read_sentinel()?;
        let _ = SectionIO::check_sentinel(&sentinel, &classes_end());
        Ok(list)
    }

    /// Read the classes of an R2007 or later file.
    #[verifier::rlimit(40)]
    fn read_r2007(&self, reader: DwgStreamReaderBase) -> (r: Result<Vec<DxfClass>, DxfError>)
        requires
            self.data().len() * 8 + 0x1_0000_0000 <= i64::MAX,
            reader.data() == self.data(),
            reader.spec_version() == self.spec_version(),
            reader.spec_encoding() == TextEncoding::Windows1252,
            reader.spec_position() == self.data().len() - raw_remaining(reader.cursor()),
            valid_cursor(reader.cursor()),
        ensures
            spec_classes_r2007(self.data(), reader.cursor(), self.spec_version()) == (match r {
                Ok(list) => Ok(list@.map_values(|c: DxfClass| c@)),
                Err(e) => Err(e),
            }),
    {
        let ghost data = self.data@;
        let ghost len = data.len();
        let mut reader = reader;
        proof { lemma_bit_position(len, reader.cursor()); }
        let a = reader.position_in_bits();
        let ghost r0 = reader;
        let l = reader.read_raw_long()?;
        proof {
            r0.lemma_cursor_bounds();
            reader.lemma_cursor_bounds();
            lemma_bit_position(len, reader.cursor());
        }
        let flag_pos: i64 = a + l as i64 - 1;
        let saved = reader.position_in_bits();
        let end_section = reader.set_position_by_flag(flag_pos)?;
        reader.set_position_in_bits(saved);
        proof { lemma_position_after_bits(data, saved); }
        let data2 = self.data.clone();
        assert(data2@ =~= self.data@);
        let mut text_reader = get_stream_handler(self.version, data2);
        text_reader.set_position_in_bits(end_section);
        let ghost r1 = reader;
        reader.read_bit_long()?;
        let ghost r2 = reader;
        reader.read_bit()?;
        proof {
            r1.lemma_cursor_bounds();
            r2.lemma_cursor_bounds();
            reader.lemma_cursor_bounds();
        }
        let r2004 = self.version.at_least(DxfVersion::AC1018);
        let list = Self::read_class_list(&mut reader, &mut text_reader, true, end_section, true, r2004)?;
        reader.set_position_in_bits(flag_pos + 1);
        reader.reset_shift()?;
        let sentinel = reader.read_sentinel()?;
        let _ = SectionIO::check_sentinel(&sentinel, &classes_end());
        Ok(list)
    }

    /// Read the classes while the main stream is before `end` (a bit
    /// position when `in_bits`, else a byte position).
    fn read_class_list(main: &mut DwgStreamReaderBase, text: &mut DwgStreamReaderBase, merged: bool, end: i64,
        in_bits: bool, r2004: bool) -> (r: Result<Vec<DxfClass>, DxfError>)
        requires
            old(main).data().len() * 8 + 0x1_0000_0000 <= i64::MAX,
            old(main).spec_position() == old(main).data().len() - raw_remaining(old(main).cursor()),
            valid_cursor(old(main).cursor()),
            old(main).spec_encoding() == TextEncoding::Windows1252,
            old(text).spec_encoding() == TextEncoding::Windows1252,
            old(text).spec_version() == old(main).spec_version(),
            r2004 == r2004_plus(old(main).spec_version()),
        ensures
            spec_class_list(old(main).cursor(), old(text).cursor(), merged, old(main).spec_version(), r2004,
                old(main).data().len(), end as int, in_bits, Seq::empty()) == (match r {
                Ok(list) => Ok((list@.map_values(|c: DxfClass| c@), final(main).cursor())),
                Err(e) => Err(e),
            }),
            old(main).same_source(final(main)),
            r is Ok ==> final(main).spec_position() == final(main).data().len() - raw_remaining(final(main).cursor()),
    {
        let ghost s0 = *main;
        let ghost t0 = *text;
        let ghost len = main.data().len();
        let ghost v = main.spec_version();
        let mut list: Vec<DxfClass> = Vec::new();
        proof {
            assert(list@.map_values(|c: DxfClass| c@) =~= Seq::<DxfClassModel>::empty());
        }
        loop
            invariant
                s0 == *old(main),
                t0 == *old(text),
                s0.same_source(main),
                len == main.data().len(),
                v == main.spec_version(),
                len * 8 + 0x1_0000_0000 <= i64::MAX,
                main.spec_position() == len - raw_remaining(main.cursor()),
                valid_cursor(main.cursor()),
                main.spec_encoding() == TextEncoding::Windows1252,
                text.spec_encoding() == TextEncoding::Windows1252,
                text.spec_version() == v,
                r2004 == r2004_plus(v),
                spec_class_list(s0.cursor(), t0.cursor(), merged, v, r2004, len, end as int, in_bits, Seq::empty())
                    == spec_class_list(main.cursor(), text.cursor(), merged, v, r2004, len, end as int, in_bits,
                        list@.map_values(|c: DxfClass| c@)),
            decreases raw_remaining(main.cursor()),
        {
            proof { lemma_bit_position(len, main.cursor()); }
            let cont = if in_bits {
                main.position_in_bits() < end
            } else {
                (main.position() as i64) < end
            };
            if !cont {
                proof {
                    lemma_class_list_step(main.cursor(), text.cursor(), merged, v, r2004, len, end as int, in_bits,
                        list@.map_values(|c: DxfClass| c@));
                }
                return Ok(list);
            }
            let before = main.position();
            let ghost cm = main.cursor();
            let ghost ct = text.cursor();
            let ghost acc = list@.map_values(|c: DxfClass| c@);
            proof {
                lemma_class_list_step(cm, ct, merged, v, r2004, len, end as int, in_bits, acc);
                assert(class_list_continues(len, cm, end as int, in_bits));
            }
            let ghost mid = *main;
            let class = Self::read_class(main, text, merged, r2004)?;
            proof {
                main.lemma_cursor_bounds();
                mid.lemma_cursor_bounds();
            }
            if main.position() <= before {
                return Err(DxfError::InvalidFormat);
            }
            proof {
                assert(list@.push(class).map_values(|c: DxfClass| c@) =~= list@.map_values(|c: DxfClass| c@).push(class@));
            }
            list.push(class);
        }
    }

    /// Read a text of a class from the text stream when merged, else from
    /// the main stream.
    fn read_text(main: &mut DwgStreamReaderBase, text: &mut DwgStreamReaderBase, merged: bool) -> (r: Result<String, DxfError>)
        ensures
            spec_class_text(old(main).cursor(), old(text).cursor(), merged, old(main).spec_version()) == (match r {
                Ok(s) => Ok((s@, final(main).cursor(), final(text).cursor())),
                Err(e) => Err(e),
            }) || !(old(main).spec_encoding() == TextEncoding::Windows1252
                && old(text).spec_encoding() == TextEncoding::Windows1252
                && old(text).spec_version() == old(main).spec_version()),
            old(main).same_source(final(main)),
            old(text).same_source(final(text)),
            merged ==> *final(main) == *old(main),
            !merged ==> *final(text) == *old(text),
            !merged && r is Ok ==> old(main).moved_to(final(main), final(main).cursor()),
    {
        if merged {
            text.read_variable_text()
        } else {
            main.read_variable_text()
        }
    }

    /// Read one class.
    #[verifier::rlimit(40)]
    fn read_class(main: &mut DwgStreamReaderBase, text: &mut DwgStreamReaderBase, merged: bool, r2004: bool)
        -> (r: Result<DxfClass, DxfError>)
        requires
            old(main).spec_encoding() == TextEncoding::Windows1252,
            old(text).spec_encoding() == TextEncoding::Windows1252,
            old(text).spec_version() == old(main).spec_version(),
        ensures
            spec_read_class(old(main).cursor(), old(text).cursor(), merged, old(main).spec_version(), r2004)
                == (match r {
                Ok(c) => Ok((c@, final(main).cursor(), final(text).cursor())),
                Err(e) => Err(e),
            }),
            old(main).same_source(final(main)),
            old(text).same_source(final(text)),
            r is Ok ==> old(main).moved_to(final(main), final(main).cursor()),
    {
        proof { reveal(spec_read_class); }
        let ghost s0 = *main;
        let number = main.read_bit_short()?;
        let ghost s1 = *main;
        let flags = main.read_bit_short()?;
        proof { DwgStreamReaderBase::lemma_moved_trans(&s0, &s1, main, s1.cursor(), main.cursor()); }
        let ghost s2 = *main;
        let application_name = Self::read_text(main, text, merged)?;
        proof { if !merged { DwgStreamReaderBase::lemma_moved_trans(&s0, &s2, main, s2.cursor(), main.cursor()); } }
        let ghost s3 = *main;
        let cpp_class_name = Self::read_text(main, text, merged)?;
        proof { if !merged { DwgStreamReaderBase::lemma_moved_trans(&s0, &s3, main, s3.cursor(), main.cursor()); } }
        let ghost s4 = *main;
        let dxf_name = Self::read_text(main, text, merged)?;
        proof { if !merged { DwgStreamReaderBase::lemma_moved_trans(&s0, &s4, main, s4.cursor(), main.cursor()); } }
        let ghost s5 = *main;
        let was_zombie = main.read_bit()?;
        proof { DwgStreamReaderBase::lemma_moved_trans(&s0, &s5, main, s5.cursor(), main.cursor()); }
        let ghost s6 = *main;
        let item_class_id = main.read_bit_short()?;
        proof { DwgStreamReaderBase::lemma_moved_trans(&s0, &s6, main, s6.cursor(), main.cursor()); }
        let mut class = DxfClass {
            class_number: number,
            proxy_flags: number_flags(flags),
            application_name,
            cpp_class_name,
            dxf_name,
            was_zombie,
            item_class_id,
            is_an_entity: item_class_id == 0x1F2,
            instance_count: 0,
            dwg_version: 0,
            maintenance_version: 0,
        };
        if r2004 {
            let ghost s7 = *main;
            class = Self::read_tail(main, class)?;
            proof { DwgStreamReaderBase::lemma_moved_trans(&s0, &s7, main, s7.cursor(), main.cursor()); }
        }
        Ok(class)
    }

    /// Read the R2004 tail of a class.
    fn read_tail(main: &mut DwgStreamReaderBase, class: DxfClass) -> (r: Result<DxfClass, DxfError>)
        ensures
            spec_class_tail(old(main).cursor(), class@) == (match r {
                Ok(c) => Ok((c@, final(main).cursor())),
                Err(e) => Err(e),
            }),
            old(main).same_source(final(main)),
            r is Ok ==> old(main).moved_to(final(main), final(main).cursor()),
    {
        let ghost s0 = *main;
        let mut class = class;
        class.instance_count = main.read_bit_long()?;
        let ghost s1 = *main;
        class.dwg_version = main.read_bit_long()?;
        proof { DwgStreamReaderBase::lemma_moved_trans(&s0, &s1, main, s1.cursor(), main.cursor()); }
        let ghost s2 = *main;
        let maint = main.read_bit_long()?;
        proof { DwgStreamReaderBase::lemma_moved_trans(&s0, &s2, main, s2.cursor(), main.cursor()); }
        class.maintenance_version = #[verifier::truncate] (maint as i16);
        let ghost s3 = *main;
        main.read_bit_long()?;
        proof { DwgStreamReaderBase::lemma_moved_trans(&s0, &s3, main, s3.cursor(), main.cursor()); }
        let ghost s4 = *main;
        main.read_bit_long()?;
        proof { DwgStreamReaderBase::lemma_moved_trans(&s0, &s4, main, s4.cursor(), main.cursor()); }
        Ok(class)
    }
}

/// The proxy flags of a BitShort value.
fn number_flags(v: i16) -> (r: u16)
    ensures
        r == number_to_flags(v as int),
{
    v as u16
}


/// Skipping bytes leaves a cursor whose length and shift depend only on
/// the length and shift it started from.
pub(crate) proof fn lemma_next_bytes_shape(a: BitCursor, b: BitCursor, n: nat)
    requires
        a.bytes.len() == b.bytes.len(),
        a.shift == b.shift,
    ensures
        spec_next_bytes(a, n).1.bytes.len() == spec_next_bytes(b, n).1.bytes.len(),
        spec_next_bytes(a, n).1.shift == spec_next_bytes(b, n).1.shift,
    decreases n,
{
    if n > 0 {
        lemma_next_bytes_shape(spec_next_byte(a).1, spec_next_byte(b).1, (n - 1) as nat);
    }
}

/// Whether the end sentinel can be read depends on the length of the
/// data alone.
proof fn lemma_classes_end_len(d1: Seq<u8>, d2: Seq<u8>, pos: nat)
    requires
        d1.len() == d2.len(),
    ensures
        spec_classes_end(d1, pos) == spec_classes_end(d2, pos),
{
    lemma_next_bytes_shape(cursor_at(d1, pos, 0), cursor_at(d2, pos, 0), 2);
}

/// The start sentinel does not change the classes read: before R2007,
/// two sections that differ only in their first sixteen bytes give the
/// same classes, or the same error.
pub proof fn lemma_classes_ignore_start_sentinel(d1: Seq<u8>, d2: Seq<u8>, v: DxfVersion, fhv: DxfVersion,
    fhmv: u8)
    requires
        d1.len() == d2.len(),
        forall|i: int| 16 <= i < d1.len() ==> d1[i] == d2[i],
        !r2007_plus(v),
    ensures
        spec_classes(d1, v, fhv, fhmv) == spec_classes(d2, v, fhv, fhmv),
{
    if d1.len() >= 16 {
        assert(d1.skip(16) =~= d2.skip(16));
    }
    assert forall|pos: nat| spec_classes_end(d1, pos) == spec_classes_end(d2, pos) by {
        lemma_classes_end_len(d1, d2, pos);
    }
}

/// The R2004 tail of a class is five BitLongs in a row: the instance
/// count is the first, the DWG version the second, the maintenance
/// version the third (kept to 16 bits), the last two are skipped; the
/// other fields of the class are kept.  It fails exactly when one of the
/// five cannot be read.
pub proof fn lemma_class_tail_reads(c: BitCursor, m: DxfClassModel)
    ensures
        match spec_read_bit_long(c) {
            None => spec_class_tail(c, m) is Err,
            Some((a, c1)) => match spec_read_bit_long(c1) {
                None => spec_class_tail(c, m) is Err,
                Some((b, c2)) => match spec_read_bit_long(c2) {
                    None => spec_class_tail(c, m) is Err,
                    Some((mv, c3)) => match spec_read_bit_long(c3) {
                        None => spec_class_tail(c, m) is Err,
                        Some((_, c4)) => match spec_read_bit_long(c4) {
                            None => spec_class_tail(c, m) is Err,
                            Some((_, c5)) => spec_class_tail(c, m) == Ok::<(DxfClassModel, BitCursor), DxfError>((
                                DxfClassModel {
                                    class_number: m.class_number,
                                    proxy_flags: m.proxy_flags,
                                    application_name: m.application_name,
                                    cpp_class_name: m.cpp_class_name,
                                    dxf_name: m.dxf_name,
                                    was_zombie: m.was_zombie,
                                    item_class_id: m.item_class_id,
                                    is_an_entity: m.is_an_entity,
                                    instance_count: a as i32,
                                    dwg_version: b as i32,
                                    maintenance_version: mv as i16,
                                }, c5)),
                        },
                    },
                },
            },
        },
{
}

/// A text of a class comes from the text stream when the streams are
/// merged, from the main stream otherwise; the other stream stays.
pub proof fn lemma_class_text_stream(cm: BitCursor, ct: BitCursor, merged: bool, v: DxfVersion)
    ensures
        merged ==> match spec_read_variable_text(ct, v, TextEncoding::Windows1252) {
            Err(e) => spec_class_text(cm, ct, merged, v) == Err::<(Seq<char>, BitCursor, BitCursor), DxfError>(e),
            Ok((s, ct1)) => spec_class_text(cm, ct, merged, v)
                == Ok::<(Seq<char>, BitCursor, BitCursor), DxfError>((s, cm, ct1)),
        },
        !merged ==> match spec_read_variable_text(cm, v, TextEncoding::Windows1252) {
            Err(e) => spec_class_text(cm, ct, merged, v) == Err::<(Seq<char>, BitCursor, BitCursor), DxfError>(e),
            Ok((s, cm1)) => spec_class_text(cm, ct, merged, v)
                == Ok::<(Seq<char>, BitCursor, BitCursor), DxfError>((s, cm1, ct)),
        },
{
}

/// The fields of a class, against the reads in order: the class number
/// (BitShort), the proxy flags (BitShort), the application, C++ and DXF
/// names (class texts), the zombie bit and the item class id (BitShort),
/// which makes it an entity class when it is 0x1F2; before R2004 the
/// counts and versions are 0.
pub proof fn lemma_read_class_fields(cm: BitCursor, ct: BitCursor, merged: bool, v: DxfVersion, r2004: bool)
    ensures
        match spec_read_bit_short(cm) {
            None => spec_read_class(cm, ct, merged, v, r2004) is Err,
            Some((n, c1)) => match spec_read_bit_short(c1) {
                None => spec_read_class(cm, ct, merged, v, r2004) is Err,
                Some((f, c2)) => match spec_class_text(c2, ct, merged, v) {
                    Err(_) => spec_read_class(cm, ct, merged, v, r2004) is Err,
                    Ok((app, c3, t3)) => match spec_class_text(c3, t3, merged, v) {
                        Err(_) => spec_read_class(cm, ct, merged, v, r2004) is Err,
                        Ok((cpp, c4, t4)) => match spec_class_text(c4, t4, merged, v) {
                            Err(_) => spec_read_class(cm, ct, merged, v, r2004) is Err,
                            Ok((dxf, c5, t5)) => match spec_read_bit_short(spec_read_bit(c5).1) {
                                None => spec_read_class(cm, ct, merged, v, r2004) is Err,
                                Some((item, c7)) => match spec_read_class(cm, ct, merged, v, r2004) {
                                    Err(_) => r2004,
                                    Ok((k, c8, tf)) => {
                                        &&& k.class_number == n as i16
                                        &&& k.proxy_flags == number_to_flags(f)
                                        &&& k.application_name == app
                                        &&& k.cpp_class_name == cpp
                                        &&& k.dxf_name == dxf
                                        &&& k.was_zombie == spec_read_bit(c5).0
                                        &&& k.item_class_id == item as i16
                                        &&& k.is_an_entity == (item == 0x1F2)
                                        &&& tf == t5
                                        &&& !r2004 ==> (k.instance_count == 0 && k.dwg_version == 0
                                            && k.maintenance_version == 0 && c8 == c7)
                                    },
                                },
                            },
                        },
                    },
                },
            },
        },
{
    reveal(spec_read_class);
}
} // verus!
