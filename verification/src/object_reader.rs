//! The object reader of the `AcDb:AcDbObjects` section.
//!
//! Objects are stored in any order and found through the handle map
//! (handle to byte offset).  The reader keeps a queue of handles to read,
//! the set of handles already read and the set of handles that have a
//! template already; a handle is queued only when it is in neither set.
//!
//! The data of one object starts with its size (a modular short) and,
//! from R2010 on, the size in bits of its handle stream (a modular char);
//! then comes its type code.  The data is split into three streams: the
//! object data, the strings (found back from the end of the data, R2007
//! and later) and the handles.

use vstd::prelude::*;
use std::collections::{HashMap, HashSet, VecDeque};
use crate::bit_model::{BitCursor, bits_left, valid_cursor, raw_remaining, next_position, spec_read_raw_long,
    spec_read_bit, spec_read_2bits, spec_read_bit_short, spec_read_bit_long, spec_read_bit_long_long,
    spec_read_bit_double, spec_read_byte, spec_read_raw_double};
use crate::classes_reader::{DxfClass, DxfClassModel};
use crate::encoding::TextEncoding;
use crate::error::DxfError;
use crate::notification::{Notification, NotificationType};
use crate::reference_type::DwgReferenceType;
use crate::section_io::{SectionIO, flags_of_version};
use crate::stream_reader::{DwgStreamReaderBase, get_stream_handler, bits_cursor, position_after_bits,
    spec_string_stream_start, lemma_bit_position_roundtrip};
use crate::stream_set::StreamSet;
use crate::object_common::{XDataValue, XDataGroup, edata_model, values_model, spec_extended_data,
    groups_with_prefix, lemma_groups_prefix_push, read_xdata_values, spec_handle_list, read_handle_list, spec_advance};
use crate::templates::{EDataTemplate, CadTemplateCommon, CadEntityTemplateData, CadTemplate, TableControlType,
    CadTableTemplateData, CadDictionaryTemplateData, CadDictWithDefaultTemplateData, CadGroupTemplateData};
use crate::color::{DwgColor, DwgTransparency, spec_read_en_color, spec_read_cm_color};
use crate::stream_values::{spec_read_modular_short, spec_read_modular_char, spec_read_object_type,
    spec_handle_reference, spec_read_variable_text, lemma_modular_short_shift, lemma_modular_char_shift, bit_long_error, bit_double_error,
    spec_bit_extrusion, spec_read_bit_thickness, flagged_double_error, spec_3bit_double};
use crate::version::{DxfVersion, version_rank};

verus! {

broadcast use vstd::std_specs::hash::group_hash_axioms;

/// The largest data the reader takes: its length must fit in a `usize`
/// and bit positions, with the bits of an object's size added, in an
/// `i64`.
pub open spec fn data_fits(len: nat) -> bool {
    &&& len <= usize::MAX
    &&& len * 8 + 0x10_0000_0000 <= i64::MAX
}

/// The classes by class number; a later class replaces an earlier one
/// with the same number.
pub open spec fn class_map_of(classes: Seq<DxfClassModel>) -> Map<i16, DxfClassModel>
    decreases classes.len(),
{
    if classes.len() == 0 {
        Map::empty()
    } else {
        class_map_of(classes.drop_last()).insert(classes.last().class_number, classes.last())
    }
}

/// The stream of `data` from byte `offset` (taken as unsigned; past the
/// end, the empty stream).
pub open spec fn object_cursor(data: Seq<u8>, offset: i64) -> BitCursor {
    let p = offset as u64;
    BitCursor { bytes: data.skip(if p <= data.len() { p as int } else { data.len() as int }), shift: 0 }
}

/// The whole of `data` as a stream.
pub open spec fn data_start(data: Seq<u8>) -> BitCursor {
    BitCursor { bytes: data, shift: 0 }
}

/// The bit position of the stream `c` in data of `len` bytes.
pub open spec fn bit_position(len: nat, c: BitCursor) -> int {
    len * 8 - bits_left(c)
}

/// The string stream of an object found at `start` (`None`: absent, the
/// reader is then at the end of the data and marked empty): its stream,
/// the byte position of its reader, and whether it is marked empty.
pub open spec fn text_stream(data: Seq<u8>, start: Option<int>) -> (BitCursor, nat, bool) {
    match start {
        Some(st) => (bits_cursor(data, st as i64), position_after_bits(data.len(), st as i64), false),
        None => (BitCursor { bytes: Seq::empty(), shift: 0 }, data.len(), true),
    }
}

/// The three streams of an object: each unread stream with the byte
/// position of its reader, whether the string stream was found absent,
/// and how the streams are read.
pub struct StreamsModel {
    pub object: BitCursor,
    pub object_pos: nat,
    pub text: BitCursor,
    pub text_pos: nat,
    pub text_empty: bool,
    pub handles: BitCursor,
    pub handles_pos: nat,
    pub merged: bool,
    pub separate_text: bool,
}

/// `r` reads `data` of version `v` (code-page text as Windows-1252) from
/// the stream `c`, at byte position `p`.
pub open spec fn reads_at(r: DwgStreamReaderBase, data: Seq<u8>, v: DxfVersion, c: BitCursor, p: nat) -> bool {
    &&& r.data() == data
    &&& r.spec_version() == v
    &&& r.spec_encoding() == TextEncoding::Windows1252
    &&& r.cursor() == c
    &&& r.spec_position() == p
}

/// The three readers of `s` read `data` of version `v`, code-page text
/// as Windows-1252.
pub open spec fn streams_of(s: StreamSet, data: Seq<u8>, v: DxfVersion) -> bool {
    &&& s.object_reader.data() == data
    &&& s.object_reader.spec_version() == v
    &&& s.object_reader.spec_encoding() == TextEncoding::Windows1252
    &&& s.text_reader.data() == data
    &&& s.text_reader.spec_version() == v
    &&& s.text_reader.spec_encoding() == TextEncoding::Windows1252
    &&& s.handles_reader.data() == data
    &&& s.handles_reader.spec_version() == v
    &&& s.handles_reader.spec_encoding() == TextEncoding::Windows1252
}

/// The streams of `s`.
pub open spec fn model_of(s: StreamSet) -> StreamsModel {
    StreamsModel {
        object: s.object_reader.cursor(),
        object_pos: s.object_reader.spec_position(),
        text: s.text_reader.cursor(),
        text_pos: s.text_reader.spec_position(),
        text_empty: s.text_reader.spec_is_empty(),
        handles: s.handles_reader.cursor(),
        handles_pos: s.handles_reader.spec_position(),
        merged: s.merged,
        separate_text: s.has_separate_text_reader,
    }
}

/// The stream set `s` is set up as `m` describes, over `data` of `v`,
/// for an object whose handle is not known yet.
pub open spec fn streams_match(s: StreamSet, m: StreamsModel, data: Seq<u8>, v: DxfVersion) -> bool {
    &&& streams_of(s, data, v)
    &&& model_of(s) == m
    &&& !s.object_reader.spec_is_empty()
    &&& !s.handles_reader.spec_is_empty()
    &&& s.current_handle == 0
}

/// `m` after the object data is read up to stream `c` (data of `len` bytes).
pub open spec fn on_object(m: StreamsModel, len: nat, c: BitCursor) -> StreamsModel {
    StreamsModel { object: c, object_pos: next_position(m.object_pos, len, c), ..m }
}

/// `m` after the handles are read up to stream `c` (data of `len` bytes).
pub open spec fn on_handles(m: StreamsModel, len: nat, c: BitCursor) -> StreamsModel {
    StreamsModel { handles: c, handles_pos: next_position(m.handles_pos, len, c), ..m }
}

/// The streams `m` of an object of `data` (version `v`, data starting at
/// bit `init`) once its handle stream is set up: the object data gives its
/// size in bits (a raw long), and the handles start where the data ends;
/// for R2007 the string stream is found back from the bit before.  The
/// streams are then read merged.
pub open spec fn spec_update_streams(m: StreamsModel, data: Seq<u8>, v: DxfVersion, init: int)
    -> Result<StreamsModel, DxfError>
{
    let len = data.len();
    match spec_read_raw_long(m.object) {
        None => Err(DxfError::UnexpectedEof),
        Some((size, c1)) => {
            let end = size + init;
            let m1 = StreamsModel {
                object: c1,
                object_pos: next_position(m.object_pos, len, c1),
                handles: bits_cursor(data, end as i64),
                handles_pos: position_after_bits(len, end as i64),
                merged: true,
                ..m
            };
            if v == DxfVersion::AC1021 {
                match spec_string_stream_start(data, (end - 1) as i64) {
                    Err(e) => Err(e),
                    Ok(start) => {
                        let (tc, tp, te) = text_stream(data, start);
                        Ok(StreamsModel { text: tc, text_pos: tp, text_empty: te, separate_text: true, ..m1 })
                    },
                }
            } else {
                Ok(m1)
            }
        },
    }
}

/// The type code of the object data from bit `pos`, the stream after it
/// and the byte position of its reader.
pub open spec fn spec_object_stream(data: Seq<u8>, v: DxfVersion, pos: int) -> Option<(int, BitCursor, nat)> {
    match spec_read_object_type(bits_cursor(data, pos as i64), v) {
        None => None,
        Some((t, oc)) => Some((t, oc, next_position(position_after_bits(data.len(), pos as i64), data.len(), oc))),
    }
}

/// The header of the object at byte `offset` of `data` for version `v`:
/// the size the reader records, the start of the object data it records,
/// and the type code with the streams of the object.
///
/// The size is a modular short; a size of zero gives the code -1 and no
/// streams.  Before R2010 the object data follows the size, and the string
/// and handle streams start at the beginning of the data (they are set up
/// later, from the object data).  From R2010 on a modular char follows,
/// the size in bits of the handle stream, which ends where the object
/// ends: the handle stream starts at the end of the object less that size
/// (a handle stream larger than that is refused), and the string stream
/// is found back from the bit before it.
pub open spec fn spec_entity_type(data: Seq<u8>, v: DxfVersion, offset: i64)
    -> (Option<u32>, Option<int>, Result<(int, Option<StreamsModel>), DxfError>)
{
    let len = data.len();
    match spec_read_modular_short(object_cursor(data, offset)) {
        Err(e) => (None, None, Err(e)),
        Ok((ms, c1)) => {
            let size = ms as u32;
            if size == 0 {
                (Some(size), None, Ok((-1, None)))
            } else if version_rank(v) >= version_rank(DxfVersion::AC1024) {
                match spec_read_modular_char(c1) {
                    Err(e) => (Some(size), None, Err(e)),
                    Ok((hs, c2)) => {
                        let pos = bit_position(len, c2);
                        let hso = pos + size * 8 - hs;
                        if hso < 0 {
                            (Some(size), None, Err(DxfError::InvalidFormat))
                        } else {
                            match spec_object_stream(data, v, pos) {
                                None => (Some(size), Some(pos), Err(DxfError::UnexpectedEof)),
                                Some((t, oc, op)) => match spec_string_stream_start(data, (hso - 1) as i64) {
                                    Err(e) => (Some(size), Some(pos), Err(e)),
                                    Ok(start) => {
                                        let (tc, tp, te) = text_stream(data, start);
                                        (Some(size), Some(pos), Ok((t, Some(StreamsModel {
                                            object: oc,
                                            object_pos: op,
                                            text: tc,
                                            text_pos: tp,
                                            text_empty: te,
                                            handles: bits_cursor(data, hso as i64),
                                            handles_pos: position_after_bits(len, hso as i64),
                                            merged: true,
                                            separate_text: true,
                                        }))))
                                    },
                                },
                            }
                        }
                    },
                }
            } else {
                let pos = bit_position(len, c1);
                match spec_object_stream(data, v, pos) {
                    None => (Some(size), Some(pos), Err(DxfError::UnexpectedEof)),
                    Some((t, oc, op)) => (Some(size), Some(pos), Ok((t, Some(StreamsModel {
                        object: oc,
                        object_pos: op,
                        text: data_start(data),
                        text_pos: 0,
                        text_empty: false,
                        handles: data_start(data),
                        handles_pos: 0,
                        merged: false,
                        separate_text: false,
                    })))),
                }
            }
        },
    }
}

/// Whether `v` is `min` or later.
pub open spec fn from_version(v: DxfVersion, min: DxfVersion) -> bool {
    version_rank(v) >= version_rank(min)
}

/// Whether `v` is R13 or R14.
pub open spec fn r13_14(v: DxfVersion) -> bool {
    v == DxfVersion::AC1012 || v == DxfVersion::AC1014
}

/// The xref-dependent flag of a table entry, read from `c` for version
/// `v`: from R2007 on bit `0x100` of a BitShort (the xref index); before,
/// a bit (referenced), a BitShort (xref index plus one) and the flag bit.
pub open spec fn spec_xref_dependant(c: BitCursor, v: DxfVersion) -> Result<(bool, BitCursor), DxfError> {
    if from_version(v, DxfVersion::AC1021) {
        match spec_read_bit_short(c) {
            None => Err(DxfError::UnexpectedEof),
            Some((x, c1)) => Ok((((x as i16) & 0x100i16) != 0, c1)),
        }
    } else {
        match spec_read_bit_short(spec_read_bit(c).1) {
            None => Err(DxfError::UnexpectedEof),
            Some((_, c2)) => Ok(spec_read_bit(c2)),
        }
    }
}

/// The reactors and the extended dictionary of an entity, read from the
/// streams `m` (object data of `olen` bytes, handles of `hlen` bytes) for
/// version `v`: a BitLong count (taken as a `usize`; more than 10000 is
/// refused as a stream out of step), from R2004 on a bit saying that there
/// is no extended dictionary, from R2013 on a bit (unused); then the
/// reactor handles and, unless it is missing, the dictionary handle (0
/// when missing).
pub open spec fn spec_reactors(m: StreamsModel, olen: nat, hlen: nat, v: DxfVersion)
    -> Result<((Seq<u64>, u64), StreamsModel), DxfError>
{
    match spec_read_bit_long(m.object) {
        None => Err(bit_long_error(m.object)),
        Some((nr, c1)) => {
            let count = ((nr as i32) as usize) as nat;
            let m1 = on_object(m, olen, c1);
            if count > 10000 {
                Err(DxfError::InvalidFormat)
            } else {
                let (missing, m2) = if from_version(v, DxfVersion::AC1018) {
                    let (b, c2) = spec_read_bit(m1.object);
                    (b, on_object(m1, olen, c2))
                } else {
                    (false, m1)
                };
                let m3 = if from_version(v, DxfVersion::AC1027) {
                    on_object(m2, olen, spec_read_bit(m2.object).1)
                } else {
                    m2
                };
                match spec_handle_list(m3.handles, m3.handles_pos, hlen, 0, count) {
                    Err(e) => Err(e),
                    Ok((hs, ch, hp)) => {
                        let m4 = StreamsModel { handles: ch, handles_pos: hp, ..m3 };
                        if missing {
                            Ok(((hs, 0), m4))
                        } else {
                            match spec_handle_reference(m4.handles, 0) {
                                Err(e) => Err(e),
                                Ok(((x, _), ch2)) => Ok(((hs, x), on_handles(m4, hlen, ch2))),
                            }
                        }
                    },
                }
            }
        },
    }
}

/// The common fields of an object template.
pub struct CommonModel {
    pub handle: u64,
    pub owner: u64,
    pub reactors: Seq<u64>,
    pub xdict: u64,
    pub edata: Seq<XDataGroup>,
}

/// The content of the common fields `t`.
pub open spec fn common_model(t: CadTemplateCommon<XDataValue>) -> CommonModel {
    CommonModel {
        handle: t.handle,
        owner: t.owner_handle,
        reactors: t.reactor_handles@,
        xdict: t.xdict_handle,
        edata: edata_model(t.edata),
    }
}

/// The common data of a non-graphical object read from the streams `m`
/// of `data` (version `v`, object data starting at bit `init`): from R2000
/// to R2007 the handle stream is set up first; then the handle and the
/// extended data from the object data; for R13 and R14 the handle stream
/// is set up then; a BitLong reactor count (taken as a `usize`), from
/// R2004 on the "no extended dictionary" bit, from R2013 on an unused bit;
/// from the handle stream the owner, the reactors and, unless missing,
/// the extended dictionary.
#[verifier::opaque]
pub open spec fn spec_common_non_entity(m: StreamsModel, data: Seq<u8>, v: DxfVersion, init: int)
    -> Result<(CommonModel, StreamsModel), DxfError>
{
    match spec_object_head(m, data, v, init) {
        Err(e) => Err(e),
        Ok(((h, ed), m3)) => {
            let pre2 = if r13_14(v) { spec_update_streams(m3, data, v, init) } else { Ok(m3) };
            match pre2 {
                Err(e) => Err(e),
                Ok(m4) => spec_non_entity_tail(m4, data.len(), v, h, ed),
            }
        },
    }
}

/// The start of the common data of an object, read from the streams `m`
/// of `data` (version `v`, object data starting at bit `init`): from
/// R2000 to R2007 the handle stream is set up first; then the handle of
/// the object and its extended data, from the object data.
pub open spec fn spec_object_head(m: StreamsModel, data: Seq<u8>, v: DxfVersion, init: int)
    -> Result<((u64, Seq<XDataGroup>), StreamsModel), DxfError>
{
    let pre = if from_version(v, DxfVersion::AC1015) && !from_version(v, DxfVersion::AC1024) {
        spec_update_streams(m, data, v, init)
    } else {
        Ok(m)
    };
    match pre {
        Err(e) => Err(e),
        Ok(m1) => match spec_handle_reference(m1.object, 0) {
            Err(e) => Err(e),
            Ok(((h, _), c2)) => {
                let m2 = on_object(m1, data.len(), c2);
                match spec_extended_data(data, m2.object, m2.object_pos) {
                    Err(e) => Err(e),
                    Ok((ed, c3, p3)) => Ok(((h, ed), StreamsModel { object: c3, object_pos: p3, ..m2 })),
                }
            },
        },
    }
}

/// The end of the common data of a non-graphical object (see
/// [`spec_common_non_entity`]), from the reactor count on.
pub open spec fn spec_non_entity_tail(m4: StreamsModel, len: nat, v: DxfVersion, h: u64, ed: Seq<XDataGroup>)
    -> Result<(CommonModel, StreamsModel), DxfError>
{
    match spec_read_bit_long(m4.object) {
        None => Err(bit_long_error(m4.object)),
        Some((nr, c5)) => {
            let count = ((nr as i32) as usize) as nat;
            let m5 = on_object(m4, len, c5);
            let (missing, m6) = if from_version(v, DxfVersion::AC1018) {
                let (b, c6) = spec_read_bit(m5.object);
                (b, on_object(m5, len, c6))
            } else {
                (false, m5)
            };
            let m7 = if from_version(v, DxfVersion::AC1027) {
                on_object(m6, len, spec_read_bit(m6.object).1)
            } else {
                m6
            };
            match spec_handle_reference(m7.handles, 0) {
                Err(e) => Err(e),
                Ok(((owner, _), c8)) => {
                    let m8 = on_handles(m7, len, c8);
                    match spec_handle_list(m8.handles, m8.handles_pos, len, 0, count) {
                        Err(e) => Err(e),
                        Ok((rs, c9, p9)) => {
                            let m9 = StreamsModel { handles: c9, handles_pos: p9, ..m8 };
                            if missing {
                                Ok((CommonModel { handle: h, owner, reactors: rs, xdict: 0, edata: ed }, m9))
                            } else {
                                match spec_handle_reference(m9.handles, 0) {
                                    Err(e) => Err(e),
                                    Ok(((x, _), c10)) => Ok((CommonModel { handle: h, owner, reactors: rs, xdict: x, edata: ed },
                                        on_handles(m9, len, c10))),
                                }
                            }
                        },
                    }
                },
            }
        },
    }
}

/// The display properties common to every entity, as read.
#[derive(Debug, Clone, Copy, PartialEq, Eq, Structural)]
pub struct EntityCommon {
    /// The handle of the entity.
    pub handle: u64,
    /// The color.
    pub color: DwgColor,
    /// The transparency.
    pub transparency: DwgTransparency,
    /// Whether the entity is invisible.
    pub invisible: bool,
    /// The stored lineweight code (R2000 and later).
    pub line_weight: Option<u8>,
}

/// The graphics of an entity skipped, from the streams `m` of `data`
/// (version `v`): a bit says whether there are any; their size follows, a
/// BitLongLong from R2010 on and a raw long before (taken as a `usize`),
/// and the reader skips that many bytes.
pub open spec fn spec_entity_graphics(m: StreamsModel, data: Seq<u8>, v: DxfVersion) -> Result<StreamsModel, DxfError> {
    let len = data.len();
    let (present, c1) = spec_read_bit(m.object);
    let m1 = on_object(m, len, c1);
    if !present {
        Ok(m1)
    } else if from_version(v, DxfVersion::AC1024) {
        match spec_read_bit_long_long(m1.object) {
            None => Err(DxfError::UnexpectedEof),
            Some((n, c2)) => {
                let m2 = on_object(m1, len, c2);
                let (c3, p3) = spec_advance(data, m2.object, m2.object_pos, ((n as i64) as usize) as nat);
                Ok(StreamsModel { object: c3, object_pos: p3, ..m2 })
            },
        }
    } else {
        match spec_read_raw_long(m1.object) {
            None => Err(DxfError::UnexpectedEof),
            Some((n, c2)) => {
                let m2 = on_object(m1, len, c2);
                let (c3, p3) = spec_advance(data, m2.object, m2.object_pos, ((n as i32) as usize) as nat);
                Ok(StreamsModel { object: c3, object_pos: p3, ..m2 })
            },
        }
    }
}

/// A handle reference (resolved against 0) read from the handle stream of
/// `m` (data of `len` bytes).
pub open spec fn spec_next_handle(m: StreamsModel, len: nat) -> Result<(u64, StreamsModel), DxfError> {
    match spec_handle_reference(m.handles, 0) {
        Err(e) => Err(e),
        Ok(((h, _), c)) => Ok((h, on_handles(m, len, c))),
    }
}

/// The entity mode (two bits), the owner handle when the mode is 0, and
/// the reactors and extended dictionary (see [`spec_reactors`]).
pub open spec fn spec_entity_owner(m: StreamsModel, len: nat, v: DxfVersion)
    -> Result<((u8, u64, Seq<u64>, u64), StreamsModel), DxfError>
{
    let (mode, c1) = spec_read_2bits(m.object);
    let m1 = on_object(m, len, c1);
    let owner = if mode == 0 { spec_next_handle(m1, len) } else { Ok((0u64, m1)) };
    match owner {
        Err(e) => Err(e),
        Ok((o, m2)) => match spec_reactors(m2, len, len, v) {
            Err(e) => Err(e),
            Ok(((rs, x), m3)) => Ok(((mode as u8, o, rs, x), m3)),
        },
    }
}

/// For R13 and R14 the layer handle, a bit saying the linetype is by
/// layer and otherwise its handle; before R2004 a bit saying there are no
/// links and otherwise the previous and next entity handles.
pub open spec fn spec_entity_links(m: StreamsModel, len: nat, v: DxfVersion, ent: CadEntityTemplateData)
    -> Result<(CadEntityTemplateData, StreamsModel), DxfError>
{
    let first = if r13_14(v) {
        match spec_next_handle(m, len) {
            Err(e) => Err(e),
            Ok((layer, m1)) => {
                let (by_layer, c2) = spec_read_bit(m1.object);
                let m2 = on_object(m1, len, c2);
                if by_layer {
                    Ok((CadEntityTemplateData { layer_handle: layer, ..ent }, m2))
                } else {
                    match spec_next_handle(m2, len) {
                        Err(e) => Err(e),
                        Ok((lt, m3)) => Ok((CadEntityTemplateData { layer_handle: layer, linetype_handle: lt, ..ent }, m3)),
                    }
                }
            },
        }
    } else {
        Ok((ent, m))
    };
    match first {
        Err(e) => Err(e),
        Ok((ent1, m4)) => if !from_version(v, DxfVersion::AC1018) {
            let (no_links, c5) = spec_read_bit(m4.object);
            let m5 = on_object(m4, len, c5);
            if no_links {
                Ok((ent1, m5))
            } else {
                match spec_next_handle(m5, len) {
                    Err(e) => Err(e),
                    Ok((prev, m6)) => match spec_next_handle(m6, len) {
                        Err(e) => Err(e),
                        Ok((next, m7)) => Ok((CadEntityTemplateData { prev_entity: prev, next_entity: next, ..ent1 }, m7)),
                    },
                }
            }
        } else {
            Ok((ent1, m4))
        },
    }
}

/// The entity color and transparency (see `spec_read_en_color`), from
/// R2004 on the color-book handle when the color refers to a book, and
/// the linetype scale (a BitDouble, unused).
pub open spec fn spec_entity_color(m: StreamsModel, len: nat, v: DxfVersion, ent: CadEntityTemplateData)
    -> Result<((DwgColor, DwgTransparency), CadEntityTemplateData, StreamsModel), DxfError>
{
    match spec_read_en_color(m.object, v) {
        Err(e) => Err(e),
        Ok(((color, transparency, book), c1)) => {
            let m1 = on_object(m, len, c1);
            let with_book = if from_version(v, DxfVersion::AC1018) && book {
                match spec_next_handle(m1, len) {
                    Err(e) => Err(e),
                    Ok((h, m2)) => Ok((CadEntityTemplateData { color_handle: h, ..ent }, m2)),
                }
            } else {
                Ok((ent, m1))
            };
            match with_book {
                Err(e) => Err(e),
                Ok((ent2, m3)) => match spec_read_bit_double(m3.object) {
                    None => Err(bit_double_error(m3.object)),
                    Some((_, c4)) => Ok(((color, transparency), ent2, on_object(m3, len, c4))),
                },
            }
        },
    }
}

/// A handle read from the handle stream when `flags` is 3 (0 otherwise).
pub open spec fn spec_flagged_handle(m: StreamsModel, len: nat, flags: nat) -> Result<(u64, StreamsModel), DxfError> {
    if flags == 3 { spec_next_handle(m, len) } else { Ok((0u64, m)) }
}

/// A handle read from the handle stream when `present` holds (its value
/// is not kept).
pub open spec fn spec_skipped_handle(m: StreamsModel, len: nat, present: bool) -> Result<StreamsModel, DxfError> {
    if present {
        match spec_next_handle(m, len) {
            Err(e) => Err(e),
            Ok((_, m1)) => Ok(m1),
        }
    } else {
        Ok(m)
    }
}

/// The layer handle, the linetype flags (two bits) and, for flags 3, the
/// linetype handle.
pub open spec fn spec_entity_linetype(m: StreamsModel, len: nat, ent: CadEntityTemplateData)
    -> Result<(CadEntityTemplateData, StreamsModel), DxfError>
{
    match spec_next_handle(m, len) {
        Err(e) => Err(e),
        Ok((layer, m1)) => {
            let (lt_flags, c2) = spec_read_2bits(m1.object);
            match spec_flagged_handle(on_object(m1, len, c2), len, lt_flags) {
                Err(e) => Err(e),
                Ok((lt, m3)) => Ok((CadEntityTemplateData {
                    layer_handle: layer,
                    ltype_flags: lt_flags as u8,
                    linetype_handle: if lt_flags == 3 { lt } else { ent.linetype_handle },
                    ..ent
                }, m3)),
            }
        },
    }
}

/// From R2007 on: the material flags (two bits) and, for 3, the material
/// handle, then the shadow flags (a byte, unused).
pub open spec fn spec_entity_material(m: StreamsModel, len: nat, v: DxfVersion, ent: CadEntityTemplateData)
    -> Result<(CadEntityTemplateData, StreamsModel), DxfError>
{
    if from_version(v, DxfVersion::AC1021) {
        let (mat_flags, c1) = spec_read_2bits(m.object);
        match spec_flagged_handle(on_object(m, len, c1), len, mat_flags) {
            Err(e) => Err(e),
            Ok((mat, m2)) => match spec_read_byte(m2.object) {
                None => Err(DxfError::UnexpectedEof),
                Some((_, c3)) => Ok((CadEntityTemplateData {
                    material_handle: if mat_flags == 3 { mat } else { ent.material_handle },
                    ..ent
                }, on_object(m2, len, c3))),
            },
        }
    } else {
        Ok((ent, m))
    }
}

/// The plot-style flags (two bits) and, for 3, the plot-style handle;
/// from R2010 on three bits saying whether the full, face and edge
/// visual-style handles follow (not kept).
pub open spec fn spec_entity_plotstyle(m: StreamsModel, len: nat, v: DxfVersion, ent: CadEntityTemplateData)
    -> Result<(CadEntityTemplateData, StreamsModel), DxfError>
{
    let (ps_flags, c1) = spec_read_2bits(m.object);
    match spec_flagged_handle(on_object(m, len, c1), len, ps_flags) {
        Err(e) => Err(e),
        Ok((ps, m2)) => {
            let ent2 = CadEntityTemplateData {
                plotstyle_handle: if ps_flags == 3 { ps } else { ent.plotstyle_handle },
                ..ent
            };
            if from_version(v, DxfVersion::AC1024) {
                let (full, c3) = spec_read_bit(m2.object);
                let (face, c4) = spec_read_bit(c3);
                let (edge, c5) = spec_read_bit(c4);
                let m3 = on_object(on_object(on_object(m2, len, c3), len, c4), len, c5);
                match spec_skipped_handle(m3, len, full) {
                    Err(e) => Err(e),
                    Ok(m4) => match spec_skipped_handle(m4, len, face) {
                        Err(e) => Err(e),
                        Ok(m5) => match spec_skipped_handle(m5, len, edge) {
                            Err(e) => Err(e),
                            Ok(m6) => Ok((ent2, m6)),
                        },
                    },
                }
            } else {
                Ok((ent2, m2))
            }
        },
    }
}

/// From R2000 on: the linetype part, the material part and the plot-style
/// part (see the three functions above).
pub open spec fn spec_entity_r2000(m: StreamsModel, len: nat, v: DxfVersion, ent: CadEntityTemplateData)
    -> Result<(CadEntityTemplateData, StreamsModel), DxfError>
{
    if !from_version(v, DxfVersion::AC1015) {
        Ok((ent, m))
    } else {
        match spec_entity_linetype(m, len, ent) {
            Err(e) => Err(e),
            Ok((ent1, m1)) => match spec_entity_material(m1, len, v, ent1) {
                Err(e) => Err(e),
                Ok((ent2, m2)) => spec_entity_plotstyle(m2, len, v, ent2),
            },
        }
    }
}

/// The invisibility flags (a BitShort; bit 0 is the flag) and, from R2000
/// on, the lineweight code (a byte).
pub open spec fn spec_entity_visibility(m: StreamsModel, len: nat, v: DxfVersion)
    -> Result<((bool, Option<u8>), StreamsModel), DxfError>
{
    match spec_read_bit_short(m.object) {
        None => Err(DxfError::UnexpectedEof),
        Some((flags, c1)) => {
            let invisible = ((flags as i16) & 1i16) != 0;
            let m1 = on_object(m, len, c1);
            if from_version(v, DxfVersion::AC1015) {
                match spec_read_byte(m1.object) {
                    None => Err(DxfError::UnexpectedEof),
                    Some((lw, c2)) => Ok(((invisible, Some(lw)), on_object(m1, len, c2))),
                }
            } else {
                Ok(((invisible, None), m1))
            }
        },
    }
}

/// An entity template with no handle set.
pub open spec fn empty_entity_data() -> CadEntityTemplateData {
    CadEntityTemplateData {
        entity_mode: 0,
        prev_entity: 0,
        next_entity: 0,
        layer_handle: 0,
        linetype_handle: 0,
        ltype_flags: 0,
        plotstyle_handle: 0,
        material_handle: 0,
        color_handle: 0,
    }
}

/// The common data of an entity read from the streams `m` of `data`
/// (version `v`, object data starting at bit `init`): the start (see
/// [`spec_object_head`]), the graphics skipped, for R13 and R14 the
/// handle stream set up, the owner part, the links, the color, the R2000
/// handles and the visibility (see the stage functions).
#[verifier::opaque]
pub open spec fn spec_common_entity(m: StreamsModel, data: Seq<u8>, v: DxfVersion, init: int)
    -> Result<((CommonModel, CadEntityTemplateData, EntityCommon), StreamsModel), DxfError>
{
    let len = data.len();
    match spec_object_head(m, data, v, init) {
        Err(e) => Err(e),
        Ok(((h, ed), m1)) => match spec_entity_graphics(m1, data, v) {
            Err(e) => Err(e),
            Ok(m2) => match (if r13_14(v) { spec_update_streams(m2, data, v, init) } else { Ok(m2) }) {
                Err(e) => Err(e),
                Ok(m3) => match spec_entity_owner(m3, len, v) {
                    Err(e) => Err(e),
                    Ok(((mode, owner, rs, x), m4)) => {
                        let ent4 = CadEntityTemplateData { entity_mode: mode, ..empty_entity_data() };
                        match spec_entity_links(m4, len, v, ent4) {
                            Err(e) => Err(e),
                            Ok((ent5, m5)) => match spec_entity_color(m5, len, v, ent5) {
                                Err(e) => Err(e),
                                Ok(((color, transparency), ent6, m6)) => match spec_entity_r2000(m6, len, v, ent6) {
                                    Err(e) => Err(e),
                                    Ok((ent7, m7)) => match spec_entity_visibility(m7, len, v) {
                                        Err(e) => Err(e),
                                        Ok(((invisible, lw), m8)) => Ok(((
                                            CommonModel { handle: h, owner, reactors: rs, xdict: x, edata: ed },
                                            ent7,
                                            EntityCommon { handle: h, color, transparency, invisible, line_weight: lw },
                                        ), m8)),
                                    },
                                },
                            },
                        }
                    },
                },
            },
        },
    }
}

/// An entity of a kind the reader does not decode: its display
/// properties and its DXF name.
#[derive(Debug, Clone)]
pub struct UnknownEntity {
    /// The display properties.
    pub common: EntityCommon,
    /// The DXF name (empty when not known).
    pub dxf_name: String,
}

/// `r` is the template of an entity read as `res` (see
/// [`spec_common_entity`]) whose DXF name is `name`, and the streams end
/// as `res` says.
pub open spec fn entity_template_read(r: Result<CadTemplate<XDataValue, UnknownEntity>, DxfError>,
    res: Result<((CommonModel, CadEntityTemplateData, EntityCommon), StreamsModel), DxfError>,
    name: Seq<char>, s: StreamSet) -> bool
{
    match res {
        Err(e) => r matches Err(e2) && e2 == e,
        Ok(((cm, ent, ec), m)) => r matches Ok(CadTemplate::Entity { common, entity_data, entity })
            && common_model(common) == cm && entity_data == ent && entity.common == ec
            && entity.dxf_name@ == name && model_of(s) == m,
    }
}

/// `r` is the template of a non-graphical object read as `res` (see
/// [`spec_common_non_entity`]), and the streams end as `res` says.
pub open spec fn object_template_read<E>(r: Result<CadTemplate<XDataValue, E>, DxfError>,
    res: Result<(CommonModel, StreamsModel), DxfError>, s: StreamSet) -> bool
{
    match res {
        Err(e) => r matches Err(e2) && e2 == e,
        Ok((cm, m)) => r matches Ok(CadTemplate::GenericObject { common })
            && common_model(common) == cm && model_of(s) == m,
    }
}

/// A text read as `StreamSet::read_text` does it, from the streams `m`
/// (data of `len` bytes, version `v`): from the string stream when it is
/// separate, else from the object data.
pub open spec fn spec_stream_text(m: StreamsModel, len: nat, v: DxfVersion) -> Result<(Seq<char>, StreamsModel), DxfError> {
    if m.separate_text {
        match spec_read_variable_text(m.text, v, TextEncoding::Windows1252) {
            Err(e) => Err(e),
            Ok((t, c)) => Ok((t, StreamsModel { text: c, text_pos: next_position(m.text_pos, len, c), ..m })),
        }
    } else {
        match spec_read_variable_text(m.object, v, TextEncoding::Windows1252) {
            Err(e) => Err(e),
            Ok((t, c)) => Ok((t, on_object(m, len, c))),
        }
    }
}

/// A handle reference resolved against `reference`, read from the handle
/// stream of `m` (data of `len` bytes).
pub open spec fn spec_next_ref(m: StreamsModel, len: nat, reference: u64) -> Result<(u64, StreamsModel), DxfError> {
    match spec_handle_reference(m.handles, reference) {
        Err(e) => Err(e),
        Ok(((h, _), c)) => Ok((h, on_handles(m, len, c))),
    }
}

/// A BitLong count (taken as a `usize`) from the object data, then that
/// many handle references resolved against `reference`.
pub open spec fn spec_counted_refs(m: StreamsModel, len: nat, reference: u64) -> Result<(Seq<u64>, StreamsModel), DxfError> {
    match spec_read_bit_long(m.object) {
        None => Err(bit_long_error(m.object)),
        Some((n, c1)) => {
            let m1 = on_object(m, len, c1);
            match spec_handle_list(m1.handles, m1.handles_pos, len, reference, ((n as i32) as usize) as nat) {
                Err(e) => Err(e),
                Ok((hs, ch, hp)) => Ok((hs, StreamsModel { handles: ch, handles_pos: hp, ..m1 })),
            }
        },
    }
}

/// How a table control object ends after its entries: nothing more, the
/// model-space and paper-space block handles (added to the entries), or
/// the by-layer and by-block linetype handles (not kept).
pub enum ControlTail {
    Plain,
    Blocks,
    Linetypes,
}

/// A table control object read from the streams `m` of `data` (version
/// `v`, object data starting at bit `init`, relative handles resolved
/// against `reference`): its common data, the entry count and the entry
/// handles, then its tail.
pub open spec fn spec_table_control(m: StreamsModel, data: Seq<u8>, v: DxfVersion, init: int, reference: u64,
    tail: ControlTail) -> Result<((CommonModel, Seq<u64>), StreamsModel), DxfError>
{
    let len = data.len();
    match spec_common_non_entity(m, data, v, init) {
        Err(e) => Err(e),
        Ok((cm, m1)) => match spec_counted_refs(m1, len, reference) {
            Err(e) => Err(e),
            Ok((hs, m2)) => match tail {
                ControlTail::Plain => Ok(((cm, hs), m2)),
                _ => match spec_next_ref(m2, len, reference) {
                    Err(e) => Err(e),
                    Ok((a, m3)) => match spec_next_ref(m3, len, reference) {
                        Err(e) => Err(e),
                        Ok((b, m4)) => Ok(((cm, if tail is Blocks { hs.push(a).push(b) } else { hs }), m4)),
                    },
                },
            },
        },
    }
}

/// `r` is the template of a table control object of type `tt` read as
/// `res`, and the streams `s` end as `res` says.
pub open spec fn control_template_read<E>(r: Result<CadTemplate<XDataValue, E>, DxfError>,
    res: Result<((CommonModel, Seq<u64>), StreamsModel), DxfError>, tt: TableControlType, s: StreamSet) -> bool
{
    match res {
        Err(e) => r matches Err(e2) && e2 == e,
        Ok(((cm, hs), m)) => r matches Ok(CadTemplate::TableControl { common, table_data, table_type })
            && common_model(common) == cm && table_data.entry_handles@ == hs && table_type == tt && model_of(s) == m,
    }
}

/// The entries of a dictionary: `n` times a name (a text) and a handle
/// resolved against `reference`; an entry is kept only when its handle is
/// not 0 and its name not empty.
pub open spec fn spec_dictionary_entries(m: StreamsModel, len: nat, v: DxfVersion, reference: u64, n: nat)
    -> Result<(Seq<(Seq<char>, u64)>, StreamsModel), DxfError>
    decreases n,
{
    if n == 0 {
        Ok((Seq::empty(), m))
    } else {
        match spec_stream_text(m, len, v) {
            Err(e) => Err(e),
            Ok((name, m1)) => match spec_next_ref(m1, len, reference) {
                Err(e) => Err(e),
                Ok((h, m2)) => match spec_dictionary_entries(m2, len, v, reference, (n - 1) as nat) {
                    Err(e) => Err(e),
                    Ok((es, m3)) => Ok((if h != 0 && name.len() > 0 { seq![(name, h)] + es } else { es }, m3)),
                },
            },
        }
    }
}

/// The data of a dictionary: a BitLong entry count (taken as a `usize`),
/// for R13 and R14 a byte (unused), from R2000 on the cloning flags (a
/// BitShort) and the hard-owner flag (a byte), both unused; then the
/// entries.
pub open spec fn spec_dictionary_data(m: StreamsModel, len: nat, v: DxfVersion, reference: u64)
    -> Result<(Seq<(Seq<char>, u64)>, StreamsModel), DxfError>
{
    match spec_dictionary_head(m, len, v) {
        Err(e) => Err(e),
        Ok((n, m4)) => spec_dictionary_entries(m4, len, v, reference, n),
    }
}

/// The start of the data of a dictionary (see [`spec_dictionary_data`]):
/// the entry count and the flags.
pub open spec fn spec_dictionary_head(m: StreamsModel, len: nat, v: DxfVersion) -> Result<(nat, StreamsModel), DxfError> {
    match spec_read_bit_long(m.object) {
        None => Err(bit_long_error(m.object)),
        Some((n, c1)) => {
            let m1 = on_object(m, len, c1);
            let pre = if r13_14(v) {
                match spec_read_byte(m1.object) {
                    None => Err(DxfError::UnexpectedEof),
                    Some((_, c2)) => Ok(on_object(m1, len, c2)),
                }
            } else {
                Ok(m1)
            };
            match pre {
                Err(e) => Err(e),
                Ok(m2) => if from_version(v, DxfVersion::AC1015) {
                    match spec_read_bit_short(m2.object) {
                        None => Err(DxfError::UnexpectedEof),
                        Some((_, c3)) => {
                            let m3 = on_object(m2, len, c3);
                            match spec_read_byte(m3.object) {
                                None => Err(DxfError::UnexpectedEof),
                                Some((_, c4)) => Ok((((n as i32) as usize) as nat, on_object(m3, len, c4))),
                            }
                        },
                    }
                } else {
                    Ok((((n as i32) as usize) as nat, m2))
                },
            }
        },
    }
}

/// The content of dictionary entries.
pub open spec fn dictionary_model(es: Seq<(String, u64)>) -> Seq<(Seq<char>, u64)> {
    es.map_values(|e: (String, u64)| (e.0@, e.1))
}

/// A group read from the streams `m` of `data` (version `v`, object data
/// starting at bit `init`, relative handles resolved against `reference`):
/// its common data, a description (a text), the unnamed and selectable
/// flags (BitShorts), then a count and the entity handles.
pub open spec fn spec_group(m: StreamsModel, data: Seq<u8>, v: DxfVersion, init: int, reference: u64)
    -> Result<((CommonModel, Seq<u64>), StreamsModel), DxfError>
{
    let len = data.len();
    match spec_common_non_entity(m, data, v, init) {
        Err(e) => Err(e),
        Ok((cm, m1)) => match spec_stream_text(m1, len, v) {
            Err(e) => Err(e),
            Ok((_, m2)) => match spec_read_bit_short(m2.object) {
                None => Err(DxfError::UnexpectedEof),
                Some((_, c3)) => {
                    let m3 = on_object(m2, len, c3);
                    match spec_read_bit_short(m3.object) {
                        None => Err(DxfError::UnexpectedEof),
                        Some((_, c4)) => match spec_counted_refs(on_object(m3, len, c4), len, reference) {
                            Err(e) => Err(e),
                            Ok((hs, m5)) => Ok(((cm, hs), m5)),
                        },
                    }
                },
            },
        },
    }
}

/// The kind of one field of an object layout.
#[derive(Debug, Clone, Copy, PartialEq, Eq, Structural)]
pub enum FieldKind {
    /// **B** from the object data.
    Bit,
    /// **BS** from the object data.
    BitShort,
    /// **BL** from the object data.
    BitLong,
    /// **BLL** from the object data.
    BitLongLong,
    /// **BD** from the object data.
    BitDouble,
    /// **RC** from the object data.
    RawChar,
    /// **RL** from the object data.
    RawLong,
    /// **RD** from the object data.
    RawDouble,
    /// **CMC** from the object data.
    CmColor,
    /// **TV**, as `StreamSet::read_text` reads it.
    Text,
    /// **H** from the handle stream, resolved against the current handle.
    Handle,
    /// **H** from the object data, resolved against 0.
    ObjectHandle,
    /// The xref-dependent flag of a table entry, from the object data.
    XrefBit,
    /// **BE**: a bit extrusion from the object data.
    Extrusion,
    /// **BT**: a bit thickness from the object data.
    Thickness,
    /// **3BD**: three BitDoubles from the object data.
    Point3,
}

/// The value of one field.
#[derive(Debug, Clone)]
pub enum FieldValue {
    Bool(bool),
    Short(i16),
    Long(i32),
    LongLong(i64),
    Double(u64),
    Char(u8),
    Color(DwgColor),
    Text(String),
    Handle(u64),
    Point(u64, u64, u64),
}

/// The content of a [`FieldValue`].
pub enum FieldModel {
    Bool(bool),
    Short(i16),
    Long(i32),
    LongLong(i64),
    Double(u64),
    Char(u8),
    Color(DwgColor),
    Text(Seq<char>),
    Handle(u64),
    Point(u64, u64, u64),
}

impl View for FieldValue {
    type V = FieldModel;

    open spec fn view(&self) -> FieldModel {
        match self {
            FieldValue::Bool(b) => FieldModel::Bool(*b),
            FieldValue::Short(v) => FieldModel::Short(*v),
            FieldValue::Long(v) => FieldModel::Long(*v),
            FieldValue::LongLong(v) => FieldModel::LongLong(*v),
            FieldValue::Double(v) => FieldModel::Double(*v),
            FieldValue::Char(v) => FieldModel::Char(*v),
            FieldValue::Color(c) => FieldModel::Color(*c),
            FieldValue::Text(t) => FieldModel::Text(t@),
            FieldValue::Handle(h) => FieldModel::Handle(*h),
            FieldValue::Point(x, y, z) => FieldModel::Point(*x, *y, *z),
        }
    }
}

/// The contents of a list of field values.
pub open spec fn fields_model(v: Seq<FieldValue>) -> Seq<FieldModel> {
    v.map_values(|x: FieldValue| x@)
}

/// The handle a field holds (0 for a field of another kind).
pub open spec fn field_handle(f: FieldModel) -> u64 {
    match f {
        FieldModel::Handle(h) => h,
        _ => 0,
    }
}

/// One field of kind `k` read from the streams `m` (data of `len` bytes,
/// version `v`, relative handles resolved against `reference`).
pub open spec fn spec_field(m: StreamsModel, len: nat, v: DxfVersion, reference: u64, k: FieldKind)
    -> Result<(FieldModel, StreamsModel), DxfError>
{
    match k {
        FieldKind::Bit => {
            let (b, c) = spec_read_bit(m.object);
            Ok((FieldModel::Bool(b), on_object(m, len, c)))
        },
        FieldKind::BitShort => match spec_read_bit_short(m.object) {
            None => Err(DxfError::UnexpectedEof),
            Some((n, c)) => Ok((FieldModel::Short(n as i16), on_object(m, len, c))),
        },
        FieldKind::BitLong => match spec_read_bit_long(m.object) {
            None => Err(bit_long_error(m.object)),
            Some((n, c)) => Ok((FieldModel::Long(n as i32), on_object(m, len, c))),
        },
        FieldKind::BitLongLong => match spec_read_bit_long_long(m.object) {
            None => Err(DxfError::UnexpectedEof),
            Some((n, c)) => Ok((FieldModel::LongLong(n as i64), on_object(m, len, c))),
        },
        FieldKind::BitDouble => match spec_read_bit_double(m.object) {
            None => Err(bit_double_error(m.object)),
            Some((x, c)) => Ok((FieldModel::Double(x), on_object(m, len, c))),
        },
        FieldKind::RawChar => match spec_read_byte(m.object) {
            None => Err(DxfError::UnexpectedEof),
            Some((b, c)) => Ok((FieldModel::Char(b), on_object(m, len, c))),
        },
        FieldKind::RawLong => match spec_read_raw_long(m.object) {
            None => Err(DxfError::UnexpectedEof),
            Some((n, c)) => Ok((FieldModel::Long(n as i32), on_object(m, len, c))),
        },
        FieldKind::RawDouble => match spec_read_raw_double(m.object) {
            None => Err(DxfError::UnexpectedEof),
            Some((x, c)) => Ok((FieldModel::Double(x), on_object(m, len, c))),
        },
        FieldKind::CmColor => match spec_read_cm_color(m.object, v, TextEncoding::Windows1252) {
            Err(e) => Err(e),
            Ok((color, c)) => Ok((FieldModel::Color(color), on_object(m, len, c))),
        },
        FieldKind::Text => match spec_stream_text(m, len, v) {
            Err(e) => Err(e),
            Ok((t, m1)) => Ok((FieldModel::Text(t), m1)),
        },
        FieldKind::Handle => match spec_next_ref(m, len, reference) {
            Err(e) => Err(e),
            Ok((h, m1)) => Ok((FieldModel::Handle(h), m1)),
        },
        FieldKind::ObjectHandle => match spec_handle_reference(m.object, 0) {
            Err(e) => Err(e),
            Ok(((h, _), c)) => Ok((FieldModel::Handle(h), on_object(m, len, c))),
        },
        FieldKind::XrefBit => match spec_xref_dependant(m.object, v) {
            Err(e) => Err(e),
            Ok((b, c)) => Ok((FieldModel::Bool(b), on_object(m, len, c))),
        },
        FieldKind::Extrusion => match spec_bit_extrusion(m.object, v) {
            Err(e) => Err(e),
            Ok(((x, y, z), c)) => Ok((FieldModel::Point(x, y, z), on_object(m, len, c))),
        },
        FieldKind::Thickness => match spec_read_bit_thickness(m.object, v) {
            None => Err(flagged_double_error(m.object, v)),
            Some((t, c)) => Ok((FieldModel::Double(t), on_object(m, len, c))),
        },
        FieldKind::Point3 => match spec_3bit_double(m.object) {
            Err(e) => Err(e),
            Ok(((x, y, z), c)) => Ok((FieldModel::Point(x, y, z), on_object(m, len, c))),
        },
    }
}

/// The fields of the layout `ks` read in order (see [`spec_field`]).
pub open spec fn spec_fields(m: StreamsModel, len: nat, v: DxfVersion, reference: u64, ks: Seq<FieldKind>)
    -> Result<(Seq<FieldModel>, StreamsModel), DxfError>
    decreases ks.len(),
{
    if ks.len() == 0 {
        Ok((Seq::empty(), m))
    } else {
        match spec_field(m, len, v, reference, ks[0]) {
            Err(e) => Err(e),
            Ok((f, m1)) => match spec_fields(m1, len, v, reference, ks.skip(1)) {
                Err(e) => Err(e),
                Ok((fs, m2)) => Ok((seq![f] + fs, m2)),
            },
        }
    }
}

/// Reading a layout gives one value per field.
pub proof fn lemma_fields_len(m: StreamsModel, len: nat, v: DxfVersion, reference: u64, ks: Seq<FieldKind>)
    ensures
        spec_fields(m, len, v, reference, ks) matches Ok((fs, _)) ==> fs.len() == ks.len(),
    decreases ks.len(),
{
    if ks.len() > 0 {
        if let Ok((f, m1)) = spec_field(m, len, v, reference, ks[0]) {
            lemma_fields_len(m1, len, v, reference, ks.skip(1));
        }
    }
}

/// The count a field holds: a BitLong taken as a `usize`, or a byte (0
/// for a field of another kind).
pub open spec fn field_count(f: FieldModel) -> nat {
    match f {
        FieldModel::Long(n) => (n as usize) as nat,
        FieldModel::Char(b) => b as nat,
        _ => 0,
    }
}

/// `r` with the fields `pre` put before its fields.
pub open spec fn fields_with_prefix(pre: Seq<FieldModel>, r: Result<(Seq<FieldModel>, StreamsModel), DxfError>)
    -> Result<(Seq<FieldModel>, StreamsModel), DxfError>
{
    match r {
        Err(e) => Err(e),
        Ok((fs, m)) => Ok((pre + fs, m)),
    }
}

/// Reading a layout in two parts reads it whole.
pub proof fn lemma_fields_append(m: StreamsModel, len: nat, v: DxfVersion, reference: u64, a: Seq<FieldKind>,
    b: Seq<FieldKind>)
    ensures
        spec_fields(m, len, v, reference, a + b) == match spec_fields(m, len, v, reference, a) {
            Err(e) => Err(e),
            Ok((fa, m1)) => fields_with_prefix(fa, spec_fields(m1, len, v, reference, b)),
        },
    decreases a.len(),
{
    if a.len() == 0 {
        assert(a + b =~= b);
        if let Ok((fb, m2)) = spec_fields(m, len, v, reference, b) {
            assert(Seq::<FieldModel>::empty() + fb =~= fb);
        }
    } else {
        assert((a + b).skip(1) =~= a.skip(1) + b);
        assert((a + b)[0] == a[0]);
        if let Ok((f, m1)) = spec_field(m, len, v, reference, a[0]) {
            lemma_fields_append(m1, len, v, reference, a.skip(1), b);
            if let Ok((fa, m2)) = spec_fields(m1, len, v, reference, a.skip(1)) {
                if let Ok((fb, m3)) = spec_fields(m2, len, v, reference, b) {
                    assert(seq![f] + (fa + fb) =~= (seq![f] + fa) + fb);
                }
            }
        }
    }
}

/// The reader of the objects of a drawing.
pub struct DwgObjectReader {
    version: DxfVersion,
    sio: SectionIO,
    data: Vec<u8>,
    handle_map: HashMap<u64, i64>,
    class_map: HashMap<i16, DxfClass>,
    handles: VecDeque<u64>,
    read_objects: HashSet<u64>,
    existing_templates: HashSet<u64>,
    /// The diagnostics raised while reading.
    pub notifications: Vec<Notification>,
    /// Whether to go on after an object fails to read.
    pub failsafe: bool,
    object_initial_pos: i64,
    object_size: u32,
}

impl DwgObjectReader {
    /// The DWG version.
    pub closed spec fn spec_version(&self) -> DxfVersion {
        self.version
    }

    /// The section data.
    pub closed spec fn data(&self) -> Seq<u8> {
        self.data@
    }

    /// The handle map: handle to byte offset.
    pub closed spec fn handle_map(&self) -> Map<u64, i64> {
        self.handle_map@
    }

    /// The classes by class number.
    pub closed spec fn class_map(&self) -> Map<i16, DxfClassModel> {
        Map::new(|k: i16| self.class_map@.dom().contains(k), |k: i16| self.class_map@[k]@)
    }

    /// The handles still to read, first to read first.
    pub closed spec fn queue(&self) -> Seq<u64> {
        self.handles@
    }

    /// The handles already read.
    pub closed spec fn read_set(&self) -> Set<u64> {
        self.read_objects@
    }

    /// The handles that have a template already.
    pub closed spec fn existing_set(&self) -> Set<u64> {
        self.existing_templates@
    }

    /// The diagnostics raised.
    pub closed spec fn notes(&self) -> Seq<Notification> {
        self.notifications@
    }

    /// Whether the reader goes on after a failed object.
    pub closed spec fn spec_failsafe(&self) -> bool {
        self.failsafe
    }

    /// The bit position where the data of the current object starts.
    pub closed spec fn initial_pos(&self) -> int {
        self.object_initial_pos as int
    }

    /// The size in bytes of the current object.
    pub closed spec fn object_size(&self) -> u32 {
        self.object_size
    }

    /// The reader is well formed: its data fits, its flags are those of
    /// its version, and the current object starts inside the data.
    pub closed spec fn inv(&self) -> bool {
        &&& data_fits(self.data@.len())
        &&& flags_of_version(self.sio, self.version)
        &&& 0 <= self.object_initial_pos <= self.data@.len() * 8
    }

    /// The data of a well-formed reader fits (see [`data_fits`]).
    pub proof fn lemma_data_len(&self)
        requires
            self.inv(),
        ensures
            data_fits(self.data().len()),
    {
    }

    /// Only the current object's size and start may differ between `self`
    /// and `new`.
    pub open spec fn same_reader(&self, new: &Self) -> bool {
        &&& new.spec_version() == self.spec_version()
        &&& new.data() == self.data()
        &&& new.handle_map() == self.handle_map()
        &&& new.class_map() == self.class_map()
        &&& new.queue() == self.queue()
        &&& new.read_set() == self.read_set()
        &&& new.existing_set() == self.existing_set()
        &&& new.notes() == self.notes()
        &&& new.spec_failsafe() == self.spec_failsafe()
    }

    /// The fixed parts of the reader (all but the queue, the read handles,
    /// the diagnostics and the current object) are those of `self`.
    pub open spec fn same_setting(&self, new: &Self) -> bool {
        &&& new.spec_version() == self.spec_version()
        &&& new.data() == self.data()
        &&& new.handle_map() == self.handle_map()
        &&& new.class_map() == self.class_map()
        &&& new.existing_set() == self.existing_set()
        &&& new.spec_failsafe() == self.spec_failsafe()
    }

    /// `new` is `self` but for its diagnostics.
    pub open spec fn keeps_state(&self, new: &Self) -> bool {
        &&& self.same_setting(new)
        &&& new.queue() == self.queue()
        &&& new.read_set() == self.read_set()
        &&& new.initial_pos() == self.initial_pos()
        &&& new.object_size() == self.object_size()
        &&& new.inv() == self.inv()
    }

    /// `new` is `self` but for its queue and its read handles.
    pub open spec fn same_but_queue(&self, new: &Self) -> bool {
        &&& self.same_setting(new)
        &&& new.notes() == self.notes()
        &&& new.initial_pos() == self.initial_pos()
        &&& new.object_size() == self.object_size()
        &&& new.inv() == self.inv()
    }

    /// Whether the reader goes on after a failed object.
    pub fn is_failsafe(&self) -> (r: bool)
        ensures
            r == self.spec_failsafe(),
    {
        self.failsafe
    }

    /// The handle map has finitely many handles.
    pub proof fn lemma_map_finite(&self)
        ensures
            self.handle_map().dom().finite(),
    {
    }

    /// Set whether the reader goes on after a failed object.
    pub fn set_failsafe(&mut self, failsafe: bool)
        ensures
            final(self).spec_failsafe() == failsafe,
            final(self).spec_version() == old(self).spec_version(),
            final(self).data() == old(self).data(),
            final(self).handle_map() == old(self).handle_map(),
            final(self).class_map() == old(self).class_map(),
            final(self).existing_set() == old(self).existing_set(),
            final(self).queue() == old(self).queue(),
            final(self).read_set() == old(self).read_set(),
            final(self).notes() == old(self).notes(),
            final(self).initial_pos() == old(self).initial_pos(),
            final(self).object_size() == old(self).object_size(),
            final(self).inv() == old(self).inv(),
    {
        self.failsafe = failsafe;
    }

    /// How many handles are still queued.
    pub fn pending(&self) -> (r: usize)
        ensures
            r == self.queue().len(),
    {
        self.handles.len()
    }

    /// Take the first queued handle.
    pub fn pop_handle(&mut self) -> (r: Option<u64>)
        ensures
            old(self).same_but_queue(final(self)),
            final(self).read_set() == old(self).read_set(),
            match r {
                Some(h) => old(self).queue().len() > 0 && h == old(self).queue()[0]
                    && final(self).queue() == old(self).queue().drop_first(),
                None => old(self).queue().len() == 0 && final(self).queue() == old(self).queue(),
            },
    {
        self.handles.pop_front()
    }

    /// Queue the handle `h`.
    pub fn enqueue(&mut self, h: u64)
        ensures
            old(self).same_but_queue(final(self)),
            final(self).read_set() == old(self).read_set(),
            final(self).queue() == old(self).queue().push(h),
    {
        self.handles.push_back(h);
    }

    /// Record the handle `h` as read.
    pub fn mark_read(&mut self, h: u64)
        ensures
            old(self).same_but_queue(final(self)),
            final(self).queue() == old(self).queue(),
            final(self).read_set() == old(self).read_set().insert(h),
    {
        self.read_objects.insert(h);
    }

    /// Whether the handle `h` is read already or has a template already.
    pub fn is_done(&self, h: u64) -> (r: bool)
        ensures
            r == (self.read_set().contains(h) || self.existing_set().contains(h)),
    {
        self.read_objects.contains(&h) || self.existing_templates.contains(&h)
    }

    /// The byte offset of the object of handle `h`, if the map has one.
    pub fn offset_of(&self, h: u64) -> (r: Option<i64>)
        ensures
            r == (if self.handle_map().dom().contains(h) { Some(self.handle_map()[h]) } else { None::<i64> }),
    {
        match self.handle_map.get(&h) {
            Some(off) => Some(*off),
            None => None,
        }
    }

    /// The name of the class numbered `code` and whether it is one of
    /// entities, if there is such a class.
    pub fn class_info(&self, code: i16) -> (r: Option<(String, bool)>)
        ensures
            match r {
                Some((name, is_entity)) => self.class_map().dom().contains(code)
                    && name@ == self.class_map()[code].dxf_name
                    && is_entity == self.class_map()[code].is_an_entity,
                None => !self.class_map().dom().contains(code),
            },
    {
        match self.class_map.get(&code) {
            Some(c) => Some((c.dxf_name.clone(), c.is_an_entity)),
            None => None,
        }
    }

    /// Whether the class numbered `code` is one of entities, if there is
    /// such a class.
    pub fn class_is_entity(&self, code: i16) -> (r: Option<bool>)
        ensures
            r == (if self.class_map().dom().contains(code) { Some(self.class_map()[code].is_an_entity) }
                else { None::<bool> }),
    {
        match self.class_map.get(&code) {
            Some(c) => Some(c.is_an_entity),
            None => None,
        }
    }

    /// A reader over the section `data` of `version`, with the queue
    /// `handles`, the handle map `handle_map` and the classes `classes`;
    /// no handle is read yet, and it goes on after a failed object.
    pub fn new(version: DxfVersion, data: Vec<u8>, handles: VecDeque<u64>, handle_map: HashMap<u64, i64>,
        classes: &[DxfClass]) -> (r: Self)
        requires
            data_fits(data@.len()),
        ensures
            r.inv(),
            r.spec_version() == version,
            r.data() == data@,
            r.queue() == handles@,
            r.handle_map() == handle_map@,
            r.class_map() == class_map_of(classes@.map_values(|c: DxfClass| c@)),
            r.read_set() == Set::<u64>::empty(),
            r.existing_set() == Set::<u64>::empty(),
            r.notes().len() == 0,
            r.spec_failsafe(),
            r.initial_pos() == 0,
            r.object_size() == 0,
    {
        let mut class_map: HashMap<i16, DxfClass> = HashMap::new();
        let ghost models = classes@.map_values(|c: DxfClass| c@);
        let mut i: usize = 0;
        while i < classes.len()
            invariant
                i <= classes@.len(),
                models == classes@.map_values(|c: DxfClass| c@),
                Map::new(|k: i16| class_map@.dom().contains(k), |k: i16| class_map@[k]@)
                    == class_map_of(models.take(i as int)),
            decreases classes@.len() - i,
        {
            let c = copy_class(&classes[i]);
            let ghost before = class_map@;
            class_map.insert(c.class_number, c);
            proof {
                assert(models.take(i + 1).drop_last() =~= models.take(i as int));
                assert(Map::new(|k: i16| class_map@.dom().contains(k), |k: i16| class_map@[k]@)
                    =~= Map::new(|k: i16| before.dom().contains(k), |k: i16| before[k]@)
                        .insert(classes@[i as int].class_number, classes@[i as int]@));
            }
            i = i + 1;
        }
        proof {
            assert(models.take(classes@.len() as int) =~= models);
        }
        DwgObjectReader {
            sio: SectionIO::new(version),
            version,
            data,
            handle_map,
            class_map,
            handles,
            read_objects: HashSet::new(),
            existing_templates: HashSet::new(),
            notifications: Vec::new(),
            failsafe: true,
            object_initial_pos: 0,
            object_size: 0,
        }
    }

    /// Record a diagnostic.
    pub fn notify(&mut self, message: &str, ntype: NotificationType)
        ensures
            final(self).notes().len() == old(self).notes().len() + 1,
            final(self).notes().drop_last() == old(self).notes(),
            final(self).notes().last().notification_type == ntype,
            final(self).notes().last().message@ == message@,
            final(self).inv() == old(self).inv(),
            final(self).initial_pos() == old(self).initial_pos(),
            final(self).object_size() == old(self).object_size(),
            final(self).spec_version() == old(self).spec_version(),
            final(self).data() == old(self).data(),
            final(self).handle_map() == old(self).handle_map(),
            final(self).class_map() == old(self).class_map(),
            final(self).queue() == old(self).queue(),
            final(self).read_set() == old(self).read_set(),
            final(self).existing_set() == old(self).existing_set(),
            final(self).spec_failsafe() == old(self).spec_failsafe(),
    {
        let n = Notification::new(ntype, String::from_str(message));
        self.notifications.push(n);
        assert(self.notifications@.drop_last() =~= old(self).notifications@);
    }

    /// A fresh reader over the section data.
    fn make_reader(&self) -> (r: DwgStreamReaderBase)
        ensures
            reads_at(r, self.data(), self.spec_version(), data_start(self.data()), 0),
            !r.spec_is_empty(),
    {
        get_stream_handler(self.version, self.data.clone())
    }

    /// Read the header of the object at byte `offset`: record its size and
    /// the start of its data, and give its type code and its streams (see
    /// [`spec_entity_type`]).
    pub fn get_entity_type(&mut self, offset: i64) -> (r: Result<(i16, Option<StreamSet>), DxfError>)
        requires
            old(self).inv(),
        ensures
            final(self).inv(),
            old(self).same_reader(final(self)),
            ({
                let (size, start, res) = spec_entity_type(old(self).data(), old(self).spec_version(), offset);
                &&& final(self).object_size() == (match size { Some(n) => n, None => old(self).object_size() })
                &&& final(self).initial_pos() == (match start { Some(p) => p, None => old(self).initial_pos() })
                &&& match res {
                    Err(e) => r == Err::<(i16, Option<StreamSet>), DxfError>(e),
                    Ok((t, None)) => r matches Ok((t2, None)) && t2 == t,
                    Ok((t, Some(m))) => r matches Ok((t2, Some(s))) && t2 == t
                        && streams_match(s, m, old(self).data(), old(self).spec_version()),
                }
            }),
    {
        let ghost data = self.data@;
        let ghost len = data.len();
        let mut crc_reader = self.make_reader();
        crc_reader.set_position(offset as u64);
        proof {
            assert(data.skip(len as int).len() == 0);
            assert(crc_reader.cursor() == object_cursor(data, offset));
            lemma_modular_short_shift(crc_reader.cursor());
        }
        let ghost crc0 = crc_reader;
        let size = crc_reader.read_modular_short()? as u32;
        self.object_size = size;
        if size == 0 {
            return Ok((-1, None));
        }
        let size_in_bits: u64 = (size as u64) * 8;
        if self.sio.r2010_plus {
            proof { lemma_modular_char_shift(crc_reader.cursor(), 0, 0); }
            let ghost crc1 = crc_reader;
            let handle_size = crc_reader.read_modular_char()?;
            proof {
                crc_reader.lemma_cursor_position();
            }
            let pos_bits = crc_reader.position_in_bits();
            let sum: u64 = pos_bits as u64 + size_in_bits;
            if handle_size > sum {
                return Err(DxfError::InvalidFormat);
            }
            let handle_section_offset: u64 = sum - handle_size;
            let mut object_reader = self.make_reader();
            object_reader.set_position_in_bits(pos_bits);
            proof { lemma_bit_position_roundtrip(&object_reader, pos_bits); }
            self.object_initial_pos = object_reader.position_in_bits();
            let raw_type = object_reader.read_object_type()?;
            let mut handles_reader = self.make_reader();
            handles_reader.set_position_in_bits(handle_section_offset as i64);
            let mut text_reader = self.make_reader();
            text_reader.set_position_by_flag(handle_section_offset as i64 - 1)?;
            Ok((raw_type, Some(StreamSet {
                object_reader,
                text_reader,
                handles_reader,
                merged: true,
                has_separate_text_reader: true,
                current_handle: 0,
            })))
        } else {
            proof {
                crc_reader.lemma_cursor_position();
            }
            let pos_bits = crc_reader.position_in_bits();
            let mut object_reader = self.make_reader();
            object_reader.set_position_in_bits(pos_bits);
            proof { lemma_bit_position_roundtrip(&object_reader, pos_bits); }
            self.object_initial_pos = object_reader.position_in_bits();
            let raw_type = object_reader.read_object_type()?;
            let handles_reader = self.make_reader();
            let text_reader = self.make_reader();
            Ok((raw_type, Some(StreamSet {
                object_reader,
                text_reader,
                handles_reader,
                merged: false,
                has_separate_text_reader: false,
                current_handle: 0,
            })))
        }
    }

    /// Set up the handle stream (and, for R2007, the string stream) of an
    /// object whose data gives its size in bits (a raw long, read from the
    /// object data): the handles start where the object data ends; the
    /// R2007 string stream is found back from the bit before.  The streams
    /// are then read merged.
    pub fn update_handle_reader(&self, streams: &mut StreamSet) -> (r: Result<(), DxfError>)
        requires
            self.inv(),
        ensures
            final(streams).current_handle == old(streams).current_handle,
            old(streams).object_reader.same_source(&final(streams).object_reader),
            streams_of(*old(streams), self.data(), self.spec_version()) ==> {
                &&& streams_of(*final(streams), self.data(), self.spec_version())
                &&& match spec_update_streams(model_of(*old(streams)), self.data(), self.spec_version(), self.initial_pos()) {
                    Err(e) => r == Err::<(), DxfError>(e),
                    Ok(m) => r == Ok::<(), DxfError>(()) && model_of(*final(streams)) == m,
                }
            },
            match spec_read_raw_long(old(streams).object_reader.cursor()) {
                None => {
                    &&& r == Err::<(), DxfError>(DxfError::UnexpectedEof)
                    &&& final(streams).text_reader == old(streams).text_reader
                    &&& final(streams).handles_reader == old(streams).handles_reader
                    &&& final(streams).merged == old(streams).merged
                    &&& final(streams).has_separate_text_reader == old(streams).has_separate_text_reader
                },
                Some((size, c1)) => {
                    let end = size + self.initial_pos();
                    let h = old(streams).handles_reader;
                    &&& old(streams).object_reader.moved_to(&final(streams).object_reader, c1)
                    &&& h.same_source(&final(streams).handles_reader)
                    &&& final(streams).handles_reader.cursor() == bits_cursor(h.data(), end as i64)
                    &&& final(streams).handles_reader.spec_position() == position_after_bits(h.data().len(), end as i64)
                    &&& if self.spec_version() == DxfVersion::AC1021 {
                        match spec_string_stream_start(self.data(), (end - 1) as i64) {
                            Err(e) => {
                                &&& r == Err::<(), DxfError>(e)
                                &&& final(streams).text_reader == old(streams).text_reader
                                &&& final(streams).merged == old(streams).merged
                                &&& final(streams).has_separate_text_reader == old(streams).has_separate_text_reader
                            },
                            Ok(start) => {
                                let (tc, tp, te) = text_stream(self.data(), start);
                                &&& r == Ok::<(), DxfError>(())
                                &&& reads_at(final(streams).text_reader, self.data(), self.spec_version(), tc, tp)
                                &&& final(streams).text_reader.spec_is_empty() == te
                                &&& final(streams).has_separate_text_reader
                                &&& final(streams).merged
                            },
                        }
                    } else {
                        &&& r == Ok::<(), DxfError>(())
                        &&& final(streams).text_reader == old(streams).text_reader
                        &&& final(streams).has_separate_text_reader == old(streams).has_separate_text_reader
                        &&& final(streams).merged
                    }
                },
            },
    {
        let size = streams.object_reader.read_raw_long()? as i64;
        let end_bits = size + self.object_initial_pos;
        streams.handles_reader.set_position_in_bits(end_bits);
        if self.version.same_as(DxfVersion::AC1021) {
            let mut text_reader = self.make_reader();
            text_reader.set_position_by_flag(end_bits - 1)?;
            streams.text_reader = text_reader;
            streams.has_separate_text_reader = true;
        }
        streams.merged = true;
        Ok(())
    }

    /// Read the extended data of the current object from its object data
    /// (see [`spec_extended_data`]).
    #[verifier::spinoff_prover]
    #[verifier::rlimit(40)]
    pub fn read_extended_data(&mut self, streams: &mut StreamSet) -> (r: Result<EDataTemplate<XDataValue>, DxfError>)
        ensures
            *final(self) == *old(self),
            ({
                let o = old(streams).object_reader;
                match spec_extended_data(o.data(), o.cursor(), o.spec_position()) {
                    Err(e) => r == Err::<EDataTemplate<XDataValue>, DxfError>(e),
                    Ok((groups, c, p)) => r matches Ok(ed) && edata_model(ed) == groups
                        && final(streams).object_reader.cursor() == c
                        && final(streams).object_reader.spec_position() == p,
                }
            }),
            old(streams).object_reader.same_source(&final(streams).object_reader),
            final(streams).text_reader == old(streams).text_reader,
            final(streams).handles_reader == old(streams).handles_reader,
            final(streams).merged == old(streams).merged,
            final(streams).has_separate_text_reader == old(streams).has_separate_text_reader,
            final(streams).current_handle == old(streams).current_handle,
    {
        let ghost data = streams.object_reader.data();
        let ghost total = spec_extended_data(data, streams.object_reader.cursor(), streams.object_reader.spec_position());
        let mut edata: EDataTemplate<XDataValue> = EDataTemplate::new();
        proof {
            assert(edata_model(edata) =~= Seq::<XDataGroup>::empty());
            if let Ok((gs, c, p)) = total {
                assert(Seq::<XDataGroup>::empty() + gs =~= gs);
            }
        }
        loop
            invariant_except_break
                data == old(streams).object_reader.data(),
                total == spec_extended_data(data, old(streams).object_reader.cursor(), old(streams).object_reader.spec_position()),
                old(streams).object_reader.same_source(&streams.object_reader),
                streams.text_reader == old(streams).text_reader,
                streams.handles_reader == old(streams).handles_reader,
                streams.merged == old(streams).merged,
                streams.has_separate_text_reader == old(streams).has_separate_text_reader,
                streams.current_handle == old(streams).current_handle,
                total == groups_with_prefix(edata_model(edata),
                    spec_extended_data(data, streams.object_reader.cursor(), streams.object_reader.spec_position())),
            ensures
                data == old(streams).object_reader.data(),
                total == spec_extended_data(data, old(streams).object_reader.cursor(), old(streams).object_reader.spec_position()),
                old(streams).object_reader.same_source(&streams.object_reader),
                streams.text_reader == old(streams).text_reader,
                streams.handles_reader == old(streams).handles_reader,
                streams.merged == old(streams).merged,
                streams.has_separate_text_reader == old(streams).has_separate_text_reader,
                streams.current_handle == old(streams).current_handle,
                total == Ok::<(Seq<XDataGroup>, BitCursor, nat), DxfError>(
                    (edata_model(edata), streams.object_reader.cursor(), streams.object_reader.spec_position())),
            decreases (if streams.object_reader.spec_position() <= data.len() {
                data.len() + 1 - streams.object_reader.spec_position()
            } else {
                0
            }) as nat,
        {
            let ghost s0 = streams.object_reader;
            let ghost rest0 = spec_extended_data(data, s0.cursor(), s0.spec_position());
            let start_pos = streams.object_reader.position();
            let size = match streams.object_reader.read_bit_short() {
                Ok(v) => v as i32,
                Err(e) => {
                    proof { assert(rest0 == Err::<(Seq<XDataGroup>, BitCursor, nat), DxfError>(e)); }
                    return Err(e);
                },
            };
            if size <= 0 {
                proof {
                    assert(edata_model(edata) + Seq::<XDataGroup>::empty() =~= edata_model(edata));
                }
                break;
            }
            let ghost s1 = streams.object_reader;
            let app_handle = match streams.object_reader.handle_reference() {
                Ok(h) => h,
                Err(e) => {
                    proof { assert(rest0 == Err::<(Seq<XDataGroup>, BitCursor, nat), DxfError>(e)); }
                    return Err(e);
                },
            };
            let end_pos = streams.object_reader.position().saturating_add(size as u64);
            let values = match read_xdata_values(&mut streams.object_reader, end_pos) {
                Ok(v) => v,
                Err(e) => {
                    proof { assert(rest0 == Err::<(Seq<XDataGroup>, BitCursor, nat), DxfError>(e)); }
                    return Err(e);
                },
            };
            if streams.object_reader.position() <= start_pos || start_pos > streams.object_reader.stream_length() {
                proof {
                    assert(rest0 == Err::<(Seq<XDataGroup>, BitCursor, nat), DxfError>(DxfError::InvalidFormat));
                }
                return Err(DxfError::InvalidFormat);
            }
            proof {
                let g = (app_handle, values_model(values@));
                assert(rest0 == groups_with_prefix(seq![g],
                    spec_extended_data(data, streams.object_reader.cursor(), streams.object_reader.spec_position())));
                lemma_groups_prefix_push(edata_model(edata), g,
                    spec_extended_data(data, streams.object_reader.cursor(), streams.object_reader.spec_position()));
            }
            let ghost before = edata;
            edata.add(app_handle, values);
            proof {
                assert(edata_model(edata) =~= edata_model(before).push((app_handle, values_model(values@))));
            }
        }
        Ok(edata)
    }

    /// Read the xref-dependent flag of a table entry from `reader` (see
    /// [`spec_xref_dependant`]).
    pub fn read_xref_dependant_bit(&self, reader: &mut DwgStreamReaderBase) -> (r: Result<bool, DxfError>)
        ensures
            match spec_xref_dependant(old(reader).cursor(), self.spec_version()) {
                Err(e) => r == Err::<bool, DxfError>(e),
                Ok((b, c)) => r == Ok::<bool, DxfError>(b) && old(reader).moved_to(final(reader), c),
            },
            old(reader).same_source(final(reader)),
    {
        read_xref_flag(reader, self.version)
    }

    /// Read the reactors and the extended dictionary handle of an entity
    /// (see [`spec_reactors`]).
    pub fn read_reactors_and_dictionary_handle(&mut self, streams: &mut StreamSet)
        -> (r: Result<(Vec<u64>, u64), DxfError>)
        requires
            old(self).inv(),
        ensures
            *final(self) == *old(self),
            match spec_reactors(model_of(*old(streams)), old(streams).object_reader.data().len(),
                old(streams).handles_reader.data().len(), old(self).spec_version()) {
                Err(e) => r == Err::<(Vec<u64>, u64), DxfError>(e),
                Ok(((hs, x), m)) => r matches Ok((v, x2)) && v@ == hs && x2 == x && model_of(*final(streams)) == m,
            },
            old(streams).object_reader.same_source(&final(streams).object_reader),
            old(streams).handles_reader.same_source(&final(streams).handles_reader),
            final(streams).text_reader == old(streams).text_reader,
            final(streams).current_handle == old(streams).current_handle,
            final(streams).merged == old(streams).merged,
            final(streams).has_separate_text_reader == old(streams).has_separate_text_reader,
    {
        let num_reactors = streams.object_reader.read_bit_long()? as usize;
        if num_reactors > 10_000 {
            return Err(DxfError::InvalidFormat);
        }
        let xdict_missing = if self.sio.r2004_plus {
            streams.object_reader.read_bit()?
        } else {
            false
        };
        if self.sio.r2013_plus {
            let _has_ds = streams.object_reader.read_bit()?;
        }
        let reactors = read_handle_list(&mut streams.handles_reader, 0, num_reactors)?;
        let xdict = if !xdict_missing {
            streams.handles_reader.handle_reference()?
        } else {
            0
        };
        Ok((reactors, xdict))
    }

    /// Read the start of the common data of an object (see
    /// [`spec_object_head`]): its handle and its extended data.
    fn read_object_head(&mut self, streams: &mut StreamSet)
        -> (r: Result<(u64, EDataTemplate<XDataValue>), DxfError>)
        requires
            old(self).inv(),
            streams_of(*old(streams), old(self).data(), old(self).spec_version()),
        ensures
            *final(self) == *old(self),
            streams_of(*final(streams), old(self).data(), old(self).spec_version()),
            final(streams).current_handle == old(streams).current_handle,
            match spec_object_head(model_of(*old(streams)), old(self).data(), old(self).spec_version(),
                old(self).initial_pos()) {
                Err(e) => r == Err::<(u64, EDataTemplate<XDataValue>), DxfError>(e),
                Ok(((h, ed), m)) => r matches Ok((h2, e2)) && h2 == h && edata_model(e2) == ed
                    && model_of(*final(streams)) == m,
            },
    {
        if self.sio.r2000_plus && !self.sio.r2010_plus {
            self.update_handle_reader(streams)?;
        }
        let handle = streams.object_reader.handle_reference()?;
        let edata = self.read_extended_data(streams)?;
        Ok((handle, edata))
    }

    /// Read the end of the common data of a non-graphical object (see
    /// [`spec_non_entity_tail`]), from the reactor count on.
    fn read_non_entity_tail(&mut self, streams: &mut StreamSet, handle: u64, edata: EDataTemplate<XDataValue>)
        -> (r: Result<CadTemplateCommon<XDataValue>, DxfError>)
        requires
            old(self).inv(),
            streams_of(*old(streams), old(self).data(), old(self).spec_version()),
        ensures
            *final(self) == *old(self),
            streams_of(*final(streams), old(self).data(), old(self).spec_version()),
            final(streams).current_handle == old(streams).current_handle,
            match spec_non_entity_tail(model_of(*old(streams)), old(self).data().len(), old(self).spec_version(),
                handle, edata_model(edata)) {
                Err(e) => r == Err::<CadTemplateCommon<XDataValue>, DxfError>(e),
                Ok((cm, m)) => r matches Ok(t) && common_model(t) == cm && model_of(*final(streams)) == m,
            },
    {
        let num_reactors = streams.object_reader.read_bit_long()? as usize;
        let xdict_missing = if self.sio.r2004_plus {
            streams.object_reader.read_bit()?
        } else {
            false
        };
        if self.sio.r2013_plus {
            let _has_ds = streams.object_reader.read_bit()?;
        }
        let owner_handle = streams.handles_reader.handle_reference()?;
        let reactor_handles = read_handle_list(&mut streams.handles_reader, 0, num_reactors)?;
        let xdict_handle = if !xdict_missing {
            streams.handles_reader.handle_reference()?
        } else {
            0
        };
        Ok(CadTemplateCommon { handle, owner_handle, reactor_handles, xdict_handle, edata })
    }

    /// Read the common data of a non-graphical object (see
    /// [`spec_common_non_entity`]).
    pub fn read_common_non_entity_data(&mut self, streams: &mut StreamSet)
        -> (r: Result<CadTemplateCommon<XDataValue>, DxfError>)
        requires
            old(self).inv(),
            streams_of(*old(streams), old(self).data(), old(self).spec_version()),
        ensures
            *final(self) == *old(self),
            streams_of(*final(streams), old(self).data(), old(self).spec_version()),
            final(streams).current_handle == old(streams).current_handle,
            match spec_common_non_entity(model_of(*old(streams)), old(self).data(), old(self).spec_version(),
                old(self).initial_pos()) {
                Err(e) => r == Err::<CadTemplateCommon<XDataValue>, DxfError>(e),
                Ok((cm, m)) => r matches Ok(t) && common_model(t) == cm && model_of(*final(streams)) == m,
            },
    {
        proof { reveal(spec_common_non_entity); }
        let (handle, edata) = self.read_object_head(streams)?;
        if self.sio.r13_14_only {
            self.update_handle_reader(streams)?;
        }
        self.read_non_entity_tail(streams, handle, edata)
    }

    /// Skip the graphics of an entity (see [`spec_entity_graphics`]).
    fn read_entity_graphics(&mut self, streams: &mut StreamSet) -> (r: Result<(), DxfError>)
        requires
            old(self).inv(),
            streams_of(*old(streams), old(self).data(), old(self).spec_version()),
        ensures
            *final(self) == *old(self),
            streams_of(*final(streams), old(self).data(), old(self).spec_version()),
            final(streams).current_handle == old(streams).current_handle,
            match spec_entity_graphics(model_of(*old(streams)), old(self).data(), old(self).spec_version()) {
                Err(e) => r == Err::<(), DxfError>(e),
                Ok(m) => r == Ok::<(), DxfError>(()) && model_of(*final(streams)) == m,
            },
    {
        let graphic_present = streams.object_reader.read_bit()?;
        if graphic_present {
            if self.sio.r2010_plus {
                let gfx_size = streams.object_reader.read_bit_long_long()? as usize;
                streams.object_reader.advance(gfx_size);
            } else {
                let gfx_size = streams.object_reader.read_raw_long()? as usize;
                streams.object_reader.advance(gfx_size);
            }
        }
        Ok(())
    }

    /// Read the entity mode, the owner and the reactors of an entity (see
    /// [`spec_entity_owner`]).
    fn read_entity_owner(&mut self, streams: &mut StreamSet) -> (r: Result<(u8, u64, Vec<u64>, u64), DxfError>)
        requires
            old(self).inv(),
            streams_of(*old(streams), old(self).data(), old(self).spec_version()),
        ensures
            *final(self) == *old(self),
            streams_of(*final(streams), old(self).data(), old(self).spec_version()),
            final(streams).current_handle == old(streams).current_handle,
            match spec_entity_owner(model_of(*old(streams)), old(self).data().len(), old(self).spec_version()) {
                Err(e) => r == Err::<(u8, u64, Vec<u64>, u64), DxfError>(e),
                Ok(((mode, owner, rs, x), m)) => r matches Ok((mode2, owner2, rs2, x2)) && mode2 == mode
                    && owner2 == owner && rs2@ == rs && x2 == x && model_of(*final(streams)) == m,
            },
    {
        let entity_mode = streams.object_reader.read_2bits()?;
        let owner = if entity_mode == 0 {
            streams.handles_reader.handle_reference()?
        } else {
            0
        };
        let (reactors, xdict) = self.read_reactors_and_dictionary_handle(streams)?;
        Ok((entity_mode, owner, reactors, xdict))
    }

    /// Read the R13-R14 layer and linetype and the links of an entity
    /// (see [`spec_entity_links`]).
    fn read_entity_links(&mut self, streams: &mut StreamSet, ent: CadEntityTemplateData)
        -> (r: Result<CadEntityTemplateData, DxfError>)
        requires
            old(self).inv(),
            streams_of(*old(streams), old(self).data(), old(self).spec_version()),
        ensures
            *final(self) == *old(self),
            streams_of(*final(streams), old(self).data(), old(self).spec_version()),
            final(streams).current_handle == old(streams).current_handle,
            match spec_entity_links(model_of(*old(streams)), old(self).data().len(), old(self).spec_version(), ent) {
                Err(e) => r == Err::<CadEntityTemplateData, DxfError>(e),
                Ok((ent2, m)) => r == Ok::<CadEntityTemplateData, DxfError>(ent2) && model_of(*final(streams)) == m,
            },
    {
        let mut ent = ent;
        if self.sio.r13_14_only {
            ent.layer_handle = streams.handles_reader.handle_reference()?;
            let is_bylayer_lt = streams.object_reader.read_bit()?;
            if !is_bylayer_lt {
                ent.linetype_handle = streams.handles_reader.handle_reference()?;
            }
        }
        if !self.sio.r2004_plus {
            let no_links = streams.object_reader.read_bit()?;
            if !no_links {
                ent.prev_entity = streams.handles_reader.handle_reference()?;
                ent.next_entity = streams.handles_reader.handle_reference()?;
            }
        }
        Ok(ent)
    }

    /// Read the color, the color-book handle and the linetype scale of an
    /// entity (see [`spec_entity_color`]).
    fn read_entity_color(&mut self, streams: &mut StreamSet, ent: CadEntityTemplateData)
        -> (r: Result<((DwgColor, DwgTransparency), CadEntityTemplateData), DxfError>)
        requires
            old(self).inv(),
            streams_of(*old(streams), old(self).data(), old(self).spec_version()),
        ensures
            *final(self) == *old(self),
            streams_of(*final(streams), old(self).data(), old(self).spec_version()),
            final(streams).current_handle == old(streams).current_handle,
            match spec_entity_color(model_of(*old(streams)), old(self).data().len(), old(self).spec_version(), ent) {
                Err(e) => r == Err::<((DwgColor, DwgTransparency), CadEntityTemplateData), DxfError>(e),
                Ok((ct, ent2, m)) => r == Ok::<((DwgColor, DwgTransparency), CadEntityTemplateData), DxfError>((ct, ent2))
                    && model_of(*final(streams)) == m,
            },
    {
        let mut ent = ent;
        let (color, transparency, has_color_handle) = streams.object_reader.read_en_color()?;
        if self.sio.r2004_plus && has_color_handle {
            ent.color_handle = streams.handles_reader.handle_reference()?;
        }
        let _linetype_scale = streams.object_reader.read_bit_double()?;
        Ok(((color, transparency), ent))
    }

    /// Read a handle from the handle stream when `flags` is 3 (0 otherwise).
    fn read_flagged_handle(&mut self, streams: &mut StreamSet, flags: u8) -> (r: Result<u64, DxfError>)
        requires
            old(self).inv(),
            streams_of(*old(streams), old(self).data(), old(self).spec_version()),
        ensures
            *final(self) == *old(self),
            streams_of(*final(streams), old(self).data(), old(self).spec_version()),
            final(streams).current_handle == old(streams).current_handle,
            match spec_flagged_handle(model_of(*old(streams)), old(self).data().len(), flags as nat) {
                Err(e) => r == Err::<u64, DxfError>(e),
                Ok((h, m)) => r == Ok::<u64, DxfError>(h) && model_of(*final(streams)) == m,
            },
    {
        if flags == 3 {
            streams.handles_reader.handle_reference()
        } else {
            Ok(0)
        }
    }

    /// Read a handle from the handle stream when `present` holds, and drop it.
    fn skip_handle(&mut self, streams: &mut StreamSet, present: bool) -> (r: Result<(), DxfError>)
        requires
            old(self).inv(),
            streams_of(*old(streams), old(self).data(), old(self).spec_version()),
        ensures
            *final(self) == *old(self),
            streams_of(*final(streams), old(self).data(), old(self).spec_version()),
            final(streams).current_handle == old(streams).current_handle,
            match spec_skipped_handle(model_of(*old(streams)), old(self).data().len(), present) {
                Err(e) => r == Err::<(), DxfError>(e),
                Ok(m) => r == Ok::<(), DxfError>(()) && model_of(*final(streams)) == m,
            },
    {
        if present {
            let _handle = streams.handles_reader.handle_reference()?;
        }
        Ok(())
    }

    /// Read the layer and linetype of an entity (see [`spec_entity_linetype`]).
    fn read_entity_linetype(&mut self, streams: &mut StreamSet, ent: CadEntityTemplateData)
        -> (r: Result<CadEntityTemplateData, DxfError>)
        requires
            old(self).inv(),
            streams_of(*old(streams), old(self).data(), old(self).spec_version()),
        ensures
            *final(self) == *old(self),
            streams_of(*final(streams), old(self).data(), old(self).spec_version()),
            final(streams).current_handle == old(streams).current_handle,
            match spec_entity_linetype(model_of(*old(streams)), old(self).data().len(), ent) {
                Err(e) => r == Err::<CadEntityTemplateData, DxfError>(e),
                Ok((ent2, m)) => r == Ok::<CadEntityTemplateData, DxfError>(ent2) && model_of(*final(streams)) == m,
            },
    {
        let mut ent = ent;
        ent.layer_handle = streams.handles_reader.handle_reference()?;
        ent.ltype_flags = streams.object_reader.read_2bits()?;
        let lt = self.read_flagged_handle(streams, ent.ltype_flags)?;
        if ent.ltype_flags == 3 {
            ent.linetype_handle = lt;
        }
        Ok(ent)
    }

    /// Read the material of an entity (see [`spec_entity_material`]).
    fn read_entity_material(&mut self, streams: &mut StreamSet, ent: CadEntityTemplateData)
        -> (r: Result<CadEntityTemplateData, DxfError>)
        requires
            old(self).inv(),
            streams_of(*old(streams), old(self).data(), old(self).spec_version()),
        ensures
            *final(self) == *old(self),
            streams_of(*final(streams), old(self).data(), old(self).spec_version()),
            final(streams).current_handle == old(streams).current_handle,
            match spec_entity_material(model_of(*old(streams)), old(self).data().len(), old(self).spec_version(), ent) {
                Err(e) => r == Err::<CadEntityTemplateData, DxfError>(e),
                Ok((ent2, m)) => r == Ok::<CadEntityTemplateData, DxfError>(ent2) && model_of(*final(streams)) == m,
            },
    {
        let mut ent = ent;
        if self.sio.r2007_plus {
            let material_flags = streams.object_reader.read_2bits()?;
            let mat = self.read_flagged_handle(streams, material_flags)?;
            if material_flags == 3 {
                ent.material_handle = mat;
            }
            let _shadow_flags = streams.object_reader.read_raw_char()?;
        }
        Ok(ent)
    }

    /// Read the plot style and the visual styles of an entity (see
    /// [`spec_entity_plotstyle`]).
    fn read_entity_plotstyle(&mut self, streams: &mut StreamSet, ent: CadEntityTemplateData)
        -> (r: Result<CadEntityTemplateData, DxfError>)
        requires
            old(self).inv(),
            streams_of(*old(streams), old(self).data(), old(self).spec_version()),
        ensures
            *final(self) == *old(self),
            streams_of(*final(streams), old(self).data(), old(self).spec_version()),
            final(streams).current_handle == old(streams).current_handle,
            match spec_entity_plotstyle(model_of(*old(streams)), old(self).data().len(), old(self).spec_version(), ent) {
                Err(e) => r == Err::<CadEntityTemplateData, DxfError>(e),
                Ok((ent2, m)) => r == Ok::<CadEntityTemplateData, DxfError>(ent2) && model_of(*final(streams)) == m,
            },
    {
        let mut ent = ent;
        let plotstyle_flags = streams.object_reader.read_2bits()?;
        let ps = self.read_flagged_handle(streams, plotstyle_flags)?;
        if plotstyle_flags == 3 {
            ent.plotstyle_handle = ps;
        }
        if self.sio.r2010_plus {
            let has_full_vs = streams.object_reader.read_bit()?;
            let has_face_vs = streams.object_reader.read_bit()?;
            let has_edge_vs = streams.object_reader.read_bit()?;
            self.skip_handle(streams, has_full_vs)?;
            self.skip_handle(streams, has_face_vs)?;
            self.skip_handle(streams, has_edge_vs)?;
        }
        Ok(ent)
    }

    /// Read the R2000 handles and flags of an entity (see
    /// [`spec_entity_r2000`]).
    fn read_entity_r2000(&mut self, streams: &mut StreamSet, ent: CadEntityTemplateData)
        -> (r: Result<CadEntityTemplateData, DxfError>)
        requires
            old(self).inv(),
            streams_of(*old(streams), old(self).data(), old(self).spec_version()),
        ensures
            *final(self) == *old(self),
            streams_of(*final(streams), old(self).data(), old(self).spec_version()),
            final(streams).current_handle == old(streams).current_handle,
            match spec_entity_r2000(model_of(*old(streams)), old(self).data().len(), old(self).spec_version(), ent) {
                Err(e) => r == Err::<CadEntityTemplateData, DxfError>(e),
                Ok((ent2, m)) => r == Ok::<CadEntityTemplateData, DxfError>(ent2) && model_of(*final(streams)) == m,
            },
    {
        if self.sio.r2000_plus {
            let ent = self.read_entity_linetype(streams, ent)?;
            let ent = self.read_entity_material(streams, ent)?;
            self.read_entity_plotstyle(streams, ent)
        } else {
            Ok(ent)
        }
    }

    /// Read the invisibility and the lineweight of an entity (see
    /// [`spec_entity_visibility`]).
    fn read_entity_visibility(&mut self, streams: &mut StreamSet) -> (r: Result<(bool, Option<u8>), DxfError>)
        requires
            old(self).inv(),
            streams_of(*old(streams), old(self).data(), old(self).spec_version()),
        ensures
            *final(self) == *old(self),
            streams_of(*final(streams), old(self).data(), old(self).spec_version()),
            final(streams).current_handle == old(streams).current_handle,
            match spec_entity_visibility(model_of(*old(streams)), old(self).data().len(), old(self).spec_version()) {
                Err(e) => r == Err::<(bool, Option<u8>), DxfError>(e),
                Ok((res, m)) => r == Ok::<(bool, Option<u8>), DxfError>(res) && model_of(*final(streams)) == m,
            },
    {
        let invis_flags = streams.object_reader.read_bit_short()?;
        let invisible = (invis_flags & 1) != 0;
        if self.sio.r2000_plus {
            let lw = streams.object_reader.read_raw_char()?;
            Ok((invisible, Some(lw)))
        } else {
            Ok((invisible, None))
        }
    }

    /// Read the common data of an entity (see [`spec_common_entity`]): the
    /// common template fields, the entity template fields and the display
    /// properties.
    pub fn read_common_entity_data(&mut self, streams: &mut StreamSet)
        -> (r: Result<(CadTemplateCommon<XDataValue>, CadEntityTemplateData, EntityCommon), DxfError>)
        requires
            old(self).inv(),
            streams_of(*old(streams), old(self).data(), old(self).spec_version()),
        ensures
            *final(self) == *old(self),
            streams_of(*final(streams), old(self).data(), old(self).spec_version()),
            final(streams).current_handle == old(streams).current_handle,
            match spec_common_entity(model_of(*old(streams)), old(self).data(), old(self).spec_version(),
                old(self).initial_pos()) {
                Err(e) => r == Err::<(CadTemplateCommon<XDataValue>, CadEntityTemplateData, EntityCommon), DxfError>(e),
                Ok(((cm, ent, ec), m)) => r matches Ok((t, ent2, ec2)) && common_model(t) == cm && ent2 == ent
                    && ec2 == ec && model_of(*final(streams)) == m,
            },
    {
        proof { reveal(spec_common_entity); }
        let (handle, edata) = self.read_object_head(streams)?;
        self.read_entity_graphics(streams)?;
        if self.sio.r13_14_only {
            self.update_handle_reader(streams)?;
        }
        let (entity_mode, owner_handle, reactor_handles, xdict_handle) = self.read_entity_owner(streams)?;
        let ent = CadEntityTemplateData {
            entity_mode,
            prev_entity: 0,
            next_entity: 0,
            layer_handle: 0,
            linetype_handle: 0,
            ltype_flags: 0,
            plotstyle_handle: 0,
            material_handle: 0,
            color_handle: 0,
        };
        let ent = self.read_entity_links(streams, ent)?;
        let ((color, transparency), ent) = self.read_entity_color(streams, ent)?;
        let ent = self.read_entity_r2000(streams, ent)?;
        let (invisible, line_weight) = self.read_entity_visibility(streams)?;
        let common = CadTemplateCommon { handle, owner_handle, reactor_handles, xdict_handle, edata };
        let entity_common = EntityCommon { handle, color, transparency, invisible, line_weight };
        Ok((common, ent, entity_common))
    }

    /// Read an entity of a kind that is not decoded: its common data only,
    /// with an empty DXF name.
    pub fn read_unknown_entity(&mut self, streams: &mut StreamSet)
        -> (r: Result<CadTemplate<XDataValue, UnknownEntity>, DxfError>)
        requires
            old(self).inv(),
            streams_of(*old(streams), old(self).data(), old(self).spec_version()),
        ensures
            *final(self) == *old(self),
            streams_of(*final(streams), old(self).data(), old(self).spec_version()),
            final(streams).current_handle == old(streams).current_handle,
            entity_template_read(r, spec_common_entity(model_of(*old(streams)), old(self).data(),
                old(self).spec_version(), old(self).initial_pos()), Seq::empty(), *final(streams)),
    {
        let (common, entity_data, entity_common) = self.read_common_entity_data(streams)?;
        let entity = UnknownEntity { common: entity_common, dxf_name: String::new() };
        Ok(CadTemplate::Entity { common, entity_data, entity })
    }

    /// Read a proxy entity: its common data, named `AcDbProxyEntity`.
    pub fn read_proxy_entity(&mut self, streams: &mut StreamSet)
        -> (r: Result<CadTemplate<XDataValue, UnknownEntity>, DxfError>)
        requires
            old(self).inv(),
            streams_of(*old(streams), old(self).data(), old(self).spec_version()),
        ensures
            *final(self) == *old(self),
            streams_of(*final(streams), old(self).data(), old(self).spec_version()),
            final(streams).current_handle == old(streams).current_handle,
            entity_template_read(r, spec_common_entity(model_of(*old(streams)), old(self).data(),
                old(self).spec_version(), old(self).initial_pos()), "AcDbProxyEntity"@, *final(streams)),
    {
        let (common, entity_data, entity_common) = self.read_common_entity_data(streams)?;
        let entity = UnknownEntity { common: entity_common, dxf_name: String::from_str("AcDbProxyEntity") };
        Ok(CadTemplate::Entity { common, entity_data, entity })
    }

    /// Read a non-graphical object of a kind that is not decoded: its
    /// common data, as a generic object.
    pub fn read_unknown_non_graphical_object<E>(&mut self, streams: &mut StreamSet)
        -> (r: Result<CadTemplate<XDataValue, E>, DxfError>)
        requires
            old(self).inv(),
            streams_of(*old(streams), old(self).data(), old(self).spec_version()),
        ensures
            *final(self) == *old(self),
            streams_of(*final(streams), old(self).data(), old(self).spec_version()),
            final(streams).current_handle == old(streams).current_handle,
            object_template_read(r, spec_common_non_entity(model_of(*old(streams)), old(self).data(),
                old(self).spec_version(), old(self).initial_pos()), *final(streams)),
    {
        let common = self.read_common_non_entity_data(streams)?;
        Ok(CadTemplate::GenericObject { common })
    }

    /// Read a proxy object: its common data, as a generic object.
    pub fn read_proxy_object<E>(&mut self, streams: &mut StreamSet)
        -> (r: Result<CadTemplate<XDataValue, E>, DxfError>)
        requires
            old(self).inv(),
            streams_of(*old(streams), old(self).data(), old(self).spec_version()),
        ensures
            *final(self) == *old(self),
            streams_of(*final(streams), old(self).data(), old(self).spec_version()),
            final(streams).current_handle == old(streams).current_handle,
            object_template_read(r, spec_common_non_entity(model_of(*old(streams)), old(self).data(),
                old(self).spec_version(), old(self).initial_pos()), *final(streams)),
    {
        let common = self.read_common_non_entity_data(streams)?;
        Ok(CadTemplate::GenericObject { common })
    }

    /// Read a placeholder object: its common data, as a generic object.
    pub fn read_placeholder<E>(&mut self, streams: &mut StreamSet)
        -> (r: Result<CadTemplate<XDataValue, E>, DxfError>)
        requires
            old(self).inv(),
            streams_of(*old(streams), old(self).data(), old(self).spec_version()),
        ensures
            *final(self) == *old(self),
            streams_of(*final(streams), old(self).data(), old(self).spec_version()),
            final(streams).current_handle == old(streams).current_handle,
            object_template_read(r, spec_common_non_entity(model_of(*old(streams)), old(self).data(),
                old(self).spec_version(), old(self).initial_pos()), *final(streams)),
    {
        let common = self.read_common_non_entity_data(streams)?;
        Ok(CadTemplate::GenericObject { common })
    }

    /// Read a BitLong count, then that many handle references from the
    /// handle stream (see [`spec_counted_refs`]).
    fn read_counted_refs(&mut self, streams: &mut StreamSet) -> (r: Result<Vec<u64>, DxfError>)
        requires
            old(self).inv(),
            streams_of(*old(streams), old(self).data(), old(self).spec_version()),
        ensures
            *final(self) == *old(self),
            streams_of(*final(streams), old(self).data(), old(self).spec_version()),
            final(streams).current_handle == old(streams).current_handle,
            match spec_counted_refs(model_of(*old(streams)), old(self).data().len(), old(streams).current_handle) {
                Err(e) => r == Err::<Vec<u64>, DxfError>(e),
                Ok((hs, m)) => r matches Ok(v) && v@ == hs && model_of(*final(streams)) == m,
            },
    {
        let num_entries = streams.object_reader.read_bit_long()? as usize;
        let reference = streams.current_handle;
        read_handle_list(&mut streams.handles_reader, reference, num_entries)
    }

    /// Read a table control object of type `table_type` (see
    /// [`spec_table_control`], plain tail).
    pub fn read_table_control<E>(&mut self, streams: &mut StreamSet, table_type: TableControlType)
        -> (r: Result<CadTemplate<XDataValue, E>, DxfError>)
        requires
            old(self).inv(),
            streams_of(*old(streams), old(self).data(), old(self).spec_version()),
        ensures
            *final(self) == *old(self),
            streams_of(*final(streams), old(self).data(), old(self).spec_version()),
            final(streams).current_handle == old(streams).current_handle,
            control_template_read(r, spec_table_control(model_of(*old(streams)), old(self).data(),
                old(self).spec_version(), old(self).initial_pos(), old(streams).current_handle, ControlTail::Plain),
                table_type, *final(streams)),
    {
        let common = self.read_common_non_entity_data(streams)?;
        let entry_handles = self.read_counted_refs(streams)?;
        Ok(CadTemplate::TableControl { common, table_data: CadTableTemplateData { entry_handles }, table_type })
    }

    /// Read the block control object: its entries, then the model-space and
    /// paper-space block handles, added to the entries (see
    /// [`spec_table_control`]).
    pub fn read_block_control<E>(&mut self, streams: &mut StreamSet) -> (r: Result<CadTemplate<XDataValue, E>, DxfError>)
        requires
            old(self).inv(),
            streams_of(*old(streams), old(self).data(), old(self).spec_version()),
        ensures
            *final(self) == *old(self),
            streams_of(*final(streams), old(self).data(), old(self).spec_version()),
            final(streams).current_handle == old(streams).current_handle,
            control_template_read(r, spec_table_control(model_of(*old(streams)), old(self).data(),
                old(self).spec_version(), old(self).initial_pos(), old(streams).current_handle, ControlTail::Blocks),
                TableControlType::BlockControl, *final(streams)),
    {
        let common = self.read_common_non_entity_data(streams)?;
        let mut entry_handles = self.read_counted_refs(streams)?;
        let model_space = streams.handle_ref()?;
        entry_handles.push(model_space);
        let paper_space = streams.handle_ref()?;
        entry_handles.push(paper_space);
        Ok(CadTemplate::TableControl {
            common,
            table_data: CadTableTemplateData { entry_handles },
            table_type: TableControlType::BlockControl,
        })
    }

    /// Read the linetype control object: its entries, then the by-layer
    /// and by-block linetype handles, not kept (see [`spec_table_control`]).
    pub fn read_ltype_control<E>(&mut self, streams: &mut StreamSet) -> (r: Result<CadTemplate<XDataValue, E>, DxfError>)
        requires
            old(self).inv(),
            streams_of(*old(streams), old(self).data(), old(self).spec_version()),
        ensures
            *final(self) == *old(self),
            streams_of(*final(streams), old(self).data(), old(self).spec_version()),
            final(streams).current_handle == old(streams).current_handle,
            control_template_read(r, spec_table_control(model_of(*old(streams)), old(self).data(),
                old(self).spec_version(), old(self).initial_pos(), old(streams).current_handle, ControlTail::Linetypes),
                TableControlType::LineTypeControl, *final(streams)),
    {
        let common = self.read_common_non_entity_data(streams)?;
        let entry_handles = self.read_counted_refs(streams)?;
        let _by_layer = streams.handle_ref()?;
        let _by_block = streams.handle_ref()?;
        Ok(CadTemplate::TableControl {
            common,
            table_data: CadTableTemplateData { entry_handles },
            table_type: TableControlType::LineTypeControl,
        })
    }

    /// Read one dictionary entry: a name (a text) and a handle reference.
    fn read_dictionary_entry(&mut self, streams: &mut StreamSet) -> (r: Result<(String, u64), DxfError>)
        requires
            old(self).inv(),
            streams_of(*old(streams), old(self).data(), old(self).spec_version()),
        ensures
            *final(self) == *old(self),
            streams_of(*final(streams), old(self).data(), old(self).spec_version()),
            final(streams).current_handle == old(streams).current_handle,
            match spec_stream_text(model_of(*old(streams)), old(self).data().len(), old(self).spec_version()) {
                Err(e) => r matches Err(e2) && e2 == e,
                Ok((name, m1)) => match spec_next_ref(m1, old(self).data().len(), old(streams).current_handle) {
                    Err(e) => r matches Err(e2) && e2 == e,
                    Ok((h, m2)) => r matches Ok((n2, h2)) && n2@ == name && h2 == h && model_of(*final(streams)) == m2,
                },
            },
    {
        let name = streams.read_text()?;
        let handle = streams.handle_ref()?;
        Ok((name, handle))
    }

    /// Read the start of the data of a dictionary (see
    /// [`spec_dictionary_head`]): the entry count.
    fn read_dictionary_head(&mut self, streams: &mut StreamSet) -> (r: Result<usize, DxfError>)
        requires
            old(self).inv(),
            streams_of(*old(streams), old(self).data(), old(self).spec_version()),
        ensures
            *final(self) == *old(self),
            streams_of(*final(streams), old(self).data(), old(self).spec_version()),
            final(streams).current_handle == old(streams).current_handle,
            match spec_dictionary_head(model_of(*old(streams)), old(self).data().len(), old(self).spec_version()) {
                Err(e) => r matches Err(e2) && e2 == e,
                Ok((n, m)) => r matches Ok(n2) && n2 == n && model_of(*final(streams)) == m,
            },
    {
        let num_entries = streams.object_reader.read_bit_long()? as usize;
        if self.sio.r13_14_only {
            let _unknown = streams.object_reader.read_raw_char()?;
        }
        if self.sio.r2000_plus {
            let _cloning = streams.object_reader.read_bit_short()?;
            let _hard_owner = streams.object_reader.read_raw_char()?;
        }
        Ok(num_entries)
    }

    /// Read `num_entries` dictionary entries (see [`spec_dictionary_entries`]).
    fn read_dictionary_entries(&mut self, streams: &mut StreamSet, num_entries: usize)
        -> (r: Result<Vec<(String, u64)>, DxfError>)
        requires
            old(self).inv(),
            streams_of(*old(streams), old(self).data(), old(self).spec_version()),
        ensures
            *final(self) == *old(self),
            streams_of(*final(streams), old(self).data(), old(self).spec_version()),
            final(streams).current_handle == old(streams).current_handle,
            match spec_dictionary_entries(model_of(*old(streams)), old(self).data().len(), old(self).spec_version(),
                old(streams).current_handle, num_entries as nat) {
                Err(e) => r matches Err(e2) && e2 == e,
                Ok((es, m)) => r matches Ok(v) && dictionary_model(v@) == es && model_of(*final(streams)) == m,
            },
    {
        let ghost len = self.data().len();
        let ghost v = self.spec_version();
        let ghost reference = streams.current_handle;
        let ghost total = spec_dictionary_entries(model_of(*streams), len, v, reference, num_entries as nat);
        let mut entries: Vec<(String, u64)> = Vec::new();
        let mut i: usize = 0;
        proof {
            if let Ok((es, m)) = total {
                assert(dictionary_model(entries@) + es =~= es);
            }
        }
        while i < num_entries
            invariant
                i <= num_entries,
                *self == *old(self),
                self.inv(),
                len == self.data().len(),
                v == self.spec_version(),
                reference == streams.current_handle,
                reference == old(streams).current_handle,
                streams_of(*streams, self.data(), self.spec_version()),
                total == spec_dictionary_entries(model_of(*old(streams)), len, v, reference, num_entries as nat),
                total == (match spec_dictionary_entries(model_of(*streams), len, v, reference, (num_entries - i) as nat) {
                    Err(e) => Err(e),
                    Ok((es, m)) => Ok((dictionary_model(entries@) + es, m)),
                }),
            decreases num_entries - i,
        {
            let ghost m0 = model_of(*streams);
            let (name, handle) = match self.read_dictionary_entry(streams) {
                Ok(x) => x,
                Err(e) => {
                    proof {
                        assert(spec_dictionary_entries(m0, len, v, reference, (num_entries - i) as nat) matches Err(e2) && e2 == e);
                    }
                    return Err(e);
                },
            };
            let ghost before = entries@;
            if handle != 0 && name.as_str().unicode_len() != 0 {
                entries.push((name, handle));
                proof {
                    assert(dictionary_model(entries@) =~= dictionary_model(before).push((name@, handle)));
                }
            }
            proof {
                let rest = spec_dictionary_entries(model_of(*streams), len, v, reference, (num_entries - i - 1) as nat);
                if let Ok((es, m)) = rest {
                    if handle != 0 && name@.len() > 0 {
                        assert(dictionary_model(before) + (seq![(name@, handle)] + es) =~= dictionary_model(entries@) + es);
                    } else {
                        assert(dictionary_model(before) == dictionary_model(entries@));
                    }
                }
            }
            i = i + 1;
        }
        proof {
            if let Ok((es, m)) = total {
                assert(dictionary_model(entries@) + Seq::<(Seq<char>, u64)>::empty() =~= dictionary_model(entries@));
            }
        }
        Ok(entries)
    }

    /// Read the data of a dictionary (see [`spec_dictionary_data`]).
    pub fn read_common_dictionary_data(&mut self, streams: &mut StreamSet)
        -> (r: Result<CadDictionaryTemplateData, DxfError>)
        requires
            old(self).inv(),
            streams_of(*old(streams), old(self).data(), old(self).spec_version()),
        ensures
            *final(self) == *old(self),
            streams_of(*final(streams), old(self).data(), old(self).spec_version()),
            final(streams).current_handle == old(streams).current_handle,
            match spec_dictionary_data(model_of(*old(streams)), old(self).data().len(), old(self).spec_version(),
                old(streams).current_handle) {
                Err(e) => r matches Err(e2) && e2 == e,
                Ok((es, m)) => r matches Ok(d) && dictionary_model(d.entries@) == es && model_of(*final(streams)) == m,
            },
    {
        let num_entries = self.read_dictionary_head(streams)?;
        let entries = self.read_dictionary_entries(streams, num_entries)?;
        Ok(CadDictionaryTemplateData { entries })
    }

    /// Read a dictionary: its common data and its entries.
    pub fn read_dictionary<E>(&mut self, streams: &mut StreamSet) -> (r: Result<CadTemplate<XDataValue, E>, DxfError>)
        requires
            old(self).inv(),
            streams_of(*old(streams), old(self).data(), old(self).spec_version()),
        ensures
            *final(self) == *old(self),
            streams_of(*final(streams), old(self).data(), old(self).spec_version()),
            final(streams).current_handle == old(streams).current_handle,
            ({
                let len = old(self).data().len();
                match spec_common_non_entity(model_of(*old(streams)), old(self).data(), old(self).spec_version(),
                    old(self).initial_pos()) {
                    Err(e) => r matches Err(e2) && e2 == e,
                    Ok((cm, m1)) => match spec_dictionary_data(m1, len, old(self).spec_version(), old(streams).current_handle) {
                        Err(e) => r matches Err(e2) && e2 == e,
                        Ok((es, m2)) => r matches Ok(CadTemplate::DictionaryObj { common, dict_data })
                            && common_model(common) == cm && dictionary_model(dict_data.entries@) == es
                            && model_of(*final(streams)) == m2,
                    },
                }
            }),
    {
        let common = self.read_common_non_entity_data(streams)?;
        let dict_data = self.read_common_dictionary_data(streams)?;
        Ok(CadTemplate::DictionaryObj { common, dict_data })
    }

    /// Read a dictionary with a default entry: its common data, its
    /// entries and the handle of the default entry.
    pub fn read_dictionary_with_default<E>(&mut self, streams: &mut StreamSet)
        -> (r: Result<CadTemplate<XDataValue, E>, DxfError>)
        requires
            old(self).inv(),
            streams_of(*old(streams), old(self).data(), old(self).spec_version()),
        ensures
            *final(self) == *old(self),
            streams_of(*final(streams), old(self).data(), old(self).spec_version()),
            final(streams).current_handle == old(streams).current_handle,
            ({
                let len = old(self).data().len();
                let reference = old(streams).current_handle;
                match spec_common_non_entity(model_of(*old(streams)), old(self).data(), old(self).spec_version(),
                    old(self).initial_pos()) {
                    Err(e) => r matches Err(e2) && e2 == e,
                    Ok((cm, m1)) => match spec_dictionary_data(m1, len, old(self).spec_version(), reference) {
                        Err(e) => r matches Err(e2) && e2 == e,
                        Ok((es, m2)) => match spec_next_ref(m2, len, reference) {
                            Err(e) => r matches Err(e2) && e2 == e,
                            Ok((d, m3)) => r matches Ok(CadTemplate::DictWithDefault { common, dict_default_data })
                                && common_model(common) == cm && dictionary_model(dict_default_data.dict_data.entries@) == es
                                && dict_default_data.default_entry_handle == d && model_of(*final(streams)) == m3,
                        },
                    },
                }
            }),
    {
        let common = self.read_common_non_entity_data(streams)?;
        let dict_data = self.read_common_dictionary_data(streams)?;
        let default_handle = streams.handle_ref()?;
        Ok(CadTemplate::DictWithDefault {
            common,
            dict_default_data: CadDictWithDefaultTemplateData { dict_data, default_entry_handle: default_handle },
        })
    }

    /// Read a dictionary variable: its common data, an integer (a byte)
    /// and a value (a text), neither kept; a generic object.
    pub fn read_dictionary_var<E>(&mut self, streams: &mut StreamSet) -> (r: Result<CadTemplate<XDataValue, E>, DxfError>)
        requires
            old(self).inv(),
            streams_of(*old(streams), old(self).data(), old(self).spec_version()),
        ensures
            *final(self) == *old(self),
            streams_of(*final(streams), old(self).data(), old(self).spec_version()),
            final(streams).current_handle == old(streams).current_handle,
            ({
                let len = old(self).data().len();
                match spec_common_non_entity(model_of(*old(streams)), old(self).data(), old(self).spec_version(),
                    old(self).initial_pos()) {
                    Err(e) => r matches Err(e2) && e2 == e,
                    Ok((cm, m1)) => match spec_read_byte(m1.object) {
                        None => r matches Err(e2) && e2 == DxfError::UnexpectedEof,
                        Some((_, c2)) => match spec_stream_text(on_object(m1, len, c2), len, old(self).spec_version()) {
                            Err(e) => r matches Err(e2) && e2 == e,
                            Ok((_, m3)) => r matches Ok(CadTemplate::GenericObject { common })
                                && common_model(common) == cm && model_of(*final(streams)) == m3,
                        },
                    },
                }
            }),
    {
        let common = self.read_common_non_entity_data(streams)?;
        let _int_val = streams.object_reader.read_raw_char()?;
        let _value = streams.read_text()?;
        Ok(CadTemplate::GenericObject { common })
    }

    /// Read a group (see [`spec_group`]).
    pub fn read_group<E>(&mut self, streams: &mut StreamSet) -> (r: Result<CadTemplate<XDataValue, E>, DxfError>)
        requires
            old(self).inv(),
            streams_of(*old(streams), old(self).data(), old(self).spec_version()),
        ensures
            *final(self) == *old(self),
            streams_of(*final(streams), old(self).data(), old(self).spec_version()),
            final(streams).current_handle == old(streams).current_handle,
            match spec_group(model_of(*old(streams)), old(self).data(), old(self).spec_version(), old(self).initial_pos(),
                old(streams).current_handle) {
                Err(e) => r matches Err(e2) && e2 == e,
                Ok(((cm, hs), m)) => r matches Ok(CadTemplate::GroupObj { common, group_data })
                    && common_model(common) == cm && group_data.entity_handles@ == hs && model_of(*final(streams)) == m,
            },
    {
        let common = self.read_common_non_entity_data(streams)?;
        let _description = streams.read_text()?;
        let _unnamed = streams.object_reader.read_bit_short()?;
        let _selectable = streams.object_reader.read_bit_short()?;
        let entity_handles = self.read_counted_refs(streams)?;
        Ok(CadTemplate::GroupObj { common, group_data: CadGroupTemplateData { entity_handles } })
    }

    /// The DWG version.
    pub fn version(&self) -> (r: DxfVersion)
        ensures
            r == self.spec_version(),
    {
        self.version
    }

    /// Read the fields of the layout `kinds` in order (see [`spec_fields`]).
    pub(crate) fn read_fields(&mut self, streams: &mut StreamSet, kinds: &Vec<FieldKind>)
        -> (r: Result<Vec<FieldValue>, DxfError>)
        requires
            old(self).inv(),
            streams_of(*old(streams), old(self).data(), old(self).spec_version()),
        ensures
            *final(self) == *old(self),
            streams_of(*final(streams), old(self).data(), old(self).spec_version()),
            final(streams).current_handle == old(streams).current_handle,
            match spec_fields(model_of(*old(streams)), old(self).data().len(), old(self).spec_version(),
                old(streams).current_handle, kinds@) {
                Err(e) => r matches Err(e2) && e2 == e,
                Ok((fs, m)) => r matches Ok(v) && fields_model(v@) == fs && model_of(*final(streams)) == m,
            },
    {
        read_stream_fields(streams, kinds)
    }

    /// Read a handle reference from `handles_reader`, resolved against
    /// `ref_handle`, and queue it when it is not zero, not read yet and
    /// has no template yet.
    pub fn handle_reference(handles_reader: &mut DwgStreamReaderBase, ref_handle: u64,
        handles_queue: &mut VecDeque<u64>, read_objects: &HashSet<u64>, existing_templates: &HashSet<u64>)
        -> (r: Result<u64, DxfError>)
        ensures
            match spec_handle_reference(old(handles_reader).cursor(), ref_handle) {
                Err(e) => r == Err::<u64, DxfError>(e) && final(handles_queue)@ == old(handles_queue)@,
                Ok(((h, _), c)) => {
                    &&& r == Ok::<u64, DxfError>(h)
                    &&& old(handles_reader).moved_to(final(handles_reader), c)
                    &&& final(handles_queue)@ == if h != 0 && !read_objects@.contains(h)
                        && !existing_templates@.contains(h) {
                        old(handles_queue)@.push(h)
                    } else {
                        old(handles_queue)@
                    }
                },
            },
            old(handles_reader).same_source(final(handles_reader)),
    {
        let value = handles_reader.handle_reference_resolved(ref_handle)?;
        if value != 0 && !read_objects.contains(&value) && !existing_templates.contains(&value) {
            handles_queue.push_back(value);
        }
        Ok(value)
    }
}

/// A class with the same content as `c`.
fn copy_class(c: &DxfClass) -> (r: DxfClass)
    ensures
        r@ == c@,
{
    DxfClass {
        class_number: c.class_number,
        proxy_flags: c.proxy_flags,
        application_name: c.application_name.clone(),
        cpp_class_name: c.cpp_class_name.clone(),
        dxf_name: c.dxf_name.clone(),
        was_zombie: c.was_zombie,
        item_class_id: c.item_class_id,
        is_an_entity: c.is_an_entity,
        instance_count: c.instance_count,
        dwg_version: c.dwg_version,
        maintenance_version: c.maintenance_version,
    }
}

/// Read the xref-dependent flag of a table entry of version `v` from
/// `reader` (see [`spec_xref_dependant`]).
pub(crate) fn read_xref_flag(reader: &mut DwgStreamReaderBase, v: DxfVersion) -> (r: Result<bool, DxfError>)
    ensures
        match spec_xref_dependant(old(reader).cursor(), v) {
            Err(e) => r == Err::<bool, DxfError>(e),
            Ok((b, c)) => r == Ok::<bool, DxfError>(b) && old(reader).moved_to(final(reader), c),
        },
        old(reader).same_source(final(reader)),
{
    let ghost s0 = *reader;
    if v.at_least(DxfVersion::AC1021) {
        let xrefindex = reader.read_bit_short()?;
        Ok((xrefindex & 0x100) != 0)
    } else {
        let _referenced = reader.read_bit()?;
        let ghost s1 = *reader;
        let _xrefindex = reader.read_bit_short()?;
        let ghost s2 = *reader;
        let is_xref = reader.read_bit()?;
        proof {
            DwgStreamReaderBase::lemma_moved_trans(&s0, &s1, &s2, s1.cursor(), s2.cursor());
            DwgStreamReaderBase::lemma_moved_trans(&s0, &s2, reader, s2.cursor(), reader.cursor());
        }
        Ok(is_xref)
    }
}

/// Read one field of kind `kind` from `streams` (see [`spec_field`]).
pub(crate) fn read_stream_field(streams: &mut StreamSet, kind: FieldKind) -> (r: Result<FieldValue, DxfError>)
    requires
        streams_of(*old(streams), old(streams).object_reader.data(), old(streams).object_reader.spec_version()),
    ensures
        streams_of(*final(streams), old(streams).object_reader.data(), old(streams).object_reader.spec_version()),
        final(streams).current_handle == old(streams).current_handle,
        final(streams).merged == old(streams).merged,
        final(streams).has_separate_text_reader == old(streams).has_separate_text_reader,
        match spec_field(model_of(*old(streams)), old(streams).object_reader.data().len(),
            old(streams).object_reader.spec_version(), old(streams).current_handle, kind) {
            Err(e) => r matches Err(e2) && e2 == e,
            Ok((f, m)) => r matches Ok(x) && x@ == f && model_of(*final(streams)) == m,
        },
{
    match kind {
        FieldKind::Bit => Ok(FieldValue::Bool(streams.object_reader.read_bit()?)),
        FieldKind::BitShort => Ok(FieldValue::Short(streams.object_reader.read_bit_short()?)),
        FieldKind::BitLong => Ok(FieldValue::Long(streams.object_reader.read_bit_long()?)),
        FieldKind::BitLongLong => Ok(FieldValue::LongLong(streams.object_reader.read_bit_long_long()?)),
        FieldKind::BitDouble => Ok(FieldValue::Double(streams.object_reader.read_bit_double()?)),
        FieldKind::RawChar => Ok(FieldValue::Char(streams.object_reader.read_raw_char()?)),
        FieldKind::RawLong => Ok(FieldValue::Long(streams.object_reader.read_raw_long()?)),
        FieldKind::RawDouble => Ok(FieldValue::Double(streams.object_reader.read_raw_double()?)),
        FieldKind::CmColor => Ok(FieldValue::Color(streams.object_reader.read_cm_color()?)),
        FieldKind::Text => Ok(FieldValue::Text(streams.read_text()?)),
        FieldKind::Handle => Ok(FieldValue::Handle(streams.handle_ref()?)),
        FieldKind::ObjectHandle => Ok(FieldValue::Handle(streams.object_reader.handle_reference()?)),
        FieldKind::XrefBit => {
            let v = streams.object_reader.version();
            Ok(FieldValue::Bool(read_xref_flag(&mut streams.object_reader, v)?))
        },
        FieldKind::Extrusion => {
            let (x, y, z) = streams.object_reader.read_bit_extrusion()?;
            Ok(FieldValue::Point(x, y, z))
        },
        FieldKind::Thickness => Ok(FieldValue::Double(streams.object_reader.read_bit_thickness()?)),
        FieldKind::Point3 => {
            let (x, y, z) = streams.object_reader.read_3bit_double()?;
            Ok(FieldValue::Point(x, y, z))
        },
    }
}

/// Read the fields of the layout `kinds` from `streams`, in order (see
/// [`spec_fields`]).
pub(crate) fn read_stream_fields(streams: &mut StreamSet, kinds: &Vec<FieldKind>) -> (r: Result<Vec<FieldValue>, DxfError>)
    requires
        streams_of(*old(streams), old(streams).object_reader.data(), old(streams).object_reader.spec_version()),
    ensures
        streams_of(*final(streams), old(streams).object_reader.data(), old(streams).object_reader.spec_version()),
        final(streams).current_handle == old(streams).current_handle,
        match spec_fields(model_of(*old(streams)), old(streams).object_reader.data().len(),
            old(streams).object_reader.spec_version(), old(streams).current_handle, kinds@) {
            Err(e) => r matches Err(e2) && e2 == e,
            Ok((fs, m)) => r matches Ok(v) && fields_model(v@) == fs && model_of(*final(streams)) == m,
        },
{
    let ghost data = streams.object_reader.data();
    let ghost len = data.len();
    let ghost v = streams.object_reader.spec_version();
    let ghost reference = streams.current_handle;
    let ghost total = spec_fields(model_of(*streams), len, v, reference, kinds@);
    let mut values: Vec<FieldValue> = Vec::new();
    let mut i: usize = 0;
    proof {
        assert(kinds@.skip(0) =~= kinds@);
        if let Ok((fs, m)) = total {
            assert(fields_model(values@) + fs =~= fs);
        }
    }
    while i < kinds.len()
        invariant
            i <= kinds@.len(),
            len == data.len(),
            data == old(streams).object_reader.data(),
            v == old(streams).object_reader.spec_version(),
            reference == streams.current_handle,
            reference == old(streams).current_handle,
            streams_of(*streams, data, v),
            total == spec_fields(model_of(*old(streams)), len, v, reference, kinds@),
            total == fields_with_prefix(fields_model(values@),
                spec_fields(model_of(*streams), len, v, reference, kinds@.skip(i as int))),
        decreases kinds@.len() - i,
    {
        let ghost m0 = model_of(*streams);
        let ghost rest0 = spec_fields(m0, len, v, reference, kinds@.skip(i as int));
        proof {
            assert(kinds@.skip(i as int)[0] == kinds@[i as int]);
            assert(kinds@.skip(i as int).skip(1) =~= kinds@.skip(i + 1));
        }
        let f = match read_stream_field(streams, kinds[i]) {
            Ok(f) => f,
            Err(e) => {
                proof { assert(rest0 matches Err(e2) && e2 == e); }
                return Err(e);
            },
        };
        proof {
            let rest1 = spec_fields(model_of(*streams), len, v, reference, kinds@.skip(i + 1));
            assert(rest0 == fields_with_prefix(seq![f@], rest1));
            if let Ok((fs, m)) = rest1 {
                assert(fields_model(values@) + (seq![f@] + fs) =~= fields_model(values@.push(f)) + fs);
            }
        }
        values.push(f);
        i = i + 1;
    }
    proof {
        assert(kinds@.skip(kinds@.len() as int) =~= Seq::<FieldKind>::empty());
        if let Ok((fs, m)) = total {
            assert(fields_model(values@) + Seq::<FieldModel>::empty() =~= fields_model(values@));
        }
    }
    Ok(values)
}


/// The fields of the layout `ks` read `n` times over (see
/// [`spec_fields`]): one row of values per time.
pub open spec fn spec_repeated(m: StreamsModel, len: nat, v: DxfVersion, reference: u64, ks: Seq<FieldKind>, n: nat)
    -> Result<(Seq<Seq<FieldModel>>, StreamsModel), DxfError>
    decreases n,
{
    if n == 0 {
        Ok((Seq::empty(), m))
    } else {
        match spec_fields(m, len, v, reference, ks) {
            Err(e) => Err(e),
            Ok((fs, m1)) => match spec_repeated(m1, len, v, reference, ks, (n - 1) as nat) {
                Err(e) => Err(e),
                Ok((rest, m2)) => Ok((seq![fs] + rest, m2)),
            },
        }
    }
}

/// Reading a layout `n` times over gives `n` rows of one value per field.
pub proof fn lemma_repeated_shape(m: StreamsModel, len: nat, v: DxfVersion, reference: u64, ks: Seq<FieldKind>,
    n: nat)
    ensures
        spec_repeated(m, len, v, reference, ks, n) matches Ok((rs, _)) ==> rs.len() == n
            && forall|i: int| 0 <= i < rs.len() ==> #[trigger] rs[i].len() == ks.len(),
    decreases n,
{
    if n > 0 {
        lemma_fields_len(m, len, v, reference, ks);
        if let Ok((fs, m1)) = spec_fields(m, len, v, reference, ks) {
            lemma_repeated_shape(m1, len, v, reference, ks, (n - 1) as nat);
            if let Ok((rest, m2)) = spec_repeated(m1, len, v, reference, ks, (n - 1) as nat) {
                let rs = seq![fs] + rest;
                assert forall|i: int| 0 <= i < rs.len() implies #[trigger] rs[i].len() == ks.len() by {
                    if i > 0 {
                        assert(rs[i] == rest[i - 1]);
                    }
                }
            }
        }
    }
}

/// The contents of rows of field values.
pub open spec fn rows_model(rows: Seq<Vec<FieldValue>>) -> Seq<Seq<FieldModel>> {
    rows.map_values(|r: Vec<FieldValue>| fields_model(r@))
}

/// Read the fields of the layout `kinds` `n` times over (see
/// [`spec_repeated`]).
pub(crate) fn read_repeated(streams: &mut StreamSet, kinds: &Vec<FieldKind>, n: usize)
    -> (r: Result<Vec<Vec<FieldValue>>, DxfError>)
    requires
        streams_of(*old(streams), old(streams).object_reader.data(), old(streams).object_reader.spec_version()),
    ensures
        streams_of(*final(streams), old(streams).object_reader.data(), old(streams).object_reader.spec_version()),
        final(streams).current_handle == old(streams).current_handle,
        match spec_repeated(model_of(*old(streams)), old(streams).object_reader.data().len(),
            old(streams).object_reader.spec_version(), old(streams).current_handle, kinds@, n as nat) {
            Err(e) => r matches Err(e2) && e2 == e,
            Ok((rs, m)) => r matches Ok(x) && rows_model(x@) == rs && model_of(*final(streams)) == m,
        },
{
    let ghost data = streams.object_reader.data();
    let ghost len = data.len();
    let ghost v = streams.object_reader.spec_version();
    let ghost reference = streams.current_handle;
    let ghost total = spec_repeated(model_of(*streams), len, v, reference, kinds@, n as nat);
    let mut rows: Vec<Vec<FieldValue>> = Vec::new();
    let mut i: usize = 0;
    proof {
        if let Ok((rs, m)) = total {
            assert(rows_model(rows@) + rs =~= rs);
        }
    }
    while i < n
        invariant
            i <= n,
            len == data.len(),
            data == old(streams).object_reader.data(),
            v == old(streams).object_reader.spec_version(),
            reference == streams.current_handle,
            reference == old(streams).current_handle,
            streams_of(*streams, data, v),
            total == spec_repeated(model_of(*old(streams)), len, v, reference, kinds@, n as nat),
            total == (match spec_repeated(model_of(*streams), len, v, reference, kinds@, (n - i) as nat) {
                Err(e) => Err(e),
                Ok((rs, m)) => Ok((rows_model(rows@) + rs, m)),
            }),
        decreases n - i,
    {
        let ghost rest0 = spec_repeated(model_of(*streams), len, v, reference, kinds@, (n - i) as nat);
        let row = match read_stream_fields(streams, kinds) {
            Ok(row) => row,
            Err(e) => {
                proof { assert(rest0 matches Err(e2) && e2 == e); }
                return Err(e);
            },
        };
        proof {
            let rest1 = spec_repeated(model_of(*streams), len, v, reference, kinds@, (n - i - 1) as nat);
            if let Ok((rs, m)) = rest1 {
                assert(rows_model(rows@) + (seq![fields_model(row@)] + rs) =~= rows_model(rows@.push(row)) + rs);
            }
        }
        rows.push(row);
        i = i + 1;
    }
    proof {
        if let Ok((rs, m)) = total {
            assert(rows_model(rows@) + Seq::<Seq<FieldModel>>::empty() =~= rows_model(rows@));
        }
    }
    Ok(rows)
}


/// What [`DwgObjectReader::read_block_control`] gives and leaves: its result `r` and
/// its streams, from `st0` to `st1`, for the reader `before`.
pub open spec fn read_block_control_outcome<E>(before: DwgObjectReader, st0: StreamSet, st1: StreamSet,
    r: Result<CadTemplate<XDataValue, E>, DxfError>) -> bool {
    &&& streams_of(st1, before.data(), before.spec_version())
    &&& st1.current_handle == st0.current_handle
    &&& control_template_read(r, spec_table_control(model_of(st0), before.data(),
            before.spec_version(), before.initial_pos(), st0.current_handle, ControlTail::Blocks),
            TableControlType::BlockControl, st1)
}

/// What [`DwgObjectReader::read_dictionary`] gives and leaves: its result `r` and
/// its streams, from `st0` to `st1`, for the reader `before`.
pub open spec fn read_dictionary_outcome<E>(before: DwgObjectReader, st0: StreamSet, st1: StreamSet,
    r: Result<CadTemplate<XDataValue, E>, DxfError>) -> bool {
    &&& streams_of(st1, before.data(), before.spec_version())
    &&& st1.current_handle == st0.current_handle
    &&& ({
            let len = before.data().len();
            match spec_common_non_entity(model_of(st0), before.data(), before.spec_version(),
                before.initial_pos()) {
                Err(e) => r matches Err(e2) && e2 == e,
                Ok((cm, m1)) => match spec_dictionary_data(m1, len, before.spec_version(), st0.current_handle) {
                    Err(e) => r matches Err(e2) && e2 == e,
                    Ok((es, m2)) => r matches Ok(CadTemplate::DictionaryObj { common, dict_data })
                        && common_model(common) == cm && dictionary_model(dict_data.entries@) == es
                        && model_of(st1) == m2,
                },
            }
        })
}

/// What [`DwgObjectReader::read_group`] gives and leaves: its result `r` and
/// its streams, from `st0` to `st1`, for the reader `before`.
pub open spec fn read_group_outcome<E>(before: DwgObjectReader, st0: StreamSet, st1: StreamSet,
    r: Result<CadTemplate<XDataValue, E>, DxfError>) -> bool {
    &&& streams_of(st1, before.data(), before.spec_version())
    &&& st1.current_handle == st0.current_handle
    &&& match spec_group(model_of(st0), before.data(), before.spec_version(), before.initial_pos(),
            st0.current_handle) {
            Err(e) => r matches Err(e2) && e2 == e,
            Ok(((cm, hs), m)) => r matches Ok(CadTemplate::GroupObj { common, group_data })
                && common_model(common) == cm && group_data.entity_handles@ == hs && model_of(st1) == m,
        }
}

/// What [`DwgObjectReader::read_ltype_control`] gives and leaves: its result `r` and
/// its streams, from `st0` to `st1`, for the reader `before`.
pub open spec fn read_ltype_control_outcome<E>(before: DwgObjectReader, st0: StreamSet, st1: StreamSet,
    r: Result<CadTemplate<XDataValue, E>, DxfError>) -> bool {
    &&& streams_of(st1, before.data(), before.spec_version())
    &&& st1.current_handle == st0.current_handle
    &&& control_template_read(r, spec_table_control(model_of(st0), before.data(),
            before.spec_version(), before.initial_pos(), st0.current_handle, ControlTail::Linetypes),
            TableControlType::LineTypeControl, st1)
}

/// What [`DwgObjectReader::read_placeholder`] gives and leaves: its result `r` and
/// its streams, from `st0` to `st1`, for the reader `before`.
pub open spec fn read_placeholder_outcome<E>(before: DwgObjectReader, st0: StreamSet, st1: StreamSet,
    r: Result<CadTemplate<XDataValue, E>, DxfError>) -> bool {
    &&& streams_of(st1, before.data(), before.spec_version())
    &&& st1.current_handle == st0.current_handle
    &&& object_template_read(r, spec_common_non_entity(model_of(st0), before.data(),
            before.spec_version(), before.initial_pos()), st1)
}

/// What [`DwgObjectReader::read_proxy_entity`] gives and leaves: its result `r` and
/// its streams, from `st0` to `st1`, for the reader `before`.
pub open spec fn read_proxy_entity_outcome(before: DwgObjectReader, st0: StreamSet, st1: StreamSet,
    r: Result<CadTemplate<XDataValue, UnknownEntity>, DxfError>) -> bool {
    &&& streams_of(st1, before.data(), before.spec_version())
    &&& st1.current_handle == st0.current_handle
    &&& entity_template_read(r, spec_common_entity(model_of(st0), before.data(),
            before.spec_version(), before.initial_pos()), "AcDbProxyEntity"@, st1)
}

/// What [`DwgObjectReader::read_proxy_object`] gives and leaves: its result `r` and
/// its streams, from `st0` to `st1`, for the reader `before`.
pub open spec fn read_proxy_object_outcome<E>(before: DwgObjectReader, st0: StreamSet, st1: StreamSet,
    r: Result<CadTemplate<XDataValue, E>, DxfError>) -> bool {
    &&& streams_of(st1, before.data(), before.spec_version())
    &&& st1.current_handle == st0.current_handle
    &&& object_template_read(r, spec_common_non_entity(model_of(st0), before.data(),
            before.spec_version(), before.initial_pos()), st1)
}

/// What [`DwgObjectReader::read_table_control`] gives and leaves: its result `r` and
/// its streams, from `st0` to `st1`, for the reader `before`.
pub open spec fn read_table_control_outcome<E>(before: DwgObjectReader, st0: StreamSet, st1: StreamSet, table_type: TableControlType,
    r: Result<CadTemplate<XDataValue, E>, DxfError>) -> bool {
    &&& streams_of(st1, before.data(), before.spec_version())
    &&& st1.current_handle == st0.current_handle
    &&& control_template_read(r, spec_table_control(model_of(st0), before.data(),
            before.spec_version(), before.initial_pos(), st0.current_handle, ControlTail::Plain),
            table_type, st1)
}

/// What [`DwgObjectReader::read_unknown_entity`] gives and leaves: its result `r` and
/// its streams, from `st0` to `st1`, for the reader `before`.
pub open spec fn read_unknown_entity_outcome(before: DwgObjectReader, st0: StreamSet, st1: StreamSet,
    r: Result<CadTemplate<XDataValue, UnknownEntity>, DxfError>) -> bool {
    &&& streams_of(st1, before.data(), before.spec_version())
    &&& st1.current_handle == st0.current_handle
    &&& entity_template_read(r, spec_common_entity(model_of(st0), before.data(),
            before.spec_version(), before.initial_pos()), Seq::empty(), st1)
}

/// What [`DwgObjectReader::read_unknown_non_graphical_object`] gives and leaves: its result `r` and
/// its streams, from `st0` to `st1`, for the reader `before`.
pub open spec fn read_unknown_non_graphical_object_outcome<E>(before: DwgObjectReader, st0: StreamSet, st1: StreamSet,
    r: Result<CadTemplate<XDataValue, E>, DxfError>) -> bool {
    &&& streams_of(st1, before.data(), before.spec_version())
    &&& st1.current_handle == st0.current_handle
    &&& object_template_read(r, spec_common_non_entity(model_of(st0), before.data(),
            before.spec_version(), before.initial_pos()), st1)
}


/// What [`DwgObjectReader::read_dictionary_var`] gives and leaves: its result `r` and
/// its streams, from `st0` to `st1`, for the reader `before`.
pub open spec fn read_dictionary_var_outcome<E>(before: DwgObjectReader, st0: StreamSet, st1: StreamSet,
    r: Result<CadTemplate<XDataValue, E>, DxfError>) -> bool {
    &&& streams_of(st1, before.data(), before.spec_version())
    &&& st1.current_handle == st0.current_handle
    &&& ({
            let len = before.data().len();
            match spec_common_non_entity(model_of(st0), before.data(), before.spec_version(),
                before.initial_pos()) {
                Err(e) => r matches Err(e2) && e2 == e,
                Ok((cm, m1)) => match spec_read_byte(m1.object) {
                    None => r matches Err(e2) && e2 == DxfError::UnexpectedEof,
                    Some((_, c2)) => match spec_stream_text(on_object(m1, len, c2), len, before.spec_version()) {
                        Err(e) => r matches Err(e2) && e2 == e,
                        Ok((_, m3)) => r matches Ok(CadTemplate::GenericObject { common })
                            && common_model(common) == cm && model_of(st1) == m3,
                    },
                },
            }
        })
}

/// What [`DwgObjectReader::read_dictionary_with_default`] gives and leaves: its result `r` and
/// its streams, from `st0` to `st1`, for the reader `before`.
pub open spec fn read_dictionary_with_default_outcome<E>(before: DwgObjectReader, st0: StreamSet, st1: StreamSet,
    r: Result<CadTemplate<XDataValue, E>, DxfError>) -> bool {
    &&& streams_of(st1, before.data(), before.spec_version())
    &&& st1.current_handle == st0.current_handle
    &&& ({
            let len = before.data().len();
            let reference = st0.current_handle;
            match spec_common_non_entity(model_of(st0), before.data(), before.spec_version(),
                before.initial_pos()) {
                Err(e) => r matches Err(e2) && e2 == e,
                Ok((cm, m1)) => match spec_dictionary_data(m1, len, before.spec_version(), reference) {
                    Err(e) => r matches Err(e2) && e2 == e,
                    Ok((es, m2)) => match spec_next_ref(m2, len, reference) {
                        Err(e) => r matches Err(e2) && e2 == e,
                        Ok((d, m3)) => r matches Ok(CadTemplate::DictWithDefault { common, dict_default_data })
                            && common_model(common) == cm && dictionary_model(dict_default_data.dict_data.entries@) == es
                            && dict_default_data.default_entry_handle == d && model_of(st1) == m3,
                    },
                },
            }
        })
}

} // verus!
