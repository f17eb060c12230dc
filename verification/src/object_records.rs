//! Readers of non-graphical objects whose data is a fixed layout of
//! fields after the common data (see [`FieldKind`]): scales, image
//! definitions, raster and wipeout variables, plot settings, layouts,
//! multileader styles and the like.

use vstd::prelude::*;
use crate::error::DxfError;
use crate::object_common::XDataValue;
use crate::object_reader::{DwgObjectReader, StreamsModel, CommonModel, FieldKind, FieldValue, FieldModel,
    spec_common_non_entity, spec_fields, streams_of, model_of, common_model, fields_model, field_handle, field_count,
    lemma_fields_len, on_object};
use crate::bit_model::{BitCursor, spec_read_byte, spec_read_bytes, spec_read_raw_short, spec_read_bit_long, spec_read_bit_short,
    raw_remaining, next_position, max_read_len, lemma_read_byte_progress};
use crate::stream_values::{spec_read_text_unicode, bit_long_error};
use crate::object_common::{spec_handle_list, read_handle_list};
use crate::stream_set::StreamSet;
use crate::stream_reader::DwgStreamReaderBase;
use std::collections::HashMap;
use crate::templates::{CadTemplate, CadTemplateCommon, CadBlockRecordTemplateData, CadImageDefTemplateData, CadImageDefReactorTemplateData,
    CadLayoutTemplateData, CadMLeaderStyleTemplateData, CadMLineStyleTemplateData, CadSortEntsTableTemplateData};
use crate::version::DxfVersion;

verus! {

/// A record read from the streams `m` of `data` (version `v`, object
/// data starting at bit `init`, relative handles resolved against
/// `reference`): the common data of a non-graphical object, then the
/// fields of `layout`.
pub open spec fn spec_record(m: StreamsModel, data: Seq<u8>, v: DxfVersion, init: int, reference: u64,
    layout: Seq<FieldKind>) -> Result<((CommonModel, Seq<FieldModel>), StreamsModel), DxfError>
{
    match spec_common_non_entity(m, data, v, init) {
        Err(e) => Err(e),
        Ok((cm, m1)) => match spec_fields(m1, data.len(), v, reference, layout) {
            Err(e) => Err(e),
            Ok((fs, m2)) => Ok(((cm, fs), m2)),
        },
    }
}

/// `r` is a generic object read as `res`, and the streams `s` end as
/// `res` says.
pub open spec fn generic_read<E>(r: Result<CadTemplate<XDataValue, E>, DxfError>,
    res: Result<((CommonModel, Seq<FieldModel>), StreamsModel), DxfError>, s: StreamSet) -> bool
{
    match res {
        Err(e) => r matches Err(e2) && e2 == e,
        Ok(((cm, _), m)) => r matches Ok(CadTemplate::GenericObject { common })
            && common_model(common) == cm && model_of(s) == m,
    }
}

/// The fields of a scale: an unused BitShort, the name, the paper and
/// drawing units, and whether it is the unit scale.
pub open spec fn scale_layout() -> Seq<FieldKind> {
    seq![FieldKind::BitShort, FieldKind::Text, FieldKind::BitDouble, FieldKind::BitDouble, FieldKind::Bit]
}

/// The fields of an image definition: the class version, the size in
/// pixels (two raw doubles), the file name, whether it is loaded, the
/// units and the pixel size (two raw doubles).
pub open spec fn image_definition_layout() -> Seq<FieldKind> {
    seq![FieldKind::BitLong, FieldKind::RawDouble, FieldKind::RawDouble, FieldKind::Text, FieldKind::Bit,
        FieldKind::RawChar, FieldKind::RawDouble, FieldKind::RawDouble]
}

/// The fields of raster variables: the class version, the display frame,
/// the display quality and the units.
pub open spec fn raster_variables_layout() -> Seq<FieldKind> {
    seq![FieldKind::BitLong, FieldKind::BitShort, FieldKind::BitShort, FieldKind::BitShort]
}

/// The fields of a table style read before R2007: the description, the
/// flow direction, the flags, the horizontal and vertical margins, and
/// whether the title and the header are suppressed.  From R2007 on none.
pub open spec fn table_style_layout(v: DxfVersion) -> Seq<FieldKind> {
    if version_at_least(v, DxfVersion::AC1021) {
        Seq::empty()
    } else {
        seq![FieldKind::Text, FieldKind::BitShort, FieldKind::BitShort, FieldKind::BitDouble, FieldKind::BitDouble,
            FieldKind::Bit, FieldKind::Bit]
    }
}

/// The fields of a viewport entity header: the xref-dependent flag, a
/// flag, the control object handle and, before R2004, the viewport entity
/// handle.
pub open spec fn viewport_entity_header_layout(v: DxfVersion) -> Seq<FieldKind> {
    let base = seq![FieldKind::XrefBit, FieldKind::Bit, FieldKind::Handle];
    if version_at_least(v, DxfVersion::AC1018) { base } else { base.push(FieldKind::Handle) }
}

/// The fields of the plot settings of a layout or a plot-settings object:
/// the page name and the printer (texts), the flags (BitShort), the four
/// margins and the paper width and height (BitDoubles), the paper size
/// (text), the plot origin (two BitDoubles), the paper units, the
/// rotation and the plot type (BitShorts), the plot window (four
/// BitDoubles); before R2004 the plot view name (text); the scale
/// numerator and denominator (BitDoubles), the style sheet (text), the
/// scaled-fit flag (BitShort), the standard scale and the image origin
/// (three BitDoubles); from R2004 on the shade plot mode, resolution and
/// DPI (BitShorts) and the plot view handle; from R2007 on the visual
/// style handle.  No value is kept.
pub open spec fn plot_settings_layout(v: DxfVersion) -> Seq<FieldKind> {
    let head = seq![FieldKind::Text, FieldKind::Text, FieldKind::BitShort,
        FieldKind::BitDouble, FieldKind::BitDouble, FieldKind::BitDouble, FieldKind::BitDouble,
        FieldKind::BitDouble, FieldKind::BitDouble, FieldKind::Text, FieldKind::BitDouble, FieldKind::BitDouble,
        FieldKind::BitShort, FieldKind::BitShort, FieldKind::BitShort,
        FieldKind::BitDouble, FieldKind::BitDouble, FieldKind::BitDouble, FieldKind::BitDouble];
    let view = if version_at_least(v, DxfVersion::AC1018) { Seq::empty() } else { seq![FieldKind::Text] };
    let scale = seq![FieldKind::BitDouble, FieldKind::BitDouble, FieldKind::Text, FieldKind::BitShort,
        FieldKind::BitDouble, FieldKind::BitDouble, FieldKind::BitDouble];
    let shade = if version_at_least(v, DxfVersion::AC1018) {
        seq![FieldKind::BitShort, FieldKind::BitShort, FieldKind::BitShort, FieldKind::Handle]
    } else {
        Seq::empty()
    };
    let style = if version_at_least(v, DxfVersion::AC1021) { seq![FieldKind::Handle] } else { Seq::empty() };
    head + view + scale + shade + style
}

/// The fields of a layout after its plot settings: the name (text), the
/// tab order (BitLong), the flags (BitShort), the UCS origin (three
/// BitDoubles), the limits (four raw doubles), the insertion base and the
/// UCS axes (nine BitDoubles), the elevation (BitDouble), the UCS
/// orthographic type (BitShort), the extents (six BitDoubles), and from
/// R2004 on the viewport count (BitLong).
pub open spec fn layout_body(v: DxfVersion) -> Seq<FieldKind> {
    let body = seq![FieldKind::Text, FieldKind::BitLong, FieldKind::BitShort,
        FieldKind::BitDouble, FieldKind::BitDouble, FieldKind::BitDouble,
        FieldKind::RawDouble, FieldKind::RawDouble, FieldKind::RawDouble, FieldKind::RawDouble,
        FieldKind::BitDouble, FieldKind::BitDouble, FieldKind::BitDouble,
        FieldKind::BitDouble, FieldKind::BitDouble, FieldKind::BitDouble,
        FieldKind::BitDouble, FieldKind::BitDouble, FieldKind::BitDouble,
        FieldKind::BitDouble, FieldKind::BitShort,
        FieldKind::BitDouble, FieldKind::BitDouble, FieldKind::BitDouble,
        FieldKind::BitDouble, FieldKind::BitDouble, FieldKind::BitDouble];
    if version_at_least(v, DxfVersion::AC1018) { body.push(FieldKind::BitLong) } else { body }
}

/// The whole layout of a layout object: its plot settings, its body and
/// four handles (paper-space block, active viewport, base UCS, named UCS).
pub open spec fn layout_object_layout(v: DxfVersion) -> Seq<FieldKind> {
    plot_settings_layout(v) + layout_body(v)
        + seq![FieldKind::Handle, FieldKind::Handle, FieldKind::Handle, FieldKind::Handle]
}

/// A layout object read from the streams `m` of `data` (version `v`,
/// object data starting at bit `init`, relative handles resolved against
/// `reference`): the record of [`layout_object_layout`], then from R2004
/// on as many viewport handles as the viewport count says (not kept).
pub open spec fn spec_layout_object(m: StreamsModel, data: Seq<u8>, v: DxfVersion, init: int, reference: u64)
    -> Result<((CommonModel, Seq<FieldModel>), StreamsModel), DxfError>
{
    match spec_record(m, data, v, init, reference, layout_object_layout(v)) {
        Err(e) => Err(e),
        Ok(((cm, fs), m1)) => {
            let k = (plot_settings_layout(v).len() + layout_body(v).len()) as int;
            let n = if version_at_least(v, DxfVersion::AC1018) { field_count(fs[k - 1]) } else { 0 };
            match spec_handle_list(m1.handles, m1.handles_pos, data.len(), reference, n) {
                Err(e) => Err(e),
                Ok((_, ch, hp)) => Ok(((cm, fs), StreamsModel { handles: ch, handles_pos: hp, ..m1 })),
            }
        },
    }
}

/// The fields of a multileader style: from R2010 on a version (BitShort);
/// then the content type, the draw orders (BitShorts), the maximum leader
/// points (BitLong), the segment angles (BitDoubles), the path type
/// (BitShort), the line color, the leader linetype handle, the line weight
/// (BitLong), the landing flag, gap, dogleg flag and distance, the
/// description, the arrowhead handle, the arrowhead size, the default
/// text, the text style handle, the text attachments, angle and alignment
/// (BitShorts), the text color, height, frame and left-alignment flags,
/// the alignment space, the block content handle, color, scale (three
/// BitDoubles), scale flag, rotation, rotation flag and connection, the
/// scale factor, the overwrite and annotative flags and the break size;
/// from R2010 on the text attachment direction and the top and bottom
/// attachments (BitShorts), from R2013 on a flag.
pub open spec fn mleader_style_layout(v: DxfVersion) -> Seq<FieldKind> {
    let pre = if version_at_least(v, DxfVersion::AC1024) { seq![FieldKind::BitShort] } else { Seq::empty() };
    let body = seq![FieldKind::BitShort, FieldKind::BitShort, FieldKind::BitShort, FieldKind::BitLong,
        FieldKind::BitDouble, FieldKind::BitDouble, FieldKind::BitShort, FieldKind::CmColor, FieldKind::Handle,
        FieldKind::BitLong, FieldKind::Bit, FieldKind::BitDouble, FieldKind::Bit, FieldKind::BitDouble,
        FieldKind::Text, FieldKind::Handle, FieldKind::BitDouble, FieldKind::Text, FieldKind::Handle,
        FieldKind::BitShort, FieldKind::BitShort, FieldKind::BitShort, FieldKind::BitShort, FieldKind::CmColor,
        FieldKind::BitDouble, FieldKind::Bit, FieldKind::Bit, FieldKind::BitDouble, FieldKind::Handle,
        FieldKind::CmColor, FieldKind::BitDouble, FieldKind::BitDouble, FieldKind::BitDouble, FieldKind::Bit,
        FieldKind::BitDouble, FieldKind::Bit, FieldKind::BitShort, FieldKind::BitDouble, FieldKind::Bit,
        FieldKind::Bit, FieldKind::BitDouble];
    let post = if version_at_least(v, DxfVersion::AC1024) {
        seq![FieldKind::BitShort, FieldKind::BitShort]
    } else {
        Seq::empty()
    };
    let last = if version_at_least(v, DxfVersion::AC1027) { seq![FieldKind::Bit] } else { Seq::empty() };
    pre + body + post + last
}

/// Where the handles of a multileader style begin in its fields: after
/// the R2010 version field.
pub open spec fn mleader_offset(v: DxfVersion) -> int {
    if version_at_least(v, DxfVersion::AC1024) { 1 } else { 0 }
}

/// The fields of a multiline style before its elements: the name and the
/// description (texts), the flags (BitShort), the fill color, the start
/// and end angles (BitDoubles) and the element count (a byte).
pub open spec fn mline_style_head() -> Seq<FieldKind> {
    seq![FieldKind::Text, FieldKind::Text, FieldKind::BitShort, FieldKind::CmColor, FieldKind::BitDouble,
        FieldKind::BitDouble, FieldKind::RawChar]
}

/// The fields of a multiline style element: the offset, the color, and
/// from R2018 on the linetype handle, before a linetype index (BitShort).
pub open spec fn mline_element_layout(v: DxfVersion) -> Seq<FieldKind> {
    seq![FieldKind::BitDouble, FieldKind::CmColor,
        if version_at_least(v, DxfVersion::AC1032) { FieldKind::Handle } else { FieldKind::BitShort }]
}

/// One multiline style element (see [`mline_element_layout`]): its
/// linetype handle (0 before R2018).
#[verifier::opaque]
pub open spec fn spec_mline_element(m: StreamsModel, len: nat, v: DxfVersion, reference: u64)
    -> Result<(u64, StreamsModel), DxfError>
{
    match spec_fields(m, len, v, reference, mline_element_layout(v)) {
        Err(e) => Err(e),
        Ok((fs, m1)) => Ok((if version_at_least(v, DxfVersion::AC1032) { field_handle(fs[2]) } else { 0 }, m1)),
    }
}

/// `n` multiline style elements: the linetype handle of each.
pub open spec fn spec_mline_elements(m: StreamsModel, len: nat, v: DxfVersion, reference: u64, n: nat)
    -> Result<(Seq<u64>, StreamsModel), DxfError>
    decreases n,
{
    if n == 0 {
        Ok((Seq::empty(), m))
    } else {
        match spec_mline_element(m, len, v, reference) {
            Err(e) => Err(e),
            Ok((h, m1)) => match spec_mline_elements(m1, len, v, reference, (n - 1) as nat) {
                Err(e) => Err(e),
                Ok((hs, m2)) => Ok((seq![h] + hs, m2)),
            },
        }
    }
}

/// The fields of a color-book color: the color index (BitShort), and
/// from R2004 on the true color (BitLong) and the name flags (a byte).
pub open spec fn db_color_head(v: DxfVersion) -> Seq<FieldKind> {
    if version_at_least(v, DxfVersion::AC1018) {
        seq![FieldKind::BitShort, FieldKind::BitLong, FieldKind::RawChar]
    } else {
        seq![FieldKind::BitShort]
    }
}

/// The names a color-book color has for flags `f`: a color name when bit
/// 0 is set, then a book name when bit 1 is set.
pub open spec fn color_names_layout(f: nat) -> Seq<FieldKind> {
    (if f % 2 == 1 { seq![FieldKind::Text] } else { Seq::empty() })
        + (if (f / 2) % 2 == 1 { seq![FieldKind::Text] } else { Seq::empty() })
}

/// One sort entry: a sort handle from the object data and an entity
/// handle from the handle stream.
#[verifier::opaque]
pub open spec fn spec_sort_pair(m: StreamsModel, len: nat, v: DxfVersion, reference: u64)
    -> Result<((u64, u64), StreamsModel), DxfError>
{
    match spec_fields(m, len, v, reference, seq![FieldKind::ObjectHandle, FieldKind::Handle]) {
        Err(e) => Err(e),
        Ok((fs, m1)) => Ok(((field_handle(fs[0]), field_handle(fs[1])), m1)),
    }
}

/// `n` sort entries (see [`spec_sort_pair`]).
pub open spec fn spec_sort_pairs(m: StreamsModel, len: nat, v: DxfVersion, reference: u64, n: nat)
    -> Result<(Seq<(u64, u64)>, StreamsModel), DxfError>
    decreases n,
{
    if n == 0 {
        Ok((Seq::empty(), m))
    } else {
        match spec_sort_pair(m, len, v, reference) {
            Err(e) => Err(e),
            Ok((p, m1)) => match spec_sort_pairs(m1, len, v, reference, (n - 1) as nat) {
                Err(e) => Err(e),
                Ok((ps, m2)) => Ok((seq![p] + ps, m2)),
            },
        }
    }
}

/// The type of the value that follows a DXF group code in an xrecord.
#[derive(Debug, Clone, Copy, PartialEq, Eq, Structural)]
pub enum GroupCodeType {
    String,
    Point3D,
    Double,
    Int16,
    Int32,
    Int64,
    Handle,
    Bool,
    Chunk,
    Unknown,
}

/// The value type of group code `code`.
pub open spec fn group_code_type(code: int) -> GroupCodeType {
    if 0 <= code <= 9 { GroupCodeType::String }
    else if 10 <= code <= 39 { GroupCodeType::Point3D }
    else if 40 <= code <= 59 { GroupCodeType::Double }
    else if 60 <= code <= 79 { GroupCodeType::Int16 }
    else if 90 <= code <= 99 { GroupCodeType::Int32 }
    else if 100 <= code <= 102 { GroupCodeType::String }
    else if code == 105 { GroupCodeType::Handle }
    else if 110 <= code <= 149 { GroupCodeType::Double }
    else if 160 <= code <= 169 { GroupCodeType::Int64 }
    else if 170 <= code <= 179 { GroupCodeType::Int16 }
    else if 210 <= code <= 239 { GroupCodeType::Double }
    else if 270 <= code <= 289 { GroupCodeType::Int16 }
    else if 290 <= code <= 299 { GroupCodeType::Bool }
    else if 300 <= code <= 309 { GroupCodeType::String }
    else if 310 <= code <= 319 { GroupCodeType::Chunk }
    else if 320 <= code <= 369 { GroupCodeType::Handle }
    else if 370 <= code <= 389 { GroupCodeType::Int16 }
    else if 390 <= code <= 399 { GroupCodeType::Handle }
    else if 400 <= code <= 409 { GroupCodeType::Int16 }
    else if 410 <= code <= 419 { GroupCodeType::String }
    else if 420 <= code <= 429 { GroupCodeType::Int32 }
    else if 430 <= code <= 439 { GroupCodeType::String }
    else if 440 <= code <= 459 { GroupCodeType::Int32 }
    else if 460 <= code <= 469 { GroupCodeType::Double }
    else if 470 <= code <= 479 { GroupCodeType::String }
    else if 480 <= code <= 481 { GroupCodeType::Handle }
    else if code == 999 { GroupCodeType::String }
    else if 1000 <= code <= 1009 { GroupCodeType::String }
    else if 1010 <= code <= 1059 { GroupCodeType::Double }
    else if 1060 <= code <= 1070 { GroupCodeType::Int16 }
    else if code == 1071 { GroupCodeType::Int32 }
    else { GroupCodeType::Unknown }
}

/// The value type of group code `code` (see [`group_code_type`]).
pub fn group_code_value_type(code: i16) -> (r: GroupCodeType)
    ensures
        r == group_code_type(code as int),
{
    if 0 <= code && code <= 9 { GroupCodeType::String }
    else if 10 <= code && code <= 39 { GroupCodeType::Point3D }
    else if 40 <= code && code <= 59 { GroupCodeType::Double }
    else if 60 <= code && code <= 79 { GroupCodeType::Int16 }
    else if 90 <= code && code <= 99 { GroupCodeType::Int32 }
    else if 100 <= code && code <= 102 { GroupCodeType::String }
    else if code == 105 { GroupCodeType::Handle }
    else if 110 <= code && code <= 149 { GroupCodeType::Double }
    else if 160 <= code && code <= 169 { GroupCodeType::Int64 }
    else if 170 <= code && code <= 179 { GroupCodeType::Int16 }
    else if 210 <= code && code <= 239 { GroupCodeType::Double }
    else if 270 <= code && code <= 289 { GroupCodeType::Int16 }
    else if 290 <= code && code <= 299 { GroupCodeType::Bool }
    else if 300 <= code && code <= 309 { GroupCodeType::String }
    else if 310 <= code && code <= 319 { GroupCodeType::Chunk }
    else if 320 <= code && code <= 369 { GroupCodeType::Handle }
    else if 370 <= code && code <= 389 { GroupCodeType::Int16 }
    else if 390 <= code && code <= 399 { GroupCodeType::Handle }
    else if 400 <= code && code <= 409 { GroupCodeType::Int16 }
    else if 410 <= code && code <= 419 { GroupCodeType::String }
    else if 420 <= code && code <= 429 { GroupCodeType::Int32 }
    else if 430 <= code && code <= 439 { GroupCodeType::String }
    else if 440 <= code && code <= 459 { GroupCodeType::Int32 }
    else if 460 <= code && code <= 469 { GroupCodeType::Double }
    else if 470 <= code && code <= 479 { GroupCodeType::String }
    else if 480 <= code && code <= 481 { GroupCodeType::Handle }
    else if code == 999 { GroupCodeType::String }
    else if 1000 <= code && code <= 1009 { GroupCodeType::String }
    else if 1010 <= code && code <= 1059 { GroupCodeType::Double }
    else if 1060 <= code && code <= 1070 { GroupCodeType::Int16 }
    else if code == 1071 { GroupCodeType::Int32 }
    else { GroupCodeType::Unknown }
}

/// The largest byte position at which the reader takes a position in
/// bits.
pub open spec fn bit_position_limit() -> nat {
    0x0800_0000_0000_0000
}

/// The position in bits of the object data of `m`, as
/// `DwgStreamReaderBase::position_in_bits` gives it.
pub open spec fn object_bit_position(m: StreamsModel) -> int {
    m.object_pos * 8 + (if m.object.shift > 0 { m.object.shift - 8 } else { 0 })
}

/// The value of an xrecord item of type `t`, read from the object data of
/// `m` (data of `len` bytes, version `v`) and not kept: a Unicode text, a
/// point (three BitDoubles), a BitDouble, a BitShort, a BitLong, a
/// BitLongLong, a handle, a bit, or a chunk (a byte count and the bytes).
/// `None` for an unknown type: nothing is read.
#[verifier::opaque]
pub open spec fn spec_xrecord_value(m: StreamsModel, len: nat, v: DxfVersion, t: GroupCodeType)
    -> Result<Option<StreamsModel>, DxfError>
{
    match t {
        GroupCodeType::String => match spec_read_text_unicode(m.object, v) {
            Err(e) => Err(e),
            Ok((_, c)) => Ok(Some(on_object(m, len, c))),
        },
        GroupCodeType::Point3D => match spec_fields(m, len, v, 0, seq![FieldKind::BitDouble, FieldKind::BitDouble, FieldKind::BitDouble]) {
            Err(e) => Err(e),
            Ok((_, m1)) => Ok(Some(m1)),
        },
        GroupCodeType::Double => match spec_fields(m, len, v, 0, seq![FieldKind::BitDouble]) {
            Err(e) => Err(e),
            Ok((_, m1)) => Ok(Some(m1)),
        },
        GroupCodeType::Int16 => match spec_fields(m, len, v, 0, seq![FieldKind::BitShort]) {
            Err(e) => Err(e),
            Ok((_, m1)) => Ok(Some(m1)),
        },
        GroupCodeType::Int32 => match spec_fields(m, len, v, 0, seq![FieldKind::BitLong]) {
            Err(e) => Err(e),
            Ok((_, m1)) => Ok(Some(m1)),
        },
        GroupCodeType::Int64 => match spec_fields(m, len, v, 0, seq![FieldKind::BitLongLong]) {
            Err(e) => Err(e),
            Ok((_, m1)) => Ok(Some(m1)),
        },
        GroupCodeType::Handle => match spec_fields(m, len, v, 0, seq![FieldKind::ObjectHandle]) {
            Err(e) => Err(e),
            Ok((_, m1)) => Ok(Some(m1)),
        },
        GroupCodeType::Bool => match spec_fields(m, len, v, 0, seq![FieldKind::Bit]) {
            Err(e) => Err(e),
            Ok((_, m1)) => Ok(Some(m1)),
        },
        GroupCodeType::Chunk => match spec_read_byte(m.object) {
            None => Err(DxfError::UnexpectedEof),
            Some((n, c1)) => match spec_read_bytes(c1, n as nat) {
                None => Err(DxfError::UnexpectedEof),
                Some((_, c2)) => Ok(Some(on_object(on_object(m, len, c1), len, c2))),
            },
        },
        GroupCodeType::Unknown => Ok(None),
    }
}

/// The items of an xrecord read from the object data of `m` while its
/// position in bits is before `end`: a raw short group code, then a value
/// of its type; an unknown type ends the items.  A position past
/// [`bit_position_limit`], or an item that leaves the reader no further
/// on, is refused.
pub open spec fn spec_xrecord_items(m: StreamsModel, len: nat, v: DxfVersion, end: int)
    -> Result<StreamsModel, DxfError>
    decreases (if object_bit_position(m) < end { end - object_bit_position(m) } else { 0 }) as nat,
{
    if m.object_pos > bit_position_limit() {
        Err(DxfError::InvalidFormat)
    } else if !(object_bit_position(m) < end) {
        Ok(m)
    } else {
        match spec_read_raw_short(m.object) {
            None => Err(DxfError::UnexpectedEof),
            Some((code, c1)) => match spec_xrecord_value(on_object(m, len, c1), len, v, group_code_type(code)) {
                Err(e) => Err(e),
                Ok(None) => Ok(on_object(m, len, c1)),
                Ok(Some(m2)) => if m2.object_pos > bit_position_limit()
                    || object_bit_position(m2) <= object_bit_position(m) {
                    Err(DxfError::InvalidFormat)
                } else {
                    spec_xrecord_items(m2, len, v, end)
                },
            },
        }
    }
}

/// An xrecord read from the streams `m` of `data` (version `v`, object
/// data starting at bit `init`): its common data, the size of its items
/// in bytes (a BitLong taken as a `usize`), its items (see
/// [`spec_xrecord_items`]), and from R2000 on the cloning flags (a
/// BitShort).
pub open spec fn spec_xrecord(m: StreamsModel, data: Seq<u8>, v: DxfVersion, init: int)
    -> Result<(CommonModel, StreamsModel), DxfError>
{
    let len = data.len();
    match spec_common_non_entity(m, data, v, init) {
        Err(e) => Err(e),
        Ok((cm, m1)) => match spec_read_bit_long(m1.object) {
            None => Err(bit_long_error(m1.object)),
            Some((n, c2)) => {
                let m2 = on_object(m1, len, c2);
                if m2.object_pos > bit_position_limit() {
                    Err(DxfError::InvalidFormat)
                } else {
                    let end = object_bit_position(m2) + ((((n as i32) as usize) as i64) as int) * 8;
                    match spec_xrecord_items(m2, len, v, end) {
                        Err(e) => Err(e),
                        Ok(m3) => if version_at_least(v, DxfVersion::AC1015) {
                            match spec_read_bit_short(m3.object) {
                                None => Err(DxfError::UnexpectedEof),
                                Some((_, c4)) => Ok((cm, on_object(m3, len, c4))),
                            }
                        } else {
                            Ok((cm, m3))
                        },
                    }
                }
            },
        },
    }
}

/// The flag a field holds (false for a field of another kind).
pub open spec fn field_bool(f: FieldModel) -> bool {
    match f {
        FieldModel::Bool(b) => b,
        _ => false,
    }
}

/// The first fields of a block header: the name (text), the
/// xref-dependent flag, the anonymous, has-attributes, is-xref and
/// is-overlay flags (bits), and from R2000 on the loaded flag (a bit).
pub open spec fn block_head_layout(v: DxfVersion) -> Seq<FieldKind> {
    let head = seq![FieldKind::Text, FieldKind::XrefBit, FieldKind::Bit, FieldKind::Bit, FieldKind::Bit, FieldKind::Bit];
    if version_at_least(v, DxfVersion::AC1015) { head.push(FieldKind::Bit) } else { head }
}

/// The insert count of a block header read from stream `c` at byte
/// position `p` (data of `len` bytes): bytes up to a zero byte, counted
/// without it.
pub open spec fn spec_insert_count(c: BitCursor, p: nat, len: nat) -> Result<(nat, BitCursor, nat), DxfError>
    decreases (if raw_remaining(c) > 0 { raw_remaining(c) } else { 0 }) as nat,
{
    match spec_read_byte(c) {
        None => Err(DxfError::UnexpectedEof),
        Some((b, c1)) => if b == 0 {
            Ok((0, c1, next_position(p, len, c1)))
        } else {
            proof { lemma_read_byte_progress(c); }
            match spec_insert_count(c1, next_position(p, len, c1), len) {
                Err(e) => Err(e),
                Ok((n, c2, p2)) => Ok((n + 1, c2, p2)),
            }
        },
    }
}

/// `r` with `pre` more inserts counted.
pub open spec fn count_with_prefix(pre: nat, r: Result<(nat, BitCursor, nat), DxfError>)
    -> Result<(nat, BitCursor, nat), DxfError>
{
    match r {
        Err(e) => Err(e),
        Ok((n, c, p)) => Ok((pre + n, c, p)),
    }
}

/// The template data `d` holds the handles `bh` and no insert counts.
pub open spec fn block_data_holds(d: CadBlockRecordTemplateData, bh: BlockHandles) -> bool {
    &&& d.block_entity_handle == bh.block_entity
    &&& d.first_entity_handle == bh.first_entity
    &&& d.last_entity_handle == bh.last_entity
    &&& d.owned_object_handles@ == bh.owned
    &&& d.end_block_handle == bh.end_block
    &&& d.layout_handle == bh.layout
    &&& d.insert_count@ == Map::<u64, i32>::empty()
}

/// `n` bytes read from the object data of `m` (data of `len` bytes), not
/// kept: refused as too large above the 16 MB limit, as the end of the
/// data when they are not all there.
pub open spec fn spec_skip_bytes(m: StreamsModel, len: nat, n: nat) -> Result<StreamsModel, DxfError> {
    match spec_read_bytes(m.object, n) {
        None => Err(if n > max_read_len() { DxfError::ReadTooLarge } else { DxfError::UnexpectedEof }),
        Some((_, c)) => Ok(on_object(m, len, c)),
    }
}

/// The insert part of a block header read from the streams `m` (data of
/// `len` bytes, version `v`): the insert count (see
/// [`spec_insert_count`]), the description (text) and the preview (a
/// BitLong size taken as a `usize`, then that many bytes when it is not
/// zero).  Gives the insert count.
pub open spec fn spec_block_inserts(m: StreamsModel, len: nat, v: DxfVersion, reference: u64)
    -> Result<(nat, StreamsModel), DxfError>
{
    match spec_insert_count(m.object, m.object_pos, len) {
        Err(e) => Err(e),
        Ok((n, c1, p1)) => {
            let m1 = StreamsModel { object: c1, object_pos: p1, ..m };
            match spec_fields(m1, len, v, reference, seq![FieldKind::Text, FieldKind::BitLong]) {
                Err(e) => Err(e),
                Ok((fs, m2)) => {
                    let size = field_count(fs[1]);
                    if size > 0 {
                        match spec_skip_bytes(m2, len, size) {
                            Err(e) => Err(e),
                            Ok(m3) => Ok((n, m3)),
                        }
                    } else {
                        Ok((n, m2))
                    }
                },
            }
        },
    }
}

/// The middle of a block header read from the streams `m` (data of `len`
/// bytes, version `v`): from R2004 on, for a block that owns its
/// entities (`owns`: not an xref, not an overlay), the owned object count
/// (a BitLong taken as a `usize`); the base point (three BitDoubles) and
/// the xref path (text); from R2000 on the inserts (see
/// [`spec_block_inserts`]); from R2007 on the insert units (BitShort), the
/// explodable flag (a bit) and the scaling flag (a byte).  Gives the
/// owned object count and the insert count.
pub open spec fn spec_block_middle(m: StreamsModel, len: nat, v: DxfVersion, reference: u64, owns: bool)
    -> Result<((nat, nat), StreamsModel), DxfError>
{
    let owned = if version_at_least(v, DxfVersion::AC1018) && owns {
        match spec_fields(m, len, v, reference, seq![FieldKind::BitLong]) {
            Err(e) => Err(e),
            Ok((fs, m1)) => Ok((field_count(fs[0]), m1)),
        }
    } else {
        Ok((0nat, m))
    };
    match owned {
        Err(e) => Err(e),
        Ok((n_owned, m1)) => match spec_fields(m1, len, v, reference,
            seq![FieldKind::BitDouble, FieldKind::BitDouble, FieldKind::BitDouble, FieldKind::Text]) {
            Err(e) => Err(e),
            Ok((_, m2)) => {
                let inserts = if version_at_least(v, DxfVersion::AC1015) {
                    spec_block_inserts(m2, len, v, reference)
                } else {
                    Ok((0nat, m2))
                };
                match inserts {
                    Err(e) => Err(e),
                    Ok((n_ins, m3)) => if version_at_least(v, DxfVersion::AC1021) {
                        match spec_fields(m3, len, v, reference, seq![FieldKind::BitShort, FieldKind::Bit, FieldKind::RawChar]) {
                            Err(e) => Err(e),
                            Ok((_, m4)) => Ok(((n_owned, n_ins), m4)),
                        }
                    } else {
                        Ok(((n_owned, n_ins), m3))
                    },
                }
            },
        },
    }
}

/// The handles of a block header.
pub struct BlockHandles {
    pub block_entity: u64,
    pub first_entity: u64,
    pub last_entity: u64,
    pub owned: Seq<u64>,
    pub end_block: u64,
    pub layout: u64,
}

/// The entity handles of a block header that owns its entities, read from
/// the handle stream of `m` (data of `len` bytes, version `v`, relative
/// handles resolved against `reference`): before R2004 the first and last
/// entities, from R2004 on `n_owned` owned objects.
pub open spec fn spec_block_entities(m: StreamsModel, len: nat, v: DxfVersion, reference: u64, n_owned: nat)
    -> Result<((u64, u64, Seq<u64>), StreamsModel), DxfError>
{
    if version_at_least(v, DxfVersion::AC1018) {
        match spec_handle_list(m.handles, m.handles_pos, len, reference, n_owned) {
            Err(e) => Err(e),
            Ok((hs, ch, hp)) => Ok(((0u64, 0u64, hs), StreamsModel { handles: ch, handles_pos: hp, ..m })),
        }
    } else {
        match spec_fields(m, len, v, reference, seq![FieldKind::Handle, FieldKind::Handle]) {
            Err(e) => Err(e),
            Ok((ls, m1)) => Ok(((field_handle(ls[0]), field_handle(ls[1]), Seq::empty()), m1)),
        }
    }
}

/// The layout handle of a block header read from the handle stream of `m`
/// (data of `len` bytes, relative handles resolved against `reference`)
/// after `n_ins` inserts, which are not kept.
pub open spec fn spec_block_layout(m: StreamsModel, len: nat, v: DxfVersion, reference: u64, n_ins: nat)
    -> Result<(u64, StreamsModel), DxfError>
{
    match spec_handle_list(m.handles, m.handles_pos, len, reference, n_ins) {
        Err(e) => Err(e),
        Ok((_, ch, hp)) => match spec_fields(StreamsModel { handles: ch, handles_pos: hp, ..m },
            len, v, reference, seq![FieldKind::Handle]) {
            Err(e) => Err(e),
            Ok((ls, m1)) => Ok((field_handle(ls[0]), m1)),
        },
    }
}

/// The handles of a block header read from the handle stream of `m`
/// (data of `len` bytes, version `v`, relative handles resolved against
/// `reference`): the control object (not kept) and the block entity; for
/// a block that owns its entities, its entities (see
/// [`spec_block_entities`]); the end-of-block entity; from R2000 on the
/// layout (see [`spec_block_layout`]).
pub open spec fn spec_block_handles(m: StreamsModel, len: nat, v: DxfVersion, reference: u64, owns: bool,
    n_owned: nat, n_ins: nat) -> Result<(BlockHandles, StreamsModel), DxfError>
{
    match spec_fields(m, len, v, reference, seq![FieldKind::Handle, FieldKind::Handle]) {
        Err(e) => Err(e),
        Ok((fs, m1)) => {
            let entities = if owns {
                spec_block_entities(m1, len, v, reference, n_owned)
            } else {
                Ok(((0u64, 0u64, Seq::<u64>::empty()), m1))
            };
            match entities {
                Err(e) => Err(e),
                Ok(((first, last, owned), m2)) => match spec_fields(m2, len, v, reference, seq![FieldKind::Handle]) {
                    Err(e) => Err(e),
                    Ok((es, m3)) => {
                        let layout = if version_at_least(v, DxfVersion::AC1015) {
                            spec_block_layout(m3, len, v, reference, n_ins)
                        } else {
                            Ok((0u64, m3))
                        };
                        match layout {
                            Err(e) => Err(e),
                            Ok((lh, m4)) => Ok((BlockHandles {
                                block_entity: field_handle(fs[1]),
                                first_entity: first,
                                last_entity: last,
                                owned,
                                end_block: field_handle(es[0]),
                                layout: lh,
                            }, m4)),
                        }
                    },
                },
            }
        },
    }
}

/// A block header read from the streams `m` of `data` (version `v`,
/// object data starting at bit `init`, relative handles resolved against
/// `reference`): the record of [`block_head_layout`], the middle (see
/// [`spec_block_middle`]) and the handles (see [`spec_block_handles`]),
/// for a block that owns its entities when it is neither an xref nor an
/// overlay.
pub open spec fn spec_block_header(m: StreamsModel, data: Seq<u8>, v: DxfVersion, init: int, reference: u64)
    -> Result<((CommonModel, BlockHandles), StreamsModel), DxfError>
{
    let len = data.len();
    match spec_record(m, data, v, init, reference, block_head_layout(v)) {
        Err(e) => Err(e),
        Ok(((cm, fs), m1)) => {
            let owns = !field_bool(fs[4]) && !field_bool(fs[5]);
            match spec_block_middle(m1, len, v, reference, owns) {
                Err(e) => Err(e),
                Ok(((n_owned, n_ins), m2)) => match spec_block_handles(m2, len, v, reference, owns, n_owned, n_ins) {
                    Err(e) => Err(e),
                    Ok((bh, m3)) => Ok(((cm, bh), m3)),
                },
            }
        },
    }
}

/// Whether `v` is `min` or later.
pub open spec fn version_at_least(v: DxfVersion, min: DxfVersion) -> bool {
    crate::version::version_rank(v) >= crate::version::version_rank(min)
}

impl DwgObjectReader {
    /// Read a record: the common data, then the fields of `layout` (see
    /// [`spec_record`]).
    fn read_record(&mut self, streams: &mut StreamSet, layout: &Vec<FieldKind>)
        -> (r: Result<(CadTemplateCommon<XDataValue>, Vec<FieldValue>), DxfError>)
        requires
            old(self).inv(),
            streams_of(*old(streams), old(self).data(), old(self).spec_version()),
        ensures
            *final(self) == *old(self),
            streams_of(*final(streams), old(self).data(), old(self).spec_version()),
            final(streams).current_handle == old(streams).current_handle,
            match spec_record(model_of(*old(streams)), old(self).data(), old(self).spec_version(),
                old(self).initial_pos(), old(streams).current_handle, layout@) {
                Err(e) => r matches Err(e2) && e2 == e,
                Ok(((cm, fs), m)) => r matches Ok((c, v)) && common_model(c) == cm && fields_model(v@) == fs
                    && model_of(*final(streams)) == m,
            },
    {
        let common = self.read_common_non_entity_data(streams)?;
        let values = self.read_fields(streams, layout)?;
        Ok((common, values))
    }

    /// Read a scale (see [`scale_layout`]).
    pub fn read_scale<E>(&mut self, streams: &mut StreamSet) -> (r: Result<CadTemplate<XDataValue, E>, DxfError>)
        requires
            old(self).inv(),
            streams_of(*old(streams), old(self).data(), old(self).spec_version()),
        ensures
            *final(self) == *old(self),
            streams_of(*final(streams), old(self).data(), old(self).spec_version()),
            final(streams).current_handle == old(streams).current_handle,
            match spec_record(model_of(*old(streams)), old(self).data(), old(self).spec_version(),
                old(self).initial_pos(), old(streams).current_handle, scale_layout()) {
                Err(e) => r matches Err(e2) && e2 == e,
                Ok(((cm, _), m)) => r matches Ok(CadTemplate::ScaleObj { common })
                    && common_model(common) == cm && model_of(*final(streams)) == m,
            },
    {
        let layout = vec![FieldKind::BitShort, FieldKind::Text, FieldKind::BitDouble, FieldKind::BitDouble, FieldKind::Bit];
        proof { assert(layout@ =~= scale_layout()); }
        let (common, _values) = self.read_record(streams, &layout)?;
        Ok(CadTemplate::ScaleObj { common })
    }

    /// Read a non-graphical object kept as a generic object: its common
    /// data, then the fields of `layout` (not kept).
    fn read_generic<E>(&mut self, streams: &mut StreamSet, layout: &Vec<FieldKind>)
        -> (r: Result<CadTemplate<XDataValue, E>, DxfError>)
        requires
            old(self).inv(),
            streams_of(*old(streams), old(self).data(), old(self).spec_version()),
        ensures
            *final(self) == *old(self),
            streams_of(*final(streams), old(self).data(), old(self).spec_version()),
            final(streams).current_handle == old(streams).current_handle,
            generic_read(r, spec_record(model_of(*old(streams)), old(self).data(), old(self).spec_version(),
                old(self).initial_pos(), old(streams).current_handle, layout@), *final(streams)),
    {
        let (common, _values) = self.read_record(streams, layout)?;
        Ok(CadTemplate::GenericObject { common })
    }

    /// Read an image definition (see [`image_definition_layout`]).
    pub fn read_image_definition<E>(&mut self, streams: &mut StreamSet) -> (r: Result<CadTemplate<XDataValue, E>, DxfError>)
        requires
            old(self).inv(),
            streams_of(*old(streams), old(self).data(), old(self).spec_version()),
        ensures
            *final(self) == *old(self),
            streams_of(*final(streams), old(self).data(), old(self).spec_version()),
            final(streams).current_handle == old(streams).current_handle,
            match spec_record(model_of(*old(streams)), old(self).data(), old(self).spec_version(),
                old(self).initial_pos(), old(streams).current_handle, image_definition_layout()) {
                Err(e) => r matches Err(e2) && e2 == e,
                Ok(((cm, _), m)) => r matches Ok(CadTemplate::ImageDefObj { common, .. })
                    && common_model(common) == cm && model_of(*final(streams)) == m,
            },
    {
        let layout = vec![FieldKind::BitLong, FieldKind::RawDouble, FieldKind::RawDouble, FieldKind::Text, FieldKind::Bit,
            FieldKind::RawChar, FieldKind::RawDouble, FieldKind::RawDouble];
        proof { assert(layout@ =~= image_definition_layout()); }
        let (common, _values) = self.read_record(streams, &layout)?;
        Ok(CadTemplate::ImageDefObj { common, imgdef_data: CadImageDefTemplateData {} })
    }

    /// Read an image definition reactor: its common data and its class
    /// version (a BitLong, not kept); the image handle is left 0.
    pub fn read_image_definition_reactor<E>(&mut self, streams: &mut StreamSet)
        -> (r: Result<CadTemplate<XDataValue, E>, DxfError>)
        requires
            old(self).inv(),
            streams_of(*old(streams), old(self).data(), old(self).spec_version()),
        ensures
            *final(self) == *old(self),
            streams_of(*final(streams), old(self).data(), old(self).spec_version()),
            final(streams).current_handle == old(streams).current_handle,
            match spec_record(model_of(*old(streams)), old(self).data(), old(self).spec_version(),
                old(self).initial_pos(), old(streams).current_handle, seq![FieldKind::BitLong]) {
                Err(e) => r matches Err(e2) && e2 == e,
                Ok(((cm, _), m)) => r matches Ok(CadTemplate::ImageDefReactorObj { common, reactor_data })
                    && common_model(common) == cm && reactor_data.image_handle == 0 && model_of(*final(streams)) == m,
            },
    {
        let layout = vec![FieldKind::BitLong];
        proof { assert(layout@ =~= seq![FieldKind::BitLong]); }
        let (common, _values) = self.read_record(streams, &layout)?;
        Ok(CadTemplate::ImageDefReactorObj { common, reactor_data: CadImageDefReactorTemplateData { image_handle: 0 } })
    }

    /// Read a plot-settings object (see [`plot_settings_layout`]).
    pub fn read_plot_settings<E>(&mut self, streams: &mut StreamSet) -> (r: Result<CadTemplate<XDataValue, E>, DxfError>)
        requires
            old(self).inv(),
            streams_of(*old(streams), old(self).data(), old(self).spec_version()),
        ensures
            *final(self) == *old(self),
            streams_of(*final(streams), old(self).data(), old(self).spec_version()),
            final(streams).current_handle == old(streams).current_handle,
            match spec_record(model_of(*old(streams)), old(self).data(), old(self).spec_version(),
                old(self).initial_pos(), old(streams).current_handle, plot_settings_layout(old(self).spec_version())) {
                Err(e) => r matches Err(e2) && e2 == e,
                Ok(((cm, _), m)) => r matches Ok(CadTemplate::PlotSettingsObj { common })
                    && common_model(common) == cm && model_of(*final(streams)) == m,
            },
    {
        let mut layout: Vec<FieldKind> = Vec::new();
        self.push_plot_settings_fields(&mut layout);
        let (common, _values) = self.read_record(streams, &layout)?;
        Ok(CadTemplate::PlotSettingsObj { common })
    }

    /// Append the fields of the plot settings to `layout` (see
    /// [`plot_settings_layout`]).
    fn push_plot_settings_fields(&self, layout: &mut Vec<FieldKind>)
        ensures
            final(layout)@ == old(layout)@ + plot_settings_layout(self.spec_version()),
    {
        let v = self.version();
        let ghost start = layout@;
        layout.push(FieldKind::Text);
        layout.push(FieldKind::Text);
        layout.push(FieldKind::BitShort);
        layout.push(FieldKind::BitDouble);
        layout.push(FieldKind::BitDouble);
        layout.push(FieldKind::BitDouble);
        layout.push(FieldKind::BitDouble);
        layout.push(FieldKind::BitDouble);
        layout.push(FieldKind::BitDouble);
        layout.push(FieldKind::Text);
        layout.push(FieldKind::BitDouble);
        layout.push(FieldKind::BitDouble);
        layout.push(FieldKind::BitShort);
        layout.push(FieldKind::BitShort);
        layout.push(FieldKind::BitShort);
        layout.push(FieldKind::BitDouble);
        layout.push(FieldKind::BitDouble);
        layout.push(FieldKind::BitDouble);
        layout.push(FieldKind::BitDouble);
        if !v.at_least(DxfVersion::AC1018) {
            layout.push(FieldKind::Text);
        }
        layout.push(FieldKind::BitDouble);
        layout.push(FieldKind::BitDouble);
        layout.push(FieldKind::Text);
        layout.push(FieldKind::BitShort);
        layout.push(FieldKind::BitDouble);
        layout.push(FieldKind::BitDouble);
        layout.push(FieldKind::BitDouble);
        if v.at_least(DxfVersion::AC1018) {
            layout.push(FieldKind::BitShort);
            layout.push(FieldKind::BitShort);
            layout.push(FieldKind::BitShort);
            layout.push(FieldKind::Handle);
        }
        if v.at_least(DxfVersion::AC1021) {
            layout.push(FieldKind::Handle);
        }
        proof {
            assert(layout@ =~= start + plot_settings_layout(self.spec_version()));
        }
    }

    /// Read a viewport entity header (see [`viewport_entity_header_layout`]).
    pub fn read_viewport_entity_header<E>(&mut self, streams: &mut StreamSet)
        -> (r: Result<CadTemplate<XDataValue, E>, DxfError>)
        requires
            old(self).inv(),
            streams_of(*old(streams), old(self).data(), old(self).spec_version()),
        ensures
            *final(self) == *old(self),
            streams_of(*final(streams), old(self).data(), old(self).spec_version()),
            final(streams).current_handle == old(streams).current_handle,
            match spec_record(model_of(*old(streams)), old(self).data(), old(self).spec_version(),
                old(self).initial_pos(), old(streams).current_handle, viewport_entity_header_layout(old(self).spec_version())) {
                Err(e) => r matches Err(e2) && e2 == e,
                Ok(((cm, _), m)) => r matches Ok(CadTemplate::GenericTableEntry { common })
                    && common_model(common) == cm && model_of(*final(streams)) == m,
            },
    {
        let mut layout = vec![FieldKind::XrefBit, FieldKind::Bit, FieldKind::Handle];
        if !self.version().at_least(DxfVersion::AC1018) {
            layout.push(FieldKind::Handle);
        }
        proof { assert(layout@ =~= viewport_entity_header_layout(self.spec_version())); }
        let (common, _values) = self.read_record(streams, &layout)?;
        Ok(CadTemplate::GenericTableEntry { common })
    }

    /// Read a visual style: its common data and its name (not kept).
    pub fn read_visual_style<E>(&mut self, streams: &mut StreamSet) -> (r: Result<CadTemplate<XDataValue, E>, DxfError>)
        requires
            old(self).inv(),
            streams_of(*old(streams), old(self).data(), old(self).spec_version()),
        ensures
            *final(self) == *old(self),
            streams_of(*final(streams), old(self).data(), old(self).spec_version()),
            final(streams).current_handle == old(streams).current_handle,
            generic_read(r, spec_record(model_of(*old(streams)), old(self).data(), old(self).spec_version(),
                old(self).initial_pos(), old(streams).current_handle, seq![FieldKind::Text]), *final(streams)),
    {
        let layout = vec![FieldKind::Text];
        proof { assert(layout@ =~= seq![FieldKind::Text]); }
        self.read_generic(streams, &layout)
    }

    /// Read a material: its common data, its name and its description (not kept).
    pub fn read_material<E>(&mut self, streams: &mut StreamSet) -> (r: Result<CadTemplate<XDataValue, E>, DxfError>)
        requires
            old(self).inv(),
            streams_of(*old(streams), old(self).data(), old(self).spec_version()),
        ensures
            *final(self) == *old(self),
            streams_of(*final(streams), old(self).data(), old(self).spec_version()),
            final(streams).current_handle == old(streams).current_handle,
            generic_read(r, spec_record(model_of(*old(streams)), old(self).data(), old(self).spec_version(),
                old(self).initial_pos(), old(streams).current_handle, seq![FieldKind::Text, FieldKind::Text]), *final(streams)),
    {
        let layout = vec![FieldKind::Text, FieldKind::Text];
        proof { assert(layout@ =~= seq![FieldKind::Text, FieldKind::Text]); }
        self.read_generic(streams, &layout)
    }

    /// Read a placeholder object: its common data only.
    pub fn read_acdb_placeholder<E>(&mut self, streams: &mut StreamSet) -> (r: Result<CadTemplate<XDataValue, E>, DxfError>)
        requires
            old(self).inv(),
            streams_of(*old(streams), old(self).data(), old(self).spec_version()),
        ensures
            *final(self) == *old(self),
            streams_of(*final(streams), old(self).data(), old(self).spec_version()),
            final(streams).current_handle == old(streams).current_handle,
            generic_read(r, spec_record(model_of(*old(streams)), old(self).data(), old(self).spec_version(),
                old(self).initial_pos(), old(streams).current_handle, Seq::<FieldKind>::empty()), *final(streams)),
    {
        let layout = Vec::<FieldKind>::new();
        proof { assert(layout@ =~= Seq::<FieldKind>::empty()); }
        self.read_generic(streams, &layout)
    }

    /// Read raster variables (see [`raster_variables_layout`]).
    pub fn read_raster_variables<E>(&mut self, streams: &mut StreamSet) -> (r: Result<CadTemplate<XDataValue, E>, DxfError>)
        requires
            old(self).inv(),
            streams_of(*old(streams), old(self).data(), old(self).spec_version()),
        ensures
            *final(self) == *old(self),
            streams_of(*final(streams), old(self).data(), old(self).spec_version()),
            final(streams).current_handle == old(streams).current_handle,
            generic_read(r, spec_record(model_of(*old(streams)), old(self).data(), old(self).spec_version(),
                old(self).initial_pos(), old(streams).current_handle, raster_variables_layout()), *final(streams)),
    {
        let layout = vec![FieldKind::BitLong, FieldKind::BitShort, FieldKind::BitShort, FieldKind::BitShort];
        proof { assert(layout@ =~= raster_variables_layout()); }
        self.read_generic(streams, &layout)
    }

    /// Read an underlay definition: its common data, its file and its page (texts, not kept).
    pub fn read_pdf_definition<E>(&mut self, streams: &mut StreamSet) -> (r: Result<CadTemplate<XDataValue, E>, DxfError>)
        requires
            old(self).inv(),
            streams_of(*old(streams), old(self).data(), old(self).spec_version()),
        ensures
            *final(self) == *old(self),
            streams_of(*final(streams), old(self).data(), old(self).spec_version()),
            final(streams).current_handle == old(streams).current_handle,
            generic_read(r, spec_record(model_of(*old(streams)), old(self).data(), old(self).spec_version(),
                old(self).initial_pos(), old(streams).current_handle, seq![FieldKind::Text, FieldKind::Text]), *final(streams)),
    {
        let layout = vec![FieldKind::Text, FieldKind::Text];
        proof { assert(layout@ =~= seq![FieldKind::Text, FieldKind::Text]); }
        self.read_generic(streams, &layout)
    }

    /// Read wipeout variables: its common data and the display-frame flag (a BitShort, not kept).
    pub fn read_wipeout_variables<E>(&mut self, streams: &mut StreamSet) -> (r: Result<CadTemplate<XDataValue, E>, DxfError>)
        requires
            old(self).inv(),
            streams_of(*old(streams), old(self).data(), old(self).spec_version()),
        ensures
            *final(self) == *old(self),
            streams_of(*final(streams), old(self).data(), old(self).spec_version()),
            final(streams).current_handle == old(streams).current_handle,
            generic_read(r, spec_record(model_of(*old(streams)), old(self).data(), old(self).spec_version(),
                old(self).initial_pos(), old(streams).current_handle, seq![FieldKind::BitShort]), *final(streams)),
    {
        let layout = vec![FieldKind::BitShort];
        proof { assert(layout@ =~= seq![FieldKind::BitShort]); }
        self.read_generic(streams, &layout)
    }

    /// Read a table style (see [`table_style_layout`]).
    pub fn read_table_style<E>(&mut self, streams: &mut StreamSet) -> (r: Result<CadTemplate<XDataValue, E>, DxfError>)
        requires
            old(self).inv(),
            streams_of(*old(streams), old(self).data(), old(self).spec_version()),
        ensures
            *final(self) == *old(self),
            streams_of(*final(streams), old(self).data(), old(self).spec_version()),
            final(streams).current_handle == old(streams).current_handle,
            generic_read(r, spec_record(model_of(*old(streams)), old(self).data(), old(self).spec_version(),
                old(self).initial_pos(), old(streams).current_handle, table_style_layout(old(self).spec_version())),
                *final(streams)),
    {
        let layout = if self.version().at_least(DxfVersion::AC1021) {
            Vec::new()
        } else {
            vec![FieldKind::Text, FieldKind::BitShort, FieldKind::BitShort, FieldKind::BitDouble, FieldKind::BitDouble,
                FieldKind::Bit, FieldKind::Bit]
        };
        proof { assert(layout@ =~= table_style_layout(self.spec_version())); }
        self.read_generic(streams, &layout)
    }

    /// Read a layout object (see [`spec_layout_object`]); the template
    /// keeps the paper-space block, active viewport, base UCS and named UCS
    /// handles.
    pub fn read_layout<E>(&mut self, streams: &mut StreamSet) -> (r: Result<CadTemplate<XDataValue, E>, DxfError>)
        requires
            old(self).inv(),
            streams_of(*old(streams), old(self).data(), old(self).spec_version()),
        ensures
            *final(self) == *old(self),
            streams_of(*final(streams), old(self).data(), old(self).spec_version()),
            final(streams).current_handle == old(streams).current_handle,
            match spec_layout_object(model_of(*old(streams)), old(self).data(), old(self).spec_version(),
                old(self).initial_pos(), old(streams).current_handle) {
                Err(e) => r matches Err(e2) && e2 == e,
                Ok(((cm, fs), m)) => {
                    let k = (plot_settings_layout(old(self).spec_version()).len() + layout_body(old(self).spec_version()).len()) as int;
                    &&& r matches Ok(CadTemplate::LayoutObj { common, layout_data })
                        && common_model(common) == cm
                        && layout_data.block_record_handle == field_handle(fs[k])
                        && layout_data.viewport_handle == field_handle(fs[k + 1])
                        && layout_data.base_ucs_handle == field_handle(fs[k + 2])
                        && layout_data.named_ucs_handle == field_handle(fs[k + 3])
                        && layout_data.plot_view_handle == 0
                        && layout_data.visual_style_handle == 0
                        && layout_data.associated_tab_handle == 0
                    &&& model_of(*final(streams)) == m
                },
            },
    {
        let layout = self.layout_object_fields();
        let r2004 = self.version().at_least(DxfVersion::AC1018);
        let k = layout.len() - 4;
        let ghost m0 = model_of(*streams);
        let ghost reference0 = streams.current_handle;
        proof {
            if let Ok((cm, m1)) = spec_common_non_entity(m0, self.data(), self.spec_version(), self.initial_pos()) {
                lemma_fields_len(m1, self.data().len(), self.spec_version(), reference0, layout@);
            }
        }
        let (common, values) = self.read_record(streams, &layout)?;
        let n = if r2004 { field_count_of(&values[k - 1]) } else { 0 };
        let reference = streams.current_handle;
        let _viewports = read_handle_list(&mut streams.handles_reader, reference, n)?;
        let layout_data = CadLayoutTemplateData {
            plot_view_handle: 0,
            visual_style_handle: 0,
            associated_tab_handle: 0,
            viewport_handle: field_handle_of(&values[k + 1]),
            base_ucs_handle: field_handle_of(&values[k + 2]),
            named_ucs_handle: field_handle_of(&values[k + 3]),
            block_record_handle: field_handle_of(&values[k]),
        };
        Ok(CadTemplate::LayoutObj { common, layout_data })
    }

    /// Read a multileader style (see [`mleader_style_layout`]); the
    /// template keeps the leader linetype, arrowhead, text style and block
    /// content handles.
    pub fn read_mleader_style<E>(&mut self, streams: &mut StreamSet) -> (r: Result<CadTemplate<XDataValue, E>, DxfError>)
        requires
            old(self).inv(),
            streams_of(*old(streams), old(self).data(), old(self).spec_version()),
        ensures
            *final(self) == *old(self),
            streams_of(*final(streams), old(self).data(), old(self).spec_version()),
            final(streams).current_handle == old(streams).current_handle,
            match spec_record(model_of(*old(streams)), old(self).data(), old(self).spec_version(),
                old(self).initial_pos(), old(streams).current_handle, mleader_style_layout(old(self).spec_version())) {
                Err(e) => r matches Err(e2) && e2 == e,
                Ok(((cm, fs), m)) => {
                    let a = mleader_offset(old(self).spec_version());
                    &&& r matches Ok(CadTemplate::MLeaderStyleObj { common, mls_style_data })
                        && common_model(common) == cm
                        && mls_style_data.leader_line_type_handle == field_handle(fs[a + 8])
                        && mls_style_data.arrowhead_handle == field_handle(fs[a + 15])
                        && mls_style_data.mtext_style_handle == field_handle(fs[a + 18])
                        && mls_style_data.block_content_handle == field_handle(fs[a + 28])
                    &&& model_of(*final(streams)) == m
                },
            },
    {
        let layout = self.mleader_style_fields();
        let a: usize = if self.version().at_least(DxfVersion::AC1024) { 1 } else { 0 };
        let ghost m0 = model_of(*streams);
        proof {
            if let Ok((cm, m1)) = spec_common_non_entity(m0, self.data(), self.spec_version(), self.initial_pos()) {
                lemma_fields_len(m1, self.data().len(), self.spec_version(), streams.current_handle, layout@);
            }
        }
        let (common, values) = self.read_record(streams, &layout)?;
        let mls_style_data = CadMLeaderStyleTemplateData {
            leader_line_type_handle: field_handle_of(&values[a + 8]),
            arrowhead_handle: field_handle_of(&values[a + 15]),
            mtext_style_handle: field_handle_of(&values[a + 18]),
            block_content_handle: field_handle_of(&values[a + 28]),
        };
        Ok(CadTemplate::MLeaderStyleObj { common, mls_style_data })
    }

    /// The fields of a multileader style (see [`mleader_style_layout`]).
    fn mleader_style_fields(&self) -> (r: Vec<FieldKind>)
        ensures
            r@ == mleader_style_layout(self.spec_version()),
            r@.len() == mleader_offset(self.spec_version()) + 41 + (if version_at_least(self.spec_version(), DxfVersion::AC1024) { 2int } else { 0 })
                + (if version_at_least(self.spec_version(), DxfVersion::AC1027) { 1int } else { 0 }),
    {
        let v = self.version();
        let mut layout: Vec<FieldKind> = Vec::new();
        if v.at_least(DxfVersion::AC1024) {
            layout.push(FieldKind::BitShort);
        }
        let mut body = vec![FieldKind::BitShort, FieldKind::BitShort, FieldKind::BitShort, FieldKind::BitLong,
            FieldKind::BitDouble, FieldKind::BitDouble, FieldKind::BitShort, FieldKind::CmColor, FieldKind::Handle,
            FieldKind::BitLong, FieldKind::Bit, FieldKind::BitDouble, FieldKind::Bit, FieldKind::BitDouble,
            FieldKind::Text, FieldKind::Handle, FieldKind::BitDouble, FieldKind::Text, FieldKind::Handle,
            FieldKind::BitShort, FieldKind::BitShort, FieldKind::BitShort, FieldKind::BitShort, FieldKind::CmColor,
            FieldKind::BitDouble, FieldKind::Bit, FieldKind::Bit, FieldKind::BitDouble, FieldKind::Handle,
            FieldKind::CmColor, FieldKind::BitDouble, FieldKind::BitDouble, FieldKind::BitDouble, FieldKind::Bit,
            FieldKind::BitDouble, FieldKind::Bit, FieldKind::BitShort, FieldKind::BitDouble, FieldKind::Bit,
            FieldKind::Bit, FieldKind::BitDouble];
        layout.append(&mut body);
        if v.at_least(DxfVersion::AC1024) {
            layout.push(FieldKind::BitShort);
            layout.push(FieldKind::BitShort);
        }
        if v.at_least(DxfVersion::AC1027) {
            layout.push(FieldKind::Bit);
        }
        proof {
            assert(layout@ =~= mleader_style_layout(self.spec_version()));
        }
        layout
    }

    /// Read a multiline style: the record of [`mline_style_head`], then
    /// as many elements as its count says (see [`spec_mline_elements`]);
    /// the template keeps the linetype handle of each element.
    pub fn read_mline_style<E>(&mut self, streams: &mut StreamSet) -> (r: Result<CadTemplate<XDataValue, E>, DxfError>)
        requires
            old(self).inv(),
            streams_of(*old(streams), old(self).data(), old(self).spec_version()),
        ensures
            *final(self) == *old(self),
            streams_of(*final(streams), old(self).data(), old(self).spec_version()),
            final(streams).current_handle == old(streams).current_handle,
            match spec_record(model_of(*old(streams)), old(self).data(), old(self).spec_version(),
                old(self).initial_pos(), old(streams).current_handle, mline_style_head()) {
                Err(e) => r matches Err(e2) && e2 == e,
                Ok(((cm, fs), m1)) => match spec_mline_elements(m1, old(self).data().len(), old(self).spec_version(),
                    old(streams).current_handle, field_count(fs[6])) {
                    Err(e) => r matches Err(e2) && e2 == e,
                    Ok((hs, m2)) => r matches Ok(CadTemplate::MLineStyleObj { common, mls_data })
                        && common_model(common) == cm && mls_data.element_linetype_handles@ == hs
                        && model_of(*final(streams)) == m2,
                },
            },
    {
        let layout = vec![FieldKind::Text, FieldKind::Text, FieldKind::BitShort, FieldKind::CmColor, FieldKind::BitDouble,
            FieldKind::BitDouble, FieldKind::RawChar];
        proof { assert(layout@ =~= mline_style_head()); }
        let ghost m0 = model_of(*streams);
        proof {
            if let Ok((cm, m1)) = spec_common_non_entity(m0, self.data(), self.spec_version(), self.initial_pos()) {
                lemma_fields_len(m1, self.data().len(), self.spec_version(), streams.current_handle, layout@);
            }
        }
        let (common, values) = self.read_record(streams, &layout)?;
        let num_lines = field_count_of(&values[6]);
        let element = if self.version().at_least(DxfVersion::AC1032) {
            vec![FieldKind::BitDouble, FieldKind::CmColor, FieldKind::Handle]
        } else {
            vec![FieldKind::BitDouble, FieldKind::CmColor, FieldKind::BitShort]
        };
        proof { assert(element@ =~= mline_element_layout(self.spec_version())); }
        let ghost len = self.data().len();
        let ghost v = self.spec_version();
        let ghost reference = streams.current_handle;
        let ghost m1 = model_of(*streams);
        let ghost total = spec_mline_elements(model_of(*streams), len, v, reference, num_lines as nat);
        let mut handles: Vec<u64> = Vec::new();
        let mut i: usize = 0;
        proof {
            if let Ok((hs, m)) = total {
                assert(handles@ + hs =~= hs);
            }
        }
        while i < num_lines
            invariant
                i <= num_lines,
                *self == *old(self),
                self.inv(),
                len == self.data().len(),
                v == self.spec_version(),
                element@ == mline_element_layout(v),
                spec_record(model_of(*old(streams)), old(self).data(), old(self).spec_version(), old(self).initial_pos(),
                    old(streams).current_handle, mline_style_head())
                    == Ok::<((CommonModel, Seq<FieldModel>), StreamsModel), DxfError>(((common_model(common), fields_model(values@)), m1)),
                values@.len() == 7,
                num_lines == field_count(fields_model(values@)[6]),
                total == spec_mline_elements(m1, len, v, reference, num_lines as nat),
                reference == streams.current_handle,
                reference == old(streams).current_handle,
                streams_of(*streams, self.data(), self.spec_version()),
                total == (match spec_mline_elements(model_of(*streams), len, v, reference, (num_lines - i) as nat) {
                    Err(e) => Err(e),
                    Ok((hs, m)) => Ok((handles@ + hs, m)),
                }),
            decreases num_lines - i,
        {
            let ghost m0 = model_of(*streams);
            let h = match self.read_mline_element(streams, &element) {
                Ok(h) => h,
                Err(e) => {
                    proof { assert(spec_mline_elements(m0, len, v, reference, (num_lines - i) as nat) matches Err(e2) && e2 == e); }
                    return Err(e);
                },
            };
            proof {
                let rest = spec_mline_elements(model_of(*streams), len, v, reference, (num_lines - i - 1) as nat);
                if let Ok((hs, m)) = rest {
                    assert(handles@ + (seq![h] + hs) =~= handles@.push(h) + hs);
                }
            }
            handles.push(h);
            i = i + 1;
        }
        proof {
            if let Ok((hs, m)) = total {
                assert(handles@ + Seq::<u64>::empty() =~= handles@);
            }
        }
        Ok(CadTemplate::MLineStyleObj { common, mls_data: CadMLineStyleTemplateData { element_linetype_handles: handles } })
    }

    /// Read a color-book color: the record of [`db_color_head`], then from
    /// R2004 on the names its flags announce (see [`color_names_layout`]),
    /// not kept; a generic object.
    pub fn read_db_color<E>(&mut self, streams: &mut StreamSet) -> (r: Result<CadTemplate<XDataValue, E>, DxfError>)
        requires
            old(self).inv(),
            streams_of(*old(streams), old(self).data(), old(self).spec_version()),
        ensures
            *final(self) == *old(self),
            streams_of(*final(streams), old(self).data(), old(self).spec_version()),
            final(streams).current_handle == old(streams).current_handle,
            match spec_record(model_of(*old(streams)), old(self).data(), old(self).spec_version(),
                old(self).initial_pos(), old(streams).current_handle, db_color_head(old(self).spec_version())) {
                Err(e) => r matches Err(e2) && e2 == e,
                Ok(((cm, fs), m1)) => if version_at_least(old(self).spec_version(), DxfVersion::AC1018) {
                    match spec_fields(m1, old(self).data().len(), old(self).spec_version(), old(streams).current_handle,
                        color_names_layout(field_count(fs[2]))) {
                        Err(e) => r matches Err(e2) && e2 == e,
                        Ok((_, m2)) => r matches Ok(CadTemplate::GenericObject { common })
                            && common_model(common) == cm && model_of(*final(streams)) == m2,
                    }
                } else {
                    r matches Ok(CadTemplate::GenericObject { common }) && common_model(common) == cm
                        && model_of(*final(streams)) == m1
                },
            },
    {
        let r2004 = self.version().at_least(DxfVersion::AC1018);
        let layout = if r2004 {
            vec![FieldKind::BitShort, FieldKind::BitLong, FieldKind::RawChar]
        } else {
            vec![FieldKind::BitShort]
        };
        proof { assert(layout@ =~= db_color_head(self.spec_version())); }
        let ghost m0 = model_of(*streams);
        proof {
            if let Ok((cm, m1)) = spec_common_non_entity(m0, self.data(), self.spec_version(), self.initial_pos()) {
                lemma_fields_len(m1, self.data().len(), self.spec_version(), streams.current_handle, layout@);
            }
        }
        let (common, values) = self.read_record(streams, &layout)?;
        if r2004 {
            let flags = field_count_of(&values[2]);
            let mut names: Vec<FieldKind> = Vec::new();
            if flags % 2 == 1 {
                names.push(FieldKind::Text);
            }
            if (flags / 2) % 2 == 1 {
                names.push(FieldKind::Text);
            }
            proof { assert(names@ =~= color_names_layout(flags as nat)); }
            let _names = self.read_fields(streams, &names)?;
        }
        Ok(CadTemplate::GenericObject { common })
    }

    /// Read a sort-entities table: the record of the block owner handle and
    /// the entry count, then the entries (see [`spec_sort_pairs`]).
    pub fn read_sort_entities_table<E>(&mut self, streams: &mut StreamSet)
        -> (r: Result<CadTemplate<XDataValue, E>, DxfError>)
        requires
            old(self).inv(),
            streams_of(*old(streams), old(self).data(), old(self).spec_version()),
        ensures
            *final(self) == *old(self),
            streams_of(*final(streams), old(self).data(), old(self).spec_version()),
            final(streams).current_handle == old(streams).current_handle,
            match spec_record(model_of(*old(streams)), old(self).data(), old(self).spec_version(),
                old(self).initial_pos(), old(streams).current_handle, seq![FieldKind::Handle, FieldKind::BitLong]) {
                Err(e) => r matches Err(e2) && e2 == e,
                Ok(((cm, fs), m1)) => match spec_sort_pairs(m1, old(self).data().len(), old(self).spec_version(),
                    old(streams).current_handle, field_count(fs[1])) {
                    Err(e) => r matches Err(e2) && e2 == e,
                    Ok((ps, m2)) => r matches Ok(CadTemplate::SortEntsTableObj { common, sort_data })
                        && common_model(common) == cm && sort_data.block_owner_handle == field_handle(fs[0])
                        && sort_data.sort_handle_pairs@ == ps && model_of(*final(streams)) == m2,
                },
            },
    {
        let layout = vec![FieldKind::Handle, FieldKind::BitLong];
        proof { assert(layout@ =~= seq![FieldKind::Handle, FieldKind::BitLong]); }
        let ghost m0 = model_of(*streams);
        proof {
            if let Ok((cm, m1)) = spec_common_non_entity(m0, self.data(), self.spec_version(), self.initial_pos()) {
                lemma_fields_len(m1, self.data().len(), self.spec_version(), streams.current_handle, layout@);
            }
        }
        let (common, values) = self.read_record(streams, &layout)?;
        let block_owner_handle = field_handle_of(&values[0]);
        let num_entries = field_count_of(&values[1]);
        let pair = vec![FieldKind::ObjectHandle, FieldKind::Handle];
        proof { assert(pair@ =~= seq![FieldKind::ObjectHandle, FieldKind::Handle]); }
        let ghost len = self.data().len();
        let ghost v = self.spec_version();
        let ghost reference = streams.current_handle;
        let ghost m1 = model_of(*streams);
        let ghost total = spec_sort_pairs(model_of(*streams), len, v, reference, num_entries as nat);
        let mut pairs: Vec<(u64, u64)> = Vec::new();
        let mut i: usize = 0;
        proof {
            if let Ok((ps, m)) = total {
                assert(pairs@ + ps =~= ps);
            }
        }
        while i < num_entries
            invariant
                i <= num_entries,
                *self == *old(self),
                self.inv(),
                len == self.data().len(),
                v == self.spec_version(),
                pair@ == seq![FieldKind::ObjectHandle, FieldKind::Handle],
                spec_record(model_of(*old(streams)), old(self).data(), old(self).spec_version(), old(self).initial_pos(),
                    old(streams).current_handle, seq![FieldKind::Handle, FieldKind::BitLong])
                    == Ok::<((CommonModel, Seq<FieldModel>), StreamsModel), DxfError>(((common_model(common), fields_model(values@)), m1)),
                values@.len() == 2,
                num_entries == field_count(fields_model(values@)[1]),
                block_owner_handle == field_handle(fields_model(values@)[0]),
                total == spec_sort_pairs(m1, len, v, reference, num_entries as nat),
                reference == streams.current_handle,
                reference == old(streams).current_handle,
                streams_of(*streams, self.data(), self.spec_version()),
                total == (match spec_sort_pairs(model_of(*streams), len, v, reference, (num_entries - i) as nat) {
                    Err(e) => Err(e),
                    Ok((ps, m)) => Ok((pairs@ + ps, m)),
                }),
            decreases num_entries - i,
        {
            let ghost m0 = model_of(*streams);
            let p = match self.read_sort_pair(streams, &pair) {
                Ok(p) => p,
                Err(e) => {
                    proof { assert(spec_sort_pairs(m0, len, v, reference, (num_entries - i) as nat) matches Err(e2) && e2 == e); }
                    return Err(e);
                },
            };
            proof {
                let rest = spec_sort_pairs(model_of(*streams), len, v, reference, (num_entries - i - 1) as nat);
                if let Ok((ps, m)) = rest {
                    assert(pairs@ + (seq![p] + ps) =~= pairs@.push(p) + ps);
                }
            }
            pairs.push(p);
            i = i + 1;
        }
        proof {
            if let Ok((ps, m)) = total {
                assert(pairs@ + Seq::<(u64, u64)>::empty() =~= pairs@);
            }
        }
        Ok(CadTemplate::SortEntsTableObj {
            common,
            sort_data: CadSortEntsTableTemplateData { block_owner_handle, sort_handle_pairs: pairs },
        })
    }

    /// Read one multiline style element (see [`spec_mline_element`]);
    /// `element` is its layout.
    fn read_mline_element(&mut self, streams: &mut StreamSet, element: &Vec<FieldKind>) -> (r: Result<u64, DxfError>)
        requires
            old(self).inv(),
            streams_of(*old(streams), old(self).data(), old(self).spec_version()),
            element@ == mline_element_layout(old(self).spec_version()),
        ensures
            *final(self) == *old(self),
            streams_of(*final(streams), old(self).data(), old(self).spec_version()),
            final(streams).current_handle == old(streams).current_handle,
            match spec_mline_element(model_of(*old(streams)), old(self).data().len(), old(self).spec_version(),
                old(streams).current_handle) {
                Err(e) => r matches Err(e2) && e2 == e,
                Ok((h, m)) => r == Ok::<u64, DxfError>(h) && model_of(*final(streams)) == m,
            },
    {
        proof {
            reveal(spec_mline_element);
            lemma_fields_len(model_of(*streams), self.data().len(), self.spec_version(), streams.current_handle, element@);
        }
        let fields = self.read_fields(streams, element)?;
        if self.version().at_least(DxfVersion::AC1032) {
            Ok(field_handle_of(&fields[2]))
        } else {
            Ok(0)
        }
    }

    /// Read one sort entry (see [`spec_sort_pair`]); `pair` is its layout.
    fn read_sort_pair(&mut self, streams: &mut StreamSet, pair: &Vec<FieldKind>) -> (r: Result<(u64, u64), DxfError>)
        requires
            old(self).inv(),
            streams_of(*old(streams), old(self).data(), old(self).spec_version()),
            pair@ == seq![FieldKind::ObjectHandle, FieldKind::Handle],
        ensures
            *final(self) == *old(self),
            streams_of(*final(streams), old(self).data(), old(self).spec_version()),
            final(streams).current_handle == old(streams).current_handle,
            match spec_sort_pair(model_of(*old(streams)), old(self).data().len(), old(self).spec_version(),
                old(streams).current_handle) {
                Err(e) => r matches Err(e2) && e2 == e,
                Ok((p, m)) => r == Ok::<(u64, u64), DxfError>(p) && model_of(*final(streams)) == m,
            },
    {
        proof {
            reveal(spec_sort_pair);
            lemma_fields_len(model_of(*streams), self.data().len(), self.spec_version(), streams.current_handle, pair@);
        }
        let fields = self.read_fields(streams, pair)?;
        Ok((field_handle_of(&fields[0]), field_handle_of(&fields[1])))
    }

    /// Read the value of an xrecord item of type `t` (see
    /// [`spec_xrecord_value`]); `false`, with nothing read, for an unknown
    /// type.
    fn read_xrecord_value(&mut self, streams: &mut StreamSet, t: GroupCodeType) -> (r: Result<bool, DxfError>)
        requires
            old(self).inv(),
            streams_of(*old(streams), old(self).data(), old(self).spec_version()),
        ensures
            *final(self) == *old(self),
            streams_of(*final(streams), old(self).data(), old(self).spec_version()),
            final(streams).current_handle == old(streams).current_handle,
            match spec_xrecord_value(model_of(*old(streams)), old(self).data().len(), old(self).spec_version(), t) {
                Err(e) => r matches Err(e2) && e2 == e,
                Ok(None) => r == Ok::<bool, DxfError>(false) && model_of(*final(streams)) == model_of(*old(streams)),
                Ok(Some(m)) => r == Ok::<bool, DxfError>(true) && model_of(*final(streams)) == m,
            },
    {
        proof { reveal(spec_xrecord_value); }
        let kinds = match t {
            GroupCodeType::String => {
                let _value = streams.object_reader.read_text_unicode()?;
                return Ok(true);
            },
            GroupCodeType::Chunk => {
                let n = streams.object_reader.read_raw_char()?;
                let _value = streams.object_reader.read_bytes(n as usize)?;
                return Ok(true);
            },
            GroupCodeType::Unknown => {
                return Ok(false);
            },
            GroupCodeType::Point3D => vec![FieldKind::BitDouble, FieldKind::BitDouble, FieldKind::BitDouble],
            GroupCodeType::Double => vec![FieldKind::BitDouble],
            GroupCodeType::Int16 => vec![FieldKind::BitShort],
            GroupCodeType::Int32 => vec![FieldKind::BitLong],
            GroupCodeType::Int64 => vec![FieldKind::BitLongLong],
            GroupCodeType::Handle => vec![FieldKind::ObjectHandle],
            GroupCodeType::Bool => vec![FieldKind::Bit],
        };
        proof {
            let m0 = model_of(*streams);
            let len = self.data().len();
            let v = self.spec_version();
            reveal_with_fuel(spec_fields, 4);
            assert(spec_fields(m0, len, v, 0, kinds@) == spec_fields(m0, len, v, streams.current_handle, kinds@));
        }
        let _value = self.read_fields(streams, &kinds)?;
        Ok(true)
    }

    /// Read the items of an xrecord up to bit position `end_pos` (see
    /// [`spec_xrecord_items`]).
    fn read_xrecord_items(&mut self, streams: &mut StreamSet, end_pos: i64) -> (r: Result<(), DxfError>)
        requires
            old(self).inv(),
            streams_of(*old(streams), old(self).data(), old(self).spec_version()),
        ensures
            *final(self) == *old(self),
            streams_of(*final(streams), old(self).data(), old(self).spec_version()),
            final(streams).current_handle == old(streams).current_handle,
            match spec_xrecord_items(model_of(*old(streams)), old(self).data().len(), old(self).spec_version(), end_pos as int) {
                Err(e) => r matches Err(e2) && e2 == e,
                Ok(m) => r == Ok::<(), DxfError>(()) && model_of(*final(streams)) == m,
            },
    {
        let ghost len = self.data().len();
        let ghost v = self.spec_version();
        let ghost m2 = model_of(*streams);
        let ghost total = spec_xrecord_items(m2, len, v, end_pos as int);
        loop
            invariant_except_break
                *self == *old(self),
                self.inv(),
                len == self.data().len(),
                v == self.spec_version(),
                streams.current_handle == old(streams).current_handle,
                streams_of(*streams, self.data(), self.spec_version()),
                total == spec_xrecord_items(model_of(*old(streams)), len, v, end_pos as int),
                total == spec_xrecord_items(model_of(*streams), len, v, end_pos as int),
            ensures
                *self == *old(self),
                self.inv(),
                streams.current_handle == old(streams).current_handle,
                streams_of(*streams, self.data(), self.spec_version()),
                total == spec_xrecord_items(model_of(*old(streams)), len, v, end_pos as int),
                total == Ok::<StreamsModel, DxfError>(model_of(*streams)),
            decreases (if object_bit_position(model_of(*streams)) < end_pos {
                end_pos - object_bit_position(model_of(*streams))
            } else {
                0
            }) as nat,
        {
            let ghost m0 = model_of(*streams);
            if streams.object_reader.position() > 0x0800_0000_0000_0000 {
                return Err(DxfError::InvalidFormat);
            }
            let before = streams.object_reader.position_in_bits();
            if !(before < end_pos) {
                break;
            }
            let group_code = match streams.object_reader.read_raw_short() {
                Ok(c) => c,
                Err(e) => {
                    proof { assert(spec_xrecord_items(m0, len, v, end_pos as int) matches Err(e2) && e2 == e); }
                    return Err(e);
                },
            };
            let t = group_code_value_type(group_code);
            let more = match self.read_xrecord_value(streams, t) {
                Ok(b) => b,
                Err(e) => {
                    proof { assert(spec_xrecord_items(m0, len, v, end_pos as int) matches Err(e2) && e2 == e); }
                    return Err(e);
                },
            };
            if !more {
                break;
            }
            if streams.object_reader.position() > 0x0800_0000_0000_0000
                || streams.object_reader.position_in_bits() <= before {
                return Err(DxfError::InvalidFormat);
            }
        }
        Ok(())
    }

    /// Read an xrecord (see [`spec_xrecord`]); its items are not kept.
    pub fn read_xrecord<E>(&mut self, streams: &mut StreamSet) -> (r: Result<CadTemplate<XDataValue, E>, DxfError>)
        requires
            old(self).inv(),
            streams_of(*old(streams), old(self).data(), old(self).spec_version()),
        ensures
            *final(self) == *old(self),
            streams_of(*final(streams), old(self).data(), old(self).spec_version()),
            final(streams).current_handle == old(streams).current_handle,
            match spec_xrecord(model_of(*old(streams)), old(self).data(), old(self).spec_version(), old(self).initial_pos()) {
                Err(e) => r matches Err(e2) && e2 == e,
                Ok((cm, m)) => r matches Ok(CadTemplate::XRecordObj { common })
                    && common_model(common) == cm && model_of(*final(streams)) == m,
            },
    {
        let common = self.read_common_non_entity_data(streams)?;
        let bl = streams.object_reader.read_bit_long()?;
        let num_data_bytes = bl as usize;
        if streams.object_reader.position() > 0x0800_0000_0000_0000 {
            return Err(DxfError::InvalidFormat);
        }
        let start_pos = streams.object_reader.position_in_bits();
        let nb = num_data_bytes as i64;
        assert(-0x8000_0000 <= nb <= 0xFFFF_FFFF) by (bit_vector)
            requires
                nb == ((bl as usize) as i64),
        ;
        let end_pos = start_pos + nb * 8;
        self.read_xrecord_items(streams, end_pos)?;
        if self.version().at_least(DxfVersion::AC1015) {
            let _cloning = streams.object_reader.read_bit_short()?;
        }
        Ok(CadTemplate::XRecordObj { common })
    }

    /// Read the insert part of a block header (see [`spec_block_inserts`]):
    /// the insert count.
    #[verifier::spinoff_prover]
    fn read_block_inserts(&mut self, streams: &mut StreamSet) -> (r: Result<usize, DxfError>)
        requires
            old(self).inv(),
            streams_of(*old(streams), old(self).data(), old(self).spec_version()),
        ensures
            *final(self) == *old(self),
            streams_of(*final(streams), old(self).data(), old(self).spec_version()),
            final(streams).current_handle == old(streams).current_handle,
            match spec_block_inserts(model_of(*old(streams)), old(self).data().len(), old(self).spec_version(),
                old(streams).current_handle) {
                Err(e) => r matches Err(e2) && e2 == e,
                Ok((n, m)) => r matches Ok(k) && k == n && model_of(*final(streams)) == m,
            },
    {
        let ghost len = self.data().len();
        let ghost v = self.spec_version();
        let ghost reference = streams.current_handle;
        proof { self.lemma_data_len(); }
        let insert_count = read_insert_count(&mut streams.object_reader)?;
        let tail = vec![FieldKind::Text, FieldKind::BitLong];
        proof { assert(tail@ =~= seq![FieldKind::Text, FieldKind::BitLong]); }
        proof { lemma_fields_len(model_of(*streams), len, v, reference, tail@); }
        let fs = self.read_fields(streams, &tail)?;
        let preview_size = field_count_of(&fs[1]);
        if preview_size > 0 {
            let _preview = streams.object_reader.read_bytes(preview_size)?;
        }
        Ok(insert_count)
    }

    /// Read the middle of a block header (see [`spec_block_middle`]): the
    /// owned object count and the insert count.
    #[verifier::spinoff_prover]
    fn read_block_middle(&mut self, streams: &mut StreamSet, owns: bool) -> (r: Result<(usize, usize), DxfError>)
        requires
            old(self).inv(),
            streams_of(*old(streams), old(self).data(), old(self).spec_version()),
        ensures
            *final(self) == *old(self),
            streams_of(*final(streams), old(self).data(), old(self).spec_version()),
            final(streams).current_handle == old(streams).current_handle,
            match spec_block_middle(model_of(*old(streams)), old(self).data().len(), old(self).spec_version(),
                old(streams).current_handle, owns) {
                Err(e) => r matches Err(e2) && e2 == e,
                Ok(((n_owned, n_ins), m)) => r matches Ok((a, b)) && a == n_owned && b == n_ins
                    && model_of(*final(streams)) == m,
            },
    {
        let ghost len = self.data().len();
        let ghost v = self.spec_version();
        let ghost reference = streams.current_handle;
        let owned_count: usize = if self.version().at_least(DxfVersion::AC1018) && owns {
            let kinds = vec![FieldKind::BitLong];
        proof { assert(kinds@ =~= seq![FieldKind::BitLong]); }
            proof { lemma_fields_len(model_of(*streams), len, v, reference, kinds@); }
            let fs = self.read_fields(streams, &kinds)?;
            field_count_of(&fs[0])
        } else {
            0
        };
        let base = vec![FieldKind::BitDouble, FieldKind::BitDouble, FieldKind::BitDouble, FieldKind::Text];
        proof { assert(base@ =~= seq![FieldKind::BitDouble, FieldKind::BitDouble, FieldKind::BitDouble, FieldKind::Text]); }
        let _base_point_and_path = self.read_fields(streams, &base)?;
        let insert_count: usize = if self.version().at_least(DxfVersion::AC1015) {
            self.read_block_inserts(streams)?
        } else {
            0
        };
        if self.version().at_least(DxfVersion::AC1021) {
            let units = vec![FieldKind::BitShort, FieldKind::Bit, FieldKind::RawChar];
        proof { assert(units@ =~= seq![FieldKind::BitShort, FieldKind::Bit, FieldKind::RawChar]); }
            let _units_and_flags = self.read_fields(streams, &units)?;
        }
        Ok((owned_count, insert_count))
    }

    /// Read the entity handles of a block header that owns its entities
    /// (see [`spec_block_entities`]).
    #[verifier::spinoff_prover]
    fn read_block_entities(&mut self, streams: &mut StreamSet, n_owned: usize)
        -> (r: Result<(u64, u64, Vec<u64>), DxfError>)
        requires
            old(self).inv(),
            streams_of(*old(streams), old(self).data(), old(self).spec_version()),
        ensures
            *final(self) == *old(self),
            streams_of(*final(streams), old(self).data(), old(self).spec_version()),
            final(streams).current_handle == old(streams).current_handle,
            match spec_block_entities(model_of(*old(streams)), old(self).data().len(), old(self).spec_version(),
                old(streams).current_handle, n_owned as nat) {
                Err(e) => r matches Err(e2) && e2 == e,
                Ok(((first, last, owned), m)) => r matches Ok((a, b, hs)) && a == first && b == last
                    && hs@ == owned && model_of(*final(streams)) == m,
            },
    {
        let reference = streams.current_handle;
        if self.version().at_least(DxfVersion::AC1018) {
            let owned = read_handle_list(&mut streams.handles_reader, reference, n_owned)?;
            Ok((0, 0, owned))
        } else {
            let two = vec![FieldKind::Handle, FieldKind::Handle];
        proof { assert(two@ =~= seq![FieldKind::Handle, FieldKind::Handle]); }
            proof { lemma_fields_len(model_of(*streams), self.data().len(), self.spec_version(), reference, two@); }
            let ls = self.read_fields(streams, &two)?;
            Ok((field_handle_of(&ls[0]), field_handle_of(&ls[1]), Vec::new()))
        }
    }

    /// Read the layout handle of a block header after its inserts (see
    /// [`spec_block_layout`]).
    #[verifier::spinoff_prover]
    fn read_block_layout(&mut self, streams: &mut StreamSet, n_ins: usize) -> (r: Result<u64, DxfError>)
        requires
            old(self).inv(),
            streams_of(*old(streams), old(self).data(), old(self).spec_version()),
        ensures
            *final(self) == *old(self),
            streams_of(*final(streams), old(self).data(), old(self).spec_version()),
            final(streams).current_handle == old(streams).current_handle,
            match spec_block_layout(model_of(*old(streams)), old(self).data().len(), old(self).spec_version(),
                old(streams).current_handle, n_ins as nat) {
                Err(e) => r matches Err(e2) && e2 == e,
                Ok((h, m)) => r == Ok::<u64, DxfError>(h) && model_of(*final(streams)) == m,
            },
    {
        let ghost len = self.data().len();
        let ghost m0 = model_of(*streams);
        let reference = streams.current_handle;
        let _inserts = read_handle_list(&mut streams.handles_reader, reference, n_ins)?;
        let ghost m1 = model_of(*streams);
        proof {
            assert(spec_handle_list(m0.handles, m0.handles_pos, len, reference, n_ins as nat) matches Ok((_, ch, hp))
                && m1 == (StreamsModel { handles: ch, handles_pos: hp, ..m0 }));
        }
        let one = vec![FieldKind::Handle];
        proof { assert(one@ =~= seq![FieldKind::Handle]); }
        proof { lemma_fields_len(m1, len, self.spec_version(), reference, one@); }
        let ls = self.read_fields(streams, &one)?;
        Ok(field_handle_of(&ls[0]))
    }

    /// Read the handles of a block header (see [`spec_block_handles`]).
    #[verifier::spinoff_prover]
    fn read_block_handles(&mut self, streams: &mut StreamSet, owns: bool, n_owned: usize, n_ins: usize)
        -> (r: Result<CadBlockRecordTemplateData, DxfError>)
        requires
            old(self).inv(),
            streams_of(*old(streams), old(self).data(), old(self).spec_version()),
        ensures
            *final(self) == *old(self),
            streams_of(*final(streams), old(self).data(), old(self).spec_version()),
            final(streams).current_handle == old(streams).current_handle,
            match spec_block_handles(model_of(*old(streams)), old(self).data().len(), old(self).spec_version(),
                old(streams).current_handle, owns, n_owned as nat, n_ins as nat) {
                Err(e) => r matches Err(e2) && e2 == e,
                Ok((bh, m)) => r matches Ok(d) && block_data_holds(d, bh) && model_of(*final(streams)) == m,
            },
    {
        let ghost len = self.data().len();
        let ghost v = self.spec_version();
        let reference = streams.current_handle;
        let two = vec![FieldKind::Handle, FieldKind::Handle];
        proof { assert(two@ =~= seq![FieldKind::Handle, FieldKind::Handle]); }
        proof { lemma_fields_len(model_of(*streams), len, v, reference, two@); }
        let fs = self.read_fields(streams, &two)?;
        let block_entity_handle = field_handle_of(&fs[1]);
        let (first_entity_handle, last_entity_handle, owned_object_handles) = if owns {
            self.read_block_entities(streams, n_owned)?
        } else {
            (0, 0, Vec::new())
        };
        let one = vec![FieldKind::Handle];
        proof { assert(one@ =~= seq![FieldKind::Handle]); }
        proof { lemma_fields_len(model_of(*streams), len, v, reference, one@); }
        let es = self.read_fields(streams, &one)?;
        let end_block_handle = field_handle_of(&es[0]);
        let layout_handle: u64 = if self.version().at_least(DxfVersion::AC1015) {
            self.read_block_layout(streams, n_ins)?
        } else {
            0
        };
        Ok(CadBlockRecordTemplateData {
            first_entity_handle,
            last_entity_handle,
            owned_object_handles,
            insert_count: HashMap::new(),
            layout_handle,
            block_entity_handle,
            end_block_handle,
        })
    }

    /// Read a block header (see [`spec_block_header`]); its insert counts
    /// are left empty.
    #[verifier::spinoff_prover]
    pub fn read_block_header<E>(&mut self, streams: &mut StreamSet) -> (r: Result<CadTemplate<XDataValue, E>, DxfError>)
        requires
            old(self).inv(),
            streams_of(*old(streams), old(self).data(), old(self).spec_version()),
        ensures
            *final(self) == *old(self),
            streams_of(*final(streams), old(self).data(), old(self).spec_version()),
            final(streams).current_handle == old(streams).current_handle,
            match spec_block_header(model_of(*old(streams)), old(self).data(), old(self).spec_version(),
                old(self).initial_pos(), old(streams).current_handle) {
                Err(e) => r matches Err(e2) && e2 == e,
                Ok(((cm, bh), m)) => r matches Ok(CadTemplate::BlockHeader { common, block_data })
                    && common_model(common) == cm && block_data_holds(block_data, bh) && model_of(*final(streams)) == m,
            },
    {
        let mut head = vec![FieldKind::Text, FieldKind::XrefBit, FieldKind::Bit, FieldKind::Bit, FieldKind::Bit,
            FieldKind::Bit];
        if self.version().at_least(DxfVersion::AC1015) {
            head.push(FieldKind::Bit);
        }
        proof {
            assert(head@ =~= block_head_layout(self.spec_version()));
            if let Ok((_, m1)) = spec_common_non_entity(model_of(*streams), self.data(), self.spec_version(),
                self.initial_pos()) {
                lemma_fields_len(m1, self.data().len(), self.spec_version(), streams.current_handle, head@);
            }
        }
        let (common, fields) = self.read_record(streams, &head)?;
        let owns = !field_bool_of(&fields[4]) && !field_bool_of(&fields[5]);
        let (n_owned, n_ins) = self.read_block_middle(streams, owns)?;
        let block_data = self.read_block_handles(streams, owns, n_owned, n_ins)?;
        Ok(CadTemplate::BlockHeader { common, block_data })
    }

    /// The fields of a layout object (see [`layout_object_layout`]).
    fn layout_object_fields(&self) -> (r: Vec<FieldKind>)
        ensures
            r@ == layout_object_layout(self.spec_version()),
            r@.len() == plot_settings_layout(self.spec_version()).len() + layout_body(self.spec_version()).len() + 4,
    {
        let mut layout: Vec<FieldKind> = Vec::new();
        self.push_plot_settings_fields(&mut layout);
        let mut body = vec![FieldKind::Text, FieldKind::BitLong, FieldKind::BitShort,
            FieldKind::BitDouble, FieldKind::BitDouble, FieldKind::BitDouble,
            FieldKind::RawDouble, FieldKind::RawDouble, FieldKind::RawDouble, FieldKind::RawDouble,
            FieldKind::BitDouble, FieldKind::BitDouble, FieldKind::BitDouble,
            FieldKind::BitDouble, FieldKind::BitDouble, FieldKind::BitDouble,
            FieldKind::BitDouble, FieldKind::BitDouble, FieldKind::BitDouble,
            FieldKind::BitDouble, FieldKind::BitShort,
            FieldKind::BitDouble, FieldKind::BitDouble, FieldKind::BitDouble,
            FieldKind::BitDouble, FieldKind::BitDouble, FieldKind::BitDouble];
        if self.version().at_least(DxfVersion::AC1018) {
            body.push(FieldKind::BitLong);
        }
        proof { assert(body@ =~= layout_body(self.spec_version())); }
        layout.append(&mut body);
        let mut handles = vec![FieldKind::Handle, FieldKind::Handle, FieldKind::Handle, FieldKind::Handle];
        layout.append(&mut handles);
        proof {
            assert(layout@ =~= layout_object_layout(self.spec_version()));
        }
        layout
    }
}

/// The handle a field value holds (see [`field_handle`]).
pub(crate) fn field_handle_of(f: &FieldValue) -> (r: u64)
    ensures
        r == field_handle(f@),
{
    match f {
        FieldValue::Handle(h) => *h,
        _ => 0,
    }
}

/// The flag a field value holds (see [`field_bool`]).
pub(crate) fn field_bool_of(f: &FieldValue) -> (r: bool)
    ensures
        r == field_bool(f@),
{
    match f {
        FieldValue::Bool(b) => *b,
        _ => false,
    }
}

/// Read the insert count of a block header from `reader` (see
/// [`spec_insert_count`]).
fn read_insert_count(reader: &mut DwgStreamReaderBase) -> (r: Result<usize, DxfError>)
    requires
        old(reader).data().len() <= usize::MAX,
    ensures
        old(reader).same_source(final(reader)),
        match spec_insert_count(old(reader).cursor(), old(reader).spec_position(), old(reader).data().len()) {
            Err(e) => r == Err::<usize, DxfError>(e),
            Ok((n, c, p)) => r matches Ok(k) && k == n && final(reader).cursor() == c
                && final(reader).spec_position() == p,
        },
{
    let ghost len = reader.data().len();
    let ghost total = spec_insert_count(reader.cursor(), reader.spec_position(), len);
    let mut count: usize = 0;
    proof { reader.lemma_cursor_bounds(); }
    loop
        invariant_except_break
            len == old(reader).data().len(),
            len <= usize::MAX,
            old(reader).same_source(reader),
            0 <= raw_remaining(reader.cursor()),
            count + raw_remaining(reader.cursor()) <= len,
            total == spec_insert_count(old(reader).cursor(), old(reader).spec_position(), len),
            total == count_with_prefix(count as nat, spec_insert_count(reader.cursor(), reader.spec_position(), len)),
        ensures
            old(reader).same_source(reader),
            total == spec_insert_count(old(reader).cursor(), old(reader).spec_position(), len),
            total == Ok::<(nat, BitCursor, nat), DxfError>((count as nat, reader.cursor(), reader.spec_position())),
        decreases raw_remaining(reader.cursor()),
    {
        proof { lemma_read_byte_progress(reader.cursor()); }
        let b = reader.read_raw_char()?;
        proof { reader.lemma_cursor_bounds(); }
        if b == 0 {
            break;
        }
        count = count + 1;
    }
    Ok(count)
}

/// The count a field value holds (see [`field_count`]).
pub(crate) fn field_count_of(f: &FieldValue) -> (r: usize)
    ensures
        r == field_count(f@),
{
    match f {
        FieldValue::Long(n) => *n as usize,
        FieldValue::Char(b) => *b as usize,
        _ => 0,
    }
}


/// What [`DwgObjectReader::read_block_header`] gives and leaves: its result `r` and
/// its streams, from `st0` to `st1`, for the reader `before`.
pub open spec fn read_block_header_outcome<E>(before: DwgObjectReader, st0: StreamSet, st1: StreamSet,
    r: Result<CadTemplate<XDataValue, E>, DxfError>) -> bool {
    &&& streams_of(st1, before.data(), before.spec_version())
    &&& st1.current_handle == st0.current_handle
    &&& match spec_block_header(model_of(st0), before.data(), before.spec_version(),
            before.initial_pos(), st0.current_handle) {
            Err(e) => r matches Err(e2) && e2 == e,
            Ok(((cm, bh), m)) => r matches Ok(CadTemplate::BlockHeader { common, block_data })
                && common_model(common) == cm && block_data_holds(block_data, bh) && model_of(st1) == m,
        }
}

/// What [`DwgObjectReader::read_layout`] gives and leaves: its result `r` and
/// its streams, from `st0` to `st1`, for the reader `before`.
pub open spec fn read_layout_outcome<E>(before: DwgObjectReader, st0: StreamSet, st1: StreamSet,
    r: Result<CadTemplate<XDataValue, E>, DxfError>) -> bool {
    &&& streams_of(st1, before.data(), before.spec_version())
    &&& st1.current_handle == st0.current_handle
    &&& match spec_layout_object(model_of(st0), before.data(), before.spec_version(),
            before.initial_pos(), st0.current_handle) {
            Err(e) => r matches Err(e2) && e2 == e,
            Ok(((cm, fs), m)) => {
                let k = (plot_settings_layout(before.spec_version()).len() + layout_body(before.spec_version()).len()) as int;
                &&& r matches Ok(CadTemplate::LayoutObj { common, layout_data })
                    && common_model(common) == cm
                    && layout_data.block_record_handle == field_handle(fs[k])
                    && layout_data.viewport_handle == field_handle(fs[k + 1])
                    && layout_data.base_ucs_handle == field_handle(fs[k + 2])
                    && layout_data.named_ucs_handle == field_handle(fs[k + 3])
                    && layout_data.plot_view_handle == 0
                    && layout_data.visual_style_handle == 0
                    && layout_data.associated_tab_handle == 0
                &&& model_of(st1) == m
            },
        }
}

/// What [`DwgObjectReader::read_mline_style`] gives and leaves: its result `r` and
/// its streams, from `st0` to `st1`, for the reader `before`.
pub open spec fn read_mline_style_outcome<E>(before: DwgObjectReader, st0: StreamSet, st1: StreamSet,
    r: Result<CadTemplate<XDataValue, E>, DxfError>) -> bool {
    &&& streams_of(st1, before.data(), before.spec_version())
    &&& st1.current_handle == st0.current_handle
    &&& match spec_record(model_of(st0), before.data(), before.spec_version(),
            before.initial_pos(), st0.current_handle, mline_style_head()) {
            Err(e) => r matches Err(e2) && e2 == e,
            Ok(((cm, fs), m1)) => match spec_mline_elements(m1, before.data().len(), before.spec_version(),
                st0.current_handle, field_count(fs[6])) {
                Err(e) => r matches Err(e2) && e2 == e,
                Ok((hs, m2)) => r matches Ok(CadTemplate::MLineStyleObj { common, mls_data })
                    && common_model(common) == cm && mls_data.element_linetype_handles@ == hs
                    && model_of(st1) == m2,
            },
        }
}

/// What [`DwgObjectReader::read_viewport_entity_header`] gives and leaves: its result `r` and
/// its streams, from `st0` to `st1`, for the reader `before`.
pub open spec fn read_viewport_entity_header_outcome<E>(before: DwgObjectReader, st0: StreamSet, st1: StreamSet,
    r: Result<CadTemplate<XDataValue, E>, DxfError>) -> bool {
    &&& streams_of(st1, before.data(), before.spec_version())
    &&& st1.current_handle == st0.current_handle
    &&& match spec_record(model_of(st0), before.data(), before.spec_version(),
            before.initial_pos(), st0.current_handle, viewport_entity_header_layout(before.spec_version())) {
            Err(e) => r matches Err(e2) && e2 == e,
            Ok(((cm, _), m)) => r matches Ok(CadTemplate::GenericTableEntry { common })
                && common_model(common) == cm && model_of(st1) == m,
        }
}

/// What [`DwgObjectReader::read_xrecord`] gives and leaves: its result `r` and
/// its streams, from `st0` to `st1`, for the reader `before`.
pub open spec fn read_xrecord_outcome<E>(before: DwgObjectReader, st0: StreamSet, st1: StreamSet,
    r: Result<CadTemplate<XDataValue, E>, DxfError>) -> bool {
    &&& streams_of(st1, before.data(), before.spec_version())
    &&& st1.current_handle == st0.current_handle
    &&& match spec_xrecord(model_of(st0), before.data(), before.spec_version(), before.initial_pos()) {
            Err(e) => r matches Err(e2) && e2 == e,
            Ok((cm, m)) => r matches Ok(CadTemplate::XRecordObj { common })
                && common_model(common) == cm && model_of(st1) == m,
        }
}


/// What [`DwgObjectReader::read_acdb_placeholder`] gives and leaves: its result `r` and
/// its streams, from `st0` to `st1`, for the reader `before`.
pub open spec fn read_acdb_placeholder_outcome<E>(before: DwgObjectReader, st0: StreamSet, st1: StreamSet,
    r: Result<CadTemplate<XDataValue, E>, DxfError>) -> bool {
    &&& streams_of(st1, before.data(), before.spec_version())
    &&& st1.current_handle == st0.current_handle
    &&& generic_read(r, spec_record(model_of(st0), before.data(), before.spec_version(),
            before.initial_pos(), st0.current_handle, Seq::<FieldKind>::empty()), st1)
}

/// What [`DwgObjectReader::read_db_color`] gives and leaves: its result `r` and
/// its streams, from `st0` to `st1`, for the reader `before`.
pub open spec fn read_db_color_outcome<E>(before: DwgObjectReader, st0: StreamSet, st1: StreamSet,
    r: Result<CadTemplate<XDataValue, E>, DxfError>) -> bool {
    &&& streams_of(st1, before.data(), before.spec_version())
    &&& st1.current_handle == st0.current_handle
    &&& match spec_record(model_of(st0), before.data(), before.spec_version(),
            before.initial_pos(), st0.current_handle, db_color_head(before.spec_version())) {
            Err(e) => r matches Err(e2) && e2 == e,
            Ok(((cm, fs), m1)) => if version_at_least(before.spec_version(), DxfVersion::AC1018) {
                match spec_fields(m1, before.data().len(), before.spec_version(), st0.current_handle,
                    color_names_layout(field_count(fs[2]))) {
                    Err(e) => r matches Err(e2) && e2 == e,
                    Ok((_, m2)) => r matches Ok(CadTemplate::GenericObject { common })
                        && common_model(common) == cm && model_of(st1) == m2,
                }
            } else {
                r matches Ok(CadTemplate::GenericObject { common }) && common_model(common) == cm
                    && model_of(st1) == m1
            },
        }
}

/// What [`DwgObjectReader::read_image_definition`] gives and leaves: its result `r` and
/// its streams, from `st0` to `st1`, for the reader `before`.
pub open spec fn read_image_definition_outcome<E>(before: DwgObjectReader, st0: StreamSet, st1: StreamSet,
    r: Result<CadTemplate<XDataValue, E>, DxfError>) -> bool {
    &&& streams_of(st1, before.data(), before.spec_version())
    &&& st1.current_handle == st0.current_handle
    &&& match spec_record(model_of(st0), before.data(), before.spec_version(),
            before.initial_pos(), st0.current_handle, image_definition_layout()) {
            Err(e) => r matches Err(e2) && e2 == e,
            Ok(((cm, _), m)) => r matches Ok(CadTemplate::ImageDefObj { common, .. })
                && common_model(common) == cm && model_of(st1) == m,
        }
}

/// What [`DwgObjectReader::read_image_definition_reactor`] gives and leaves: its result `r` and
/// its streams, from `st0` to `st1`, for the reader `before`.
pub open spec fn read_image_definition_reactor_outcome<E>(before: DwgObjectReader, st0: StreamSet, st1: StreamSet,
    r: Result<CadTemplate<XDataValue, E>, DxfError>) -> bool {
    &&& streams_of(st1, before.data(), before.spec_version())
    &&& st1.current_handle == st0.current_handle
    &&& match spec_record(model_of(st0), before.data(), before.spec_version(),
            before.initial_pos(), st0.current_handle, seq![FieldKind::BitLong]) {
            Err(e) => r matches Err(e2) && e2 == e,
            Ok(((cm, _), m)) => r matches Ok(CadTemplate::ImageDefReactorObj { common, reactor_data })
                && common_model(common) == cm && reactor_data.image_handle == 0 && model_of(st1) == m,
        }
}

/// What [`DwgObjectReader::read_material`] gives and leaves: its result `r` and
/// its streams, from `st0` to `st1`, for the reader `before`.
pub open spec fn read_material_outcome<E>(before: DwgObjectReader, st0: StreamSet, st1: StreamSet,
    r: Result<CadTemplate<XDataValue, E>, DxfError>) -> bool {
    &&& streams_of(st1, before.data(), before.spec_version())
    &&& st1.current_handle == st0.current_handle
    &&& generic_read(r, spec_record(model_of(st0), before.data(), before.spec_version(),
            before.initial_pos(), st0.current_handle, seq![FieldKind::Text, FieldKind::Text]), st1)
}

/// What [`DwgObjectReader::read_mleader_style`] gives and leaves: its result `r` and
/// its streams, from `st0` to `st1`, for the reader `before`.
pub open spec fn read_mleader_style_outcome<E>(before: DwgObjectReader, st0: StreamSet, st1: StreamSet,
    r: Result<CadTemplate<XDataValue, E>, DxfError>) -> bool {
    &&& streams_of(st1, before.data(), before.spec_version())
    &&& st1.current_handle == st0.current_handle
    &&& match spec_record(model_of(st0), before.data(), before.spec_version(),
            before.initial_pos(), st0.current_handle, mleader_style_layout(before.spec_version())) {
            Err(e) => r matches Err(e2) && e2 == e,
            Ok(((cm, fs), m)) => {
                let a = mleader_offset(before.spec_version());
                &&& r matches Ok(CadTemplate::MLeaderStyleObj { common, mls_style_data })
                    && common_model(common) == cm
                    && mls_style_data.leader_line_type_handle == field_handle(fs[a + 8])
                    && mls_style_data.arrowhead_handle == field_handle(fs[a + 15])
                    && mls_style_data.mtext_style_handle == field_handle(fs[a + 18])
                    && mls_style_data.block_content_handle == field_handle(fs[a + 28])
                &&& model_of(st1) == m
            },
        }
}

/// What [`DwgObjectReader::read_pdf_definition`] gives and leaves: its result `r` and
/// its streams, from `st0` to `st1`, for the reader `before`.
pub open spec fn read_pdf_definition_outcome<E>(before: DwgObjectReader, st0: StreamSet, st1: StreamSet,
    r: Result<CadTemplate<XDataValue, E>, DxfError>) -> bool {
    &&& streams_of(st1, before.data(), before.spec_version())
    &&& st1.current_handle == st0.current_handle
    &&& generic_read(r, spec_record(model_of(st0), before.data(), before.spec_version(),
            before.initial_pos(), st0.current_handle, seq![FieldKind::Text, FieldKind::Text]), st1)
}

/// What [`DwgObjectReader::read_plot_settings`] gives and leaves: its result `r` and
/// its streams, from `st0` to `st1`, for the reader `before`.
pub open spec fn read_plot_settings_outcome<E>(before: DwgObjectReader, st0: StreamSet, st1: StreamSet,
    r: Result<CadTemplate<XDataValue, E>, DxfError>) -> bool {
    &&& streams_of(st1, before.data(), before.spec_version())
    &&& st1.current_handle == st0.current_handle
    &&& match spec_record(model_of(st0), before.data(), before.spec_version(),
            before.initial_pos(), st0.current_handle, plot_settings_layout(before.spec_version())) {
            Err(e) => r matches Err(e2) && e2 == e,
            Ok(((cm, _), m)) => r matches Ok(CadTemplate::PlotSettingsObj { common })
                && common_model(common) == cm && model_of(st1) == m,
        }
}

/// What [`DwgObjectReader::read_raster_variables`] gives and leaves: its result `r` and
/// its streams, from `st0` to `st1`, for the reader `before`.
pub open spec fn read_raster_variables_outcome<E>(before: DwgObjectReader, st0: StreamSet, st1: StreamSet,
    r: Result<CadTemplate<XDataValue, E>, DxfError>) -> bool {
    &&& streams_of(st1, before.data(), before.spec_version())
    &&& st1.current_handle == st0.current_handle
    &&& generic_read(r, spec_record(model_of(st0), before.data(), before.spec_version(),
            before.initial_pos(), st0.current_handle, raster_variables_layout()), st1)
}

/// What [`DwgObjectReader::read_scale`] gives and leaves: its result `r` and
/// its streams, from `st0` to `st1`, for the reader `before`.
pub open spec fn read_scale_outcome<E>(before: DwgObjectReader, st0: StreamSet, st1: StreamSet,
    r: Result<CadTemplate<XDataValue, E>, DxfError>) -> bool {
    &&& streams_of(st1, before.data(), before.spec_version())
    &&& st1.current_handle == st0.current_handle
    &&& match spec_record(model_of(st0), before.data(), before.spec_version(),
            before.initial_pos(), st0.current_handle, scale_layout()) {
            Err(e) => r matches Err(e2) && e2 == e,
            Ok(((cm, _), m)) => r matches Ok(CadTemplate::ScaleObj { common })
                && common_model(common) == cm && model_of(st1) == m,
        }
}

/// What [`DwgObjectReader::read_sort_entities_table`] gives and leaves: its result `r` and
/// its streams, from `st0` to `st1`, for the reader `before`.
pub open spec fn read_sort_entities_table_outcome<E>(before: DwgObjectReader, st0: StreamSet, st1: StreamSet,
    r: Result<CadTemplate<XDataValue, E>, DxfError>) -> bool {
    &&& streams_of(st1, before.data(), before.spec_version())
    &&& st1.current_handle == st0.current_handle
    &&& match spec_record(model_of(st0), before.data(), before.spec_version(),
            before.initial_pos(), st0.current_handle, seq![FieldKind::Handle, FieldKind::BitLong]) {
            Err(e) => r matches Err(e2) && e2 == e,
            Ok(((cm, fs), m1)) => match spec_sort_pairs(m1, before.data().len(), before.spec_version(),
                st0.current_handle, field_count(fs[1])) {
                Err(e) => r matches Err(e2) && e2 == e,
                Ok((ps, m2)) => r matches Ok(CadTemplate::SortEntsTableObj { common, sort_data })
                    && common_model(common) == cm && sort_data.block_owner_handle == field_handle(fs[0])
                    && sort_data.sort_handle_pairs@ == ps && model_of(st1) == m2,
            },
        }
}

/// What [`DwgObjectReader::read_table_style`] gives and leaves: its result `r` and
/// its streams, from `st0` to `st1`, for the reader `before`.
pub open spec fn read_table_style_outcome<E>(before: DwgObjectReader, st0: StreamSet, st1: StreamSet,
    r: Result<CadTemplate<XDataValue, E>, DxfError>) -> bool {
    &&& streams_of(st1, before.data(), before.spec_version())
    &&& st1.current_handle == st0.current_handle
    &&& generic_read(r, spec_record(model_of(st0), before.data(), before.spec_version(),
            before.initial_pos(), st0.current_handle, table_style_layout(before.spec_version())),
            st1)
}

/// What [`DwgObjectReader::read_visual_style`] gives and leaves: its result `r` and
/// its streams, from `st0` to `st1`, for the reader `before`.
pub open spec fn read_visual_style_outcome<E>(before: DwgObjectReader, st0: StreamSet, st1: StreamSet,
    r: Result<CadTemplate<XDataValue, E>, DxfError>) -> bool {
    &&& streams_of(st1, before.data(), before.spec_version())
    &&& st1.current_handle == st0.current_handle
    &&& generic_read(r, spec_record(model_of(st0), before.data(), before.spec_version(),
            before.initial_pos(), st0.current_handle, seq![FieldKind::Text]), st1)
}

/// What [`DwgObjectReader::read_wipeout_variables`] gives and leaves: its result `r` and
/// its streams, from `st0` to `st1`, for the reader `before`.
pub open spec fn read_wipeout_variables_outcome<E>(before: DwgObjectReader, st0: StreamSet, st1: StreamSet,
    r: Result<CadTemplate<XDataValue, E>, DxfError>) -> bool {
    &&& streams_of(st1, before.data(), before.spec_version())
    &&& st1.current_handle == st0.current_handle
    &&& generic_read(r, spec_record(model_of(st0), before.data(), before.spec_version(),
            before.initial_pos(), st0.current_handle, seq![FieldKind::BitShort]), st1)
}

} // verus!
