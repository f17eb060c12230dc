//! Readers of the table entries: layers, text styles, linetypes, views,
//! UCSs, viewports, registered applications and dimension styles.  Each
//! entry is its common data followed by a layout of fields (see
//! [`FieldKind`]); the templates keep the handles they need.

use vstd::prelude::*;
use crate::error::DxfError;
use crate::object_common::XDataValue;
use crate::object_common::{spec_handle_list, read_handle_list};
use crate::object_reader::{DwgObjectReader, StreamsModel, CommonModel, FieldKind, FieldValue, FieldModel,
    spec_common_non_entity, spec_fields, streams_of, model_of, common_model, field_handle, field_count,
    lemma_fields_len};
use crate::object_records::{spec_record, version_at_least, field_bool, field_handle_of, field_count_of, field_bool_of};
use crate::stream_set::StreamSet;
use crate::templates::{CadTemplate, CadLayerTemplateData, CadLineTypeTemplateData, CadViewTemplateData,
    CadVPortTemplateData, CadDimStyleTemplateData};
use crate::version::DxfVersion;

verus! {

/// `s` when `b` holds, else nothing.
pub open spec fn only_if(b: bool, s: Seq<FieldKind>) -> Seq<FieldKind> {
    if b { s } else { Seq::empty() }
}

/// The fields of a registered application: the name, the xref-dependent
/// flag, an unknown byte and the control object handle.
pub open spec fn appid_layout() -> Seq<FieldKind> {
    seq![FieldKind::Text, FieldKind::XrefBit, FieldKind::RawChar, FieldKind::Handle]
}

/// The fields of a text style: the name, the xref-dependent flag, the
/// vertical and shape-file flags, the fixed height, the width factor and
/// the oblique angle, the generation flags (a byte), the last height, the
/// font and big font file names and the control object handle.
pub open spec fn text_style_layout() -> Seq<FieldKind> {
    seq![FieldKind::Text, FieldKind::XrefBit, FieldKind::Bit, FieldKind::Bit, FieldKind::BitDouble,
        FieldKind::BitDouble, FieldKind::BitDouble, FieldKind::RawChar, FieldKind::BitDouble, FieldKind::Text,
        FieldKind::Text, FieldKind::Handle]
}

/// The fields of a UCS: the name, the xref-dependent flag, the origin and
/// the X and Y directions (nine BitDoubles); from R2000 on the elevation
/// and the orthographic type; the control object handle; from R2000 on
/// the base and named UCS handles.
pub open spec fn ucs_layout(v: DxfVersion) -> Seq<FieldKind> {
    let r2000 = version_at_least(v, DxfVersion::AC1015);
    seq![FieldKind::Text, FieldKind::XrefBit,
        FieldKind::BitDouble, FieldKind::BitDouble, FieldKind::BitDouble,
        FieldKind::BitDouble, FieldKind::BitDouble, FieldKind::BitDouble,
        FieldKind::BitDouble, FieldKind::BitDouble, FieldKind::BitDouble]
        + only_if(r2000, seq![FieldKind::BitDouble, FieldKind::BitShort])
        + seq![FieldKind::Handle]
        + only_if(r2000, seq![FieldKind::Handle, FieldKind::Handle])
}

/// The fields of a layer: the name, the xref-dependent flag; before R2000
/// the frozen, on, frozen-in-new-viewports and locked flags, from R2000 on
/// the flags as one BitShort; the color, the xref block handle; from
/// R2000 on the plot style handle, from R2007 on the material handle; the
/// linetype handle.
pub open spec fn layer_layout(v: DxfVersion) -> Seq<FieldKind> {
    let r2000 = version_at_least(v, DxfVersion::AC1015);
    let r2007 = version_at_least(v, DxfVersion::AC1021);
    seq![FieldKind::Text, FieldKind::XrefBit]
        + only_if(!r2000, seq![FieldKind::Bit, FieldKind::Bit, FieldKind::Bit, FieldKind::Bit])
        + only_if(r2000, seq![FieldKind::BitShort])
        + seq![FieldKind::CmColor, FieldKind::Handle]
        + only_if(r2000, seq![FieldKind::Handle])
        + only_if(r2007, seq![FieldKind::Handle])
        + seq![FieldKind::Handle]
}

/// The handles a layer keeps, from its fields `fs` (see
/// [`layer_layout`]): the linetype (the last field), the material (the
/// one before, from R2007 on) and the plot style (before those, from
/// R2000 on); 0 for a handle the version does not have.
pub open spec fn layer_handles(v: DxfVersion, fs: Seq<FieldModel>) -> CadLayerTemplateData {
    let r2000 = version_at_least(v, DxfVersion::AC1015);
    let r2007 = version_at_least(v, DxfVersion::AC1021);
    let n = fs.len() as int;
    CadLayerTemplateData {
        linetype_handle: field_handle(fs[n - 1]),
        material_handle: if r2007 { field_handle(fs[n - 2]) } else { 0 },
        plotstyle_handle: if r2000 { field_handle(fs[n - 2 - if r2007 { 1int } else { 0int }]) } else { 0 },
    }
}

/// `s` repeated `n` times.
pub open spec fn repeat_layout(s: Seq<FieldKind>, n: nat) -> Seq<FieldKind>
    decreases n,
{
    if n == 0 { Seq::empty() } else { repeat_layout(s, (n - 1) as nat) + s }
}

/// The double a field holds, as its bits (0 for a field of another kind).
pub open spec fn field_double(f: FieldModel) -> u64 {
    match f {
        FieldModel::Double(x) => x,
        _ => 0,
    }
}

/// The text a field holds (empty for a field of another kind).
pub open spec fn field_text(f: FieldModel) -> Seq<char> {
    match f {
        FieldModel::Text(t) => t,
        _ => Seq::empty(),
    }
}

/// The first fields of a linetype: the name, the xref-dependent flag, the
/// description, the pattern length, the alignment and the dash count (a
/// byte).
pub open spec fn ltype_head() -> Seq<FieldKind> {
    seq![FieldKind::Text, FieldKind::XrefBit, FieldKind::Text, FieldKind::BitDouble, FieldKind::RawChar,
        FieldKind::RawChar]
}

/// The fields of one dash of a linetype: its length, the shape code, the
/// X and Y offsets (raw doubles), the scale, the rotation and the shape
/// flag.
pub open spec fn dash_layout() -> Seq<FieldKind> {
    seq![FieldKind::BitDouble, FieldKind::BitShort, FieldKind::RawDouble, FieldKind::RawDouble,
        FieldKind::BitDouble, FieldKind::BitDouble, FieldKind::BitShort]
}

/// The fields of a linetype after its head, for `n` dashes: the dashes;
/// from R2004 on one text per dash; the control object handle.
pub open spec fn ltype_body(v: DxfVersion, n: nat) -> Seq<FieldKind> {
    repeat_layout(dash_layout(), n)
        + only_if(version_at_least(v, DxfVersion::AC1018), repeat_layout(seq![FieldKind::Text], n))
        + seq![FieldKind::Handle]
}

/// A linetype read from the streams `m` of `data` (version `v`, object
/// data starting at bit `init`, relative handles resolved against
/// `reference`): the record of [`ltype_head`], the body of
/// [`ltype_body`] for its dash count, then one segment handle per dash.
/// Gives the common data, the control object handle, the pattern length
/// (its bits) and the segment handles.
pub open spec fn spec_ltype(m: StreamsModel, data: Seq<u8>, v: DxfVersion, init: int, reference: u64)
    -> Result<((CommonModel, u64, u64, Seq<u64>), StreamsModel), DxfError>
{
    let len = data.len();
    match spec_record(m, data, v, init, reference, ltype_head()) {
        Err(e) => Err(e),
        Ok(((cm, fs), m1)) => {
            let n = field_count(fs[5]);
            let body = ltype_body(v, n);
            match spec_fields(m1, len, v, reference, body) {
                Err(e) => Err(e),
                Ok((bs, m2)) => match spec_handle_list(m2.handles, m2.handles_pos, len, reference, n) {
                    Err(e) => Err(e),
                    Ok((hs, ch, hp)) => Ok(((cm, field_handle(bs[body.len() - 1]), field_double(fs[3]), hs),
                        StreamsModel { handles: ch, handles_pos: hp, ..m2 })),
                },
            }
        },
    }
}

/// The fields of a view up to its control handle: the name, the
/// xref-dependent flag, the height and width, the center (two raw
/// doubles), the target and direction (six BitDoubles), the twist angle,
/// the lens length, the front and back clips, the UCS-follow, front-on
/// and back-on flags; from R2000 on the render mode (a byte), whether a
/// UCS is associated, the UCS origin and axes (nine BitDoubles), the
/// elevation and the orthographic type; the control object handle; from
/// R2007 on the camera-plottable flag and the background, visual style
/// and sun handles.
pub open spec fn view_head(v: DxfVersion) -> Seq<FieldKind> {
    let r2000 = version_at_least(v, DxfVersion::AC1015);
    let r2007 = version_at_least(v, DxfVersion::AC1021);
    seq![FieldKind::Text, FieldKind::XrefBit, FieldKind::BitDouble, FieldKind::BitDouble,
        FieldKind::RawDouble, FieldKind::RawDouble,
        FieldKind::BitDouble, FieldKind::BitDouble, FieldKind::BitDouble,
        FieldKind::BitDouble, FieldKind::BitDouble, FieldKind::BitDouble,
        FieldKind::BitDouble, FieldKind::BitDouble, FieldKind::BitDouble, FieldKind::BitDouble,
        FieldKind::Bit, FieldKind::Bit, FieldKind::Bit]
        + only_if(r2000, seq![FieldKind::RawChar, FieldKind::Bit,
            FieldKind::BitDouble, FieldKind::BitDouble, FieldKind::BitDouble,
            FieldKind::BitDouble, FieldKind::BitDouble, FieldKind::BitDouble,
            FieldKind::BitDouble, FieldKind::BitDouble, FieldKind::BitDouble,
            FieldKind::BitDouble, FieldKind::BitShort])
        + seq![FieldKind::Handle]
        + only_if(r2007, seq![FieldKind::Bit, FieldKind::Handle, FieldKind::Handle, FieldKind::Handle])
}

/// Whether a view whose first fields are `fs` (see [`view_head`]) has an
/// associated UCS: from R2000 on, its flag.
pub open spec fn view_associated(v: DxfVersion, fs: Seq<FieldModel>) -> bool {
    version_at_least(v, DxfVersion::AC1015) && field_bool(fs[20])
}

/// The last fields of a view: for an associated UCS the UCS and named UCS
/// handles; from R2007 on the live section handle.
pub open spec fn view_tail(v: DxfVersion, associated: bool) -> Seq<FieldKind> {
    only_if(associated, seq![FieldKind::Handle, FieldKind::Handle])
        + only_if(version_at_least(v, DxfVersion::AC1021), seq![FieldKind::Handle])
}

/// A view read from the streams `m` of `data` (version `v`, object data
/// starting at bit `init`, relative handles resolved against
/// `reference`): the record of [`view_head`], then [`view_tail`].  Gives
/// the common data and the UCS handle (0 without an associated UCS).
pub open spec fn spec_view(m: StreamsModel, data: Seq<u8>, v: DxfVersion, init: int, reference: u64)
    -> Result<((CommonModel, u64), StreamsModel), DxfError>
{
    match spec_record(m, data, v, init, reference, view_head(v)) {
        Err(e) => Err(e),
        Ok(((cm, fs), m1)) => {
            let associated = view_associated(v, fs);
            match spec_fields(m1, data.len(), v, reference, view_tail(v, associated)) {
                Err(e) => Err(e),
                Ok((ts, m2)) => Ok(((cm, if associated { field_handle(ts[0]) } else { 0 }), m2)),
            }
        },
    }
}

/// The fields of a viewport before its handles: the name, the
/// xref-dependent flag, the view height and aspect ratio, the view center
/// (two raw doubles), the target and direction (six BitDoubles), the
/// twist angle, the lens length, the front and back clips, the view mode
/// (BitLong), the render mode (a byte); from R2000 on the default
/// lighting flag and type (a byte), the brightness and contrast and the
/// ambient color (a raw long); the lower-left and upper-right corners
/// (four raw doubles), the UCS-follow flag, the circle sides, the snap
/// and snap style flags, the snap isopair, the snap rotation, the snap
/// base and spacing (four raw doubles), the grid flag and spacing (two
/// raw doubles); from R2000 on the UCS-per-viewport flag, the UCS origin
/// and axes (nine BitDoubles), the elevation and the orthographic type;
/// from R2007 on the grid flags and major line count.
pub open spec fn vport_body(v: DxfVersion) -> Seq<FieldKind> {
    let r2000 = version_at_least(v, DxfVersion::AC1015);
    let r2007 = version_at_least(v, DxfVersion::AC1021);
    seq![FieldKind::Text, FieldKind::XrefBit, FieldKind::BitDouble, FieldKind::BitDouble,
        FieldKind::RawDouble, FieldKind::RawDouble,
        FieldKind::BitDouble, FieldKind::BitDouble, FieldKind::BitDouble,
        FieldKind::BitDouble, FieldKind::BitDouble, FieldKind::BitDouble,
        FieldKind::BitDouble, FieldKind::BitDouble, FieldKind::BitDouble, FieldKind::BitDouble,
        FieldKind::BitLong, FieldKind::RawChar]
        + only_if(r2000, seq![FieldKind::Bit, FieldKind::RawChar, FieldKind::BitDouble, FieldKind::BitDouble,
            FieldKind::RawLong])
        + seq![FieldKind::RawDouble, FieldKind::RawDouble, FieldKind::RawDouble, FieldKind::RawDouble,
            FieldKind::Bit, FieldKind::BitShort, FieldKind::Bit, FieldKind::Bit, FieldKind::BitShort,
            FieldKind::BitDouble, FieldKind::RawDouble, FieldKind::RawDouble, FieldKind::RawDouble,
            FieldKind::RawDouble, FieldKind::Bit, FieldKind::RawDouble, FieldKind::RawDouble]
        + only_if(r2000, seq![FieldKind::Bit,
            FieldKind::BitDouble, FieldKind::BitDouble, FieldKind::BitDouble,
            FieldKind::BitDouble, FieldKind::BitDouble, FieldKind::BitDouble,
            FieldKind::BitDouble, FieldKind::BitDouble, FieldKind::BitDouble,
            FieldKind::BitDouble, FieldKind::BitShort])
        + only_if(r2007, seq![FieldKind::BitShort, FieldKind::BitShort])
}

/// The handles of a viewport: the control object; from R2007 on the
/// background, visual style and sun; from R2000 on the named and base
/// UCSs.
pub open spec fn vport_handle_layout(v: DxfVersion) -> Seq<FieldKind> {
    seq![FieldKind::Handle]
        + only_if(version_at_least(v, DxfVersion::AC1021), seq![FieldKind::Handle, FieldKind::Handle, FieldKind::Handle])
        + only_if(version_at_least(v, DxfVersion::AC1015), seq![FieldKind::Handle, FieldKind::Handle])
}

/// The template data of a viewport whose handle fields are `hs` (see
/// [`vport_handle_layout`]); 0 for a handle the version does not have.
pub open spec fn vport_data_of(v: DxfVersion, hs: Seq<FieldModel>) -> CadVPortTemplateData {
    let r2000 = version_at_least(v, DxfVersion::AC1015);
    let r2007 = version_at_least(v, DxfVersion::AC1021);
    let k: int = if r2007 { 4 } else { 1 };
    CadVPortTemplateData {
        vport_control_handle: field_handle(hs[0]),
        background_handle: if r2007 { field_handle(hs[1]) } else { 0 },
        style_handle: if r2007 { field_handle(hs[2]) } else { 0 },
        sun_handle: if r2007 { field_handle(hs[3]) } else { 0 },
        named_ucs_handle: if r2000 { field_handle(hs[k]) } else { 0 },
        base_ucs_handle: if r2000 { field_handle(hs[k + 1]) } else { 0 },
    }
}

/// The dimension variables of a dimension style before R2000.
pub open spec fn dimstyle_r13_fields() -> Seq<FieldKind> {
    seq![FieldKind::Bit, FieldKind::Bit, FieldKind::Bit, FieldKind::Bit, FieldKind::Bit, FieldKind::Bit,
        FieldKind::Bit, FieldKind::Bit, FieldKind::Bit, FieldKind::Bit, FieldKind::Bit,
        FieldKind::RawChar, FieldKind::RawChar, FieldKind::Bit, FieldKind::Bit,
        FieldKind::RawChar, FieldKind::RawChar, FieldKind::RawChar, FieldKind::Bit,
        FieldKind::RawChar, FieldKind::RawChar, FieldKind::RawChar, FieldKind::RawChar,
        FieldKind::BitShort, FieldKind::BitShort, FieldKind::BitShort, FieldKind::BitShort, FieldKind::BitShort,
        FieldKind::BitShort,
        FieldKind::BitDouble, FieldKind::BitDouble, FieldKind::BitDouble, FieldKind::BitDouble, FieldKind::BitDouble,
        FieldKind::BitDouble, FieldKind::BitDouble, FieldKind::BitDouble, FieldKind::BitDouble, FieldKind::BitDouble,
        FieldKind::BitDouble, FieldKind::BitDouble, FieldKind::BitDouble, FieldKind::BitDouble, FieldKind::BitDouble,
        FieldKind::BitDouble, FieldKind::BitDouble,
        FieldKind::Text, FieldKind::Text, FieldKind::Text, FieldKind::Text, FieldKind::Text,
        FieldKind::BitShort, FieldKind::BitShort, FieldKind::BitShort]
}

/// The dimension variables of a dimension style from R2000 on.
pub open spec fn dimstyle_r2000_fields(v: DxfVersion) -> Seq<FieldKind> {
    let r2007 = version_at_least(v, DxfVersion::AC1021);
    seq![FieldKind::Text, FieldKind::Text,
        FieldKind::BitDouble, FieldKind::BitDouble, FieldKind::BitDouble, FieldKind::BitDouble, FieldKind::BitDouble,
        FieldKind::BitDouble, FieldKind::BitDouble, FieldKind::BitDouble, FieldKind::BitDouble]
        + only_if(r2007, seq![FieldKind::BitDouble, FieldKind::Bit, FieldKind::BitDouble, FieldKind::BitShort,
            FieldKind::CmColor])
        + seq![FieldKind::Bit, FieldKind::Bit, FieldKind::Bit, FieldKind::Bit, FieldKind::Bit, FieldKind::Bit,
            FieldKind::BitShort, FieldKind::BitShort, FieldKind::BitShort]
        + only_if(r2007, seq![FieldKind::BitShort])
        + seq![FieldKind::BitDouble, FieldKind::BitDouble, FieldKind::BitDouble, FieldKind::BitDouble,
            FieldKind::BitDouble, FieldKind::BitDouble, FieldKind::BitDouble, FieldKind::BitDouble,
            FieldKind::BitDouble, FieldKind::Bit, FieldKind::BitShort, FieldKind::Bit, FieldKind::Bit,
            FieldKind::Bit, FieldKind::Bit, FieldKind::CmColor, FieldKind::CmColor, FieldKind::CmColor,
            FieldKind::BitShort, FieldKind::BitShort, FieldKind::BitShort, FieldKind::BitShort,
            FieldKind::BitShort, FieldKind::BitShort, FieldKind::BitShort, FieldKind::BitShort,
            FieldKind::BitShort, FieldKind::BitShort, FieldKind::BitShort, FieldKind::BitShort,
            FieldKind::Bit, FieldKind::Bit, FieldKind::BitShort, FieldKind::BitShort, FieldKind::BitShort,
            FieldKind::BitShort, FieldKind::Bit, FieldKind::BitShort]
        + only_if(r2007, seq![FieldKind::Bit])
        + seq![FieldKind::BitDouble, FieldKind::BitDouble, FieldKind::BitShort]
        + only_if(version_at_least(v, DxfVersion::AC1024), seq![FieldKind::BitShort])
}

/// The fields of a dimension style before its handles: the name, the
/// xref-dependent flag and the dimension variables of its version.
#[verifier::opaque]
pub open spec fn dimstyle_body(v: DxfVersion) -> Seq<FieldKind> {
    let r2000 = version_at_least(v, DxfVersion::AC1015);
    seq![FieldKind::Text, FieldKind::XrefBit] + only_if(!r2000, dimstyle_r13_fields())
        + only_if(r2000, dimstyle_r2000_fields(v))
}

/// The handles of a dimension style: the control object and the text
/// style; from R2000 on the leader, arrow, first and second arrow blocks;
/// from R2007 on the dimension line and the two extension line linetypes.
pub open spec fn dimstyle_handle_layout(v: DxfVersion) -> Seq<FieldKind> {
    seq![FieldKind::Handle, FieldKind::Handle]
        + only_if(version_at_least(v, DxfVersion::AC1015),
            seq![FieldKind::Handle, FieldKind::Handle, FieldKind::Handle, FieldKind::Handle])
        + only_if(version_at_least(v, DxfVersion::AC1021), seq![FieldKind::Handle, FieldKind::Handle, FieldKind::Handle])
}

/// The template data `d` of a dimension style whose fields are `fs` (see
/// [`dimstyle_body`]) and whose handle fields are `hs` (see
/// [`dimstyle_handle_layout`]): the handles, 0 where the version has
/// none, and before R2000 the three arrow block names (fields 50 to 52),
/// empty from R2000 on.
pub open spec fn dimstyle_data_holds(d: CadDimStyleTemplateData, v: DxfVersion, fs: Seq<FieldModel>,
    hs: Seq<FieldModel>) -> bool
{
    let r2000 = version_at_least(v, DxfVersion::AC1015);
    let r2007 = version_at_least(v, DxfVersion::AC1021);
    &&& d.dimtxsty_handle == field_handle(hs[1])
    &&& d.dimldrblk_handle == if r2000 { field_handle(hs[2]) } else { 0 }
    &&& d.dimblk_handle == if r2000 { field_handle(hs[3]) } else { 0 }
    &&& d.dimblk1_handle == if r2000 { field_handle(hs[4]) } else { 0 }
    &&& d.dimblk2_handle == if r2000 { field_handle(hs[5]) } else { 0 }
    &&& d.dimltype_handle == if r2007 { field_handle(hs[6]) } else { 0 }
    &&& d.dimltex1_handle == if r2007 { field_handle(hs[7]) } else { 0 }
    &&& d.dimltex2_handle == if r2007 { field_handle(hs[8]) } else { 0 }
    &&& d.dimblk_name@ == if r2000 { Seq::empty() } else { field_text(fs[50]) }
    &&& d.dimblk1_name@ == if r2000 { Seq::empty() } else { field_text(fs[51]) }
    &&& d.dimblk2_name@ == if r2000 { Seq::empty() } else { field_text(fs[52]) }
}

/// A record of `body` followed by the fields of `handles`, read from the
/// streams `m` of `data` (version `v`, object data starting at bit
/// `init`, relative handles resolved against `reference`).
pub open spec fn spec_record_then(m: StreamsModel, data: Seq<u8>, v: DxfVersion, init: int, reference: u64,
    body: Seq<FieldKind>, handles: Seq<FieldKind>)
    -> Result<((CommonModel, Seq<FieldModel>, Seq<FieldModel>), StreamsModel), DxfError>
{
    match spec_record(m, data, v, init, reference, body) {
        Err(e) => Err(e),
        Ok(((cm, fs), m1)) => match spec_fields(m1, data.len(), v, reference, handles) {
            Err(e) => Err(e),
            Ok((hs, m2)) => Ok(((cm, fs, hs), m2)),
        },
    }
}

impl DwgObjectReader {
    /// Read a table entry kept as a generic entry: its common data, then
    /// the fields of `layout` (not kept).
    fn read_generic_entry<E>(&mut self, streams: &mut StreamSet, layout: &Vec<FieldKind>)
        -> (r: Result<CadTemplate<XDataValue, E>, DxfError>)
        requires
            old(self).inv(),
            streams_of(*old(streams), old(self).data(), old(self).spec_version()),
        ensures
            *final(self) == *old(self),
            streams_of(*final(streams), old(self).data(), old(self).spec_version()),
            final(streams).current_handle == old(streams).current_handle,
            match spec_record(model_of(*old(streams)), old(self).data(), old(self).spec_version(),
                old(self).initial_pos(), old(streams).current_handle, layout@) {
                Err(e) => r matches Err(e2) && e2 == e,
                Ok(((cm, _), m)) => r matches Ok(CadTemplate::GenericTableEntry { common })
                    && common_model(common) == cm && model_of(*final(streams)) == m,
            },
    {
        let common = self.read_common_non_entity_data(streams)?;
        let _values = self.read_fields(streams, layout)?;
        Ok(CadTemplate::GenericTableEntry { common })
    }

    /// Read a registered application (see [`appid_layout`]); a generic
    /// entry.
    pub fn read_appid<E>(&mut self, streams: &mut StreamSet) -> (r: Result<CadTemplate<XDataValue, E>, DxfError>)
        requires
            old(self).inv(),
            streams_of(*old(streams), old(self).data(), old(self).spec_version()),
        ensures
            *final(self) == *old(self),
            streams_of(*final(streams), old(self).data(), old(self).spec_version()),
            final(streams).current_handle == old(streams).current_handle,
            match spec_record(model_of(*old(streams)), old(self).data(), old(self).spec_version(),
                old(self).initial_pos(), old(streams).current_handle, appid_layout()) {
                Err(e) => r matches Err(e2) && e2 == e,
                Ok(((cm, _), m)) => r matches Ok(CadTemplate::GenericTableEntry { common })
                    && common_model(common) == cm && model_of(*final(streams)) == m,
            },
    {
        let layout = vec![FieldKind::Text, FieldKind::XrefBit, FieldKind::RawChar, FieldKind::Handle];
        proof { assert(layout@ =~= appid_layout()); }
        self.read_generic_entry(streams, &layout)
    }

    /// Read a text style (see [`text_style_layout`]); a generic entry.
    pub fn read_text_style<E>(&mut self, streams: &mut StreamSet) -> (r: Result<CadTemplate<XDataValue, E>, DxfError>)
        requires
            old(self).inv(),
            streams_of(*old(streams), old(self).data(), old(self).spec_version()),
        ensures
            *final(self) == *old(self),
            streams_of(*final(streams), old(self).data(), old(self).spec_version()),
            final(streams).current_handle == old(streams).current_handle,
            match spec_record(model_of(*old(streams)), old(self).data(), old(self).spec_version(),
                old(self).initial_pos(), old(streams).current_handle, text_style_layout()) {
                Err(e) => r matches Err(e2) && e2 == e,
                Ok(((cm, _), m)) => r matches Ok(CadTemplate::GenericTableEntry { common })
                    && common_model(common) == cm && model_of(*final(streams)) == m,
            },
    {
        let layout = vec![FieldKind::Text, FieldKind::XrefBit, FieldKind::Bit, FieldKind::Bit, FieldKind::BitDouble,
            FieldKind::BitDouble, FieldKind::BitDouble, FieldKind::RawChar, FieldKind::BitDouble, FieldKind::Text,
            FieldKind::Text, FieldKind::Handle];
        proof { assert(layout@ =~= text_style_layout()); }
        self.read_generic_entry(streams, &layout)
    }

    /// Read a UCS (see [`ucs_layout`]); a generic entry.
    pub fn read_ucs<E>(&mut self, streams: &mut StreamSet) -> (r: Result<CadTemplate<XDataValue, E>, DxfError>)
        requires
            old(self).inv(),
            streams_of(*old(streams), old(self).data(), old(self).spec_version()),
        ensures
            *final(self) == *old(self),
            streams_of(*final(streams), old(self).data(), old(self).spec_version()),
            final(streams).current_handle == old(streams).current_handle,
            match spec_record(model_of(*old(streams)), old(self).data(), old(self).spec_version(),
                old(self).initial_pos(), old(streams).current_handle, ucs_layout(old(self).spec_version())) {
                Err(e) => r matches Err(e2) && e2 == e,
                Ok(((cm, _), m)) => r matches Ok(CadTemplate::GenericTableEntry { common })
                    && common_model(common) == cm && model_of(*final(streams)) == m,
            },
    {
        let r2000 = self.version().at_least(DxfVersion::AC1015);
        let mut layout = vec![FieldKind::Text, FieldKind::XrefBit,
            FieldKind::BitDouble, FieldKind::BitDouble, FieldKind::BitDouble,
            FieldKind::BitDouble, FieldKind::BitDouble, FieldKind::BitDouble,
            FieldKind::BitDouble, FieldKind::BitDouble, FieldKind::BitDouble];
        if r2000 {
            layout.push(FieldKind::BitDouble);
            layout.push(FieldKind::BitShort);
        }
        layout.push(FieldKind::Handle);
        if r2000 {
            layout.push(FieldKind::Handle);
            layout.push(FieldKind::Handle);
        }
        proof { assert(layout@ =~= ucs_layout(self.spec_version())); }
        self.read_generic_entry(streams, &layout)
    }

    /// Read a layer (see [`layer_layout`]); it keeps its linetype,
    /// material and plot style handles (see [`layer_handles`]).
    pub fn read_layer<E>(&mut self, streams: &mut StreamSet) -> (r: Result<CadTemplate<XDataValue, E>, DxfError>)
        requires
            old(self).inv(),
            streams_of(*old(streams), old(self).data(), old(self).spec_version()),
        ensures
            *final(self) == *old(self),
            streams_of(*final(streams), old(self).data(), old(self).spec_version()),
            final(streams).current_handle == old(streams).current_handle,
            match spec_record(model_of(*old(streams)), old(self).data(), old(self).spec_version(),
                old(self).initial_pos(), old(streams).current_handle, layer_layout(old(self).spec_version())) {
                Err(e) => r matches Err(e2) && e2 == e,
                Ok(((cm, fs), m)) => r matches Ok(CadTemplate::LayerEntry { common, layer_data })
                    && common_model(common) == cm && layer_data == layer_handles(old(self).spec_version(), fs)
                    && model_of(*final(streams)) == m,
            },
    {
        let r2000 = self.version().at_least(DxfVersion::AC1015);
        let r2007 = self.version().at_least(DxfVersion::AC1021);
        let mut layout = vec![FieldKind::Text, FieldKind::XrefBit];
        if !r2000 {
            layout.push(FieldKind::Bit);
            layout.push(FieldKind::Bit);
            layout.push(FieldKind::Bit);
            layout.push(FieldKind::Bit);
        } else {
            layout.push(FieldKind::BitShort);
        }
        layout.push(FieldKind::CmColor);
        layout.push(FieldKind::Handle);
        if r2000 {
            layout.push(FieldKind::Handle);
        }
        if r2007 {
            layout.push(FieldKind::Handle);
        }
        layout.push(FieldKind::Handle);
        proof {
            assert(layout@ =~= layer_layout(self.spec_version()));
            if let Ok((_, m1)) = spec_common_non_entity(model_of(*streams), self.data(), self.spec_version(),
                self.initial_pos()) {
                lemma_fields_len(m1, self.data().len(), self.spec_version(), streams.current_handle, layout@);
            }
        }
        let common = self.read_common_non_entity_data(streams)?;
        let values = self.read_fields(streams, &layout)?;
        let n = values.len();
        let linetype_handle = field_handle_of(&values[n - 1]);
        let material_handle = if r2007 { field_handle_of(&values[n - 2]) } else { 0 };
        let plotstyle_handle = if r2000 {
            let k = if r2007 { n - 3 } else { n - 2 };
            field_handle_of(&values[k])
        } else {
            0
        };
        Ok(CadTemplate::LayerEntry {
            common,
            layer_data: CadLayerTemplateData { linetype_handle, plotstyle_handle, material_handle },
        })
    }

    /// Read a record of `body` followed by the fields of `handles` (see
    /// [`spec_record_then`]).
    fn read_record_then(&mut self, streams: &mut StreamSet, body: &Vec<FieldKind>, handles: &Vec<FieldKind>)
        -> (r: Result<(crate::templates::CadTemplateCommon<XDataValue>, Vec<FieldValue>, Vec<FieldValue>), DxfError>)
        requires
            old(self).inv(),
            streams_of(*old(streams), old(self).data(), old(self).spec_version()),
        ensures
            *final(self) == *old(self),
            streams_of(*final(streams), old(self).data(), old(self).spec_version()),
            final(streams).current_handle == old(streams).current_handle,
            match spec_record_then(model_of(*old(streams)), old(self).data(), old(self).spec_version(),
                old(self).initial_pos(), old(streams).current_handle, body@, handles@) {
                Err(e) => r matches Err(e2) && e2 == e,
                Ok(((cm, fs, hs), m)) => r matches Ok((c, a, b)) && common_model(c) == cm
                    && crate::object_reader::fields_model(a@) == fs && crate::object_reader::fields_model(b@) == hs
                    && a@.len() == body@.len() && b@.len() == handles@.len() && model_of(*final(streams)) == m,
            },
    {
        let ghost m0 = model_of(*streams);
        proof {
            if let Ok((_, m1)) = spec_common_non_entity(m0, self.data(), self.spec_version(), self.initial_pos()) {
                lemma_fields_len(m1, self.data().len(), self.spec_version(), streams.current_handle, body@);
            }
        }
        let common = self.read_common_non_entity_data(streams)?;
        let values = self.read_fields(streams, body)?;
        proof { lemma_fields_len(model_of(*streams), self.data().len(), self.spec_version(), streams.current_handle, handles@); }
        let handle_values = self.read_fields(streams, handles)?;
        Ok((common, values, handle_values))
    }

    /// Read a linetype (see [`spec_ltype`]).
    pub fn read_ltype<E>(&mut self, streams: &mut StreamSet) -> (r: Result<CadTemplate<XDataValue, E>, DxfError>)
        requires
            old(self).inv(),
            streams_of(*old(streams), old(self).data(), old(self).spec_version()),
        ensures
            *final(self) == *old(self),
            streams_of(*final(streams), old(self).data(), old(self).spec_version()),
            final(streams).current_handle == old(streams).current_handle,
            match spec_ltype(model_of(*old(streams)), old(self).data(), old(self).spec_version(),
                old(self).initial_pos(), old(streams).current_handle) {
                Err(e) => r matches Err(e2) && e2 == e,
                Ok(((cm, control, total_len, segments), m)) => r matches Ok(CadTemplate::LineTypeEntry { common, ltype_data })
                    && common_model(common) == cm && ltype_data.ltype_control_handle == control
                    && ltype_data.total_len == total_len && ltype_data.segment_handles@ == segments
                    && model_of(*final(streams)) == m,
            },
    {
        let ghost len = self.data().len();
        let ghost v = self.spec_version();
        let head = vec![FieldKind::Text, FieldKind::XrefBit, FieldKind::Text, FieldKind::BitDouble, FieldKind::RawChar,
            FieldKind::RawChar];
        proof {
            assert(head@ =~= ltype_head());
            if let Ok((_, m1)) = spec_common_non_entity(model_of(*streams), self.data(), self.spec_version(),
                self.initial_pos()) {
                lemma_fields_len(m1, len, v, streams.current_handle, head@);
            }
        }
        let common = self.read_common_non_entity_data(streams)?;
        let values = self.read_fields(streams, &head)?;
        let total_len = field_double_of(&values[3]);
        let num_dashes = field_count_of(&values[5]);
        let mut body: Vec<FieldKind> = Vec::new();
        let mut i: usize = 0;
        while i < num_dashes
            invariant
                i <= num_dashes,
                body@ == repeat_layout(dash_layout(), i as nat),
            decreases num_dashes - i,
        {
            body.push(FieldKind::BitDouble);
            body.push(FieldKind::BitShort);
            body.push(FieldKind::RawDouble);
            body.push(FieldKind::RawDouble);
            body.push(FieldKind::BitDouble);
            body.push(FieldKind::BitDouble);
            body.push(FieldKind::BitShort);
            proof { assert(body@ =~= repeat_layout(dash_layout(), (i + 1) as nat)); }
            i = i + 1;
        }
        let mut texts: Vec<FieldKind> = Vec::new();
        if self.version().at_least(DxfVersion::AC1018) {
            let mut j: usize = 0;
            while j < num_dashes
                invariant
                    j <= num_dashes,
                    texts@ == repeat_layout(seq![FieldKind::Text], j as nat),
                decreases num_dashes - j,
            {
                texts.push(FieldKind::Text);
                proof { assert(texts@ =~= repeat_layout(seq![FieldKind::Text], (j + 1) as nat)); }
                j = j + 1;
            }
        }
        body.append(&mut texts);
        body.push(FieldKind::Handle);
        proof {
            assert(body@ =~= ltype_body(v, num_dashes as nat));
            lemma_fields_len(model_of(*streams), len, v, streams.current_handle, body@);
        }
        let rest = self.read_fields(streams, &body)?;
        let ltype_control_handle = field_handle_of(&rest[rest.len() - 1]);
        let ghost m2 = model_of(*streams);
        let reference = streams.current_handle;
        let segment_handles = read_handle_list(&mut streams.handles_reader, reference, num_dashes)?;
        proof {
            assert(spec_handle_list(m2.handles, m2.handles_pos, len, reference, num_dashes as nat) matches Ok((hs, ch, hp))
                && model_of(*streams) == (StreamsModel { handles: ch, handles_pos: hp, ..m2 }));
        }
        Ok(CadTemplate::LineTypeEntry {
            common,
            ltype_data: CadLineTypeTemplateData { ltype_control_handle, total_len, segment_handles },
        })
    }

    /// The fields of a view up to its control handle (see [`view_head`]).
    fn view_head_fields(&self) -> (r: Vec<FieldKind>)
        ensures
            r@ == view_head(self.spec_version()),
    {
        let mut layout = vec![FieldKind::Text, FieldKind::XrefBit, FieldKind::BitDouble, FieldKind::BitDouble,
            FieldKind::RawDouble, FieldKind::RawDouble,
            FieldKind::BitDouble, FieldKind::BitDouble, FieldKind::BitDouble,
            FieldKind::BitDouble, FieldKind::BitDouble, FieldKind::BitDouble,
            FieldKind::BitDouble, FieldKind::BitDouble, FieldKind::BitDouble, FieldKind::BitDouble,
            FieldKind::Bit, FieldKind::Bit, FieldKind::Bit];
        if self.version().at_least(DxfVersion::AC1015) {
            let mut ucs = vec![FieldKind::RawChar, FieldKind::Bit,
                FieldKind::BitDouble, FieldKind::BitDouble, FieldKind::BitDouble,
                FieldKind::BitDouble, FieldKind::BitDouble, FieldKind::BitDouble,
                FieldKind::BitDouble, FieldKind::BitDouble, FieldKind::BitDouble,
                FieldKind::BitDouble, FieldKind::BitShort];
            layout.append(&mut ucs);
        }
        layout.push(FieldKind::Handle);
        if self.version().at_least(DxfVersion::AC1021) {
            layout.push(FieldKind::Bit);
            layout.push(FieldKind::Handle);
            layout.push(FieldKind::Handle);
            layout.push(FieldKind::Handle);
        }
        proof { assert(layout@ =~= view_head(self.spec_version())); }
        layout
    }

    /// Read a view (see [`spec_view`]): it keeps its UCS handle.
    pub fn read_view<E>(&mut self, streams: &mut StreamSet) -> (r: Result<CadTemplate<XDataValue, E>, DxfError>)
        requires
            old(self).inv(),
            streams_of(*old(streams), old(self).data(), old(self).spec_version()),
        ensures
            *final(self) == *old(self),
            streams_of(*final(streams), old(self).data(), old(self).spec_version()),
            final(streams).current_handle == old(streams).current_handle,
            match spec_view(model_of(*old(streams)), old(self).data(), old(self).spec_version(),
                old(self).initial_pos(), old(streams).current_handle) {
                Err(e) => r matches Err(e2) && e2 == e,
                Ok(((cm, ucs), m)) => r matches Ok(CadTemplate::ViewEntry { common, view_data })
                    && common_model(common) == cm && view_data.ucs_handle == ucs && view_data.named_ucs_handle == 0
                    && model_of(*final(streams)) == m,
            },
    {
        let ghost len = self.data().len();
        let ghost v = self.spec_version();
        let head = self.view_head_fields();
        proof {
            if let Ok((_, m1)) = spec_common_non_entity(model_of(*streams), self.data(), self.spec_version(),
                self.initial_pos()) {
                lemma_fields_len(m1, len, v, streams.current_handle, head@);
            }
        }
        let common = self.read_common_non_entity_data(streams)?;
        let values = self.read_fields(streams, &head)?;
        let associated = self.version().at_least(DxfVersion::AC1015) && field_bool_of(&values[20]);
        let mut tail: Vec<FieldKind> = Vec::new();
        if associated {
            tail.push(FieldKind::Handle);
            tail.push(FieldKind::Handle);
        }
        if self.version().at_least(DxfVersion::AC1021) {
            tail.push(FieldKind::Handle);
        }
        proof {
            assert(tail@ =~= view_tail(v, associated));
            lemma_fields_len(model_of(*streams), len, v, streams.current_handle, tail@);
        }
        let handles = self.read_fields(streams, &tail)?;
        let ucs_handle = if associated { field_handle_of(&handles[0]) } else { 0 };
        Ok(CadTemplate::ViewEntry { common, view_data: CadViewTemplateData { ucs_handle, named_ucs_handle: 0 } })
    }

    /// The fields of a viewport before its handles (see [`vport_body`]).
    fn vport_body_fields(&self) -> (r: Vec<FieldKind>)
        ensures
            r@ == vport_body(self.spec_version()),
    {
        let r2000 = self.version().at_least(DxfVersion::AC1015);
        let mut layout = vec![FieldKind::Text, FieldKind::XrefBit, FieldKind::BitDouble, FieldKind::BitDouble,
            FieldKind::RawDouble, FieldKind::RawDouble,
            FieldKind::BitDouble, FieldKind::BitDouble, FieldKind::BitDouble,
            FieldKind::BitDouble, FieldKind::BitDouble, FieldKind::BitDouble,
            FieldKind::BitDouble, FieldKind::BitDouble, FieldKind::BitDouble, FieldKind::BitDouble,
            FieldKind::BitLong, FieldKind::RawChar];
        if r2000 {
            let mut lighting = vec![FieldKind::Bit, FieldKind::RawChar, FieldKind::BitDouble, FieldKind::BitDouble,
                FieldKind::RawLong];
            layout.append(&mut lighting);
        }
        let mut grid = vec![FieldKind::RawDouble, FieldKind::RawDouble, FieldKind::RawDouble, FieldKind::RawDouble,
            FieldKind::Bit, FieldKind::BitShort, FieldKind::Bit, FieldKind::Bit, FieldKind::BitShort,
            FieldKind::BitDouble, FieldKind::RawDouble, FieldKind::RawDouble, FieldKind::RawDouble,
            FieldKind::RawDouble, FieldKind::Bit, FieldKind::RawDouble, FieldKind::RawDouble];
        layout.append(&mut grid);
        if r2000 {
            let mut ucs = vec![FieldKind::Bit,
                FieldKind::BitDouble, FieldKind::BitDouble, FieldKind::BitDouble,
                FieldKind::BitDouble, FieldKind::BitDouble, FieldKind::BitDouble,
                FieldKind::BitDouble, FieldKind::BitDouble, FieldKind::BitDouble,
                FieldKind::BitDouble, FieldKind::BitShort];
            layout.append(&mut ucs);
        }
        if self.version().at_least(DxfVersion::AC1021) {
            layout.push(FieldKind::BitShort);
            layout.push(FieldKind::BitShort);
        }
        proof { assert(layout@ =~= vport_body(self.spec_version())); }
        layout
    }

    /// Read a viewport: the record of [`vport_body`], then the handles of
    /// [`vport_handle_layout`], which it keeps (see [`vport_data_of`]).
    pub fn read_vport<E>(&mut self, streams: &mut StreamSet) -> (r: Result<CadTemplate<XDataValue, E>, DxfError>)
        requires
            old(self).inv(),
            streams_of(*old(streams), old(self).data(), old(self).spec_version()),
        ensures
            *final(self) == *old(self),
            streams_of(*final(streams), old(self).data(), old(self).spec_version()),
            final(streams).current_handle == old(streams).current_handle,
            match spec_record_then(model_of(*old(streams)), old(self).data(), old(self).spec_version(),
                old(self).initial_pos(), old(streams).current_handle, vport_body(old(self).spec_version()),
                vport_handle_layout(old(self).spec_version())) {
                Err(e) => r matches Err(e2) && e2 == e,
                Ok(((cm, _, hs), m)) => r matches Ok(CadTemplate::VPortEntry { common, vport_data })
                    && common_model(common) == cm && vport_data == vport_data_of(old(self).spec_version(), hs)
                    && model_of(*final(streams)) == m,
            },
    {
        let r2000 = self.version().at_least(DxfVersion::AC1015);
        let r2007 = self.version().at_least(DxfVersion::AC1021);
        let body = self.vport_body_fields();
        let mut handles = vec![FieldKind::Handle];
        if r2007 {
            handles.push(FieldKind::Handle);
            handles.push(FieldKind::Handle);
            handles.push(FieldKind::Handle);
        }
        if r2000 {
            handles.push(FieldKind::Handle);
            handles.push(FieldKind::Handle);
        }
        proof { assert(handles@ =~= vport_handle_layout(self.spec_version())); }
        let (common, _values, hs) = self.read_record_then(streams, &body, &handles)?;
        let k: usize = if r2007 { 4 } else { 1 };
        let vport_data = CadVPortTemplateData {
            vport_control_handle: field_handle_of(&hs[0]),
            background_handle: if r2007 { field_handle_of(&hs[1]) } else { 0 },
            style_handle: if r2007 { field_handle_of(&hs[2]) } else { 0 },
            sun_handle: if r2007 { field_handle_of(&hs[3]) } else { 0 },
            named_ucs_handle: if r2000 { field_handle_of(&hs[k]) } else { 0 },
            base_ucs_handle: if r2000 { field_handle_of(&hs[k + 1]) } else { 0 },
        };
        Ok(CadTemplate::VPortEntry { common, vport_data })
    }

    /// The fields of a dimension style before its handles (see
    /// [`dimstyle_body`]).
    fn dimstyle_body_fields(&self) -> (r: Vec<FieldKind>)
        ensures
            r@ == dimstyle_body(self.spec_version()),
            !version_at_least(self.spec_version(), DxfVersion::AC1015) ==> r@.len() == 56,
    {
        proof { reveal(dimstyle_body); }
        let mut layout = vec![FieldKind::Text, FieldKind::XrefBit];
        if !self.version().at_least(DxfVersion::AC1015) {
            let mut vars = vec![FieldKind::Bit, FieldKind::Bit, FieldKind::Bit, FieldKind::Bit, FieldKind::Bit,
                FieldKind::Bit, FieldKind::Bit, FieldKind::Bit, FieldKind::Bit, FieldKind::Bit, FieldKind::Bit,
                FieldKind::RawChar, FieldKind::RawChar, FieldKind::Bit, FieldKind::Bit,
                FieldKind::RawChar, FieldKind::RawChar, FieldKind::RawChar, FieldKind::Bit,
                FieldKind::RawChar, FieldKind::RawChar, FieldKind::RawChar, FieldKind::RawChar,
                FieldKind::BitShort, FieldKind::BitShort, FieldKind::BitShort, FieldKind::BitShort, FieldKind::BitShort,
                FieldKind::BitShort,
                FieldKind::BitDouble, FieldKind::BitDouble, FieldKind::BitDouble, FieldKind::BitDouble,
                FieldKind::BitDouble, FieldKind::BitDouble, FieldKind::BitDouble, FieldKind::BitDouble,
                FieldKind::BitDouble, FieldKind::BitDouble, FieldKind::BitDouble, FieldKind::BitDouble,
                FieldKind::BitDouble, FieldKind::BitDouble, FieldKind::BitDouble, FieldKind::BitDouble,
                FieldKind::BitDouble,
                FieldKind::Text, FieldKind::Text, FieldKind::Text, FieldKind::Text, FieldKind::Text,
                FieldKind::BitShort, FieldKind::BitShort, FieldKind::BitShort];
            proof { assert(vars@ =~= dimstyle_r13_fields()); }
            layout.append(&mut vars);
        } else {
            let mut vars = self.dimstyle_r2000_vars();
            layout.append(&mut vars);
        }
        proof { assert(layout@ =~= dimstyle_body(self.spec_version())); }
        layout
    }

    /// The dimension variables of a dimension style from R2000 on (see
    /// [`dimstyle_r2000_fields`]).
    fn dimstyle_r2000_vars(&self) -> (r: Vec<FieldKind>)
        ensures
            r@ == dimstyle_r2000_fields(self.spec_version()),
    {
        let r2007 = self.version().at_least(DxfVersion::AC1021);
        let mut vars = vec![FieldKind::Text, FieldKind::Text,
            FieldKind::BitDouble, FieldKind::BitDouble, FieldKind::BitDouble, FieldKind::BitDouble,
            FieldKind::BitDouble, FieldKind::BitDouble, FieldKind::BitDouble, FieldKind::BitDouble,
            FieldKind::BitDouble];
        if r2007 {
            let mut fixed = vec![FieldKind::BitDouble, FieldKind::Bit, FieldKind::BitDouble, FieldKind::BitShort,
                FieldKind::CmColor];
            vars.append(&mut fixed);
        }
        let mut flags = vec![FieldKind::Bit, FieldKind::Bit, FieldKind::Bit, FieldKind::Bit, FieldKind::Bit,
            FieldKind::Bit, FieldKind::BitShort, FieldKind::BitShort, FieldKind::BitShort];
        vars.append(&mut flags);
        if r2007 {
            vars.push(FieldKind::BitShort);
        }
        let mut rest = vec![FieldKind::BitDouble, FieldKind::BitDouble, FieldKind::BitDouble, FieldKind::BitDouble,
            FieldKind::BitDouble, FieldKind::BitDouble, FieldKind::BitDouble, FieldKind::BitDouble,
            FieldKind::BitDouble, FieldKind::Bit, FieldKind::BitShort, FieldKind::Bit, FieldKind::Bit,
            FieldKind::Bit, FieldKind::Bit, FieldKind::CmColor, FieldKind::CmColor, FieldKind::CmColor,
            FieldKind::BitShort, FieldKind::BitShort, FieldKind::BitShort, FieldKind::BitShort,
            FieldKind::BitShort, FieldKind::BitShort, FieldKind::BitShort, FieldKind::BitShort,
            FieldKind::BitShort, FieldKind::BitShort, FieldKind::BitShort, FieldKind::BitShort,
            FieldKind::Bit, FieldKind::Bit, FieldKind::BitShort, FieldKind::BitShort, FieldKind::BitShort,
            FieldKind::BitShort, FieldKind::Bit, FieldKind::BitShort];
        vars.append(&mut rest);
        if r2007 {
            vars.push(FieldKind::Bit);
        }
        vars.push(FieldKind::BitDouble);
        vars.push(FieldKind::BitDouble);
        vars.push(FieldKind::BitShort);
        if self.version().at_least(DxfVersion::AC1024) {
            vars.push(FieldKind::BitShort);
        }
        proof { assert(vars@ =~= dimstyle_r2000_fields(self.spec_version())); }
        vars
    }

    /// Read a dimension style: the record of [`dimstyle_body`], then the
    /// handles of [`dimstyle_handle_layout`]; it keeps the handles and,
    /// before R2000, the arrow block names (see [`dimstyle_data_holds`]).
    pub fn read_dimstyle<E>(&mut self, streams: &mut StreamSet) -> (r: Result<CadTemplate<XDataValue, E>, DxfError>)
        requires
            old(self).inv(),
            streams_of(*old(streams), old(self).data(), old(self).spec_version()),
        ensures
            *final(self) == *old(self),
            streams_of(*final(streams), old(self).data(), old(self).spec_version()),
            final(streams).current_handle == old(streams).current_handle,
            match spec_record_then(model_of(*old(streams)), old(self).data(), old(self).spec_version(),
                old(self).initial_pos(), old(streams).current_handle, dimstyle_body(old(self).spec_version()),
                dimstyle_handle_layout(old(self).spec_version())) {
                Err(e) => r matches Err(e2) && e2 == e,
                Ok(((cm, fs, hs), m)) => r matches Ok(CadTemplate::DimStyleEntry { common, dimstyle_data })
                    && common_model(common) == cm && dimstyle_data_holds(dimstyle_data, old(self).spec_version(), fs, hs)
                    && model_of(*final(streams)) == m,
            },
    {
        let r2000 = self.version().at_least(DxfVersion::AC1015);
        let r2007 = self.version().at_least(DxfVersion::AC1021);
        let body = self.dimstyle_body_fields();
        let mut handles = vec![FieldKind::Handle, FieldKind::Handle];
        if r2000 {
            handles.push(FieldKind::Handle);
            handles.push(FieldKind::Handle);
            handles.push(FieldKind::Handle);
            handles.push(FieldKind::Handle);
        }
        if r2007 {
            handles.push(FieldKind::Handle);
            handles.push(FieldKind::Handle);
            handles.push(FieldKind::Handle);
        }
        proof { assert(handles@ =~= dimstyle_handle_layout(self.spec_version())); }
        let (common, values, hs) = self.read_record_then(streams, &body, &handles)?;
        let dimstyle_data = CadDimStyleTemplateData {
            dimtxsty_handle: field_handle_of(&hs[1]),
            dimldrblk_handle: if r2000 { field_handle_of(&hs[2]) } else { 0 },
            dimblk_handle: if r2000 { field_handle_of(&hs[3]) } else { 0 },
            dimblk1_handle: if r2000 { field_handle_of(&hs[4]) } else { 0 },
            dimblk2_handle: if r2000 { field_handle_of(&hs[5]) } else { 0 },
            dimltype_handle: if r2007 { field_handle_of(&hs[6]) } else { 0 },
            dimltex1_handle: if r2007 { field_handle_of(&hs[7]) } else { 0 },
            dimltex2_handle: if r2007 { field_handle_of(&hs[8]) } else { 0 },
            dimblk_name: if r2000 { String::new() } else { field_text_of(&values[50]) },
            dimblk1_name: if r2000 { String::new() } else { field_text_of(&values[51]) },
            dimblk2_name: if r2000 { String::new() } else { field_text_of(&values[52]) },
        };
        Ok(CadTemplate::DimStyleEntry { common, dimstyle_data })
    }
}

/// The double a field value holds (see [`field_double`]).
pub(crate) fn field_double_of(f: &FieldValue) -> (r: u64)
    ensures
        r == field_double(f@),
{
    match f {
        FieldValue::Double(x) => *x,
        _ => 0,
    }
}

/// The text a field value holds (see [`field_text`]).
pub(crate) fn field_text_of(f: &FieldValue) -> (r: String)
    ensures
        r@ == field_text(f@),
{
    match f {
        FieldValue::Text(t) => t.clone(),
        _ => String::new(),
    }
}


/// What [`DwgObjectReader::read_appid`] gives and leaves: its result `r` and
/// its streams, from `st0` to `st1`, for the reader `before`.
pub open spec fn read_appid_outcome<E>(before: DwgObjectReader, st0: StreamSet, st1: StreamSet,
    r: Result<CadTemplate<XDataValue, E>, DxfError>) -> bool {
    &&& streams_of(st1, before.data(), before.spec_version())
    &&& st1.current_handle == st0.current_handle
    &&& match spec_record(model_of(st0), before.data(), before.spec_version(),
            before.initial_pos(), st0.current_handle, appid_layout()) {
            Err(e) => r matches Err(e2) && e2 == e,
            Ok(((cm, _), m)) => r matches Ok(CadTemplate::GenericTableEntry { common })
                && common_model(common) == cm && model_of(st1) == m,
        }
}

/// What [`DwgObjectReader::read_dimstyle`] gives and leaves: its result `r` and
/// its streams, from `st0` to `st1`, for the reader `before`.
pub open spec fn read_dimstyle_outcome<E>(before: DwgObjectReader, st0: StreamSet, st1: StreamSet,
    r: Result<CadTemplate<XDataValue, E>, DxfError>) -> bool {
    &&& streams_of(st1, before.data(), before.spec_version())
    &&& st1.current_handle == st0.current_handle
    &&& match spec_record_then(model_of(st0), before.data(), before.spec_version(),
            before.initial_pos(), st0.current_handle, dimstyle_body(before.spec_version()),
            dimstyle_handle_layout(before.spec_version())) {
            Err(e) => r matches Err(e2) && e2 == e,
            Ok(((cm, fs, hs), m)) => r matches Ok(CadTemplate::DimStyleEntry { common, dimstyle_data })
                && common_model(common) == cm && dimstyle_data_holds(dimstyle_data, before.spec_version(), fs, hs)
                && model_of(st1) == m,
        }
}

/// What [`DwgObjectReader::read_layer`] gives and leaves: its result `r` and
/// its streams, from `st0` to `st1`, for the reader `before`.
pub open spec fn read_layer_outcome<E>(before: DwgObjectReader, st0: StreamSet, st1: StreamSet,
    r: Result<CadTemplate<XDataValue, E>, DxfError>) -> bool {
    &&& streams_of(st1, before.data(), before.spec_version())
    &&& st1.current_handle == st0.current_handle
    &&& match spec_record(model_of(st0), before.data(), before.spec_version(),
            before.initial_pos(), st0.current_handle, layer_layout(before.spec_version())) {
            Err(e) => r matches Err(e2) && e2 == e,
            Ok(((cm, fs), m)) => r matches Ok(CadTemplate::LayerEntry { common, layer_data })
                && common_model(common) == cm && layer_data == layer_handles(before.spec_version(), fs)
                && model_of(st1) == m,
        }
}

/// What [`DwgObjectReader::read_ltype`] gives and leaves: its result `r` and
/// its streams, from `st0` to `st1`, for the reader `before`.
pub open spec fn read_ltype_outcome<E>(before: DwgObjectReader, st0: StreamSet, st1: StreamSet,
    r: Result<CadTemplate<XDataValue, E>, DxfError>) -> bool {
    &&& streams_of(st1, before.data(), before.spec_version())
    &&& st1.current_handle == st0.current_handle
    &&& match spec_ltype(model_of(st0), before.data(), before.spec_version(),
            before.initial_pos(), st0.current_handle) {
            Err(e) => r matches Err(e2) && e2 == e,
            Ok(((cm, control, total_len, segments), m)) => r matches Ok(CadTemplate::LineTypeEntry { common, ltype_data })
                && common_model(common) == cm && ltype_data.ltype_control_handle == control
                && ltype_data.total_len == total_len && ltype_data.segment_handles@ == segments
                && model_of(st1) == m,
        }
}

/// What [`DwgObjectReader::read_text_style`] gives and leaves: its result `r` and
/// its streams, from `st0` to `st1`, for the reader `before`.
pub open spec fn read_text_style_outcome<E>(before: DwgObjectReader, st0: StreamSet, st1: StreamSet,
    r: Result<CadTemplate<XDataValue, E>, DxfError>) -> bool {
    &&& streams_of(st1, before.data(), before.spec_version())
    &&& st1.current_handle == st0.current_handle
    &&& match spec_record(model_of(st0), before.data(), before.spec_version(),
            before.initial_pos(), st0.current_handle, text_style_layout()) {
            Err(e) => r matches Err(e2) && e2 == e,
            Ok(((cm, _), m)) => r matches Ok(CadTemplate::GenericTableEntry { common })
                && common_model(common) == cm && model_of(st1) == m,
        }
}

/// What [`DwgObjectReader::read_ucs`] gives and leaves: its result `r` and
/// its streams, from `st0` to `st1`, for the reader `before`.
pub open spec fn read_ucs_outcome<E>(before: DwgObjectReader, st0: StreamSet, st1: StreamSet,
    r: Result<CadTemplate<XDataValue, E>, DxfError>) -> bool {
    &&& streams_of(st1, before.data(), before.spec_version())
    &&& st1.current_handle == st0.current_handle
    &&& match spec_record(model_of(st0), before.data(), before.spec_version(),
            before.initial_pos(), st0.current_handle, ucs_layout(before.spec_version())) {
            Err(e) => r matches Err(e2) && e2 == e,
            Ok(((cm, _), m)) => r matches Ok(CadTemplate::GenericTableEntry { common })
                && common_model(common) == cm && model_of(st1) == m,
        }
}

/// What [`DwgObjectReader::read_view`] gives and leaves: its result `r` and
/// its streams, from `st0` to `st1`, for the reader `before`.
pub open spec fn read_view_outcome<E>(before: DwgObjectReader, st0: StreamSet, st1: StreamSet,
    r: Result<CadTemplate<XDataValue, E>, DxfError>) -> bool {
    &&& streams_of(st1, before.data(), before.spec_version())
    &&& st1.current_handle == st0.current_handle
    &&& match spec_view(model_of(st0), before.data(), before.spec_version(),
            before.initial_pos(), st0.current_handle) {
            Err(e) => r matches Err(e2) && e2 == e,
            Ok(((cm, ucs), m)) => r matches Ok(CadTemplate::ViewEntry { common, view_data })
                && common_model(common) == cm && view_data.ucs_handle == ucs && view_data.named_ucs_handle == 0
                && model_of(st1) == m,
        }
}

/// What [`DwgObjectReader::read_vport`] gives and leaves: its result `r` and
/// its streams, from `st0` to `st1`, for the reader `before`.
pub open spec fn read_vport_outcome<E>(before: DwgObjectReader, st0: StreamSet, st1: StreamSet,
    r: Result<CadTemplate<XDataValue, E>, DxfError>) -> bool {
    &&& streams_of(st1, before.data(), before.spec_version())
    &&& st1.current_handle == st0.current_handle
    &&& match spec_record_then(model_of(st0), before.data(), before.spec_version(),
            before.initial_pos(), st0.current_handle, vport_body(before.spec_version()),
            vport_handle_layout(before.spec_version())) {
            Err(e) => r matches Err(e2) && e2 == e,
            Ok(((cm, _, hs), m)) => r matches Ok(CadTemplate::VPortEntry { common, vport_data })
                && common_model(common) == cm && vport_data == vport_data_of(before.spec_version(), hs)
                && model_of(st1) == m,
        }
}

} // verus!
