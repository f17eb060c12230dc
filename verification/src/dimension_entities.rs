//! Readers of dimensions.  Every kind starts with the same data (see
//! [`dimension_slots`]), goes on with points of its own and ends with its
//! style and block handles.  Values are kept as stored: doubles as their
//! IEEE-754 bit patterns, points as three of them.

use vstd::prelude::*;
use crate::bit_model::one_bits;
use crate::error::DxfError;
use crate::object_common::XDataValue;
use crate::object_reader::{DwgObjectReader, StreamsModel, FieldKind, FieldModel, FieldValue, EntityCommon,
    CommonModel, spec_fields, spec_common_entity, spec_next_ref, streams_of, model_of, common_model, fields_model,
    read_stream_fields, lemma_fields_len};
use crate::object_records::version_at_least;
use crate::table_entries::{field_double, field_text, field_double_of, field_text_of};
use crate::text_entities::{Slot, stored, spec_slots, read_slots, lemma_slots_len, field_point, field_point_of,
    field_byte, field_byte_of};
use crate::stream_set::StreamSet;
use crate::templates::{CadTemplate, CadDimensionTemplateData, CadEntityTemplateData};
use crate::version::DxfVersion;

verus! {

/// The kinds of dimension.
#[derive(Debug, Clone, Copy, PartialEq, Eq, Structural)]
pub enum DimensionType {
    Ordinate,
    Linear,
    Aligned,
    Angular3Point,
    Angular2Line,
    Radius,
    Diameter,
}

/// The points and values proper to each kind of dimension.
#[derive(Debug, Clone, Copy)]
pub enum DimensionKind {
    Ordinate {
        definition_point: (u64, u64, u64),
        feature_location: (u64, u64, u64),
        leader_endpoint: (u64, u64, u64),
        is_ordinate_type_x: bool,
    },
    Linear {
        first_point: (u64, u64, u64),
        second_point: (u64, u64, u64),
        definition_point: (u64, u64, u64),
        rotation: u64,
        ext_line_rotation: u64,
    },
    Aligned {
        first_point: (u64, u64, u64),
        second_point: (u64, u64, u64),
        definition_point: (u64, u64, u64),
        ext_line_rotation: u64,
    },
    Angular3Point {
        definition_point: (u64, u64, u64),
        first_point: (u64, u64, u64),
        second_point: (u64, u64, u64),
        angle_vertex: (u64, u64, u64),
    },
    Angular2Line {
        dimension_arc: (u64, u64, u64),
        first_point: (u64, u64, u64),
        second_point: (u64, u64, u64),
        angle_vertex: (u64, u64, u64),
        definition_point: (u64, u64, u64),
    },
    Radius {
        definition_point: (u64, u64, u64),
        angle_vertex: (u64, u64, u64),
        leader_length: u64,
    },
    Diameter {
        definition_point: (u64, u64, u64),
        angle_vertex: (u64, u64, u64),
        leader_length: u64,
    },
}

/// A dimension: its common properties, the data every dimension has and
/// what is proper to its kind.
pub struct DimensionEntity {
    pub common: EntityCommon,
    /// The dimension format version (R2010 and later; else 0).
    pub version: u8,
    pub normal: (u64, u64, u64),
    /// The middle of the text, with the elevation as its Z.
    pub text_middle_point: (u64, u64, u64),
    /// The text the user gave, when not empty.
    pub user_text: Option<String>,
    pub text_rotation: u64,
    pub horizontal_direction: u64,
    /// The line spacing factor (1.0 before R2000).
    pub line_spacing_factor: u64,
    /// The definition point, with the elevation as its Z.
    pub definition_point: (u64, u64, u64),
    pub kind: DimensionKind,
}

/// The data every dimension starts with, for the version `v`, in slots
/// at fixed places: 0 the format version (a byte, R2010 and later), 1 the
/// normal, 2 and 3 the text middle point (raw doubles), 4 the elevation,
/// 5 flags (a byte, R2000 and later), 6 the user text, 7 the text
/// rotation, 8 the horizontal direction, 9 the insertion scale (3BD), 10
/// the insertion rotation, 11 to 14 the attachment point, the line
/// spacing style (BitShorts), the line spacing factor (1.0 when not
/// stored) and the measurement (R2000 and later), 15 and 16 two bits
/// (R2007 and later), 17 and 18 the definition point (raw doubles).
pub open spec fn dimension_slots(v: DxfVersion) -> Seq<Slot> {
    let r2000 = version_at_least(v, DxfVersion::AC1015);
    seq![Slot { present: version_at_least(v, DxfVersion::AC1024), kind: FieldKind::RawChar, default: 0 },
        stored(FieldKind::Extrusion), stored(FieldKind::RawDouble), stored(FieldKind::RawDouble),
        stored(FieldKind::BitDouble),
        Slot { present: r2000, kind: FieldKind::RawChar, default: 0 },
        stored(FieldKind::Text), stored(FieldKind::BitDouble), stored(FieldKind::BitDouble),
        stored(FieldKind::Point3), stored(FieldKind::BitDouble),
        Slot { present: r2000, kind: FieldKind::BitShort, default: 5 },
        Slot { present: r2000, kind: FieldKind::BitShort, default: 0 },
        Slot { present: r2000, kind: FieldKind::BitDouble, default: one_bits() },
        Slot { present: r2000, kind: FieldKind::BitDouble, default: 0 },
        Slot { present: version_at_least(v, DxfVersion::AC1021), kind: FieldKind::Bit, default: 0 },
        Slot { present: version_at_least(v, DxfVersion::AC1021), kind: FieldKind::Bit, default: 0 },
        stored(FieldKind::RawDouble), stored(FieldKind::RawDouble)]
}

/// The fields proper to a dimension of the kind `t`.
pub open spec fn dimension_layout(t: DimensionType) -> Seq<FieldKind> {
    match t {
        DimensionType::Ordinate => seq![FieldKind::Point3, FieldKind::Point3, FieldKind::Point3, FieldKind::RawChar],
        DimensionType::Linear => seq![FieldKind::Point3, FieldKind::Point3, FieldKind::Point3, FieldKind::BitDouble,
            FieldKind::BitDouble],
        DimensionType::Aligned => seq![FieldKind::Point3, FieldKind::Point3, FieldKind::Point3,
            FieldKind::BitDouble],
        DimensionType::Angular3Point => seq![FieldKind::Point3, FieldKind::Point3, FieldKind::Point3,
            FieldKind::Point3],
        DimensionType::Angular2Line => seq![FieldKind::Point3, FieldKind::Point3, FieldKind::Point3,
            FieldKind::Point3, FieldKind::Point3],
        DimensionType::Radius => seq![FieldKind::Point3, FieldKind::Point3, FieldKind::BitDouble],
        DimensionType::Diameter => seq![FieldKind::Point3, FieldKind::Point3, FieldKind::BitDouble],
    }
}

/// What is proper to a dimension of the kind `t`, from its fields `fs`
/// (see [`dimension_layout`]); an ordinate dimension is of type X when
/// bit 0 of its byte is set.
pub open spec fn dimension_kind_of(t: DimensionType, fs: Seq<FieldModel>) -> DimensionKind {
    match t {
        DimensionType::Ordinate => DimensionKind::Ordinate {
            definition_point: field_point(fs[0]),
            feature_location: field_point(fs[1]),
            leader_endpoint: field_point(fs[2]),
            is_ordinate_type_x: field_byte(fs[3]) & 1u8 != 0u8,
        },
        DimensionType::Linear => DimensionKind::Linear {
            first_point: field_point(fs[0]),
            second_point: field_point(fs[1]),
            definition_point: field_point(fs[2]),
            rotation: field_double(fs[3]),
            ext_line_rotation: field_double(fs[4]),
        },
        DimensionType::Aligned => DimensionKind::Aligned {
            first_point: field_point(fs[0]),
            second_point: field_point(fs[1]),
            definition_point: field_point(fs[2]),
            ext_line_rotation: field_double(fs[3]),
        },
        DimensionType::Angular3Point => DimensionKind::Angular3Point {
            definition_point: field_point(fs[0]),
            first_point: field_point(fs[1]),
            second_point: field_point(fs[2]),
            angle_vertex: field_point(fs[3]),
        },
        DimensionType::Angular2Line => DimensionKind::Angular2Line {
            dimension_arc: field_point(fs[0]),
            first_point: field_point(fs[1]),
            second_point: field_point(fs[2]),
            angle_vertex: field_point(fs[3]),
            definition_point: field_point(fs[4]),
        },
        DimensionType::Radius => DimensionKind::Radius {
            definition_point: field_point(fs[0]),
            angle_vertex: field_point(fs[1]),
            leader_length: field_double(fs[2]),
        },
        DimensionType::Diameter => DimensionKind::Diameter {
            definition_point: field_point(fs[0]),
            angle_vertex: field_point(fs[1]),
            leader_length: field_double(fs[2]),
        },
    }
}

/// `d` is the dimension with the common properties `ec`, the common data
/// `cs` (see [`dimension_slots`]) and the fields `fs` of the kind `t`.
pub open spec fn dimension_holds(d: DimensionEntity, ec: EntityCommon, cs: Seq<FieldModel>, t: DimensionType,
    fs: Seq<FieldModel>) -> bool
{
    let z = field_double(cs[4]);
    &&& d.common == ec
    &&& d.version == field_byte(cs[0])
    &&& d.normal == field_point(cs[1])
    &&& d.text_middle_point == (field_double(cs[2]), field_double(cs[3]), z)
    &&& (if field_text(cs[6]).len() == 0 { d.user_text is None } else {
        d.user_text matches Some(u) && u@ == field_text(cs[6]) })
    &&& d.text_rotation == field_double(cs[7])
    &&& d.horizontal_direction == field_double(cs[8])
    &&& d.line_spacing_factor == field_double(cs[13])
    &&& d.definition_point == (field_double(cs[17]), field_double(cs[18]), z)
    &&& d.kind == dimension_kind_of(t, fs)
}

/// A dimension of the kind `t` read from the streams `m` of `data`
/// (version `v`, object data starting at bit `init`, current handle
/// `reference`): its common entity data (see [`spec_common_entity`]),
/// its common data (see [`dimension_slots`]), its fields (see
/// [`dimension_layout`]) and, from the handle stream, its style and its
/// block.
pub open spec fn spec_dimension(m: StreamsModel, data: Seq<u8>, v: DxfVersion, init: int, reference: u64,
    t: DimensionType)
    -> Result<((CommonModel, CadEntityTemplateData, EntityCommon, Seq<FieldModel>, Seq<FieldModel>, (u64, u64)),
        StreamsModel), DxfError>
{
    let len = data.len();
    match spec_common_entity(m, data, v, init) {
        Err(e) => Err(e),
        Ok(((cm, ent, ec), m1)) => match spec_slots(m1, len, v, reference, dimension_slots(v)) {
            Err(e) => Err(e),
            Ok((cs, m2)) => match spec_fields(m2, len, v, reference, dimension_layout(t)) {
                Err(e) => Err(e),
                Ok((fs, m3)) => match spec_next_ref(m3, len, 0) {
                    Err(e) => Err(e),
                    Ok((style, m4)) => match spec_next_ref(m4, len, 0) {
                        Err(e) => Err(e),
                        Ok((block, m5)) => Ok(((cm, ent, ec, cs, fs, (style, block)), m5)),
                    },
                },
            },
        },
    }
}

/// `r` is the dimension of the kind `t` read as `res` (see
/// [`spec_dimension`]), and the streams end as `res` says.
pub open spec fn dimension_read(r: Result<CadTemplate<XDataValue, DimensionEntity>, DxfError>,
    res: Result<((CommonModel, CadEntityTemplateData, EntityCommon, Seq<FieldModel>, Seq<FieldModel>, (u64, u64)),
        StreamsModel), DxfError>, t: DimensionType, s: StreamSet) -> bool
{
    match res {
        Err(e) => r matches Err(e2) && e2 == e,
        Ok(((cm, ent, ec, cs, fs, h), m)) => r matches Ok(CadTemplate::Dimension { common, entity_data, dim_data,
            entity })
            && common_model(common) == cm && entity_data == ent && dimension_holds(entity, ec, cs, t, fs)
            && dim_data.style_handle == h.0 && dim_data.block_handle == h.1 && model_of(s) == m,
    }
}

/// The slots of the common data of a dimension (see [`dimension_slots`]).
fn dimension_slot_list(v: DxfVersion) -> (r: Vec<Slot>)
    ensures
        r@ == dimension_slots(v),
{
    let r2000 = v.at_least(DxfVersion::AC1015);
    let r2007 = v.at_least(DxfVersion::AC1021);
    let r = vec![Slot { present: v.at_least(DxfVersion::AC1024), kind: FieldKind::RawChar, default: 0 },
        Slot { present: true, kind: FieldKind::Extrusion, default: 0 },
        Slot { present: true, kind: FieldKind::RawDouble, default: 0 },
        Slot { present: true, kind: FieldKind::RawDouble, default: 0 },
        Slot { present: true, kind: FieldKind::BitDouble, default: 0 },
        Slot { present: r2000, kind: FieldKind::RawChar, default: 0 },
        Slot { present: true, kind: FieldKind::Text, default: 0 },
        Slot { present: true, kind: FieldKind::BitDouble, default: 0 },
        Slot { present: true, kind: FieldKind::BitDouble, default: 0 },
        Slot { present: true, kind: FieldKind::Point3, default: 0 },
        Slot { present: true, kind: FieldKind::BitDouble, default: 0 },
        Slot { present: r2000, kind: FieldKind::BitShort, default: 5 },
        Slot { present: r2000, kind: FieldKind::BitShort, default: 0 },
        Slot { present: r2000, kind: FieldKind::BitDouble, default: 0x3FF0_0000_0000_0000 },
        Slot { present: r2000, kind: FieldKind::BitDouble, default: 0 },
        Slot { present: r2007, kind: FieldKind::Bit, default: 0 },
        Slot { present: r2007, kind: FieldKind::Bit, default: 0 },
        Slot { present: true, kind: FieldKind::RawDouble, default: 0 },
        Slot { present: true, kind: FieldKind::RawDouble, default: 0 }];
    proof { assert(r@ =~= dimension_slots(v)); }
    r
}

/// The fields proper to a dimension of the kind `t` (see
/// [`dimension_layout`]).
fn dimension_layout_list(t: DimensionType) -> (r: Vec<FieldKind>)
    ensures
        r@ == dimension_layout(t),
{
    let r = match t {
        DimensionType::Ordinate => vec![FieldKind::Point3, FieldKind::Point3, FieldKind::Point3, FieldKind::RawChar],
        DimensionType::Linear => vec![FieldKind::Point3, FieldKind::Point3, FieldKind::Point3, FieldKind::BitDouble,
            FieldKind::BitDouble],
        DimensionType::Aligned => vec![FieldKind::Point3, FieldKind::Point3, FieldKind::Point3,
            FieldKind::BitDouble],
        DimensionType::Angular3Point => vec![FieldKind::Point3, FieldKind::Point3, FieldKind::Point3,
            FieldKind::Point3],
        DimensionType::Angular2Line => vec![FieldKind::Point3, FieldKind::Point3, FieldKind::Point3,
            FieldKind::Point3, FieldKind::Point3],
        DimensionType::Radius => vec![FieldKind::Point3, FieldKind::Point3, FieldKind::BitDouble],
        DimensionType::Diameter => vec![FieldKind::Point3, FieldKind::Point3, FieldKind::BitDouble],
    };
    proof { assert(r@ =~= dimension_layout(t)); }
    r
}

/// What is proper to a dimension of the kind `t`, from its fields `fs`
/// (see [`dimension_kind_of`]).
fn dimension_kind_from(t: DimensionType, fs: &Vec<FieldValue>) -> (r: DimensionKind)
    requires
        fs@.len() == dimension_layout(t).len(),
    ensures
        r == dimension_kind_of(t, fields_model(fs@)),
{
    match t {
        DimensionType::Ordinate => DimensionKind::Ordinate {
            definition_point: field_point_of(&fs[0]),
            feature_location: field_point_of(&fs[1]),
            leader_endpoint: field_point_of(&fs[2]),
            is_ordinate_type_x: field_byte_of(&fs[3]) & 1 != 0,
        },
        DimensionType::Linear => DimensionKind::Linear {
            first_point: field_point_of(&fs[0]),
            second_point: field_point_of(&fs[1]),
            definition_point: field_point_of(&fs[2]),
            rotation: field_double_of(&fs[3]),
            ext_line_rotation: field_double_of(&fs[4]),
        },
        DimensionType::Aligned => DimensionKind::Aligned {
            first_point: field_point_of(&fs[0]),
            second_point: field_point_of(&fs[1]),
            definition_point: field_point_of(&fs[2]),
            ext_line_rotation: field_double_of(&fs[3]),
        },
        DimensionType::Angular3Point => DimensionKind::Angular3Point {
            definition_point: field_point_of(&fs[0]),
            first_point: field_point_of(&fs[1]),
            second_point: field_point_of(&fs[2]),
            angle_vertex: field_point_of(&fs[3]),
        },
        DimensionType::Angular2Line => DimensionKind::Angular2Line {
            dimension_arc: field_point_of(&fs[0]),
            first_point: field_point_of(&fs[1]),
            second_point: field_point_of(&fs[2]),
            angle_vertex: field_point_of(&fs[3]),
            definition_point: field_point_of(&fs[4]),
        },
        DimensionType::Radius => DimensionKind::Radius {
            definition_point: field_point_of(&fs[0]),
            angle_vertex: field_point_of(&fs[1]),
            leader_length: field_double_of(&fs[2]),
        },
        DimensionType::Diameter => DimensionKind::Diameter {
            definition_point: field_point_of(&fs[0]),
            angle_vertex: field_point_of(&fs[1]),
            leader_length: field_double_of(&fs[2]),
        },
    }
}

/// The dimension with the common properties `ec`, the common data `cs`
/// and the kind `kind` (see [`dimension_holds`]).
fn dimension_from(ec: EntityCommon, cs: &Vec<FieldValue>, kind: DimensionKind) -> (r: DimensionEntity)
    requires
        cs@.len() == 19,
    ensures
        r.common == ec,
        r.kind == kind,
        ({
            let c = fields_model(cs@);
            let z = field_double(c[4]);
            &&& r.version == field_byte(c[0])
            &&& r.normal == field_point(c[1])
            &&& r.text_middle_point == (field_double(c[2]), field_double(c[3]), z)
            &&& (if field_text(c[6]).len() == 0 { r.user_text is None } else {
                r.user_text matches Some(u) && u@ == field_text(c[6]) })
            &&& r.text_rotation == field_double(c[7])
            &&& r.horizontal_direction == field_double(c[8])
            &&& r.line_spacing_factor == field_double(c[13])
            &&& r.definition_point == (field_double(c[17]), field_double(c[18]), z)
        }),
{
    let z = field_double_of(&cs[4]);
    let text = field_text_of(&cs[6]);
    let user_text = if text.as_str().unicode_len() == 0 { None } else { Some(text) };
    DimensionEntity {
        common: ec,
        version: field_byte_of(&cs[0]),
        normal: field_point_of(&cs[1]),
        text_middle_point: (field_double_of(&cs[2]), field_double_of(&cs[3]), z),
        user_text,
        text_rotation: field_double_of(&cs[7]),
        horizontal_direction: field_double_of(&cs[8]),
        line_spacing_factor: field_double_of(&cs[13]),
        definition_point: (field_double_of(&cs[17]), field_double_of(&cs[18]), z),
        kind,
    }
}

impl DwgObjectReader {
    /// Read a dimension of the kind `t` (see [`spec_dimension`]).
    pub fn read_dimension(&mut self, streams: &mut StreamSet, t: DimensionType)
        -> (r: Result<CadTemplate<XDataValue, DimensionEntity>, DxfError>)
        requires
            old(self).inv(),
            streams_of(*old(streams), old(self).data(), old(self).spec_version()),
        ensures
            *final(self) == *old(self),
            streams_of(*final(streams), old(self).data(), old(self).spec_version()),
            final(streams).current_handle == old(streams).current_handle,
            dimension_read(r, spec_dimension(model_of(*old(streams)), old(self).data(), old(self).spec_version(),
                old(self).initial_pos(), old(streams).current_handle, t), t, *final(streams)),
    {
        let (common, entity_data, ec) = self.read_common_entity_data(streams)?;
        let ghost len = self.data().len();
        let ghost reference = streams.current_handle;
        let v = self.version();
        let slots = dimension_slot_list(v);
        proof { lemma_slots_len(model_of(*streams), len, v, reference, slots@); }
        let cs = read_slots(streams, &slots)?;
        let kinds = dimension_layout_list(t);
        proof { lemma_fields_len(model_of(*streams), len, v, reference, kinds@); }
        let fs = read_stream_fields(streams, &kinds)?;
        let style_handle = streams.handles_reader.handle_reference()?;
        let block_handle = streams.handles_reader.handle_reference()?;
        let entity = dimension_from(ec, &cs, dimension_kind_from(t, &fs));
        Ok(CadTemplate::Dimension {
            common,
            entity_data,
            dim_data: CadDimensionTemplateData { style_handle, block_handle },
            entity,
        })
    }

    /// Read an ordinate dimension (see [`spec_dimension`]).
    pub fn read_dim_ordinate(&mut self, streams: &mut StreamSet)
        -> (r: Result<CadTemplate<XDataValue, DimensionEntity>, DxfError>)
        requires
            old(self).inv(),
            streams_of(*old(streams), old(self).data(), old(self).spec_version()),
        ensures
            *final(self) == *old(self),
            streams_of(*final(streams), old(self).data(), old(self).spec_version()),
            final(streams).current_handle == old(streams).current_handle,
            dimension_read(r, spec_dimension(model_of(*old(streams)), old(self).data(), old(self).spec_version(),
                old(self).initial_pos(), old(streams).current_handle, DimensionType::Ordinate),
                DimensionType::Ordinate, *final(streams)),
    {
        self.read_dimension(streams, DimensionType::Ordinate)
    }

    /// Read a linear dimension (see [`spec_dimension`]).
    pub fn read_dim_linear(&mut self, streams: &mut StreamSet)
        -> (r: Result<CadTemplate<XDataValue, DimensionEntity>, DxfError>)
        requires
            old(self).inv(),
            streams_of(*old(streams), old(self).data(), old(self).spec_version()),
        ensures
            *final(self) == *old(self),
            streams_of(*final(streams), old(self).data(), old(self).spec_version()),
            final(streams).current_handle == old(streams).current_handle,
            dimension_read(r, spec_dimension(model_of(*old(streams)), old(self).data(), old(self).spec_version(),
                old(self).initial_pos(), old(streams).current_handle, DimensionType::Linear),
                DimensionType::Linear, *final(streams)),
    {
        self.read_dimension(streams, DimensionType::Linear)
    }

    /// Read an aligned dimension (see [`spec_dimension`]).
    pub fn read_dim_aligned(&mut self, streams: &mut StreamSet)
        -> (r: Result<CadTemplate<XDataValue, DimensionEntity>, DxfError>)
        requires
            old(self).inv(),
            streams_of(*old(streams), old(self).data(), old(self).spec_version()),
        ensures
            *final(self) == *old(self),
            streams_of(*final(streams), old(self).data(), old(self).spec_version()),
            final(streams).current_handle == old(streams).current_handle,
            dimension_read(r, spec_dimension(model_of(*old(streams)), old(self).data(), old(self).spec_version(),
                old(self).initial_pos(), old(streams).current_handle, DimensionType::Aligned),
                DimensionType::Aligned, *final(streams)),
    {
        self.read_dimension(streams, DimensionType::Aligned)
    }

    /// Read a three-point angular dimension (see [`spec_dimension`]).
    pub fn read_dim_angular_3pt(&mut self, streams: &mut StreamSet)
        -> (r: Result<CadTemplate<XDataValue, DimensionEntity>, DxfError>)
        requires
            old(self).inv(),
            streams_of(*old(streams), old(self).data(), old(self).spec_version()),
        ensures
            *final(self) == *old(self),
            streams_of(*final(streams), old(self).data(), old(self).spec_version()),
            final(streams).current_handle == old(streams).current_handle,
            dimension_read(r, spec_dimension(model_of(*old(streams)), old(self).data(), old(self).spec_version(),
                old(self).initial_pos(), old(streams).current_handle, DimensionType::Angular3Point),
                DimensionType::Angular3Point, *final(streams)),
    {
        self.read_dimension(streams, DimensionType::Angular3Point)
    }

    /// Read a two-line angular dimension (see [`spec_dimension`]).
    pub fn read_dim_angular_2ln(&mut self, streams: &mut StreamSet)
        -> (r: Result<CadTemplate<XDataValue, DimensionEntity>, DxfError>)
        requires
            old(self).inv(),
            streams_of(*old(streams), old(self).data(), old(self).spec_version()),
        ensures
            *final(self) == *old(self),
            streams_of(*final(streams), old(self).data(), old(self).spec_version()),
            final(streams).current_handle == old(streams).current_handle,
            dimension_read(r, spec_dimension(model_of(*old(streams)), old(self).data(), old(self).spec_version(),
                old(self).initial_pos(), old(streams).current_handle, DimensionType::Angular2Line),
                DimensionType::Angular2Line, *final(streams)),
    {
        self.read_dimension(streams, DimensionType::Angular2Line)
    }

    /// Read a radius dimension (see [`spec_dimension`]).
    pub fn read_dim_radius(&mut self, streams: &mut StreamSet)
        -> (r: Result<CadTemplate<XDataValue, DimensionEntity>, DxfError>)
        requires
            old(self).inv(),
            streams_of(*old(streams), old(self).data(), old(self).spec_version()),
        ensures
            *final(self) == *old(self),
            streams_of(*final(streams), old(self).data(), old(self).spec_version()),
            final(streams).current_handle == old(streams).current_handle,
            dimension_read(r, spec_dimension(model_of(*old(streams)), old(self).data(), old(self).spec_version(),
                old(self).initial_pos(), old(streams).current_handle, DimensionType::Radius),
                DimensionType::Radius, *final(streams)),
    {
        self.read_dimension(streams, DimensionType::Radius)
    }

    /// Read a diameter dimension (see [`spec_dimension`]).
    pub fn read_dim_diameter(&mut self, streams: &mut StreamSet)
        -> (r: Result<CadTemplate<XDataValue, DimensionEntity>, DxfError>)
        requires
            old(self).inv(),
            streams_of(*old(streams), old(self).data(), old(self).spec_version()),
        ensures
            *final(self) == *old(self),
            streams_of(*final(streams), old(self).data(), old(self).spec_version()),
            final(streams).current_handle == old(streams).current_handle,
            dimension_read(r, spec_dimension(model_of(*old(streams)), old(self).data(), old(self).spec_version(),
                old(self).initial_pos(), old(streams).current_handle, DimensionType::Diameter),
                DimensionType::Diameter, *final(streams)),
    {
        self.read_dimension(streams, DimensionType::Diameter)
    }
}


/// What [`DwgObjectReader::read_dim_aligned`] gives and leaves: its result `r` and
/// its streams, from `st0` to `st1`, for the reader `before`.
pub open spec fn read_dim_aligned_outcome(before: DwgObjectReader, st0: StreamSet, st1: StreamSet,
    r: Result<CadTemplate<XDataValue, DimensionEntity>, DxfError>) -> bool {
    &&& streams_of(st1, before.data(), before.spec_version())
    &&& st1.current_handle == st0.current_handle
    &&& dimension_read(r, spec_dimension(model_of(st0), before.data(), before.spec_version(),
            before.initial_pos(), st0.current_handle, DimensionType::Aligned),
            DimensionType::Aligned, st1)
}

/// What [`DwgObjectReader::read_dim_angular_2ln`] gives and leaves: its result `r` and
/// its streams, from `st0` to `st1`, for the reader `before`.
pub open spec fn read_dim_angular_2ln_outcome(before: DwgObjectReader, st0: StreamSet, st1: StreamSet,
    r: Result<CadTemplate<XDataValue, DimensionEntity>, DxfError>) -> bool {
    &&& streams_of(st1, before.data(), before.spec_version())
    &&& st1.current_handle == st0.current_handle
    &&& dimension_read(r, spec_dimension(model_of(st0), before.data(), before.spec_version(),
            before.initial_pos(), st0.current_handle, DimensionType::Angular2Line),
            DimensionType::Angular2Line, st1)
}

/// What [`DwgObjectReader::read_dim_angular_3pt`] gives and leaves: its result `r` and
/// its streams, from `st0` to `st1`, for the reader `before`.
pub open spec fn read_dim_angular_3pt_outcome(before: DwgObjectReader, st0: StreamSet, st1: StreamSet,
    r: Result<CadTemplate<XDataValue, DimensionEntity>, DxfError>) -> bool {
    &&& streams_of(st1, before.data(), before.spec_version())
    &&& st1.current_handle == st0.current_handle
    &&& dimension_read(r, spec_dimension(model_of(st0), before.data(), before.spec_version(),
            before.initial_pos(), st0.current_handle, DimensionType::Angular3Point),
            DimensionType::Angular3Point, st1)
}

/// What [`DwgObjectReader::read_dim_diameter`] gives and leaves: its result `r` and
/// its streams, from `st0` to `st1`, for the reader `before`.
pub open spec fn read_dim_diameter_outcome(before: DwgObjectReader, st0: StreamSet, st1: StreamSet,
    r: Result<CadTemplate<XDataValue, DimensionEntity>, DxfError>) -> bool {
    &&& streams_of(st1, before.data(), before.spec_version())
    &&& st1.current_handle == st0.current_handle
    &&& dimension_read(r, spec_dimension(model_of(st0), before.data(), before.spec_version(),
            before.initial_pos(), st0.current_handle, DimensionType::Diameter),
            DimensionType::Diameter, st1)
}

/// What [`DwgObjectReader::read_dim_linear`] gives and leaves: its result `r` and
/// its streams, from `st0` to `st1`, for the reader `before`.
pub open spec fn read_dim_linear_outcome(before: DwgObjectReader, st0: StreamSet, st1: StreamSet,
    r: Result<CadTemplate<XDataValue, DimensionEntity>, DxfError>) -> bool {
    &&& streams_of(st1, before.data(), before.spec_version())
    &&& st1.current_handle == st0.current_handle
    &&& dimension_read(r, spec_dimension(model_of(st0), before.data(), before.spec_version(),
            before.initial_pos(), st0.current_handle, DimensionType::Linear),
            DimensionType::Linear, st1)
}

/// What [`DwgObjectReader::read_dim_ordinate`] gives and leaves: its result `r` and
/// its streams, from `st0` to `st1`, for the reader `before`.
pub open spec fn read_dim_ordinate_outcome(before: DwgObjectReader, st0: StreamSet, st1: StreamSet,
    r: Result<CadTemplate<XDataValue, DimensionEntity>, DxfError>) -> bool {
    &&& streams_of(st1, before.data(), before.spec_version())
    &&& st1.current_handle == st0.current_handle
    &&& dimension_read(r, spec_dimension(model_of(st0), before.data(), before.spec_version(),
            before.initial_pos(), st0.current_handle, DimensionType::Ordinate),
            DimensionType::Ordinate, st1)
}

/// What [`DwgObjectReader::read_dim_radius`] gives and leaves: its result `r` and
/// its streams, from `st0` to `st1`, for the reader `before`.
pub open spec fn read_dim_radius_outcome(before: DwgObjectReader, st0: StreamSet, st1: StreamSet,
    r: Result<CadTemplate<XDataValue, DimensionEntity>, DxfError>) -> bool {
    &&& streams_of(st1, before.data(), before.spec_version())
    &&& st1.current_handle == st0.current_handle
    &&& dimension_read(r, spec_dimension(model_of(st0), before.data(), before.spec_version(),
            before.initial_pos(), st0.current_handle, DimensionType::Radius),
            DimensionType::Radius, st1)
}

} // verus!
