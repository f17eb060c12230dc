//! Readers of the plain geometric entities (lines, arcs, circles, points,
//! ellipses, rays, construction lines, solids, 3D faces and shapes), of
//! the block markers and of the polyline vertices.  Their values are kept
//! as stored: doubles as their IEEE-754 bit patterns, points as three of
//! them.

use vstd::prelude::*;
use crate::bit_model::{spec_read_bit, spec_read_raw_double, spec_read_bit_double_with_default};
use crate::error::DxfError;
use crate::header_reader::{field_short, field_short_of};
use crate::object_common::XDataValue;
use crate::object_reader::{DwgObjectReader, StreamsModel, FieldKind, FieldModel, FieldValue, EntityCommon,
    CommonModel, UnknownEntity, spec_fields, spec_common_entity, spec_next_ref, streams_of, model_of, common_model,
    fields_model, on_object, read_stream_fields, lemma_fields_len};
use crate::object_records::version_at_least;
use crate::table_entries::{field_double, field_text, field_double_of, field_text_of};
use crate::text_entities::{field_point, field_point_of};
use crate::stream_set::StreamSet;
use crate::stream_values::spec_3bit_double_with_default;
use crate::templates::{CadTemplate, CadTemplateCommon, CadEntityTemplateData, CadShapeTemplateData};
use crate::version::DxfVersion;

verus! {

/// A line: its common properties, end points, thickness and normal.
#[derive(Debug, Clone, Copy)]
pub struct LineEntity {
    pub common: EntityCommon,
    pub start: (u64, u64, u64),
    pub end: (u64, u64, u64),
    pub thickness: u64,
    pub normal: (u64, u64, u64),
}

/// A circle: its common properties, center, radius, thickness and normal.
#[derive(Debug, Clone, Copy)]
pub struct CircleEntity {
    pub common: EntityCommon,
    pub center: (u64, u64, u64),
    pub radius: u64,
    pub thickness: u64,
    pub normal: (u64, u64, u64),
}

/// An arc: a circle with its start and end angles.
#[derive(Debug, Clone, Copy)]
pub struct ArcEntity {
    pub common: EntityCommon,
    pub center: (u64, u64, u64),
    pub radius: u64,
    pub thickness: u64,
    pub normal: (u64, u64, u64),
    pub start_angle: u64,
    pub end_angle: u64,
}

/// A point: its common properties, location, thickness and normal.
#[derive(Debug, Clone, Copy)]
pub struct PointEntity {
    pub common: EntityCommon,
    pub location: (u64, u64, u64),
    pub thickness: u64,
    pub normal: (u64, u64, u64),
}

/// An ellipse: its common properties, center, major axis, normal, ratio
/// of the minor to the major axis and start and end parameters.
#[derive(Debug, Clone, Copy)]
pub struct EllipseEntity {
    pub common: EntityCommon,
    pub center: (u64, u64, u64),
    pub major_axis: (u64, u64, u64),
    pub normal: (u64, u64, u64),
    pub minor_axis_ratio: u64,
    pub start_parameter: u64,
    pub end_parameter: u64,
}

/// A ray or a construction line: its common properties, base point and
/// direction.
#[derive(Debug, Clone, Copy)]
pub struct RayEntity {
    pub common: EntityCommon,
    pub base_point: (u64, u64, u64),
    pub direction: (u64, u64, u64),
}

/// A solid (or trace): its common properties, four corners (with the
/// elevation as their Z), normal and thickness.
#[derive(Debug, Clone, Copy)]
pub struct SolidEntity {
    pub common: EntityCommon,
    pub first_corner: (u64, u64, u64),
    pub second_corner: (u64, u64, u64),
    pub third_corner: (u64, u64, u64),
    pub fourth_corner: (u64, u64, u64),
    pub normal: (u64, u64, u64),
    pub thickness: u64,
}

/// A 3D face: its common properties, four corners and the flags of its
/// invisible edges.
#[derive(Debug, Clone, Copy)]
pub struct Face3DEntity {
    pub common: EntityCommon,
    pub first_corner: (u64, u64, u64),
    pub second_corner: (u64, u64, u64),
    pub third_corner: (u64, u64, u64),
    pub fourth_corner: (u64, u64, u64),
    pub invisible_edges: u8,
}

/// A shape: its common properties, insertion point, size, rotation,
/// relative X scale, oblique angle, thickness, normal and shape number.
#[derive(Debug, Clone, Copy)]
pub struct ShapeEntity {
    pub common: EntityCommon,
    pub insertion_point: (u64, u64, u64),
    pub size: u64,
    pub rotation: u64,
    pub relative_x_scale: u64,
    pub oblique_angle: u64,
    pub thickness: u64,
    pub normal: (u64, u64, u64),
    pub shape_number: i32,
}

/// The start of a block definition: its common properties and name.
pub struct BlockEntity {
    pub common: EntityCommon,
    pub name: String,
}

/// An entity made of its common properties alone: the end of a block
/// definition or of a sequence.
#[derive(Debug, Clone, Copy)]
pub struct MarkerEntity {
    pub common: EntityCommon,
}

/// The common entity data read from the streams `m` of `data` (version
/// `v`, object data starting at bit `init`; see [`spec_common_entity`]),
/// then the fields of the layout `ks` (current handle `reference`).
pub open spec fn spec_entity_fields(m: StreamsModel, data: Seq<u8>, v: DxfVersion, init: int, reference: u64,
    ks: Seq<FieldKind>)
    -> Result<((CommonModel, CadEntityTemplateData, EntityCommon, Seq<FieldModel>), StreamsModel), DxfError>
{
    match spec_common_entity(m, data, v, init) {
        Err(e) => Err(e),
        Ok(((cm, ent, ec), m1)) => match spec_fields(m1, data.len(), v, reference, ks) {
            Err(e) => Err(e),
            Ok((fs, m2)) => Ok(((cm, ent, ec, fs), m2)),
        },
    }
}

/// `r` is the entity read as `res` (see [`spec_entity_fields`]), built
/// from its common properties and fields by `build`, and the streams end
/// as `res` says.
pub open spec fn entity_fields_read<E>(r: Result<CadTemplate<XDataValue, E>, DxfError>,
    res: Result<((CommonModel, CadEntityTemplateData, EntityCommon, Seq<FieldModel>), StreamsModel), DxfError>,
    build: spec_fn(EntityCommon, Seq<FieldModel>) -> E, s: StreamSet) -> bool
{
    match res {
        Err(e) => r matches Err(e2) && e2 == e,
        Ok(((cm, ent, ec, fs), m)) => r matches Ok(CadTemplate::Entity { common, entity_data, entity })
            && common_model(common) == cm && entity_data == ent && entity == build(ec, fs) && model_of(s) == m,
    }
}

/// `r` is the entity read as `res` (see [`spec_entity_fields`]), kept as
/// an unknown entity named `name`, and the streams end as `res` says.
pub open spec fn unknown_fields_read(r: Result<CadTemplate<XDataValue, UnknownEntity>, DxfError>,
    res: Result<((CommonModel, CadEntityTemplateData, EntityCommon, Seq<FieldModel>), StreamsModel), DxfError>,
    name: Seq<char>, s: StreamSet) -> bool
{
    match res {
        Err(e) => r matches Err(e2) && e2 == e,
        Ok(((cm, ent, ec, fs), m)) => r matches Ok(CadTemplate::Entity { common, entity_data, entity })
            && common_model(common) == cm && entity_data == ent && entity.common == ec && entity.dxf_name@ == name
            && model_of(s) == m,
    }
}

/// The fields of a circle: center, radius, thickness and normal.
pub open spec fn circle_layout() -> Seq<FieldKind> {
    seq![FieldKind::Point3, FieldKind::BitDouble, FieldKind::Thickness, FieldKind::Extrusion]
}

/// The circle with the common properties `ec` and the fields `fs`.
pub open spec fn circle_of(ec: EntityCommon, fs: Seq<FieldModel>) -> CircleEntity {
    CircleEntity {
        common: ec,
        center: field_point(fs[0]),
        radius: field_double(fs[1]),
        thickness: field_double(fs[2]),
        normal: field_point(fs[3]),
    }
}

/// The fields of an arc: those of a circle, then the start and end angles.
pub open spec fn arc_layout() -> Seq<FieldKind> {
    circle_layout() + seq![FieldKind::BitDouble, FieldKind::BitDouble]
}

/// The arc with the common properties `ec` and the fields `fs`.
pub open spec fn arc_of(ec: EntityCommon, fs: Seq<FieldModel>) -> ArcEntity {
    ArcEntity {
        common: ec,
        center: field_point(fs[0]),
        radius: field_double(fs[1]),
        thickness: field_double(fs[2]),
        normal: field_point(fs[3]),
        start_angle: field_double(fs[4]),
        end_angle: field_double(fs[5]),
    }
}

/// The fields of a point: location, thickness, normal and the angle of
/// its X axis (not kept).
pub open spec fn point_layout() -> Seq<FieldKind> {
    seq![FieldKind::Point3, FieldKind::Thickness, FieldKind::Extrusion, FieldKind::BitDouble]
}

/// The point with the common properties `ec` and the fields `fs`.
pub open spec fn point_of(ec: EntityCommon, fs: Seq<FieldModel>) -> PointEntity {
    PointEntity { common: ec, location: field_point(fs[0]), thickness: field_double(fs[1]), normal: field_point(fs[2]) }
}

/// The fields of an ellipse: center, major axis, normal (three 3BD), the
/// axis ratio and the start and end parameters.
pub open spec fn ellipse_layout() -> Seq<FieldKind> {
    seq![FieldKind::Point3, FieldKind::Point3, FieldKind::Point3, FieldKind::BitDouble, FieldKind::BitDouble,
        FieldKind::BitDouble]
}

/// The ellipse with the common properties `ec` and the fields `fs`.
pub open spec fn ellipse_of(ec: EntityCommon, fs: Seq<FieldModel>) -> EllipseEntity {
    EllipseEntity {
        common: ec,
        center: field_point(fs[0]),
        major_axis: field_point(fs[1]),
        normal: field_point(fs[2]),
        minor_axis_ratio: field_double(fs[3]),
        start_parameter: field_double(fs[4]),
        end_parameter: field_double(fs[5]),
    }
}

/// The fields of a ray or construction line: base point and direction.
pub open spec fn ray_layout() -> Seq<FieldKind> {
    seq![FieldKind::Point3, FieldKind::Point3]
}

/// The ray with the common properties `ec` and the fields `fs`.
pub open spec fn ray_of(ec: EntityCommon, fs: Seq<FieldModel>) -> RayEntity {
    RayEntity { common: ec, base_point: field_point(fs[0]), direction: field_point(fs[1]) }
}

/// The fields of a solid: thickness, elevation, four corners (two raw
/// doubles each) and normal.
pub open spec fn solid_layout() -> Seq<FieldKind> {
    seq![FieldKind::Thickness, FieldKind::BitDouble, FieldKind::RawDouble, FieldKind::RawDouble,
        FieldKind::RawDouble, FieldKind::RawDouble, FieldKind::RawDouble, FieldKind::RawDouble,
        FieldKind::RawDouble, FieldKind::RawDouble, FieldKind::Extrusion]
}

/// The solid with the common properties `ec` and the fields `fs`: each
/// corner takes the elevation as its Z.
pub open spec fn solid_of(ec: EntityCommon, fs: Seq<FieldModel>) -> SolidEntity {
    let z = field_double(fs[1]);
    SolidEntity {
        common: ec,
        first_corner: (field_double(fs[2]), field_double(fs[3]), z),
        second_corner: (field_double(fs[4]), field_double(fs[5]), z),
        third_corner: (field_double(fs[6]), field_double(fs[7]), z),
        fourth_corner: (field_double(fs[8]), field_double(fs[9]), z),
        normal: field_point(fs[10]),
        thickness: field_double(fs[0]),
    }
}

/// The fields of a shape: insertion point, size, rotation, relative X
/// scale, oblique angle, thickness, normal and shape number.
pub open spec fn shape_layout() -> Seq<FieldKind> {
    seq![FieldKind::Point3, FieldKind::BitDouble, FieldKind::BitDouble, FieldKind::BitDouble,
        FieldKind::BitDouble, FieldKind::Thickness, FieldKind::Extrusion, FieldKind::BitShort]
}

/// The shape with the common properties `ec` and the fields `fs`.
pub open spec fn shape_of(ec: EntityCommon, fs: Seq<FieldModel>) -> ShapeEntity {
    ShapeEntity {
        common: ec,
        insertion_point: field_point(fs[0]),
        size: field_double(fs[1]),
        rotation: field_double(fs[2]),
        relative_x_scale: field_double(fs[3]),
        oblique_angle: field_double(fs[4]),
        thickness: field_double(fs[5]),
        normal: field_point(fs[6]),
        shape_number: field_short(fs[7]) as i32,
    }
}

/// The entity made of the common properties `ec` alone.
pub open spec fn marker_of(ec: EntityCommon, fs: Seq<FieldModel>) -> MarkerEntity {
    MarkerEntity { common: ec }
}

/// The fields of a 3D polyline vertex: its flags and location (not kept).
pub open spec fn vertex_3d_layout() -> Seq<FieldKind> {
    seq![FieldKind::RawChar, FieldKind::Point3]
}

/// The fields of a face of a polyface mesh: four vertex indices (not
/// kept).
pub open spec fn pface_face_layout() -> Seq<FieldKind> {
    seq![FieldKind::BitShort, FieldKind::BitShort, FieldKind::BitShort, FieldKind::BitShort]
}

/// A raw double read from the object data of `m` (data of `len` bytes).
pub open spec fn spec_rd(m: StreamsModel, len: nat) -> Result<(u64, StreamsModel), DxfError> {
    match spec_read_raw_double(m.object) {
        None => Err(DxfError::UnexpectedEof),
        Some((x, c)) => Ok((x, on_object(m, len, c))),
    }
}

/// A BitDouble with the default `def` read from the object data of `m`.
pub open spec fn spec_dd(m: StreamsModel, len: nat, def: u64) -> Result<(u64, StreamsModel), DxfError> {
    match spec_read_bit_double_with_default(m.object, def) {
        None => Err(DxfError::UnexpectedEof),
        Some((x, c)) => Ok((x, on_object(m, len, c))),
    }
}

/// Three BitDoubles with the defaults `def` read from the object data of
/// `m`.
pub open spec fn spec_3dd(m: StreamsModel, len: nat, def: (u64, u64, u64))
    -> Result<((u64, u64, u64), StreamsModel), DxfError>
{
    match spec_3bit_double_with_default(m.object, def) {
        None => Err(DxfError::UnexpectedEof),
        Some((p, c)) => Ok((p, on_object(m, len, c))),
    }
}

/// The end points of a line stored from R2000 on, read from `m`: a bit
/// telling whether both Z are zero, the start X as a raw double and the
/// end X with it as default, the same for Y and, unless the bit is set,
/// for Z.
#[verifier::opaque]
pub open spec fn spec_line_points(m: StreamsModel, len: nat)
    -> Result<(((u64, u64, u64), (u64, u64, u64)), StreamsModel), DxfError>
{
    let (z_zero, c) = spec_read_bit(m.object);
    let m1 = on_object(m, len, c);
    match spec_rd(m1, len) {
        Err(e) => Err(e),
        Ok((x1, m2)) => match spec_dd(m2, len, x1) {
            Err(e) => Err(e),
            Ok((x2, m3)) => match spec_rd(m3, len) {
                Err(e) => Err(e),
                Ok((y1, m4)) => match spec_dd(m4, len, y1) {
                    Err(e) => Err(e),
                    Ok((y2, m5)) => if z_zero {
                        Ok((((x1, y1, 0u64), (x2, y2, 0u64)), m5))
                    } else {
                        match spec_rd(m5, len) {
                            Err(e) => Err(e),
                            Ok((z1, m6)) => match spec_dd(m6, len, z1) {
                                Err(e) => Err(e),
                                Ok((z2, m7)) => Ok((((x1, y1, z1), (x2, y2, z2)), m7)),
                            },
                        }
                    },
                },
            },
        },
    }
}

/// The object data of a line read from `m` (version `v`): before R2000
/// two 3BD end points, then the thickness and the normal; from R2000 on
/// the end points of [`spec_line_points`], then the thickness and the
/// normal.  Gives the line with the common properties `ec`.
pub open spec fn spec_line_body(m: StreamsModel, len: nat, v: DxfVersion, reference: u64, ec: EntityCommon)
    -> Result<(LineEntity, StreamsModel), DxfError>
{
    if version_at_least(v, DxfVersion::AC1015) {
        match spec_line_points(m, len) {
            Err(e) => Err(e),
            Ok(((p1, p2), m1)) => match spec_fields(m1, len, v, reference,
                seq![FieldKind::Thickness, FieldKind::Extrusion]) {
                Err(e) => Err(e),
                Ok((fs, m2)) => Ok((LineEntity { common: ec, start: p1, end: p2, thickness: field_double(fs[0]),
                    normal: field_point(fs[1]) }, m2)),
            },
        }
    } else {
        match spec_fields(m, len, v, reference,
            seq![FieldKind::Point3, FieldKind::Point3, FieldKind::Thickness, FieldKind::Extrusion]) {
            Err(e) => Err(e),
            Ok((fs, m1)) => Ok((LineEntity { common: ec, start: field_point(fs[0]), end: field_point(fs[1]),
                thickness: field_double(fs[2]), normal: field_point(fs[3]) }, m1)),
        }
    }
}

/// The start of a 3D face stored from R2000 on, read from `m`: a bit
/// telling that no edge flags are stored, a bit telling that the first Z
/// is zero, then the first corner as raw doubles (its Z 0.0 when that bit
/// is set).  Gives the first bit and the first corner.
#[verifier::opaque]
pub open spec fn spec_face_first(m: StreamsModel, len: nat)
    -> Result<((bool, (u64, u64, u64)), StreamsModel), DxfError>
{
    let (no_flags, c1) = spec_read_bit(m.object);
    let m0 = on_object(m, len, c1);
    let (z_zero, c2) = spec_read_bit(m0.object);
    let m1 = on_object(m0, len, c2);
    match spec_rd(m1, len) {
        Err(e) => Err(e),
        Ok((x1, m2)) => match spec_rd(m2, len) {
            Err(e) => Err(e),
            Ok((y1, m3)) => if z_zero {
                Ok(((no_flags, (x1, y1, 0u64)), m3))
            } else {
                match spec_rd(m3, len) {
                    Err(e) => Err(e),
                    Ok((z1, m4)) => Ok(((no_flags, (x1, y1, z1)), m4)),
                }
            },
        },
    }
}

/// The corners and edge flags of a 3D face stored from R2000 on, read
/// from `m`: the start of [`spec_face_first`], each next corner as three
/// BitDoubles with the previous corner as defaults, then, unless no edge
/// flags are stored, the flags as a BitShort taken as a byte (else 0).
#[verifier::opaque]
pub open spec fn spec_face_r2000(m: StreamsModel, len: nat, v: DxfVersion, reference: u64)
    -> Result<(((u64, u64, u64), (u64, u64, u64), (u64, u64, u64), (u64, u64, u64), u8), StreamsModel), DxfError>
{
    match spec_face_first(m, len) {
        Err(e) => Err(e),
        Ok(((no_flags, p1), m4)) => match spec_3dd(m4, len, p1) {
            Err(e) => Err(e),
            Ok((p2, m5)) => match spec_3dd(m5, len, p2) {
                Err(e) => Err(e),
                Ok((p3, m6)) => match spec_3dd(m6, len, p3) {
                    Err(e) => Err(e),
                    Ok((p4, m7)) => if no_flags {
                        Ok(((p1, p2, p3, p4, 0u8), m7))
                    } else {
                        match spec_fields(m7, len, v, reference, seq![FieldKind::BitShort]) {
                            Err(e) => Err(e),
                            Ok((fs, m8)) => Ok(((p1, p2, p3, p4, field_short(fs[0]) as u8), m8)),
                        }
                    },
                },
            },
        },
    }
}

/// The object data of a 3D face read from `m` (version `v`): from R2000
/// on see [`spec_face_r2000`]; before, four 3BD corners and the flags as
/// a BitShort taken as a byte.  Gives the face with the common
/// properties `ec`.
pub open spec fn spec_face_body(m: StreamsModel, len: nat, v: DxfVersion, reference: u64, ec: EntityCommon)
    -> Result<(Face3DEntity, StreamsModel), DxfError>
{
    if version_at_least(v, DxfVersion::AC1015) {
        match spec_face_r2000(m, len, v, reference) {
            Err(e) => Err(e),
            Ok(((p1, p2, p3, p4, f), m1)) => Ok((Face3DEntity { common: ec, first_corner: p1, second_corner: p2,
                third_corner: p3, fourth_corner: p4, invisible_edges: f }, m1)),
        }
    } else {
        match spec_fields(m, len, v, reference,
            seq![FieldKind::Point3, FieldKind::Point3, FieldKind::Point3, FieldKind::Point3, FieldKind::BitShort]) {
            Err(e) => Err(e),
            Ok((fs, m1)) => Ok((Face3DEntity { common: ec, first_corner: field_point(fs[0]),
                second_corner: field_point(fs[1]), third_corner: field_point(fs[2]), fourth_corner: field_point(fs[3]),
                invisible_edges: field_short(fs[4]) as u8 }, m1)),
        }
    }
}

/// Whether the double with the bits `d` is below 0.0: its sign is set
/// and it is neither a zero nor a NaN.
pub open spec fn is_negative_double(d: u64) -> bool {
    &&& d >= 0x8000_0000_0000_0000u64
    &&& d != 0x8000_0000_0000_0000u64
    &&& !((d & 0x7FF0_0000_0000_0000u64) == 0x7FF0_0000_0000_0000u64 && (d & 0x000F_FFFF_FFFF_FFFFu64) != 0)
}

/// The object data of a 2D polyline vertex read from `m` (version `v`):
/// its flags, location and start width; the end width unless the start
/// width is negative; the bulge; from R2010 on its id; the curve tangent.
/// Nothing of it is kept.
pub open spec fn spec_vertex_2d_body(m: StreamsModel, len: nat, v: DxfVersion, reference: u64)
    -> Result<StreamsModel, DxfError>
{
    match spec_fields(m, len, v, reference, seq![FieldKind::RawChar, FieldKind::Point3, FieldKind::BitDouble]) {
        Err(e) => Err(e),
        Ok((fs, m1)) => {
            let rest = (if is_negative_double(field_double(fs[2])) { Seq::empty() } else { seq![FieldKind::BitDouble] })
                + seq![FieldKind::BitDouble]
                + (if version_at_least(v, DxfVersion::AC1024) { seq![FieldKind::BitLong] } else { Seq::empty() })
                + seq![FieldKind::BitDouble];
            match spec_fields(m1, len, v, reference, rest) {
                Err(e) => Err(e),
                Ok((_, m2)) => Ok(m2),
            }
        },
    }
}

/// Whether a double with the bits `d` is below 0.0 (see
/// [`is_negative_double`]).
fn negative_double(d: u64) -> (r: bool)
    ensures
        r == is_negative_double(d),
{
    d >= 0x8000_0000_0000_0000 && d != 0x8000_0000_0000_0000
        && !((d & 0x7FF0_0000_0000_0000) == 0x7FF0_0000_0000_0000 && (d & 0x000F_FFFF_FFFF_FFFF) != 0)
}

/// Read the end points of a line stored from R2000 on (see
/// [`spec_line_points`]).
fn read_line_points(streams: &mut StreamSet) -> (r: Result<((u64, u64, u64), (u64, u64, u64)), DxfError>)
    requires
        streams_of(*old(streams), old(streams).object_reader.data(), old(streams).object_reader.spec_version()),
    ensures
        streams_of(*final(streams), old(streams).object_reader.data(), old(streams).object_reader.spec_version()),
        final(streams).current_handle == old(streams).current_handle,
        match spec_line_points(model_of(*old(streams)), old(streams).object_reader.data().len()) {
            Err(e) => r matches Err(e2) && e2 == e,
            Ok((p, m)) => r == Ok::<((u64, u64, u64), (u64, u64, u64)), DxfError>(p) && model_of(*final(streams)) == m,
        },
{
    proof { reveal(spec_line_points); }
    let z_zero = streams.object_reader.read_bit()?;
    let x1 = streams.object_reader.read_raw_double()?;
    let x2 = streams.object_reader.read_bit_double_with_default(x1)?;
    let y1 = streams.object_reader.read_raw_double()?;
    let y2 = streams.object_reader.read_bit_double_with_default(y1)?;
    if z_zero {
        Ok(((x1, y1, 0), (x2, y2, 0)))
    } else {
        let z1 = streams.object_reader.read_raw_double()?;
        let z2 = streams.object_reader.read_bit_double_with_default(z1)?;
        Ok(((x1, y1, z1), (x2, y2, z2)))
    }
}

/// Read the start of a 3D face stored from R2000 on (see
/// [`spec_face_first`]).
fn read_face_first(streams: &mut StreamSet) -> (r: Result<(bool, (u64, u64, u64)), DxfError>)
    requires
        streams_of(*old(streams), old(streams).object_reader.data(), old(streams).object_reader.spec_version()),
    ensures
        streams_of(*final(streams), old(streams).object_reader.data(), old(streams).object_reader.spec_version()),
        final(streams).current_handle == old(streams).current_handle,
        match spec_face_first(model_of(*old(streams)), old(streams).object_reader.data().len()) {
            Err(e) => r matches Err(e2) && e2 == e,
            Ok((x, m)) => r matches Ok(y) && y == x && model_of(*final(streams)) == m,
        },
{
    proof { reveal(spec_face_first); }
    let no_flags = streams.object_reader.read_bit()?;
    let z_zero = streams.object_reader.read_bit()?;
    let x1 = streams.object_reader.read_raw_double()?;
    let y1 = streams.object_reader.read_raw_double()?;
    let z1 = if z_zero { 0 } else { streams.object_reader.read_raw_double()? };
    Ok((no_flags, (x1, y1, z1)))
}

/// Read the corners and edge flags of a 3D face stored from R2000 on (see
/// [`spec_face_r2000`]).
fn read_face_r2000(streams: &mut StreamSet)
    -> (r: Result<((u64, u64, u64), (u64, u64, u64), (u64, u64, u64), (u64, u64, u64), u8), DxfError>)
    requires
        streams_of(*old(streams), old(streams).object_reader.data(), old(streams).object_reader.spec_version()),
    ensures
        streams_of(*final(streams), old(streams).object_reader.data(), old(streams).object_reader.spec_version()),
        final(streams).current_handle == old(streams).current_handle,
        match spec_face_r2000(model_of(*old(streams)), old(streams).object_reader.data().len(),
            old(streams).object_reader.spec_version(), old(streams).current_handle) {
            Err(e) => r matches Err(e2) && e2 == e,
            Ok((x, m)) => r matches Ok(y) && y == x && model_of(*final(streams)) == m,
        },
{
    proof { reveal(spec_face_r2000); }
    let ghost len = streams.object_reader.data().len();
    let (no_flags, p1) = read_face_first(streams)?;
    let p2 = streams.object_reader.read_3bit_double_with_default(p1)?;
    let p3 = streams.object_reader.read_3bit_double_with_default(p2)?;
    let p4 = streams.object_reader.read_3bit_double_with_default(p3)?;
    let flags: u8 = if no_flags {
        0
    } else {
        let kinds = vec![FieldKind::BitShort];
        proof {
            assert(kinds@ =~= seq![FieldKind::BitShort]);
            lemma_fields_len(model_of(*streams), len, streams.object_reader.spec_version(), streams.current_handle,
                kinds@);
        }
        let fs = read_stream_fields(streams, &kinds)?;
        field_short_of(&fs[0]) as u8
    };
    Ok((p1, p2, p3, p4, flags))
}

impl DwgObjectReader {
    /// Read the common data of an entity, then the fields of the layout
    /// `kinds` (see [`spec_entity_fields`]).
    fn read_entity_fields(&mut self, streams: &mut StreamSet, kinds: &Vec<FieldKind>)
        -> (r: Result<(CadTemplateCommon<XDataValue>, CadEntityTemplateData, EntityCommon, Vec<FieldValue>), DxfError>)
        requires
            old(self).inv(),
            streams_of(*old(streams), old(self).data(), old(self).spec_version()),
        ensures
            *final(self) == *old(self),
            streams_of(*final(streams), old(self).data(), old(self).spec_version()),
            final(streams).current_handle == old(streams).current_handle,
            match spec_entity_fields(model_of(*old(streams)), old(self).data(), old(self).spec_version(),
                old(self).initial_pos(), old(streams).current_handle, kinds@) {
                Err(e) => r matches Err(e2) && e2 == e,
                Ok(((cm, ent, ec, fs), m)) => r matches Ok((c, d, e, vs)) && common_model(c) == cm && d == ent
                    && e == ec && fields_model(vs@) == fs && vs@.len() == kinds@.len()
                    && model_of(*final(streams)) == m,
            },
    {
        let (common, entity_data, entity_common) = self.read_common_entity_data(streams)?;
        proof {
            lemma_fields_len(model_of(*streams), self.data().len(), self.spec_version(), streams.current_handle,
                kinds@);
        }
        let fs = read_stream_fields(streams, kinds)?;
        Ok((common, entity_data, entity_common, fs))
    }

    /// Read a circle (see [`circle_layout`] and [`circle_of`]).
    pub fn read_circle(&mut self, streams: &mut StreamSet)
        -> (r: Result<CadTemplate<XDataValue, CircleEntity>, DxfError>)
        requires
            old(self).inv(),
            streams_of(*old(streams), old(self).data(), old(self).spec_version()),
        ensures
            *final(self) == *old(self),
            streams_of(*final(streams), old(self).data(), old(self).spec_version()),
            final(streams).current_handle == old(streams).current_handle,
            entity_fields_read(r, spec_entity_fields(model_of(*old(streams)), old(self).data(),
                old(self).spec_version(), old(self).initial_pos(), old(streams).current_handle, circle_layout()),
                |ec: EntityCommon, fs: Seq<FieldModel>| circle_of(ec, fs), *final(streams)),
    {
        let kinds = vec![FieldKind::Point3, FieldKind::BitDouble, FieldKind::Thickness, FieldKind::Extrusion];
        proof { assert(kinds@ =~= circle_layout()); }
        let (common, entity_data, ec, fs) = self.read_entity_fields(streams, &kinds)?;
        let entity = CircleEntity {
            common: ec,
            center: field_point_of(&fs[0]),
            radius: field_double_of(&fs[1]),
            thickness: field_double_of(&fs[2]),
            normal: field_point_of(&fs[3]),
        };
        Ok(CadTemplate::Entity { common, entity_data, entity })
    }

    /// Read an arc (see [`arc_layout`] and [`arc_of`]).
    pub fn read_arc(&mut self, streams: &mut StreamSet) -> (r: Result<CadTemplate<XDataValue, ArcEntity>, DxfError>)
        requires
            old(self).inv(),
            streams_of(*old(streams), old(self).data(), old(self).spec_version()),
        ensures
            *final(self) == *old(self),
            streams_of(*final(streams), old(self).data(), old(self).spec_version()),
            final(streams).current_handle == old(streams).current_handle,
            entity_fields_read(r, spec_entity_fields(model_of(*old(streams)), old(self).data(),
                old(self).spec_version(), old(self).initial_pos(), old(streams).current_handle, arc_layout()),
                |ec: EntityCommon, fs: Seq<FieldModel>| arc_of(ec, fs), *final(streams)),
    {
        let kinds = vec![FieldKind::Point3, FieldKind::BitDouble, FieldKind::Thickness, FieldKind::Extrusion,
            FieldKind::BitDouble, FieldKind::BitDouble];
        proof { assert(kinds@ =~= arc_layout()); }
        let (common, entity_data, ec, fs) = self.read_entity_fields(streams, &kinds)?;
        let entity = ArcEntity {
            common: ec,
            center: field_point_of(&fs[0]),
            radius: field_double_of(&fs[1]),
            thickness: field_double_of(&fs[2]),
            normal: field_point_of(&fs[3]),
            start_angle: field_double_of(&fs[4]),
            end_angle: field_double_of(&fs[5]),
        };
        Ok(CadTemplate::Entity { common, entity_data, entity })
    }

    /// Read a point (see [`point_layout`] and [`point_of`]).
    pub fn read_point(&mut self, streams: &mut StreamSet)
        -> (r: Result<CadTemplate<XDataValue, PointEntity>, DxfError>)
        requires
            old(self).inv(),
            streams_of(*old(streams), old(self).data(), old(self).spec_version()),
        ensures
            *final(self) == *old(self),
            streams_of(*final(streams), old(self).data(), old(self).spec_version()),
            final(streams).current_handle == old(streams).current_handle,
            entity_fields_read(r, spec_entity_fields(model_of(*old(streams)), old(self).data(),
                old(self).spec_version(), old(self).initial_pos(), old(streams).current_handle, point_layout()),
                |ec: EntityCommon, fs: Seq<FieldModel>| point_of(ec, fs), *final(streams)),
    {
        let kinds = vec![FieldKind::Point3, FieldKind::Thickness, FieldKind::Extrusion, FieldKind::BitDouble];
        proof { assert(kinds@ =~= point_layout()); }
        let (common, entity_data, ec, fs) = self.read_entity_fields(streams, &kinds)?;
        let entity = PointEntity {
            common: ec,
            location: field_point_of(&fs[0]),
            thickness: field_double_of(&fs[1]),
            normal: field_point_of(&fs[2]),
        };
        Ok(CadTemplate::Entity { common, entity_data, entity })
    }

    /// Read an ellipse (see [`ellipse_layout`] and [`ellipse_of`]).
    pub fn read_ellipse(&mut self, streams: &mut StreamSet)
        -> (r: Result<CadTemplate<XDataValue, EllipseEntity>, DxfError>)
        requires
            old(self).inv(),
            streams_of(*old(streams), old(self).data(), old(self).spec_version()),
        ensures
            *final(self) == *old(self),
            streams_of(*final(streams), old(self).data(), old(self).spec_version()),
            final(streams).current_handle == old(streams).current_handle,
            entity_fields_read(r, spec_entity_fields(model_of(*old(streams)), old(self).data(),
                old(self).spec_version(), old(self).initial_pos(), old(streams).current_handle, ellipse_layout()),
                |ec: EntityCommon, fs: Seq<FieldModel>| ellipse_of(ec, fs), *final(streams)),
    {
        let kinds = vec![FieldKind::Point3, FieldKind::Point3, FieldKind::Point3, FieldKind::BitDouble,
            FieldKind::BitDouble, FieldKind::BitDouble];
        proof { assert(kinds@ =~= ellipse_layout()); }
        let (common, entity_data, ec, fs) = self.read_entity_fields(streams, &kinds)?;
        let entity = EllipseEntity {
            common: ec,
            center: field_point_of(&fs[0]),
            major_axis: field_point_of(&fs[1]),
            normal: field_point_of(&fs[2]),
            minor_axis_ratio: field_double_of(&fs[3]),
            start_parameter: field_double_of(&fs[4]),
            end_parameter: field_double_of(&fs[5]),
        };
        Ok(CadTemplate::Entity { common, entity_data, entity })
    }

    /// Read the base point and direction of a ray or construction line
    /// (see [`ray_layout`] and [`ray_of`]).
    fn read_ray_like(&mut self, streams: &mut StreamSet)
        -> (r: Result<CadTemplate<XDataValue, RayEntity>, DxfError>)
        requires
            old(self).inv(),
            streams_of(*old(streams), old(self).data(), old(self).spec_version()),
        ensures
            *final(self) == *old(self),
            streams_of(*final(streams), old(self).data(), old(self).spec_version()),
            final(streams).current_handle == old(streams).current_handle,
            entity_fields_read(r, spec_entity_fields(model_of(*old(streams)), old(self).data(),
                old(self).spec_version(), old(self).initial_pos(), old(streams).current_handle, ray_layout()),
                |ec: EntityCommon, fs: Seq<FieldModel>| ray_of(ec, fs), *final(streams)),
    {
        let kinds = vec![FieldKind::Point3, FieldKind::Point3];
        proof { assert(kinds@ =~= ray_layout()); }
        let (common, entity_data, ec, fs) = self.read_entity_fields(streams, &kinds)?;
        let entity = RayEntity { common: ec, base_point: field_point_of(&fs[0]), direction: field_point_of(&fs[1]) };
        Ok(CadTemplate::Entity { common, entity_data, entity })
    }

    /// Read a ray (see [`ray_layout`] and [`ray_of`]).
    pub fn read_ray(&mut self, streams: &mut StreamSet) -> (r: Result<CadTemplate<XDataValue, RayEntity>, DxfError>)
        requires
            old(self).inv(),
            streams_of(*old(streams), old(self).data(), old(self).spec_version()),
        ensures
            *final(self) == *old(self),
            streams_of(*final(streams), old(self).data(), old(self).spec_version()),
            final(streams).current_handle == old(streams).current_handle,
            entity_fields_read(r, spec_entity_fields(model_of(*old(streams)), old(self).data(),
                old(self).spec_version(), old(self).initial_pos(), old(streams).current_handle, ray_layout()),
                |ec: EntityCommon, fs: Seq<FieldModel>| ray_of(ec, fs), *final(streams)),
    {
        self.read_ray_like(streams)
    }

    /// Read a construction line (see [`ray_layout`] and [`ray_of`]).
    pub fn read_xline(&mut self, streams: &mut StreamSet) -> (r: Result<CadTemplate<XDataValue, RayEntity>, DxfError>)
        requires
            old(self).inv(),
            streams_of(*old(streams), old(self).data(), old(self).spec_version()),
        ensures
            *final(self) == *old(self),
            streams_of(*final(streams), old(self).data(), old(self).spec_version()),
            final(streams).current_handle == old(streams).current_handle,
            entity_fields_read(r, spec_entity_fields(model_of(*old(streams)), old(self).data(),
                old(self).spec_version(), old(self).initial_pos(), old(streams).current_handle, ray_layout()),
                |ec: EntityCommon, fs: Seq<FieldModel>| ray_of(ec, fs), *final(streams)),
    {
        self.read_ray_like(streams)
    }

    /// Read a solid (see [`solid_layout`] and [`solid_of`]).
    pub fn read_solid(&mut self, streams: &mut StreamSet)
        -> (r: Result<CadTemplate<XDataValue, SolidEntity>, DxfError>)
        requires
            old(self).inv(),
            streams_of(*old(streams), old(self).data(), old(self).spec_version()),
        ensures
            *final(self) == *old(self),
            streams_of(*final(streams), old(self).data(), old(self).spec_version()),
            final(streams).current_handle == old(streams).current_handle,
            entity_fields_read(r, spec_entity_fields(model_of(*old(streams)), old(self).data(),
                old(self).spec_version(), old(self).initial_pos(), old(streams).current_handle, solid_layout()),
                |ec: EntityCommon, fs: Seq<FieldModel>| solid_of(ec, fs), *final(streams)),
    {
        let kinds = vec![FieldKind::Thickness, FieldKind::BitDouble, FieldKind::RawDouble, FieldKind::RawDouble,
            FieldKind::RawDouble, FieldKind::RawDouble, FieldKind::RawDouble, FieldKind::RawDouble,
            FieldKind::RawDouble, FieldKind::RawDouble, FieldKind::Extrusion];
        proof { assert(kinds@ =~= solid_layout()); }
        let (common, entity_data, ec, fs) = self.read_entity_fields(streams, &kinds)?;
        let z = field_double_of(&fs[1]);
        let entity = SolidEntity {
            common: ec,
            first_corner: (field_double_of(&fs[2]), field_double_of(&fs[3]), z),
            second_corner: (field_double_of(&fs[4]), field_double_of(&fs[5]), z),
            third_corner: (field_double_of(&fs[6]), field_double_of(&fs[7]), z),
            fourth_corner: (field_double_of(&fs[8]), field_double_of(&fs[9]), z),
            normal: field_point_of(&fs[10]),
            thickness: field_double_of(&fs[0]),
        };
        Ok(CadTemplate::Entity { common, entity_data, entity })
    }

    /// Read a shape (see [`shape_layout`] and [`shape_of`]); its shape
    /// file handle comes next in the handle stream.
    pub fn read_shape(&mut self, streams: &mut StreamSet)
        -> (r: Result<CadTemplate<XDataValue, ShapeEntity>, DxfError>)
        requires
            old(self).inv(),
            streams_of(*old(streams), old(self).data(), old(self).spec_version()),
        ensures
            *final(self) == *old(self),
            streams_of(*final(streams), old(self).data(), old(self).spec_version()),
            final(streams).current_handle == old(streams).current_handle,
            match spec_entity_fields(model_of(*old(streams)), old(self).data(), old(self).spec_version(),
                old(self).initial_pos(), old(streams).current_handle, shape_layout()) {
                Err(e) => r matches Err(e2) && e2 == e,
                Ok(((cm, ent, ec, fs), m1)) => match spec_next_ref(m1, old(self).data().len(), 0) {
                    Err(e) => r matches Err(e2) && e2 == e,
                    Ok((h, m)) => r matches Ok(CadTemplate::Shape { common, entity_data, shape_data, entity })
                        && common_model(common) == cm && entity_data == ent && entity == shape_of(ec, fs)
                        && shape_data.shape_file_handle == h && model_of(*final(streams)) == m,
                },
            },
    {
        let kinds = vec![FieldKind::Point3, FieldKind::BitDouble, FieldKind::BitDouble, FieldKind::BitDouble,
            FieldKind::BitDouble, FieldKind::Thickness, FieldKind::Extrusion, FieldKind::BitShort];
        proof { assert(kinds@ =~= shape_layout()); }
        let (common, entity_data, ec, fs) = self.read_entity_fields(streams, &kinds)?;
        let shape_file_handle = streams.handles_reader.handle_reference()?;
        let entity = ShapeEntity {
            common: ec,
            insertion_point: field_point_of(&fs[0]),
            size: field_double_of(&fs[1]),
            rotation: field_double_of(&fs[2]),
            relative_x_scale: field_double_of(&fs[3]),
            oblique_angle: field_double_of(&fs[4]),
            thickness: field_double_of(&fs[5]),
            normal: field_point_of(&fs[6]),
            shape_number: field_short_of(&fs[7]) as i32,
        };
        Ok(CadTemplate::Shape { common, entity_data, shape_data: CadShapeTemplateData { shape_file_handle }, entity })
    }

    /// Read a line: its common entity data, then its object data (see
    /// [`spec_line_body`]).
    pub fn read_line(&mut self, streams: &mut StreamSet) -> (r: Result<CadTemplate<XDataValue, LineEntity>, DxfError>)
        requires
            old(self).inv(),
            streams_of(*old(streams), old(self).data(), old(self).spec_version()),
        ensures
            *final(self) == *old(self),
            streams_of(*final(streams), old(self).data(), old(self).spec_version()),
            final(streams).current_handle == old(streams).current_handle,
            match spec_common_entity(model_of(*old(streams)), old(self).data(), old(self).spec_version(),
                old(self).initial_pos()) {
                Err(e) => r matches Err(e2) && e2 == e,
                Ok(((cm, ent, ec), m1)) => match spec_line_body(m1, old(self).data().len(), old(self).spec_version(),
                    old(streams).current_handle, ec) {
                    Err(e) => r matches Err(e2) && e2 == e,
                    Ok((l, m)) => r matches Ok(CadTemplate::Entity { common, entity_data, entity })
                        && common_model(common) == cm && entity_data == ent && entity == l
                        && model_of(*final(streams)) == m,
                },
            },
    {
        let (common, entity_data, ec) = self.read_common_entity_data(streams)?;
        let ghost len = self.data().len();
        let v = self.version();
        let entity = if v.at_least(DxfVersion::AC1015) {
            let (start, end) = read_line_points(streams)?;
            let kinds = vec![FieldKind::Thickness, FieldKind::Extrusion];
            proof {
                assert(kinds@ =~= seq![FieldKind::Thickness, FieldKind::Extrusion]);
                lemma_fields_len(model_of(*streams), len, v, streams.current_handle, kinds@);
            }
            let fs = read_stream_fields(streams, &kinds)?;
            LineEntity { common: ec, start, end, thickness: field_double_of(&fs[0]), normal: field_point_of(&fs[1]) }
        } else {
            let kinds = vec![FieldKind::Point3, FieldKind::Point3, FieldKind::Thickness, FieldKind::Extrusion];
            proof {
                assert(kinds@ =~= seq![FieldKind::Point3, FieldKind::Point3, FieldKind::Thickness,
                    FieldKind::Extrusion]);
                lemma_fields_len(model_of(*streams), len, v, streams.current_handle, kinds@);
            }
            let fs = read_stream_fields(streams, &kinds)?;
            LineEntity { common: ec, start: field_point_of(&fs[0]), end: field_point_of(&fs[1]),
                thickness: field_double_of(&fs[2]), normal: field_point_of(&fs[3]) }
        };
        Ok(CadTemplate::Entity { common, entity_data, entity })
    }

    /// Read a 3D face: its common entity data, then its object data (see
    /// [`spec_face_body`]).
    pub fn read_3d_face(&mut self, streams: &mut StreamSet)
        -> (r: Result<CadTemplate<XDataValue, Face3DEntity>, DxfError>)
        requires
            old(self).inv(),
            streams_of(*old(streams), old(self).data(), old(self).spec_version()),
        ensures
            *final(self) == *old(self),
            streams_of(*final(streams), old(self).data(), old(self).spec_version()),
            final(streams).current_handle == old(streams).current_handle,
            match spec_common_entity(model_of(*old(streams)), old(self).data(), old(self).spec_version(),
                old(self).initial_pos()) {
                Err(e) => r matches Err(e2) && e2 == e,
                Ok(((cm, ent, ec), m1)) => match spec_face_body(m1, old(self).data().len(), old(self).spec_version(),
                    old(streams).current_handle, ec) {
                    Err(e) => r matches Err(e2) && e2 == e,
                    Ok((f, m)) => r matches Ok(CadTemplate::Entity { common, entity_data, entity })
                        && common_model(common) == cm && entity_data == ent && entity == f
                        && model_of(*final(streams)) == m,
                },
            },
    {
        let (common, entity_data, ec) = self.read_common_entity_data(streams)?;
        let ghost len = self.data().len();
        let v = self.version();
        let entity = if v.at_least(DxfVersion::AC1015) {
            let (p1, p2, p3, p4, f) = read_face_r2000(streams)?;
            Face3DEntity { common: ec, first_corner: p1, second_corner: p2, third_corner: p3, fourth_corner: p4,
                invisible_edges: f }
        } else {
            let kinds = vec![FieldKind::Point3, FieldKind::Point3, FieldKind::Point3, FieldKind::Point3,
                FieldKind::BitShort];
            proof {
                assert(kinds@ =~= seq![FieldKind::Point3, FieldKind::Point3, FieldKind::Point3, FieldKind::Point3,
                    FieldKind::BitShort]);
                lemma_fields_len(model_of(*streams), len, v, streams.current_handle, kinds@);
            }
            let fs = read_stream_fields(streams, &kinds)?;
            Face3DEntity { common: ec, first_corner: field_point_of(&fs[0]), second_corner: field_point_of(&fs[1]),
                third_corner: field_point_of(&fs[2]), fourth_corner: field_point_of(&fs[3]),
                invisible_edges: field_short_of(&fs[4]) as u8 }
        };
        Ok(CadTemplate::Entity { common, entity_data, entity })
    }

    /// Read the start of a block definition: its common entity data, then
    /// its name (one text field).
    pub fn read_block(&mut self, streams: &mut StreamSet)
        -> (r: Result<CadTemplate<XDataValue, BlockEntity>, DxfError>)
        requires
            old(self).inv(),
            streams_of(*old(streams), old(self).data(), old(self).spec_version()),
        ensures
            *final(self) == *old(self),
            streams_of(*final(streams), old(self).data(), old(self).spec_version()),
            final(streams).current_handle == old(streams).current_handle,
            match spec_entity_fields(model_of(*old(streams)), old(self).data(), old(self).spec_version(),
                old(self).initial_pos(), old(streams).current_handle, seq![FieldKind::Text]) {
                Err(e) => r matches Err(e2) && e2 == e,
                Ok(((cm, ent, ec, fs), m)) => r matches Ok(CadTemplate::Entity { common, entity_data, entity })
                    && common_model(common) == cm && entity_data == ent && entity.common == ec
                    && entity.name@ == field_text(fs[0]) && model_of(*final(streams)) == m,
            },
    {
        let kinds = vec![FieldKind::Text];
        proof { assert(kinds@ =~= seq![FieldKind::Text]); }
        let (common, entity_data, ec, fs) = self.read_entity_fields(streams, &kinds)?;
        let entity = BlockEntity { common: ec, name: field_text_of(&fs[0]) };
        Ok(CadTemplate::Entity { common, entity_data, entity })
    }

    /// Read an entity made of its common data alone (see [`marker_of`]).
    fn read_marker(&mut self, streams: &mut StreamSet)
        -> (r: Result<CadTemplate<XDataValue, MarkerEntity>, DxfError>)
        requires
            old(self).inv(),
            streams_of(*old(streams), old(self).data(), old(self).spec_version()),
        ensures
            *final(self) == *old(self),
            streams_of(*final(streams), old(self).data(), old(self).spec_version()),
            final(streams).current_handle == old(streams).current_handle,
            entity_fields_read(r, spec_entity_fields(model_of(*old(streams)), old(self).data(),
                old(self).spec_version(), old(self).initial_pos(), old(streams).current_handle, Seq::empty()),
                |ec: EntityCommon, fs: Seq<FieldModel>| marker_of(ec, fs), *final(streams)),
    {
        let (common, entity_data, ec) = self.read_common_entity_data(streams)?;
        Ok(CadTemplate::Entity { common, entity_data, entity: MarkerEntity { common: ec } })
    }

    /// Read the end of a block definition (see [`marker_of`]).
    pub fn read_end_block(&mut self, streams: &mut StreamSet)
        -> (r: Result<CadTemplate<XDataValue, MarkerEntity>, DxfError>)
        requires
            old(self).inv(),
            streams_of(*old(streams), old(self).data(), old(self).spec_version()),
        ensures
            *final(self) == *old(self),
            streams_of(*final(streams), old(self).data(), old(self).spec_version()),
            final(streams).current_handle == old(streams).current_handle,
            entity_fields_read(r, spec_entity_fields(model_of(*old(streams)), old(self).data(),
                old(self).spec_version(), old(self).initial_pos(), old(streams).current_handle, Seq::empty()),
                |ec: EntityCommon, fs: Seq<FieldModel>| marker_of(ec, fs), *final(streams)),
    {
        self.read_marker(streams)
    }

    /// Read the end of a sequence (see [`marker_of`]).
    pub fn read_seqend(&mut self, streams: &mut StreamSet)
        -> (r: Result<CadTemplate<XDataValue, MarkerEntity>, DxfError>)
        requires
            old(self).inv(),
            streams_of(*old(streams), old(self).data(), old(self).spec_version()),
        ensures
            *final(self) == *old(self),
            streams_of(*final(streams), old(self).data(), old(self).spec_version()),
            final(streams).current_handle == old(streams).current_handle,
            entity_fields_read(r, spec_entity_fields(model_of(*old(streams)), old(self).data(),
                old(self).spec_version(), old(self).initial_pos(), old(streams).current_handle, Seq::empty()),
                |ec: EntityCommon, fs: Seq<FieldModel>| marker_of(ec, fs), *final(streams)),
    {
        self.read_marker(streams)
    }

    /// Read a 3D polyline vertex (see [`vertex_3d_layout`]), kept as an
    /// unknown entity named `VERTEX_3D`.
    pub fn read_vertex_3d(&mut self, streams: &mut StreamSet)
        -> (r: Result<CadTemplate<XDataValue, UnknownEntity>, DxfError>)
        requires
            old(self).inv(),
            streams_of(*old(streams), old(self).data(), old(self).spec_version()),
        ensures
            *final(self) == *old(self),
            streams_of(*final(streams), old(self).data(), old(self).spec_version()),
            final(streams).current_handle == old(streams).current_handle,
            unknown_fields_read(r, spec_entity_fields(model_of(*old(streams)), old(self).data(),
                old(self).spec_version(), old(self).initial_pos(), old(streams).current_handle, vertex_3d_layout()),
                "VERTEX_3D"@, *final(streams)),
    {
        let kinds = vec![FieldKind::RawChar, FieldKind::Point3];
        proof { assert(kinds@ =~= vertex_3d_layout()); }
        let (common, entity_data, ec, _fs) = self.read_entity_fields(streams, &kinds)?;
        let entity = UnknownEntity { common: ec, dxf_name: String::from_str("VERTEX_3D") };
        Ok(CadTemplate::Entity { common, entity_data, entity })
    }

    /// Read a face of a polyface mesh (see [`pface_face_layout`]), kept as
    /// an unknown entity named `VERTEX_PFACE_FACE`.
    pub fn read_pface_vertex(&mut self, streams: &mut StreamSet)
        -> (r: Result<CadTemplate<XDataValue, UnknownEntity>, DxfError>)
        requires
            old(self).inv(),
            streams_of(*old(streams), old(self).data(), old(self).spec_version()),
        ensures
            *final(self) == *old(self),
            streams_of(*final(streams), old(self).data(), old(self).spec_version()),
            final(streams).current_handle == old(streams).current_handle,
            unknown_fields_read(r, spec_entity_fields(model_of(*old(streams)), old(self).data(),
                old(self).spec_version(), old(self).initial_pos(), old(streams).current_handle, pface_face_layout()),
                "VERTEX_PFACE_FACE"@, *final(streams)),
    {
        let kinds = vec![FieldKind::BitShort, FieldKind::BitShort, FieldKind::BitShort, FieldKind::BitShort];
        proof { assert(kinds@ =~= pface_face_layout()); }
        let (common, entity_data, ec, _fs) = self.read_entity_fields(streams, &kinds)?;
        let entity = UnknownEntity { common: ec, dxf_name: String::from_str("VERTEX_PFACE_FACE") };
        Ok(CadTemplate::Entity { common, entity_data, entity })
    }

    /// Read a 2D polyline vertex: its common entity data, then its object
    /// data (see [`spec_vertex_2d_body`]); it is kept as an unknown entity
    /// named `VERTEX_2D`.
    pub fn read_vertex_2d(&mut self, streams: &mut StreamSet)
        -> (r: Result<CadTemplate<XDataValue, UnknownEntity>, DxfError>)
        requires
            old(self).inv(),
            streams_of(*old(streams), old(self).data(), old(self).spec_version()),
        ensures
            *final(self) == *old(self),
            streams_of(*final(streams), old(self).data(), old(self).spec_version()),
            final(streams).current_handle == old(streams).current_handle,
            match spec_common_entity(model_of(*old(streams)), old(self).data(), old(self).spec_version(),
                old(self).initial_pos()) {
                Err(e) => r matches Err(e2) && e2 == e,
                Ok(((cm, ent, ec), m1)) => match spec_vertex_2d_body(m1, old(self).data().len(),
                    old(self).spec_version(), old(streams).current_handle) {
                    Err(e) => r matches Err(e2) && e2 == e,
                    Ok(m) => r matches Ok(CadTemplate::Entity { common, entity_data, entity })
                        && common_model(common) == cm && entity_data == ent && entity.common == ec
                        && entity.dxf_name@ == "VERTEX_2D"@ && model_of(*final(streams)) == m,
                },
            },
    {
        let (common, entity_data, ec) = self.read_common_entity_data(streams)?;
        let ghost len = self.data().len();
        let ghost reference = streams.current_handle;
        let v = self.version();
        let head = vec![FieldKind::RawChar, FieldKind::Point3, FieldKind::BitDouble];
        proof {
            assert(head@ =~= seq![FieldKind::RawChar, FieldKind::Point3, FieldKind::BitDouble]);
            lemma_fields_len(model_of(*streams), len, v, reference, head@);
        }
        let fs = read_stream_fields(streams, &head)?;
        let mut rest: Vec<FieldKind> = Vec::new();
        if !negative_double(field_double_of(&fs[2])) {
            rest.push(FieldKind::BitDouble);
        }
        rest.push(FieldKind::BitDouble);
        if v.at_least(DxfVersion::AC1024) {
            rest.push(FieldKind::BitLong);
        }
        rest.push(FieldKind::BitDouble);
        proof {
            assert(rest@ =~= (if is_negative_double(field_double(fields_model(fs@)[2])) { Seq::empty() }
                else { seq![FieldKind::BitDouble] }) + seq![FieldKind::BitDouble]
                + (if version_at_least(v, DxfVersion::AC1024) { seq![FieldKind::BitLong] } else { Seq::empty() })
                + seq![FieldKind::BitDouble]);
        }
        let _tail = read_stream_fields(streams, &rest)?;
        let entity = UnknownEntity { common: ec, dxf_name: String::from_str("VERTEX_2D") };
        Ok(CadTemplate::Entity { common, entity_data, entity })
    }
}


/// What [`DwgObjectReader::read_3d_face`] gives and leaves: its result `r` and
/// its streams, from `st0` to `st1`, for the reader `before`.
pub open spec fn read_3d_face_outcome(before: DwgObjectReader, st0: StreamSet, st1: StreamSet,
    r: Result<CadTemplate<XDataValue, Face3DEntity>, DxfError>) -> bool {
    &&& streams_of(st1, before.data(), before.spec_version())
    &&& st1.current_handle == st0.current_handle
    &&& match spec_common_entity(model_of(st0), before.data(), before.spec_version(),
            before.initial_pos()) {
            Err(e) => r matches Err(e2) && e2 == e,
            Ok(((cm, ent, ec), m1)) => match spec_face_body(m1, before.data().len(), before.spec_version(),
                st0.current_handle, ec) {
                Err(e) => r matches Err(e2) && e2 == e,
                Ok((f, m)) => r matches Ok(CadTemplate::Entity { common, entity_data, entity })
                    && common_model(common) == cm && entity_data == ent && entity == f
                    && model_of(st1) == m,
            },
        }
}

/// What [`DwgObjectReader::read_arc`] gives and leaves: its result `r` and
/// its streams, from `st0` to `st1`, for the reader `before`.
pub open spec fn read_arc_outcome(before: DwgObjectReader, st0: StreamSet, st1: StreamSet,
    r: Result<CadTemplate<XDataValue, ArcEntity>, DxfError>) -> bool {
    &&& streams_of(st1, before.data(), before.spec_version())
    &&& st1.current_handle == st0.current_handle
    &&& entity_fields_read(r, spec_entity_fields(model_of(st0), before.data(),
            before.spec_version(), before.initial_pos(), st0.current_handle, arc_layout()),
            |ec: EntityCommon, fs: Seq<FieldModel>| arc_of(ec, fs), st1)
}

/// What [`DwgObjectReader::read_block`] gives and leaves: its result `r` and
/// its streams, from `st0` to `st1`, for the reader `before`.
pub open spec fn read_block_outcome(before: DwgObjectReader, st0: StreamSet, st1: StreamSet,
    r: Result<CadTemplate<XDataValue, BlockEntity>, DxfError>) -> bool {
    &&& streams_of(st1, before.data(), before.spec_version())
    &&& st1.current_handle == st0.current_handle
    &&& match spec_entity_fields(model_of(st0), before.data(), before.spec_version(),
            before.initial_pos(), st0.current_handle, seq![FieldKind::Text]) {
            Err(e) => r matches Err(e2) && e2 == e,
            Ok(((cm, ent, ec, fs), m)) => r matches Ok(CadTemplate::Entity { common, entity_data, entity })
                && common_model(common) == cm && entity_data == ent && entity.common == ec
                && entity.name@ == field_text(fs[0]) && model_of(st1) == m,
        }
}

/// What [`DwgObjectReader::read_circle`] gives and leaves: its result `r` and
/// its streams, from `st0` to `st1`, for the reader `before`.
pub open spec fn read_circle_outcome(before: DwgObjectReader, st0: StreamSet, st1: StreamSet,
    r: Result<CadTemplate<XDataValue, CircleEntity>, DxfError>) -> bool {
    &&& streams_of(st1, before.data(), before.spec_version())
    &&& st1.current_handle == st0.current_handle
    &&& entity_fields_read(r, spec_entity_fields(model_of(st0), before.data(),
            before.spec_version(), before.initial_pos(), st0.current_handle, circle_layout()),
            |ec: EntityCommon, fs: Seq<FieldModel>| circle_of(ec, fs), st1)
}

/// What [`DwgObjectReader::read_ellipse`] gives and leaves: its result `r` and
/// its streams, from `st0` to `st1`, for the reader `before`.
pub open spec fn read_ellipse_outcome(before: DwgObjectReader, st0: StreamSet, st1: StreamSet,
    r: Result<CadTemplate<XDataValue, EllipseEntity>, DxfError>) -> bool {
    &&& streams_of(st1, before.data(), before.spec_version())
    &&& st1.current_handle == st0.current_handle
    &&& entity_fields_read(r, spec_entity_fields(model_of(st0), before.data(),
            before.spec_version(), before.initial_pos(), st0.current_handle, ellipse_layout()),
            |ec: EntityCommon, fs: Seq<FieldModel>| ellipse_of(ec, fs), st1)
}

/// What [`DwgObjectReader::read_end_block`] gives and leaves: its result `r` and
/// its streams, from `st0` to `st1`, for the reader `before`.
pub open spec fn read_end_block_outcome(before: DwgObjectReader, st0: StreamSet, st1: StreamSet,
    r: Result<CadTemplate<XDataValue, MarkerEntity>, DxfError>) -> bool {
    &&& streams_of(st1, before.data(), before.spec_version())
    &&& st1.current_handle == st0.current_handle
    &&& entity_fields_read(r, spec_entity_fields(model_of(st0), before.data(),
            before.spec_version(), before.initial_pos(), st0.current_handle, Seq::empty()),
            |ec: EntityCommon, fs: Seq<FieldModel>| marker_of(ec, fs), st1)
}

/// What [`DwgObjectReader::read_line`] gives and leaves: its result `r` and
/// its streams, from `st0` to `st1`, for the reader `before`.
pub open spec fn read_line_outcome(before: DwgObjectReader, st0: StreamSet, st1: StreamSet,
    r: Result<CadTemplate<XDataValue, LineEntity>, DxfError>) -> bool {
    &&& streams_of(st1, before.data(), before.spec_version())
    &&& st1.current_handle == st0.current_handle
    &&& match spec_common_entity(model_of(st0), before.data(), before.spec_version(),
            before.initial_pos()) {
            Err(e) => r matches Err(e2) && e2 == e,
            Ok(((cm, ent, ec), m1)) => match spec_line_body(m1, before.data().len(), before.spec_version(),
                st0.current_handle, ec) {
                Err(e) => r matches Err(e2) && e2 == e,
                Ok((l, m)) => r matches Ok(CadTemplate::Entity { common, entity_data, entity })
                    && common_model(common) == cm && entity_data == ent && entity == l
                    && model_of(st1) == m,
            },
        }
}

/// What [`DwgObjectReader::read_pface_vertex`] gives and leaves: its result `r` and
/// its streams, from `st0` to `st1`, for the reader `before`.
pub open spec fn read_pface_vertex_outcome(before: DwgObjectReader, st0: StreamSet, st1: StreamSet,
    r: Result<CadTemplate<XDataValue, UnknownEntity>, DxfError>) -> bool {
    &&& streams_of(st1, before.data(), before.spec_version())
    &&& st1.current_handle == st0.current_handle
    &&& unknown_fields_read(r, spec_entity_fields(model_of(st0), before.data(),
            before.spec_version(), before.initial_pos(), st0.current_handle, pface_face_layout()),
            "VERTEX_PFACE_FACE"@, st1)
}

/// What [`DwgObjectReader::read_point`] gives and leaves: its result `r` and
/// its streams, from `st0` to `st1`, for the reader `before`.
pub open spec fn read_point_outcome(before: DwgObjectReader, st0: StreamSet, st1: StreamSet,
    r: Result<CadTemplate<XDataValue, PointEntity>, DxfError>) -> bool {
    &&& streams_of(st1, before.data(), before.spec_version())
    &&& st1.current_handle == st0.current_handle
    &&& entity_fields_read(r, spec_entity_fields(model_of(st0), before.data(),
            before.spec_version(), before.initial_pos(), st0.current_handle, point_layout()),
            |ec: EntityCommon, fs: Seq<FieldModel>| point_of(ec, fs), st1)
}

/// What [`DwgObjectReader::read_ray`] gives and leaves: its result `r` and
/// its streams, from `st0` to `st1`, for the reader `before`.
pub open spec fn read_ray_outcome(before: DwgObjectReader, st0: StreamSet, st1: StreamSet,
    r: Result<CadTemplate<XDataValue, RayEntity>, DxfError>) -> bool {
    &&& streams_of(st1, before.data(), before.spec_version())
    &&& st1.current_handle == st0.current_handle
    &&& entity_fields_read(r, spec_entity_fields(model_of(st0), before.data(),
            before.spec_version(), before.initial_pos(), st0.current_handle, ray_layout()),
            |ec: EntityCommon, fs: Seq<FieldModel>| ray_of(ec, fs), st1)
}

/// What [`DwgObjectReader::read_seqend`] gives and leaves: its result `r` and
/// its streams, from `st0` to `st1`, for the reader `before`.
pub open spec fn read_seqend_outcome(before: DwgObjectReader, st0: StreamSet, st1: StreamSet,
    r: Result<CadTemplate<XDataValue, MarkerEntity>, DxfError>) -> bool {
    &&& streams_of(st1, before.data(), before.spec_version())
    &&& st1.current_handle == st0.current_handle
    &&& entity_fields_read(r, spec_entity_fields(model_of(st0), before.data(),
            before.spec_version(), before.initial_pos(), st0.current_handle, Seq::empty()),
            |ec: EntityCommon, fs: Seq<FieldModel>| marker_of(ec, fs), st1)
}

/// What [`DwgObjectReader::read_shape`] gives and leaves: its result `r` and
/// its streams, from `st0` to `st1`, for the reader `before`.
pub open spec fn read_shape_outcome(before: DwgObjectReader, st0: StreamSet, st1: StreamSet,
    r: Result<CadTemplate<XDataValue, ShapeEntity>, DxfError>) -> bool {
    &&& streams_of(st1, before.data(), before.spec_version())
    &&& st1.current_handle == st0.current_handle
    &&& match spec_entity_fields(model_of(st0), before.data(), before.spec_version(),
            before.initial_pos(), st0.current_handle, shape_layout()) {
            Err(e) => r matches Err(e2) && e2 == e,
            Ok(((cm, ent, ec, fs), m1)) => match spec_next_ref(m1, before.data().len(), 0) {
                Err(e) => r matches Err(e2) && e2 == e,
                Ok((h, m)) => r matches Ok(CadTemplate::Shape { common, entity_data, shape_data, entity })
                    && common_model(common) == cm && entity_data == ent && entity == shape_of(ec, fs)
                    && shape_data.shape_file_handle == h && model_of(st1) == m,
            },
        }
}

/// What [`DwgObjectReader::read_solid`] gives and leaves: its result `r` and
/// its streams, from `st0` to `st1`, for the reader `before`.
pub open spec fn read_solid_outcome(before: DwgObjectReader, st0: StreamSet, st1: StreamSet,
    r: Result<CadTemplate<XDataValue, SolidEntity>, DxfError>) -> bool {
    &&& streams_of(st1, before.data(), before.spec_version())
    &&& st1.current_handle == st0.current_handle
    &&& entity_fields_read(r, spec_entity_fields(model_of(st0), before.data(),
            before.spec_version(), before.initial_pos(), st0.current_handle, solid_layout()),
            |ec: EntityCommon, fs: Seq<FieldModel>| solid_of(ec, fs), st1)
}

/// What [`DwgObjectReader::read_vertex_2d`] gives and leaves: its result `r` and
/// its streams, from `st0` to `st1`, for the reader `before`.
pub open spec fn read_vertex_2d_outcome(before: DwgObjectReader, st0: StreamSet, st1: StreamSet,
    r: Result<CadTemplate<XDataValue, UnknownEntity>, DxfError>) -> bool {
    &&& streams_of(st1, before.data(), before.spec_version())
    &&& st1.current_handle == st0.current_handle
    &&& match spec_common_entity(model_of(st0), before.data(), before.spec_version(),
            before.initial_pos()) {
            Err(e) => r matches Err(e2) && e2 == e,
            Ok(((cm, ent, ec), m1)) => match spec_vertex_2d_body(m1, before.data().len(),
                before.spec_version(), st0.current_handle) {
                Err(e) => r matches Err(e2) && e2 == e,
                Ok(m) => r matches Ok(CadTemplate::Entity { common, entity_data, entity })
                    && common_model(common) == cm && entity_data == ent && entity.common == ec
                    && entity.dxf_name@ == "VERTEX_2D"@ && model_of(st1) == m,
            },
        }
}

/// What [`DwgObjectReader::read_vertex_3d`] gives and leaves: its result `r` and
/// its streams, from `st0` to `st1`, for the reader `before`.
pub open spec fn read_vertex_3d_outcome(before: DwgObjectReader, st0: StreamSet, st1: StreamSet,
    r: Result<CadTemplate<XDataValue, UnknownEntity>, DxfError>) -> bool {
    &&& streams_of(st1, before.data(), before.spec_version())
    &&& st1.current_handle == st0.current_handle
    &&& unknown_fields_read(r, spec_entity_fields(model_of(st0), before.data(),
            before.spec_version(), before.initial_pos(), st0.current_handle, vertex_3d_layout()),
            "VERTEX_3D"@, st1)
}

/// What [`DwgObjectReader::read_xline`] gives and leaves: its result `r` and
/// its streams, from `st0` to `st1`, for the reader `before`.
pub open spec fn read_xline_outcome(before: DwgObjectReader, st0: StreamSet, st1: StreamSet,
    r: Result<CadTemplate<XDataValue, RayEntity>, DxfError>) -> bool {
    &&& streams_of(st1, before.data(), before.spec_version())
    &&& st1.current_handle == st0.current_handle
    &&& entity_fields_read(r, spec_entity_fields(model_of(st0), before.data(),
            before.spec_version(), before.initial_pos(), st0.current_handle, ray_layout()),
            |ec: EntityCommon, fs: Seq<FieldModel>| ray_of(ec, fs), st1)
}


/// The end points of a line from R2000 on, against the reads of its
/// object data: a bit says whether both Z are zero; then the start X (a
/// raw double), the end X (a BitDouble with the start X as default), the
/// start Y, the end Y (the start Y as default) and, when the bit is clear,
/// the start Z and the end Z (the start Z as default).
pub proof fn lemma_line_points_reads(m: StreamsModel, len: nat)
    ensures
        spec_line_points(m, len) matches Ok(((p1, p2), m7)) ==> ({
            let (z_zero, c0) = spec_read_bit(m.object);
            &&& spec_read_raw_double(c0) matches Some((x1, c1))
            &&& p1.0 == x1
            &&& spec_read_bit_double_with_default(c1, x1) matches Some((x2, c2))
            &&& p2.0 == x2
            &&& spec_read_raw_double(c2) matches Some((y1, c3))
            &&& p1.1 == y1
            &&& spec_read_bit_double_with_default(c3, y1) matches Some((y2, c4))
            &&& p2.1 == y2
            &&& if z_zero {
                p1.2 == 0 && p2.2 == 0 && m7.object == c4
            } else {
                &&& spec_read_raw_double(c4) matches Some((z1, c5))
                &&& p1.2 == z1
                &&& spec_read_bit_double_with_default(c5, z1) matches Some((z2, c6))
                &&& p2.2 == z2
                &&& m7.object == c6
            }
        }),
{
    reveal(spec_line_points);
}
} // verus!
