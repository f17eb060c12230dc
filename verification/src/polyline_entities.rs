//! Reader of lightweight polylines.  Their values are kept as stored:
//! doubles as their IEEE-754 bit patterns, points as two or three of them.

use vstd::prelude::*;
use crate::bit_model::one_bits;
use crate::error::DxfError;
use crate::header_reader::{field_short, field_short_of};
use crate::object_common::XDataValue;
use crate::object_reader::{DwgObjectReader, StreamsModel, FieldKind, FieldModel, FieldValue, fields_model, EntityCommon, CommonModel,
    spec_field, spec_common_entity, spec_repeated, streams_of, model_of, common_model, on_object, field_count,
    read_stream_field, read_repeated, rows_model, lemma_repeated_shape};
use crate::object_records::{version_at_least, field_count_of};
use crate::table_entries::{field_double, field_double_of};
use crate::text_entities::{field_point, field_point_of};
use crate::text_entities::{Slot, spec_slots, read_slots, lemma_slots_len};
use crate::stream_set::StreamSet;
use crate::stream_values::spec_3bit_double;
use crate::templates::{CadTemplate, CadTemplateCommon, CadEntityTemplateData, CadPolylineTemplateData};
use crate::object_common::{spec_handle_list, read_handle_list};
use crate::object_reader::{spec_fields, spec_next_ref, read_stream_fields, lemma_fields_len};
use crate::insert_entities::spec_owned_count;
use crate::version::DxfVersion;

verus! {

/// The largest vertex count a lightweight polyline may declare.
pub const MAX_LWPOLYLINE_POINTS: usize = 10_000_000;

/// One vertex of a lightweight polyline: its location, the bulge of the
/// segment that starts at it and the widths of that segment.
#[derive(Debug, Clone, Copy)]
pub struct LwVertex {
    pub location: (u64, u64),
    pub bulge: u64,
    pub start_width: u64,
    pub end_width: u64,
}

/// A lightweight polyline: its common properties, vertices, whether it is
/// closed, its constant width, elevation, thickness and normal.
pub struct LwPolylineEntity {
    pub common: EntityCommon,
    pub vertices: Vec<LwVertex>,
    pub is_closed: bool,
    pub constant_width: u64,
    pub elevation: u64,
    pub thickness: u64,
    pub normal: (u64, u64, u64),
}

/// The content of a [`LwPolylineEntity`].
pub struct LwPolylineModel {
    pub common: EntityCommon,
    pub vertices: Seq<LwVertex>,
    pub is_closed: bool,
    pub constant_width: u64,
    pub elevation: u64,
    pub thickness: u64,
    pub normal: (u64, u64, u64),
}

impl View for LwPolylineEntity {
    type V = LwPolylineModel;

    open spec fn view(&self) -> LwPolylineModel {
        LwPolylineModel {
            common: self.common,
            vertices: self.vertices@,
            is_closed: self.is_closed,
            constant_width: self.constant_width,
            elevation: self.elevation,
            thickness: self.thickness,
            normal: self.normal,
        }
    }
}

/// Whether the bit `bit` of the polyline flag `flag` is set.
pub open spec fn has_flag(flag: i16, bit: i16) -> bool {
    flag & bit != 0i16
}

/// The values that follow the flag `flag`: the constant width (bit 2),
/// the elevation (bit 3) and the thickness (bit 1), each a BitDouble when
/// its bit is set and 0.0 otherwise.
pub open spec fn lwpolyline_value_slots(flag: i16) -> Seq<Slot> {
    seq![Slot { present: has_flag(flag, 4), kind: FieldKind::BitDouble, default: 0 },
        Slot { present: has_flag(flag, 8), kind: FieldKind::BitDouble, default: 0 },
        Slot { present: has_flag(flag, 2), kind: FieldKind::BitDouble, default: 0 }]
}

/// The counts that follow the point count, for the flag `flag` and the
/// version `v`: the bulges (bit 4), the vertex ids (R2010 and later, bit
/// 10) and the widths (bit 5), each a BitLong when stored and 0 otherwise.
pub open spec fn lwpolyline_count_slots(v: DxfVersion, flag: i16) -> Seq<Slot> {
    seq![Slot { present: has_flag(flag, 0x10), kind: FieldKind::BitLong, default: 0 },
        Slot { present: version_at_least(v, DxfVersion::AC1024) && has_flag(flag, 0x400), kind: FieldKind::BitLong,
            default: 0 },
        Slot { present: has_flag(flag, 0x20), kind: FieldKind::BitLong, default: 0 }]
}

/// The vertex `i` built from the point rows `pts`, the bulge rows `bulges`
/// and the width rows `widths`: a vertex without a bulge has bulge 0.0,
/// one without widths has the constant width `cw` at both ends.
pub open spec fn lw_vertex(pts: Seq<Seq<FieldModel>>, bulges: Seq<Seq<FieldModel>>, widths: Seq<Seq<FieldModel>>,
    cw: u64, i: int) -> LwVertex
{
    LwVertex {
        location: (field_double(pts[i][0]), field_double(pts[i][1])),
        bulge: if i < bulges.len() { field_double(bulges[i][0]) } else { 0 },
        start_width: if i < widths.len() { field_double(widths[i][0]) } else { cw },
        end_width: if i < widths.len() { field_double(widths[i][1]) } else { cw },
    }
}

/// The vertices built from the rows read: one per point row.
pub open spec fn lw_vertices(pts: Seq<Seq<FieldModel>>, bulges: Seq<Seq<FieldModel>>, widths: Seq<Seq<FieldModel>>,
    cw: u64) -> Seq<LwVertex>
{
    Seq::new(pts.len(), |i: int| lw_vertex(pts, bulges, widths, cw, i))
}

/// The normal of a polyline with the flag `flag`, read from `m` (data of
/// `len` bytes): three BitDoubles when bit 0 is set, else (0, 0, 1).
pub open spec fn spec_lwpolyline_normal(m: StreamsModel, len: nat, flag: i16)
    -> Result<((u64, u64, u64), StreamsModel), DxfError>
{
    if has_flag(flag, 1) {
        match spec_3bit_double(m.object) {
            Err(e) => Err(e),
            Ok((p, c)) => Ok((p, on_object(m, len, c))),
        }
    } else {
        Ok(((0u64, 0u64, one_bits()), m))
    }
}

/// The rows of a polyline read from `m` after its counts: `np` points
/// (two raw doubles each), `counts[0]` bulges (a BitDouble each),
/// `counts[1]` vertex ids (a BitLong each, not kept) and `counts[2]`
/// width pairs (two BitDoubles each).  Gives the point, bulge and width
/// rows.
pub open spec fn spec_lwpolyline_rows(m: StreamsModel, len: nat, v: DxfVersion, reference: u64, np: nat,
    counts: Seq<FieldModel>)
    -> Result<((Seq<Seq<FieldModel>>, Seq<Seq<FieldModel>>, Seq<Seq<FieldModel>>), StreamsModel), DxfError>
{
    match spec_repeated(m, len, v, reference, seq![FieldKind::RawDouble, FieldKind::RawDouble], np) {
        Err(e) => Err(e),
        Ok((pts, m1)) => match spec_repeated(m1, len, v, reference, seq![FieldKind::BitDouble],
            field_count(counts[0])) {
            Err(e) => Err(e),
            Ok((bs, m2)) => match spec_repeated(m2, len, v, reference, seq![FieldKind::BitLong],
                field_count(counts[1])) {
                Err(e) => Err(e),
                Ok((_ids, m3)) => match spec_repeated(m3, len, v, reference,
                    seq![FieldKind::BitDouble, FieldKind::BitDouble], field_count(counts[2])) {
                    Err(e) => Err(e),
                    Ok((ws, m4)) => Ok(((pts, bs, ws), m4)),
                },
            },
        },
    }
}

/// The object data of a lightweight polyline read from the streams `m`
/// (data of `len` bytes, version `v`) with the common properties `ec`:
/// the flag (a BitShort; bit 9 set means closed), the values of
/// [`lwpolyline_value_slots`], the normal (see
/// [`spec_lwpolyline_normal`]), the point count (a BitLong taken as a
/// `usize`; above [`MAX_LWPOLYLINE_POINTS`] the data is refused), the
/// counts of [`lwpolyline_count_slots`] and the rows of
/// [`spec_lwpolyline_rows`], from which the vertices are built (see
/// [`lw_vertices`]).
#[verifier::opaque]
pub open spec fn spec_lwpolyline_body(m: StreamsModel, len: nat, v: DxfVersion, reference: u64, ec: EntityCommon)
    -> Result<(LwPolylineModel, StreamsModel), DxfError>
{
    match spec_field(m, len, v, reference, FieldKind::BitShort) {
        Err(e) => Err(e),
        Ok((f, m1)) => {
            let flag = field_short(f);
            match spec_slots(m1, len, v, reference, lwpolyline_value_slots(flag)) {
                Err(e) => Err(e),
                Ok((vals, m2)) => match spec_lwpolyline_normal(m2, len, flag) {
                    Err(e) => Err(e),
                    Ok((normal, m3)) => match spec_field(m3, len, v, reference, FieldKind::BitLong) {
                        Err(e) => Err(e),
                        Ok((np, m4)) => if field_count(np) > MAX_LWPOLYLINE_POINTS {
                            Err(DxfError::InvalidFormat)
                        } else {
                            match spec_slots(m4, len, v, reference, lwpolyline_count_slots(v, flag)) {
                                Err(e) => Err(e),
                                Ok((counts, m5)) => match spec_lwpolyline_rows(m5, len, v, reference,
                                    field_count(np), counts) {
                                    Err(e) => Err(e),
                                    Ok(((pts, bs, ws), m6)) => {
                                        let cw = field_double(vals[0]);
                                        Ok((LwPolylineModel {
                                            common: ec,
                                            vertices: lw_vertices(pts, bs, ws, cw),
                                            is_closed: has_flag(flag, 0x200),
                                            constant_width: cw,
                                            elevation: field_double(vals[1]),
                                            thickness: field_double(vals[2]),
                                            normal,
                                        }, m6))
                                    },
                                },
                            }
                        },
                    },
                },
            }
        },
    }
}

/// A lightweight polyline read from the streams `m` of `data` (version
/// `v`, object data starting at bit `init`, current handle `reference`):
/// its common entity data (see [`spec_common_entity`]), then its object
/// data (see [`spec_lwpolyline_body`]).
pub open spec fn spec_lwpolyline(m: StreamsModel, data: Seq<u8>, v: DxfVersion, init: int, reference: u64)
    -> Result<((CommonModel, CadEntityTemplateData, LwPolylineModel), StreamsModel), DxfError>
{
    match spec_common_entity(m, data, v, init) {
        Err(e) => Err(e),
        Ok(((cm, ent, ec), m1)) => match spec_lwpolyline_body(m1, data.len(), v, reference, ec) {
            Err(e) => Err(e),
            Ok((p, m2)) => Ok(((cm, ent, p), m2)),
        },
    }
}

/// Read the normal of a polyline with the flag `flag` (see
/// [`spec_lwpolyline_normal`]).
fn read_lwpolyline_normal(streams: &mut StreamSet, flag: i16) -> (r: Result<(u64, u64, u64), DxfError>)
    requires
        streams_of(*old(streams), old(streams).object_reader.data(), old(streams).object_reader.spec_version()),
    ensures
        streams_of(*final(streams), old(streams).object_reader.data(), old(streams).object_reader.spec_version()),
        final(streams).current_handle == old(streams).current_handle,
        match spec_lwpolyline_normal(model_of(*old(streams)), old(streams).object_reader.data().len(), flag) {
            Err(e) => r matches Err(e2) && e2 == e,
            Ok((p, m)) => r == Ok::<(u64, u64, u64), DxfError>(p) && model_of(*final(streams)) == m,
        },
{
    if flag & 1 != 0 {
        streams.object_reader.read_3bit_double()
    } else {
        Ok((0, 0, 0x3FF0_0000_0000_0000))
    }
}

/// Read the rows of a polyline (see [`spec_lwpolyline_rows`]) for `np`
/// points and the counts `counts`.
fn read_lwpolyline_rows(streams: &mut StreamSet, np: usize, counts: &Vec<FieldValue>)
    -> (r: Result<(Vec<Vec<FieldValue>>, Vec<Vec<FieldValue>>,
        Vec<Vec<FieldValue>>), DxfError>)
    requires
        streams_of(*old(streams), old(streams).object_reader.data(), old(streams).object_reader.spec_version()),
        counts.len() == 3,
    ensures
        streams_of(*final(streams), old(streams).object_reader.data(), old(streams).object_reader.spec_version()),
        final(streams).current_handle == old(streams).current_handle,
        match spec_lwpolyline_rows(model_of(*old(streams)), old(streams).object_reader.data().len(),
            old(streams).object_reader.spec_version(), old(streams).current_handle, np as nat,
            fields_model(counts@)) {
            Err(e) => r matches Err(e2) && e2 == e,
            Ok(((pts, bs, ws), m)) => r matches Ok((p, b, w)) && rows_model(p@) == pts && rows_model(b@) == bs
                && rows_model(w@) == ws && model_of(*final(streams)) == m,
        },
{
    let point_kinds = vec![FieldKind::RawDouble, FieldKind::RawDouble];
    let bulge_kinds = vec![FieldKind::BitDouble];
    let id_kinds = vec![FieldKind::BitLong];
    let width_kinds = vec![FieldKind::BitDouble, FieldKind::BitDouble];
    proof {
        assert(point_kinds@ =~= seq![FieldKind::RawDouble, FieldKind::RawDouble]);
        assert(bulge_kinds@ =~= seq![FieldKind::BitDouble]);
        assert(id_kinds@ =~= seq![FieldKind::BitLong]);
        assert(width_kinds@ =~= seq![FieldKind::BitDouble, FieldKind::BitDouble]);
    }
    let pts = read_repeated(streams, &point_kinds, np)?;
    let bulges = read_repeated(streams, &bulge_kinds, field_count_of(&counts[0]))?;
    let _ids = read_repeated(streams, &id_kinds, field_count_of(&counts[1]))?;
    let widths = read_repeated(streams, &width_kinds, field_count_of(&counts[2]))?;
    Ok((pts, bulges, widths))
}

/// Rows read for a polyline have two values per point, one per bulge and
/// two per width pair.
pub proof fn lemma_lwpolyline_rows_shape(m: StreamsModel, len: nat, v: DxfVersion, reference: u64, np: nat,
    counts: Seq<FieldModel>)
    ensures
        spec_lwpolyline_rows(m, len, v, reference, np, counts) matches Ok(((pts, bs, ws), _)) ==> {
            &&& forall|j: int| 0 <= j < pts.len() ==> #[trigger] pts[j].len() == 2
            &&& forall|j: int| 0 <= j < bs.len() ==> #[trigger] bs[j].len() == 1
            &&& forall|j: int| 0 <= j < ws.len() ==> #[trigger] ws[j].len() == 2
        },
{
    let pk = seq![FieldKind::RawDouble, FieldKind::RawDouble];
    let bk = seq![FieldKind::BitDouble];
    let ik = seq![FieldKind::BitLong];
    let wk = seq![FieldKind::BitDouble, FieldKind::BitDouble];
    lemma_repeated_shape(m, len, v, reference, pk, np);
    if let Ok((pts, m1)) = spec_repeated(m, len, v, reference, pk, np) {
        lemma_repeated_shape(m1, len, v, reference, bk, field_count(counts[0]));
        if let Ok((bs, m2)) = spec_repeated(m1, len, v, reference, bk, field_count(counts[0])) {
            if let Ok((ids, m3)) = spec_repeated(m2, len, v, reference, ik, field_count(counts[1])) {
                lemma_repeated_shape(m3, len, v, reference, wk, field_count(counts[2]));
            }
        }
    }
}

/// The vertices of a polyline built from its point rows `pts`, bulge rows
/// `bulges` and width rows `widths` (see [`lw_vertices`]), with the
/// constant width `cw`.
fn build_lw_vertices(pts: &Vec<Vec<FieldValue>>, bulges: &Vec<Vec<FieldValue>>, widths: &Vec<Vec<FieldValue>>,
    cw: u64) -> (r: Vec<LwVertex>)
    requires
        forall|j: int| 0 <= j < pts@.len() ==> #[trigger] rows_model(pts@)[j].len() == 2,
        forall|j: int| 0 <= j < bulges@.len() ==> #[trigger] rows_model(bulges@)[j].len() == 1,
        forall|j: int| 0 <= j < widths@.len() ==> #[trigger] rows_model(widths@)[j].len() == 2,
    ensures
        r@ == lw_vertices(rows_model(pts@), rows_model(bulges@), rows_model(widths@), cw),
{
    let ghost pm = rows_model(pts@);
    let ghost bm = rows_model(bulges@);
    let ghost wm = rows_model(widths@);
    let mut vertices: Vec<LwVertex> = Vec::new();
    let mut i: usize = 0;
    while i < pts.len()
        invariant
            i <= pts@.len(),
            pm == rows_model(pts@),
            bm == rows_model(bulges@),
            wm == rows_model(widths@),
            forall|j: int| 0 <= j < pts@.len() ==> #[trigger] pm[j].len() == 2,
            forall|j: int| 0 <= j < bulges@.len() ==> #[trigger] bm[j].len() == 1,
            forall|j: int| 0 <= j < widths@.len() ==> #[trigger] wm[j].len() == 2,
            vertices@ =~= lw_vertices(pm, bm, wm, cw).take(i as int),
        decreases pts@.len() - i,
    {
        assert(pm[i as int] == fields_model(pts@[i as int]@));
        assert(pm[i as int].len() == 2);
        let location = (field_double_of(&pts[i][0]), field_double_of(&pts[i][1]));
        let bulge = if i < bulges.len() {
            assert(bm[i as int] == fields_model(bulges@[i as int]@));
            assert(bm[i as int].len() == 1);
            field_double_of(&bulges[i][0])
        } else {
            0
        };
        let (start_width, end_width) = if i < widths.len() {
            assert(wm[i as int] == fields_model(widths@[i as int]@));
            assert(wm[i as int].len() == 2);
            (field_double_of(&widths[i][0]), field_double_of(&widths[i][1]))
        } else {
            (cw, cw)
        };
        vertices.push(LwVertex { location, bulge, start_width, end_width });
        i = i + 1;
    }
    vertices
}

impl DwgObjectReader {
    /// Read the object data of a lightweight polyline whose common
    /// properties are `common` (see [`spec_lwpolyline_body`]).
    #[verifier::spinoff_prover]
    fn read_lwpolyline_body(&mut self, streams: &mut StreamSet, common: EntityCommon)
        -> (r: Result<LwPolylineEntity, DxfError>)
        requires
            old(self).inv(),
            streams_of(*old(streams), old(self).data(), old(self).spec_version()),
        ensures
            *final(self) == *old(self),
            streams_of(*final(streams), old(self).data(), old(self).spec_version()),
            final(streams).current_handle == old(streams).current_handle,
            match spec_lwpolyline_body(model_of(*old(streams)), old(self).data().len(), old(self).spec_version(),
                old(streams).current_handle, common) {
                Err(e) => r matches Err(e2) && e2 == e,
                Ok((p, m)) => r matches Ok(x) && x@ == p && model_of(*final(streams)) == m,
            },
    {
        proof { reveal(spec_lwpolyline_body); }
        let ghost len = self.data().len();
        let ghost reference = streams.current_handle;
        let v = self.version();
        let flag = field_short_of(&read_stream_field(streams, FieldKind::BitShort)?);
        let value_slots = vec![Slot { present: flag & 4 != 0, kind: FieldKind::BitDouble, default: 0 },
            Slot { present: flag & 8 != 0, kind: FieldKind::BitDouble, default: 0 },
            Slot { present: flag & 2 != 0, kind: FieldKind::BitDouble, default: 0 }];
        proof {
            assert(value_slots@ =~= lwpolyline_value_slots(flag));
            lemma_slots_len(model_of(*streams), len, v, reference, value_slots@);
        }
        let vals = read_slots(streams, &value_slots)?;
        let normal = read_lwpolyline_normal(streams, flag)?;
        let np_field = read_stream_field(streams, FieldKind::BitLong)?;
        let np = field_count_of(&np_field);
        if np > MAX_LWPOLYLINE_POINTS {
            return Err(DxfError::InvalidFormat);
        }
        let count_slots = vec![Slot { present: flag & 0x10 != 0, kind: FieldKind::BitLong, default: 0 },
            Slot { present: v.at_least(DxfVersion::AC1024) && flag & 0x400 != 0, kind: FieldKind::BitLong,
                default: 0 },
            Slot { present: flag & 0x20 != 0, kind: FieldKind::BitLong, default: 0 }];
        proof {
            assert(count_slots@ =~= lwpolyline_count_slots(v, flag));
            lemma_slots_len(model_of(*streams), len, v, reference, count_slots@);
        }
        let counts = read_slots(streams, &count_slots)?;
        let ghost m5 = model_of(*streams);
        proof { lemma_lwpolyline_rows_shape(m5, len, v, reference, np as nat, fields_model(counts@)); }
        let (pts, bulges, widths) = read_lwpolyline_rows(streams, np, &counts)?;
        let constant_width = field_double_of(&vals[0]);
        let vertices = build_lw_vertices(&pts, &bulges, &widths, constant_width);
        Ok(LwPolylineEntity {
            common,
            vertices,
            is_closed: flag & 0x200 != 0,
            constant_width,
            elevation: field_double_of(&vals[1]),
            thickness: field_double_of(&vals[2]),
            normal,
        })
    }

    /// Read a lightweight polyline (see [`spec_lwpolyline`]).
    pub fn read_lwpolyline(&mut self, streams: &mut StreamSet)
        -> (r: Result<CadTemplate<XDataValue, LwPolylineEntity>, DxfError>)
        requires
            old(self).inv(),
            streams_of(*old(streams), old(self).data(), old(self).spec_version()),
        ensures
            *final(self) == *old(self),
            streams_of(*final(streams), old(self).data(), old(self).spec_version()),
            final(streams).current_handle == old(streams).current_handle,
            match spec_lwpolyline(model_of(*old(streams)), old(self).data(), old(self).spec_version(),
                old(self).initial_pos(), old(streams).current_handle) {
                Err(e) => r matches Err(e2) && e2 == e,
                Ok(((cm, ent, p), m)) => r matches Ok(CadTemplate::Entity { common, entity_data, entity })
                    && common_model(common) == cm && entity_data == ent && entity@ == p
                    && model_of(*final(streams)) == m,
            },
    {
        let (common, entity_data, entity_common) = self.read_common_entity_data(streams)?;
        let entity = self.read_lwpolyline_body(streams, entity_common)?;
        Ok(CadTemplate::Entity { common, entity_data, entity })
    }
}

/// A 2D polyline: its common properties, flags (as stored), start and
/// end widths, elevation, thickness and normal.  Its vertices are separate
/// entities.
#[derive(Debug, Clone, Copy)]
pub struct Polyline2DEntity {
    pub common: EntityCommon,
    pub flags: u16,
    pub start_width: u64,
    pub end_width: u64,
    pub elevation: u64,
    pub thickness: u64,
    pub normal: (u64, u64, u64),
}

/// A 3D polyline or a polyface mesh: its common properties (its flags are
/// not kept; its vertices are separate entities).
#[derive(Debug, Clone, Copy)]
pub struct PolylineHeaderEntity {
    pub common: EntityCommon,
}

/// How a polygon mesh is smoothed.
#[derive(Debug, Clone, Copy, PartialEq, Eq, Structural)]
pub enum SurfaceSmoothType {
    NoSmooth,
    Quadratic,
    Cubic,
    Bezier,
}

/// A polygon mesh: its common properties, flags (as stored), vertex
/// counts and smoothing densities in M and N, and smoothing.
#[derive(Debug, Clone, Copy)]
pub struct PolygonMeshEntity {
    pub common: EntityCommon,
    pub flags: i16,
    pub m_vertex_count: i16,
    pub n_vertex_count: i16,
    pub m_smooth_density: i16,
    pub n_smooth_density: i16,
    pub smooth_type: SurfaceSmoothType,
}

/// The smoothing of a polygon mesh with the curve type `t`: 5 quadratic,
/// 6 cubic, 8 Bezier, any other none.
pub open spec fn smooth_type_of(t: i16) -> SurfaceSmoothType {
    if t == 5 {
        SurfaceSmoothType::Quadratic
    } else if t == 6 {
        SurfaceSmoothType::Cubic
    } else if t == 8 {
        SurfaceSmoothType::Bezier
    } else {
        SurfaceSmoothType::NoSmooth
    }
}

/// The fields of a 2D polyline: flags, curve type (not kept), start and
/// end widths, thickness, elevation and normal.
pub open spec fn polyline_2d_layout() -> Seq<FieldKind> {
    seq![FieldKind::BitShort, FieldKind::BitShort, FieldKind::BitDouble, FieldKind::BitDouble,
        FieldKind::Thickness, FieldKind::BitDouble, FieldKind::Extrusion]
}

/// The 2D polyline with the common properties `ec` and the fields `fs`.
pub open spec fn polyline_2d_of(ec: EntityCommon, fs: Seq<FieldModel>) -> Polyline2DEntity {
    Polyline2DEntity {
        common: ec,
        flags: field_short(fs[0]) as u16,
        start_width: field_double(fs[2]),
        end_width: field_double(fs[3]),
        elevation: field_double(fs[5]),
        thickness: field_double(fs[4]),
        normal: field_point(fs[6]),
    }
}

/// The fields of a 3D polyline: its curve and spline flags (not kept).
pub open spec fn polyline_3d_layout() -> Seq<FieldKind> {
    seq![FieldKind::RawChar, FieldKind::RawChar]
}

/// The fields of a polyface mesh: its vertex and face counts (not kept).
pub open spec fn polyface_mesh_layout() -> Seq<FieldKind> {
    seq![FieldKind::BitShort, FieldKind::BitShort]
}

/// The polyline header with the common properties `ec`.
pub open spec fn polyline_header_of(ec: EntityCommon, fs: Seq<FieldModel>) -> PolylineHeaderEntity {
    PolylineHeaderEntity { common: ec }
}

/// The fields of a polygon mesh: flags, curve type, vertex counts and
/// smoothing densities in M and N (six BitShorts).
pub open spec fn polygon_mesh_layout() -> Seq<FieldKind> {
    seq![FieldKind::BitShort, FieldKind::BitShort, FieldKind::BitShort, FieldKind::BitShort,
        FieldKind::BitShort, FieldKind::BitShort]
}

/// The polygon mesh with the common properties `ec` and the fields `fs`.
pub open spec fn polygon_mesh_of(ec: EntityCommon, fs: Seq<FieldModel>) -> PolygonMeshEntity {
    PolygonMeshEntity {
        common: ec,
        flags: field_short(fs[0]),
        m_vertex_count: field_short(fs[2]),
        n_vertex_count: field_short(fs[3]),
        m_smooth_density: field_short(fs[4]),
        n_smooth_density: field_short(fs[5]),
        smooth_type: smooth_type_of(field_short(fs[1])),
    }
}

/// The vertex handles of a polyline, absolute, read from the handle
/// stream of `m` (data of `len` bytes, version `v`): from R2004 on
/// `owned` owned objects (none when `owned` is negative), before the
/// first and the last vertex; then the end of the sequence.  Gives the
/// first vertex, last vertex and end-of-sequence handles (0 where none is
/// read) and the owned handles.
pub open spec fn spec_polyline_handles(m: StreamsModel, len: nat, v: DxfVersion, owned: i32)
    -> Result<((u64, u64, u64), Seq<u64>, StreamsModel), DxfError>
{
    let vs = if version_at_least(v, DxfVersion::AC1018) {
        match spec_handle_list(m.handles, m.handles_pos, len, 0, if owned < 0 { 0 } else { owned as nat }) {
            Err(e) => Err(e),
            Ok((hs, ch, hp)) => Ok(((0u64, 0u64, hs), StreamsModel { handles: ch, handles_pos: hp, ..m })),
        }
    } else {
        match spec_next_ref(m, len, 0) {
            Err(e) => Err(e),
            Ok((first, m1)) => match spec_next_ref(m1, len, 0) {
                Err(e) => Err(e),
                Ok((last, m2)) => Ok(((first, last, Seq::<u64>::empty()), m2)),
            },
        }
    };
    match vs {
        Err(e) => Err(e),
        Ok(((first, last, hs), m3)) => match spec_next_ref(m3, len, 0) {
            Err(e) => Err(e),
            Ok((seqend, m4)) => Ok(((first, last, seqend), hs, m4)),
        },
    }
}

/// A polyline read from the streams `m` of `data` (version `v`, object
/// data starting at bit `init`, current handle `reference`): its common
/// entity data and the fields of `ks`, its owned-object count (see
/// [`spec_owned_count`]) and its vertex handles (see
/// [`spec_polyline_handles`]).
pub open spec fn spec_polyline(m: StreamsModel, data: Seq<u8>, v: DxfVersion, init: int, reference: u64,
    ks: Seq<FieldKind>)
    -> Result<((CommonModel, CadEntityTemplateData, EntityCommon, Seq<FieldModel>, (u64, u64, u64), Seq<u64>),
        StreamsModel), DxfError>
{
    let len = data.len();
    match spec_common_entity(m, data, v, init) {
        Err(e) => Err(e),
        Ok(((cm, ent, ec), m1)) => match spec_fields(m1, len, v, reference, ks) {
            Err(e) => Err(e),
            Ok((fs, m2)) => match spec_owned_count(m2, len, v, reference, true) {
                Err(e) => Err(e),
                Ok((owned, m3)) => match spec_polyline_handles(m3, len, v, owned) {
                    Err(e) => Err(e),
                    Ok((h, hs, m4)) => Ok(((cm, ent, ec, fs, h, hs), m4)),
                },
            },
        },
    }
}

/// `r` is the polyline read as `res` (see [`spec_polyline`]), built from
/// its common properties and fields by `build`, with its vertex handles,
/// and the streams end as `res` says.
pub open spec fn polyline_read<E>(r: Result<CadTemplate<XDataValue, E>, DxfError>,
    res: Result<((CommonModel, CadEntityTemplateData, EntityCommon, Seq<FieldModel>, (u64, u64, u64), Seq<u64>),
        StreamsModel), DxfError>,
    build: spec_fn(EntityCommon, Seq<FieldModel>) -> E, s: StreamSet) -> bool
{
    match res {
        Err(e) => r matches Err(e2) && e2 == e,
        Ok(((cm, ent, ec, fs, h, hs), m)) => r matches Ok(CadTemplate::Polyline { common, entity_data,
            polyline_data, entity })
            && common_model(common) == cm && entity_data == ent && entity == build(ec, fs)
            && polyline_data.first_vertex_handle == h.0 && polyline_data.last_vertex_handle == h.1
            && polyline_data.seqend_handle == h.2 && polyline_data.owned_objects_handles@ == hs
            && model_of(s) == m,
    }
}

/// Read the owned-object count of a polyline (see [`spec_owned_count`]).
fn read_owned_count(streams: &mut StreamSet) -> (r: Result<i32, DxfError>)
    requires
        streams_of(*old(streams), old(streams).object_reader.data(), old(streams).object_reader.spec_version()),
    ensures
        streams_of(*final(streams), old(streams).object_reader.data(), old(streams).object_reader.spec_version()),
        final(streams).current_handle == old(streams).current_handle,
        match spec_owned_count(model_of(*old(streams)), old(streams).object_reader.data().len(),
            old(streams).object_reader.spec_version(), old(streams).current_handle, true) {
            Err(e) => r matches Err(e2) && e2 == e,
            Ok((n, m)) => r == Ok::<i32, DxfError>(n) && model_of(*final(streams)) == m,
        },
{
    if streams.object_reader.version().at_least(DxfVersion::AC1018) {
        match read_stream_field(streams, FieldKind::BitLong)? {
            FieldValue::Long(n) => Ok(n),
            _ => Ok(0),
        }
    } else {
        Ok(0)
    }
}

/// Read the vertex handles of a polyline with `owned` owned objects (see
/// [`spec_polyline_handles`]).
fn read_polyline_handles(streams: &mut StreamSet, owned: i32) -> (r: Result<CadPolylineTemplateData, DxfError>)
    requires
        streams_of(*old(streams), old(streams).object_reader.data(), old(streams).object_reader.spec_version()),
    ensures
        streams_of(*final(streams), old(streams).object_reader.data(), old(streams).object_reader.spec_version()),
        final(streams).current_handle == old(streams).current_handle,
        match spec_polyline_handles(model_of(*old(streams)), old(streams).object_reader.data().len(),
            old(streams).object_reader.spec_version(), owned) {
            Err(e) => r matches Err(e2) && e2 == e,
            Ok((h, hs, m)) => r matches Ok(d) && d.first_vertex_handle == h.0 && d.last_vertex_handle == h.1
                && d.seqend_handle == h.2 && d.owned_objects_handles@ == hs && model_of(*final(streams)) == m,
        },
{
    let ghost m0 = model_of(*streams);
    let (first, last, hs) = if streams.object_reader.version().at_least(DxfVersion::AC1018) {
        let n: usize = if owned < 0 { 0 } else { owned as usize };
        let hs = read_handle_list(&mut streams.handles_reader, 0, n)?;
        proof {
            assert(spec_handle_list(m0.handles, m0.handles_pos, streams.object_reader.data().len(), 0, n as nat)
                matches Ok((l, ch, hp)) && model_of(*streams) == (StreamsModel { handles: ch, handles_pos: hp, ..m0 }));
        }
        (0, 0, hs)
    } else {
        let first = streams.handles_reader.handle_reference()?;
        let last = streams.handles_reader.handle_reference()?;
        (first, last, Vec::new())
    };
    let seqend = streams.handles_reader.handle_reference()?;
    Ok(CadPolylineTemplateData {
        first_vertex_handle: first,
        last_vertex_handle: last,
        owned_objects_handles: hs,
        seqend_handle: seqend,
    })
}

/// The smoothing of a polygon mesh with the curve type `t` (see
/// [`smooth_type_of`]).
fn smooth_type_from(t: i16) -> (r: SurfaceSmoothType)
    ensures
        r == smooth_type_of(t),
{
    if t == 5 {
        SurfaceSmoothType::Quadratic
    } else if t == 6 {
        SurfaceSmoothType::Cubic
    } else if t == 8 {
        SurfaceSmoothType::Bezier
    } else {
        SurfaceSmoothType::NoSmooth
    }
}

impl DwgObjectReader {
    /// Read a polyline's common entity data, the fields of `kinds`, its
    /// owned-object count and its vertex handles (see [`spec_polyline`]).
    fn read_polyline_parts(&mut self, streams: &mut StreamSet, kinds: &Vec<FieldKind>)
        -> (r: Result<(CadTemplateCommon<XDataValue>, CadEntityTemplateData, EntityCommon, Vec<FieldValue>,
            CadPolylineTemplateData), DxfError>)
        requires
            old(self).inv(),
            streams_of(*old(streams), old(self).data(), old(self).spec_version()),
        ensures
            *final(self) == *old(self),
            streams_of(*final(streams), old(self).data(), old(self).spec_version()),
            final(streams).current_handle == old(streams).current_handle,
            match spec_polyline(model_of(*old(streams)), old(self).data(), old(self).spec_version(),
                old(self).initial_pos(), old(streams).current_handle, kinds@) {
                Err(e) => r matches Err(e2) && e2 == e,
                Ok(((cm, ent, ec, fs, h, hs), m)) => r matches Ok((c, d, e, vs, p)) && common_model(c) == cm
                    && d == ent && e == ec && fields_model(vs@) == fs && vs@.len() == kinds@.len()
                    && p.first_vertex_handle == h.0 && p.last_vertex_handle == h.1 && p.seqend_handle == h.2
                    && p.owned_objects_handles@ == hs && model_of(*final(streams)) == m,
            },
    {
        let (common, entity_data, ec) = self.read_common_entity_data(streams)?;
        proof {
            lemma_fields_len(model_of(*streams), self.data().len(), self.spec_version(), streams.current_handle,
                kinds@);
        }
        let fs = read_stream_fields(streams, kinds)?;
        let owned = read_owned_count(streams)?;
        let p = read_polyline_handles(streams, owned)?;
        Ok((common, entity_data, ec, fs, p))
    }

    /// Read a 2D polyline (see [`polyline_2d_layout`] and
    /// [`polyline_2d_of`]).
    pub fn read_polyline_2d(&mut self, streams: &mut StreamSet)
        -> (r: Result<CadTemplate<XDataValue, Polyline2DEntity>, DxfError>)
        requires
            old(self).inv(),
            streams_of(*old(streams), old(self).data(), old(self).spec_version()),
        ensures
            *final(self) == *old(self),
            streams_of(*final(streams), old(self).data(), old(self).spec_version()),
            final(streams).current_handle == old(streams).current_handle,
            polyline_read(r, spec_polyline(model_of(*old(streams)), old(self).data(), old(self).spec_version(),
                old(self).initial_pos(), old(streams).current_handle, polyline_2d_layout()),
                |ec: EntityCommon, fs: Seq<FieldModel>| polyline_2d_of(ec, fs), *final(streams)),
    {
        let kinds = vec![FieldKind::BitShort, FieldKind::BitShort, FieldKind::BitDouble, FieldKind::BitDouble,
            FieldKind::Thickness, FieldKind::BitDouble, FieldKind::Extrusion];
        proof { assert(kinds@ =~= polyline_2d_layout()); }
        let (common, entity_data, ec, fs, polyline_data) = self.read_polyline_parts(streams, &kinds)?;
        let entity = Polyline2DEntity {
            common: ec,
            flags: field_short_of(&fs[0]) as u16,
            start_width: field_double_of(&fs[2]),
            end_width: field_double_of(&fs[3]),
            elevation: field_double_of(&fs[5]),
            thickness: field_double_of(&fs[4]),
            normal: field_point_of(&fs[6]),
        };
        Ok(CadTemplate::Polyline { common, entity_data, polyline_data, entity })
    }

    /// Read a 3D polyline (see [`polyline_3d_layout`]).
    pub fn read_polyline_3d(&mut self, streams: &mut StreamSet)
        -> (r: Result<CadTemplate<XDataValue, PolylineHeaderEntity>, DxfError>)
        requires
            old(self).inv(),
            streams_of(*old(streams), old(self).data(), old(self).spec_version()),
        ensures
            *final(self) == *old(self),
            streams_of(*final(streams), old(self).data(), old(self).spec_version()),
            final(streams).current_handle == old(streams).current_handle,
            polyline_read(r, spec_polyline(model_of(*old(streams)), old(self).data(), old(self).spec_version(),
                old(self).initial_pos(), old(streams).current_handle, polyline_3d_layout()),
                |ec: EntityCommon, fs: Seq<FieldModel>| polyline_header_of(ec, fs), *final(streams)),
    {
        let kinds = vec![FieldKind::RawChar, FieldKind::RawChar];
        proof { assert(kinds@ =~= polyline_3d_layout()); }
        let (common, entity_data, ec, _fs, polyline_data) = self.read_polyline_parts(streams, &kinds)?;
        Ok(CadTemplate::Polyline { common, entity_data, polyline_data, entity: PolylineHeaderEntity { common: ec } })
    }

    /// Read a polyface mesh (see [`polyface_mesh_layout`]).
    pub fn read_polyface_mesh(&mut self, streams: &mut StreamSet)
        -> (r: Result<CadTemplate<XDataValue, PolylineHeaderEntity>, DxfError>)
        requires
            old(self).inv(),
            streams_of(*old(streams), old(self).data(), old(self).spec_version()),
        ensures
            *final(self) == *old(self),
            streams_of(*final(streams), old(self).data(), old(self).spec_version()),
            final(streams).current_handle == old(streams).current_handle,
            polyline_read(r, spec_polyline(model_of(*old(streams)), old(self).data(), old(self).spec_version(),
                old(self).initial_pos(), old(streams).current_handle, polyface_mesh_layout()),
                |ec: EntityCommon, fs: Seq<FieldModel>| polyline_header_of(ec, fs), *final(streams)),
    {
        let kinds = vec![FieldKind::BitShort, FieldKind::BitShort];
        proof { assert(kinds@ =~= polyface_mesh_layout()); }
        let (common, entity_data, ec, _fs, polyline_data) = self.read_polyline_parts(streams, &kinds)?;
        Ok(CadTemplate::Polyline { common, entity_data, polyline_data, entity: PolylineHeaderEntity { common: ec } })
    }

    /// Read a polygon mesh (see [`polygon_mesh_layout`] and
    /// [`polygon_mesh_of`]).
    pub fn read_polygon_mesh(&mut self, streams: &mut StreamSet)
        -> (r: Result<CadTemplate<XDataValue, PolygonMeshEntity>, DxfError>)
        requires
            old(self).inv(),
            streams_of(*old(streams), old(self).data(), old(self).spec_version()),
        ensures
            *final(self) == *old(self),
            streams_of(*final(streams), old(self).data(), old(self).spec_version()),
            final(streams).current_handle == old(streams).current_handle,
            polyline_read(r, spec_polyline(model_of(*old(streams)), old(self).data(), old(self).spec_version(),
                old(self).initial_pos(), old(streams).current_handle, polygon_mesh_layout()),
                |ec: EntityCommon, fs: Seq<FieldModel>| polygon_mesh_of(ec, fs), *final(streams)),
    {
        let kinds = vec![FieldKind::BitShort, FieldKind::BitShort, FieldKind::BitShort, FieldKind::BitShort,
            FieldKind::BitShort, FieldKind::BitShort];
        proof { assert(kinds@ =~= polygon_mesh_layout()); }
        let (common, entity_data, ec, fs, polyline_data) = self.read_polyline_parts(streams, &kinds)?;
        let entity = PolygonMeshEntity {
            common: ec,
            flags: field_short_of(&fs[0]),
            m_vertex_count: field_short_of(&fs[2]),
            n_vertex_count: field_short_of(&fs[3]),
            m_smooth_density: field_short_of(&fs[4]),
            n_smooth_density: field_short_of(&fs[5]),
            smooth_type: smooth_type_from(field_short_of(&fs[1])),
        };
        Ok(CadTemplate::Polyline { common, entity_data, polyline_data, entity })
    }
}


/// What [`DwgObjectReader::read_lwpolyline`] gives and leaves: its result `r` and
/// its streams, from `st0` to `st1`, for the reader `before`.
pub open spec fn read_lwpolyline_outcome(before: DwgObjectReader, st0: StreamSet, st1: StreamSet,
    r: Result<CadTemplate<XDataValue, LwPolylineEntity>, DxfError>) -> bool {
    &&& streams_of(st1, before.data(), before.spec_version())
    &&& st1.current_handle == st0.current_handle
    &&& match spec_lwpolyline(model_of(st0), before.data(), before.spec_version(),
            before.initial_pos(), st0.current_handle) {
            Err(e) => r matches Err(e2) && e2 == e,
            Ok(((cm, ent, p), m)) => r matches Ok(CadTemplate::Entity { common, entity_data, entity })
                && common_model(common) == cm && entity_data == ent && entity@ == p
                && model_of(st1) == m,
        }
}

/// What [`DwgObjectReader::read_polyface_mesh`] gives and leaves: its result `r` and
/// its streams, from `st0` to `st1`, for the reader `before`.
pub open spec fn read_polyface_mesh_outcome(before: DwgObjectReader, st0: StreamSet, st1: StreamSet,
    r: Result<CadTemplate<XDataValue, PolylineHeaderEntity>, DxfError>) -> bool {
    &&& streams_of(st1, before.data(), before.spec_version())
    &&& st1.current_handle == st0.current_handle
    &&& polyline_read(r, spec_polyline(model_of(st0), before.data(), before.spec_version(),
            before.initial_pos(), st0.current_handle, polyface_mesh_layout()),
            |ec: EntityCommon, fs: Seq<FieldModel>| polyline_header_of(ec, fs), st1)
}

/// What [`DwgObjectReader::read_polygon_mesh`] gives and leaves: its result `r` and
/// its streams, from `st0` to `st1`, for the reader `before`.
pub open spec fn read_polygon_mesh_outcome(before: DwgObjectReader, st0: StreamSet, st1: StreamSet,
    r: Result<CadTemplate<XDataValue, PolygonMeshEntity>, DxfError>) -> bool {
    &&& streams_of(st1, before.data(), before.spec_version())
    &&& st1.current_handle == st0.current_handle
    &&& polyline_read(r, spec_polyline(model_of(st0), before.data(), before.spec_version(),
            before.initial_pos(), st0.current_handle, polygon_mesh_layout()),
            |ec: EntityCommon, fs: Seq<FieldModel>| polygon_mesh_of(ec, fs), st1)
}

/// What [`DwgObjectReader::read_polyline_2d`] gives and leaves: its result `r` and
/// its streams, from `st0` to `st1`, for the reader `before`.
pub open spec fn read_polyline_2d_outcome(before: DwgObjectReader, st0: StreamSet, st1: StreamSet,
    r: Result<CadTemplate<XDataValue, Polyline2DEntity>, DxfError>) -> bool {
    &&& streams_of(st1, before.data(), before.spec_version())
    &&& st1.current_handle == st0.current_handle
    &&& polyline_read(r, spec_polyline(model_of(st0), before.data(), before.spec_version(),
            before.initial_pos(), st0.current_handle, polyline_2d_layout()),
            |ec: EntityCommon, fs: Seq<FieldModel>| polyline_2d_of(ec, fs), st1)
}

/// What [`DwgObjectReader::read_polyline_3d`] gives and leaves: its result `r` and
/// its streams, from `st0` to `st1`, for the reader `before`.
pub open spec fn read_polyline_3d_outcome(before: DwgObjectReader, st0: StreamSet, st1: StreamSet,
    r: Result<CadTemplate<XDataValue, PolylineHeaderEntity>, DxfError>) -> bool {
    &&& streams_of(st1, before.data(), before.spec_version())
    &&& st1.current_handle == st0.current_handle
    &&& polyline_read(r, spec_polyline(model_of(st0), before.data(), before.spec_version(),
            before.initial_pos(), st0.current_handle, polyline_3d_layout()),
            |ec: EntityCommon, fs: Seq<FieldModel>| polyline_header_of(ec, fs), st1)
}

} // verus!
