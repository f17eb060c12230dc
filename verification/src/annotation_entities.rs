//! Readers of the annotation entities: multiline texts, leaders and
//! tolerances.  Values are kept as stored: doubles as their IEEE-754 bit
//! patterns, points as three of them.

use vstd::prelude::*;
use crate::bit_model::one_bits;
use crate::error::DxfError;
use crate::header_reader::{field_short, field_short_of};
use crate::object_common::XDataValue;
use crate::object_reader::{DwgObjectReader, StreamsModel, FieldKind, FieldModel, FieldValue, EntityCommon,
    CommonModel, spec_fields, spec_common_entity, spec_next_ref, spec_repeated, streams_of, model_of, common_model,
    fields_model, rows_model, field_count, read_stream_fields, read_repeated, lemma_fields_len, lemma_repeated_shape};
use crate::object_records::{version_at_least, field_bool, field_bool_of, field_count_of};
use crate::table_entries::{field_double, field_text, field_double_of, field_text_of};
use crate::text_entities::{Slot, stored, spec_slots, read_slots, lemma_slots_len, field_point, field_point_of};
use crate::stream_set::StreamSet;
use crate::templates::{CadTemplate, CadEntityTemplateData, CadLeaderTemplateData, CadTextEntityTemplateData};
use crate::version::DxfVersion;

verus! {

/// Where the text of a multiline text is attached.
#[derive(Debug, Clone, Copy, PartialEq, Eq, Structural)]
pub enum AttachmentPoint {
    TopLeft,
    TopCenter,
    TopRight,
    MiddleLeft,
    MiddleCenter,
    MiddleRight,
    BottomLeft,
    BottomCenter,
    BottomRight,
}

/// How the text of a multiline text runs.
#[derive(Debug, Clone, Copy, PartialEq, Eq, Structural)]
pub enum DrawingDirection {
    LeftToRight,
    TopToBottom,
    ByStyle,
}

/// A multiline text: its common properties, value, insertion point,
/// normal, direction (its rotation is the angle of this vector), text
/// height, reference rectangle, attachment, drawing direction and line
/// spacing factor.
pub struct MTextEntity {
    pub common: EntityCommon,
    pub value: String,
    pub insertion_point: (u64, u64, u64),
    pub normal: (u64, u64, u64),
    pub direction: (u64, u64, u64),
    pub height: u64,
    pub rectangle_width: u64,
    /// The rectangle height (R2007 and later).
    pub rectangle_height: Option<u64>,
    pub attachment_point: AttachmentPoint,
    pub drawing_direction: DrawingDirection,
    /// The line spacing factor (1.0 before R2000).
    pub line_spacing_factor: u64,
}

/// The attachment with the code `n`: 1 to 9 run from top left to bottom
/// right row by row; any other code is top left.
pub open spec fn attachment_of(n: i16) -> AttachmentPoint {
    if n == 2 {
        AttachmentPoint::TopCenter
    } else if n == 3 {
        AttachmentPoint::TopRight
    } else if n == 4 {
        AttachmentPoint::MiddleLeft
    } else if n == 5 {
        AttachmentPoint::MiddleCenter
    } else if n == 6 {
        AttachmentPoint::MiddleRight
    } else if n == 7 {
        AttachmentPoint::BottomLeft
    } else if n == 8 {
        AttachmentPoint::BottomCenter
    } else if n == 9 {
        AttachmentPoint::BottomRight
    } else {
        AttachmentPoint::TopLeft
    }
}

/// The drawing direction with the code `n`: 3 top to bottom, 5 by style,
/// any other left to right.
pub open spec fn drawing_direction_of(n: i16) -> DrawingDirection {
    if n == 3 {
        DrawingDirection::TopToBottom
    } else if n == 5 {
        DrawingDirection::ByStyle
    } else {
        DrawingDirection::LeftToRight
    }
}

/// The data of a multiline text for the version `v`, in slots at fixed
/// places: 0 the insertion point, 1 the normal, 2 the direction (3BD
/// each), 3 the rectangle width, 4 the rectangle height (R2007 and
/// later), 5 the text height, 6 the attachment, 7 the drawing direction
/// (BitShorts), 8 and 9 the extents (not kept), 10 the value, 11 the line
/// spacing style (not kept) and 12 the line spacing factor (R2000 and
/// later; 1.0 when not stored).
pub open spec fn mtext_slots(v: DxfVersion) -> Seq<Slot> {
    let r2000 = version_at_least(v, DxfVersion::AC1015);
    seq![stored(FieldKind::Point3), stored(FieldKind::Point3), stored(FieldKind::Point3),
        stored(FieldKind::BitDouble),
        Slot { present: version_at_least(v, DxfVersion::AC1021), kind: FieldKind::BitDouble, default: 0 },
        stored(FieldKind::BitDouble), stored(FieldKind::BitShort), stored(FieldKind::BitShort),
        stored(FieldKind::BitDouble), stored(FieldKind::BitDouble), stored(FieldKind::Text),
        Slot { present: r2000, kind: FieldKind::BitShort, default: 0 },
        Slot { present: r2000, kind: FieldKind::BitDouble, default: one_bits() }]
}

/// `t` is the multiline text with the common properties `ec` read as the
/// values `fs` of [`mtext_slots`] for the version `v`.
pub open spec fn mtext_holds(t: MTextEntity, ec: EntityCommon, v: DxfVersion, fs: Seq<FieldModel>) -> bool {
    &&& t.common == ec
    &&& t.value@ == field_text(fs[10])
    &&& t.insertion_point == field_point(fs[0])
    &&& t.normal == field_point(fs[1])
    &&& t.direction == field_point(fs[2])
    &&& t.height == field_double(fs[5])
    &&& t.rectangle_width == field_double(fs[3])
    &&& t.rectangle_height == (if version_at_least(v, DxfVersion::AC1021) { Some(field_double(fs[4])) } else {
        None })
    &&& t.attachment_point == attachment_of(field_short(fs[6]))
    &&& t.drawing_direction == drawing_direction_of(field_short(fs[7]))
    &&& t.line_spacing_factor == field_double(fs[12])
}

/// How a leader's path runs.
#[derive(Debug, Clone, Copy, PartialEq, Eq, Structural)]
pub enum LeaderPathType {
    StraightLine,
    Spline,
}

/// What a leader was created with.
#[derive(Debug, Clone, Copy, PartialEq, Eq, Structural)]
pub enum LeaderCreationType {
    WithText,
    WithTolerance,
    WithBlock,
    NoAnnotation,
}

/// The path of a leader with the code `n`: 1 a spline, any other a
/// straight line.
pub open spec fn path_type_of(n: i16) -> LeaderPathType {
    if n == 1 { LeaderPathType::Spline } else { LeaderPathType::StraightLine }
}

/// The creation of a leader with the annotation code `n`: 0 text, 1
/// tolerance, 2 block, any other none.
pub open spec fn creation_type_of(n: i16) -> LeaderCreationType {
    if n == 0 {
        LeaderCreationType::WithText
    } else if n == 1 {
        LeaderCreationType::WithTolerance
    } else if n == 2 {
        LeaderCreationType::WithBlock
    } else {
        LeaderCreationType::NoAnnotation
    }
}

/// A leader: its common properties, whether its arrow and hook line are
/// on, its path and creation types, text size (R13 and R14), vertices,
/// normal, horizontal direction and block offset.
pub struct LeaderEntity {
    pub common: EntityCommon,
    pub arrow_enabled: bool,
    pub hookline_enabled: bool,
    pub path_type: LeaderPathType,
    pub creation_type: LeaderCreationType,
    pub text_height: u64,
    pub text_width: u64,
    pub vertices: Vec<(u64, u64, u64)>,
    pub normal: (u64, u64, u64),
    pub horizontal_direction: (u64, u64, u64),
    pub block_offset: (u64, u64, u64),
}

/// The fields a leader starts with: a bit (not kept), the annotation
/// type, the path type and the vertex count (a BitLong taken as a
/// `usize`).
pub open spec fn leader_head_layout() -> Seq<FieldKind> {
    seq![FieldKind::Bit, FieldKind::BitShort, FieldKind::BitShort, FieldKind::BitLong]
}

/// The data of a leader after its vertices, for the version `v`, in slots
/// at fixed places: 0 the normal, 1 the horizontal direction, 2 the block
/// offset, 3 the end point (R13 and later; not kept), 4 the arrow size
/// (R2000 and later), 5 the hook line bit, 6 the arrow bit, 7 to 9 the
/// arrow size (not kept), text width and text height (R13 and R14), 10
/// the color (not kept).
pub open spec fn leader_tail_slots(v: DxfVersion) -> Seq<Slot> {
    let r13_14 = v == DxfVersion::AC1014 || v == DxfVersion::AC1012;
    let r2000 = version_at_least(v, DxfVersion::AC1015);
    seq![stored(FieldKind::Point3), stored(FieldKind::Point3), stored(FieldKind::Point3),
        Slot { present: r13_14 || r2000, kind: FieldKind::Point3, default: 0 },
        Slot { present: r2000, kind: FieldKind::BitDouble, default: 0 },
        stored(FieldKind::Bit), stored(FieldKind::Bit),
        Slot { present: r13_14, kind: FieldKind::BitDouble, default: 0 },
        Slot { present: r13_14, kind: FieldKind::BitDouble, default: 0 },
        Slot { present: r13_14, kind: FieldKind::BitDouble, default: 0 },
        stored(FieldKind::BitShort)]
}

/// The vertices held by the rows `rows` of one 3BD each.
pub open spec fn leader_vertices(rows: Seq<Seq<FieldModel>>) -> Seq<(u64, u64, u64)> {
    rows.map_values(|r: Seq<FieldModel>| field_point(r[0]))
}

/// `l` is the leader with the common properties `ec`, the head fields
/// `hs` (see [`leader_head_layout`]), the vertex rows `rows` and the tail
/// values `ts` (see [`leader_tail_slots`]).
pub open spec fn leader_holds(l: LeaderEntity, ec: EntityCommon, hs: Seq<FieldModel>, rows: Seq<Seq<FieldModel>>,
    ts: Seq<FieldModel>) -> bool
{
    &&& l.common == ec
    &&& l.arrow_enabled == field_bool(ts[6])
    &&& l.hookline_enabled == field_bool(ts[5])
    &&& l.path_type == path_type_of(field_short(hs[2]))
    &&& l.creation_type == creation_type_of(field_short(hs[1]))
    &&& l.text_height == field_double(ts[9])
    &&& l.text_width == field_double(ts[8])
    &&& l.vertices@ == leader_vertices(rows)
    &&& l.normal == field_point(ts[0])
    &&& l.horizontal_direction == field_point(ts[1])
    &&& l.block_offset == field_point(ts[2])
}

/// The object data of a leader read from `m` (data of `len` bytes,
/// version `v`): the fields of [`leader_head_layout`], as many 3BD
/// vertices as the count says, the values of [`leader_tail_slots`] and,
/// from the handle stream, its annotation and its dimension style.
pub open spec fn spec_leader_body(m: StreamsModel, len: nat, v: DxfVersion, reference: u64)
    -> Result<((Seq<FieldModel>, Seq<Seq<FieldModel>>, Seq<FieldModel>, (u64, u64)), StreamsModel), DxfError>
{
    match spec_fields(m, len, v, reference, leader_head_layout()) {
        Err(e) => Err(e),
        Ok((hs, m1)) => match spec_repeated(m1, len, v, reference, seq![FieldKind::Point3], field_count(hs[3])) {
            Err(e) => Err(e),
            Ok((rows, m2)) => match spec_slots(m2, len, v, reference, leader_tail_slots(v)) {
                Err(e) => Err(e),
                Ok((ts, m3)) => match spec_next_ref(m3, len, 0) {
                    Err(e) => Err(e),
                    Ok((annotation, m4)) => match spec_next_ref(m4, len, 0) {
                        Err(e) => Err(e),
                        Ok((style, m5)) => Ok(((hs, rows, ts, (annotation, style)), m5)),
                    },
                },
            },
        },
    }
}

/// A tolerance: its common properties, text, insertion point, direction,
/// normal (always (0, 0, 1)) and dimension style handle.
pub struct ToleranceEntity {
    pub common: EntityCommon,
    pub text: String,
    pub insertion_point: (u64, u64, u64),
    pub direction: (u64, u64, u64),
    pub normal: (u64, u64, u64),
    pub dimension_style_handle: u64,
}

/// The fields of a tolerance: a version (not kept), the text, the
/// insertion point and the direction.
pub open spec fn tolerance_layout() -> Seq<FieldKind> {
    seq![FieldKind::BitShort, FieldKind::Text, FieldKind::Point3, FieldKind::Point3]
}

/// The attachment with the code `n` (see [`attachment_of`]).
fn attachment_from(n: i16) -> (r: AttachmentPoint)
    ensures
        r == attachment_of(n),
{
    if n == 2 {
        AttachmentPoint::TopCenter
    } else if n == 3 {
        AttachmentPoint::TopRight
    } else if n == 4 {
        AttachmentPoint::MiddleLeft
    } else if n == 5 {
        AttachmentPoint::MiddleCenter
    } else if n == 6 {
        AttachmentPoint::MiddleRight
    } else if n == 7 {
        AttachmentPoint::BottomLeft
    } else if n == 8 {
        AttachmentPoint::BottomCenter
    } else if n == 9 {
        AttachmentPoint::BottomRight
    } else {
        AttachmentPoint::TopLeft
    }
}

/// The drawing direction with the code `n` (see
/// [`drawing_direction_of`]).
fn drawing_direction_from(n: i16) -> (r: DrawingDirection)
    ensures
        r == drawing_direction_of(n),
{
    if n == 3 {
        DrawingDirection::TopToBottom
    } else if n == 5 {
        DrawingDirection::ByStyle
    } else {
        DrawingDirection::LeftToRight
    }
}

/// The path of a leader with the code `n` (see [`path_type_of`]).
fn path_type_from(n: i16) -> (r: LeaderPathType)
    ensures
        r == path_type_of(n),
{
    if n == 1 { LeaderPathType::Spline } else { LeaderPathType::StraightLine }
}

/// The creation of a leader with the code `n` (see
/// [`creation_type_of`]).
fn creation_type_from(n: i16) -> (r: LeaderCreationType)
    ensures
        r == creation_type_of(n),
{
    if n == 0 {
        LeaderCreationType::WithText
    } else if n == 1 {
        LeaderCreationType::WithTolerance
    } else if n == 2 {
        LeaderCreationType::WithBlock
    } else {
        LeaderCreationType::NoAnnotation
    }
}

/// The slots of the data of a multiline text (see [`mtext_slots`]).
fn mtext_slot_list(v: DxfVersion) -> (r: Vec<Slot>)
    ensures
        r@ == mtext_slots(v),
{
    let r2000 = v.at_least(DxfVersion::AC1015);
    let r = vec![Slot { present: true, kind: FieldKind::Point3, default: 0 },
        Slot { present: true, kind: FieldKind::Point3, default: 0 },
        Slot { present: true, kind: FieldKind::Point3, default: 0 },
        Slot { present: true, kind: FieldKind::BitDouble, default: 0 },
        Slot { present: v.at_least(DxfVersion::AC1021), kind: FieldKind::BitDouble, default: 0 },
        Slot { present: true, kind: FieldKind::BitDouble, default: 0 },
        Slot { present: true, kind: FieldKind::BitShort, default: 0 },
        Slot { present: true, kind: FieldKind::BitShort, default: 0 },
        Slot { present: true, kind: FieldKind::BitDouble, default: 0 },
        Slot { present: true, kind: FieldKind::BitDouble, default: 0 },
        Slot { present: true, kind: FieldKind::Text, default: 0 },
        Slot { present: r2000, kind: FieldKind::BitShort, default: 0 },
        Slot { present: r2000, kind: FieldKind::BitDouble, default: 0x3FF0_0000_0000_0000 }];
    proof { assert(r@ =~= mtext_slots(v)); }
    r
}

/// The slots of the data of a leader after its vertices (see
/// [`leader_tail_slots`]).
fn leader_tail_slot_list(v: DxfVersion) -> (r: Vec<Slot>)
    ensures
        r@ == leader_tail_slots(v),
{
    let r13_14 = v.same_as(DxfVersion::AC1014) || v.same_as(DxfVersion::AC1012);
    let r2000 = v.at_least(DxfVersion::AC1015);
    let r = vec![Slot { present: true, kind: FieldKind::Point3, default: 0 },
        Slot { present: true, kind: FieldKind::Point3, default: 0 },
        Slot { present: true, kind: FieldKind::Point3, default: 0 },
        Slot { present: r13_14 || r2000, kind: FieldKind::Point3, default: 0 },
        Slot { present: r2000, kind: FieldKind::BitDouble, default: 0 },
        Slot { present: true, kind: FieldKind::Bit, default: 0 },
        Slot { present: true, kind: FieldKind::Bit, default: 0 },
        Slot { present: r13_14, kind: FieldKind::BitDouble, default: 0 },
        Slot { present: r13_14, kind: FieldKind::BitDouble, default: 0 },
        Slot { present: r13_14, kind: FieldKind::BitDouble, default: 0 },
        Slot { present: true, kind: FieldKind::BitShort, default: 0 }];
    proof { assert(r@ =~= leader_tail_slots(v)); }
    r
}

/// The vertices held by rows of one 3BD each (see [`leader_vertices`]).
fn leader_vertex_list(rows: &Vec<Vec<FieldValue>>) -> (r: Vec<(u64, u64, u64)>)
    requires
        forall|j: int| 0 <= j < rows@.len() ==> #[trigger] rows_model(rows@)[j].len() == 1,
    ensures
        r@ == leader_vertices(rows_model(rows@)),
{
    let ghost rm = rows_model(rows@);
    let mut out: Vec<(u64, u64, u64)> = Vec::new();
    let mut i: usize = 0;
    while i < rows.len()
        invariant
            i <= rows@.len(),
            rm == rows_model(rows@),
            forall|j: int| 0 <= j < rows@.len() ==> #[trigger] rm[j].len() == 1,
            out@ =~= leader_vertices(rm).take(i as int),
        decreases rows@.len() - i,
    {
        assert(rm[i as int] == fields_model(rows@[i as int]@));
        assert(rm[i as int].len() == 1);
        out.push(field_point_of(&rows[i][0]));
        i = i + 1;
    }
    out
}

/// Read the object data of a leader (see [`spec_leader_body`]).
fn read_leader_body(streams: &mut StreamSet)
    -> (r: Result<(Vec<FieldValue>, Vec<Vec<FieldValue>>, Vec<FieldValue>, (u64, u64)), DxfError>)
    requires
        streams_of(*old(streams), old(streams).object_reader.data(), old(streams).object_reader.spec_version()),
    ensures
        streams_of(*final(streams), old(streams).object_reader.data(), old(streams).object_reader.spec_version()),
        final(streams).current_handle == old(streams).current_handle,
        match spec_leader_body(model_of(*old(streams)), old(streams).object_reader.data().len(),
            old(streams).object_reader.spec_version(), old(streams).current_handle) {
            Err(e) => r matches Err(e2) && e2 == e,
            Ok(((hs, rows, ts, h), m)) => r matches Ok((h2, r2, t2, hh)) && fields_model(h2@) == hs
                && rows_model(r2@) == rows && fields_model(t2@) == ts && hh == h
                && h2@.len() == 4 && t2@.len() == 11
                && (forall|j: int| 0 <= j < r2@.len() ==> #[trigger] rows_model(r2@)[j].len() == 1)
                && model_of(*final(streams)) == m,
        },
{
    let ghost len = streams.object_reader.data().len();
    let ghost reference = streams.current_handle;
    let v = streams.object_reader.version();
    let head = vec![FieldKind::Bit, FieldKind::BitShort, FieldKind::BitShort, FieldKind::BitLong];
    proof {
        assert(head@ =~= leader_head_layout());
        lemma_fields_len(model_of(*streams), len, v, reference, head@);
    }
    let hs = read_stream_fields(streams, &head)?;
    let point = vec![FieldKind::Point3];
    proof {
        assert(point@ =~= seq![FieldKind::Point3]);
        lemma_repeated_shape(model_of(*streams), len, v, reference, point@, field_count(fields_model(hs@)[3]));
    }
    let rows = read_repeated(streams, &point, field_count_of(&hs[3]))?;
    let slots = leader_tail_slot_list(v);
    proof { lemma_slots_len(model_of(*streams), len, v, reference, slots@); }
    let ts = read_slots(streams, &slots)?;
    let annotation = streams.handles_reader.handle_reference()?;
    let style = streams.handles_reader.handle_reference()?;
    Ok((hs, rows, ts, (annotation, style)))
}

impl DwgObjectReader {
    /// Read a multiline text: its common entity data, the values of
    /// [`mtext_slots`] and its style handle.
    pub fn read_mtext(&mut self, streams: &mut StreamSet)
        -> (r: Result<CadTemplate<XDataValue, MTextEntity>, DxfError>)
        requires
            old(self).inv(),
            streams_of(*old(streams), old(self).data(), old(self).spec_version()),
        ensures
            *final(self) == *old(self),
            streams_of(*final(streams), old(self).data(), old(self).spec_version()),
            final(streams).current_handle == old(streams).current_handle,
            match spec_common_entity(model_of(*old(streams)), old(self).data(), old(self).spec_version(),
                old(self).initial_pos()) {
                Err(e) => r matches Err(e2) && e2 == e,
                Ok(((cm, ent, ec), m1)) => match spec_slots(m1, old(self).data().len(), old(self).spec_version(),
                    old(streams).current_handle, mtext_slots(old(self).spec_version())) {
                    Err(e) => r matches Err(e2) && e2 == e,
                    Ok((fs, m2)) => match spec_next_ref(m2, old(self).data().len(), 0) {
                        Err(e) => r matches Err(e2) && e2 == e,
                        Ok((h, m)) => r matches Ok(CadTemplate::TextEntity { common, entity_data, text_data, entity })
                            && common_model(common) == cm && entity_data == ent
                            && mtext_holds(entity, ec, old(self).spec_version(), fs)
                            && text_data.style_handle == h && model_of(*final(streams)) == m,
                    },
                },
            },
    {
        let (common, entity_data, ec) = self.read_common_entity_data(streams)?;
        let ghost len = self.data().len();
        let v = self.version();
        let slots = mtext_slot_list(v);
        proof { lemma_slots_len(model_of(*streams), len, v, streams.current_handle, slots@); }
        let fs = read_slots(streams, &slots)?;
        let style_handle = streams.handles_reader.handle_reference()?;
        let rectangle_height = if v.at_least(DxfVersion::AC1021) { Some(field_double_of(&fs[4])) } else { None };
        let entity = MTextEntity {
            common: ec,
            value: field_text_of(&fs[10]),
            insertion_point: field_point_of(&fs[0]),
            normal: field_point_of(&fs[1]),
            direction: field_point_of(&fs[2]),
            height: field_double_of(&fs[5]),
            rectangle_width: field_double_of(&fs[3]),
            rectangle_height,
            attachment_point: attachment_from(field_short_of(&fs[6])),
            drawing_direction: drawing_direction_from(field_short_of(&fs[7])),
            line_spacing_factor: field_double_of(&fs[12]),
        };
        Ok(CadTemplate::TextEntity { common, entity_data, text_data: CadTextEntityTemplateData { style_handle },
            entity })
    }

    /// Read a leader: its common entity data, then its object data (see
    /// [`spec_leader_body`]); the template keeps the arrow size and the
    /// two handles.
    pub fn read_leader(&mut self, streams: &mut StreamSet)
        -> (r: Result<CadTemplate<XDataValue, LeaderEntity>, DxfError>)
        requires
            old(self).inv(),
            streams_of(*old(streams), old(self).data(), old(self).spec_version()),
        ensures
            *final(self) == *old(self),
            streams_of(*final(streams), old(self).data(), old(self).spec_version()),
            final(streams).current_handle == old(streams).current_handle,
            match spec_common_entity(model_of(*old(streams)), old(self).data(), old(self).spec_version(),
                old(self).initial_pos()) {
                Err(e) => r matches Err(e2) && e2 == e,
                Ok(((cm, ent, ec), m1)) => match spec_leader_body(m1, old(self).data().len(),
                    old(self).spec_version(), old(streams).current_handle) {
                    Err(e) => r matches Err(e2) && e2 == e,
                    Ok(((hs, rows, ts, h), m)) => r matches Ok(CadTemplate::Leader { common, entity_data,
                        leader_data, entity })
                        && common_model(common) == cm && entity_data == ent && leader_holds(entity, ec, hs, rows, ts)
                        && leader_data.dimasz == field_double(ts[4]) && leader_data.annotation_handle == h.0
                        && leader_data.dimstyle_handle == h.1 && model_of(*final(streams)) == m,
                },
            },
    {
        let (common, entity_data, ec) = self.read_common_entity_data(streams)?;
        let (hs, rows, ts, h) = read_leader_body(streams)?;
        let entity = LeaderEntity {
            common: ec,
            arrow_enabled: field_bool_of(&ts[6]),
            hookline_enabled: field_bool_of(&ts[5]),
            path_type: path_type_from(field_short_of(&hs[2])),
            creation_type: creation_type_from(field_short_of(&hs[1])),
            text_height: field_double_of(&ts[9]),
            text_width: field_double_of(&ts[8]),
            vertices: leader_vertex_list(&rows),
            normal: field_point_of(&ts[0]),
            horizontal_direction: field_point_of(&ts[1]),
            block_offset: field_point_of(&ts[2]),
        };
        let leader_data = CadLeaderTemplateData {
            annotation_handle: h.0,
            dimstyle_handle: h.1,
            dimasz: field_double_of(&ts[4]),
        };
        Ok(CadTemplate::Leader { common, entity_data, leader_data, entity })
    }

    /// Read a tolerance: its common entity data, the fields of
    /// [`tolerance_layout`] and its dimension style handle.
    pub fn read_tolerance(&mut self, streams: &mut StreamSet)
        -> (r: Result<CadTemplate<XDataValue, ToleranceEntity>, DxfError>)
        requires
            old(self).inv(),
            streams_of(*old(streams), old(self).data(), old(self).spec_version()),
        ensures
            *final(self) == *old(self),
            streams_of(*final(streams), old(self).data(), old(self).spec_version()),
            final(streams).current_handle == old(streams).current_handle,
            match spec_common_entity(model_of(*old(streams)), old(self).data(), old(self).spec_version(),
                old(self).initial_pos()) {
                Err(e) => r matches Err(e2) && e2 == e,
                Ok(((cm, ent, ec), m1)) => match spec_fields(m1, old(self).data().len(), old(self).spec_version(),
                    old(streams).current_handle, tolerance_layout()) {
                    Err(e) => r matches Err(e2) && e2 == e,
                    Ok((fs, m2)) => match spec_next_ref(m2, old(self).data().len(), 0) {
                        Err(e) => r matches Err(e2) && e2 == e,
                        Ok((h, m)) => r matches Ok(CadTemplate::Entity { common, entity_data, entity })
                            && common_model(common) == cm && entity_data == ent && entity.common == ec
                            && entity.text@ == field_text(fs[1]) && entity.insertion_point == field_point(fs[2])
                            && entity.direction == field_point(fs[3]) && entity.normal == (0u64, 0u64, one_bits())
                            && entity.dimension_style_handle == h && model_of(*final(streams)) == m,
                    },
                },
            },
    {
        let (common, entity_data, ec) = self.read_common_entity_data(streams)?;
        let kinds = vec![FieldKind::BitShort, FieldKind::Text, FieldKind::Point3, FieldKind::Point3];
        proof {
            assert(kinds@ =~= tolerance_layout());
            lemma_fields_len(model_of(*streams), self.data().len(), self.spec_version(), streams.current_handle,
                kinds@);
        }
        let fs = read_stream_fields(streams, &kinds)?;
        let style_handle = streams.handles_reader.handle_reference()?;
        let entity = ToleranceEntity {
            common: ec,
            text: field_text_of(&fs[1]),
            insertion_point: field_point_of(&fs[2]),
            direction: field_point_of(&fs[3]),
            normal: (0, 0, 0x3FF0_0000_0000_0000),
            dimension_style_handle: style_handle,
        };
        Ok(CadTemplate::Entity { common, entity_data, entity })
    }
}


/// What [`DwgObjectReader::read_leader`] gives and leaves: its result `r` and
/// its streams, from `st0` to `st1`, for the reader `before`.
pub open spec fn read_leader_outcome(before: DwgObjectReader, st0: StreamSet, st1: StreamSet,
    r: Result<CadTemplate<XDataValue, LeaderEntity>, DxfError>) -> bool {
    &&& streams_of(st1, before.data(), before.spec_version())
    &&& st1.current_handle == st0.current_handle
    &&& match spec_common_entity(model_of(st0), before.data(), before.spec_version(),
            before.initial_pos()) {
            Err(e) => r matches Err(e2) && e2 == e,
            Ok(((cm, ent, ec), m1)) => match spec_leader_body(m1, before.data().len(),
                before.spec_version(), st0.current_handle) {
                Err(e) => r matches Err(e2) && e2 == e,
                Ok(((hs, rows, ts, h), m)) => r matches Ok(CadTemplate::Leader { common, entity_data,
                    leader_data, entity })
                    && common_model(common) == cm && entity_data == ent && leader_holds(entity, ec, hs, rows, ts)
                    && leader_data.dimasz == field_double(ts[4]) && leader_data.annotation_handle == h.0
                    && leader_data.dimstyle_handle == h.1 && model_of(st1) == m,
            },
        }
}

/// What [`DwgObjectReader::read_mtext`] gives and leaves: its result `r` and
/// its streams, from `st0` to `st1`, for the reader `before`.
pub open spec fn read_mtext_outcome(before: DwgObjectReader, st0: StreamSet, st1: StreamSet,
    r: Result<CadTemplate<XDataValue, MTextEntity>, DxfError>) -> bool {
    &&& streams_of(st1, before.data(), before.spec_version())
    &&& st1.current_handle == st0.current_handle
    &&& match spec_common_entity(model_of(st0), before.data(), before.spec_version(),
            before.initial_pos()) {
            Err(e) => r matches Err(e2) && e2 == e,
            Ok(((cm, ent, ec), m1)) => match spec_slots(m1, before.data().len(), before.spec_version(),
                st0.current_handle, mtext_slots(before.spec_version())) {
                Err(e) => r matches Err(e2) && e2 == e,
                Ok((fs, m2)) => match spec_next_ref(m2, before.data().len(), 0) {
                    Err(e) => r matches Err(e2) && e2 == e,
                    Ok((h, m)) => r matches Ok(CadTemplate::TextEntity { common, entity_data, text_data, entity })
                        && common_model(common) == cm && entity_data == ent
                        && mtext_holds(entity, ec, before.spec_version(), fs)
                        && text_data.style_handle == h && model_of(st1) == m,
                },
            },
        }
}

/// What [`DwgObjectReader::read_tolerance`] gives and leaves: its result `r` and
/// its streams, from `st0` to `st1`, for the reader `before`.
pub open spec fn read_tolerance_outcome(before: DwgObjectReader, st0: StreamSet, st1: StreamSet,
    r: Result<CadTemplate<XDataValue, ToleranceEntity>, DxfError>) -> bool {
    &&& streams_of(st1, before.data(), before.spec_version())
    &&& st1.current_handle == st0.current_handle
    &&& match spec_common_entity(model_of(st0), before.data(), before.spec_version(),
            before.initial_pos()) {
            Err(e) => r matches Err(e2) && e2 == e,
            Ok(((cm, ent, ec), m1)) => match spec_fields(m1, before.data().len(), before.spec_version(),
                st0.current_handle, tolerance_layout()) {
                Err(e) => r matches Err(e2) && e2 == e,
                Ok((fs, m2)) => match spec_next_ref(m2, before.data().len(), 0) {
                    Err(e) => r matches Err(e2) && e2 == e,
                    Ok((h, m)) => r matches Ok(CadTemplate::Entity { common, entity_data, entity })
                        && common_model(common) == cm && entity_data == ent && entity.common == ec
                        && entity.text@ == field_text(fs[1]) && entity.insertion_point == field_point(fs[2])
                        && entity.direction == field_point(fs[3]) && entity.normal == (0u64, 0u64, one_bits())
                        && entity.dimension_style_handle == h && model_of(st1) == m,
                },
            },
        }
}

} // verus!
