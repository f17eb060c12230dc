//! Readers of the text entities: texts, attributes and attribute
//! definitions.  Their values are kept as stored: doubles as their
//! IEEE-754 bit patterns, points as three of them.

use vstd::prelude::*;
use crate::bit_model::{one_bits, spec_read_byte};
use crate::error::DxfError;
use crate::header_reader::{field_short, field_short_of};
use crate::object_common::XDataValue;
use crate::object_reader::{DwgObjectReader, StreamsModel, FieldKind, FieldValue, FieldModel, EntityCommon,
    spec_field, spec_fields, spec_common_entity, spec_next_ref, streams_of, model_of, common_model, fields_model,
    on_object, read_stream_field, lemma_fields_len};
use crate::object_records::{version_at_least, field_bool, field_bool_of};
use crate::table_entries::{field_double, field_text, only_if, field_double_of, field_text_of};
use crate::stream_set::StreamSet;
use crate::templates::{CadTemplate, CadTextEntityTemplateData};
use crate::version::DxfVersion;

verus! {

/// One value of an entity layout: read as `kind` when `present`, else
/// `default` (see [`slot_default`]) with nothing read.
#[derive(Debug, Clone, Copy)]
pub struct Slot {
    pub present: bool,
    pub kind: FieldKind,
    pub default: u64,
}

/// The value a slot of kind `kind` takes when it is not stored: the
/// short or the double with the bits `d`.
pub open spec fn slot_default(kind: FieldKind, d: u64) -> FieldModel {
    match kind {
        FieldKind::BitShort => FieldModel::Short(d as i16),
        _ => FieldModel::Double(d),
    }
}

/// One slot read from the streams `m` (see [`spec_field`]).
pub open spec fn spec_slot(m: StreamsModel, len: nat, v: DxfVersion, reference: u64, s: Slot)
    -> Result<(FieldModel, StreamsModel), DxfError>
{
    if s.present { spec_field(m, len, v, reference, s.kind) } else { Ok((slot_default(s.kind, s.default), m)) }
}

/// The slots `ss` read in order: one value per slot.
pub open spec fn spec_slots(m: StreamsModel, len: nat, v: DxfVersion, reference: u64, ss: Seq<Slot>)
    -> Result<(Seq<FieldModel>, StreamsModel), DxfError>
    decreases ss.len(),
{
    if ss.len() == 0 {
        Ok((Seq::empty(), m))
    } else {
        match spec_slot(m, len, v, reference, ss[0]) {
            Err(e) => Err(e),
            Ok((f, m1)) => match spec_slots(m1, len, v, reference, ss.skip(1)) {
                Err(e) => Err(e),
                Ok((fs, m2)) => Ok((seq![f] + fs, m2)),
            },
        }
    }
}

/// A slot that is always stored.
pub open spec fn stored(kind: FieldKind) -> Slot {
    Slot { present: true, kind, default: 0 }
}

/// The slots of the data of a text, for the flag byte `f` (R2000 and
/// later): the elevation, the insertion point (two raw doubles), the
/// alignment point (two raw doubles), the normal, the thickness, the
/// oblique angle, the rotation, the height, the width factor, the value,
/// the generation flags and the horizontal and vertical alignments.
/// Before R2000 every slot is stored and the elevation, the angles, the
/// height and the width factor are BitDoubles; from R2000 on they are raw
/// doubles and bit `i` of `f` set means the slot it governs is not stored
/// (elevation 0.0, alignment point as the insertion point, angles 0.0,
/// width factor 1.0, flags and alignments 0).
pub open spec fn text_slots(v: DxfVersion, f: u8) -> Seq<Slot> {
    if !version_at_least(v, DxfVersion::AC1015) {
        seq![stored(FieldKind::BitDouble), stored(FieldKind::RawDouble), stored(FieldKind::RawDouble),
            stored(FieldKind::RawDouble), stored(FieldKind::RawDouble), stored(FieldKind::Extrusion),
            stored(FieldKind::Thickness), stored(FieldKind::BitDouble), stored(FieldKind::BitDouble),
            stored(FieldKind::BitDouble), stored(FieldKind::BitDouble), stored(FieldKind::Text),
            stored(FieldKind::BitShort), stored(FieldKind::BitShort), stored(FieldKind::BitShort)]
    } else {
        seq![Slot { present: f & 1u8 == 0u8, kind: FieldKind::RawDouble, default: 0 },
            stored(FieldKind::RawDouble), stored(FieldKind::RawDouble),
            Slot { present: f & 2u8 == 0u8, kind: FieldKind::RawDouble, default: 0 },
            Slot { present: f & 2u8 == 0u8, kind: FieldKind::RawDouble, default: 0 },
            stored(FieldKind::Extrusion), stored(FieldKind::Thickness),
            Slot { present: f & 4u8 == 0u8, kind: FieldKind::RawDouble, default: 0 },
            Slot { present: f & 8u8 == 0u8, kind: FieldKind::RawDouble, default: 0 },
            stored(FieldKind::RawDouble),
            Slot { present: f & 0x10u8 == 0u8, kind: FieldKind::RawDouble, default: one_bits() },
            stored(FieldKind::Text),
            Slot { present: f & 0x20u8 == 0u8, kind: FieldKind::BitShort, default: 0 },
            Slot { present: f & 0x40u8 == 0u8, kind: FieldKind::BitShort, default: 0 },
            Slot { present: f & 0x80u8 == 0u8, kind: FieldKind::BitShort, default: 0 }]
    }
}

/// The point a field holds (the origin for a field of another kind).
pub open spec fn field_point(f: FieldModel) -> (u64, u64, u64) {
    match f {
        FieldModel::Point(x, y, z) => (x, y, z),
        _ => (0, 0, 0),
    }
}

/// A horizontal alignment code as kept: 0 to 5, anything else read as 0
/// (left).
pub open spec fn horizontal_code(n: i16) -> i16 {
    if 0 <= n <= 5 { n } else { 0 }
}

/// A vertical alignment code as kept: 0 to 3, anything else read as 0
/// (baseline).
pub open spec fn vertical_code(n: i16) -> i16 {
    if 0 <= n <= 3 { n } else { 0 }
}

/// A text entity: its common properties, value, points (the insertion
/// point and the alignment point with the elevation as their Z), normal,
/// height, rotation, width factor, oblique angle and alignment codes.
pub struct TextEntity {
    pub common: EntityCommon,
    pub value: String,
    pub insertion_point: (u64, u64, u64),
    pub alignment_point: (u64, u64, u64),
    pub height: u64,
    pub rotation: u64,
    pub width_factor: u64,
    pub oblique_angle: u64,
    pub horizontal_alignment: i16,
    pub vertical_alignment: i16,
    pub normal: (u64, u64, u64),
}

/// The contents of a [`TextEntity`] but its common properties.
pub struct TextModel {
    pub value: Seq<char>,
    pub insertion_point: (u64, u64, u64),
    pub alignment_point: (u64, u64, u64),
    pub height: u64,
    pub rotation: u64,
    pub width_factor: u64,
    pub oblique_angle: u64,
    pub horizontal_alignment: i16,
    pub vertical_alignment: i16,
    pub normal: (u64, u64, u64),
}

/// The contents of `t` but its common properties.
pub open spec fn text_of(t: TextEntity) -> TextModel {
    TextModel {
        value: t.value@,
        insertion_point: t.insertion_point,
        alignment_point: t.alignment_point,
        height: t.height,
        rotation: t.rotation,
        width_factor: t.width_factor,
        oblique_angle: t.oblique_angle,
        horizontal_alignment: t.horizontal_alignment,
        vertical_alignment: t.vertical_alignment,
        normal: t.normal,
    }
}

/// The text whose slots (see [`text_slots`]) hold `vs`, for the flag byte
/// `f`.
pub open spec fn text_model(v: DxfVersion, f: u8, vs: Seq<FieldModel>) -> TextModel {
    let elevation = field_double(vs[0]);
    let insertion = (field_double(vs[1]), field_double(vs[2]), elevation);
    TextModel {
        value: field_text(vs[11]),
        insertion_point: insertion,
        alignment_point: if version_at_least(v, DxfVersion::AC1015) && f & 2u8 != 0u8 {
            insertion
        } else {
            (field_double(vs[3]), field_double(vs[4]), elevation)
        },
        height: field_double(vs[9]),
        rotation: field_double(vs[8]),
        width_factor: field_double(vs[10]),
        oblique_angle: field_double(vs[7]),
        horizontal_alignment: horizontal_code(field_short(vs[13])),
        vertical_alignment: vertical_code(field_short(vs[14])),
        normal: field_point(vs[5]),
    }
}

/// The data of a text read from the streams `m` (data of `len` bytes,
/// version `v`, the current handle `reference`): from R2000 on the flag
/// byte; the slots of [`text_slots`]; the style handle, absolute, from the
/// handle stream.
pub open spec fn spec_text_data(m: StreamsModel, len: nat, v: DxfVersion, reference: u64)
    -> Result<((TextModel, u64), StreamsModel), DxfError>
{
    let head = if version_at_least(v, DxfVersion::AC1015) {
        match spec_read_byte(m.object) {
            None => Err(DxfError::UnexpectedEof),
            Some((f, c)) => Ok((f, on_object(m, len, c))),
        }
    } else {
        Ok((0u8, m))
    };
    match head {
        Err(e) => Err(e),
        Ok((f, m1)) => match spec_slots(m1, len, v, reference, text_slots(v, f)) {
            Err(e) => Err(e),
            Ok((vs, m2)) => match spec_next_ref(m2, len, 0) {
                Err(e) => Err(e),
                Ok((h, m3)) => Ok(((text_model(v, f, vs), h), m3)),
            },
        },
    }
}

/// The flags of an attribute.
#[derive(Debug, Clone, Copy, PartialEq, Eq, Structural)]
pub struct AttributeFlags {
    pub invisible: bool,
    pub constant: bool,
    pub verify: bool,
    pub preset: bool,
}

/// The flags a flag byte `f` gives: bits 0 to 3.
pub open spec fn attribute_flags(f: u8) -> AttributeFlags {
    AttributeFlags {
        invisible: f & 1u8 != 0u8,
        constant: f & 2u8 != 0u8,
        verify: f & 4u8 != 0u8,
        preset: f & 8u8 != 0u8,
    }
}

/// The fields of an attribute (or, with `definition`, of an attribute
/// definition) after its text data: the tag, the field length, the flags
/// (a byte), for a definition the prompt, from R2007 on the lock-position
/// flag and from R2010 on the multiline flag.
pub open spec fn attribute_layout(v: DxfVersion, definition: bool) -> Seq<FieldKind> {
    seq![FieldKind::Text, FieldKind::BitShort, FieldKind::RawChar]
        + only_if(definition, seq![FieldKind::Text])
        + only_if(version_at_least(v, DxfVersion::AC1021), seq![FieldKind::Bit])
        + only_if(version_at_least(v, DxfVersion::AC1024), seq![FieldKind::Bit])
}

/// The byte a field holds (0 for a field of another kind).
pub open spec fn field_byte(f: FieldModel) -> u8 {
    match f {
        FieldModel::Char(b) => b,
        _ => 0,
    }
}

/// An attribute: the text data it is read with (but its alignment codes,
/// which it does not keep), its tag, field length, flags and lock-position
/// flag.
pub struct AttributeEntity {
    pub common: EntityCommon,
    pub tag: String,
    pub value: String,
    pub insertion_point: (u64, u64, u64),
    pub alignment_point: (u64, u64, u64),
    pub height: u64,
    pub rotation: u64,
    pub width_factor: u64,
    pub oblique_angle: u64,
    pub flags: AttributeFlags,
    pub field_length: i16,
    pub normal: (u64, u64, u64),
    pub lock_position: bool,
}

/// An attribute definition: as an attribute, with its prompt; the value
/// is the default value.
pub struct AttributeDefinition {
    pub common: EntityCommon,
    pub tag: String,
    pub prompt: String,
    pub default_value: String,
    pub insertion_point: (u64, u64, u64),
    pub alignment_point: (u64, u64, u64),
    pub height: u64,
    pub rotation: u64,
    pub width_factor: u64,
    pub oblique_angle: u64,
    pub flags: AttributeFlags,
    pub field_length: i16,
    pub normal: (u64, u64, u64),
    pub lock_position: bool,
}

/// The attribute data read from the streams `m` (data of `len` bytes,
/// version `v`, the current handle `reference`): the text data (see
/// [`spec_text_data`]), the fields of [`attribute_layout`] and the style
/// handle, absolute, from the handle stream.  Gives the text, the fields
/// and the second style handle.
pub open spec fn spec_attribute_data(m: StreamsModel, len: nat, v: DxfVersion, reference: u64, definition: bool)
    -> Result<((TextModel, Seq<FieldModel>, u64), StreamsModel), DxfError>
{
    match spec_text_data(m, len, v, reference) {
        Err(e) => Err(e),
        Ok(((t, _), m1)) => match spec_fields(m1, len, v, reference, attribute_layout(v, definition)) {
            Err(e) => Err(e),
            Ok((fs, m2)) => match spec_next_ref(m2, len, 0) {
                Err(e) => Err(e),
                Ok((h, m3)) => Ok(((t, fs, h), m3)),
            },
        },
    }
}

/// The attribute `a` holds the common properties `ec`, the text `t` and
/// the fields `fs` of [`attribute_layout`] (no definition).
pub open spec fn attribute_holds(a: AttributeEntity, ec: EntityCommon, v: DxfVersion, t: TextModel,
    fs: Seq<FieldModel>) -> bool
{
    &&& a.common == ec
    &&& a.tag@ == field_text(fs[0])
    &&& a.value@ == t.value
    &&& a.insertion_point == t.insertion_point
    &&& a.alignment_point == t.alignment_point
    &&& a.height == t.height
    &&& a.rotation == t.rotation
    &&& a.width_factor == t.width_factor
    &&& a.oblique_angle == t.oblique_angle
    &&& a.flags == attribute_flags(field_byte(fs[2]))
    &&& a.field_length == field_short(fs[1])
    &&& a.normal == t.normal
    &&& a.lock_position == (version_at_least(v, DxfVersion::AC1021) && field_bool(fs[3]))
}

/// The attribute definition `a` holds the common properties `ec`, the
/// text `t` and the fields `fs` of [`attribute_layout`] (a definition).
pub open spec fn attribute_definition_holds(a: AttributeDefinition, ec: EntityCommon, v: DxfVersion, t: TextModel,
    fs: Seq<FieldModel>) -> bool
{
    &&& a.common == ec
    &&& a.tag@ == field_text(fs[0])
    &&& a.prompt@ == field_text(fs[3])
    &&& a.default_value@ == t.value
    &&& a.insertion_point == t.insertion_point
    &&& a.alignment_point == t.alignment_point
    &&& a.height == t.height
    &&& a.rotation == t.rotation
    &&& a.width_factor == t.width_factor
    &&& a.oblique_angle == t.oblique_angle
    &&& a.flags == attribute_flags(field_byte(fs[2]))
    &&& a.field_length == field_short(fs[1])
    &&& a.normal == t.normal
    &&& a.lock_position == (version_at_least(v, DxfVersion::AC1021) && field_bool(fs[4]))
}


/// The value of a slot that is not stored (see [`slot_default`]).
fn slot_default_value(kind: FieldKind, d: u64) -> (r: FieldValue)
    ensures
        r@ == slot_default(kind, d),
{
    match kind {
        FieldKind::BitShort => FieldValue::Short(d as i16),
        _ => FieldValue::Double(d),
    }
}

/// Reading slots gives one value per slot.
pub proof fn lemma_slots_len(m: StreamsModel, len: nat, v: DxfVersion, reference: u64, ss: Seq<Slot>)
    ensures
        spec_slots(m, len, v, reference, ss) matches Ok((fs, _)) ==> fs.len() == ss.len(),
    decreases ss.len(),
{
    if ss.len() > 0 {
        if let Ok((f, m1)) = spec_slot(m, len, v, reference, ss[0]) {
            lemma_slots_len(m1, len, v, reference, ss.skip(1));
        }
    }
}

/// Read the slots `slots` in order (see [`spec_slots`]).
pub(crate) fn read_slots(streams: &mut StreamSet, slots: &Vec<Slot>) -> (r: Result<Vec<FieldValue>, DxfError>)
    requires
        streams_of(*old(streams), old(streams).object_reader.data(), old(streams).object_reader.spec_version()),
    ensures
        streams_of(*final(streams), old(streams).object_reader.data(), old(streams).object_reader.spec_version()),
        final(streams).current_handle == old(streams).current_handle,
        match spec_slots(model_of(*old(streams)), old(streams).object_reader.data().len(),
            old(streams).object_reader.spec_version(), old(streams).current_handle, slots@) {
            Err(e) => r matches Err(e2) && e2 == e,
            Ok((fs, m)) => r matches Ok(v) && fields_model(v@) == fs && model_of(*final(streams)) == m,
        },
{
    let ghost data = streams.object_reader.data();
    let ghost len = data.len();
    let ghost v = streams.object_reader.spec_version();
    let ghost reference = streams.current_handle;
    let ghost total = spec_slots(model_of(*streams), len, v, reference, slots@);
    let mut values: Vec<FieldValue> = Vec::new();
    let mut i: usize = 0;
    proof {
        assert(slots@.skip(0) =~= slots@);
        if let Ok((fs, m)) = total {
            assert(fields_model(values@) + fs =~= fs);
        }
    }
    while i < slots.len()
        invariant
            i <= slots@.len(),
            len == data.len(),
            data == old(streams).object_reader.data(),
            v == old(streams).object_reader.spec_version(),
            reference == streams.current_handle,
            reference == old(streams).current_handle,
            streams_of(*streams, data, v),
            total == spec_slots(model_of(*old(streams)), len, v, reference, slots@),
            total == (match spec_slots(model_of(*streams), len, v, reference, slots@.skip(i as int)) {
                Err(e) => Err(e),
                Ok((fs, m)) => Ok((fields_model(values@) + fs, m)),
            }),
        decreases slots@.len() - i,
    {
        let ghost m0 = model_of(*streams);
        let ghost rest0 = spec_slots(m0, len, v, reference, slots@.skip(i as int));
        proof {
            assert(slots@.skip(i as int)[0] == slots@[i as int]);
            assert(slots@.skip(i as int).skip(1) =~= slots@.skip(i + 1));
        }
        let slot = slots[i];
        let f = if slot.present {
            match read_stream_field(streams, slot.kind) {
                Ok(f) => f,
                Err(e) => {
                    proof { assert(rest0 matches Err(e2) && e2 == e); }
                    return Err(e);
                },
            }
        } else {
            slot_default_value(slot.kind, slot.default)
        };
        proof {
            let rest1 = spec_slots(model_of(*streams), len, v, reference, slots@.skip(i + 1));
            if let Ok((fs, m)) = rest1 {
                assert(fields_model(values@) + (seq![f@] + fs) =~= fields_model(values@.push(f)) + fs);
            }
        }
        values.push(f);
        i = i + 1;
    }
    proof {
        assert(slots@.skip(slots@.len() as int) =~= Seq::<Slot>::empty());
        if let Ok((fs, m)) = total {
            assert(fields_model(values@) + Seq::<FieldModel>::empty() =~= fields_model(values@));
        }
    }
    Ok(values)
}

/// The slots of the data of a text (see [`text_slots`]).
fn text_slot_list(v: DxfVersion, f: u8) -> (r: Vec<Slot>)
    ensures
        r@ == text_slots(v, f),
{
    let r = if !v.at_least(DxfVersion::AC1015) {
        vec![Slot { present: true, kind: FieldKind::BitDouble, default: 0 },
            Slot { present: true, kind: FieldKind::RawDouble, default: 0 },
            Slot { present: true, kind: FieldKind::RawDouble, default: 0 },
            Slot { present: true, kind: FieldKind::RawDouble, default: 0 },
            Slot { present: true, kind: FieldKind::RawDouble, default: 0 },
            Slot { present: true, kind: FieldKind::Extrusion, default: 0 },
            Slot { present: true, kind: FieldKind::Thickness, default: 0 },
            Slot { present: true, kind: FieldKind::BitDouble, default: 0 },
            Slot { present: true, kind: FieldKind::BitDouble, default: 0 },
            Slot { present: true, kind: FieldKind::BitDouble, default: 0 },
            Slot { present: true, kind: FieldKind::BitDouble, default: 0 },
            Slot { present: true, kind: FieldKind::Text, default: 0 },
            Slot { present: true, kind: FieldKind::BitShort, default: 0 },
            Slot { present: true, kind: FieldKind::BitShort, default: 0 },
            Slot { present: true, kind: FieldKind::BitShort, default: 0 }]
    } else {
        vec![Slot { present: f & 1 == 0, kind: FieldKind::RawDouble, default: 0 },
            Slot { present: true, kind: FieldKind::RawDouble, default: 0 },
            Slot { present: true, kind: FieldKind::RawDouble, default: 0 },
            Slot { present: f & 2 == 0, kind: FieldKind::RawDouble, default: 0 },
            Slot { present: f & 2 == 0, kind: FieldKind::RawDouble, default: 0 },
            Slot { present: true, kind: FieldKind::Extrusion, default: 0 },
            Slot { present: true, kind: FieldKind::Thickness, default: 0 },
            Slot { present: f & 4 == 0, kind: FieldKind::RawDouble, default: 0 },
            Slot { present: f & 8 == 0, kind: FieldKind::RawDouble, default: 0 },
            Slot { present: true, kind: FieldKind::RawDouble, default: 0 },
            Slot { present: f & 0x10 == 0, kind: FieldKind::RawDouble, default: 0x3FF0_0000_0000_0000 },
            Slot { present: true, kind: FieldKind::Text, default: 0 },
            Slot { present: f & 0x20 == 0, kind: FieldKind::BitShort, default: 0 },
            Slot { present: f & 0x40 == 0, kind: FieldKind::BitShort, default: 0 },
            Slot { present: f & 0x80 == 0, kind: FieldKind::BitShort, default: 0 }]
    };
    proof { assert(r@ =~= text_slots(v, f)); }
    r
}

/// The point a field value holds (see [`field_point`]).
pub(crate) fn field_point_of(f: &FieldValue) -> (r: (u64, u64, u64))
    ensures
        r == field_point(f@),
{
    match f {
        FieldValue::Point(x, y, z) => (*x, *y, *z),
        _ => (0, 0, 0),
    }
}

/// The byte a field value holds (see [`field_byte`]).
pub(crate) fn field_byte_of(f: &FieldValue) -> (r: u8)
    ensures
        r == field_byte(f@),
{
    match f {
        FieldValue::Char(b) => *b,
        _ => 0,
    }
}

/// The layout of the fields of an attribute after its text data (see
/// [`attribute_layout`]).
fn attribute_layout_fields(v: DxfVersion, definition: bool) -> (r: Vec<FieldKind>)
    ensures
        r@ == attribute_layout(v, definition),
{
    let mut r = vec![FieldKind::Text, FieldKind::BitShort, FieldKind::RawChar];
    if definition {
        r.push(FieldKind::Text);
    }
    if v.at_least(DxfVersion::AC1021) {
        r.push(FieldKind::Bit);
    }
    if v.at_least(DxfVersion::AC1024) {
        r.push(FieldKind::Bit);
    }
    proof { assert(r@ =~= attribute_layout(v, definition)); }
    r
}

impl DwgObjectReader {
    /// Read the data of a text (see [`spec_text_data`]) of an entity whose
    /// common properties are `common`.
    pub fn read_common_text_data(&mut self, streams: &mut StreamSet, common: EntityCommon)
        -> (r: Result<(TextEntity, CadTextEntityTemplateData), DxfError>)
        requires
            old(self).inv(),
            streams_of(*old(streams), old(self).data(), old(self).spec_version()),
        ensures
            *final(self) == *old(self),
            streams_of(*final(streams), old(self).data(), old(self).spec_version()),
            final(streams).current_handle == old(streams).current_handle,
            match spec_text_data(model_of(*old(streams)), old(self).data().len(), old(self).spec_version(),
                old(streams).current_handle) {
                Err(e) => r matches Err(e2) && e2 == e,
                Ok(((t, h), m)) => r matches Ok((x, d)) && x.common == common && text_of(x) == t
                    && d.style_handle == h && model_of(*final(streams)) == m,
            },
    {
        let ghost len = self.data().len();
        let v = self.version();
        let f: u8 = if v.at_least(DxfVersion::AC1015) { streams.object_reader.read_raw_char()? } else { 0 };
        let slots = text_slot_list(v, f);
        proof { lemma_slots_len(model_of(*streams), len, v, streams.current_handle, slots@); }
        let vs = read_slots(streams, &slots)?;
        let style_handle = streams.handles_reader.handle_reference()?;
        let elevation = field_double_of(&vs[0]);
        let insertion_point = (field_double_of(&vs[1]), field_double_of(&vs[2]), elevation);
        let alignment_point = if v.at_least(DxfVersion::AC1015) && f & 2 != 0 {
            insertion_point
        } else {
            (field_double_of(&vs[3]), field_double_of(&vs[4]), elevation)
        };
        let h = field_short_of(&vs[13]);
        let horizontal_alignment: i16 = if 0 <= h && h <= 5 { h } else { 0 };
        let vv = field_short_of(&vs[14]);
        let vertical_alignment: i16 = if 0 <= vv && vv <= 3 { vv } else { 0 };
        let text = TextEntity {
            common,
            value: field_text_of(&vs[11]),
            insertion_point,
            alignment_point,
            height: field_double_of(&vs[9]),
            rotation: field_double_of(&vs[8]),
            width_factor: field_double_of(&vs[10]),
            oblique_angle: field_double_of(&vs[7]),
            horizontal_alignment,
            vertical_alignment,
            normal: field_point_of(&vs[5]),
        };
        Ok((text, CadTextEntityTemplateData { style_handle }))
    }

    /// Read a text entity: its common entity data (see
    /// [`spec_common_entity`]), then its text data (see
    /// [`spec_text_data`]).
    pub fn read_text(&mut self, streams: &mut StreamSet) -> (r: Result<CadTemplate<XDataValue, TextEntity>, DxfError>)
        requires
            old(self).inv(),
            streams_of(*old(streams), old(self).data(), old(self).spec_version()),
        ensures
            *final(self) == *old(self),
            streams_of(*final(streams), old(self).data(), old(self).spec_version()),
            final(streams).current_handle == old(streams).current_handle,
            match spec_common_entity(model_of(*old(streams)), old(self).data(), old(self).spec_version(),
                old(self).initial_pos()) {
                Err(e) => r matches Err(e2) && e2 == e,
                Ok(((cm, ent, ec), m1)) => match spec_text_data(m1, old(self).data().len(), old(self).spec_version(),
                    old(streams).current_handle) {
                    Err(e) => r matches Err(e2) && e2 == e,
                    Ok(((t, h), m)) => r matches Ok(CadTemplate::TextEntity { common, entity_data, text_data, entity })
                        && common_model(common) == cm && entity_data == ent && entity.common == ec && text_of(entity) == t
                        && text_data.style_handle == h && model_of(*final(streams)) == m,
                },
            },
    {
        let (common, entity_data, entity_common) = self.read_common_entity_data(streams)?;
        let (entity, text_data) = self.read_common_text_data(streams, entity_common)?;
        Ok(CadTemplate::TextEntity { common, entity_data, text_data, entity })
    }

    /// Read the data of an attribute (see [`spec_attribute_data`], no
    /// definition; `_is_definition` is not looked at) of an entity whose
    /// common properties are `common`; the template keeps the second style
    /// handle.
    pub fn read_common_att_data(&mut self, streams: &mut StreamSet, common: EntityCommon, _is_definition: bool)
        -> (r: Result<(AttributeEntity, CadTextEntityTemplateData), DxfError>)
        requires
            old(self).inv(),
            streams_of(*old(streams), old(self).data(), old(self).spec_version()),
        ensures
            *final(self) == *old(self),
            streams_of(*final(streams), old(self).data(), old(self).spec_version()),
            final(streams).current_handle == old(streams).current_handle,
            match spec_attribute_data(model_of(*old(streams)), old(self).data().len(), old(self).spec_version(),
                old(streams).current_handle, false) {
                Err(e) => r matches Err(e2) && e2 == e,
                Ok(((t, fs, h), m)) => r matches Ok((a, d)) && attribute_holds(a, common, old(self).spec_version(), t, fs)
                    && d.style_handle == h && model_of(*final(streams)) == m,
            },
    {
        let ghost len = self.data().len();
        let v = self.version();
        let (text, _) = self.read_common_text_data(streams, common)?;
        let layout = attribute_layout_fields(v, false);
        proof { lemma_fields_len(model_of(*streams), len, v, streams.current_handle, layout@); }
        let fs = self.read_fields(streams, &layout)?;
        let style_handle = streams.handles_reader.handle_reference()?;
        let lock_position = v.at_least(DxfVersion::AC1021) && field_bool_of(&fs[3]);
        let flags_val = field_byte_of(&fs[2]);
        let flags = AttributeFlags {
            invisible: flags_val & 1 != 0,
            constant: flags_val & 2 != 0,
            verify: flags_val & 4 != 0,
            preset: flags_val & 8 != 0,
        };
        let attrib = AttributeEntity {
            common: text.common,
            tag: field_text_of(&fs[0]),
            value: text.value,
            insertion_point: text.insertion_point,
            alignment_point: text.alignment_point,
            height: text.height,
            rotation: text.rotation,
            width_factor: text.width_factor,
            oblique_angle: text.oblique_angle,
            flags,
            field_length: field_short_of(&fs[1]),
            normal: text.normal,
            lock_position,
        };
        Ok((attrib, CadTextEntityTemplateData { style_handle }))
    }

    /// Read the data of an attribute definition (see
    /// [`spec_attribute_data`], a definition) of an entity whose common
    /// properties are `common`; the template keeps the second style
    /// handle.
    pub fn read_common_attdef_data(&mut self, streams: &mut StreamSet, common: EntityCommon)
        -> (r: Result<(AttributeDefinition, CadTextEntityTemplateData), DxfError>)
        requires
            old(self).inv(),
            streams_of(*old(streams), old(self).data(), old(self).spec_version()),
        ensures
            *final(self) == *old(self),
            streams_of(*final(streams), old(self).data(), old(self).spec_version()),
            final(streams).current_handle == old(streams).current_handle,
            match spec_attribute_data(model_of(*old(streams)), old(self).data().len(), old(self).spec_version(),
                old(streams).current_handle, true) {
                Err(e) => r matches Err(e2) && e2 == e,
                Ok(((t, fs, h), m)) => r matches Ok((a, d))
                    && attribute_definition_holds(a, common, old(self).spec_version(), t, fs)
                    && d.style_handle == h && model_of(*final(streams)) == m,
            },
    {
        let ghost len = self.data().len();
        let v = self.version();
        let (text, _) = self.read_common_text_data(streams, common)?;
        let layout = attribute_layout_fields(v, true);
        proof { lemma_fields_len(model_of(*streams), len, v, streams.current_handle, layout@); }
        let fs = self.read_fields(streams, &layout)?;
        let style_handle = streams.handles_reader.handle_reference()?;
        let lock_position = v.at_least(DxfVersion::AC1021) && field_bool_of(&fs[4]);
        let flags_val = field_byte_of(&fs[2]);
        let flags = AttributeFlags {
            invisible: flags_val & 1 != 0,
            constant: flags_val & 2 != 0,
            verify: flags_val & 4 != 0,
            preset: flags_val & 8 != 0,
        };
        let attdef = AttributeDefinition {
            common: text.common,
            tag: field_text_of(&fs[0]),
            prompt: field_text_of(&fs[3]),
            default_value: text.value,
            insertion_point: text.insertion_point,
            alignment_point: text.alignment_point,
            height: text.height,
            rotation: text.rotation,
            width_factor: text.width_factor,
            oblique_angle: text.oblique_angle,
            flags,
            field_length: field_short_of(&fs[1]),
            normal: text.normal,
            lock_position,
        };
        Ok((attdef, CadTextEntityTemplateData { style_handle }))
    }

    /// Read an attribute entity: its common entity data (see
    /// [`spec_common_entity`]), then its attribute data (see
    /// [`spec_attribute_data`]).
    pub fn read_attribute(&mut self, streams: &mut StreamSet)
        -> (r: Result<CadTemplate<XDataValue, AttributeEntity>, DxfError>)
        requires
            old(self).inv(),
            streams_of(*old(streams), old(self).data(), old(self).spec_version()),
        ensures
            *final(self) == *old(self),
            streams_of(*final(streams), old(self).data(), old(self).spec_version()),
            final(streams).current_handle == old(streams).current_handle,
            match spec_common_entity(model_of(*old(streams)), old(self).data(), old(self).spec_version(),
                old(self).initial_pos()) {
                Err(e) => r matches Err(e2) && e2 == e,
                Ok(((cm, ent, ec), m1)) => match spec_attribute_data(m1, old(self).data().len(), old(self).spec_version(),
                    old(streams).current_handle, false) {
                    Err(e) => r matches Err(e2) && e2 == e,
                    Ok(((t, fs, h), m)) => r matches Ok(CadTemplate::TextEntity { common, entity_data, text_data, entity })
                        && common_model(common) == cm && entity_data == ent
                        && attribute_holds(entity, ec, old(self).spec_version(), t, fs)
                        && text_data.style_handle == h && model_of(*final(streams)) == m,
                },
            },
    {
        let (common, entity_data, entity_common) = self.read_common_entity_data(streams)?;
        let (entity, text_data) = self.read_common_att_data(streams, entity_common, false)?;
        Ok(CadTemplate::TextEntity { common, entity_data, text_data, entity })
    }

    /// Read an attribute definition entity: its common entity data (see
    /// [`spec_common_entity`]), then its attribute definition data (see
    /// [`spec_attribute_data`]).
    pub fn read_attribute_definition(&mut self, streams: &mut StreamSet)
        -> (r: Result<CadTemplate<XDataValue, AttributeDefinition>, DxfError>)
        requires
            old(self).inv(),
            streams_of(*old(streams), old(self).data(), old(self).spec_version()),
        ensures
            *final(self) == *old(self),
            streams_of(*final(streams), old(self).data(), old(self).spec_version()),
            final(streams).current_handle == old(streams).current_handle,
            match spec_common_entity(model_of(*old(streams)), old(self).data(), old(self).spec_version(),
                old(self).initial_pos()) {
                Err(e) => r matches Err(e2) && e2 == e,
                Ok(((cm, ent, ec), m1)) => match spec_attribute_data(m1, old(self).data().len(), old(self).spec_version(),
                    old(streams).current_handle, true) {
                    Err(e) => r matches Err(e2) && e2 == e,
                    Ok(((t, fs, h), m)) => r matches Ok(CadTemplate::TextEntity { common, entity_data, text_data, entity })
                        && common_model(common) == cm && entity_data == ent
                        && attribute_definition_holds(entity, ec, old(self).spec_version(), t, fs)
                        && text_data.style_handle == h && model_of(*final(streams)) == m,
                },
            },
    {
        let (common, entity_data, entity_common) = self.read_common_entity_data(streams)?;
        let (entity, text_data) = self.read_common_attdef_data(streams, entity_common)?;
        Ok(CadTemplate::TextEntity { common, entity_data, text_data, entity })
    }
}


/// What [`DwgObjectReader::read_attribute`] gives and leaves: its result `r` and
/// its streams, from `st0` to `st1`, for the reader `before`.
pub open spec fn read_attribute_outcome(before: DwgObjectReader, st0: StreamSet, st1: StreamSet,
    r: Result<CadTemplate<XDataValue, AttributeEntity>, DxfError>) -> bool {
    &&& streams_of(st1, before.data(), before.spec_version())
    &&& st1.current_handle == st0.current_handle
    &&& match spec_common_entity(model_of(st0), before.data(), before.spec_version(),
            before.initial_pos()) {
            Err(e) => r matches Err(e2) && e2 == e,
            Ok(((cm, ent, ec), m1)) => match spec_attribute_data(m1, before.data().len(), before.spec_version(),
                st0.current_handle, false) {
                Err(e) => r matches Err(e2) && e2 == e,
                Ok(((t, fs, h), m)) => r matches Ok(CadTemplate::TextEntity { common, entity_data, text_data, entity })
                    && common_model(common) == cm && entity_data == ent
                    && attribute_holds(entity, ec, before.spec_version(), t, fs)
                    && text_data.style_handle == h && model_of(st1) == m,
            },
        }
}

/// What [`DwgObjectReader::read_attribute_definition`] gives and leaves: its result `r` and
/// its streams, from `st0` to `st1`, for the reader `before`.
pub open spec fn read_attribute_definition_outcome(before: DwgObjectReader, st0: StreamSet, st1: StreamSet,
    r: Result<CadTemplate<XDataValue, AttributeDefinition>, DxfError>) -> bool {
    &&& streams_of(st1, before.data(), before.spec_version())
    &&& st1.current_handle == st0.current_handle
    &&& match spec_common_entity(model_of(st0), before.data(), before.spec_version(),
            before.initial_pos()) {
            Err(e) => r matches Err(e2) && e2 == e,
            Ok(((cm, ent, ec), m1)) => match spec_attribute_data(m1, before.data().len(), before.spec_version(),
                st0.current_handle, true) {
                Err(e) => r matches Err(e2) && e2 == e,
                Ok(((t, fs, h), m)) => r matches Ok(CadTemplate::TextEntity { common, entity_data, text_data, entity })
                    && common_model(common) == cm && entity_data == ent
                    && attribute_definition_holds(entity, ec, before.spec_version(), t, fs)
                    && text_data.style_handle == h && model_of(st1) == m,
            },
        }
}

/// What [`DwgObjectReader::read_text`] gives and leaves: its result `r` and
/// its streams, from `st0` to `st1`, for the reader `before`.
pub open spec fn read_text_outcome(before: DwgObjectReader, st0: StreamSet, st1: StreamSet,
    r: Result<CadTemplate<XDataValue, TextEntity>, DxfError>) -> bool {
    &&& streams_of(st1, before.data(), before.spec_version())
    &&& st1.current_handle == st0.current_handle
    &&& match spec_common_entity(model_of(st0), before.data(), before.spec_version(),
            before.initial_pos()) {
            Err(e) => r matches Err(e2) && e2 == e,
            Ok(((cm, ent, ec), m1)) => match spec_text_data(m1, before.data().len(), before.spec_version(),
                st0.current_handle) {
                Err(e) => r matches Err(e2) && e2 == e,
                Ok(((t, h), m)) => r matches Ok(CadTemplate::TextEntity { common, entity_data, text_data, entity })
                    && common_model(common) == cm && entity_data == ent && entity.common == ec && text_of(entity) == t
                    && text_data.style_handle == h && model_of(st1) == m,
            },
        }
}

} // verus!
