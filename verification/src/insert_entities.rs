//! Readers of block references: inserts and multiple inserts.  Their
//! values are kept as stored: doubles as their IEEE-754 bit patterns,
//! points as three of them.

use vstd::prelude::*;
use crate::bit_model::{one_bits, spec_read_2bits, spec_read_bit, spec_read_raw_double,
    spec_read_bit_double_with_default};
use crate::error::DxfError;
use crate::object_common::{XDataValue, spec_handle_list, read_handle_list};
use crate::object_reader::{DwgObjectReader, StreamsModel, FieldKind, FieldModel, EntityCommon,
    spec_field, spec_fields, spec_common_entity, spec_next_ref, streams_of, model_of, common_model,
    on_object, read_stream_field, lemma_fields_len};
use crate::object_records::version_at_least;
use crate::table_entries::{field_double, field_double_of};
use crate::text_entities::{field_point, field_point_of};
use crate::object_records::field_bool_of;
use crate::object_reader::{FieldValue, CommonModel};
use crate::header_reader::{field_short, field_short_of};
use crate::stream_set::StreamSet;
use crate::stream_values::spec_3bit_double;
use crate::templates::{CadTemplate, CadInsertTemplateData, CadEntityTemplateData};
use crate::version::DxfVersion;

verus! {

/// A block reference: its common properties, insertion point, scales,
/// rotation, normal and, for a multiple insert, its grid.
#[derive(Debug, Clone, Copy)]
pub struct InsertEntity {
    pub common: EntityCommon,
    pub insert_point: (u64, u64, u64),
    pub x_scale: u64,
    pub y_scale: u64,
    pub z_scale: u64,
    pub rotation: u64,
    pub normal: (u64, u64, u64),
    pub column_count: u16,
    pub row_count: u16,
    pub column_spacing: u64,
    pub row_spacing: u64,
}

/// The scales of an insert read from the streams `m` (data of `len`
/// bytes, version `v`).  From R2000 on a two-bit code comes first: its
/// bit 0 set means an X scale of 1.0, else a raw double; its bit 1 set
/// means a Y scale equal to X, else a double with X as its default; the Z
/// scale is a double with X as its default.  Before R2000, three
/// BitDoubles.
#[verifier::opaque]
pub open spec fn spec_insert_scales(m: StreamsModel, len: nat, v: DxfVersion, reference: u64)
    -> Result<((u64, u64, u64), StreamsModel), DxfError>
{
    if version_at_least(v, DxfVersion::AC1015) {
        let (code, c1) = spec_read_2bits(m.object);
        let flags = code as u8;
        let m1 = on_object(m, len, c1);
        let xs = if flags & 1u8 == 0u8 {
            match spec_read_raw_double(m1.object) {
                None => Err(DxfError::UnexpectedEof),
                Some((x, c)) => Ok((x, on_object(m1, len, c))),
            }
        } else {
            Ok((one_bits(), m1))
        };
        match xs {
            Err(e) => Err(e),
            Ok((x, m2)) => {
                let ys = if flags & 2u8 == 0u8 {
                    match spec_read_bit_double_with_default(m2.object, x) {
                        None => Err(DxfError::UnexpectedEof),
                        Some((y, c)) => Ok((y, on_object(m2, len, c))),
                    }
                } else {
                    Ok((x, m2))
                };
                match ys {
                    Err(e) => Err(e),
                    Ok((y, m3)) => match spec_read_bit_double_with_default(m3.object, x) {
                        None => Err(DxfError::UnexpectedEof),
                        Some((z, c)) => Ok(((x, y, z), on_object(m3, len, c))),
                    },
                }
            },
        }
    } else {
        match spec_fields(m, len, v, reference, seq![FieldKind::BitDouble, FieldKind::BitDouble, FieldKind::BitDouble]) {
            Err(e) => Err(e),
            Ok((fs, m1)) => Ok(((field_double(fs[0]), field_double(fs[1]), field_double(fs[2])), m1)),
        }
    }
}

/// The fields of an insert after its scales: the rotation, the normal and
/// whether it has attributes.
pub open spec fn insert_middle_layout() -> Seq<FieldKind> {
    seq![FieldKind::BitDouble, FieldKind::Extrusion, FieldKind::Bit]
}

/// The grid of a multiple insert: the column and row counts (BitShorts,
/// kept as `u16`) and the column and row spacings.
pub open spec fn minsert_layout() -> Seq<FieldKind> {
    seq![FieldKind::BitShort, FieldKind::BitShort, FieldKind::BitDouble, FieldKind::BitDouble]
}

/// The owned-object count of an insert read from `m` (R2004 and later,
/// with attributes: a BitLong; else 0).
pub open spec fn spec_owned_count(m: StreamsModel, len: nat, v: DxfVersion, reference: u64, has_atts: bool)
    -> Result<(i32, StreamsModel), DxfError>
{
    if version_at_least(v, DxfVersion::AC1018) && has_atts {
        match spec_field(m, len, v, reference, FieldKind::BitLong) {
            Err(e) => Err(e),
            Ok((f, m1)) => Ok((match f { FieldModel::Long(n) => n, _ => 0i32 }, m1)),
        }
    } else {
        Ok((0i32, m))
    }
}

/// The object data of an insert read from the streams `m` (data of `len`
/// bytes, version `v`): the insertion point (three BitDoubles), the
/// scales (see [`spec_insert_scales`]), the fields of
/// [`insert_middle_layout`], the owned-object count (see
/// [`spec_owned_count`]) and, for a multiple insert, the fields of
/// [`minsert_layout`].  Gives the insert (with the common properties
/// `ec`), whether it has attributes and its owned-object count.
#[verifier::opaque]
pub open spec fn spec_insert_body(m: StreamsModel, len: nat, v: DxfVersion, reference: u64, ec: EntityCommon,
    minsert: bool)
    -> Result<((InsertEntity, bool, i32), StreamsModel), DxfError>
{
    match spec_3bit_double(m.object) {
        Err(e) => Err(e),
        Ok((p, c1)) => match spec_insert_scales(on_object(m, len, c1), len, v, reference) {
            Err(e) => Err(e),
            Ok(((x, y, z), m2)) => match spec_fields(m2, len, v, reference, insert_middle_layout()) {
                Err(e) => Err(e),
                Ok((fs, m3)) => {
                    let has_atts = match fs[2] { FieldModel::Bool(b) => b, _ => false };
                    match spec_owned_count(m3, len, v, reference, has_atts) {
                        Err(e) => Err(e),
                        Ok((owned, m4)) => {
                            let grid = if minsert { spec_fields(m4, len, v, reference, minsert_layout()) } else {
                                Ok((seq![FieldModel::Short(1), FieldModel::Short(1), FieldModel::Double(0),
                                    FieldModel::Double(0)], m4))
                            };
                            match grid {
                                Err(e) => Err(e),
                                Ok((gs, m5)) => Ok(((InsertEntity {
                                    common: ec,
                                    insert_point: p,
                                    x_scale: x,
                                    y_scale: y,
                                    z_scale: z,
                                    rotation: field_double(fs[0]),
                                    normal: field_point(fs[1]),
                                    column_count: field_short(gs[0]) as u16,
                                    row_count: field_short(gs[1]) as u16,
                                    column_spacing: field_double(gs[2]),
                                    row_spacing: field_double(gs[3]),
                                }, has_atts, owned), m5)),
                            }
                        },
                    }
                },
            }
        },
    }
}

/// The handles of an insert, absolute, read from the handle stream of
/// `m` (data of `len` bytes): the block header; with attributes, from
/// R2004 on `owned` owned objects (none when `owned` is negative), before
/// the first and the last attribute, then the end of the sequence.  Gives
/// the block header, first attribute, last attribute and end-of-sequence
/// handles (0 where none is read) and the owned handles.
#[verifier::opaque]
pub open spec fn spec_insert_handles(m: StreamsModel, len: nat, v: DxfVersion, has_atts: bool, owned: i32)
    -> Result<((u64, u64, u64, u64), Seq<u64>, StreamsModel), DxfError>
{
    match spec_next_ref(m, len, 0) {
        Err(e) => Err(e),
        Ok((block, m1)) => if !has_atts {
            Ok(((block, 0u64, 0u64, 0u64), Seq::empty(), m1))
        } else {
            let atts = if version_at_least(v, DxfVersion::AC1018) {
                match spec_handle_list(m1.handles, m1.handles_pos, len, 0, if owned < 0 { 0 } else { owned as nat }) {
                    Err(e) => Err(e),
                    Ok((hs, ch, hp)) => Ok(((0u64, 0u64, hs), StreamsModel { handles: ch, handles_pos: hp, ..m1 })),
                }
            } else {
                match spec_next_ref(m1, len, 0) {
                    Err(e) => Err(e),
                    Ok((first, m2)) => match spec_next_ref(m2, len, 0) {
                        Err(e) => Err(e),
                        Ok((end, m3)) => Ok(((first, end, Seq::<u64>::empty()), m3)),
                    },
                }
            };
            match atts {
                Err(e) => Err(e),
                Ok(((first, end, hs), m4)) => match spec_next_ref(m4, len, 0) {
                    Err(e) => Err(e),
                    Ok((seqend, m5)) => Ok(((block, first, end, seqend), hs, m5)),
                },
            }
        },
    }
}

/// The template data `d` of an insert with attributes or not
/// (`has_atts`), `owned` owned objects, the handles `h` (see
/// [`spec_insert_handles`]) and the owned handles `hs`.
pub open spec fn insert_data_holds(d: CadInsertTemplateData, has_atts: bool, owned: i32, h: (u64, u64, u64, u64),
    hs: Seq<u64>) -> bool
{
    &&& d.block_header_handle == h.0
    &&& d.has_atts == has_atts
    &&& d.owned_objects_count == owned
    &&& d.first_attribute_handle == h.1
    &&& d.end_attribute_handle == h.2
    &&& d.owned_objects_handles@ == hs
    &&& d.seqend_handle == h.3
}


/// An insert (a multiple insert with `minsert`) read from the streams `m`
/// of `data` (version `v`, object data starting at bit `init`, current
/// handle `reference`): its common entity data (see
/// [`spec_common_entity`]), its object data (see [`spec_insert_body`])
/// and its handles (see [`spec_insert_handles`]).
pub open spec fn spec_insert(m: StreamsModel, data: Seq<u8>, v: DxfVersion, init: int, reference: u64, minsert: bool)
    -> Result<((CommonModel, CadEntityTemplateData, InsertEntity, bool, i32, (u64, u64, u64, u64), Seq<u64>),
        StreamsModel), DxfError>
{
    let len = data.len();
    match spec_common_entity(m, data, v, init) {
        Err(e) => Err(e),
        Ok(((cm, ent, ec), m1)) => match spec_insert_body(m1, len, v, reference, ec, minsert) {
            Err(e) => Err(e),
            Ok(((ins, has_atts, owned), m2)) => match spec_insert_handles(m2, len, v, has_atts, owned) {
                Err(e) => Err(e),
                Ok((h, hs, m3)) => Ok(((cm, ent, ins, has_atts, owned, h, hs), m3)),
            },
        },
    }
}

/// `r` is the insert read as `res` (see [`spec_insert`]), and the streams
/// end as `res` says.
pub open spec fn insert_read(r: Result<CadTemplate<XDataValue, InsertEntity>, DxfError>,
    res: Result<((CommonModel, CadEntityTemplateData, InsertEntity, bool, i32, (u64, u64, u64, u64), Seq<u64>),
        StreamsModel), DxfError>, s: StreamSet) -> bool
{
    match res {
        Err(e) => r matches Err(e2) && e2 == e,
        Ok(((cm, ent, ins, has_atts, owned, h, hs), m)) => r matches Ok(CadTemplate::Insert {
            common, entity_data, insert_data, entity })
            && common_model(common) == cm && entity_data == ent && entity == ins
            && insert_data_holds(insert_data, has_atts, owned, h, hs) && model_of(s) == m,
    }
}

/// Read the scales of an insert (see [`spec_insert_scales`]).
fn read_insert_scales(streams: &mut StreamSet) -> (r: Result<(u64, u64, u64), DxfError>)
    requires
        streams_of(*old(streams), old(streams).object_reader.data(), old(streams).object_reader.spec_version()),
    ensures
        streams_of(*final(streams), old(streams).object_reader.data(), old(streams).object_reader.spec_version()),
        final(streams).current_handle == old(streams).current_handle,
        match spec_insert_scales(model_of(*old(streams)), old(streams).object_reader.data().len(),
            old(streams).object_reader.spec_version(), old(streams).current_handle) {
            Err(e) => r matches Err(e2) && e2 == e,
            Ok((sc, m)) => r == Ok::<(u64, u64, u64), DxfError>(sc) && model_of(*final(streams)) == m,
        },
{
    proof { reveal(spec_insert_scales); }
    let ghost len = streams.object_reader.data().len();
    if streams.object_reader.version().at_least(DxfVersion::AC1015) {
        let data_flags = streams.object_reader.read_2bits()?;
        let x_scale = if data_flags & 1 == 0 {
            streams.object_reader.read_raw_double()?
        } else {
            0x3FF0_0000_0000_0000
        };
        let y_scale = if data_flags & 2 == 0 {
            streams.object_reader.read_bit_double_with_default(x_scale)?
        } else {
            x_scale
        };
        let z_scale = streams.object_reader.read_bit_double_with_default(x_scale)?;
        Ok((x_scale, y_scale, z_scale))
    } else {
        let kinds = vec![FieldKind::BitDouble, FieldKind::BitDouble, FieldKind::BitDouble];
        proof {
            assert(kinds@ =~= seq![FieldKind::BitDouble, FieldKind::BitDouble, FieldKind::BitDouble]);
            lemma_fields_len(model_of(*streams), len, streams.object_reader.spec_version(), streams.current_handle,
                kinds@);
        }
        let fs = crate::object_reader::read_stream_fields(streams, &kinds)?;
        Ok((field_double_of(&fs[0]), field_double_of(&fs[1]), field_double_of(&fs[2])))
    }
}

/// Read the handles of an insert (see [`spec_insert_handles`]).
fn read_insert_handles(streams: &mut StreamSet, has_atts: bool, owned: i32)
    -> (r: Result<((u64, u64, u64, u64), Vec<u64>), DxfError>)
    requires
        streams_of(*old(streams), old(streams).object_reader.data(), old(streams).object_reader.spec_version()),
    ensures
        streams_of(*final(streams), old(streams).object_reader.data(), old(streams).object_reader.spec_version()),
        final(streams).current_handle == old(streams).current_handle,
        match spec_insert_handles(model_of(*old(streams)), old(streams).object_reader.data().len(),
            old(streams).object_reader.spec_version(), has_atts, owned) {
            Err(e) => r matches Err(e2) && e2 == e,
            Ok((h, hs, m)) => r matches Ok((h2, v)) && h2 == h && v@ == hs && model_of(*final(streams)) == m,
        },
{
    proof { reveal(spec_insert_handles); }
    let block = streams.handles_reader.handle_reference()?;
    if !has_atts {
        return Ok(((block, 0, 0, 0), Vec::new()));
    }
    let ghost m1 = model_of(*streams);
    let (first, end, hs) = if streams.object_reader.version().at_least(DxfVersion::AC1018) {
        let n: usize = if owned < 0 { 0 } else { owned as usize };
        let hs = read_handle_list(&mut streams.handles_reader, 0, n)?;
        proof {
            assert(spec_handle_list(m1.handles, m1.handles_pos, streams.object_reader.data().len(),
                0, n as nat) matches Ok((l, ch, hp)) && model_of(*streams) == (StreamsModel { handles: ch, handles_pos: hp, ..m1 }));
        }
        (0, 0, hs)
    } else {
        let first = streams.handles_reader.handle_reference()?;
        let end = streams.handles_reader.handle_reference()?;
        (first, end, Vec::new())
    };
    let seqend = streams.handles_reader.handle_reference()?;
    Ok(((block, first, end, seqend), hs))
}

impl DwgObjectReader {
    /// Read the object data of an insert whose common properties are
    /// `common` (see [`spec_insert_body`]).
    #[verifier::spinoff_prover]
    fn read_insert_body(&mut self, streams: &mut StreamSet, common: EntityCommon, is_minsert: bool)
        -> (r: Result<(InsertEntity, bool, i32), DxfError>)
        requires
            old(self).inv(),
            streams_of(*old(streams), old(self).data(), old(self).spec_version()),
        ensures
            *final(self) == *old(self),
            streams_of(*final(streams), old(self).data(), old(self).spec_version()),
            final(streams).current_handle == old(streams).current_handle,
            match spec_insert_body(model_of(*old(streams)), old(self).data().len(), old(self).spec_version(),
                old(streams).current_handle, common, is_minsert) {
                Err(e) => r matches Err(e2) && e2 == e,
                Ok((x, m)) => r == Ok::<(InsertEntity, bool, i32), DxfError>(x) && model_of(*final(streams)) == m,
            },
    {
        proof { reveal(spec_insert_body); }
        let ghost len = self.data().len();
        let v = self.version();
        let insert_point = streams.object_reader.read_3bit_double()?;
        let (x_scale, y_scale, z_scale) = read_insert_scales(streams)?;
        let middle = vec![FieldKind::BitDouble, FieldKind::Extrusion, FieldKind::Bit];
        proof {
            assert(middle@ =~= insert_middle_layout());
            lemma_fields_len(model_of(*streams), len, v, streams.current_handle, middle@);
        }
        let fs = self.read_fields(streams, &middle)?;
        let has_atts = field_bool_of(&fs[2]);
        let owned: i32 = if v.at_least(DxfVersion::AC1018) && has_atts {
            match read_stream_field(streams, FieldKind::BitLong)? {
                FieldValue::Long(n) => n,
                _ => 0,
            }
        } else {
            0
        };
        let (column_count, row_count, column_spacing, row_spacing) = if is_minsert {
            let grid = vec![FieldKind::BitShort, FieldKind::BitShort, FieldKind::BitDouble, FieldKind::BitDouble];
            proof {
                assert(grid@ =~= minsert_layout());
                lemma_fields_len(model_of(*streams), len, v, streams.current_handle, grid@);
            }
            let gs = self.read_fields(streams, &grid)?;
            (field_short_of(&gs[0]) as u16, field_short_of(&gs[1]) as u16, field_double_of(&gs[2]),
                field_double_of(&gs[3]))
        } else {
            (1u16, 1u16, 0u64, 0u64)
        };
        let insert = InsertEntity {
            common,
            insert_point,
            x_scale,
            y_scale,
            z_scale,
            rotation: field_double_of(&fs[0]),
            normal: field_point_of(&fs[1]),
            column_count,
            row_count,
            column_spacing,
            row_spacing,
        };
        Ok((insert, has_atts, owned))
    }

    /// Read an insert, or a multiple insert with `is_minsert` (see
    /// [`spec_insert`]).
    pub fn read_insert_common_data(&mut self, streams: &mut StreamSet, is_minsert: bool)
        -> (r: Result<CadTemplate<XDataValue, InsertEntity>, DxfError>)
        requires
            old(self).inv(),
            streams_of(*old(streams), old(self).data(), old(self).spec_version()),
        ensures
            *final(self) == *old(self),
            streams_of(*final(streams), old(self).data(), old(self).spec_version()),
            final(streams).current_handle == old(streams).current_handle,
            insert_read(r, spec_insert(model_of(*old(streams)), old(self).data(), old(self).spec_version(),
                old(self).initial_pos(), old(streams).current_handle, is_minsert), *final(streams)),
    {
        let (common, entity_data, entity_common) = self.read_common_entity_data(streams)?;
        let (entity, has_atts, owned) = self.read_insert_body(streams, entity_common, is_minsert)?;
        let (h, owned_objects_handles) = read_insert_handles(streams, has_atts, owned)?;
        let insert_data = CadInsertTemplateData {
            block_header_handle: h.0,
            has_atts,
            owned_objects_count: owned,
            first_attribute_handle: h.1,
            end_attribute_handle: h.2,
            owned_objects_handles,
            seqend_handle: h.3,
        };
        Ok(CadTemplate::Insert { common, entity_data, insert_data, entity })
    }

    /// Read an insert (see [`spec_insert`]).
    pub fn read_insert(&mut self, streams: &mut StreamSet) -> (r: Result<CadTemplate<XDataValue, InsertEntity>, DxfError>)
        requires
            old(self).inv(),
            streams_of(*old(streams), old(self).data(), old(self).spec_version()),
        ensures
            *final(self) == *old(self),
            streams_of(*final(streams), old(self).data(), old(self).spec_version()),
            final(streams).current_handle == old(streams).current_handle,
            insert_read(r, spec_insert(model_of(*old(streams)), old(self).data(), old(self).spec_version(),
                old(self).initial_pos(), old(streams).current_handle, false), *final(streams)),
    {
        self.read_insert_common_data(streams, false)
    }

    /// Read a multiple insert (see [`spec_insert`]).
    pub fn read_minsert(&mut self, streams: &mut StreamSet) -> (r: Result<CadTemplate<XDataValue, InsertEntity>, DxfError>)
        requires
            old(self).inv(),
            streams_of(*old(streams), old(self).data(), old(self).spec_version()),
        ensures
            *final(self) == *old(self),
            streams_of(*final(streams), old(self).data(), old(self).spec_version()),
            final(streams).current_handle == old(streams).current_handle,
            insert_read(r, spec_insert(model_of(*old(streams)), old(self).data(), old(self).spec_version(),
                old(self).initial_pos(), old(streams).current_handle, true), *final(streams)),
    {
        self.read_insert_common_data(streams, true)
    }
}


/// What [`DwgObjectReader::read_insert`] gives and leaves: its result `r` and
/// its streams, from `st0` to `st1`, for the reader `before`.
pub open spec fn read_insert_outcome(before: DwgObjectReader, st0: StreamSet, st1: StreamSet,
    r: Result<CadTemplate<XDataValue, InsertEntity>, DxfError>) -> bool {
    &&& streams_of(st1, before.data(), before.spec_version())
    &&& st1.current_handle == st0.current_handle
    &&& insert_read(r, spec_insert(model_of(st0), before.data(), before.spec_version(),
            before.initial_pos(), st0.current_handle, false), st1)
}

/// What [`DwgObjectReader::read_minsert`] gives and leaves: its result `r` and
/// its streams, from `st0` to `st1`, for the reader `before`.
pub open spec fn read_minsert_outcome(before: DwgObjectReader, st0: StreamSet, st1: StreamSet,
    r: Result<CadTemplate<XDataValue, InsertEntity>, DxfError>) -> bool {
    &&& streams_of(st1, before.data(), before.spec_version())
    &&& st1.current_handle == st0.current_handle
    &&& insert_read(r, spec_insert(model_of(st0), before.data(), before.spec_version(),
            before.initial_pos(), st0.current_handle, true), st1)
}

} // verus!
