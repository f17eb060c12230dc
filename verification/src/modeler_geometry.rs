//! Reader of the modeler geometry entities (3D solids, regions and
//! bodies): their ACIS data, binary chunks from R2007 on and text lines
//! before.

use vstd::prelude::*;
use crate::bit_model::{BitCursor, valid_cursor, max_read_len, spec_read_bit_long, spec_read_bytes,
    lemma_chunk_progress};
use crate::error::DxfError;
use crate::object_common::XDataValue;
use crate::object_reader::{DwgObjectReader, StreamsModel, FieldKind, FieldModel, FieldValue, EntityCommon,
    CommonModel, spec_field, spec_common_entity, spec_next_ref, spec_stream_text, streams_of, model_of,
    common_model, on_object, read_stream_field};
use crate::object_records::version_at_least;
use crate::stream_set::StreamSet;
use crate::stream_values::{bit_long_error, r2007_plus, lemma_text_progress, spec_read_variable_text};
use crate::encoding::TextEncoding;
use crate::templates::{CadTemplate, CadEntityTemplateData, CadSolid3DTemplateData};
use crate::version::DxfVersion;

verus! {

/// The kinds of modeler geometry.
#[derive(Debug, Clone, Copy, PartialEq, Eq, Structural)]
pub enum ModelerGeoType {
    Solid3D,
    Region,
    Body,
}

/// The version of ACIS data.
#[derive(Debug, Clone, Copy, PartialEq, Eq, Structural)]
pub enum AcisVersion {
    Version1,
    Version2,
}

/// The ACIS data of a modeler geometry entity: binary (SAB) from R2007
/// on, text (SAT) before.
pub struct AcisData {
    pub version: AcisVersion,
    pub sat_data: String,
    pub sab_data: Vec<u8>,
    pub is_binary: bool,
}

/// The content of an [`AcisData`].
pub struct AcisModel {
    pub version: AcisVersion,
    pub sat_data: Seq<char>,
    pub sab_data: Seq<u8>,
    pub is_binary: bool,
}

impl View for AcisData {
    type V = AcisModel;

    open spec fn view(&self) -> AcisModel {
        AcisModel {
            version: self.version,
            sat_data: self.sat_data@,
            sab_data: self.sab_data@,
            is_binary: self.is_binary,
        }
    }
}

/// A 3D solid, region or body: its common properties, kind and ACIS data.
pub struct ModelerEntity {
    pub common: EntityCommon,
    pub kind: ModelerGeoType,
    pub acis_data: AcisData,
}

/// The binary chunks of ACIS data read from the object data of `m` (data
/// of `len` bytes): each a length (a BitLong taken as a `usize`) and that
/// many bytes, up to a zero length.  Each chunk read moves the reader on
/// (see [`lemma_chunk_progress`]).
pub open spec fn spec_sab_chunks(m: StreamsModel, len: nat) -> Result<(Seq<u8>, StreamsModel), DxfError>
    decreases m.object.bytes.len(),
    when valid_cursor(m.object)
{
    match spec_read_bit_long(m.object) {
        None => Err(bit_long_error(m.object)),
        Some((n, c1)) => if n == 0 {
            Ok((Seq::empty(), on_object(m, len, c1)))
        } else {
            let k = ((n as i32) as usize) as nat;
            match spec_read_bytes(c1, k) {
                None => Err(if k > max_read_len() { DxfError::ReadTooLarge } else { DxfError::UnexpectedEof }),
                Some((bs, c2)) => {
                    proof { lemma_count_nonzero(n as i32); lemma_chunk_progress(m.object, k); }
                    match spec_sab_chunks(on_object(on_object(m, len, c1), len, c2), len) {
                        Err(e) => Err(e),
                        Ok((rest, m3)) => Ok((bs + rest, m3)),
                    }
                },
            }
        },
    }
}

/// A count other than 0 taken as a `usize` is not 0.
pub proof fn lemma_count_nonzero(n: i32)
    ensures
        n != 0 ==> (n as usize) != 0,
{
    assert(n != 0 ==> (n as usize) != 0usize) by (bit_vector);
}

/// The text lines of ACIS data read from the streams `m` (data of `len`
/// bytes, version `v` before R2007; see [`spec_stream_text`]) up to an
/// empty one, each followed by a line feed.  Each line read moves a
/// reader on (see [`lemma_text_progress`]).
pub open spec fn spec_sat_lines(m: StreamsModel, len: nat, v: DxfVersion) -> Result<(Seq<char>, StreamsModel), DxfError>
    decreases m.object.bytes.len() + m.text.bytes.len(),
    when valid_cursor(m.object) && valid_cursor(m.text) && !r2007_plus(v)
{
    match spec_stream_text(m, len, v) {
        Err(e) => Err(e),
        Ok((t, m1)) => if t.len() == 0 {
            Ok((Seq::empty(), m1))
        } else {
            proof {
                if m.separate_text {
                    lemma_text_progress(m.text, v, TextEncoding::Windows1252);
                } else {
                    lemma_text_progress(m.object, v, TextEncoding::Windows1252);
                }
            }
            match spec_sat_lines(m1, len, v) {
                Err(e) => Err(e),
                Ok((rest, m2)) => Ok((t + seq!['\n'] + rest, m2)),
            }
        },
    }
}

/// The object data of a modeler geometry entity read from `m` (data of
/// `len` bytes, version `v`): the ACIS version (a byte); from R2007 on
/// the binary chunks (see [`spec_sab_chunks`]; version 2 when the byte
/// is 2 or more, else 1), before the text lines (see [`spec_sat_lines`];
/// version 1); before R2000 a bit (not kept); from R2007 on the history
/// handle (else 0).
pub open spec fn spec_modeler_body(m: StreamsModel, len: nat, v: DxfVersion, reference: u64)
    -> Result<((AcisModel, u64), StreamsModel), DxfError>
{
    match spec_field(m, len, v, reference, FieldKind::RawChar) {
        Err(e) => Err(e),
        Ok((f, m1)) => {
            let ver = match f { FieldModel::Char(b) => b, _ => 0u8 };
            let acis = if version_at_least(v, DxfVersion::AC1021) {
                match spec_sab_chunks(m1, len) {
                    Err(e) => Err(e),
                    Ok((bs, m2)) => Ok((AcisModel {
                        version: if ver >= 2 { AcisVersion::Version2 } else { AcisVersion::Version1 },
                        sat_data: Seq::empty(),
                        sab_data: bs,
                        is_binary: true,
                    }, m2)),
                }
            } else {
                match spec_sat_lines(m1, len, v) {
                    Err(e) => Err(e),
                    Ok((t, m2)) => Ok((AcisModel {
                        version: AcisVersion::Version1,
                        sat_data: t,
                        sab_data: Seq::empty(),
                        is_binary: false,
                    }, m2)),
                }
            };
            match acis {
                Err(e) => Err(e),
                Ok((a, m2)) => match (if !version_at_least(v, DxfVersion::AC1015) {
                    spec_field(m2, len, v, reference, FieldKind::Bit) } else { Ok((FieldModel::Bool(false), m2)) }) {
                    Err(e) => Err(e),
                    Ok((_, m3)) => if version_at_least(v, DxfVersion::AC1021) {
                        match spec_next_ref(m3, len, 0) {
                            Err(e) => Err(e),
                            Ok((h, m4)) => Ok(((a, h), m4)),
                        }
                    } else {
                        Ok(((a, 0u64), m3))
                    },
                },
            }
        },
    }
}

/// A modeler geometry entity read from the streams `m` of `data`
/// (version `v`, object data starting at bit `init`, current handle
/// `reference`): its common entity data (see [`spec_common_entity`]),
/// then its object data (see [`spec_modeler_body`]).
pub open spec fn spec_modeler(m: StreamsModel, data: Seq<u8>, v: DxfVersion, init: int, reference: u64)
    -> Result<((CommonModel, CadEntityTemplateData, EntityCommon, AcisModel, u64), StreamsModel), DxfError>
{
    match spec_common_entity(m, data, v, init) {
        Err(e) => Err(e),
        Ok(((cm, ent, ec), m1)) => match spec_modeler_body(m1, data.len(), v, reference) {
            Err(e) => Err(e),
            Ok(((a, h), m2)) => Ok(((cm, ent, ec, a, h), m2)),
        },
    }
}

/// `r` is the modeler geometry entity of the kind `kind` read as `res`
/// (see [`spec_modeler`]): a 3D solid is a 3D solid template keeping its
/// history handle, the other kinds plain entities; the streams end as
/// `res` says.
pub open spec fn modeler_read(r: Result<CadTemplate<XDataValue, ModelerEntity>, DxfError>,
    res: Result<((CommonModel, CadEntityTemplateData, EntityCommon, AcisModel, u64), StreamsModel), DxfError>,
    kind: ModelerGeoType, s: StreamSet) -> bool
{
    match res {
        Err(e) => r matches Err(e2) && e2 == e,
        Ok(((cm, ent, ec, a, h), m)) => model_of(s) == m && match r {
            Ok(CadTemplate::Solid3D { common, entity_data, solid3d_data, entity }) => kind == ModelerGeoType::Solid3D
                && common_model(common) == cm && entity_data == ent && entity.common == ec && entity.kind == kind
                && entity.acis_data@ == a && solid3d_data.history_handle == h,
            Ok(CadTemplate::Entity { common, entity_data, entity }) => kind != ModelerGeoType::Solid3D
                && common_model(common) == cm && entity_data == ent && entity.common == ec && entity.kind == kind
                && entity.acis_data@ == a,
            _ => false,
        },
    }
}

/// One step of [`spec_sab_chunks`] from valid streams: the chunk read
/// moves the reader on.
pub proof fn lemma_sab_step(m: StreamsModel, len: nat)
    requires
        valid_cursor(m.object),
    ensures
        match spec_read_bit_long(m.object) {
            Some((n, c1)) => n != 0 ==> match spec_read_bytes(c1, ((n as i32) as usize) as nat) {
                Some((bs, c2)) => c2.bytes.len() < m.object.bytes.len() && valid_cursor(c2),
                None => true,
            },
            None => true,
        },
{
    if let Some((n, c1)) = spec_read_bit_long(m.object) {
        if n != 0 {
            lemma_count_nonzero(n as i32);
            if spec_read_bytes(c1, ((n as i32) as usize) as nat) is Some {
                lemma_chunk_progress(m.object, ((n as i32) as usize) as nat);
            }
        }
    }
}

/// One step of [`spec_sat_lines`] from valid streams before R2007: a line
/// that is not empty moves a reader on.
pub proof fn lemma_sat_step(m: StreamsModel, len: nat, v: DxfVersion)
    requires
        valid_cursor(m.object),
        valid_cursor(m.text),
        !r2007_plus(v),
    ensures
        spec_sat_lines(m, len, v) == (match spec_stream_text(m, len, v) {
            Err(e) => Err(e),
            Ok((t, m1)) => if t.len() == 0 {
                Ok((Seq::empty(), m1))
            } else {
                match spec_sat_lines(m1, len, v) {
                    Err(e) => Err(e),
                    Ok((rest, m2)) => Ok((t + seq!['\n'] + rest, m2)),
                }
            },
        }),
        match spec_stream_text(m, len, v) {
            Ok((t, m1)) => t.len() > 0
                ==> m1.object.bytes.len() + m1.text.bytes.len() < m.object.bytes.len() + m.text.bytes.len(),
            Err(_) => true,
        },
{
    let c = if m.separate_text { m.text } else { m.object };
    if let Ok((t, c2)) = spec_read_variable_text(c, v, TextEncoding::Windows1252) {
        if t.len() > 0 {
            lemma_text_progress(c, v, TextEncoding::Windows1252);
        }
    }
}

/// Read the binary chunks of ACIS data (see [`spec_sab_chunks`]).
fn read_sab_chunks(streams: &mut StreamSet) -> (r: Result<Vec<u8>, DxfError>)
    requires
        streams_of(*old(streams), old(streams).object_reader.data(), old(streams).object_reader.spec_version()),
    ensures
        streams_of(*final(streams), old(streams).object_reader.data(), old(streams).object_reader.spec_version()),
        final(streams).current_handle == old(streams).current_handle,
        match spec_sab_chunks(model_of(*old(streams)), old(streams).object_reader.data().len()) {
            Err(e) => r matches Err(e2) && e2 == e,
            Ok((bs, m)) => r matches Ok(x) && x@ == bs && model_of(*final(streams)) == m,
        },
{
    let ghost data = streams.object_reader.data();
    let ghost len = data.len();
    let ghost v = streams.object_reader.spec_version();
    streams.object_reader.cursor_valid();
    let ghost total = spec_sab_chunks(model_of(*streams), len);
    let mut out: Vec<u8> = Vec::new();
    loop
        invariant
            len == data.len(),
            data == old(streams).object_reader.data(),
            v == old(streams).object_reader.spec_version(),
            streams.current_handle == old(streams).current_handle,
            streams_of(*streams, data, v),
            valid_cursor(streams.object_reader.cursor()),
            total == spec_sab_chunks(model_of(*old(streams)), len),
            total == (match spec_sab_chunks(model_of(*streams), len) {
                Err(e) => Err(e),
                Ok((bs, m)) => Ok((out@ + bs, m)),
            }),
        decreases streams.object_reader.cursor().bytes.len(),
    {
        let ghost m0 = model_of(*streams);
        let n = streams.object_reader.read_bit_long()?;
        if n == 0 {
            proof { assert(out@ + Seq::<u8>::empty() =~= out@); }
            return Ok(out);
        }
        let ghost c1 = streams.object_reader.cursor();
        let mut chunk = streams.object_reader.read_bytes(n as usize)?;
        proof {
            lemma_sab_step(m0, len);
            let rest1 = spec_sab_chunks(model_of(*streams), len);
            if let Ok((bs, m)) = rest1 {
                assert(out@ + (chunk@ + bs) =~= (out@ + chunk@) + bs);
            }
        }
        out.append(&mut chunk);
    }
}

/// Read the text lines of ACIS data before R2007 (see
/// [`spec_sat_lines`]).
fn read_sat_lines(streams: &mut StreamSet) -> (r: Result<String, DxfError>)
    requires
        streams_of(*old(streams), old(streams).object_reader.data(), old(streams).object_reader.spec_version()),
        !r2007_plus(old(streams).object_reader.spec_version()),
    ensures
        streams_of(*final(streams), old(streams).object_reader.data(), old(streams).object_reader.spec_version()),
        final(streams).current_handle == old(streams).current_handle,
        match spec_sat_lines(model_of(*old(streams)), old(streams).object_reader.data().len(),
            old(streams).object_reader.spec_version()) {
            Err(e) => r matches Err(e2) && e2 == e,
            Ok((t, m)) => r matches Ok(x) && x@ == t && model_of(*final(streams)) == m,
        },
{
    let ghost data = streams.object_reader.data();
    let ghost len = data.len();
    let ghost v = streams.object_reader.spec_version();
    streams.object_reader.cursor_valid();
    streams.text_reader.cursor_valid();
    let ghost total = spec_sat_lines(model_of(*streams), len, v);
    let mut out = String::new();
    let newline = "\n";
    proof { reveal_strlit("\n"); }
    loop
        invariant
            len == data.len(),
            data == old(streams).object_reader.data(),
            v == old(streams).object_reader.spec_version(),
            !r2007_plus(v),
            newline@ == seq!['\n'],
            streams.current_handle == old(streams).current_handle,
            streams_of(*streams, data, v),
            valid_cursor(streams.object_reader.cursor()),
            valid_cursor(streams.text_reader.cursor()),
            total == spec_sat_lines(model_of(*old(streams)), len, v),
            total == (match spec_sat_lines(model_of(*streams), len, v) {
                Err(e) => Err(e),
                Ok((t, m)) => Ok((out@ + t, m)),
            }),
        decreases streams.object_reader.cursor().bytes.len() + streams.text_reader.cursor().bytes.len(),
    {
        let ghost m0 = model_of(*streams);
        proof { lemma_sat_step(m0, len, v); }
        let line = match read_stream_field(streams, FieldKind::Text)? {
            FieldValue::Text(t) => t,
            _ => String::new(),
        };
        streams.object_reader.cursor_valid();
        streams.text_reader.cursor_valid();
        if line.as_str().is_empty() {
            proof { assert(out@ + Seq::<char>::empty() =~= out@); }
            return Ok(out);
        }
        proof {
            let rest1 = spec_sat_lines(model_of(*streams), len, v);
            if let Ok((t, m)) = rest1 {
                assert(out@ + (line@ + seq!['\n'] + t) =~= (out@ + line@ + seq!['\n']) + t);
            }
        }
        out.append(line.as_str());
        out.append(newline);
    }
}

impl DwgObjectReader {
    /// Read the object data of a modeler geometry entity (see
    /// [`spec_modeler_body`]).
    fn read_modeler_body(&mut self, streams: &mut StreamSet) -> (r: Result<(AcisData, u64), DxfError>)
        requires
            old(self).inv(),
            streams_of(*old(streams), old(self).data(), old(self).spec_version()),
        ensures
            *final(self) == *old(self),
            streams_of(*final(streams), old(self).data(), old(self).spec_version()),
            final(streams).current_handle == old(streams).current_handle,
            match spec_modeler_body(model_of(*old(streams)), old(self).data().len(), old(self).spec_version(),
                old(streams).current_handle) {
                Err(e) => r matches Err(e2) && e2 == e,
                Ok(((a, h), m)) => r matches Ok((x, h2)) && x@ == a && h2 == h && model_of(*final(streams)) == m,
            },
    {
        let v = self.version();
        let ver = match read_stream_field(streams, FieldKind::RawChar)? {
            FieldValue::Char(b) => b,
            _ => 0,
        };
        let acis = if v.at_least(DxfVersion::AC1021) {
            let sab_data = read_sab_chunks(streams)?;
            AcisData {
                version: if ver >= 2 { AcisVersion::Version2 } else { AcisVersion::Version1 },
                sat_data: String::new(),
                sab_data,
                is_binary: true,
            }
        } else {
            let sat_data = read_sat_lines(streams)?;
            AcisData { version: AcisVersion::Version1, sat_data, sab_data: Vec::new(), is_binary: false }
        };
        if !v.at_least(DxfVersion::AC1015) {
            let _wires = read_stream_field(streams, FieldKind::Bit)?;
        }
        let history = if v.at_least(DxfVersion::AC1021) { streams.handles_reader.handle_reference()? } else { 0 };
        Ok((acis, history))
    }

    /// Read a modeler geometry entity of the kind `kind` (see
    /// [`spec_modeler`] and [`modeler_read`]).
    pub fn read_modeler_geometry(&mut self, streams: &mut StreamSet, kind: ModelerGeoType)
        -> (r: Result<CadTemplate<XDataValue, ModelerEntity>, DxfError>)
        requires
            old(self).inv(),
            streams_of(*old(streams), old(self).data(), old(self).spec_version()),
        ensures
            *final(self) == *old(self),
            streams_of(*final(streams), old(self).data(), old(self).spec_version()),
            final(streams).current_handle == old(streams).current_handle,
            modeler_read(r, spec_modeler(model_of(*old(streams)), old(self).data(), old(self).spec_version(),
                old(self).initial_pos(), old(streams).current_handle), kind, *final(streams)),
    {
        let (common, entity_data, ec) = self.read_common_entity_data(streams)?;
        let (acis_data, history_handle) = self.read_modeler_body(streams)?;
        let entity = ModelerEntity { common: ec, kind, acis_data };
        match kind {
            ModelerGeoType::Solid3D => Ok(CadTemplate::Solid3D {
                common,
                entity_data,
                solid3d_data: CadSolid3DTemplateData { history_handle },
                entity,
            }),
            _ => Ok(CadTemplate::Entity { common, entity_data, entity }),
        }
    }

    /// Read a 3D solid (see [`read_modeler_geometry`]).
    pub fn read_solid_3d(&mut self, streams: &mut StreamSet)
        -> (r: Result<CadTemplate<XDataValue, ModelerEntity>, DxfError>)
        requires
            old(self).inv(),
            streams_of(*old(streams), old(self).data(), old(self).spec_version()),
        ensures
            *final(self) == *old(self),
            streams_of(*final(streams), old(self).data(), old(self).spec_version()),
            final(streams).current_handle == old(streams).current_handle,
            modeler_read(r, spec_modeler(model_of(*old(streams)), old(self).data(), old(self).spec_version(),
                old(self).initial_pos(), old(streams).current_handle), ModelerGeoType::Solid3D, *final(streams)),
    {
        self.read_modeler_geometry(streams, ModelerGeoType::Solid3D)
    }
}


/// What [`DwgObjectReader::read_modeler_geometry`] gives and leaves: its result `r` and
/// its streams, from `st0` to `st1`, for the reader `before`.
pub open spec fn read_modeler_geometry_outcome(before: DwgObjectReader, st0: StreamSet, st1: StreamSet, kind: ModelerGeoType,
    r: Result<CadTemplate<XDataValue, ModelerEntity>, DxfError>) -> bool {
    &&& streams_of(st1, before.data(), before.spec_version())
    &&& st1.current_handle == st0.current_handle
    &&& modeler_read(r, spec_modeler(model_of(st0), before.data(), before.spec_version(),
            before.initial_pos(), st0.current_handle), kind, st1)
}

/// What [`DwgObjectReader::read_solid_3d`] gives and leaves: its result `r` and
/// its streams, from `st0` to `st1`, for the reader `before`.
pub open spec fn read_solid_3d_outcome(before: DwgObjectReader, st0: StreamSet, st1: StreamSet,
    r: Result<CadTemplate<XDataValue, ModelerEntity>, DxfError>) -> bool {
    &&& streams_of(st1, before.data(), before.spec_version())
    &&& st1.current_handle == st0.current_handle
    &&& modeler_read(r, spec_modeler(model_of(st0), before.data(), before.spec_version(),
            before.initial_pos(), st0.current_handle), ModelerGeoType::Solid3D, st1)
}

} // verus!
