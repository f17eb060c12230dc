//! The `AcDb:Header` section reader: the system variables of a drawing,
//! stored in the order of [`header_before_seed`], the handle seed, then
//! [`header_after_seed`], the current plot style handle when the plot
//! style type asks for it, and [`header_tail`].

use vstd::prelude::*;
use crate::bit_model::{BitCursor, next_position, spec_read_bytes, spec_read_raw_long, spec_next_bytes, raw_remaining};
use crate::color::{r2004_plus, spec_cm_color_head};
use crate::stream_values::spec_read_variable_text;
use crate::object_reader::spec_stream_text;
use crate::encoding::TextEncoding;
use crate::error::DxfError;
use crate::header_layout::{header_before_seed, header_after_seed, header_tail, header_before_seed_fields,
    header_after_seed_fields, header_tail_fields};
use crate::object_reader::{StreamsModel, FieldKind, FieldValue, FieldModel, spec_field, streams_of, model_of,
    fields_model, fields_with_prefix, on_object, read_stream_field, text_stream};
use crate::stream_reader::{get_stream_handler, bits_cursor, position_after_bits, cursor_at, spec_string_stream_start};
use crate::object_records::version_at_least;
use crate::stream_set::StreamSet;
use crate::stream_values::spec_handle_reference;
use crate::table_entries::only_if;
use crate::version::DxfVersion;

verus! {

/// Reader of the `AcDb:Header` section (the system variables).
pub struct DwgHeaderReader {
    data: Vec<u8>,
    version: DxfVersion,
}

/// The system variables of a drawing as they are stored: their values in
/// the order of the section, the handles among them as read.
pub struct HeaderValues {
    /// The variables before the handle seed (see [`header_before_seed`]).
    pub before_seed: Vec<FieldValue>,
    /// The handle seed: the next handle to give out.
    pub handle_seed: u64,
    /// The variables after the handle seed (see [`header_after_seed`],
    /// then the current plot style handle when present, then
    /// [`header_tail`]).
    pub after_seed: Vec<FieldValue>,
}

/// The contents of [`HeaderValues`].
pub struct HeaderModel {
    pub before_seed: Seq<FieldModel>,
    pub handle_seed: u64,
    pub after_seed: Seq<FieldModel>,
}

impl View for HeaderValues {
    type V = HeaderModel;

    open spec fn view(&self) -> HeaderModel {
        HeaderModel {
            before_seed: fields_model(self.before_seed@),
            handle_seed: self.handle_seed,
            after_seed: fields_model(self.after_seed@),
        }
    }
}

/// The short a field holds (0 for a field of another kind).
pub open spec fn field_short(f: FieldModel) -> i16 {
    match f {
        FieldModel::Short(n) => n,
        _ => 0,
    }
}

/// The names after a color flag byte `id`, skipped, from the stream `c`
/// at byte position `p` (data of `len` bytes): a color name when bit 0 is
/// set, then a book name when bit 1 is set (see [`spec_skip_color_names`]).
pub open spec fn spec_skip_names_at(c: BitCursor, p: nat, len: nat, v: DxfVersion, id: u8)
    -> Result<(BitCursor, nat), DxfError>
{
    let first = if id & 1u8 == 1u8 {
        match spec_read_variable_text(c, v, TextEncoding::Windows1252) {
            Err(e) => Err(e),
            Ok((_, c1)) => Ok((c1, next_position(p, len, c1))),
        }
    } else {
        Ok((c, p))
    };
    match first {
        Err(e) => Err(e),
        Ok((c1, p1)) => if id & 2u8 == 2u8 {
            match spec_read_variable_text(c1, v, TextEncoding::Windows1252) {
                Err(e) => Err(e),
                Ok((_, c2)) => Ok((c2, next_position(p1, len, c2))),
            }
        } else {
            Ok((c1, p1))
        },
    }
}

/// A color read merged (R2004 and later): the numbers from the main
/// stream `m.object`, the names, skipped, from the string stream (nothing
/// when that stream was found absent).
pub open spec fn spec_split_cm_color(m: StreamsModel, len: nat, v: DxfVersion)
    -> Result<(FieldModel, StreamsModel), DxfError>
{
    match spec_cm_color_head(m.object) {
        Err(e) => Err(e),
        Ok(((color, id), c1)) => {
            let m1 = on_object(m, len, c1);
            if m.text_empty {
                Ok((FieldModel::Color(color), m1))
            } else {
                match spec_skip_names_at(m.text, m.text_pos, len, v, id) {
                    Err(e) => Err(e),
                    Ok((t1, p1)) => Ok((FieldModel::Color(color), StreamsModel { text: t1, text_pos: p1, ..m1 })),
                }
            }
        },
    }
}

/// One header variable of kind `k` read from the streams `m` (data of
/// `len` bytes, version `v`).  Read merged (from R2007 on), a text comes
/// from the string stream, the empty text when that stream was found
/// absent, a color has its names there, and a handle comes from the
/// handle stream; read from one stream (before R2007), every value comes
/// from the main stream, handles included.  Handles are absolute.
#[verifier::opaque]
pub open spec fn spec_header_field(m: StreamsModel, len: nat, v: DxfVersion, k: FieldKind)
    -> Result<(FieldModel, StreamsModel), DxfError>
{
    if m.merged {
        match k {
            FieldKind::Text => if m.text_empty {
                Ok((FieldModel::Text(Seq::empty()), m))
            } else {
                spec_field(m, len, v, 0, k)
            },
            FieldKind::CmColor => if r2004_plus(v) { spec_split_cm_color(m, len, v) } else { spec_field(m, len, v, 0, k) },
            _ => spec_field(m, len, v, 0, k),
        }
    } else {
        match k {
            FieldKind::Handle => spec_field(m, len, v, 0, FieldKind::ObjectHandle),
            _ => spec_field(m, len, v, 0, k),
        }
    }
}

/// The header variables of the layout `ks` read in order (see
/// [`spec_header_field`]).
pub open spec fn spec_header_fields(m: StreamsModel, len: nat, v: DxfVersion, ks: Seq<FieldKind>)
    -> Result<(Seq<FieldModel>, StreamsModel), DxfError>
    decreases ks.len(),
{
    if ks.len() == 0 {
        Ok((Seq::empty(), m))
    } else {
        match spec_header_field(m, len, v, ks[0]) {
            Err(e) => Err(e),
            Ok((f, m1)) => match spec_header_fields(m1, len, v, ks.skip(1)) {
                Err(e) => Err(e),
                Ok((fs, m2)) => Ok((seq![f] + fs, m2)),
            },
        }
    }
}

/// Whether the variables `a` after the handle seed (see
/// [`header_after_seed`]) announce the current plot style handle: from
/// R2000 on, when the plot style type, their last value, is 3.
pub open spec fn has_plot_style_handle(v: DxfVersion, a: Seq<FieldModel>) -> bool {
    version_at_least(v, DxfVersion::AC1015) && field_short(a[a.len() - 1]) == 3
}

/// The system variables read from the streams `m` (data of `len` bytes,
/// version `v`): the variables of [`header_before_seed`], the handle seed
/// (from the main stream), the variables of [`header_after_seed`], then
/// the current plot style handle when they announce it (see
/// [`has_plot_style_handle`]) and the variables of [`header_tail`].
pub open spec fn spec_header_variables(m: StreamsModel, len: nat, v: DxfVersion)
    -> Result<(HeaderModel, StreamsModel), DxfError>
{
    match spec_header_fields(m, len, v, header_before_seed(v)) {
        Err(e) => Err(e),
        Ok((b, m1)) => match spec_handle_reference(m1.object, 0) {
            Err(e) => Err(e),
            Ok(((seed, _), c2)) => match spec_header_fields(on_object(m1, len, c2), len, v, header_after_seed(v)) {
                Err(e) => Err(e),
                Ok((a, m3)) => match spec_header_fields(m3, len, v,
                    only_if(has_plot_style_handle(v, a), seq![FieldKind::Handle]) + header_tail(v)) {
                    Err(e) => Err(e),
                    Ok((t, m4)) => Ok((HeaderModel { before_seed: b, handle_seed: seed, after_seed: a + t }, m4)),
                },
            },
        },
    }
}

/// Whether the section of a `v` file of maintenance version
/// `maintenance` has a second size word: from R2010 past maintenance
/// version 3, and from R2018 on.
pub open spec fn has_size_high(v: DxfVersion, maintenance: i32) -> bool {
    (version_at_least(v, DxfVersion::AC1024) && maintenance > 3) || version_at_least(v, DxfVersion::AC1032)
}

/// Whether the end sentinel can be read at bit `end` of `data`: the
/// reader moved there and its shift dropped, two bytes skipped, then
/// sixteen bytes.
pub open spec fn end_sentinel_readable(data: Seq<u8>, end: i64) -> bool {
    let c = cursor_at(data, position_after_bits(data.len(), end), 0);
    spec_read_bytes(spec_next_bytes(c, 2).1, 16) is Some
}

/// The streams of the variables of an R2007 or later section `data`
/// whose main stream is `c` at byte `p` and whose variables end at bit
/// `last`: the strings found back from that bit (see
/// [`spec_string_stream_start`]) and the handles from the next one.
pub open spec fn merged_header_streams(data: Seq<u8>, c: BitCursor, p: nat, last: int)
    -> Result<StreamsModel, DxfError>
{
    match spec_string_stream_start(data, last as i64) {
        Err(e) => Err(e),
        Ok(start) => {
            let (tc, tp, te) = text_stream(data, start);
            Ok(StreamsModel {
                object: c,
                object_pos: p,
                text: tc,
                text_pos: tp,
                text_empty: te,
                handles: bits_cursor(data, (last + 1) as i64),
                handles_pos: position_after_bits(data.len(), (last + 1) as i64),
                merged: true,
                separate_text: true,
            })
        },
    }
}

/// The system variables of the header section `data` of a `v` file of
/// maintenance version `maintenance`: the start sentinel (sixteen bytes,
/// not checked), the size in bytes (a raw long), a second size word when
/// the file has one (see [`has_size_high`]); the variables start there.
/// From R2007 on the size of the variables in bits (a raw long) follows
/// and the variables are read merged (see [`merged_header_streams`]);
/// before, from the one stream.  The end sentinel, found from the size,
/// must be readable (see [`end_sentinel_readable`]); its value is not
/// checked.
pub open spec fn spec_header_read(data: Seq<u8>, v: DxfVersion, maintenance: i32) -> Result<HeaderModel, DxfError> {
    let len = data.len();
    let c0 = BitCursor { bytes: data, shift: 0 };
    match spec_read_bytes(c0, 16) {
        None => Err(DxfError::UnexpectedEof),
        Some((_, c1)) => match spec_read_raw_long(c1) {
            None => Err(DxfError::UnexpectedEof),
            Some((size, c2)) => match (if has_size_high(v, maintenance) { spec_read_raw_long(c2) } else { Some((0int, c2)) }) {
                None => Err(DxfError::UnexpectedEof),
                Some((_, c3)) => {
                    let p3 = next_position(0, len, c3);
                    let initial = p3 * 8;
                    let vars = if version_at_least(v, DxfVersion::AC1021) {
                        match spec_read_raw_long(c3) {
                            None => Err(DxfError::UnexpectedEof),
                            Some((bits, c4)) => match merged_header_streams(data, c4, next_position(p3, len, c4),
                                initial + bits - 1) {
                                Err(e) => Err(e),
                                Ok(m) => spec_header_variables(m, len, v),
                            },
                        }
                    } else {
                        spec_header_variables(StreamsModel {
                            object: c3,
                            object_pos: p3,
                            text: c0,
                            text_pos: 0,
                            text_empty: false,
                            handles: c0,
                            handles_pos: 0,
                            merged: false,
                            separate_text: false,
                        }, len, v)
                    };
                    match vars {
                        Err(e) => Err(e),
                        Ok((h, _)) => if end_sentinel_readable(data, (initial + size * 8) as i64) {
                            Ok(h)
                        } else {
                            Err(DxfError::UnexpectedEof)
                        },
                    }
                },
            },
        },
    }
}

impl DwgHeaderReader {
    /// The section data.
    pub closed spec fn data(&self) -> Seq<u8> {
        self.data@
    }

    /// The version of the file.
    pub closed spec fn spec_version(&self) -> DxfVersion {
        self.version
    }

    /// A reader of the section `data` (already decompressed) of a
    /// `version` file.
    pub fn new(version: DxfVersion, data: Vec<u8>) -> (r: Self)
        ensures
            r.data() == data@,
            r.spec_version() == version,
    {
        DwgHeaderReader { data, version }
    }

    /// The version of the file.
    pub fn version(&self) -> (r: DxfVersion)
        ensures
            r == self.spec_version(),
    {
        self.version
    }

    /// Read the system variables (see [`spec_header_read`]).
    pub fn read(&self, acad_maintenance_version: i32) -> (r: Result<HeaderValues, DxfError>)
        requires
            self.data().len() * 8 + 0x10_0000_0000 <= i64::MAX,
        ensures
            match spec_header_read(self.data(), self.spec_version(), acad_maintenance_version) {
                Err(e) => r matches Err(e2) && e2 == e,
                Ok(h) => r matches Ok(x) && x@ == h,
            },
    {
        let ghost data = self.data@;
        let ghost len = data.len();
        let v = self.version;
        let mut main_reader = get_stream_handler(v, self.data.clone());
        let _start_sentinel = main_reader.read_sentinel()?;
        let size = main_reader.read_raw_long()? as i64;
        if (v.at_least(DxfVersion::AC1024) && acad_maintenance_version > 3) || v.at_least(DxfVersion::AC1032) {
            let _unknown = main_reader.read_raw_long()?;
        }
        proof {
            main_reader.lemma_cursor_bounds();
            assert(main_reader.cursor().shift == 0);
        }
        let initial_pos = main_reader.position_in_bits();
        let end_pos = initial_pos + size * 8;
        let values = if v.at_least(DxfVersion::AC1021) {
            let size_in_bits = main_reader.read_raw_long()? as i64;
            let last_position_in_bits = initial_pos + size_in_bits - 1;
            let mut text_reader = get_stream_handler(v, self.data.clone());
            let _text_start = text_reader.set_position_by_flag(last_position_in_bits)?;
            let mut reference_reader = get_stream_handler(v, self.data.clone());
            reference_reader.set_position_in_bits(last_position_in_bits + 1);
            let mut streams = StreamSet {
                object_reader: main_reader,
                text_reader,
                handles_reader: reference_reader,
                merged: true,
                has_separate_text_reader: true,
                current_handle: 0,
            };
            let values = read_header_variables(&mut streams)?;
            let mut end_reader = get_stream_handler(v, self.data.clone());
            end_reader.set_position_in_bits(end_pos);
            let _shift = end_reader.reset_shift()?;
            let _end_sentinel = end_reader.read_sentinel()?;
            values
        } else {
            let mut streams = StreamSet {
                object_reader: main_reader,
                text_reader: get_stream_handler(v, self.data.clone()),
                handles_reader: get_stream_handler(v, self.data.clone()),
                merged: false,
                has_separate_text_reader: false,
                current_handle: 0,
            };
            let values = read_header_variables(&mut streams)?;
            streams.object_reader.set_position_in_bits(end_pos);
            let _shift = streams.object_reader.reset_shift()?;
            let _end_sentinel = streams.object_reader.read_sentinel()?;
            values
        };
        Ok(values)
    }
}

/// Read a color merged (see [`spec_split_cm_color`]).
fn read_split_cm_color(streams: &mut StreamSet) -> (r: Result<FieldValue, DxfError>)
    requires
        streams_of(*old(streams), old(streams).object_reader.data(), old(streams).object_reader.spec_version()),
    ensures
        streams_of(*final(streams), old(streams).object_reader.data(), old(streams).object_reader.spec_version()),
        final(streams).current_handle == old(streams).current_handle,
        final(streams).merged == old(streams).merged,
        final(streams).has_separate_text_reader == old(streams).has_separate_text_reader,
        match spec_split_cm_color(model_of(*old(streams)), old(streams).object_reader.data().len(),
            old(streams).object_reader.spec_version()) {
            Err(e) => r matches Err(e2) && e2 == e,
            Ok((f, m)) => r matches Ok(x) && x@ == f && model_of(*final(streams)) == m,
        },
{
    let (color, id) = streams.object_reader.read_cm_color_head()?;
    if !streams.text_reader.is_empty() {
        if id & 1 == 1 {
            let _name = streams.text_reader.read_variable_text()?;
        }
        if id & 2 == 2 {
            let _book = streams.text_reader.read_variable_text()?;
        }
    }
    Ok(FieldValue::Color(color))
}

/// Read one header variable of kind `kind` (see [`spec_header_field`]).
fn read_header_field(streams: &mut StreamSet, kind: FieldKind) -> (r: Result<FieldValue, DxfError>)
    requires
        streams_of(*old(streams), old(streams).object_reader.data(), old(streams).object_reader.spec_version()),
        old(streams).current_handle == 0,
        old(streams).merged == old(streams).has_separate_text_reader,
    ensures
        streams_of(*final(streams), old(streams).object_reader.data(), old(streams).object_reader.spec_version()),
        final(streams).current_handle == 0,
        final(streams).merged == old(streams).merged,
        final(streams).has_separate_text_reader == old(streams).has_separate_text_reader,
        match spec_header_field(model_of(*old(streams)), old(streams).object_reader.data().len(),
            old(streams).object_reader.spec_version(), kind) {
            Err(e) => r matches Err(e2) && e2 == e,
            Ok((f, m)) => r matches Ok(x) && x@ == f && model_of(*final(streams)) == m,
        },
{
    proof { reveal(spec_header_field); }
    if streams.merged {
        match kind {
            FieldKind::Text => {
                if streams.text_reader.is_empty() {
                    Ok(FieldValue::Text(String::new()))
                } else {
                    read_stream_field(streams, FieldKind::Text)
                }
            },
            FieldKind::CmColor => {
                if streams.object_reader.version().at_least(DxfVersion::AC1018) {
                    read_split_cm_color(streams)
                } else {
                    read_stream_field(streams, FieldKind::CmColor)
                }
            },
            _ => read_stream_field(streams, kind),
        }
    } else {
        match kind {
            FieldKind::Handle => read_stream_field(streams, FieldKind::ObjectHandle),
            _ => read_stream_field(streams, kind),
        }
    }
}

/// Read the header variables of the layout `kinds` in order (see
/// [`spec_header_fields`]).
fn read_header_fields(streams: &mut StreamSet, kinds: &Vec<FieldKind>) -> (r: Result<Vec<FieldValue>, DxfError>)
    requires
        streams_of(*old(streams), old(streams).object_reader.data(), old(streams).object_reader.spec_version()),
        old(streams).current_handle == 0,
        old(streams).merged == old(streams).has_separate_text_reader,
    ensures
        streams_of(*final(streams), old(streams).object_reader.data(), old(streams).object_reader.spec_version()),
        final(streams).current_handle == 0,
        final(streams).merged == old(streams).merged,
        final(streams).has_separate_text_reader == old(streams).has_separate_text_reader,
        match spec_header_fields(model_of(*old(streams)), old(streams).object_reader.data().len(),
            old(streams).object_reader.spec_version(), kinds@) {
            Err(e) => r matches Err(e2) && e2 == e,
            Ok((fs, m)) => r matches Ok(v) && fields_model(v@) == fs && model_of(*final(streams)) == m,
        },
{
    let ghost data = streams.object_reader.data();
    let ghost len = data.len();
    let ghost v = streams.object_reader.spec_version();
    let ghost total = spec_header_fields(model_of(*streams), len, v, kinds@);
    let mut values: Vec<FieldValue> = Vec::new();
    let mut i: usize = 0;
    proof {
        assert(kinds@.skip(0) =~= kinds@);
        if let Ok((fs, m)) = total {
            assert(fields_model(values@) + fs =~= fs);
        }
    }
    while i < kinds.len()
        invariant
            i <= kinds@.len(),
            len == data.len(),
            data == old(streams).object_reader.data(),
            v == old(streams).object_reader.spec_version(),
            streams.current_handle == 0,
            streams.merged == old(streams).merged,
            streams.has_separate_text_reader == old(streams).has_separate_text_reader,
            streams.merged == streams.has_separate_text_reader,
            streams_of(*streams, data, v),
            total == spec_header_fields(model_of(*old(streams)), len, v, kinds@),
            total == fields_with_prefix(fields_model(values@),
                spec_header_fields(model_of(*streams), len, v, kinds@.skip(i as int))),
        decreases kinds@.len() - i,
    {
        let ghost m0 = model_of(*streams);
        let ghost rest0 = spec_header_fields(m0, len, v, kinds@.skip(i as int));
        proof {
            assert(kinds@.skip(i as int)[0] == kinds@[i as int]);
            assert(kinds@.skip(i as int).skip(1) =~= kinds@.skip(i + 1));
        }
        let f = match read_header_field(streams, kinds[i]) {
            Ok(f) => f,
            Err(e) => {
                proof { assert(rest0 matches Err(e2) && e2 == e); }
                return Err(e);
            },
        };
        proof {
            let rest1 = spec_header_fields(model_of(*streams), len, v, kinds@.skip(i + 1));
            assert(rest0 == fields_with_prefix(seq![f@], rest1));
            if let Ok((fs, m)) = rest1 {
                assert(fields_model(values@) + (seq![f@] + fs) =~= fields_model(values@.push(f)) + fs);
            }
        }
        values.push(f);
        i = i + 1;
    }
    proof {
        assert(kinds@.skip(kinds@.len() as int) =~= Seq::<FieldKind>::empty());
        if let Ok((fs, m)) = total {
            assert(fields_model(values@) + Seq::<FieldModel>::empty() =~= fields_model(values@));
        }
    }
    Ok(values)
}

/// Reading a layout of header variables gives one value per variable.
pub proof fn lemma_header_fields_len(m: StreamsModel, len: nat, v: DxfVersion, ks: Seq<FieldKind>)
    ensures
        spec_header_fields(m, len, v, ks) matches Ok((fs, _)) ==> fs.len() == ks.len(),
    decreases ks.len(),
{
    if ks.len() > 0 {
        if let Ok((f, m1)) = spec_header_field(m, len, v, ks[0]) {
            lemma_header_fields_len(m1, len, v, ks.skip(1));
        }
    }
}

/// The short a field value holds (see [`field_short`]).
pub(crate) fn field_short_of(f: &FieldValue) -> (r: i16)
    ensures
        r == field_short(f@),
{
    match f {
        FieldValue::Short(n) => *n,
        _ => 0,
    }
}

/// Read the system variables from `streams` (see
/// [`spec_header_variables`]).
fn read_header_variables(streams: &mut StreamSet) -> (r: Result<HeaderValues, DxfError>)
    requires
        streams_of(*old(streams), old(streams).object_reader.data(), old(streams).object_reader.spec_version()),
        old(streams).current_handle == 0,
        old(streams).merged == old(streams).has_separate_text_reader,
    ensures
        streams_of(*final(streams), old(streams).object_reader.data(), old(streams).object_reader.spec_version()),
        final(streams).current_handle == 0,
        final(streams).merged == old(streams).merged,
        final(streams).has_separate_text_reader == old(streams).has_separate_text_reader,
        match spec_header_variables(model_of(*old(streams)), old(streams).object_reader.data().len(),
            old(streams).object_reader.spec_version()) {
            Err(e) => r matches Err(e2) && e2 == e,
            Ok((h, m)) => r matches Ok(x) && x@ == h && model_of(*final(streams)) == m,
        },
{
    let ghost len = streams.object_reader.data().len();
    let v = streams.object_reader.version();
    let before = header_before_seed_fields(v);
    let before_seed = read_header_fields(streams, &before)?;
    let handle_seed = streams.object_reader.handle_reference()?;
    let after = header_after_seed_fields(v);
    proof { lemma_header_fields_len(model_of(*streams), len, v, after@); }
    let mut after_seed = read_header_fields(streams, &after)?;
    let n = after_seed.len();
    let plot = v.at_least(DxfVersion::AC1015) && field_short_of(&after_seed[n - 1]) == 3;
    let mut tail: Vec<FieldKind> = Vec::new();
    if plot {
        tail.push(FieldKind::Handle);
    }
    let mut rest = header_tail_fields(v);
    tail.append(&mut rest);
    proof {
        assert(tail@ =~= only_if(has_plot_style_handle(v, fields_model(after_seed@)), seq![FieldKind::Handle])
            + header_tail(v));
    }
    let ghost a = fields_model(after_seed@);
    let mut tail_values = read_header_fields(streams, &tail)?;
    let ghost t = fields_model(tail_values@);
    after_seed.append(&mut tail_values);
    proof {
        assert(fields_model(after_seed@) =~= a + t);
    }
    Ok(HeaderValues { before_seed, handle_seed, after_seed })
}


/// `m2` is `m` but for its text and handle streams.
pub open spec fn same_main_stream(m: StreamsModel, m2: StreamsModel) -> bool {
    m2 == StreamsModel { text: m2.text, text_pos: m2.text_pos, handles: m2.handles, handles_pos: m2.handles_pos, ..m }
}

/// A field other than a handle, read with no text stream of its own,
/// depends on the main stream alone.
#[verifier::rlimit(60)]
proof fn lemma_field_main(m: StreamsModel, m2: StreamsModel, len: nat, v: DxfVersion, k: FieldKind)
    requires
        !m.merged,
        !m.separate_text,
        same_main_stream(m, m2),
        k != FieldKind::Handle,
    ensures
        match (spec_field(m, len, v, 0, k), spec_field(m2, len, v, 0, k)) {
            (Err(a), Err(b)) => a == b,
            (Ok((f, n)), Ok((f2, n2))) => f == f2 && same_main_stream(n, n2) && !n.merged && !n.separate_text,
            _ => false,
        },
{
    assert(m2.object == m.object);
    match k {
        FieldKind::Bit => {},
        FieldKind::BitShort => {},
        FieldKind::BitLongLong => {},
        FieldKind::BitLong => {},
        FieldKind::BitDouble => {},
        FieldKind::RawChar => {},
        FieldKind::RawLong => {},
        FieldKind::RawDouble => {},
        FieldKind::CmColor => {},
        FieldKind::ObjectHandle => {},
        FieldKind::XrefBit => {},
        FieldKind::Extrusion => {},
        FieldKind::Thickness => {},
        FieldKind::Point3 => {},
        FieldKind::Text => {},
        FieldKind::Handle => {},
    }
}

/// Before R2007 a variable is read from the main stream alone: two
/// streams that differ only in their text and handle streams give the
/// same variable, or the same error, and stay so.
proof fn lemma_header_field_main(m: StreamsModel, m2: StreamsModel, len: nat, v: DxfVersion, k: FieldKind)
    requires
        !m.merged,
        !m.separate_text,
        same_main_stream(m, m2),
    ensures
        match (spec_header_field(m, len, v, k), spec_header_field(m2, len, v, k)) {
            (Err(a), Err(b)) => a == b,
            (Ok((f, n)), Ok((f2, n2))) => f == f2 && same_main_stream(n, n2) && !n.merged && !n.separate_text,
            _ => false,
        },
{
    reveal(spec_header_field);
    if k == FieldKind::Handle {
        lemma_field_main(m, m2, len, v, FieldKind::ObjectHandle);
    } else {
        lemma_field_main(m, m2, len, v, k);
    }
}

/// The variables of a layout, read before R2007, depend on the main
/// stream alone (see [`lemma_header_field_main`]).
proof fn lemma_header_fields_main(m: StreamsModel, m2: StreamsModel, len: nat, v: DxfVersion, ks: Seq<FieldKind>)
    requires
        !m.merged,
        !m.separate_text,
        same_main_stream(m, m2),
    ensures
        match (spec_header_fields(m, len, v, ks), spec_header_fields(m2, len, v, ks)) {
            (Err(a), Err(b)) => a == b,
            (Ok((f, n)), Ok((f2, n2))) => f == f2 && same_main_stream(n, n2) && !n.merged && !n.separate_text,
            _ => false,
        },
    decreases ks.len(),
{
    if ks.len() > 0 {
        lemma_header_field_main(m, m2, len, v, ks[0]);
        match spec_header_field(m, len, v, ks[0]) {
            Ok((_, n)) => {
                let n2 = spec_header_field(m2, len, v, ks[0])->Ok_0.1;
                lemma_header_fields_main(n, n2, len, v, ks.skip(1));
            },
            Err(_) => {},
        }
    }
}

/// The start sentinel does not change the header read: before R2007, two
/// sections that differ only in their first sixteen bytes give the same
/// variables, or the same error.
pub proof fn lemma_header_ignores_start_sentinel(d1: Seq<u8>, d2: Seq<u8>, v: DxfVersion, maintenance: i32)
    requires
        d1.len() == d2.len(),
        forall|i: int| 16 <= i < d1.len() ==> d1[i] == d2[i],
        !version_at_least(v, DxfVersion::AC1021),
    ensures
        spec_header_read(d1, v, maintenance) == spec_header_read(d2, v, maintenance),
{
    let len = d1.len();
    if len >= 16 {
        assert(d1.skip(16) =~= d2.skip(16));
        let c1 = BitCursor { bytes: d1.skip(16), shift: 0 };
        match spec_read_raw_long(c1) {
            None => {},
            Some((size, c2)) => match (if has_size_high(v, maintenance) { spec_read_raw_long(c2) } else { Some((0int, c2)) }) {
                None => {},
                Some((_, c3)) => {
                    let p3 = next_position(0, len, c3);
                    let mk = |d: Seq<u8>| StreamsModel {
                        object: c3,
                        object_pos: p3,
                        text: BitCursor { bytes: d, shift: 0 },
                        text_pos: 0,
                        text_empty: false,
                        handles: BitCursor { bytes: d, shift: 0 },
                        handles_pos: 0,
                        merged: false,
                        separate_text: false,
                    };
                    let m1 = mk(d1);
                    let m2 = mk(d2);
                    lemma_header_fields_main(m1, m2, len, v, header_before_seed(v));
                    match spec_header_fields(m1, len, v, header_before_seed(v)) {
                        Err(_) => {},
                        Ok((b, n1)) => {
                            let n2 = spec_header_fields(m2, len, v, header_before_seed(v))->Ok_0.1;
                            match spec_handle_reference(n1.object, 0) {
                                Err(_) => {},
                                Ok(((seed, _), c)) => {
                                    let o1 = on_object(n1, len, c);
                                    let o2 = on_object(n2, len, c);
                                    lemma_header_fields_main(o1, o2, len, v, header_after_seed(v));
                                    match spec_header_fields(o1, len, v, header_after_seed(v)) {
                                        Err(_) => {},
                                        Ok((a, q1)) => {
                                            let q2 = spec_header_fields(o2, len, v, header_after_seed(v))->Ok_0.1;
                                            lemma_header_fields_main(q1, q2, len, v,
                                                only_if(has_plot_style_handle(v, a), seq![FieldKind::Handle]) + header_tail(v));
                                        },
                                    }
                                },
                            }
                        },
                    }
                    let end = (p3 * 8 + size * 8) as i64;
                    crate::classes_reader::lemma_next_bytes_shape(
                        cursor_at(d1, position_after_bits(len, end), 0), cursor_at(d2, position_after_bits(len, end), 0), 2);
                },
            },
        }
    }
}
} // verus!
