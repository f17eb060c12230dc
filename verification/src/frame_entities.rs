//! Readers of the entities that are read in part: OLE frames (their
//! version and the binary data of their object) and multileaders (their
//! common data only).

use vstd::prelude::*;
use crate::bit_model::{max_read_len, spec_read_bit_short, spec_read_bit_long, spec_read_bytes};
use crate::error::DxfError;
use crate::object_common::XDataValue;
use crate::object_reader::{DwgObjectReader, StreamsModel, EntityCommon, spec_common_entity, streams_of, model_of,
    common_model, on_object};
use crate::stream_set::StreamSet;
use crate::stream_values::bit_long_error;
use crate::templates::{CadTemplate, CadMultiLeaderTemplateData, CadMultiLeaderAnnotContextTemplateData};

verus! {

/// An OLE frame: its display properties, its version and the binary data
/// of the object it embeds.
pub struct Ole2FrameEntity {
    /// The display properties.
    pub common: EntityCommon,
    /// The version of the frame.
    pub version: i16,
    /// The data of the embedded object.
    pub data: Vec<u8>,
}

/// A multileader, of which the display properties are read.
pub struct MultiLeaderEntity {
    /// The display properties.
    pub common: EntityCommon,
}

/// The object data of an OLE frame read from the streams `m` (data of
/// `len` bytes): its version (a BitShort), the length of its data (a
/// BitLong, taken as a `usize`) and that many bytes.
pub open spec fn spec_ole2frame_body(m: StreamsModel, len: nat)
    -> Result<((i16, Seq<u8>), StreamsModel), DxfError>
{
    match spec_read_bit_short(m.object) {
        None => Err(DxfError::UnexpectedEof),
        Some((version, c1)) => match spec_read_bit_long(c1) {
            None => Err(bit_long_error(c1)),
            Some((n, c2)) => {
                let k = ((n as i32) as usize) as nat;
                match spec_read_bytes(c2, k) {
                    None => Err(if k > max_read_len() { DxfError::ReadTooLarge } else { DxfError::UnexpectedEof }),
                    Some((bs, c3)) => Ok(((version as i16, bs),
                        on_object(on_object(on_object(m, len, c1), len, c2), len, c3))),
                }
            },
        },
    }
}

/// The data of a multileader template with no handles known.
pub open spec fn empty_mleader_data(d: CadMultiLeaderTemplateData) -> bool {
    &&& d.leader_style_handle == 0
    &&& d.leader_line_type_handle == 0
    &&& d.arrowhead_handle == 0
    &&& d.mtext_style_handle == 0
    &&& d.block_content_handle == 0
    &&& d.arrowhead_handles@.len() == 0
    &&& d.block_attribute_handles@.len() == 0
    &&& d.annot_context_data.mtext_style_handle == 0
    &&& d.annot_context_data.block_table_handle == 0
    &&& d.annot_context_data.arrowhead_handles@.len() == 0
    &&& d.annot_context_data.block_attribute_handles@.len() == 0
}

impl DwgObjectReader {
    /// Read an OLE frame: its common entity data, then its object data (see
    /// [`spec_ole2frame_body`]).
    pub fn read_ole2frame(&mut self, streams: &mut StreamSet)
        -> (r: Result<CadTemplate<XDataValue, Ole2FrameEntity>, DxfError>)
        requires
            old(self).inv(),
            streams_of(*old(streams), old(self).data(), old(self).spec_version()),
        ensures
            *final(self) == *old(self),
            streams_of(*final(streams), old(self).data(), old(self).spec_version()),
            final(streams).current_handle == old(streams).current_handle,
            match spec_common_entity(model_of(*old(streams)), old(self).data(), old(self).spec_version(),
                old(self).initial_pos()) {
                Err(e) => r matches Err(e2) && e2 == e,
                Ok(((cm, ent, ec), m1)) => match spec_ole2frame_body(m1, old(self).data().len()) {
                    Err(e) => r matches Err(e2) && e2 == e,
                    Ok(((version, bs), m)) => r matches Ok(CadTemplate::Entity { common, entity_data, entity })
                        && common_model(common) == cm && entity_data == ent && entity.common == ec
                        && entity.version == version && entity.data@ == bs && model_of(*final(streams)) == m,
                },
            },
    {
        let (common, entity_data, ec) = self.read_common_entity_data(streams)?;
        let version = streams.object_reader.read_bit_short()?;
        let length = streams.object_reader.read_bit_long()?;
        let data = streams.object_reader.read_bytes(length as usize)?;
        Ok(CadTemplate::Entity { common, entity_data, entity: Ole2FrameEntity { common: ec, version, data } })
    }

    /// Read a multileader: its common entity data; its own data is not
    /// read, and its template knows none of its handles.
    pub fn read_multileader(&mut self, streams: &mut StreamSet)
        -> (r: Result<CadTemplate<XDataValue, MultiLeaderEntity>, DxfError>)
        requires
            old(self).inv(),
            streams_of(*old(streams), old(self).data(), old(self).spec_version()),
        ensures
            *final(self) == *old(self),
            streams_of(*final(streams), old(self).data(), old(self).spec_version()),
            final(streams).current_handle == old(streams).current_handle,
            match spec_common_entity(model_of(*old(streams)), old(self).data(), old(self).spec_version(),
                old(self).initial_pos()) {
                Err(e) => r matches Err(e2) && e2 == e,
                Ok(((cm, ent, ec), m)) => r matches Ok(CadTemplate::MultiLeader { common, entity_data, mleader_data, entity })
                    && common_model(common) == cm && entity_data == ent && entity.common == ec
                    && empty_mleader_data(mleader_data) && model_of(*final(streams)) == m,
            },
    {
        let (common, entity_data, ec) = self.read_common_entity_data(streams)?;
        let mleader_data = CadMultiLeaderTemplateData {
            leader_style_handle: 0,
            leader_line_type_handle: 0,
            arrowhead_handle: 0,
            mtext_style_handle: 0,
            block_content_handle: 0,
            arrowhead_handles: Vec::new(),
            block_attribute_handles: Vec::new(),
            annot_context_data: CadMultiLeaderAnnotContextTemplateData {
                mtext_style_handle: 0,
                block_table_handle: 0,
                arrowhead_handles: Vec::new(),
                block_attribute_handles: Vec::new(),
            },
        };
        Ok(CadTemplate::MultiLeader { common, entity_data, mleader_data, entity: MultiLeaderEntity { common: ec } })
    }
}

/// What [`DwgObjectReader::read_ole2frame`] gives and leaves: its result
/// `r` and its streams, from `st0` to `st1`, for the reader `before`.
pub open spec fn read_ole2frame_outcome(before: DwgObjectReader, st0: StreamSet, st1: StreamSet,
    r: Result<CadTemplate<XDataValue, Ole2FrameEntity>, DxfError>) -> bool {
    &&& streams_of(st1, before.data(), before.spec_version())
    &&& st1.current_handle == st0.current_handle
    &&& match spec_common_entity(model_of(st0), before.data(), before.spec_version(), before.initial_pos()) {
        Err(e) => r matches Err(e2) && e2 == e,
        Ok(((cm, ent, ec), m1)) => match spec_ole2frame_body(m1, before.data().len()) {
            Err(e) => r matches Err(e2) && e2 == e,
            Ok(((version, bs), m)) => r matches Ok(CadTemplate::Entity { common, entity_data, entity })
                && common_model(common) == cm && entity_data == ent && entity.common == ec
                && entity.version == version && entity.data@ == bs && model_of(st1) == m,
        },
    }
}

/// What [`DwgObjectReader::read_multileader`] gives and leaves: its result
/// `r` and its streams, from `st0` to `st1`, for the reader `before`.
pub open spec fn read_multileader_outcome(before: DwgObjectReader, st0: StreamSet, st1: StreamSet,
    r: Result<CadTemplate<XDataValue, MultiLeaderEntity>, DxfError>) -> bool {
    &&& streams_of(st1, before.data(), before.spec_version())
    &&& st1.current_handle == st0.current_handle
    &&& match spec_common_entity(model_of(st0), before.data(), before.spec_version(), before.initial_pos()) {
        Err(e) => r matches Err(e2) && e2 == e,
        Ok(((cm, ent, ec), m)) => r matches Ok(CadTemplate::MultiLeader { common, entity_data, mleader_data, entity })
            && common_model(common) == cm && entity_data == ent && entity.common == ec
            && empty_mleader_data(mleader_data) && model_of(st1) == m,
    }
}

} // verus!
