//! The three streams of one object being read: the object data, its
//! strings and its handles.

use vstd::prelude::*;
use crate::bit_model::BitCursor;
use crate::color::{DwgColor, spec_read_cm_color};
use crate::error::DxfError;
use crate::reference_type::DwgReferenceType;
use crate::stream_reader::{DwgStreamReaderBase, get_stream_handler};
use crate::stream_values::{spec_handle_reference, spec_read_variable_text};
use crate::version::DxfVersion;

verus! {

/// The three stream readers of one object.
pub struct StreamSet {
    /// The object data.
    pub object_reader: DwgStreamReaderBase,
    /// The strings (R2007 and later).
    pub text_reader: DwgStreamReaderBase,
    /// The handles.
    pub handles_reader: DwgStreamReaderBase,
    /// Whether the streams are read as one merged stream.
    pub merged: bool,
    /// Whether the strings are in a stream of their own (R2007 and later);
    /// before, they are inline in the object data.
    pub has_separate_text_reader: bool,
    /// The handle of the object being read: the reference of relative
    /// handle codes.
    pub current_handle: u64,
}

impl Default for StreamSet {
    /// Three empty R2000 streams, not merged.
    fn default() -> (r: Self)
        ensures
            r.object_reader.data().len() == 0,
            r.text_reader.data().len() == 0,
            r.handles_reader.data().len() == 0,
            r.object_reader.spec_version() == DxfVersion::AC1015,
            r.text_reader.spec_version() == DxfVersion::AC1015,
            r.handles_reader.spec_version() == DxfVersion::AC1015,
            !r.merged,
            !r.has_separate_text_reader,
            r.current_handle == 0,
    {
        StreamSet {
            object_reader: get_stream_handler(DxfVersion::AC1015, Vec::new()),
            text_reader: get_stream_handler(DxfVersion::AC1015, Vec::new()),
            handles_reader: get_stream_handler(DxfVersion::AC1015, Vec::new()),
            merged: false,
            has_separate_text_reader: false,
            current_handle: 0,
        }
    }
}

impl StreamSet {
    /// Read a handle reference from the handle stream, resolved against the
    /// handle of the current object.
    pub fn handle_ref(&mut self) -> (r: Result<u64, DxfError>)
        ensures
            match r {
                Ok(h) => spec_handle_reference(old(self).handles_reader.cursor(), old(self).current_handle)
                    matches Ok(((h2, _), c)) && h == h2 && c == final(self).handles_reader.cursor()
                    && old(self).handles_reader.moved_to(&final(self).handles_reader, c),
                Err(e) => spec_handle_reference(old(self).handles_reader.cursor(), old(self).current_handle)
                    == Err::<((u64, DwgReferenceType), BitCursor), DxfError>(e),
            },
            old(self).handles_reader.same_source(&final(self).handles_reader),
            final(self).object_reader == old(self).object_reader,
            final(self).text_reader == old(self).text_reader,
            final(self).current_handle == old(self).current_handle,
            final(self).merged == old(self).merged,
            final(self).has_separate_text_reader == old(self).has_separate_text_reader,
    {
        let reference = self.current_handle;
        self.handles_reader.handle_reference_resolved(reference)
    }

    /// Read a variable text: from the string stream when it is separate,
    /// else from the object data.
    pub fn read_text(&mut self) -> (r: Result<String, DxfError>)
        ensures
            ({
                let src = if old(self).has_separate_text_reader { old(self).text_reader } else { old(self).object_reader };
                let dst = if old(self).has_separate_text_reader { final(self).text_reader } else { final(self).object_reader };
                &&& spec_read_variable_text(src.cursor(), src.spec_version(), src.spec_encoding()) == (match r {
                    Ok(s) => Ok((s@, dst.cursor())),
                    Err(e) => Err(e),
                })
                &&& src.same_source(&dst)
                &&& r is Ok ==> src.moved_to(&dst, dst.cursor())
            }),
            old(self).has_separate_text_reader ==> final(self).object_reader == old(self).object_reader,
            !old(self).has_separate_text_reader ==> final(self).text_reader == old(self).text_reader,
            final(self).handles_reader == old(self).handles_reader,
            final(self).current_handle == old(self).current_handle,
            final(self).merged == old(self).merged,
            final(self).has_separate_text_reader == old(self).has_separate_text_reader,
    {
        if self.has_separate_text_reader {
            self.text_reader.read_variable_text()
        } else {
            self.object_reader.read_variable_text()
        }
    }

    /// **CMC** from the object data.
    pub fn read_cm_color(&mut self) -> (r: Result<DwgColor, DxfError>)
        ensures
            spec_read_cm_color(old(self).object_reader.cursor(), old(self).object_reader.spec_version(),
                old(self).object_reader.spec_encoding()) == (match r {
                    Ok(color) => Ok((color, final(self).object_reader.cursor())),
                    Err(e) => Err(e),
                }),
            old(self).object_reader.same_source(&final(self).object_reader),
            final(self).text_reader == old(self).text_reader,
            final(self).handles_reader == old(self).handles_reader,
            final(self).current_handle == old(self).current_handle,
            final(self).merged == old(self).merged,
            final(self).has_separate_text_reader == old(self).has_separate_text_reader,
    {
        self.object_reader.read_cm_color()
    }
}

} // verus!
