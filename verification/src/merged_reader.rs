//! The merged reader of R2007 and later objects: the data of an object is
//! split into a main stream, a string stream and a handle stream, and each
//! read goes to the stream that holds its kind of value.

use vstd::prelude::*;
use crate::bit_model::{spec_read_bit, spec_read_bit_short, spec_read_bit_long, spec_read_byte, spec_read_bytes};
use crate::error::DxfError;
use crate::reference_type::DwgReferenceType;
use crate::stream_reader::{DwgStreamReaderBase, bits_cursor, position_after_bits};
use crate::stream_values::{spec_handle_reference, spec_read_variable_text, spec_read_text_unicode, bit_long_error};
use crate::version::DxfVersion;
use crate::bit_model::BitCursor;
use crate::color::{DwgColor, DwgTransparency, r2004_plus, spec_cm_color_head, spec_skip_color_names, spec_read_cm_color,
    spec_read_en_color};

verus! {

/// A reader over the three streams of an object.
pub struct DwgMergedReader {
    main_reader: DwgStreamReaderBase,
    text_reader: DwgStreamReaderBase,
    handle_reader: DwgStreamReaderBase,
    version: DxfVersion,
}

impl DwgMergedReader {
    /// The main stream.
    pub closed spec fn main_stream(&self) -> DwgStreamReaderBase {
        self.main_reader
    }

    /// The string stream.
    pub closed spec fn text(&self) -> DwgStreamReaderBase {
        self.text_reader
    }

    /// The handle stream.
    pub closed spec fn handles(&self) -> DwgStreamReaderBase {
        self.handle_reader
    }

    /// The version of the file.
    pub closed spec fn spec_version(&self) -> DxfVersion {
        self.version
    }

    /// Only the main stream has changed.
    pub open spec fn only_main_changed(&self, new: &Self) -> bool {
        &&& new.text() == self.text()
        &&& new.handles() == self.handles()
        &&& new.spec_version() == self.spec_version()
    }

    /// A merged reader over the three streams.
    pub fn new(main_reader: DwgStreamReaderBase, text_reader: DwgStreamReaderBase,
        handle_reader: DwgStreamReaderBase, version: DxfVersion) -> (r: Self)
        ensures
            r.main_stream() == main_reader,
            r.text() == text_reader,
            r.handles() == handle_reader,
            r.spec_version() == version,
    {
        DwgMergedReader { main_reader, text_reader, handle_reader, version }
    }

    /// The main stream.
    pub fn main_reader(&self) -> (r: &DwgStreamReaderBase)
        ensures
            *r == self.main_stream(),
    {
        &self.main_reader
    }

    /// A merged reader is never empty.
    pub fn is_empty(&self) -> (r: bool)
        ensures
            !r,
    {
        false
    }

    /// The byte position of the main stream.
    pub fn position(&self) -> (r: u64)
        ensures
            r == self.main_stream().spec_position(),
    {
        self.main_reader.position()
    }

    /// The bit shift of the main stream.
    pub fn bit_shift(&self) -> (r: u8)
        ensures
            r == self.main_stream().cursor().shift,
    {
        self.main_reader.bit_shift()
    }

    /// **B** from the main stream.
    pub fn read_bit(&mut self) -> (r: Result<bool, DxfError>)
        ensures
            r matches Ok(b) && b == spec_read_bit(old(self).main_stream().cursor()).0,
            old(self).main_stream().moved_to(&final(self).main_stream(), spec_read_bit(old(self).main_stream().cursor()).1),
            old(self).only_main_changed(final(self)),
    {
        self.main_reader.read_bit()
    }

    /// **BS** from the main stream.
    pub fn read_bit_short(&mut self) -> (r: Result<i16, DxfError>)
        ensures
            match r {
                Ok(v) => spec_read_bit_short(old(self).main_stream().cursor()) == Some((v as int, final(self).main_stream().cursor()))
                    && old(self).main_stream().moved_to(&final(self).main_stream(), final(self).main_stream().cursor()),
                Err(e) => spec_read_bit_short(old(self).main_stream().cursor()) is None && e == DxfError::UnexpectedEof
                    && old(self).main_stream().same_source(&final(self).main_stream()),
            },
            old(self).only_main_changed(final(self)),
    {
        self.main_reader.read_bit_short()
    }

    /// **BL** from the main stream.
    pub fn read_bit_long(&mut self) -> (r: Result<i32, DxfError>)
        ensures
            match r {
                Ok(v) => spec_read_bit_long(old(self).main_stream().cursor()) == Some((v as int, final(self).main_stream().cursor()))
                    && old(self).main_stream().moved_to(&final(self).main_stream(), final(self).main_stream().cursor()),
                Err(e) => spec_read_bit_long(old(self).main_stream().cursor()) is None
                    && e == bit_long_error(old(self).main_stream().cursor())
                    && old(self).main_stream().same_source(&final(self).main_stream()),
            },
            old(self).only_main_changed(final(self)),
    {
        self.main_reader.read_bit_long()
    }

    /// A byte from the main stream.
    pub fn read_byte(&mut self) -> (r: Result<u8, DxfError>)
        ensures
            match r {
                Ok(b) => spec_read_byte(old(self).main_stream().cursor()) == Some((b, final(self).main_stream().cursor()))
                    && old(self).main_stream().moved_to(&final(self).main_stream(), final(self).main_stream().cursor()),
                Err(e) => spec_read_byte(old(self).main_stream().cursor()) is None && e == DxfError::UnexpectedEof
                    && old(self).main_stream().same_source(&final(self).main_stream()),
            },
            old(self).only_main_changed(final(self)),
    {
        self.main_reader.read_byte()
    }

    /// A sentinel from the main stream.
    pub fn read_sentinel(&mut self) -> (r: Result<[u8; 16], DxfError>)
        ensures
            match r {
                Ok(s) => spec_read_bytes(old(self).main_stream().cursor(), 16) == Some((s@, final(self).main_stream().cursor()))
                    && old(self).main_stream().moved_to(&final(self).main_stream(), final(self).main_stream().cursor()),
                Err(e) => spec_read_bytes(old(self).main_stream().cursor(), 16) is None && e == DxfError::UnexpectedEof
                    && old(self).main_stream().same_source(&final(self).main_stream()),
            },
            old(self).only_main_changed(final(self)),
    {
        self.main_reader.read_sentinel()
    }

    /// **H** from the handle stream, resolved against `reference_handle`,
    /// with the reference type of its code.
    pub fn handle_reference_typed(&mut self, reference_handle: u64) -> (r: Result<(u64, DwgReferenceType), DxfError>)
        ensures
            spec_handle_reference(old(self).handles().cursor(), reference_handle) == (match r {
                Ok(v) => Ok((v, final(self).handles().cursor())),
                Err(e) => Err(e),
            }),
            old(self).handles().same_source(&final(self).handles()),
            final(self).main_stream() == old(self).main_stream(),
            final(self).text() == old(self).text(),
            final(self).spec_version() == old(self).spec_version(),
    {
        self.handle_reader.handle_reference_typed(reference_handle)
    }

    /// **H** from the handle stream, resolved against `reference_handle`.
    pub fn handle_reference_resolved(&mut self, reference_handle: u64) -> (r: Result<u64, DxfError>)
        ensures
            match r {
                Ok(h) => spec_handle_reference(old(self).handles().cursor(), reference_handle) matches Ok(((h2, _), c))
                    && h == h2 && c == final(self).handles().cursor(),
                Err(e) => spec_handle_reference(old(self).handles().cursor(), reference_handle)
                    == Err::<((u64, DwgReferenceType), crate::bit_model::BitCursor), DxfError>(e),
            },
            final(self).main_stream() == old(self).main_stream(),
            final(self).text() == old(self).text(),
            final(self).spec_version() == old(self).spec_version(),
    {
        let (h, _) = self.handle_reader.handle_reference_typed(reference_handle)?;
        Ok(h)
    }

    /// **H** from the handle stream, resolved against the handle 0.
    pub fn handle_reference(&mut self) -> (r: Result<u64, DxfError>)
        ensures
            match r {
                Ok(h) => spec_handle_reference(old(self).handles().cursor(), 0) matches Ok(((h2, _), c))
                    && h == h2 && c == final(self).handles().cursor(),
                Err(e) => spec_handle_reference(old(self).handles().cursor(), 0)
                    == Err::<((u64, DwgReferenceType), crate::bit_model::BitCursor), DxfError>(e),
            },
            final(self).main_stream() == old(self).main_stream(),
            final(self).text() == old(self).text(),
            final(self).spec_version() == old(self).spec_version(),
    {
        self.handle_reference_resolved(0)
    }

    /// **TV** from the string stream; the empty text when the string
    /// stream was found absent.
    pub fn read_variable_text(&mut self) -> (r: Result<String, DxfError>)
        ensures
            if old(self).text().spec_is_empty() {
                r matches Ok(s) && s@.len() == 0 && final(self).text() == old(self).text()
            } else {
                spec_read_variable_text(old(self).text().cursor(), old(self).text().spec_version(),
                    old(self).text().spec_encoding()) == (match r {
                    Ok(s) => Ok((s@, final(self).text().cursor())),
                    Err(e) => Err(e),
                })
            },
            old(self).text().same_source(&final(self).text()),
            final(self).main_stream() == old(self).main_stream(),
            final(self).handles() == old(self).handles(),
            final(self).spec_version() == old(self).spec_version(),
    {
        if self.text_reader.is_empty() {
            return Ok(String::new());
        }
        self.text_reader.read_variable_text()
    }

    /// **TU** from the string stream; the empty text when the string
    /// stream was found absent.
    pub fn read_text_unicode(&mut self) -> (r: Result<String, DxfError>)
        ensures
            if old(self).text().spec_is_empty() {
                r matches Ok(s) && s@.len() == 0 && final(self).text() == old(self).text()
            } else {
                spec_read_text_unicode(old(self).text().cursor(), old(self).text().spec_version()) == (match r {
                    Ok(s) => Ok((s@, final(self).text().cursor())),
                    Err(e) => Err(e),
                })
            },
            old(self).text().same_source(&final(self).text()),
            final(self).main_stream() == old(self).main_stream(),
            final(self).handles() == old(self).handles(),
            final(self).spec_version() == old(self).spec_version(),
    {
        if self.text_reader.is_empty() {
            return Ok(String::new());
        }
        self.text_reader.read_text_unicode()
    }

    /// The bit position of the main stream.
    pub fn position_in_bits(&self) -> (r: i64)
        requires
            i64::MIN <= (self.main_stream().spec_position() as i64) * 8 <= i64::MAX,
            i64::MIN <= self.main_stream().spec_position_in_bits(),
        ensures
            r == self.main_stream().spec_position_in_bits(),
    {
        self.main_reader.position_in_bits()
    }

    /// Move the main stream to bit `position`.
    pub fn set_position_in_bits(&mut self, position: i64)
        ensures
            old(self).main_stream().same_source(&final(self).main_stream()),
            final(self).main_stream().spec_position() == position_after_bits(old(self).main_stream().data().len(), position),
            final(self).main_stream().cursor() == bits_cursor(old(self).main_stream().data(), position),
            old(self).only_main_changed(final(self)),
    {
        self.main_reader.set_position_in_bits(position)
    }
}

impl DwgMergedReader {
    /// **CMC**: from R2004 on the numbers from the main stream and the
    /// names, skipped, from the string stream (nothing when that stream
    /// was found absent); before R2004 from the main stream alone.
    pub fn read_cm_color(&mut self) -> (r: Result<DwgColor, DxfError>)
        ensures
            if r2004_plus(old(self).spec_version()) {
                match spec_cm_color_head(old(self).main_stream().cursor()) {
                    Err(e) => r == Err::<DwgColor, DxfError>(e),
                    Ok(((color, id), c1)) => {
                        &&& final(self).main_stream().cursor() == c1
                        &&& old(self).main_stream().moved_to(&final(self).main_stream(), c1)
                        &&& if old(self).text().spec_is_empty() {
                            r == Ok::<DwgColor, DxfError>(color) && final(self).text() == old(self).text()
                        } else {
                            match spec_skip_color_names(old(self).text().cursor(), old(self).text().spec_version(),
                                old(self).text().spec_encoding(), id) {
                                Err(e) => r == Err::<DwgColor, DxfError>(e),
                                Ok(t1) => r == Ok::<DwgColor, DxfError>(color) && final(self).text().cursor() == t1,
                            }
                        }
                    },
                }
            } else {
                &&& spec_read_cm_color(old(self).main_stream().cursor(), old(self).main_stream().spec_version(),
                    old(self).main_stream().spec_encoding()) == (match r {
                        Ok(color) => Ok((color, final(self).main_stream().cursor())),
                        Err(e) => Err(e),
                    })
                &&& final(self).text() == old(self).text()
            },
            old(self).main_stream().same_source(&final(self).main_stream()),
            old(self).text().same_source(&final(self).text()),
            final(self).handles() == old(self).handles(),
            final(self).spec_version() == old(self).spec_version(),
    {
        if !self.version.at_least(DxfVersion::AC1018) {
            return self.main_reader.read_cm_color();
        }
        let (color, id) = self.main_reader.read_cm_color_head()?;
        if (id & 1) == 1 {
            let _name = self.read_variable_text()?;
        }
        if (id & 2) == 2 {
            let _book = self.read_variable_text()?;
        }
        Ok(color)
    }

    /// **ENC** from the main stream.
    pub fn read_en_color(&mut self) -> (r: Result<(DwgColor, DwgTransparency, bool), DxfError>)
        ensures
            match r {
                Ok(x) => spec_read_en_color(old(self).main_stream().cursor(), old(self).main_stream().spec_version())
                    == Ok::<((DwgColor, DwgTransparency, bool), BitCursor), DxfError>((x, final(self).main_stream().cursor()))
                    && old(self).main_stream().moved_to(&final(self).main_stream(), final(self).main_stream().cursor()),
                Err(e) => spec_read_en_color(old(self).main_stream().cursor(), old(self).main_stream().spec_version())
                    == Err::<((DwgColor, DwgTransparency, bool), BitCursor), DxfError>(e)
                    && old(self).main_stream().same_source(&final(self).main_stream()),
            },
            old(self).only_main_changed(final(self)),
    {
        self.main_reader.read_en_color()
    }

    /// A palette index color from the main stream.
    pub fn read_color_by_index(&mut self) -> (r: Result<DwgColor, DxfError>)
        ensures
            match r {
                Ok(color) => spec_read_bit_short(old(self).main_stream().cursor()) matches Some((n, c))
                    && color == DwgColor::Index(n as i16) && c == final(self).main_stream().cursor()
                    && old(self).main_stream().moved_to(&final(self).main_stream(), final(self).main_stream().cursor()),
                Err(e) => spec_read_bit_short(old(self).main_stream().cursor()) is None && e == DxfError::UnexpectedEof
                    && old(self).main_stream().same_source(&final(self).main_stream()),
            },
            old(self).only_main_changed(final(self)),
    {
        let index = self.read_bit_short()?;
        Ok(DwgColor::Index(index))
    }
}

} // verus!
