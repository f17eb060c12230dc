//! Colors and transparencies as the DWG bit stream codes them.
//!
//! An entity color (**ENC**, R2004 and later) is a BitShort whose high
//! byte holds flags: `0x4000` a color book reference, `0x8000` a true
//! color (a BitLong follows), `0x2000` a transparency (a BitLong follows);
//! its low twelve bits are otherwise a palette index.  A **CMC** color is,
//! from R2004 on, a BitShort, a BitLong holding the color and a flag byte
//! announcing a color name and a book name.  Before R2004 both are a
//! BitShort palette index.

use vstd::prelude::*;
use crate::bit_model::{BitCursor, spec_read_bit_short, spec_read_bit_long, spec_read_byte};
use crate::encoding::TextEncoding;
use crate::error::DxfError;
use crate::stream_reader::DwgStreamReaderBase;
use crate::stream_values::{or_eof, bit_long_error, spec_read_variable_text};
use crate::version::{DxfVersion, version_rank};

verus! {

/// A color as read from the stream.
#[derive(Debug, Clone, Copy, PartialEq, Eq, Structural)]
pub enum DwgColor {
    /// The color of the layer.
    ByLayer,
    /// The color of the enclosing block (also given for a color-book color,
    /// whose value comes from a referenced object).
    ByBlock,
    /// A palette index, as stored.
    Index(i16),
    /// A true color: red, green, blue.
    Rgb(u8, u8, u8),
}

/// A transparency as read from the stream.
#[derive(Debug, Clone, Copy, PartialEq, Eq, Structural)]
pub enum DwgTransparency {
    /// The transparency of the layer.
    ByLayer,
    /// Fully opaque.
    Opaque,
    /// The stored transparency value.
    Alpha(u32),
}

/// Whether `v` is R2004 or later.
pub open spec fn r2004_plus(v: DxfVersion) -> bool {
    version_rank(v) >= version_rank(DxfVersion::AC1018)
}

/// The true color of a stored value `0x00RRGGBB`.
pub open spec fn rgb_of(v: u32) -> DwgColor {
    DwgColor::Rgb((v >> 16u32) as u8, (v >> 8u32) as u8, v as u8)
}

/// A BitLong taken as its 32 unsigned bits, with its error.
pub open spec fn bit_long_bits(c: BitCursor) -> Result<(u32, BitCursor), DxfError> {
    match spec_read_bit_long(c) {
        None => Err(bit_long_error(c)),
        Some((v, c1)) => Ok(((v as i32) as u32, c1)),
    }
}

/// The flag byte of an entity color of size `size`.
pub open spec fn en_color_flags(size: i16) -> u16 {
    (size as u16) & 0xFF00u16
}

/// The color part of an R2004 entity color of size `size` (not zero):
/// the color, whether it is a book color, and the stream after it.
pub open spec fn spec_en_color_value(c: BitCursor, size: i16) -> Result<(DwgColor, bool, BitCursor), DxfError> {
    let flags = en_color_flags(size);
    if flags & 0x4000u16 > 0 {
        Ok((DwgColor::ByBlock, true, c))
    } else if flags & 0x8000u16 > 0 {
        match bit_long_bits(c) {
            Err(e) => Err(e),
            Ok((rgb, c1)) => Ok((rgb_of(rgb), false, c1)),
        }
    } else {
        Ok((DwgColor::Index(size & 0x0FFFi16), false, c))
    }
}

/// **ENC**: an entity color with its transparency and whether it refers to
/// a color book.  From R2004 on a size of zero is "by block" and opaque;
/// otherwise the color part, then a transparency when flag `0x2000` is
/// set ("by layer" when not).  Before R2004 a BitShort palette index, "by
/// layer" transparency, no book.
pub open spec fn spec_read_en_color(c: BitCursor, v: DxfVersion)
    -> Result<((DwgColor, DwgTransparency, bool), BitCursor), DxfError>
{
    match or_eof(spec_read_bit_short(c)) {
        Err(e) => Err(e),
        Ok((n, c1)) => {
            let size = n as i16;
            if !r2004_plus(v) {
                Ok(((DwgColor::Index(size), DwgTransparency::ByLayer, false), c1))
            } else if size == 0 {
                Ok(((DwgColor::ByBlock, DwgTransparency::Opaque, false), c1))
            } else {
                match spec_en_color_value(c1, size) {
                    Err(e) => Err(e),
                    Ok((color, book, c2)) => if en_color_flags(size) & 0x2000u16 > 0 {
                        match bit_long_bits(c2) {
                            Err(e) => Err(e),
                            Ok((alpha, c3)) => Ok(((color, DwgTransparency::Alpha(alpha), book), c3)),
                        }
                    } else {
                        Ok(((color, DwgTransparency::ByLayer, book), c2))
                    },
                }
            }
        },
    }
}

/// The color of a stored CMC value: `0xC0000000` is "by layer"; with bit
/// `0x01000000` the low byte is a palette index; otherwise a true color.
pub open spec fn cm_color_of(rgb: u32) -> DwgColor {
    if rgb == 0xC000_0000u32 {
        DwgColor::ByLayer
    } else if rgb & 0x0100_0000u32 != 0 {
        DwgColor::Index((rgb as u8) as i16)
    } else {
        rgb_of(rgb)
    }
}

/// The numbers of an R2004 CMC color: a BitShort (unused), the BitLong
/// color value and the flag byte.
pub open spec fn spec_cm_color_head(c: BitCursor) -> Result<((DwgColor, u8), BitCursor), DxfError> {
    match or_eof(spec_read_bit_short(c)) {
        Err(e) => Err(e),
        Ok((_, c1)) => match bit_long_bits(c1) {
            Err(e) => Err(e),
            Ok((rgb, c2)) => match or_eof(spec_read_byte(c2)) {
                Err(e) => Err(e),
                Ok((id, c3)) => Ok(((cm_color_of(rgb), id), c3)),
            },
        },
    }
}

/// The names after a CMC flag byte `id`, skipped: a color name when bit 0
/// is set, then a book name when bit 1 is set.
pub open spec fn spec_skip_color_names(c: BitCursor, v: DxfVersion, enc: TextEncoding, id: u8)
    -> Result<BitCursor, DxfError>
{
    let first = if id & 1u8 == 1u8 {
        match spec_read_variable_text(c, v, enc) {
            Err(e) => Err(e),
            Ok((_, c1)) => Ok(c1),
        }
    } else {
        Ok(c)
    };
    match first {
        Err(e) => Err(e),
        Ok(c1) => if id & 2u8 == 2u8 {
            match spec_read_variable_text(c1, v, enc) {
                Err(e) => Err(e),
                Ok((_, c2)) => Ok(c2),
            }
        } else {
            Ok(c1)
        },
    }
}

/// **CMC** from one stream: from R2004 on the numbers, then the names;
/// before R2004 a BitShort palette index.
pub open spec fn spec_read_cm_color(c: BitCursor, v: DxfVersion, enc: TextEncoding)
    -> Result<(DwgColor, BitCursor), DxfError>
{
    if r2004_plus(v) {
        match spec_cm_color_head(c) {
            Err(e) => Err(e),
            Ok(((color, id), c1)) => match spec_skip_color_names(c1, v, enc, id) {
                Err(e) => Err(e),
                Ok(c2) => Ok((color, c2)),
            },
        }
    } else {
        match or_eof(spec_read_bit_short(c)) {
            Err(e) => Err(e),
            Ok((n, c1)) => Ok((DwgColor::Index(n as i16), c1)),
        }
    }
}

impl DwgStreamReaderBase {
    /// A BitLong as its 32 unsigned bits.
    fn read_bit_long_bits(&mut self) -> (r: Result<u32, DxfError>)
        ensures
            match r {
                Ok(v) => bit_long_bits(old(self).cursor()) == Ok::<(u32, BitCursor), DxfError>((v, final(self).cursor()))
                    && old(self).moved_to(final(self), final(self).cursor()),
                Err(e) => bit_long_bits(old(self).cursor()) == Err::<(u32, BitCursor), DxfError>(e)
                    && old(self).same_source(final(self)),
            },
    {
        let v = self.read_bit_long()?;
        Ok(v as u32)
    }

    /// **ENC**: an entity color, its transparency, and whether it refers
    /// to a color book.
    pub fn read_en_color(&mut self) -> (r: Result<(DwgColor, DwgTransparency, bool), DxfError>)
        ensures
            match r {
                Ok(x) => spec_read_en_color(old(self).cursor(), old(self).spec_version())
                    == Ok::<((DwgColor, DwgTransparency, bool), BitCursor), DxfError>((x, final(self).cursor()))
                    && old(self).moved_to(final(self), final(self).cursor()),
                Err(e) => spec_read_en_color(old(self).cursor(), old(self).spec_version())
                    == Err::<((DwgColor, DwgTransparency, bool), BitCursor), DxfError>(e)
                    && old(self).same_source(final(self)),
            },
    {
        let ghost s0 = *self;
        let size = self.read_bit_short()?;
        if !self.version().at_least(DxfVersion::AC1018) {
            return Ok((DwgColor::Index(size), DwgTransparency::ByLayer, false));
        }
        if size == 0 {
            return Ok((DwgColor::ByBlock, DwgTransparency::Opaque, false));
        }
        let ghost s1 = *self;
        let flags: u16 = (size as u16) & 0xFF00;
        let color: DwgColor;
        let is_book_color: bool;
        if (flags & 0x4000) > 0 {
            color = DwgColor::ByBlock;
            is_book_color = true;
        } else if (flags & 0x8000) > 0 {
            let rgb = self.read_bit_long_bits()?;
            proof { Self::lemma_moved_trans(&s0, &s1, self, s1.cursor(), self.cursor()); }
            color = DwgColor::Rgb((rgb >> 16) as u8, (rgb >> 8) as u8, rgb as u8);
            is_book_color = false;
        } else {
            color = DwgColor::Index(size & 0x0FFF);
            is_book_color = false;
        }
        let mut transparency = DwgTransparency::ByLayer;
        if (flags & 0x2000) > 0 {
            let ghost s2 = *self;
            let alpha = self.read_bit_long_bits()?;
            proof { Self::lemma_moved_trans(&s0, &s2, self, s2.cursor(), self.cursor()); }
            transparency = DwgTransparency::Alpha(alpha);
        }
        Ok((color, transparency, is_book_color))
    }

    /// The numbers of an R2004 CMC color: the color and the flag byte.
    pub(crate) fn read_cm_color_head(&mut self) -> (r: Result<(DwgColor, u8), DxfError>)
        ensures
            match r {
                Ok(x) => spec_cm_color_head(old(self).cursor()) == Ok::<((DwgColor, u8), BitCursor), DxfError>((x, final(self).cursor()))
                    && old(self).moved_to(final(self), final(self).cursor()),
                Err(e) => spec_cm_color_head(old(self).cursor()) == Err::<((DwgColor, u8), BitCursor), DxfError>(e)
                    && old(self).same_source(final(self)),
            },
    {
        let ghost s0 = *self;
        let _index = self.read_bit_short()?;
        let ghost s1 = *self;
        let rgb = self.read_bit_long_bits()?;
        proof { Self::lemma_moved_trans(&s0, &s1, self, s1.cursor(), self.cursor()); }
        let color = if rgb == 0xC000_0000 {
            DwgColor::ByLayer
        } else if (rgb & 0x0100_0000) != 0 {
            DwgColor::Index((rgb as u8) as i16)
        } else {
            DwgColor::Rgb((rgb >> 16) as u8, (rgb >> 8) as u8, rgb as u8)
        };
        let ghost s2 = *self;
        let id = self.read_byte()?;
        proof { Self::lemma_moved_trans(&s0, &s2, self, s2.cursor(), self.cursor()); }
        Ok((color, id))
    }

    /// **CMC**: a color, its names skipped.
    pub fn read_cm_color(&mut self) -> (r: Result<DwgColor, DxfError>)
        ensures
            spec_read_cm_color(old(self).cursor(), old(self).spec_version(), old(self).spec_encoding())
                == (match r {
                    Ok(color) => Ok((color, final(self).cursor())),
                    Err(e) => Err(e),
                }),
            r is Ok ==> old(self).moved_to(final(self), final(self).cursor()),
            old(self).same_source(final(self)),
    {
        let ghost s0 = *self;
        if !self.version().at_least(DxfVersion::AC1018) {
            let index = self.read_bit_short()?;
            return Ok(DwgColor::Index(index));
        }
        let (color, id) = self.read_cm_color_head()?;
        if (id & 1) == 1 {
            let ghost s3 = *self;
            let _name = self.read_variable_text()?;
            proof { Self::lemma_moved_trans(&s0, &s3, self, s3.cursor(), self.cursor()); }
        }
        if (id & 2) == 2 {
            let ghost s4 = *self;
            let _book = self.read_variable_text()?;
            proof { Self::lemma_moved_trans(&s0, &s4, self, s4.cursor(), self.cursor()); }
        }
        Ok(color)
    }

    /// A palette index color: a BitShort.
    pub fn read_color_by_index(&mut self) -> (r: Result<DwgColor, DxfError>)
        ensures
            match r {
                Ok(color) => spec_read_bit_short(old(self).cursor()) matches Some((n, c))
                    && color == DwgColor::Index(n as i16) && c == final(self).cursor()
                    && old(self).moved_to(final(self), final(self).cursor()),
                Err(e) => spec_read_bit_short(old(self).cursor()) is None && e == DxfError::UnexpectedEof
                    && old(self).same_source(final(self)),
            },
    {
        let index = self.read_bit_short()?;
        Ok(DwgColor::Index(index))
    }
}

} // verus!
