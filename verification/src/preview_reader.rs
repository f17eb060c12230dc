//! The `AcDb:Preview` section: the thumbnail image of the drawing.

use vstd::prelude::*;
use crate::bit_model::{BitCursor, spec_read_raw_long, spec_read_byte, spec_read_bytes, max_read_len};
use crate::error::DxfError;
use crate::sentinels::{preview_start, preview_end};
use crate::section_io::SectionIO;
use crate::stream_reader::{DwgStreamReaderBase, get_stream_handler};
use crate::stream_values::or_eof;
use crate::version::DxfVersion;

verus! {

/// The preview image of a drawing.
#[derive(Debug, Clone)]
pub struct DwgPreview {
    /// The code of the image type (2: BMP, 3: WMF, 6: PNG); 0 when the
    /// section lists no image.
    pub code: u8,
    /// The raw header data.
    pub raw_header: Vec<u8>,
    /// The raw image data.
    pub raw_image: Vec<u8>,
}

/// What the entries of the section announce: the image code, the header
/// size and the image size (when announced).
pub struct PreviewLayout {
    pub code: u8,
    pub header_size: Option<i32>,
    pub image_size: Option<i32>,
}

/// `k` entries of the image list, from `layout` on.  Each is a code byte
/// and two raw longs (start, size): code 1 describes the header, any other
/// code the image.
pub open spec fn spec_preview_entries(c: BitCursor, k: nat, layout: PreviewLayout)
    -> Result<(PreviewLayout, BitCursor), DxfError>
    decreases k,
{
    if k == 0 {
        Ok((layout, c))
    } else {
        match or_eof(spec_read_byte(c)) {
            Err(e) => Err(e),
            Ok((code, c1)) => match or_eof(spec_read_raw_long(c1)) {
                Err(e) => Err(e),
                Ok((_, c2)) => match or_eof(spec_read_raw_long(c2)) {
                    Err(e) => Err(e),
                    Ok((size, c3)) => spec_preview_entries(c3, (k - 1) as nat, if code == 1 {
                        PreviewLayout { header_size: Some(size as i32), ..layout }
                    } else {
                        PreviewLayout { code, image_size: Some(size as i32), ..layout }
                    }),
                },
            },
        }
    }
}

/// A block of `size` bytes when a size is given (none otherwise); a
/// negative size or one above the 16 MB limit is refused.
pub open spec fn spec_sized_bytes(c: BitCursor, size: Option<i32>) -> Result<(Seq<u8>, BitCursor), DxfError> {
    match size {
        None => Ok((Seq::empty(), c)),
        Some(n) => if n < 0 || n > max_read_len() {
            Err(DxfError::ReadTooLarge)
        } else {
            or_eof(spec_read_bytes(c, n as nat))
        },
    }
}

/// The preview in the section `data`: a start sentinel, a raw long (the
/// overall size), a count byte, that many image entries, the header block,
/// the image block and an end sentinel.  The sentinels are read but their
/// content is not checked.
pub open spec fn spec_preview(data: Seq<u8>) -> Result<(u8, Seq<u8>, Seq<u8>), DxfError> {
    let c0 = BitCursor { bytes: data, shift: 0 };
    match or_eof(spec_read_bytes(c0, 16)) {
        Err(e) => Err(e),
        Ok((_, c1)) => match or_eof(spec_read_raw_long(c1)) {
            Err(e) => Err(e),
            Ok((_, c2)) => match or_eof(spec_read_byte(c2)) {
                Err(e) => Err(e),
                Ok((n, c3)) => match spec_preview_entries(c3, n as nat,
                    PreviewLayout { code: 0, header_size: None, image_size: None }) {
                    Err(e) => Err(e),
                    Ok((layout, c4)) => match spec_sized_bytes(c4, layout.header_size) {
                        Err(e) => Err(e),
                        Ok((header, c5)) => match spec_sized_bytes(c5, layout.image_size) {
                            Err(e) => Err(e),
                            Ok((image, c6)) => match or_eof(spec_read_bytes(c6, 16)) {
                                Err(e) => Err(e),
                                Ok(_) => Ok((layout.code, header, image)),
                            },
                        },
                    },
                },
            },
        },
    }
}

/// Reader of the `AcDb:Preview` section.
pub struct DwgPreviewReader {
    data: Vec<u8>,
    version: DxfVersion,
}

impl DwgPreviewReader {
    /// The section data.
    pub closed spec fn data(&self) -> Seq<u8> {
        self.data@
    }

    /// The version of the file.
    pub closed spec fn spec_version(&self) -> DxfVersion {
        self.version
    }

    /// A reader of the section `data` (already decompressed) of a
    /// `version` file.
    pub fn new(version: DxfVersion, data: Vec<u8>) -> (r: Self)
        ensures
            r.data() == data@,
            r.spec_version() == version,
    {
        DwgPreviewReader { data, version }
    }

    /// The version of the file.
    pub fn version(&self) -> (r: DxfVersion)
        ensures
            r == self.spec_version(),
    {
        self.version
    }

    /// Read the preview.
    pub fn read(&self) -> (r: Result<DwgPreview, DxfError>)
        ensures
            spec_preview(self.data()) == (match r {
                Ok(p) => Ok((p.code, p.raw_header@, p.raw_image@)),
                Err(e) => Err(e),
            }),
    {
        let data = self.data.clone();
        assert(data@ =~= self.data@);
        let mut reader = get_stream_handler(self.version, data);
        let sentinel = reader.read_sentinel()?;
        let _ = SectionIO::check_sentinel(&sentinel, &preview_start());
        reader.read_raw_long()?;
        let images_present = reader.read_raw_char()?;
        let layout = Self::read_entries(&mut reader, images_present)?;
        let raw_header = Self::read_sized(&mut reader, layout.1)?;
        let raw_image = Self::read_sized(&mut reader, layout.2)?;
        let sentinel = reader.read_sentinel()?;
        let _ = SectionIO::check_sentinel(&sentinel, &preview_end());
        Ok(DwgPreview { code: layout.0, raw_header, raw_image })
    }

    /// Read `n` image entries: the image code, the header size and the
    /// image size.
    fn read_entries(reader: &mut DwgStreamReaderBase, n: u8) -> (r: Result<(u8, Option<i32>, Option<i32>), DxfError>)
        ensures
            spec_preview_entries(old(reader).cursor(), n as nat,
                PreviewLayout { code: 0, header_size: None, image_size: None }) == (match r {
                Ok((code, h, i)) => Ok((PreviewLayout { code, header_size: h, image_size: i }, final(reader).cursor())),
                Err(e) => Err(e),
            }),
            old(reader).same_source(final(reader)),
    {
        let ghost s0 = *reader;
        let mut code: u8 = 0;
        let mut header_size: Option<i32> = None;
        let mut image_size: Option<i32> = None;
        let mut i: u8 = 0;
        while i < n
            invariant
                i <= n,
                s0 == *old(reader),
                s0.same_source(reader),
                spec_preview_entries(s0.cursor(), n as nat, PreviewLayout { code: 0, header_size: None, image_size: None })
                    == spec_preview_entries(reader.cursor(), (n - i) as nat,
                        PreviewLayout { code, header_size, image_size }),
            decreases n - i,
        {
            let c = reader.read_raw_char()?;
            reader.read_raw_long()?;
            let size = reader.read_raw_long()?;
            if c == 1 {
                header_size = Some(size);
            } else {
                code = c;
                image_size = Some(size);
            }
            i = i + 1;
        }
        Ok((code, header_size, image_size))
    }

    /// Read a block of the announced size.
    fn read_sized(reader: &mut DwgStreamReaderBase, size: Option<i32>) -> (r: Result<Vec<u8>, DxfError>)
        ensures
            spec_sized_bytes(old(reader).cursor(), size) == (match r {
                Ok(v) => Ok((v@, final(reader).cursor())),
                Err(e) => Err(e),
            }),
            old(reader).same_source(final(reader)),
    {
        match size {
            None => Ok(Vec::new()),
            Some(n) => {
                if n < 0 {
                    return Err(DxfError::ReadTooLarge);
                }
                reader.read_bytes(n as usize)
            },
        }
    }
}

} // verus!
