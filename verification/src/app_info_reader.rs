//! The `AcDb:AppInfo` section: the name, version and product of the
//! application that wrote the file.

use vstd::prelude::*;
use crate::bit_model::{BitCursor, spec_read_raw_long, spec_read_bytes};
use crate::encoding::TextEncoding;
use crate::error::DxfError;
use crate::section_io::SectionIO;
use crate::stream_reader::{DwgStreamReaderBase, get_stream_handler};
use crate::stream_values::{or_eof, spec_read_variable_text, spec_read_text_unicode, r2007_plus};
use crate::version::{DxfVersion, version_rank};

verus! {

/// Application info read from the `AcDb:AppInfo` section.
#[derive(Debug, Clone)]
pub struct AppInfo {
    /// Application info name (such as "AppInfoDataList").
    pub info_name: String,
    /// Version string (such as "2.7.2.0").
    pub version: String,
    /// Comment string.
    pub comment: String,
    /// Product XML element string.
    pub product: String,
    /// Version data checksum (16 bytes).
    pub version_checksum: Vec<u8>,
    /// Comment data checksum (16 bytes).
    pub comment_checksum: Vec<u8>,
    /// Product data checksum (16 bytes, R2010 and later).
    pub product_checksum: Vec<u8>,
}

/// The content of an [`AppInfo`].
pub struct AppInfoModel {
    pub info_name: Seq<char>,
    pub version: Seq<char>,
    pub comment: Seq<char>,
    pub product: Seq<char>,
    pub version_checksum: Seq<u8>,
    pub comment_checksum: Seq<u8>,
    pub product_checksum: Seq<u8>,
}

impl View for AppInfo {
    type V = AppInfoModel;

    open spec fn view(&self) -> AppInfoModel {
        AppInfoModel {
            info_name: self.info_name@,
            version: self.version@,
            comment: self.comment@,
            product: self.product@,
            version_checksum: self.version_checksum@,
            comment_checksum: self.comment_checksum@,
            product_checksum: self.product_checksum@,
        }
    }
}

/// The empty application info.
pub open spec fn empty_app_info() -> AppInfoModel {
    AppInfoModel {
        info_name: Seq::empty(),
        version: Seq::empty(),
        comment: Seq::empty(),
        product: Seq::empty(),
        version_checksum: Seq::empty(),
        comment_checksum: Seq::empty(),
        product_checksum: Seq::empty(),
    }
}

impl Default for AppInfo {
    fn default() -> (r: Self)
        ensures
            r@ == empty_app_info(),
    {
        AppInfo {
            info_name: String::new(),
            version: String::new(),
            comment: String::new(),
            product: String::new(),
            version_checksum: Vec::new(),
            comment_checksum: Vec::new(),
            product_checksum: Vec::new(),
        }
    }
}

/// The R2004 prefix of the section: the name (variable text), a raw long,
/// then the version, product and comment texts.
pub open spec fn spec_app_info_r18(c: BitCursor, v: DxfVersion, m: AppInfoModel)
    -> Result<(AppInfoModel, BitCursor), DxfError>
{
    let enc = TextEncoding::Windows1252;
    match spec_read_variable_text(c, v, enc) {
        Err(e) => Err(e),
        Ok((name, c1)) => match or_eof(spec_read_raw_long(c1)) {
            Err(e) => Err(e),
            Ok((_, c2)) => match spec_read_variable_text(c2, v, enc) {
                Err(e) => Err(e),
                Ok((version, c3)) => match spec_read_variable_text(c3, v, enc) {
                    Err(e) => Err(e),
                    Ok((product, c4)) => match spec_read_variable_text(c4, v, enc) {
                        Err(e) => Err(e),
                        Ok((comment, c5)) => Ok((AppInfoModel {
                            info_name: name, version, product, comment, ..m
                        }, c5)),
                    },
                },
            },
        },
    }
}

/// The part of the section that every version has: a raw long, the name,
/// a raw long, the version checksum, the version, the comment checksum;
/// from R2010 on then the comment, the product checksum and the product.
pub open spec fn spec_app_info_common(c: BitCursor, v: DxfVersion, m: AppInfoModel)
    -> Result<AppInfoModel, DxfError>
{
    match or_eof(spec_read_raw_long(c)) {
        Err(e) => Err(e),
        Ok((_, c1)) => match spec_read_text_unicode(c1, v) {
            Err(e) => Err(e),
            Ok((name, c2)) => match or_eof(spec_read_raw_long(c2)) {
                Err(e) => Err(e),
                Ok((_, c3)) => match or_eof(spec_read_bytes(c3, 16)) {
                    Err(e) => Err(e),
                    Ok((vsum, c4)) => match spec_read_text_unicode(c4, v) {
                        Err(e) => Err(e),
                        Ok((version, c5)) => match or_eof(spec_read_bytes(c5, 16)) {
                            Err(e) => Err(e),
                            Ok((csum, c6)) => {
                                let m2 = AppInfoModel {
                                    info_name: name, version, version_checksum: vsum, comment_checksum: csum, ..m
                                };
                                if version_rank(v) < version_rank(DxfVersion::AC1024) {
                                    Ok(m2)
                                } else {
                                    spec_app_info_r2010(c6, v, m2)
                                }
                            },
                        },
                    },
                },
            },
        },
    }
}

/// The R2010 tail: the comment, the product checksum and the product.
pub open spec fn spec_app_info_r2010(c: BitCursor, v: DxfVersion, m: AppInfoModel) -> Result<AppInfoModel, DxfError> {
    match spec_read_text_unicode(c, v) {
        Err(e) => Err(e),
        Ok((comment, c1)) => match or_eof(spec_read_bytes(c1, 16)) {
            Err(e) => Err(e),
            Ok((psum, c2)) => match spec_read_text_unicode(c2, v) {
                Err(e) => Err(e),
                Ok((product, _)) => Ok(AppInfoModel { comment, product_checksum: psum, product, ..m }),
            },
        },
    }
}

/// The application info in the section `data` of a `v` file.
pub open spec fn spec_app_info(data: Seq<u8>, v: DxfVersion) -> Result<AppInfoModel, DxfError> {
    let c0 = BitCursor { bytes: data, shift: 0 };
    if r2007_plus(v) {
        spec_app_info_common(c0, v, empty_app_info())
    } else {
        match spec_app_info_r18(c0, v, empty_app_info()) {
            Err(e) => Err(e),
            Ok((m, c1)) => spec_app_info_common(c1, v, m),
        }
    }
}

/// Reader of the `AcDb:AppInfo` section.
pub struct DwgAppInfoReader {
    data: Vec<u8>,
    version: DxfVersion,
    sio: SectionIO,
}

impl DwgAppInfoReader {
    #[verifier::type_invariant]
    spec fn flags_match_version(&self) -> bool {
        &&& self.sio.r2007_plus == r2007_plus(self.version)
        &&& self.sio.r2010_plus == (version_rank(self.version) >= version_rank(DxfVersion::AC1024))
    }

    /// The section data.
    pub closed spec fn data(&self) -> Seq<u8> {
        self.data@
    }

    /// The version of the file.
    pub closed spec fn spec_version(&self) -> DxfVersion {
        self.version
    }

    /// A reader of the section `data` (already decompressed) of a
    /// `version` file.
    pub fn new(version: DxfVersion, data: Vec<u8>) -> (r: Self)
        ensures
            r.data() == data@,
            r.spec_version() == version,
    {
        DwgAppInfoReader { sio: SectionIO::new(version), data, version }
    }

    /// The version of the file.
    pub fn version(&self) -> (r: DxfVersion)
        ensures
            r == self.spec_version(),
    {
        self.version
    }

    /// Read the application info.
    pub fn read(&self) -> (r: Result<AppInfo, DxfError>)
        ensures
            spec_app_info(self.data(), self.spec_version()) == (match r {
                Ok(info) => Ok(info@),
                Err(e) => Err(e),
            }),
    {
        proof { use_type_invariant(self); }
        let info = AppInfo::default();
        let data = self.data.clone();
        assert(data@ =~= self.data@);
        let mut reader = get_stream_handler(self.version, data);
        let info = if !self.sio.r2007_plus {
            Self::read_r18(&mut reader, info)?
        } else {
            info
        };
        Self::read_common(&mut reader, info, self.sio.r2010_plus)
    }

    /// Read the R2004 prefix of the section.
    fn read_r18(reader: &mut DwgStreamReaderBase, info: AppInfo) -> (r: Result<AppInfo, DxfError>)
        requires
            old(reader).spec_encoding() == TextEncoding::Windows1252,
        ensures
            spec_app_info_r18(old(reader).cursor(), old(reader).spec_version(), info@) == (match r {
                Ok(i) => Ok((i@, final(reader).cursor())),
                Err(e) => Err(e),
            }),
            old(reader).same_source(final(reader)),
    {
        let mut info = info;
        info.info_name = reader.read_variable_text()?;
        reader.read_raw_long()?;
        info.version = reader.read_variable_text()?;
        info.product = reader.read_variable_text()?;
        info.comment = reader.read_variable_text()?;
        Ok(info)
    }

    /// Read the part of the section that every version has.
    #[verifier::rlimit(30)]
    fn read_common(reader: &mut DwgStreamReaderBase, info: AppInfo, r2010_plus: bool) -> (r: Result<AppInfo, DxfError>)
        requires
            r2010_plus == (version_rank(old(reader).spec_version()) >= version_rank(DxfVersion::AC1024)),
        ensures
            spec_app_info_common(old(reader).cursor(), old(reader).spec_version(), info@) == (match r {
                Ok(i) => Ok(i@),
                Err(e) => Err(e),
            }),
    {
        let mut info = info;
        reader.read_raw_long()?;
        info.info_name = reader.read_text_unicode()?;
        reader.read_raw_long()?;
        info.version_checksum = reader.read_bytes(16)?;
        info.version = reader.read_text_unicode()?;
        info.comment_checksum = reader.read_bytes(16)?;
        if !r2010_plus {
            return Ok(info);
        }
        info.comment = reader.read_text_unicode()?;
        info.product_checksum = reader.read_bytes(16)?;
        info.product = reader.read_text_unicode()?;
        Ok(info)
    }
}


/// The R2010 tail of the application info, against the reads in order:
/// the comment is the first Unicode text, the product checksum the 16
/// bytes after it, the product the Unicode text after those; the other
/// fields are kept.  It fails exactly when one of the three reads does.
pub proof fn lemma_app_info_r2010_reads(c: BitCursor, v: DxfVersion, m: AppInfoModel)
    ensures
        match spec_read_text_unicode(c, v) {
            Err(_) => spec_app_info_r2010(c, v, m) is Err,
            Ok((t1, c1)) => match spec_read_bytes(c1, 16) {
                None => spec_app_info_r2010(c, v, m) is Err,
                Some((s, c2)) => match spec_read_text_unicode(c2, v) {
                    Err(_) => spec_app_info_r2010(c, v, m) is Err,
                    Ok((t2, _)) => spec_app_info_r2010(c, v, m) == Ok::<AppInfoModel, DxfError>(AppInfoModel {
                        info_name: m.info_name,
                        version: m.version,
                        comment: t1,
                        product: t2,
                        version_checksum: m.version_checksum,
                        comment_checksum: m.comment_checksum,
                        product_checksum: s,
                    }),
                },
            },
        },
{
}

/// The R2004 prefix of the application info, against the reads in order:
/// the name, a raw long (skipped), the version, the product and the
/// comment (variable texts); the checksums are kept.
pub proof fn lemma_app_info_r18_reads(c: BitCursor, v: DxfVersion, m: AppInfoModel)
    ensures
        match spec_read_variable_text(c, v, TextEncoding::Windows1252) {
            Err(_) => spec_app_info_r18(c, v, m) is Err,
            Ok((name, c1)) => match spec_read_raw_long(c1) {
                None => spec_app_info_r18(c, v, m) is Err,
                Some((_, c2)) => match spec_read_variable_text(c2, v, TextEncoding::Windows1252) {
                    Err(_) => spec_app_info_r18(c, v, m) is Err,
                    Ok((version, c3)) => match spec_read_variable_text(c3, v, TextEncoding::Windows1252) {
                        Err(_) => spec_app_info_r18(c, v, m) is Err,
                        Ok((product, c4)) => match spec_read_variable_text(c4, v, TextEncoding::Windows1252) {
                            Err(_) => spec_app_info_r18(c, v, m) is Err,
                            Ok((comment, c5)) => spec_app_info_r18(c, v, m)
                                == Ok::<(AppInfoModel, BitCursor), DxfError>((AppInfoModel {
                                    info_name: name,
                                    version: version,
                                    comment: comment,
                                    product: product,
                                    version_checksum: m.version_checksum,
                                    comment_checksum: m.comment_checksum,
                                    product_checksum: m.product_checksum,
                                }, c5)),
                        },
                    },
                },
            },
        },
{
}

/// The part every version has, against the reads in order: a raw long
/// (skipped), the name (Unicode text), a raw long (skipped), the version
/// checksum (16 bytes), the version (Unicode text) and the comment
/// checksum (16 bytes); before R2010 the comment, product and product
/// checksum are kept, from R2010 on the tail follows (see
/// [`lemma_app_info_r2010_reads`]).
pub proof fn lemma_app_info_common_reads(c: BitCursor, v: DxfVersion, m: AppInfoModel)
    ensures
        match spec_read_raw_long(c) {
            None => spec_app_info_common(c, v, m) is Err,
            Some((_, c1)) => match spec_read_text_unicode(c1, v) {
                Err(_) => spec_app_info_common(c, v, m) is Err,
                Ok((name, c2)) => match spec_read_raw_long(c2) {
                    None => spec_app_info_common(c, v, m) is Err,
                    Some((_, c3)) => match spec_read_bytes(c3, 16) {
                        None => spec_app_info_common(c, v, m) is Err,
                        Some((vsum, c4)) => match spec_read_text_unicode(c4, v) {
                            Err(_) => spec_app_info_common(c, v, m) is Err,
                            Ok((version, c5)) => match spec_read_bytes(c5, 16) {
                                None => spec_app_info_common(c, v, m) is Err,
                                Some((csum, c6)) => {
                                    let m2 = AppInfoModel {
                                        info_name: name,
                                        version: version,
                                        comment: m.comment,
                                        product: m.product,
                                        version_checksum: vsum,
                                        comment_checksum: csum,
                                        product_checksum: m.product_checksum,
                                    };
                                    if version_rank(v) < version_rank(DxfVersion::AC1024) {
                                        spec_app_info_common(c, v, m) == Ok::<AppInfoModel, DxfError>(m2)
                                    } else {
                                        spec_app_info_common(c, v, m) == spec_app_info_r2010(c6, v, m2)
                                    }
                                },
                            },
                        },
                    },
                },
            },
        },
{
}
} // verus!
