//! The reader of a whole DWG file: the version signature, the file header
//! and the sections it locates.
//!
//! The file is handed over as bytes.  Before R2004 the file header lists
//! section locator records; from R2004 on it holds an encrypted block
//! (decrypted here) followed by compressed page and section maps.

use vstd::prelude::*;
use byteorder::ByteOrder;
use std::collections::HashMap;
use crate::bit_model::{le_value, i32_of, lemma_le_value_bound, lemma_pow256_values};
use crate::error::DxfError;
use crate::notification::{Notification, NotificationType};
use crate::version::{DxfVersion, version_rank, version_signature};
use crate::text::str_eq;
use crate::app_info_reader::{AppInfo, DwgAppInfoReader, spec_app_info};
use crate::classes_reader::{DxfClass, DwgClassesReader, spec_classes};
use crate::handle_reader::{DwgHandleReader, spec_handle_map};
use crate::header_reader::{DwgHeaderReader, HeaderValues, HeaderModel, spec_header_read};
use crate::preview_reader::{DwgPreview, DwgPreviewReader, spec_preview};
use crate::summary_info_reader::{SummaryInfo, DwgSummaryInfoReader, spec_summary_info};
use crate::classes_reader::DxfClassModel;
use crate::header_variables::{header_handles, header_handles_of, get_valid_handles, valid_handles};
use crate::object_common::XDataValue;
use crate::object_dispatch::{AnyEntity, objects_read};
use crate::object_reader::{DwgObjectReader, class_map_of};
use crate::templates::CadTemplate;
use std::collections::VecDeque;

verus! {

broadcast use vstd::std_specs::hash::group_hash_axioms;

/// A continuation byte of UTF-8: `10xxxxxx`.
pub open spec fn utf8_continuation(x: u8) -> bool {
    0x80 <= x <= 0xBF
}

/// The length of the well-formed UTF-8 sequence that `b` starts with, or
/// 0 when it starts with none (the table of well-formed byte sequences of
/// the Unicode standard: no overlong forms, no surrogates, nothing past
/// U+10FFFF).
pub open spec fn utf8_sequence_len(b: Seq<u8>) -> nat {
    let n = b.len();
    let b0 = b[0];
    if n == 0 {
        0
    } else if b0 <= 0x7F {
        1
    } else if 0xC2 <= b0 <= 0xDF {
        if n >= 2 && utf8_continuation(b[1]) { 2 } else { 0 }
    } else if b0 == 0xE0 {
        if n >= 3 && 0xA0 <= b[1] <= 0xBF && utf8_continuation(b[2]) { 3 } else { 0 }
    } else if (0xE1 <= b0 <= 0xEC) || (0xEE <= b0 <= 0xEF) {
        if n >= 3 && utf8_continuation(b[1]) && utf8_continuation(b[2]) { 3 } else { 0 }
    } else if b0 == 0xED {
        if n >= 3 && 0x80 <= b[1] <= 0x9F && utf8_continuation(b[2]) { 3 } else { 0 }
    } else if b0 == 0xF0 {
        if n >= 4 && 0x90 <= b[1] <= 0xBF && utf8_continuation(b[2]) && utf8_continuation(b[3]) { 4 } else { 0 }
    } else if 0xF1 <= b0 <= 0xF3 {
        if n >= 4 && utf8_continuation(b[1]) && utf8_continuation(b[2]) && utf8_continuation(b[3]) { 4 } else { 0 }
    } else if b0 == 0xF4 {
        if n >= 4 && 0x80 <= b[1] <= 0x8F && utf8_continuation(b[2]) && utf8_continuation(b[3]) { 4 } else { 0 }
    } else {
        0
    }
}

/// Whether `bytes` are valid UTF-8: a run of well-formed sequences.
pub open spec fn utf8_valid(bytes: Seq<u8>) -> bool
    decreases bytes.len(),
{
    if bytes.len() == 0 {
        true
    } else {
        let k = utf8_sequence_len(bytes);
        if k == 0 || k > bytes.len() {
            false
        } else {
            utf8_valid(bytes.skip(k as int))
        }
    }
}

/// `std::str::from_utf8`: whether the bytes form valid UTF-8.  Trusted:
/// it accepts exactly the bytes that are valid UTF-8 by the Unicode
/// standard, as [`utf8_valid`] states it.
#[verifier::external_body]
fn is_utf8(bytes: &[u8]) -> (r: bool)
    ensures
        r == utf8_valid(bytes@),
{
    std::str::from_utf8(bytes).is_ok()
}

/// `byteorder::LittleEndian::read_u16`: the first two bytes, little
/// endian.  Trusted: it panics on fewer bytes, which `requires` excludes.
#[verifier::external_body]
fn le_u16(buf: &[u8]) -> (r: u16)
    requires
        buf@.len() >= 2,
    ensures
        r as nat == le_value(buf@.take(2)),
{
    byteorder::LittleEndian::read_u16(buf)
}

/// `byteorder::LittleEndian::read_u32`: the first four bytes, little
/// endian.  Trusted: it panics on fewer bytes, which `requires` excludes.
#[verifier::external_body]
fn le_u32(buf: &[u8]) -> (r: u32)
    requires
        buf@.len() >= 4,
    ensures
        r as nat == le_value(buf@.take(4)),
{
    byteorder::LittleEndian::read_u32(buf)
}

/// `byteorder::LittleEndian::read_i32`: the first four bytes, little
/// endian, as a signed value.  Trusted: it panics on fewer bytes, which
/// `requires` excludes.
#[verifier::external_body]
fn le_i32(buf: &[u8]) -> (r: i32)
    requires
        buf@.len() >= 4,
    ensures
        r as int == i32_of(le_value(buf@.take(4)) as int),
{
    byteorder::LittleEndian::read_i32(buf)
}

/// `byteorder::LittleEndian::read_u64`: the first eight bytes, little
/// endian.  Trusted: it panics on fewer bytes, which `requires` excludes.
#[verifier::external_body]
fn le_u64(buf: &[u8]) -> (r: u64)
    requires
        buf@.len() >= 8,
    ensures
        r as nat == le_value(buf@.take(8)),
{
    byteorder::LittleEndian::read_u64(buf)
}

/// Options of the reader.
#[derive(Debug, Clone, Copy, PartialEq, Eq)]
pub struct DwgReaderConfiguration {
    /// Whether errors within single objects are reported as notifications
    /// instead of ending the read.
    pub failsafe: bool,
    /// Whether entities of an unknown type are kept.
    pub keep_unknown_entities: bool,
}

impl Default for DwgReaderConfiguration {
    /// Strict reading: no failsafe, unknown entities dropped.
    fn default() -> (r: Self)
        ensures
            !r.failsafe,
            !r.keep_unknown_entities,
    {
        DwgReaderConfiguration { failsafe: false, keep_unknown_entities: false }
    }
}

/// A section locator record of a file before R2004: where a section lies
/// in the file.
#[derive(Debug, Clone, Copy, PartialEq, Eq)]
pub struct SectionLocatorRecord {
    /// The section number.
    pub number: i32,
    /// The file offset of the section.
    pub seeker: i64,
    /// The size of the section.
    pub size: i64,
}

/// The fields of the encrypted block of an R2004 file header.
#[derive(Debug, Clone, Copy, PartialEq, Eq)]
pub struct DecryptedAC18HeaderData {
    pub root_tree_node_gap: i32,
    pub gap_array_size: u32,
    pub crc_seed: u32,
    pub last_page_id: i32,
    pub last_section_addr: u64,
    pub second_header_addr: u64,
    pub gap_amount: u32,
    pub section_amount: u32,
    pub section_page_map_id: u32,
    /// The file position of the page map (the stored value plus 0x100).
    pub page_map_address: u64,
    pub section_map_id: u32,
    pub section_array_page_size: u32,
}

/// The file header of a DWG file.
#[derive(Debug)]
pub struct DwgFileHeader {
    pub version: DxfVersion,
    pub maintenance_version: u8,
    pub preview_address: i64,
    pub drawing_code_page: u16,
    /// From R2004 on: the DWG version byte.
    pub dwg_version: u8,
    /// From R2004 on: the application release byte.
    pub app_release_version: u8,
    /// From R2004 on: the security type.
    pub security_type: i64,
    /// From R2004 on: the address of the summary info.
    pub summary_info_addr: i64,
    /// From R2004 on: the address of the VBA project.
    pub vba_project_addr: i64,
    /// Before R2004: the section locator records, by number.
    pub records: HashMap<usize, SectionLocatorRecord>,
    /// R2004 and R2010 on: the decrypted header block.
    pub encrypted_header: Option<DecryptedAC18HeaderData>,
}

/// The content of a [`DwgFileHeader`].
pub struct DwgFileHeaderModel {
    pub version: DxfVersion,
    pub maintenance_version: u8,
    pub preview_address: i64,
    pub drawing_code_page: u16,
    pub dwg_version: u8,
    pub app_release_version: u8,
    pub security_type: i64,
    pub summary_info_addr: i64,
    pub vba_project_addr: i64,
    pub records: Map<usize, SectionLocatorRecord>,
    pub encrypted_header: Option<DecryptedAC18HeaderData>,
}

impl View for DwgFileHeader {
    type V = DwgFileHeaderModel;

    open spec fn view(&self) -> DwgFileHeaderModel {
        DwgFileHeaderModel {
            version: self.version,
            maintenance_version: self.maintenance_version,
            preview_address: self.preview_address,
            drawing_code_page: self.drawing_code_page,
            dwg_version: self.dwg_version,
            app_release_version: self.app_release_version,
            security_type: self.security_type,
            summary_info_addr: self.summary_info_addr,
            vba_project_addr: self.vba_project_addr,
            records: self.records@,
            encrypted_header: self.encrypted_header,
        }
    }
}

/// The header of a `version` file before its file header is read.
pub open spec fn empty_file_header(version: DxfVersion) -> DwgFileHeaderModel {
    DwgFileHeaderModel {
        version,
        maintenance_version: 0,
        preview_address: 0,
        drawing_code_page: 0,
        dwg_version: 0,
        app_release_version: 0,
        security_type: 0,
        summary_info_addr: 0,
        vba_project_addr: 0,
        records: Map::empty(),
        encrypted_header: None,
    }
}

impl DwgFileHeader {
    /// The header of a `version` file before its file header is read.
    pub fn create(version: DxfVersion) -> (r: Self)
        ensures
            r@ == empty_file_header(version),
    {
        DwgFileHeader {
            version,
            maintenance_version: 0,
            preview_address: 0,
            drawing_code_page: 0,
            dwg_version: 0,
            app_release_version: 0,
            security_type: 0,
            summary_info_addr: 0,
            vba_project_addr: 0,
            records: HashMap::new(),
            encrypted_header: None,
        }
    }
}

/// The version whose signature is `sig`, if any.
pub open spec fn signature_version(sig: Seq<u8>) -> Option<DxfVersion> {
    if exists|v: DxfVersion| version_signature(v) == sig {
        Some(choose|v: DxfVersion| version_signature(v) == sig)
    } else {
        None
    }
}

/// The version of the file `data`: its first six bytes, which must be
/// valid UTF-8 and the signature of a known version.
pub open spec fn spec_file_version(data: Seq<u8>) -> Option<DxfVersion> {
    if data.len() < 6 || !utf8_valid(data.take(6)) {
        None
    } else {
        signature_version(data.take(6))
    }
}

/// The error for a file whose version is not recognised: too short, a
/// signature that is not UTF-8, or an unknown signature (carried).
pub open spec fn file_version_error(data: Seq<u8>, e: DxfError) -> bool {
    if data.len() < 6 {
        e == DxfError::UnexpectedEof
    } else if !utf8_valid(data.take(6)) {
        e == DxfError::InvalidFormat
    } else {
        e matches DxfError::UnsupportedVersion(sig) && sig@ == data.take(6)
    }
}

/// The little-endian value of bytes `off..off + n` of `s`.
pub open spec fn le_at(s: Seq<u8>, off: int, n: int) -> nat {
    le_value(s.subrange(off, off + n))
}

/// The signed 32-bit little-endian value at `off`.
pub open spec fn i32_at(s: Seq<u8>, off: int) -> i32 {
    i32_of(le_at(s, off, 4) as int) as i32
}

/// The section locator records of a file before R2004: `k` records of
/// nine bytes from offset 25 (number byte, seeker and size as signed
/// 32-bit values), by number; a later record replaces an earlier one of
/// the same number.
pub open spec fn spec_locator_records(data: Seq<u8>, k: nat) -> Map<usize, SectionLocatorRecord>
    decreases k,
{
    if k == 0 {
        Map::empty()
    } else {
        let off = 25 + 9 * (k - 1);
        spec_locator_records(data, (k - 1) as nat).insert(data[off] as usize, SectionLocatorRecord {
            number: data[off] as i32,
            seeker: i32_at(data, off + 1) as i64,
            size: i32_at(data, off + 5) as i64,
        })
    }
}

/// The file header of a file before R2004: the maintenance version at
/// 0x0B, the preview address at 0x0D, the code page at 0x13, the record
/// count at 0x15 and the records, then a CRC and a 16-byte sentinel.  A
/// negative count, or data that ends early, is an error.
pub open spec fn spec_file_header_ac15(data: Seq<u8>, version: DxfVersion) -> Result<DwgFileHeaderModel, DxfError> {
    if data.len() < 25 {
        Err(DxfError::UnexpectedEof)
    } else {
        let n = i32_at(data, 21);
        if n < 0 || data.len() < 25 + 9 * n + 18 {
            Err(DxfError::UnexpectedEof)
        } else {
            Ok(DwgFileHeaderModel {
                maintenance_version: data[11],
                preview_address: i32_at(data, 13) as i64,
                drawing_code_page: le_at(data, 19, 2) as u16,
                records: spec_locator_records(data, n as nat),
                ..empty_file_header(version)
            })
        }
    }
}

/// The state of the key generator after `i` steps (a linear congruential
/// generator seeded with 1).
pub open spec fn lcg_state(i: nat) -> u32
    decreases i,
{
    if i == 0 {
        1
    } else {
        ((lcg_state((i - 1) as nat) as int * 0x343FD + 0x269EC3) % 0x1_0000_0000) as u32
    }
}

/// The bytes of the encrypted header block, each XOR-ed with bits 16..23
/// of the generator state after `i + 1` steps.
pub open spec fn decrypted_bytes(data: Seq<u8>) -> Seq<u8> {
    Seq::new(data.len(), |i: int| data[i] ^ ((lcg_state((i + 1) as nat) >> 16u32) as u8))
}

/// The fields of the decrypted header block (little endian): the root tree
/// node gap at 0x18, the last page id at 0x28, the last section address at
/// 0x2C, the second header address at 0x34, the gap amount at 0x3C, the
/// section amount at 0x40, the page map id at 0x50, the page map address
/// at 0x54 (plus 0x100, modulo 2^64), the section map id at 0x5C, the
/// section array page size at 0x60, the gap array size at 0x64 and the CRC
/// seed at 0x68.
pub open spec fn spec_decrypted_header(data: Seq<u8>) -> DecryptedAC18HeaderData {
    let d = decrypted_bytes(data);
    DecryptedAC18HeaderData {
        root_tree_node_gap: i32_at(d, 0x18),
        last_page_id: i32_at(d, 0x28),
        last_section_addr: le_at(d, 0x2C, 8) as u64,
        second_header_addr: le_at(d, 0x34, 8) as u64,
        gap_amount: le_at(d, 0x3C, 4) as u32,
        section_amount: le_at(d, 0x40, 4) as u32,
        section_page_map_id: le_at(d, 0x50, 4) as u32,
        page_map_address: ((le_at(d, 0x54, 8) + 0x100) % 0x1_0000_0000_0000_0000) as u64,
        section_map_id: le_at(d, 0x5C, 4) as u32,
        section_array_page_size: le_at(d, 0x60, 4) as u32,
        gap_array_size: le_at(d, 0x64, 4) as u32,
        crc_seed: le_at(d, 0x68, 4) as u32,
    }
}

/// The preamble of an R2004 or later file header: the maintenance version
/// at 0x0B, the preview address at 0x0D, the DWG version and application
/// release at 0x11 and 0x12, the code page at 0x13, the security type at
/// 0x18, the summary info address at 0x20 and the VBA project address at
/// 0x24.
pub open spec fn spec_preamble(data: Seq<u8>, version: DxfVersion) -> DwgFileHeaderModel {
    DwgFileHeaderModel {
        maintenance_version: data[11],
        preview_address: i32_at(data, 13) as i64,
        dwg_version: data[17],
        app_release_version: data[18],
        drawing_code_page: le_at(data, 19, 2) as u16,
        security_type: i32_at(data, 24) as i64,
        summary_info_addr: i32_at(data, 32) as i64,
        vba_project_addr: i32_at(data, 36) as i64,
        ..empty_file_header(version)
    }
}

/// The file header of `data` for `version`.  Before R2004 the locator
/// records; R2004 and R2010 on the preamble and the decrypted block at
/// 0x80 (108 bytes); R2007 the preamble, with its encoded block at 0x80
/// (0x400 bytes) present.  The page and section maps are not read.
pub open spec fn spec_read_file_header(data: Seq<u8>, version: DxfVersion) -> Result<DwgFileHeaderModel, DxfError> {
    if version_rank(version) <= version_rank(DxfVersion::AC1015) {
        spec_file_header_ac15(data, version)
    } else if version == DxfVersion::AC1021 {
        if data.len() < 0x480 {
            Err(DxfError::UnexpectedEof)
        } else {
            Ok(spec_preamble(data, version))
        }
    } else {
        if data.len() < 0x80 + 108 {
            Err(DxfError::UnexpectedEof)
        } else {
            Ok(DwgFileHeaderModel {
                encrypted_header: Some(spec_decrypted_header(data.subrange(0x80int, 0x80int + 108))),
                ..spec_preamble(data, version)
            })
        }
    }
}

/// The locator record number of a section of a file before R2004.
pub open spec fn spec_section_locator(name: Seq<char>) -> Option<usize> {
    if name == "AcDb:Header"@ {
        Some(0)
    } else if name == "AcDb:Classes"@ {
        Some(1)
    } else if name == "AcDb:Handles"@ {
        Some(2)
    } else if name == "AcDb:ObjFreeSpace"@ {
        Some(3)
    } else if name == "AcDb:Template"@ {
        Some(4)
    } else if name == "AcDb:AuxHeader"@ {
        Some(5)
    } else {
        None
    }
}

/// The data of the section `name`.  Before R2004: the bytes its locator
/// record designates (none for a negative offset or a size that is not
/// positive); a section without a record, or data that ends early, is an
/// error.  From R2004 on the section map is not read and every section is
/// missing.
pub open spec fn spec_section_stream(data: Seq<u8>, header: DwgFileHeaderModel, name: Seq<char>)
    -> Result<Seq<u8>, DxfError>
{
    if version_rank(header.version) <= version_rank(DxfVersion::AC1015) {
        match spec_section_locator(name) {
            None => Err(DxfError::InvalidFormat),
            Some(index) => if !header.records.contains_key(index) {
                Err(DxfError::InvalidFormat)
            } else {
                let record = header.records[index];
                if record.seeker < 0 || record.size <= 0 {
                    Ok(Seq::empty())
                } else if record.seeker + record.size > data.len() {
                    Err(DxfError::UnexpectedEof)
                } else {
                    Ok(data.subrange(record.seeker as int, record.seeker + record.size))
                }
            },
        }
    } else {
        Err(DxfError::InvalidFormat)
    }
}

/// The compressed metadata of an R2007 file header: 34 little-endian
/// 64-bit fields, in this order.
#[derive(Debug, Clone, Copy, PartialEq, Eq)]
pub struct Dwg21CompressedMetadata {
    pub header_size: u64,
    pub file_size: u64,
    pub pages_map_crc_compressed: u64,
    pub pages_map_correction_factor: u64,
    pub pages_map_crc_seed: u64,
    pub map2_offset: u64,
    pub map2_id: u64,
    pub pages_map_offset: u64,
    pub header2_offset: u64,
    pub pages_map_size_compressed: u64,
    pub pages_map_size_uncompressed: u64,
    pub pages_amount: u64,
    pub pages_max_id: u64,
    pub sections_map2_id: u64,
    pub pages_map_id: u64,
    pub unknow_0x20: u64,
    pub unknow_0x40: u64,
    pub pages_map_crc_uncompressed: u64,
    pub unknown_0xf800: u64,
    pub unknown_4: u64,
    pub unknown_1: u64,
    pub sections_amount: u64,
    pub sections_map_crc_uncompressed: u64,
    pub sections_map_size_compressed: u64,
    pub sections_map_id: u64,
    pub sections_map_size_uncompressed: u64,
    pub sections_map_crc_compressed: u64,
    pub sections_map_correction_factor: u64,
    pub sections_map_crc_seed: u64,
    pub stream_version: u64,
    pub crc_seed: u64,
    pub crc_seed_encoded: u64,
    pub random_seed: u64,
    pub header_crc64: u64,
}

/// The metadata fields of `data`: field `i` is the little-endian value of
/// bytes `8 i .. 8 i + 8`.  Fewer than 0x110 bytes is an error.
pub open spec fn spec_ac21_metadata(data: Seq<u8>) -> Result<Dwg21CompressedMetadata, DxfError> {
    if data.len() < 0x110 {
        Err(DxfError::InvalidFormat)
    } else {
        Ok(Dwg21CompressedMetadata {
            header_size: le_at(data, 0x0, 8) as u64,
            file_size: le_at(data, 0x8, 8) as u64,
            pages_map_crc_compressed: le_at(data, 0x10, 8) as u64,
            pages_map_correction_factor: le_at(data, 0x18, 8) as u64,
            pages_map_crc_seed: le_at(data, 0x20, 8) as u64,
            map2_offset: le_at(data, 0x28, 8) as u64,
            map2_id: le_at(data, 0x30, 8) as u64,
            pages_map_offset: le_at(data, 0x38, 8) as u64,
            header2_offset: le_at(data, 0x40, 8) as u64,
            pages_map_size_compressed: le_at(data, 0x48, 8) as u64,
            pages_map_size_uncompressed: le_at(data, 0x50, 8) as u64,
            pages_amount: le_at(data, 0x58, 8) as u64,
            pages_max_id: le_at(data, 0x60, 8) as u64,
            sections_map2_id: le_at(data, 0x68, 8) as u64,
            pages_map_id: le_at(data, 0x70, 8) as u64,
            unknow_0x20: le_at(data, 0x78, 8) as u64,
            unknow_0x40: le_at(data, 0x80, 8) as u64,
            pages_map_crc_uncompressed: le_at(data, 0x88, 8) as u64,
            unknown_0xf800: le_at(data, 0x90, 8) as u64,
            unknown_4: le_at(data, 0x98, 8) as u64,
            unknown_1: le_at(data, 0xa0, 8) as u64,
            sections_amount: le_at(data, 0xa8, 8) as u64,
            sections_map_crc_uncompressed: le_at(data, 0xb0, 8) as u64,
            sections_map_size_compressed: le_at(data, 0xb8, 8) as u64,
            sections_map_id: le_at(data, 0xc0, 8) as u64,
            sections_map_size_uncompressed: le_at(data, 0xc8, 8) as u64,
            sections_map_crc_compressed: le_at(data, 0xd0, 8) as u64,
            sections_map_correction_factor: le_at(data, 0xd8, 8) as u64,
            sections_map_crc_seed: le_at(data, 0xe0, 8) as u64,
            stream_version: le_at(data, 0xe8, 8) as u64,
            crc_seed: le_at(data, 0xf0, 8) as u64,
            crc_seed_encoded: le_at(data, 0xf8, 8) as u64,
            random_seed: le_at(data, 0x100, 8) as u64,
            header_crc64: le_at(data, 0x108, 8) as u64,
        })
    }
}

/// The reader of a DWG file.

/// The data the objects are read from: before R2004 the whole file (the
/// handle map gives file offsets); from R2004 on the `AcDb:AcDbObjects`
/// section.
pub open spec fn spec_objects_data(data: Seq<u8>, header: DwgFileHeaderModel) -> Result<Seq<u8>, DxfError> {
    if version_rank(header.version) <= version_rank(DxfVersion::AC1015) {
        Ok(data)
    } else {
        spec_section_stream(data, header, "AcDb:AcDbObjects"@)
    }
}

/// The objects read by an object reader started as [`objects_start`] says
/// (over `data` of `v`, with the queue `queue`, the map `map`, the classes
/// `classes` and the option `failsafe`) give the result `r`, as
/// [`objects_read`] says.
pub open spec fn objects_from(v: DxfVersion, data: Seq<u8>, queue: Seq<u64>, map: Map<u64, i64>,
    classes: Seq<DxfClassModel>, failsafe: bool, r: Result<Vec<CadTemplate<XDataValue, AnyEntity>>, DxfError>) -> bool {
    exists|o: DwgObjectReader, o2: DwgObjectReader|
        #[trigger] objects_start(o, v, data, queue, map, classes, failsafe) && #[trigger] objects_read(o, o2, r)
}

/// The contents of the classes `cs`.
pub open spec fn class_models(cs: Seq<DxfClass>) -> Seq<DxfClassModel> {
    cs.map_values(|c: DxfClass| c@)
}

/// The templates of a result of [`DwgReader::read_objects`], or its error.
pub open spec fn templates_of(r: Result<(HeaderValues, Vec<DxfClass>, Vec<CadTemplate<XDataValue, AnyEntity>>), DxfError>)
    -> Result<Vec<CadTemplate<XDataValue, AnyEntity>>, DxfError> {
    match r {
        Ok((_, _, ts)) => Ok(ts),
        Err(e) => Err(e),
    }
}

/// `o` is an object reader as [`DwgReader::read_objects`] starts it: over
/// the objects data `data` of version `v`, with the queue `queue`, the
/// handle map `map` and the classes `classes`, nothing read yet, going on
/// after failures as `failsafe` says.
pub open spec fn objects_start(o: DwgObjectReader, v: DxfVersion, data: Seq<u8>, queue: Seq<u64>,
    map: Map<u64, i64>, classes: Seq<DxfClassModel>, failsafe: bool) -> bool {
    &&& o.inv()
    &&& o.spec_version() == v
    &&& o.data() == data
    &&& o.queue() == queue
    &&& o.handle_map() == map
    &&& o.class_map() == class_map_of(classes)
    &&& o.read_set() == Set::<u64>::empty()
    &&& o.existing_set() == Set::<u64>::empty()
    &&& o.notes().len() == 0
    &&& o.spec_failsafe() == failsafe
}

pub struct DwgReader {
    data: Vec<u8>,
    version: DxfVersion,
    config: DwgReaderConfiguration,
    file_header: DwgFileHeader,
    notifications: Vec<Notification>,
}

impl DwgReader {
    /// The bytes of the file.
    pub closed spec fn data(&self) -> Seq<u8> {
        self.data@
    }

    /// The version of the file.
    pub closed spec fn spec_version(&self) -> DxfVersion {
        self.version
    }

    /// The options of the reader.
    pub closed spec fn spec_config(&self) -> DwgReaderConfiguration {
        self.config
    }

    /// The file header as read so far.
    pub closed spec fn spec_file_header(&self) -> DwgFileHeaderModel {
        self.file_header@
    }

    /// The notifications raised so far.
    pub closed spec fn spec_notifications(&self) -> Seq<Notification> {
        self.notifications@
    }

    /// A reader of the DWG file `data`, with the default options.  The
    /// version comes from the first six bytes.
    pub fn from_reader(data: Vec<u8>) -> (r: Result<Self, DxfError>)
        ensures
            match r {
                Ok(reader) => spec_file_version(data@) == Some(reader.spec_version())
                    && reader.data() == data@
                    && reader.spec_config() == DwgReaderConfiguration { failsafe: false, keep_unknown_entities: false }
                    && reader.spec_file_header() == empty_file_header(reader.spec_version())
                    && reader.spec_notifications().len() == 0,
                Err(e) => spec_file_version(data@) is None && file_version_error(data@, e),
            },
    {
        if data.len() < 6 {
            return Err(DxfError::UnexpectedEof);
        }
        let sig = slice_prefix(&data, 6);
        if !is_utf8(sig.as_slice()) {
            return Err(DxfError::InvalidFormat);
        }
        let version = match DxfVersion::from_signature(sig.as_slice()) {
            Some(v) => v,
            None => {
                return Err(DxfError::UnsupportedVersion(sig));
            },
        };
        proof {
            assert(version_signature(version) == data@.take(6));
            let w = choose|v: DxfVersion| version_signature(v) == data@.take(6);
            lemma_signature_unique(w, version);
        }
        let file_header = DwgFileHeader::create(version);
        Ok(DwgReader {
            data,
            version,
            config: DwgReaderConfiguration::default(),
            file_header,
            notifications: Vec::new(),
        })
    }

    /// This reader with the options `config`.
    pub fn with_config(self, config: DwgReaderConfiguration) -> (r: Self)
        ensures
            r.spec_config() == config,
            r.data() == self.data(),
            r.spec_version() == self.spec_version(),
            r.spec_file_header() == self.spec_file_header(),
            r.spec_notifications() == self.spec_notifications(),
    {
        let mut s = self;
        s.config = config;
        s
    }

    /// The version of the file.
    pub fn version(&self) -> (r: DxfVersion)
        ensures
            r == self.spec_version(),
    {
        self.version
    }

    /// The file header as read so far.
    pub fn file_header(&self) -> (r: &DwgFileHeader)
        ensures
            r@ == self.spec_file_header(),
    {
        &self.file_header
    }

    /// The length of the file.
    pub fn file_length(&self) -> (r: usize)
        ensures
            r == self.data().len(),
    {
        self.data.len()
    }

    /// The options of the reader.
    pub fn config(&self) -> (r: DwgReaderConfiguration)
        ensures
            r == self.spec_config(),
    {
        self.config
    }

    /// Read the file header.
    pub fn read_file_header(&mut self) -> (r: Result<(), DxfError>)
        ensures
            final(self).data() == old(self).data(),
            final(self).spec_version() == old(self).spec_version(),
            final(self).spec_config() == old(self).spec_config(),
            final(self).spec_notifications() == old(self).spec_notifications(),
            match spec_read_file_header(old(self).data(), old(self).spec_version()) {
                Ok(h) => r is Ok && final(self).spec_file_header() == h,
                Err(e) => r == Err::<(), DxfError>(e),
            },
    {
        if self.version.rank() <= 2 {
            let header = read_file_header_ac15(&self.data, self.version)?;
            self.file_header = header;
            Ok(())
        } else if self.version.same_as(DxfVersion::AC1021) {
            if self.data.len() < 0x480 {
                return Err(DxfError::UnexpectedEof);
            }
            self.file_header = read_preamble(&self.data, self.version);
            Ok(())
        } else {
            if self.data.len() < 0x80 + 108 {
                return Err(DxfError::UnexpectedEof);
            }
            let mut header = read_preamble(&self.data, self.version);
            let block = slice_range(&self.data, 0x80, 0x80 + 108);
            header.encrypted_header = Some(decrypt_file_header_ac18(block.as_slice()));
            self.file_header = header;
            Ok(())
        }
    }

    /// The data of the section `name`.
    pub fn get_section_stream(&self, name: &str) -> (r: Result<Vec<u8>, DxfError>)
        ensures
            spec_section_stream(self.data(), self.spec_file_header(), name@) == (match r {
                Ok(v) => Ok(v@),
                Err(e) => Err(e),
            }),
    {
        if self.file_header.version.rank() <= 2 {
            let index = match section_locator_by_name(name) {
                Some(i) => i,
                None => {
                    return Err(DxfError::InvalidFormat);
                },
            };
            let record = match self.file_header.records.get(&index) {
                Some(rec) => *rec,
                None => {
                    return Err(DxfError::InvalidFormat);
                },
            };
            if record.seeker < 0 || record.size <= 0 {
                return Ok(Vec::new());
            }
            if record.seeker as u64 + record.size as u64 > self.data.len() as u64 {
                return Err(DxfError::UnexpectedEof);
            }
            let start = record.seeker as usize;
            let end = start + record.size as usize;
            Ok(slice_range(&self.data, start, end))
        } else {
            Err(DxfError::InvalidFormat)
        }
    }

    /// Read the handle map (`AcDb:Handles`).
    pub fn read_handles(&self) -> (r: Result<HashMap<u64, i64>, DxfError>)
        ensures
            match spec_section_stream(self.data(), self.spec_file_header(), "AcDb:Handles"@) {
                Err(e) => r == Err::<HashMap<u64, i64>, DxfError>(e),
                Ok(d) => spec_handle_map(d) == (match r {
                    Ok(m) => Ok(m@),
                    Err(e) => Err(e),
                }),
            },
    {
        let data = self.get_section_stream("AcDb:Handles")?;
        DwgHandleReader::new(self.version, data).read()
    }

    /// Read the system variables (`AcDb:Header`), with the maintenance
    /// version of the file header.
    pub fn read_header(&self) -> (r: Result<HeaderValues, DxfError>)
        requires
            self.data().len() * 8 + 0x10_0000_0000 <= i64::MAX,
        ensures
            match spec_section_stream(self.data(), self.spec_file_header(), "AcDb:Header"@) {
                Err(e) => r matches Err(e2) && e2 == e,
                Ok(d) => match spec_header_read(d, self.spec_version(), self.spec_file_header().maintenance_version as i32) {
                    Err(e) => r matches Err(e2) && e2 == e,
                    Ok(h) => r matches Ok(x) && x@ == h,
                },
            },
    {
        let data = self.get_section_stream("AcDb:Header")?;
        let acad_maint_ver = self.file_header.maintenance_version as i32;
        let reader = DwgHeaderReader::new(self.version, data);
        reader.read(acad_maint_ver)
    }

    /// Read the objects of the file: the system variables, the classes and
    /// the handle map, then every object that the valid handles of the
    /// header lead to (see [`DwgObjectReader::read`]), read from the
    /// objects data (see [`spec_objects_data`]) and going on after failed
    /// objects as the options say.  Gives the variables, the classes and
    /// the templates of the objects.
    #[verifier::spinoff_prover]
    pub fn read_objects(&self)
        -> (r: Result<(HeaderValues, Vec<DxfClass>, Vec<CadTemplate<XDataValue, AnyEntity>>), DxfError>)
        requires
            self.data().len() * 8 + 0x10_0000_0000 <= i64::MAX,
        ensures
            match spec_section_stream(self.data(), self.spec_file_header(), "AcDb:Header"@) {
                Err(e) => r matches Err(e2) && e2 == e,
                Ok(hd) => match spec_header_read(hd, self.spec_version(), self.spec_file_header().maintenance_version as i32) {
                    Err(e) => r matches Err(e2) && e2 == e,
                    Ok(h) => match spec_section_stream(self.data(), self.spec_file_header(), "AcDb:Classes"@) {
                        Err(e) => r matches Err(e2) && e2 == e,
                        Ok(cd) => match spec_classes(cd, self.spec_version(), self.spec_file_header().version,
                            self.spec_file_header().maintenance_version) {
                            Err(e) => r matches Err(e2) && e2 == e,
                            Ok(cl) => match spec_section_stream(self.data(), self.spec_file_header(), "AcDb:Handles"@) {
                                Err(e) => r matches Err(e2) && e2 == e,
                                Ok(hdl) => match spec_handle_map(hdl) {
                                    Err(e) => r matches Err(e2) && e2 == e,
                                    Ok(map) => match spec_objects_data(self.data(), self.spec_file_header()) {
                                        Err(e) => r matches Err(e2) && e2 == e,
                                        Ok(od) => objects_from(self.spec_version(), od,
                                            valid_handles(header_handles_of(self.spec_version(), h.after_seed)), map, cl,
                                            self.spec_config().failsafe, templates_of(r))
                                            && (r matches Ok((hv, cls, _)) ==> hv@ == h && class_models(cls@) == cl),
                                    },
                                },
                            },
                        },
                    },
                },
            },
    {
        let header = match self.read_header() {
            Ok(h) => h,
            Err(e) => {
                return Err(e);
            },
        };
        let classes = match self.read_classes() {
            Ok(c) => c,
            Err(e) => {
                return Err(e);
            },
        };
        let map = match self.read_handles() {
            Ok(m) => m,
            Err(e) => {
                return Err(e);
            },
        };
        let ghost mm = map@;
        let named = header_handles(self.version, &header.after_seed);
        let valid = get_valid_handles(&named);
        let mut queue: VecDeque<u64> = VecDeque::new();
        let mut i: usize = 0;
        while i < valid.len()
            invariant
                i <= valid@.len(),
                queue@ == valid@.take(i as int),
            decreases valid@.len() - i,
        {
            queue.push_back(valid[i]);
            assert(valid@.take(i + 1) =~= valid@.take(i as int).push(valid@[i as int]));
            i = i + 1;
        }
        assert(valid@.take(valid@.len() as int) =~= valid@);
        let objects_data = if self.file_header.version.rank() <= 2 {
            let d = self.data.clone();
            assert(d@ =~= self.data@);
            d
        } else {
            match self.get_section_stream("AcDb:AcDbObjects") {
                Ok(d) => d,
                Err(e) => {
                    return Err(e);
                },
            }
        };
        let mut reader = DwgObjectReader::new(self.version, objects_data, queue, map, classes.as_slice());
        reader.set_failsafe(self.config.failsafe);
        let ghost o = reader;
        let templates = reader.read();
        let ghost o2 = reader;
        proof {
            assert(version_rank(DxfVersion::AC1015) == 2);
            assert(spec_objects_data(self.data(), self.spec_file_header()) == Ok::<Seq<u8>, DxfError>(o.data()));
            assert(header_handles_of(self.spec_version(), header@.after_seed) == named);
            assert(objects_start(o, self.spec_version(), o.data(),
                valid_handles(header_handles_of(self.spec_version(), header@.after_seed)), o.handle_map(),
                classes@.map_values(|c: DxfClass| c@), self.spec_config().failsafe));
        }
        let ghost hm = header@;
        let ghost cm = class_models(classes@);
        assert(cm =~= classes@.map_values(|c: DxfClass| c@));
        let r = match templates {
            Ok(ts) => Ok((header, classes, ts)),
            Err(e) => Err(e),
        };
        proof {
            assert(templates_of(r) == templates);
            assert(objects_read(o, o2, templates_of(r)));
            let fh = self.spec_file_header();
            let v = self.spec_version();
            let hd = spec_section_stream(self.data(), fh, "AcDb:Header"@)->Ok_0;
            assert(spec_header_read(hd, v, fh.maintenance_version as i32) == Ok::<HeaderModel, DxfError>(hm));
            let cd = spec_section_stream(self.data(), fh, "AcDb:Classes"@)->Ok_0;
            assert(spec_classes(cd, v, fh.version, fh.maintenance_version) == Ok::<Seq<DxfClassModel>, DxfError>(cm));
            let hdl = spec_section_stream(self.data(), fh, "AcDb:Handles"@)->Ok_0;
            assert(spec_handle_map(hdl) == Ok::<Map<u64, i64>, DxfError>(mm));
            assert(o.handle_map() == mm);
            assert(objects_start(o, v, o.data(), valid_handles(header_handles_of(v, hm.after_seed)), mm, cm,
                self.spec_config().failsafe)) by {
                assert(o.class_map() == class_map_of(classes@.map_values(|c: DxfClass| c@)));
            }
            assert(r matches Ok((hv, cls, _)) ==> hv@ == hm && class_models(cls@) == cm);
            let od = spec_objects_data(self.data(), fh)->Ok_0;
            assert(od == o.data());
            assert(objects_from(v, od, valid_handles(header_handles_of(v, hm.after_seed)), mm, cm,
                self.spec_config().failsafe, templates_of(r)));
        }
        r
    }

    /// Read the classes (`AcDb:Classes`).
    pub fn read_classes(&self) -> (r: Result<Vec<DxfClass>, DxfError>)
        requires
            self.data().len() * 8 + 0x1_0000_0000 <= i64::MAX,
        ensures
            match spec_section_stream(self.data(), self.spec_file_header(), "AcDb:Classes"@) {
                Err(e) => r == Err::<Vec<DxfClass>, DxfError>(e),
                Ok(d) => spec_classes(d, self.spec_version(), self.spec_file_header().version,
                    self.spec_file_header().maintenance_version) == (match r {
                    Ok(list) => Ok(list@.map_values(|c: DxfClass| c@)),
                    Err(e) => Err(e),
                }),
            },
    {
        let data = self.get_section_stream("AcDb:Classes")?;
        DwgClassesReader::new(self.version, data, self.file_header.version, self.file_header.maintenance_version).read()
    }

    /// Read the summary info (`AcDb:SummaryInfo`); `None` when the section
    /// is missing or empty (a section that ends early gives what was read).
    pub fn read_summary_info(&self) -> (r: Option<SummaryInfo>)
        ensures
            match spec_section_stream(self.data(), self.spec_file_header(), "AcDb:SummaryInfo"@) {
                Ok(d) => if d.len() == 0 {
                    r is None
                } else {
                    r matches Some(info) && info@ == spec_summary_info(d, self.spec_version())
                },
                Err(_) => r is None,
            },
    {
        let data = match self.get_section_stream("AcDb:SummaryInfo") {
            Ok(d) => d,
            Err(_) => {
                return None;
            },
        };
        if data.len() == 0 {
            return None;
        }
        match DwgSummaryInfoReader::new(self.version, data).read() {
            Ok(info) => Some(info),
            Err(_) => None,
        }
    }

    /// Read the application info (`AcDb:AppInfo`); `None` when the section
    /// is missing, empty or cannot be read.
    pub fn read_app_info(&self) -> (r: Option<AppInfo>)
        ensures
            match spec_section_stream(self.data(), self.spec_file_header(), "AcDb:AppInfo"@) {
                Ok(d) => if d.len() == 0 {
                    r is None
                } else {
                    match spec_app_info(d, self.spec_version()) {
                        Ok(m) => r matches Some(info) && info@ == m,
                        Err(_) => r is None,
                    }
                },
                Err(_) => r is None,
            },
    {
        let data = match self.get_section_stream("AcDb:AppInfo") {
            Ok(d) => d,
            Err(_) => {
                return None;
            },
        };
        if data.len() == 0 {
            return None;
        }
        match DwgAppInfoReader::new(self.version, data).read() {
            Ok(info) => Some(info),
            Err(_) => None,
        }
    }

    /// Read the preview; `None` when the file has no preview address, the
    /// data is missing or empty, or it cannot be read.  Before R2004 the
    /// preview is read from its address (at most 32768 bytes); later from
    /// the `AcDb:Preview` section.
    pub fn read_preview(&self) -> (r: Option<DwgPreview>)
        ensures
            ({
                let h = self.spec_file_header();
                let d = self.data();
                let data = if version_rank(h.version) <= version_rank(DxfVersion::AC1015) {
                    if h.preview_address <= d.len() {
                        Ok(d.subrange(h.preview_address as int,
                            if h.preview_address + 32768 <= d.len() { h.preview_address + 32768 } else { d.len() as int }))
                    } else {
                        Ok(Seq::<u8>::empty())
                    }
                } else {
                    spec_section_stream(d, h, "AcDb:Preview"@)
                };
                if h.preview_address <= 0 {
                    r is None
                } else {
                    match data {
                        Ok(bytes) => if bytes.len() == 0 {
                            r is None
                        } else {
                            match spec_preview(bytes) {
                                Ok((code, header, image)) => r matches Some(p)
                                    && p.code == code && p.raw_header@ == header && p.raw_image@ == image,
                                Err(_) => r is None,
                            }
                        },
                        Err(_) => r is None,
                    }
                }
            }),
    {
        let addr = self.file_header.preview_address;
        if addr <= 0 {
            return None;
        }
        let data = if self.file_header.version.rank() <= 2 {
            let len = self.data.len();
            if addr as u64 <= len as u64 {
                let start = addr as usize;
                let end = if start as u64 + 32768 <= len as u64 { start + 32768 } else { len };
                slice_range(&self.data, start, end)
            } else {
                Vec::new()
            }
        } else {
            match self.get_section_stream("AcDb:Preview") {
                Ok(d) => d,
                Err(_) => {
                    return None;
                },
            }
        };
        if data.len() == 0 {
            return None;
        }
        match DwgPreviewReader::new(self.version, data).read() {
            Ok(p) => Some(p),
            Err(_) => None,
        }
    }

    /// Record a notification.
    pub fn notify(&mut self, message: &str, ntype: NotificationType)
        ensures
            final(self).spec_notifications().len() == old(self).spec_notifications().len() + 1,
            final(self).spec_notifications().drop_last() == old(self).spec_notifications(),
            final(self).spec_notifications().last().notification_type == ntype,
            final(self).spec_notifications().last().message@ == message@,
            final(self).data() == old(self).data(),
            final(self).spec_version() == old(self).spec_version(),
            final(self).spec_config() == old(self).spec_config(),
            final(self).spec_file_header() == old(self).spec_file_header(),
    {
        let n = Notification::new(ntype, String::from_str(message));
        self.notifications.push(n);
        assert(self.notifications@.drop_last() =~= old(self).notifications@);
    }
}

/// Parse the compressed metadata of an R2007 file header (already
/// decompressed).
pub fn parse_ac21_metadata_fields(data: &[u8]) -> (r: Result<Dwg21CompressedMetadata, DxfError>)
    ensures
        spec_ac21_metadata(data@) == (match r {
            Ok(m) => Ok(m),
            Err(e) => Err(e),
        }),
{
    if data.len() < 0x110 {
        return Err(DxfError::InvalidFormat);
    }
    Ok(Dwg21CompressedMetadata {
        header_size: u64_at(data, 0x0),
        file_size: u64_at(data, 0x8),
        pages_map_crc_compressed: u64_at(data, 0x10),
        pages_map_correction_factor: u64_at(data, 0x18),
        pages_map_crc_seed: u64_at(data, 0x20),
        map2_offset: u64_at(data, 0x28),
        map2_id: u64_at(data, 0x30),
        pages_map_offset: u64_at(data, 0x38),
        header2_offset: u64_at(data, 0x40),
        pages_map_size_compressed: u64_at(data, 0x48),
        pages_map_size_uncompressed: u64_at(data, 0x50),
        pages_amount: u64_at(data, 0x58),
        pages_max_id: u64_at(data, 0x60),
        sections_map2_id: u64_at(data, 0x68),
        pages_map_id: u64_at(data, 0x70),
        unknow_0x20: u64_at(data, 0x78),
        unknow_0x40: u64_at(data, 0x80),
        pages_map_crc_uncompressed: u64_at(data, 0x88),
        unknown_0xf800: u64_at(data, 0x90),
        unknown_4: u64_at(data, 0x98),
        unknown_1: u64_at(data, 0xa0),
        sections_amount: u64_at(data, 0xa8),
        sections_map_crc_uncompressed: u64_at(data, 0xb0),
        sections_map_size_compressed: u64_at(data, 0xb8),
        sections_map_id: u64_at(data, 0xc0),
        sections_map_size_uncompressed: u64_at(data, 0xc8),
        sections_map_crc_compressed: u64_at(data, 0xd0),
        sections_map_correction_factor: u64_at(data, 0xd8),
        sections_map_crc_seed: u64_at(data, 0xe0),
        stream_version: u64_at(data, 0xe8),
        crc_seed: u64_at(data, 0xf0),
        crc_seed_encoded: u64_at(data, 0xf8),
        random_seed: u64_at(data, 0x100),
        header_crc64: u64_at(data, 0x108),
    })
}

/// The little-endian 64-bit value at `off` of `data`.
fn u64_at(data: &[u8], off: usize) -> (r: u64)
    requires
        off + 8 <= data@.len(),
    ensures
        r == le_at(data@, off as int, 8),
{
    let len = data.len();
    let end = off + 8;
    let mut b: Vec<u8> = Vec::new();
    let mut i = off;
    while i < end
        invariant
            len == data@.len(),
            end == off + 8,
            off <= i <= off + 8,
            off + 8 <= data@.len(),
            b@ == data@.subrange(off as int, i as int),
        decreases end - i,
    {
        b.push(data[i]);
        i = i + 1;
        assert(b@ =~= data@.subrange(off as int, i as int));
    }
    assert(b@.take(8) =~= b@);
    le_u64(b.as_slice())
}

/// The locator record number of a section of a file before R2004.
fn section_locator_by_name(name: &str) -> (r: Option<usize>)
    ensures
        r == spec_section_locator(name@),
{
    if str_eq(name, "AcDb:Header") {
        Some(0)
    } else if str_eq(name, "AcDb:Classes") {
        Some(1)
    } else if str_eq(name, "AcDb:Handles") {
        Some(2)
    } else if str_eq(name, "AcDb:ObjFreeSpace") {
        Some(3)
    } else if str_eq(name, "AcDb:Template") {
        Some(4)
    } else if str_eq(name, "AcDb:AuxHeader") {
        Some(5)
    } else {
        None
    }
}

/// The signed 32-bit little-endian value at `off` of `data`.
fn i32_at_exec(data: &Vec<u8>, off: usize) -> (r: i32)
    requires
        off + 4 <= data@.len(),
    ensures
        r == i32_at(data@, off as int),
{
    let _len = data.len();
    let b = slice_range(data, off, off + 4);
    assert(b@.take(4) =~= b@);
    le_i32(b.as_slice())
}

/// The unsigned little-endian value of `n` bytes (2, 4 or 8) at `off`.
fn uint_at_exec(data: &Vec<u8>, off: usize, n: usize) -> (r: u64)
    requires
        n == 2 || n == 4 || n == 8,
        off + n <= data@.len(),
    ensures
        r == le_at(data@, off as int, n as int),
        n == 2 ==> r < 0x1_0000,
        n == 4 ==> r < 0x1_0000_0000,
{
    let _len = data.len();
    let b = slice_range(data, off, off + n);
    assert(b@.take(n as int) =~= b@);
    proof {
        lemma_le_value_bound(b@);
        lemma_pow256_values();
    }
    if n == 2 {
        le_u16(b.as_slice()) as u64
    } else if n == 4 {
        le_u32(b.as_slice()) as u64
    } else {
        le_u64(b.as_slice())
    }
}

/// Read the file header of a file before R2004.
fn read_file_header_ac15(data: &Vec<u8>, version: DxfVersion) -> (r: Result<DwgFileHeader, DxfError>)
    ensures
        spec_file_header_ac15(data@, version) == (match r {
            Ok(h) => Ok(h@),
            Err(e) => Err(e),
        }),
{
    let len = data.len();
    if len < 25 {
        return Err(DxfError::UnexpectedEof);
    }
    let n = i32_at_exec(data, 21);
    if n < 0 || (len as u64) < 25 + 9 * (n as u64) + 18 {
        return Err(DxfError::UnexpectedEof);
    }
    let mut header = DwgFileHeader::create(version);
    header.maintenance_version = data[11];
    header.preview_address = i32_at_exec(data, 13) as i64;
    header.drawing_code_page = uint_at_exec(data, 19, 2) as u16;
    let count = n as usize;
    let mut i: usize = 0;
    while i < count
        invariant
            len == data@.len(),
            i <= count,
            count == n,
            25 + 9 * count + 18 <= data@.len(),
            header.records@ == spec_locator_records(data@, i as nat),
            header@.version == version,
            header.maintenance_version == data@[11],
            header.preview_address == i32_at(data@, 13) as i64,
            header.drawing_code_page == le_at(data@, 19, 2) as u16,
            header.dwg_version == 0,
            header.app_release_version == 0,
            header.security_type == 0,
            header.summary_info_addr == 0,
            header.vba_project_addr == 0,
            header.encrypted_header is None,
        decreases count - i,
    {
        let off = 25 + 9 * i;
        let number = data[off];
        let seeker = i32_at_exec(data, off + 1) as i64;
        let size = i32_at_exec(data, off + 5) as i64;
        header.records.insert(number as usize, SectionLocatorRecord { number: number as i32, seeker, size });
        i = i + 1;
    }
    Ok(header)
}

/// Read the preamble of an R2004 or later file header.
fn read_preamble(data: &Vec<u8>, version: DxfVersion) -> (r: DwgFileHeader)
    requires
        data@.len() >= 0x80,
    ensures
        r@ == spec_preamble(data@, version),
{
    let mut header = DwgFileHeader::create(version);
    header.maintenance_version = data[11];
    header.preview_address = i32_at_exec(data, 13) as i64;
    header.dwg_version = data[17];
    header.app_release_version = data[18];
    header.drawing_code_page = uint_at_exec(data, 19, 2) as u16;
    header.security_type = i32_at_exec(data, 24) as i64;
    header.summary_info_addr = i32_at_exec(data, 32) as i64;
    header.vba_project_addr = i32_at_exec(data, 36) as i64;
    header
}

/// Decrypt the 108-byte header block of an R2004 file and read its fields.
pub fn decrypt_file_header_ac18(data: &[u8]) -> (r: DecryptedAC18HeaderData)
    requires
        data@.len() == 108,
    ensures
        r == spec_decrypted_header(data@),
{
    let mut decrypted: Vec<u8> = Vec::new();
    let mut state: u32 = 1;
    let mut i: usize = 0;
    while i < 108
        invariant
            i <= 108,
            data@.len() == 108,
            state == lcg_state(i as nat),
            decrypted@ == decrypted_bytes(data@).take(i as int),
        decreases 108 - i,
    {
        state = ((state as u64 * 0x343FD + 0x269EC3) % 0x1_0000_0000) as u32;
        decrypted.push(data[i] ^ ((state >> 16) as u8));
        i = i + 1;
        assert(decrypted@ =~= decrypted_bytes(data@).take(i as int));
    }
    assert(decrypted@ =~= decrypted_bytes(data@));
    let page_map = uint_at_exec(&decrypted, 0x54, 8);
    DecryptedAC18HeaderData {
        root_tree_node_gap: i32_at_exec(&decrypted, 0x18),
        last_page_id: i32_at_exec(&decrypted, 0x28),
        last_section_addr: uint_at_exec(&decrypted, 0x2C, 8),
        second_header_addr: uint_at_exec(&decrypted, 0x34, 8),
        gap_amount: uint_at_exec(&decrypted, 0x3C, 4) as u32,
        section_amount: uint_at_exec(&decrypted, 0x40, 4) as u32,
        section_page_map_id: uint_at_exec(&decrypted, 0x50, 4) as u32,
        page_map_address: page_map.wrapping_add(0x100),
        section_map_id: uint_at_exec(&decrypted, 0x5C, 4) as u32,
        section_array_page_size: uint_at_exec(&decrypted, 0x60, 4) as u32,
        gap_array_size: uint_at_exec(&decrypted, 0x64, 4) as u32,
        crc_seed: uint_at_exec(&decrypted, 0x68, 4) as u32,
    }
}

/// Every version is recognised from its own signature.
pub proof fn lemma_signature_roundtrip(v: DxfVersion)
    ensures
        signature_version(version_signature(v)) == Some(v),
{
    let w = choose|x: DxfVersion| version_signature(x) == version_signature(v);
    lemma_signature_unique(w, v);
}

/// The header block cipher is its own inverse: XOR-ing with the key
/// stream twice gives the bytes back.
pub proof fn lemma_decryption_involution(data: Seq<u8>)
    ensures
        decrypted_bytes(decrypted_bytes(data)) == data,
{
    assert forall|i: int| 0 <= i < data.len() implies #[trigger] decrypted_bytes(decrypted_bytes(data))[i] == data[i] by {
        let m = (lcg_state((i + 1) as nat) >> 16u32) as u8;
        let x = data[i];
        assert((x ^ m) ^ m == x) by (bit_vector);
    }
    assert(decrypted_bytes(decrypted_bytes(data)) =~= data);
}

/// Two versions with the same signature are the same.
proof fn lemma_signature_unique(a: DxfVersion, b: DxfVersion)
    requires
        version_signature(a) == version_signature(b),
    ensures
        a == b,
{
    assert(version_signature(a)[4] == version_signature(b)[4]);
    assert(version_signature(a)[5] == version_signature(b)[5]);
}

/// A copy of the first `n` bytes of `data`.
fn slice_prefix(data: &Vec<u8>, n: usize) -> (r: Vec<u8>)
    requires
        n <= data@.len(),
    ensures
        r@ == data@.take(n as int),
{
    slice_range(data, 0, n)
}

/// A copy of the bytes `start..end` of `data`.
fn slice_range(data: &Vec<u8>, start: usize, end: usize) -> (r: Vec<u8>)
    requires
        start <= end <= data@.len(),
    ensures
        r@ == data@.subrange(start as int, end as int),
{
    let mut out: Vec<u8> = Vec::new();
    let mut i = start;
    while i < end
        invariant
            start <= i <= end,
            end <= data@.len(),
            out@ == data@.subrange(start as int, i as int),
        decreases end - i,
    {
        out.push(data[i]);
        i = i + 1;
        assert(out@ =~= data@.subrange(start as int, i as int));
    }
    out
}


/// One record of the page map of an R2004 or later file: the number of a
/// section page, its position in the file and its size.
#[derive(Debug, Clone, Copy, PartialEq, Eq)]
pub struct PageRecord {
    /// The page number.
    pub number: i32,
    /// The position of the page in the file.
    pub seeker: i64,
    /// The size of the page.
    pub size: i64,
}

/// The pages of the decompressed page map `b` read from byte `at`, the
/// running file position being `total`: each entry is a number and a size
/// (signed 32-bit, little endian); an entry whose number is 0 or more is a
/// page at `total`; one with a negative number is a gap, followed by four
/// more values; `total` moves on by the size either way.  Reading stops
/// at an entry cut short (a gap cut short ends the map as well).
pub open spec fn spec_page_records(b: Seq<u8>, at: nat, total: int) -> Seq<(i32, int, int)>
    decreases b.len() - at,
{
    if at + 8 > b.len() {
        Seq::empty()
    } else {
        let number = i32_at(b, at as int);
        let size = i32_at(b, (at + 4) as int) as int;
        let next: nat = if number >= 0 { at + 8 } else if at + 24 <= b.len() { at + 24 } else { b.len() };
        let rest = spec_page_records(b, next, total + size);
        if number >= 0 { seq![(number, total, size)] + rest } else { rest }
    }
}

/// The pages of the decompressed page map `b` (see [`spec_page_records`]),
/// the first at position 0x100 of the file.
pub fn page_map_records(b: &Vec<u8>) -> (r: Vec<PageRecord>)
    requires
        b@.len() <= 0x1_0000_0000,
    ensures
        r@.map_values(|p: PageRecord| (p.number, p.seeker as int, p.size as int)) == spec_page_records(b@, 0, 0x100),
{
    let mut out: Vec<PageRecord> = Vec::new();
    let mut at: usize = 0;
    let mut total: i64 = 0x100;
    let len = b.len();
    while len - at >= 8
        invariant
            len == b@.len(),
            len <= 0x1_0000_0000,
            at <= len,
            0x100 - (at as int) * 0x1000_0000 <= total <= 0x100 + (at as int) * 0x1000_0000,
            out@.map_values(|p: PageRecord| (p.number, p.seeker as int, p.size as int))
                + spec_page_records(b@, at as nat, total as int) == spec_page_records(b@, 0, 0x100),
        decreases len - at,
    {
        let ghost before = out@.map_values(|p: PageRecord| (p.number, p.seeker as int, p.size as int));
        let ghost rest0 = spec_page_records(b@, at as nat, total as int);
        let number = i32_at_exec(b, at);
        let size = i32_at_exec(b, at + 4);
        if number >= 0 {
            out.push(PageRecord { number, seeker: total, size: size as i64 });
            proof {
                assert(out@.map_values(|p: PageRecord| (p.number, p.seeker as int, p.size as int))
                    =~= before.push((number, total as int, size as int)));
                assert(before.push((number, total as int, size as int))
                    + spec_page_records(b@, (at + 8) as nat, total + size)
                    =~= before + rest0);
            }
            at = at + 8;
        } else if len - at >= 24 {
            at = at + 24;
        } else {
            proof {
                assert(spec_page_records(b@, len as nat, total + size) =~= Seq::<(i32, int, int)>::empty());
                assert(before + Seq::<(i32, int, int)>::empty() =~= before);
            }
            at = len;
        }
        total = total + size as i64;
    }
    proof {
        assert(out@.map_values(|p: PageRecord| (p.number, p.seeker as int, p.size as int))
            + Seq::<(i32, int, int)>::empty()
            =~= out@.map_values(|p: PageRecord| (p.number, p.seeker as int, p.size as int)));
    }
    out
}

/// The fields of the R2004 header block, against the plain block `p` it
/// was encrypted from: each is the little-endian value at its fixed
/// offset of `p` (the page map address plus 0x100), so decrypting an
/// encrypted block reads the fields back.
pub proof fn lemma_decrypted_header_fields(p: Seq<u8>)
    requires
        p.len() == 108,
    ensures
        ({
            let h = spec_decrypted_header(decrypted_bytes(p));
            &&& h.root_tree_node_gap as int == i32_of(le_value(p.subrange(0x18, 0x1C)) as int)
            &&& h.last_page_id as int == i32_of(le_value(p.subrange(0x28, 0x2C)) as int)
            &&& h.last_section_addr == le_value(p.subrange(0x2C, 0x34))
            &&& h.second_header_addr == le_value(p.subrange(0x34, 0x3C))
            &&& h.gap_amount == le_value(p.subrange(0x3C, 0x40))
            &&& h.section_amount == le_value(p.subrange(0x40, 0x44))
            &&& h.section_page_map_id == le_value(p.subrange(0x50, 0x54))
            &&& h.page_map_address == (le_value(p.subrange(0x54, 0x5C)) + 0x100) % 0x1_0000_0000_0000_0000
            &&& h.section_map_id == le_value(p.subrange(0x5C, 0x60))
            &&& h.section_array_page_size == le_value(p.subrange(0x60, 0x64))
            &&& h.gap_array_size == le_value(p.subrange(0x64, 0x68))
            &&& h.crc_seed == le_value(p.subrange(0x68, 0x6C))
        }),
{
    lemma_decryption_involution(p);
    let d = decrypted_bytes(decrypted_bytes(p));
    assert(d == p);
    lemma_le_value_bound(p.subrange(0x18, 0x1C));
    lemma_le_value_bound(p.subrange(0x28, 0x2C));
    lemma_le_value_bound(p.subrange(0x2C, 0x34));
    lemma_le_value_bound(p.subrange(0x34, 0x3C));
    lemma_le_value_bound(p.subrange(0x3C, 0x40));
    lemma_le_value_bound(p.subrange(0x40, 0x44));
    lemma_le_value_bound(p.subrange(0x50, 0x54));
    lemma_le_value_bound(p.subrange(0x5C, 0x60));
    lemma_le_value_bound(p.subrange(0x60, 0x64));
    lemma_le_value_bound(p.subrange(0x64, 0x68));
    lemma_le_value_bound(p.subrange(0x68, 0x6C));
    lemma_pow256_values();
}

/// The signed value of four little-endian bytes.
pub open spec fn signed_le4(b: Seq<u8>) -> int {
    let u = le_value(b) as int;
    if u < 0x8000_0000 { u } else { u - 0x1_0000_0000 }
}

/// The signed value read at `off` is that of the four bytes there.
proof fn lemma_i32_at_bytes(data: Seq<u8>, off: int)
    requires
        0 <= off,
        off + 4 <= data.len(),
    ensures
        i32_at(data, off) as int == signed_le4(data.subrange(off, off + 4)),
{
    lemma_le_value_bound(data.subrange(off, off + 4));
    lemma_pow256_values();
}

/// The preamble of an R2004 or later file header, against its bytes: the
/// maintenance version is byte 0x0B, the preview address the signed
/// 32-bit value at 0x0D, the DWG version and application release bytes
/// 0x11 and 0x12, the code page the 16-bit value at 0x13, the security
/// type, summary info and VBA project addresses the signed values at
/// 0x18, 0x20 and 0x24.
pub proof fn lemma_preamble_bytes(data: Seq<u8>, version: DxfVersion)
    requires
        data.len() >= 0x80,
    ensures
        ({
            let h = spec_preamble(data, version);
            &&& h.version == version
            &&& h.maintenance_version == data[0x0B]
            &&& h.preview_address == signed_le4(data.subrange(0x0D, 0x11))
            &&& h.dwg_version == data[0x11]
            &&& h.app_release_version == data[0x12]
            &&& h.drawing_code_page == le_value(data.subrange(0x13, 0x15))
            &&& h.security_type == signed_le4(data.subrange(0x18, 0x1C))
            &&& h.summary_info_addr == signed_le4(data.subrange(0x20, 0x24))
            &&& h.vba_project_addr == signed_le4(data.subrange(0x24, 0x28))
        }),
{
    lemma_i32_at_bytes(data, 0x0D);
    lemma_i32_at_bytes(data, 0x18);
    lemma_i32_at_bytes(data, 0x20);
    lemma_i32_at_bytes(data, 0x24);
    lemma_le_value_bound(data.subrange(0x13, 0x15));
    lemma_pow256_values();
}

/// The section number of the `j`-th locator record of `data`.
pub open spec fn record_number(data: Seq<u8>, j: int) -> u8 {
    data[25 + 9 * j]
}

/// The section locator records of a file before R2004, against its bytes:
/// the record of the section numbered by the byte at `25 + 9 * j` (the
/// last record with that number among the first `k`) has that number, the
/// signed 32-bit offset that follows and then the signed 32-bit size.
pub proof fn lemma_locator_record_bytes(data: Seq<u8>, k: nat, j: nat)
    requires
        j < k,
        25 + 9 * k <= data.len(),
        forall|j2: int| j < j2 < k ==> #[trigger] record_number(data, j2) != record_number(data, j as int),
    ensures
        ({
            let off: int = 25 + 9 * (j as int);
            &&& spec_locator_records(data, k).contains_key(data[off] as usize)
            &&& spec_locator_records(data, k)[data[off] as usize].number == data[off]
            &&& spec_locator_records(data, k)[data[off] as usize].seeker
                == signed_le4(data.subrange(off + 1, off + 5))
            &&& spec_locator_records(data, k)[data[off] as usize].size
                == signed_le4(data.subrange(off + 5, off + 9))
        }),
    decreases k,
{
    let off: int = 25 + 9 * (j as int);
    if j + 1 == k {
        lemma_i32_at_bytes(data, off + 1);
        lemma_i32_at_bytes(data, off + 5);
    } else {
        lemma_locator_record_bytes(data, (k - 1) as nat, j);
        let o2: int = 25 + 9 * (k - 1) as int;
        assert(record_number(data, (k - 1) as int) != record_number(data, j as int));
        assert(data[o2] != data[off]);
        assert((data[o2] as usize) != (data[off] as usize));
    }
}

/// The file header of a file before R2004, against its bytes: at least 25
/// bytes; the record count is the signed 32-bit value at 0x15 and must be
/// at least 0 with its records (nine bytes each, from 0x19) and 18 more
/// bytes present; the maintenance version is byte 0x0B, the preview
/// address the signed value at 0x0D, the code page the 16-bit value at
/// 0x13.
pub proof fn lemma_file_header_ac15_bytes(data: Seq<u8>, version: DxfVersion)
    ensures
        data.len() < 25 ==> spec_file_header_ac15(data, version) == Err::<DwgFileHeaderModel, DxfError>(DxfError::UnexpectedEof),
        data.len() >= 25 ==> ({
            let n = signed_le4(data.subrange(0x15, 0x19));
            &&& (n < 0 || data.len() < 25 + 9 * n + 18) ==> spec_file_header_ac15(data, version)
                == Err::<DwgFileHeaderModel, DxfError>(DxfError::UnexpectedEof)
            &&& !(n < 0 || data.len() < 25 + 9 * n + 18) ==> (spec_file_header_ac15(data, version) matches Ok(h)
                && h.version == version
                && h.maintenance_version == data[0x0B]
                && h.preview_address == signed_le4(data.subrange(0x0D, 0x11))
                && h.drawing_code_page == le_value(data.subrange(0x13, 0x15))
                && h.records == spec_locator_records(data, n as nat)
                && h.encrypted_header is None)
        }),
{
    if data.len() >= 25 {
        lemma_i32_at_bytes(data, 0x15);
        lemma_i32_at_bytes(data, 0x0D);
        lemma_le_value_bound(data.subrange(0x13, 0x15));
        lemma_pow256_values();
    }
}
} // verus!
