//! The `AcDb:Handles` section: the map from object handles to their byte
//! offsets in the file.
//!
//! The section is a run of chunks.  Each starts with its size (a big-endian
//! short, the size itself included); a chunk of size 2 ends the section.
//! The body of a chunk, at most 2032 bytes, is a run of pairs: the handle
//! as a modular-char offset from the previous handle, and the location as
//! a signed modular-char offset from the previous location (both start at
//! zero in each chunk).  A two-byte CRC follows each chunk.

use vstd::prelude::*;
use std::collections::HashMap;
use crate::bit_model::{BitCursor, spec_read_byte};
use crate::error::DxfError;
use crate::stream_reader::get_stream_handler;
use crate::stream_values::{or_eof, spec_read_modular_char, spec_modular_char_from, spec_read_signed_modular_char, spec_signed_modular_char_from};
use crate::version::DxfVersion;

verus! {

broadcast use vstd::std_specs::hash::group_hash_axioms;

/// A modular char that is read moves the cursor forward.
pub proof fn lemma_modular_char_from_moves(c: BitCursor, i: nat, acc: u64)
    ensures
        spec_modular_char_from(c, i, acc) matches Ok((_, c1)) ==> c1.bytes.len() < c.bytes.len() && c1.shift == c.shift,
    decreases 10 - i,
{
    if i < 10 {
        if let Some((b, c1)) = spec_read_byte(c) {
            let v = acc | (((b & 0x7f) as u64) << ((7 * i) as u64));
            lemma_modular_char_from_moves(c1, i + 1, v);
        }
    }
}

/// A signed modular char that is read moves the cursor forward.
pub proof fn lemma_signed_modular_char_from_moves(c: BitCursor, i: nat, acc: u64)
    ensures
        spec_signed_modular_char_from(c, i, acc) matches Ok((_, c1)) ==> c1.bytes.len() < c.bytes.len() && c1.shift == c.shift,
    decreases 10 - i,
{
    if i < 10 {
        if let Some((b, c1)) = spec_read_byte(c) {
            let v = acc | (((b & 0x7f) as u64) << ((7 * i) as u64));
            lemma_signed_modular_char_from_moves(c1, i + 1, v);
        }
    }
}

/// The handle/location pairs of a chunk body, read while more than
/// `end_len` bytes are left, added to `m` (a pair with a zero handle
/// offset is skipped).  Handles and locations add up modulo 2^64.
pub open spec fn spec_handle_entries(c: BitCursor, end_len: int, last_handle: u64, last_loc: i64, m: Map<u64, i64>)
    -> Result<(Map<u64, i64>, BitCursor), DxfError>
    decreases c.bytes.len(),
{
    if c.bytes.len() <= end_len {
        Ok((m, c))
    } else {
        match spec_read_modular_char(c) {
            Err(e) => Err(e),
            Ok((off, c1)) => match spec_read_signed_modular_char(c1) {
                Err(e) => Err(e),
                Ok((loc, c2)) => {
                    proof {
                        lemma_modular_char_from_moves(c, 0, 0);
                        lemma_signed_modular_char_from_moves(c1, 0, 0);
                    }
                    let h = last_handle.wrapping_add(off);
                    let l = last_loc.wrapping_add(loc);
                    spec_handle_entries(c2, end_len, h, l, if off > 0 { m.insert(h, l) } else { m })
                },
            },
        }
    }
}

/// Reading the pairs of a chunk never moves the cursor back.
pub proof fn lemma_handle_entries_moves(c: BitCursor, end_len: int, last_handle: u64, last_loc: i64, m: Map<u64, i64>)
    ensures
        spec_handle_entries(c, end_len, last_handle, last_loc, m) matches Ok((_, c1))
            ==> c1.bytes.len() <= c.bytes.len() && c1.shift == c.shift,
    decreases c.bytes.len(),
{
    if c.bytes.len() > end_len {
        if let Ok((off, c1)) = spec_read_modular_char(c) {
            if let Ok((loc, c2)) = spec_read_signed_modular_char(c1) {
                lemma_modular_char_from_moves(c, 0, 0);
                lemma_signed_modular_char_from_moves(c1, 0, 0);
                let h = last_handle.wrapping_add(off);
                let l = last_loc.wrapping_add(loc);
                lemma_handle_entries_moves(c2, end_len, h, l, if off > 0 { m.insert(h, l) } else { m });
            }
        }
    }
}

/// The chunks of the section from `c` on, their pairs added to `m`.
pub open spec fn spec_handle_chunks(c: BitCursor, m: Map<u64, i64>) -> Result<Map<u64, i64>, DxfError>
    decreases c.bytes.len(),
{
    match or_eof(spec_read_byte(c)) {
        Err(e) => Err(e),
        Ok((hi, c1)) => match or_eof(spec_read_byte(c1)) {
            Err(e) => Err(e),
            Ok((lo, c2)) => {
                let size = hi as int * 256 + lo as int;
                if size == 2 {
                    Ok(m)
                } else {
                    let max_offset = if size - 2 > 2032 { 2032 } else { size - 2 };
                    match spec_handle_entries(c2, c2.bytes.len() - max_offset, 0, 0, m) {
                        Err(e) => Err(e),
                        Ok((m2, c3)) => match or_eof(spec_read_byte(c3)) {
                            Err(e) => Err(e),
                            Ok((_, c4)) => match or_eof(spec_read_byte(c4)) {
                                Err(e) => Err(e),
                                Ok((_, c5)) => {
                                    proof {
                                        lemma_handle_entries_moves(c2, c2.bytes.len() - max_offset, 0, 0, m);
                                    }
                                    spec_handle_chunks(c5, m2)
                                },
                            },
                        },
                    }
                }
            },
        },
    }
}

/// The handle map of the section `data`.
pub open spec fn spec_handle_map(data: Seq<u8>) -> Result<Map<u64, i64>, DxfError> {
    spec_handle_chunks(BitCursor { bytes: data, shift: 0 }, Map::empty())
}

/// Reader of the `AcDb:Handles` section.
pub struct DwgHandleReader {
    data: Vec<u8>,
    version: DxfVersion,
}

impl DwgHandleReader {
    /// The section data.
    pub closed spec fn data(&self) -> Seq<u8> {
        self.data@
    }

    /// The version of the file.
    pub closed spec fn spec_version(&self) -> DxfVersion {
        self.version
    }

    /// A reader of the section `data` (already decompressed) of a
    /// `version` file.
    pub fn new(version: DxfVersion, data: Vec<u8>) -> (r: Self)
        ensures
            r.data() == data@,
            r.spec_version() == version,
    {
        DwgHandleReader { data, version }
    }

    /// The version of the file.
    pub fn version(&self) -> (r: DxfVersion)
        ensures
            r == self.spec_version(),
    {
        self.version
    }

    /// Read the map from handles to file offsets.
    pub fn read(&self) -> (r: Result<HashMap<u64, i64>, DxfError>)
        ensures
            spec_handle_map(self.data()) == (match r {
                Ok(m) => Ok(m@),
                Err(e) => Err(e),
            }),
    {
        let mut object_map: HashMap<u64, i64> = HashMap::new();
        let data = self.data.clone();
        assert(data@ =~= self.data@);
        let mut reader = get_stream_handler(self.version, data);
        let ghost len = self.data@.len();
        loop
            invariant
                reader.data() == self.data@,
                len == self.data@.len(),
                reader.cursor().shift == 0,
                reader.spec_position() + reader.cursor().bytes.len() == len,
                spec_handle_map(self.data@) == spec_handle_chunks(reader.cursor(), object_map@),
            decreases reader.cursor().bytes.len(),
        {
            let ghost c0 = reader.cursor();
            let hi = reader.read_byte()?;
            let lo = reader.read_byte()?;
            let size: i32 = (hi as i32) * 256 + lo as i32;
            if size == 2 {
                return Ok(object_map);
            }
            let ghost c2 = reader.cursor();
            let ghost m0 = object_map@;
            let max_offset: i32 = if size - 2 > 2032 { 2032 } else { size - 2 };
            let ghost end_len = c2.bytes.len() - max_offset;
            let mut last_handle: u64 = 0;
            let mut last_loc: i64 = 0;
            proof {
                assert(spec_handle_chunks(c0, m0) == (match spec_handle_entries(c2, end_len, 0, 0, m0) {
                    Err(e) => Err(e),
                    Ok((m2, c3)) => match or_eof(spec_read_byte(c3)) {
                        Err(e) => Err(e),
                        Ok((_, c4)) => match or_eof(spec_read_byte(c4)) {
                            Err(e) => Err(e),
                            Ok((_, c5)) => spec_handle_chunks(c5, m2),
                        },
                    },
                }));
            }
            if max_offset > 0 {
                let start_pos: u64 = reader.position();
                while reader.position() - start_pos < max_offset as u64
                    invariant
                        reader.data() == self.data@,
                        len == self.data@.len(),
                        reader.cursor().shift == 0,
                        reader.spec_position() + reader.cursor().bytes.len() == len,
                        start_pos + c2.bytes.len() == len,
                        reader.spec_position() >= start_pos,
                        end_len == c2.bytes.len() - max_offset,
                        0 < max_offset <= 2032,
                        spec_handle_entries(c2, end_len, 0, 0, m0)
                            == spec_handle_entries(reader.cursor(), end_len, last_handle, last_loc, object_map@),
                        match spec_handle_entries(c2, end_len, 0, 0, m0) {
                            Err(e) => spec_handle_map(self.data@) == Err::<Map<u64, i64>, DxfError>(e),
                            Ok(_) => true,
                        },
                    decreases reader.cursor().bytes.len(),
                {
                    let ghost ci = reader.cursor();
                    let offset = reader.read_modular_char()?;
                    let ghost c1 = reader.cursor();
                    let loc = reader.read_signed_modular_char()?;
                    proof {
                        lemma_modular_char_from_moves(ci, 0, 0);
                        lemma_signed_modular_char_from_moves(c1, 0, 0);
                    }
                    last_handle = last_handle.wrapping_add(offset);
                    last_loc = last_loc.wrapping_add(loc);
                    if offset > 0 {
                        object_map.insert(last_handle, last_loc);
                    }
                }
            }
            let _crc_hi = reader.read_byte()?;
            let _crc_lo = reader.read_byte()?;
            proof {
                lemma_handle_entries_moves(c2, end_len, 0, 0, m0);
            }
        }
    }
}

} // verus!
