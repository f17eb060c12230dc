//! Compound values of the DWG bit stream: bit-coded integers and doubles,
//! version-dependent codes and sentinels.
//!
//! Doubles are handed out as their IEEE-754 bit patterns (`u64`); a caller
//! turns one into a float with `f64::from_bits`.

use vstd::prelude::*;
use crate::bit_model::{BitCursor, spec_read_bit, spec_read_2bits, spec_read_byte, spec_read_bytes, lemma_le_value_bound, lemma_pow256_values, spec_read_raw_short, spec_read_raw_long, spec_read_bit_short, spec_read_bit_long, spec_read_bit_long_long, one_bits, spec_read_raw_double, spec_read_bit_double, spec_read_bit_double_with_default};
use crate::bit_model::{be_value, shifted_byte, pbyte, lemma_be_value_bound, max_read_len, i16_of, bits_left, valid_cursor,
    lemma_2bits_progress, spec_next_byte};
use crate::encoding::{TextEncoding, encoding_label, decoded_text, code_page_encoding, encoding_from_code_page};
use crate::error::DxfError;
use crate::reference_type::{DwgReferenceType, HandleReference, reference_type_of, resolved_handle};
use crate::text::{strip_nul, without_nul, lemma_without_nul_has_no_nul};
use crate::stream_reader::{DwgStreamReaderBase, le_of};
use crate::version::{DxfVersion, version_rank};

verus! {

/// A read that may run out of data, with the end of the data as its error.
pub open spec fn or_eof<T>(o: Option<(T, BitCursor)>) -> Result<(T, BitCursor), DxfError> {
    match o {
        Some(x) => Ok(x),
        None => Err(DxfError::UnexpectedEof),
    }
}

/// A BitLong read from `c`, or 0 with the cursor after the two-bit code
/// when it cannot be read.
pub open spec fn spec_bit_long_or_zero(c: BitCursor) -> (int, BitCursor) {
    match spec_read_bit_long(c) {
        Some((n, c2)) => (n, c2),
        None => (0, spec_read_2bits(c).1),
    }
}

/// A raw long can be read exactly when 32 bits are left.
pub proof fn lemma_raw_long_needs_bits(c: BitCursor)
    ensures
        spec_read_raw_long(c) is Some <==> bits_left(c) >= 32,
{
}

/// The error a failed BitLong read reports: the unused code `11`, or the
/// end of the data.
pub open spec fn bit_long_error(c: BitCursor) -> DxfError {
    if spec_read_2bits(c).0 == 3 { DxfError::InvalidBitLong } else { DxfError::UnexpectedEof }
}

/// The error a failed BitDouble read reports: the unused code `11`, or the
/// end of the data.
pub open spec fn bit_double_error(c: BitCursor) -> DxfError {
    if spec_read_2bits(c).0 == 3 { DxfError::InvalidBitDouble } else { DxfError::UnexpectedEof }
}

/// Whether `v` is R2000 or later.
pub open spec fn r2000_plus(v: DxfVersion) -> bool {
    version_rank(v) >= version_rank(DxfVersion::AC1015)
}

/// **OT**: an object type code.  From R2010 on: a two-bit pair, then for
/// `00` one byte, for `01` one byte plus `0x1F0`, otherwise a raw short;
/// before R2010 a BitShort.
pub open spec fn spec_read_object_type(c: BitCursor, v: DxfVersion) -> Option<(int, BitCursor)> {
    if version_rank(v) >= version_rank(DxfVersion::AC1024) {
        let (pair, c1) = spec_read_2bits(c);
        if pair == 0 {
            match spec_read_byte(c1) {
                Some((b, c2)) => Some((b as int, c2)),
                None => None,
            }
        } else if pair == 1 {
            match spec_read_byte(c1) {
                Some((b, c2)) => Some((0x1F0 + b as int, c2)),
                None => None,
            }
        } else {
            spec_read_raw_short(c1)
        }
    } else {
        spec_read_bit_short(c)
    }
}

/// Two BitLongs in a row, with the error of the one that fails.
pub open spec fn spec_bit_long_pair(c: BitCursor) -> Result<((i32, i32), BitCursor), DxfError> {
    match spec_read_bit_long(c) {
        None => Err(bit_long_error(c)),
        Some((a, c1)) => match spec_read_bit_long(c1) {
            None => Err(bit_long_error(c1)),
            Some((b, c2)) => Ok(((a as i32, b as i32), c2)),
        },
    }
}

/// **BD** with its error.
pub open spec fn bit_double_result(c: BitCursor) -> Result<(u64, BitCursor), DxfError> {
    match spec_read_bit_double(c) {
        Some(x) => Ok(x),
        None => Err(bit_double_error(c)),
    }
}

/// **2BD**: two BitDoubles in a row.
pub open spec fn spec_2bit_double(c: BitCursor) -> Result<((u64, u64), BitCursor), DxfError> {
    match bit_double_result(c) {
        Err(e) => Err(e),
        Ok((x, c1)) => match bit_double_result(c1) {
            Err(e) => Err(e),
            Ok((y, c2)) => Ok(((x, y), c2)),
        },
    }
}

/// **3BD**: three BitDoubles in a row.
pub open spec fn spec_3bit_double(c: BitCursor) -> Result<((u64, u64, u64), BitCursor), DxfError> {
    match spec_2bit_double(c) {
        Err(e) => Err(e),
        Ok(((x, y), c1)) => match bit_double_result(c1) {
            Err(e) => Err(e),
            Ok((z, c2)) => Ok(((x, y, z), c2)),
        },
    }
}

/// **2DD**: two BitDoubles with defaults.
pub open spec fn spec_2bit_double_with_default(c: BitCursor, def: (u64, u64)) -> Option<((u64, u64), BitCursor)> {
    match spec_read_bit_double_with_default(c, def.0) {
        None => None,
        Some((x, c1)) => match spec_read_bit_double_with_default(c1, def.1) {
            None => None,
            Some((y, c2)) => Some(((x, y), c2)),
        },
    }
}

/// **3DD**: three BitDoubles with defaults.
pub open spec fn spec_3bit_double_with_default(c: BitCursor, def: (u64, u64, u64)) -> Option<((u64, u64, u64), BitCursor)> {
    match spec_2bit_double_with_default(c, (def.0, def.1)) {
        None => None,
        Some(((x, y), c1)) => match spec_read_bit_double_with_default(c1, def.2) {
            None => None,
            Some((z, c2)) => Some(((x, y, z), c2)),
        },
    }
}

/// **RD** twice and three times: raw doubles in a row.
pub open spec fn spec_raw_doubles(c: BitCursor, n: nat) -> Option<(Seq<u64>, BitCursor)>
    decreases n,
{
    if n == 0 {
        Some((Seq::empty(), c))
    } else {
        match spec_read_raw_double(c) {
            None => None,
            Some((x, c1)) => match spec_raw_doubles(c1, (n - 1) as nat) {
                None => None,
                Some((rest, c2)) => Some((seq![x] + rest, c2)),
            },
        }
    }
}

/// **BE**: a bit extrusion.  From R2000 on a set bit stands for `(0, 0, 1)`
/// and a clear bit is followed by three BitDoubles; before R2000 the
/// three BitDoubles always follow.
pub open spec fn spec_bit_extrusion(c: BitCursor, v: DxfVersion) -> Result<((u64, u64, u64), BitCursor), DxfError> {
    if r2000_plus(v) {
        let (flag, c1) = spec_read_bit(c);
        if flag {
            Ok(((0u64, 0u64, one_bits()), c1))
        } else {
            spec_3bit_double(c1)
        }
    } else {
        spec_3bit_double(c)
    }
}

/// **BT**: a bit thickness.  From R2000 on a set bit stands for `0.0` and
/// a clear bit is followed by a BitDouble; before R2000 the BitDouble
/// always follows.
pub open spec fn spec_read_bit_thickness(c: BitCursor, v: DxfVersion) -> Option<(u64, BitCursor)> {
    if r2000_plus(v) {
        let (flag, c1) = spec_read_bit(c);
        if flag {
            Some((0u64, c1))
        } else {
            spec_read_bit_double(c1)
        }
    } else {
        spec_read_bit_double(c)
    }
}

/// The error a failed bit-extrusion or bit-thickness read reports.
pub open spec fn flagged_double_error(c: BitCursor, v: DxfVersion) -> DxfError {
    if r2000_plus(v) { bit_double_error(spec_read_bit(c).1) } else { bit_double_error(c) }
}

impl DwgStreamReaderBase {
    /// **BS**: read a BitShort.
    pub fn read_bit_short(&mut self) -> (r: Result<i16, DxfError>)
        ensures
            match r {
                Ok(v) => spec_read_bit_short(old(self).cursor()) == Some((v as int, final(self).cursor()))
                    && old(self).moved_to(final(self), final(self).cursor()),
                Err(e) => spec_read_bit_short(old(self).cursor()) is None && e == DxfError::UnexpectedEof
                    && old(self).same_source(final(self)),
            },
    {
        let ghost s0 = *self;
        let code = self.read_2bits()?;
        let ghost s1 = *self;
        if code == 0 {
            let v = self.read_raw_short()?;
            proof { Self::lemma_moved_trans(&s0, &s1, self, s1.cursor(), self.cursor()); }
            Ok(v)
        } else if code == 1 {
            let b = self.next_byte();
            proof { Self::lemma_moved_trans(&s0, &s1, self, s1.cursor(), self.cursor()); }
            Ok(b as i16)
        } else if code == 2 {
            Ok(0)
        } else {
            Ok(256)
        }
    }

    /// **BS** as a flag: whether the BitShort read is not zero.
    pub fn read_bit_short_as_bool(&mut self) -> (r: Result<bool, DxfError>)
        ensures
            match r {
                Ok(b) => spec_read_bit_short(old(self).cursor()) matches Some((v, c)) && b == (v != 0)
                    && c == final(self).cursor() && old(self).moved_to(final(self), c),
                Err(e) => spec_read_bit_short(old(self).cursor()) is None && e == DxfError::UnexpectedEof
                    && old(self).same_source(final(self)),
            },
    {
        let v = self.read_bit_short()?;
        Ok(v != 0)
    }

    /// **BL**: read a BitLong; the unused code `11` fails.
    pub fn read_bit_long(&mut self) -> (r: Result<i32, DxfError>)
        ensures
            match r {
                Ok(v) => spec_read_bit_long(old(self).cursor()) == Some((v as int, final(self).cursor()))
                    && old(self).moved_to(final(self), final(self).cursor()),
                Err(e) => spec_read_bit_long(old(self).cursor()) is None && e == bit_long_error(old(self).cursor())
                    && old(self).same_source(final(self)),
            },
    {
        let ghost s0 = *self;
        let code = self.read_2bits()?;
        let ghost s1 = *self;
        if code == 0 {
            let v = self.read_raw_long()?;
            proof { Self::lemma_moved_trans(&s0, &s1, self, s1.cursor(), self.cursor()); }
            Ok(v)
        } else if code == 1 {
            let b = self.next_byte();
            proof { Self::lemma_moved_trans(&s0, &s1, self, s1.cursor(), self.cursor()); }
            Ok(b as i32)
        } else if code == 2 {
            Ok(0)
        } else {
            Err(DxfError::InvalidBitLong)
        }
    }

    /// **BL**, or 0 when it cannot be read: the reader then goes on after
    /// the two-bit code (see [`spec_bit_long_or_zero`]).
    pub fn read_bit_long_or_zero(&mut self) -> (r: i32)
        ensures
            r as int == spec_bit_long_or_zero(old(self).cursor()).0,
            old(self).moved_to(final(self), spec_bit_long_or_zero(old(self).cursor()).1),
    {
        let ghost s0 = *self;
        let code = match self.read_2bits() {
            Ok(code) => code,
            Err(_) => 0,
        };
        let ghost s1 = *self;
        if code == 0 {
            if self.has_bits(32) {
                proof { lemma_raw_long_needs_bits(self.cursor()); }
                match self.read_raw_long() {
                    Ok(v) => {
                        proof { Self::lemma_moved_trans(&s0, &s1, self, s1.cursor(), self.cursor()); }
                        v
                    },
                    Err(_) => 0,
                }
            } else {
                proof { lemma_raw_long_needs_bits(self.cursor()); }
                0
            }
        } else if code == 1 {
            let b = self.next_byte();
            proof { Self::lemma_moved_trans(&s0, &s1, self, s1.cursor(), self.cursor()); }
            b as i32
        } else {
            0
        }
    }

    /// **BLL**: read a BitLongLong (a three-bit byte count, then the bytes,
    /// little endian).
    pub fn read_bit_long_long(&mut self) -> (r: Result<i64, DxfError>)
        ensures
            match r {
                Ok(v) => spec_read_bit_long_long(old(self).cursor()) == Some((v as int, final(self).cursor()))
                    && old(self).moved_to(final(self), final(self).cursor()),
                Err(e) => spec_read_bit_long_long(old(self).cursor()) is None && e == DxfError::UnexpectedEof
                    && old(self).same_source(final(self)),
            },
    {
        let ghost s0 = *self;
        let size = self.read_3bits()?;
        let ghost s1 = *self;
        let v = self.read_le(size as usize)?;
        proof {
            Self::lemma_moved_trans(&s0, &s1, self, s1.cursor(), self.cursor());
            let bs = spec_read_bytes(s1.cursor(), size as nat).unwrap().0;
            lemma_le_value_bound(bs);
            Self::lemma_pow256_mono(size as nat, 7);
            lemma_pow256_values();
        }
        Ok(v as i64)
    }

    /// **RD**: read a raw double, as its bit pattern.
    pub fn read_raw_double(&mut self) -> (r: Result<u64, DxfError>)
        ensures
            match r {
                Ok(v) => spec_read_raw_double(old(self).cursor()) == Some((v, final(self).cursor()))
                    && old(self).moved_to(final(self), final(self).cursor()),
                Err(e) => spec_read_raw_double(old(self).cursor()) is None && e == DxfError::UnexpectedEof
                    && old(self).same_source(final(self)),
            },
    {
        self.read_le(8)
    }

    /// **BD**: read a BitDouble, as its bit pattern; the unused code `11`
    /// fails.
    pub fn read_bit_double(&mut self) -> (r: Result<u64, DxfError>)
        ensures
            match r {
                Ok(v) => spec_read_bit_double(old(self).cursor()) == Some((v, final(self).cursor()))
                    && old(self).moved_to(final(self), final(self).cursor()),
                Err(e) => spec_read_bit_double(old(self).cursor()) is None && e == bit_double_error(old(self).cursor())
                    && old(self).same_source(final(self)),
            },
    {
        let ghost s0 = *self;
        let code = self.read_2bits()?;
        let ghost s1 = *self;
        if code == 0 {
            let v = self.read_raw_double()?;
            proof { Self::lemma_moved_trans(&s0, &s1, self, s1.cursor(), self.cursor()); }
            Ok(v)
        } else if code == 1 {
            Ok(0x3FF0_0000_0000_0000)
        } else if code == 2 {
            Ok(0)
        } else {
            Err(DxfError::InvalidBitDouble)
        }
    }

    /// **DD**: read a BitDouble with a default, as bit patterns.
    pub fn read_bit_double_with_default(&mut self, def: u64) -> (r: Result<u64, DxfError>)
        ensures
            match r {
                Ok(v) => spec_read_bit_double_with_default(old(self).cursor(), def) == Some((v, final(self).cursor()))
                    && old(self).moved_to(final(self), final(self).cursor()),
                Err(e) => spec_read_bit_double_with_default(old(self).cursor(), def) is None
                    && e == DxfError::UnexpectedEof && old(self).same_source(final(self)),
            },
    {
        let ghost s0 = *self;
        let code = self.read_2bits()?;
        let ghost s1 = *self;
        if code == 0 {
            Ok(def)
        } else if code == 1 {
            let lo = self.patch_bytes(4)?;
            proof { Self::lemma_moved_trans(&s0, &s1, self, s1.cursor(), self.cursor()); }
            let low = le_of(lo.as_slice());
            proof {
                lemma_le_value_bound(lo@);
                lemma_pow256_values();
                assert(def as int / 0x1_0000_0000 * 0x1_0000_0000 + 0x1_0000_0000 <= 0x1_0000_0000_0000_0000)
                    by (nonlinear_arith);
            }
            let high: u64 = def / 0x1_0000_0000 * 0x1_0000_0000;
            Ok(high + low)
        } else if code == 2 {
            let mid = self.patch_bytes(2)?;
            let ghost s2 = *self;
            let lo = self.patch_bytes(4)?;
            proof {
                Self::lemma_moved_trans(&s0, &s1, &s2, s1.cursor(), s2.cursor());
                Self::lemma_moved_trans(&s0, &s2, self, s2.cursor(), self.cursor());
            }
            let m = le_of(mid.as_slice());
            let low = le_of(lo.as_slice());
            proof {
                lemma_le_value_bound(lo@);
                lemma_le_value_bound(mid@);
                lemma_pow256_values();
                assert(def as int / 0x1_0000_0000_0000 * 0x1_0000_0000_0000 + 0x1_0000_0000_0000
                    <= 0x1_0000_0000_0000_0000) by (nonlinear_arith);
            }
            let high: u64 = def / 0x1_0000_0000_0000 * 0x1_0000_0000_0000;
            Ok(high + m * 0x1_0000_0000 + low)
        } else {
            let v = self.read_raw_double()?;
            proof { Self::lemma_moved_trans(&s0, &s1, self, s1.cursor(), self.cursor()); }
            Ok(v)
        }
    }

    /// **2BD**: read two BitDoubles.
    pub fn read_2bit_double(&mut self) -> (r: Result<(u64, u64), DxfError>)
        ensures
            spec_2bit_double(old(self).cursor()) == (match r {
                Ok(v) => Ok((v, final(self).cursor())),
                Err(e) => Err(e),
            }),
            r is Ok ==> old(self).moved_to(final(self), final(self).cursor()),
            old(self).same_source(final(self)),
    {
        let ghost s0 = *self;
        let x = self.read_bit_double()?;
        let ghost s1 = *self;
        let y = self.read_bit_double()?;
        proof { Self::lemma_moved_trans(&s0, &s1, self, s1.cursor(), self.cursor()); }
        Ok((x, y))
    }

    /// **3BD**: read three BitDoubles.
    pub fn read_3bit_double(&mut self) -> (r: Result<(u64, u64, u64), DxfError>)
        ensures
            spec_3bit_double(old(self).cursor()) == (match r {
                Ok(v) => Ok((v, final(self).cursor())),
                Err(e) => Err(e),
            }),
            r is Ok ==> old(self).moved_to(final(self), final(self).cursor()),
            old(self).same_source(final(self)),
    {
        let ghost s0 = *self;
        let (x, y) = self.read_2bit_double()?;
        let ghost s1 = *self;
        let z = self.read_bit_double()?;
        proof { Self::lemma_moved_trans(&s0, &s1, self, s1.cursor(), self.cursor()); }
        Ok((x, y, z))
    }

    /// **2DD**: read two BitDoubles with defaults.
    pub fn read_2bit_double_with_default(&mut self, def: (u64, u64)) -> (r: Result<(u64, u64), DxfError>)
        ensures
            match r {
                Ok(v) => spec_2bit_double_with_default(old(self).cursor(), def) == Some((v, final(self).cursor()))
                    && old(self).moved_to(final(self), final(self).cursor()),
                Err(e) => spec_2bit_double_with_default(old(self).cursor(), def) is None
                    && e == DxfError::UnexpectedEof && old(self).same_source(final(self)),
            },
    {
        let ghost s0 = *self;
        let x = self.read_bit_double_with_default(def.0)?;
        let ghost s1 = *self;
        let y = self.read_bit_double_with_default(def.1)?;
        proof { Self::lemma_moved_trans(&s0, &s1, self, s1.cursor(), self.cursor()); }
        Ok((x, y))
    }

    /// **3DD**: read three BitDoubles with defaults.
    pub fn read_3bit_double_with_default(&mut self, def: (u64, u64, u64)) -> (r: Result<(u64, u64, u64), DxfError>)
        ensures
            match r {
                Ok(v) => spec_3bit_double_with_default(old(self).cursor(), def) == Some((v, final(self).cursor()))
                    && old(self).moved_to(final(self), final(self).cursor()),
                Err(e) => spec_3bit_double_with_default(old(self).cursor(), def) is None
                    && e == DxfError::UnexpectedEof && old(self).same_source(final(self)),
            },
    {
        let ghost s0 = *self;
        let (x, y) = self.read_2bit_double_with_default((def.0, def.1))?;
        let ghost s1 = *self;
        let z = self.read_bit_double_with_default(def.2)?;
        proof { Self::lemma_moved_trans(&s0, &s1, self, s1.cursor(), self.cursor()); }
        Ok((x, y, z))
    }

    /// **2RD**: read two raw doubles.
    pub fn read_2raw_double(&mut self) -> (r: Result<(u64, u64), DxfError>)
        ensures
            match r {
                Ok((x, y)) => spec_raw_doubles(old(self).cursor(), 2) == Some((seq![x, y], final(self).cursor()))
                    && old(self).moved_to(final(self), final(self).cursor()),
                Err(e) => spec_raw_doubles(old(self).cursor(), 2) is None
                    && e == DxfError::UnexpectedEof && old(self).same_source(final(self)),
            },
    {
        proof { reveal_with_fuel(spec_raw_doubles, 3); }
        let ghost s0 = *self;
        let x = self.read_raw_double()?;
        let ghost s1 = *self;
        let y = self.read_raw_double()?;
        proof {
            Self::lemma_moved_trans(&s0, &s1, self, s1.cursor(), self.cursor());
            assert(seq![x] + (seq![y] + Seq::<u64>::empty()) =~= seq![x, y]);
        }
        Ok((x, y))
    }

    /// **3RD**: read three raw doubles.
    pub fn read_3raw_double(&mut self) -> (r: Result<(u64, u64, u64), DxfError>)
        ensures
            match r {
                Ok((x, y, z)) => spec_raw_doubles(old(self).cursor(), 3) == Some((seq![x, y, z], final(self).cursor()))
                    && old(self).moved_to(final(self), final(self).cursor()),
                Err(e) => spec_raw_doubles(old(self).cursor(), 3) is None
                    && e == DxfError::UnexpectedEof && old(self).same_source(final(self)),
            },
    {
        proof { reveal_with_fuel(spec_raw_doubles, 4); }
        let ghost s0 = *self;
        let x = self.read_raw_double()?;
        let ghost s1 = *self;
        let y = self.read_raw_double()?;
        proof { Self::lemma_moved_trans(&s0, &s1, self, s1.cursor(), self.cursor()); }
        let ghost s2 = *self;
        let z = self.read_raw_double()?;
        proof {
            Self::lemma_moved_trans(&s0, &s2, self, s2.cursor(), self.cursor());
            assert(seq![x] + (seq![y] + (seq![z] + Seq::<u64>::empty())) =~= seq![x, y, z]);
        }
        Ok((x, y, z))
    }

    /// **BE**: read a bit extrusion, as three bit patterns.
    pub fn read_bit_extrusion(&mut self) -> (r: Result<(u64, u64, u64), DxfError>)
        ensures
            spec_bit_extrusion(old(self).cursor(), old(self).spec_version()) == (match r {
                Ok(v) => Ok((v, final(self).cursor())),
                Err(e) => Err(e),
            }),
            r is Ok ==> old(self).moved_to(final(self), final(self).cursor()),
            old(self).same_source(final(self)),
    {
        let ghost s0 = *self;
        if self.version().at_least(DxfVersion::AC1015) {
            let flag = self.read_bit()?;
            if flag {
                return Ok((0, 0, 0x3FF0_0000_0000_0000));
            }
            let ghost s1 = *self;
            let v = self.read_3bit_double();
            proof { if v is Ok { Self::lemma_moved_trans(&s0, &s1, self, s1.cursor(), self.cursor()); } }
            v
        } else {
            self.read_3bit_double()
        }
    }

    /// **BT**: read a bit thickness, as a bit pattern.
    pub fn read_bit_thickness(&mut self) -> (r: Result<u64, DxfError>)
        ensures
            match r {
                Ok(v) => spec_read_bit_thickness(old(self).cursor(), old(self).spec_version())
                    == Some((v, final(self).cursor())) && old(self).moved_to(final(self), final(self).cursor()),
                Err(e) => spec_read_bit_thickness(old(self).cursor(), old(self).spec_version()) is None
                    && e == flagged_double_error(old(self).cursor(), old(self).spec_version())
                    && old(self).same_source(final(self)),
            },
    {
        let ghost s0 = *self;
        if self.version().at_least(DxfVersion::AC1015) {
            let flag = self.read_bit()?;
            if flag {
                return Ok(0);
            }
            let ghost s1 = *self;
            let v = self.read_bit_double()?;
            proof { Self::lemma_moved_trans(&s0, &s1, self, s1.cursor(), self.cursor()); }
            Ok(v)
        } else {
            self.read_bit_double()
        }
    }

    /// **OT**: read an object type code.
    pub fn read_object_type(&mut self) -> (r: Result<i16, DxfError>)
        ensures
            match r {
                Ok(v) => spec_read_object_type(old(self).cursor(), old(self).spec_version())
                    == Some((v as int, final(self).cursor())) && old(self).moved_to(final(self), final(self).cursor()),
                Err(e) => spec_read_object_type(old(self).cursor(), old(self).spec_version()) is None
                    && e == DxfError::UnexpectedEof && old(self).same_source(final(self)),
            },
    {
        let ghost s0 = *self;
        if self.version().at_least(DxfVersion::AC1024) {
            let pair = self.read_2bits()?;
            let ghost s1 = *self;
            let v: i16 = if pair == 0 {
                self.read_byte()? as i16
            } else if pair == 1 {
                0x1F0 + self.read_byte()? as i16
            } else {
                self.read_raw_short()?
            };
            proof { Self::lemma_moved_trans(&s0, &s1, self, s1.cursor(), self.cursor()); }
            Ok(v)
        } else {
            self.read_bit_short()
        }
    }

    /// Read an eight-byte Julian date: the day number and the milliseconds
    /// into that day, two raw longs.
    pub fn read_8bit_julian_date(&mut self) -> (r: Result<(i32, i32), DxfError>)
        ensures
            match r {
                Ok((d, ms)) => spec_read_raw_long(old(self).cursor()) matches Some((d2, c1))
                    && spec_read_raw_long(c1) == Some((ms as int, final(self).cursor()))
                    && d == d2 && old(self).moved_to(final(self), final(self).cursor()),
                Err(e) => (spec_read_raw_long(old(self).cursor()) is None
                    || spec_read_raw_long(spec_read_raw_long(old(self).cursor()).unwrap().1) is None)
                    && e == DxfError::UnexpectedEof && old(self).same_source(final(self)),
            },
    {
        let ghost s0 = *self;
        let day = self.read_raw_long()?;
        let ghost s1 = *self;
        let ms = self.read_raw_long()?;
        proof { Self::lemma_moved_trans(&s0, &s1, self, s1.cursor(), self.cursor()); }
        Ok((day, ms))
    }

    /// Read a date and time: the Julian day and the milliseconds into that
    /// day, two BitLongs.
    pub fn read_date_time(&mut self) -> (r: Result<(i32, i32), DxfError>)
        ensures
            spec_bit_long_pair(old(self).cursor()) == (match r {
                Ok(v) => Ok((v, final(self).cursor())),
                Err(e) => Err(e),
            }),
            r is Ok ==> old(self).moved_to(final(self), final(self).cursor()),
            old(self).same_source(final(self)),
    {
        self.read_bit_long_pair()
    }

    /// Read a time span: the hours and the milliseconds, two BitLongs.
    pub fn read_time_span(&mut self) -> (r: Result<(i32, i32), DxfError>)
        ensures
            spec_bit_long_pair(old(self).cursor()) == (match r {
                Ok(v) => Ok((v, final(self).cursor())),
                Err(e) => Err(e),
            }),
            r is Ok ==> old(self).moved_to(final(self), final(self).cursor()),
            old(self).same_source(final(self)),
    {
        self.read_bit_long_pair()
    }

    /// Read two BitLongs.
    fn read_bit_long_pair(&mut self) -> (r: Result<(i32, i32), DxfError>)
        ensures
            spec_bit_long_pair(old(self).cursor()) == (match r {
                Ok(v) => Ok((v, final(self).cursor())),
                Err(e) => Err(e),
            }),
            r is Ok ==> old(self).moved_to(final(self), final(self).cursor()),
            old(self).same_source(final(self)),
    {
        let ghost s0 = *self;
        let a = self.read_bit_long()?;
        let ghost s1 = *self;
        let b = self.read_bit_long()?;
        proof { Self::lemma_moved_trans(&s0, &s1, self, s1.cursor(), self.cursor()); }
        Ok((a, b))
    }

    /// Read a 16-byte section sentinel.
    pub fn read_sentinel(&mut self) -> (r: Result<[u8; 16], DxfError>)
        ensures
            match r {
                Ok(s) => spec_read_bytes(old(self).cursor(), 16) == Some((s@, final(self).cursor()))
                    && old(self).moved_to(final(self), final(self).cursor()),
                Err(e) => spec_read_bytes(old(self).cursor(), 16) is None && e == DxfError::UnexpectedEof
                    && old(self).same_source(final(self)),
            },
    {
        let b = self.read_bytes(16)?;
        let s: [u8; 16] = [b[0], b[1], b[2], b[3], b[4], b[5], b[6], b[7],
            b[8], b[9], b[10], b[11], b[12], b[13], b[14], b[15]];
        assert(s@ =~= b@);
        Ok(s)
    }
}

/// **MC**: the groups of a modular char from the `i`-th on, OR-ed into
/// `acc`.  Each byte gives its low seven bits at bit `7 i` of a 64-bit
/// word; a byte with the high bit clear is the last one.  Ten groups fill
/// the word, and a longer char is refused.
pub open spec fn spec_modular_char_from(c: BitCursor, i: nat, acc: u64) -> Result<(u64, BitCursor), DxfError>
    decreases 10 - i,
{
    if i >= 10 {
        Err(DxfError::InvalidFormat)
    } else {
        match spec_read_byte(c) {
            None => Err(DxfError::UnexpectedEof),
            Some((b, c1)) => {
                let v = acc | (((b & 0x7f) as u64) << ((7 * i) as u64));
                if b & 0x80 == 0 {
                    Ok((v, c1))
                } else {
                    spec_modular_char_from(c1, i + 1, v)
                }
            },
        }
    }
}

/// **MC**: an unsigned modular char.
pub open spec fn spec_read_modular_char(c: BitCursor) -> Result<(u64, BitCursor), DxfError> {
    spec_modular_char_from(c, 0, 0)
}

/// A modular char is read byte by byte: it keeps the bit shift.
pub proof fn lemma_modular_char_shift(c: BitCursor, i: nat, acc: u64)
    ensures
        spec_modular_char_from(c, i, acc) matches Ok((_, c1)) ==> c1.shift == c.shift,
    decreases 10 - i,
{
    if i < 10 {
        if let Some((b, c1)) = spec_read_byte(c) {
            let v = acc | (((b & 0x7f) as u64) << ((7 * i) as u64));
            lemma_modular_char_shift(c1, i + 1, v);
        }
    }
}

/// A modular short is read byte by byte: it keeps the bit shift.
pub proof fn lemma_modular_short_shift(c: BitCursor)
    ensures
        spec_read_modular_short(c) matches Ok((_, c1)) ==> c1.shift == c.shift,
{
}

/// **MC** (signed): the groups from the `i`-th on, OR-ed into `acc`.  The
/// last byte (high bit clear) gives six bits, and its bit `0x40` negates
/// the value; the value `i64::MIN` cannot be negated and is refused, as is
/// a char of more than ten groups.
pub open spec fn spec_signed_modular_char_from(c: BitCursor, i: nat, acc: u64) -> Result<(i64, BitCursor), DxfError>
    decreases 10 - i,
{
    if i >= 10 {
        Err(DxfError::InvalidFormat)
    } else {
        match spec_read_byte(c) {
            None => Err(DxfError::UnexpectedEof),
            Some((b, c1)) => {
                if b & 0x80 != 0 {
                    spec_signed_modular_char_from(c1, i + 1, acc | (((b & 0x7f) as u64) << ((7 * i) as u64)))
                } else {
                    let v = (acc | (((b & 0x3f) as u64) << ((7 * i) as u64))) as i64;
                    if b & 0x40 == 0 {
                        Ok((v, c1))
                    } else if v == i64::MIN {
                        Err(DxfError::InvalidFormat)
                    } else {
                        Ok(((-v) as i64, c1))
                    }
                }
            },
        }
    }
}

/// **MC** (signed): a signed modular char.
pub open spec fn spec_read_signed_modular_char(c: BitCursor) -> Result<(i64, BitCursor), DxfError> {
    spec_signed_modular_char_from(c, 0, 0)
}

/// **MS**: a modular short: pairs of bytes, little endian, each pair giving
/// 15 bits (the high bit of its second byte says that a pair follows).
/// Two pairs fill 32 bits; a third is refused.
pub open spec fn spec_read_modular_short(c: BitCursor) -> Result<(i32, BitCursor), DxfError> {
    match spec_read_byte(c) {
        None => Err(DxfError::UnexpectedEof),
        Some((b1, c1)) => match spec_read_byte(c1) {
            None => Err(DxfError::UnexpectedEof),
            Some((b2, c2)) => {
                let v = b1 as int + (b2 & 0x7f) as int * 0x100;
                if b2 & 0x80 == 0 {
                    Ok((v as i32, c2))
                } else {
                    match spec_read_byte(c2) {
                        None => Err(DxfError::UnexpectedEof),
                        Some((b3, c3)) => match spec_read_byte(c3) {
                            None => Err(DxfError::UnexpectedEof),
                            Some((b4, c4)) => if b4 & 0x80 == 0 {
                                Ok(((v + b3 as int * 0x8000 + (b4 & 0x7f) as int * 0x80_0000) as i32, c4))
                            } else {
                                Err(DxfError::InvalidFormat)
                            },
                        },
                    }
                }
            },
        },
    }
}

/// The `n` bytes of a handle value, big endian; at most eight.
pub open spec fn spec_read_handle_bytes(c: BitCursor, n: nat) -> Result<(u64, BitCursor), DxfError> {
    if n > 8 {
        Err(DxfError::HandleTooLong(n as usize))
    } else {
        match spec_read_bytes(c, n) {
            Some((bs, c1)) => Ok((be_value(bs) as u64, c1)),
            None => Err(DxfError::UnexpectedEof),
        }
    }
}

/// **H**: a handle reference, resolved against `reference`.  A byte gives
/// the code (high four bits) and the byte count (low four bits).  Codes 0
/// to 5 are followed by the absolute handle, 6 and 8 stand for the
/// reference plus or minus one (no bytes follow), 0xA and 0xC are followed
/// by an offset added to or taken from the reference; other codes are
/// refused.
pub open spec fn spec_handle_reference(c: BitCursor, reference: u64)
    -> Result<((u64, DwgReferenceType), BitCursor), DxfError>
{
    match spec_read_byte(c) {
        None => Err(DxfError::UnexpectedEof),
        Some((form, c1)) => {
            let code = (form / 16) as u8;
            let counter = (form % 16) as nat;
            let t = reference_type_of(code);
            if code <= 5 {
                match spec_read_handle_bytes(c1, counter) {
                    Ok((h, c2)) => Ok(((h, t), c2)),
                    Err(e) => Err(e),
                }
            } else if code == 6 || code == 8 {
                Ok(((resolved_handle(code, 0, reference), t), c1))
            } else if code == 0xA || code == 0xC {
                match spec_read_handle_bytes(c1, counter) {
                    Ok((off, c2)) => Ok(((resolved_handle(code, off, reference), t), c2)),
                    Err(e) => Err(e),
                }
            } else {
                Err(DxfError::InvalidReferenceCode(code))
            }
        },
    }
}

/// A text of `n` bytes in `enc`, without its NUL characters when `strip`
/// holds; a negative count is refused as too large.
pub open spec fn spec_read_text_bytes(c: BitCursor, n: int, enc: TextEncoding, strip: bool)
    -> Result<(Seq<char>, BitCursor), DxfError>
{
    if n < 0 || n > max_read_len() {
        Err(DxfError::ReadTooLarge)
    } else {
        match spec_read_bytes(c, n as nat) {
            None => Err(DxfError::UnexpectedEof),
            Some((bs, c1)) => {
                let t = decoded_text(encoding_label(enc), bs);
                Ok((if strip { without_nul(t) } else { t }, c1))
            },
        }
    }
}

/// Before R2007, a variable text that is not empty, read from a valid
/// cursor, leaves fewer bytes unread.
pub proof fn lemma_text_progress(c: BitCursor, v: DxfVersion, enc: TextEncoding)
    requires
        valid_cursor(c),
        !r2007_plus(v),
        spec_read_variable_text(c, v, enc) matches Ok((t, c2)) && t.len() > 0,
    ensures
        spec_read_variable_text(c, v, enc) matches Ok((t, c2)) && c2.bytes.len() < c.bytes.len(),
{
    lemma_2bits_progress(c);
    let (code, c1) = spec_read_2bits(c);
    if c.bytes.len() == 1 && c.shift == 7 {
        assert(bits_left(c1) == 7);
    }
    if code == 1 {
        let (b, c2) = spec_next_byte(c1);
        if c1.shift > 0 && c1.bytes.len() < 2 {
            assert(bits_left(c2) < 8);
        }
    }
}

/// Whether `v` is R2007 or later (text is UTF-16).
pub open spec fn r2007_plus(v: DxfVersion) -> bool {
    version_rank(v) >= version_rank(DxfVersion::AC1021)
}

/// **TV**: a variable text.  A BitShort count `t` follows; zero is the
/// empty text.  From R2007 on the text is UTF-16LE of `2 t` bytes (the
/// doubled count taken as a 16-bit value); before, `t` bytes in the
/// reader's code page.  NUL characters are dropped.
pub open spec fn spec_read_variable_text(c: BitCursor, v: DxfVersion, enc: TextEncoding)
    -> Result<(Seq<char>, BitCursor), DxfError>
{
    match spec_read_bit_short(c) {
        None => Err(DxfError::UnexpectedEof),
        Some((t, c1)) => if t == 0 {
            Ok((Seq::empty(), c1))
        } else if r2007_plus(v) {
            spec_read_text_bytes(c1, i16_of(2 * t), TextEncoding::Utf16Le, true)
        } else {
            spec_read_text_bytes(c1, t, enc, true)
        },
    }
}

/// **TU**: a Unicode text.  A raw short count `t` follows; from R2007 on
/// the text is UTF-16LE of `2 t` bytes without NUL characters; before, a
/// code-page byte follows and the text is `t` bytes in that code page.
/// A zero count is the empty text.
pub open spec fn spec_read_text_unicode(c: BitCursor, v: DxfVersion) -> Result<(Seq<char>, BitCursor), DxfError> {
    match spec_read_raw_short(c) {
        None => Err(DxfError::UnexpectedEof),
        Some((t, c1)) => if r2007_plus(v) {
            if t == 0 {
                Ok((Seq::empty(), c1))
            } else {
                spec_read_text_bytes(c1, i16_of(2 * t), TextEncoding::Utf16Le, true)
            }
        } else {
            match spec_read_byte(c1) {
                None => Err(DxfError::UnexpectedEof),
                Some((key, c2)) => if t == 0 {
                    Ok((Seq::empty(), c2))
                } else {
                    spec_read_text_bytes(c2, t, code_page_encoding(key), false)
                },
            }
        },
    }
}

/// A variable text never holds a NUL character: the reader drops them.
pub proof fn lemma_variable_text_has_no_nul(c: BitCursor, v: DxfVersion, enc: TextEncoding)
    ensures
        spec_read_variable_text(c, v, enc) matches Ok((s, _)) ==> forall|i: int| 0 <= i < s.len() ==> s[i] != '\0',
{
    if let Some((t, c1)) = spec_read_bit_short(c) {
        if t != 0 {
            if r2007_plus(v) {
                if let Some((bs, _)) = spec_read_bytes(c1, i16_of(2 * t) as nat) {
                    lemma_without_nul_has_no_nul(decoded_text(encoding_label(TextEncoding::Utf16Le), bs));
                }
            } else {
                if let Some((bs, _)) = spec_read_bytes(c1, t as nat) {
                    lemma_without_nul_has_no_nul(decoded_text(encoding_label(enc), bs));
                }
            }
        }
    }
}

/// A modular char of one byte (high bit clear) is that byte.
pub proof fn lemma_single_byte_modular_char(c: BitCursor)
    requires
        spec_read_byte(c) matches Some((b, _)) && b < 0x80,
    ensures
        spec_read_modular_char(c) == Ok::<(u64, BitCursor), DxfError>((spec_read_byte(c).unwrap().0 as u64,
            spec_read_byte(c).unwrap().1)),
{
    let b = spec_read_byte(c).unwrap().0;
    assert(b < 0x80 ==> (0u64 | (((b & 0x7f) as u64) << 0u64)) == b as u64 && b & 0x80 == 0) by (bit_vector);
}

/// A signed modular char of one byte (high bit clear) is its low six
/// bits, negated when bit `0x40` is set.
pub proof fn lemma_single_byte_signed_modular_char(c: BitCursor)
    requires
        spec_read_byte(c) matches Some((b, _)) && b < 0x80,
    ensures
        ({
            let (b, c1) = spec_read_byte(c).unwrap();
            let m = (b % 0x40) as int;
            spec_read_signed_modular_char(c) == Ok::<(i64, BitCursor), DxfError>(((if b >= 0x40 { -m } else { m }) as i64, c1))
        }),
{
    let b = spec_read_byte(c).unwrap().0;
    assert(b < 0x80 ==> ((0u64 | (((b & 0x3f) as u64) << 0u64)) as i64) == (b % 0x40) as i64 && b & 0x80 == 0
        && ((b & 0x40 == 0) == (b < 0x40))) by (bit_vector);
}

/// The 16-bit value of twice `t`.
fn doubled_i16(t: i16) -> (r: i32)
    ensures
        r == i16_of(2 * t),
{
    let d: i32 = 2 * (t as i32);
    if d >= 0x8000 {
        d - 0x1_0000
    } else if d < -0x8000 {
        d + 0x1_0000
    } else {
        d
    }
}

/// The big-endian value of at most eight bytes.
fn be_of(bytes: &[u8]) -> (r: u64)
    requires
        bytes@.len() <= 8,
    ensures
        r as nat == be_value(bytes@),
{
    let n = bytes.len();
    let mut v: u64 = 0;
    let mut i: usize = 0;
    proof {
        assert(bytes@.take(0) =~= Seq::<u8>::empty());
    }
    while i < n
        invariant
            i <= n,
            n <= 8,
            bytes@.len() == n,
            v as nat == be_value(bytes@.take(i as int)),
        decreases n - i,
    {
        proof {
            lemma_be_value_bound(bytes@.take(i as int));
            lemma_pow256_values();
            DwgStreamReaderBase::lemma_pow256_mono(i as nat, 7);
            assert(bytes@.take(i + 1).drop_last() =~= bytes@.take(i as int));
        }
        v = v * 256 + bytes[i] as u64;
        i = i + 1;
    }
    proof {
        assert(bytes@.take(n as int) =~= bytes@);
    }
    v
}

impl DwgStreamReaderBase {
    /// **MC**: read an unsigned modular char.
    pub fn read_modular_char(&mut self) -> (r: Result<u64, DxfError>)
        ensures
            spec_read_modular_char(old(self).cursor()) == (match r {
                Ok(v) => Ok((v, final(self).cursor())),
                Err(e) => Err(e),
            }),
            r is Ok ==> old(self).moved_to(final(self), final(self).cursor()),
            old(self).same_source(final(self)),
    {
        let ghost s0 = *self;
        let b0 = self.read_byte()?;
        let mut value: u64 = (b0 & 0x7f) as u64;
        proof {
            assert((0u64 | (((b0 & 0x7f) as u64) << 0u64)) == ((b0 & 0x7f) as u64)) by (bit_vector);
        }
        if b0 & 0x80 == 0 {
            return Ok(value);
        }
        let mut i: u64 = 1;
        loop
            invariant
                1 <= i <= 10,
                s0 == *old(self),
                s0.moved_to(self, self.cursor()),
                spec_read_modular_char(s0.cursor()) == spec_modular_char_from(self.cursor(), i as nat, value),
            decreases 10 - i,
        {
            if i == 10 {
                return Err(DxfError::InvalidFormat);
            }
            let ghost mid = *self;
            let b = self.read_byte()?;
            proof { Self::lemma_moved_trans(&s0, &mid, self, mid.cursor(), self.cursor()); }
            value = value | (((b & 0x7f) as u64) << (7 * i));
            if b & 0x80 == 0 {
                return Ok(value);
            }
            i = i + 1;
        }
    }

    /// **MC** (signed): read a signed modular char.
    pub fn read_signed_modular_char(&mut self) -> (r: Result<i64, DxfError>)
        ensures
            spec_read_signed_modular_char(old(self).cursor()) == (match r {
                Ok(v) => Ok((v, final(self).cursor())),
                Err(e) => Err(e),
            }),
            r is Ok ==> old(self).moved_to(final(self), final(self).cursor()),
            old(self).same_source(final(self)),
    {
        let ghost s0 = *self;
        let mut acc: u64 = 0;
        let mut i: u64 = 0;
        loop
            invariant
                i <= 10,
                s0 == *old(self),
                i == 0 ==> *self == s0,
                i > 0 ==> s0.moved_to(self, self.cursor()),
                s0.same_source(self),
                spec_read_signed_modular_char(s0.cursor()) == spec_signed_modular_char_from(self.cursor(), i as nat, acc),
            decreases 10 - i,
        {
            if i == 10 {
                return Err(DxfError::InvalidFormat);
            }
            let ghost mid = *self;
            let b = self.read_byte()?;
            proof {
                if i > 0 {
                    Self::lemma_moved_trans(&s0, &mid, self, mid.cursor(), self.cursor());
                }
            }
            if b & 0x80 != 0 {
                acc = acc | (((b & 0x7f) as u64) << (7 * i));
                i = i + 1;
            } else {
                let v = #[verifier::truncate] ((acc | (((b & 0x3f) as u64) << (7 * i))) as i64);
                if b & 0x40 == 0 {
                    return Ok(v);
                } else if v == i64::MIN {
                    return Err(DxfError::InvalidFormat);
                } else {
                    return Ok(-v);
                }
            }
        }
    }

    /// **MS**: read a modular short.
    pub fn read_modular_short(&mut self) -> (r: Result<i32, DxfError>)
        ensures
            spec_read_modular_short(old(self).cursor()) == (match r {
                Ok(v) => Ok((v, final(self).cursor())),
                Err(e) => Err(e),
            }),
            r is Ok ==> old(self).moved_to(final(self), final(self).cursor()),
            old(self).same_source(final(self)),
    {
        let ghost s0 = *self;
        let b1 = self.read_byte()?;
        let ghost s1 = *self;
        let b2 = self.read_byte()?;
        proof {
            Self::lemma_moved_trans(&s0, &s1, self, s1.cursor(), self.cursor());
            assert((b2 & 0x7f) <= 0x7f) by (bit_vector);
        }
        let v: u32 = b1 as u32 + ((b2 & 0x7f) as u32) * 0x100;
        if b2 & 0x80 == 0 {
            return Ok(v as i32);
        }
        let ghost s2 = *self;
        let b3 = self.read_byte()?;
        let ghost s3 = *self;
        let b4 = self.read_byte()?;
        proof {
            Self::lemma_moved_trans(&s0, &s2, &s3, s2.cursor(), s3.cursor());
            Self::lemma_moved_trans(&s0, &s3, self, s3.cursor(), self.cursor());
            assert((b4 & 0x7f) <= 0x7f) by (bit_vector);
        }
        if b4 & 0x80 == 0 {
            Ok((v + (b3 as u32) * 0x8000 + ((b4 & 0x7f) as u32) * 0x80_0000) as i32)
        } else {
            Err(DxfError::InvalidFormat)
        }
    }

    /// Read the `length` bytes of a handle value, big endian.
    fn read_handle_bytes(&mut self, length: usize) -> (r: Result<u64, DxfError>)
        ensures
            spec_read_handle_bytes(old(self).cursor(), length as nat) == (match r {
                Ok(v) => Ok((v, final(self).cursor())),
                Err(e) => Err(e),
            }),
            r is Ok ==> old(self).moved_to(final(self), final(self).cursor()),
            old(self).same_source(final(self)),
    {
        if length > 8 {
            return Err(DxfError::HandleTooLong(length));
        }
        let bytes = self.read_bytes(length)?;
        Ok(be_of(bytes.as_slice()))
    }

    /// **H**: read a handle reference and resolve it against
    /// `reference_handle`; also gives the reference type of its code.
    pub fn handle_reference_typed(&mut self, reference_handle: u64) -> (r: Result<(u64, DwgReferenceType), DxfError>)
        ensures
            spec_handle_reference(old(self).cursor(), reference_handle) == (match r {
                Ok(v) => Ok((v, final(self).cursor())),
                Err(e) => Err(e),
            }),
            r is Ok ==> old(self).moved_to(final(self), final(self).cursor()),
            old(self).same_source(final(self)),
    {
        let ghost s0 = *self;
        let form = self.read_byte()?;
        let ghost s1 = *self;
        let code = form >> 4;
        let counter = form & 0x0F;
        proof {
            assert(form >> 4u8 == form / 16) by (bit_vector);
            assert(form & 0x0Fu8 == form % 16) by (bit_vector);
        }
        let reference = match DwgReferenceType::from_code(code) {
            Some(t) => t,
            None => DwgReferenceType::Undefined,
        };
        if code <= 5 {
            let h = self.read_handle_bytes(counter as usize)?;
            proof { Self::lemma_moved_trans(&s0, &s1, self, s1.cursor(), self.cursor()); }
            Ok((h, reference))
        } else if code == 6 || code == 8 {
            Ok((HandleReference::new(code, counter, 0).resolve(reference_handle), reference))
        } else if code == 0xA || code == 0xC {
            let offset = self.read_handle_bytes(counter as usize)?;
            proof { Self::lemma_moved_trans(&s0, &s1, self, s1.cursor(), self.cursor()); }
            Ok((HandleReference::new(code, counter, offset).resolve(reference_handle), reference))
        } else {
            Err(DxfError::InvalidReferenceCode(code))
        }
    }

    /// **H**: read a handle reference, resolved against `reference_handle`.
    pub fn handle_reference_resolved(&mut self, reference_handle: u64) -> (r: Result<u64, DxfError>)
        ensures
            match r {
                Ok(h) => spec_handle_reference(old(self).cursor(), reference_handle) matches Ok(((h2, _), c))
                    && h == h2 && c == final(self).cursor() && old(self).moved_to(final(self), c),
                Err(e) => spec_handle_reference(old(self).cursor(), reference_handle) == Err::<((u64, DwgReferenceType), BitCursor), DxfError>(e),
            },
            old(self).same_source(final(self)),
    {
        let (h, _) = self.handle_reference_typed(reference_handle)?;
        Ok(h)
    }

    /// **H**: read a handle reference, resolved against the handle 0.
    pub fn handle_reference(&mut self) -> (r: Result<u64, DxfError>)
        ensures
            match r {
                Ok(h) => spec_handle_reference(old(self).cursor(), 0) matches Ok(((h2, _), c))
                    && h == h2 && c == final(self).cursor() && old(self).moved_to(final(self), c),
                Err(e) => spec_handle_reference(old(self).cursor(), 0) == Err::<((u64, DwgReferenceType), BitCursor), DxfError>(e),
            },
            old(self).same_source(final(self)),
    {
        self.handle_reference_resolved(0)
    }

    /// Read `n` bytes of text in `enc`, dropping NUL characters when
    /// `strip` holds; a negative count is refused.
    pub(crate) fn read_text_bytes(&mut self, n: i32, enc: TextEncoding, strip: bool) -> (r: Result<String, DxfError>)
        ensures
            spec_read_text_bytes(old(self).cursor(), n as int, enc, strip) == (match r {
                Ok(s) => Ok((s@, final(self).cursor())),
                Err(e) => Err(e),
            }),
            r is Ok ==> old(self).moved_to(final(self), final(self).cursor()),
            old(self).same_source(final(self)),
    {
        if n < 0 {
            return Err(DxfError::ReadTooLarge);
        }
        let bytes = self.read_bytes(n as usize)?;
        let s = enc.decode(bytes.as_slice());
        if strip {
            Ok(strip_nul(&s))
        } else {
            Ok(s)
        }
    }

    /// **TV**: read a variable text.
    pub fn read_variable_text(&mut self) -> (r: Result<String, DxfError>)
        ensures
            spec_read_variable_text(old(self).cursor(), old(self).spec_version(), old(self).spec_encoding()) == (match r {
                Ok(s) => Ok((s@, final(self).cursor())),
                Err(e) => Err(e),
            }),
            r is Ok ==> old(self).moved_to(final(self), final(self).cursor()),
            old(self).same_source(final(self)),
    {
        let ghost s0 = *self;
        let t = self.read_bit_short()?;
        let ghost s1 = *self;
        if t == 0 {
            return Ok(String::new());
        }
        let r = if self.version().at_least(DxfVersion::AC1021) {
            let n = doubled_i16(t);
            self.read_text_bytes(n, TextEncoding::Utf16Le, true)
        } else {
            let enc = self.encoding();
            self.read_text_bytes(t as i32, enc, true)
        };
        proof {
            if r is Ok {
                Self::lemma_moved_trans(&s0, &s1, self, s1.cursor(), self.cursor());
            }
        }
        r
    }

    /// **TU**: read a Unicode text.
    pub fn read_text_unicode(&mut self) -> (r: Result<String, DxfError>)
        ensures
            spec_read_text_unicode(old(self).cursor(), old(self).spec_version()) == (match r {
                Ok(s) => Ok((s@, final(self).cursor())),
                Err(e) => Err(e),
            }),
            r is Ok ==> old(self).moved_to(final(self), final(self).cursor()),
            old(self).same_source(final(self)),
    {
        let ghost s0 = *self;
        let t = self.read_raw_short()?;
        let ghost s1 = *self;
        if self.version().at_least(DxfVersion::AC1021) {
            if t == 0 {
                return Ok(String::new());
            }
            let n = doubled_i16(t);
            let r = self.read_text_bytes(n, TextEncoding::Utf16Le, true);
            proof {
                if r is Ok {
                    Self::lemma_moved_trans(&s0, &s1, self, s1.cursor(), self.cursor());
                }
            }
            r
        } else {
            let key = self.read_byte()?;
            let ghost s2 = *self;
            proof { Self::lemma_moved_trans(&s0, &s1, &s2, s1.cursor(), s2.cursor()); }
            if t == 0 {
                return Ok(String::new());
            }
            let enc = encoding_from_code_page(key);
            let r = self.read_text_bytes(t as i32, enc, false);
            proof {
                if r is Ok {
                    Self::lemma_moved_trans(&s0, &s2, self, s2.cursor(), self.cursor());
                }
            }
            r
        }
    }
}


/// A handle reference read at a byte boundary, from a form byte `form`
/// followed by the bytes `b` that its low four bits count (at most eight)
/// and then `rest`: codes 0 to 5, 0xA and 0xC give the big-endian value
/// of `b` resolved as the code says (as it is for 0 to 5; added to or
/// taken from `reference` for 0xA and 0xC) and stop after `b`; codes 6
/// and 8 give `reference` plus or minus one and read nothing more; the
/// other codes are refused.
pub proof fn lemma_handle_reference_bytes(form: u8, b: Seq<u8>, rest: Seq<u8>, reference: u64)
    requires
        b.len() == form % 16,
        b.len() <= 8,
    ensures
        be_value(b) < 0x1_0000_0000_0000_0000,
        ({
            let code = (form / 16) as u8;
            let c = BitCursor { bytes: seq![form] + b + rest, shift: 0 };
            if code <= 5 || code == 0xA || code == 0xC {
                spec_handle_reference(c, reference) == Ok::<((u64, DwgReferenceType), BitCursor), DxfError>(
                    ((resolved_handle(code, be_value(b) as u64, reference), reference_type_of(code)),
                    BitCursor { bytes: rest, shift: 0 }))
            } else if code == 6 || code == 8 {
                spec_handle_reference(c, reference) == Ok::<((u64, DwgReferenceType), BitCursor), DxfError>(
                    ((resolved_handle(code, 0, reference), reference_type_of(code)),
                    BitCursor { bytes: b + rest, shift: 0 }))
            } else {
                spec_handle_reference(c, reference) == Err::<((u64, DwgReferenceType), BitCursor), DxfError>(
                    DxfError::InvalidReferenceCode(code))
            }
        }),
{
    lemma_be_value_bound(b);
    crate::bit_model::lemma_pow256_values();
    let all = seq![form] + b + rest;
    assert(all[0] == form);
    assert(all.skip(1) =~= b + rest);
    let c1 = BitCursor { bytes: b + rest, shift: 0 };
    assert((b + rest).skip(b.len() as int) =~= rest);
    assert(Seq::new(b.len(), |i: int| shifted_byte(c1.bytes[i], pbyte(c1.bytes, i + 1), c1.shift)) =~= b);
}
} // verus!
