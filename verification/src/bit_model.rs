//! The mathematical model of a DWG bit stream.
//!
//! DWG data is bit-aligned.  A reader is modelled by a [`BitCursor`]: the
//! bytes still to be read, starting with the partly consumed byte when the
//! cursor is inside one, and the number of bits of that first byte already
//! consumed (`shift`, 0..7).  Bits are consumed most significant first.
//! Reading past the end of the data yields zero bits for the bit-level
//! reads; the byte-level reads fail instead.

use vstd::prelude::*;

verus! {

/// The unread part of a bit stream.
pub struct BitCursor {
    /// The bytes still to be read; when `shift > 0` the first one is partly consumed.
    pub bytes: Seq<u8>,
    /// The number of bits of `bytes[0]` already consumed.
    pub shift: nat,
}

/// A cursor whose shift is a bit index and which, when inside a byte, holds it.
pub open spec fn valid_cursor(c: BitCursor) -> bool {
    c.shift < 8 && (c.shift > 0 ==> c.bytes.len() >= 1)
}

/// The number of unread bits.
pub open spec fn bits_left(c: BitCursor) -> int {
    c.bytes.len() * 8 - c.shift
}

/// The number of whole bytes not yet fetched from the underlying data.
pub open spec fn raw_remaining(c: BitCursor) -> int {
    if c.shift > 0 { c.bytes.len() - 1 } else { c.bytes.len() as int }
}

/// Byte `i` of `bytes`, or zero past the end.
pub open spec fn pbyte(bytes: Seq<u8>, i: int) -> u8 {
    if 0 <= i < bytes.len() { bytes[i] } else { 0 }
}

/// The bit `shift` places from the top of `a`.
pub open spec fn bit_at(a: u8, shift: nat) -> bool {
    ((a << (shift as u8)) & 128u8) == 128u8
}

/// The eight bits that start `shift` bits into `a` and continue into `b`.
pub open spec fn shifted_byte(a: u8, b: u8, shift: nat) -> u8 {
    if shift == 0 { a } else { (a << (shift as u8)) | (b >> ((8 - shift) as u8)) }
}

/// Read one bit (never fails; past the end the bit is zero).
pub open spec fn spec_read_bit(c: BitCursor) -> (bool, BitCursor) {
    let v = bit_at(pbyte(c.bytes, 0), c.shift);
    if c.shift == 0 && c.bytes.len() == 0 {
        (false, BitCursor { bytes: seq![0u8], shift: 1 })
    } else if c.shift == 7 {
        (v, BitCursor { bytes: c.bytes.skip(1), shift: 0 })
    } else {
        (v, BitCursor { bytes: c.bytes, shift: c.shift + 1 })
    }
}

/// Read a two-bit code: two bits, the first one the most significant.
pub open spec fn spec_read_2bits(c: BitCursor) -> (nat, BitCursor) {
    let (a, c1) = spec_read_bit(c);
    let (b, c2) = spec_read_bit(c1);
    ((if a { 2nat } else { 0nat }) + (if b { 1nat } else { 0nat }), c2)
}

/// Read a three-bit code, most significant bit first.
pub open spec fn spec_read_3bits(c: BitCursor) -> (nat, BitCursor) {
    let (a, c1) = spec_read_bit(c);
    let (b, c2) = spec_read_bit(c1);
    let (d, c3) = spec_read_bit(c2);
    ((if a { 4nat } else { 0nat }) + (if b { 2nat } else { 0nat }) + (if d { 1nat } else { 0nat }), c3)
}

/// Read eight bits as a byte; fails when fewer than eight bits are left.
pub open spec fn spec_read_byte(c: BitCursor) -> Option<(u8, BitCursor)> {
    if bits_left(c) >= 8 {
        Some((shifted_byte(c.bytes[0], pbyte(c.bytes, 1), c.shift),
            BitCursor { bytes: c.bytes.skip(1), shift: c.shift }))
    } else {
        None
    }
}

/// Fetch the next byte the lenient way: past the end it is zero and, inside
/// a byte, the cursor keeps a zero byte as its partly consumed byte.
pub open spec fn spec_next_byte(c: BitCursor) -> (u8, BitCursor) {
    if c.shift == 0 {
        if c.bytes.len() >= 1 {
            (c.bytes[0], BitCursor { bytes: c.bytes.skip(1), shift: 0 })
        } else {
            (0u8, c)
        }
    } else {
        (shifted_byte(c.bytes[0], pbyte(c.bytes, 1), c.shift),
            if c.bytes.len() >= 2 {
                BitCursor { bytes: c.bytes.skip(1), shift: c.shift }
            } else {
                BitCursor { bytes: seq![0u8], shift: c.shift }
            })
    }
}

/// The largest byte read the reader accepts (16 MB).
pub open spec fn max_read_len() -> nat {
    16 * 1024 * 1024
}

/// Read `n` bytes; fails when fewer than `8 * n` bits are left or `n` is
/// above the 16 MB limit.
pub open spec fn spec_read_bytes(c: BitCursor, n: nat) -> Option<(Seq<u8>, BitCursor)> {
    if n <= max_read_len() && bits_left(c) >= 8 * n {
        Some((Seq::new(n, |i: int| shifted_byte(c.bytes[i], pbyte(c.bytes, i + 1), c.shift)),
            BitCursor { bytes: c.bytes.skip(n as int), shift: c.shift }))
    } else {
        None
    }
}

/// The little-endian value of a byte sequence.
pub open spec fn le_value(s: Seq<u8>) -> nat
    decreases s.len(),
{
    if s.len() == 0 { 0 } else { s[0] as nat + 256 * le_value(s.skip(1)) }
}

/// The big-endian value of a byte sequence.
pub open spec fn be_value(s: Seq<u8>) -> nat
    decreases s.len(),
{
    if s.len() == 0 { 0 } else { be_value(s.drop_last()) * 256 + s.last() as nat }
}

/// A big-endian value is below `256^len`.
pub proof fn lemma_be_value_bound(s: Seq<u8>)
    ensures
        be_value(s) < pow256(s.len()),
    decreases s.len(),
{
    if s.len() > 0 {
        lemma_be_value_bound(s.drop_last());
        let a = be_value(s.drop_last());
        let p = pow256((s.len() - 1) as nat);
        let l = s.last() as nat;
        assert(a * 256 + l < 256 * p) by (nonlinear_arith)
            requires
                a < p,
                l < 256,
        ;
    }
}

/// Read an `n`-byte little-endian unsigned value.
pub open spec fn spec_read_le(c: BitCursor, n: nat) -> Option<(nat, BitCursor)> {
    match spec_read_bytes(c, n) {
        Some((bs, c1)) => Some((le_value(bs), c1)),
        None => None,
    }
}

/// The signed 16-bit value with the low 16 bits of `v` as its bit pattern.
pub open spec fn i16_of(v: int) -> int {
    let w = v % 0x1_0000;
    if w < 0x8000 { w } else { w - 0x1_0000 }
}

/// The signed 32-bit value with the low 32 bits of `v` as its bit pattern.
pub open spec fn i32_of(v: int) -> int {
    let w = v % 0x1_0000_0000;
    if w < 0x8000_0000 { w } else { w - 0x1_0000_0000 }
}

/// The position (bytes read from the data) after moving to cursor `c`,
/// from a position `pos` over data of `len` bytes.  Positions past the end
/// do not move.
pub open spec fn next_position(pos: nat, len: nat, c: BitCursor) -> nat {
    if pos <= len { (len - raw_remaining(c)) as nat } else { pos }
}

/// `256` to the power `k`.
pub open spec fn pow256(k: nat) -> nat
    decreases k,
{
    if k == 0 { 1 } else { 256 * pow256((k - 1) as nat) }
}

/// A little-endian value is below `256^len`.
pub proof fn lemma_le_value_bound(s: Seq<u8>)
    ensures
        le_value(s) < pow256(s.len()),
    decreases s.len(),
{
    if s.len() > 0 {
        lemma_le_value_bound(s.skip(1));
    }
}

/// The powers of 256 the reader uses.
pub proof fn lemma_pow256_values()
    ensures
        pow256(1) == 256,
        pow256(2) == 0x1_0000,
        pow256(3) == 0x100_0000,
        pow256(4) == 0x1_0000_0000,
        pow256(6) == 0x1_0000_0000_0000,
        pow256(7) == 0x100_0000_0000_0000,
        pow256(8) == 0x1_0000_0000_0000_0000,
{
    reveal_with_fuel(pow256, 9);
}

/// **RS**: a little-endian signed 16-bit value.
pub open spec fn spec_read_raw_short(c: BitCursor) -> Option<(int, BitCursor)> {
    match spec_read_le(c, 2) {
        Some((v, c1)) => Some((i16_of(v as int), c1)),
        None => None,
    }
}

/// **RS** (unsigned): a little-endian unsigned 16-bit value.
pub open spec fn spec_read_raw_ushort(c: BitCursor) -> Option<(int, BitCursor)> {
    match spec_read_le(c, 2) {
        Some((v, c1)) => Some((v as int, c1)),
        None => None,
    }
}

/// **RL**: a little-endian signed 32-bit value.
pub open spec fn spec_read_raw_long(c: BitCursor) -> Option<(int, BitCursor)> {
    match spec_read_le(c, 4) {
        Some((v, c1)) => Some((i32_of(v as int), c1)),
        None => None,
    }
}

/// **RL** (unsigned 64): a little-endian unsigned 64-bit value.
pub open spec fn spec_read_raw_ulong(c: BitCursor) -> Option<(int, BitCursor)> {
    match spec_read_le(c, 8) {
        Some((v, c1)) => Some((v as int, c1)),
        None => None,
    }
}

/// **BS**: a BitShort.  Code `00`: a raw short follows; `01`: one unsigned
/// byte follows (zero past the end); `10`: 0; `11`: 256.
pub open spec fn spec_read_bit_short(c: BitCursor) -> Option<(int, BitCursor)> {
    let (code, c1) = spec_read_2bits(c);
    if code == 0 {
        spec_read_raw_short(c1)
    } else if code == 1 {
        let (b, c2) = spec_next_byte(c1);
        Some((b as int, c2))
    } else if code == 2 {
        Some((0, c1))
    } else {
        Some((256, c1))
    }
}

/// **BL**: a BitLong.  Code `00`: a raw long follows; `01`: one unsigned
/// byte follows (zero past the end); `10`: 0; `11` is not used and fails.
pub open spec fn spec_read_bit_long(c: BitCursor) -> Option<(int, BitCursor)> {
    let (code, c1) = spec_read_2bits(c);
    if code == 0 {
        spec_read_raw_long(c1)
    } else if code == 1 {
        let (b, c2) = spec_next_byte(c1);
        Some((b as int, c2))
    } else if code == 2 {
        Some((0, c1))
    } else {
        None
    }
}

/// **BLL**: a BitLongLong: a three-bit byte count, then that many bytes,
/// little endian.
pub open spec fn spec_read_bit_long_long(c: BitCursor) -> Option<(int, BitCursor)> {
    let (size, c1) = spec_read_3bits(c);
    match spec_read_le(c1, size) {
        Some((v, c2)) => Some((v as int, c2)),
        None => None,
    }
}

/// The IEEE-754 bit pattern of `1.0`.
pub open spec fn one_bits() -> u64 {
    0x3FF0_0000_0000_0000u64
}

/// **RD**: a raw double, as its IEEE-754 bit pattern (eight bytes, little endian).
pub open spec fn spec_read_raw_double(c: BitCursor) -> Option<(u64, BitCursor)> {
    match spec_read_le(c, 8) {
        Some((v, c1)) => Some((v as u64, c1)),
        None => None,
    }
}

/// **BD**: a BitDouble, as its IEEE-754 bit pattern.  Code `00`: a raw
/// double follows; `01`: 1.0; `10`: 0.0; `11` is not used and fails.
pub open spec fn spec_read_bit_double(c: BitCursor) -> Option<(u64, BitCursor)> {
    let (code, c1) = spec_read_2bits(c);
    if code == 0 {
        spec_read_raw_double(c1)
    } else if code == 1 {
        Some((one_bits(), c1))
    } else if code == 2 {
        Some((0u64, c1))
    } else {
        None
    }
}

/// `n` bytes fetched the lenient way (zero past the end).
pub open spec fn spec_next_bytes(c: BitCursor, n: nat) -> (Seq<u8>, BitCursor)
    decreases n,
{
    if n == 0 {
        (Seq::empty(), c)
    } else {
        let (b, c1) = spec_next_byte(c);
        let (rest, c2) = spec_next_bytes(c1, (n - 1) as nat);
        (seq![b] + rest, c2)
    }
}

/// Fetching `n` bytes yields `n` bytes.
pub proof fn lemma_next_bytes_len(c: BitCursor, n: nat)
    ensures
        spec_next_bytes(c, n).0.len() == n,
    decreases n,
{
    if n > 0 {
        lemma_next_bytes_len(spec_next_byte(c).1, (n - 1) as nat);
    }
}

/// The bytes that patch a default double: at a byte boundary they are
/// fetched the lenient way; inside a byte they must all be present.
pub open spec fn spec_patch_bytes(c: BitCursor, n: nat) -> Option<(Seq<u8>, BitCursor)> {
    if c.shift == 0 {
        Some(spec_next_bytes(c, n))
    } else {
        spec_read_bytes(c, n)
    }
}

/// **DD**: a BitDouble with a default, as IEEE-754 bit patterns.  Code
/// `00`: the default; `01`: four bytes replace the low four bytes of the
/// default; `10`: six bytes, the first two replacing bytes 4 and 5 of the
/// default, the last four its low four bytes; `11`: a raw double follows.
pub open spec fn spec_read_bit_double_with_default(c: BitCursor, def: u64) -> Option<(u64, BitCursor)> {
    let (code, c1) = spec_read_2bits(c);
    if code == 0 {
        Some((def, c1))
    } else if code == 1 {
        match spec_patch_bytes(c1, 4) {
            Some((lo, c2)) => Some(((def as int / 0x1_0000_0000 * 0x1_0000_0000 + le_value(lo)) as u64, c2)),
            None => None,
        }
    } else if code == 2 {
        match spec_patch_bytes(c1, 2) {
            Some((mid, c2)) => match spec_patch_bytes(c2, 4) {
                Some((lo, c3)) => Some(((def as int / 0x1_0000_0000_0000 * 0x1_0000_0000_0000
                    + le_value(mid) * 0x1_0000_0000 + le_value(lo)) as u64, c3)),
                None => None,
            },
            None => None,
        }
    } else {
        spec_read_raw_double(c1)
    }
}

/// A read of `n` bytes consumes `n` whole bytes of the stream and keeps
/// its bit shift.
pub proof fn lemma_read_bytes_progress(c: BitCursor, n: nat)
    ensures
        spec_read_bytes(c, n) matches Some((_, c1)) ==> raw_remaining(c1) == raw_remaining(c) - n
            && c1.shift == c.shift && raw_remaining(c1) >= 0,
{
    if spec_read_bytes(c, n) is Some {
        assert(c.bytes.skip(n as int).len() == c.bytes.len() - n);
    }
}

/// A byte read consumes one whole byte of the stream and keeps its bit
/// shift.
pub proof fn lemma_read_byte_progress(c: BitCursor)
    ensures
        spec_read_byte(c) matches Some((_, c1)) ==> raw_remaining(c1) == raw_remaining(c) - 1
            && c1.shift == c.shift && raw_remaining(c1) >= 0,
{
    if spec_read_byte(c) is Some {
        assert(c.bytes.skip(1).len() == c.bytes.len() - 1);
    }
}

/// Two bits read from a valid cursor leave no more bytes than it had,
/// unless it had none (the bits then read as zero).
pub proof fn lemma_2bits_progress(c: BitCursor)
    requires
        valid_cursor(c),
    ensures
        c.bytes.len() > 0 ==> spec_read_2bits(c).1.bytes.len() <= c.bytes.len(),
        c.bytes.len() > 0 ==> valid_cursor(spec_read_2bits(c).1),
        c.bytes.len() == 0 ==> spec_read_2bits(c) == (0nat, (BitCursor { bytes: seq![0u8], shift: 2 })),
        c.bytes.len() == 1 && c.shift == 7 ==> spec_read_2bits(c).1 == (BitCursor { bytes: seq![0u8], shift: 1 })
            && spec_read_2bits(c).0 % 2 == 0,
{
    let (a, c1) = spec_read_bit(c);
    if c.bytes.len() > 0 && c.shift == 7 {
        assert(c1.bytes.len() == c.bytes.len() - 1);
    }
    if c.bytes.len() == 0 {
        assert(bit_at(pbyte(seq![0u8], 0), 1) == false) by (bit_vector)
            requires pbyte(seq![0u8], 0) == 0u8;
    }
    if c.bytes.len() == 1 && c.shift == 7 {
        assert(c1.bytes.len() == 0);
    }
}

/// A BitLong other than 0 read from a valid cursor, then `k >= 1` bytes,
/// leave fewer bytes unread.
pub proof fn lemma_chunk_progress(c: BitCursor, k: nat)
    requires
        valid_cursor(c),
        k >= 1,
        spec_read_bit_long(c) matches Some((n, c1)) && n != 0 && (spec_read_bytes(c1, k) is Some),
    ensures
        spec_read_bit_long(c) matches Some((n, c1)) && (spec_read_bytes(c1, k) matches Some((_, c2))
            && c2.bytes.len() < c.bytes.len()),
{
    lemma_2bits_progress(c);
    let (code, c1) = spec_read_2bits(c);
    if c.bytes.len() == 1 && c.shift == 7 {
        assert(bits_left(c1) == 7);
    }
    if code == 1 {
        let (b, c2) = spec_next_byte(c1);
        if c1.shift > 0 && c1.bytes.len() < 2 {
            assert(bits_left(c2) < 8);
        }
    }
}

} // verus!
