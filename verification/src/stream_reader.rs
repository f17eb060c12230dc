//! The bit-level DWG stream reader.

use vstd::prelude::*;
use crate::bit_model::{BitCursor, valid_cursor, raw_remaining, pbyte, bit_at, shifted_byte,
    spec_read_bit, spec_read_2bits, spec_read_3bits, spec_read_byte, spec_next_byte, max_read_len,
    spec_read_bytes, le_value, spec_read_le, next_position, pow256, lemma_le_value_bound,
    lemma_pow256_values, spec_read_raw_short, spec_read_raw_ushort, spec_next_bytes,
    spec_patch_bytes, lemma_next_bytes_len, spec_read_raw_long, spec_read_raw_ulong, bits_left};
use crate::encoding::TextEncoding;
use crate::error::DxfError;

use crate::version::DxfVersion;

verus! {

/// The unread stream of `data` positioned at byte `pos`, `shift` bits
/// into that byte (which is then already fetched; zero past the end).
pub open spec fn cursor_at(data: Seq<u8>, pos: nat, shift: nat) -> BitCursor {
    let start = if pos <= data.len() { pos as int } else { data.len() as int };
    let next = if pos + 1 <= data.len() { (pos + 1) as int } else { data.len() as int };
    if shift == 0 {
        BitCursor { bytes: data.skip(start), shift: 0 }
    } else {
        BitCursor { bytes: seq![pbyte(data, pos as int)] + data.skip(next), shift }
    }
}

/// The byte position that a bit position designates (`p >> 3`, taken as
/// an unsigned 64-bit value).
pub open spec fn byte_of_bits(p: i64) -> nat {
    ((p >> 3u64) as u64) as nat
}

/// The bit within its byte that a bit position designates (`p & 7`).
pub open spec fn shift_of_bits(p: i64) -> nat {
    (p & 7i64) as nat
}

/// The unread stream of `data` at bit position `p`.
pub open spec fn bits_cursor(data: Seq<u8>, p: i64) -> BitCursor {
    cursor_at(data, byte_of_bits(p), shift_of_bits(p))
}

/// The byte position a reader has after moving to bit position `p` of
/// data of `len` bytes: inside a byte, that byte has been fetched.
pub open spec fn position_after_bits(len: nat, p: i64) -> nat {
    if shift_of_bits(p) == 0 || byte_of_bits(p) >= len {
        byte_of_bits(p)
    } else {
        byte_of_bits(p) + 1
    }
}

/// Where the string stream of an object starts, found from the end bit
/// `position` of its data: a flag bit at `position` says whether there is
/// one.  If so, a raw unsigned short 16 bytes before gives its size; when
/// that size has the bit `0x8000`, another short 16 bytes further back
/// gives the high bits (the size is then `(size & 0x7FFF) + (hi << 15)`).
/// The stream starts `size` bits before the position of the last short.
/// `Ok(None)`: no string stream.
pub open spec fn spec_string_stream_start(data: Seq<u8>, position: i64) -> Result<Option<int>, DxfError> {
    if !spec_read_bit(bits_cursor(data, position)).0 {
        Ok(None)
    } else {
        let length = position - 16;
        match spec_read_raw_ushort(bits_cursor(data, length as i64)) {
            None => Err(DxfError::UnexpectedEof),
            Some((size, _)) => if size >= 0x8000 {
                let length2 = length - 16;
                match spec_read_raw_ushort(bits_cursor(data, length2 as i64)) {
                    None => Err(DxfError::UnexpectedEof),
                    Some((hi, _)) => Ok(Some(length2 - (size - 0x8000 + hi * 0x8000))),
                }
            } else {
                Ok(Some(length - size))
            },
        }
    }
}

/// The stream `c` over `data` moved to byte `pos`, keeping its bit shift
/// and its partly read byte.
pub open spec fn cursor_moved(data: Seq<u8>, c: BitCursor, pos: nat) -> BitCursor {
    let rest = data.skip(if pos <= data.len() { pos as int } else { data.len() as int });
    if c.shift == 0 {
        BitCursor { bytes: rest, shift: 0 }
    } else {
        BitCursor { bytes: seq![c.bytes[0]] + rest, shift: c.shift }
    }
}

/// Reader of the bit-aligned data of one DWG section.
///
/// Its state is a byte position in the data, the number of bits of the
/// last fetched byte already consumed, and that byte.
pub struct DwgStreamReaderBase {
    data: Vec<u8>,
    pos: u64,
    bit_shift: u8,
    last_byte: u8,
    is_empty: bool,
    encoding: TextEncoding,
    version: DxfVersion,
}

impl DwgStreamReaderBase {
    #[verifier::type_invariant]
    spec fn shift_is_bit_index(&self) -> bool {
        self.bit_shift < 8
    }

    /// The data the reader reads.
    pub closed spec fn data(&self) -> Seq<u8> {
        self.data@
    }

    /// The byte position in the data (the number of bytes fetched).
    pub closed spec fn spec_position(&self) -> nat {
        self.pos as nat
    }

    /// The unread part of the stream.
    pub closed spec fn cursor(&self) -> BitCursor {
        let start = if self.pos <= self.data@.len() { self.pos as int } else { self.data@.len() as int };
        let rest = self.data@.skip(start);
        if self.bit_shift == 0 {
            BitCursor { bytes: rest, shift: 0 }
        } else {
            BitCursor { bytes: seq![self.last_byte] + rest, shift: self.bit_shift as nat }
        }
    }

    /// Whether a string stream was found absent by `set_position_by_flag`.
    pub closed spec fn spec_is_empty(&self) -> bool {
        self.is_empty
    }

    /// The DWG version the reader decodes.
    pub closed spec fn spec_version(&self) -> DxfVersion {
        self.version
    }

    /// The encoding of code-page text.
    pub closed spec fn spec_encoding(&self) -> TextEncoding {
        self.encoding
    }

    /// `new` reads the same data as `self`, with the same settings.
    pub open spec fn same_source(&self, new: &Self) -> bool {
        &&& new.data() == self.data()
        &&& new.spec_version() == self.spec_version()
        &&& new.spec_encoding() == self.spec_encoding()
        &&& new.spec_is_empty() == self.spec_is_empty()
    }

    /// `new` is `self` moved forward to the unread stream `c`.
    pub open spec fn moved_to(&self, new: &Self, c: BitCursor) -> bool {
        &&& self.same_source(new)
        &&& new.cursor() == c
        &&& new.spec_position() == next_position(self.spec_position(), self.data().len(), c)
        &&& valid_cursor(c)
    }

    /// A reader over `data` for `version`, at the start, reading code-page
    /// text as Windows-1252.
    pub fn new(data: Vec<u8>, version: DxfVersion) -> (r: Self)
        ensures
            r.data() == data@,
            r.spec_position() == 0,
            r.cursor() == (BitCursor { bytes: data@, shift: 0 }),
            !r.spec_is_empty(),
            r.spec_version() == version,
            r.spec_encoding() == TextEncoding::Windows1252,
    {
        let r = DwgStreamReaderBase {
            data,
            pos: 0,
            bit_shift: 0,
            last_byte: 0,
            is_empty: false,
            encoding: TextEncoding::Windows1252,
            version,
        };
        assert(r.data@.skip(0) =~= r.data@);
        r
    }

    /// Skip forward: move the byte position `offset - 1` further (when
    /// `offset > 1`; a move past `u64::MAX` is dropped), keeping the bit
    /// shift, then read a byte (a failed read is ignored).
    pub fn advance(&mut self, offset: usize)
        ensures
            ({
                let p = if offset > 1 && old(self).spec_position() + offset - 1 <= u64::MAX {
                    (old(self).spec_position() + offset - 1) as nat
                } else {
                    old(self).spec_position()
                };
                let c = cursor_moved(old(self).data(), old(self).cursor(), p);
                &&& old(self).same_source(final(self))
                &&& match spec_read_byte(c) {
                    Some((_, c1)) => final(self).cursor() == c1
                        && final(self).spec_position() == next_position(p, old(self).data().len(), c1),
                    None => final(self).cursor() == c && final(self).spec_position() == p,
                }
            }),
    {
        proof { use_type_invariant(&*self); }
        if offset > 1 {
            match self.pos.checked_add((offset - 1) as u64) {
                Some(p) => {
                    self.pos = p;
                },
                None => {},
            }
        }
        let _ = self.read_byte();
    }

    /// The unread stream never holds more whole bytes than the data.
    pub proof fn lemma_cursor_bounds(&self)
        ensures
            0 <= raw_remaining(self.cursor()) <= self.data().len(),
    {
    }

    /// The unread stream of a reader holds the bytes from its position on,
    /// and inside the data its position in bits is the number of bits of
    /// the data less the unread ones.
    pub proof fn lemma_cursor_position(&self)
        requires
            valid_cursor(self.cursor()),
            self.data().len() * 8 <= i64::MAX,
        ensures
            self.spec_position() <= self.data().len() ==> {
                &&& raw_remaining(self.cursor()) == self.data().len() - self.spec_position()
                &&& self.spec_position_in_bits() == self.data().len() * 8 - bits_left(self.cursor())
            },
            self.spec_position() > self.data().len() ==> raw_remaining(self.cursor()) == 0,
    {
        if self.pos <= self.data@.len() {
            assert(self.data@.skip(self.pos as int).len() == self.data@.len() - self.pos);
            assert((self.pos as i64) as int == self.pos as int);
        } else {
            assert(self.data@.skip(self.data@.len() as int).len() == 0);
        }
    }

    /// A reader over `data` for `version`, at byte `position`.
    pub fn new_at(data: Vec<u8>, version: DxfVersion, position: u64) -> (r: Self)
        ensures
            r.data() == data@,
            r.spec_position() == position,
            r.cursor() == cursor_at(data@, position as nat, 0),
            !r.spec_is_empty(),
            r.spec_version() == version,
            r.spec_encoding() == TextEncoding::Windows1252,
    {
        let mut r = Self::new(data, version);
        r.set_position(position);
        r
    }

    /// The DWG version the reader decodes.
    pub fn version(&self) -> (r: DxfVersion)
        ensures
            r == self.spec_version(),
    {
        self.version
    }

    /// Set the encoding of code-page text.
    pub fn set_encoding(&mut self, encoding: TextEncoding)
        ensures
            final(self).spec_encoding() == encoding,
            final(self).data() == old(self).data(),
            final(self).cursor() == old(self).cursor(),
            final(self).spec_position() == old(self).spec_position(),
            final(self).spec_version() == old(self).spec_version(),
            final(self).spec_is_empty() == old(self).spec_is_empty(),
    {
        proof { use_type_invariant(&*self); }
        self.encoding = encoding;
    }

    /// The encoding of code-page text.
    pub fn encoding(&self) -> (r: TextEncoding)
        ensures
            r == self.spec_encoding(),
    {
        self.encoding
    }

    /// The length of the data.
    pub fn stream_length(&self) -> (r: u64)
        ensures
            r == self.data().len(),
    {
        self.data.len() as u64
    }

    /// The number of bits of the last fetched byte already consumed.
    pub fn bit_shift(&self) -> (r: u8)
        ensures
            r == self.cursor().shift,
    {
        self.bit_shift
    }

    /// Whether `set_position_by_flag` found no string stream.
    pub fn is_empty(&self) -> (r: bool)
        ensures
            r == self.spec_is_empty(),
    {
        self.is_empty
    }

    /// The unread stream of a reader is a valid cursor.
    pub fn cursor_valid(&self)
        ensures
            valid_cursor(self.cursor()),
    {
        proof { use_type_invariant(self); }
    }

    /// Whether at least `n` bits are left unread.
    pub fn has_bits(&self, n: u64) -> (r: bool)
        requires
            n <= 64,
        ensures
            r == (bits_left(self.cursor()) >= n),
    {
        proof { use_type_invariant(self); }
        let len = self.data.len() as u64;
        let rest: u64 = if self.pos <= len { len - self.pos } else { 0 };
        proof {
            let start = if self.pos <= self.data@.len() { self.pos as int } else { self.data@.len() as int };
            assert(self.data@.skip(start).len() == rest);
        }
        if rest >= 9 {
            return true;
        }
        let tail: u64 = if self.bit_shift > 0 { 8 - self.bit_shift as u64 } else { 0 };
        rest * 8 + tail >= n
    }

    /// The byte position in the data.
    pub fn position(&self) -> (r: u64)
        ensures
            r == self.spec_position(),
    {
        self.pos
    }

    /// Move to byte `pos` (which may lie past the end), at a byte boundary.
    pub fn set_position(&mut self, pos: u64)
        ensures
            old(self).same_source(final(self)),
            final(self).spec_position() == pos,
            final(self).cursor() == (BitCursor {
                bytes: old(self).data().skip(if pos <= old(self).data().len() { pos as int } else { old(self).data().len() as int }),
                shift: 0,
            }),
    {
        proof { use_type_invariant(&*self); }
        self.pos = pos;
        self.bit_shift = 0;
    }

    /// Fetch one raw byte (no bit shift); fails at the end of the data.
    fn read_raw_byte(&mut self) -> (r: Result<u8, DxfError>)
        ensures
            old(self).same_source(final(self)),
            final(self).bit_shift == old(self).bit_shift,
            final(self).last_byte == old(self).last_byte,
            match r {
                Ok(b) => old(self).pos < old(self).data@.len() && b == old(self).data@[old(self).pos as int]
                    && final(self).pos == old(self).pos + 1,
                Err(e) => old(self).pos >= old(self).data@.len() && final(self).pos == old(self).pos
                    && e == DxfError::UnexpectedEof,
            },
    {
        proof { use_type_invariant(&*self); }
        if self.pos < self.data.len() as u64 {
            let b = self.data[self.pos as usize];
            self.pos = self.pos + 1;
            Ok(b)
        } else {
            Err(DxfError::UnexpectedEof)
        }
    }

    /// Fetch the next raw byte into the last-byte slot (zero past the end).
    fn fetch(&mut self)
        ensures
            old(self).same_source(final(self)),
            final(self).bit_shift == old(self).bit_shift,
            old(self).pos < old(self).data@.len() ==> final(self).last_byte == old(self).data@[old(self).pos as int]
                && final(self).pos == old(self).pos + 1,
            old(self).pos >= old(self).data@.len() ==> final(self).last_byte == 0
                && final(self).pos == old(self).pos,
    {
        proof { use_type_invariant(&*self); }
        match self.read_raw_byte() {
            Ok(b) => { self.last_byte = b; }
            Err(_) => { self.last_byte = 0; }
        }
    }

    /// The effect of [`Self::fetch`] on the unread stream.
    proof fn lemma_fetch(&self, new: &Self)
        requires
            self.same_source(new),
            new.bit_shift == self.bit_shift,
            self.bit_shift < 8,
            self.pos < self.data@.len() ==> new.last_byte == self.data@[self.pos as int]
                && new.pos == self.pos + 1,
            self.pos >= self.data@.len() ==> new.last_byte == 0 && new.pos == self.pos,
        ensures
            self.moved_to(new, spec_next_byte(self.cursor()).1),
            self.bit_shift == 0 ==> new.last_byte == spec_next_byte(self.cursor()).0,
    {
        let c = self.cursor();
        let c2 = new.cursor();
        if self.pos < self.data@.len() {
            assert(self.data@.skip(self.pos as int).skip(1) =~= self.data@.skip(self.pos + 1));
            assert(c.bytes.skip(1) =~= c2.bytes);
        } else {
            assert(self.data@.skip(self.data@.len() as int) =~= Seq::<u8>::empty());
            if c.shift > 0 {
                assert(c2.bytes =~= seq![0u8]);
            }
        }
    }

    /// Fetch the next raw byte into the last-byte slot; past the end the
    /// slot holds zero.
    pub fn advance_byte(&mut self)
        ensures
            old(self).moved_to(final(self), spec_next_byte(old(self).cursor()).1),
    {
        proof { use_type_invariant(&*self); }
        let ghost old_self = *self;
        self.fetch();
        proof { old_self.lemma_fetch(self); }
    }

    /// **B**: read one bit.  Past the end of the data the bit is zero.
    pub fn read_bit(&mut self) -> (r: Result<bool, DxfError>)
        ensures
            r matches Ok(b) && b == spec_read_bit(old(self).cursor()).0,
            old(self).moved_to(final(self), spec_read_bit(old(self).cursor()).1),
    {
        proof { use_type_invariant(&*self); }
        let ghost c = self.cursor();
        if self.bit_shift == 0 {
            self.fetch();
            let result = (self.last_byte & 128) == 128;
            let ghost lb = self.last_byte;
            self.bit_shift = 1;
            proof {
                assert((lb << 0u8) == lb) by (bit_vector);
                assert(lb == pbyte(c.bytes, 0));
                assert(c.shift as u8 == 0u8);
                assert(result == bit_at(lb, c.shift));
                assert(((0u8 << 0u8) & 128u8) == 0u8) by (bit_vector);
                let c2 = self.cursor();
                if c.bytes.len() >= 1 {
                    assert(self.data@.skip(self.pos - 1) =~= seq![lb] + self.data@.skip(self.pos as int));
                    assert(c2.bytes =~= c.bytes);
                } else {
                    assert(self.data@.skip(self.data@.len() as int) =~= Seq::<u8>::empty());
                    assert(c2.bytes =~= seq![0u8]);
                }
            }
            return Ok(result);
        }
        let value = ((self.last_byte << self.bit_shift) & 128) == 128;
        let ghost s0 = self.bit_shift;
        self.bit_shift = if self.bit_shift == 7 { 0 } else { self.bit_shift + 1 };
        proof {
            let c2 = self.cursor();
            if s0 == 7 {
                assert(c2.bytes =~= c.bytes.skip(1));
            }
        }
        Ok(value)
    }

    /// **B**: read one bit as 0 or 1.
    pub fn read_bit_as_short(&mut self) -> (r: Result<i16, DxfError>)
        ensures
            r matches Ok(v) && v == (if spec_read_bit(old(self).cursor()).0 { 1i16 } else { 0i16 }),
            old(self).moved_to(final(self), spec_read_bit(old(self).cursor()).1),
    {
        let b = self.read_bit()?;
        Ok(if b { 1 } else { 0 })
    }

    /// **BB**: read a two-bit code.
    pub fn read_2bits(&mut self) -> (r: Result<u8, DxfError>)
        ensures
            r matches Ok(v) && v as nat == spec_read_2bits(old(self).cursor()).0,
            old(self).moved_to(final(self), spec_read_2bits(old(self).cursor()).1),
    {
        let a = self.read_bit()?;
        let b = self.read_bit()?;
        Ok((if a { 2u8 } else { 0u8 }) + (if b { 1u8 } else { 0u8 }))
    }

    /// Read a three-bit code, most significant bit first.
    pub(crate) fn read_3bits(&mut self) -> (r: Result<u8, DxfError>)
        ensures
            r matches Ok(v) && v as nat == spec_read_3bits(old(self).cursor()).0,
            old(self).moved_to(final(self), spec_read_3bits(old(self).cursor()).1),
    {
        let a = self.read_bit()?;
        let b = self.read_bit()?;
        let d = self.read_bit()?;
        Ok((if a { 4u8 } else { 0u8 }) + (if b { 2u8 } else { 0u8 }) + (if d { 1u8 } else { 0u8 }))
    }

    /// Fetch the next byte leniently (past the end it is zero).
    pub(crate) fn next_byte(&mut self) -> (r: u8)
        ensures
            r == spec_next_byte(old(self).cursor()).0,
            old(self).moved_to(final(self), spec_next_byte(old(self).cursor()).1),
    {
        proof { use_type_invariant(&*self); }
        let ghost c = self.cursor();
        let ghost old_self = *self;
        if self.bit_shift == 0 {
            self.fetch();
            proof { old_self.lemma_fetch(self); }
            return self.last_byte;
        }
        let value = ((self.last_byte as u16) << self.bit_shift) as u8;
        let s = self.bit_shift;
        self.fetch();
        proof { old_self.lemma_fetch(self); }
        let lb = self.last_byte;
        let r = value | (lb >> (8 - s));
        proof {
            let a = c.bytes[0];
            assert(lb == pbyte(c.bytes, 1));
            assert(0 < s < 8 ==> ((((a as u16) << s) as u8) | (lb >> ((8 - s) as u8))) == ((a << s) | (lb >> ((8 - s) as u8)))) by (bit_vector);
        }
        r
    }

    /// Read a byte; fails when fewer than eight bits are left.
    pub fn read_byte(&mut self) -> (r: Result<u8, DxfError>)
        ensures
            match r {
                Ok(b) => spec_read_byte(old(self).cursor()) == Some((b, final(self).cursor()))
                    && old(self).moved_to(final(self), final(self).cursor()),
                Err(e) => spec_read_byte(old(self).cursor()) is None && e == DxfError::UnexpectedEof
                    && old(self).same_source(final(self)) && final(self).cursor() == old(self).cursor()
                    && final(self).spec_position() == old(self).spec_position(),
            },
    {
        proof { use_type_invariant(&*self); }
        let ghost c = self.cursor();
        if self.bit_shift == 0 {
            let b = self.read_raw_byte()?;
            self.last_byte = b;
            proof {
                assert(self.cursor().bytes =~= c.bytes.skip(1));
            }
            return Ok(b);
        }
        let last_values = ((self.last_byte as u16) << self.bit_shift) as u8;
        let s = self.bit_shift;
        let b = self.read_raw_byte()?;
        self.last_byte = b;
        let r = last_values | (b >> (8 - s));
        proof {
            let a = c.bytes[0];
            assert(0 < s < 8 ==> ((((a as u16) << s) as u8) | (b >> ((8 - s) as u8))) == ((a << s) | (b >> ((8 - s) as u8)))) by (bit_vector);
            assert(self.cursor().bytes =~= c.bytes.skip(1));
        }
        Ok(r)
    }

    /// Moving forward twice is moving forward once.
    pub(crate) proof fn lemma_moved_trans(a: &Self, b: &Self, c: &Self, cb: BitCursor, cc: BitCursor)
        requires
            a.moved_to(b, cb),
            b.moved_to(c, cc),
        ensures
            a.moved_to(c, cc),
    {
    }

    /// Read `length` bytes; fails when fewer than `8 * length` bits are left,
    /// or when `length` is above the 16 MB limit.
    pub fn read_bytes(&mut self, length: usize) -> (r: Result<Vec<u8>, DxfError>)
        ensures
            match r {
                Ok(v) => spec_read_bytes(old(self).cursor(), length as nat) == Some((v@, final(self).cursor()))
                    && old(self).moved_to(final(self), final(self).cursor()),
                Err(e) => spec_read_bytes(old(self).cursor(), length as nat) is None
                    && old(self).same_source(final(self))
                    && (length > max_read_len() ==> e == DxfError::ReadTooLarge)
                    && (length <= max_read_len() ==> e == DxfError::UnexpectedEof),
            },
    {
        proof { use_type_invariant(&*self); }
        let ghost c = self.cursor();
        let ghost start = *self;
        if length > 16 * 1024 * 1024 {
            return Err(DxfError::ReadTooLarge);
        }
        let len = self.data.len() as u64;
        let available: u64 = if self.pos <= len { len - self.pos } else { 0 };
        if (length as u64) > available {
            proof {
                assert(raw_remaining(c) == available);
            }
            return Err(DxfError::UnexpectedEof);
        }
        proof {
            assert(raw_remaining(c) == available);
            assert(c.bytes.skip(0) =~= c.bytes);
        }
        let mut out: Vec<u8> = Vec::new();
        let mut i: usize = 0;
        while i < length
            invariant
                0 <= i <= length,
                length <= available,
                raw_remaining(c) == available,
                valid_cursor(c),
                c == start.cursor(),
                start.moved_to(self, self.cursor()),
                self.cursor() == (BitCursor { bytes: c.bytes.skip(i as int), shift: c.shift }),
                out@ == Seq::new(i as nat, |k: int| shifted_byte(c.bytes[k], pbyte(c.bytes, k + 1), c.shift)),
            decreases length - i,
        {
            let ghost mid = *self;
            let ghost ci = self.cursor();
            let b = match self.read_byte() {
                Ok(b) => b,
                Err(e) => {
                    proof { assert(false); }
                    return Err(e);
                }
            };
            proof {
                Self::lemma_moved_trans(&start, &mid, self, ci, self.cursor());
                assert(c.bytes.skip(i as int).skip(1) =~= c.bytes.skip(i + 1));
                assert(pbyte(ci.bytes, 1) == pbyte(c.bytes, i + 1));
            }
            out.push(b);
            i = i + 1;
            proof {
                assert(out@ =~= Seq::new(i as nat, |k: int| shifted_byte(c.bytes[k], pbyte(c.bytes, k + 1), c.shift)));
            }
        }
        Ok(out)
    }

    /// Read an `n`-byte little-endian unsigned value (`n <= 8`).
    pub(crate) fn read_le(&mut self, n: usize) -> (r: Result<u64, DxfError>)
        requires
            n <= 8,
        ensures
            match r {
                Ok(v) => spec_read_le(old(self).cursor(), n as nat) == Some((v as nat, final(self).cursor()))
                    && old(self).moved_to(final(self), final(self).cursor()),
                Err(e) => spec_read_le(old(self).cursor(), n as nat) is None && e == DxfError::UnexpectedEof
                    && old(self).same_source(final(self)),
            },
    {
        let bytes = self.read_bytes(n)?;
        Ok(le_of(&bytes))
    }

    /// The unread stream is unchanged by not moving.
    proof fn lemma_moved_refl(&self)
        requires
            self.bit_shift < 8,
        ensures
            self.moved_to(self, self.cursor()),
    {
    }

    /// Fetch `n` bytes the lenient way (zero past the end).
    pub(crate) fn next_bytes(&mut self, n: usize) -> (r: Vec<u8>)
        ensures
            spec_next_bytes(old(self).cursor(), n as nat) == (r@, final(self).cursor()),
            r@.len() == n,
            old(self).moved_to(final(self), final(self).cursor()),
    {
        proof { lemma_next_bytes_len(self.cursor(), n as nat); }
        proof { use_type_invariant(&*self); }
        let ghost s0 = *self;
        proof { s0.lemma_moved_refl(); }
        let mut out: Vec<u8> = Vec::new();
        let mut i: usize = 0;
        while i < n
            invariant
                i <= n,
                s0.moved_to(self, self.cursor()),
                spec_next_bytes(s0.cursor(), n as nat) == (out@ + spec_next_bytes(self.cursor(), (n - i) as nat).0,
                    spec_next_bytes(self.cursor(), (n - i) as nat).1),
            decreases n - i,
        {
            let ghost mid = *self;
            let ghost ci = self.cursor();
            let b = self.next_byte();
            proof {
                Self::lemma_moved_trans(&s0, &mid, self, ci, self.cursor());
                let rest = spec_next_bytes(self.cursor(), (n - i - 1) as nat).0;
                assert(spec_next_bytes(ci, (n - i) as nat).0 == seq![b] + rest);
                assert(out@ + (seq![b] + rest) =~= out@.push(b) + rest);
            }
            out.push(b);
            i = i + 1;
        }
        proof {
            assert(spec_next_bytes(self.cursor(), 0).0 =~= Seq::<u8>::empty());
            assert(out@ + Seq::<u8>::empty() =~= out@);
        }
        out
    }

    /// The bytes that patch a default double: lenient at a byte boundary,
    /// strict inside a byte.
    pub(crate) fn patch_bytes(&mut self, n: usize) -> (r: Result<Vec<u8>, DxfError>)
        requires
            n <= 8,
        ensures
            match r {
                Ok(v) => spec_patch_bytes(old(self).cursor(), n as nat) == Some((v@, final(self).cursor()))
                    && v@.len() == n && old(self).moved_to(final(self), final(self).cursor()),
                Err(e) => spec_patch_bytes(old(self).cursor(), n as nat) is None && e == DxfError::UnexpectedEof
                    && old(self).same_source(final(self)),
            },
    {
        if self.bit_shift == 0 {
            Ok(self.next_bytes(n))
        } else {
            self.read_bytes(n)
        }
    }

    pub(crate) proof fn lemma_pow256_mono(a: nat, b: nat)
        requires
            a <= b,
        ensures
            pow256(a) <= pow256(b),
        decreases b,
    {
        if a < b {
            Self::lemma_pow256_mono(a, (b - 1) as nat);
        }
    }

    /// **RC**: read a raw byte (eight bits).
    pub fn read_raw_char(&mut self) -> (r: Result<u8, DxfError>)
        ensures
            match r {
                Ok(b) => spec_read_byte(old(self).cursor()) == Some((b, final(self).cursor()))
                    && old(self).moved_to(final(self), final(self).cursor()),
                Err(e) => spec_read_byte(old(self).cursor()) is None && e == DxfError::UnexpectedEof
                    && old(self).same_source(final(self)),
            },
    {
        self.read_byte()
    }

    /// **RS**: read a raw little-endian signed short.
    pub fn read_raw_short(&mut self) -> (r: Result<i16, DxfError>)
        ensures
            match r {
                Ok(v) => spec_read_raw_short(old(self).cursor()) == Some((v as int, final(self).cursor()))
                    && old(self).moved_to(final(self), final(self).cursor()),
                Err(e) => spec_read_raw_short(old(self).cursor()) is None && e == DxfError::UnexpectedEof
                    && old(self).same_source(final(self)),
            },
    {
        let v = self.read_le(2)?;
        proof { lemma_pow256_values(); lemma_le_value_bound(spec_read_bytes(old(self).cursor(), 2).unwrap().0); }
        let r: i16 = if v < 0x8000 { v as i16 } else { (v as i32 - 0x1_0000) as i16 };
        Ok(r)
    }

    /// **RS** (unsigned): read a raw little-endian unsigned short.
    pub fn read_raw_ushort(&mut self) -> (r: Result<u16, DxfError>)
        ensures
            match r {
                Ok(v) => spec_read_raw_ushort(old(self).cursor()) == Some((v as int, final(self).cursor()))
                    && old(self).moved_to(final(self), final(self).cursor()),
                Err(e) => spec_read_raw_ushort(old(self).cursor()) is None && e == DxfError::UnexpectedEof
                    && old(self).same_source(final(self)),
            },
    {
        let v = self.read_le(2)?;
        proof { lemma_pow256_values(); lemma_le_value_bound(spec_read_bytes(old(self).cursor(), 2).unwrap().0); }
        Ok(v as u16)
    }

    /// **RL**: read a raw little-endian signed long.
    pub fn read_raw_long(&mut self) -> (r: Result<i32, DxfError>)
        ensures
            match r {
                Ok(v) => spec_read_raw_long(old(self).cursor()) == Some((v as int, final(self).cursor()))
                    && old(self).moved_to(final(self), final(self).cursor()),
                Err(e) => spec_read_raw_long(old(self).cursor()) is None && e == DxfError::UnexpectedEof
                    && old(self).same_source(final(self)),
            },
    {
        let v = self.read_le(4)?;
        proof { lemma_pow256_values(); lemma_le_value_bound(spec_read_bytes(old(self).cursor(), 4).unwrap().0); }
        let r: i32 = if v < 0x8000_0000 { v as i32 } else { (v as i64 - 0x1_0000_0000) as i32 };
        Ok(r)
    }

    /// **RL** (unsigned 64): read a raw little-endian unsigned 64-bit value.
    pub fn read_raw_ulong(&mut self) -> (r: Result<u64, DxfError>)
        ensures
            match r {
                Ok(v) => spec_read_raw_ulong(old(self).cursor()) == Some((v as int, final(self).cursor()))
                    && old(self).moved_to(final(self), final(self).cursor()),
                Err(e) => spec_read_raw_ulong(old(self).cursor()) is None && e == DxfError::UnexpectedEof
                    && old(self).same_source(final(self)),
            },
    {
        self.read_le(8)
    }
}

/// The little-endian value of at most eight bytes.
pub(crate) fn le_of(bytes: &[u8]) -> (r: u64)
    requires
        bytes@.len() <= 8,
    ensures
        r as nat == le_value(bytes@),
{
    let n = bytes.len();
    let mut v: u64 = 0;
    let mut i: usize = n;
    proof {
        assert(bytes@.skip(n as int) =~= Seq::<u8>::empty());
        assert(pow256(0) == 1);
    }
    while i > 0
        invariant
            i <= n,
            n <= 8,
            bytes@.len() == n,
            v as nat == le_value(bytes@.skip(i as int)),
            v < pow256((n - i) as nat),
        decreases i,
    {
        proof {
            lemma_le_value_bound(bytes@.skip(i as int));
            assert(bytes@.skip(i - 1).skip(1) =~= bytes@.skip(i as int));
            assert(pow256((n - i + 1) as nat) == 256 * pow256((n - i) as nat));
            lemma_pow256_values();
            DwgStreamReaderBase::lemma_pow256_mono((n - i + 1) as nat, 8);
        }
        v = v * 256 + bytes[i - 1] as u64;
        i = i - 1;
    }
    proof {
        assert(bytes@.skip(0) =~= bytes@);
    }
    v
}

impl DwgStreamReaderBase {
    /// The position in bits: eight per fetched byte (the byte position
    /// taken as a signed 64-bit value), less the bits of the last fetched
    /// byte not yet consumed.
    pub open spec fn spec_position_in_bits(&self) -> int {
        (self.spec_position() as i64) * 8 + (if self.cursor().shift > 0 { self.cursor().shift - 8 } else { 0 })
    }

    /// The position in bits.
    pub fn position_in_bits(&self) -> (r: i64)
        requires
            i64::MIN <= (self.spec_position() as i64) * 8 <= i64::MAX,
            i64::MIN <= self.spec_position_in_bits(),
        ensures
            r == self.spec_position_in_bits(),
    {
        proof { use_type_invariant(self); }
        let bit_position = (self.pos as i64) * 8;
        if self.bit_shift > 0 {
            bit_position + (self.bit_shift as i64 - 8)
        } else {
            bit_position
        }
    }

    /// Move to bit position `position`: byte `position >> 3`, bit
    /// `position & 7` (that byte is then fetched).
    pub fn set_position_in_bits(&mut self, position: i64)
        ensures
            old(self).same_source(final(self)),
            final(self).spec_position() == position_after_bits(old(self).data().len(), position),
            final(self).cursor() == bits_cursor(old(self).data(), position),
    {
        proof {
            use_type_invariant(&*self);
            assert(0 <= (position & 7i64) < 8) by (bit_vector);
        }
        self.pos = (position >> 3) as u64;
        let shift = (position & 7) as u8;
        self.bit_shift = shift;
        if shift > 0 {
            let ghost mid = *self;
            self.fetch();
            proof {
                if mid.pos < mid.data@.len() {
                    assert(self.cursor().bytes =~= bits_cursor(mid.data@, position).bytes);
                } else {
                    assert(self.data@.skip(self.data@.len() as int) =~= Seq::<u8>::empty());
                    assert(self.cursor().bytes =~= bits_cursor(mid.data@, position).bytes);
                }
            }
        }
    }

    /// Drop the partly read byte, then read the next two bytes (lenient) as
    /// a little-endian unsigned short.
    pub fn reset_shift(&mut self) -> (r: Result<u16, DxfError>)
        ensures
            ({
                let c = cursor_at(old(self).data(), old(self).spec_position(), 0);
                let (bs, c2) = spec_next_bytes(c, 2);
                &&& r == Ok::<u16, DxfError>((bs[0] + 256 * bs[1]) as u16)
                &&& old(self).same_source(final(self))
                &&& final(self).cursor() == c2
                &&& final(self).spec_position() == next_position(old(self).spec_position(), old(self).data().len(), c2)
            }),
    {
        proof { use_type_invariant(&*self); }
        self.bit_shift = 0;
        let ghost mid = *self;
        proof {
            assert(mid.cursor() == cursor_at(mid.data@, mid.pos as nat, 0));
        }
        let bs = self.next_bytes(2);
        let low = bs[0] as u16;
        let high = bs[1] as u16;
        Ok(low + 256 * high)
    }

    /// Find the string stream of an object whose data ends at bit
    /// `position`, and move to its start.  Without one, the reader is
    /// marked empty and moved to the end of the data, and `position` is
    /// given back.
    pub fn set_position_by_flag(&mut self, position: i64) -> (r: Result<i64, DxfError>)
        requires
            position >= i64::MIN + 0x1_0000_0000,
        ensures
            old(self).data() == final(self).data(),
            old(self).spec_version() == final(self).spec_version(),
            old(self).spec_encoding() == final(self).spec_encoding(),
            match spec_string_stream_start(old(self).data(), position) {
                Ok(Some(start)) => r == Ok::<i64, DxfError>(start as i64)
                    && final(self).cursor() == bits_cursor(old(self).data(), start as i64)
                    && final(self).spec_position() == position_after_bits(old(self).data().len(), start as i64)
                    && final(self).spec_is_empty() == old(self).spec_is_empty(),
                Ok(None) => r == Ok::<i64, DxfError>(position)
                    && final(self).spec_is_empty()
                    && final(self).spec_position() == old(self).data().len()
                    && final(self).cursor() == (BitCursor { bytes: Seq::empty(), shift: 0 }),
                Err(e) => r == Err::<i64, DxfError>(e),
            },
    {
        let ghost data = self.data@;
        self.set_position_in_bits(position);
        let flag = self.read_bit()?;
        if flag {
            let length = position - 16;
            self.set_position_in_bits(length);
            let size = self.read_raw_ushort()?;
            let start = if size >= 0x8000 {
                let length2 = length - 16;
                self.set_position_in_bits(length2);
                let hi = self.read_raw_ushort()?;
                length2 - ((size - 0x8000) as i64 + (hi as i64) * 0x8000)
            } else {
                length - size as i64
            };
            self.set_position_in_bits(start);
            Ok(start)
        } else {
            proof { use_type_invariant(&*self); }
            self.is_empty = true;
            let len = self.stream_length();
            self.set_position(len);
            proof {
                assert(self.data@.skip(self.data@.len() as int) =~= Seq::<u8>::empty());
            }
            Ok(position)
        }
    }
}

/// A stream reader for `version` over `data` (the same reader serves
/// every version).
pub fn get_stream_handler(version: DxfVersion, data: Vec<u8>) -> (r: DwgStreamReaderBase)
    ensures
        r.data() == data@,
        r.spec_position() == 0,
        r.cursor() == (BitCursor { bytes: data@, shift: 0 }),
        !r.spec_is_empty(),
        r.spec_version() == version,
        r.spec_encoding() == TextEncoding::Windows1252,
{
    DwgStreamReaderBase::new(data, version)
}

/// Moving to a bit position inside the data and asking for the position
/// gives it back: a reader in the state `set_position_in_bits(p)` leaves
/// reports `p` from `position_in_bits`.
pub proof fn lemma_bit_position_roundtrip(r: &DwgStreamReaderBase, p: i64)
    requires
        0 <= p < r.data().len() * 8 || (0 <= p <= r.data().len() * 8 && p % 8 == 0),
        r.spec_position() == position_after_bits(r.data().len(), p),
        r.cursor() == bits_cursor(r.data(), p),
    ensures
        r.spec_position_in_bits() == p,
{
    assert(p >= 0 ==> (p >> 3u64) == p / 8 && (p & 7i64) == p % 8) by (bit_vector);
}


/// Moving to a bit position reads back: a reader set to bit `p` (as
/// [`DwgStreamReaderBase::set_position_in_bits`] leaves it) reports
/// position `p`, and, inside the data, its next bit is bit `p` of the
/// data, bits counted from the top of each byte.
pub proof fn lemma_set_position_reads_back(r: &DwgStreamReaderBase, p: i64)
    requires
        0 <= p < r.data().len() * 8 || (0 <= p <= r.data().len() * 8 && p % 8 == 0),
        r.spec_position() == position_after_bits(r.data().len(), p),
        r.cursor() == bits_cursor(r.data(), p),
    ensures
        r.spec_position_in_bits() == p,
        p < r.data().len() * 8 ==> spec_read_bit(r.cursor()).0
            == (((r.data()[p / 8] >> ((7 - p % 8) as u8)) & 1u8) == 1u8),
{
    lemma_bit_position_roundtrip(r, p);
    if p < r.data().len() * 8 {
        let data = r.data();
        assert(p >= 0 ==> (p >> 3u64) == p / 8 && (p & 7i64) == p % 8) by (bit_vector);
        let b = data[p / 8];
        let s = (p % 8) as u8;
        assert(pbyte(r.cursor().bytes, 0) == b);
        assert(s < 8 ==> ((((b << s) & 128u8) == 128u8) == (((b >> ((7 - s) as u8)) & 1u8) == 1u8)))
            by (bit_vector);
    }
}
} // verus!
