//! The data every object starts with: its handle, its extended data, its
//! owner, reactors and extended dictionary, and for entities the graphic
//! and display properties.
//!
//! Extended data comes in groups: a BitShort size (zero ends the data),
//! the handle of the application, then values up to `size` bytes further,
//! each a raw byte code followed by its value.

use vstd::prelude::*;
use crate::bit_model::{BitCursor, raw_remaining, spec_read_bit_short, next_position, spec_read_byte, spec_read_bytes,
    spec_read_raw_short, spec_read_raw_long, spec_read_raw_double, lemma_read_byte_progress,
    lemma_read_bytes_progress};
use crate::error::DxfError;
use crate::stream_reader::{DwgStreamReaderBase, cursor_moved};
use crate::stream_values::spec_handle_reference;
use crate::text::push_char;
use crate::templates::{EDataTemplate, EDataTemplateEntry};

verus! {

/// A value of extended data.  Reals are given as their IEEE-754 bit
/// patterns.
#[derive(Debug, Clone)]
pub enum XDataValue {
    /// A string (code 0).
    String(String),
    /// An opening or closing brace (code 1).
    ControlString(String),
    /// A layer, as the hexadecimal text of its handle (code 2).
    LayerName(String),
    /// A chunk of bytes (code 3).
    BinaryData(Vec<u8>),
    /// An entity handle (code 4).
    Handle(u64),
    /// A point (code 5).
    Point3D(u64, u64, u64),
    /// A real (code 10).
    Real(u64),
    /// A 16-bit integer (code 11).
    Integer16(i16),
    /// A 32-bit integer (code 12).
    Integer32(i32),
}

/// The content of an [`XDataValue`].
pub enum XDataValueModel {
    String(Seq<char>),
    ControlString(Seq<char>),
    LayerName(Seq<char>),
    BinaryData(Seq<u8>),
    Handle(u64),
    Point3D(u64, u64, u64),
    Real(u64),
    Integer16(i16),
    Integer32(i32),
}

impl View for XDataValue {
    type V = XDataValueModel;

    open spec fn view(&self) -> XDataValueModel {
        match self {
            XDataValue::String(s) => XDataValueModel::String(s@),
            XDataValue::ControlString(s) => XDataValueModel::ControlString(s@),
            XDataValue::LayerName(s) => XDataValueModel::LayerName(s@),
            XDataValue::BinaryData(b) => XDataValueModel::BinaryData(b@),
            XDataValue::Handle(h) => XDataValueModel::Handle(*h),
            XDataValue::Point3D(x, y, z) => XDataValueModel::Point3D(*x, *y, *z),
            XDataValue::Real(r) => XDataValueModel::Real(*r),
            XDataValue::Integer16(v) => XDataValueModel::Integer16(*v),
            XDataValue::Integer32(v) => XDataValueModel::Integer32(*v),
        }
    }
}

/// The contents of a list of values.
pub open spec fn values_model(v: Seq<XDataValue>) -> Seq<XDataValueModel> {
    v.map_values(|x: XDataValue| x@)
}

/// The text `String::from_utf8_lossy` makes of `bytes`: the UTF-8
/// decoding, each invalid sequence replaced by U+FFFD.
pub uninterp spec fn utf8_lossy_text(bytes: Seq<u8>) -> Seq<char>;

/// `String::from_utf8_lossy` of std, made an owned string.  Trusted: the
/// result is the text named [`utf8_lossy_text`] of the bytes (a function
/// of the bytes alone).
#[verifier::external_body]
fn lossy_utf8(bytes: &[u8]) -> (r: String)
    ensures
        r@ == utf8_lossy_text(bytes@),
{
    String::from_utf8_lossy(bytes).into_owned()
}

/// The hexadecimal digit of `d` (upper case).
pub open spec fn hex_digit(d: nat) -> char {
    if d < 10 { (d + 48) as char } else { (d + 55) as char }
}

/// The hexadecimal digits of `n`, most significant first, without leading
/// zeros (`0` for zero).
pub open spec fn hex_digits(n: nat) -> Seq<char>
    decreases n,
{
    if n < 16 {
        seq![hex_digit(n)]
    } else {
        hex_digits(n / 16).push(hex_digit(n % 16))
    }
}

/// The name a layer handle is given: `0x` and its upper-case hexadecimal
/// digits.
pub open spec fn handle_name(h: u64) -> Seq<char> {
    seq!['0', 'x'] + hex_digits(h as nat)
}

/// Append the hexadecimal digits of `n` to `s`.
fn push_hex(s: &mut String, n: u64)
    ensures
        final(s)@ == old(s)@ + hex_digits(n as nat),
    decreases n,
{
    if n >= 16 {
        push_hex(s, n / 16);
    }
    let d = (n % 16) as u8;
    let c = if d < 10 { (d + 48) as char } else { (d + 55) as char };
    push_char(s, c);
    proof {
        if n >= 16 {
            assert(old(s)@ + hex_digits(n as nat) =~= (old(s)@ + hex_digits((n / 16) as nat)).push(c));
        } else {
            assert(old(s)@ + hex_digits(n as nat) =~= old(s)@.push(c));
        }
    }
}

/// The name of the layer of handle `h` (see [`handle_name`]).
pub fn handle_hex_name(h: u64) -> (r: String)
    ensures
        r@ == handle_name(h),
{
    let mut s = String::new();
    push_char(&mut s, '0');
    push_char(&mut s, 'x');
    push_hex(&mut s, h);
    proof {
        assert(s@ =~= handle_name(h));
    }
    s
}

/// An extended-data value of code `code` read from `c` (`None` for a code
/// that is not known): 0, a byte count, a code page (raw short, unused)
/// and that many bytes of UTF-8 text; 1, a byte, an opening brace when it
/// is `{` and a closing one otherwise; 2, a handle, the layer; 3, a byte
/// count and that many bytes; 4, a handle; 5, three raw doubles; 10, a
/// raw double; 11, a raw short; 12, a raw long.
#[verifier::opaque]
pub open spec fn spec_xdata_value(c: BitCursor, code: u8) -> Result<Option<(XDataValueModel, BitCursor)>, DxfError> {
    if code == 0 {
        match spec_read_byte(c) {
            None => Err(DxfError::UnexpectedEof),
            Some((n, c1)) => match spec_read_raw_short(c1) {
                None => Err(DxfError::UnexpectedEof),
                Some((_, c2)) => match spec_read_bytes(c2, n as nat) {
                    None => Err(DxfError::UnexpectedEof),
                    Some((bs, c3)) => Ok(Some((XDataValueModel::String(utf8_lossy_text(bs)), c3))),
                },
            },
        }
    } else if code == 1 {
        match spec_read_byte(c) {
            None => Err(DxfError::UnexpectedEof),
            Some((b, c1)) => Ok(Some((XDataValueModel::ControlString(
                if b == 0x7Bu8 { seq!['{'] } else { seq!['}'] }), c1))),
        }
    } else if code == 2 || code == 4 {
        match spec_handle_reference(c, 0) {
            Err(e) => Err(e),
            Ok(((h, _), c1)) => Ok(Some((
                if code == 2 { XDataValueModel::LayerName(handle_name(h)) } else { XDataValueModel::Handle(h) }, c1))),
        }
    } else if code == 3 {
        match spec_read_byte(c) {
            None => Err(DxfError::UnexpectedEof),
            Some((n, c1)) => match spec_read_bytes(c1, n as nat) {
                None => Err(DxfError::UnexpectedEof),
                Some((bs, c2)) => Ok(Some((XDataValueModel::BinaryData(bs), c2))),
            },
        }
    } else if code == 5 {
        match spec_read_raw_double(c) {
            None => Err(DxfError::UnexpectedEof),
            Some((x, c1)) => match spec_read_raw_double(c1) {
                None => Err(DxfError::UnexpectedEof),
                Some((y, c2)) => match spec_read_raw_double(c2) {
                    None => Err(DxfError::UnexpectedEof),
                    Some((z, c3)) => Ok(Some((XDataValueModel::Point3D(x, y, z), c3))),
                },
            },
        }
    } else if code == 10 {
        match spec_read_raw_double(c) {
            None => Err(DxfError::UnexpectedEof),
            Some((x, c1)) => Ok(Some((XDataValueModel::Real(x), c1))),
        }
    } else if code == 11 {
        match spec_read_raw_short(c) {
            None => Err(DxfError::UnexpectedEof),
            Some((v, c1)) => Ok(Some((XDataValueModel::Integer16(v as i16), c1))),
        }
    } else if code == 12 {
        match spec_read_raw_long(c) {
            None => Err(DxfError::UnexpectedEof),
            Some((v, c1)) => Ok(Some((XDataValueModel::Integer32(v as i32), c1))),
        }
    } else {
        Ok(None)
    }
}

/// A value read never adds whole bytes to the stream.
pub proof fn lemma_xdata_value_progress(c: BitCursor, code: u8)
    ensures
        spec_xdata_value(c, code) matches Ok(Some((_, c1))) ==> 0 <= raw_remaining(c1) <= raw_remaining(c),
{
    reveal(spec_xdata_value);
    lemma_read_byte_progress(c);
    lemma_read_bytes_progress(c, 2);
    lemma_read_bytes_progress(c, 4);
    lemma_read_bytes_progress(c, 8);
    if let Some((n, c1)) = spec_read_byte(c) {
        lemma_read_bytes_progress(c1, 2);
        lemma_read_bytes_progress(c1, n as nat);
        lemma_read_bytes_progress(c1, 8);
        if let Some((_, c2)) = spec_read_bytes(c1, 2) {
            lemma_read_bytes_progress(c2, n as nat);
        }
        lemma_read_bytes_progress(c1, (n % 16) as nat);
    }
    if let Some((_, c1)) = spec_read_bytes(c, 8) {
        lemma_read_bytes_progress(c1, 8);
        if let Some((_, c2)) = spec_read_bytes(c1, 8) {
            lemma_read_bytes_progress(c2, 8);
        }
    }
}

/// Where a group is skipped to from stream `c` at byte position `p`: when
/// `end` lies ahead, the reader skips `end - p` bytes (taken as a `usize`;
/// see [`spec_advance`]).
pub open spec fn spec_skip_to(data: Seq<u8>, c: BitCursor, p: nat, end: u64) -> (BitCursor, nat) {
    let rem = if end > p { end - p } else { 0 };
    if rem > 0 {
        spec_advance(data, c, p, (rem as usize) as nat)
    } else {
        (c, p)
    }
}

/// The stream `c` at byte position `p` of `data` after skipping `off`
/// bytes (see `DwgStreamReaderBase::advance`): the position moves `off - 1`
/// bytes further (when `off > 1` and no overflow), then a byte is read
/// when one is there.
pub open spec fn spec_advance(data: Seq<u8>, c: BitCursor, p: nat, off: nat) -> (BitCursor, nat) {
    let q = if off > 1 && p + off - 1 <= u64::MAX { (p + off - 1) as nat } else { p };
    let cm = cursor_moved(data, c, q);
    match spec_read_byte(cm) {
        Some((_, c1)) => (c1, next_position(q, data.len(), c1)),
        None => (cm, q),
    }
}

/// The values of a group read from stream `c` at byte position `p` of
/// `data` while the position (taken as an `i32`) is before `end` (also
/// taken as an `i32`): a code byte, then the value.  A code that is not
/// known ends the values, the reader skipping to `end`.
pub open spec fn spec_xdata_values(data: Seq<u8>, c: BitCursor, p: nat, end: u64)
    -> Result<(Seq<XDataValueModel>, BitCursor, nat), DxfError>
    decreases (if raw_remaining(c) > 0 { raw_remaining(c) } else { 0 }) as nat,
{
    if !((p as i32) < (end as i32)) {
        Ok((Seq::empty(), c, p))
    } else {
        match spec_read_byte(c) {
            None => Err(DxfError::UnexpectedEof),
            Some((code, c1)) => {
                let p1 = next_position(p, data.len(), c1);
                match spec_xdata_value(c1, code) {
                    Err(e) => Err(e),
                    Ok(None) => {
                        let (c2, p2) = spec_skip_to(data, c1, p1, end);
                        Ok((Seq::empty(), c2, p2))
                    },
                    Ok(Some((v, c2))) => {
                        proof {
                            lemma_read_byte_progress(c);
                            lemma_xdata_value_progress(c1, code);
                        }
                        match spec_xdata_values(data, c2, next_position(p1, data.len(), c2), end) {
                            Err(e) => Err(e),
                            Ok((vs, c3, p3)) => Ok((seq![v] + vs, c3, p3)),
                        }
                    },
                }
            },
        }
    }
}

/// Read the extended-data value of code `code` (see [`spec_xdata_value`]);
/// `None`, with nothing read, for a code that is not known.
fn read_xdata_value(reader: &mut DwgStreamReaderBase, code: u8) -> (r: Result<Option<XDataValue>, DxfError>)
    ensures
        match spec_xdata_value(old(reader).cursor(), code) {
            Err(e) => r == Err::<Option<XDataValue>, DxfError>(e),
            Ok(None) => r matches Ok(None) && *final(reader) == *old(reader),
            Ok(Some((v, c1))) => r matches Ok(Some(x)) && x@ == v && old(reader).moved_to(final(reader), c1),
        },
        old(reader).same_source(final(reader)),
{
    reveal(spec_xdata_value);
    let ghost s0 = *reader;
    if code == 0 {
        let n = reader.read_raw_char()?;
        let ghost s1 = *reader;
        let _code_page = reader.read_raw_short()?;
        let ghost s2 = *reader;
        let bytes = reader.read_bytes(n as usize)?;
        proof {
            DwgStreamReaderBase::lemma_moved_trans(&s0, &s1, &s2, s1.cursor(), s2.cursor());
            DwgStreamReaderBase::lemma_moved_trans(&s0, &s2, reader, s2.cursor(), reader.cursor());
        }
        Ok(Some(XDataValue::String(lossy_utf8(bytes.as_slice()))))
    } else if code == 1 {
        let b = reader.read_raw_char()?;
        let mut t = String::new();
        push_char(&mut t, if b == 0x7B { '{' } else { '}' });
        proof {
            assert(t@ =~= (if b == 0x7Bu8 { seq!['{'] } else { seq!['}'] }));
        }
        Ok(Some(XDataValue::ControlString(t)))
    } else if code == 2 {
        let h = reader.handle_reference()?;
        Ok(Some(XDataValue::LayerName(handle_hex_name(h))))
    } else if code == 3 {
        let n = reader.read_raw_char()?;
        let ghost s1 = *reader;
        let bytes = reader.read_bytes(n as usize)?;
        proof { DwgStreamReaderBase::lemma_moved_trans(&s0, &s1, reader, s1.cursor(), reader.cursor()); }
        Ok(Some(XDataValue::BinaryData(bytes)))
    } else if code == 4 {
        let h = reader.handle_reference()?;
        Ok(Some(XDataValue::Handle(h)))
    } else if code == 5 {
        let x = reader.read_raw_double()?;
        let ghost s1 = *reader;
        let y = reader.read_raw_double()?;
        let ghost s2 = *reader;
        let z = reader.read_raw_double()?;
        proof {
            DwgStreamReaderBase::lemma_moved_trans(&s0, &s1, &s2, s1.cursor(), s2.cursor());
            DwgStreamReaderBase::lemma_moved_trans(&s0, &s2, reader, s2.cursor(), reader.cursor());
        }
        Ok(Some(XDataValue::Point3D(x, y, z)))
    } else if code == 10 {
        let x = reader.read_raw_double()?;
        Ok(Some(XDataValue::Real(x)))
    } else if code == 11 {
        let v = reader.read_raw_short()?;
        Ok(Some(XDataValue::Integer16(v)))
    } else if code == 12 {
        let v = reader.read_raw_long()?;
        Ok(Some(XDataValue::Integer32(v)))
    } else {
        Ok(None)
    }
}

/// `r` with `pre` put before its values.
pub open spec fn with_prefix(pre: Seq<XDataValueModel>, r: Result<(Seq<XDataValueModel>, BitCursor, nat), DxfError>)
    -> Result<(Seq<XDataValueModel>, BitCursor, nat), DxfError>
{
    match r {
        Err(e) => Err(e),
        Ok((vs, c, p)) => Ok((pre + vs, c, p)),
    }
}

proof fn lemma_with_prefix_push(pre: Seq<XDataValueModel>, v: XDataValueModel,
    r: Result<(Seq<XDataValueModel>, BitCursor, nat), DxfError>)
    ensures
        with_prefix(pre, with_prefix(seq![v], r)) == with_prefix(pre.push(v), r),
{
    if let Ok((vs, c, p)) = r {
        assert(pre + (seq![v] + vs) =~= pre.push(v) + vs);
    }
}

/// Read the values of a group up to byte position `end` (see
/// [`spec_xdata_values`]).
pub(crate) fn read_xdata_values(reader: &mut DwgStreamReaderBase, end: u64) -> (r: Result<Vec<XDataValue>, DxfError>)
    ensures
        match spec_xdata_values(old(reader).data(), old(reader).cursor(), old(reader).spec_position(), end) {
            Err(e) => r == Err::<Vec<XDataValue>, DxfError>(e),
            Ok((vs, c, p)) => r matches Ok(v) && values_model(v@) == vs
                && final(reader).cursor() == c && final(reader).spec_position() == p,
        },
        old(reader).same_source(final(reader)),
{
    let ghost data = reader.data();
    let ghost total = spec_xdata_values(data, reader.cursor(), reader.spec_position(), end);
    let mut values: Vec<XDataValue> = Vec::new();
    proof {
        assert(values_model(values@) =~= Seq::<XDataValueModel>::empty());
        if let Ok((vs, c, p)) = total {
            assert(Seq::<XDataValueModel>::empty() + vs =~= vs);
        }
    }
    loop
        invariant_except_break
            old(reader).same_source(reader),
            data == reader.data(),
            total == spec_xdata_values(old(reader).data(), old(reader).cursor(), old(reader).spec_position(), end),
            total == with_prefix(values_model(values@),
                spec_xdata_values(data, reader.cursor(), reader.spec_position(), end)),
        ensures
            old(reader).same_source(reader),
            total == spec_xdata_values(old(reader).data(), old(reader).cursor(), old(reader).spec_position(), end),
            total == Ok::<(Seq<XDataValueModel>, BitCursor, nat), DxfError>(
                (values_model(values@), reader.cursor(), reader.spec_position())),
        decreases (if raw_remaining(reader.cursor()) > 0 { raw_remaining(reader.cursor()) } else { 0 }) as nat,
    {
        if !((reader.position() as i32) < (end as i32)) {
            proof {
                assert(values_model(values@) + Seq::<XDataValueModel>::empty() =~= values_model(values@));
            }
            break;
        }
        let ghost s0 = *reader;
        let ghost rest0 = spec_xdata_values(data, s0.cursor(), s0.spec_position(), end);
        let code = match reader.read_raw_char() {
            Ok(b) => b,
            Err(e) => {
                proof { assert(rest0 == Err::<(Seq<XDataValueModel>, BitCursor, nat), DxfError>(e)); }
                return Err(e);
            },
        };
        let ghost s1 = *reader;
        proof {
            lemma_read_byte_progress(s0.cursor());
            lemma_xdata_value_progress(s1.cursor(), code);
            assert(s1.spec_position() == next_position(s0.spec_position(), data.len(), s1.cursor()));
        }
        let value = match read_xdata_value(reader, code) {
            Ok(x) => x,
            Err(e) => {
                proof { assert(rest0 == Err::<(Seq<XDataValueModel>, BitCursor, nat), DxfError>(e)); }
                return Err(e);
            },
        };
        match value {
            Some(v) => {
                proof {
                    DwgStreamReaderBase::lemma_moved_trans(&s0, &s1, reader, s1.cursor(), reader.cursor());
                    assert(rest0 == with_prefix(seq![v@],
                        spec_xdata_values(data, reader.cursor(), reader.spec_position(), end)));
                    lemma_with_prefix_push(values_model(values@), v@,
                        spec_xdata_values(data, reader.cursor(), reader.spec_position(), end));
                }
                let ghost before = values@;
                values.push(v);
                proof {
                    assert(values_model(values@) =~= values_model(before).push(v@));
                }
            },
            None => {
                let remaining = end.saturating_sub(reader.position());
                if remaining > 0 {
                    reader.advance(remaining as usize);
                }
                proof {
                    assert(rest0 == Ok::<(Seq<XDataValueModel>, BitCursor, nat), DxfError>(
                        (Seq::<XDataValueModel>::empty(), reader.cursor(), reader.spec_position())));
                    assert(values_model(values@) + Seq::<XDataValueModel>::empty() =~= values_model(values@));
                }
                break;
            },
        }
    }
    Ok(values)
}

/// A group of extended data: the handle of its application and its values.
pub type XDataGroup = (u64, Seq<XDataValueModel>);

/// The groups of an extended-data container, in order.
pub open spec fn edata_model(e: EDataTemplate<XDataValue>) -> Seq<XDataGroup> {
    e.entries@.map_values(|en: EDataTemplateEntry<XDataValue>| (en.app_handle, values_model(en.values@)))
}

/// `n` added to `p`, saturating at `u64::MAX`.
pub open spec fn saturating_add(p: nat, n: nat) -> u64 {
    if p + n <= u64::MAX { (p + n) as u64 } else { u64::MAX }
}

/// The extended data read from stream `c` at byte position `p` of `data`:
/// groups until a size that is not positive.  A group is a BitShort size,
/// the application handle, and its values up to `size` bytes after the
/// handle.  A group that leaves the reader no further on, or that starts
/// past the end of the data, is refused.
pub open spec fn spec_extended_data(data: Seq<u8>, c: BitCursor, p: nat)
    -> Result<(Seq<XDataGroup>, BitCursor, nat), DxfError>
    decreases (if p <= data.len() { data.len() + 1 - p } else { 0 }) as nat,
{
    match spec_read_bit_short(c) {
        None => Err(DxfError::UnexpectedEof),
        Some((n, c1)) => {
            let p1 = next_position(p, data.len(), c1);
            if n <= 0 {
                Ok((Seq::empty(), c1, p1))
            } else {
                match spec_handle_reference(c1, 0) {
                    Err(e) => Err(e),
                    Ok(((app, _), c2)) => {
                        let p2 = next_position(p1, data.len(), c2);
                        match spec_xdata_values(data, c2, p2, saturating_add(p2, n as nat)) {
                            Err(e) => Err(e),
                            Ok((vals, c3, p3)) => if p3 <= p || p > data.len() {
                                Err(DxfError::InvalidFormat)
                            } else {
                                match spec_extended_data(data, c3, p3) {
                                    Err(e) => Err(e),
                                    Ok((groups, c4, p4)) => Ok((seq![(app, vals)] + groups, c4, p4)),
                                }
                            },
                        }
                    },
                }
            }
        },
    }
}

/// `r` with the groups `pre` put before its groups.
pub open spec fn groups_with_prefix(pre: Seq<XDataGroup>, r: Result<(Seq<XDataGroup>, BitCursor, nat), DxfError>)
    -> Result<(Seq<XDataGroup>, BitCursor, nat), DxfError>
{
    match r {
        Err(e) => Err(e),
        Ok((gs, c, p)) => Ok((pre + gs, c, p)),
    }
}

pub(crate) proof fn lemma_groups_prefix_push(pre: Seq<XDataGroup>, g: XDataGroup,
    r: Result<(Seq<XDataGroup>, BitCursor, nat), DxfError>)
    ensures
        groups_with_prefix(pre, groups_with_prefix(seq![g], r)) == groups_with_prefix(pre.push(g), r),
{
    if let Ok((gs, c, p)) = r {
        assert(pre + (seq![g] + gs) =~= pre.push(g) + gs);
    }
}

/// `n` handle references (resolved against `reference`) read from stream
/// `c` at byte position `p` of data of `len` bytes.
pub open spec fn spec_handle_list(c: BitCursor, p: nat, len: nat, reference: u64, n: nat)
    -> Result<(Seq<u64>, BitCursor, nat), DxfError>
    decreases n,
{
    if n == 0 {
        Ok((Seq::empty(), c, p))
    } else {
        match spec_handle_reference(c, reference) {
            Err(e) => Err(e),
            Ok(((h, _), c1)) => match spec_handle_list(c1, next_position(p, len, c1), len, reference, (n - 1) as nat) {
                Err(e) => Err(e),
                Ok((hs, c2, p2)) => Ok((seq![h] + hs, c2, p2)),
            },
        }
    }
}

/// `r` with the handles `pre` put before its handles.
pub open spec fn handles_with_prefix(pre: Seq<u64>, r: Result<(Seq<u64>, BitCursor, nat), DxfError>)
    -> Result<(Seq<u64>, BitCursor, nat), DxfError>
{
    match r {
        Err(e) => Err(e),
        Ok((hs, c, p)) => Ok((pre + hs, c, p)),
    }
}

/// Read `count` handle references resolved against `reference` (see
/// [`spec_handle_list`]).
pub(crate) fn read_handle_list(reader: &mut DwgStreamReaderBase, reference: u64, count: usize)
    -> (r: Result<Vec<u64>, DxfError>)
    ensures
        match spec_handle_list(old(reader).cursor(), old(reader).spec_position(), old(reader).data().len(),
            reference, count as nat) {
            Err(e) => r == Err::<Vec<u64>, DxfError>(e),
            Ok((hs, c, p)) => r matches Ok(v) && v@ == hs && final(reader).cursor() == c
                && final(reader).spec_position() == p,
        },
        old(reader).same_source(final(reader)),
{
    let ghost len = reader.data().len();
    let ghost total = spec_handle_list(reader.cursor(), reader.spec_position(), len, reference, count as nat);
    let mut handles: Vec<u64> = Vec::new();
    let mut i: usize = 0;
    proof {
        if let Ok((hs, c, p)) = total {
            assert(handles@ + hs =~= hs);
        }
    }
    while i < count
        invariant
            i <= count,
            len == old(reader).data().len(),
            total == spec_handle_list(old(reader).cursor(), old(reader).spec_position(), len, reference, count as nat),
            old(reader).same_source(reader),
            total == handles_with_prefix(handles@,
                spec_handle_list(reader.cursor(), reader.spec_position(), len, reference, (count - i) as nat)),
        decreases count - i,
    {
        let ghost rest0 = spec_handle_list(reader.cursor(), reader.spec_position(), len, reference, (count - i) as nat);
        let h = match reader.handle_reference_resolved(reference) {
            Ok(h) => h,
            Err(e) => {
                proof { assert(rest0 == Err::<(Seq<u64>, BitCursor, nat), DxfError>(e)); }
                return Err(e);
            },
        };
        proof {
            let rest1 = spec_handle_list(reader.cursor(), reader.spec_position(), len, reference, (count - i - 1) as nat);
            assert(rest0 == handles_with_prefix(seq![h], rest1));
            if let Ok((hs, c, p)) = rest1 {
                assert(handles@ + (seq![h] + hs) =~= handles@.push(h) + hs);
            }
        }
        handles.push(h);
        i = i + 1;
    }
    proof {
        if let Ok((hs, c, p)) = total {
            assert(handles@ + Seq::<u64>::empty() =~= handles@);
        }
    }
    Ok(handles)
}

} // verus!
