//! The layout of the `AcDb:Header` section: the kinds of its system
//! variables in the order they are stored, for each version (see
//! [`FieldKind`]).

use vstd::prelude::*;
use crate::object_reader::FieldKind;
use crate::table_entries::only_if;
use crate::object_records::version_at_least;
use crate::version::DxfVersion;

verus! {

/// Part 1 of the header variables before the handle seed.
#[verifier::opaque]
pub open spec fn header_before_seed_1(v: DxfVersion) -> Seq<FieldKind> {
    only_if(version_at_least(v, DxfVersion::AC1027), seq![FieldKind::BitLongLong])
        + seq![FieldKind::BitDouble, FieldKind::BitDouble, FieldKind::BitDouble, FieldKind::BitDouble,
        FieldKind::Text, FieldKind::Text, FieldKind::Text, FieldKind::Text, FieldKind::BitLong,
        FieldKind::BitLong]
        + only_if(!version_at_least(v, DxfVersion::AC1015), seq![FieldKind::BitShort])
        + only_if(!version_at_least(v, DxfVersion::AC1018), seq![FieldKind::Handle])
        + seq![FieldKind::Bit, FieldKind::Bit]
        + only_if(!version_at_least(v, DxfVersion::AC1015), seq![FieldKind::Bit])
        + seq![FieldKind::Bit, FieldKind::Bit, FieldKind::Bit, FieldKind::Bit, FieldKind::Bit,
        FieldKind::Bit, FieldKind::Bit]
        + only_if(!version_at_least(v, DxfVersion::AC1015), seq![FieldKind::Bit])
}

/// Append part 1 of the header variables before the handle seed to `layout` (see [`header_before_seed_1`]).
fn push_header_before_seed_1(v: DxfVersion, layout: &mut Vec<FieldKind>)
    ensures
        final(layout)@ == old(layout)@ + header_before_seed_1(v),
{
    let r2000 = v.at_least(DxfVersion::AC1015);
    let r2004 = v.at_least(DxfVersion::AC1018);
    let r2013 = v.at_least(DxfVersion::AC1027);
    let ghost start = layout@;
    if r2013 {
        layout.push(FieldKind::BitLongLong);
    }
    layout.push(FieldKind::BitDouble);
    layout.push(FieldKind::BitDouble);
    layout.push(FieldKind::BitDouble);
    layout.push(FieldKind::BitDouble);
    layout.push(FieldKind::Text);
    layout.push(FieldKind::Text);
    layout.push(FieldKind::Text);
    layout.push(FieldKind::Text);
    layout.push(FieldKind::BitLong);
    layout.push(FieldKind::BitLong);
    if !r2000 {
        layout.push(FieldKind::BitShort);
    }
    if !r2004 {
        layout.push(FieldKind::Handle);
    }
    layout.push(FieldKind::Bit);
    layout.push(FieldKind::Bit);
    if !r2000 {
        layout.push(FieldKind::Bit);
    }
    layout.push(FieldKind::Bit);
    layout.push(FieldKind::Bit);
    layout.push(FieldKind::Bit);
    layout.push(FieldKind::Bit);
    layout.push(FieldKind::Bit);
    layout.push(FieldKind::Bit);
    layout.push(FieldKind::Bit);
    if !r2000 {
        layout.push(FieldKind::Bit);
    }
    proof {
        reveal(header_before_seed_1);
        assert(layout@ =~= start + header_before_seed_1(v));
    }
}

/// Part 2 of the header variables before the handle seed.
#[verifier::opaque]
pub open spec fn header_before_seed_2(v: DxfVersion) -> Seq<FieldKind> {
    only_if(version_at_least(v, DxfVersion::AC1018), seq![FieldKind::Bit])
        + seq![FieldKind::Bit, FieldKind::Bit, FieldKind::Bit, FieldKind::Bit]
        + only_if(!version_at_least(v, DxfVersion::AC1015), seq![FieldKind::Bit, FieldKind::Bit])
        + seq![FieldKind::Bit, FieldKind::Bit]
        + only_if(!version_at_least(v, DxfVersion::AC1015), seq![FieldKind::Bit])
        + seq![FieldKind::Bit, FieldKind::Bit, FieldKind::Bit]
        + only_if(!version_at_least(v, DxfVersion::AC1015), seq![FieldKind::Bit])
        + seq![FieldKind::Bit, FieldKind::Bit, FieldKind::BitShort]
        + only_if(!version_at_least(v, DxfVersion::AC1015), seq![FieldKind::BitShort])
        + seq![FieldKind::BitShort, FieldKind::BitShort, FieldKind::BitShort, FieldKind::BitShort,
        FieldKind::BitShort]
        + only_if(!version_at_least(v, DxfVersion::AC1015), seq![FieldKind::BitShort])
}

/// Append part 2 of the header variables before the handle seed to `layout` (see [`header_before_seed_2`]).
fn push_header_before_seed_2(v: DxfVersion, layout: &mut Vec<FieldKind>)
    ensures
        final(layout)@ == old(layout)@ + header_before_seed_2(v),
{
    let r2000 = v.at_least(DxfVersion::AC1015);
    let r2004 = v.at_least(DxfVersion::AC1018);
    let ghost start = layout@;
    if r2004 {
        layout.push(FieldKind::Bit);
    }
    layout.push(FieldKind::Bit);
    layout.push(FieldKind::Bit);
    layout.push(FieldKind::Bit);
    layout.push(FieldKind::Bit);
    if !r2000 {
        layout.push(FieldKind::Bit);
        layout.push(FieldKind::Bit);
    }
    layout.push(FieldKind::Bit);
    layout.push(FieldKind::Bit);
    if !r2000 {
        layout.push(FieldKind::Bit);
    }
    layout.push(FieldKind::Bit);
    layout.push(FieldKind::Bit);
    layout.push(FieldKind::Bit);
    if !r2000 {
        layout.push(FieldKind::Bit);
    }
    layout.push(FieldKind::Bit);
    layout.push(FieldKind::Bit);
    layout.push(FieldKind::BitShort);
    if !r2000 {
        layout.push(FieldKind::BitShort);
    }
    layout.push(FieldKind::BitShort);
    layout.push(FieldKind::BitShort);
    layout.push(FieldKind::BitShort);
    layout.push(FieldKind::BitShort);
    layout.push(FieldKind::BitShort);
    if !r2000 {
        layout.push(FieldKind::BitShort);
    }
    proof {
        reveal(header_before_seed_2);
        assert(layout@ =~= start + header_before_seed_2(v));
    }
}

/// Part 3 of the header variables before the handle seed.
#[verifier::opaque]
pub open spec fn header_before_seed_3(v: DxfVersion) -> Seq<FieldKind> {
    seq![FieldKind::BitShort]
        + only_if(!version_at_least(v, DxfVersion::AC1015), seq![FieldKind::BitShort])
        + seq![FieldKind::BitShort]
        + only_if(!version_at_least(v, DxfVersion::AC1015), seq![FieldKind::BitShort])
        + only_if(version_at_least(v, DxfVersion::AC1018), seq![FieldKind::BitLong, FieldKind::BitLong, FieldKind::BitLong])
        + seq![FieldKind::BitShort, FieldKind::BitShort, FieldKind::BitShort, FieldKind::BitShort,
        FieldKind::BitShort, FieldKind::BitShort, FieldKind::BitShort, FieldKind::BitShort,
        FieldKind::BitShort, FieldKind::BitShort, FieldKind::BitShort, FieldKind::BitShort,
        FieldKind::BitShort, FieldKind::BitShort, FieldKind::BitShort, FieldKind::BitShort]
        + seq![FieldKind::BitShort, FieldKind::BitShort, FieldKind::BitShort, FieldKind::BitDouble,
        FieldKind::BitDouble, FieldKind::BitDouble, FieldKind::BitDouble, FieldKind::BitDouble,
        FieldKind::BitDouble, FieldKind::BitDouble, FieldKind::BitDouble, FieldKind::BitDouble,
        FieldKind::BitDouble, FieldKind::BitDouble, FieldKind::BitDouble, FieldKind::BitDouble]
}

/// Append part 3 of the header variables before the handle seed to `layout` (see [`header_before_seed_3`]).
fn push_header_before_seed_3(v: DxfVersion, layout: &mut Vec<FieldKind>)
    ensures
        final(layout)@ == old(layout)@ + header_before_seed_3(v),
{
    let r2000 = v.at_least(DxfVersion::AC1015);
    let r2004 = v.at_least(DxfVersion::AC1018);
    let ghost start = layout@;
    layout.push(FieldKind::BitShort);
    if !r2000 {
        layout.push(FieldKind::BitShort);
    }
    layout.push(FieldKind::BitShort);
    if !r2000 {
        layout.push(FieldKind::BitShort);
    }
    if r2004 {
        layout.push(FieldKind::BitLong);
        layout.push(FieldKind::BitLong);
        layout.push(FieldKind::BitLong);
    }
    layout.push(FieldKind::BitShort);
    layout.push(FieldKind::BitShort);
    layout.push(FieldKind::BitShort);
    layout.push(FieldKind::BitShort);
    layout.push(FieldKind::BitShort);
    layout.push(FieldKind::BitShort);
    layout.push(FieldKind::BitShort);
    layout.push(FieldKind::BitShort);
    layout.push(FieldKind::BitShort);
    layout.push(FieldKind::BitShort);
    layout.push(FieldKind::BitShort);
    layout.push(FieldKind::BitShort);
    layout.push(FieldKind::BitShort);
    layout.push(FieldKind::BitShort);
    layout.push(FieldKind::BitShort);
    layout.push(FieldKind::BitShort);
    layout.push(FieldKind::BitShort);
    layout.push(FieldKind::BitShort);
    layout.push(FieldKind::BitShort);
    layout.push(FieldKind::BitDouble);
    layout.push(FieldKind::BitDouble);
    layout.push(FieldKind::BitDouble);
    layout.push(FieldKind::BitDouble);
    layout.push(FieldKind::BitDouble);
    layout.push(FieldKind::BitDouble);
    layout.push(FieldKind::BitDouble);
    layout.push(FieldKind::BitDouble);
    layout.push(FieldKind::BitDouble);
    layout.push(FieldKind::BitDouble);
    layout.push(FieldKind::BitDouble);
    layout.push(FieldKind::BitDouble);
    layout.push(FieldKind::BitDouble);
    proof {
        reveal(header_before_seed_3);
        assert(layout@ =~= start + header_before_seed_3(v));
    }
}

/// Part 4 of the header variables before the handle seed.
#[verifier::opaque]
pub open spec fn header_before_seed_4(v: DxfVersion) -> Seq<FieldKind> {
    seq![FieldKind::BitDouble, FieldKind::BitDouble, FieldKind::BitDouble, FieldKind::BitDouble,
        FieldKind::BitDouble, FieldKind::BitDouble, FieldKind::BitDouble, FieldKind::BitDouble,
        FieldKind::Text, FieldKind::BitLong, FieldKind::BitLong, FieldKind::BitLong,
        FieldKind::BitLong]
        + only_if(version_at_least(v, DxfVersion::AC1018), seq![FieldKind::BitLong, FieldKind::BitLong, FieldKind::BitLong])
        + seq![FieldKind::BitLong, FieldKind::BitLong, FieldKind::BitLong, FieldKind::BitLong,
        FieldKind::CmColor]
}

/// Append part 4 of the header variables before the handle seed to `layout` (see [`header_before_seed_4`]).
fn push_header_before_seed_4(v: DxfVersion, layout: &mut Vec<FieldKind>)
    ensures
        final(layout)@ == old(layout)@ + header_before_seed_4(v),
{
    let r2004 = v.at_least(DxfVersion::AC1018);
    let ghost start = layout@;
    layout.push(FieldKind::BitDouble);
    layout.push(FieldKind::BitDouble);
    layout.push(FieldKind::BitDouble);
    layout.push(FieldKind::BitDouble);
    layout.push(FieldKind::BitDouble);
    layout.push(FieldKind::BitDouble);
    layout.push(FieldKind::BitDouble);
    layout.push(FieldKind::BitDouble);
    layout.push(FieldKind::Text);
    layout.push(FieldKind::BitLong);
    layout.push(FieldKind::BitLong);
    layout.push(FieldKind::BitLong);
    layout.push(FieldKind::BitLong);
    if r2004 {
        layout.push(FieldKind::BitLong);
        layout.push(FieldKind::BitLong);
        layout.push(FieldKind::BitLong);
    }
    layout.push(FieldKind::BitLong);
    layout.push(FieldKind::BitLong);
    layout.push(FieldKind::BitLong);
    layout.push(FieldKind::BitLong);
    layout.push(FieldKind::CmColor);
    proof {
        reveal(header_before_seed_4);
        assert(layout@ =~= start + header_before_seed_4(v));
    }
}

/// The header variables before the handle seed, in the order of the section.
pub open spec fn header_before_seed(v: DxfVersion) -> Seq<FieldKind> {
    header_before_seed_1(v) + header_before_seed_2(v) + header_before_seed_3(v) + header_before_seed_4(v)
}

/// The layout of the header variables before the handle seed (see [`header_before_seed`]).
pub fn header_before_seed_fields(v: DxfVersion) -> (r: Vec<FieldKind>)
    ensures
        r@ == header_before_seed(v),
{
    let mut layout: Vec<FieldKind> = Vec::new();
    push_header_before_seed_1(v, &mut layout);
    push_header_before_seed_2(v, &mut layout);
    push_header_before_seed_3(v, &mut layout);
    push_header_before_seed_4(v, &mut layout);
    proof {
        assert(Seq::<FieldKind>::empty() + header_before_seed_1(v) =~= header_before_seed_1(v));
    }
    layout
}

/// Part 1 of the header variables after the handle seed, up to the current plot style type.
#[verifier::opaque]
pub open spec fn header_after_seed_1(v: DxfVersion) -> Seq<FieldKind> {
    seq![FieldKind::Handle, FieldKind::Handle, FieldKind::Handle]
        + only_if(version_at_least(v, DxfVersion::AC1021), seq![FieldKind::Handle])
        + seq![FieldKind::Handle, FieldKind::Handle]
        + only_if(version_at_least(v, DxfVersion::AC1015), seq![FieldKind::BitDouble])
        + seq![FieldKind::BitDouble, FieldKind::BitDouble, FieldKind::BitDouble, FieldKind::BitDouble,
        FieldKind::BitDouble, FieldKind::BitDouble, FieldKind::BitDouble, FieldKind::BitDouble,
        FieldKind::BitDouble, FieldKind::RawDouble, FieldKind::RawDouble, FieldKind::RawDouble,
        FieldKind::RawDouble, FieldKind::BitDouble, FieldKind::BitDouble, FieldKind::BitDouble]
        + seq![FieldKind::BitDouble, FieldKind::BitDouble, FieldKind::BitDouble, FieldKind::BitDouble,
        FieldKind::BitDouble, FieldKind::BitDouble, FieldKind::BitDouble, FieldKind::Handle]
}

/// Append part 1 of the header variables after the handle seed, up to the current plot style type to `layout` (see [`header_after_seed_1`]).
fn push_header_after_seed_1(v: DxfVersion, layout: &mut Vec<FieldKind>)
    ensures
        final(layout)@ == old(layout)@ + header_after_seed_1(v),
{
    let r2000 = v.at_least(DxfVersion::AC1015);
    let r2007 = v.at_least(DxfVersion::AC1021);
    let ghost start = layout@;
    layout.push(FieldKind::Handle);
    layout.push(FieldKind::Handle);
    layout.push(FieldKind::Handle);
    if r2007 {
        layout.push(FieldKind::Handle);
    }
    layout.push(FieldKind::Handle);
    layout.push(FieldKind::Handle);
    if r2000 {
        layout.push(FieldKind::BitDouble);
    }
    layout.push(FieldKind::BitDouble);
    layout.push(FieldKind::BitDouble);
    layout.push(FieldKind::BitDouble);
    layout.push(FieldKind::BitDouble);
    layout.push(FieldKind::BitDouble);
    layout.push(FieldKind::BitDouble);
    layout.push(FieldKind::BitDouble);
    layout.push(FieldKind::BitDouble);
    layout.push(FieldKind::BitDouble);
    layout.push(FieldKind::RawDouble);
    layout.push(FieldKind::RawDouble);
    layout.push(FieldKind::RawDouble);
    layout.push(FieldKind::RawDouble);
    layout.push(FieldKind::BitDouble);
    layout.push(FieldKind::BitDouble);
    layout.push(FieldKind::BitDouble);
    layout.push(FieldKind::BitDouble);
    layout.push(FieldKind::BitDouble);
    layout.push(FieldKind::BitDouble);
    layout.push(FieldKind::BitDouble);
    layout.push(FieldKind::BitDouble);
    layout.push(FieldKind::BitDouble);
    layout.push(FieldKind::BitDouble);
    layout.push(FieldKind::Handle);
    proof {
        reveal(header_after_seed_1);
        assert(layout@ =~= start + header_after_seed_1(v));
    }
}

/// Part 2 of the header variables after the handle seed, up to the current plot style type.
#[verifier::opaque]
pub open spec fn header_after_seed_2(v: DxfVersion) -> Seq<FieldKind> {
    only_if(version_at_least(v, DxfVersion::AC1015), seq![FieldKind::Handle, FieldKind::BitShort, FieldKind::Handle, FieldKind::BitDouble,
        FieldKind::BitDouble, FieldKind::BitDouble, FieldKind::BitDouble, FieldKind::BitDouble,
        FieldKind::BitDouble, FieldKind::BitDouble, FieldKind::BitDouble, FieldKind::BitDouble,
        FieldKind::BitDouble, FieldKind::BitDouble, FieldKind::BitDouble, FieldKind::BitDouble])
        + only_if(version_at_least(v, DxfVersion::AC1015), seq![FieldKind::BitDouble, FieldKind::BitDouble, FieldKind::BitDouble, FieldKind::BitDouble,
        FieldKind::BitDouble])
        + seq![FieldKind::BitDouble, FieldKind::BitDouble, FieldKind::BitDouble, FieldKind::BitDouble,
        FieldKind::BitDouble, FieldKind::BitDouble, FieldKind::BitDouble, FieldKind::BitDouble,
        FieldKind::BitDouble, FieldKind::RawDouble, FieldKind::RawDouble, FieldKind::RawDouble,
        FieldKind::RawDouble, FieldKind::BitDouble, FieldKind::BitDouble, FieldKind::BitDouble]
}

/// Append part 2 of the header variables after the handle seed, up to the current plot style type to `layout` (see [`header_after_seed_2`]).
fn push_header_after_seed_2(v: DxfVersion, layout: &mut Vec<FieldKind>)
    ensures
        final(layout)@ == old(layout)@ + header_after_seed_2(v),
{
    let r2000 = v.at_least(DxfVersion::AC1015);
    let ghost start = layout@;
    if r2000 {
        layout.push(FieldKind::Handle);
        layout.push(FieldKind::BitShort);
        layout.push(FieldKind::Handle);
        layout.push(FieldKind::BitDouble);
        layout.push(FieldKind::BitDouble);
        layout.push(FieldKind::BitDouble);
        layout.push(FieldKind::BitDouble);
        layout.push(FieldKind::BitDouble);
        layout.push(FieldKind::BitDouble);
        layout.push(FieldKind::BitDouble);
        layout.push(FieldKind::BitDouble);
        layout.push(FieldKind::BitDouble);
        layout.push(FieldKind::BitDouble);
        layout.push(FieldKind::BitDouble);
        layout.push(FieldKind::BitDouble);
        layout.push(FieldKind::BitDouble);
    }
    if r2000 {
        layout.push(FieldKind::BitDouble);
        layout.push(FieldKind::BitDouble);
        layout.push(FieldKind::BitDouble);
        layout.push(FieldKind::BitDouble);
        layout.push(FieldKind::BitDouble);
    }
    layout.push(FieldKind::BitDouble);
    layout.push(FieldKind::BitDouble);
    layout.push(FieldKind::BitDouble);
    layout.push(FieldKind::BitDouble);
    layout.push(FieldKind::BitDouble);
    layout.push(FieldKind::BitDouble);
    layout.push(FieldKind::BitDouble);
    layout.push(FieldKind::BitDouble);
    layout.push(FieldKind::BitDouble);
    layout.push(FieldKind::RawDouble);
    layout.push(FieldKind::RawDouble);
    layout.push(FieldKind::RawDouble);
    layout.push(FieldKind::RawDouble);
    layout.push(FieldKind::BitDouble);
    layout.push(FieldKind::BitDouble);
    layout.push(FieldKind::BitDouble);
    proof {
        reveal(header_after_seed_2);
        assert(layout@ =~= start + header_after_seed_2(v));
    }
}

/// Part 3 of the header variables after the handle seed, up to the current plot style type.
#[verifier::opaque]
pub open spec fn header_after_seed_3(v: DxfVersion) -> Seq<FieldKind> {
    seq![FieldKind::BitDouble, FieldKind::BitDouble, FieldKind::BitDouble, FieldKind::BitDouble,
        FieldKind::BitDouble, FieldKind::BitDouble, FieldKind::BitDouble, FieldKind::Handle]
        + only_if(version_at_least(v, DxfVersion::AC1015), seq![FieldKind::Handle, FieldKind::BitShort, FieldKind::Handle, FieldKind::BitDouble,
        FieldKind::BitDouble, FieldKind::BitDouble, FieldKind::BitDouble, FieldKind::BitDouble,
        FieldKind::BitDouble, FieldKind::BitDouble, FieldKind::BitDouble, FieldKind::BitDouble,
        FieldKind::BitDouble, FieldKind::BitDouble, FieldKind::BitDouble, FieldKind::BitDouble])
}

/// Append part 3 of the header variables after the handle seed, up to the current plot style type to `layout` (see [`header_after_seed_3`]).
fn push_header_after_seed_3(v: DxfVersion, layout: &mut Vec<FieldKind>)
    ensures
        final(layout)@ == old(layout)@ + header_after_seed_3(v),
{
    let r2000 = v.at_least(DxfVersion::AC1015);
    let ghost start = layout@;
    layout.push(FieldKind::BitDouble);
    layout.push(FieldKind::BitDouble);
    layout.push(FieldKind::BitDouble);
    layout.push(FieldKind::BitDouble);
    layout.push(FieldKind::BitDouble);
    layout.push(FieldKind::BitDouble);
    layout.push(FieldKind::BitDouble);
    layout.push(FieldKind::Handle);
    if r2000 {
        layout.push(FieldKind::Handle);
        layout.push(FieldKind::BitShort);
        layout.push(FieldKind::Handle);
        layout.push(FieldKind::BitDouble);
        layout.push(FieldKind::BitDouble);
        layout.push(FieldKind::BitDouble);
        layout.push(FieldKind::BitDouble);
        layout.push(FieldKind::BitDouble);
        layout.push(FieldKind::BitDouble);
        layout.push(FieldKind::BitDouble);
        layout.push(FieldKind::BitDouble);
        layout.push(FieldKind::BitDouble);
        layout.push(FieldKind::BitDouble);
        layout.push(FieldKind::BitDouble);
        layout.push(FieldKind::BitDouble);
        layout.push(FieldKind::BitDouble);
    }
    proof {
        reveal(header_after_seed_3);
        assert(layout@ =~= start + header_after_seed_3(v));
    }
}

/// Part 4 of the header variables after the handle seed, up to the current plot style type.
#[verifier::opaque]
pub open spec fn header_after_seed_4(v: DxfVersion) -> Seq<FieldKind> {
    only_if(version_at_least(v, DxfVersion::AC1015), seq![FieldKind::BitDouble, FieldKind::BitDouble, FieldKind::BitDouble, FieldKind::BitDouble,
        FieldKind::BitDouble, FieldKind::Text, FieldKind::Text])
        + only_if(!version_at_least(v, DxfVersion::AC1015), seq![FieldKind::Bit, FieldKind::Bit, FieldKind::Bit, FieldKind::Bit, FieldKind::Bit,
        FieldKind::Bit, FieldKind::Bit, FieldKind::Bit, FieldKind::Bit, FieldKind::Bit,
        FieldKind::Bit, FieldKind::RawChar, FieldKind::RawChar, FieldKind::Bit, FieldKind::Bit,
        FieldKind::RawChar])
        + only_if(!version_at_least(v, DxfVersion::AC1015), seq![FieldKind::RawChar, FieldKind::RawChar, FieldKind::Bit, FieldKind::RawChar,
        FieldKind::RawChar, FieldKind::RawChar, FieldKind::RawChar, FieldKind::BitShort,
        FieldKind::BitShort, FieldKind::BitShort, FieldKind::BitShort, FieldKind::BitShort,
        FieldKind::BitShort, FieldKind::Handle])
}

/// Append part 4 of the header variables after the handle seed, up to the current plot style type to `layout` (see [`header_after_seed_4`]).
fn push_header_after_seed_4(v: DxfVersion, layout: &mut Vec<FieldKind>)
    ensures
        final(layout)@ == old(layout)@ + header_after_seed_4(v),
{
    let r2000 = v.at_least(DxfVersion::AC1015);
    let ghost start = layout@;
    if r2000 {
        layout.push(FieldKind::BitDouble);
        layout.push(FieldKind::BitDouble);
        layout.push(FieldKind::BitDouble);
        layout.push(FieldKind::BitDouble);
        layout.push(FieldKind::BitDouble);
        layout.push(FieldKind::Text);
        layout.push(FieldKind::Text);
    }
    if !r2000 {
        layout.push(FieldKind::Bit);
        layout.push(FieldKind::Bit);
        layout.push(FieldKind::Bit);
        layout.push(FieldKind::Bit);
        layout.push(FieldKind::Bit);
        layout.push(FieldKind::Bit);
        layout.push(FieldKind::Bit);
        layout.push(FieldKind::Bit);
        layout.push(FieldKind::Bit);
        layout.push(FieldKind::Bit);
        layout.push(FieldKind::Bit);
        layout.push(FieldKind::RawChar);
        layout.push(FieldKind::RawChar);
        layout.push(FieldKind::Bit);
        layout.push(FieldKind::Bit);
        layout.push(FieldKind::RawChar);
    }
    if !r2000 {
        layout.push(FieldKind::RawChar);
        layout.push(FieldKind::RawChar);
        layout.push(FieldKind::Bit);
        layout.push(FieldKind::RawChar);
        layout.push(FieldKind::RawChar);
        layout.push(FieldKind::RawChar);
        layout.push(FieldKind::RawChar);
        layout.push(FieldKind::BitShort);
        layout.push(FieldKind::BitShort);
        layout.push(FieldKind::BitShort);
        layout.push(FieldKind::BitShort);
        layout.push(FieldKind::BitShort);
        layout.push(FieldKind::BitShort);
        layout.push(FieldKind::Handle);
    }
    proof {
        reveal(header_after_seed_4);
        assert(layout@ =~= start + header_after_seed_4(v));
    }
}

/// Part 5 of the header variables after the handle seed, up to the current plot style type.
#[verifier::opaque]
pub open spec fn header_after_seed_5(v: DxfVersion) -> Seq<FieldKind> {
    seq![FieldKind::BitDouble, FieldKind::BitDouble, FieldKind::BitDouble, FieldKind::BitDouble,
        FieldKind::BitDouble, FieldKind::BitDouble, FieldKind::BitDouble, FieldKind::BitDouble,
        FieldKind::BitDouble]
        + only_if(version_at_least(v, DxfVersion::AC1021), seq![FieldKind::BitDouble, FieldKind::BitDouble, FieldKind::BitShort, FieldKind::CmColor])
        + only_if(version_at_least(v, DxfVersion::AC1015), seq![FieldKind::Bit, FieldKind::Bit, FieldKind::Bit, FieldKind::Bit, FieldKind::Bit,
        FieldKind::Bit, FieldKind::BitShort, FieldKind::BitShort, FieldKind::BitShort])
        + only_if(version_at_least(v, DxfVersion::AC1021), seq![FieldKind::BitShort])
        + seq![FieldKind::BitDouble, FieldKind::BitDouble, FieldKind::BitDouble, FieldKind::BitDouble,
        FieldKind::BitDouble, FieldKind::BitDouble, FieldKind::BitDouble, FieldKind::BitDouble]
}

/// Append part 5 of the header variables after the handle seed, up to the current plot style type to `layout` (see [`header_after_seed_5`]).
fn push_header_after_seed_5(v: DxfVersion, layout: &mut Vec<FieldKind>)
    ensures
        final(layout)@ == old(layout)@ + header_after_seed_5(v),
{
    let r2000 = v.at_least(DxfVersion::AC1015);
    let r2007 = v.at_least(DxfVersion::AC1021);
    let ghost start = layout@;
    layout.push(FieldKind::BitDouble);
    layout.push(FieldKind::BitDouble);
    layout.push(FieldKind::BitDouble);
    layout.push(FieldKind::BitDouble);
    layout.push(FieldKind::BitDouble);
    layout.push(FieldKind::BitDouble);
    layout.push(FieldKind::BitDouble);
    layout.push(FieldKind::BitDouble);
    layout.push(FieldKind::BitDouble);
    if r2007 {
        layout.push(FieldKind::BitDouble);
        layout.push(FieldKind::BitDouble);
        layout.push(FieldKind::BitShort);
        layout.push(FieldKind::CmColor);
    }
    if r2000 {
        layout.push(FieldKind::Bit);
        layout.push(FieldKind::Bit);
        layout.push(FieldKind::Bit);
        layout.push(FieldKind::Bit);
        layout.push(FieldKind::Bit);
        layout.push(FieldKind::Bit);
        layout.push(FieldKind::BitShort);
        layout.push(FieldKind::BitShort);
        layout.push(FieldKind::BitShort);
    }
    if r2007 {
        layout.push(FieldKind::BitShort);
    }
    layout.push(FieldKind::BitDouble);
    layout.push(FieldKind::BitDouble);
    layout.push(FieldKind::BitDouble);
    layout.push(FieldKind::BitDouble);
    layout.push(FieldKind::BitDouble);
    layout.push(FieldKind::BitDouble);
    layout.push(FieldKind::BitDouble);
    layout.push(FieldKind::BitDouble);
    proof {
        reveal(header_after_seed_5);
        assert(layout@ =~= start + header_after_seed_5(v));
    }
}

/// Part 6 of the header variables after the handle seed, up to the current plot style type.
#[verifier::opaque]
pub open spec fn header_after_seed_6(v: DxfVersion) -> Seq<FieldKind> {
    only_if(!version_at_least(v, DxfVersion::AC1015), seq![FieldKind::Text, FieldKind::Text, FieldKind::Text, FieldKind::Text, FieldKind::Text])
        + only_if(version_at_least(v, DxfVersion::AC1015), seq![FieldKind::BitDouble, FieldKind::Bit, FieldKind::BitShort, FieldKind::Bit, FieldKind::Bit,
        FieldKind::Bit, FieldKind::Bit])
        + seq![FieldKind::CmColor, FieldKind::CmColor, FieldKind::CmColor]
        + only_if(version_at_least(v, DxfVersion::AC1015), seq![FieldKind::BitShort, FieldKind::BitShort, FieldKind::BitShort, FieldKind::BitShort,
        FieldKind::BitShort, FieldKind::BitShort, FieldKind::BitShort, FieldKind::BitShort,
        FieldKind::BitShort, FieldKind::BitShort, FieldKind::BitShort, FieldKind::Bit, FieldKind::Bit,
        FieldKind::BitShort, FieldKind::BitShort, FieldKind::BitShort])
}

/// Append part 6 of the header variables after the handle seed, up to the current plot style type to `layout` (see [`header_after_seed_6`]).
fn push_header_after_seed_6(v: DxfVersion, layout: &mut Vec<FieldKind>)
    ensures
        final(layout)@ == old(layout)@ + header_after_seed_6(v),
{
    let r2000 = v.at_least(DxfVersion::AC1015);
    let ghost start = layout@;
    if !r2000 {
        layout.push(FieldKind::Text);
        layout.push(FieldKind::Text);
        layout.push(FieldKind::Text);
        layout.push(FieldKind::Text);
        layout.push(FieldKind::Text);
    }
    if r2000 {
        layout.push(FieldKind::BitDouble);
        layout.push(FieldKind::Bit);
        layout.push(FieldKind::BitShort);
        layout.push(FieldKind::Bit);
        layout.push(FieldKind::Bit);
        layout.push(FieldKind::Bit);
        layout.push(FieldKind::Bit);
    }
    layout.push(FieldKind::CmColor);
    layout.push(FieldKind::CmColor);
    layout.push(FieldKind::CmColor);
    if r2000 {
        layout.push(FieldKind::BitShort);
        layout.push(FieldKind::BitShort);
        layout.push(FieldKind::BitShort);
        layout.push(FieldKind::BitShort);
        layout.push(FieldKind::BitShort);
        layout.push(FieldKind::BitShort);
        layout.push(FieldKind::BitShort);
        layout.push(FieldKind::BitShort);
        layout.push(FieldKind::BitShort);
        layout.push(FieldKind::BitShort);
        layout.push(FieldKind::BitShort);
        layout.push(FieldKind::Bit);
        layout.push(FieldKind::Bit);
        layout.push(FieldKind::BitShort);
        layout.push(FieldKind::BitShort);
        layout.push(FieldKind::BitShort);
    }
    proof {
        reveal(header_after_seed_6);
        assert(layout@ =~= start + header_after_seed_6(v));
    }
}

/// Part 7 of the header variables after the handle seed, up to the current plot style type.
#[verifier::opaque]
pub open spec fn header_after_seed_7(v: DxfVersion) -> Seq<FieldKind> {
    only_if(version_at_least(v, DxfVersion::AC1015), seq![FieldKind::BitShort, FieldKind::Bit, FieldKind::BitShort])
        + only_if(version_at_least(v, DxfVersion::AC1021), seq![FieldKind::Bit])
        + only_if(version_at_least(v, DxfVersion::AC1024), seq![FieldKind::Bit, FieldKind::BitDouble, FieldKind::Text, FieldKind::BitDouble, FieldKind::Text])
        + only_if(version_at_least(v, DxfVersion::AC1015), seq![FieldKind::Handle, FieldKind::Handle, FieldKind::Handle, FieldKind::Handle, FieldKind::Handle])
        + only_if(version_at_least(v, DxfVersion::AC1021), seq![FieldKind::Handle, FieldKind::Handle, FieldKind::Handle])
        + only_if(version_at_least(v, DxfVersion::AC1015), seq![FieldKind::BitShort, FieldKind::BitShort])
        + seq![FieldKind::Handle, FieldKind::Handle, FieldKind::Handle, FieldKind::Handle, FieldKind::Handle,
        FieldKind::Handle, FieldKind::Handle, FieldKind::Handle, FieldKind::Handle]
}

/// Append part 7 of the header variables after the handle seed, up to the current plot style type to `layout` (see [`header_after_seed_7`]).
fn push_header_after_seed_7(v: DxfVersion, layout: &mut Vec<FieldKind>)
    ensures
        final(layout)@ == old(layout)@ + header_after_seed_7(v),
{
    let r2000 = v.at_least(DxfVersion::AC1015);
    let r2007 = v.at_least(DxfVersion::AC1021);
    let r2010 = v.at_least(DxfVersion::AC1024);
    let ghost start = layout@;
    if r2000 {
        layout.push(FieldKind::BitShort);
        layout.push(FieldKind::Bit);
        layout.push(FieldKind::BitShort);
    }
    if r2007 {
        layout.push(FieldKind::Bit);
    }
    if r2010 {
        layout.push(FieldKind::Bit);
        layout.push(FieldKind::BitDouble);
        layout.push(FieldKind::Text);
        layout.push(FieldKind::BitDouble);
        layout.push(FieldKind::Text);
    }
    if r2000 {
        layout.push(FieldKind::Handle);
        layout.push(FieldKind::Handle);
        layout.push(FieldKind::Handle);
        layout.push(FieldKind::Handle);
        layout.push(FieldKind::Handle);
    }
    if r2007 {
        layout.push(FieldKind::Handle);
        layout.push(FieldKind::Handle);
        layout.push(FieldKind::Handle);
    }
    if r2000 {
        layout.push(FieldKind::BitShort);
        layout.push(FieldKind::BitShort);
    }
    layout.push(FieldKind::Handle);
    layout.push(FieldKind::Handle);
    layout.push(FieldKind::Handle);
    layout.push(FieldKind::Handle);
    layout.push(FieldKind::Handle);
    layout.push(FieldKind::Handle);
    layout.push(FieldKind::Handle);
    layout.push(FieldKind::Handle);
    layout.push(FieldKind::Handle);
    proof {
        reveal(header_after_seed_7);
        assert(layout@ =~= start + header_after_seed_7(v));
    }
}

/// Part 8 of the header variables after the handle seed, up to the current plot style type.
#[verifier::opaque]
pub open spec fn header_after_seed_8(v: DxfVersion) -> Seq<FieldKind> {
    only_if(!version_at_least(v, DxfVersion::AC1018), seq![FieldKind::Handle])
        + seq![FieldKind::Handle, FieldKind::Handle, FieldKind::Handle]
        + only_if(version_at_least(v, DxfVersion::AC1015), seq![FieldKind::BitShort, FieldKind::BitShort, FieldKind::Text, FieldKind::Text, FieldKind::Handle,
        FieldKind::Handle, FieldKind::Handle])
        + only_if(version_at_least(v, DxfVersion::AC1018), seq![FieldKind::Handle, FieldKind::Handle])
        + only_if(version_at_least(v, DxfVersion::AC1021), seq![FieldKind::Handle])
        + only_if(version_at_least(v, DxfVersion::AC1021) && version_at_least(v, DxfVersion::AC1027), seq![FieldKind::Handle])
        + only_if(version_at_least(v, DxfVersion::AC1015), seq![FieldKind::BitLong, FieldKind::BitShort, FieldKind::BitShort])
}

/// Append part 8 of the header variables after the handle seed, up to the current plot style type to `layout` (see [`header_after_seed_8`]).
fn push_header_after_seed_8(v: DxfVersion, layout: &mut Vec<FieldKind>)
    ensures
        final(layout)@ == old(layout)@ + header_after_seed_8(v),
{
    let r2000 = v.at_least(DxfVersion::AC1015);
    let r2004 = v.at_least(DxfVersion::AC1018);
    let r2007 = v.at_least(DxfVersion::AC1021);
    let r2013 = v.at_least(DxfVersion::AC1027);
    let ghost start = layout@;
    if !r2004 {
        layout.push(FieldKind::Handle);
    }
    layout.push(FieldKind::Handle);
    layout.push(FieldKind::Handle);
    layout.push(FieldKind::Handle);
    if r2000 {
        layout.push(FieldKind::BitShort);
        layout.push(FieldKind::BitShort);
        layout.push(FieldKind::Text);
        layout.push(FieldKind::Text);
        layout.push(FieldKind::Handle);
        layout.push(FieldKind::Handle);
        layout.push(FieldKind::Handle);
    }
    if r2004 {
        layout.push(FieldKind::Handle);
        layout.push(FieldKind::Handle);
    }
    if r2007 {
        layout.push(FieldKind::Handle);
    }
    if r2007 && r2013 {
        layout.push(FieldKind::Handle);
    }
    if r2000 {
        layout.push(FieldKind::BitLong);
        layout.push(FieldKind::BitShort);
        layout.push(FieldKind::BitShort);
    }
    proof {
        reveal(header_after_seed_8);
        assert(layout@ =~= start + header_after_seed_8(v));
    }
}

/// The header variables after the handle seed, up to the current plot style type, in the order of the section.
pub open spec fn header_after_seed(v: DxfVersion) -> Seq<FieldKind> {
    header_after_seed_1(v) + header_after_seed_2(v) + header_after_seed_3(v) + header_after_seed_4(v) + header_after_seed_5(v) + header_after_seed_6(v) + header_after_seed_7(v) + header_after_seed_8(v)
}

/// The layout of the header variables after the handle seed, up to the current plot style type (see [`header_after_seed`]).
pub fn header_after_seed_fields(v: DxfVersion) -> (r: Vec<FieldKind>)
    ensures
        r@ == header_after_seed(v),
        r@.len() > 0,
{
    proof { reveal(header_after_seed_1); }
    let mut layout: Vec<FieldKind> = Vec::new();
    push_header_after_seed_1(v, &mut layout);
    push_header_after_seed_2(v, &mut layout);
    push_header_after_seed_3(v, &mut layout);
    push_header_after_seed_4(v, &mut layout);
    push_header_after_seed_5(v, &mut layout);
    push_header_after_seed_6(v, &mut layout);
    push_header_after_seed_7(v, &mut layout);
    push_header_after_seed_8(v, &mut layout);
    proof {
        assert(Seq::<FieldKind>::empty() + header_after_seed_1(v) =~= header_after_seed_1(v));
    }
    layout
}

/// Part 1 of the header variables after the current plot style handle.
#[verifier::opaque]
pub open spec fn header_tail_1(v: DxfVersion) -> Seq<FieldKind> {
    only_if(version_at_least(v, DxfVersion::AC1015), seq![FieldKind::Text, FieldKind::Text])
        + only_if(version_at_least(v, DxfVersion::AC1018), seq![FieldKind::RawChar, FieldKind::RawChar, FieldKind::RawChar, FieldKind::RawChar,
        FieldKind::RawChar, FieldKind::RawChar, FieldKind::BitShort, FieldKind::BitShort,
        FieldKind::RawChar, FieldKind::RawChar, FieldKind::Text])
        + seq![FieldKind::Handle, FieldKind::Handle, FieldKind::Handle, FieldKind::Handle, FieldKind::Handle]
        + only_if(version_at_least(v, DxfVersion::AC1021), seq![FieldKind::Bit, FieldKind::BitLong, FieldKind::BitLong, FieldKind::BitDouble,
        FieldKind::BitDouble, FieldKind::BitDouble, FieldKind::BitDouble, FieldKind::BitDouble,
        FieldKind::BitDouble, FieldKind::RawChar, FieldKind::RawChar, FieldKind::BitDouble,
        FieldKind::BitDouble, FieldKind::BitDouble, FieldKind::BitDouble, FieldKind::BitDouble])
}

/// Append part 1 of the header variables after the current plot style handle to `layout` (see [`header_tail_1`]).
fn push_header_tail_1(v: DxfVersion, layout: &mut Vec<FieldKind>)
    ensures
        final(layout)@ == old(layout)@ + header_tail_1(v),
{
    let r2000 = v.at_least(DxfVersion::AC1015);
    let r2004 = v.at_least(DxfVersion::AC1018);
    let r2007 = v.at_least(DxfVersion::AC1021);
    let ghost start = layout@;
    if r2000 {
        layout.push(FieldKind::Text);
        layout.push(FieldKind::Text);
    }
    if r2004 {
        layout.push(FieldKind::RawChar);
        layout.push(FieldKind::RawChar);
        layout.push(FieldKind::RawChar);
        layout.push(FieldKind::RawChar);
        layout.push(FieldKind::RawChar);
        layout.push(FieldKind::RawChar);
        layout.push(FieldKind::BitShort);
        layout.push(FieldKind::BitShort);
        layout.push(FieldKind::RawChar);
        layout.push(FieldKind::RawChar);
        layout.push(FieldKind::Text);
    }
    layout.push(FieldKind::Handle);
    layout.push(FieldKind::Handle);
    layout.push(FieldKind::Handle);
    layout.push(FieldKind::Handle);
    layout.push(FieldKind::Handle);
    if r2007 {
        layout.push(FieldKind::Bit);
        layout.push(FieldKind::BitLong);
        layout.push(FieldKind::BitLong);
        layout.push(FieldKind::BitDouble);
        layout.push(FieldKind::BitDouble);
        layout.push(FieldKind::BitDouble);
        layout.push(FieldKind::BitDouble);
        layout.push(FieldKind::BitDouble);
        layout.push(FieldKind::BitDouble);
        layout.push(FieldKind::RawChar);
        layout.push(FieldKind::RawChar);
        layout.push(FieldKind::BitDouble);
        layout.push(FieldKind::BitDouble);
        layout.push(FieldKind::BitDouble);
        layout.push(FieldKind::BitDouble);
        layout.push(FieldKind::BitDouble);
    }
    proof {
        reveal(header_tail_1);
        assert(layout@ =~= start + header_tail_1(v));
    }
}

/// Part 2 of the header variables after the current plot style handle.
#[verifier::opaque]
pub open spec fn header_tail_2(v: DxfVersion) -> Seq<FieldKind> {
    only_if(version_at_least(v, DxfVersion::AC1021), seq![FieldKind::BitDouble, FieldKind::BitShort, FieldKind::RawChar, FieldKind::BitDouble,
        FieldKind::BitDouble, FieldKind::BitDouble, FieldKind::BitLong, FieldKind::RawChar,
        FieldKind::RawChar, FieldKind::RawChar, FieldKind::RawChar, FieldKind::Bit,
        FieldKind::CmColor, FieldKind::Handle, FieldKind::Handle, FieldKind::Handle])
        + only_if(version_at_least(v, DxfVersion::AC1021), seq![FieldKind::RawChar, FieldKind::BitDouble])
}

/// Append part 2 of the header variables after the current plot style handle to `layout` (see [`header_tail_2`]).
fn push_header_tail_2(v: DxfVersion, layout: &mut Vec<FieldKind>)
    ensures
        final(layout)@ == old(layout)@ + header_tail_2(v),
{
    let r2007 = v.at_least(DxfVersion::AC1021);
    let ghost start = layout@;
    if r2007 {
        layout.push(FieldKind::BitDouble);
        layout.push(FieldKind::BitShort);
        layout.push(FieldKind::RawChar);
        layout.push(FieldKind::BitDouble);
        layout.push(FieldKind::BitDouble);
        layout.push(FieldKind::BitDouble);
        layout.push(FieldKind::BitLong);
        layout.push(FieldKind::RawChar);
        layout.push(FieldKind::RawChar);
        layout.push(FieldKind::RawChar);
        layout.push(FieldKind::RawChar);
        layout.push(FieldKind::Bit);
        layout.push(FieldKind::CmColor);
        layout.push(FieldKind::Handle);
        layout.push(FieldKind::Handle);
        layout.push(FieldKind::Handle);
    }
    if r2007 {
        layout.push(FieldKind::RawChar);
        layout.push(FieldKind::BitDouble);
    }
    proof {
        reveal(header_tail_2);
        assert(layout@ =~= start + header_tail_2(v));
    }
}

/// The header variables after the current plot style handle, in the order of the section.
pub open spec fn header_tail(v: DxfVersion) -> Seq<FieldKind> {
    header_tail_1(v) + header_tail_2(v)
}

/// The layout of the header variables after the current plot style handle (see [`header_tail`]).
pub fn header_tail_fields(v: DxfVersion) -> (r: Vec<FieldKind>)
    ensures
        r@ == header_tail(v),
{
    let mut layout: Vec<FieldKind> = Vec::new();
    push_header_tail_1(v, &mut layout);
    push_header_tail_2(v, &mut layout);
    proof {
        assert(Seq::<FieldKind>::empty() + header_tail_1(v) =~= header_tail_1(v));
    }
    layout
}

} // verus!
