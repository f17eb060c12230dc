//! The meaning of the system variables: the variables whose stored value
//! is interpreted (unit precisions, isolines, text quality and
//! facet resolution are kept only in range; the R2000 flags word is split
//! into line weight, end caps, join style and five switches) and the
//! handles among them, by name.
//!
//! A variable is found by its place in the full list of system variables
//! of the format, all versions together; the lists below say, per version, which of them a file
//! stores, so that the place of a stored variable among the values read is
//! the number of stored variables before it.

use vstd::prelude::*;
use crate::header_reader::{HeaderModel, HeaderValues, field_short, field_short_of};
use crate::object_reader::{FieldModel, FieldValue, fields_model, field_handle};
use crate::object_records::{version_at_least, field_handle_of};
use crate::table_entries::{field_double, field_double_of};
use crate::version::DxfVersion;

verus! {

/// Place of LUPREC among the variables before the handle seed.
pub const LINEAR_UNIT_PRECISION_AT: usize = 44;
/// Place of AUPREC among the variables before the handle seed.
pub const ANGULAR_UNIT_PRECISION_AT: usize = 46;
/// Place of ISOLINES among the variables before the handle seed.
pub const ISOLINES_AT: usize = 71;
/// Place of TEXTQLTY among the variables before the handle seed.
pub const TEXT_QUALITY_AT: usize = 73;
/// Place of FACETRES among the variables before the handle seed.
pub const FACET_RESOLUTION_AT: usize = 92;
/// Place of the R2000 flags word among the variables after the seed.
pub const FLAGS_AT: usize = 234;
/// Place of the plot style type among the variables after the seed.
pub const PLOT_STYLE_TYPE_AT: usize = 236;

/// The number of stored entries of `p` before place `k`.
pub open spec fn count_stored(p: Seq<bool>, k: int) -> nat
    decreases k,
{
    if k <= 0 || p.len() == 0 {
        0
    } else {
        count_stored(p, k - 1) + if k - 1 < p.len() && p[k - 1] { 1nat } else { 0nat }
    }
}

/// The place among `n` values read of the entry at place `k` of a list
/// whose stored entries are `p`: `None` when it is not stored (or the
/// values run out before it).
pub open spec fn stored_index(p: Seq<bool>, n: nat, k: int) -> Option<int> {
    if 0 <= k < p.len() && p[k] && count_stored(p, k) < n { Some(count_stored(p, k) as int) } else { None }
}

/// The place of the entry at place `k` (see [`stored_index`]).
fn stored_index_of(p: &Vec<bool>, n: usize, k: usize) -> (r: Option<usize>)
    ensures
        match r {
            Some(i) => stored_index(p@, n as nat, k as int) == Some(i as int),
            None => stored_index(p@, n as nat, k as int) is None,
        },
{
    if k >= p.len() || !p[k] {
        return None;
    }
    let mut count: usize = 0;
    let mut i: usize = 0;
    while i < k
        invariant
            i <= k,
            k < p@.len(),
            count == count_stored(p@, i as int),
            count <= i,
        decreases k - i,
    {
        if p[i] {
            count = count + 1;
        }
        i = i + 1;
    }
    if count < n { Some(count) } else { None }
}

/// The short stored at place `k` (see [`stored_index`]).
pub open spec fn short_at(p: Seq<bool>, vals: Seq<FieldModel>, k: int) -> Option<i16> {
    match stored_index(p, vals.len(), k) {
        Some(i) => Some(field_short(vals[i])),
        None => None,
    }
}

/// The double (its bit pattern) stored at place `k`.
pub open spec fn double_at(p: Seq<bool>, vals: Seq<FieldModel>, k: int) -> Option<u64> {
    match stored_index(p, vals.len(), k) {
        Some(i) => Some(field_double(vals[i])),
        None => None,
    }
}

/// The long stored at place `k`.
pub open spec fn long_at(p: Seq<bool>, vals: Seq<FieldModel>, k: int) -> Option<i32> {
    match stored_index(p, vals.len(), k) {
        Some(i) => Some(match vals[i] { FieldModel::Long(n) => n, _ => 0i32 }),
        None => None,
    }
}

/// The handle stored at place `k`, else `d`.
pub open spec fn last_handle(p: Seq<bool>, vals: Seq<FieldModel>, k: int, d: Option<u64>) -> Option<u64> {
    match stored_index(p, vals.len(), k) {
        Some(i) => Some(field_handle(vals[i])),
        None => d,
    }
}

fn short_at_of(p: &Vec<bool>, vals: &Vec<FieldValue>, k: usize) -> (r: Option<i16>)
    ensures
        r == short_at(p@, fields_model(vals@), k as int),
{
    match stored_index_of(p, vals.len(), k) {
        Some(i) => Some(field_short_of(&vals[i])),
        None => None,
    }
}

fn double_at_of(p: &Vec<bool>, vals: &Vec<FieldValue>, k: usize) -> (r: Option<u64>)
    ensures
        r == double_at(p@, fields_model(vals@), k as int),
{
    match stored_index_of(p, vals.len(), k) {
        Some(i) => Some(field_double_of(&vals[i])),
        None => None,
    }
}

fn long_at_of(p: &Vec<bool>, vals: &Vec<FieldValue>, k: usize) -> (r: Option<i32>)
    ensures
        r == long_at(p@, fields_model(vals@), k as int),
{
    match stored_index_of(p, vals.len(), k) {
        Some(i) => Some(match &vals[i] { FieldValue::Long(n) => *n, _ => 0 }),
        None => None,
    }
}

fn last_handle_of(p: &Vec<bool>, vals: &Vec<FieldValue>, k: usize, d: Option<u64>) -> (r: Option<u64>)
    ensures
        r == last_handle(p@, fields_model(vals@), k as int, d),
{
    match stored_index_of(p, vals.len(), k) {
        Some(i) => Some(field_handle_of(&vals[i])),
        None => d,
    }
}

/// Whether the variables `a` after the handle seed of a `v` file store
/// the current plot style handle: from R2000 on, when the plot style type
/// is 3.
pub open spec fn plot_style_handle_stored(v: DxfVersion, a: Seq<FieldModel>) -> bool {
    version_at_least(v, DxfVersion::AC1015) && short_at(after_seed_stored(v), a, PLOT_STYLE_TYPE_AT as int)
        == Some(3i16)
}

/// For each variable after the handle seed, whether the variables `a`
/// read from a `v` file store it: those of [`after_seed_stored`], the
/// current plot style handle (see [`plot_style_handle_stored`]), then
/// those of [`tail_stored`].
pub open spec fn after_stored(v: DxfVersion, a: Seq<FieldModel>) -> Seq<bool> {
    after_seed_stored(v) + seq![plot_style_handle_stored(v, a)] + tail_stored(v)
}

/// The entries of [`after_stored`], as a list.
fn after_stored_list(v: DxfVersion, a: &Vec<FieldValue>) -> (r: Vec<bool>)
    ensures
        r@ == after_stored(v, fields_model(a@)),
{
    let mut p = after_seed_stored_list(v);
    let plot = v.at_least(DxfVersion::AC1015) && short_at_of(&p, a, PLOT_STYLE_TYPE_AT) == Some(3i16);
    let ghost first = p@;
    p.push(plot);
    let mut rest = tail_stored_list(v);
    p.append(&mut rest);
    proof { assert(p@ =~= first + seq![plot] + tail_stored(v)); }
    p
}

/// The interpreted system variables.
#[derive(Debug, Clone, Copy, PartialEq, Eq)]
pub struct HeaderVariables {
    /// LUPREC.
    pub linear_unit_precision: i16,
    /// AUPREC.
    pub angular_unit_precision: i16,
    /// ISOLINES.
    pub isolines: i16,
    /// TEXTQLTY.
    pub text_quality: i16,
    /// FACETRES (its bit pattern).
    pub facet_resolution: u64,
    /// CELWEIGHT: flags bits 0 to 4.
    pub current_line_weight: i16,
    /// ENDCAPS: flags bits 5 and 6.
    pub end_caps: i16,
    /// JOINSTYLE: flags bits 7 and 8.
    pub join_style: i16,
    /// LWDISPLAY: flags bit 9 clear.
    pub lineweight_display: bool,
    /// XEDIT: flags bit 10 clear.
    pub xedit: bool,
    /// EXTNAMES: flags bit 11.
    pub extended_names: bool,
    /// PSTYLEMODE: flags bit 13.
    pub plotstyle_mode: bool,
    /// OLESTARTUP: flags bit 14.
    pub ole_startup: bool,
    /// The handle seed.
    pub handle_seed: u64,
}

/// `x` when it is read and within `lo..=hi`, else `prev`.
pub open spec fn bounded_or(x: Option<i16>, lo: i16, hi: i16, prev: i16) -> i16 {
    match x {
        Some(n) => if lo <= n <= hi { n } else { prev },
        None => prev,
    }
}

/// The bit pattern of 10.0.
pub open spec fn ten_bits() -> u64 {
    0x4024_0000_0000_0000
}

/// The facet resolution `x` when it is read and in `(0.0, 10.0]`, else
/// `prev`.  A double lies in that range exactly when its bit pattern is
/// not zero, has the sign clear and is at most that of 10.0 (a NaN or an
/// infinity has a larger pattern).
pub open spec fn facet_or(x: Option<u64>, prev: u64) -> u64 {
    match x {
        Some(f) => if 0 < f <= ten_bits() { f } else { prev },
        None => prev,
    }
}

/// The system variables of a `v` file whose stored values are `h`, with
/// `prev` giving the values the file leaves as they were: LUPREC and
/// AUPREC are taken in `0..=8`, ISOLINES in `0..=2047`, TEXTQLTY in
/// `0..=100` and FACETRES in `(0.0, 10.0]`; from R2000 on the flags word
/// `f` gives CELWEIGHT `f & 0x1F`, ENDCAPS `f & 0x60`, JOINSTYLE
/// `f & 0x180`, LWDISPLAY when `f & 0x200` is 0, XEDIT when `f & 0x400`
/// is 0, EXTNAMES when `f & 0x800` is not, PSTYLEMODE when `f & 0x2000`
/// is not and OLESTARTUP when `f & 0x4000` is not.
pub open spec fn header_variables_of(prev: HeaderVariables, v: DxfVersion, h: HeaderModel) -> HeaderVariables {
    let bp = before_seed_stored(v);
    let b = h.before_seed;
    let flags = long_at(after_stored(v, h.after_seed), h.after_seed, FLAGS_AT as int);
    HeaderVariables {
        linear_unit_precision: bounded_or(short_at(bp, b, LINEAR_UNIT_PRECISION_AT as int), 0, 8,
            prev.linear_unit_precision),
        angular_unit_precision: bounded_or(short_at(bp, b, ANGULAR_UNIT_PRECISION_AT as int), 0, 8,
            prev.angular_unit_precision),
        isolines: bounded_or(short_at(bp, b, ISOLINES_AT as int), 0, 2047, prev.isolines),
        text_quality: bounded_or(short_at(bp, b, TEXT_QUALITY_AT as int), 0, 100, prev.text_quality),
        facet_resolution: facet_or(double_at(bp, b, FACET_RESOLUTION_AT as int), prev.facet_resolution),
        current_line_weight: match flags { Some(f) => (f & 0x1F) as i16, None => prev.current_line_weight },
        end_caps: match flags { Some(f) => (f & 0x60) as i16, None => prev.end_caps },
        join_style: match flags { Some(f) => (f & 0x180) as i16, None => prev.join_style },
        lineweight_display: match flags { Some(f) => f & 0x200 == 0, None => prev.lineweight_display },
        xedit: match flags { Some(f) => f & 0x400 == 0, None => prev.xedit },
        extended_names: match flags { Some(f) => f & 0x800 != 0, None => prev.extended_names },
        plotstyle_mode: match flags { Some(f) => f & 0x2000 != 0, None => prev.plotstyle_mode },
        ole_startup: match flags { Some(f) => f & 0x4000 != 0, None => prev.ole_startup },
        handle_seed: h.handle_seed,
    }
}

fn bounded_or_of(x: Option<i16>, lo: i16, hi: i16, prev: i16) -> (r: i16)
    ensures
        r == bounded_or(x, lo, hi, prev),
{
    match x {
        Some(n) => if lo <= n && n <= hi { n } else { prev },
        None => prev,
    }
}

/// The system variables of a `v` file whose stored values are `values`,
/// the others as in `prev` (see [`header_variables_of`]).
pub fn header_variables(prev: HeaderVariables, v: DxfVersion, values: &HeaderValues) -> (r: HeaderVariables)
    ensures
        r == header_variables_of(prev, v, values@),
{
    let bp = before_seed_stored_list(v);
    let b = &values.before_seed;
    let ap = after_stored_list(v, &values.after_seed);
    let flags = long_at_of(&ap, &values.after_seed, FLAGS_AT);
    let facet = match double_at_of(&bp, b, FACET_RESOLUTION_AT) {
        Some(f) => if 0 < f && f <= 0x4024_0000_0000_0000 { f } else { prev.facet_resolution },
        None => prev.facet_resolution,
    };
    HeaderVariables {
        linear_unit_precision: bounded_or_of(short_at_of(&bp, b, LINEAR_UNIT_PRECISION_AT), 0, 8,
            prev.linear_unit_precision),
        angular_unit_precision: bounded_or_of(short_at_of(&bp, b, ANGULAR_UNIT_PRECISION_AT), 0, 8,
            prev.angular_unit_precision),
        isolines: bounded_or_of(short_at_of(&bp, b, ISOLINES_AT), 0, 2047, prev.isolines),
        text_quality: bounded_or_of(short_at_of(&bp, b, TEXT_QUALITY_AT), 0, 100, prev.text_quality),
        facet_resolution: facet,
        current_line_weight: match flags { Some(f) => (f & 0x1F) as i16, None => prev.current_line_weight },
        end_caps: match flags { Some(f) => (f & 0x60) as i16, None => prev.end_caps },
        join_style: match flags { Some(f) => (f & 0x180) as i16, None => prev.join_style },
        lineweight_display: match flags { Some(f) => f & 0x200 == 0, None => prev.lineweight_display },
        xedit: match flags { Some(f) => f & 0x400 == 0, None => prev.xedit },
        extended_names: match flags { Some(f) => f & 0x800 != 0, None => prev.extended_names },
        plotstyle_mode: match flags { Some(f) => f & 0x2000 != 0, None => prev.plotstyle_mode },
        ole_startup: match flags { Some(f) => f & 0x4000 != 0, None => prev.ole_startup },
        handle_seed: values.handle_seed,
    }
}

/// Part 1 of [`before_seed_stored`].
#[verifier::opaque]
pub open spec fn before_seed_stored_1(v: DxfVersion) -> Seq<bool> {
    seq![version_at_least(v, DxfVersion::AC1027),
        true,
        true,
        true,
        true,
        true,
        true,
        true,
        true,
        true,
        true,
        !version_at_least(v, DxfVersion::AC1015),
        !version_at_least(v, DxfVersion::AC1018),
        true,
        true,
        !version_at_least(v, DxfVersion::AC1015),
        true,
        true,
        true,
        true,
        true,
        true,
        true,
        !version_at_least(v, DxfVersion::AC1015)]
}

/// Part 2 of [`before_seed_stored`].
#[verifier::opaque]
pub open spec fn before_seed_stored_2(v: DxfVersion) -> Seq<bool> {
    seq![version_at_least(v, DxfVersion::AC1018),
        true,
        true,
        true,
        true,
        !version_at_least(v, DxfVersion::AC1015),
        !version_at_least(v, DxfVersion::AC1015),
        true,
        true,
        !version_at_least(v, DxfVersion::AC1015),
        true,
        true,
        true,
        !version_at_least(v, DxfVersion::AC1015),
        true,
        true,
        true,
        !version_at_least(v, DxfVersion::AC1015),
        true,
        true,
        true,
        true,
        true,
        !version_at_least(v, DxfVersion::AC1015)]
}

/// Part 3 of [`before_seed_stored`].
#[verifier::opaque]
pub open spec fn before_seed_stored_3(v: DxfVersion) -> Seq<bool> {
    seq![true,
        !version_at_least(v, DxfVersion::AC1015),
        true,
        !version_at_least(v, DxfVersion::AC1015),
        version_at_least(v, DxfVersion::AC1018),
        version_at_least(v, DxfVersion::AC1018),
        version_at_least(v, DxfVersion::AC1018),
        true,
        true,
        true,
        true,
        true,
        true,
        true,
        true,
        true,
        true,
        true,
        true,
        true,
        true,
        true,
        true,
        true]
}

/// Part 4 of [`before_seed_stored`].
#[verifier::opaque]
pub open spec fn before_seed_stored_4(v: DxfVersion) -> Seq<bool> {
    seq![true,
        true,
        true,
        true,
        true,
        true,
        true,
        true,
        true,
        true,
        true,
        true,
        true,
        true,
        true,
        true,
        true,
        true,
        true,
        true,
        true,
        true,
        true,
        true]
}

/// Part 5 of [`before_seed_stored`].
#[verifier::opaque]
pub open spec fn before_seed_stored_5(v: DxfVersion) -> Seq<bool> {
    seq![true,
        true,
        true,
        true,
        version_at_least(v, DxfVersion::AC1018),
        version_at_least(v, DxfVersion::AC1018),
        version_at_least(v, DxfVersion::AC1018),
        true,
        true,
        true,
        true,
        true]
}

/// For each system variable of the format before the handle seed, in
/// order, whether a `v` file stores it.
pub open spec fn before_seed_stored(v: DxfVersion) -> Seq<bool> {
    before_seed_stored_1(v) + before_seed_stored_2(v) + before_seed_stored_3(v) + before_seed_stored_4(v) + before_seed_stored_5(v)
}

/// Push part 1 of [`before_seed_stored`] onto `out`.
fn push_before_seed_stored_1(v: DxfVersion, out: &mut Vec<bool>)
    ensures
        final(out)@ == old(out)@ + before_seed_stored_1(v),
{
    proof { reveal(before_seed_stored_1); }
    let r2000 = v.at_least(DxfVersion::AC1015);
    let r2004 = v.at_least(DxfVersion::AC1018);
    let r2007 = v.at_least(DxfVersion::AC1021);
    let r2010 = v.at_least(DxfVersion::AC1024);
    let r2013 = v.at_least(DxfVersion::AC1027);
    let r2018 = v.at_least(DxfVersion::AC1032);
    let ghost start = old(out)@;
    let part = vec![r2013, true, true, true, true, true, true, true, true, true, true, !r2000, !r2004, true, true, !r2000, true, true, true, true, true, true, true, !r2000];
    proof { assert(part@ =~= before_seed_stored_1(v)); }
    let mut part = part;
    out.append(&mut part);
}

/// Push part 2 of [`before_seed_stored`] onto `out`.
fn push_before_seed_stored_2(v: DxfVersion, out: &mut Vec<bool>)
    ensures
        final(out)@ == old(out)@ + before_seed_stored_2(v),
{
    proof { reveal(before_seed_stored_2); }
    let r2000 = v.at_least(DxfVersion::AC1015);
    let r2004 = v.at_least(DxfVersion::AC1018);
    let r2007 = v.at_least(DxfVersion::AC1021);
    let r2010 = v.at_least(DxfVersion::AC1024);
    let r2013 = v.at_least(DxfVersion::AC1027);
    let r2018 = v.at_least(DxfVersion::AC1032);
    let ghost start = old(out)@;
    let part = vec![r2004, true, true, true, true, !r2000, !r2000, true, true, !r2000, true, true, true, !r2000, true, true, true, !r2000, true, true, true, true, true, !r2000];
    proof { assert(part@ =~= before_seed_stored_2(v)); }
    let mut part = part;
    out.append(&mut part);
}

/// Push part 3 of [`before_seed_stored`] onto `out`.
fn push_before_seed_stored_3(v: DxfVersion, out: &mut Vec<bool>)
    ensures
        final(out)@ == old(out)@ + before_seed_stored_3(v),
{
    proof { reveal(before_seed_stored_3); }
    let r2000 = v.at_least(DxfVersion::AC1015);
    let r2004 = v.at_least(DxfVersion::AC1018);
    let r2007 = v.at_least(DxfVersion::AC1021);
    let r2010 = v.at_least(DxfVersion::AC1024);
    let r2013 = v.at_least(DxfVersion::AC1027);
    let r2018 = v.at_least(DxfVersion::AC1032);
    let ghost start = old(out)@;
    let part = vec![true, !r2000, true, !r2000, r2004, r2004, r2004, true, true, true, true, true, true, true, true, true, true, true, true, true, true, true, true, true];
    proof { assert(part@ =~= before_seed_stored_3(v)); }
    let mut part = part;
    out.append(&mut part);
}

/// Push part 4 of [`before_seed_stored`] onto `out`.
fn push_before_seed_stored_4(v: DxfVersion, out: &mut Vec<bool>)
    ensures
        final(out)@ == old(out)@ + before_seed_stored_4(v),
{
    proof { reveal(before_seed_stored_4); }
    let r2000 = v.at_least(DxfVersion::AC1015);
    let r2004 = v.at_least(DxfVersion::AC1018);
    let r2007 = v.at_least(DxfVersion::AC1021);
    let r2010 = v.at_least(DxfVersion::AC1024);
    let r2013 = v.at_least(DxfVersion::AC1027);
    let r2018 = v.at_least(DxfVersion::AC1032);
    let ghost start = old(out)@;
    let part = vec![true, true, true, true, true, true, true, true, true, true, true, true, true, true, true, true, true, true, true, true, true, true, true, true];
    proof { assert(part@ =~= before_seed_stored_4(v)); }
    let mut part = part;
    out.append(&mut part);
}

/// Push part 5 of [`before_seed_stored`] onto `out`.
fn push_before_seed_stored_5(v: DxfVersion, out: &mut Vec<bool>)
    ensures
        final(out)@ == old(out)@ + before_seed_stored_5(v),
{
    proof { reveal(before_seed_stored_5); }
    let r2000 = v.at_least(DxfVersion::AC1015);
    let r2004 = v.at_least(DxfVersion::AC1018);
    let r2007 = v.at_least(DxfVersion::AC1021);
    let r2010 = v.at_least(DxfVersion::AC1024);
    let r2013 = v.at_least(DxfVersion::AC1027);
    let r2018 = v.at_least(DxfVersion::AC1032);
    let ghost start = old(out)@;
    let part = vec![true, true, true, true, r2004, r2004, r2004, true, true, true, true, true];
    proof { assert(part@ =~= before_seed_stored_5(v)); }
    let mut part = part;
    out.append(&mut part);
}

/// The entries of [`before_seed_stored`], as a list.
pub fn before_seed_stored_list(v: DxfVersion) -> (r: Vec<bool>)
    ensures
        r@ == before_seed_stored(v),
{
    let mut out: Vec<bool> = Vec::new();
    push_before_seed_stored_1(v, &mut out);
    push_before_seed_stored_2(v, &mut out);
    push_before_seed_stored_3(v, &mut out);
    push_before_seed_stored_4(v, &mut out);
    push_before_seed_stored_5(v, &mut out);
    proof { assert(Seq::<bool>::empty() + before_seed_stored_1(v) =~= before_seed_stored_1(v)); }
    out
}

/// Part 1 of [`after_seed_stored`].
#[verifier::opaque]
pub open spec fn after_seed_stored_1(v: DxfVersion) -> Seq<bool> {
    seq![true,
        true,
        true,
        version_at_least(v, DxfVersion::AC1021),
        true,
        true,
        version_at_least(v, DxfVersion::AC1015),
        true,
        true,
        true,
        true,
        true,
        true,
        true,
        true,
        true,
        true,
        true,
        true,
        true,
        true,
        true,
        true,
        true]
}

/// Part 2 of [`after_seed_stored`].
#[verifier::opaque]
pub open spec fn after_seed_stored_2(v: DxfVersion) -> Seq<bool> {
    seq![true,
        true,
        true,
        true,
        true,
        true,
        true,
        version_at_least(v, DxfVersion::AC1015),
        version_at_least(v, DxfVersion::AC1015),
        version_at_least(v, DxfVersion::AC1015),
        version_at_least(v, DxfVersion::AC1015),
        version_at_least(v, DxfVersion::AC1015),
        version_at_least(v, DxfVersion::AC1015),
        version_at_least(v, DxfVersion::AC1015),
        version_at_least(v, DxfVersion::AC1015),
        version_at_least(v, DxfVersion::AC1015),
        version_at_least(v, DxfVersion::AC1015),
        version_at_least(v, DxfVersion::AC1015),
        version_at_least(v, DxfVersion::AC1015),
        version_at_least(v, DxfVersion::AC1015),
        version_at_least(v, DxfVersion::AC1015),
        version_at_least(v, DxfVersion::AC1015),
        version_at_least(v, DxfVersion::AC1015),
        version_at_least(v, DxfVersion::AC1015)]
}

/// Part 3 of [`after_seed_stored`].
#[verifier::opaque]
pub open spec fn after_seed_stored_3(v: DxfVersion) -> Seq<bool> {
    seq![version_at_least(v, DxfVersion::AC1015),
        version_at_least(v, DxfVersion::AC1015),
        version_at_least(v, DxfVersion::AC1015),
        version_at_least(v, DxfVersion::AC1015),
        true,
        true,
        true,
        true,
        true,
        true,
        true,
        true,
        true,
        true,
        true,
        true,
        true,
        true,
        true,
        true,
        true,
        true,
        true,
        true]
}

/// Part 4 of [`after_seed_stored`].
#[verifier::opaque]
pub open spec fn after_seed_stored_4(v: DxfVersion) -> Seq<bool> {
    seq![true,
        true,
        true,
        true,
        version_at_least(v, DxfVersion::AC1015),
        version_at_least(v, DxfVersion::AC1015),
        version_at_least(v, DxfVersion::AC1015),
        version_at_least(v, DxfVersion::AC1015),
        version_at_least(v, DxfVersion::AC1015),
        version_at_least(v, DxfVersion::AC1015),
        version_at_least(v, DxfVersion::AC1015),
        version_at_least(v, DxfVersion::AC1015),
        version_at_least(v, DxfVersion::AC1015),
        version_at_least(v, DxfVersion::AC1015),
        version_at_least(v, DxfVersion::AC1015),
        version_at_least(v, DxfVersion::AC1015),
        version_at_least(v, DxfVersion::AC1015),
        version_at_least(v, DxfVersion::AC1015),
        version_at_least(v, DxfVersion::AC1015),
        version_at_least(v, DxfVersion::AC1015),
        version_at_least(v, DxfVersion::AC1015),
        version_at_least(v, DxfVersion::AC1015),
        version_at_least(v, DxfVersion::AC1015),
        version_at_least(v, DxfVersion::AC1015)]
}

/// Part 5 of [`after_seed_stored`].
#[verifier::opaque]
pub open spec fn after_seed_stored_5(v: DxfVersion) -> Seq<bool> {
    seq![version_at_least(v, DxfVersion::AC1015),
        version_at_least(v, DxfVersion::AC1015),
        version_at_least(v, DxfVersion::AC1015),
        !version_at_least(v, DxfVersion::AC1015),
        !version_at_least(v, DxfVersion::AC1015),
        !version_at_least(v, DxfVersion::AC1015),
        !version_at_least(v, DxfVersion::AC1015),
        !version_at_least(v, DxfVersion::AC1015),
        !version_at_least(v, DxfVersion::AC1015),
        !version_at_least(v, DxfVersion::AC1015),
        !version_at_least(v, DxfVersion::AC1015),
        !version_at_least(v, DxfVersion::AC1015),
        !version_at_least(v, DxfVersion::AC1015),
        !version_at_least(v, DxfVersion::AC1015),
        !version_at_least(v, DxfVersion::AC1015),
        !version_at_least(v, DxfVersion::AC1015),
        !version_at_least(v, DxfVersion::AC1015),
        !version_at_least(v, DxfVersion::AC1015),
        !version_at_least(v, DxfVersion::AC1015),
        !version_at_least(v, DxfVersion::AC1015),
        !version_at_least(v, DxfVersion::AC1015),
        !version_at_least(v, DxfVersion::AC1015),
        !version_at_least(v, DxfVersion::AC1015),
        !version_at_least(v, DxfVersion::AC1015)]
}

/// Part 6 of [`after_seed_stored`].
#[verifier::opaque]
pub open spec fn after_seed_stored_6(v: DxfVersion) -> Seq<bool> {
    seq![!version_at_least(v, DxfVersion::AC1015),
        !version_at_least(v, DxfVersion::AC1015),
        !version_at_least(v, DxfVersion::AC1015),
        !version_at_least(v, DxfVersion::AC1015),
        !version_at_least(v, DxfVersion::AC1015),
        !version_at_least(v, DxfVersion::AC1015),
        !version_at_least(v, DxfVersion::AC1015),
        !version_at_least(v, DxfVersion::AC1015),
        !version_at_least(v, DxfVersion::AC1015),
        true,
        true,
        true,
        true,
        true,
        true,
        true,
        true,
        true,
        version_at_least(v, DxfVersion::AC1021),
        version_at_least(v, DxfVersion::AC1021),
        version_at_least(v, DxfVersion::AC1021),
        version_at_least(v, DxfVersion::AC1021),
        version_at_least(v, DxfVersion::AC1015),
        version_at_least(v, DxfVersion::AC1015)]
}

/// Part 7 of [`after_seed_stored`].
#[verifier::opaque]
pub open spec fn after_seed_stored_7(v: DxfVersion) -> Seq<bool> {
    seq![version_at_least(v, DxfVersion::AC1015),
        version_at_least(v, DxfVersion::AC1015),
        version_at_least(v, DxfVersion::AC1015),
        version_at_least(v, DxfVersion::AC1015),
        version_at_least(v, DxfVersion::AC1015),
        version_at_least(v, DxfVersion::AC1015),
        version_at_least(v, DxfVersion::AC1015),
        version_at_least(v, DxfVersion::AC1021),
        true,
        true,
        true,
        true,
        true,
        true,
        true,
        true,
        !version_at_least(v, DxfVersion::AC1015),
        !version_at_least(v, DxfVersion::AC1015),
        !version_at_least(v, DxfVersion::AC1015),
        !version_at_least(v, DxfVersion::AC1015),
        !version_at_least(v, DxfVersion::AC1015),
        version_at_least(v, DxfVersion::AC1015),
        version_at_least(v, DxfVersion::AC1015),
        version_at_least(v, DxfVersion::AC1015)]
}

/// Part 8 of [`after_seed_stored`].
#[verifier::opaque]
pub open spec fn after_seed_stored_8(v: DxfVersion) -> Seq<bool> {
    seq![version_at_least(v, DxfVersion::AC1015),
        version_at_least(v, DxfVersion::AC1015),
        version_at_least(v, DxfVersion::AC1015),
        version_at_least(v, DxfVersion::AC1015),
        true,
        true,
        true,
        version_at_least(v, DxfVersion::AC1015),
        version_at_least(v, DxfVersion::AC1015),
        version_at_least(v, DxfVersion::AC1015),
        version_at_least(v, DxfVersion::AC1015),
        version_at_least(v, DxfVersion::AC1015),
        version_at_least(v, DxfVersion::AC1015),
        version_at_least(v, DxfVersion::AC1015),
        version_at_least(v, DxfVersion::AC1015),
        version_at_least(v, DxfVersion::AC1015),
        version_at_least(v, DxfVersion::AC1015),
        version_at_least(v, DxfVersion::AC1015),
        version_at_least(v, DxfVersion::AC1015),
        version_at_least(v, DxfVersion::AC1015),
        version_at_least(v, DxfVersion::AC1015),
        version_at_least(v, DxfVersion::AC1015),
        version_at_least(v, DxfVersion::AC1015),
        version_at_least(v, DxfVersion::AC1015)]
}

/// Part 9 of [`after_seed_stored`].
#[verifier::opaque]
pub open spec fn after_seed_stored_9(v: DxfVersion) -> Seq<bool> {
    seq![version_at_least(v, DxfVersion::AC1015),
        version_at_least(v, DxfVersion::AC1015),
        version_at_least(v, DxfVersion::AC1021),
        version_at_least(v, DxfVersion::AC1024),
        version_at_least(v, DxfVersion::AC1024),
        version_at_least(v, DxfVersion::AC1024),
        version_at_least(v, DxfVersion::AC1024),
        version_at_least(v, DxfVersion::AC1024),
        version_at_least(v, DxfVersion::AC1015),
        version_at_least(v, DxfVersion::AC1015),
        version_at_least(v, DxfVersion::AC1015),
        version_at_least(v, DxfVersion::AC1015),
        version_at_least(v, DxfVersion::AC1015),
        version_at_least(v, DxfVersion::AC1021),
        version_at_least(v, DxfVersion::AC1021),
        version_at_least(v, DxfVersion::AC1021),
        version_at_least(v, DxfVersion::AC1015),
        version_at_least(v, DxfVersion::AC1015),
        true,
        true,
        true,
        true,
        true,
        true]
}

/// Part 10 of [`after_seed_stored`].
#[verifier::opaque]
pub open spec fn after_seed_stored_10(v: DxfVersion) -> Seq<bool> {
    seq![true,
        true,
        true,
        !version_at_least(v, DxfVersion::AC1018),
        true,
        true,
        true,
        version_at_least(v, DxfVersion::AC1015),
        version_at_least(v, DxfVersion::AC1015),
        version_at_least(v, DxfVersion::AC1015),
        version_at_least(v, DxfVersion::AC1015),
        version_at_least(v, DxfVersion::AC1015),
        version_at_least(v, DxfVersion::AC1015),
        version_at_least(v, DxfVersion::AC1015),
        version_at_least(v, DxfVersion::AC1018),
        version_at_least(v, DxfVersion::AC1018),
        version_at_least(v, DxfVersion::AC1021),
        version_at_least(v, DxfVersion::AC1021) && version_at_least(v, DxfVersion::AC1027),
        version_at_least(v, DxfVersion::AC1015),
        version_at_least(v, DxfVersion::AC1015),
        version_at_least(v, DxfVersion::AC1015)]
}

/// For each system variable of the format after the handle seed up to the
/// current plot style type, in order, whether a `v` file stores it.
pub open spec fn after_seed_stored(v: DxfVersion) -> Seq<bool> {
    after_seed_stored_1(v) + after_seed_stored_2(v) + after_seed_stored_3(v) + after_seed_stored_4(v) + after_seed_stored_5(v) + after_seed_stored_6(v) + after_seed_stored_7(v) + after_seed_stored_8(v) + after_seed_stored_9(v) + after_seed_stored_10(v)
}

/// Push part 1 of [`after_seed_stored`] onto `out`.
fn push_after_seed_stored_1(v: DxfVersion, out: &mut Vec<bool>)
    ensures
        final(out)@ == old(out)@ + after_seed_stored_1(v),
{
    proof { reveal(after_seed_stored_1); }
    let r2000 = v.at_least(DxfVersion::AC1015);
    let r2004 = v.at_least(DxfVersion::AC1018);
    let r2007 = v.at_least(DxfVersion::AC1021);
    let r2010 = v.at_least(DxfVersion::AC1024);
    let r2013 = v.at_least(DxfVersion::AC1027);
    let r2018 = v.at_least(DxfVersion::AC1032);
    let ghost start = old(out)@;
    let part = vec![true, true, true, r2007, true, true, r2000, true, true, true, true, true, true, true, true, true, true, true, true, true, true, true, true, true];
    proof { assert(part@ =~= after_seed_stored_1(v)); }
    let mut part = part;
    out.append(&mut part);
}

/// Push part 2 of [`after_seed_stored`] onto `out`.
fn push_after_seed_stored_2(v: DxfVersion, out: &mut Vec<bool>)
    ensures
        final(out)@ == old(out)@ + after_seed_stored_2(v),
{
    proof { reveal(after_seed_stored_2); }
    let r2000 = v.at_least(DxfVersion::AC1015);
    let r2004 = v.at_least(DxfVersion::AC1018);
    let r2007 = v.at_least(DxfVersion::AC1021);
    let r2010 = v.at_least(DxfVersion::AC1024);
    let r2013 = v.at_least(DxfVersion::AC1027);
    let r2018 = v.at_least(DxfVersion::AC1032);
    let ghost start = old(out)@;
    let part = vec![true, true, true, true, true, true, true, r2000, r2000, r2000, r2000, r2000, r2000, r2000, r2000, r2000, r2000, r2000, r2000, r2000, r2000, r2000, r2000, r2000];
    proof { assert(part@ =~= after_seed_stored_2(v)); }
    let mut part = part;
    out.append(&mut part);
}

/// Push part 3 of [`after_seed_stored`] onto `out`.
fn push_after_seed_stored_3(v: DxfVersion, out: &mut Vec<bool>)
    ensures
        final(out)@ == old(out)@ + after_seed_stored_3(v),
{
    proof { reveal(after_seed_stored_3); }
    let r2000 = v.at_least(DxfVersion::AC1015);
    let r2004 = v.at_least(DxfVersion::AC1018);
    let r2007 = v.at_least(DxfVersion::AC1021);
    let r2010 = v.at_least(DxfVersion::AC1024);
    let r2013 = v.at_least(DxfVersion::AC1027);
    let r2018 = v.at_least(DxfVersion::AC1032);
    let ghost start = old(out)@;
    let part = vec![r2000, r2000, r2000, r2000, true, true, true, true, true, true, true, true, true, true, true, true, true, true, true, true, true, true, true, true];
    proof { assert(part@ =~= after_seed_stored_3(v)); }
    let mut part = part;
    out.append(&mut part);
}

/// Push part 4 of [`after_seed_stored`] onto `out`.
fn push_after_seed_stored_4(v: DxfVersion, out: &mut Vec<bool>)
    ensures
        final(out)@ == old(out)@ + after_seed_stored_4(v),
{
    proof { reveal(after_seed_stored_4); }
    let r2000 = v.at_least(DxfVersion::AC1015);
    let r2004 = v.at_least(DxfVersion::AC1018);
    let r2007 = v.at_least(DxfVersion::AC1021);
    let r2010 = v.at_least(DxfVersion::AC1024);
    let r2013 = v.at_least(DxfVersion::AC1027);
    let r2018 = v.at_least(DxfVersion::AC1032);
    let ghost start = old(out)@;
    let part = vec![true, true, true, true, r2000, r2000, r2000, r2000, r2000, r2000, r2000, r2000, r2000, r2000, r2000, r2000, r2000, r2000, r2000, r2000, r2000, r2000, r2000, r2000];
    proof { assert(part@ =~= after_seed_stored_4(v)); }
    let mut part = part;
    out.append(&mut part);
}

/// Push part 5 of [`after_seed_stored`] onto `out`.
fn push_after_seed_stored_5(v: DxfVersion, out: &mut Vec<bool>)
    ensures
        final(out)@ == old(out)@ + after_seed_stored_5(v),
{
    proof { reveal(after_seed_stored_5); }
    let r2000 = v.at_least(DxfVersion::AC1015);
    let r2004 = v.at_least(DxfVersion::AC1018);
    let r2007 = v.at_least(DxfVersion::AC1021);
    let r2010 = v.at_least(DxfVersion::AC1024);
    let r2013 = v.at_least(DxfVersion::AC1027);
    let r2018 = v.at_least(DxfVersion::AC1032);
    let ghost start = old(out)@;
    let part = vec![r2000, r2000, r2000, !r2000, !r2000, !r2000, !r2000, !r2000, !r2000, !r2000, !r2000, !r2000, !r2000, !r2000, !r2000, !r2000, !r2000, !r2000, !r2000, !r2000, !r2000, !r2000, !r2000, !r2000];
    proof { assert(part@ =~= after_seed_stored_5(v)); }
    let mut part = part;
    out.append(&mut part);
}

/// Push part 6 of [`after_seed_stored`] onto `out`.
fn push_after_seed_stored_6(v: DxfVersion, out: &mut Vec<bool>)
    ensures
        final(out)@ == old(out)@ + after_seed_stored_6(v),
{
    proof { reveal(after_seed_stored_6); }
    let r2000 = v.at_least(DxfVersion::AC1015);
    let r2004 = v.at_least(DxfVersion::AC1018);
    let r2007 = v.at_least(DxfVersion::AC1021);
    let r2010 = v.at_least(DxfVersion::AC1024);
    let r2013 = v.at_least(DxfVersion::AC1027);
    let r2018 = v.at_least(DxfVersion::AC1032);
    let ghost start = old(out)@;
    let part = vec![!r2000, !r2000, !r2000, !r2000, !r2000, !r2000, !r2000, !r2000, !r2000, true, true, true, true, true, true, true, true, true, r2007, r2007, r2007, r2007, r2000, r2000];
    proof { assert(part@ =~= after_seed_stored_6(v)); }
    let mut part = part;
    out.append(&mut part);
}

/// Push part 7 of [`after_seed_stored`] onto `out`.
fn push_after_seed_stored_7(v: DxfVersion, out: &mut Vec<bool>)
    ensures
        final(out)@ == old(out)@ + after_seed_stored_7(v),
{
    proof { reveal(after_seed_stored_7); }
    let r2000 = v.at_least(DxfVersion::AC1015);
    let r2004 = v.at_least(DxfVersion::AC1018);
    let r2007 = v.at_least(DxfVersion::AC1021);
    let r2010 = v.at_least(DxfVersion::AC1024);
    let r2013 = v.at_least(DxfVersion::AC1027);
    let r2018 = v.at_least(DxfVersion::AC1032);
    let ghost start = old(out)@;
    let part = vec![r2000, r2000, r2000, r2000, r2000, r2000, r2000, r2007, true, true, true, true, true, true, true, true, !r2000, !r2000, !r2000, !r2000, !r2000, r2000, r2000, r2000];
    proof { assert(part@ =~= after_seed_stored_7(v)); }
    let mut part = part;
    out.append(&mut part);
}

/// Push part 8 of [`after_seed_stored`] onto `out`.
fn push_after_seed_stored_8(v: DxfVersion, out: &mut Vec<bool>)
    ensures
        final(out)@ == old(out)@ + after_seed_stored_8(v),
{
    proof { reveal(after_seed_stored_8); }
    let r2000 = v.at_least(DxfVersion::AC1015);
    let r2004 = v.at_least(DxfVersion::AC1018);
    let r2007 = v.at_least(DxfVersion::AC1021);
    let r2010 = v.at_least(DxfVersion::AC1024);
    let r2013 = v.at_least(DxfVersion::AC1027);
    let r2018 = v.at_least(DxfVersion::AC1032);
    let ghost start = old(out)@;
    let part = vec![r2000, r2000, r2000, r2000, true, true, true, r2000, r2000, r2000, r2000, r2000, r2000, r2000, r2000, r2000, r2000, r2000, r2000, r2000, r2000, r2000, r2000, r2000];
    proof { assert(part@ =~= after_seed_stored_8(v)); }
    let mut part = part;
    out.append(&mut part);
}

/// Push part 9 of [`after_seed_stored`] onto `out`.
fn push_after_seed_stored_9(v: DxfVersion, out: &mut Vec<bool>)
    ensures
        final(out)@ == old(out)@ + after_seed_stored_9(v),
{
    proof { reveal(after_seed_stored_9); }
    let r2000 = v.at_least(DxfVersion::AC1015);
    let r2004 = v.at_least(DxfVersion::AC1018);
    let r2007 = v.at_least(DxfVersion::AC1021);
    let r2010 = v.at_least(DxfVersion::AC1024);
    let r2013 = v.at_least(DxfVersion::AC1027);
    let r2018 = v.at_least(DxfVersion::AC1032);
    let ghost start = old(out)@;
    let part = vec![r2000, r2000, r2007, r2010, r2010, r2010, r2010, r2010, r2000, r2000, r2000, r2000, r2000, r2007, r2007, r2007, r2000, r2000, true, true, true, true, true, true];
    proof { assert(part@ =~= after_seed_stored_9(v)); }
    let mut part = part;
    out.append(&mut part);
}

/// Push part 10 of [`after_seed_stored`] onto `out`.
fn push_after_seed_stored_10(v: DxfVersion, out: &mut Vec<bool>)
    ensures
        final(out)@ == old(out)@ + after_seed_stored_10(v),
{
    proof { reveal(after_seed_stored_10); }
    let r2000 = v.at_least(DxfVersion::AC1015);
    let r2004 = v.at_least(DxfVersion::AC1018);
    let r2007 = v.at_least(DxfVersion::AC1021);
    let r2010 = v.at_least(DxfVersion::AC1024);
    let r2013 = v.at_least(DxfVersion::AC1027);
    let r2018 = v.at_least(DxfVersion::AC1032);
    let ghost start = old(out)@;
    let part = vec![true, true, true, !r2004, true, true, true, r2000, r2000, r2000, r2000, r2000, r2000, r2000, r2004, r2004, r2007, r2007 && r2013, r2000, r2000, r2000];
    proof { assert(part@ =~= after_seed_stored_10(v)); }
    let mut part = part;
    out.append(&mut part);
}

/// The entries of [`after_seed_stored`], as a list.
pub fn after_seed_stored_list(v: DxfVersion) -> (r: Vec<bool>)
    ensures
        r@ == after_seed_stored(v),
{
    let mut out: Vec<bool> = Vec::new();
    push_after_seed_stored_1(v, &mut out);
    push_after_seed_stored_2(v, &mut out);
    push_after_seed_stored_3(v, &mut out);
    push_after_seed_stored_4(v, &mut out);
    push_after_seed_stored_5(v, &mut out);
    push_after_seed_stored_6(v, &mut out);
    push_after_seed_stored_7(v, &mut out);
    push_after_seed_stored_8(v, &mut out);
    push_after_seed_stored_9(v, &mut out);
    push_after_seed_stored_10(v, &mut out);
    proof { assert(Seq::<bool>::empty() + after_seed_stored_1(v) =~= after_seed_stored_1(v)); }
    out
}

/// Part 1 of [`tail_stored`].
#[verifier::opaque]
pub open spec fn tail_stored_1(v: DxfVersion) -> Seq<bool> {
    seq![version_at_least(v, DxfVersion::AC1015),
        version_at_least(v, DxfVersion::AC1015),
        version_at_least(v, DxfVersion::AC1018),
        version_at_least(v, DxfVersion::AC1018),
        version_at_least(v, DxfVersion::AC1018),
        version_at_least(v, DxfVersion::AC1018),
        version_at_least(v, DxfVersion::AC1018),
        version_at_least(v, DxfVersion::AC1018),
        version_at_least(v, DxfVersion::AC1018),
        version_at_least(v, DxfVersion::AC1018),
        version_at_least(v, DxfVersion::AC1018),
        version_at_least(v, DxfVersion::AC1018),
        version_at_least(v, DxfVersion::AC1018),
        true,
        true,
        true,
        true,
        true,
        version_at_least(v, DxfVersion::AC1021),
        version_at_least(v, DxfVersion::AC1021),
        version_at_least(v, DxfVersion::AC1021),
        version_at_least(v, DxfVersion::AC1021),
        version_at_least(v, DxfVersion::AC1021),
        version_at_least(v, DxfVersion::AC1021)]
}

/// Part 2 of [`tail_stored`].
#[verifier::opaque]
pub open spec fn tail_stored_2(v: DxfVersion) -> Seq<bool> {
    seq![version_at_least(v, DxfVersion::AC1021),
        version_at_least(v, DxfVersion::AC1021),
        version_at_least(v, DxfVersion::AC1021),
        version_at_least(v, DxfVersion::AC1021),
        version_at_least(v, DxfVersion::AC1021),
        version_at_least(v, DxfVersion::AC1021),
        version_at_least(v, DxfVersion::AC1021),
        version_at_least(v, DxfVersion::AC1021),
        version_at_least(v, DxfVersion::AC1021),
        version_at_least(v, DxfVersion::AC1021),
        version_at_least(v, DxfVersion::AC1021),
        version_at_least(v, DxfVersion::AC1021),
        version_at_least(v, DxfVersion::AC1021),
        version_at_least(v, DxfVersion::AC1021),
        version_at_least(v, DxfVersion::AC1021),
        version_at_least(v, DxfVersion::AC1021),
        version_at_least(v, DxfVersion::AC1021),
        version_at_least(v, DxfVersion::AC1021),
        version_at_least(v, DxfVersion::AC1021),
        version_at_least(v, DxfVersion::AC1021),
        version_at_least(v, DxfVersion::AC1021),
        version_at_least(v, DxfVersion::AC1021),
        version_at_least(v, DxfVersion::AC1021),
        version_at_least(v, DxfVersion::AC1021)]
}

/// Part 3 of [`tail_stored`].
#[verifier::opaque]
pub open spec fn tail_stored_3(v: DxfVersion) -> Seq<bool> {
    seq![version_at_least(v, DxfVersion::AC1021),
        version_at_least(v, DxfVersion::AC1021),
        version_at_least(v, DxfVersion::AC1021),
        version_at_least(v, DxfVersion::AC1021)]
}

/// For each system variable of the format after the current plot style
/// handle, in order, whether a `v` file stores it.
pub open spec fn tail_stored(v: DxfVersion) -> Seq<bool> {
    tail_stored_1(v) + tail_stored_2(v) + tail_stored_3(v)
}

/// Push part 1 of [`tail_stored`] onto `out`.
fn push_tail_stored_1(v: DxfVersion, out: &mut Vec<bool>)
    ensures
        final(out)@ == old(out)@ + tail_stored_1(v),
{
    proof { reveal(tail_stored_1); }
    let r2000 = v.at_least(DxfVersion::AC1015);
    let r2004 = v.at_least(DxfVersion::AC1018);
    let r2007 = v.at_least(DxfVersion::AC1021);
    let r2010 = v.at_least(DxfVersion::AC1024);
    let r2013 = v.at_least(DxfVersion::AC1027);
    let r2018 = v.at_least(DxfVersion::AC1032);
    let ghost start = old(out)@;
    let part = vec![r2000, r2000, r2004, r2004, r2004, r2004, r2004, r2004, r2004, r2004, r2004, r2004, r2004, true, true, true, true, true, r2007, r2007, r2007, r2007, r2007, r2007];
    proof { assert(part@ =~= tail_stored_1(v)); }
    let mut part = part;
    out.append(&mut part);
}

/// Push part 2 of [`tail_stored`] onto `out`.
fn push_tail_stored_2(v: DxfVersion, out: &mut Vec<bool>)
    ensures
        final(out)@ == old(out)@ + tail_stored_2(v),
{
    proof { reveal(tail_stored_2); }
    let r2000 = v.at_least(DxfVersion::AC1015);
    let r2004 = v.at_least(DxfVersion::AC1018);
    let r2007 = v.at_least(DxfVersion::AC1021);
    let r2010 = v.at_least(DxfVersion::AC1024);
    let r2013 = v.at_least(DxfVersion::AC1027);
    let r2018 = v.at_least(DxfVersion::AC1032);
    let ghost start = old(out)@;
    let part = vec![r2007, r2007, r2007, r2007, r2007, r2007, r2007, r2007, r2007, r2007, r2007, r2007, r2007, r2007, r2007, r2007, r2007, r2007, r2007, r2007, r2007, r2007, r2007, r2007];
    proof { assert(part@ =~= tail_stored_2(v)); }
    let mut part = part;
    out.append(&mut part);
}

/// Push part 3 of [`tail_stored`] onto `out`.
fn push_tail_stored_3(v: DxfVersion, out: &mut Vec<bool>)
    ensures
        final(out)@ == old(out)@ + tail_stored_3(v),
{
    proof { reveal(tail_stored_3); }
    let r2000 = v.at_least(DxfVersion::AC1015);
    let r2004 = v.at_least(DxfVersion::AC1018);
    let r2007 = v.at_least(DxfVersion::AC1021);
    let r2010 = v.at_least(DxfVersion::AC1024);
    let r2013 = v.at_least(DxfVersion::AC1027);
    let r2018 = v.at_least(DxfVersion::AC1032);
    let ghost start = old(out)@;
    let part = vec![r2007, r2007, r2007, r2007];
    proof { assert(part@ =~= tail_stored_3(v)); }
    let mut part = part;
    out.append(&mut part);
}

/// The entries of [`tail_stored`], as a list.
pub fn tail_stored_list(v: DxfVersion) -> (r: Vec<bool>)
    ensures
        r@ == tail_stored(v),
{
    let mut out: Vec<bool> = Vec::new();
    push_tail_stored_1(v, &mut out);
    push_tail_stored_2(v, &mut out);
    push_tail_stored_3(v, &mut out);
    proof { assert(Seq::<bool>::empty() + tail_stored_1(v) =~= tail_stored_1(v)); }
    out
}

/// The handles among the system variables, by name: `None` where the
/// file does not store the handle.
#[derive(Debug, Clone, Copy, PartialEq, Eq)]
pub struct DwgHeaderHandles {
    pub clayer: Option<u64>,
    pub textstyle: Option<u64>,
    pub celtype: Option<u64>,
    pub cmaterial: Option<u64>,
    pub dimstyle: Option<u64>,
    pub cmlstyle: Option<u64>,
    pub ucsname_pspace: Option<u64>,
    pub pucsorthoref: Option<u64>,
    pub pucsbase: Option<u64>,
    pub ucsname_mspace: Option<u64>,
    pub ucsorthoref: Option<u64>,
    pub ucsbase: Option<u64>,
    pub dimtxsty: Option<u64>,
    pub dimldrblk: Option<u64>,
    pub dimblk: Option<u64>,
    pub dimblk1: Option<u64>,
    pub dimblk2: Option<u64>,
    pub dimltype: Option<u64>,
    pub dimltex1: Option<u64>,
    pub dimltex2: Option<u64>,
    pub block_control_object: Option<u64>,
    pub layer_control_object: Option<u64>,
    pub style_control_object: Option<u64>,
    pub linetype_control_object: Option<u64>,
    pub view_control_object: Option<u64>,
    pub ucs_control_object: Option<u64>,
    pub vport_control_object: Option<u64>,
    pub appid_control_object: Option<u64>,
    pub dimstyle_control_object: Option<u64>,
    pub viewport_entity_header_control_object: Option<u64>,
    pub dictionary_acad_group: Option<u64>,
    pub dictionary_acad_mlinestyle: Option<u64>,
    pub dictionary_named_objects: Option<u64>,
    pub dictionary_layouts: Option<u64>,
    pub dictionary_plotsettings: Option<u64>,
    pub dictionary_plotstyles: Option<u64>,
    pub dictionary_materials: Option<u64>,
    pub dictionary_colors: Option<u64>,
    pub dictionary_visualstyle: Option<u64>,
    pub cpsnid: Option<u64>,
    pub paper_space: Option<u64>,
    pub model_space: Option<u64>,
    pub bylayer: Option<u64>,
    pub byblock: Option<u64>,
    pub continuous: Option<u64>,
    pub interfereobjvs: Option<u64>,
    pub interferevpvs: Option<u64>,
    pub dragvs: Option<u64>,
}

/// The handles among the variables `a` after the handle seed of a `v`
/// file (see [`after_stored`]); a handle stored twice takes its last
/// value.
pub open spec fn header_handles_of(v: DxfVersion, a: Seq<FieldModel>) -> DwgHeaderHandles {
    let p = after_stored(v, a);
    DwgHeaderHandles {
        clayer: last_handle(p, a, 0, None),
        textstyle: last_handle(p, a, 1, None),
        celtype: last_handle(p, a, 2, None),
        cmaterial: last_handle(p, a, 3, None),
        dimstyle: last_handle(p, a, 4, None),
        cmlstyle: last_handle(p, a, 5, None),
        ucsname_pspace: last_handle(p, a, 30, None),
        pucsorthoref: last_handle(p, a, 31, None),
        pucsbase: last_handle(p, a, 33, None),
        ucsname_mspace: last_handle(p, a, 75, None),
        ucsorthoref: last_handle(p, a, 76, None),
        ucsbase: last_handle(p, a, 78, None),
        dimtxsty: last_handle(p, a, 200, last_handle(p, a, 128, None)),
        dimldrblk: last_handle(p, a, 201, None),
        dimblk: last_handle(p, a, 202, None),
        dimblk1: last_handle(p, a, 203, None),
        dimblk2: last_handle(p, a, 204, None),
        dimltype: last_handle(p, a, 205, None),
        dimltex1: last_handle(p, a, 206, None),
        dimltex2: last_handle(p, a, 207, None),
        block_control_object: last_handle(p, a, 210, None),
        layer_control_object: last_handle(p, a, 211, None),
        style_control_object: last_handle(p, a, 212, None),
        linetype_control_object: last_handle(p, a, 213, None),
        view_control_object: last_handle(p, a, 214, None),
        ucs_control_object: last_handle(p, a, 215, None),
        vport_control_object: last_handle(p, a, 216, None),
        appid_control_object: last_handle(p, a, 217, None),
        dimstyle_control_object: last_handle(p, a, 218, None),
        viewport_entity_header_control_object: last_handle(p, a, 219, None),
        dictionary_acad_group: last_handle(p, a, 220, None),
        dictionary_acad_mlinestyle: last_handle(p, a, 221, None),
        dictionary_named_objects: last_handle(p, a, 222, None),
        dictionary_layouts: last_handle(p, a, 227, None),
        dictionary_plotsettings: last_handle(p, a, 228, None),
        dictionary_plotstyles: last_handle(p, a, 229, None),
        dictionary_materials: last_handle(p, a, 230, None),
        dictionary_colors: last_handle(p, a, 231, None),
        dictionary_visualstyle: last_handle(p, a, 233, last_handle(p, a, 232, None)),
        cpsnid: last_handle(p, a, 237, None),
        paper_space: last_handle(p, a, 251, None),
        model_space: last_handle(p, a, 252, None),
        bylayer: last_handle(p, a, 253, None),
        byblock: last_handle(p, a, 254, None),
        continuous: last_handle(p, a, 255, None),
        interfereobjvs: last_handle(p, a, 285, None),
        interferevpvs: last_handle(p, a, 286, None),
        dragvs: last_handle(p, a, 287, None),
    }
}

/// The handles among the variables `a` after the handle seed (see
/// [`header_handles_of`]).
pub fn header_handles(v: DxfVersion, a: &Vec<FieldValue>) -> (r: DwgHeaderHandles)
    ensures
        r == header_handles_of(v, fields_model(a@)),
{
    let p = after_stored_list(v, a);
    DwgHeaderHandles {
        clayer: last_handle_of(&p, a, 0, None),
        textstyle: last_handle_of(&p, a, 1, None),
        celtype: last_handle_of(&p, a, 2, None),
        cmaterial: last_handle_of(&p, a, 3, None),
        dimstyle: last_handle_of(&p, a, 4, None),
        cmlstyle: last_handle_of(&p, a, 5, None),
        ucsname_pspace: last_handle_of(&p, a, 30, None),
        pucsorthoref: last_handle_of(&p, a, 31, None),
        pucsbase: last_handle_of(&p, a, 33, None),
        ucsname_mspace: last_handle_of(&p, a, 75, None),
        ucsorthoref: last_handle_of(&p, a, 76, None),
        ucsbase: last_handle_of(&p, a, 78, None),
        dimtxsty: last_handle_of(&p, a, 200, last_handle_of(&p, a, 128, None)),
        dimldrblk: last_handle_of(&p, a, 201, None),
        dimblk: last_handle_of(&p, a, 202, None),
        dimblk1: last_handle_of(&p, a, 203, None),
        dimblk2: last_handle_of(&p, a, 204, None),
        dimltype: last_handle_of(&p, a, 205, None),
        dimltex1: last_handle_of(&p, a, 206, None),
        dimltex2: last_handle_of(&p, a, 207, None),
        block_control_object: last_handle_of(&p, a, 210, None),
        layer_control_object: last_handle_of(&p, a, 211, None),
        style_control_object: last_handle_of(&p, a, 212, None),
        linetype_control_object: last_handle_of(&p, a, 213, None),
        view_control_object: last_handle_of(&p, a, 214, None),
        ucs_control_object: last_handle_of(&p, a, 215, None),
        vport_control_object: last_handle_of(&p, a, 216, None),
        appid_control_object: last_handle_of(&p, a, 217, None),
        dimstyle_control_object: last_handle_of(&p, a, 218, None),
        viewport_entity_header_control_object: last_handle_of(&p, a, 219, None),
        dictionary_acad_group: last_handle_of(&p, a, 220, None),
        dictionary_acad_mlinestyle: last_handle_of(&p, a, 221, None),
        dictionary_named_objects: last_handle_of(&p, a, 222, None),
        dictionary_layouts: last_handle_of(&p, a, 227, None),
        dictionary_plotsettings: last_handle_of(&p, a, 228, None),
        dictionary_plotstyles: last_handle_of(&p, a, 229, None),
        dictionary_materials: last_handle_of(&p, a, 230, None),
        dictionary_colors: last_handle_of(&p, a, 231, None),
        dictionary_visualstyle: last_handle_of(&p, a, 233, last_handle_of(&p, a, 232, None)),
        cpsnid: last_handle_of(&p, a, 237, None),
        paper_space: last_handle_of(&p, a, 251, None),
        model_space: last_handle_of(&p, a, 252, None),
        bylayer: last_handle_of(&p, a, 253, None),
        byblock: last_handle_of(&p, a, 254, None),
        continuous: last_handle_of(&p, a, 255, None),
        interfereobjvs: last_handle_of(&p, a, 285, None),
        interferevpvs: last_handle_of(&p, a, 286, None),
        dragvs: last_handle_of(&p, a, 287, None),
    }
}


/// The named handles of `h`, in the order of its fields.
pub open spec fn handle_list(h: DwgHeaderHandles) -> Seq<Option<u64>> {
    seq![h.clayer, h.textstyle, h.celtype, h.cmaterial, h.dimstyle, h.cmlstyle, h.ucsname_pspace, h.pucsorthoref, h.pucsbase, h.ucsname_mspace, h.ucsorthoref, h.ucsbase, h.dimtxsty, h.dimldrblk, h.dimblk, h.dimblk1, h.dimblk2, h.dimltype, h.dimltex1, h.dimltex2, h.block_control_object, h.layer_control_object, h.style_control_object, h.linetype_control_object, h.view_control_object, h.ucs_control_object, h.vport_control_object, h.appid_control_object, h.dimstyle_control_object, h.viewport_entity_header_control_object, h.dictionary_acad_group, h.dictionary_acad_mlinestyle, h.dictionary_named_objects, h.dictionary_layouts, h.dictionary_plotsettings, h.dictionary_plotstyles, h.dictionary_materials, h.dictionary_colors, h.dictionary_visualstyle, h.cpsnid, h.paper_space, h.model_space, h.bylayer, h.byblock, h.continuous, h.interfereobjvs, h.interferevpvs, h.dragvs]
}

/// The handles of `hs` that are present and not zero, in order.
pub open spec fn nonzero_handles(hs: Seq<Option<u64>>) -> Seq<u64>
    decreases hs.len(),
{
    if hs.len() == 0 {
        Seq::empty()
    } else {
        let rest = nonzero_handles(hs.drop_last());
        match hs.last() {
            Some(x) => if x != 0 { rest.push(x) } else { rest },
            None => rest,
        }
    }
}

/// The valid handles of `h`: those present and not zero, in the order of
/// its fields.
pub open spec fn valid_handles(h: DwgHeaderHandles) -> Seq<u64> {
    nonzero_handles(handle_list(h))
}

/// The valid handles of `h` (see [`valid_handles`]).
pub fn get_valid_handles(h: &DwgHeaderHandles) -> (r: Vec<u64>)
    ensures
        r@ == valid_handles(*h),
{
    let list: Vec<Option<u64>> = vec![h.clayer, h.textstyle, h.celtype, h.cmaterial, h.dimstyle, h.cmlstyle, h.ucsname_pspace, h.pucsorthoref, h.pucsbase, h.ucsname_mspace, h.ucsorthoref, h.ucsbase, h.dimtxsty, h.dimldrblk, h.dimblk, h.dimblk1, h.dimblk2, h.dimltype, h.dimltex1, h.dimltex2, h.block_control_object, h.layer_control_object, h.style_control_object, h.linetype_control_object, h.view_control_object, h.ucs_control_object, h.vport_control_object, h.appid_control_object, h.dimstyle_control_object, h.viewport_entity_header_control_object, h.dictionary_acad_group, h.dictionary_acad_mlinestyle, h.dictionary_named_objects, h.dictionary_layouts, h.dictionary_plotsettings, h.dictionary_plotstyles, h.dictionary_materials, h.dictionary_colors, h.dictionary_visualstyle, h.cpsnid, h.paper_space, h.model_space, h.bylayer, h.byblock, h.continuous, h.interfereobjvs, h.interferevpvs, h.dragvs];
    assert(list@ =~= handle_list(*h));
    let mut out: Vec<u64> = Vec::new();
    let mut i: usize = 0;
    while i < list.len()
        invariant
            i <= list@.len(),
            out@ == nonzero_handles(list@.take(i as int)),
        decreases list@.len() - i,
    {
        assert(list@.take(i + 1).drop_last() =~= list@.take(i as int));
        match list[i] {
            Some(x) => {
                if x != 0 {
                    out.push(x);
                }
            },
            None => {},
        }
        i = i + 1;
    }
    assert(list@.take(list@.len() as int) =~= list@);
    out
}



/// A system variable, by name (a part of a point or of a date is a
/// variable of its own: `Part0`, `Part1`, `Part2`).
#[derive(Debug, Clone, Copy, PartialEq, Eq)]
pub enum HeaderVar {
    RequiredVersions,
    AssociateDimensions,
    UpdateDimensionsWhileDragging,
    DimSav,
    PolylineLinetypeGeneration,
    OrthoMode,
    RegenMode,
    FillMode,
    QuickTextMode,
    PaperSpaceLinetypeScaling,
    LimitCheck,
    BlipMode,
    UserTimer,
    SketchPolylines,
    AngleDirection,
    SplineFrame,
    AttributeRequest,
    AttributeDialog,
    MirrorText,
    WorldView,
    ShowModelSpace,
    PaperSpaceLimitCheck,
    RetainXrefVisibility,
    DeleteObjects,
    DisplaySilhouette,
    CreateEllipseAsPolyline,
    ProxyGraphics,
    DragMode,
    TreeDepth,
    LinearUnitFormat,
    LinearUnitPrecision,
    AngularUnitFormat,
    AngularUnitPrecision,
    ObjectSnapMode,
    AttributeVisibility,
    CoordsMode,
    PointDisplayMode,
    PickStyle,
    UserInt1,
    UserInt2,
    UserInt3,
    UserInt4,
    UserInt5,
    SplineSegments,
    SurfaceUDensity,
    SurfaceVDensity,
    SurfaceType,
    SurfaceTab1,
    SurfaceTab2,
    SplineType,
    ShadeEdge,
    ShadeDiffuse,
    UnitMode,
    MaxActiveViewports,
    Isolines,
    MultilineJustification,
    TextQuality,
    LinetypeScale,
    TextHeight,
    TraceWidth,
    SketchIncrement,
    FilletRadius,
    Thickness,
    AngleBase,
    PointDisplaySize,
    PolylineWidth,
    UserReal1,
    UserReal2,
    UserReal3,
    UserReal4,
    UserReal5,
    ChamferDistanceA,
    ChamferDistanceB,
    ChamferLength,
    ChamferAngle,
    FacetResolution,
    MultilineScale,
    CurrentEntityLinetypeScale,
    MenuName,
    CreateDateJulianPart0,
    CreateDateJulianPart1,
    UpdateDateJulianPart0,
    UpdateDateJulianPart1,
    TotalEditingTimePart0,
    TotalEditingTimePart1,
    UserElapsedTimePart0,
    UserElapsedTimePart1,
    CurrentEntityColor,
    ViewportScaleFactor,
    PaperSpaceInsertionBasePart0,
    PaperSpaceInsertionBasePart1,
    PaperSpaceInsertionBasePart2,
    PaperSpaceExtentsMinPart0,
    PaperSpaceExtentsMinPart1,
    PaperSpaceExtentsMinPart2,
    PaperSpaceExtentsMaxPart0,
    PaperSpaceExtentsMaxPart1,
    PaperSpaceExtentsMaxPart2,
    PaperSpaceLimitsMinPart0,
    PaperSpaceLimitsMinPart1,
    PaperSpaceLimitsMaxPart0,
    PaperSpaceLimitsMaxPart1,
    PaperElevation,
    PaperSpaceUcsOriginPart0,
    PaperSpaceUcsOriginPart1,
    PaperSpaceUcsOriginPart2,
    PaperSpaceUcsXAxisPart0,
    PaperSpaceUcsXAxisPart1,
    PaperSpaceUcsXAxisPart2,
    PaperSpaceUcsYAxisPart0,
    PaperSpaceUcsYAxisPart1,
    PaperSpaceUcsYAxisPart2,
    PaperUcsOrthoView,
    PaperUcsOrthoTopPart0,
    PaperUcsOrthoTopPart1,
    PaperUcsOrthoTopPart2,
    PaperUcsOrthoBottomPart0,
    PaperUcsOrthoBottomPart1,
    PaperUcsOrthoBottomPart2,
    PaperUcsOrthoLeftPart0,
    PaperUcsOrthoLeftPart1,
    PaperUcsOrthoLeftPart2,
    PaperUcsOrthoRightPart0,
    PaperUcsOrthoRightPart1,
    PaperUcsOrthoRightPart2,
    PaperUcsOrthoFrontPart0,
    PaperUcsOrthoFrontPart1,
    PaperUcsOrthoFrontPart2,
    PaperUcsOrthoBackPart0,
    PaperUcsOrthoBackPart1,
    PaperUcsOrthoBackPart2,
    ModelSpaceInsertionBasePart0,
    ModelSpaceInsertionBasePart1,
    ModelSpaceInsertionBasePart2,
    ModelSpaceExtentsMinPart0,
    ModelSpaceExtentsMinPart1,
    ModelSpaceExtentsMinPart2,
    ModelSpaceExtentsMaxPart0,
    ModelSpaceExtentsMaxPart1,
    ModelSpaceExtentsMaxPart2,
    ModelSpaceLimitsMinPart0,
    ModelSpaceLimitsMinPart1,
    ModelSpaceLimitsMaxPart0,
    ModelSpaceLimitsMaxPart1,
    Elevation,
    ModelSpaceUcsOriginPart0,
    ModelSpaceUcsOriginPart1,
    ModelSpaceUcsOriginPart2,
    ModelSpaceUcsXAxisPart0,
    ModelSpaceUcsXAxisPart1,
    ModelSpaceUcsXAxisPart2,
    ModelSpaceUcsYAxisPart0,
    ModelSpaceUcsYAxisPart1,
    ModelSpaceUcsYAxisPart2,
    UcsOrthoView,
    ModelUcsOrthoTopPart0,
    ModelUcsOrthoTopPart1,
    ModelUcsOrthoTopPart2,
    ModelUcsOrthoBottomPart0,
    ModelUcsOrthoBottomPart1,
    ModelUcsOrthoBottomPart2,
    ModelUcsOrthoLeftPart0,
    ModelUcsOrthoLeftPart1,
    ModelUcsOrthoLeftPart2,
    ModelUcsOrthoRightPart0,
    ModelUcsOrthoRightPart1,
    ModelUcsOrthoRightPart2,
    ModelUcsOrthoFrontPart0,
    ModelUcsOrthoFrontPart1,
    ModelUcsOrthoFrontPart2,
    ModelUcsOrthoBackPart0,
    ModelUcsOrthoBackPart1,
    ModelUcsOrthoBackPart2,
    DimPost,
    DimAltPost,
    DimTolerance,
    DimLimits,
    DimTextInsideHorizontal,
    DimTextOutsideHorizontal,
    DimSuppressExt1,
    DimSuppressExt2,
    DimAlternateUnits,
    DimForceLineInside,
    DimSeparateArrows,
    DimForceTextInside,
    DimSuppressOutsideExt,
    DimAltDecimalPlaces,
    DimZeroSuppression,
    DimSuppressLine1,
    DimSuppressLine2,
    DimToleranceJustification,
    DimHorizontalJustification,
    DimFit,
    DimUserPositionedText,
    DimToleranceZeroSuppression,
    DimAltToleranceZeroSuppression,
    DimAltToleranceZeroTight,
    DimTextAbove,
    DimAngularDecimalPlaces,
    DimDecimalPlaces,
    DimToleranceDecimalPlaces,
    DimAltUnitsFormat,
    DimAltToleranceDecimalPlaces,
    DimScale,
    DimArrowSize,
    DimExtLineOffset,
    DimLineIncrement,
    DimExtLineExtension,
    DimRounding,
    DimLineExtension,
    DimTolerancePlus,
    DimToleranceMinus,
    DimFixedExtLineLength,
    DimJogAngle,
    DimTextFillMode,
    DimTextFillColor,
    DimAltZeroSuppression,
    DimArcSymbolPosition,
    DimTextHeight,
    DimCenterMark,
    DimTickSize,
    DimAltScale,
    DimLinearScale,
    DimTextVerticalPos,
    DimToleranceScale,
    DimLineGap,
    DimArrowBlock,
    DimArrowBlock1,
    DimArrowBlock2,
    DimAltRounding,
    DimLineColor,
    DimExtLineColor,
    DimTextColor,
    DimAngularUnits,
    DimFractionFormat,
    DimLinearUnitFormat,
    DimDecimalSeparator,
    DimTextMovement,
    DimExtLineLengthFixed,
    DimTextDirection,
    DimAltMzf,
    DimAltMzs,
    DimMzf,
    DimMzs,
    DimLineWeight,
    DimExtLineWeight,
    StackedTextAlignment,
    StackedTextSizePercentage,
    HyperlinkBase,
    Stylesheet,
    Flags,
    InsertionUnits,
    CurrentPlotstyleType,
    FingerprintGuid,
    VersionGuid,
    SortEntities,
    IndexControl,
    HideText,
    XclipFrame,
    DimensionAssociativity,
    HaloGap,
    ObscuredColor,
    IntersectionColor,
    ObscuredLinetype,
    IntersectionDisplay,
    ProjectName,
    CameraDisplay,
    StepsPerSecond,
    StepSize,
    Dw3dPrecision,
    LensLength,
    CameraHeight,
    SolidsRetainHistory,
    ShowSolidsHistory,
    SweptSolidWidth,
    SweptSolidHeight,
    LoftAngle1,
    LoftAngle2,
    LoftMagnitude1,
    LoftMagnitude2,
    LoftParam,
    LoftNormals,
    Latitude,
    Longitude,
    NorthDirection,
    Timezone,
    LightGlyphDisplay,
    TileModelLightSynch,
    DwfFrame,
    DgnFrame,
    C,
    ShadowMode,
    ShadowPlaneLocation,
}

/// Where the variable `var` stands: after the handle seed or before it,
/// and its places in the full list of system variables (a variable that
/// moved between versions has several; a file stores it at one).
pub open spec fn var_places(var: HeaderVar) -> (bool, Seq<int>) {
    match var {
        HeaderVar::RequiredVersions => (false, seq![0]),
        HeaderVar::AssociateDimensions => (false, seq![13]),
        HeaderVar::UpdateDimensionsWhileDragging => (false, seq![14]),
        HeaderVar::DimSav => (false, seq![15]),
        HeaderVar::PolylineLinetypeGeneration => (false, seq![16]),
        HeaderVar::OrthoMode => (false, seq![17]),
        HeaderVar::RegenMode => (false, seq![18]),
        HeaderVar::FillMode => (false, seq![19]),
        HeaderVar::QuickTextMode => (false, seq![20]),
        HeaderVar::PaperSpaceLinetypeScaling => (false, seq![21]),
        HeaderVar::LimitCheck => (false, seq![22]),
        HeaderVar::BlipMode => (false, seq![23]),
        HeaderVar::UserTimer => (false, seq![25]),
        HeaderVar::SketchPolylines => (false, seq![26]),
        HeaderVar::AngleDirection => (false, seq![27]),
        HeaderVar::SplineFrame => (false, seq![28]),
        HeaderVar::AttributeRequest => (false, seq![29]),
        HeaderVar::AttributeDialog => (false, seq![30]),
        HeaderVar::MirrorText => (false, seq![31]),
        HeaderVar::WorldView => (false, seq![32]),
        HeaderVar::ShowModelSpace => (false, seq![34]),
        HeaderVar::PaperSpaceLimitCheck => (false, seq![35]),
        HeaderVar::RetainXrefVisibility => (false, seq![36]),
        HeaderVar::DeleteObjects => (false, seq![37]),
        HeaderVar::DisplaySilhouette => (false, seq![38]),
        HeaderVar::CreateEllipseAsPolyline => (false, seq![39]),
        HeaderVar::ProxyGraphics => (false, seq![40]),
        HeaderVar::DragMode => (false, seq![41]),
        HeaderVar::TreeDepth => (false, seq![42]),
        HeaderVar::LinearUnitFormat => (false, seq![43]),
        HeaderVar::LinearUnitPrecision => (false, seq![44]),
        HeaderVar::AngularUnitFormat => (false, seq![45]),
        HeaderVar::AngularUnitPrecision => (false, seq![46]),
        HeaderVar::ObjectSnapMode => (false, seq![47]),
        HeaderVar::AttributeVisibility => (false, seq![48]),
        HeaderVar::CoordsMode => (false, seq![49]),
        HeaderVar::PointDisplayMode => (false, seq![50]),
        HeaderVar::PickStyle => (false, seq![51]),
        HeaderVar::UserInt1 => (false, seq![55]),
        HeaderVar::UserInt2 => (false, seq![56]),
        HeaderVar::UserInt3 => (false, seq![57]),
        HeaderVar::UserInt4 => (false, seq![58]),
        HeaderVar::UserInt5 => (false, seq![59]),
        HeaderVar::SplineSegments => (false, seq![60]),
        HeaderVar::SurfaceUDensity => (false, seq![61]),
        HeaderVar::SurfaceVDensity => (false, seq![62]),
        HeaderVar::SurfaceType => (false, seq![63]),
        HeaderVar::SurfaceTab1 => (false, seq![64]),
        HeaderVar::SurfaceTab2 => (false, seq![65]),
        HeaderVar::SplineType => (false, seq![66]),
        HeaderVar::ShadeEdge => (false, seq![67]),
        HeaderVar::ShadeDiffuse => (false, seq![68]),
        HeaderVar::UnitMode => (false, seq![69]),
        HeaderVar::MaxActiveViewports => (false, seq![70]),
        HeaderVar::Isolines => (false, seq![71]),
        HeaderVar::MultilineJustification => (false, seq![72]),
        HeaderVar::TextQuality => (false, seq![73]),
        HeaderVar::LinetypeScale => (false, seq![74]),
        HeaderVar::TextHeight => (false, seq![75]),
        HeaderVar::TraceWidth => (false, seq![76]),
        HeaderVar::SketchIncrement => (false, seq![77]),
        HeaderVar::FilletRadius => (false, seq![78]),
        HeaderVar::Thickness => (false, seq![79]),
        HeaderVar::AngleBase => (false, seq![80]),
        HeaderVar::PointDisplaySize => (false, seq![81]),
        HeaderVar::PolylineWidth => (false, seq![82]),
        HeaderVar::UserReal1 => (false, seq![83]),
        HeaderVar::UserReal2 => (false, seq![84]),
        HeaderVar::UserReal3 => (false, seq![85]),
        HeaderVar::UserReal4 => (false, seq![86]),
        HeaderVar::UserReal5 => (false, seq![87]),
        HeaderVar::ChamferDistanceA => (false, seq![88]),
        HeaderVar::ChamferDistanceB => (false, seq![89]),
        HeaderVar::ChamferLength => (false, seq![90]),
        HeaderVar::ChamferAngle => (false, seq![91]),
        HeaderVar::FacetResolution => (false, seq![92]),
        HeaderVar::MultilineScale => (false, seq![93]),
        HeaderVar::CurrentEntityLinetypeScale => (false, seq![94]),
        HeaderVar::MenuName => (false, seq![95]),
        HeaderVar::CreateDateJulianPart0 => (false, seq![96]),
        HeaderVar::CreateDateJulianPart1 => (false, seq![97]),
        HeaderVar::UpdateDateJulianPart0 => (false, seq![98]),
        HeaderVar::UpdateDateJulianPart1 => (false, seq![99]),
        HeaderVar::TotalEditingTimePart0 => (false, seq![103]),
        HeaderVar::TotalEditingTimePart1 => (false, seq![104]),
        HeaderVar::UserElapsedTimePart0 => (false, seq![105]),
        HeaderVar::UserElapsedTimePart1 => (false, seq![106]),
        HeaderVar::CurrentEntityColor => (false, seq![107]),
        HeaderVar::ViewportScaleFactor => (true, seq![6]),
        HeaderVar::PaperSpaceInsertionBasePart0 => (true, seq![7]),
        HeaderVar::PaperSpaceInsertionBasePart1 => (true, seq![8]),
        HeaderVar::PaperSpaceInsertionBasePart2 => (true, seq![9]),
        HeaderVar::PaperSpaceExtentsMinPart0 => (true, seq![10]),
        HeaderVar::PaperSpaceExtentsMinPart1 => (true, seq![11]),
        HeaderVar::PaperSpaceExtentsMinPart2 => (true, seq![12]),
        HeaderVar::PaperSpaceExtentsMaxPart0 => (true, seq![13]),
        HeaderVar::PaperSpaceExtentsMaxPart1 => (true, seq![14]),
        HeaderVar::PaperSpaceExtentsMaxPart2 => (true, seq![15]),
        HeaderVar::PaperSpaceLimitsMinPart0 => (true, seq![16]),
        HeaderVar::PaperSpaceLimitsMinPart1 => (true, seq![17]),
        HeaderVar::PaperSpaceLimitsMaxPart0 => (true, seq![18]),
        HeaderVar::PaperSpaceLimitsMaxPart1 => (true, seq![19]),
        HeaderVar::PaperElevation => (true, seq![20]),
        HeaderVar::PaperSpaceUcsOriginPart0 => (true, seq![21]),
        HeaderVar::PaperSpaceUcsOriginPart1 => (true, seq![22]),
        HeaderVar::PaperSpaceUcsOriginPart2 => (true, seq![23]),
        HeaderVar::PaperSpaceUcsXAxisPart0 => (true, seq![24]),
        HeaderVar::PaperSpaceUcsXAxisPart1 => (true, seq![25]),
        HeaderVar::PaperSpaceUcsXAxisPart2 => (true, seq![26]),
        HeaderVar::PaperSpaceUcsYAxisPart0 => (true, seq![27]),
        HeaderVar::PaperSpaceUcsYAxisPart1 => (true, seq![28]),
        HeaderVar::PaperSpaceUcsYAxisPart2 => (true, seq![29]),
        HeaderVar::PaperUcsOrthoView => (true, seq![32]),
        HeaderVar::PaperUcsOrthoTopPart0 => (true, seq![34]),
        HeaderVar::PaperUcsOrthoTopPart1 => (true, seq![35]),
        HeaderVar::PaperUcsOrthoTopPart2 => (true, seq![36]),
        HeaderVar::PaperUcsOrthoBottomPart0 => (true, seq![37]),
        HeaderVar::PaperUcsOrthoBottomPart1 => (true, seq![38]),
        HeaderVar::PaperUcsOrthoBottomPart2 => (true, seq![39]),
        HeaderVar::PaperUcsOrthoLeftPart0 => (true, seq![40]),
        HeaderVar::PaperUcsOrthoLeftPart1 => (true, seq![41]),
        HeaderVar::PaperUcsOrthoLeftPart2 => (true, seq![42]),
        HeaderVar::PaperUcsOrthoRightPart0 => (true, seq![43]),
        HeaderVar::PaperUcsOrthoRightPart1 => (true, seq![44]),
        HeaderVar::PaperUcsOrthoRightPart2 => (true, seq![45]),
        HeaderVar::PaperUcsOrthoFrontPart0 => (true, seq![46]),
        HeaderVar::PaperUcsOrthoFrontPart1 => (true, seq![47]),
        HeaderVar::PaperUcsOrthoFrontPart2 => (true, seq![48]),
        HeaderVar::PaperUcsOrthoBackPart0 => (true, seq![49]),
        HeaderVar::PaperUcsOrthoBackPart1 => (true, seq![50]),
        HeaderVar::PaperUcsOrthoBackPart2 => (true, seq![51]),
        HeaderVar::ModelSpaceInsertionBasePart0 => (true, seq![52]),
        HeaderVar::ModelSpaceInsertionBasePart1 => (true, seq![53]),
        HeaderVar::ModelSpaceInsertionBasePart2 => (true, seq![54]),
        HeaderVar::ModelSpaceExtentsMinPart0 => (true, seq![55]),
        HeaderVar::ModelSpaceExtentsMinPart1 => (true, seq![56]),
        HeaderVar::ModelSpaceExtentsMinPart2 => (true, seq![57]),
        HeaderVar::ModelSpaceExtentsMaxPart0 => (true, seq![58]),
        HeaderVar::ModelSpaceExtentsMaxPart1 => (true, seq![59]),
        HeaderVar::ModelSpaceExtentsMaxPart2 => (true, seq![60]),
        HeaderVar::ModelSpaceLimitsMinPart0 => (true, seq![61]),
        HeaderVar::ModelSpaceLimitsMinPart1 => (true, seq![62]),
        HeaderVar::ModelSpaceLimitsMaxPart0 => (true, seq![63]),
        HeaderVar::ModelSpaceLimitsMaxPart1 => (true, seq![64]),
        HeaderVar::Elevation => (true, seq![65]),
        HeaderVar::ModelSpaceUcsOriginPart0 => (true, seq![66]),
        HeaderVar::ModelSpaceUcsOriginPart1 => (true, seq![67]),
        HeaderVar::ModelSpaceUcsOriginPart2 => (true, seq![68]),
        HeaderVar::ModelSpaceUcsXAxisPart0 => (true, seq![69]),
        HeaderVar::ModelSpaceUcsXAxisPart1 => (true, seq![70]),
        HeaderVar::ModelSpaceUcsXAxisPart2 => (true, seq![71]),
        HeaderVar::ModelSpaceUcsYAxisPart0 => (true, seq![72]),
        HeaderVar::ModelSpaceUcsYAxisPart1 => (true, seq![73]),
        HeaderVar::ModelSpaceUcsYAxisPart2 => (true, seq![74]),
        HeaderVar::UcsOrthoView => (true, seq![77]),
        HeaderVar::ModelUcsOrthoTopPart0 => (true, seq![79]),
        HeaderVar::ModelUcsOrthoTopPart1 => (true, seq![80]),
        HeaderVar::ModelUcsOrthoTopPart2 => (true, seq![81]),
        HeaderVar::ModelUcsOrthoBottomPart0 => (true, seq![82]),
        HeaderVar::ModelUcsOrthoBottomPart1 => (true, seq![83]),
        HeaderVar::ModelUcsOrthoBottomPart2 => (true, seq![84]),
        HeaderVar::ModelUcsOrthoLeftPart0 => (true, seq![85]),
        HeaderVar::ModelUcsOrthoLeftPart1 => (true, seq![86]),
        HeaderVar::ModelUcsOrthoLeftPart2 => (true, seq![87]),
        HeaderVar::ModelUcsOrthoRightPart0 => (true, seq![88]),
        HeaderVar::ModelUcsOrthoRightPart1 => (true, seq![89]),
        HeaderVar::ModelUcsOrthoRightPart2 => (true, seq![90]),
        HeaderVar::ModelUcsOrthoFrontPart0 => (true, seq![91]),
        HeaderVar::ModelUcsOrthoFrontPart1 => (true, seq![92]),
        HeaderVar::ModelUcsOrthoFrontPart2 => (true, seq![93]),
        HeaderVar::ModelUcsOrthoBackPart0 => (true, seq![94]),
        HeaderVar::ModelUcsOrthoBackPart1 => (true, seq![95]),
        HeaderVar::ModelUcsOrthoBackPart2 => (true, seq![96]),
        HeaderVar::DimPost => (true, seq![97, 160]),
        HeaderVar::DimAltPost => (true, seq![98, 161]),
        HeaderVar::DimTolerance => (true, seq![99, 142]),
        HeaderVar::DimLimits => (true, seq![100, 143]),
        HeaderVar::DimTextInsideHorizontal => (true, seq![101, 144]),
        HeaderVar::DimTextOutsideHorizontal => (true, seq![102, 145]),
        HeaderVar::DimSuppressExt1 => (true, seq![103, 146]),
        HeaderVar::DimSuppressExt2 => (true, seq![104, 147]),
        HeaderVar::DimAlternateUnits => (true, seq![105, 166]),
        HeaderVar::DimForceLineInside => (true, seq![106, 168]),
        HeaderVar::DimSeparateArrows => (true, seq![107, 169]),
        HeaderVar::DimForceTextInside => (true, seq![108, 170]),
        HeaderVar::DimSuppressOutsideExt => (true, seq![109, 171]),
        HeaderVar::DimAltDecimalPlaces => (true, seq![110, 167]),
        HeaderVar::DimZeroSuppression => (true, seq![111, 149]),
        HeaderVar::DimSuppressLine1 => (true, seq![112, 186]),
        HeaderVar::DimSuppressLine2 => (true, seq![113, 187]),
        HeaderVar::DimToleranceJustification => (true, seq![114, 188]),
        HeaderVar::DimHorizontalJustification => (true, seq![115, 185]),
        HeaderVar::DimFit => (true, seq![116, 193]),
        HeaderVar::DimUserPositionedText => (true, seq![117, 192]),
        HeaderVar::DimToleranceZeroSuppression => (true, seq![118, 189]),
        HeaderVar::DimAltToleranceZeroSuppression => (true, seq![119, 190]),
        HeaderVar::DimAltToleranceZeroTight => (true, seq![120, 191]),
        HeaderVar::DimTextAbove => (true, seq![121, 148]),
        HeaderVar::DimAngularDecimalPlaces => (true, seq![123, 175]),
        HeaderVar::DimDecimalPlaces => (true, seq![124, 176]),
        HeaderVar::DimToleranceDecimalPlaces => (true, seq![125, 177]),
        HeaderVar::DimAltUnitsFormat => (true, seq![126, 178]),
        HeaderVar::DimAltToleranceDecimalPlaces => (true, seq![127, 179]),
        HeaderVar::DimScale => (true, seq![129]),
        HeaderVar::DimArrowSize => (true, seq![130]),
        HeaderVar::DimExtLineOffset => (true, seq![131]),
        HeaderVar::DimLineIncrement => (true, seq![132]),
        HeaderVar::DimExtLineExtension => (true, seq![133]),
        HeaderVar::DimRounding => (true, seq![134]),
        HeaderVar::DimLineExtension => (true, seq![135]),
        HeaderVar::DimTolerancePlus => (true, seq![136]),
        HeaderVar::DimToleranceMinus => (true, seq![137]),
        HeaderVar::DimFixedExtLineLength => (true, seq![138]),
        HeaderVar::DimJogAngle => (true, seq![139]),
        HeaderVar::DimTextFillMode => (true, seq![140]),
        HeaderVar::DimTextFillColor => (true, seq![141]),
        HeaderVar::DimAltZeroSuppression => (true, seq![150]),
        HeaderVar::DimArcSymbolPosition => (true, seq![151]),
        HeaderVar::DimTextHeight => (true, seq![152]),
        HeaderVar::DimCenterMark => (true, seq![153]),
        HeaderVar::DimTickSize => (true, seq![154]),
        HeaderVar::DimAltScale => (true, seq![155]),
        HeaderVar::DimLinearScale => (true, seq![156]),
        HeaderVar::DimTextVerticalPos => (true, seq![157]),
        HeaderVar::DimToleranceScale => (true, seq![158]),
        HeaderVar::DimLineGap => (true, seq![159]),
        HeaderVar::DimArrowBlock => (true, seq![162]),
        HeaderVar::DimArrowBlock1 => (true, seq![163]),
        HeaderVar::DimArrowBlock2 => (true, seq![164]),
        HeaderVar::DimAltRounding => (true, seq![165]),
        HeaderVar::DimLineColor => (true, seq![172]),
        HeaderVar::DimExtLineColor => (true, seq![173]),
        HeaderVar::DimTextColor => (true, seq![174]),
        HeaderVar::DimAngularUnits => (true, seq![180]),
        HeaderVar::DimFractionFormat => (true, seq![181]),
        HeaderVar::DimLinearUnitFormat => (true, seq![182]),
        HeaderVar::DimDecimalSeparator => (true, seq![183]),
        HeaderVar::DimTextMovement => (true, seq![184]),
        HeaderVar::DimExtLineLengthFixed => (true, seq![194]),
        HeaderVar::DimTextDirection => (true, seq![195]),
        HeaderVar::DimAltMzf => (true, seq![196]),
        HeaderVar::DimAltMzs => (true, seq![197]),
        HeaderVar::DimMzf => (true, seq![198]),
        HeaderVar::DimMzs => (true, seq![199]),
        HeaderVar::DimLineWeight => (true, seq![208]),
        HeaderVar::DimExtLineWeight => (true, seq![209]),
        HeaderVar::StackedTextAlignment => (true, seq![223]),
        HeaderVar::StackedTextSizePercentage => (true, seq![224]),
        HeaderVar::HyperlinkBase => (true, seq![225]),
        HeaderVar::Stylesheet => (true, seq![226]),
        HeaderVar::Flags => (true, seq![234]),
        HeaderVar::InsertionUnits => (true, seq![235]),
        HeaderVar::CurrentPlotstyleType => (true, seq![236]),
        HeaderVar::FingerprintGuid => (true, seq![238]),
        HeaderVar::VersionGuid => (true, seq![239]),
        HeaderVar::SortEntities => (true, seq![240]),
        HeaderVar::IndexControl => (true, seq![241]),
        HeaderVar::HideText => (true, seq![242]),
        HeaderVar::XclipFrame => (true, seq![243]),
        HeaderVar::DimensionAssociativity => (true, seq![244]),
        HeaderVar::HaloGap => (true, seq![245]),
        HeaderVar::ObscuredColor => (true, seq![246]),
        HeaderVar::IntersectionColor => (true, seq![247]),
        HeaderVar::ObscuredLinetype => (true, seq![248]),
        HeaderVar::IntersectionDisplay => (true, seq![249]),
        HeaderVar::ProjectName => (true, seq![250]),
        HeaderVar::CameraDisplay => (true, seq![256]),
        HeaderVar::StepsPerSecond => (true, seq![260]),
        HeaderVar::StepSize => (true, seq![261]),
        HeaderVar::Dw3dPrecision => (true, seq![262]),
        HeaderVar::LensLength => (true, seq![263]),
        HeaderVar::CameraHeight => (true, seq![264]),
        HeaderVar::SolidsRetainHistory => (true, seq![265]),
        HeaderVar::ShowSolidsHistory => (true, seq![266]),
        HeaderVar::SweptSolidWidth => (true, seq![267]),
        HeaderVar::SweptSolidHeight => (true, seq![268]),
        HeaderVar::LoftAngle1 => (true, seq![269]),
        HeaderVar::LoftAngle2 => (true, seq![270]),
        HeaderVar::LoftMagnitude1 => (true, seq![271]),
        HeaderVar::LoftMagnitude2 => (true, seq![272]),
        HeaderVar::LoftParam => (true, seq![273]),
        HeaderVar::LoftNormals => (true, seq![274]),
        HeaderVar::Latitude => (true, seq![275]),
        HeaderVar::Longitude => (true, seq![276]),
        HeaderVar::NorthDirection => (true, seq![277]),
        HeaderVar::Timezone => (true, seq![278]),
        HeaderVar::LightGlyphDisplay => (true, seq![279]),
        HeaderVar::TileModelLightSynch => (true, seq![280]),
        HeaderVar::DwfFrame => (true, seq![281]),
        HeaderVar::DgnFrame => (true, seq![282]),
        HeaderVar::C => (true, seq![284]),
        HeaderVar::ShadowMode => (true, seq![288]),
        HeaderVar::ShadowPlaneLocation => (true, seq![289]),
    }
}

/// The value among `vals` (stored entries `p`) of the last of `places`
/// that is stored.
pub open spec fn value_in(p: Seq<bool>, vals: Seq<FieldModel>, places: Seq<int>) -> Option<FieldModel>
    decreases places.len(),
{
    if places.len() == 0 {
        None
    } else {
        match stored_index(p, vals.len(), places.last()) {
            Some(i) => Some(vals[i]),
            None => value_in(p, vals, places.drop_last()),
        }
    }
}

/// The value of the variable `var` in the variables `h` of a `v` file,
/// when the file stores it.
pub open spec fn header_value(v: DxfVersion, h: HeaderModel, var: HeaderVar) -> Option<FieldModel> {
    let (after, places) = var_places(var);
    if after {
        value_in(after_stored(v, h.after_seed), h.after_seed, places)
    } else {
        value_in(before_seed_stored(v), h.before_seed, places)
    }
}

/// The places of `var` (see [`var_places`]).
fn var_places_of(var: HeaderVar) -> (r: (bool, Vec<usize>))
    ensures
        r.0 == var_places(var).0,
        r.1@.map_values(|k: usize| k as int) == var_places(var).1,
{
    let (after, places): (bool, Vec<usize>) = match var {
        HeaderVar::RequiredVersions => {
            let ps: Vec<usize> = vec![0usize];
            proof { assert(ps@.map_values(|k: usize| k as int) =~= seq![0int]); }
            (false, ps)
        },
        HeaderVar::AssociateDimensions => {
            let ps: Vec<usize> = vec![13usize];
            proof { assert(ps@.map_values(|k: usize| k as int) =~= seq![13int]); }
            (false, ps)
        },
        HeaderVar::UpdateDimensionsWhileDragging => {
            let ps: Vec<usize> = vec![14usize];
            proof { assert(ps@.map_values(|k: usize| k as int) =~= seq![14int]); }
            (false, ps)
        },
        HeaderVar::DimSav => {
            let ps: Vec<usize> = vec![15usize];
            proof { assert(ps@.map_values(|k: usize| k as int) =~= seq![15int]); }
            (false, ps)
        },
        HeaderVar::PolylineLinetypeGeneration => {
            let ps: Vec<usize> = vec![16usize];
            proof { assert(ps@.map_values(|k: usize| k as int) =~= seq![16int]); }
            (false, ps)
        },
        HeaderVar::OrthoMode => {
            let ps: Vec<usize> = vec![17usize];
            proof { assert(ps@.map_values(|k: usize| k as int) =~= seq![17int]); }
            (false, ps)
        },
        HeaderVar::RegenMode => {
            let ps: Vec<usize> = vec![18usize];
            proof { assert(ps@.map_values(|k: usize| k as int) =~= seq![18int]); }
            (false, ps)
        },
        HeaderVar::FillMode => {
            let ps: Vec<usize> = vec![19usize];
            proof { assert(ps@.map_values(|k: usize| k as int) =~= seq![19int]); }
            (false, ps)
        },
        HeaderVar::QuickTextMode => {
            let ps: Vec<usize> = vec![20usize];
            proof { assert(ps@.map_values(|k: usize| k as int) =~= seq![20int]); }
            (false, ps)
        },
        HeaderVar::PaperSpaceLinetypeScaling => {
            let ps: Vec<usize> = vec![21usize];
            proof { assert(ps@.map_values(|k: usize| k as int) =~= seq![21int]); }
            (false, ps)
        },
        HeaderVar::LimitCheck => {
            let ps: Vec<usize> = vec![22usize];
            proof { assert(ps@.map_values(|k: usize| k as int) =~= seq![22int]); }
            (false, ps)
        },
        HeaderVar::BlipMode => {
            let ps: Vec<usize> = vec![23usize];
            proof { assert(ps@.map_values(|k: usize| k as int) =~= seq![23int]); }
            (false, ps)
        },
        HeaderVar::UserTimer => {
            let ps: Vec<usize> = vec![25usize];
            proof { assert(ps@.map_values(|k: usize| k as int) =~= seq![25int]); }
            (false, ps)
        },
        HeaderVar::SketchPolylines => {
            let ps: Vec<usize> = vec![26usize];
            proof { assert(ps@.map_values(|k: usize| k as int) =~= seq![26int]); }
            (false, ps)
        },
        HeaderVar::AngleDirection => {
            let ps: Vec<usize> = vec![27usize];
            proof { assert(ps@.map_values(|k: usize| k as int) =~= seq![27int]); }
            (false, ps)
        },
        HeaderVar::SplineFrame => {
            let ps: Vec<usize> = vec![28usize];
            proof { assert(ps@.map_values(|k: usize| k as int) =~= seq![28int]); }
            (false, ps)
        },
        HeaderVar::AttributeRequest => {
            let ps: Vec<usize> = vec![29usize];
            proof { assert(ps@.map_values(|k: usize| k as int) =~= seq![29int]); }
            (false, ps)
        },
        HeaderVar::AttributeDialog => {
            let ps: Vec<usize> = vec![30usize];
            proof { assert(ps@.map_values(|k: usize| k as int) =~= seq![30int]); }
            (false, ps)
        },
        HeaderVar::MirrorText => {
            let ps: Vec<usize> = vec![31usize];
            proof { assert(ps@.map_values(|k: usize| k as int) =~= seq![31int]); }
            (false, ps)
        },
        HeaderVar::WorldView => {
            let ps: Vec<usize> = vec![32usize];
            proof { assert(ps@.map_values(|k: usize| k as int) =~= seq![32int]); }
            (false, ps)
        },
        HeaderVar::ShowModelSpace => {
            let ps: Vec<usize> = vec![34usize];
            proof { assert(ps@.map_values(|k: usize| k as int) =~= seq![34int]); }
            (false, ps)
        },
        HeaderVar::PaperSpaceLimitCheck => {
            let ps: Vec<usize> = vec![35usize];
            proof { assert(ps@.map_values(|k: usize| k as int) =~= seq![35int]); }
            (false, ps)
        },
        HeaderVar::RetainXrefVisibility => {
            let ps: Vec<usize> = vec![36usize];
            proof { assert(ps@.map_values(|k: usize| k as int) =~= seq![36int]); }
            (false, ps)
        },
        HeaderVar::DeleteObjects => {
            let ps: Vec<usize> = vec![37usize];
            proof { assert(ps@.map_values(|k: usize| k as int) =~= seq![37int]); }
            (false, ps)
        },
        HeaderVar::DisplaySilhouette => {
            let ps: Vec<usize> = vec![38usize];
            proof { assert(ps@.map_values(|k: usize| k as int) =~= seq![38int]); }
            (false, ps)
        },
        HeaderVar::CreateEllipseAsPolyline => {
            let ps: Vec<usize> = vec![39usize];
            proof { assert(ps@.map_values(|k: usize| k as int) =~= seq![39int]); }
            (false, ps)
        },
        HeaderVar::ProxyGraphics => {
            let ps: Vec<usize> = vec![40usize];
            proof { assert(ps@.map_values(|k: usize| k as int) =~= seq![40int]); }
            (false, ps)
        },
        HeaderVar::DragMode => {
            let ps: Vec<usize> = vec![41usize];
            proof { assert(ps@.map_values(|k: usize| k as int) =~= seq![41int]); }
            (false, ps)
        },
        HeaderVar::TreeDepth => {
            let ps: Vec<usize> = vec![42usize];
            proof { assert(ps@.map_values(|k: usize| k as int) =~= seq![42int]); }
            (false, ps)
        },
        HeaderVar::LinearUnitFormat => {
            let ps: Vec<usize> = vec![43usize];
            proof { assert(ps@.map_values(|k: usize| k as int) =~= seq![43int]); }
            (false, ps)
        },
        HeaderVar::LinearUnitPrecision => {
            let ps: Vec<usize> = vec![44usize];
            proof { assert(ps@.map_values(|k: usize| k as int) =~= seq![44int]); }
            (false, ps)
        },
        HeaderVar::AngularUnitFormat => {
            let ps: Vec<usize> = vec![45usize];
            proof { assert(ps@.map_values(|k: usize| k as int) =~= seq![45int]); }
            (false, ps)
        },
        HeaderVar::AngularUnitPrecision => {
            let ps: Vec<usize> = vec![46usize];
            proof { assert(ps@.map_values(|k: usize| k as int) =~= seq![46int]); }
            (false, ps)
        },
        HeaderVar::ObjectSnapMode => {
            let ps: Vec<usize> = vec![47usize];
            proof { assert(ps@.map_values(|k: usize| k as int) =~= seq![47int]); }
            (false, ps)
        },
        HeaderVar::AttributeVisibility => {
            let ps: Vec<usize> = vec![48usize];
            proof { assert(ps@.map_values(|k: usize| k as int) =~= seq![48int]); }
            (false, ps)
        },
        HeaderVar::CoordsMode => {
            let ps: Vec<usize> = vec![49usize];
            proof { assert(ps@.map_values(|k: usize| k as int) =~= seq![49int]); }
            (false, ps)
        },
        HeaderVar::PointDisplayMode => {
            let ps: Vec<usize> = vec![50usize];
            proof { assert(ps@.map_values(|k: usize| k as int) =~= seq![50int]); }
            (false, ps)
        },
        HeaderVar::PickStyle => {
            let ps: Vec<usize> = vec![51usize];
            proof { assert(ps@.map_values(|k: usize| k as int) =~= seq![51int]); }
            (false, ps)
        },
        HeaderVar::UserInt1 => {
            let ps: Vec<usize> = vec![55usize];
            proof { assert(ps@.map_values(|k: usize| k as int) =~= seq![55int]); }
            (false, ps)
        },
        HeaderVar::UserInt2 => {
            let ps: Vec<usize> = vec![56usize];
            proof { assert(ps@.map_values(|k: usize| k as int) =~= seq![56int]); }
            (false, ps)
        },
        HeaderVar::UserInt3 => {
            let ps: Vec<usize> = vec![57usize];
            proof { assert(ps@.map_values(|k: usize| k as int) =~= seq![57int]); }
            (false, ps)
        },
        HeaderVar::UserInt4 => {
            let ps: Vec<usize> = vec![58usize];
            proof { assert(ps@.map_values(|k: usize| k as int) =~= seq![58int]); }
            (false, ps)
        },
        HeaderVar::UserInt5 => {
            let ps: Vec<usize> = vec![59usize];
            proof { assert(ps@.map_values(|k: usize| k as int) =~= seq![59int]); }
            (false, ps)
        },
        HeaderVar::SplineSegments => {
            let ps: Vec<usize> = vec![60usize];
            proof { assert(ps@.map_values(|k: usize| k as int) =~= seq![60int]); }
            (false, ps)
        },
        HeaderVar::SurfaceUDensity => {
            let ps: Vec<usize> = vec![61usize];
            proof { assert(ps@.map_values(|k: usize| k as int) =~= seq![61int]); }
            (false, ps)
        },
        HeaderVar::SurfaceVDensity => {
            let ps: Vec<usize> = vec![62usize];
            proof { assert(ps@.map_values(|k: usize| k as int) =~= seq![62int]); }
            (false, ps)
        },
        HeaderVar::SurfaceType => {
            let ps: Vec<usize> = vec![63usize];
            proof { assert(ps@.map_values(|k: usize| k as int) =~= seq![63int]); }
            (false, ps)
        },
        HeaderVar::SurfaceTab1 => {
            let ps: Vec<usize> = vec![64usize];
            proof { assert(ps@.map_values(|k: usize| k as int) =~= seq![64int]); }
            (false, ps)
        },
        HeaderVar::SurfaceTab2 => {
            let ps: Vec<usize> = vec![65usize];
            proof { assert(ps@.map_values(|k: usize| k as int) =~= seq![65int]); }
            (false, ps)
        },
        HeaderVar::SplineType => {
            let ps: Vec<usize> = vec![66usize];
            proof { assert(ps@.map_values(|k: usize| k as int) =~= seq![66int]); }
            (false, ps)
        },
        HeaderVar::ShadeEdge => {
            let ps: Vec<usize> = vec![67usize];
            proof { assert(ps@.map_values(|k: usize| k as int) =~= seq![67int]); }
            (false, ps)
        },
        HeaderVar::ShadeDiffuse => {
            let ps: Vec<usize> = vec![68usize];
            proof { assert(ps@.map_values(|k: usize| k as int) =~= seq![68int]); }
            (false, ps)
        },
        HeaderVar::UnitMode => {
            let ps: Vec<usize> = vec![69usize];
            proof { assert(ps@.map_values(|k: usize| k as int) =~= seq![69int]); }
            (false, ps)
        },
        HeaderVar::MaxActiveViewports => {
            let ps: Vec<usize> = vec![70usize];
            proof { assert(ps@.map_values(|k: usize| k as int) =~= seq![70int]); }
            (false, ps)
        },
        HeaderVar::Isolines => {
            let ps: Vec<usize> = vec![71usize];
            proof { assert(ps@.map_values(|k: usize| k as int) =~= seq![71int]); }
            (false, ps)
        },
        HeaderVar::MultilineJustification => {
            let ps: Vec<usize> = vec![72usize];
            proof { assert(ps@.map_values(|k: usize| k as int) =~= seq![72int]); }
            (false, ps)
        },
        HeaderVar::TextQuality => {
            let ps: Vec<usize> = vec![73usize];
            proof { assert(ps@.map_values(|k: usize| k as int) =~= seq![73int]); }
            (false, ps)
        },
        HeaderVar::LinetypeScale => {
            let ps: Vec<usize> = vec![74usize];
            proof { assert(ps@.map_values(|k: usize| k as int) =~= seq![74int]); }
            (false, ps)
        },
        HeaderVar::TextHeight => {
            let ps: Vec<usize> = vec![75usize];
            proof { assert(ps@.map_values(|k: usize| k as int) =~= seq![75int]); }
            (false, ps)
        },
        HeaderVar::TraceWidth => {
            let ps: Vec<usize> = vec![76usize];
            proof { assert(ps@.map_values(|k: usize| k as int) =~= seq![76int]); }
            (false, ps)
        },
        HeaderVar::SketchIncrement => {
            let ps: Vec<usize> = vec![77usize];
            proof { assert(ps@.map_values(|k: usize| k as int) =~= seq![77int]); }
            (false, ps)
        },
        HeaderVar::FilletRadius => {
            let ps: Vec<usize> = vec![78usize];
            proof { assert(ps@.map_values(|k: usize| k as int) =~= seq![78int]); }
            (false, ps)
        },
        HeaderVar::Thickness => {
            let ps: Vec<usize> = vec![79usize];
            proof { assert(ps@.map_values(|k: usize| k as int) =~= seq![79int]); }
            (false, ps)
        },
        HeaderVar::AngleBase => {
            let ps: Vec<usize> = vec![80usize];
            proof { assert(ps@.map_values(|k: usize| k as int) =~= seq![80int]); }
            (false, ps)
        },
        HeaderVar::PointDisplaySize => {
            let ps: Vec<usize> = vec![81usize];
            proof { assert(ps@.map_values(|k: usize| k as int) =~= seq![81int]); }
            (false, ps)
        },
        HeaderVar::PolylineWidth => {
            let ps: Vec<usize> = vec![82usize];
            proof { assert(ps@.map_values(|k: usize| k as int) =~= seq![82int]); }
            (false, ps)
        },
        HeaderVar::UserReal1 => {
            let ps: Vec<usize> = vec![83usize];
            proof { assert(ps@.map_values(|k: usize| k as int) =~= seq![83int]); }
            (false, ps)
        },
        HeaderVar::UserReal2 => {
            let ps: Vec<usize> = vec![84usize];
            proof { assert(ps@.map_values(|k: usize| k as int) =~= seq![84int]); }
            (false, ps)
        },
        HeaderVar::UserReal3 => {
            let ps: Vec<usize> = vec![85usize];
            proof { assert(ps@.map_values(|k: usize| k as int) =~= seq![85int]); }
            (false, ps)
        },
        HeaderVar::UserReal4 => {
            let ps: Vec<usize> = vec![86usize];
            proof { assert(ps@.map_values(|k: usize| k as int) =~= seq![86int]); }
            (false, ps)
        },
        HeaderVar::UserReal5 => {
            let ps: Vec<usize> = vec![87usize];
            proof { assert(ps@.map_values(|k: usize| k as int) =~= seq![87int]); }
            (false, ps)
        },
        HeaderVar::ChamferDistanceA => {
            let ps: Vec<usize> = vec![88usize];
            proof { assert(ps@.map_values(|k: usize| k as int) =~= seq![88int]); }
            (false, ps)
        },
        HeaderVar::ChamferDistanceB => {
            let ps: Vec<usize> = vec![89usize];
            proof { assert(ps@.map_values(|k: usize| k as int) =~= seq![89int]); }
            (false, ps)
        },
        HeaderVar::ChamferLength => {
            let ps: Vec<usize> = vec![90usize];
            proof { assert(ps@.map_values(|k: usize| k as int) =~= seq![90int]); }
            (false, ps)
        },
        HeaderVar::ChamferAngle => {
            let ps: Vec<usize> = vec![91usize];
            proof { assert(ps@.map_values(|k: usize| k as int) =~= seq![91int]); }
            (false, ps)
        },
        HeaderVar::FacetResolution => {
            let ps: Vec<usize> = vec![92usize];
            proof { assert(ps@.map_values(|k: usize| k as int) =~= seq![92int]); }
            (false, ps)
        },
        HeaderVar::MultilineScale => {
            let ps: Vec<usize> = vec![93usize];
            proof { assert(ps@.map_values(|k: usize| k as int) =~= seq![93int]); }
            (false, ps)
        },
        HeaderVar::CurrentEntityLinetypeScale => {
            let ps: Vec<usize> = vec![94usize];
            proof { assert(ps@.map_values(|k: usize| k as int) =~= seq![94int]); }
            (false, ps)
        },
        HeaderVar::MenuName => {
            let ps: Vec<usize> = vec![95usize];
            proof { assert(ps@.map_values(|k: usize| k as int) =~= seq![95int]); }
            (false, ps)
        },
        HeaderVar::CreateDateJulianPart0 => {
            let ps: Vec<usize> = vec![96usize];
            proof { assert(ps@.map_values(|k: usize| k as int) =~= seq![96int]); }
            (false, ps)
        },
        HeaderVar::CreateDateJulianPart1 => {
            let ps: Vec<usize> = vec![97usize];
            proof { assert(ps@.map_values(|k: usize| k as int) =~= seq![97int]); }
            (false, ps)
        },
        HeaderVar::UpdateDateJulianPart0 => {
            let ps: Vec<usize> = vec![98usize];
            proof { assert(ps@.map_values(|k: usize| k as int) =~= seq![98int]); }
            (false, ps)
        },
        HeaderVar::UpdateDateJulianPart1 => {
            let ps: Vec<usize> = vec![99usize];
            proof { assert(ps@.map_values(|k: usize| k as int) =~= seq![99int]); }
            (false, ps)
        },
        HeaderVar::TotalEditingTimePart0 => {
            let ps: Vec<usize> = vec![103usize];
            proof { assert(ps@.map_values(|k: usize| k as int) =~= seq![103int]); }
            (false, ps)
        },
        HeaderVar::TotalEditingTimePart1 => {
            let ps: Vec<usize> = vec![104usize];
            proof { assert(ps@.map_values(|k: usize| k as int) =~= seq![104int]); }
            (false, ps)
        },
        HeaderVar::UserElapsedTimePart0 => {
            let ps: Vec<usize> = vec![105usize];
            proof { assert(ps@.map_values(|k: usize| k as int) =~= seq![105int]); }
            (false, ps)
        },
        HeaderVar::UserElapsedTimePart1 => {
            let ps: Vec<usize> = vec![106usize];
            proof { assert(ps@.map_values(|k: usize| k as int) =~= seq![106int]); }
            (false, ps)
        },
        HeaderVar::CurrentEntityColor => {
            let ps: Vec<usize> = vec![107usize];
            proof { assert(ps@.map_values(|k: usize| k as int) =~= seq![107int]); }
            (false, ps)
        },
        HeaderVar::ViewportScaleFactor => {
            let ps: Vec<usize> = vec![6usize];
            proof { assert(ps@.map_values(|k: usize| k as int) =~= seq![6int]); }
            (true, ps)
        },
        HeaderVar::PaperSpaceInsertionBasePart0 => {
            let ps: Vec<usize> = vec![7usize];
            proof { assert(ps@.map_values(|k: usize| k as int) =~= seq![7int]); }
            (true, ps)
        },
        HeaderVar::PaperSpaceInsertionBasePart1 => {
            let ps: Vec<usize> = vec![8usize];
            proof { assert(ps@.map_values(|k: usize| k as int) =~= seq![8int]); }
            (true, ps)
        },
        HeaderVar::PaperSpaceInsertionBasePart2 => {
            let ps: Vec<usize> = vec![9usize];
            proof { assert(ps@.map_values(|k: usize| k as int) =~= seq![9int]); }
            (true, ps)
        },
        HeaderVar::PaperSpaceExtentsMinPart0 => {
            let ps: Vec<usize> = vec![10usize];
            proof { assert(ps@.map_values(|k: usize| k as int) =~= seq![10int]); }
            (true, ps)
        },
        HeaderVar::PaperSpaceExtentsMinPart1 => {
            let ps: Vec<usize> = vec![11usize];
            proof { assert(ps@.map_values(|k: usize| k as int) =~= seq![11int]); }
            (true, ps)
        },
        HeaderVar::PaperSpaceExtentsMinPart2 => {
            let ps: Vec<usize> = vec![12usize];
            proof { assert(ps@.map_values(|k: usize| k as int) =~= seq![12int]); }
            (true, ps)
        },
        HeaderVar::PaperSpaceExtentsMaxPart0 => {
            let ps: Vec<usize> = vec![13usize];
            proof { assert(ps@.map_values(|k: usize| k as int) =~= seq![13int]); }
            (true, ps)
        },
        HeaderVar::PaperSpaceExtentsMaxPart1 => {
            let ps: Vec<usize> = vec![14usize];
            proof { assert(ps@.map_values(|k: usize| k as int) =~= seq![14int]); }
            (true, ps)
        },
        HeaderVar::PaperSpaceExtentsMaxPart2 => {
            let ps: Vec<usize> = vec![15usize];
            proof { assert(ps@.map_values(|k: usize| k as int) =~= seq![15int]); }
            (true, ps)
        },
        HeaderVar::PaperSpaceLimitsMinPart0 => {
            let ps: Vec<usize> = vec![16usize];
            proof { assert(ps@.map_values(|k: usize| k as int) =~= seq![16int]); }
            (true, ps)
        },
        HeaderVar::PaperSpaceLimitsMinPart1 => {
            let ps: Vec<usize> = vec![17usize];
            proof { assert(ps@.map_values(|k: usize| k as int) =~= seq![17int]); }
            (true, ps)
        },
        HeaderVar::PaperSpaceLimitsMaxPart0 => {
            let ps: Vec<usize> = vec![18usize];
            proof { assert(ps@.map_values(|k: usize| k as int) =~= seq![18int]); }
            (true, ps)
        },
        HeaderVar::PaperSpaceLimitsMaxPart1 => {
            let ps: Vec<usize> = vec![19usize];
            proof { assert(ps@.map_values(|k: usize| k as int) =~= seq![19int]); }
            (true, ps)
        },
        HeaderVar::PaperElevation => {
            let ps: Vec<usize> = vec![20usize];
            proof { assert(ps@.map_values(|k: usize| k as int) =~= seq![20int]); }
            (true, ps)
        },
        HeaderVar::PaperSpaceUcsOriginPart0 => {
            let ps: Vec<usize> = vec![21usize];
            proof { assert(ps@.map_values(|k: usize| k as int) =~= seq![21int]); }
            (true, ps)
        },
        HeaderVar::PaperSpaceUcsOriginPart1 => {
            let ps: Vec<usize> = vec![22usize];
            proof { assert(ps@.map_values(|k: usize| k as int) =~= seq![22int]); }
            (true, ps)
        },
        HeaderVar::PaperSpaceUcsOriginPart2 => {
            let ps: Vec<usize> = vec![23usize];
            proof { assert(ps@.map_values(|k: usize| k as int) =~= seq![23int]); }
            (true, ps)
        },
        HeaderVar::PaperSpaceUcsXAxisPart0 => {
            let ps: Vec<usize> = vec![24usize];
            proof { assert(ps@.map_values(|k: usize| k as int) =~= seq![24int]); }
            (true, ps)
        },
        HeaderVar::PaperSpaceUcsXAxisPart1 => {
            let ps: Vec<usize> = vec![25usize];
            proof { assert(ps@.map_values(|k: usize| k as int) =~= seq![25int]); }
            (true, ps)
        },
        HeaderVar::PaperSpaceUcsXAxisPart2 => {
            let ps: Vec<usize> = vec![26usize];
            proof { assert(ps@.map_values(|k: usize| k as int) =~= seq![26int]); }
            (true, ps)
        },
        HeaderVar::PaperSpaceUcsYAxisPart0 => {
            let ps: Vec<usize> = vec![27usize];
            proof { assert(ps@.map_values(|k: usize| k as int) =~= seq![27int]); }
            (true, ps)
        },
        HeaderVar::PaperSpaceUcsYAxisPart1 => {
            let ps: Vec<usize> = vec![28usize];
            proof { assert(ps@.map_values(|k: usize| k as int) =~= seq![28int]); }
            (true, ps)
        },
        HeaderVar::PaperSpaceUcsYAxisPart2 => {
            let ps: Vec<usize> = vec![29usize];
            proof { assert(ps@.map_values(|k: usize| k as int) =~= seq![29int]); }
            (true, ps)
        },
        HeaderVar::PaperUcsOrthoView => {
            let ps: Vec<usize> = vec![32usize];
            proof { assert(ps@.map_values(|k: usize| k as int) =~= seq![32int]); }
            (true, ps)
        },
        HeaderVar::PaperUcsOrthoTopPart0 => {
            let ps: Vec<usize> = vec![34usize];
            proof { assert(ps@.map_values(|k: usize| k as int) =~= seq![34int]); }
            (true, ps)
        },
        HeaderVar::PaperUcsOrthoTopPart1 => {
            let ps: Vec<usize> = vec![35usize];
            proof { assert(ps@.map_values(|k: usize| k as int) =~= seq![35int]); }
            (true, ps)
        },
        HeaderVar::PaperUcsOrthoTopPart2 => {
            let ps: Vec<usize> = vec![36usize];
            proof { assert(ps@.map_values(|k: usize| k as int) =~= seq![36int]); }
            (true, ps)
        },
        HeaderVar::PaperUcsOrthoBottomPart0 => {
            let ps: Vec<usize> = vec![37usize];
            proof { assert(ps@.map_values(|k: usize| k as int) =~= seq![37int]); }
            (true, ps)
        },
        HeaderVar::PaperUcsOrthoBottomPart1 => {
            let ps: Vec<usize> = vec![38usize];
            proof { assert(ps@.map_values(|k: usize| k as int) =~= seq![38int]); }
            (true, ps)
        },
        HeaderVar::PaperUcsOrthoBottomPart2 => {
            let ps: Vec<usize> = vec![39usize];
            proof { assert(ps@.map_values(|k: usize| k as int) =~= seq![39int]); }
            (true, ps)
        },
        HeaderVar::PaperUcsOrthoLeftPart0 => {
            let ps: Vec<usize> = vec![40usize];
            proof { assert(ps@.map_values(|k: usize| k as int) =~= seq![40int]); }
            (true, ps)
        },
        HeaderVar::PaperUcsOrthoLeftPart1 => {
            let ps: Vec<usize> = vec![41usize];
            proof { assert(ps@.map_values(|k: usize| k as int) =~= seq![41int]); }
            (true, ps)
        },
        HeaderVar::PaperUcsOrthoLeftPart2 => {
            let ps: Vec<usize> = vec![42usize];
            proof { assert(ps@.map_values(|k: usize| k as int) =~= seq![42int]); }
            (true, ps)
        },
        HeaderVar::PaperUcsOrthoRightPart0 => {
            let ps: Vec<usize> = vec![43usize];
            proof { assert(ps@.map_values(|k: usize| k as int) =~= seq![43int]); }
            (true, ps)
        },
        HeaderVar::PaperUcsOrthoRightPart1 => {
            let ps: Vec<usize> = vec![44usize];
            proof { assert(ps@.map_values(|k: usize| k as int) =~= seq![44int]); }
            (true, ps)
        },
        HeaderVar::PaperUcsOrthoRightPart2 => {
            let ps: Vec<usize> = vec![45usize];
            proof { assert(ps@.map_values(|k: usize| k as int) =~= seq![45int]); }
            (true, ps)
        },
        HeaderVar::PaperUcsOrthoFrontPart0 => {
            let ps: Vec<usize> = vec![46usize];
            proof { assert(ps@.map_values(|k: usize| k as int) =~= seq![46int]); }
            (true, ps)
        },
        HeaderVar::PaperUcsOrthoFrontPart1 => {
            let ps: Vec<usize> = vec![47usize];
            proof { assert(ps@.map_values(|k: usize| k as int) =~= seq![47int]); }
            (true, ps)
        },
        HeaderVar::PaperUcsOrthoFrontPart2 => {
            let ps: Vec<usize> = vec![48usize];
            proof { assert(ps@.map_values(|k: usize| k as int) =~= seq![48int]); }
            (true, ps)
        },
        HeaderVar::PaperUcsOrthoBackPart0 => {
            let ps: Vec<usize> = vec![49usize];
            proof { assert(ps@.map_values(|k: usize| k as int) =~= seq![49int]); }
            (true, ps)
        },
        HeaderVar::PaperUcsOrthoBackPart1 => {
            let ps: Vec<usize> = vec![50usize];
            proof { assert(ps@.map_values(|k: usize| k as int) =~= seq![50int]); }
            (true, ps)
        },
        HeaderVar::PaperUcsOrthoBackPart2 => {
            let ps: Vec<usize> = vec![51usize];
            proof { assert(ps@.map_values(|k: usize| k as int) =~= seq![51int]); }
            (true, ps)
        },
        HeaderVar::ModelSpaceInsertionBasePart0 => {
            let ps: Vec<usize> = vec![52usize];
            proof { assert(ps@.map_values(|k: usize| k as int) =~= seq![52int]); }
            (true, ps)
        },
        HeaderVar::ModelSpaceInsertionBasePart1 => {
            let ps: Vec<usize> = vec![53usize];
            proof { assert(ps@.map_values(|k: usize| k as int) =~= seq![53int]); }
            (true, ps)
        },
        HeaderVar::ModelSpaceInsertionBasePart2 => {
            let ps: Vec<usize> = vec![54usize];
            proof { assert(ps@.map_values(|k: usize| k as int) =~= seq![54int]); }
            (true, ps)
        },
        HeaderVar::ModelSpaceExtentsMinPart0 => {
            let ps: Vec<usize> = vec![55usize];
            proof { assert(ps@.map_values(|k: usize| k as int) =~= seq![55int]); }
            (true, ps)
        },
        HeaderVar::ModelSpaceExtentsMinPart1 => {
            let ps: Vec<usize> = vec![56usize];
            proof { assert(ps@.map_values(|k: usize| k as int) =~= seq![56int]); }
            (true, ps)
        },
        HeaderVar::ModelSpaceExtentsMinPart2 => {
            let ps: Vec<usize> = vec![57usize];
            proof { assert(ps@.map_values(|k: usize| k as int) =~= seq![57int]); }
            (true, ps)
        },
        HeaderVar::ModelSpaceExtentsMaxPart0 => {
            let ps: Vec<usize> = vec![58usize];
            proof { assert(ps@.map_values(|k: usize| k as int) =~= seq![58int]); }
            (true, ps)
        },
        HeaderVar::ModelSpaceExtentsMaxPart1 => {
            let ps: Vec<usize> = vec![59usize];
            proof { assert(ps@.map_values(|k: usize| k as int) =~= seq![59int]); }
            (true, ps)
        },
        HeaderVar::ModelSpaceExtentsMaxPart2 => {
            let ps: Vec<usize> = vec![60usize];
            proof { assert(ps@.map_values(|k: usize| k as int) =~= seq![60int]); }
            (true, ps)
        },
        HeaderVar::ModelSpaceLimitsMinPart0 => {
            let ps: Vec<usize> = vec![61usize];
            proof { assert(ps@.map_values(|k: usize| k as int) =~= seq![61int]); }
            (true, ps)
        },
        HeaderVar::ModelSpaceLimitsMinPart1 => {
            let ps: Vec<usize> = vec![62usize];
            proof { assert(ps@.map_values(|k: usize| k as int) =~= seq![62int]); }
            (true, ps)
        },
        HeaderVar::ModelSpaceLimitsMaxPart0 => {
            let ps: Vec<usize> = vec![63usize];
            proof { assert(ps@.map_values(|k: usize| k as int) =~= seq![63int]); }
            (true, ps)
        },
        HeaderVar::ModelSpaceLimitsMaxPart1 => {
            let ps: Vec<usize> = vec![64usize];
            proof { assert(ps@.map_values(|k: usize| k as int) =~= seq![64int]); }
            (true, ps)
        },
        HeaderVar::Elevation => {
            let ps: Vec<usize> = vec![65usize];
            proof { assert(ps@.map_values(|k: usize| k as int) =~= seq![65int]); }
            (true, ps)
        },
        HeaderVar::ModelSpaceUcsOriginPart0 => {
            let ps: Vec<usize> = vec![66usize];
            proof { assert(ps@.map_values(|k: usize| k as int) =~= seq![66int]); }
            (true, ps)
        },
        HeaderVar::ModelSpaceUcsOriginPart1 => {
            let ps: Vec<usize> = vec![67usize];
            proof { assert(ps@.map_values(|k: usize| k as int) =~= seq![67int]); }
            (true, ps)
        },
        HeaderVar::ModelSpaceUcsOriginPart2 => {
            let ps: Vec<usize> = vec![68usize];
            proof { assert(ps@.map_values(|k: usize| k as int) =~= seq![68int]); }
            (true, ps)
        },
        HeaderVar::ModelSpaceUcsXAxisPart0 => {
            let ps: Vec<usize> = vec![69usize];
            proof { assert(ps@.map_values(|k: usize| k as int) =~= seq![69int]); }
            (true, ps)
        },
        HeaderVar::ModelSpaceUcsXAxisPart1 => {
            let ps: Vec<usize> = vec![70usize];
            proof { assert(ps@.map_values(|k: usize| k as int) =~= seq![70int]); }
            (true, ps)
        },
        HeaderVar::ModelSpaceUcsXAxisPart2 => {
            let ps: Vec<usize> = vec![71usize];
            proof { assert(ps@.map_values(|k: usize| k as int) =~= seq![71int]); }
            (true, ps)
        },
        HeaderVar::ModelSpaceUcsYAxisPart0 => {
            let ps: Vec<usize> = vec![72usize];
            proof { assert(ps@.map_values(|k: usize| k as int) =~= seq![72int]); }
            (true, ps)
        },
        HeaderVar::ModelSpaceUcsYAxisPart1 => {
            let ps: Vec<usize> = vec![73usize];
            proof { assert(ps@.map_values(|k: usize| k as int) =~= seq![73int]); }
            (true, ps)
        },
        HeaderVar::ModelSpaceUcsYAxisPart2 => {
            let ps: Vec<usize> = vec![74usize];
            proof { assert(ps@.map_values(|k: usize| k as int) =~= seq![74int]); }
            (true, ps)
        },
        HeaderVar::UcsOrthoView => {
            let ps: Vec<usize> = vec![77usize];
            proof { assert(ps@.map_values(|k: usize| k as int) =~= seq![77int]); }
            (true, ps)
        },
        HeaderVar::ModelUcsOrthoTopPart0 => {
            let ps: Vec<usize> = vec![79usize];
            proof { assert(ps@.map_values(|k: usize| k as int) =~= seq![79int]); }
            (true, ps)
        },
        HeaderVar::ModelUcsOrthoTopPart1 => {
            let ps: Vec<usize> = vec![80usize];
            proof { assert(ps@.map_values(|k: usize| k as int) =~= seq![80int]); }
            (true, ps)
        },
        HeaderVar::ModelUcsOrthoTopPart2 => {
            let ps: Vec<usize> = vec![81usize];
            proof { assert(ps@.map_values(|k: usize| k as int) =~= seq![81int]); }
            (true, ps)
        },
        HeaderVar::ModelUcsOrthoBottomPart0 => {
            let ps: Vec<usize> = vec![82usize];
            proof { assert(ps@.map_values(|k: usize| k as int) =~= seq![82int]); }
            (true, ps)
        },
        HeaderVar::ModelUcsOrthoBottomPart1 => {
            let ps: Vec<usize> = vec![83usize];
            proof { assert(ps@.map_values(|k: usize| k as int) =~= seq![83int]); }
            (true, ps)
        },
        HeaderVar::ModelUcsOrthoBottomPart2 => {
            let ps: Vec<usize> = vec![84usize];
            proof { assert(ps@.map_values(|k: usize| k as int) =~= seq![84int]); }
            (true, ps)
        },
        HeaderVar::ModelUcsOrthoLeftPart0 => {
            let ps: Vec<usize> = vec![85usize];
            proof { assert(ps@.map_values(|k: usize| k as int) =~= seq![85int]); }
            (true, ps)
        },
        HeaderVar::ModelUcsOrthoLeftPart1 => {
            let ps: Vec<usize> = vec![86usize];
            proof { assert(ps@.map_values(|k: usize| k as int) =~= seq![86int]); }
            (true, ps)
        },
        HeaderVar::ModelUcsOrthoLeftPart2 => {
            let ps: Vec<usize> = vec![87usize];
            proof { assert(ps@.map_values(|k: usize| k as int) =~= seq![87int]); }
            (true, ps)
        },
        HeaderVar::ModelUcsOrthoRightPart0 => {
            let ps: Vec<usize> = vec![88usize];
            proof { assert(ps@.map_values(|k: usize| k as int) =~= seq![88int]); }
            (true, ps)
        },
        HeaderVar::ModelUcsOrthoRightPart1 => {
            let ps: Vec<usize> = vec![89usize];
            proof { assert(ps@.map_values(|k: usize| k as int) =~= seq![89int]); }
            (true, ps)
        },
        HeaderVar::ModelUcsOrthoRightPart2 => {
            let ps: Vec<usize> = vec![90usize];
            proof { assert(ps@.map_values(|k: usize| k as int) =~= seq![90int]); }
            (true, ps)
        },
        HeaderVar::ModelUcsOrthoFrontPart0 => {
            let ps: Vec<usize> = vec![91usize];
            proof { assert(ps@.map_values(|k: usize| k as int) =~= seq![91int]); }
            (true, ps)
        },
        HeaderVar::ModelUcsOrthoFrontPart1 => {
            let ps: Vec<usize> = vec![92usize];
            proof { assert(ps@.map_values(|k: usize| k as int) =~= seq![92int]); }
            (true, ps)
        },
        HeaderVar::ModelUcsOrthoFrontPart2 => {
            let ps: Vec<usize> = vec![93usize];
            proof { assert(ps@.map_values(|k: usize| k as int) =~= seq![93int]); }
            (true, ps)
        },
        HeaderVar::ModelUcsOrthoBackPart0 => {
            let ps: Vec<usize> = vec![94usize];
            proof { assert(ps@.map_values(|k: usize| k as int) =~= seq![94int]); }
            (true, ps)
        },
        HeaderVar::ModelUcsOrthoBackPart1 => {
            let ps: Vec<usize> = vec![95usize];
            proof { assert(ps@.map_values(|k: usize| k as int) =~= seq![95int]); }
            (true, ps)
        },
        HeaderVar::ModelUcsOrthoBackPart2 => {
            let ps: Vec<usize> = vec![96usize];
            proof { assert(ps@.map_values(|k: usize| k as int) =~= seq![96int]); }
            (true, ps)
        },
        HeaderVar::DimPost => {
            let ps: Vec<usize> = vec![97usize, 160usize];
            proof { assert(ps@.map_values(|k: usize| k as int) =~= seq![97int, 160int]); }
            (true, ps)
        },
        HeaderVar::DimAltPost => {
            let ps: Vec<usize> = vec![98usize, 161usize];
            proof { assert(ps@.map_values(|k: usize| k as int) =~= seq![98int, 161int]); }
            (true, ps)
        },
        HeaderVar::DimTolerance => {
            let ps: Vec<usize> = vec![99usize, 142usize];
            proof { assert(ps@.map_values(|k: usize| k as int) =~= seq![99int, 142int]); }
            (true, ps)
        },
        HeaderVar::DimLimits => {
            let ps: Vec<usize> = vec![100usize, 143usize];
            proof { assert(ps@.map_values(|k: usize| k as int) =~= seq![100int, 143int]); }
            (true, ps)
        },
        HeaderVar::DimTextInsideHorizontal => {
            let ps: Vec<usize> = vec![101usize, 144usize];
            proof { assert(ps@.map_values(|k: usize| k as int) =~= seq![101int, 144int]); }
            (true, ps)
        },
        HeaderVar::DimTextOutsideHorizontal => {
            let ps: Vec<usize> = vec![102usize, 145usize];
            proof { assert(ps@.map_values(|k: usize| k as int) =~= seq![102int, 145int]); }
            (true, ps)
        },
        HeaderVar::DimSuppressExt1 => {
            let ps: Vec<usize> = vec![103usize, 146usize];
            proof { assert(ps@.map_values(|k: usize| k as int) =~= seq![103int, 146int]); }
            (true, ps)
        },
        HeaderVar::DimSuppressExt2 => {
            let ps: Vec<usize> = vec![104usize, 147usize];
            proof { assert(ps@.map_values(|k: usize| k as int) =~= seq![104int, 147int]); }
            (true, ps)
        },
        HeaderVar::DimAlternateUnits => {
            let ps: Vec<usize> = vec![105usize, 166usize];
            proof { assert(ps@.map_values(|k: usize| k as int) =~= seq![105int, 166int]); }
            (true, ps)
        },
        HeaderVar::DimForceLineInside => {
            let ps: Vec<usize> = vec![106usize, 168usize];
            proof { assert(ps@.map_values(|k: usize| k as int) =~= seq![106int, 168int]); }
            (true, ps)
        },
        HeaderVar::DimSeparateArrows => {
            let ps: Vec<usize> = vec![107usize, 169usize];
            proof { assert(ps@.map_values(|k: usize| k as int) =~= seq![107int, 169int]); }
            (true, ps)
        },
        HeaderVar::DimForceTextInside => {
            let ps: Vec<usize> = vec![108usize, 170usize];
            proof { assert(ps@.map_values(|k: usize| k as int) =~= seq![108int, 170int]); }
            (true, ps)
        },
        HeaderVar::DimSuppressOutsideExt => {
            let ps: Vec<usize> = vec![109usize, 171usize];
            proof { assert(ps@.map_values(|k: usize| k as int) =~= seq![109int, 171int]); }
            (true, ps)
        },
        HeaderVar::DimAltDecimalPlaces => {
            let ps: Vec<usize> = vec![110usize, 167usize];
            proof { assert(ps@.map_values(|k: usize| k as int) =~= seq![110int, 167int]); }
            (true, ps)
        },
        HeaderVar::DimZeroSuppression => {
            let ps: Vec<usize> = vec![111usize, 149usize];
            proof { assert(ps@.map_values(|k: usize| k as int) =~= seq![111int, 149int]); }
            (true, ps)
        },
        HeaderVar::DimSuppressLine1 => {
            let ps: Vec<usize> = vec![112usize, 186usize];
            proof { assert(ps@.map_values(|k: usize| k as int) =~= seq![112int, 186int]); }
            (true, ps)
        },
        HeaderVar::DimSuppressLine2 => {
            let ps: Vec<usize> = vec![113usize, 187usize];
            proof { assert(ps@.map_values(|k: usize| k as int) =~= seq![113int, 187int]); }
            (true, ps)
        },
        HeaderVar::DimToleranceJustification => {
            let ps: Vec<usize> = vec![114usize, 188usize];
            proof { assert(ps@.map_values(|k: usize| k as int) =~= seq![114int, 188int]); }
            (true, ps)
        },
        HeaderVar::DimHorizontalJustification => {
            let ps: Vec<usize> = vec![115usize, 185usize];
            proof { assert(ps@.map_values(|k: usize| k as int) =~= seq![115int, 185int]); }
            (true, ps)
        },
        HeaderVar::DimFit => {
            let ps: Vec<usize> = vec![116usize, 193usize];
            proof { assert(ps@.map_values(|k: usize| k as int) =~= seq![116int, 193int]); }
            (true, ps)
        },
        HeaderVar::DimUserPositionedText => {
            let ps: Vec<usize> = vec![117usize, 192usize];
            proof { assert(ps@.map_values(|k: usize| k as int) =~= seq![117int, 192int]); }
            (true, ps)
        },
        HeaderVar::DimToleranceZeroSuppression => {
            let ps: Vec<usize> = vec![118usize, 189usize];
            proof { assert(ps@.map_values(|k: usize| k as int) =~= seq![118int, 189int]); }
            (true, ps)
        },
        HeaderVar::DimAltToleranceZeroSuppression => {
            let ps: Vec<usize> = vec![119usize, 190usize];
            proof { assert(ps@.map_values(|k: usize| k as int) =~= seq![119int, 190int]); }
            (true, ps)
        },
        HeaderVar::DimAltToleranceZeroTight => {
            let ps: Vec<usize> = vec![120usize, 191usize];
            proof { assert(ps@.map_values(|k: usize| k as int) =~= seq![120int, 191int]); }
            (true, ps)
        },
        HeaderVar::DimTextAbove => {
            let ps: Vec<usize> = vec![121usize, 148usize];
            proof { assert(ps@.map_values(|k: usize| k as int) =~= seq![121int, 148int]); }
            (true, ps)
        },
        HeaderVar::DimAngularDecimalPlaces => {
            let ps: Vec<usize> = vec![123usize, 175usize];
            proof { assert(ps@.map_values(|k: usize| k as int) =~= seq![123int, 175int]); }
            (true, ps)
        },
        HeaderVar::DimDecimalPlaces => {
            let ps: Vec<usize> = vec![124usize, 176usize];
            proof { assert(ps@.map_values(|k: usize| k as int) =~= seq![124int, 176int]); }
            (true, ps)
        },
        HeaderVar::DimToleranceDecimalPlaces => {
            let ps: Vec<usize> = vec![125usize, 177usize];
            proof { assert(ps@.map_values(|k: usize| k as int) =~= seq![125int, 177int]); }
            (true, ps)
        },
        HeaderVar::DimAltUnitsFormat => {
            let ps: Vec<usize> = vec![126usize, 178usize];
            proof { assert(ps@.map_values(|k: usize| k as int) =~= seq![126int, 178int]); }
            (true, ps)
        },
        HeaderVar::DimAltToleranceDecimalPlaces => {
            let ps: Vec<usize> = vec![127usize, 179usize];
            proof { assert(ps@.map_values(|k: usize| k as int) =~= seq![127int, 179int]); }
            (true, ps)
        },
        HeaderVar::DimScale => {
            let ps: Vec<usize> = vec![129usize];
            proof { assert(ps@.map_values(|k: usize| k as int) =~= seq![129int]); }
            (true, ps)
        },
        HeaderVar::DimArrowSize => {
            let ps: Vec<usize> = vec![130usize];
            proof { assert(ps@.map_values(|k: usize| k as int) =~= seq![130int]); }
            (true, ps)
        },
        HeaderVar::DimExtLineOffset => {
            let ps: Vec<usize> = vec![131usize];
            proof { assert(ps@.map_values(|k: usize| k as int) =~= seq![131int]); }
            (true, ps)
        },
        HeaderVar::DimLineIncrement => {
            let ps: Vec<usize> = vec![132usize];
            proof { assert(ps@.map_values(|k: usize| k as int) =~= seq![132int]); }
            (true, ps)
        },
        HeaderVar::DimExtLineExtension => {
            let ps: Vec<usize> = vec![133usize];
            proof { assert(ps@.map_values(|k: usize| k as int) =~= seq![133int]); }
            (true, ps)
        },
        HeaderVar::DimRounding => {
            let ps: Vec<usize> = vec![134usize];
            proof { assert(ps@.map_values(|k: usize| k as int) =~= seq![134int]); }
            (true, ps)
        },
        HeaderVar::DimLineExtension => {
            let ps: Vec<usize> = vec![135usize];
            proof { assert(ps@.map_values(|k: usize| k as int) =~= seq![135int]); }
            (true, ps)
        },
        HeaderVar::DimTolerancePlus => {
            let ps: Vec<usize> = vec![136usize];
            proof { assert(ps@.map_values(|k: usize| k as int) =~= seq![136int]); }
            (true, ps)
        },
        HeaderVar::DimToleranceMinus => {
            let ps: Vec<usize> = vec![137usize];
            proof { assert(ps@.map_values(|k: usize| k as int) =~= seq![137int]); }
            (true, ps)
        },
        HeaderVar::DimFixedExtLineLength => {
            let ps: Vec<usize> = vec![138usize];
            proof { assert(ps@.map_values(|k: usize| k as int) =~= seq![138int]); }
            (true, ps)
        },
        HeaderVar::DimJogAngle => {
            let ps: Vec<usize> = vec![139usize];
            proof { assert(ps@.map_values(|k: usize| k as int) =~= seq![139int]); }
            (true, ps)
        },
        HeaderVar::DimTextFillMode => {
            let ps: Vec<usize> = vec![140usize];
            proof { assert(ps@.map_values(|k: usize| k as int) =~= seq![140int]); }
            (true, ps)
        },
        HeaderVar::DimTextFillColor => {
            let ps: Vec<usize> = vec![141usize];
            proof { assert(ps@.map_values(|k: usize| k as int) =~= seq![141int]); }
            (true, ps)
        },
        HeaderVar::DimAltZeroSuppression => {
            let ps: Vec<usize> = vec![150usize];
            proof { assert(ps@.map_values(|k: usize| k as int) =~= seq![150int]); }
            (true, ps)
        },
        HeaderVar::DimArcSymbolPosition => {
            let ps: Vec<usize> = vec![151usize];
            proof { assert(ps@.map_values(|k: usize| k as int) =~= seq![151int]); }
            (true, ps)
        },
        HeaderVar::DimTextHeight => {
            let ps: Vec<usize> = vec![152usize];
            proof { assert(ps@.map_values(|k: usize| k as int) =~= seq![152int]); }
            (true, ps)
        },
        HeaderVar::DimCenterMark => {
            let ps: Vec<usize> = vec![153usize];
            proof { assert(ps@.map_values(|k: usize| k as int) =~= seq![153int]); }
            (true, ps)
        },
        HeaderVar::DimTickSize => {
            let ps: Vec<usize> = vec![154usize];
            proof { assert(ps@.map_values(|k: usize| k as int) =~= seq![154int]); }
            (true, ps)
        },
        HeaderVar::DimAltScale => {
            let ps: Vec<usize> = vec![155usize];
            proof { assert(ps@.map_values(|k: usize| k as int) =~= seq![155int]); }
            (true, ps)
        },
        HeaderVar::DimLinearScale => {
            let ps: Vec<usize> = vec![156usize];
            proof { assert(ps@.map_values(|k: usize| k as int) =~= seq![156int]); }
            (true, ps)
        },
        HeaderVar::DimTextVerticalPos => {
            let ps: Vec<usize> = vec![157usize];
            proof { assert(ps@.map_values(|k: usize| k as int) =~= seq![157int]); }
            (true, ps)
        },
        HeaderVar::DimToleranceScale => {
            let ps: Vec<usize> = vec![158usize];
            proof { assert(ps@.map_values(|k: usize| k as int) =~= seq![158int]); }
            (true, ps)
        },
        HeaderVar::DimLineGap => {
            let ps: Vec<usize> = vec![159usize];
            proof { assert(ps@.map_values(|k: usize| k as int) =~= seq![159int]); }
            (true, ps)
        },
        HeaderVar::DimArrowBlock => {
            let ps: Vec<usize> = vec![162usize];
            proof { assert(ps@.map_values(|k: usize| k as int) =~= seq![162int]); }
            (true, ps)
        },
        HeaderVar::DimArrowBlock1 => {
            let ps: Vec<usize> = vec![163usize];
            proof { assert(ps@.map_values(|k: usize| k as int) =~= seq![163int]); }
            (true, ps)
        },
        HeaderVar::DimArrowBlock2 => {
            let ps: Vec<usize> = vec![164usize];
            proof { assert(ps@.map_values(|k: usize| k as int) =~= seq![164int]); }
            (true, ps)
        },
        HeaderVar::DimAltRounding => {
            let ps: Vec<usize> = vec![165usize];
            proof { assert(ps@.map_values(|k: usize| k as int) =~= seq![165int]); }
            (true, ps)
        },
        HeaderVar::DimLineColor => {
            let ps: Vec<usize> = vec![172usize];
            proof { assert(ps@.map_values(|k: usize| k as int) =~= seq![172int]); }
            (true, ps)
        },
        HeaderVar::DimExtLineColor => {
            let ps: Vec<usize> = vec![173usize];
            proof { assert(ps@.map_values(|k: usize| k as int) =~= seq![173int]); }
            (true, ps)
        },
        HeaderVar::DimTextColor => {
            let ps: Vec<usize> = vec![174usize];
            proof { assert(ps@.map_values(|k: usize| k as int) =~= seq![174int]); }
            (true, ps)
        },
        HeaderVar::DimAngularUnits => {
            let ps: Vec<usize> = vec![180usize];
            proof { assert(ps@.map_values(|k: usize| k as int) =~= seq![180int]); }
            (true, ps)
        },
        HeaderVar::DimFractionFormat => {
            let ps: Vec<usize> = vec![181usize];
            proof { assert(ps@.map_values(|k: usize| k as int) =~= seq![181int]); }
            (true, ps)
        },
        HeaderVar::DimLinearUnitFormat => {
            let ps: Vec<usize> = vec![182usize];
            proof { assert(ps@.map_values(|k: usize| k as int) =~= seq![182int]); }
            (true, ps)
        },
        HeaderVar::DimDecimalSeparator => {
            let ps: Vec<usize> = vec![183usize];
            proof { assert(ps@.map_values(|k: usize| k as int) =~= seq![183int]); }
            (true, ps)
        },
        HeaderVar::DimTextMovement => {
            let ps: Vec<usize> = vec![184usize];
            proof { assert(ps@.map_values(|k: usize| k as int) =~= seq![184int]); }
            (true, ps)
        },
        HeaderVar::DimExtLineLengthFixed => {
            let ps: Vec<usize> = vec![194usize];
            proof { assert(ps@.map_values(|k: usize| k as int) =~= seq![194int]); }
            (true, ps)
        },
        HeaderVar::DimTextDirection => {
            let ps: Vec<usize> = vec![195usize];
            proof { assert(ps@.map_values(|k: usize| k as int) =~= seq![195int]); }
            (true, ps)
        },
        HeaderVar::DimAltMzf => {
            let ps: Vec<usize> = vec![196usize];
            proof { assert(ps@.map_values(|k: usize| k as int) =~= seq![196int]); }
            (true, ps)
        },
        HeaderVar::DimAltMzs => {
            let ps: Vec<usize> = vec![197usize];
            proof { assert(ps@.map_values(|k: usize| k as int) =~= seq![197int]); }
            (true, ps)
        },
        HeaderVar::DimMzf => {
            let ps: Vec<usize> = vec![198usize];
            proof { assert(ps@.map_values(|k: usize| k as int) =~= seq![198int]); }
            (true, ps)
        },
        HeaderVar::DimMzs => {
            let ps: Vec<usize> = vec![199usize];
            proof { assert(ps@.map_values(|k: usize| k as int) =~= seq![199int]); }
            (true, ps)
        },
        HeaderVar::DimLineWeight => {
            let ps: Vec<usize> = vec![208usize];
            proof { assert(ps@.map_values(|k: usize| k as int) =~= seq![208int]); }
            (true, ps)
        },
        HeaderVar::DimExtLineWeight => {
            let ps: Vec<usize> = vec![209usize];
            proof { assert(ps@.map_values(|k: usize| k as int) =~= seq![209int]); }
            (true, ps)
        },
        HeaderVar::StackedTextAlignment => {
            let ps: Vec<usize> = vec![223usize];
            proof { assert(ps@.map_values(|k: usize| k as int) =~= seq![223int]); }
            (true, ps)
        },
        HeaderVar::StackedTextSizePercentage => {
            let ps: Vec<usize> = vec![224usize];
            proof { assert(ps@.map_values(|k: usize| k as int) =~= seq![224int]); }
            (true, ps)
        },
        HeaderVar::HyperlinkBase => {
            let ps: Vec<usize> = vec![225usize];
            proof { assert(ps@.map_values(|k: usize| k as int) =~= seq![225int]); }
            (true, ps)
        },
        HeaderVar::Stylesheet => {
            let ps: Vec<usize> = vec![226usize];
            proof { assert(ps@.map_values(|k: usize| k as int) =~= seq![226int]); }
            (true, ps)
        },
        HeaderVar::Flags => {
            let ps: Vec<usize> = vec![234usize];
            proof { assert(ps@.map_values(|k: usize| k as int) =~= seq![234int]); }
            (true, ps)
        },
        HeaderVar::InsertionUnits => {
            let ps: Vec<usize> = vec![235usize];
            proof { assert(ps@.map_values(|k: usize| k as int) =~= seq![235int]); }
            (true, ps)
        },
        HeaderVar::CurrentPlotstyleType => {
            let ps: Vec<usize> = vec![236usize];
            proof { assert(ps@.map_values(|k: usize| k as int) =~= seq![236int]); }
            (true, ps)
        },
        HeaderVar::FingerprintGuid => {
            let ps: Vec<usize> = vec![238usize];
            proof { assert(ps@.map_values(|k: usize| k as int) =~= seq![238int]); }
            (true, ps)
        },
        HeaderVar::VersionGuid => {
            let ps: Vec<usize> = vec![239usize];
            proof { assert(ps@.map_values(|k: usize| k as int) =~= seq![239int]); }
            (true, ps)
        },
        HeaderVar::SortEntities => {
            let ps: Vec<usize> = vec![240usize];
            proof { assert(ps@.map_values(|k: usize| k as int) =~= seq![240int]); }
            (true, ps)
        },
        HeaderVar::IndexControl => {
            let ps: Vec<usize> = vec![241usize];
            proof { assert(ps@.map_values(|k: usize| k as int) =~= seq![241int]); }
            (true, ps)
        },
        HeaderVar::HideText => {
            let ps: Vec<usize> = vec![242usize];
            proof { assert(ps@.map_values(|k: usize| k as int) =~= seq![242int]); }
            (true, ps)
        },
        HeaderVar::XclipFrame => {
            let ps: Vec<usize> = vec![243usize];
            proof { assert(ps@.map_values(|k: usize| k as int) =~= seq![243int]); }
            (true, ps)
        },
        HeaderVar::DimensionAssociativity => {
            let ps: Vec<usize> = vec![244usize];
            proof { assert(ps@.map_values(|k: usize| k as int) =~= seq![244int]); }
            (true, ps)
        },
        HeaderVar::HaloGap => {
            let ps: Vec<usize> = vec![245usize];
            proof { assert(ps@.map_values(|k: usize| k as int) =~= seq![245int]); }
            (true, ps)
        },
        HeaderVar::ObscuredColor => {
            let ps: Vec<usize> = vec![246usize];
            proof { assert(ps@.map_values(|k: usize| k as int) =~= seq![246int]); }
            (true, ps)
        },
        HeaderVar::IntersectionColor => {
            let ps: Vec<usize> = vec![247usize];
            proof { assert(ps@.map_values(|k: usize| k as int) =~= seq![247int]); }
            (true, ps)
        },
        HeaderVar::ObscuredLinetype => {
            let ps: Vec<usize> = vec![248usize];
            proof { assert(ps@.map_values(|k: usize| k as int) =~= seq![248int]); }
            (true, ps)
        },
        HeaderVar::IntersectionDisplay => {
            let ps: Vec<usize> = vec![249usize];
            proof { assert(ps@.map_values(|k: usize| k as int) =~= seq![249int]); }
            (true, ps)
        },
        HeaderVar::ProjectName => {
            let ps: Vec<usize> = vec![250usize];
            proof { assert(ps@.map_values(|k: usize| k as int) =~= seq![250int]); }
            (true, ps)
        },
        HeaderVar::CameraDisplay => {
            let ps: Vec<usize> = vec![256usize];
            proof { assert(ps@.map_values(|k: usize| k as int) =~= seq![256int]); }
            (true, ps)
        },
        HeaderVar::StepsPerSecond => {
            let ps: Vec<usize> = vec![260usize];
            proof { assert(ps@.map_values(|k: usize| k as int) =~= seq![260int]); }
            (true, ps)
        },
        HeaderVar::StepSize => {
            let ps: Vec<usize> = vec![261usize];
            proof { assert(ps@.map_values(|k: usize| k as int) =~= seq![261int]); }
            (true, ps)
        },
        HeaderVar::Dw3dPrecision => {
            let ps: Vec<usize> = vec![262usize];
            proof { assert(ps@.map_values(|k: usize| k as int) =~= seq![262int]); }
            (true, ps)
        },
        HeaderVar::LensLength => {
            let ps: Vec<usize> = vec![263usize];
            proof { assert(ps@.map_values(|k: usize| k as int) =~= seq![263int]); }
            (true, ps)
        },
        HeaderVar::CameraHeight => {
            let ps: Vec<usize> = vec![264usize];
            proof { assert(ps@.map_values(|k: usize| k as int) =~= seq![264int]); }
            (true, ps)
        },
        HeaderVar::SolidsRetainHistory => {
            let ps: Vec<usize> = vec![265usize];
            proof { assert(ps@.map_values(|k: usize| k as int) =~= seq![265int]); }
            (true, ps)
        },
        HeaderVar::ShowSolidsHistory => {
            let ps: Vec<usize> = vec![266usize];
            proof { assert(ps@.map_values(|k: usize| k as int) =~= seq![266int]); }
            (true, ps)
        },
        HeaderVar::SweptSolidWidth => {
            let ps: Vec<usize> = vec![267usize];
            proof { assert(ps@.map_values(|k: usize| k as int) =~= seq![267int]); }
            (true, ps)
        },
        HeaderVar::SweptSolidHeight => {
            let ps: Vec<usize> = vec![268usize];
            proof { assert(ps@.map_values(|k: usize| k as int) =~= seq![268int]); }
            (true, ps)
        },
        HeaderVar::LoftAngle1 => {
            let ps: Vec<usize> = vec![269usize];
            proof { assert(ps@.map_values(|k: usize| k as int) =~= seq![269int]); }
            (true, ps)
        },
        HeaderVar::LoftAngle2 => {
            let ps: Vec<usize> = vec![270usize];
            proof { assert(ps@.map_values(|k: usize| k as int) =~= seq![270int]); }
            (true, ps)
        },
        HeaderVar::LoftMagnitude1 => {
            let ps: Vec<usize> = vec![271usize];
            proof { assert(ps@.map_values(|k: usize| k as int) =~= seq![271int]); }
            (true, ps)
        },
        HeaderVar::LoftMagnitude2 => {
            let ps: Vec<usize> = vec![272usize];
            proof { assert(ps@.map_values(|k: usize| k as int) =~= seq![272int]); }
            (true, ps)
        },
        HeaderVar::LoftParam => {
            let ps: Vec<usize> = vec![273usize];
            proof { assert(ps@.map_values(|k: usize| k as int) =~= seq![273int]); }
            (true, ps)
        },
        HeaderVar::LoftNormals => {
            let ps: Vec<usize> = vec![274usize];
            proof { assert(ps@.map_values(|k: usize| k as int) =~= seq![274int]); }
            (true, ps)
        },
        HeaderVar::Latitude => {
            let ps: Vec<usize> = vec![275usize];
            proof { assert(ps@.map_values(|k: usize| k as int) =~= seq![275int]); }
            (true, ps)
        },
        HeaderVar::Longitude => {
            let ps: Vec<usize> = vec![276usize];
            proof { assert(ps@.map_values(|k: usize| k as int) =~= seq![276int]); }
            (true, ps)
        },
        HeaderVar::NorthDirection => {
            let ps: Vec<usize> = vec![277usize];
            proof { assert(ps@.map_values(|k: usize| k as int) =~= seq![277int]); }
            (true, ps)
        },
        HeaderVar::Timezone => {
            let ps: Vec<usize> = vec![278usize];
            proof { assert(ps@.map_values(|k: usize| k as int) =~= seq![278int]); }
            (true, ps)
        },
        HeaderVar::LightGlyphDisplay => {
            let ps: Vec<usize> = vec![279usize];
            proof { assert(ps@.map_values(|k: usize| k as int) =~= seq![279int]); }
            (true, ps)
        },
        HeaderVar::TileModelLightSynch => {
            let ps: Vec<usize> = vec![280usize];
            proof { assert(ps@.map_values(|k: usize| k as int) =~= seq![280int]); }
            (true, ps)
        },
        HeaderVar::DwfFrame => {
            let ps: Vec<usize> = vec![281usize];
            proof { assert(ps@.map_values(|k: usize| k as int) =~= seq![281int]); }
            (true, ps)
        },
        HeaderVar::DgnFrame => {
            let ps: Vec<usize> = vec![282usize];
            proof { assert(ps@.map_values(|k: usize| k as int) =~= seq![282int]); }
            (true, ps)
        },
        HeaderVar::C => {
            let ps: Vec<usize> = vec![284usize];
            proof { assert(ps@.map_values(|k: usize| k as int) =~= seq![284int]); }
            (true, ps)
        },
        HeaderVar::ShadowMode => {
            let ps: Vec<usize> = vec![288usize];
            proof { assert(ps@.map_values(|k: usize| k as int) =~= seq![288int]); }
            (true, ps)
        },
        HeaderVar::ShadowPlaneLocation => {
            let ps: Vec<usize> = vec![289usize];
            proof { assert(ps@.map_values(|k: usize| k as int) =~= seq![289int]); }
            (true, ps)
        },
    };
    (after, places)
}

/// The value of the variable `var` in `values`, read from a `v` file, when
/// the file stores it (see [`header_value`]).
pub fn header_value_of(v: DxfVersion, values: &HeaderValues, var: HeaderVar) -> (r: Option<&FieldValue>)
    ensures
        match r {
            Some(x) => header_value(v, values@, var) == Some(x@),
            None => header_value(v, values@, var) is None,
        },
{
    let (after, places) = var_places_of(var);
    let p = if after { after_stored_list(v, &values.after_seed) } else { before_seed_stored_list(v) };
    let vals = if after { &values.after_seed } else { &values.before_seed };
    let ghost ps = places@.map_values(|k: usize| k as int);
    assert(ps.take(places@.len() as int) =~= ps);
    assert(header_value(v, values@, var) == value_in(p@, fields_model(vals@), ps)) by {
        assert(var_places(var) == (after, ps));
    }
    let mut i: usize = places.len();
    while i > 0
        invariant
            i <= places@.len(),
            ps == places@.map_values(|k: usize| k as int),
            p@ == (if after { after_stored(v, values@.after_seed) } else { before_seed_stored(v) }),
            vals@ == (if after { values.after_seed@ } else { values.before_seed@ }),
            value_in(p@, fields_model(vals@), ps) == value_in(p@, fields_model(vals@), ps.take(i as int)),
            header_value(v, values@, var) == value_in(p@, fields_model(vals@), ps),
        decreases i,
    {
        let k = places[i - 1];
        let ghost pre = ps.take(i as int);
        assert(pre.drop_last() =~= ps.take(i - 1));
        assert(pre.last() == k as int);
        match stored_index_of(&p, vals.len(), k) {
            Some(j) => {
                proof {
                    assert(fields_model(vals@).len() == vals@.len());
                    assert(value_in(p@, fields_model(vals@), pre) == Some(fields_model(vals@)[j as int]));
                    assert(fields_model(vals@)[j as int] == vals@[j as int]@);
                }
                return Some(&vals[j]);
            },
            None => {},
        }
        i = i - 1;
    }
    assert(ps.take(0) =~= Seq::<int>::empty());
    None
}

/// The R2000 flags word splits as its bits say: when the variables `h`
/// store it (a long `f` at its place), the line weight is its bits 0x1F,
/// the end caps 0x60, the join style 0x180; line weights are displayed
/// and xrefs editable when 0x200 and 0x400 are clear; extended names,
/// the plot style mode and OLE startup are bits 0x800, 0x2000 and 0x4000.
/// When the word is not stored the previous values stay.
pub proof fn lemma_flags_word_bits(prev: HeaderVariables, v: DxfVersion, h: HeaderModel)
    ensures
        ({
            let r = header_variables_of(prev, v, h);
            let p = after_stored(v, h.after_seed);
            match stored_index(p, h.after_seed.len(), FLAGS_AT as int) {
                Some(i) => h.after_seed[i] matches FieldModel::Long(f) ==> {
                    &&& r.current_line_weight == (f & 0x1F) as i16
                    &&& r.end_caps == (f & 0x60) as i16
                    &&& r.join_style == (f & 0x180) as i16
                    &&& r.lineweight_display == ((f & 0x200) == 0)
                    &&& r.xedit == ((f & 0x400) == 0)
                    &&& r.extended_names == ((f & 0x800) != 0)
                    &&& r.plotstyle_mode == ((f & 0x2000) != 0)
                    &&& r.ole_startup == ((f & 0x4000) != 0)
                },
                None => {
                    &&& r.current_line_weight == prev.current_line_weight
                    &&& r.end_caps == prev.end_caps
                    &&& r.join_style == prev.join_style
                    &&& r.lineweight_display == prev.lineweight_display
                    &&& r.xedit == prev.xedit
                    &&& r.extended_names == prev.extended_names
                    &&& r.plotstyle_mode == prev.plotstyle_mode
                    &&& r.ole_startup == prev.ole_startup
                },
            }
        }),
{
}

/// The range checks: a unit precision (LUPREC, AUPREC) from 0 to 8,
/// ISOLINES from 0 to 2047 and TEXTQLTY from 0 to 100 are taken when the
/// variables `h` store them as shorts in range; otherwise the previous
/// value stays.
pub proof fn lemma_ranges_kept(prev: HeaderVariables, v: DxfVersion, h: HeaderModel)
    ensures
        ({
            let r = header_variables_of(prev, v, h);
            let p = before_seed_stored(v);
            let b = h.before_seed;
            &&& match stored_index(p, b.len(), LINEAR_UNIT_PRECISION_AT as int) {
                Some(i) => b[i] matches FieldModel::Short(n) ==>
                    r.linear_unit_precision == (if 0 <= n <= 8 { n } else { prev.linear_unit_precision }),
                None => r.linear_unit_precision == prev.linear_unit_precision,
            }
            &&& match stored_index(p, b.len(), ANGULAR_UNIT_PRECISION_AT as int) {
                Some(i) => b[i] matches FieldModel::Short(n) ==>
                    r.angular_unit_precision == (if 0 <= n <= 8 { n } else { prev.angular_unit_precision }),
                None => r.angular_unit_precision == prev.angular_unit_precision,
            }
            &&& match stored_index(p, b.len(), ISOLINES_AT as int) {
                Some(i) => b[i] matches FieldModel::Short(n) ==>
                    r.isolines == (if 0 <= n <= 2047 { n } else { prev.isolines }),
                None => r.isolines == prev.isolines,
            }
            &&& match stored_index(p, b.len(), TEXT_QUALITY_AT as int) {
                Some(i) => b[i] matches FieldModel::Short(n) ==>
                    r.text_quality == (if 0 <= n <= 100 { n } else { prev.text_quality }),
                None => r.text_quality == prev.text_quality,
            }
            &&& r.handle_seed == h.handle_seed
        }),
{
}
} // verus!
