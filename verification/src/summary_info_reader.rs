//! The `AcDb:SummaryInfo` section: title, subject, author and the other
//! document properties.
//!
//! Dates are kept as read: a Julian day number and the milliseconds into
//! that day.

use vstd::prelude::*;
use crate::bit_model::{BitCursor, spec_read_raw_short, spec_read_raw_long};
use crate::encoding::TextEncoding;
use crate::error::DxfError;
use crate::stream_reader::{DwgStreamReaderBase, get_stream_handler};
use crate::stream_values::{or_eof, spec_read_text_unicode, spec_read_text_bytes, r2007_plus};
use crate::version::DxfVersion;

verus! {

/// A date as a DWG file stores it.
#[derive(Debug, Clone, Copy, PartialEq, Eq)]
pub struct JulianDate {
    /// The Julian day number.
    pub day: i32,
    /// The milliseconds into that day.
    pub milliseconds: i32,
}

/// The document properties read from the `AcDb:SummaryInfo` section.
#[derive(Debug, Clone)]
pub struct SummaryInfo {
    pub title: String,
    pub subject: String,
    pub author: String,
    pub keywords: String,
    pub comments: String,
    pub last_saved_by: String,
    pub revision_number: String,
    pub hyperlink_base: String,
    /// Creation date.
    pub created_date: JulianDate,
    /// Modification date.
    pub modified_date: JulianDate,
    /// The custom properties with a name, in the order of the file.
    pub properties: Vec<(String, String)>,
}

/// The content of a [`SummaryInfo`].
pub struct SummaryInfoModel {
    /// Title, subject, author, keywords, comments, last saved by, revision
    /// number and hyperlink base, in this order.
    pub strings: Seq<Seq<char>>,
    pub created_date: JulianDate,
    pub modified_date: JulianDate,
    pub properties: Seq<(Seq<char>, Seq<char>)>,
}

impl View for SummaryInfo {
    type V = SummaryInfoModel;

    open spec fn view(&self) -> SummaryInfoModel {
        SummaryInfoModel {
            strings: seq![self.title@, self.subject@, self.author@, self.keywords@, self.comments@,
                self.last_saved_by@, self.revision_number@, self.hyperlink_base@],
            created_date: self.created_date,
            modified_date: self.modified_date,
            properties: self.properties@.map_values(|p: (String, String)| (p.0@, p.1@)),
        }
    }
}

/// A string of the section: from R2007 on a Unicode text; before, a raw
/// short count and that many Windows-1252 bytes, NUL characters dropped.
pub open spec fn spec_summary_string(c: BitCursor, v: DxfVersion) -> Result<(Seq<char>, BitCursor), DxfError> {
    if r2007_plus(v) {
        spec_read_text_unicode(c, v)
    } else {
        match or_eof(spec_read_raw_short(c)) {
            Err(e) => Err(e),
            Ok((t, c1)) => if t == 0 {
                Ok((Seq::empty(), c1))
            } else {
                spec_read_text_bytes(c1, t, TextEncoding::Windows1252, true)
            },
        }
    }
}

/// Up to `k` strings in a row, stopping at the first that cannot be read:
/// the strings read and, when all `k` were read, the cursor after them.
pub open spec fn spec_partial_strings(c: BitCursor, v: DxfVersion, k: nat) -> (Seq<Seq<char>>, Option<BitCursor>)
    decreases k,
{
    if k == 0 {
        (Seq::empty(), Some(c))
    } else {
        match spec_summary_string(c, v) {
            Err(_) => (Seq::empty(), None),
            Ok((s, c1)) => {
                let (rest, oc) = spec_partial_strings(c1, v, (k - 1) as nat);
                (seq![s] + rest, oc)
            },
        }
    }
}

/// Reading up to `k` strings gives at most `k`, and all `k` when the
/// cursor after them is given.
pub proof fn lemma_partial_strings_len(c: BitCursor, v: DxfVersion, k: nat)
    ensures
        spec_partial_strings(c, v, k).0.len() <= k,
        spec_partial_strings(c, v, k).1 is Some ==> spec_partial_strings(c, v, k).0.len() == k,
    decreases k,
{
    if k > 0 {
        if let Ok((_, c1)) = spec_summary_string(c, v) {
            lemma_partial_strings_len(c1, v, (k - 1) as nat);
        }
    }
}

/// The eight strings of the section: those read, then empty ones.
pub open spec fn padded_strings(ss: Seq<Seq<char>>) -> Seq<Seq<char>> {
    ss + Seq::new((8 - ss.len()) as nat, |i: int| Seq::<char>::empty())
}

/// A date: two raw longs, the day and the milliseconds.
pub open spec fn spec_summary_date(c: BitCursor) -> Option<(JulianDate, BitCursor)> {
    match spec_read_raw_long(c) {
        None => None,
        Some((d, c1)) => match spec_read_raw_long(c1) {
            None => None,
            Some((ms, c2)) => Some((JulianDate { day: d as i32, milliseconds: ms as i32 }, c2)),
        },
    }
}

/// The properties `props` with the property `name` set to `value`: the
/// value of an entry of that name is replaced, else the pair is added at
/// the end.
pub open spec fn set_property(props: Seq<(Seq<char>, Seq<char>)>, name: Seq<char>, value: Seq<char>)
    -> Seq<(Seq<char>, Seq<char>)>
    decreases props.len(),
{
    if props.len() == 0 {
        seq![(name, value)]
    } else if props[0].0 == name {
        seq![(name, value)] + props.skip(1)
    } else {
        seq![props[0]] + set_property(props.skip(1), name, value)
    }
}

/// No two properties of `props` have the same name.
pub open spec fn distinct_names(props: Seq<(Seq<char>, Seq<char>)>) -> bool {
    forall|i: int, j: int| 0 <= i < j < props.len() ==> props[i].0 != props[j].0
}

/// One custom property: its name, then its value.
pub open spec fn spec_property(c: BitCursor, v: DxfVersion) -> Option<((Seq<char>, Seq<char>), BitCursor)> {
    match spec_summary_string(c, v) {
        Err(_) => None,
        Ok((name, c1)) => match spec_summary_string(c1, v) {
            Err(_) => None,
            Ok((value, c2)) => Some(((name, value), c2)),
        },
    }
}

/// Up to `k` custom properties (name, then value) set in `props` in turn
/// (see [`set_property`]), those with an empty name dropped; reading
/// stops at the first string that cannot be read.
pub open spec fn spec_partial_properties(c: BitCursor, v: DxfVersion, k: nat, props: Seq<(Seq<char>, Seq<char>)>)
    -> Seq<(Seq<char>, Seq<char>)>
    decreases k,
{
    if k == 0 {
        props
    } else {
        match spec_property(c, v) {
            None => props,
            Some(((name, value), c2)) => spec_partial_properties(c2, v, (k - 1) as nat,
                if name.len() == 0 { props } else { set_property(props, name, value) }),
        }
    }
}

/// The summary info of a section whose strings are `ss` and whose reading
/// stopped there: the strings read, the other strings empty, the dates
/// zero and no property.
pub open spec fn summary_so_far(ss: Seq<Seq<char>>) -> SummaryInfoModel {
    SummaryInfoModel {
        strings: padded_strings(ss),
        created_date: JulianDate { day: 0, milliseconds: 0 },
        modified_date: JulianDate { day: 0, milliseconds: 0 },
        properties: Seq::empty(),
    }
}

/// The summary info in the section `data` of a `v` file: eight strings,
/// two raw longs, the creation and modification dates, a raw short count
/// of custom properties (none when negative) and the properties (see
/// [`spec_partial_properties`]).  When the data ends early, or a value
/// cannot be read, what was read is kept and the rest keeps its default
/// (empty strings, zero dates, no property).
pub open spec fn spec_summary_info(data: Seq<u8>, v: DxfVersion) -> SummaryInfoModel {
    let c0 = BitCursor { bytes: data, shift: 0 };
    let (ss, oc) = spec_partial_strings(c0, v, 8);
    let base = summary_so_far(ss);
    match oc {
        None => base,
        Some(c1) => match spec_read_raw_long(c1) {
            None => base,
            Some((_, c2)) => match spec_read_raw_long(c2) {
                None => base,
                Some((_, c3)) => match spec_summary_date(c3) {
                    None => base,
                    Some((created, c4)) => match spec_summary_date(c4) {
                        None => SummaryInfoModel { created_date: created, ..base },
                        Some((modified, c5)) => match spec_read_raw_short(c5) {
                            None => SummaryInfoModel { created_date: created, modified_date: modified, ..base },
                            Some((n, c6)) => SummaryInfoModel {
                                created_date: created,
                                modified_date: modified,
                                properties: spec_partial_properties(c6, v, if n < 0 { 0 } else { n as nat },
                                    Seq::empty()),
                                ..base
                            },
                        },
                    },
                },
            },
        },
    }
}

/// Setting a property keeps the names distinct and holds the pair set.
pub proof fn lemma_set_property(props: Seq<(Seq<char>, Seq<char>)>, name: Seq<char>, value: Seq<char>)
    requires
        distinct_names(props),
    ensures
        distinct_names(set_property(props, name, value)),
        set_property(props, name, value).contains((name, value)),
        forall|i: int| 0 <= i < set_property(props, name, value).len()
            ==> set_property(props, name, value)[i].0 == name || props.contains(set_property(props, name, value)[i]),
    decreases props.len(),
{
    let r = set_property(props, name, value);
    if props.len() == 0 {
        assert(r[0] == (name, value));
    } else if props[0].0 == name {
        assert(r[0] == (name, value));
        assert forall|i: int, j: int| 0 <= i < j < r.len() implies r[i].0 != r[j].0 by {
            assert(r[j] == props[j]);
            if i > 0 {
                assert(r[i] == props[i]);
            }
        }
        assert forall|i: int| 0 <= i < r.len() implies r[i].0 == name || props.contains(r[i]) by {
            if i > 0 {
                assert(r[i] == props[i]);
            }
        }
    } else {
        let rest = props.skip(1);
        assert forall|i: int, j: int| 0 <= i < j < rest.len() implies rest[i].0 != rest[j].0 by {
            assert(rest[i] == props[i + 1]);
            assert(rest[j] == props[j + 1]);
        }
        lemma_set_property(rest, name, value);
        let r1 = set_property(rest, name, value);
        assert(r == seq![props[0]] + r1);
        assert(r[0] == props[0]);
        assert forall|i: int| 0 <= i < r1.len() implies #[trigger] r1[i].0 == name || props.contains(r1[i]) by {
            if r1[i].0 != name {
                let k = choose|k: int| 0 <= k < rest.len() && rest[k] == r1[i];
                assert(props[k + 1] == r1[i]);
            }
        }
        assert forall|i: int, j: int| 0 <= i < j < r.len() implies r[i].0 != r[j].0 by {
            if i == 0 {
                assert(r[j] == r1[j - 1]);
                if r1[j - 1].0 != name {
                    let m = choose|m: int| 0 <= m < rest.len() && rest[m] == r1[j - 1];
                    assert(props[m + 1] == r1[j - 1]);
                }
            } else {
                assert(r[i] == r1[i - 1]);
                assert(r[j] == r1[j - 1]);
            }
        }
        let w = choose|w: int| 0 <= w < r1.len() && r1[w] == (name, value);
        assert(r[w + 1] == (name, value));
        assert forall|i: int| 0 <= i < r.len() implies r[i].0 == name || props.contains(r[i]) by {
            if i > 0 {
                assert(r[i] == r1[i - 1]);
            } else {
                assert(props[0] == r[0]);
            }
        }
    }
}

/// The custom properties of a summary have distinct names: a name given
/// twice keeps one entry, with its last value.
pub proof fn lemma_partial_properties_distinct(c: BitCursor, v: DxfVersion, k: nat,
    props: Seq<(Seq<char>, Seq<char>)>)
    requires
        distinct_names(props),
    ensures
        distinct_names(spec_partial_properties(c, v, k, props)),
    decreases k,
{
    if k > 0 {
        if let Some(((name, value), c2)) = spec_property(c, v) {
            if name.len() > 0 {
                lemma_set_property(props, name, value);
            }
            lemma_partial_properties_distinct(c2, v, (k - 1) as nat,
                if name.len() == 0 { props } else { set_property(props, name, value) });
        }
    }
}

/// Setting the property of the first entry `i` named `name` replaces its
/// value.
proof fn lemma_set_property_at(props: Seq<(Seq<char>, Seq<char>)>, name: Seq<char>, value: Seq<char>, i: int)
    requires
        0 <= i < props.len(),
        props[i].0 == name,
        forall|j: int| 0 <= j < i ==> props[j].0 != name,
    ensures
        set_property(props, name, value) == props.update(i, (name, value)),
    decreases props.len(),
{
    if i == 0 {
        assert(seq![(name, value)] + props.skip(1) =~= props.update(0, (name, value)));
    } else {
        let rest = props.skip(1);
        lemma_set_property_at(rest, name, value, i - 1);
        assert(seq![props[0]] + rest.update(i - 1, (name, value)) =~= props.update(i, (name, value)));
    }
}

/// Setting a property no entry is named after adds it at the end.
proof fn lemma_set_property_new(props: Seq<(Seq<char>, Seq<char>)>, name: Seq<char>, value: Seq<char>)
    requires
        forall|j: int| 0 <= j < props.len() ==> props[j].0 != name,
    ensures
        set_property(props, name, value) == props.push((name, value)),
    decreases props.len(),
{
    if props.len() == 0 {
        assert(seq![(name, value)] =~= props.push((name, value)));
    } else {
        let rest = props.skip(1);
        lemma_set_property_new(rest, name, value);
        assert(seq![props[0]] + rest.push((name, value)) =~= props.push((name, value)));
    }
}

/// The contents of a list of properties.
pub open spec fn props_model(ps: Seq<(String, String)>) -> Seq<(Seq<char>, Seq<char>)> {
    ps.map_values(|p: (String, String)| (p.0@, p.1@))
}

/// Reader of the `AcDb:SummaryInfo` section.
pub struct DwgSummaryInfoReader {
    data: Vec<u8>,
    version: DxfVersion,
}

impl DwgSummaryInfoReader {
    /// The section data.
    pub closed spec fn data(&self) -> Seq<u8> {
        self.data@
    }

    /// The version of the file.
    pub closed spec fn spec_version(&self) -> DxfVersion {
        self.version
    }

    /// A reader of the section `data` (already decompressed) of a
    /// `version` file.
    pub fn new(version: DxfVersion, data: Vec<u8>) -> (r: Self)
        ensures
            r.data() == data@,
            r.spec_version() == version,
    {
        DwgSummaryInfoReader { data, version }
    }

    /// The version of the file.
    pub fn version(&self) -> (r: DxfVersion)
        ensures
            r == self.spec_version(),
    {
        self.version
    }

    /// Read the summary info (see [`spec_summary_info`]): when the data
    /// ends early what was read is kept, so the result is never an
    /// error.  The two raw longs that close the section are read too.
    #[verifier::rlimit(40)]
    pub fn read(&self) -> (r: Result<SummaryInfo, DxfError>)
        ensures
            r matches Ok(info) && info@ == spec_summary_info(self.data(), self.spec_version()),
    {
        let data = self.data.clone();
        assert(data@ =~= self.data@);
        let mut reader = get_stream_handler(self.version, data);
        let r2007 = self.version.at_least(DxfVersion::AC1021);
        let ghost c0 = reader.cursor();
        let (mut strings, complete) = Self::read_strings(&mut reader, r2007, 8);
        proof { lemma_partial_strings_len(c0, self.version, 8); }
        let ghost ss = strings@.map_values(|s: String| s@);
        while strings.len() < 8
            invariant
                strings@.len() <= 8,
                ss.len() <= strings@.len(),
                strings@.map_values(|s: String| s@) =~= ss + Seq::new((strings@.len() - ss.len()) as nat,
                    |i: int| Seq::<char>::empty()),
            decreases 8 - strings@.len(),
        {
            let ghost before = strings@.map_values(|s: String| s@);
            let ghost k = strings@.len();
            let e = String::new();
            strings.push(e);
            proof {
                assert(strings@.map_values(|s: String| s@) =~= before.push(Seq::<char>::empty()));
                assert(ss + Seq::new((k + 1 - ss.len()) as nat, |i: int| Seq::<char>::empty())
                    =~= (ss + Seq::new((k - ss.len()) as nat, |i: int| Seq::<char>::empty())).push(Seq::<char>::empty()));
            }
        }
        let mut info = SummaryInfo {
            title: strings[0].clone(),
            subject: strings[1].clone(),
            author: strings[2].clone(),
            keywords: strings[3].clone(),
            comments: strings[4].clone(),
            last_saved_by: strings[5].clone(),
            revision_number: strings[6].clone(),
            hyperlink_base: strings[7].clone(),
            created_date: JulianDate { day: 0, milliseconds: 0 },
            modified_date: JulianDate { day: 0, milliseconds: 0 },
            properties: Vec::new(),
        };
        proof {
            assert(info@.strings =~= padded_strings(ss));
            assert(props_model(info.properties@) =~= Seq::<(Seq<char>, Seq<char>)>::empty());
        }
        if !complete {
            return Ok(info);
        }
        if reader.read_raw_long().is_err() {
            return Ok(info);
        }
        if reader.read_raw_long().is_err() {
            return Ok(info);
        }
        match reader.read_8bit_julian_date() {
            Ok((d, ms)) => info.created_date = JulianDate { day: d, milliseconds: ms },
            Err(_) => return Ok(info),
        }
        match reader.read_8bit_julian_date() {
            Ok((d, ms)) => info.modified_date = JulianDate { day: d, milliseconds: ms },
            Err(_) => return Ok(info),
        }
        let n = match reader.read_raw_short() {
            Ok(n) => n,
            Err(_) => return Ok(info),
        };
        info.properties = Self::read_properties(&mut reader, r2007, n);
        let _ = reader.read_raw_long();
        let _ = reader.read_raw_long();
        Ok(info)
    }

    /// Read one string of the section.
    fn read_string(reader: &mut DwgStreamReaderBase, r2007: bool) -> (r: Result<String, DxfError>)
        requires
            r2007 == r2007_plus(old(reader).spec_version()),
        ensures
            spec_summary_string(old(reader).cursor(), old(reader).spec_version()) == (match r {
                Ok(s) => Ok((s@, final(reader).cursor())),
                Err(e) => Err(e),
            }),
            old(reader).same_source(final(reader)),
    {
        if r2007 {
            reader.read_text_unicode()
        } else {
            let t = reader.read_raw_short()?;
            if t == 0 {
                return Ok(String::new());
            }
            reader.read_text_bytes(t as i32, TextEncoding::Windows1252, true)
        }
    }

    /// Read up to `k` strings of the section (see
    /// [`spec_partial_strings`]); whether all were read.
    fn read_strings(reader: &mut DwgStreamReaderBase, r2007: bool, k: usize) -> (r: (Vec<String>, bool))
        requires
            r2007 == r2007_plus(old(reader).spec_version()),
        ensures
            spec_partial_strings(old(reader).cursor(), old(reader).spec_version(), k as nat)
                == (r.0@.map_values(|s: String| s@), if r.1 { Some(final(reader).cursor()) } else { None }),
            old(reader).same_source(final(reader)),
    {
        let ghost s0 = *reader;
        let ghost v = reader.spec_version();
        let mut out: Vec<String> = Vec::new();
        let mut i: usize = 0;
        while i < k
            invariant
                i <= k,
                s0 == *old(reader),
                s0.same_source(reader),
                v == reader.spec_version(),
                r2007 == r2007_plus(v),
                spec_partial_strings(s0.cursor(), v, k as nat) == ({
                    let (rest, oc) = spec_partial_strings(reader.cursor(), v, (k - i) as nat);
                    (out@.map_values(|s: String| s@) + rest, oc)
                }),
            decreases k - i,
        {
            let s = match Self::read_string(reader, r2007) {
                Ok(s) => s,
                Err(_) => {
                    proof {
                        assert(out@.map_values(|s: String| s@) + Seq::<Seq<char>>::empty()
                            =~= out@.map_values(|s: String| s@));
                    }
                    return (out, false);
                },
            };
            proof {
                let (rest, oc) = spec_partial_strings(reader.cursor(), v, (k - i - 1) as nat);
                assert(out@.push(s).map_values(|s: String| s@) =~= out@.map_values(|s: String| s@).push(s@));
                assert(out@.map_values(|s: String| s@) + (seq![s@] + rest)
                    =~= out@.map_values(|s: String| s@).push(s@) + rest);
            }
            out.push(s);
            i = i + 1;
        }
        proof {
            assert(out@.map_values(|s: String| s@) + Seq::<Seq<char>>::empty() =~= out@.map_values(|s: String| s@));
        }
        (out, true)
    }

    /// Set the property `name` to `value` in `props` (see
    /// [`set_property`]).
    fn set_property_in(props: &mut Vec<(String, String)>, name: String, value: String)
        ensures
            props_model(final(props)@) == set_property(props_model(old(props)@), name@, value@),
    {
        let ghost p0 = props_model(props@);
        let ghost gn = name@;
        let ghost gv = value@;
        let mut i: usize = 0;
        while i < props.len()
            invariant
                i <= props@.len(),
                p0 == props_model(props@),
                p0 == props_model(old(props)@),
                gn == name@,
                gv == value@,
                forall|j: int| 0 <= j < i ==> p0[j].0 != name@,
            decreases props@.len() - i,
        {
            proof { assert(p0[i as int].0 == props@[i as int].0@); }
            if props[i].0 == name {
                let ghost nv = (name@, value@);
                proof {
                    lemma_set_property_at(p0, name@, value@, i as int);
                }
                props.set(i, (name, value));
                proof {
                    assert(props_model(props@) =~= p0.update(i as int, nv));
                    assert(props_model(props@) == set_property(p0, gn, gv));
                }
                return;
            }
            i = i + 1;
        }
        proof { lemma_set_property_new(p0, name@, value@); }
        props.push((name, value));
        proof { assert(props_model(props@) =~= p0.push((name@, value@))); }
    }

    /// Read one custom property (see [`spec_property`]).
    fn read_property(reader: &mut DwgStreamReaderBase, r2007: bool) -> (r: Option<(String, String)>)
        requires
            r2007 == r2007_plus(old(reader).spec_version()),
        ensures
            spec_property(old(reader).cursor(), old(reader).spec_version()) == (match r {
                Some((n, v)) => Some(((n@, v@), final(reader).cursor())),
                None => None,
            }),
            old(reader).same_source(final(reader)),
    {
        let name = match Self::read_string(reader, r2007) {
            Ok(s) => s,
            Err(_) => return None,
        };
        let value = match Self::read_string(reader, r2007) {
            Ok(s) => s,
            Err(_) => return None,
        };
        Some((name, value))
    }

    /// Read up to `n` custom properties (none when `n` is negative; see
    /// [`spec_partial_properties`]).
    fn read_properties(reader: &mut DwgStreamReaderBase, r2007: bool, n: i16) -> (r: Vec<(String, String)>)
        requires
            r2007 == r2007_plus(old(reader).spec_version()),
        ensures
            props_model(r@) == spec_partial_properties(old(reader).cursor(), old(reader).spec_version(),
                if n < 0 { 0 } else { n as nat }, Seq::empty()),
    {
        let ghost s0 = *reader;
        let ghost v = reader.spec_version();
        let count: u16 = if n < 0 { 0 } else { n as u16 };
        let mut props: Vec<(String, String)> = Vec::new();
        let mut i: u16 = 0;
        proof {
            assert(props_model(props@) =~= Seq::<(Seq<char>, Seq<char>)>::empty());
        }
        while i < count
            invariant
                i <= count,
                count == (if n < 0 { 0 } else { n as nat }),
                s0 == *old(reader),
                s0.same_source(reader),
                v == reader.spec_version(),
                r2007 == r2007_plus(v),
                spec_partial_properties(s0.cursor(), v, count as nat, Seq::empty())
                    == spec_partial_properties(reader.cursor(), v, (count - i) as nat, props_model(props@)),
            decreases count - i,
        {
            let (name, value) = match Self::read_property(reader, r2007) {
                Some(p) => p,
                None => return props,
            };
            if !name.as_str().is_empty() {
                Self::set_property_in(&mut props, name, value);
            }
            i = i + 1;
        }
        props
    }
}

/// After the eight strings and two raw longs that are skipped, the
/// creation date is the next two raw longs (day, then milliseconds) and the
/// modification date the two after them; a date whose longs cannot be read
/// stays zero.
pub proof fn lemma_summary_dates_reads(data: Seq<u8>, v: DxfVersion)
    ensures
        ({
            let (ss, oc) = spec_partial_strings(BitCursor { bytes: data, shift: 0 }, v, 8);
            let r = spec_summary_info(data, v);
            oc matches Some(c1) ==> match spec_read_raw_long(c1) {
                None => r.created_date == JulianDate { day: 0, milliseconds: 0 },
                Some((_, c2)) => match spec_read_raw_long(c2) {
                    None => r.created_date == JulianDate { day: 0, milliseconds: 0 },
                    Some((_, c3)) => match spec_read_raw_long(c3) {
                        None => r.created_date == JulianDate { day: 0, milliseconds: 0 },
                        Some((d1, c4)) => match spec_read_raw_long(c4) {
                            None => r.created_date == JulianDate { day: 0, milliseconds: 0 },
                            Some((ms1, c5)) => {
                                &&& r.created_date == JulianDate { day: d1 as i32, milliseconds: ms1 as i32 }
                                &&& match spec_read_raw_long(c5) {
                                    None => r.modified_date == JulianDate { day: 0, milliseconds: 0 },
                                    Some((d2, c6)) => match spec_read_raw_long(c6) {
                                        None => r.modified_date == JulianDate { day: 0, milliseconds: 0 },
                                        Some((ms2, _)) => r.modified_date
                                            == JulianDate { day: d2 as i32, milliseconds: ms2 as i32 },
                                    },
                                }
                            },
                        },
                    },
                },
            }
        }),
{
}

} // verus!
