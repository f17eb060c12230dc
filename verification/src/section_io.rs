use vstd::prelude::*;
use vstd::string::*;
use crate::notification::{Notification, NotificationType};
use crate::sentinels;
use crate::sentinels::{start_sentinel_spec, end_sentinel_spec};
use crate::version::{DxfVersion, version_rank};

verus! {

/// Version flags shared by all section readers and writers.
pub struct SectionIO {
    /// The version the flags were computed for.
    pub version: DxfVersion,
    /// R13-R14 only
    pub r13_14_only: bool,
    /// R13-R15 only
    pub r13_15_only: bool,
    /// R2000+ (AC1015+)
    pub r2000_plus: bool,
    /// Pre-R2004
    pub r2004_pre: bool,
    /// Up to and including R2007
    pub r2007_pre: bool,
    /// R2004+ (AC1018+)
    pub r2004_plus: bool,
    /// R2007+ (AC1021+)
    pub r2007_plus: bool,
    /// R2010+ (AC1024+)
    pub r2010_plus: bool,
    /// R2013+ (AC1027+)
    pub r2013_plus: bool,
    /// R2018+ (AC1032+)
    pub r2018_plus: bool,
}

/// The text of the warning raised for a sentinel mismatch in `section_name`.
pub open spec fn sentinel_warning_text(section_name: Seq<char>) -> Seq<char> {
    seq!['I', 'n', 'v', 'a', 'l', 'i', 'd', ' ', 's', 'e', 'c', 't', 'i', 'o', 'n', ' ',
        's', 'e', 'n', 't', 'i', 'n', 'e', 'l', ' ', 'f', 'o', 'u', 'n', 'd', ' ', 'i', 'n', ' ']
        + section_name
}

/// The flags `s` holds for `version`.
pub open spec fn flags_of_version(s: SectionIO, version: DxfVersion) -> bool {
    &&& s.version == version
    &&& s.r13_14_only == (version == DxfVersion::AC1014 || version == DxfVersion::AC1012)
    &&& s.r13_15_only == (version_rank(DxfVersion::AC1012) <= version_rank(version) <= version_rank(DxfVersion::AC1015))
    &&& s.r2000_plus == (version_rank(version) >= version_rank(DxfVersion::AC1015))
    &&& s.r2004_pre == (version_rank(version) < version_rank(DxfVersion::AC1018))
    &&& s.r2007_pre == (version_rank(version) <= version_rank(DxfVersion::AC1021))
    &&& s.r2004_plus == (version_rank(version) >= version_rank(DxfVersion::AC1018))
    &&& s.r2007_plus == (version_rank(version) >= version_rank(DxfVersion::AC1021))
    &&& s.r2010_plus == (version_rank(version) >= version_rank(DxfVersion::AC1024))
    &&& s.r2013_plus == (version_rank(version) >= version_rank(DxfVersion::AC1027))
    &&& s.r2018_plus == (version_rank(version) >= version_rank(DxfVersion::AC1032))
}

/// The version flags nest: each "from version X on" flag implies the
/// earlier ones, "before R2004" is the opposite of "R2004 on", and only
/// R2007 is both "up to R2007" and "R2007 on".
pub proof fn lemma_flags_nested(s: SectionIO, version: DxfVersion)
    requires
        flags_of_version(s, version),
    ensures
        s.r2004_pre == !s.r2004_plus,
        s.r2018_plus ==> s.r2013_plus,
        s.r2013_plus ==> s.r2010_plus,
        s.r2010_plus ==> s.r2007_plus,
        s.r2007_plus ==> s.r2004_plus,
        s.r2004_plus ==> s.r2000_plus,
        s.r13_14_only ==> s.r13_15_only,
        s.r13_15_only ==> !s.r2004_plus,
        s.r2007_pre || s.r2007_plus,
        (s.r2007_pre && s.r2007_plus) <==> version == DxfVersion::AC1021,
{
}

impl SectionIO {
    /// Compute the version flags of `version`.
    pub fn new(version: DxfVersion) -> (r: Self)
        ensures
            r.version == version,
            r.r13_14_only == (version == DxfVersion::AC1014 || version == DxfVersion::AC1012),
            r.r13_15_only == (version_rank(DxfVersion::AC1012) <= version_rank(version)
                <= version_rank(DxfVersion::AC1015)),
            r.r2000_plus == (version_rank(version) >= version_rank(DxfVersion::AC1015)),
            r.r2004_pre == (version_rank(version) < version_rank(DxfVersion::AC1018)),
            r.r2007_pre == (version_rank(version) <= version_rank(DxfVersion::AC1021)),
            r.r2004_plus == (version_rank(version) >= version_rank(DxfVersion::AC1018)),
            r.r2007_plus == (version_rank(version) >= version_rank(DxfVersion::AC1021)),
            r.r2010_plus == (version_rank(version) >= version_rank(DxfVersion::AC1024)),
            r.r2013_plus == (version_rank(version) >= version_rank(DxfVersion::AC1027)),
            r.r2018_plus == (version_rank(version) >= version_rank(DxfVersion::AC1032)),
            flags_of_version(r, version),
    {
        SectionIO {
            r13_14_only: version.same_as(DxfVersion::AC1014) || version.same_as(DxfVersion::AC1012),
            r13_15_only: version.at_least(DxfVersion::AC1012) && !DxfVersion::AC1015.before(version),
            r2000_plus: version.at_least(DxfVersion::AC1015),
            r2004_pre: version.before(DxfVersion::AC1018),
            r2007_pre: !DxfVersion::AC1021.before(version),
            r2004_plus: version.at_least(DxfVersion::AC1018),
            r2007_plus: version.at_least(DxfVersion::AC1021),
            r2010_plus: version.at_least(DxfVersion::AC1024),
            r2013_plus: version.at_least(DxfVersion::AC1027),
            r2018_plus: version.at_least(DxfVersion::AC1032),
            version,
        }
    }

    /// The DXF version.
    pub fn version(&self) -> (r: DxfVersion)
        ensures
            r == self.version,
    {
        self.version
    }

    /// Whether two 16-byte sentinels are identical.
    pub fn check_sentinel(actual: &[u8; 16], expected: &[u8; 16]) -> (r: bool)
        ensures
            r == (actual@ == expected@),
    {
        let mut i: usize = 0;
        while i < 16
            invariant
                i <= 16,
                actual@.len() == 16,
                expected@.len() == 16,
                forall|k: int| 0 <= k < i ==> actual@[k] == expected@[k],
            decreases 16 - i,
        {
            if actual[i] != expected[i] {
                return false;
            }
            i = i + 1;
        }
        assert(actual@ =~= expected@);
        true
    }

    /// A warning naming `section_name` when the sentinels differ, `None` when
    /// they match.
    pub fn validate_sentinel(actual: &[u8; 16], expected: &[u8; 16], section_name: &str) -> (r:
        Option<Notification>)
        ensures
            r is None <==> actual@ == expected@,
            r matches Some(n) ==> n.notification_type == NotificationType::Warning
                && n.message@ == sentinel_warning_text(section_name@),
    {
        if Self::check_sentinel(actual, expected) {
            None
        } else {
            let mut message = String::from_str("Invalid section sentinel found in ");
            message.append(section_name);
            proof {
                reveal_strlit("Invalid section sentinel found in ");
                assert(message@ =~= sentinel_warning_text(section_name@));
            }
            Some(Notification::new(NotificationType::Warning, message))
        }
    }

    /// The start sentinel of the section called `section_name`, if known.
    pub fn start_sentinel(section_name: &str) -> (r: Option<[u8; 16]>)
        ensures
            match r {
                Some(s) => start_sentinel_spec(section_name@) == Some(s@),
                None => start_sentinel_spec(section_name@) is None,
            },
    {
        sentinels::start_sentinel(section_name)
    }

    /// The end sentinel of the section called `section_name`, if known.
    pub fn end_sentinel(section_name: &str) -> (r: Option<[u8; 16]>)
        ensures
            match r {
                Some(s) => end_sentinel_spec(section_name@) == Some(s@),
                None => end_sentinel_spec(section_name@) is None,
            },
    {
        sentinels::end_sentinel(section_name)
    }
}

} // verus!
