use vstd::prelude::*;

verus! {

/// DWG/DXF file format versions, in release order.
#[derive(Debug, Clone, Copy, PartialEq, Eq, Hash)]
pub enum DxfVersion {
    /// R13
    AC1012,
    /// R14
    AC1014,
    /// R2000
    AC1015,
    /// R2004
    AC1018,
    /// R2007
    AC1021,
    /// R2010
    AC1024,
    /// R2013
    AC1027,
    /// R2018
    AC1032,
}

/// Position of a version in release order.
pub open spec fn version_rank(v: DxfVersion) -> nat {
    match v {
        DxfVersion::AC1012 => 0,
        DxfVersion::AC1014 => 1,
        DxfVersion::AC1015 => 2,
        DxfVersion::AC1018 => 3,
        DxfVersion::AC1021 => 4,
        DxfVersion::AC1024 => 5,
        DxfVersion::AC1027 => 6,
        DxfVersion::AC1032 => 7,
    }
}

/// The six ASCII bytes that identify a version at the start of a DWG file.
pub open spec fn version_signature(v: DxfVersion) -> Seq<u8> {
    match v {
        DxfVersion::AC1012 => seq![65u8, 67, 49, 48, 49, 50],
        DxfVersion::AC1014 => seq![65u8, 67, 49, 48, 49, 52],
        DxfVersion::AC1015 => seq![65u8, 67, 49, 48, 49, 53],
        DxfVersion::AC1018 => seq![65u8, 67, 49, 48, 49, 56],
        DxfVersion::AC1021 => seq![65u8, 67, 49, 48, 50, 49],
        DxfVersion::AC1024 => seq![65u8, 67, 49, 48, 50, 52],
        DxfVersion::AC1027 => seq![65u8, 67, 49, 48, 50, 55],
        DxfVersion::AC1032 => seq![65u8, 67, 49, 48, 51, 50],
    }
}

impl DxfVersion {
    /// Position of this version in release order.
    pub fn rank(&self) -> (r: u8)
        ensures
            r == version_rank(*self),
    {
        match self {
            DxfVersion::AC1012 => 0,
            DxfVersion::AC1014 => 1,
            DxfVersion::AC1015 => 2,
            DxfVersion::AC1018 => 3,
            DxfVersion::AC1021 => 4,
            DxfVersion::AC1024 => 5,
            DxfVersion::AC1027 => 6,
            DxfVersion::AC1032 => 7,
        }
    }

    /// Whether this version is `other` or a later one.
    pub fn at_least(&self, other: DxfVersion) -> (r: bool)
        ensures
            r == (version_rank(*self) >= version_rank(other)),
    {
        self.rank() >= other.rank()
    }

    /// Whether this version is strictly earlier than `other`.
    pub fn before(&self, other: DxfVersion) -> (r: bool)
        ensures
            r == (version_rank(*self) < version_rank(other)),
    {
        self.rank() < other.rank()
    }

    /// Whether this version and `other` are the same.
    pub fn same_as(&self, other: DxfVersion) -> (r: bool)
        ensures
            r == (*self == other),
    {
        self.rank() == other.rank()
    }

    /// Recognise a version from its six-byte signature (such as `AC1015`).
    pub fn from_signature(sig: &[u8]) -> (r: Option<DxfVersion>)
        ensures
            match r {
                Some(v) => version_signature(v) == sig@,
                None => forall|v: DxfVersion| version_signature(v) != sig@,
            },
    {
        if sig.len() != 6 || sig[0] != 65 || sig[1] != 67 || sig[2] != 49 || sig[3] != 48 {
            proof {
                assert forall|v: DxfVersion| version_signature(v) != sig@ by {
                    if sig@.len() == 6 {
                        assert(version_signature(v)[0] == 65 && version_signature(v)[1] == 67);
                        assert(version_signature(v)[2] == 49 && version_signature(v)[3] == 48);
                    }
                }
            }
            return None;
        }
        let a = sig[4];
        let b = sig[5];
        let r = if a == 49 && b == 50 {
            Some(DxfVersion::AC1012)
        } else if a == 49 && b == 52 {
            Some(DxfVersion::AC1014)
        } else if a == 49 && b == 53 {
            Some(DxfVersion::AC1015)
        } else if a == 49 && b == 56 {
            Some(DxfVersion::AC1018)
        } else if a == 50 && b == 49 {
            Some(DxfVersion::AC1021)
        } else if a == 50 && b == 52 {
            Some(DxfVersion::AC1024)
        } else if a == 50 && b == 55 {
            Some(DxfVersion::AC1027)
        } else if a == 51 && b == 50 {
            Some(DxfVersion::AC1032)
        } else {
            None
        };
        proof {
            if r is Some {
                assert(version_signature(r->0) =~= sig@);
            } else {
                assert forall|v: DxfVersion| version_signature(v) != sig@ by {
                    assert(version_signature(v)[4] != a || version_signature(v)[5] != b);
                }
            }
        }
        r
    }
}

} // verus!
