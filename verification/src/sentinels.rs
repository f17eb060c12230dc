use vstd::prelude::*;
use crate::text::str_eq;

verus! {

/// Start sentinel of the `AcDb:Header` section.
pub open spec fn header_start_spec() -> Seq<u8> {
    seq![0xCFu8, 0x7B, 0x1F, 0x23, 0xFD, 0xDE, 0x38, 0xA9, 0x5F, 0x7C, 0x68, 0xB8, 0x4E, 0x6D, 0x33, 0x5F]
}

/// End sentinel of the `AcDb:Header` section.
pub open spec fn header_end_spec() -> Seq<u8> {
    seq![0x30u8, 0x84, 0xE0, 0xDC, 0x02, 0x21, 0xC7, 0x56, 0xA0, 0x83, 0x97, 0x47, 0xB1, 0x92, 0xCC, 0xA0]
}

/// Start sentinel of the `AcDb:Classes` section.
pub open spec fn classes_start_spec() -> Seq<u8> {
    seq![0x8Du8, 0xA1, 0xC4, 0xB8, 0xC4, 0xA9, 0xF8, 0xC5, 0xC0, 0xDC, 0xF4, 0x5F, 0xE7, 0xCF, 0xB6, 0x8A]
}

/// End sentinel of the `AcDb:Classes` section.
pub open spec fn classes_end_spec() -> Seq<u8> {
    seq![0x72u8, 0x5E, 0x3B, 0x47, 0x3B, 0x56, 0x07, 0x3A, 0x3F, 0x23, 0x0B, 0xA0, 0x18, 0x30, 0x49, 0x75]
}

/// Start sentinel of the `AcDb:Preview` section.
pub open spec fn preview_start_spec() -> Seq<u8> {
    seq![0x1Fu8, 0x25, 0x6D, 0x07, 0xD4, 0x36, 0x28, 0x28, 0x9D, 0x57, 0xCA, 0x3F, 0x9D, 0x44, 0x10, 0x2B]
}

/// End sentinel of the `AcDb:Preview` section.
pub open spec fn preview_end_spec() -> Seq<u8> {
    seq![0xE0u8, 0xDA, 0x92, 0xF8, 0x2B, 0xC9, 0xD7, 0xD7, 0x62, 0xA8, 0x35, 0xC0, 0x62, 0xBB, 0xEF, 0xD4]
}

/// Name of the header section.
pub open spec fn header_name() -> Seq<char> {
    seq!['A', 'c', 'D', 'b', ':', 'H', 'e', 'a', 'd', 'e', 'r']
}

/// Name of the classes section.
pub open spec fn classes_name() -> Seq<char> {
    seq!['A', 'c', 'D', 'b', ':', 'C', 'l', 'a', 's', 's', 'e', 's']
}

/// Name of the preview section.
pub open spec fn preview_name() -> Seq<char> {
    seq!['A', 'c', 'D', 'b', ':', 'P', 'r', 'e', 'v', 'i', 'e', 'w']
}

/// The start sentinel of the section called `name`, if the section has one.
pub open spec fn start_sentinel_spec(name: Seq<char>) -> Option<Seq<u8>> {
    if name == header_name() {
        Some(header_start_spec())
    } else if name == classes_name() {
        Some(classes_start_spec())
    } else if name == preview_name() {
        Some(preview_start_spec())
    } else {
        None
    }
}

/// The end sentinel of the section called `name`, if the section has one.
pub open spec fn end_sentinel_spec(name: Seq<char>) -> Option<Seq<u8>> {
    if name == header_name() {
        Some(header_end_spec())
    } else if name == classes_name() {
        Some(classes_end_spec())
    } else if name == preview_name() {
        Some(preview_end_spec())
    } else {
        None
    }
}

/// Start sentinel of the `AcDb:Header` section.
pub fn header_start() -> (r: [u8; 16])
    ensures
        r@ == header_start_spec(),
{
    let r = [0xCFu8, 0x7B, 0x1F, 0x23, 0xFD, 0xDE, 0x38, 0xA9, 0x5F, 0x7C, 0x68, 0xB8, 0x4E, 0x6D, 0x33, 0x5F];
    assert(r@ =~= header_start_spec());
    r
}

/// End sentinel of the `AcDb:Header` section.
pub fn header_end() -> (r: [u8; 16])
    ensures
        r@ == header_end_spec(),
{
    let r = [0x30u8, 0x84, 0xE0, 0xDC, 0x02, 0x21, 0xC7, 0x56, 0xA0, 0x83, 0x97, 0x47, 0xB1, 0x92, 0xCC, 0xA0];
    assert(r@ =~= header_end_spec());
    r
}

/// Start sentinel of the `AcDb:Classes` section.
pub fn classes_start() -> (r: [u8; 16])
    ensures
        r@ == classes_start_spec(),
{
    let r = [0x8Du8, 0xA1, 0xC4, 0xB8, 0xC4, 0xA9, 0xF8, 0xC5, 0xC0, 0xDC, 0xF4, 0x5F, 0xE7, 0xCF, 0xB6, 0x8A];
    assert(r@ =~= classes_start_spec());
    r
}

/// End sentinel of the `AcDb:Classes` section.
pub fn classes_end() -> (r: [u8; 16])
    ensures
        r@ == classes_end_spec(),
{
    let r = [0x72u8, 0x5E, 0x3B, 0x47, 0x3B, 0x56, 0x07, 0x3A, 0x3F, 0x23, 0x0B, 0xA0, 0x18, 0x30, 0x49, 0x75];
    assert(r@ =~= classes_end_spec());
    r
}

/// Start sentinel of the `AcDb:Preview` section.
pub fn preview_start() -> (r: [u8; 16])
    ensures
        r@ == preview_start_spec(),
{
    let r = [0x1Fu8, 0x25, 0x6D, 0x07, 0xD4, 0x36, 0x28, 0x28, 0x9D, 0x57, 0xCA, 0x3F, 0x9D, 0x44, 0x10, 0x2B];
    assert(r@ =~= preview_start_spec());
    r
}

/// End sentinel of the `AcDb:Preview` section.
pub fn preview_end() -> (r: [u8; 16])
    ensures
        r@ == preview_end_spec(),
{
    let r = [0xE0u8, 0xDA, 0x92, 0xF8, 0x2B, 0xC9, 0xD7, 0xD7, 0x62, 0xA8, 0x35, 0xC0, 0x62, 0xBB, 0xEF, 0xD4];
    assert(r@ =~= preview_end_spec());
    r
}

/// The start sentinel of the section called `section_name`, if known.
pub fn start_sentinel(section_name: &str) -> (r: Option<[u8; 16]>)
    ensures
        match r {
            Some(s) => start_sentinel_spec(section_name@) == Some(s@),
            None => start_sentinel_spec(section_name@) is None,
        },
{
    proof {
        reveal_strlit("AcDb:Header");
        reveal_strlit("AcDb:Classes");
        reveal_strlit("AcDb:Preview");
        assert("AcDb:Header"@ =~= header_name());
        assert("AcDb:Classes"@ =~= classes_name());
        assert("AcDb:Preview"@ =~= preview_name());
    }
    if str_eq(section_name, "AcDb:Header") {
        Some(header_start())
    } else if str_eq(section_name, "AcDb:Classes") {
        Some(classes_start())
    } else if str_eq(section_name, "AcDb:Preview") {
        Some(preview_start())
    } else {
        None
    }
}

/// The end sentinel of the section called `section_name`, if known.
pub fn end_sentinel(section_name: &str) -> (r: Option<[u8; 16]>)
    ensures
        match r {
            Some(s) => end_sentinel_spec(section_name@) == Some(s@),
            None => end_sentinel_spec(section_name@) is None,
        },
{
    proof {
        reveal_strlit("AcDb:Header");
        reveal_strlit("AcDb:Classes");
        reveal_strlit("AcDb:Preview");
        assert("AcDb:Header"@ =~= header_name());
        assert("AcDb:Classes"@ =~= classes_name());
        assert("AcDb:Preview"@ =~= preview_name());
    }
    if str_eq(section_name, "AcDb:Header") {
        Some(header_end())
    } else if str_eq(section_name, "AcDb:Classes") {
        Some(classes_end())
    } else if str_eq(section_name, "AcDb:Preview") {
        Some(preview_end())
    } else {
        None
    }
}

/// Each section's end sentinel is the bytewise complement of its start sentinel.
pub proof fn lemma_end_is_complement_of_start(name: Seq<char>)
    ensures
        start_sentinel_spec(name) is Some <==> end_sentinel_spec(name) is Some,
        start_sentinel_spec(name) is Some ==> ({
            let s = start_sentinel_spec(name)->0;
            let e = end_sentinel_spec(name)->0;
            s.len() == 16 && e.len() == 16 && forall|i: int| 0 <= i < 16 ==> #[trigger] e[i] == 255 - s[i]
        }),
{
    if start_sentinel_spec(name) is Some {
        let s = start_sentinel_spec(name)->0;
        let e = end_sentinel_spec(name)->0;
        assert forall|i: int| 0 <= i < 16 implies #[trigger] e[i] == 255 - s[i] by {
            assert(0 <= i < 16);
        }
    }
}

} // verus!
