use acadrust::reference_type::{DwgReferenceType, HandleReference};

#[test]
fn test_reference_type_from_code() {
    assert_eq!(DwgReferenceType::from_code(2), Some(DwgReferenceType::SoftOwnership));
    assert_eq!(DwgReferenceType::from_code(5), Some(DwgReferenceType::HardPointer));
    assert_eq!(DwgReferenceType::from_code(1), None);
    assert_eq!(DwgReferenceType::from_code(7), None);
}

#[test]
fn test_is_absolute() {
    assert!(DwgReferenceType::SoftOwnership.is_absolute());
    assert!(DwgReferenceType::HardPointer.is_absolute());
    assert!(!DwgReferenceType::HardOwnershipPlus1.is_absolute());
    assert!(!DwgReferenceType::SoftPointerMinusOffset.is_absolute());
}

#[test]
fn test_resolve_absolute() {
    let href = HandleReference::new(4, 2, 0x1A);
    assert_eq!(href.resolve(0x50), 0x1A);
}

#[test]
fn test_resolve_plus1() {
    let href = HandleReference::new(6, 0, 0);
    assert_eq!(href.resolve(0x10), 0x11);
}

#[test]
fn test_resolve_minus1() {
    let href = HandleReference::new(8, 0, 0);
    assert_eq!(href.resolve(0x10), 0x0F);
}

#[test]
fn test_resolve_plus_offset() {
    let href = HandleReference::new(0xA, 1, 5);
    assert_eq!(href.resolve(0x10), 0x15);
}

#[test]
fn test_resolve_minus_offset() {
    let href = HandleReference::new(0xC, 1, 3);
    assert_eq!(href.resolve(0x10), 0x0D);
}

#[test]
fn code_round_trips_for_every_reference_type() {
    let all = [
        DwgReferenceType::Undefined,
        DwgReferenceType::SoftOwnership,
        DwgReferenceType::HardOwnership,
        DwgReferenceType::SoftPointer,
        DwgReferenceType::HardPointer,
        DwgReferenceType::HardOwnershipPlus1,
        DwgReferenceType::HardOwnershipMinus1,
        DwgReferenceType::SoftPointerPlusOffset,
        DwgReferenceType::SoftPointerMinusOffset,
    ];
    for t in all.iter() {
        assert_eq!(DwgReferenceType::from_code(t.code()), Some(*t));
        assert_eq!(t.is_offset(), !t.is_absolute());
    }
}

#[test]
fn resolve_wraps_around_and_offsets_cancel() {
    assert_eq!(HandleReference::new(6, 0, 0).resolve(u64::MAX), 0);
    assert_eq!(HandleReference::new(8, 0, 0).resolve(0), u64::MAX);
    let plus = HandleReference::new(0xA, 1, 7).resolve(u64::MAX - 3);
    assert_eq!(plus, 3);
    assert_eq!(HandleReference::new(0xC, 1, 7).resolve(plus), u64::MAX - 3);
    assert_eq!(HandleReference::new(3, 1, 0x99).resolve(12345), 0x99);
}

#[test]
fn handle_reference_default_and_type() {
    let d = HandleReference::default();
    assert_eq!((d.code, d.counter, d.handle), (0, 0, 0));
    assert_eq!(d.reference_type(), Some(DwgReferenceType::Undefined));
    assert_eq!(HandleReference::new(9, 0, 0).reference_type(), None);
}
