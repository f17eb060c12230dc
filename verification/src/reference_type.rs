use vstd::prelude::*;

verus! {

/// DWG handle reference code: how a raw handle value is interpreted
/// relative to the reference (parent) handle.
#[derive(Debug, Clone, Copy, PartialEq, Eq, Hash)]
pub enum DwgReferenceType {
    /// Undefined reference (code 0)
    Undefined,
    /// Soft ownership reference (code 2), absolute handle
    SoftOwnership,
    /// Hard ownership reference (code 3), absolute handle
    HardOwnership,
    /// Soft pointer reference (code 4), absolute handle
    SoftPointer,
    /// Hard pointer reference (code 5), absolute handle
    HardPointer,
    /// Reference handle + 1 (code 6)
    HardOwnershipPlus1,
    /// Reference handle - 1 (code 8)
    HardOwnershipMinus1,
    /// Reference handle + N (code 0xA)
    SoftPointerPlusOffset,
    /// Reference handle - N (code 0xC)
    SoftPointerMinusOffset,
}

/// The numeric code of a reference type.
pub open spec fn reference_code(t: DwgReferenceType) -> u8 {
    match t {
        DwgReferenceType::Undefined => 0,
        DwgReferenceType::SoftOwnership => 2,
        DwgReferenceType::HardOwnership => 3,
        DwgReferenceType::SoftPointer => 4,
        DwgReferenceType::HardPointer => 5,
        DwgReferenceType::HardOwnershipPlus1 => 6,
        DwgReferenceType::HardOwnershipMinus1 => 8,
        DwgReferenceType::SoftPointerPlusOffset => 0xA,
        DwgReferenceType::SoftPointerMinusOffset => 0xC,
    }
}

/// The reference type of a known code (Undefined for the others).
pub open spec fn reference_type_of(code: u8) -> DwgReferenceType {
    if code == 2 {
        DwgReferenceType::SoftOwnership
    } else if code == 3 {
        DwgReferenceType::HardOwnership
    } else if code == 4 {
        DwgReferenceType::SoftPointer
    } else if code == 5 {
        DwgReferenceType::HardPointer
    } else if code == 6 {
        DwgReferenceType::HardOwnershipPlus1
    } else if code == 8 {
        DwgReferenceType::HardOwnershipMinus1
    } else if code == 0xA {
        DwgReferenceType::SoftPointerPlusOffset
    } else if code == 0xC {
        DwgReferenceType::SoftPointerMinusOffset
    } else {
        DwgReferenceType::Undefined
    }
}

/// Codes whose handle bytes are the absolute handle value.
pub open spec fn is_absolute_code(code: u8) -> bool {
    code == 0 || code == 2 || code == 3 || code == 4 || code == 5
}

/// Codes that name a reference type.
pub open spec fn is_known_code(code: u8) -> bool {
    is_absolute_code(code) || code == 6 || code == 8 || code == 0xA || code == 0xC
}

/// The handle a reference with `code` and raw `handle` designates, given
/// the reference handle; unknown codes are treated as absolute.
pub open spec fn resolved_handle(code: u8, handle: u64, reference_handle: u64) -> u64 {
    if code == 6 {
        ((reference_handle + 1) % 0x1_0000_0000_0000_0000) as u64
    } else if code == 8 {
        ((reference_handle - 1) % 0x1_0000_0000_0000_0000) as u64
    } else if code == 0xA {
        ((reference_handle + handle) % 0x1_0000_0000_0000_0000) as u64
    } else if code == 0xC {
        ((reference_handle - handle) % 0x1_0000_0000_0000_0000) as u64
    } else {
        handle
    }
}

impl DwgReferenceType {
    /// Try to create a reference type from a raw code value.
    pub fn from_code(code: u8) -> (r: Option<Self>)
        ensures
            r == (if is_known_code(code) { Some(reference_type_of(code)) } else { None }),
            r matches Some(t) ==> reference_code(t) == code,
    {
        match code {
            0 => Some(DwgReferenceType::Undefined),
            2 => Some(DwgReferenceType::SoftOwnership),
            3 => Some(DwgReferenceType::HardOwnership),
            4 => Some(DwgReferenceType::SoftPointer),
            5 => Some(DwgReferenceType::HardPointer),
            6 => Some(DwgReferenceType::HardOwnershipPlus1),
            8 => Some(DwgReferenceType::HardOwnershipMinus1),
            0xA => Some(DwgReferenceType::SoftPointerPlusOffset),
            0xC => Some(DwgReferenceType::SoftPointerMinusOffset),
            _ => None,
        }
    }

    /// The numeric code of this reference type.
    pub fn code(&self) -> (r: u8)
        ensures
            r == reference_code(*self),
    {
        match self {
            DwgReferenceType::Undefined => 0,
            DwgReferenceType::SoftOwnership => 2,
            DwgReferenceType::HardOwnership => 3,
            DwgReferenceType::SoftPointer => 4,
            DwgReferenceType::HardPointer => 5,
            DwgReferenceType::HardOwnershipPlus1 => 6,
            DwgReferenceType::HardOwnershipMinus1 => 8,
            DwgReferenceType::SoftPointerPlusOffset => 0xA,
            DwgReferenceType::SoftPointerMinusOffset => 0xC,
        }
    }

    /// Whether this reference type uses an absolute handle value.
    pub fn is_absolute(&self) -> (r: bool)
        ensures
            r == is_absolute_code(reference_code(*self)),
    {
        match self {
            DwgReferenceType::Undefined
            | DwgReferenceType::SoftOwnership
            | DwgReferenceType::HardOwnership
            | DwgReferenceType::SoftPointer
            | DwgReferenceType::HardPointer => true,
            _ => false,
        }
    }

    /// Whether this reference type uses an offset from the reference handle.
    pub fn is_offset(&self) -> (r: bool)
        ensures
            r == !is_absolute_code(reference_code(*self)),
    {
        !self.is_absolute()
    }
}

/// A raw handle reference as read from a DWG file: the reference code,
/// the byte count and the raw handle value.
#[derive(Debug, Clone, Copy, PartialEq, Eq)]
pub struct HandleReference {
    /// The reference code (upper 4 bits of the first handle byte).
    pub code: u8,
    /// Number of handle bytes (lower 4 bits of the first handle byte).
    pub counter: u8,
    /// The raw handle value.
    pub handle: u64,
}

impl HandleReference {
    /// Create a new handle reference.
    pub fn new(code: u8, counter: u8, handle: u64) -> (r: Self)
        ensures
            r.code == code,
            r.counter == counter,
            r.handle == handle,
    {
        HandleReference { code, counter, handle }
    }

    /// Resolve the absolute handle value given a reference (parent) handle:
    /// codes 0, 2..5 (and unknown codes) give the raw handle, 6 and 8 the
    /// reference handle plus or minus one, 0xA and 0xC the reference handle
    /// plus or minus the raw handle, all modulo 2^64.
    pub fn resolve(&self, reference_handle: u64) -> (r: u64)
        ensures
            r == resolved_handle(self.code, self.handle, reference_handle),
    {
        match self.code {
            6 => reference_handle.wrapping_add(1),
            8 => reference_handle.wrapping_sub(1),
            0xA => reference_handle.wrapping_add(self.handle),
            0xC => reference_handle.wrapping_sub(self.handle),
            _ => self.handle,
        }
    }

    /// The reference type of this reference, if its code is recognised.
    pub fn reference_type(&self) -> (r: Option<DwgReferenceType>)
        ensures
            r == (if is_known_code(self.code) { Some(reference_type_of(self.code)) } else { None }),
    {
        DwgReferenceType::from_code(self.code)
    }
}

impl Default for HandleReference {
    fn default() -> (r: Self)
        ensures
            r.code == 0 && r.counter == 0 && r.handle == 0,
    {
        HandleReference { code: 0, counter: 0, handle: 0 }
    }
}

/// Every reference type is recovered from its own code: `from_code`
/// applied to the code of `t` gives `t` back.
pub proof fn lemma_code_roundtrip(t: DwgReferenceType)
    ensures
        is_known_code(reference_code(t)),
        reference_type_of(reference_code(t)) == t,
{
}

/// Absolute references resolve to their raw handle, whatever the
/// reference handle.
pub proof fn lemma_absolute_ignores_reference(code: u8, handle: u64, a: u64, b: u64)
    requires
        is_absolute_code(code),
    ensures
        resolved_handle(code, handle, a) == handle,
        resolved_handle(code, handle, a) == resolved_handle(code, handle, b),
{
}

/// An offset by +N then -N from the reference handle returns to it: the
/// 0xA and 0xC codes are inverse to each other.
pub proof fn lemma_plus_minus_offset_inverse(handle: u64, reference_handle: u64)
    ensures
        resolved_handle(0xC, handle, resolved_handle(0xA, handle, reference_handle)) == reference_handle,
        resolved_handle(8, 0, resolved_handle(6, 0, reference_handle)) == reference_handle,
{
}

} // verus!
