//! Sentinel-coded optional numeric fields.
//!
//! The boundary reserves one numeric value per field to mean "not available".
//! Which sentinel applies is a property of the individual field, never a
//! global constant: an absent measurement uses the all-ones pattern at the
//! field's width, while an absent handle uses zero. Callers therefore pass
//! the sentinel that their field documents.

use vstd::prelude::*;

verus! {

/// The all-ones "not available" sentinel for 32-bit measurement fields.
pub const VALUE_NOT_AVAILABLE_U32: u32 = 0xFFFF_FFFF;

/// The all-ones "not available" sentinel for 64-bit measurement fields.
pub const VALUE_NOT_AVAILABLE_U64: u64 = 0xFFFF_FFFF_FFFF_FFFF;

/// The "no handle" sentinel used by handle-like 32-bit fields.
pub const ABSENT_HANDLE: u32 = 0;

/// Decodes a sentinel-coded 32-bit field: the sentinel means absent, any
/// other value is present and carried through unchanged.
pub fn decode_u32_field(raw: u32, sentinel: u32) -> (r: Option<u32>)
    ensures
        r == (if raw == sentinel {
            None::<u32>
        } else {
            Some(raw)
        }),
{
    if raw == sentinel {
        None
    } else {
        Some(raw)
    }
}

/// Decodes a sentinel-coded 64-bit field: the sentinel means absent, any
/// other value is present and carried through unchanged.
pub fn decode_u64_field(raw: u64, sentinel: u64) -> (r: Option<u64>)
    ensures
        r == (if raw == sentinel {
            None::<u64>
        } else {
            Some(raw)
        }),
{
    if raw == sentinel {
        None
    } else {
        Some(raw)
    }
}

/// Encodes an optional 32-bit field, substituting the sentinel for absent.
pub fn encode_u32_field(value: Option<u32>, sentinel: u32) -> (r: u32)
    ensures
        r == (match value {
            Some(v) => v,
            None => sentinel,
        }),
{
    match value {
        Some(v) => v,
        None => sentinel,
    }
}

/// Encodes an optional 64-bit field, substituting the sentinel for absent.
pub fn encode_u64_field(value: Option<u64>, sentinel: u64) -> (r: u64)
    ensures
        r == (match value {
            Some(v) => v,
            None => sentinel,
        }),
{
    match value {
        Some(v) => v,
        None => sentinel,
    }
}

} // verus!
