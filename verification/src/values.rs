//! Sum-type domain values decoded from raw union storage.
//!
//! The boundary stores a sample's value in an eight-byte union whose active
//! arm is named by an external discriminant. The decoder here takes the
//! validated discriminant and the raw storage together and reads only the
//! region valid for that discriminant; raw storage is never inspected before
//! its discriminant has been validated.

use crate::bytes::{
    read_i32_le, read_i64_le, read_u32_le, read_u64_le, spec_to_i32, spec_to_i64, spec_u32_le,
    spec_u64_le,
};
use crate::enums::SampleValueType;
use crate::sentinel::{VALUE_NOT_AVAILABLE_U64};
use vstd::prelude::*;

verus! {

/// An identifier naming one retrievable telemetry field.
#[derive(Debug, Clone, Copy, PartialEq, Eq, Hash, Structural)]
pub struct FieldId(pub u32);

/// A bridge chip firmware version; the boundary encodes "unknown" as zero.
#[derive(Debug, Clone, Copy, PartialEq, Eq, Hash, Structural)]
pub enum FirmwareVersion {
    Unknown,
    Plx(u32),
}

impl FirmwareVersion {
    /// The version the boundary encodes as `v`: zero is the "unknown"
    /// sentinel, anything else is a PLX firmware version.
    pub open spec fn spec_from(v: u32) -> FirmwareVersion {
        if v == 0 {
            FirmwareVersion::Unknown
        } else {
            FirmwareVersion::Plx(v)
        }
    }

    /// Decodes a raw firmware version field.
    pub fn from_c(v: u32) -> (r: FirmwareVersion)
        ensures
            r == Self::spec_from(v),
    {
        if v == 0 {
            FirmwareVersion::Unknown
        } else {
            FirmwareVersion::Plx(v)
        }
    }
}

/// GPU memory used by a process; the boundary encodes "not available" as the
/// all-ones 64-bit sentinel.
#[derive(Debug, Clone, Copy, PartialEq, Eq, Hash, Structural)]
pub enum UsedGpuMemory {
    Unavailable,
    Used(u64),
}

impl UsedGpuMemory {
    /// The value the boundary encodes as `v`: the all-ones sentinel is
    /// "unavailable", anything else is a byte count.
    pub open spec fn spec_from(v: u64) -> UsedGpuMemory {
        if v == VALUE_NOT_AVAILABLE_U64 {
            UsedGpuMemory::Unavailable
        } else {
            UsedGpuMemory::Used(v)
        }
    }

    /// Decodes a raw used-memory field.
    pub fn from_c(v: u64) -> (r: UsedGpuMemory)
        ensures
            r == Self::spec_from(v),
    {
        if v == VALUE_NOT_AVAILABLE_U64 {
            UsedGpuMemory::Unavailable
        } else {
            UsedGpuMemory::Used(v)
        }
    }
}

/// Eight bytes of raw union storage exactly as the boundary laid them out.
/// Which integers they hold is decided only by a discriminant validated
/// elsewhere; the storage itself is opaque until then.
#[derive(Debug, Clone, PartialEq, Eq)]
pub struct RawUnion {
    pub bytes: Vec<u8>,
}

/// The number of bytes in a raw union's storage.
pub const RAW_UNION_SIZE: usize = 8;

impl RawUnion {
    /// A raw union is well formed when it holds exactly its declared
    /// capacity of bytes.
    pub open spec fn wf(&self) -> bool {
        self.bytes@.len() == RAW_UNION_SIZE
    }

    /// Wraps eight bytes of storage; rejects any other length.
    pub fn new(bytes: Vec<u8>) -> (r: Option<RawUnion>)
        ensures
            r matches Some(u) ==> u.wf() && u.bytes@ == bytes@,
            r is Some <==> bytes@.len() == RAW_UNION_SIZE,
    {
        if bytes.len() == RAW_UNION_SIZE {
            Some(RawUnion { bytes })
        } else {
            None
        }
    }

    /// Storage holding all zero bytes.
    pub fn zeroed() -> (r: RawUnion)
        ensures
            r.wf(),
            forall|i: int| 0 <= i < RAW_UNION_SIZE ==> r.bytes@[i] == 0u8,
    {
        RawUnion { bytes: crate::bytes::zeroed_bytes(RAW_UNION_SIZE) }
    }
}

/// A decoded sample value: the arm named by the sample's discriminant.
///
/// The `Double` arm carries the raw bit pattern of the boundary's IEEE-754
/// value; interpreting those bits as a floating-point number is left to
/// callers outside this crate.
#[derive(Debug, Clone, Copy, PartialEq, Eq, Hash, Structural)]
pub enum SampleValue {
    Double(u64),
    UnsignedInt(u32),
    UnsignedLong(u64),
    UnsignedLongLong(u64),
    SignedLongLong(i64),
    SignedInt(i32),
}

/// The value stored in eight bytes of union storage when read under the
/// given discriminant, on the boundary's little-endian layout.
pub open spec fn spec_sample_value(tag: SampleValueType, b: Seq<u8>) -> SampleValue {
    match tag {
        SampleValueType::Double => SampleValue::Double(spec_u64_le(b, 0) as u64),
        SampleValueType::UnsignedInt => SampleValue::UnsignedInt(spec_u32_le(b, 0) as u32),
        SampleValueType::UnsignedLong => SampleValue::UnsignedLong(spec_u64_le(b, 0) as u64),
        SampleValueType::UnsignedLongLong => SampleValue::UnsignedLongLong(
            spec_u64_le(b, 0) as u64,
        ),
        SampleValueType::SignedLongLong => SampleValue::SignedLongLong(
            spec_to_i64(spec_u64_le(b, 0)) as i64,
        ),
        SampleValueType::SignedInt => SampleValue::SignedInt(spec_to_i32(spec_u32_le(b, 0)) as i32),
    }
}

impl SampleValue {
    /// Reads the union arm named by `tag` out of `union_`.
    ///
    /// The discriminant arrives already validated as a `SampleValueType`, so
    /// it is structurally impossible to reach the payload bytes with an
    /// unrecognized discriminant.
    pub fn from_tag_and_union(tag: &SampleValueType, union_: &RawUnion) -> (r: SampleValue)
        requires
            union_.wf(),
        ensures
            r == spec_sample_value(*tag, union_.bytes@),
    {
        match tag {
            SampleValueType::Double => SampleValue::Double(read_u64_le(&union_.bytes, 0)),
            SampleValueType::UnsignedInt => SampleValue::UnsignedInt(read_u32_le(&union_.bytes, 0)),
            SampleValueType::UnsignedLong => SampleValue::UnsignedLong(
                read_u64_le(&union_.bytes, 0),
            ),
            SampleValueType::UnsignedLongLong => SampleValue::UnsignedLongLong(
                read_u64_le(&union_.bytes, 0),
            ),
            SampleValueType::SignedLongLong => SampleValue::SignedLongLong(
                read_i64_le(&union_.bytes, 0),
            ),
            SampleValueType::SignedInt => SampleValue::SignedInt(read_i32_le(&union_.bytes, 0)),
        }
    }
}

} // verus!
