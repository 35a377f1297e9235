//! Marshalling and validation layer for fixed-layout telemetry records.
//!
//! A native boundary hands this crate fixed-layout records: fixed-capacity
//! character buffers that may or may not be terminated, numeric sentinels
//! standing in for "not available", tagged unions whose active arm is chosen
//! by an external discriminant, bitmask fields that must reject unknown bits,
//! and array-plus-count pairs. The modules below convert those records into
//! owned, validated domain values, and re-encode the few record types that
//! travel back to the boundary.

pub mod bytes;
pub mod device;
pub mod enums;
pub mod error;
pub mod flags;
pub mod laws;
pub mod sentinel;
pub mod strbuf;
pub mod values;
pub mod vgpu;
