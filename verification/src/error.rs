//! The error taxonomy shared by every codec in this crate.
//!
//! Each variant names one way a raw record can fail validation. Callers are
//! expected to treat every variant as recoverable: nothing here is fatal.

use vstd::prelude::*;

verus! {

/// A validation error raised while converting between a raw fixed-layout
/// record and an owned domain value.
#[derive(Debug, Clone, Copy, PartialEq, Eq, Structural)]
pub enum NvmlError {
    /// Bytes that should be text are not validly encoded text.
    InvalidEncoding,
    /// A value to encode exceeds the destination buffer's capacity.
    /// `actual_len` counts the encoded bytes plus the terminator.
    ValueTooLarge { max_len: usize, actual_len: usize },
    /// A structural precondition is violated: an embedded terminator where
    /// one is forbidden, or a count exceeding an array's capacity.
    InvalidValue,
    /// A discriminant or mode value outside this crate's known variant set.
    UnexpectedVariant { raw_tag: u32 },
    /// A bit pattern with bits outside the known flag set.
    UnrecognizedBits { raw_value: u32 },
    /// A per-field failure reported by the boundary for an otherwise
    /// successful record; `raw_status` is the boundary's status code.
    FieldUnavailable { raw_status: u32 },
}

} // verus!
