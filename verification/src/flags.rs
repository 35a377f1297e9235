//! Validated bitmask fields.
//!
//! A raw flag word from the boundary is accepted only when every set bit
//! belongs to the known flag set; unknown bits are a validation error, never
//! silently dropped or accepted. A validated set is well formed by
//! construction, so re-encoding it is a plain read of its bits.

use vstd::prelude::*;

verus! {

/// Diff map capture is enabled for the session.
pub const FBC_FLAG_DIFFMAP_ENABLED: u32 = 0x0000_0001;

/// Classification map capture is enabled for the session.
pub const FBC_FLAG_CLASSIFICATIONMAP_ENABLED: u32 = 0x0000_0002;

/// Capture calls return without waiting for a new frame.
pub const FBC_FLAG_CAPTURE_WITH_WAIT_NO_WAIT: u32 = 0x0000_0004;

/// Capture calls wait indefinitely for a new frame.
pub const FBC_FLAG_CAPTURE_WITH_WAIT_INFINITE: u32 = 0x0000_0008;

/// Capture calls wait with a timeout for a new frame.
pub const FBC_FLAG_CAPTURE_WITH_WAIT_TIMEOUT: u32 = 0x0000_0010;

/// The union of every known frame buffer capture session flag.
pub const FBC_FLAGS_ALL: u32 = 0x0000_001F;

/// A validated set of frame buffer capture session flags: every set bit is
/// one of the known `FBC_FLAG_*` bits.
#[derive(Debug, Clone, Copy, PartialEq, Eq, Structural)]
pub struct FbcFlags {
    /// The raw bit pattern; kept inside `FBC_FLAGS_ALL` by every validated
    /// constructor of this crate.
    pub bits: u32,
}

impl FbcFlags {
    /// The raw bit pattern of this flag set.
    pub open spec fn spec_bits(&self) -> u32 {
        self.bits
    }

    /// True when every set bit of `raw` is a known flag bit.
    pub open spec fn spec_valid_bits(raw: u32) -> bool {
        raw & FBC_FLAGS_ALL == raw
    }

    /// The validated flag set for `raw`, when `raw` has no unknown bits.
    pub open spec fn spec_from_bits(raw: u32) -> Option<FbcFlags> {
        if Self::spec_valid_bits(raw) {
            Some(FbcFlags { bits: raw })
        } else {
            None::<FbcFlags>
        }
    }

    /// Validates a raw bit pattern: succeeds, keeping every bit, exactly when
    /// no bit outside the known set is present.
    pub fn from_bits(raw: u32) -> (r: Option<FbcFlags>)
        ensures
            r == Self::spec_from_bits(raw),
            r matches Some(f) ==> f.spec_bits() == raw && f.wf(),
    {
        if raw & FBC_FLAGS_ALL == raw {
            Some(FbcFlags { bits: raw })
        } else {
            None
        }
    }

    /// Every constructed flag set stays inside the known flag bits.
    pub open spec fn wf(&self) -> bool {
        Self::spec_valid_bits(self.spec_bits())
    }

    /// Re-encodes the set as its raw bit pattern; always succeeds, since a
    /// constructed set is well formed.
    pub fn bits(&self) -> (r: u32)
        ensures
            r == self.spec_bits(),
    {
        self.bits
    }

    /// True when every flag of `flag` is contained in this set.
    pub fn contains(&self, flag: u32) -> (r: bool)
        ensures
            r == (self.spec_bits() & flag == flag),
    {
        self.bits & flag == flag
    }
}

} // verus!
