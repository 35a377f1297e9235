//! Enumerated discriminants supplied by the boundary as raw integers.
//!
//! Every decoder here validates a raw tag against the known variant set and
//! reports `UnexpectedVariant` for anything else: tag values may evolve
//! faster than this crate's knowledge of them, so an unknown tag is a
//! recoverable error, not a crash. Each `as_c` re-encodes a variant as the
//! raw value the boundary defined for it.

use crate::error::NvmlError;
use vstd::prelude::*;

verus! {

/// The type of a bridge chip on the board.
#[derive(Debug, Clone, Copy, PartialEq, Eq, Hash, Structural)]
pub enum BridgeChip {
    Plx,
    Bro4,
}

impl BridgeChip {
    /// The variant the boundary encodes as `v`, or `UnexpectedVariant`.
    pub open spec fn spec_from(v: u32) -> Result<BridgeChip, NvmlError> {
        match v {
            0u32 => Ok(BridgeChip::Plx),
            1u32 => Ok(BridgeChip::Bro4),
            _ => Err(NvmlError::UnexpectedVariant { raw_tag: v }),
        }
    }

    /// Validates a raw bridge chip tag.
    pub fn try_from(v: u32) -> (r: Result<BridgeChip, NvmlError>)
        ensures
            r == Self::spec_from(v),
    {
        match v {
            0u32 => Ok(BridgeChip::Plx),
            1u32 => Ok(BridgeChip::Bro4),
            _ => Err(NvmlError::UnexpectedVariant { raw_tag: v }),
        }
    }

    /// The raw value the boundary defines for this variant.
    pub fn as_c(&self) -> (r: u32)
        ensures
            Self::spec_from(r) == Ok::<BridgeChip, NvmlError>(*self),
    {
        match self {
            BridgeChip::Plx => 0,
            BridgeChip::Bro4 => 1,
        }
    }
}

/// The encoder codec of an encoder session.
#[derive(Debug, Clone, Copy, PartialEq, Eq, Hash, Structural)]
pub enum EncoderType {
    H264,
    Hevc,
}

impl EncoderType {
    /// The variant the boundary encodes as `v`, or `UnexpectedVariant`.
    pub open spec fn spec_from(v: u32) -> Result<EncoderType, NvmlError> {
        match v {
            0u32 => Ok(EncoderType::H264),
            1u32 => Ok(EncoderType::Hevc),
            _ => Err(NvmlError::UnexpectedVariant { raw_tag: v }),
        }
    }

    /// Validates a raw encoder type tag.
    pub fn try_from(v: u32) -> (r: Result<EncoderType, NvmlError>)
        ensures
            r == Self::spec_from(v),
    {
        match v {
            0u32 => Ok(EncoderType::H264),
            1u32 => Ok(EncoderType::Hevc),
            _ => Err(NvmlError::UnexpectedVariant { raw_tag: v }),
        }
    }

    /// The raw value the boundary defines for this variant.
    pub fn as_c(&self) -> (r: u32)
        ensures
            Self::spec_from(r) == Ok::<EncoderType, NvmlError>(*self),
    {
        match self {
            EncoderType::H264 => 0,
            EncoderType::Hevc => 1,
        }
    }
}

/// The type of a frame buffer capture session.
#[derive(Debug, Clone, Copy, PartialEq, Eq, Hash, Structural)]
pub enum FbcSessionType {
    Unknown,
    ToSys,
    Cuda,
    Vid,
    HwEnc,
}

impl FbcSessionType {
    /// The variant the boundary encodes as `v`, or `UnexpectedVariant`.
    pub open spec fn spec_from(v: u32) -> Result<FbcSessionType, NvmlError> {
        match v {
            0u32 => Ok(FbcSessionType::Unknown),
            1u32 => Ok(FbcSessionType::ToSys),
            2u32 => Ok(FbcSessionType::Cuda),
            3u32 => Ok(FbcSessionType::Vid),
            4u32 => Ok(FbcSessionType::HwEnc),
            _ => Err(NvmlError::UnexpectedVariant { raw_tag: v }),
        }
    }

    /// Validates a raw capture session type tag.
    pub fn try_from(v: u32) -> (r: Result<FbcSessionType, NvmlError>)
        ensures
            r == Self::spec_from(v),
    {
        match v {
            0u32 => Ok(FbcSessionType::Unknown),
            1u32 => Ok(FbcSessionType::ToSys),
            2u32 => Ok(FbcSessionType::Cuda),
            3u32 => Ok(FbcSessionType::Vid),
            4u32 => Ok(FbcSessionType::HwEnc),
            _ => Err(NvmlError::UnexpectedVariant { raw_tag: v }),
        }
    }

    /// The raw value the boundary defines for this variant.
    pub fn as_c(&self) -> (r: u32)
        ensures
            Self::spec_from(r) == Ok::<FbcSessionType, NvmlError>(*self),
    {
        match self {
            FbcSessionType::Unknown => 0,
            FbcSessionType::ToSys => 1,
            FbcSessionType::Cuda => 2,
            FbcSessionType::Vid => 3,
            FbcSessionType::HwEnc => 4,
        }
    }
}

/// A clock domain of the device.
#[derive(Debug, Clone, Copy, PartialEq, Eq, Hash, Structural)]
pub enum Clock {
    Graphics,
    SM,
    Memory,
    Video,
}

impl Clock {
    /// The variant the boundary encodes as `v`, or `UnexpectedVariant`.
    pub open spec fn spec_from(v: u32) -> Result<Clock, NvmlError> {
        match v {
            0u32 => Ok(Clock::Graphics),
            1u32 => Ok(Clock::SM),
            2u32 => Ok(Clock::Memory),
            3u32 => Ok(Clock::Video),
            _ => Err(NvmlError::UnexpectedVariant { raw_tag: v }),
        }
    }

    /// Validates a raw clock domain tag.
    pub fn try_from(v: u32) -> (r: Result<Clock, NvmlError>)
        ensures
            r == Self::spec_from(v),
    {
        match v {
            0u32 => Ok(Clock::Graphics),
            1u32 => Ok(Clock::SM),
            2u32 => Ok(Clock::Memory),
            3u32 => Ok(Clock::Video),
            _ => Err(NvmlError::UnexpectedVariant { raw_tag: v }),
        }
    }

    /// The raw value the boundary defines for this variant.
    pub fn as_c(&self) -> (r: u32)
        ensures
            Self::spec_from(r) == Ok::<Clock, NvmlError>(*self),
    {
        match self {
            Clock::Graphics => 0,
            Clock::SM => 1,
            Clock::Memory => 2,
            Clock::Video => 3,
        }
    }
}

/// A device performance state: `P0` (maximum performance) down to `P15`
/// (minimum performance), or unknown.
#[derive(Debug, Clone, Copy, PartialEq, Eq, Hash, Structural)]
pub enum PerformanceState {
    Zero,
    One,
    Two,
    Three,
    Four,
    Five,
    Six,
    Seven,
    Eight,
    Nine,
    Ten,
    Eleven,
    Twelve,
    Thirteen,
    Fourteen,
    Fifteen,
    Unknown,
}

impl PerformanceState {
    /// The variant the boundary encodes as `v`, or `UnexpectedVariant`.
    pub open spec fn spec_from(v: u32) -> Result<PerformanceState, NvmlError> {
        match v {
            0u32 => Ok(PerformanceState::Zero),
            1u32 => Ok(PerformanceState::One),
            2u32 => Ok(PerformanceState::Two),
            3u32 => Ok(PerformanceState::Three),
            4u32 => Ok(PerformanceState::Four),
            5u32 => Ok(PerformanceState::Five),
            6u32 => Ok(PerformanceState::Six),
            7u32 => Ok(PerformanceState::Seven),
            8u32 => Ok(PerformanceState::Eight),
            9u32 => Ok(PerformanceState::Nine),
            10u32 => Ok(PerformanceState::Ten),
            11u32 => Ok(PerformanceState::Eleven),
            12u32 => Ok(PerformanceState::Twelve),
            13u32 => Ok(PerformanceState::Thirteen),
            14u32 => Ok(PerformanceState::Fourteen),
            15u32 => Ok(PerformanceState::Fifteen),
            32u32 => Ok(PerformanceState::Unknown),
            _ => Err(NvmlError::UnexpectedVariant { raw_tag: v }),
        }
    }

    /// Validates a raw performance state tag.
    pub fn try_from(v: u32) -> (r: Result<PerformanceState, NvmlError>)
        ensures
            r == Self::spec_from(v),
    {
        match v {
            0u32 => Ok(PerformanceState::Zero),
            1u32 => Ok(PerformanceState::One),
            2u32 => Ok(PerformanceState::Two),
            3u32 => Ok(PerformanceState::Three),
            4u32 => Ok(PerformanceState::Four),
            5u32 => Ok(PerformanceState::Five),
            6u32 => Ok(PerformanceState::Six),
            7u32 => Ok(PerformanceState::Seven),
            8u32 => Ok(PerformanceState::Eight),
            9u32 => Ok(PerformanceState::Nine),
            10u32 => Ok(PerformanceState::Ten),
            11u32 => Ok(PerformanceState::Eleven),
            12u32 => Ok(PerformanceState::Twelve),
            13u32 => Ok(PerformanceState::Thirteen),
            14u32 => Ok(PerformanceState::Fourteen),
            15u32 => Ok(PerformanceState::Fifteen),
            32u32 => Ok(PerformanceState::Unknown),
            _ => Err(NvmlError::UnexpectedVariant { raw_tag: v }),
        }
    }

    /// The raw value the boundary defines for this variant.
    pub fn as_c(&self) -> (r: u32)
        ensures
            Self::spec_from(r) == Ok::<PerformanceState, NvmlError>(*self),
    {
        match self {
            PerformanceState::Zero => 0,
            PerformanceState::One => 1,
            PerformanceState::Two => 2,
            PerformanceState::Three => 3,
            PerformanceState::Four => 4,
            PerformanceState::Five => 5,
            PerformanceState::Six => 6,
            PerformanceState::Seven => 7,
            PerformanceState::Eight => 8,
            PerformanceState::Nine => 9,
            PerformanceState::Ten => 10,
            PerformanceState::Eleven => 11,
            PerformanceState::Twelve => 12,
            PerformanceState::Thirteen => 13,
            PerformanceState::Fourteen => 14,
            PerformanceState::Fifteen => 15,
            PerformanceState::Unknown => 32,
        }
    }
}

/// The discriminant naming which arm of a raw sample value union is active.
#[derive(Debug, Clone, Copy, PartialEq, Eq, Hash, Structural)]
pub enum SampleValueType {
    Double,
    UnsignedInt,
    UnsignedLong,
    UnsignedLongLong,
    SignedLongLong,
    SignedInt,
}

impl SampleValueType {
    /// The variant the boundary encodes as `v`, or `UnexpectedVariant`.
    pub open spec fn spec_from(v: u32) -> Result<SampleValueType, NvmlError> {
        match v {
            0u32 => Ok(SampleValueType::Double),
            1u32 => Ok(SampleValueType::UnsignedInt),
            2u32 => Ok(SampleValueType::UnsignedLong),
            3u32 => Ok(SampleValueType::UnsignedLongLong),
            4u32 => Ok(SampleValueType::SignedLongLong),
            5u32 => Ok(SampleValueType::SignedInt),
            _ => Err(NvmlError::UnexpectedVariant { raw_tag: v }),
        }
    }

    /// Validates a raw sample value type tag.
    pub fn try_from(v: u32) -> (r: Result<SampleValueType, NvmlError>)
        ensures
            r == Self::spec_from(v),
    {
        match v {
            0u32 => Ok(SampleValueType::Double),
            1u32 => Ok(SampleValueType::UnsignedInt),
            2u32 => Ok(SampleValueType::UnsignedLong),
            3u32 => Ok(SampleValueType::UnsignedLongLong),
            4u32 => Ok(SampleValueType::SignedLongLong),
            5u32 => Ok(SampleValueType::SignedInt),
            _ => Err(NvmlError::UnexpectedVariant { raw_tag: v }),
        }
    }

    /// The raw value the boundary defines for this variant.
    pub fn as_c(&self) -> (r: u32)
        ensures
            Self::spec_from(r) == Ok::<SampleValueType, NvmlError>(*self),
    {
        match self {
            SampleValueType::Double => 0,
            SampleValueType::UnsignedInt => 1,
            SampleValueType::UnsignedLong => 2,
            SampleValueType::UnsignedLongLong => 3,
            SampleValueType::SignedLongLong => 4,
            SampleValueType::SignedInt => 5,
        }
    }
}

} // verus!
