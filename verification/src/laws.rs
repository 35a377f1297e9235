//! Crate-wide laws: properties that relate several functions, each proved
//! from the specifications the codecs publish.

use crate::device::{
    lemma_decode_chips_all_ok, lemma_decode_chips_error_extends, lemma_field_values_all_ok,
    spec_chip, spec_decode_chips, spec_field_value, spec_field_values, FieldValueSample,
    RawBridgeChipInfo, RawFieldValue,
};
use crate::enums::SampleValueType;
use crate::error::NvmlError;
use crate::flags::{FbcFlags, FBC_FLAGS_ALL};
use crate::strbuf::{lemma_first_nul_terminated, spec_decode, spec_encode};
use vstd::prelude::*;
use vstd::utf8::{encode_utf8, encode_utf8_decode_utf8, encode_utf8_valid_utf8};

verus! {

/// Round-trip identity: any text whose encoding plus terminator fits the
/// buffer's capacity encodes successfully, and decoding that buffer yields
/// the text back unchanged.
pub proof fn lemma_string_buffer_round_trip(s: Seq<char>, capacity: usize)
    requires
        !encode_utf8(s).contains(0u8),
        encode_utf8(s).len() + 1 <= capacity,
    ensures
        spec_encode(s, capacity) matches Ok(buf) && spec_decode(buf) == Ok::<
            Seq<char>,
            NvmlError,
        >(s),
{
    broadcast use encode_utf8_valid_utf8, encode_utf8_decode_utf8;

    let eb = encode_utf8(s);
    let pad = Seq::new((capacity - eb.len()) as nat, |i: int| 0u8);
    lemma_first_nul_terminated(eb, pad);
}

/// Capacity boundary: encoding text whose encoded length plus terminator
/// exactly equals the capacity succeeds; exceeding the capacity by one byte
/// fails with `ValueTooLarge` carrying the over-capacity length.
pub proof fn lemma_capacity_boundary(s: Seq<char>, capacity: usize)
    requires
        !encode_utf8(s).contains(0u8),
        capacity < usize::MAX,
    ensures
        encode_utf8(s).len() + 1 == capacity ==> spec_encode(s, capacity) is Ok,
        encode_utf8(s).len() + 1 == capacity + 1 ==> spec_encode(s, capacity) == Err::<
            Seq<u8>,
            NvmlError,
        >(NvmlError::ValueTooLarge { max_len: capacity, actual_len: (capacity + 1) as usize }),
{
}

/// Flag validation totality: every raw bit pattern either validates to a
/// flag set that keeps exactly its bits — all inside the known flag set, no
/// information lost — or is rejected outright for holding unknown bits.
pub proof fn lemma_flag_validation_totality(raw: u32)
    ensures
        FbcFlags::spec_from_bits(raw) matches Some(f) ==> f.spec_bits() == raw && f.spec_bits()
            & FBC_FLAGS_ALL == f.spec_bits(),
        FbcFlags::spec_from_bits(raw) is None <==> raw & FBC_FLAGS_ALL != raw,
{
}

/// Fail-fast ordering: when the first failing entry of a raw record array
/// sits at index `i`, decoding the array yields exactly that entry's error —
/// never a partial sequence.
pub proof fn lemma_array_fail_fast(s: Seq<RawBridgeChipInfo>, i: int, e: NvmlError)
    requires
        0 <= i < s.len(),
        spec_chip(s[i]) == Err::<crate::device::BridgeChipInfo, NvmlError>(e),
        forall|j: int| 0 <= j < i ==> spec_chip(#[trigger] s[j]) is Ok,
    ensures
        spec_decode_chips(s) == Err::<Seq<crate::device::BridgeChipInfo>, NvmlError>(e),
{
    lemma_decode_chips_all_ok(s.take(i));
    lemma_decode_chips_error_extends(s, i, s.len() as int, e);
    assert(s.take(s.len() as int) =~= s);
}

/// Discriminant-first safety: with an unrecognized value type tag, a field
/// value record decodes to `UnexpectedVariant` whatever its payload bytes
/// hold — two records differing only in payload decode identically.
pub proof fn lemma_discriminant_first_safety(r1: RawFieldValue, r2: RawFieldValue)
    requires
        r1.nvml_return == 0,
        r2.nvml_return == 0,
        r1.value_type == r2.value_type,
        SampleValueType::spec_from(r1.value_type) is Err,
    ensures
        spec_field_value(r1) == spec_field_value(r2),
        spec_field_value(r1) == Err::<FieldValueSample, NvmlError>(
            NvmlError::UnexpectedVariant { raw_tag: r1.value_type },
        ),
{
}

/// Per-field containment: a batch whose entries all carry known value type
/// tags decodes as a whole, one result per request; an entry whose own
/// status reports failure is contained as `FieldUnavailable` in its slot
/// while every other slot holds its present value.
pub proof fn lemma_per_field_containment(s: Seq<RawFieldValue>, k: int)
    requires
        0 <= k < s.len(),
        forall|j: int| 0 <= j < s.len() ==> SampleValueType::spec_from(
            (#[trigger] s[j]).value_type,
        ) is Ok,
        s[k].nvml_return != 0,
        forall|j: int| 0 <= j < s.len() && j != k ==> (#[trigger] s[j]).nvml_return == 0,
    ensures
        spec_field_values(s) matches Ok(vs) && vs.len() == s.len() && vs[k].value == Err::<
            crate::values::SampleValue,
            NvmlError,
        >(NvmlError::FieldUnavailable { raw_status: s[k].nvml_return }) && (forall|j: int|
            0 <= j < s.len() && j != k ==> (#[trigger] vs[j]).value is Ok),
{
    assert forall|j: int| 0 <= j < s.len() implies spec_field_value(#[trigger] s[j]) is Ok by {
        assert(SampleValueType::spec_from(s[j].value_type) is Ok);
    }
    lemma_field_values_all_ok(s);
}

} // verus!
