use nvml_wrapper::bytes::{read_i32_le, read_i64_le, read_u32_le, read_u64_le, u32_pair_to_le,
    u32_to_le, zeroed_bytes};
use nvml_wrapper::error::NvmlError;
use nvml_wrapper::flags::{FbcFlags, FBC_FLAGS_ALL, FBC_FLAG_CAPTURE_WITH_WAIT_INFINITE,
    FBC_FLAG_DIFFMAP_ENABLED};
use nvml_wrapper::sentinel::{decode_u32_field, decode_u64_field, encode_u32_field,
    encode_u64_field, ABSENT_HANDLE, VALUE_NOT_AVAILABLE_U32, VALUE_NOT_AVAILABLE_U64};
use nvml_wrapper::strbuf::{decode_string_buffer, encode_string_buffer};

#[test]
fn encode_pads_to_capacity() {
    let buf = encode_string_buffer("abc", 8).expect("fits");
    assert_eq!(buf, vec![97, 98, 99, 0, 0, 0, 0, 0]);
}

#[test]
fn encode_decode_round_trip() {
    let buf = encode_string_buffer("0000:00:1e.0", 32).expect("fits");
    assert_eq!(buf.len(), 32);
    let s = decode_string_buffer(&buf).expect("valid text");
    assert_eq!(s, "0000:00:1e.0");
}

#[test]
fn encode_exact_capacity_succeeds() {
    // 7 bytes of text plus the terminator exactly fill 8 bytes.
    let buf = encode_string_buffer("abcdefg", 8).expect("exact fit");
    assert_eq!(buf, vec![97, 98, 99, 100, 101, 102, 103, 0]);
}

#[test]
fn encode_one_over_capacity_fails() {
    let r = encode_string_buffer("abcdefgh", 8);
    assert_eq!(r, Err(NvmlError::ValueTooLarge { max_len: 8, actual_len: 9 }));
}

#[test]
fn encode_embedded_nul_fails() {
    let r = encode_string_buffer("ab\0cd", 16);
    assert_eq!(r, Err(NvmlError::InvalidValue));
}

#[test]
fn encode_multibyte_text_counts_bytes() {
    // "é" encodes as two bytes, so three of them need 6 bytes + terminator.
    let r = encode_string_buffer("ééé", 6);
    assert_eq!(r, Err(NvmlError::ValueTooLarge { max_len: 6, actual_len: 7 }));
    let buf = encode_string_buffer("ééé", 7).expect("exact fit");
    assert_eq!(buf.len(), 7);
    assert_eq!(decode_string_buffer(&buf).expect("valid text"), "ééé");
}

#[test]
fn decode_stops_at_first_nul() {
    let buf = vec![104, 105, 0, 120, 121, 122];
    assert_eq!(decode_string_buffer(&buf).expect("valid text"), "hi");
}

#[test]
fn decode_unterminated_buffer_reads_all() {
    let buf = vec![104, 105];
    assert_eq!(decode_string_buffer(&buf).expect("valid text"), "hi");
}

#[test]
fn decode_leading_nul_is_empty() {
    let buf = vec![0, 104, 105];
    assert_eq!(decode_string_buffer(&buf).expect("valid text"), "");
}

#[test]
fn decode_invalid_utf8_fails() {
    let buf = vec![0xFF, 0xFE, 0];
    assert_eq!(decode_string_buffer(&buf), Err(NvmlError::InvalidEncoding));
}

#[test]
fn sentinel_u32_absent_and_present() {
    assert_eq!(decode_u32_field(VALUE_NOT_AVAILABLE_U32, VALUE_NOT_AVAILABLE_U32), None);
    assert_eq!(decode_u32_field(42, VALUE_NOT_AVAILABLE_U32), Some(42));
    // A handle-like field treats zero, not all-ones, as absent.
    assert_eq!(decode_u32_field(0, ABSENT_HANDLE), None);
    assert_eq!(decode_u32_field(VALUE_NOT_AVAILABLE_U32, ABSENT_HANDLE),
        Some(VALUE_NOT_AVAILABLE_U32));
}

#[test]
fn sentinel_u64_absent_and_present() {
    assert_eq!(decode_u64_field(VALUE_NOT_AVAILABLE_U64, VALUE_NOT_AVAILABLE_U64), None);
    assert_eq!(decode_u64_field(7, VALUE_NOT_AVAILABLE_U64), Some(7));
}

#[test]
fn sentinel_encode_inverse() {
    assert_eq!(encode_u32_field(None, VALUE_NOT_AVAILABLE_U32), VALUE_NOT_AVAILABLE_U32);
    assert_eq!(encode_u32_field(Some(9), VALUE_NOT_AVAILABLE_U32), 9);
    assert_eq!(encode_u64_field(None, VALUE_NOT_AVAILABLE_U64), VALUE_NOT_AVAILABLE_U64);
    assert_eq!(encode_u64_field(Some(9), VALUE_NOT_AVAILABLE_U64), 9);
}

#[test]
fn flags_known_bits_accepted() {
    let f = FbcFlags::from_bits(FBC_FLAG_DIFFMAP_ENABLED | FBC_FLAG_CAPTURE_WITH_WAIT_INFINITE)
        .expect("known bits");
    assert_eq!(f.bits(), 0x09);
    assert!(f.contains(FBC_FLAG_DIFFMAP_ENABLED));
    assert!(!f.contains(0x02));
    let all = FbcFlags::from_bits(FBC_FLAGS_ALL).expect("known bits");
    assert_eq!(all.bits(), FBC_FLAGS_ALL);
    assert_eq!(FbcFlags::from_bits(0).expect("empty set").bits(), 0);
}

#[test]
fn flags_unknown_bits_rejected() {
    assert_eq!(FbcFlags::from_bits(0x20), None);
    assert_eq!(FbcFlags::from_bits(0x1F | 0x40), None);
    assert_eq!(FbcFlags::from_bits(0x8000_0000), None);
}

#[test]
fn read_little_endian_integers() {
    let b = vec![0x78, 0x56, 0x34, 0x12, 0xEF, 0xCD, 0xAB, 0x90];
    assert_eq!(read_u32_le(&b, 0), 0x1234_5678);
    assert_eq!(read_u32_le(&b, 4), 0x90AB_CDEF);
    assert_eq!(read_u64_le(&b, 0), 0x90AB_CDEF_1234_5678);
    let neg = vec![0xFF, 0xFF, 0xFF, 0xFF, 0xFF, 0xFF, 0xFF, 0xFF];
    assert_eq!(read_i32_le(&neg, 0), -1);
    assert_eq!(read_i64_le(&neg, 0), -1);
    let min32 = vec![0, 0, 0, 0x80];
    assert_eq!(read_i32_le(&min32, 0), i32::MIN);
    let min64 = vec![0, 0, 0, 0, 0, 0, 0, 0x80];
    assert_eq!(read_i64_le(&min64, 0), i64::MIN);
}

#[test]
fn write_little_endian_integers() {
    assert_eq!(u32_to_le(0x1234_5678), vec![0x78, 0x56, 0x34, 0x12]);
    assert_eq!(u32_pair_to_le(0x1234_5678, 0x90AB_CDEF),
        vec![0x78, 0x56, 0x34, 0x12, 0xEF, 0xCD, 0xAB, 0x90]);
    assert_eq!(zeroed_bytes(3), vec![0, 0, 0]);
    let b = u32_pair_to_le(7, 9);
    assert_eq!(read_u32_le(&b, 0), 7);
    assert_eq!(read_u32_le(&b, 4), 9);
}
