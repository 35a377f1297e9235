//! Fixed-capacity text buffers with implicit termination.
//!
//! The boundary stores identifiers in byte buffers of a fixed declared
//! capacity, terminated by the first zero byte or by the end of the buffer.
//! Decoding takes the bytes before the terminator and validates them as
//! UTF-8 text; encoding appends a terminator and zero padding, and refuses
//! to truncate a value that does not fit — truncation would silently corrupt
//! an identifier.

use crate::error::NvmlError;
use vstd::prelude::*;
use vstd::string::{StrSliceExecFns, StringSliceAdditionalSpecFns};
use vstd::utf8::{decode_utf8, valid_utf8};

verus! {

/// The index of the first zero byte in `b`, or `b.len()` when none occurs.
pub open spec fn spec_first_nul(b: Seq<u8>) -> int
    decreases b.len(),
{
    if b.len() == 0 {
        0
    } else if b[0] == 0 {
        0
    } else {
        1 + spec_first_nul(b.drop_first())
    }
}

/// The bytes of `b` before its terminator.
pub open spec fn spec_nul_prefix(b: Seq<u8>) -> Seq<u8> {
    b.take(spec_first_nul(b))
}

/// What decoding a fixed buffer yields: the text before the terminator, or
/// `InvalidEncoding` when those bytes are not well-formed UTF-8.
pub open spec fn spec_decode(b: Seq<u8>) -> Result<Seq<char>, NvmlError> {
    if valid_utf8(spec_nul_prefix(b)) {
        Ok(decode_utf8(spec_nul_prefix(b)))
    } else {
        Err(NvmlError::InvalidEncoding)
    }
}

/// What encoding text into a buffer of the given capacity yields: the
/// encoded bytes followed by a terminator and zero padding to exactly the
/// capacity; `InvalidValue` for an embedded zero byte (ambiguous
/// termination), and `ValueTooLarge` when the encoded bytes plus the
/// terminator exceed the capacity.
pub open spec fn spec_encode(s: Seq<char>, capacity: usize) -> Result<Seq<u8>, NvmlError> {
    let eb = vstd::utf8::encode_utf8(s);
    if eb.contains(0u8) {
        Err(NvmlError::InvalidValue)
    } else if eb.len() + 1 > capacity {
        Err(
            NvmlError::ValueTooLarge {
                max_len: capacity,
                actual_len: if eb.len() + 1 <= usize::MAX {
                    (eb.len() + 1) as usize
                } else {
                    usize::MAX
                },
            },
        )
    } else {
        Ok(eb + Seq::new((capacity - eb.len()) as nat, |i: int| 0u8))
    }
}

/// `spec_first_nul` names the index whose prefix is zero-free and which
/// either ends the buffer or holds a zero byte.
pub proof fn lemma_first_nul_is(b: Seq<u8>, i: int)
    requires
        0 <= i <= b.len(),
        forall|j: int| 0 <= j < i ==> b[j] != 0,
        i == b.len() || b[i] == 0,
    ensures
        spec_first_nul(b) == i,
    decreases b.len(),
{
    if b.len() == 0 {
    } else if b[0] == 0 {
        assert(i == 0);
    } else {
        assert(i >= 1);
        let rest = b.drop_first();
        assert(forall|j: int| 0 <= j < i - 1 ==> rest[j] != 0);
        lemma_first_nul_is(rest, i - 1);
    }
}

/// A buffer made of a zero-free prefix, a terminator and arbitrary tail
/// terminates exactly at that prefix.
pub proof fn lemma_first_nul_terminated(prefix: Seq<u8>, tail: Seq<u8>)
    requires
        !prefix.contains(0u8),
        tail.len() > 0,
        tail[0] == 0,
    ensures
        spec_first_nul(prefix + tail) == prefix.len(),
        spec_nul_prefix(prefix + tail) == prefix,
{
    let b = prefix + tail;
    assert(forall|j: int| 0 <= j < prefix.len() ==> b[j] != 0);
    lemma_first_nul_is(b, prefix.len() as int);
    assert(spec_nul_prefix(b) =~= prefix);
}

/// Relies on `String::from_utf8`: construction succeeds exactly on valid
/// UTF-8 input and yields the text those bytes encode — the same behaviour
/// vstd's specification of `str::from_utf8_unchecked` describes, extended
/// with failure on invalid input as the function's documentation states.
#[verifier::external_body]
fn string_from_utf8(v: Vec<u8>) -> (r: Option<String>)
    ensures
        r is Some <==> valid_utf8(v@),
        r matches Some(s) ==> s@ == decode_utf8(v@),
{
    String::from_utf8(v).ok()
}

/// Decodes a fixed-capacity buffer: the bytes before the first zero byte (or
/// the whole buffer when none occurs) must be well-formed UTF-8 text.
pub fn decode_string_buffer(buf: &Vec<u8>) -> (r: Result<String, NvmlError>)
    ensures
        r is Ok <==> spec_decode(buf@) is Ok,
        r matches Ok(s) ==> spec_decode(buf@) == Ok::<Seq<char>, NvmlError>(s@),
        r matches Err(e) ==> e == NvmlError::InvalidEncoding,
{
    let n: usize = buf.len();
    let mut i: usize = 0;
    while i < n && buf[i] != 0
        invariant
            0 <= i <= n,
            n == buf@.len(),
            forall|j: int| 0 <= j < i ==> buf@[j] != 0,
        decreases n - i,
    {
        i = i + 1;
    }
    proof {
        lemma_first_nul_is(buf@, i as int);
    }
    let mut prefix: Vec<u8> = Vec::new();
    let mut j: usize = 0;
    while j < i
        invariant
            0 <= j <= i <= buf@.len(),
            prefix@ == buf@.take(j as int),
        decreases i - j,
    {
        let b = buf[j];
        prefix.push(b);
        proof {
            assert(prefix@ =~= buf@.take(j + 1));
        }
        j = j + 1;
    }
    match string_from_utf8(prefix) {
        Some(s) => Ok(s),
        None => Err(NvmlError::InvalidEncoding),
    }
}

/// Encodes text into a buffer of exactly `capacity` bytes: the UTF-8 bytes,
/// one terminator, then zero padding. Fails with `InvalidValue` on an
/// embedded zero byte and with `ValueTooLarge` when the text plus terminator
/// does not fit.
pub fn encode_string_buffer(s: &str, capacity: usize) -> (r: Result<Vec<u8>, NvmlError>)
    ensures
        r is Ok <==> spec_encode(s@, capacity) is Ok,
        r matches Ok(v) ==> spec_encode(s@, capacity) == Ok::<Seq<u8>, NvmlError>(v@),
        r matches Err(e) ==> spec_encode(s@, capacity) == Err::<Seq<u8>, NvmlError>(e),
{
    let bytes: Vec<u8> = s.as_bytes_vec();
    let m: usize = bytes.len();
    let mut i: usize = 0;
    while i < m
        invariant
            0 <= i <= m,
            m == bytes@.len(),
            bytes@ == s.spec_bytes(),
            forall|j: int| 0 <= j < i ==> bytes@[j] != 0,
        decreases m - i,
    {
        if bytes[i] == 0 {
            return Err(NvmlError::InvalidValue);
        }
        i = i + 1;
    }
    if m >= capacity {
        let actual: usize = if m < usize::MAX {
            m + 1
        } else {
            usize::MAX
        };
        return Err(NvmlError::ValueTooLarge { max_len: capacity, actual_len: actual });
    }
    let mut out: Vec<u8> = bytes;
    while out.len() < capacity
        invariant
            out@.len() <= capacity,
            out@.subrange(0, m as int) == s.spec_bytes(),
            m <= out@.len(),
            forall|j: int| m <= j < out@.len() ==> out@[j] == 0u8,
        decreases capacity - out@.len(),
    {
        out.push(0u8);
        proof {
            assert(out@.subrange(0, m as int) =~= s.spec_bytes());
        }
    }
    proof {
        let eb = vstd::utf8::encode_utf8(s@);
        assert(out@ =~= eb + Seq::new((capacity - eb.len()) as nat, |k: int| 0u8));
    }
    Ok(out)
}

} // verus!
