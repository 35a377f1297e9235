//! Little-endian views of fixed-layout byte storage.
//!
//! Raw union payloads arrive as plain byte blocks; the functions here read
//! and write the integer fields that the record layouts declare, each proved
//! against a direct arithmetic specification of the little-endian value.

use vstd::prelude::*;

verus! {

/// The little-endian 32-bit value stored at `off` in `b`.
pub open spec fn spec_u32_le(b: Seq<u8>, off: int) -> int
    recommends
        0 <= off,
        off + 4 <= b.len(),
{
    b[off] + b[off + 1] * 0x100 + b[off + 2] * 0x1_0000 + b[off + 3] * 0x100_0000
}

/// The little-endian 64-bit value stored at `off` in `b`.
pub open spec fn spec_u64_le(b: Seq<u8>, off: int) -> int
    recommends
        0 <= off,
        off + 8 <= b.len(),
{
    b[off] + b[off + 1] * 0x100 + b[off + 2] * 0x1_0000 + b[off + 3] * 0x100_0000 + b[off + 4]
        * 0x1_0000_0000 + b[off + 5] * 0x100_0000_0000 + b[off + 6] * 0x1_0000_0000_0000 + b[off
        + 7] * 0x100_0000_0000_0000
}

/// The two's-complement reading of an unsigned 32-bit value.
pub open spec fn spec_to_i32(u: int) -> int
    recommends
        0 <= u < 0x1_0000_0000,
{
    if u < 0x8000_0000 {
        u
    } else {
        u - 0x1_0000_0000
    }
}

/// The two's-complement reading of an unsigned 64-bit value.
pub open spec fn spec_to_i64(u: int) -> int
    recommends
        0 <= u < 0x1_0000_0000_0000_0000,
{
    if u < 0x8000_0000_0000_0000 {
        u
    } else {
        u - 0x1_0000_0000_0000_0000
    }
}

/// Reads the little-endian `u32` at `off`.
pub fn read_u32_le(b: &Vec<u8>, off: usize) -> (r: u32)
    requires
        off + 4 <= b@.len(),
    ensures
        r == spec_u32_le(b@, off as int),
{
    // Calling len pins the byte count into usize range, so the offsets below
    // cannot overflow.
    let n: usize = b.len();
    assert(off + 4 <= n);
    (b[off] as u32) + (b[off + 1] as u32) * 0x100 + (b[off + 2] as u32) * 0x1_0000 + (b[off
        + 3] as u32) * 0x100_0000
}

/// Reads the little-endian `u64` at `off`.
pub fn read_u64_le(b: &Vec<u8>, off: usize) -> (r: u64)
    requires
        off + 8 <= b@.len(),
    ensures
        r == spec_u64_le(b@, off as int),
{
    // Calling len pins the byte count into usize range, so the offsets below
    // cannot overflow.
    let n: usize = b.len();
    assert(off + 8 <= n);
    (b[off] as u64) + (b[off + 1] as u64) * 0x100 + (b[off + 2] as u64) * 0x1_0000 + (b[off
        + 3] as u64) * 0x100_0000 + (b[off + 4] as u64) * 0x1_0000_0000 + (b[off + 5] as u64)
        * 0x100_0000_0000 + (b[off + 6] as u64) * 0x1_0000_0000_0000 + (b[off + 7] as u64)
        * 0x100_0000_0000_0000
}

/// Reads the little-endian `i32` at `off` (two's complement).
pub fn read_i32_le(b: &Vec<u8>, off: usize) -> (r: i32)
    requires
        off + 4 <= b@.len(),
    ensures
        r == spec_to_i32(spec_u32_le(b@, off as int)),
{
    let u = read_u32_le(b, off);
    if u < 0x8000_0000 {
        u as i32
    } else {
        let excess: u32 = u - 0x8000_0000;
        (excess as i32) + (-0x7FFF_FFFF - 1)
    }
}

/// Reads the little-endian `i64` at `off` (two's complement).
pub fn read_i64_le(b: &Vec<u8>, off: usize) -> (r: i64)
    requires
        off + 8 <= b@.len(),
    ensures
        r == spec_to_i64(spec_u64_le(b@, off as int)),
{
    let u = read_u64_le(b, off);
    if u < 0x8000_0000_0000_0000 {
        u as i64
    } else {
        let excess: u64 = u - 0x8000_0000_0000_0000;
        (excess as i64) + (-0x7FFF_FFFF_FFFF_FFFF - 1)
    }
}

/// Appends the 4 little-endian bytes of `v` to `out`.
pub fn write_u32_le(out: &mut Vec<u8>, v: u32)
    ensures
        final(out)@.len() == old(out)@.len() + 4,
        final(out)@.subrange(0, old(out)@.len() as int) == old(out)@,
        spec_u32_le(final(out)@, old(out)@.len() as int) == v,
{
    proof {
        assert(v == (v % 0x100) + ((v / 0x100) % 0x100) * 0x100 + ((v / 0x1_0000) % 0x100)
            * 0x1_0000 + (v / 0x100_0000) * 0x100_0000 && v / 0x100_0000 < 0x100) by (bit_vector);
    }
    let b0: u8 = (v % 0x100) as u8;
    let b1: u8 = ((v / 0x100) % 0x100) as u8;
    let b2: u8 = ((v / 0x1_0000) % 0x100) as u8;
    let b3: u8 = (v / 0x100_0000) as u8;
    out.push(b0);
    out.push(b1);
    out.push(b2);
    out.push(b3);
    proof {
        assert(out@.subrange(0, old(out)@.len() as int) =~= old(out)@);
    }
}

/// A buffer of `n` zero bytes.
pub fn zeroed_bytes(n: usize) -> (r: Vec<u8>)
    ensures
        r@ == Seq::new(n as nat, |i: int| 0u8),
{
    let mut out: Vec<u8> = Vec::new();
    let mut i: usize = 0;
    while i < n
        invariant
            i <= n,
            out@.len() == i,
            forall|j: int| 0 <= j < i ==> out@[j] == 0u8,
        decreases n - i,
    {
        out.push(0u8);
        i = i + 1;
    }
    proof {
        assert(out@ =~= Seq::new(n as nat, |i: int| 0u8));
    }
    out
}

/// The little-endian 4-byte image of `v`.
pub fn u32_to_le(v: u32) -> (r: Vec<u8>)
    ensures
        r@.len() == 4,
        spec_u32_le(r@, 0) == v,
{
    let mut out: Vec<u8> = Vec::new();
    write_u32_le(&mut out, v);
    out
}

/// Eight bytes holding `lo` at offset 0 and `hi` at offset 4, little endian.
pub fn u32_pair_to_le(lo: u32, hi: u32) -> (r: Vec<u8>)
    ensures
        r@.len() == 8,
        spec_u32_le(r@, 0) == lo,
        spec_u32_le(r@, 4) == hi,
{
    let mut out: Vec<u8> = Vec::new();
    write_u32_le(&mut out, lo);
    let ghost mid = out@;
    write_u32_le(&mut out, hi);
    proof {
        assert(out@.subrange(0, 4) == mid);
        assert(out@[0] == mid[0] && out@[1] == mid[1] && out@[2] == mid[2] && out@[3] == mid[3]);
    }
    out
}

} // verus!
