//! Little-endian readers for the fixed-width fields of the record layout.
//!
//! Every multi-byte field of the record is stored little-endian; signed
//! fields use the two's-complement interpretation of the unsigned value read
//! from the same bytes.

use vstd::bytes::spec_u128_from_le_bytes;
use vstd::bytes::spec_u32_from_le_bytes;
use vstd::bytes::spec_u64_from_le_bytes;
use vstd::bytes::u128_from_le_bytes;
use vstd::bytes::u32_from_le_bytes;
use vstd::bytes::u64_from_le_bytes;
use vstd::prelude::*;
use vstd::slice::slice_subrange;
use vstd::slice::slice_to_vec;

verus! {

/// The signed value whose 64-bit two's-complement pattern is `x`.
pub open spec fn spec_i64_from_u64(x: u64) -> int {
    if x >= 0x8000_0000_0000_0000 {
        x - 0x1_0000_0000_0000_0000
    } else {
        x as int
    }
}

/// The signed value whose 128-bit two's-complement pattern is `x`.
pub open spec fn spec_i128_from_u128(x: u128) -> int {
    if x >= 0x8000_0000_0000_0000_0000_0000_0000_0000 {
        x - 0x1_0000_0000_0000_0000_0000_0000_0000_0000
    } else {
        x as int
    }
}

/// The unsigned 32-bit field stored little-endian at `off`.
pub open spec fn le_u32(s: Seq<u8>, off: int) -> u32 {
    spec_u32_from_le_bytes(s.subrange(off, off + 4))
}

/// The unsigned 64-bit field stored little-endian at `off`.
pub open spec fn le_u64(s: Seq<u8>, off: int) -> u64 {
    spec_u64_from_le_bytes(s.subrange(off, off + 8))
}

/// The signed 64-bit field stored little-endian at `off`.
pub open spec fn le_i64(s: Seq<u8>, off: int) -> int {
    spec_i64_from_u64(le_u64(s, off))
}

/// The signed 128-bit field stored little-endian at `off`.
pub open spec fn le_i128(s: Seq<u8>, off: int) -> int {
    spec_i128_from_u128(spec_u128_from_le_bytes(s.subrange(off, off + 16)))
}

/// Reinterprets an unsigned 64-bit pattern as its two's-complement value.
pub fn i64_from_twos_complement(x: u64) -> (r: i64)
    ensures
        r as int == spec_i64_from_u64(x),
{
    if x >= 0x8000_0000_0000_0000 {
        let d: u64 = u64::MAX - x;
        -(d as i64) - 1
    } else {
        x as i64
    }
}

/// Reinterprets an unsigned 128-bit pattern as its two's-complement value.
pub fn i128_from_twos_complement(x: u128) -> (r: i128)
    ensures
        r as int == spec_i128_from_u128(x),
{
    if x >= 0x8000_0000_0000_0000_0000_0000_0000_0000 {
        let d: u128 = u128::MAX - x;
        -(d as i128) - 1
    } else {
        x as i128
    }
}

/// Reads the unsigned 32-bit field at `off`.
pub fn read_u32_le(data: &[u8], off: usize) -> (r: u32)
    requires
        off + 4 <= data@.len(),
    ensures
        r == le_u32(data@, off as int),
{
    let total: usize = data.len();
    proof {
        assert(off + 4 <= total);
    }
    u32_from_le_bytes(slice_subrange(data, off, off + 4))
}

/// Reads the unsigned 64-bit field at `off`.
pub fn read_u64_le(data: &[u8], off: usize) -> (r: u64)
    requires
        off + 8 <= data@.len(),
    ensures
        r == le_u64(data@, off as int),
{
    let total: usize = data.len();
    proof {
        assert(off + 8 <= total);
    }
    u64_from_le_bytes(slice_subrange(data, off, off + 8))
}

/// Reads the signed 64-bit field at `off`.
pub fn read_i64_le(data: &[u8], off: usize) -> (r: i64)
    requires
        off + 8 <= data@.len(),
    ensures
        r as int == le_i64(data@, off as int),
{
    let x = read_u64_le(data, off);
    i64_from_twos_complement(x)
}

/// Reads the signed 128-bit field at `off`.
pub fn read_i128_le(data: &[u8], off: usize) -> (r: i128)
    requires
        off + 16 <= data@.len(),
    ensures
        r as int == le_i128(data@, off as int),
{
    let total: usize = data.len();
    proof {
        assert(off + 16 <= total);
    }
    let x = u128_from_le_bytes(slice_subrange(data, off, off + 16));
    i128_from_twos_complement(x)
}

/// Copies the `len` raw bytes at `off` out of the buffer.
pub fn read_bytes(data: &[u8], off: usize, len: usize) -> (r: Vec<u8>)
    requires
        off + len <= data@.len(),
    ensures
        r@ == data@.subrange(off as int, off as int + len as int),
{
    let total: usize = data.len();
    proof {
        assert(off + len <= total);
    }
    slice_to_vec(slice_subrange(data, off, off + len))
}

} // verus!
