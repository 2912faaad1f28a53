//! Little-endian integer views of byte buffers.
//!
//! The manifest format stores every multi-byte integer little-endian.  The
//! spec functions here give each fixed-width read a name usable in
//! contracts; the executable readers are proved against them.

use vstd::bytes::{
    spec_u16_from_le_bytes, spec_u32_from_le_bytes, spec_u64_from_le_bytes, u16_from_le_bytes,
    u32_from_le_bytes, u64_from_le_bytes,
};
use vstd::prelude::*;
use vstd::slice::{slice_index_get, slice_subrange};

verus! {

/// True when `n` bytes starting at `p` lie inside `b`.
pub open spec fn in_bounds(b: Seq<u8>, p: int, n: int) -> bool {
    0 <= p && p + n <= b.len()
}

/// The `u16` stored little-endian at `p`.
pub open spec fn le16(b: Seq<u8>, p: int) -> u16
    recommends
        in_bounds(b, p, 2),
{
    spec_u16_from_le_bytes(b.subrange(p, p + 2))
}

/// The `u32` stored little-endian at `p`.
pub open spec fn le32(b: Seq<u8>, p: int) -> u32
    recommends
        in_bounds(b, p, 4),
{
    spec_u32_from_le_bytes(b.subrange(p, p + 4))
}

/// The `u64` stored little-endian at `p`.
pub open spec fn le64(b: Seq<u8>, p: int) -> u64
    recommends
        in_bounds(b, p, 8),
{
    spec_u64_from_le_bytes(b.subrange(p, p + 8))
}

/// The `i32` stored little-endian at `p`: the `u32` bits reinterpreted.
pub open spec fn le_i32(b: Seq<u8>, p: int) -> i32
    recommends
        in_bounds(b, p, 4),
{
    le32(b, p) as i32
}

/// The `i64` stored little-endian at `p`: the `u64` bits reinterpreted.
pub open spec fn le_i64(b: Seq<u8>, p: int) -> i64
    recommends
        in_bounds(b, p, 8),
{
    le64(b, p) as i64
}

/// Reads the byte at `p`.
pub(crate) fn read_u8_at(b: &[u8], p: usize) -> (r: u8)
    requires
        p < b@.len(),
    ensures
        r == b@[p as int],
{
    *slice_index_get(b, p)
}

/// Reads the `u16` stored little-endian at `p`.
pub(crate) fn read_u16_at(b: &[u8], p: usize) -> (r: u16)
    requires
        in_bounds(b@, p as int, 2),
    ensures
        r == le16(b@, p as int),
{
    let len: usize = b.len();
    assert(p + 2 <= len);
    u16_from_le_bytes(slice_subrange(b, p, p + 2))
}

/// Reads the `u32` stored little-endian at `p`.
pub(crate) fn read_u32_at(b: &[u8], p: usize) -> (r: u32)
    requires
        in_bounds(b@, p as int, 4),
    ensures
        r == le32(b@, p as int),
{
    let len: usize = b.len();
    assert(p + 4 <= len);
    u32_from_le_bytes(slice_subrange(b, p, p + 4))
}

/// Reads the `u64` stored little-endian at `p`.
pub(crate) fn read_u64_at(b: &[u8], p: usize) -> (r: u64)
    requires
        in_bounds(b@, p as int, 8),
    ensures
        r == le64(b@, p as int),
{
    let len: usize = b.len();
    assert(p + 8 <= len);
    u64_from_le_bytes(slice_subrange(b, p, p + 8))
}

/// Reads the `i32` stored little-endian at `p`.
pub(crate) fn read_i32_at(b: &[u8], p: usize) -> (r: i32)
    requires
        in_bounds(b@, p as int, 4),
    ensures
        r == le_i32(b@, p as int),
{
    let v: u32 = read_u32_at(b, p);
    #[verifier::truncate] (v as i32)
}

/// Reads the `i64` stored little-endian at `p`.
pub(crate) fn read_i64_at(b: &[u8], p: usize) -> (r: i64)
    requires
        in_bounds(b@, p as int, 8),
    ensures
        r == le_i64(b@, p as int),
{
    let v: u64 = read_u64_at(b, p);
    #[verifier::truncate] (v as i64)
}

} // verus!
