//! Bounds-checked reader for the manifest's tabular binary payload.
//!
//! The decompressed payload is a self-describing table encoding: a root
//! offset leads to a root table; every table points backwards at a vtable
//! that lists, per field, the offset of that field inside the table; fields
//! are scalars stored inline or forward offsets to strings, vectors and
//! child tables.  A field missing from a vtable takes its default value.
//!
//! Every access is bounds-checked against the buffer, so an adversarial
//! payload is rejected rather than misread; `None` anywhere means the
//! payload failed this structural validation.  The spec functions define
//! the decoding mathematically; each executable reader is proved to return
//! exactly what they name.

use crate::wire::{in_bounds, le16, le32, le64, le_i32, le_i64};
use crate::wire::{read_i64_at, read_u16_at, read_u32_at, read_u64_at, read_u8_at, read_i32_at};
use vstd::prelude::*;
use vstd::slice::{slice_subrange, slice_to_vec};
use vstd::utf8::{decode_utf8, valid_utf8};

verus! {

/// Position of the vtable of the table that starts at `t`: the stored
/// signed offset is subtracted from the table position.
pub open spec fn spec_vtable(b: Seq<u8>, t: int) -> int
    recommends
        in_bounds(b, t, 4),
{
    t - le_i32(b, t)
}

/// True when the table at `t` and its vtable lie inside the buffer and the
/// vtable is at least large enough to carry its own two length fields.
pub open spec fn spec_table_valid(b: Seq<u8>, t: int) -> bool {
    &&& in_bounds(b, t, 4)
    &&& {
        let v = spec_vtable(b, t);
        &&& in_bounds(b, v, 4)
        &&& le16(b, v) >= 4
        &&& in_bounds(b, v, le16(b, v) as int)
    }
}

/// Offset of field `i` inside the table at `t`, or 0 when the vtable does
/// not carry a slot for it (which means the field takes its default).
pub open spec fn spec_field_off(b: Seq<u8>, t: int, i: int) -> int
    recommends
        spec_table_valid(b, t),
{
    let v = spec_vtable(b, t);
    if 4 + 2 * i + 2 <= le16(b, v) {
        le16(b, v + 4 + 2 * i) as int
    } else {
        0
    }
}

/// The `u8` field `i` of the table at `t`, with default `d`.
pub open spec fn spec_field_u8(b: Seq<u8>, t: int, i: int, d: u8) -> Option<u8>
    recommends
        spec_table_valid(b, t),
{
    let off = spec_field_off(b, t, i);
    if off == 0 {
        Some(d)
    } else if in_bounds(b, t + off, 1) {
        Some(b[t + off])
    } else {
        None
    }
}

/// The `u16` field `i` of the table at `t`, with default `d`.
pub open spec fn spec_field_u16(b: Seq<u8>, t: int, i: int, d: u16) -> Option<u16>
    recommends
        spec_table_valid(b, t),
{
    let off = spec_field_off(b, t, i);
    if off == 0 {
        Some(d)
    } else if in_bounds(b, t + off, 2) {
        Some(le16(b, t + off))
    } else {
        None
    }
}

/// The `u32` field `i` of the table at `t`, with default `d`.
pub open spec fn spec_field_u32(b: Seq<u8>, t: int, i: int, d: u32) -> Option<u32>
    recommends
        spec_table_valid(b, t),
{
    let off = spec_field_off(b, t, i);
    if off == 0 {
        Some(d)
    } else if in_bounds(b, t + off, 4) {
        Some(le32(b, t + off))
    } else {
        None
    }
}

/// The `u64` field `i` of the table at `t`, with default `d`.
pub open spec fn spec_field_u64(b: Seq<u8>, t: int, i: int, d: u64) -> Option<u64>
    recommends
        spec_table_valid(b, t),
{
    let off = spec_field_off(b, t, i);
    if off == 0 {
        Some(d)
    } else if in_bounds(b, t + off, 8) {
        Some(le64(b, t + off))
    } else {
        None
    }
}

/// The `i64` field `i` of the table at `t`, with default `d`.
pub open spec fn spec_field_i64(b: Seq<u8>, t: int, i: int, d: i64) -> Option<i64>
    recommends
        spec_table_valid(b, t),
{
    let off = spec_field_off(b, t, i);
    if off == 0 {
        Some(d)
    } else if in_bounds(b, t + off, 8) {
        Some(le_i64(b, t + off))
    } else {
        None
    }
}

/// The reference field `i` of the table at `t`: `Some(None)` when the field
/// is absent, `Some(Some(p))` for a stored forward offset that lands at
/// position `p` inside the buffer, `None` when the stored offset is
/// unreadable or lands outside the buffer.
pub open spec fn spec_field_ref(b: Seq<u8>, t: int, i: int) -> Option<Option<int>>
    recommends
        spec_table_valid(b, t),
{
    let off = spec_field_off(b, t, i);
    if off == 0 {
        Some(None)
    } else if in_bounds(b, t + off, 4) {
        let target = t + off + le32(b, t + off);
        if target <= b.len() {
            Some(Some(target))
        } else {
            None
        }
    } else {
        None
    }
}

/// The string stored at `p`: a length-prefixed byte run that must be valid
/// UTF-8.
pub open spec fn spec_read_string(b: Seq<u8>, p: int) -> Option<Seq<char>> {
    if !in_bounds(b, p, 4) {
        None
    } else {
        let n = le32(b, p) as int;
        if p + 4 + n <= b.len() {
            if valid_utf8(b.subrange(p + 4, p + 4 + n)) {
                Some(decode_utf8(b.subrange(p + 4, p + 4 + n)))
            } else {
                None
            }
        } else {
            None
        }
    }
}

/// The string field `i` of the table at `t`; an absent field reads as the
/// empty string.
pub open spec fn spec_field_string(b: Seq<u8>, t: int, i: int) -> Option<Seq<char>>
    recommends
        spec_table_valid(b, t),
{
    match spec_field_ref(b, t, i) {
        Option::None => None,
        Option::Some(Option::None) => Some(Seq::empty()),
        Option::Some(Option::Some(p)) => spec_read_string(b, p),
    }
}

/// The vector of `i64` stored at `p`: a length prefix and that many
/// eight-byte elements.
pub open spec fn spec_read_vec_i64(b: Seq<u8>, p: int) -> Option<Seq<i64>> {
    if !in_bounds(b, p, 4) {
        None
    } else {
        let n = le32(b, p) as int;
        if p + 4 + 8 * n <= b.len() {
            Some(Seq::new(n as nat, |k: int| le_i64(b, p + 4 + 8 * k)))
        } else {
            None
        }
    }
}

/// The `i64`-vector field `i` of the table at `t`; an absent field reads as
/// the empty vector.
pub open spec fn spec_field_vec_i64(b: Seq<u8>, t: int, i: int) -> Option<Seq<i64>>
    recommends
        spec_table_valid(b, t),
{
    match spec_field_ref(b, t, i) {
        Option::None => None,
        Option::Some(Option::None) => Some(Seq::empty()),
        Option::Some(Option::Some(p)) => spec_read_vec_i64(b, p),
    }
}

/// The vector of table references stored at `p`: a length prefix and that
/// many four-byte forward offsets; the result holds the position each
/// element lands at, all inside the buffer.
pub open spec fn spec_read_vec_refs(b: Seq<u8>, p: int) -> Option<Seq<int>> {
    if !in_bounds(b, p, 4) {
        None
    } else {
        let n = le32(b, p) as int;
        if p + 4 + 4 * n <= b.len() {
            let elems = Seq::new(n as nat, |k: int| p + 4 + 4 * k + le32(b, p + 4 + 4 * k));
            if forall|k: int| 0 <= k < n ==> #[trigger] elems[k] <= b.len() {
                Some(elems)
            } else {
                None
            }
        } else {
            None
        }
    }
}

/// Relies on `String::from_utf8` of std: it accepts exactly the byte
/// sequences that are valid UTF-8 and decodes them to their characters,
/// the relation that vstd's UTF-8 model specifies.
#[verifier::external_body]
pub(crate) fn string_from_utf8(bytes: Vec<u8>) -> (r: Option<String>)
    ensures
        match r {
            Option::Some(s) => valid_utf8(bytes@) && s@ == decode_utf8(bytes@),
            Option::None => !valid_utf8(bytes@),
        },
{
    String::from_utf8(bytes).ok()
}

/// Validates the table at `t` and returns its vtable position.
pub(crate) fn check_table(b: &[u8], t: usize) -> (r: Option<usize>)
    requires
        b@.len() <= u32::MAX,
    ensures
        match r {
            Option::Some(v) => spec_table_valid(b@, t as int) && v == spec_vtable(b@, t as int),
            Option::None => !spec_table_valid(b@, t as int),
        },
{
    let len: usize = b.len();
    if t > len || len - t < 4 {
        return None;
    }
    let soff: i32 = read_i32_at(b, t);
    let v_signed: i64 = t as i64 - soff as i64;
    if v_signed < 0 {
        return None;
    }
    let v_wide: u64 = v_signed as u64;
    if v_wide + 4 > len as u64 {
        return None;
    }
    let v: usize = v_wide as usize;
    let vsize: u16 = read_u16_at(b, v);
    if vsize < 4 {
        return None;
    }
    if v as u64 + vsize as u64 > len as u64 {
        return None;
    }
    Some(v)
}

/// Reads the vtable slot of field `i` for the table at `t` with vtable `v`.
pub(crate) fn field_off(b: &[u8], t: usize, v: usize, i: u16) -> (r: u16)
    requires
        b@.len() <= u32::MAX,
        spec_table_valid(b@, t as int),
        v == spec_vtable(b@, t as int),
    ensures
        r as int == spec_field_off(b@, t as int, i as int),
{
    let vsize: u16 = read_u16_at(b, v);
    let slot_end: u32 = 4 + 2 * (i as u32) + 2;
    if slot_end <= vsize as u32 {
        read_u16_at(b, v + 4 + 2 * (i as usize))
    } else {
        0
    }
}

/// Reads the `u8` field `i` of the table at `t`, with default `d`.
pub(crate) fn field_u8(b: &[u8], t: usize, v: usize, i: u16, d: u8) -> (r: Option<u8>)
    requires
        b@.len() <= u32::MAX,
        spec_table_valid(b@, t as int),
        v == spec_vtable(b@, t as int),
    ensures
        r == spec_field_u8(b@, t as int, i as int, d),
{
    let off: u16 = field_off(b, t, v, i);
    if off == 0 {
        Some(d)
    } else {
        let p: u64 = t as u64 + off as u64;
        if p + 1 <= b.len() as u64 {
            Some(read_u8_at(b, p as usize))
        } else {
            None
        }
    }
}

/// Reads the `u16` field `i` of the table at `t`, with default `d`.
pub(crate) fn field_u16(b: &[u8], t: usize, v: usize, i: u16, d: u16) -> (r: Option<u16>)
    requires
        b@.len() <= u32::MAX,
        spec_table_valid(b@, t as int),
        v == spec_vtable(b@, t as int),
    ensures
        r == spec_field_u16(b@, t as int, i as int, d),
{
    let off: u16 = field_off(b, t, v, i);
    if off == 0 {
        Some(d)
    } else {
        let p: u64 = t as u64 + off as u64;
        if p + 2 <= b.len() as u64 {
            Some(read_u16_at(b, p as usize))
        } else {
            None
        }
    }
}

/// Reads the `u32` field `i` of the table at `t`, with default `d`.
pub(crate) fn field_u32(b: &[u8], t: usize, v: usize, i: u16, d: u32) -> (r: Option<u32>)
    requires
        b@.len() <= u32::MAX,
        spec_table_valid(b@, t as int),
        v == spec_vtable(b@, t as int),
    ensures
        r == spec_field_u32(b@, t as int, i as int, d),
{
    let off: u16 = field_off(b, t, v, i);
    if off == 0 {
        Some(d)
    } else {
        let p: u64 = t as u64 + off as u64;
        if p + 4 <= b.len() as u64 {
            Some(read_u32_at(b, p as usize))
        } else {
            None
        }
    }
}

/// Reads the `u64` field `i` of the table at `t`, with default `d`.
pub(crate) fn field_u64(b: &[u8], t: usize, v: usize, i: u16, d: u64) -> (r: Option<u64>)
    requires
        b@.len() <= u32::MAX,
        spec_table_valid(b@, t as int),
        v == spec_vtable(b@, t as int),
    ensures
        r == spec_field_u64(b@, t as int, i as int, d),
{
    let off: u16 = field_off(b, t, v, i);
    if off == 0 {
        Some(d)
    } else {
        let p: u64 = t as u64 + off as u64;
        if p + 8 <= b.len() as u64 {
            Some(read_u64_at(b, p as usize))
        } else {
            None
        }
    }
}

/// Reads the `i64` field `i` of the table at `t`, with default `d`.
pub(crate) fn field_i64(b: &[u8], t: usize, v: usize, i: u16, d: i64) -> (r: Option<i64>)
    requires
        b@.len() <= u32::MAX,
        spec_table_valid(b@, t as int),
        v == spec_vtable(b@, t as int),
    ensures
        r == spec_field_i64(b@, t as int, i as int, d),
{
    let off: u16 = field_off(b, t, v, i);
    if off == 0 {
        Some(d)
    } else {
        let p: u64 = t as u64 + off as u64;
        if p + 8 <= b.len() as u64 {
            Some(read_i64_at(b, p as usize))
        } else {
            None
        }
    }
}

/// Reads the reference field `i` of the table at `t` and resolves it to
/// the position it lands at.
pub(crate) fn field_ref(b: &[u8], t: usize, v: usize, i: u16) -> (r: Option<Option<usize>>)
    requires
        b@.len() <= u32::MAX,
        spec_table_valid(b@, t as int),
        v == spec_vtable(b@, t as int),
    ensures
        match r {
            Option::None => spec_field_ref(b@, t as int, i as int) is None,
            Option::Some(Option::None) => spec_field_ref(b@, t as int, i as int) == Some(
                None::<int>,
            ),
            Option::Some(Option::Some(p)) => spec_field_ref(b@, t as int, i as int) == Some(
                Some(p as int),
            ),
        },
{
    let off: u16 = field_off(b, t, v, i);
    if off == 0 {
        Some(None)
    } else {
        let p: u64 = t as u64 + off as u64;
        if p + 4 <= b.len() as u64 {
            let rel: u32 = read_u32_at(b, p as usize);
            let target: u64 = p + rel as u64;
            if target <= b.len() as u64 {
                Some(Some(target as usize))
            } else {
                None
            }
        } else {
            None
        }
    }
}

/// Reads the string at `p`.
pub(crate) fn read_string_at(b: &[u8], p: usize) -> (r: Option<String>)
    requires
        b@.len() <= u32::MAX,
    ensures
        match r {
            Option::Some(s) => spec_read_string(b@, p as int) == Some(s@),
            Option::None => spec_read_string(b@, p as int) is None,
        },
{
    let len: usize = b.len();
    if p > len || len - p < 4 {
        return None;
    }
    let n: u32 = read_u32_at(b, p);
    if p as u64 + 4 + n as u64 > len as u64 {
        return None;
    }
    let bytes: Vec<u8> = slice_to_vec(slice_subrange(b, p + 4, p + 4 + n as usize));
    string_from_utf8(bytes)
}

/// Reads the string field `i` of the table at `t`; absent reads as empty.
pub(crate) fn field_string(b: &[u8], t: usize, v: usize, i: u16) -> (r: Option<String>)
    requires
        b@.len() <= u32::MAX,
        spec_table_valid(b@, t as int),
        v == spec_vtable(b@, t as int),
    ensures
        match r {
            Option::Some(s) => spec_field_string(b@, t as int, i as int) == Some(s@),
            Option::None => spec_field_string(b@, t as int, i as int) is None,
        },
{
    match field_ref(b, t, v, i) {
        Option::None => None,
        Option::Some(Option::None) => Some(String::new()),
        Option::Some(Option::Some(p)) => read_string_at(b, p),
    }
}

/// Reads the vector of `i64` at `p`.
pub(crate) fn read_vec_i64(b: &[u8], p: usize) -> (r: Option<Vec<i64>>)
    requires
        b@.len() <= u32::MAX,
    ensures
        match r {
            Option::Some(out) => spec_read_vec_i64(b@, p as int) == Some(out@),
            Option::None => spec_read_vec_i64(b@, p as int) is None,
        },
{
    let len: usize = b.len();
    if p > len || len - p < 4 {
        return None;
    }
    let n: u32 = read_u32_at(b, p);
    if p as u64 + 4 + 8 * (n as u64) > len as u64 {
        return None;
    }
    let ghost expected: Seq<i64> = spec_read_vec_i64(b@, p as int).unwrap();
    let mut out: Vec<i64> = Vec::new();
    let mut k: u32 = 0;
    while k < n
        invariant
            b@.len() <= u32::MAX,
            k <= n,
            p + 4 + 8 * (n as int) <= b@.len(),
            expected == spec_read_vec_i64(b@, p as int).unwrap(),
            spec_read_vec_i64(b@, p as int) is Some,
            expected.len() == n,
            out@.len() == k,
            forall|j: int| 0 <= j < k ==> out@[j] == expected[j],
        decreases n - k,
    {
        let value: i64 = read_i64_at(b, p + 4 + 8 * (k as usize));
        out.push(value);
        k = k + 1;
    }
    proof {
        assert(out@ =~= expected);
    }
    Some(out)
}

/// Reads the `i64`-vector field `i` of the table at `t`; absent reads as
/// empty.
pub(crate) fn field_vec_i64(b: &[u8], t: usize, v: usize, i: u16) -> (r: Option<Vec<i64>>)
    requires
        b@.len() <= u32::MAX,
        spec_table_valid(b@, t as int),
        v == spec_vtable(b@, t as int),
    ensures
        match r {
            Option::Some(out) => spec_field_vec_i64(b@, t as int, i as int) == Some(out@),
            Option::None => spec_field_vec_i64(b@, t as int, i as int) is None,
        },
{
    match field_ref(b, t, v, i) {
        Option::None => None,
        Option::Some(Option::None) => Some(Vec::new()),
        Option::Some(Option::Some(p)) => read_vec_i64(b, p),
    }
}

/// Reads the vector of table references at `p`, resolving each element to
/// the position it lands at.
pub(crate) fn read_vec_refs(b: &[u8], p: usize) -> (r: Option<Vec<usize>>)
    requires
        b@.len() <= u32::MAX,
    ensures
        match r {
            Option::Some(out) => {
                &&& spec_read_vec_refs(b@, p as int) matches Some(es)
                &&& es.len() == out@.len()
                &&& forall|k: int| 0 <= k < out@.len() ==> out@[k] as int == es[k]
            },
            Option::None => spec_read_vec_refs(b@, p as int) is None,
        },
{
    let len: usize = b.len();
    if p > len || len - p < 4 {
        return None;
    }
    let n: u32 = read_u32_at(b, p);
    if p as u64 + 4 + 4 * (n as u64) > len as u64 {
        return None;
    }
    let ghost elems: Seq<int> = Seq::new(
        n as nat,
        |k: int| p + 4 + 4 * k + le32(b@, p + 4 + 4 * k),
    );
    let mut out: Vec<usize> = Vec::new();
    let mut k: u32 = 0;
    while k < n
        invariant
            b@.len() <= u32::MAX,
            k <= n,
            p + 4 + 4 * (n as int) <= b@.len(),
            n == le32(b@, p as int),
            in_bounds(b@, p as int, 4),
            elems == Seq::new(n as nat, |j: int| p + 4 + 4 * j + le32(b@, p + 4 + 4 * j)),
            out@.len() == k,
            forall|j: int| 0 <= j < k ==> out@[j] as int == elems[j] && elems[j] <= b@.len(),
        decreases n - k,
    {
        let epos: usize = p + 4 + 4 * (k as usize);
        let rel: u32 = read_u32_at(b, epos);
        let target: u64 = epos as u64 + rel as u64;
        if target > b.len() as u64 {
            proof {
                assert(elems[k as int] == epos + rel);
                assert(!(forall|j: int|
                    0 <= j < n ==> #[trigger] elems[j] <= b@.len()));
            }
            return None;
        }
        out.push(target as usize);
        k = k + 1;
    }
    proof {
        assert(forall|j: int| 0 <= j < n ==> #[trigger] elems[j] <= b@.len());
        assert(spec_read_vec_refs(b@, p as int) == Some(elems));
    }
    Some(out)
}

} // verus!
