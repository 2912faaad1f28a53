//! Single key entry object.

use crate::table::{check_table, field_ref, field_u16, field_u32, read_vec_refs};
use crate::table::{spec_field_ref, spec_read_vec_refs, spec_vtable};
use crate::table::{spec_field_u16, spec_field_u32, spec_table_valid};
use vstd::prelude::*;

verus! {

/// An opaque key pair carried by the manifest.
///
/// Consumed only as pass-through metadata; resolution does not read it.
#[derive(Debug, Default, Clone, Copy, PartialEq, Eq, Structural)]
pub struct KeyEntry {
    /// Field with an unknown function; reserved, meaning unknown.
    pub unk0: u16,
    /// Field with an unknown function; reserved, meaning unknown.
    pub unk1: u32,
}

/// What reading a key row from the table at `t` returns: both fields
/// defaulting to 0 when absent.
pub open spec fn spec_read_key(b: Seq<u8>, t: int) -> Option<KeyEntry> {
    if !spec_table_valid(b, t) {
        None
    } else {
        match (spec_field_u16(b, t, 0, 0), spec_field_u32(b, t, 1, 0)) {
            (Some(unk0), Some(unk1)) => Some(KeyEntry { unk0, unk1 }),
            _ => None,
        }
    }
}

impl KeyEntry {
    /// Reads one key row from the table at `t`.
    pub(crate) fn read(b: &[u8], t: usize) -> (r: Option<KeyEntry>)
        requires
            b@.len() <= u32::MAX,
        ensures
            match r {
                Option::Some(e) => spec_read_key(b@, t as int) == Some(e),
                Option::None => spec_read_key(b@, t as int) is None,
            },
    {
        let v: usize = match check_table(b, t) {
            Option::Some(v) => v,
            Option::None => return None,
        };
        let unk0: u16 = match field_u16(b, t, v, 0, 0) {
            Option::Some(x) => x,
            Option::None => return None,
        };
        let unk1: u32 = match field_u32(b, t, v, 1, 0) {
            Option::Some(x) => x,
            Option::None => return None,
        };
        Some(KeyEntry { unk0, unk1 })
    }
}


/// What reading the key vector at `p` returns: every element read
/// as a row, or `None` as soon as any element is invalid.
pub open spec fn spec_read_keys(b: Seq<u8>, p: int) -> Option<Seq<KeyEntry>> {
    match spec_read_vec_refs(b, p) {
        Option::None => None,
        Option::Some(es) => {
            if forall|k: int| 0 <= k < es.len() ==> (#[trigger] spec_read_key(b, es[k])) is Some {
                Some(Seq::new(es.len(), |k: int| spec_read_key(b, es[k]).unwrap()))
            } else {
                None
            }
        },
    }
}

/// The key-vector field `i` of the table at `t`; absent reads as
/// empty.
pub open spec fn spec_field_keys(b: Seq<u8>, t: int, i: int) -> Option<Seq<KeyEntry>>
    recommends
        spec_table_valid(b, t),
{
    match spec_field_ref(b, t, i) {
        Option::None => None,
        Option::Some(Option::None) => Some(Seq::empty()),
        Option::Some(Option::Some(p)) => spec_read_keys(b, p),
    }
}

/// Reads the key vector at `p`.
pub(crate) fn read_keys(b: &[u8], p: usize) -> (r: Option<Vec<KeyEntry>>)
    requires
        b@.len() <= u32::MAX,
    ensures
        match r {
            Option::Some(out) => spec_read_keys(b@, p as int) == Some(out@),
            Option::None => spec_read_keys(b@, p as int) is None,
        },
{
    let refs: Vec<usize> = match read_vec_refs(b, p) {
        Option::Some(v) => v,
        Option::None => return None,
    };
    let ghost es: Seq<int> = spec_read_vec_refs(b@, p as int).unwrap();
    let n: usize = refs.len();
    let mut out: Vec<KeyEntry> = Vec::new();
    let mut k: usize = 0;
    while k < n
        invariant
            b@.len() <= u32::MAX,
            k <= n,
            n == refs@.len(),
            spec_read_vec_refs(b@, p as int) == Some(es),
            es.len() == refs@.len(),
            forall|j: int| 0 <= j < refs@.len() ==> refs@[j] as int == es[j],
            out@.len() == k,
            forall|j: int| 0 <= j < k ==> (#[trigger] spec_read_key(b@, es[j])) == Some(out@[j]),
        decreases n - k,
    {
        let t: usize = refs[k];
        let e: KeyEntry = match KeyEntry::read(b, t) {
            Option::Some(e) => e,
            Option::None => {
                proof {
                    assert(spec_read_key(b@, es[k as int]) is None);
                }
                return None;
            },
        };
        out.push(e);
        k = k + 1;
    }
    proof {
        assert(out@ =~= Seq::new(es.len(), |j: int| spec_read_key(b@, es[j]).unwrap()));
    }
    Some(out)
}

/// Reads the key-vector field `i` of the table at `t`.
pub(crate) fn field_keys(b: &[u8], t: usize, v: usize, i: u16) -> (r: Option<Vec<KeyEntry>>)
    requires
        b@.len() <= u32::MAX,
        spec_table_valid(b@, t as int),
        v == spec_vtable(b@, t as int),
    ensures
        match r {
            Option::Some(out) => spec_field_keys(b@, t as int, i as int) == Some(out@),
            Option::None => spec_field_keys(b@, t as int, i as int) is None,
        },
{
    match field_ref(b, t, v, i) {
        Option::None => None,
        Option::Some(Option::None) => {
            proof {
                assert(Seq::<KeyEntry>::empty() =~= Seq::<KeyEntry>::empty());
            }
            Some(Vec::new())
        },
        Option::Some(Option::Some(p)) => read_keys(b, p),
    }
}

} // verus!
