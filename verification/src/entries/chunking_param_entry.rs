//! Single chunking param entry object.

use crate::table::{check_table, field_ref, field_u16, field_u32, field_u8, read_vec_refs};
use crate::table::{spec_field_ref, spec_read_vec_refs, spec_vtable};
use crate::table::{spec_field_u16, spec_field_u32, spec_field_u8, spec_table_valid};
use vstd::prelude::*;

verus! {

/// Parameters of the content-defined chunking that produced the chunks.
///
/// Consumed only as pass-through metadata; resolution does not read it.
#[derive(Debug, Default, Clone, Copy, PartialEq, Eq, Structural)]
pub struct ChunkingParamEntry {
    /// Field with an unknown function; reserved, meaning unknown.
    pub unk0: u16,
    /// Hash type used when generating chunks.
    pub chunking_version: u8,
    /// Minimum chunk size.
    pub min_chunk_size: u32,
    /// Target chunk size.
    pub chunk_size: u32,
    /// Maximum chunk size.
    pub max_chunk_size: u32,
}

/// What reading a chunking-param row from the table at `t` returns: all
/// five scalars, each defaulting to 0 when absent.
pub open spec fn spec_read_chunking_param(b: Seq<u8>, t: int) -> Option<ChunkingParamEntry> {
    if !spec_table_valid(b, t) {
        None
    } else {
        match (
            spec_field_u16(b, t, 0, 0),
            spec_field_u8(b, t, 1, 0),
            spec_field_u32(b, t, 2, 0),
            spec_field_u32(b, t, 3, 0),
            spec_field_u32(b, t, 4, 0),
        ) {
            (Some(unk0), Some(cv), Some(mins), Some(cs), Some(maxs)) => Some(
                ChunkingParamEntry {
                    unk0,
                    chunking_version: cv,
                    min_chunk_size: mins,
                    chunk_size: cs,
                    max_chunk_size: maxs,
                },
            ),
            _ => None,
        }
    }
}

impl ChunkingParamEntry {
    /// Reads one chunking-param row from the table at `t`.
    pub(crate) fn read(b: &[u8], t: usize) -> (r: Option<ChunkingParamEntry>)
        requires
            b@.len() <= u32::MAX,
        ensures
            match r {
                Option::Some(e) => spec_read_chunking_param(b@, t as int) == Some(e),
                Option::None => spec_read_chunking_param(b@, t as int) is None,
            },
    {
        let v: usize = match check_table(b, t) {
            Option::Some(v) => v,
            Option::None => return None,
        };
        let unk0: u16 = match field_u16(b, t, v, 0, 0) {
            Option::Some(x) => x,
            Option::None => return None,
        };
        let chunking_version: u8 = match field_u8(b, t, v, 1, 0) {
            Option::Some(x) => x,
            Option::None => return None,
        };
        let min_chunk_size: u32 = match field_u32(b, t, v, 2, 0) {
            Option::Some(x) => x,
            Option::None => return None,
        };
        let chunk_size: u32 = match field_u32(b, t, v, 3, 0) {
            Option::Some(x) => x,
            Option::None => return None,
        };
        let max_chunk_size: u32 = match field_u32(b, t, v, 4, 0) {
            Option::Some(x) => x,
            Option::None => return None,
        };
        Some(
            ChunkingParamEntry {
                unk0,
                chunking_version,
                min_chunk_size,
                chunk_size,
                max_chunk_size,
            },
        )
    }
}


/// What reading the chunking-param vector at `p` returns: every element read
/// as a row, or `None` as soon as any element is invalid.
pub open spec fn spec_read_chunking_params(b: Seq<u8>, p: int) -> Option<Seq<ChunkingParamEntry>> {
    match spec_read_vec_refs(b, p) {
        Option::None => None,
        Option::Some(es) => {
            if forall|k: int| 0 <= k < es.len() ==> (#[trigger] spec_read_chunking_param(b, es[k])) is Some {
                Some(Seq::new(es.len(), |k: int| spec_read_chunking_param(b, es[k]).unwrap()))
            } else {
                None
            }
        },
    }
}

/// The chunking-param-vector field `i` of the table at `t`; absent reads as
/// empty.
pub open spec fn spec_field_chunking_params(b: Seq<u8>, t: int, i: int) -> Option<Seq<ChunkingParamEntry>>
    recommends
        spec_table_valid(b, t),
{
    match spec_field_ref(b, t, i) {
        Option::None => None,
        Option::Some(Option::None) => Some(Seq::empty()),
        Option::Some(Option::Some(p)) => spec_read_chunking_params(b, p),
    }
}

/// Reads the chunking-param vector at `p`.
pub(crate) fn read_chunking_params(b: &[u8], p: usize) -> (r: Option<Vec<ChunkingParamEntry>>)
    requires
        b@.len() <= u32::MAX,
    ensures
        match r {
            Option::Some(out) => spec_read_chunking_params(b@, p as int) == Some(out@),
            Option::None => spec_read_chunking_params(b@, p as int) is None,
        },
{
    let refs: Vec<usize> = match read_vec_refs(b, p) {
        Option::Some(v) => v,
        Option::None => return None,
    };
    let ghost es: Seq<int> = spec_read_vec_refs(b@, p as int).unwrap();
    let n: usize = refs.len();
    let mut out: Vec<ChunkingParamEntry> = Vec::new();
    let mut k: usize = 0;
    while k < n
        invariant
            b@.len() <= u32::MAX,
            k <= n,
            n == refs@.len(),
            spec_read_vec_refs(b@, p as int) == Some(es),
            es.len() == refs@.len(),
            forall|j: int| 0 <= j < refs@.len() ==> refs@[j] as int == es[j],
            out@.len() == k,
            forall|j: int| 0 <= j < k ==> (#[trigger] spec_read_chunking_param(b@, es[j])) == Some(out@[j]),
        decreases n - k,
    {
        let t: usize = refs[k];
        let e: ChunkingParamEntry = match ChunkingParamEntry::read(b, t) {
            Option::Some(e) => e,
            Option::None => {
                proof {
                    assert(spec_read_chunking_param(b@, es[k as int]) is None);
                }
                return None;
            },
        };
        out.push(e);
        k = k + 1;
    }
    proof {
        assert(out@ =~= Seq::new(es.len(), |j: int| spec_read_chunking_param(b@, es[j]).unwrap()));
    }
    Some(out)
}

/// Reads the chunking-param-vector field `i` of the table at `t`.
pub(crate) fn field_chunking_params(b: &[u8], t: usize, v: usize, i: u16) -> (r: Option<Vec<ChunkingParamEntry>>)
    requires
        b@.len() <= u32::MAX,
        spec_table_valid(b@, t as int),
        v == spec_vtable(b@, t as int),
    ensures
        match r {
            Option::Some(out) => spec_field_chunking_params(b@, t as int, i as int) == Some(out@),
            Option::None => spec_field_chunking_params(b@, t as int, i as int) is None,
        },
{
    match field_ref(b, t, v, i) {
        Option::None => None,
        Option::Some(Option::None) => {
            proof {
                assert(Seq::<ChunkingParamEntry>::empty() =~= Seq::<ChunkingParamEntry>::empty());
            }
            Some(Vec::new())
        },
        Option::Some(Option::Some(p)) => read_chunking_params(b, p),
    }
}

} // verus!
