//! Single bundle entry object.

use crate::entries::chunk_entry::{spec_read_chunk, ChunkEntry};
use crate::table::{check_table, field_ref, field_u64, read_vec_refs};
use crate::table::{spec_field_ref, spec_field_u64, spec_read_vec_refs, spec_table_valid, spec_vtable};
use vstd::prelude::*;

verus! {

/// One remote blob and the ordered chunks stored inside it.
///
/// The order of `chunks` is semantically significant: the byte offset of a
/// chunk inside the bundle is the sum of the compressed sizes of all chunks
/// before it.
#[derive(Debug, Default, Clone, PartialEq, Eq)]
pub struct BundleEntry {
    /// Id of the bundle entry; the remote blob is named by this id in hex.
    pub id: u64,
    /// The bundle's chunks, in storage order.
    pub chunks: Vec<ChunkEntry>,
}

/// Mathematical image of a [`BundleEntry`].
pub struct BundleEntryV {
    /// Id of the bundle entry.
    pub id: u64,
    /// The bundle's chunks, in storage order.
    pub chunks: Seq<ChunkEntry>,
}

impl View for BundleEntry {
    type V = BundleEntryV;

    open spec fn view(&self) -> BundleEntryV {
        BundleEntryV { id: self.id, chunks: self.chunks@ }
    }
}

/// The views of a sequence of bundle entries.
pub open spec fn bundle_views(s: Seq<BundleEntry>) -> Seq<BundleEntryV> {
    s.map_values(|e: BundleEntry| e@)
}

/// What reading the chunk vector at `p` returns: every element read as a
/// chunk row, or `None` as soon as any element is invalid.
pub open spec fn spec_read_chunks(b: Seq<u8>, p: int) -> Option<Seq<ChunkEntry>> {
    match spec_read_vec_refs(b, p) {
        Option::None => None,
        Option::Some(es) => {
            if forall|k: int| 0 <= k < es.len() ==> (#[trigger] spec_read_chunk(b, es[k])) is Some {
                Some(Seq::new(es.len(), |k: int| spec_read_chunk(b, es[k]).unwrap()))
            } else {
                None
            }
        },
    }
}

/// Reads the chunk vector at `p`.
pub(crate) fn read_chunks(b: &[u8], p: usize) -> (r: Option<Vec<ChunkEntry>>)
    requires
        b@.len() <= u32::MAX,
    ensures
        match r {
            Option::Some(out) => spec_read_chunks(b@, p as int) == Some(out@),
            Option::None => spec_read_chunks(b@, p as int) is None,
        },
{
    let refs: Vec<usize> = match read_vec_refs(b, p) {
        Option::Some(v) => v,
        Option::None => return None,
    };
    let ghost es: Seq<int> = spec_read_vec_refs(b@, p as int).unwrap();
    let n: usize = refs.len();
    let mut out: Vec<ChunkEntry> = Vec::new();
    let mut k: usize = 0;
    while k < n
        invariant
            b@.len() <= u32::MAX,
            k <= n,
            n == refs@.len(),
            spec_read_vec_refs(b@, p as int) == Some(es),
            es.len() == refs@.len(),
            forall|j: int| 0 <= j < refs@.len() ==> refs@[j] as int == es[j],
            out@.len() == k,
            forall|j: int| 0 <= j < k ==> (#[trigger] spec_read_chunk(b@, es[j])) == Some(out@[j]),
        decreases n - k,
    {
        let t: usize = refs[k];
        let c: ChunkEntry = match ChunkEntry::read(b, t) {
            Option::Some(c) => c,
            Option::None => {
                proof {
                    assert(spec_read_chunk(b@, es[k as int]) is None);
                }
                return None;
            },
        };
        out.push(c);
        k = k + 1;
    }
    proof {
        assert(out@ =~= Seq::new(es.len(), |j: int| spec_read_chunk(b@, es[j]).unwrap()));
    }
    Some(out)
}

/// What reading a bundle row from the table at `t` returns: its id and its
/// chunk list in storage order, an absent list reading as empty.
pub open spec fn spec_read_bundle(b: Seq<u8>, t: int) -> Option<BundleEntryV> {
    if !spec_table_valid(b, t) {
        None
    } else {
        match (spec_field_u64(b, t, 0, 0), spec_field_ref(b, t, 1)) {
            (Some(id), Some(Option::None)) => Some(BundleEntryV { id, chunks: Seq::empty() }),
            (Some(id), Some(Option::Some(p))) => match spec_read_chunks(b, p) {
                Some(cs) => Some(BundleEntryV { id, chunks: cs }),
                None => None,
            },
            _ => None,
        }
    }
}

impl BundleEntry {
    /// Reads one bundle row from the table at `t`.
    pub(crate) fn read(b: &[u8], t: usize) -> (r: Option<BundleEntry>)
        requires
            b@.len() <= u32::MAX,
        ensures
            match r {
                Option::Some(e) => spec_read_bundle(b@, t as int) == Some(e@),
                Option::None => spec_read_bundle(b@, t as int) is None,
            },
    {
        let v: usize = match check_table(b, t) {
            Option::Some(v) => v,
            Option::None => return None,
        };
        let id: u64 = match field_u64(b, t, v, 0, 0) {
            Option::Some(x) => x,
            Option::None => return None,
        };
        let chunks: Vec<ChunkEntry> = match field_ref(b, t, v, 1) {
            Option::None => return None,
            Option::Some(Option::None) => Vec::new(),
            Option::Some(Option::Some(p)) => match read_chunks(b, p) {
                Option::Some(cs) => cs,
                Option::None => return None,
            },
        };
        Some(BundleEntry { id, chunks })
    }
}


/// What reading the bundle vector at `p` returns: every element read
/// as a row, or `None` as soon as any element is invalid.
pub open spec fn spec_read_bundles(b: Seq<u8>, p: int) -> Option<Seq<BundleEntryV>> {
    match spec_read_vec_refs(b, p) {
        Option::None => None,
        Option::Some(es) => {
            if forall|k: int| 0 <= k < es.len() ==> (#[trigger] spec_read_bundle(b, es[k])) is Some {
                Some(Seq::new(es.len(), |k: int| spec_read_bundle(b, es[k]).unwrap()))
            } else {
                None
            }
        },
    }
}

/// The bundle-vector field `i` of the table at `t`; absent reads as
/// empty.
pub open spec fn spec_field_bundles(b: Seq<u8>, t: int, i: int) -> Option<Seq<BundleEntryV>>
    recommends
        spec_table_valid(b, t),
{
    match spec_field_ref(b, t, i) {
        Option::None => None,
        Option::Some(Option::None) => Some(Seq::empty()),
        Option::Some(Option::Some(p)) => spec_read_bundles(b, p),
    }
}

/// Reads the bundle vector at `p`.
pub(crate) fn read_bundles(b: &[u8], p: usize) -> (r: Option<Vec<BundleEntry>>)
    requires
        b@.len() <= u32::MAX,
    ensures
        match r {
            Option::Some(out) => spec_read_bundles(b@, p as int) == Some(bundle_views(out@)),
            Option::None => spec_read_bundles(b@, p as int) is None,
        },
{
    let refs: Vec<usize> = match read_vec_refs(b, p) {
        Option::Some(v) => v,
        Option::None => return None,
    };
    let ghost es: Seq<int> = spec_read_vec_refs(b@, p as int).unwrap();
    let n: usize = refs.len();
    let mut out: Vec<BundleEntry> = Vec::new();
    let mut k: usize = 0;
    while k < n
        invariant
            b@.len() <= u32::MAX,
            k <= n,
            n == refs@.len(),
            spec_read_vec_refs(b@, p as int) == Some(es),
            es.len() == refs@.len(),
            forall|j: int| 0 <= j < refs@.len() ==> refs@[j] as int == es[j],
            out@.len() == k,
            forall|j: int| 0 <= j < k ==> (#[trigger] spec_read_bundle(b@, es[j])) == Some(out@[j]@),
        decreases n - k,
    {
        let t: usize = refs[k];
        let e: BundleEntry = match BundleEntry::read(b, t) {
            Option::Some(e) => e,
            Option::None => {
                proof {
                    assert(spec_read_bundle(b@, es[k as int]) is None);
                }
                return None;
            },
        };
        out.push(e);
        k = k + 1;
    }
    proof {
        assert(bundle_views(out@) =~= Seq::new(es.len(), |j: int| spec_read_bundle(b@, es[j]).unwrap()));
    }
    Some(out)
}

/// Reads the bundle-vector field `i` of the table at `t`.
pub(crate) fn field_bundles(b: &[u8], t: usize, v: usize, i: u16) -> (r: Option<Vec<BundleEntry>>)
    requires
        b@.len() <= u32::MAX,
        spec_table_valid(b@, t as int),
        v == spec_vtable(b@, t as int),
    ensures
        match r {
            Option::Some(out) => spec_field_bundles(b@, t as int, i as int) == Some(bundle_views(out@)),
            Option::None => spec_field_bundles(b@, t as int, i as int) is None,
        },
{
    match field_ref(b, t, v, i) {
        Option::None => None,
        Option::Some(Option::None) => {
            proof {
                assert(bundle_views(Seq::<BundleEntry>::empty()) =~= Seq::<BundleEntryV>::empty());
            }
            Some(Vec::new())
        },
        Option::Some(Option::Some(p)) => read_bundles(b, p),
    }
}

} // verus!
