//! Single directory entry object.

use crate::table::{check_table, field_i64, field_ref, field_string, read_vec_refs};
use crate::table::{spec_field_ref, spec_read_vec_refs, spec_vtable};
use crate::table::{spec_field_i64, spec_field_string, spec_table_valid};
use vstd::prelude::*;

verus! {

/// One directory of the manifest's directory forest.
///
/// The root entry has id 0 and, by convention, names itself as parent; a
/// path walk therefore stops on reaching id 0 rather than on a visited set.
#[derive(Debug, Default, Clone, PartialEq, Eq)]
pub struct DirectoryEntry {
    /// Id of the directory entry.
    pub id: i64,
    /// Id of the parent directory entry; the root's parent is 0.
    pub parent_id: i64,
    /// Name of the directory entry; empty for the root.
    pub name: String,
}

/// Mathematical image of a [`DirectoryEntry`].
pub struct DirectoryEntryV {
    /// Id of the directory entry.
    pub id: i64,
    /// Id of the parent directory entry.
    pub parent_id: i64,
    /// Name of the directory entry.
    pub name: Seq<char>,
}

impl View for DirectoryEntry {
    type V = DirectoryEntryV;

    open spec fn view(&self) -> DirectoryEntryV {
        DirectoryEntryV { id: self.id, parent_id: self.parent_id, name: self.name@ }
    }
}

/// The views of a sequence of directory entries.
pub open spec fn directory_views(s: Seq<DirectoryEntry>) -> Seq<DirectoryEntryV> {
    s.map_values(|e: DirectoryEntry| e@)
}

/// What reading a directory row from the table at `t` returns: ids
/// defaulting to 0 and the name defaulting to empty when absent.
pub open spec fn spec_read_directory(b: Seq<u8>, t: int) -> Option<DirectoryEntryV> {
    if !spec_table_valid(b, t) {
        None
    } else {
        match (
            spec_field_i64(b, t, 0, 0),
            spec_field_i64(b, t, 1, 0),
            spec_field_string(b, t, 2),
        ) {
            (Some(id), Some(parent_id), Some(name)) => Some(
                DirectoryEntryV { id, parent_id, name },
            ),
            _ => None,
        }
    }
}

impl DirectoryEntry {
    /// Reads one directory row from the table at `t`.
    pub(crate) fn read(b: &[u8], t: usize) -> (r: Option<DirectoryEntry>)
        requires
            b@.len() <= u32::MAX,
        ensures
            match r {
                Option::Some(e) => spec_read_directory(b@, t as int) == Some(e@),
                Option::None => spec_read_directory(b@, t as int) is None,
            },
    {
        let v: usize = match check_table(b, t) {
            Option::Some(v) => v,
            Option::None => return None,
        };
        let id: i64 = match field_i64(b, t, v, 0, 0) {
            Option::Some(x) => x,
            Option::None => return None,
        };
        let parent_id: i64 = match field_i64(b, t, v, 1, 0) {
            Option::Some(x) => x,
            Option::None => return None,
        };
        let name: String = match field_string(b, t, v, 2) {
            Option::Some(x) => x,
            Option::None => return None,
        };
        Some(DirectoryEntry { id, parent_id, name })
    }
}


/// What reading the directory vector at `p` returns: every element read
/// as a row, or `None` as soon as any element is invalid.
pub open spec fn spec_read_directories(b: Seq<u8>, p: int) -> Option<Seq<DirectoryEntryV>> {
    match spec_read_vec_refs(b, p) {
        Option::None => None,
        Option::Some(es) => {
            if forall|k: int| 0 <= k < es.len() ==> (#[trigger] spec_read_directory(b, es[k])) is Some {
                Some(Seq::new(es.len(), |k: int| spec_read_directory(b, es[k]).unwrap()))
            } else {
                None
            }
        },
    }
}

/// The directory-vector field `i` of the table at `t`; absent reads as
/// empty.
pub open spec fn spec_field_directories(b: Seq<u8>, t: int, i: int) -> Option<Seq<DirectoryEntryV>>
    recommends
        spec_table_valid(b, t),
{
    match spec_field_ref(b, t, i) {
        Option::None => None,
        Option::Some(Option::None) => Some(Seq::empty()),
        Option::Some(Option::Some(p)) => spec_read_directories(b, p),
    }
}

/// Reads the directory vector at `p`.
pub(crate) fn read_directories(b: &[u8], p: usize) -> (r: Option<Vec<DirectoryEntry>>)
    requires
        b@.len() <= u32::MAX,
    ensures
        match r {
            Option::Some(out) => spec_read_directories(b@, p as int) == Some(directory_views(out@)),
            Option::None => spec_read_directories(b@, p as int) is None,
        },
{
    let refs: Vec<usize> = match read_vec_refs(b, p) {
        Option::Some(v) => v,
        Option::None => return None,
    };
    let ghost es: Seq<int> = spec_read_vec_refs(b@, p as int).unwrap();
    let n: usize = refs.len();
    let mut out: Vec<DirectoryEntry> = Vec::new();
    let mut k: usize = 0;
    while k < n
        invariant
            b@.len() <= u32::MAX,
            k <= n,
            n == refs@.len(),
            spec_read_vec_refs(b@, p as int) == Some(es),
            es.len() == refs@.len(),
            forall|j: int| 0 <= j < refs@.len() ==> refs@[j] as int == es[j],
            out@.len() == k,
            forall|j: int| 0 <= j < k ==> (#[trigger] spec_read_directory(b@, es[j])) == Some(out@[j]@),
        decreases n - k,
    {
        let t: usize = refs[k];
        let e: DirectoryEntry = match DirectoryEntry::read(b, t) {
            Option::Some(e) => e,
            Option::None => {
                proof {
                    assert(spec_read_directory(b@, es[k as int]) is None);
                }
                return None;
            },
        };
        out.push(e);
        k = k + 1;
    }
    proof {
        assert(directory_views(out@) =~= Seq::new(es.len(), |j: int| spec_read_directory(b@, es[j]).unwrap()));
    }
    Some(out)
}

/// Reads the directory-vector field `i` of the table at `t`.
pub(crate) fn field_directories(b: &[u8], t: usize, v: usize, i: u16) -> (r: Option<Vec<DirectoryEntry>>)
    requires
        b@.len() <= u32::MAX,
        spec_table_valid(b@, t as int),
        v == spec_vtable(b@, t as int),
    ensures
        match r {
            Option::Some(out) => spec_field_directories(b@, t as int, i as int) == Some(directory_views(out@)),
            Option::None => spec_field_directories(b@, t as int, i as int) is None,
        },
{
    match field_ref(b, t, v, i) {
        Option::None => None,
        Option::Some(Option::None) => {
            proof {
                assert(directory_views(Seq::<DirectoryEntry>::empty()) =~= Seq::<DirectoryEntryV>::empty());
            }
            Some(Vec::new())
        },
        Option::Some(Option::Some(p)) => read_directories(b, p),
    }
}

} // verus!
