//! Single file entry object.

use crate::table::{check_table, field_i64, field_string, field_u16, field_u64, field_u8};
use crate::table::{field_vec_i64, spec_field_i64, spec_field_string, spec_field_u16};
use crate::table::{spec_field_u64, spec_field_u8, spec_field_vec_i64, spec_table_valid};
use crate::table::{field_u32, spec_field_u32, field_ref, read_vec_refs};
use crate::table::{spec_field_ref, spec_read_vec_refs, spec_vtable};
use vstd::prelude::*;

verus! {

/// One raw file row, prior to cross-referencing.
///
/// Resolution turns a `FileEntry` into a [`File`](crate::File) by walking
/// the directory table for its path, expanding its tag bitmask and looking
/// up its chunk ids.
#[derive(Debug, Default, Clone, PartialEq, Eq)]
pub struct FileEntry {
    /// Id of the file entry.
    pub id: i64,
    /// Id of the directory entry the file sits in.
    pub directory_id: i64,
    /// Size of the file entry in bytes.
    pub size: u32,
    /// Name of the file entry.
    pub name: String,
    /// Applicable tags, stored as a bitmask: bit `i` set means the tag with
    /// id `i + 1` applies.
    pub tag_bitmask: u64,
    /// Field with an unknown function; reserved, meaning unknown.
    pub unk5: u8,
    /// Field with an unknown function; reserved, meaning unknown.
    pub unk6: u8,
    /// The chunk ids that make up the file, in write order.
    pub chunk_ids: Vec<i64>,
    /// Field with an unknown function; reserved, meaning unknown.
    pub unk8: u8,
    /// Symbolic link of the file entry; empty when the file is none.
    pub symlink: String,
    /// Field with an unknown function; reserved, meaning unknown.
    pub unk10: u16,
    /// Id of the chunking param entry describing how chunks were formed.
    pub chunking_param_id: u8,
    /// Permissions for the given file entry.
    pub permissions: u8,
}

/// Mathematical image of a [`FileEntry`].
pub struct FileEntryV {
    /// Id of the file entry.
    pub id: i64,
    /// Id of the directory entry the file sits in.
    pub directory_id: i64,
    /// Size of the file entry in bytes.
    pub size: u32,
    /// Name of the file entry.
    pub name: Seq<char>,
    /// Applicable tags, stored as a bitmask.
    pub tag_bitmask: u64,
    /// Reserved field.
    pub unk5: u8,
    /// Reserved field.
    pub unk6: u8,
    /// The chunk ids that make up the file, in write order.
    pub chunk_ids: Seq<i64>,
    /// Reserved field.
    pub unk8: u8,
    /// Symbolic link of the file entry.
    pub symlink: Seq<char>,
    /// Reserved field.
    pub unk10: u16,
    /// Id of the chunking param entry.
    pub chunking_param_id: u8,
    /// Permissions for the given file entry.
    pub permissions: u8,
}

impl View for FileEntry {
    type V = FileEntryV;

    open spec fn view(&self) -> FileEntryV {
        FileEntryV {
            id: self.id,
            directory_id: self.directory_id,
            size: self.size,
            name: self.name@,
            tag_bitmask: self.tag_bitmask,
            unk5: self.unk5,
            unk6: self.unk6,
            chunk_ids: self.chunk_ids@,
            unk8: self.unk8,
            symlink: self.symlink@,
            unk10: self.unk10,
            chunking_param_id: self.chunking_param_id,
            permissions: self.permissions,
        }
    }
}

/// The views of a sequence of file entries.
pub open spec fn file_entry_views(s: Seq<FileEntry>) -> Seq<FileEntryV> {
    s.map_values(|e: FileEntry| e@)
}

/// What reading a file row from the table at `t` returns: scalars default
/// to 0, strings to empty, and the chunk-id vector to empty when absent.
pub open spec fn spec_read_file_entry(b: Seq<u8>, t: int) -> Option<FileEntryV> {
    if !spec_table_valid(b, t) {
        None
    } else {
        match (
            spec_field_i64(b, t, 0, 0),
            spec_field_i64(b, t, 1, 0),
            spec_field_u32(b, t, 2, 0),
            spec_field_string(b, t, 3),
            spec_field_u64(b, t, 4, 0),
            spec_field_u8(b, t, 5, 0),
            spec_field_u8(b, t, 6, 0),
            spec_field_vec_i64(b, t, 7),
        ) {
            (
                Some(id),
                Some(directory_id),
                Some(size),
                Some(name),
                Some(tag_bitmask),
                Some(unk5),
                Some(unk6),
                Some(chunk_ids),
            ) => match (
                spec_field_u8(b, t, 8, 0),
                spec_field_string(b, t, 9),
                spec_field_u16(b, t, 10, 0),
                spec_field_u8(b, t, 11, 0),
                spec_field_u8(b, t, 12, 0),
            ) {
                (Some(unk8), Some(symlink), Some(unk10), Some(chunking_param_id), Some(
                    permissions,
                )) => Some(
                    FileEntryV {
                        id,
                        directory_id,
                        size,
                        name,
                        tag_bitmask,
                        unk5,
                        unk6,
                        chunk_ids,
                        unk8,
                        symlink,
                        unk10,
                        chunking_param_id,
                        permissions,
                    },
                ),
                _ => None,
            },
            _ => None,
        }
    }
}

impl FileEntry {
    /// Reads one file row from the table at `t`.
    pub(crate) fn read(b: &[u8], t: usize) -> (r: Option<FileEntry>)
        requires
            b@.len() <= u32::MAX,
        ensures
            match r {
                Option::Some(e) => spec_read_file_entry(b@, t as int) == Some(e@),
                Option::None => spec_read_file_entry(b@, t as int) is None,
            },
    {
        let v: usize = match check_table(b, t) {
            Option::Some(v) => v,
            Option::None => return None,
        };
        let id: i64 = match field_i64(b, t, v, 0, 0) {
            Option::Some(x) => x,
            Option::None => return None,
        };
        let directory_id: i64 = match field_i64(b, t, v, 1, 0) {
            Option::Some(x) => x,
            Option::None => return None,
        };
        let size: u32 = match field_u32(b, t, v, 2, 0) {
            Option::Some(x) => x,
            Option::None => return None,
        };
        let name: String = match field_string(b, t, v, 3) {
            Option::Some(x) => x,
            Option::None => return None,
        };
        let tag_bitmask: u64 = match field_u64(b, t, v, 4, 0) {
            Option::Some(x) => x,
            Option::None => return None,
        };
        let unk5: u8 = match field_u8(b, t, v, 5, 0) {
            Option::Some(x) => x,
            Option::None => return None,
        };
        let unk6: u8 = match field_u8(b, t, v, 6, 0) {
            Option::Some(x) => x,
            Option::None => return None,
        };
        let chunk_ids: Vec<i64> = match field_vec_i64(b, t, v, 7) {
            Option::Some(x) => x,
            Option::None => return None,
        };
        let unk8: u8 = match field_u8(b, t, v, 8, 0) {
            Option::Some(x) => x,
            Option::None => return None,
        };
        let symlink: String = match field_string(b, t, v, 9) {
            Option::Some(x) => x,
            Option::None => return None,
        };
        let unk10: u16 = match field_u16(b, t, v, 10, 0) {
            Option::Some(x) => x,
            Option::None => return None,
        };
        let chunking_param_id: u8 = match field_u8(b, t, v, 11, 0) {
            Option::Some(x) => x,
            Option::None => return None,
        };
        let permissions: u8 = match field_u8(b, t, v, 12, 0) {
            Option::Some(x) => x,
            Option::None => return None,
        };
        Some(
            FileEntry {
                id,
                directory_id,
                size,
                name,
                tag_bitmask,
                unk5,
                unk6,
                chunk_ids,
                unk8,
                symlink,
                unk10,
                chunking_param_id,
                permissions,
            },
        )
    }
}


/// What reading the file vector at `p` returns: every element read
/// as a row, or `None` as soon as any element is invalid.
pub open spec fn spec_read_file_entries(b: Seq<u8>, p: int) -> Option<Seq<FileEntryV>> {
    match spec_read_vec_refs(b, p) {
        Option::None => None,
        Option::Some(es) => {
            if forall|k: int| 0 <= k < es.len() ==> (#[trigger] spec_read_file_entry(b, es[k])) is Some {
                Some(Seq::new(es.len(), |k: int| spec_read_file_entry(b, es[k]).unwrap()))
            } else {
                None
            }
        },
    }
}

/// The file-vector field `i` of the table at `t`; absent reads as
/// empty.
pub open spec fn spec_field_file_entries(b: Seq<u8>, t: int, i: int) -> Option<Seq<FileEntryV>>
    recommends
        spec_table_valid(b, t),
{
    match spec_field_ref(b, t, i) {
        Option::None => None,
        Option::Some(Option::None) => Some(Seq::empty()),
        Option::Some(Option::Some(p)) => spec_read_file_entries(b, p),
    }
}

/// Reads the file vector at `p`.
pub(crate) fn read_file_entries(b: &[u8], p: usize) -> (r: Option<Vec<FileEntry>>)
    requires
        b@.len() <= u32::MAX,
    ensures
        match r {
            Option::Some(out) => spec_read_file_entries(b@, p as int) == Some(file_entry_views(out@)),
            Option::None => spec_read_file_entries(b@, p as int) is None,
        },
{
    let refs: Vec<usize> = match read_vec_refs(b, p) {
        Option::Some(v) => v,
        Option::None => return None,
    };
    let ghost es: Seq<int> = spec_read_vec_refs(b@, p as int).unwrap();
    let n: usize = refs.len();
    let mut out: Vec<FileEntry> = Vec::new();
    let mut k: usize = 0;
    while k < n
        invariant
            b@.len() <= u32::MAX,
            k <= n,
            n == refs@.len(),
            spec_read_vec_refs(b@, p as int) == Some(es),
            es.len() == refs@.len(),
            forall|j: int| 0 <= j < refs@.len() ==> refs@[j] as int == es[j],
            out@.len() == k,
            forall|j: int| 0 <= j < k ==> (#[trigger] spec_read_file_entry(b@, es[j])) == Some(out@[j]@),
        decreases n - k,
    {
        let t: usize = refs[k];
        let e: FileEntry = match FileEntry::read(b, t) {
            Option::Some(e) => e,
            Option::None => {
                proof {
                    assert(spec_read_file_entry(b@, es[k as int]) is None);
                }
                return None;
            },
        };
        out.push(e);
        k = k + 1;
    }
    proof {
        assert(file_entry_views(out@) =~= Seq::new(es.len(), |j: int| spec_read_file_entry(b@, es[j]).unwrap()));
    }
    Some(out)
}

/// Reads the file-vector field `i` of the table at `t`.
pub(crate) fn field_file_entries(b: &[u8], t: usize, v: usize, i: u16) -> (r: Option<Vec<FileEntry>>)
    requires
        b@.len() <= u32::MAX,
        spec_table_valid(b@, t as int),
        v == spec_vtable(b@, t as int),
    ensures
        match r {
            Option::Some(out) => spec_field_file_entries(b@, t as int, i as int) == Some(file_entry_views(out@)),
            Option::None => spec_field_file_entries(b@, t as int, i as int) is None,
        },
{
    match field_ref(b, t, v, i) {
        Option::None => None,
        Option::Some(Option::None) => {
            proof {
                assert(file_entry_views(Seq::<FileEntry>::empty()) =~= Seq::<FileEntryV>::empty());
            }
            Some(Vec::new())
        },
        Option::Some(Option::Some(p)) => read_file_entries(b, p),
    }
}

} // verus!
