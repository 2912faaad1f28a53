//! Single chunk entry object.

use crate::table::{check_table, field_i64, field_u32};
use crate::table::{spec_field_i64, spec_field_u32, spec_table_valid};
use vstd::prelude::*;

verus! {

/// One compression chunk of a bundle.
///
/// A chunk is an independently compressed segment; its position inside the
/// owning bundle is not stored but reconstructed from the order of the
/// bundle's chunk list.
#[derive(Debug, Default, Clone, Copy, PartialEq, Eq, Structural)]
pub struct ChunkEntry {
    /// Id of the chunk entry.
    pub id: i64,
    /// Chunk size before decompression; mainly used when downloading.
    pub compressed_size: u32,
    /// Chunk size after decompression; mainly used when downloading.
    pub uncompressed_size: u32,
}

/// What reading a chunk row from the table at `t` returns: its three
/// scalar fields, each defaulting to 0 when absent, or `None` when the
/// table is structurally invalid.
pub open spec fn spec_read_chunk(b: Seq<u8>, t: int) -> Option<ChunkEntry> {
    if !spec_table_valid(b, t) {
        None
    } else {
        match (
            spec_field_i64(b, t, 0, 0),
            spec_field_u32(b, t, 1, 0),
            spec_field_u32(b, t, 2, 0),
        ) {
            (Some(id), Some(cs), Some(us)) => Some(
                ChunkEntry { id, compressed_size: cs, uncompressed_size: us },
            ),
            _ => None,
        }
    }
}

impl ChunkEntry {
    /// Reads one chunk row from the table at `t`.
    pub(crate) fn read(b: &[u8], t: usize) -> (r: Option<ChunkEntry>)
        requires
            b@.len() <= u32::MAX,
        ensures
            match r {
                Option::Some(c) => spec_read_chunk(b@, t as int) == Some(c),
                Option::None => spec_read_chunk(b@, t as int) is None,
            },
    {
        let v: usize = match check_table(b, t) {
            Option::Some(v) => v,
            Option::None => return None,
        };
        let id: i64 = match field_i64(b, t, v, 0, 0) {
            Option::Some(x) => x,
            Option::None => return None,
        };
        let compressed_size: u32 = match field_u32(b, t, v, 1, 0) {
            Option::Some(x) => x,
            Option::None => return None,
        };
        let uncompressed_size: u32 = match field_u32(b, t, v, 2, 0) {
            Option::Some(x) => x,
            Option::None => return None,
        };
        Some(ChunkEntry { id, compressed_size, uncompressed_size })
    }
}

} // verus!
