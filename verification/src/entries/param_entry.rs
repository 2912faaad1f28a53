//! Single param entry object.

use vstd::prelude::*;

verus! {

/// An earlier shape of the chunking-parameter record.
///
/// Kept for callers that still name the old field layout; the decode
/// pipeline itself reads [`ChunkingParamEntry`](super::ChunkingParamEntry).
#[derive(Debug, Default, Clone, Copy, PartialEq, Eq, Structural)]
pub struct ParamEntry {
    /// Field with an unknown function; reserved, meaning unknown.
    pub unk0: u16,
    /// Hash type used when generating chunks.
    pub hash_type: u8,
    /// Field with an unknown function; reserved, meaning unknown.
    pub unk2: u32,
    /// Field with an unknown function; reserved, meaning unknown.
    pub unk3: u32,
    /// Maximum uncompressed chunk size.
    pub max_uncompressed: u32,
}

} // verus!
