//! Parser and download planner for RMAN content-delivery manifests.
//!
//! A manifest is a framed byte buffer: a fixed 28-byte header locates a
//! zstd-compressed payload, whose decompressed form is a tabular binary
//! encoding of six entry tables (bundles, directories, files, keys, tags,
//! chunking parameters).  Decoding validates the frame, decompresses the
//! payload, reads the entry tables, and cross-references them into
//! self-contained [`File`] descriptors ready for chunk-by-chunk download.

mod compress;
pub mod entries;
mod error;
mod file;
mod parser;
pub mod structs;
mod table;
mod wire;

pub use crate::compress::{decompress_exact, zstd_inflate};
pub use crate::error::{CursorError, ManifestError, ReadError, ResolveFailure, Result};
pub use crate::file::{bundle_file_name, directory_map_view, file_views, range_end, spec_bundle_name, spec_download_step, spec_expand_tags, spec_resolve_chunks, spec_resolve_file, spec_resolve_path, tag_map_view, DownloadStep, DownloadStepV, File, FileV};
pub use crate::parser::header::{DecodeOptions, Header, RMAN_MAGIC};
pub use crate::parser::manifest::{EntryTablesV, ManifestData, ManifestDataV};
pub use crate::parser::{spec_decode, RiotManifest, RiotManifestV};
pub use crate::structs::cursor::Cursor;
