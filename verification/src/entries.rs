//! Collection of entries decoded from the manifest's tabular payload.
//!
//! These structs mirror the payload's six tables one row at a time.  If you
//! just wish to see the contained files and download them, see
//! [`File`](crate::File).

mod bundle_entry;
mod chunk_entry;
mod chunking_param_entry;
mod directory_entry;
mod file_entry;
mod key_entry;
mod language_entry;
mod param_entry;
mod tag_entry;

pub use self::bundle_entry::{bundle_views, spec_read_bundle, spec_read_chunks, BundleEntry, BundleEntryV};
pub use self::chunk_entry::{spec_read_chunk, ChunkEntry};
pub use self::chunking_param_entry::{spec_read_chunking_param, ChunkingParamEntry};
pub use self::directory_entry::{directory_views, spec_read_directory, DirectoryEntry, DirectoryEntryV};
pub use self::file_entry::{file_entry_views, spec_read_file_entry, FileEntry, FileEntryV};
pub use self::key_entry::{spec_read_key, KeyEntry};
pub use self::language_entry::{LanguageEntry, LanguageEntryV};
pub use self::param_entry::ParamEntry;
pub use self::tag_entry::{spec_read_tag, tag_views, TagEntry, TagEntryV};

pub use self::bundle_entry::{spec_field_bundles, spec_read_bundles};
pub use self::chunking_param_entry::{spec_field_chunking_params, spec_read_chunking_params};
pub use self::directory_entry::{spec_field_directories, spec_read_directories};
pub use self::file_entry::{spec_field_file_entries, spec_read_file_entries};
pub use self::key_entry::{spec_field_keys, spec_read_keys};
pub use self::tag_entry::{spec_field_tags, spec_read_tags};
pub(crate) use self::bundle_entry::field_bundles;
pub(crate) use self::chunking_param_entry::field_chunking_params;
pub(crate) use self::directory_entry::field_directories;
pub(crate) use self::file_entry::field_file_entries;
pub(crate) use self::key_entry::field_keys;
pub(crate) use self::tag_entry::field_tags;
