//! The decompressed payload turned into entry tables and resolved files.

use crate::entries::{
    field_bundles, field_chunking_params, field_directories, field_file_entries, field_keys,
    field_tags,
};
use crate::entries::{
    bundle_views, directory_views, file_entry_views, spec_field_bundles,
    spec_field_chunking_params, spec_field_directories, spec_field_file_entries, spec_field_keys,
    spec_field_tags, tag_views,
};
use crate::entries::{
    BundleEntry, BundleEntryV, ChunkEntry, ChunkingParamEntry, DirectoryEntry, DirectoryEntryV,
    FileEntry, FileEntryV, KeyEntry, TagEntry, TagEntryV,
};
use crate::error::ManifestError;
use crate::file::{
    directory_map_view, file_views, spec_resolve_file, tag_map_view, File, FileV,
};
use crate::table::{check_table, spec_table_valid, spec_vtable};
use crate::wire::{in_bounds, le32, read_u32_at};
use std::collections::HashMap;
use vstd::prelude::*;
use vstd::slice::slice_index_get;

verus! {

/// Stores all of the decoded entry tables, as well as the resolved files.
#[derive(Debug, Default, Clone, PartialEq, Eq)]
pub struct ManifestData {
    /// Vector of [bundle entries](crate::entries::BundleEntry).
    pub bundle_entries: Vec<BundleEntry>,
    /// Vector of [directory entries](crate::entries::DirectoryEntry).
    pub directory_entries: Vec<DirectoryEntry>,
    /// Vector of [file entries](crate::entries::FileEntry).
    pub file_entries: Vec<FileEntry>,
    /// Vector of [key entries](crate::entries::KeyEntry).
    pub key_entries: Vec<KeyEntry>,
    /// Vector of [tag entries](crate::entries::TagEntry).
    pub tag_entries: Vec<TagEntry>,
    /// Vector of [chunking param entries](crate::entries::ChunkingParamEntry).
    pub chunking_param_entries: Vec<ChunkingParamEntry>,
    /// Vector of resolved [files](crate::File).
    pub files: Vec<File>,
}

/// Mathematical image of a [`ManifestData`].
pub struct ManifestDataV {
    /// The decoded bundle table.
    pub bundle_entries: Seq<BundleEntryV>,
    /// The decoded directory table.
    pub directory_entries: Seq<DirectoryEntryV>,
    /// The decoded file table.
    pub file_entries: Seq<FileEntryV>,
    /// The decoded key table.
    pub key_entries: Seq<KeyEntry>,
    /// The decoded tag table.
    pub tag_entries: Seq<TagEntryV>,
    /// The decoded chunking-param table.
    pub chunking_param_entries: Seq<ChunkingParamEntry>,
    /// The resolved files.
    pub files: Seq<FileV>,
}

impl View for ManifestData {
    type V = ManifestDataV;

    open spec fn view(&self) -> ManifestDataV {
        ManifestDataV {
            bundle_entries: bundle_views(self.bundle_entries@),
            directory_entries: directory_views(self.directory_entries@),
            file_entries: file_entry_views(self.file_entries@),
            key_entries: self.key_entries@,
            tag_entries: tag_views(self.tag_entries@),
            chunking_param_entries: self.chunking_param_entries@,
            files: file_views(self.files@),
        }
    }
}

/// The six entry tables of a decoded payload, before cross-referencing.
pub struct EntryTablesV {
    /// The bundle table.
    pub bundles: Seq<BundleEntryV>,
    /// The tag table.
    pub tags: Seq<TagEntryV>,
    /// The file table.
    pub files: Seq<FileEntryV>,
    /// The directory table.
    pub directories: Seq<DirectoryEntryV>,
    /// The key table.
    pub keys: Seq<KeyEntry>,
    /// The chunking-param table.
    pub chunking_params: Seq<ChunkingParamEntry>,
}

/// Position of the root table: the buffer opens with a forward offset to
/// it, which must land inside the buffer.
pub open spec fn spec_root_table(b: Seq<u8>) -> Option<int> {
    if !in_bounds(b, 0, 4) {
        None
    } else {
        let t = le32(b, 0) as int;
        if t <= b.len() {
            Some(t)
        } else {
            None
        }
    }
}

/// What decoding the payload's six tables returns: the root table's six
/// vector fields in schema order (bundles, tags, files, directories, keys,
/// chunking parameters), each reading as empty when absent; `None` when
/// any part of the encoding fails structural validation.
pub open spec fn spec_read_manifest_tables(b: Seq<u8>) -> Option<EntryTablesV> {
    match spec_root_table(b) {
        Option::None => None,
        Option::Some(t) => {
            if !spec_table_valid(b, t) {
                None
            } else {
                match (
                    spec_field_bundles(b, t, 0),
                    spec_field_tags(b, t, 1),
                    spec_field_file_entries(b, t, 2),
                    spec_field_directories(b, t, 3),
                    spec_field_keys(b, t, 4),
                    spec_field_chunking_params(b, t, 5),
                ) {
                    (Some(bs), Some(ts), Some(fs), Some(ds), Some(ks), Some(ps)) => Some(
                        EntryTablesV {
                            bundles: bs,
                            tags: ts,
                            files: fs,
                            directories: ds,
                            keys: ks,
                            chunking_params: ps,
                        },
                    ),
                    _ => None,
                }
            }
        },
    }
}

/// The tag index built from the tag table: id to name, later duplicate ids
/// silently overwriting earlier ones.
pub open spec fn spec_map_tags(tags: Seq<TagEntryV>) -> Map<u8, Seq<char>>
    decreases tags.len(),
{
    if tags.len() == 0 {
        Map::empty()
    } else {
        spec_map_tags(tags.drop_last()).insert(tags.last().id, tags.last().name)
    }
}

/// The directory index built from the directory table: id to name and
/// parent id, later duplicate ids silently overwriting earlier ones.
pub open spec fn spec_map_directories(dirs: Seq<DirectoryEntryV>) -> Map<i64, (Seq<char>, i64)>
    decreases dirs.len(),
{
    if dirs.len() == 0 {
        Map::empty()
    } else {
        spec_map_directories(dirs.drop_last()).insert(
            dirs.last().id,
            (dirs.last().name, dirs.last().parent_id),
        )
    }
}

/// Byte offset of chunk `k` inside its bundle: the sum of the compressed
/// sizes of the `k` chunks stored before it.
pub open spec fn spec_chunk_offset(chunks: Seq<ChunkEntry>, k: int) -> int
    decreases k,
{
    if k <= 0 {
        0
    } else {
        spec_chunk_offset(chunks, k - 1) + chunks[k - 1].compressed_size
    }
}

/// True when every chunk offset of the bundle, offset plus size included,
/// stays representable in `u32`.
pub open spec fn spec_bundle_fits(b: BundleEntryV) -> bool {
    spec_chunk_offset(b.chunks, b.chunks.len() as int) <= u32::MAX
}

/// True when every bundle of the sequence fits.
pub open spec fn spec_bundles_fit(bundles: Seq<BundleEntryV>) -> bool {
    forall|j: int| 0 <= j < bundles.len() ==> spec_bundle_fits(#[trigger] bundles[j])
}

/// Chunk offsets only grow along a bundle's chunk list.
proof fn lemma_chunk_offset_monotone(chunks: Seq<ChunkEntry>, j: int, k: int)
    requires
        0 <= j <= k,
    ensures
        spec_chunk_offset(chunks, j) <= spec_chunk_offset(chunks, k),
    decreases k - j,
{
    if j < k {
        lemma_chunk_offset_monotone(chunks, j, k - 1);
    }
}

/// The chunk index after inserting the first `k` chunks of bundle `b` into
/// `m`: each chunk id maps to the bundle id, the chunk's byte offset in
/// the bundle, and its two sizes.
pub open spec fn spec_map_chunks_bundle(
    m: Map<i64, (i64, u32, u32, u32)>,
    b: BundleEntryV,
    k: int,
) -> Map<i64, (i64, u32, u32, u32)>
    decreases k,
{
    if k <= 0 {
        m
    } else {
        let c = b.chunks[k - 1];
        spec_map_chunks_bundle(m, b, k - 1).insert(
            c.id,
            (
                b.id as i64,
                spec_chunk_offset(b.chunks, k - 1) as u32,
                c.uncompressed_size,
                c.compressed_size,
            ),
        )
    }
}

/// The chunk index built from the first `j` bundles, in declared order;
/// later duplicate chunk ids silently overwrite earlier ones.
pub open spec fn spec_map_chunks(bundles: Seq<BundleEntryV>, j: int) -> Map<
    i64,
    (i64, u32, u32, u32),
>
    decreases j,
{
    if j <= 0 {
        Map::empty()
    } else {
        spec_map_chunks_bundle(
            spec_map_chunks(bundles, j - 1),
            bundles[j - 1],
            bundles[j - 1].chunks.len() as int,
        )
    }
}

/// The files of the manifest resolved in table order; the first file that
/// fails resolution decides the result.
pub open spec fn spec_resolve_files(
    files: Seq<FileEntryV>,
    tags: Map<u8, Seq<char>>,
    dirs: Map<i64, (Seq<char>, i64)>,
    chunks: Map<i64, (i64, u32, u32, u32)>,
) -> Result<Seq<FileV>, ManifestError>
    decreases files.len(),
{
    if files.len() == 0 {
        Ok(Seq::empty())
    } else {
        match spec_resolve_files(files.drop_last(), tags, dirs, chunks) {
            Err(e) => Err(e),
            Ok(s) => match spec_resolve_file(files.last(), tags, dirs, chunks) {
                Ok(f) => Ok(s.push(f)),
                Err(e) => Err(e),
            },
        }
    }
}

/// An error on a prefix of the file table decides the whole table.
proof fn lemma_resolve_files_prefix_error(
    files: Seq<FileEntryV>,
    tags: Map<u8, Seq<char>>,
    dirs: Map<i64, (Seq<char>, i64)>,
    chunks: Map<i64, (i64, u32, u32, u32)>,
    k: int,
)
    requires
        0 <= k <= files.len(),
        spec_resolve_files(files.take(k), tags, dirs, chunks) is Err,
    ensures
        spec_resolve_files(files, tags, dirs, chunks) == spec_resolve_files(
            files.take(k),
            tags,
            dirs,
            chunks,
        ),
    decreases files.len() - k,
{
    if k == files.len() {
        assert(files.take(k) =~= files);
    } else {
        assert(files.take(k + 1).drop_last() =~= files.take(k));
        lemma_resolve_files_prefix_error(files, tags, dirs, chunks, k + 1);
    }
}

/// What decoding a payload returns: the six tables, then the three indices,
/// then every file resolved in table order.  A payload longer than `u32`
/// can address, or a bundle whose cumulative chunk sizes leave `u32`, is a
/// [`ManifestError::ConversionFailure`]; structural damage is a
/// [`ManifestError::FlatbufferError`]; an unresolvable reference surfaces
/// the first file's [`ManifestError::FileParseError`].
pub open spec fn spec_parse_manifest(b: Seq<u8>) -> Result<ManifestDataV, ManifestError> {
    if b.len() > u32::MAX {
        Err(ManifestError::ConversionFailure)
    } else {
        match spec_read_manifest_tables(b) {
            Option::None => Err(ManifestError::FlatbufferError),
            Option::Some(t) => {
                if !spec_bundles_fit(t.bundles) {
                    Err(ManifestError::ConversionFailure)
                } else {
                    match spec_resolve_files(
                        t.files,
                        spec_map_tags(t.tags),
                        spec_map_directories(t.directories),
                        spec_map_chunks(t.bundles, t.bundles.len() as int),
                    ) {
                        Err(e) => Err(e),
                        Ok(files) => Ok(
                            ManifestDataV {
                                bundle_entries: t.bundles,
                                directory_entries: t.directories,
                                file_entries: t.files,
                                key_entries: t.keys,
                                tag_entries: t.tags,
                                chunking_param_entries: t.chunking_params,
                                files,
                            },
                        ),
                    }
                }
            },
        }
    }
}

impl ManifestData {
    /// Builds the tag index: id to name, a later duplicate id silently
    /// overwriting an earlier one.
    pub fn map_tags(tag_entries: &[TagEntry]) -> (r: HashMap<u8, String>)
        ensures
            tag_map_view(r@) == spec_map_tags(tag_views(tag_entries@)),
    {
        let mut m: HashMap<u8, String> = HashMap::new();
        proof {
            assert(tag_views(tag_entries@).take(0) =~= Seq::<TagEntryV>::empty());
            assert(tag_map_view(m@) =~= spec_map_tags(tag_views(tag_entries@).take(0)));
        }
        let n: usize = tag_entries.len();
        let mut i: usize = 0;
        while i < n
            invariant
                n == tag_entries@.len(),
                i <= n,
                tag_map_view(m@) == spec_map_tags(tag_views(tag_entries@).take(i as int)),
            decreases n - i,
        {
            let e: &TagEntry = slice_index_get(tag_entries, i);
            let ghost prev = m@;
            m.insert(e.id, e.name.clone());
            proof {
                let tvs = tag_views(tag_entries@);
                assert(tvs.take(i as int + 1).drop_last() =~= tvs.take(i as int));
                assert(tvs.take(i as int + 1).last() == tag_entries@[i as int]@);
                assert(tag_map_view(m@) =~= tag_map_view(prev).insert(e.id, e.name@));
                assert(tag_map_view(m@) == spec_map_tags(tvs.take(i as int + 1)));
            }
            i = i + 1;
        }
        proof {
            assert(tag_views(tag_entries@).take(n as int) =~= tag_views(tag_entries@));
        }
        m
    }

    /// Builds the directory index: id to name and parent id, a later
    /// duplicate id silently overwriting an earlier one.
    pub fn map_directories(directory_entries: &[DirectoryEntry]) -> (r: HashMap<
        i64,
        (String, i64),
    >)
        ensures
            directory_map_view(r@) == spec_map_directories(directory_views(directory_entries@)),
    {
        let mut m: HashMap<i64, (String, i64)> = HashMap::new();
        proof {
            assert(directory_views(directory_entries@).take(0) =~= Seq::<DirectoryEntryV>::empty());
            assert(directory_map_view(m@) =~= spec_map_directories(
                directory_views(directory_entries@).take(0),
            ));
        }
        let n: usize = directory_entries.len();
        let mut i: usize = 0;
        while i < n
            invariant
                n == directory_entries@.len(),
                i <= n,
                directory_map_view(m@) == spec_map_directories(
                    directory_views(directory_entries@).take(i as int),
                ),
            decreases n - i,
        {
            let e: &DirectoryEntry = slice_index_get(directory_entries, i);
            let ghost prev = m@;
            m.insert(e.id, (e.name.clone(), e.parent_id));
            proof {
                let dvs = directory_views(directory_entries@);
                assert(dvs.take(i as int + 1).drop_last() =~= dvs.take(i as int));
                assert(dvs.take(i as int + 1).last() == directory_entries@[i as int]@);
                assert(directory_map_view(m@) =~= directory_map_view(prev).insert(
                    e.id,
                    (e.name@, e.parent_id),
                ));
                assert(directory_map_view(m@) == spec_map_directories(dvs.take(i as int + 1)));
            }
            i = i + 1;
        }
        proof {
            assert(directory_views(directory_entries@).take(n as int) =~= directory_views(
                directory_entries@,
            ));
        }
        m
    }

    /// Builds the chunk index from the bundle table: chunk id to bundle
    /// id, byte offset inside that bundle, uncompressed size and
    /// compressed size, a later duplicate chunk id silently overwriting an
    /// earlier one.
    ///
    /// The offset of a chunk is the sum of the compressed sizes of the
    /// chunks declared before it in the same bundle; this order is the
    /// only place the bundle's chunk ordering carries meaning.  A bundle
    /// whose cumulative size leaves `u32` is rejected whole.
    pub fn map_chunks(bundle_entries: &[BundleEntry]) -> (r: Result<
        HashMap<i64, (i64, u32, u32, u32)>,
        ManifestError,
    >)
        ensures
            match r {
                Ok(m) => spec_bundles_fit(bundle_views(bundle_entries@)) && m@ == spec_map_chunks(
                    bundle_views(bundle_entries@),
                    bundle_entries@.len() as int,
                ),
                Err(e) => e == ManifestError::ConversionFailure && !spec_bundles_fit(
                    bundle_views(bundle_entries@),
                ),
            },
    {
        let ghost bviews = bundle_views(bundle_entries@);
        let mut m: HashMap<i64, (i64, u32, u32, u32)> = HashMap::new();
        let nb: usize = bundle_entries.len();
        let mut j: usize = 0;
        while j < nb
            invariant
                bviews == bundle_views(bundle_entries@),
                nb == bundle_entries@.len(),
                j <= nb,
                m@ == spec_map_chunks(bviews, j as int),
                forall|x: int| 0 <= x < j ==> spec_bundle_fits(#[trigger] bviews[x]),
            decreases nb - j,
        {
            let bundle: &BundleEntry = slice_index_get(bundle_entries, j);
            proof {
                assert(bviews[j as int] == bundle_entries@[j as int]@);
            }
            let ghost bv = bviews[j as int];
            let ghost m0 = m@;
            let nc: usize = bundle.chunks.len();
            let mut offset: u64 = 0;
            let mut k: usize = 0;
            while k < nc
                invariant
                    bviews == bundle_views(bundle_entries@),
                    nb == bundle_entries@.len(),
                    j < nb,
                    bv == bviews[j as int],
                    nc == bundle.chunks@.len(),
                    k <= nc,
                    bv.chunks == bundle.chunks@,
                    bv.id == bundle.id,
                    offset == spec_chunk_offset(bv.chunks, k as int),
                    offset <= u32::MAX,
                    m0 == spec_map_chunks(bviews, j as int),
                    m@ == spec_map_chunks_bundle(m0, bv, k as int),
                decreases nc - k,
            {
                let c: ChunkEntry = bundle.chunks[k];
                let new_off: u64 = offset + c.compressed_size as u64;
                if new_off > u32::MAX as u64 {
                    proof {
                        assert(spec_chunk_offset(bv.chunks, k as int + 1) > u32::MAX);
                        lemma_chunk_offset_monotone(
                            bv.chunks,
                            k as int + 1,
                            bv.chunks.len() as int,
                        );
                        assert(!spec_bundle_fits(bv));
                    }
                    return Err(ManifestError::ConversionFailure);
                }
                m.insert(
                    c.id,
                    (
                        #[verifier::truncate] (bundle.id as i64),
                        offset as u32,
                        c.uncompressed_size,
                        c.compressed_size,
                    ),
                );
                offset = new_off;
                k = k + 1;
            }
            proof {
                assert(spec_bundle_fits(bv));
                assert(m@ == spec_map_chunks(bviews, j as int + 1));
            }
            j = j + 1;
        }
        proof {
            assert(spec_bundles_fit(bviews));
        }
        Ok(m)
    }

    /// Main payload parser method.
    ///
    /// Decodes the six entry tables from the decompressed payload, builds
    /// the three lookup indices, and resolves every file entry in table
    /// order; the result is exactly what [`spec_parse_manifest`] names for
    /// `bytes`.  Structural damage anywhere in the payload is reported
    /// before any row is used.
    pub fn parse(bytes: &[u8]) -> (r: Result<ManifestData, ManifestError>)
        ensures
            match r {
                Ok(m) => spec_parse_manifest(bytes@) == Ok::<ManifestDataV, ManifestError>(m@),
                Err(e) => spec_parse_manifest(bytes@) == Err::<ManifestDataV, ManifestError>(e),
            },
    {
        if bytes.len() > u32::MAX as usize {
            return Err(ManifestError::ConversionFailure);
        }
        let len: usize = bytes.len();
        if len < 4 {
            return Err(ManifestError::FlatbufferError);
        }
        let root: u32 = read_u32_at(bytes, 0);
        if root as u64 > len as u64 {
            return Err(ManifestError::FlatbufferError);
        }
        let t: usize = root as usize;
        let v: usize = match check_table(bytes, t) {
            Option::Some(v) => v,
            Option::None => return Err(ManifestError::FlatbufferError),
        };
        let bundle_entries: Vec<BundleEntry> = match field_bundles(bytes, t, v, 0) {
            Option::Some(x) => x,
            Option::None => return Err(ManifestError::FlatbufferError),
        };
        let tag_entries: Vec<TagEntry> = match field_tags(bytes, t, v, 1) {
            Option::Some(x) => x,
            Option::None => return Err(ManifestError::FlatbufferError),
        };
        let file_entries: Vec<FileEntry> = match field_file_entries(bytes, t, v, 2) {
            Option::Some(x) => x,
            Option::None => return Err(ManifestError::FlatbufferError),
        };
        let directory_entries: Vec<DirectoryEntry> = match field_directories(bytes, t, v, 3) {
            Option::Some(x) => x,
            Option::None => return Err(ManifestError::FlatbufferError),
        };
        let key_entries: Vec<KeyEntry> = match field_keys(bytes, t, v, 4) {
            Option::Some(x) => x,
            Option::None => return Err(ManifestError::FlatbufferError),
        };
        let chunking_param_entries: Vec<ChunkingParamEntry> = match field_chunking_params(
            bytes,
            t,
            v,
            5,
        ) {
            Option::Some(x) => x,
            Option::None => return Err(ManifestError::FlatbufferError),
        };

        let ghost tables = EntryTablesV {
            bundles: bundle_views(bundle_entries@),
            tags: tag_views(tag_entries@),
            files: file_entry_views(file_entries@),
            directories: directory_views(directory_entries@),
            keys: key_entries@,
            chunking_params: chunking_param_entries@,
        };
        proof {
            assert(spec_read_manifest_tables(bytes@) == Some(tables));
        }

        let mapped_tags: HashMap<u8, String> = Self::map_tags(tag_entries.as_slice());
        let mapped_directories: HashMap<i64, (String, i64)> = Self::map_directories(
            directory_entries.as_slice(),
        );
        let mapped_chunks: HashMap<i64, (i64, u32, u32, u32)> = match Self::map_chunks(
            bundle_entries.as_slice(),
        ) {
            Ok(m) => m,
            Err(e) => return Err(e),
        };

        let ghost tmv = spec_map_tags(tables.tags);
        let ghost dmv = spec_map_directories(tables.directories);
        let ghost cmv = spec_map_chunks(tables.bundles, tables.bundles.len() as int);

        let mut files: Vec<File> = Vec::new();
        let fes: &[FileEntry] = file_entries.as_slice();
        let nf: usize = fes.len();
        let mut i: usize = 0;
        proof {
            assert(tables.files.take(0) =~= Seq::<FileEntryV>::empty());
            assert(file_views(files@) =~= Seq::<FileV>::empty());
        }
        while i < nf
            invariant
                bytes@.len() <= u32::MAX,
                spec_read_manifest_tables(bytes@) == Some(tables),
                tables.files == file_entry_views(fes@),
                spec_bundles_fit(tables.bundles),
                tmv == spec_map_tags(tables.tags),
                dmv == spec_map_directories(tables.directories),
                cmv == spec_map_chunks(tables.bundles, tables.bundles.len() as int),
                tag_map_view(mapped_tags@) == tmv,
                directory_map_view(mapped_directories@) == dmv,
                mapped_chunks@ == cmv,
                nf == fes@.len(),
                i <= nf,
                spec_resolve_files(tables.files.take(i as int), tmv, dmv, cmv) == Ok::<
                    Seq<FileV>,
                    ManifestError,
                >(file_views(files@)),
            decreases nf - i,
        {
            let fe: &FileEntry = slice_index_get(fes, i);
            proof {
                assert(tables.files.take(i as int + 1).drop_last() =~= tables.files.take(
                    i as int,
                ));
                assert(tables.files.take(i as int + 1).last() == fe@);
            }
            let ghost old_files = files@;
            match File::parse(fe, &mapped_tags, &mapped_directories, &mapped_chunks) {
                Ok(f) => {
                    files.push(f);
                    proof {
                        assert(file_views(files@) =~= file_views(old_files).push(f@));
                    }
                },
                Err(e) => {
                    proof {
                        assert(spec_resolve_files(tables.files.take(i as int + 1), tmv, dmv, cmv)
                            is Err);
                        lemma_resolve_files_prefix_error(
                            tables.files,
                            tmv,
                            dmv,
                            cmv,
                            i as int + 1,
                        );
                    }
                    return Err(e);
                },
            }
            i = i + 1;
        }
        proof {
            assert(tables.files.take(nf as int) =~= tables.files);
        }

        Ok(
            ManifestData {
                bundle_entries,
                directory_entries,
                file_entries,
                key_entries,
                tag_entries,
                chunking_param_entries,
                files,
            },
        )
    }
}

} // verus!
