//! Resolved file descriptors and the rules that produce them.
//!
//! A raw [`FileEntry`] names its directory, tags and chunks by id; this
//! module cross-references those ids against the three lookup indices that
//! [`ManifestData::parse`](crate::ManifestData::parse) builds, producing a
//! self-contained [`File`] whose path, tag names and chunk descriptors are
//! spelled out.

use crate::entries::{FileEntry, FileEntryV};
use crate::error::{ManifestError, ResolveFailure};
use crate::table::string_from_utf8;
use std::collections::HashMap;
use vstd::prelude::*;
use vstd::string::StringExecFns;
use vstd::utf8::{
    decode_utf8, encode_utf8, encode_utf8_decode_utf8, encode_utf8_valid_utf8, is_ascii_chars,
    is_ascii_chars_encode_utf8, valid_utf8,
};

verus! {

/// Single file object.
///
/// Represents a file and its properties, ready to be downloaded chunk by
/// chunk and written to a file system.
#[derive(Debug, Default, Clone, PartialEq, Eq)]
pub struct File {
    /// Id of the file.
    pub id: i64,
    /// File name.
    pub name: String,
    /// Permissions for the given file.
    pub permissions: u8,
    /// Size of the file entry in bytes.
    pub size: u32,
    /// Absolute path to the file, rooted at the directory table's root.
    pub path: String,
    /// Symbolic link of the file; empty when the file is none.
    pub symlink: String,
    /// The names of the applicable tags, in ascending bit order.
    pub tags: Vec<String>,
    /// The file's chunks, in write order.
    ///
    /// Each tuple holds `bundle_id`, `offset` in that bundle,
    /// `uncompressed_size`, and `compressed_size`, in that order.
    pub chunks: Vec<(i64, u32, u32, u32)>,
}

/// Mathematical image of a [`File`].
pub struct FileV {
    /// Id of the file.
    pub id: i64,
    /// File name.
    pub name: Seq<char>,
    /// Permissions for the given file.
    pub permissions: u8,
    /// Size of the file entry in bytes.
    pub size: u32,
    /// Absolute path to the file.
    pub path: Seq<char>,
    /// Symbolic link of the file.
    pub symlink: Seq<char>,
    /// The names of the applicable tags, in ascending bit order.
    pub tags: Seq<Seq<char>>,
    /// The file's chunks, in write order.
    pub chunks: Seq<(i64, u32, u32, u32)>,
}

impl View for File {
    type V = FileV;

    open spec fn view(&self) -> FileV {
        FileV {
            id: self.id,
            name: self.name@,
            permissions: self.permissions,
            size: self.size,
            path: self.path@,
            symlink: self.symlink@,
            tags: self.tags@.map_values(|s: String| s@),
            chunks: self.chunks@,
        }
    }
}

/// The views of a sequence of files.
pub open spec fn file_views(s: Seq<File>) -> Seq<FileV> {
    s.map_values(|f: File| f@)
}

/// The tag index seen mathematically: names as character sequences.
pub open spec fn tag_map_view(m: Map<u8, String>) -> Map<u8, Seq<char>> {
    m.map_values(|s: String| s@)
}

/// The directory index seen mathematically: names as character sequences.
pub open spec fn directory_map_view(m: Map<i64, (String, i64)>) -> Map<i64, (Seq<char>, i64)> {
    m.map_values(|p: (String, i64)| (p.0@, p.1))
}

/// The path of directory `id`: the walk towards the root prepends each
/// directory's name and a separator, and stops at id 0, the root.  A
/// missing directory fails naming its id; running out of `fuel` means the
/// parent pointers cycle, which fails naming the id the walk was on.
pub open spec fn spec_resolve_path(
    dirs: Map<i64, (Seq<char>, i64)>,
    id: i64,
    fuel: nat,
) -> Result<Seq<char>, ManifestError>
    decreases fuel,
{
    if id == 0 {
        Ok(Seq::empty())
    } else if !dirs.contains_key(id) {
        Err(ManifestError::FileParseError(ResolveFailure::MissingDirectory(id)))
    } else if fuel == 0 {
        Err(ManifestError::FileParseError(ResolveFailure::DirectoryCycle(id)))
    } else {
        match spec_resolve_path(dirs, dirs[id].1, (fuel - 1) as nat) {
            Ok(p) => Ok(p + dirs[id].0 + seq!['/']),
            Err(e) => Err(e),
        }
    }
}

/// The tag names selected by the low `n` bits of `mask`, in ascending bit
/// order: bit `i` set selects the tag with id `i + 1`; a set bit whose id
/// the index does not know is silently skipped.
pub open spec fn spec_expand_tags(mask: u64, tags: Map<u8, Seq<char>>, n: nat) -> Seq<Seq<char>>
    recommends
        n <= 64,
    decreases n,
{
    if n == 0 {
        Seq::empty()
    } else {
        let prev = spec_expand_tags(mask, tags, (n - 1) as nat);
        if (mask >> ((n - 1) as u64)) & 1 == 1 && tags.contains_key(n as u8) {
            prev.push(tags[n as u8])
        } else {
            prev
        }
    }
}

/// The chunk descriptors for `ids`, in input order; the first id absent
/// from the chunk index fails naming that id.
pub open spec fn spec_resolve_chunks(
    chunks: Map<i64, (i64, u32, u32, u32)>,
    ids: Seq<i64>,
) -> Result<Seq<(i64, u32, u32, u32)>, ManifestError>
    decreases ids.len(),
{
    if ids.len() == 0 {
        Ok(Seq::empty())
    } else {
        match spec_resolve_chunks(chunks, ids.drop_last()) {
            Err(e) => Err(e),
            Ok(s) => {
                let id = ids.last();
                if chunks.contains_key(id) {
                    Ok(s.push(chunks[id]))
                } else {
                    Err(ManifestError::FileParseError(ResolveFailure::MissingChunk(id)))
                }
            },
        }
    }
}

/// An error on a prefix of the chunk-id list decides the whole list.
proof fn lemma_resolve_chunks_prefix_error(
    chunks: Map<i64, (i64, u32, u32, u32)>,
    ids: Seq<i64>,
    k: int,
)
    requires
        0 <= k <= ids.len(),
        spec_resolve_chunks(chunks, ids.take(k)) is Err,
    ensures
        spec_resolve_chunks(chunks, ids) == spec_resolve_chunks(chunks, ids.take(k)),
    decreases ids.len() - k,
{
    if k == ids.len() {
        assert(ids.take(k) =~= ids);
    } else {
        assert(ids.take(k + 1).drop_last() =~= ids.take(k));
        assert(spec_resolve_chunks(chunks, ids.take(k + 1)) == spec_resolve_chunks(
            chunks,
            ids.take(k),
        ));
        lemma_resolve_chunks_prefix_error(chunks, ids, k + 1);
    }
}

/// The file `f` resolved against the three indices: path first, then the
/// chunk list; the tag expansion cannot fail.  The fuel handed to the path
/// walk is the number of directories, which any acyclic walk stays within.
pub open spec fn spec_resolve_file(
    f: FileEntryV,
    tags: Map<u8, Seq<char>>,
    dirs: Map<i64, (Seq<char>, i64)>,
    chunks: Map<i64, (i64, u32, u32, u32)>,
) -> Result<FileV, ManifestError> {
    match spec_resolve_path(dirs, f.directory_id, dirs.dom().len()) {
        Err(e) => Err(e),
        Ok(p) => match spec_resolve_chunks(chunks, f.chunk_ids) {
            Err(e) => Err(e),
            Ok(cs) => Ok(
                FileV {
                    id: f.id,
                    name: f.name,
                    permissions: f.permissions,
                    size: f.size,
                    path: p + f.name,
                    symlink: f.symlink,
                    tags: spec_expand_tags(f.tag_bitmask, tags, 64),
                    chunks: cs,
                },
            ),
        },
    }
}

impl File {
    /// Parses a [`FileEntry`] into a [`File`] object.
    ///
    /// The three maps are the lookup indices built from the decoded entry
    /// tables: `tag_entries` maps a tag id to its name, `directories` maps
    /// a directory id to its name and parent id, and `chunk_entries` maps
    /// a chunk id to its bundle id, offset in that bundle, uncompressed
    /// size and compressed size.
    ///
    /// The result is exactly what [`spec_resolve_file`] names: the path
    /// walked from the file's directory to the root, the tag names in
    /// ascending bit order, and the chunk descriptors in the entry's
    /// order.  A directory or chunk id that the indices do not know fails
    /// with [`ManifestError::FileParseError`] naming that id, as does a
    /// directory table whose parent pointers cycle.
    pub fn parse(
        file: &FileEntry,
        tag_entries: &HashMap<u8, String>,
        directories: &HashMap<i64, (String, i64)>,
        chunk_entries: &HashMap<i64, (i64, u32, u32, u32)>,
    ) -> (r: Result<File, ManifestError>)
        ensures
            ({
                let result = spec_resolve_file(
                    file@,
                    tag_map_view(tag_entries@),
                    directory_map_view(directories@),
                    chunk_entries@,
                );
                match r {
                    Ok(f) => result == Ok::<FileV, ManifestError>(f@),
                    Err(e) => result == Err::<FileV, ManifestError>(e),
                }
            }),
    {
        let ghost tv = tag_map_view(tag_entries@);
        let ghost dv = directory_map_view(directories@);
        let ghost cv = chunk_entries@;

        let id: i64 = file.id;
        let name: String = file.name.clone();
        let permissions: u8 = file.permissions;
        let size: u32 = file.size;
        let symlink: String = file.symlink.clone();
        let tag_bitmask: u64 = file.tag_bitmask;

        let mut directory_id: i64 = file.directory_id;
        let mut path: String = String::new();
        let mut remaining: usize = directories.len();
        let ghost fuel0 = dv.dom().len();
        proof {
            assert(dv.dom() =~= directories@.dom());
            assert(remaining == fuel0);
            match spec_resolve_path(dv, file@.directory_id, fuel0) {
                Ok(p) => {
                    assert(p + path@ =~= p);
                },
                Err(e) => {},
            }
        }

        while directory_id != 0
            invariant
                dv == directory_map_view(directories@),
                fuel0 == dv.dom().len(),
                spec_resolve_path(dv, file@.directory_id, fuel0) == (match spec_resolve_path(
                    dv,
                    directory_id,
                    remaining as nat,
                ) {
                    Ok(p) => Ok::<Seq<char>, ManifestError>(p + path@),
                    Err(e) => Err::<Seq<char>, ManifestError>(e),
                }),
            decreases remaining,
        {
            match directories.get(&directory_id) {
                Option::None => {
                    proof {
                        assert(!directories@.contains_key(directory_id));
                        assert(!dv.contains_key(directory_id));
                    }
                    return Err(
                        ManifestError::FileParseError(
                            ResolveFailure::MissingDirectory(directory_id),
                        ),
                    );
                },
                Option::Some(entry) => {
                    proof {
                        assert(directories@.contains_key(directory_id));
                        assert(directories@[directory_id] == *entry);
                        assert(dv.contains_key(directory_id));
                        assert(dv[directory_id] == (entry.0@, entry.1));
                    }
                    if remaining == 0 {
                        return Err(
                            ManifestError::FileParseError(
                                ResolveFailure::DirectoryCycle(directory_id),
                            ),
                        );
                    }
                    let dir_name: String = entry.0.clone();
                    let parent: i64 = entry.1;
                    let ghost old_path = path@;
                    let mut new_path: String = dir_name;
                    new_path.append("/");
                    new_path.append(path.as_str());
                    path = new_path;
                    proof {
                        reveal_strlit("/");
                        assert(("/")@ =~= seq!['/']);
                        assert(path@ == entry.0@ + seq!['/'] + old_path);
                        match spec_resolve_path(dv, parent, (remaining - 1) as nat) {
                            Ok(p) => {
                                assert(spec_resolve_path(dv, directory_id, remaining as nat)
                                    == Ok::<Seq<char>, ManifestError>(
                                    p + entry.0@ + seq!['/'],
                                ));
                                assert((p + entry.0@ + seq!['/']) + old_path =~= p + (entry.0@
                                    + seq!['/'] + old_path));
                            },
                            Err(e) => {},
                        }
                    }
                    directory_id = parent;
                    remaining = remaining - 1;
                },
            }
        }
        proof {
            assert(spec_resolve_path(dv, directory_id, remaining as nat) == Ok::<
                Seq<char>,
                ManifestError,
            >(Seq::empty()));
            assert(Seq::<char>::empty() + path@ =~= path@);
            assert(spec_resolve_path(dv, file@.directory_id, fuel0) == Ok::<
                Seq<char>,
                ManifestError,
            >(path@));
        }

        let ghost resolved_dir_path = path@;
        path.append(name.as_str());

        let mut tags: Vec<String> = Vec::new();
        let mut i: u64 = 0;
        while i < 64
            invariant
                i <= 64,
                tv == tag_map_view(tag_entries@),
                tag_bitmask == file@.tag_bitmask,
                tags@.map_values(|s: String| s@) == spec_expand_tags(tag_bitmask, tv, i as nat),
            decreases 64 - i,
        {
            let ghost prev_tags = tags@.map_values(|s: String| s@);
            if tag_bitmask & (1u64 << i) == 0 {
                proof {
                    assert(((tag_bitmask >> i) & 1u64) != 1u64) by (bit_vector)
                        requires
                            tag_bitmask & (1u64 << i) == 0u64,
                            i < 64u64,
                    ;
                }
            } else {
                proof {
                    assert(((tag_bitmask >> i) & 1u64) == 1u64) by (bit_vector)
                        requires
                            tag_bitmask & (1u64 << i) != 0u64,
                            i < 64u64,
                    ;
                }
                let tag_id: u8 = (i + 1) as u8;
                match tag_entries.get(&tag_id) {
                    Option::Some(tag_name) => {
                        proof {
                            assert(tag_entries@.contains_key(tag_id));
                            assert(tag_entries@[tag_id] == *tag_name);
                            assert(tv.contains_key(tag_id));
                            assert(tv[tag_id] == tag_name@);
                        }
                        tags.push(tag_name.clone());
                        proof {
                            assert(tags@.map_values(|s: String| s@) =~= prev_tags.push(
                                tag_name@,
                            ));
                        }
                    },
                    Option::None => {
                        proof {
                            assert(!tag_entries@.contains_key(tag_id));
                            assert(!tv.contains_key(tag_id));
                        }
                    },
                }
            }
            i = i + 1;
        }

        let mut chunks: Vec<(i64, u32, u32, u32)> = Vec::new();
        let ghost ids = file@.chunk_ids;
        let n: usize = file.chunk_ids.len();
        let mut k: usize = 0;
        proof {
            assert(ids.take(0) =~= Seq::<i64>::empty());
        }
        while k < n
            invariant
                dv == directory_map_view(directories@),
                fuel0 == dv.dom().len(),
                spec_resolve_path(dv, file@.directory_id, fuel0) == Ok::<Seq<char>, ManifestError>(
                    resolved_dir_path,
                ),
                cv == chunk_entries@,
                ids == file@.chunk_ids,
                n == file.chunk_ids@.len(),
                k <= n,
                spec_resolve_chunks(cv, ids.take(k as int)) == Ok::<
                    Seq<(i64, u32, u32, u32)>,
                    ManifestError,
                >(chunks@),
            decreases n - k,
        {
            let cid: i64 = file.chunk_ids[k];
            proof {
                assert(ids.take(k as int + 1).drop_last() =~= ids.take(k as int));
                assert(ids.take(k as int + 1).last() == cid);
            }
            match chunk_entries.get(&cid) {
                Option::None => {
                    proof {
                        assert(!cv.contains_key(cid));
                        assert(spec_resolve_chunks(cv, ids.take(k as int + 1))
                            == Err::<Seq<(i64, u32, u32, u32)>, ManifestError>(
                            ManifestError::FileParseError(ResolveFailure::MissingChunk(cid)),
                        ));
                        lemma_resolve_chunks_prefix_error(cv, ids, k as int + 1);
                    }
                    return Err(
                        ManifestError::FileParseError(ResolveFailure::MissingChunk(cid)),
                    );
                },
                Option::Some(c) => {
                    proof {
                        assert(cv.contains_key(cid));
                        assert(cv[cid] == *c);
                    }
                    chunks.push(*c);
                    k = k + 1;
                },
            }
        }
        proof {
            assert(ids.take(n as int) =~= ids);
        }

        let resolved = File { id, name, permissions, size, path, symlink, tags, chunks };
        proof {
            assert(resolved@.path == resolved_dir_path + file@.name);
        }
        Ok(resolved)
    }
}

/// The byte of the uppercase hexadecimal digit for `d`.
pub open spec fn hex_digit_byte(d: int) -> u8
    recommends
        0 <= d < 16,
{
    if d < 10 {
        (0x30 + d) as u8
    } else {
        (0x37 + d) as u8
    }
}

/// The resource name of the bundle with id `id`, as bytes: the id's 64
/// bits as 16 uppercase hexadecimal digits, most significant first, then
/// the `.bundle` suffix.
pub open spec fn spec_bundle_name_bytes(id: u64) -> Seq<u8> {
    Seq::new(16, |i: int| hex_digit_byte(((id >> (((15 - i) * 4) as u64)) & 0xF) as int)) + seq![
        0x2Eu8,
        0x62u8,
        0x75u8,
        0x6Eu8,
        0x64u8,
        0x6Cu8,
        0x65u8,
    ]
}

/// The same resource name as characters.
pub open spec fn spec_bundle_name(id: u64) -> Seq<char> {
    spec_bundle_name_bytes(id).map_values(|b: u8| b as char)
}

/// Builds a string from bytes that are all ASCII; each byte becomes the
/// character with its code.
fn string_from_ascii(bytes: Vec<u8>) -> (r: String)
    requires
        forall|i: int| 0 <= i < bytes@.len() ==> bytes@[i] < 0x80,
    ensures
        r@ == bytes@.map_values(|b: u8| b as char),
{
    let ghost chars = bytes@.map_values(|b: u8| b as char);
    proof {
        assert(is_ascii_chars(chars));
        is_ascii_chars_encode_utf8(chars);
        assert(encode_utf8(chars) =~= bytes@);
        encode_utf8_valid_utf8(chars);
        encode_utf8_decode_utf8(chars);
        assert(valid_utf8(bytes@));
        assert(decode_utf8(bytes@) == chars);
    }
    match string_from_utf8(bytes) {
        Option::Some(s) => s,
        Option::None => {
            proof {
                assert(false);
            }
            String::new()
        },
    }
}

/// The uppercase hexadecimal digit byte for `d`.
fn hex_byte(d: u8) -> (r: u8)
    requires
        d < 16,
    ensures
        r == hex_digit_byte(d as int),
{
    if d < 10 {
        0x30 + d
    } else {
        0x37 + d
    }
}

/// The resource name under which the bundle with id `bundle_id` is
/// published: the id's bits as a fixed-width 16-digit uppercase
/// hexadecimal string, with the `.bundle` suffix.
pub fn bundle_file_name(bundle_id: i64) -> (r: String)
    ensures
        r@ == spec_bundle_name(bundle_id as u64),
{
    let id: u64 = #[verifier::truncate] (bundle_id as u64);
    let mut bytes: Vec<u8> = Vec::new();
    let mut i: usize = 0;
    while i < 16
        invariant
            id == bundle_id as u64,
            i <= 16,
            bytes@.len() == i,
            forall|j: int|
                0 <= j < i ==> bytes@[j] == hex_digit_byte(
                    ((id >> (((15 - j) * 4) as u64)) & 0xF) as int,
                ),
            forall|j: int| 0 <= j < i ==> bytes@[j] < 0x80,
        decreases 16 - i,
    {
        let shift: u64 = 60 - 4 * (i as u64);
        let nibble: u64 = (id >> shift) & 0xF;
        proof {
            assert((id >> shift) & 0xF < 16) by (bit_vector);
        }
        let d: u8 = #[verifier::truncate] (nibble as u8);
        bytes.push(hex_byte(d));
        i = i + 1;
    }
    bytes.push(0x2E);
    bytes.push(0x62);
    bytes.push(0x75);
    bytes.push(0x6E);
    bytes.push(0x64);
    bytes.push(0x6C);
    bytes.push(0x65);
    proof {
        assert(bytes@ =~= spec_bundle_name_bytes(id));
        assert(forall|k: int| 0 <= k < bytes@.len() ==> bytes@[k] < 0x80);
    }
    string_from_ascii(bytes)
}

/// One step of a file's download plan: which bundle resource to fetch,
/// which of its bytes, and what the fetched bytes must decompress to.
#[derive(Debug, Default, Clone, PartialEq, Eq)]
pub struct DownloadStep {
    /// Resource name of the bundle that stores the chunk.
    pub bundle_name: String,
    /// Byte offset of the chunk inside the bundle.
    pub range_from: u64,
    /// Number of compressed bytes the chunk occupies from that offset.
    pub range_len: u32,
    /// The length the fetched bytes must decompress to.
    pub uncompressed_size: u32,
}

/// Mathematical image of a [`DownloadStep`].
pub struct DownloadStepV {
    /// Resource name of the bundle that stores the chunk.
    pub bundle_name: Seq<char>,
    /// Byte offset of the chunk inside the bundle.
    pub range_from: u64,
    /// Number of compressed bytes the chunk occupies from that offset.
    pub range_len: u32,
    /// The length the fetched bytes must decompress to.
    pub uncompressed_size: u32,
}

impl View for DownloadStep {
    type V = DownloadStepV;

    open spec fn view(&self) -> DownloadStepV {
        DownloadStepV {
            bundle_name: self.bundle_name@,
            range_from: self.range_from,
            range_len: self.range_len,
            uncompressed_size: self.uncompressed_size,
        }
    }
}

/// The download step for one chunk descriptor `(bundle_id, offset,
/// uncompressed_size, compressed_size)`.
pub open spec fn spec_download_step(c: (i64, u32, u32, u32)) -> DownloadStepV {
    DownloadStepV {
        bundle_name: spec_bundle_name(c.0 as u64),
        range_from: c.1 as u64,
        range_len: c.3,
        uncompressed_size: c.2,
    }
}

/// Inclusive upper bound of the byte range that starts at `from` and is
/// `len` bytes long, per HTTP range semantics.
pub fn range_end(from: u64, len: u32) -> (r: u64)
    requires
        len >= 1,
        from + len - 1 <= u64::MAX,
    ensures
        r == from + len - 1,
{
    from + (len - 1) as u64
}

impl File {
    /// Plans the download of the associated file's contents.
    ///
    /// Law: the plan lists exactly the file's chunks, one step per chunk,
    /// in the chunk list's order — which is the order the decompressed
    /// bytes must be written in, since each chunk is decompressed
    /// independently and appended as it arrives.
    pub fn download_steps(&self) -> (r: Vec<DownloadStep>)
        ensures
            r@.len() == self@.chunks.len(),
            forall|i: int| 0 <= i < r@.len() ==> #[trigger] r@[i]@ == spec_download_step(
                self@.chunks[i],
            ),
    {
        let mut steps: Vec<DownloadStep> = Vec::new();
        let n: usize = self.chunks.len();
        let mut i: usize = 0;
        while i < n
            invariant
                n == self.chunks@.len(),
                i <= n,
                steps@.len() == i,
                forall|j: int| 0 <= j < i ==> #[trigger] steps@[j]@ == spec_download_step(
                    self.chunks@[j],
                ),
            decreases n - i,
        {
            let c: (i64, u32, u32, u32) = self.chunks[i];
            let step = DownloadStep {
                bundle_name: bundle_file_name(c.0),
                range_from: c.1 as u64,
                range_len: c.3,
                uncompressed_size: c.2,
            };
            steps.push(step);
            i = i + 1;
        }
        steps
    }
}

} // verus!
