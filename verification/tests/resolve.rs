use rman::entries::{BundleEntry, ChunkEntry, FileEntry, TagEntry};
use rman::{File, ManifestData, ManifestError, ResolveFailure};
use std::collections::HashMap;

fn file_entry(directory_id: i64, name: &str, tag_bitmask: u64, chunk_ids: Vec<i64>) -> FileEntry {
    FileEntry {
        id: 7,
        directory_id,
        size: 4,
        name: name.to_owned(),
        tag_bitmask,
        unk5: 0,
        unk6: 0,
        chunk_ids,
        unk8: 0,
        symlink: String::new(),
        unk10: 0,
        chunking_param_id: 0,
        permissions: 0,
    }
}

fn no_tags() -> HashMap<u8, String> {
    HashMap::new()
}

fn no_chunks() -> HashMap<i64, (i64, u32, u32, u32)> {
    HashMap::new()
}

#[test]
fn path_resolution_walks_to_the_root() {
    let mut directories = HashMap::new();
    directories.insert(0i64, (String::new(), 0i64));
    directories.insert(1i64, ("Test".to_owned(), 0i64));

    let entry = file_entry(1, "file.txt", 0, vec![]);
    let file = File::parse(&entry, &no_tags(), &directories, &no_chunks()).unwrap();
    assert_eq!(file.path, "Test/file.txt");
    assert_eq!(file.name, "file.txt");
}

#[test]
fn nested_directories_concatenate_in_root_to_leaf_order() {
    let mut directories = HashMap::new();
    directories.insert(0i64, (String::new(), 0i64));
    directories.insert(1i64, ("outer".to_owned(), 0i64));
    directories.insert(2i64, ("inner".to_owned(), 1i64));

    let entry = file_entry(2, "file.txt", 0, vec![]);
    let file = File::parse(&entry, &no_tags(), &directories, &no_chunks()).unwrap();
    assert_eq!(file.path, "outer/inner/file.txt");
}

#[test]
fn bitmask_expansion_selects_tags_in_ascending_bit_order() {
    let mut tags = HashMap::new();
    tags.insert(1u8, "en_US".to_owned());
    tags.insert(3u8, "mature".to_owned());

    let entry = file_entry(0, "file.txt", 0b101, vec![]);
    let file = File::parse(&entry, &tags, &HashMap::new(), &no_chunks()).unwrap();
    assert_eq!(file.tags, vec!["en_US".to_owned(), "mature".to_owned()]);
}

#[test]
fn bitmask_bits_without_a_tag_are_silently_omitted() {
    let mut tags = HashMap::new();
    tags.insert(1u8, "en_US".to_owned());

    // bit 1 selects tag id 2, which the index does not know
    let entry = file_entry(0, "file.txt", 0b011, vec![]);
    let file = File::parse(&entry, &tags, &HashMap::new(), &no_chunks()).unwrap();
    assert_eq!(file.tags, vec!["en_US".to_owned()]);
}

#[test]
fn missing_directory_fails_naming_the_id() {
    let directories = HashMap::new();
    let entry = file_entry(99, "file.txt", 0, vec![]);
    let error = File::parse(&entry, &no_tags(), &directories, &no_chunks()).unwrap_err();
    assert_eq!(
        error,
        ManifestError::FileParseError(ResolveFailure::MissingDirectory(99))
    );
}

#[test]
fn missing_chunk_fails_naming_the_id() {
    let mut directories = HashMap::new();
    directories.insert(0i64, (String::new(), 0i64));
    let mut chunks = no_chunks();
    chunks.insert(5i64, (0i64, 0u32, 4u32, 4u32));

    let entry = file_entry(0, "file.txt", 0, vec![5, 42]);
    let error = File::parse(&entry, &no_tags(), &directories, &chunks).unwrap_err();
    assert_eq!(
        error,
        ManifestError::FileParseError(ResolveFailure::MissingChunk(42))
    );
}

#[test]
fn cyclic_parent_pointers_are_rejected() {
    let mut directories = HashMap::new();
    directories.insert(1i64, ("a".to_owned(), 2i64));
    directories.insert(2i64, ("b".to_owned(), 1i64));

    let entry = file_entry(1, "file.txt", 0, vec![]);
    let error = File::parse(&entry, &no_tags(), &directories, &no_chunks()).unwrap_err();
    assert!(matches!(
        error,
        ManifestError::FileParseError(ResolveFailure::DirectoryCycle(_))
    ));
}

#[test]
fn resolved_chunks_keep_the_entry_order() {
    let mut directories = HashMap::new();
    directories.insert(0i64, (String::new(), 0i64));
    let mut chunks = no_chunks();
    chunks.insert(10i64, (1i64, 0u32, 8u32, 6u32));
    chunks.insert(11i64, (1i64, 6u32, 8u32, 7u32));

    let entry = file_entry(0, "file.txt", 0, vec![11, 10]);
    let file = File::parse(&entry, &no_tags(), &directories, &chunks).unwrap();
    assert_eq!(file.chunks, vec![(1, 6, 8, 7), (1, 0, 8, 6)]);
}

#[test]
fn chunk_offsets_accumulate_compressed_sizes() {
    let bundle = BundleEntry {
        id: 3,
        chunks: vec![
            ChunkEntry { id: 100, compressed_size: 10, uncompressed_size: 40 },
            ChunkEntry { id: 101, compressed_size: 20, uncompressed_size: 50 },
            ChunkEntry { id: 102, compressed_size: 5, uncompressed_size: 60 },
        ],
    };
    let map = ManifestData::map_chunks(&[bundle]).unwrap();
    assert_eq!(map[&100], (3, 0, 40, 10));
    assert_eq!(map[&101], (3, 10, 50, 20));
    assert_eq!(map[&102], (3, 30, 60, 5));
}

#[test]
fn oversized_bundles_are_a_conversion_failure() {
    let bundle = BundleEntry {
        id: 0,
        chunks: vec![
            ChunkEntry { id: 0, compressed_size: u32::MAX, uncompressed_size: 0 },
            ChunkEntry { id: 1, compressed_size: 1, uncompressed_size: 0 },
        ],
    };
    let error = ManifestData::map_chunks(&[bundle]).unwrap_err();
    assert_eq!(error, ManifestError::ConversionFailure);
}

#[test]
fn later_duplicate_tag_ids_overwrite_earlier_ones() {
    let tags = vec![
        TagEntry { id: 1, name: "first".to_owned() },
        TagEntry { id: 1, name: "second".to_owned() },
    ];
    let map = ManifestData::map_tags(&tags);
    assert_eq!(map.len(), 1);
    assert_eq!(map[&1], "second");
}

#[test]
fn duplicate_chunk_ids_keep_the_last_descriptor() {
    let bundles = vec![
        BundleEntry {
            id: 1,
            chunks: vec![ChunkEntry { id: 9, compressed_size: 4, uncompressed_size: 4 }],
        },
        BundleEntry {
            id: 2,
            chunks: vec![ChunkEntry { id: 9, compressed_size: 8, uncompressed_size: 8 }],
        },
    ];
    let map = ManifestData::map_chunks(&bundles).unwrap();
    assert_eq!(map.len(), 1);
    assert_eq!(map[&9], (2, 0, 8, 8));
}
