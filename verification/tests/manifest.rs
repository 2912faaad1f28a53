use rman::{DecodeOptions, ManifestError, RiotManifest};

// ---- payload builder -------------------------------------------------
//
// Builds the tabular binary payload the way the manifest encoder lays it
// out: a root offset, tables that point backwards at their vtables, and
// forward offsets to strings, vectors and child tables.

fn patch_u32(buf: &mut Vec<u8>, at: u32, val: u32) {
    buf[at as usize..at as usize + 4].copy_from_slice(&val.to_le_bytes());
}

/// Appends a table whose fields are all stored inline, in field order,
/// with a trailing vtable; returns the table position and the position of
/// each field.
fn table(buf: &mut Vec<u8>, fields: &[&[u8]]) -> (u32, Vec<u32>) {
    let t = buf.len() as u32;
    buf.extend_from_slice(&0i32.to_le_bytes());
    let mut offs: Vec<u16> = Vec::new();
    let mut positions: Vec<u32> = Vec::new();
    for f in fields {
        offs.push((buf.len() as u32 - t) as u16);
        positions.push(buf.len() as u32);
        buf.extend_from_slice(f);
    }
    let v = buf.len() as u32;
    let vt_len = 4 + 2 * fields.len() as u16;
    let obj_len = (v - t) as u16;
    buf.extend_from_slice(&vt_len.to_le_bytes());
    buf.extend_from_slice(&obj_len.to_le_bytes());
    for o in &offs {
        buf.extend_from_slice(&o.to_le_bytes());
    }
    let soffset = (t as i64 - v as i64) as i32;
    buf[t as usize..t as usize + 4].copy_from_slice(&soffset.to_le_bytes());
    (t, positions)
}

/// Patches the `u32` at `field_pos` to be a forward offset to `target`.
fn patch_ref(buf: &mut Vec<u8>, field_pos: u32, target: u32) {
    patch_u32(buf, field_pos, target - field_pos);
}

/// Appends a length-prefixed string and returns its position.
fn push_string(buf: &mut Vec<u8>, s: &str) -> u32 {
    let p = buf.len() as u32;
    buf.extend_from_slice(&(s.len() as u32).to_le_bytes());
    buf.extend_from_slice(s.as_bytes());
    p
}

/// Appends a vector of `i64` and returns its position.
fn push_vec_i64(buf: &mut Vec<u8>, items: &[i64]) -> u32 {
    let p = buf.len() as u32;
    buf.extend_from_slice(&(items.len() as u32).to_le_bytes());
    for x in items {
        buf.extend_from_slice(&x.to_le_bytes());
    }
    p
}

/// Appends a vector of `n` table references, to be patched one by one;
/// returns the vector position and the position of each element.
fn push_vec_refs(buf: &mut Vec<u8>, n: u32) -> (u32, Vec<u32>) {
    let p = buf.len() as u32;
    buf.extend_from_slice(&n.to_le_bytes());
    let mut positions = Vec::new();
    for _ in 0..n {
        positions.push(buf.len() as u32);
        buf.extend_from_slice(&0u32.to_le_bytes());
    }
    (p, positions)
}

struct DirSpec {
    id: i64,
    parent_id: i64,
    name: &'static str,
}

struct TagSpec {
    id: u8,
    name: &'static str,
}

struct FileSpec {
    id: i64,
    directory_id: i64,
    size: u32,
    name: &'static str,
    tag_bitmask: u64,
    chunk_ids: Vec<i64>,
    symlink: &'static str,
}

struct ChunkSpec {
    id: i64,
    compressed_size: u32,
    uncompressed_size: u32,
}

struct BundleSpec {
    id: u64,
    chunks: Vec<ChunkSpec>,
}

/// Builds a whole payload with the six root tables in schema order.
fn build_payload(
    bundles: &[BundleSpec],
    tags: &[TagSpec],
    files: &[FileSpec],
    dirs: &[DirSpec],
    keys: &[(u16, u32)],
    params: &[(u16, u8, u32, u32, u32)],
) -> Vec<u8> {
    let mut buf: Vec<u8> = vec![0, 0, 0, 0];
    let (root, rf) = table(
        &mut buf,
        &[&[0; 4], &[0; 4], &[0; 4], &[0; 4], &[0; 4], &[0; 4]],
    );
    patch_u32(&mut buf, 0, root);

    // bundles
    let (vec_pos, elems) = push_vec_refs(&mut buf, bundles.len() as u32);
    patch_ref(&mut buf, rf[0], vec_pos);
    for (i, b) in bundles.iter().enumerate() {
        let (t, bf) = table(&mut buf, &[&b.id.to_le_bytes(), &[0; 4]]);
        patch_ref(&mut buf, elems[i], t);
        let (cv, celems) = push_vec_refs(&mut buf, b.chunks.len() as u32);
        patch_ref(&mut buf, bf[1], cv);
        for (j, c) in b.chunks.iter().enumerate() {
            let (ct, _) = table(
                &mut buf,
                &[
                    &c.id.to_le_bytes(),
                    &c.compressed_size.to_le_bytes(),
                    &c.uncompressed_size.to_le_bytes(),
                ],
            );
            patch_ref(&mut buf, celems[j], ct);
        }
    }

    // tags
    let (vec_pos, elems) = push_vec_refs(&mut buf, tags.len() as u32);
    patch_ref(&mut buf, rf[1], vec_pos);
    for (i, tag) in tags.iter().enumerate() {
        let (t, tf) = table(&mut buf, &[&[tag.id], &[0; 4]]);
        patch_ref(&mut buf, elems[i], t);
        let s = push_string(&mut buf, tag.name);
        patch_ref(&mut buf, tf[1], s);
    }

    // files
    let (vec_pos, elems) = push_vec_refs(&mut buf, files.len() as u32);
    patch_ref(&mut buf, rf[2], vec_pos);
    for (i, f) in files.iter().enumerate() {
        let (t, ff) = table(
            &mut buf,
            &[
                &f.id.to_le_bytes(),
                &f.directory_id.to_le_bytes(),
                &f.size.to_le_bytes(),
                &[0; 4],
                &f.tag_bitmask.to_le_bytes(),
                &[0],
                &[0],
                &[0; 4],
                &[0],
                &[0; 4],
                &0u16.to_le_bytes(),
                &[0],
                &[0],
            ],
        );
        patch_ref(&mut buf, elems[i], t);
        let s = push_string(&mut buf, f.name);
        patch_ref(&mut buf, ff[3], s);
        let ids = push_vec_i64(&mut buf, &f.chunk_ids);
        patch_ref(&mut buf, ff[7], ids);
        let s = push_string(&mut buf, f.symlink);
        patch_ref(&mut buf, ff[9], s);
    }

    // directories
    let (vec_pos, elems) = push_vec_refs(&mut buf, dirs.len() as u32);
    patch_ref(&mut buf, rf[3], vec_pos);
    for (i, d) in dirs.iter().enumerate() {
        let (t, df) = table(
            &mut buf,
            &[&d.id.to_le_bytes(), &d.parent_id.to_le_bytes(), &[0; 4]],
        );
        patch_ref(&mut buf, elems[i], t);
        let s = push_string(&mut buf, d.name);
        patch_ref(&mut buf, df[2], s);
    }

    // keys
    let (vec_pos, elems) = push_vec_refs(&mut buf, keys.len() as u32);
    patch_ref(&mut buf, rf[4], vec_pos);
    for (i, k) in keys.iter().enumerate() {
        let (t, _) = table(&mut buf, &[&k.0.to_le_bytes(), &k.1.to_le_bytes()]);
        patch_ref(&mut buf, elems[i], t);
    }

    // chunking params
    let (vec_pos, elems) = push_vec_refs(&mut buf, params.len() as u32);
    patch_ref(&mut buf, rf[5], vec_pos);
    for (i, p) in params.iter().enumerate() {
        let (t, _) = table(
            &mut buf,
            &[
                &p.0.to_le_bytes(),
                &[p.1],
                &p.2.to_le_bytes(),
                &p.3.to_le_bytes(),
                &p.4.to_le_bytes(),
            ],
        );
        patch_ref(&mut buf, elems[i], t);
    }

    buf
}

/// Frames a payload the way the encoder does: header, then the payload
/// zstd-compressed at a high level.
fn build_manifest(payload: &[u8]) -> Vec<u8> {
    let compressed = zstd::bulk::compress(payload, 19).expect("error compressing");
    let mut out = Vec::new();
    out.extend_from_slice(&[b'R', b'M', b'A', b'N']);
    out.push(2);
    out.push(0);
    out.extend_from_slice(&512u16.to_le_bytes());
    out.extend_from_slice(&28u32.to_le_bytes());
    out.extend_from_slice(&(compressed.len() as u32).to_le_bytes());
    out.extend_from_slice(&0u64.to_le_bytes());
    out.extend_from_slice(&(payload.len() as u32).to_le_bytes());
    out.extend_from_slice(&compressed);
    out
}

fn valid_manifest() -> Vec<u8> {
    let bundle_data = b"TEST";
    let compressed_bundle = zstd::bulk::compress(bundle_data, 19).unwrap();
    let payload = build_payload(
        &[BundleSpec {
            id: 0,
            chunks: vec![ChunkSpec {
                id: 0,
                compressed_size: compressed_bundle.len() as u32,
                uncompressed_size: bundle_data.len() as u32,
            }],
        }],
        &[TagSpec { id: 0, name: "en_US" }],
        &[FileSpec {
            id: 0,
            directory_id: 1,
            size: 0,
            name: "file.txt",
            tag_bitmask: 0,
            chunk_ids: vec![0],
            symlink: "",
        }],
        &[
            DirSpec { id: 0, parent_id: 0, name: "" },
            DirSpec { id: 1, parent_id: 0, name: "Test" },
        ],
        &[(1, 4)],
        &[(0, 3, 2, 8, 32)],
    );
    build_manifest(&payload)
}

fn valid_empty_manifest() -> Vec<u8> {
    let payload = build_payload(&[], &[], &[], &[], &[], &[]);
    build_manifest(&payload)
}

// ---- tests ------------------------------------------------------------

#[test]
pub fn should_parse_from_path_when_valid_manifest() {
    let bytes = valid_manifest();
    if let Err(error) = RiotManifest::parse(&bytes, DecodeOptions::default()) {
        panic!(
            "there was an error when trying to parse the manifest, manifest: {:?}",
            error
        );
    };
}

#[test]
pub fn should_have_correct_values_when_valid_manifest() {
    let bytes = valid_manifest();
    let manifest = RiotManifest::parse(&bytes, DecodeOptions::default()).unwrap();

    assert_eq!(
        manifest.data.bundle_entries.len(),
        1,
        "should have 1 bundle entry"
    );
    assert_eq!(
        manifest.data.bundle_entries[0].chunks.len(),
        1,
        "bundle entry should have 1 chunk"
    );
    assert_eq!(
        manifest.data.directory_entries.len(),
        2,
        "should have 2 directory entries"
    );
    assert_eq!(
        manifest.data.file_entries.len(),
        1,
        "should have 1 file entry"
    );
    assert_eq!(manifest.data.files.len(), 1, "should parse into 1 file");
    assert_eq!(
        manifest.data.key_entries.len(),
        1,
        "should have 1 key entry"
    );
    assert_eq!(
        manifest.data.tag_entries.len(),
        1,
        "should have 1 tag entry"
    );
    assert_eq!(
        manifest.data.chunking_param_entries.len(),
        1,
        "should have 1 chunking param entry"
    );
}

#[test]
pub fn should_parse_from_path_when_valid_empty_manifest() {
    let bytes = valid_empty_manifest();
    if let Err(error) = RiotManifest::parse(&bytes, DecodeOptions::default()) {
        panic!(
            "there was an error when trying to parse the manifest, manifest: {:?}",
            error
        );
    };
}

#[test]
pub fn should_have_correct_values_when_valid_empty_manifest() {
    let bytes = valid_empty_manifest();
    let manifest = RiotManifest::parse(&bytes, DecodeOptions::default()).unwrap();

    assert_eq!(
        manifest.data.bundle_entries.len(),
        0,
        "should have 0 bundle entries"
    );
    assert_eq!(
        manifest.data.directory_entries.len(),
        0,
        "should have 0 directory entries"
    );
    assert_eq!(
        manifest.data.file_entries.len(),
        0,
        "should have 0 file entries"
    );
    assert_eq!(manifest.data.files.len(), 0, "should parse into 0 files");
    assert_eq!(
        manifest.data.key_entries.len(),
        0,
        "should have 0 key entries"
    );
    assert_eq!(
        manifest.data.tag_entries.len(),
        0,
        "should have 0 tag entries"
    );
    assert_eq!(
        manifest.data.chunking_param_entries.len(),
        0,
        "should have 0 chunking param entries"
    );
}

#[test]
fn decoded_entries_carry_the_encoded_values() {
    let bytes = valid_manifest();
    let manifest = RiotManifest::parse(&bytes, DecodeOptions::default()).unwrap();

    let dir = &manifest.data.directory_entries[1];
    assert_eq!(dir.id, 1);
    assert_eq!(dir.parent_id, 0);
    assert_eq!(dir.name, "Test");

    let tag = &manifest.data.tag_entries[0];
    assert_eq!(tag.id, 0);
    assert_eq!(tag.name, "en_US");

    let key = &manifest.data.key_entries[0];
    assert_eq!((key.unk0, key.unk1), (1, 4));

    let param = &manifest.data.chunking_param_entries[0];
    assert_eq!(param.chunking_version, 3);
    assert_eq!(param.min_chunk_size, 2);
    assert_eq!(param.chunk_size, 8);
    assert_eq!(param.max_chunk_size, 32);

    let file = &manifest.data.files[0];
    assert_eq!(file.name, "file.txt");
    assert_eq!(file.path, "Test/file.txt");
    assert_eq!(file.chunks.len(), 1);
}

#[test]
fn non_ascii_names_survive_decoding() {
    let payload = build_payload(
        &[],
        &[],
        &[],
        &[DirSpec { id: 0, parent_id: 0, name: "r\u{e9}pertoire" }],
        &[],
        &[],
    );
    let bytes = build_manifest(&payload);
    let manifest = RiotManifest::parse(&bytes, DecodeOptions::default()).unwrap();
    assert_eq!(manifest.data.directory_entries[0].name, "r\u{e9}pertoire");
}

#[test]
fn decoding_twice_yields_equal_results() {
    let bytes = valid_manifest();
    let first = RiotManifest::parse(&bytes, DecodeOptions::default()).unwrap();
    let second = RiotManifest::parse(&bytes, DecodeOptions::default()).unwrap();
    assert_eq!(first.header, second.header);
    assert_eq!(first.data, second.data);
    assert_eq!(first, second);
    assert_eq!(first.manifest_header(), &first.header);
    assert_eq!(first.manifest(), &first.data);
}

#[test]
fn structural_damage_is_a_flatbuffer_error() {
    // a payload too short to even hold the root offset
    let bytes = build_manifest(&[1, 2]);
    let error = RiotManifest::parse(&bytes, DecodeOptions::default()).unwrap_err();
    assert!(matches!(error, ManifestError::FlatbufferError));

    // a root offset pointing past the end of the payload
    let bytes = build_manifest(&u32::MAX.to_le_bytes());
    let error = RiotManifest::parse(&bytes, DecodeOptions::default()).unwrap_err();
    assert!(matches!(error, ManifestError::FlatbufferError));
}

#[test]
fn corrupt_compressed_payload_is_a_zstd_error() {
    let payload = build_payload(&[], &[], &[], &[], &[], &[]);
    let mut bytes = build_manifest(&payload);
    // damage the compressed frame's magic
    bytes[28] ^= 0xFF;
    let error = RiotManifest::parse(&bytes, DecodeOptions::default()).unwrap_err();
    assert!(matches!(error, ManifestError::ZstdDecompressError));
}

#[test]
fn wrong_declared_length_is_a_zstd_error() {
    let payload = build_payload(&[], &[], &[], &[], &[], &[]);
    let mut bytes = build_manifest(&payload);
    // declare one byte less than the payload decompresses to
    let wrong = (payload.len() as u32 - 1).to_le_bytes();
    bytes[24..28].copy_from_slice(&wrong);
    let error = RiotManifest::parse(&bytes, DecodeOptions::default()).unwrap_err();
    assert!(matches!(error, ManifestError::ZstdDecompressError));
}

#[test]
fn unresolved_references_surface_from_the_pipeline() {
    // a file referencing directory id 99 that no table defines
    let payload = build_payload(
        &[],
        &[],
        &[FileSpec {
            id: 0,
            directory_id: 99,
            size: 0,
            name: "file.txt",
            tag_bitmask: 0,
            chunk_ids: vec![],
            symlink: "",
        }],
        &[DirSpec { id: 0, parent_id: 0, name: "" }],
        &[],
        &[],
    );
    let bytes = build_manifest(&payload);
    let error = RiotManifest::parse(&bytes, DecodeOptions::default()).unwrap_err();
    assert_eq!(
        error,
        ManifestError::FileParseError(rman::ResolveFailure::MissingDirectory(99))
    );
}
