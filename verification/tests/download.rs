use rman::{bundle_file_name, decompress_exact, range_end, File, ManifestError};

fn two_chunk_file() -> File {
    File {
        id: 1,
        name: "file.bin".to_owned(),
        permissions: 0,
        size: 9,
        path: "file.bin".to_owned(),
        symlink: String::new(),
        tags: vec![],
        chunks: vec![(0x0A, 0, 5, 7), (0x0B, 7, 4, 3)],
    }
}

#[test]
fn download_steps_follow_chunk_order() {
    let file = two_chunk_file();
    let steps = file.download_steps();
    assert_eq!(steps.len(), 2);

    assert_eq!(steps[0].bundle_name, "000000000000000A.bundle");
    assert_eq!(steps[0].range_from, 0);
    assert_eq!(steps[0].range_len, 7);
    assert_eq!(steps[0].uncompressed_size, 5);

    assert_eq!(steps[1].bundle_name, "000000000000000B.bundle");
    assert_eq!(steps[1].range_from, 7);
    assert_eq!(steps[1].range_len, 3);
    assert_eq!(steps[1].uncompressed_size, 4);
}

#[test]
fn downloaded_chunks_reassemble_in_order() {
    // the file's two chunks, compressed independently, laid back to back
    // inside one bundle blob
    let part1 = zstd::bulk::compress(b"HELLO", 3).unwrap();
    let part2 = zstd::bulk::compress(b" WORLD", 3).unwrap();
    let bundle: Vec<u8> = [part1.clone(), part2.clone()].concat();

    let file = File {
        id: 1,
        name: "file.bin".to_owned(),
        permissions: 0,
        size: 11,
        path: "file.bin".to_owned(),
        symlink: String::new(),
        tags: vec![],
        chunks: vec![
            (1, 0, 5, part1.len() as u32),
            (1, part1.len() as u32, 6, part2.len() as u32),
        ],
    };

    // drive the plan the way a downloader would: fetch the planned byte
    // range, decompress, append — order must reproduce the file
    let mut output: Vec<u8> = Vec::new();
    for step in file.download_steps() {
        let from = step.range_from as usize;
        let to = range_end(step.range_from, step.range_len) as usize;
        let fetched = &bundle[from..=to];
        let chunk = decompress_exact(fetched, step.uncompressed_size).unwrap();
        output.extend_from_slice(&chunk);
    }
    assert_eq!(output, b"HELLO WORLD");
}

#[test]
fn bundle_names_are_fixed_width_uppercase_hex() {
    assert_eq!(bundle_file_name(0), "0000000000000000.bundle");
    assert_eq!(bundle_file_name(0x123ABC), "0000000000123ABC.bundle");
    assert_eq!(bundle_file_name(-1), "FFFFFFFFFFFFFFFF.bundle");
    assert_eq!(
        bundle_file_name(0x0123_4567_89AB_CDEF),
        "0123456789ABCDEF.bundle"
    );
}

#[test]
fn range_bounds_are_inclusive() {
    assert_eq!(range_end(0, 1), 0);
    assert_eq!(range_end(10, 20), 29);
}

#[test]
fn chunk_decompression_checks_the_declared_length() {
    let frame = zstd::bulk::compress(b"TEST", 19).unwrap();
    assert_eq!(decompress_exact(&frame, 4).unwrap(), b"TEST");

    // declared length differs from the frame's content
    let error = decompress_exact(&frame, 3).unwrap_err();
    assert_eq!(error, ManifestError::ZstdDecompressError);

    // a frame the codec rejects
    let error = decompress_exact(&[0xDE, 0xAD, 0xBE, 0xEF], 4).unwrap_err();
    assert_eq!(error, ManifestError::ZstdDecompressError);
}
