use rman::{DecodeOptions, Header, ManifestError};

const VALID_HEADER: [u8; 32] = [
    0x52, 0x4D, 0x41, 0x4E, 0x02, 0x00, 0x00, 0x02, 0x1C, 0x00, 0x00, 0x00, 0x00, 0x00, 0x00,
    0x00, 0xD2, 0x17, 0xC3, 0xEF, 0xAB, 0x4A, 0x9C, 0x2B, 0x60, 0xA4, 0xD0, 0x01, 0x00, 0x00,
    0x00, 0x00,
];

fn lenient() -> DecodeOptions {
    DecodeOptions::default()
}

#[test]
fn should_parse_when_valid_header() {
    if let Err(error) = Header::parse(&VALID_HEADER, lenient()) {
        panic!(
            "there was an error when parsing header, header: {:?}",
            error
        );
    };
}

#[test]
fn should_have_correct_values_when_valid_header() {
    let header = Header::parse(&VALID_HEADER, lenient()).unwrap();

    assert_eq!(header.magic, 0x4E414D52, "magic bytes did not match");
    assert_eq!(header.major, 2, "major version did not match");
    assert_eq!(header.minor, 0, "minor version did not match");
    assert_eq!(header.flags, 512, "flags did not match");
    assert_eq!(header.offset, 28, "offset did not match");
    assert_eq!(header.compressed_size, 0, "compressed size did not match");
    assert_eq!(
        header.manifest_id, 3142468742320166866,
        "manifest id did not match"
    );
    assert_eq!(
        header.uncompressed_size, 30450784,
        "unompressed size did not match"
    );
}

#[test]
fn should_throw_correct_errors_when_eof() {
    // EOF when reading magic bytes
    let error = Header::parse(&VALID_HEADER[..3], lenient())
        .err()
        .expect("did not throw an error on missing bytes");
    match error {
        ManifestError::IoError(_) => (),
        _ => panic!("invalid ManifestError error when eof"),
    };

    // EOF when reading major
    let error = Header::parse(&VALID_HEADER[..4], lenient())
        .err()
        .expect("did not throw an error on missing bytes");
    match error {
        ManifestError::IoError(_) => (),
        _ => panic!("invalid ManifestError error when eof"),
    };

    // EOF when reading minor
    let error = Header::parse(&VALID_HEADER[..5], lenient())
        .err()
        .expect("did not throw an error on missing bytes");
    match error {
        ManifestError::IoError(_) => (),
        _ => panic!("invalid ManifestError error when eof"),
    };

    // EOF when reading flags
    let error = Header::parse(&VALID_HEADER[..7], lenient())
        .err()
        .expect("did not throw an error on missing bytes");
    match error {
        ManifestError::IoError(_) => (),
        _ => panic!("invalid ManifestError error when eof"),
    };

    // EOF when reading offset
    let error = Header::parse(&VALID_HEADER[..11], lenient())
        .err()
        .expect("did not throw an error on missing bytes");
    match error {
        ManifestError::IoError(_) => (),
        _ => panic!("invalid ManifestError error when eof"),
    };

    // it should be impossible for reading to fail at this point, because
    // offset must be greater than 28 and less than the file size, which
    // in turn ensures that the file size is at least 28 bytes
}

#[test]
fn should_error_when_invalid_magic_bytes() {
    let buf = [&[0x53], &VALID_HEADER[1..]].concat();

    let Err(error) = Header::parse(&buf, lenient()) else {
        panic!("did not throw an error");
    };
    let ManifestError::InvalidMagicBytes(..) = error else {
        panic!("some other error was thrown");
    };
}

#[test]
fn should_error_when_invalid_major() {
    let buf = [&VALID_HEADER[..4], &[0x01], &VALID_HEADER[5..]].concat();

    if let Err(_) = Header::parse(&buf, lenient()) {
        panic!("error was thrown")
    }

    let strict = DecodeOptions { strict_major: true, strict_minor: false };
    let Err(error) = Header::parse(&buf, strict) else {
        panic!("did not throw an error");
    };
    let ManifestError::InvalidMajor(..) = error else {
        panic!("some other error was thrown");
    };
}

#[test]
fn should_error_when_invalid_minor() {
    let buf = [&VALID_HEADER[..5], &[0x01], &VALID_HEADER[6..]].concat();

    if let Err(_) = Header::parse(&buf, lenient()) {
        panic!("error was thrown")
    }

    let strict = DecodeOptions { strict_major: false, strict_minor: true };
    let Err(error) = Header::parse(&buf, strict) else {
        panic!("did not throw an error");
    };
    let ManifestError::InvalidMinor(..) = error else {
        panic!("some other error was thrown");
    };
}

#[test]
fn should_error_when_offset_too_small() {
    // too small
    let buf = [&VALID_HEADER[..8], &0u32.to_le_bytes(), &VALID_HEADER[12..]].concat();

    let Err(error) = Header::parse(&buf, lenient()) else {
        panic!("did not throw an error");
    };
    let ManifestError::InvalidOffset(..) = error else {
        panic!("some other error was thrown");
    };

    // slightly too small
    let buf = [&VALID_HEADER[..8], &27u32.to_le_bytes(), &VALID_HEADER[12..]].concat();

    let Err(error) = Header::parse(&buf, lenient()) else {
        panic!("did not throw an error");
    };
    let ManifestError::InvalidOffset(..) = error else {
        panic!("some other error was thrown");
    };
}

#[test]
fn should_error_when_offset_too_large() {
    // slightly too large
    let size = u32::try_from(VALID_HEADER.len()).unwrap();
    let buf = [&VALID_HEADER[..8], &size.to_le_bytes(), &VALID_HEADER[12..]].concat();

    let Err(error) = Header::parse(&buf, lenient()) else {
        panic!("did not throw an error");
    };
    let ManifestError::InvalidOffset(..) = error else {
        panic!("some other error was thrown");
    };

    // too large
    let buf = [&VALID_HEADER[..8], &u32::MAX.to_le_bytes(), &VALID_HEADER[12..]].concat();

    let Err(error) = Header::parse(&buf, lenient()) else {
        panic!("did not throw an error");
    };
    let ManifestError::InvalidOffset(..) = error else {
        panic!("some other error was thrown");
    };
}

#[test]
fn should_error_when_compressed_size_too_large() {
    // slightly too large
    let size = u32::try_from(VALID_HEADER.len()).unwrap();
    let buf = [&VALID_HEADER[..12], &(size - 27).to_le_bytes(), &VALID_HEADER[16..]].concat();

    let Err(error) = Header::parse(&buf, lenient()) else {
        panic!("did not throw an error");
    };
    let ManifestError::CompressedSizeTooLarge(..) = error else {
        panic!("some other error was thrown");
    };

    // too large
    let buf = [&VALID_HEADER[..12], &u32::MAX.to_le_bytes(), &VALID_HEADER[16..]].concat();

    let Err(error) = Header::parse(&buf, lenient()) else {
        panic!("did not throw an error");
    };
    let ManifestError::CompressedSizeTooLarge(..) = error else {
        panic!("some other error was thrown");
    };
}

#[test]
fn should_error_when_compressed_size_and_offset_too_large() {
    let offset = 28u32;
    let size = u32::try_from(VALID_HEADER.len()).unwrap();
    let buf = [
        &VALID_HEADER[..8],
        &offset.to_le_bytes(),
        &(size - offset + 1).to_le_bytes(),
        &VALID_HEADER[16..],
    ]
    .concat();

    let Err(error) = Header::parse(&buf, lenient()) else {
        panic!("did not throw an error");
    };
    let ManifestError::CompressedSizeTooLarge(..) = error else {
        panic!("some other error was thrown");
    };
}
