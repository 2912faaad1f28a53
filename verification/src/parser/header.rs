//! The fixed 28-byte manifest preamble and its validation rules.

use crate::error::{ManifestError, ReadError};
use crate::structs::cursor::Cursor;
use crate::wire::{le16, le32, le64};
use vstd::bytes::{
    spec_u16_to_le_bytes, spec_u32_to_le_bytes, spec_u64_to_le_bytes,
    lemma_auto_spec_u16_to_from_le_bytes, lemma_auto_spec_u32_to_from_le_bytes,
    lemma_auto_spec_u64_to_from_le_bytes,
};
use vstd::prelude::*;

verus! {

/// The magic constant `R`, `M`, `A`, `N` read as a little-endian `u32`,
/// which makes the stored value read `NAMR` when written in hex.
pub const RMAN_MAGIC: u32 = 0x4E41_4D52;

/// How version bytes that differ from the known format version are treated.
///
/// The format's known version is major 2, minor 0.  By default an unknown
/// version is accepted, on the expectation that minor revisions stay
/// forward-compatible; each byte can independently be made a hard failure.
#[derive(Debug, Clone, Copy, PartialEq, Eq, Structural)]
pub struct DecodeOptions {
    /// Fail with [`ManifestError::InvalidMajor`] when the major version
    /// byte differs from 2.
    pub strict_major: bool,
    /// Fail with [`ManifestError::InvalidMinor`] when the minor version
    /// byte differs from 0.
    pub strict_minor: bool,
}

impl Default for DecodeOptions {
    /// The lenient configuration: version mismatches are accepted.
    fn default() -> (r: Self)
        ensures
            r == (DecodeOptions { strict_major: false, strict_minor: false }),
    {
        DecodeOptions { strict_major: false, strict_minor: false }
    }
}

/// File header.
///
/// The first 28 bytes of a manifest: identification, version, and the
/// location and sizes of the compressed payload.
#[derive(Debug, Default, Clone, Copy, PartialEq, Eq, Structural)]
pub struct Header {
    /// Magic bytes of the file, stored as a little-endian `u32`.
    pub magic: u32,
    /// Major version of the manifest format; only 2 is known.
    pub major: u8,
    /// Minor version of the manifest format; only 0 is known.
    pub minor: u8,
    /// Manifest flags; opaque, stored but not interpreted.
    pub flags: u16,
    /// Absolute byte offset of the compressed payload.
    pub offset: u32,
    /// Size of the payload before decompression.
    pub compressed_size: u32,
    /// Manifest id; opaque.
    pub manifest_id: u64,
    /// Size of the payload after decompression.
    pub uncompressed_size: u32,
}

/// What parsing a header from `b` under options `o` returns: the fields in
/// input order once every validation step passes, or the error of the first
/// step that fails.
///
/// The steps, in order: the total length must fit `u32`; the magic must
/// match [`RMAN_MAGIC`]; the version bytes must pass the policy `o`
/// demands; the offset must lie in `[28, len)`; the compressed size must
/// fit past the header and, added to the offset, inside the buffer.  A
/// field running past the end of the input is an [`ManifestError::IoError`]
/// naming the width that failed, so truncation is distinguishable from
/// malformed-but-complete input.
pub open spec fn spec_parse_header(b: Seq<u8>, o: DecodeOptions) -> Result<Header, ManifestError> {
    if b.len() > u32::MAX {
        Err(ManifestError::ConversionFailure)
    } else if b.len() < 4 {
        Err(ManifestError::IoError(ReadError::U32))
    } else {
        let magic = le32(b, 0);
        if magic != RMAN_MAGIC {
            Err(ManifestError::InvalidMagicBytes(magic))
        } else if b.len() < 5 {
            Err(ManifestError::IoError(ReadError::U8))
        } else {
            let major = b[4];
            if major != 2 && o.strict_major {
                Err(ManifestError::InvalidMajor(major))
            } else if b.len() < 6 {
                Err(ManifestError::IoError(ReadError::U8))
            } else {
                let minor = b[5];
                if minor != 0 && o.strict_minor {
                    Err(ManifestError::InvalidMinor(minor))
                } else if b.len() < 8 {
                    Err(ManifestError::IoError(ReadError::U16))
                } else {
                    let flags = le16(b, 6);
                    if b.len() < 12 {
                        Err(ManifestError::IoError(ReadError::U32))
                    } else {
                        let offset = le32(b, 8);
                        if offset < 28 || offset >= b.len() {
                            Err(ManifestError::InvalidOffset(offset))
                        } else {
                            // offset >= 28 and offset < len force len >= 29,
                            // so every remaining fixed field is in bounds
                            let compressed_size = le32(b, 12);
                            if compressed_size > b.len() - 28 || compressed_size + offset
                                > b.len() {
                                Err(ManifestError::CompressedSizeTooLarge(compressed_size))
                            } else {
                                Ok(
                                    Header {
                                        magic,
                                        major,
                                        minor,
                                        flags,
                                        offset,
                                        compressed_size,
                                        manifest_id: le64(b, 16),
                                        uncompressed_size: le32(b, 24),
                                    },
                                )
                            }
                        }
                    }
                }
            }
        }
    }
}

impl Header {
    /// Main header parser method.
    ///
    /// Reads the fixed fields in input order and applies the validation
    /// steps that [`spec_parse_header`] lays out; the result is exactly
    /// what that specification names for `bytes` and `options`.
    pub fn parse(bytes: &[u8], options: DecodeOptions) -> (r: Result<Header, ManifestError>)
        ensures
            r == spec_parse_header(bytes@, options),
    {
        if bytes.len() > u32::MAX as usize {
            return Err(ManifestError::ConversionFailure);
        }
        let size: u32 = bytes.len() as u32;

        let mut cursor = Cursor::new(bytes);

        let magic: u32 = match cursor.read_u32() {
            Ok(v) => v,
            Err(_) => return Err(ManifestError::IoError(ReadError::U32)),
        };
        if magic != RMAN_MAGIC {
            return Err(ManifestError::InvalidMagicBytes(magic));
        }

        let major: u8 = match cursor.read_u8() {
            Ok(v) => v,
            Err(_) => return Err(ManifestError::IoError(ReadError::U8)),
        };
        if major != 2 && options.strict_major {
            return Err(ManifestError::InvalidMajor(major));
        }

        let minor: u8 = match cursor.read_u8() {
            Ok(v) => v,
            Err(_) => return Err(ManifestError::IoError(ReadError::U8)),
        };
        if minor != 0 && options.strict_minor {
            return Err(ManifestError::InvalidMinor(minor));
        }

        let flags: u16 = match cursor.read_u16() {
            Ok(v) => v,
            Err(_) => return Err(ManifestError::IoError(ReadError::U16)),
        };

        let offset: u32 = match cursor.read_u32() {
            Ok(v) => v,
            Err(_) => return Err(ManifestError::IoError(ReadError::U32)),
        };
        if offset < 28 || offset >= size {
            return Err(ManifestError::InvalidOffset(offset));
        }

        let compressed_size: u32 = match cursor.read_u32() {
            Ok(v) => v,
            Err(_) => return Err(ManifestError::IoError(ReadError::U32)),
        };
        if compressed_size > size - 28 || compressed_size as u64 + offset as u64 > size as u64 {
            return Err(ManifestError::CompressedSizeTooLarge(compressed_size));
        }

        let manifest_id: u64 = match cursor.read_u64() {
            Ok(v) => v,
            Err(_) => return Err(ManifestError::IoError(ReadError::U64)),
        };
        let uncompressed_size: u32 = match cursor.read_u32() {
            Ok(v) => v,
            Err(_) => return Err(ManifestError::IoError(ReadError::U32)),
        };

        Ok(
            Header {
                magic,
                major,
                minor,
                flags,
                offset,
                compressed_size,
                manifest_id,
                uncompressed_size,
            },
        )
    }
}

/// The 28-byte encoding that a writer produces for the header `h`: each
/// field stored little-endian at its fixed offset.
pub open spec fn spec_header_bytes(h: Header) -> Seq<u8> {
    spec_u32_to_le_bytes(h.magic) + seq![h.major, h.minor] + spec_u16_to_le_bytes(h.flags)
        + spec_u32_to_le_bytes(h.offset) + spec_u32_to_le_bytes(h.compressed_size)
        + spec_u64_to_le_bytes(h.manifest_id) + spec_u32_to_le_bytes(h.uncompressed_size)
}

/// Law: a header written with the format's magic and version, offset 28 and
/// sizes consistent with the payload that follows it parses back to the
/// identical field values, under either version policy.
pub proof fn lemma_header_round_trip(h: Header, rest: Seq<u8>, o: DecodeOptions)
    requires
        h.magic == RMAN_MAGIC,
        h.major == 2,
        h.minor == 0,
        h.offset == 28,
        h.compressed_size <= rest.len(),
        1 <= rest.len(),
        28 + rest.len() <= u32::MAX,
    ensures
        spec_parse_header(spec_header_bytes(h) + rest, o) == Ok::<Header, ManifestError>(h),
{
    lemma_auto_spec_u16_to_from_le_bytes();
    lemma_auto_spec_u32_to_from_le_bytes();
    lemma_auto_spec_u64_to_from_le_bytes();
    let hb = spec_header_bytes(h);
    let b = hb + rest;
    assert(hb.len() == 28);
    assert(b.subrange(0, 4) =~= spec_u32_to_le_bytes(h.magic));
    assert(b[4] == h.major);
    assert(b[5] == h.minor);
    assert(b.subrange(6, 8) =~= spec_u16_to_le_bytes(h.flags));
    assert(b.subrange(8, 12) =~= spec_u32_to_le_bytes(h.offset));
    assert(b.subrange(12, 16) =~= spec_u32_to_le_bytes(h.compressed_size));
    assert(b.subrange(16, 24) =~= spec_u64_to_le_bytes(h.manifest_id));
    assert(b.subrange(24, 28) =~= spec_u32_to_le_bytes(h.uncompressed_size));
    assert(spec_parse_header(b, o) == Ok::<Header, ManifestError>(h));
}

/// Law: flipping any single byte of the magic field of a buffer that
/// carried the correct magic makes parsing fail with
/// [`ManifestError::InvalidMagicBytes`] carrying the corrupted value.
pub proof fn lemma_magic_byte_mutation(b: Seq<u8>, i: int, v: u8, o: DecodeOptions)
    requires
        4 <= b.len() <= u32::MAX,
        0 <= i < 4,
        v != b[i],
        le32(b, 0) == RMAN_MAGIC,
    ensures
        le32(b.update(i, v), 0) != RMAN_MAGIC,
        spec_parse_header(b.update(i, v), o) == Err::<Header, ManifestError>(
            ManifestError::InvalidMagicBytes(le32(b.update(i, v), 0)),
        ),
{
    lemma_auto_spec_u32_to_from_le_bytes();
    let b2 = b.update(i, v);
    let s = b.subrange(0, 4);
    let s2 = b2.subrange(0, 4);
    assert(s2 =~= s.update(i, v));
    assert(s2[i] == v);
    if le32(b2, 0) == RMAN_MAGIC {
        assert(spec_u32_to_le_bytes(le32(b2, 0)) == s2);
        assert(spec_u32_to_le_bytes(le32(b, 0)) == s);
        assert(s2 == s);
        assert(false);
    }
}

} // verus!
