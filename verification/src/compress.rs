//! Decompression of zstd frames, with an exact-length check.
//!
//! The manifest's payload and every downloaded chunk are zstd frames whose
//! decompressed length is declared beside them; a frame that the codec
//! rejects, or whose output length differs from the declaration, is fatal.

use crate::error::ManifestError;
use vstd::prelude::*;

verus! {

/// What the zstd codec decodes a frame to: `Some` with the decompressed
/// bytes for a frame it accepts, `None` for one it rejects.  The result
/// depends on the frame's bytes alone.
pub uninterp spec fn zstd_inflate(frame: Seq<u8>) -> Option<Seq<u8>>;

/// Relies on `zstd::bulk::decompress`: decoding a frame is a function of
/// its bytes alone; a successful call returns exactly that decoding, at
/// most `capacity` bytes of it, and a call fails only when the codec
/// rejects the frame or its decoding is larger than `capacity`.
#[verifier::external_body]
fn zstd_decompress_raw(frame: &[u8], capacity: usize) -> (r: Option<Vec<u8>>)
    ensures
        match r {
            Option::Some(out) => zstd_inflate(frame@) == Some(out@) && out@.len() <= capacity,
            Option::None => zstd_inflate(frame@) is None || zstd_inflate(frame@).unwrap().len()
                > capacity,
        },
{
    zstd::bulk::decompress(frame, capacity).ok()
}

/// Decompresses `frame` into exactly `uncompressed_size` bytes.
///
/// Success is owed exactly when the codec's decoding of the frame exists
/// and has the declared length, and returns precisely that decoding; a
/// rejected frame or any other length is a
/// [`ManifestError::ZstdDecompressError`], and no partial output escapes.
pub fn decompress_exact(frame: &[u8], uncompressed_size: u32) -> (r: Result<
    Vec<u8>,
    ManifestError,
>)
    ensures
        match r {
            Ok(out) => zstd_inflate(frame@) == Some(out@) && out@.len() == uncompressed_size,
            Err(e) => e == ManifestError::ZstdDecompressError && (zstd_inflate(frame@) is None
                || zstd_inflate(frame@).unwrap().len() != uncompressed_size),
        },
{
    match zstd_decompress_raw(frame, uncompressed_size as usize) {
        Option::Some(out) => {
            if out.len() == uncompressed_size as usize {
                Ok(out)
            } else {
                Err(ManifestError::ZstdDecompressError)
            }
        },
        Option::None => Err(ManifestError::ZstdDecompressError),
    }
}

} // verus!
