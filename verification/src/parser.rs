//! The manifest decode pipeline.

pub mod header;
pub mod manifest;

use crate::compress::{decompress_exact, zstd_inflate};
use crate::error::ManifestError;
use crate::parser::header::{spec_parse_header, DecodeOptions, Header};
use crate::parser::manifest::{spec_parse_manifest, ManifestData, ManifestDataV};
use vstd::prelude::*;
use vstd::slice::slice_subrange;

verus! {

/// Main parser object.
///
/// Holds the parsed file header and the decoded, cross-referenced payload
/// of one manifest.
#[derive(Debug, Default, Clone, PartialEq, Eq)]
pub struct RiotManifest {
    /// Parsed file header data.
    ///
    /// Stores information like the magic bytes, version, flags, and the
    /// compressed payload's offset and sizes.
    pub header: Header,
    /// Parsed payload data.
    ///
    /// Stores all of the decoded entry tables, as well as the resolved
    /// files.
    pub data: ManifestData,
}

/// Mathematical image of a [`RiotManifest`].
pub struct RiotManifestV {
    /// The parsed header.
    pub header: Header,
    /// The decoded payload.
    pub data: ManifestDataV,
}

impl View for RiotManifest {
    type V = RiotManifestV;

    open spec fn view(&self) -> RiotManifestV {
        RiotManifestV { header: self.header, data: self.data@ }
    }
}

/// What decoding a whole manifest buffer returns: the header parsed and
/// validated, the payload bytes `[offset, offset + compressed_size)`
/// decompressed to exactly `uncompressed_size` bytes, and that payload
/// decoded and resolved.  Every step is a function of the input bytes and
/// the options alone, so two decodes of equal buffers are equal.
pub open spec fn spec_decode(b: Seq<u8>, o: DecodeOptions) -> Result<
    RiotManifestV,
    ManifestError,
> {
    match spec_parse_header(b, o) {
        Err(e) => Err(e),
        Ok(h) => {
            let frame = b.subrange(h.offset as int, h.offset as int + h.compressed_size as int);
            match zstd_inflate(frame) {
                Option::None => Err(ManifestError::ZstdDecompressError),
                Option::Some(d) => {
                    if d.len() != h.uncompressed_size {
                        Err(ManifestError::ZstdDecompressError)
                    } else {
                        match spec_parse_manifest(d) {
                            Err(e) => Err(e),
                            Ok(md) => Ok(RiotManifestV { header: h, data: md }),
                        }
                    }
                },
            }
        },
    }
}

impl RiotManifest {
    /// Main parser method.
    ///
    /// Parses and validates the header, slices out the compressed payload
    /// the header locates, decompresses it to exactly the declared
    /// uncompressed size, and decodes the result into a [`ManifestData`].
    ///
    /// The result, success or failure, is exactly what [`spec_decode`]
    /// names for `bytes` and `options`: a function of the input alone, so
    /// decoding the same bytes twice yields equal results, and success is
    /// owed whenever every step of that specification succeeds.
    pub fn parse(bytes: &[u8], options: DecodeOptions) -> (r: Result<RiotManifest, ManifestError>)
        ensures
            match r {
                Ok(m) => spec_decode(bytes@, options) == Ok::<RiotManifestV, ManifestError>(m@),
                Err(e) => spec_decode(bytes@, options) == Err::<RiotManifestV, ManifestError>(e),
            },
    {
        let header: Header = match Header::parse(bytes, options) {
            Ok(h) => h,
            Err(e) => return Err(e),
        };
        proof {
            assert(header.offset as int + header.compressed_size as int <= bytes@.len());
            assert(header.offset >= 28);
        }
        let off: usize = header.offset as usize;
        let cs: usize = header.compressed_size as usize;
        let frame: &[u8] = slice_subrange(bytes, off, off + cs);
        let decompressed: Vec<u8> = match decompress_exact(frame, header.uncompressed_size) {
            Ok(d) => d,
            Err(e) => return Err(e),
        };
        let data: ManifestData = match ManifestData::parse(decompressed.as_slice()) {
            Ok(d) => d,
            Err(e) => return Err(e),
        };
        Ok(RiotManifest { header, data })
    }

    /// Parsed file header data.
    pub fn manifest_header(&self) -> (r: &Header)
        ensures
            *r == self.header,
    {
        &self.header
    }

    /// Parsed payload data.
    pub fn manifest(&self) -> (r: &ManifestData)
        ensures
            *r == self.data,
    {
        &self.data
    }
}

} // verus!
