//! Error taxonomy for manifest decoding and download planning.

use vstd::prelude::*;

verus! {

/// Identifies which fixed-width integer a bounded read ran out of bytes for.
#[derive(Debug, Clone, Copy, PartialEq, Eq, Structural)]
pub enum ReadError {
    /// Too few bytes remained for an `i8`.
    I8,
    /// Too few bytes remained for an `i16`.
    I16,
    /// Too few bytes remained for an `i32`.
    I32,
    /// Too few bytes remained for an `i64`.
    I64,
    /// Too few bytes remained for a `u8`.
    U8,
    /// Too few bytes remained for a `u16`.
    U16,
    /// Too few bytes remained for a `u32`.
    U32,
    /// Too few bytes remained for a `u64`.
    U64,
}

/// Errors raised by [`Cursor`](crate::structs::cursor::Cursor) operations.
#[derive(Debug, Clone, Copy, PartialEq, Eq, Structural)]
pub enum CursorError {
    /// A bounded integer read ran past the end of the buffer.
    ReadError(ReadError),
    /// A multi-byte read asked for more bytes than remain.
    ReadManyError,
    /// A seek whose target position cannot exist, such as a relative move
    /// before the start of the buffer; absolute seeks accept every
    /// position, those past the end of the buffer included, and never
    /// report it.
    SeekError,
}

/// Identifies the reference that could not be resolved while turning a raw
/// file entry into a [`File`](crate::File), together with the offending id.
#[derive(Debug, Clone, Copy, PartialEq, Eq, Structural)]
pub enum ResolveFailure {
    /// The file (or one of its ancestors) named a directory id absent from
    /// the directory table.
    MissingDirectory(i64),
    /// The file named a chunk id absent from every bundle's chunk list.
    MissingChunk(i64),
    /// The walk from the file's directory towards the root visited more
    /// directories than the table holds, so the parent pointers form a
    /// cycle; the payload carries the id at which the walk was abandoned.
    DirectoryCycle(i64),
}

/// Every error that decoding a manifest or planning a download can report.
///
/// Each variant carries the offending numeric field verbatim, since those
/// values are the only actionable diagnostics a binary format offers.
#[derive(Debug, Clone, Copy, PartialEq, Eq, Structural)]
pub enum ManifestError {
    /// The first four bytes, read as a little-endian `u32`, were not the
    /// RMAN magic value; the payload is the value actually read.
    InvalidMagicBytes(u32),
    /// The major version byte differed from 2 while strict major checking
    /// was requested.
    InvalidMajor(u8),
    /// The minor version byte differed from 0 while strict minor checking
    /// was requested.
    InvalidMinor(u8),
    /// The payload offset was below 28 or not below the total length.
    InvalidOffset(u32),
    /// The compressed size exceeded what the buffer can hold past the
    /// header, on its own or added to the offset.
    CompressedSizeTooLarge(u32),
    /// A fixed-width header field ran past the end of the input, so the
    /// input is truncated rather than malformed.
    IoError(ReadError),
    /// A size would not fit the width the format or the host requires.
    ConversionFailure,
    /// The zstd codec rejected a frame, or its output length differed from
    /// the declared uncompressed size.
    ZstdDecompressError,
    /// A raw file entry referenced a directory or chunk that the decoded
    /// tables do not define.
    FileParseError(ResolveFailure),
    /// The tabular payload failed structural validation: an offset, count
    /// or string in it pointed outside the buffer or was not well formed.
    FlatbufferError,
}

/// Alias for a [`core::result::Result`] with the error type [`ManifestError`].
pub type Result<T> = core::result::Result<T, ManifestError>;

} // verus!
