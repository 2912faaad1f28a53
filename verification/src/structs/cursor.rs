//! A bounds-checked sequential reader over an in-memory byte buffer.

use crate::error::{CursorError, ReadError};
use crate::wire::{le16, le32, le64, le_i32, le_i64};
use vstd::prelude::*;
use vstd::slice::{slice_subrange, slice_to_vec};

verus! {

/// Sequential reader over a borrowed byte buffer.
///
/// Seeking is unbounded, as on a standard in-memory cursor: the position
/// may stand past the end of the buffer, and it is the reads that check
/// the remaining length.  A failed read leaves the position unchanged and
/// reports a [`CursorError`].
#[derive(Debug)]
pub struct Cursor<'a> {
    /// The underlying buffer.
    pub data: &'a [u8],
    /// Current read position; may exceed `data.len()`.
    pub pos: u64,
}

impl<'a> Cursor<'a> {
    /// Starts a cursor at the beginning of `data`.
    pub fn new(data: &'a [u8]) -> (r: Self)
        ensures
            r.data@ == data@,
            r.pos == 0,
    {
        Self { data, pos: 0 }
    }

    /// Moves the position to the absolute offset `pos`.
    ///
    /// Every position is accepted, a position past the end of the buffer
    /// included; a read from there reports the shortage.  An absolute
    /// target cannot be negative, so the call never fails.
    pub fn seek(&mut self, pos: u64) -> (r: Result<u64, CursorError>)
        ensures
            final(self).data@ == old(self).data@,
            final(self).pos == pos,
            r == Ok::<u64, CursorError>(pos),
    {
        self.pos = pos;
        Ok(pos)
    }

    /// Reads the next `n` bytes into a fresh vector.
    pub fn read_exact(&mut self, n: usize) -> (r: Result<Vec<u8>, CursorError>)
        ensures
            final(self).data@ == old(self).data@,
            if old(self).pos + n <= old(self).data@.len() {
                &&& final(self).pos == old(self).pos + n
                &&& r matches Ok(v) && v@ == old(self).data@.subrange(
                    old(self).pos as int,
                    old(self).pos + n,
                )
            } else {
                &&& final(self).pos == old(self).pos
                &&& r == Err::<Vec<u8>, CursorError>(CursorError::ReadManyError)
            },
    {
        let len: u64 = self.data.len() as u64;
        if self.pos <= len && n as u64 <= len - self.pos {
            let start: usize = self.pos as usize;
            let out: Vec<u8> = slice_to_vec(slice_subrange(self.data, start, start + n));
            self.pos = self.pos + n as u64;
            Ok(out)
        } else {
            Err(CursorError::ReadManyError)
        }
    }

    /// Reads a a `u8` and advances past it.
    pub fn read_u8(&mut self) -> (r: Result<u8, CursorError>)
        ensures
            final(self).data@ == old(self).data@,
            if old(self).pos + 1 <= old(self).data@.len() {
                &&& final(self).pos == old(self).pos + 1
                &&& r == Ok::<u8, CursorError>(old(self).data@[old(self).pos as int])
            } else {
                &&& final(self).pos == old(self).pos
                &&& r == Err::<u8, CursorError>(CursorError::ReadError(ReadError::U8))
            },
    {
        let len: u64 = self.data.len() as u64;
        if self.pos <= len && 1 <= len - self.pos {
            let v: u8 = crate::wire::read_u8_at(self.data, self.pos as usize);
            self.pos = self.pos + 1;
            Ok(v)
        } else {
            Err(CursorError::ReadError(ReadError::U8))
        }
    }

    /// Reads a a `u16` stored little-endian and advances past it.
    pub fn read_u16(&mut self) -> (r: Result<u16, CursorError>)
        ensures
            final(self).data@ == old(self).data@,
            if old(self).pos + 2 <= old(self).data@.len() {
                &&& final(self).pos == old(self).pos + 2
                &&& r == Ok::<u16, CursorError>(le16(old(self).data@, old(self).pos as int))
            } else {
                &&& final(self).pos == old(self).pos
                &&& r == Err::<u16, CursorError>(CursorError::ReadError(ReadError::U16))
            },
    {
        let len: u64 = self.data.len() as u64;
        if self.pos <= len && 2 <= len - self.pos {
            let v: u16 = crate::wire::read_u16_at(self.data, self.pos as usize);
            self.pos = self.pos + 2;
            Ok(v)
        } else {
            Err(CursorError::ReadError(ReadError::U16))
        }
    }

    /// Reads a a `u32` stored little-endian and advances past it.
    pub fn read_u32(&mut self) -> (r: Result<u32, CursorError>)
        ensures
            final(self).data@ == old(self).data@,
            if old(self).pos + 4 <= old(self).data@.len() {
                &&& final(self).pos == old(self).pos + 4
                &&& r == Ok::<u32, CursorError>(le32(old(self).data@, old(self).pos as int))
            } else {
                &&& final(self).pos == old(self).pos
                &&& r == Err::<u32, CursorError>(CursorError::ReadError(ReadError::U32))
            },
    {
        let len: u64 = self.data.len() as u64;
        if self.pos <= len && 4 <= len - self.pos {
            let v: u32 = crate::wire::read_u32_at(self.data, self.pos as usize);
            self.pos = self.pos + 4;
            Ok(v)
        } else {
            Err(CursorError::ReadError(ReadError::U32))
        }
    }

    /// Reads a a `u64` stored little-endian and advances past it.
    pub fn read_u64(&mut self) -> (r: Result<u64, CursorError>)
        ensures
            final(self).data@ == old(self).data@,
            if old(self).pos + 8 <= old(self).data@.len() {
                &&& final(self).pos == old(self).pos + 8
                &&& r == Ok::<u64, CursorError>(le64(old(self).data@, old(self).pos as int))
            } else {
                &&& final(self).pos == old(self).pos
                &&& r == Err::<u64, CursorError>(CursorError::ReadError(ReadError::U64))
            },
    {
        let len: u64 = self.data.len() as u64;
        if self.pos <= len && 8 <= len - self.pos {
            let v: u64 = crate::wire::read_u64_at(self.data, self.pos as usize);
            self.pos = self.pos + 8;
            Ok(v)
        } else {
            Err(CursorError::ReadError(ReadError::U64))
        }
    }

    /// Reads a an `i32` stored little-endian and advances past it.
    pub fn read_i32(&mut self) -> (r: Result<i32, CursorError>)
        ensures
            final(self).data@ == old(self).data@,
            if old(self).pos + 4 <= old(self).data@.len() {
                &&& final(self).pos == old(self).pos + 4
                &&& r == Ok::<i32, CursorError>(le_i32(old(self).data@, old(self).pos as int))
            } else {
                &&& final(self).pos == old(self).pos
                &&& r == Err::<i32, CursorError>(CursorError::ReadError(ReadError::I32))
            },
    {
        let len: u64 = self.data.len() as u64;
        if self.pos <= len && 4 <= len - self.pos {
            let v: i32 = crate::wire::read_i32_at(self.data, self.pos as usize);
            self.pos = self.pos + 4;
            Ok(v)
        } else {
            Err(CursorError::ReadError(ReadError::I32))
        }
    }

    /// Reads a an `i64` stored little-endian and advances past it.
    pub fn read_i64(&mut self) -> (r: Result<i64, CursorError>)
        ensures
            final(self).data@ == old(self).data@,
            if old(self).pos + 8 <= old(self).data@.len() {
                &&& final(self).pos == old(self).pos + 8
                &&& r == Ok::<i64, CursorError>(le_i64(old(self).data@, old(self).pos as int))
            } else {
                &&& final(self).pos == old(self).pos
                &&& r == Err::<i64, CursorError>(CursorError::ReadError(ReadError::I64))
            },
    {
        let len: u64 = self.data.len() as u64;
        if self.pos <= len && 8 <= len - self.pos {
            let v: i64 = crate::wire::read_i64_at(self.data, self.pos as usize);
            self.pos = self.pos + 8;
            Ok(v)
        } else {
            Err(CursorError::ReadError(ReadError::I64))
        }
    }
}

} // verus!
