//! A growable byte buffer with a read position.

use crate::{DecodeError, DecodeErrorKind, ErrorView};
use byteorder::ByteOrder;
use vstd::prelude::*;
use vstd::slice::*;
use vstd::string::*;

verus! {

/// The failure of a read that asks for more bytes than are left.
pub open spec fn unexpected_eof() -> ErrorView {
    ErrorView { kind: DecodeErrorKind::Other, reason: "failed to fill whole buffer"@ }
}

/// The value of two bytes read as a big-endian unsigned integer.
pub open spec fn be_u16_value(high: u8, low: u8) -> u16 {
    (high as int * 256 + low as int) as u16
}

/// `byteorder::BigEndian::read_u16`: the first two bytes of the slice as a
/// big-endian unsigned integer. It panics on a shorter slice.
#[verifier::external_body]
fn be_u16(bytes: &[u8]) -> (value: u16)
    requires
        bytes@.len() >= 2,
    ensures
        value == be_u16_value(bytes@[0], bytes@[1]),
{
    byteorder::BigEndian::read_u16(bytes)
}

/// Bytes held in memory, with the position of the next read. Bytes can be
/// appended at the end; a read never changes them.
#[derive(Debug)]
pub struct ByteCursor {
    data: Vec<u8>,
    position: usize,
}

impl ByteCursor {
    /// The bytes held.
    pub closed spec fn bytes(&self) -> Seq<u8> {
        self.data@
    }

    /// The position of the next read, counted from the first byte.
    pub closed spec fn spec_position(&self) -> nat {
        self.position as nat
    }

    /// The bytes from the position to the end: what is left to read.
    pub open spec fn remaining(&self) -> Seq<u8> {
        if self.spec_position() <= self.bytes().len() {
            self.bytes().skip(self.spec_position() as int)
        } else {
            Seq::empty()
        }
    }

    /// A cursor over the given bytes, positioned at the first.
    pub fn new(data: Vec<u8>) -> (cursor: ByteCursor)
        ensures
            cursor.bytes() == data@,
            cursor.spec_position() == 0,
    {
        ByteCursor { data, position: 0 }
    }

    /// The position of the next read.
    pub fn position(&self) -> (position: usize)
        ensures
            position == self.spec_position(),
    {
        self.position
    }

    /// Moves the position. A position past the end is allowed: every read
    /// from it fails.
    pub fn set_position(&mut self, position: usize)
        ensures
            final(self).bytes() == old(self).bytes(),
            final(self).spec_position() == position,
    {
        self.position = position;
    }

    /// The number of bytes held.
    pub fn len(&self) -> (len: usize)
        ensures
            len == self.bytes().len(),
    {
        self.data.len()
    }

    /// The bytes held.
    pub fn get_ref(&self) -> (data: &Vec<u8>)
        ensures
            data@ == self.bytes(),
    {
        &self.data
    }

    /// Appends bytes at the end. The position stays.
    pub fn extend_from_slice(&mut self, chunk: &[u8])
        ensures
            final(self).bytes() == old(self).bytes() + chunk@,
            final(self).spec_position() == old(self).spec_position(),
    {
        self.data.extend_from_slice(chunk);
    }

    /// Reads one byte and moves past it. At or past the end the read fails
    /// and the position stays.
    pub fn read_u8(&mut self) -> (r: Result<u8, DecodeError>)
        ensures
            final(self).bytes() == old(self).bytes(),
            old(self).remaining().len() >= 1 ==> r == Ok::<u8, DecodeError>(old(self).remaining()[0])
                && final(self).spec_position() == old(self).spec_position() + 1,
            old(self).remaining().len() < 1 ==> r is Err && r->Err_0@ == unexpected_eof()
                && final(self).spec_position() == old(self).spec_position(),
    {
        if self.position >= self.data.len() {
            return Err(eof_error());
        }
        let byte = self.data[self.position];
        self.position = self.position + 1;
        Ok(byte)
    }

    /// Reads two bytes as a big-endian unsigned integer and moves past
    /// them. With fewer than two bytes left the read fails and the position
    /// stays.
    pub fn read_u16_be(&mut self) -> (r: Result<u16, DecodeError>)
        ensures
            final(self).bytes() == old(self).bytes(),
            old(self).remaining().len() >= 2 ==> r == Ok::<u16, DecodeError>(
                be_u16_value(old(self).remaining()[0], old(self).remaining()[1]),
            ) && final(self).spec_position() == old(self).spec_position() + 2,
            old(self).remaining().len() < 2 ==> r is Err && r->Err_0@ == unexpected_eof()
                && final(self).spec_position() == old(self).spec_position(),
    {
        let len = self.data.len();
        if self.position >= len || len - self.position < 2 {
            return Err(eof_error());
        }
        let field = slice_subrange(self.data.as_slice(), self.position, self.position + 2);
        let value = be_u16(field);
        self.position = self.position + 2;
        Ok(value)
    }

    /// Reads `count` bytes and moves past them. With fewer bytes left the
    /// read fails and the position stays.
    pub fn read_exact(&mut self, count: usize) -> (r: Result<Vec<u8>, DecodeError>)
        ensures
            final(self).bytes() == old(self).bytes(),
            old(self).remaining().len() >= count ==> r is Ok && r->Ok_0@ == old(
                self,
            ).remaining().take(count as int) && final(self).spec_position() == old(
                self,
            ).spec_position() + count,
            old(self).remaining().len() < count ==> r is Err && r->Err_0@ == unexpected_eof()
                && final(self).spec_position() == old(self).spec_position(),
    {
        if count == 0 {
            return Ok(Vec::new());
        }
        let len = self.data.len();
        if self.position > len || len - self.position < count {
            return Err(eof_error());
        }
        let field = slice_subrange(self.data.as_slice(), self.position, self.position + count);
        let bytes = slice_to_vec(field);
        self.position = self.position + count;
        Ok(bytes)
    }

    /// Reads up to `limit` bytes, as many as are left, and moves past them.
    pub fn read_chunk(&mut self, limit: usize) -> (chunk: Vec<u8>)
        ensures
            final(self).bytes() == old(self).bytes(),
            chunk@ == old(self).remaining().take(
                if old(self).remaining().len() < limit {
                    old(self).remaining().len() as int
                } else {
                    limit as int
                },
            ),
            final(self).spec_position() == old(self).spec_position() + chunk@.len(),
    {
        let len = self.data.len();
        if self.position >= len {
            return Vec::new();
        }
        let left = len - self.position;
        let count = if left < limit {
            left
        } else {
            limit
        };
        let field = slice_subrange(self.data.as_slice(), self.position, self.position + count);
        let chunk = slice_to_vec(field);
        self.position = self.position + count;
        chunk
    }
}

/// The failure of a read past the end.
pub fn eof_error() -> (e: DecodeError)
    ensures
        e@ == unexpected_eof(),
{
    DecodeError::new(DecodeErrorKind::Other, String::from_str("failed to fill whole buffer"))
}

} // verus!
