use crate::reader::{spec_le_u16, spec_le_u32};
use crate::Error;
use vstd::prelude::*;
use vstd::utf8::{decode_utf8, valid_utf8};

verus! {

/// Relies on `String::from_utf8`: it succeeds exactly on input that is
/// valid UTF-8 and then returns the string of the characters that the
/// bytes encode, as `vstd::utf8` describes them.
#[verifier::external_body]
pub(crate) fn bytes_to_string(bytes: Vec<u8>) -> (r: Option<String>)
    ensures
        r is Some <==> valid_utf8(bytes@),
        r matches Some(s) ==> s@ == decode_utf8(bytes@),
{
    String::from_utf8(bytes).ok()
}

/// Bounds-checked reads of fixed-width little-endian integers and of
/// fixed-length strings out of an owned byte buffer.
pub trait Scribe: View<V = Seq<u8>> {
    /// Read the byte at `offset`, or fail when the buffer is too short.
    fn read_u8(&self, offset: usize) -> (r: Result<u8, Error>)
        ensures
            offset + 1 <= self@.len() ==> r == Ok::<u8, Error>(self@[offset as int]),
            offset + 1 > self@.len() ==> r == Err::<u8, Error>(Error::OffsetOutOfRange),
    ;

    /// Read a little-endian 16-bit value at `offset`, or fail when any of
    /// its two bytes would lie past the end of the buffer.
    fn read_u16(&self, offset: usize) -> (r: Result<u16, Error>)
        ensures
            offset + 2 <= self@.len() ==> r == Ok::<u16, Error>(spec_le_u16(self@, offset as int)),
            offset + 2 > self@.len() ==> r == Err::<u16, Error>(Error::OffsetOutOfRange),
    ;

    /// Read a little-endian 32-bit value at `offset`, or fail when any of
    /// its four bytes would lie past the end of the buffer.
    fn read_u32(&self, offset: usize) -> (r: Result<u32, Error>)
        ensures
            offset + 4 <= self@.len() ==> r == Ok::<u32, Error>(spec_le_u32(self@, offset as int)),
            offset + 4 > self@.len() ==> r == Err::<u32, Error>(Error::OffsetOutOfRange),
    ;

    /// Decode the `size` bytes at `offset` as a UTF-8 string.  The read
    /// fails past the end of the buffer, and fails differently on bytes
    /// that are not valid UTF-8; the bytes may hold embedded NULs.
    fn read_string(&self, offset: usize, size: usize) -> (r: Result<String, Error>)
        ensures
            r is Ok <==> offset + size <= self@.len() && valid_utf8(
                self@.subrange(offset as int, offset + size),
            ),
            r matches Ok(s) ==> s@ == decode_utf8(self@.subrange(offset as int, offset + size)),
            offset + size > self@.len() ==> r == Err::<String, Error>(Error::OffsetOutOfRange),
            offset + size <= self@.len() && !valid_utf8(
                self@.subrange(offset as int, offset + size),
            ) ==> r == Err::<String, Error>(Error::BadString),
    ;
}

impl Scribe for Vec<u8> {
    fn read_u8(&self, offset: usize) -> (r: Result<u8, Error>) {
        crate::reader::read_u8(self.as_slice(), offset)
    }

    fn read_u16(&self, offset: usize) -> (r: Result<u16, Error>) {
        crate::reader::read_u16(self.as_slice(), offset)
    }

    fn read_u32(&self, offset: usize) -> (r: Result<u32, Error>) {
        crate::reader::read_u32(self.as_slice(), offset)
    }

    fn read_string(&self, offset: usize, size: usize) -> (r: Result<String, Error>) {
        if size > self.len() || offset > self.len() - size {
            return Err(Error::OffsetOutOfRange);
        }
        let bytes = vstd::slice::slice_to_vec(
            vstd::slice::slice_subrange(self.as_slice(), offset, offset + size),
        );
        match bytes_to_string(bytes) {
            Some(s) => Ok(s),
            None => Err(Error::BadString),
        }
    }
}

} // verus!
