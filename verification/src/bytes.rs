//! Byte buffers as they travel inside canvas commands.

use vstd::prelude::*;

verus! {

/// A buffer of bytes, kept in a `serde_bytes::ByteBuf` so that it
/// serialises compactly. Its view is the sequence of bytes it holds.
#[verifier::external_body]
#[derive(Debug, PartialEq)]
pub struct ByteBuffer {
    inner: serde_bytes::ByteBuf,
}

/// The bytes that a buffer holds, in order.
pub uninterp spec fn byte_buffer_contents(buffer: ByteBuffer) -> Seq<u8>;

impl View for ByteBuffer {
    type V = Seq<u8>;

    open spec fn view(&self) -> Seq<u8> {
        byte_buffer_contents(*self)
    }
}

/// `ByteBuf::from`, applied to a vector: the buffer wraps the vector as it
/// is, so it holds the vector's bytes.
#[verifier::external_body]
fn byte_buf_from(bytes: Vec<u8>) -> (buffer: ByteBuffer)
    ensures
        byte_buffer_contents(buffer) == bytes@,
{
    ByteBuffer { inner: serde_bytes::ByteBuf::from(bytes) }
}

/// `ByteBuf::into_vec`: hands out the vector that the buffer holds.
#[verifier::external_body]
fn byte_buf_into_vec(buffer: ByteBuffer) -> (bytes: Vec<u8>)
    ensures
        bytes@ == byte_buffer_contents(buffer),
{
    buffer.inner.into_vec()
}

/// `ByteBuf::clone`: a second buffer with the same bytes.
#[verifier::external_body]
fn byte_buf_clone(buffer: &ByteBuffer) -> (copy: ByteBuffer)
    ensures
        byte_buffer_contents(copy) == byte_buffer_contents(*buffer),
{
    ByteBuffer { inner: buffer.inner.clone() }
}

/// `Vec::len`, reached through the buffer's `Deref`: how many bytes the
/// buffer holds.
#[verifier::external_body]
fn byte_buf_len(buffer: &ByteBuffer) -> (length: usize)
    ensures
        length == byte_buffer_contents(*buffer).len(),
{
    buffer.inner.len()
}

impl Clone for ByteBuffer {
    fn clone(&self) -> (copy: ByteBuffer)
        ensures
            copy@ == self@,
    {
        byte_buf_clone(self)
    }
}

impl ByteBuffer {
    /// A buffer that holds `bytes`.
    pub fn from_vec(bytes: Vec<u8>) -> (buffer: ByteBuffer)
        ensures
            buffer@ == bytes@,
    {
        byte_buf_from(bytes)
    }

    /// How many bytes the buffer holds.
    pub fn len(&self) -> (length: usize)
        ensures
            length == self@.len(),
    {
        byte_buf_len(self)
    }

    /// The bytes of the buffer, as a vector.
    pub fn into_vec(self) -> (bytes: Vec<u8>)
        ensures
            bytes@ == self@,
    {
        byte_buf_into_vec(self)
    }
}

} // verus!
