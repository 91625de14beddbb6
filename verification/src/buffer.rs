//! The byte buffers that the transport lends to the codec.
//!
//! Both own a `bytes::BytesMut`. The verifier does not see inside one; the
//! contracts speak of what it holds through [`contents`].

use bytes::{Buf, BufMut};
use rkyv::rancor::Error as ArchiveError;
use rkyv::ser::Positional;
use vstd::prelude::*;

verus! {

/// The growable byte buffer of the `bytes` crate, `bytes::BytesMut`.
#[verifier::external_type_specification]
#[verifier::external_body]
pub struct ExBytesMut(bytes::BytesMut);

/// The bytes that a `bytes::BytesMut` holds, from its read cursor to its end.
pub uninterp spec fn contents(buf: bytes::BytesMut) -> Seq<u8>;

/// The serializer that an item has to accept to be archived into a buffer:
/// the archive library's high-level serializer, writing through the buffer.
pub type ArchiveSerializer<'a, 'b> = rkyv::api::high::HighSerializer<
    rkyv::ser::writer::IoWriter<bytes::buf::Writer<&'a mut bytes::BytesMut>>,
    rkyv::ser::allocator::ArenaHandle<'b>,
    ArchiveError,
>;

/// `bytes::Buf::chunk` of a `BytesMut`: all of its bytes, as one slice
/// borrowed from it.
#[verifier::external_body]
fn unread_slice(buf: &bytes::BytesMut) -> (bytes: &[u8])
    ensures
        bytes@ == contents(*buf),
{
    buf.chunk()
}

/// `bytes::Buf::advance` of a `BytesMut`: drops its first `cnt` bytes. It
/// panics when asked for more than there are, hence the precondition.
#[verifier::external_body]
fn skip_unread(buf: &mut bytes::BytesMut, cnt: usize)
    requires
        cnt <= contents(*old(buf)).len(),
    ensures
        contents(*final(buf)) == contents(*old(buf)).skip(cnt as int),
{
    buf.advance(cnt)
}

/// `rkyv::api::high::to_bytes_in`, given an `rkyv::ser::writer::IoWriter`
/// over `bytes::BufMut::writer` of the buffer; the answer is
/// `rkyv::ser::Positional::pos` of the writer that comes back.
///
/// The writer can only append, so the old contents stay in front whatever
/// happens. The writer starts at position zero and moves on by the length of
/// each piece that the buffer has taken, so on success its position is the
/// number of bytes appended. Both count on an item that writes through the
/// serializer it is handed and leaves the writer in it alone, as the impls
/// of the archive library and of its derive do.
#[verifier::external_body]
fn append_archive<T>(buf: &mut bytes::BytesMut, item: &T) -> (outcome: Result<usize, ArchiveError>)
    where
        T: for<'a, 'b> rkyv::Serialize<ArchiveSerializer<'a, 'b>>,
    ensures
        contents(*old(buf)).is_prefix_of(contents(*final(buf))),
        outcome matches Ok(written) ==> contents(*final(buf)).len() == contents(*old(buf)).len()
            + written,
{
    let sink = rkyv::ser::writer::IoWriter::new(buf.writer());
    let sink = rkyv::api::high::to_bytes_in::<_, ArchiveError>(item, sink)?;
    Ok(sink.pos())
}

/// The transport's send buffer, as the encoder sees it: a sink that bytes
/// can only be appended to.
#[derive(Debug)]
pub struct EncodeBuf {
    buf: bytes::BytesMut,
}

impl View for EncodeBuf {
    type V = Seq<u8>;

    /// The bytes written so far.
    closed spec fn view(&self) -> Seq<u8> {
        contents(self.buf)
    }
}

impl EncodeBuf {
    /// Takes over a buffer; what it already holds stays in front.
    pub fn new(buf: bytes::BytesMut) -> (sink: Self)
        ensures
            sink@ == contents(buf),
    {
        EncodeBuf { buf }
    }

    /// Gives the buffer back.
    pub fn into_inner(self) -> (buf: bytes::BytesMut)
        ensures
            contents(buf) == self@,
    {
        self.buf
    }

    /// Archives `item` at the end of the buffer, writing straight into it,
    /// and reports how many bytes the archive library wrote.
    ///
    /// Nothing that was in the buffer changes, whether the archive library
    /// succeeds or fails; on success the buffer has grown by exactly the
    /// number reported.
    pub fn archive<T>(&mut self, item: &T) -> (outcome: Result<usize, ArchiveError>)
        where
            T: for<'a, 'b> rkyv::Serialize<ArchiveSerializer<'a, 'b>>,
        ensures
            old(self)@.is_prefix_of(final(self)@),
            outcome matches Ok(written) ==> final(self)@.len() == old(self)@.len() + written,
    {
        append_archive(&mut self.buf, item)
    }
}

/// The received bytes of one message, as the decoder sees them: one
/// contiguous chunk of unread bytes, and a cursor that moves over it from the
/// front.
#[derive(Debug)]
pub struct DecodeBuf {
    buf: bytes::BytesMut,
}

impl View for DecodeBuf {
    type V = Seq<u8>;

    /// The unread bytes.
    closed spec fn view(&self) -> Seq<u8> {
        contents(self.buf)
    }
}

impl DecodeBuf {
    /// Takes over the bytes of one message, all of them unread.
    pub fn new(buf: bytes::BytesMut) -> (source: Self)
        ensures
            source@ == contents(buf),
    {
        DecodeBuf { buf }
    }

    /// Gives back what is left unread.
    pub fn into_inner(self) -> (buf: bytes::BytesMut)
        ensures
            contents(buf) == self@,
    {
        self.buf
    }

    /// The unread bytes as one slice, borrowed from the buffer.
    pub fn chunk(&self) -> (bytes: &[u8])
        ensures
            bytes@ == self@,
    {
        unread_slice(&self.buf)
    }

    /// How many bytes are unread.
    pub fn remaining(&self) -> (n: usize)
        ensures
            n == self@.len(),
    {
        unread_slice(&self.buf).len()
    }

    /// Moves the cursor over the first `cnt` unread bytes.
    pub fn advance(&mut self, cnt: usize)
        requires
            cnt <= old(self)@.len(),
        ensures
            final(self)@ == old(self)@.skip(cnt as int),
    {
        skip_unread(&mut self.buf, cnt)
    }
}

} // verus!
