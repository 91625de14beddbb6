//! The codec: a factory that holds nothing, and the encoder and decoder it
//! makes, each for one message.

use crate::buffer::{ArchiveSerializer, DecodeBuf, EncodeBuf};
use crate::error::{is_status_of, Error};
use crate::status::Status;
use rkyv::rancor::Error as ArchiveError;
use std::marker::PhantomData;
use vstd::prelude::*;

verus! {

/// The deserializer that builds a value from its archive.
pub type ArchiveDeserializer = rkyv::api::high::HighDeserializer<ArchiveError>;

/// The validator that checks bytes before they are read as an archive.
pub type ArchiveValidator<'a> = rkyv::api::high::HighValidator<'a, ArchiveError>;

/// `rkyv::from_bytes`: checks that `bytes` hold an archive of a `U` and, if
/// they do, builds the `U` from it. Nothing is claimed of the outcome.
#[verifier::external_body]
fn unarchive<U>(bytes: &[u8]) -> (outcome: Result<U, ArchiveError>)
    where
        U: rkyv::Archive,
        U::Archived: rkyv::Deserialize<U, ArchiveDeserializer>
            + for<'a> rkyv::bytecheck::CheckBytes<ArchiveValidator<'a>>,
{
    rkyv::from_bytes::<U, ArchiveError>(bytes)
}

/// A codec that sends a `T` and receives a `U` as archives. It holds
/// nothing: every encoder and decoder it makes is a new one.
#[derive(Debug)]
pub struct RkyvCodec<T, U> {
    maker: PhantomData<(T, U)>,
}

impl<T, U> Default for RkyvCodec<T, U> {
    fn default() -> (codec: Self)
        ensures
            codec == Self::fresh(),
    {
        RkyvCodec { maker: PhantomData }
    }
}

impl<T, U> RkyvCodec<T, U> {
    /// The one value a codec can have.
    pub closed spec fn fresh() -> Self {
        RkyvCodec { maker: PhantomData }
    }
}

/// The factory proper. It serves message types that the archive library can
/// handle: a `T` that can be serialized into a send buffer, and a `U` that
/// can be built from its archive.
impl<T, U> RkyvCodec<T, U> where
    T: Send + 'static,
    U: Send + 'static,
    T: for<'a, 'b> rkyv::Serialize<ArchiveSerializer<'a, 'b>>,
    U: rkyv::Archive,
    U::Archived: rkyv::Deserialize<U, ArchiveDeserializer>,
 {
    /// An encoder for one outgoing message.
    pub fn encoder(&mut self) -> (encoder: Encoder<T>)
        ensures
            *final(self) == *old(self),
            encoder == Encoder::<T>::fresh(),
    {
        Encoder::new()
    }

    /// A decoder for one incoming message.
    pub fn decoder(&mut self) -> (decoder: Decoder<U>)
        ensures
            *final(self) == *old(self),
            decoder == Decoder::<U>::fresh(),
    {
        Decoder::new()
    }
}

/// Archives one message into the transport's send buffer.
#[derive(Debug)]
pub struct Encoder<T> {
    marker: PhantomData<T>,
}

impl<T> Encoder<T> {
    /// The one value an encoder can have.
    pub closed spec fn fresh() -> Self {
        Encoder { marker: PhantomData }
    }

    /// A new encoder. It holds nothing and cannot fail to be made.
    pub fn new() -> (encoder: Self)
        ensures
            encoder == Self::fresh(),
    {
        Encoder { marker: PhantomData }
    }

    /// What `encode` answers to an outcome of the archive library: success
    /// to success, and to a failure the status that stands for it.
    pub open spec fn reports(outcome: Result<usize, ArchiveError>, answer: Result<(), Status>) -> bool {
        match outcome {
            Ok(_) => answer is Ok,
            Err(source) => answer matches Err(status) && is_status_of(status, source),
        }
    }

    /// Turns an outcome of the archive library into the answer of `encode`.
    pub fn finish(outcome: Result<usize, ArchiveError>) -> (answer: Result<(), Status>)
        ensures
            Self::reports(outcome, answer),
    {
        match outcome {
            Ok(_) => Ok(()),
            Err(source) => Err(Status::from(Error::new(source))),
        }
    }

    /// Archives `item` at the end of `buf`.
    ///
    /// The bytes go straight into the buffer. What it held before stays in
    /// front, untouched, whatever the outcome; on success it has grown by
    /// exactly the number of bytes that the archive library reports. A
    /// failure of the archive library comes back as an internal status, and
    /// nothing is tried again.
    pub fn encode(&mut self, item: T, buf: &mut EncodeBuf) -> (answer: Result<(), Status>)
        where
            T: for<'a, 'b> rkyv::Serialize<ArchiveSerializer<'a, 'b>>,
        ensures
            *final(self) == *old(self),
            old(buf)@.is_prefix_of(final(buf)@),
            exists|outcome: Result<usize, ArchiveError>|
                #[trigger] Self::reports(outcome, answer) && (outcome matches Ok(written)
                    ==> final(buf)@.len() == old(buf)@.len() + written),
    {
        let outcome = buf.archive(&item);
        Self::finish(outcome)
    }
}

/// Reads one message out of the transport's receive buffer.
#[derive(Debug)]
pub struct Decoder<U> {
    marker: PhantomData<U>,
}

impl<U> Default for Decoder<U> {
    fn default() -> (decoder: Self)
        ensures
            decoder == Self::fresh(),
    {
        Decoder { marker: PhantomData }
    }
}

impl<U> Decoder<U> {
    /// The one value a decoder can have.
    pub closed spec fn fresh() -> Self {
        Decoder { marker: PhantomData }
    }

    /// A new decoder. It holds nothing and cannot fail to be made.
    pub fn new() -> (decoder: Self)
        ensures
            decoder == Self::fresh(),
    {
        Decoder { marker: PhantomData }
    }

    /// What `decode` answers to an outcome of the interpretation: to success
    /// the value, always present, and to a failure the status that stands
    /// for it.
    pub open spec fn reports(outcome: Result<U, ArchiveError>, answer: Result<Option<U>, Status>) -> bool {
        match outcome {
            Ok(value) => answer == Ok::<Option<U>, Status>(Some(value)),
            Err(source) => answer matches Err(status) && is_status_of(status, source),
        }
    }

    /// `answer` is what `decode` gives for the unread bytes `unread` and the
    /// interpretation `interpret`: the report of an outcome that `interpret`
    /// can have when it is handed exactly those bytes.
    pub open spec fn decodes<F: FnOnce(&[u8]) -> Result<U, ArchiveError>>(
        interpret: F,
        unread: Seq<u8>,
        answer: Result<Option<U>, Status>,
    ) -> bool {
        exists|chunk: &[u8], outcome: Result<U, ArchiveError>|
            chunk@ == unread && #[trigger] call_ensures(interpret, (chunk,), outcome)
                && Self::reports(outcome, answer)
    }

    /// Turns an outcome of the interpretation into the answer of `decode`.
    pub fn finish(outcome: Result<U, ArchiveError>) -> (answer: Result<Option<U>, Status>)
        ensures
            Self::reports(outcome, answer),
    {
        match outcome {
            Ok(value) => Ok(Some(value)),
            Err(source) => Err(Status::from(Error::new(source))),
        }
    }

    /// Reads the message in `buf`: hands the whole unread chunk to
    /// `interpret`, borrowed and not copied, then moves the cursor over all
    /// of it, whatever the outcome.
    ///
    /// `interpret` is where the bytes are taken for an archive of a `U`. It
    /// may trust them unchecked; then the caller answers for them, by
    /// meeting its precondition on the chunk. A successful answer always
    /// holds a value.
    pub fn decode<F>(&mut self, buf: &mut DecodeBuf, interpret: F) -> (answer: Result<Option<U>, Status>)
        where
            F: FnOnce(&[u8]) -> Result<U, ArchiveError>,
        requires
            forall|chunk: &[u8]| chunk@ == old(buf)@ ==> #[trigger] call_requires(interpret, (chunk,)),
        ensures
            *final(self) == *old(self),
            final(buf)@ == old(buf)@.skip(old(buf)@.len() as int),
            answer matches Ok(value) ==> value is Some,
            Self::decodes(interpret, old(buf)@, answer),
    {
        let chunk = buf.chunk();
        let read = chunk.len();
        let outcome = interpret(chunk);
        buf.advance(read);
        Self::finish(outcome)
    }

    /// Reads the message in `buf` as `decode` does, with the archive
    /// library's checked interpretation: bytes that are no archive of a `U`
    /// come back as an internal status.
    pub fn decode_checked(&mut self, buf: &mut DecodeBuf) -> (answer: Result<Option<U>, Status>)
        where
            U: rkyv::Archive,
            U::Archived: rkyv::Deserialize<U, ArchiveDeserializer>
                + for<'a> rkyv::bytecheck::CheckBytes<ArchiveValidator<'a>>,
        ensures
            *final(self) == *old(self),
            final(buf)@ == old(buf)@.skip(old(buf)@.len() as int),
            answer matches Ok(value) ==> value is Some,
            exists|outcome: Result<U, ArchiveError>| #[trigger] Self::reports(outcome, answer),
    {
        self.decode(
            buf,
            |chunk: &[u8]| -> (outcome: Result<U, ArchiveError>) { unarchive::<U>(chunk) },
        )
    }
}

/// The decoder gives back what the interpretation makes of the bytes, no
/// more and no less: where `interpret` can only answer `value` to the bytes
/// `archive`, decoding a buffer whose unread bytes are `archive` answers
/// `Some(value)`. That an interpretation does give back the value that was
/// archived rests with the archive library.
pub proof fn lemma_decode_gives_what_is_interpreted<U, F: FnOnce(&[u8]) -> Result<U, ArchiveError>>(
    interpret: F,
    archive: Seq<u8>,
    value: U,
    answer: Result<Option<U>, Status>,
)
    requires
        forall|chunk: &[u8], outcome: Result<U, ArchiveError>|
            chunk@ == archive && #[trigger] call_ensures(interpret, (chunk,), outcome) ==> outcome
                == Ok::<U, ArchiveError>(value),
        Decoder::<U>::decodes(interpret, archive, answer),
    ensures
        answer == Ok::<Option<U>, Status>(Some(value)),
{
}

/// No encoder differs from another: there is nothing in one to tell it by,
/// and nothing that a call could leave behind in it.
pub proof fn lemma_encoders_alike<T>(a: Encoder<T>, b: Encoder<T>)
    ensures
        a == b,
{
}

/// No decoder differs from another.
pub proof fn lemma_decoders_alike<U>(a: Decoder<U>, b: Decoder<U>)
    ensures
        a == b,
{
}

} // verus!
