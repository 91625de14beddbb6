//! Failures of the archive library, and how the transport hears of them.

use crate::status::{Code, Status};
use rkyv::rancor::Error as ArchiveError;
use vstd::prelude::*;

verus! {

/// The error type of the archive library, `rkyv::rancor::Error`. Nothing is
/// known of what is inside one.
#[verifier::external_type_specification]
#[verifier::external_body]
pub struct ExArchiveError(ArchiveError);

/// `text` is what the failure `source` says of itself when displayed.
pub open spec fn displays_as(source: ArchiveError, text: Seq<char>) -> bool {
    exists|rendered: String|
        rendered@ == text && #[trigger] vstd::string::to_string_from_display_ensures::<
            ArchiveError,
        >(&source, rendered)
}

/// A failure of the archive library, kept as the library reported it.
#[derive(Debug)]
pub struct Error(ArchiveError);

impl Error {
    /// The failure that this error wraps.
    pub closed spec fn source(&self) -> ArchiveError {
        self.0
    }

    /// Wraps a failure of the archive library.
    pub fn new(source: ArchiveError) -> (error: Self)
        ensures
            error.source() == source,
    {
        Error(source)
    }

    /// The failure's own account of itself, for a human reader.
    pub fn message(&self) -> (text: String)
        ensures
            displays_as(self.source(), text@),
    {
        self.0.to_string()
    }
}

/// The status that stands for a failure of the archive library: always
/// internal, with the failure's own text as its message.
pub open spec fn is_status_of(status: Status, source: ArchiveError) -> bool {
    &&& status.category() == Code::Internal
    &&& displays_as(source, status.text())
}

impl vstd::std_specs::convert::FromSpecImpl<Error> for Status {
    /// The conversion is specified by the `ensures` of `from`, not by
    /// `from_spec`: no specification can write a `Status` down from a text.
    open spec fn obeys_from_spec() -> bool {
        false
    }

    open spec fn from_spec(error: Error) -> Status {
        arbitrary()
    }
}

impl From<Error> for Status {
    /// Every failure of the archive library is reported alike: as an
    /// internal status that carries the failure's text.
    fn from(error: Error) -> (status: Status)
        ensures
            is_status_of(status, error.source()),
    {
        Status::internal(error.message())
    }
}

/// A failure that has something to say gives a status that says it: the
/// status is internal and its message is not empty.
pub proof fn lemma_failure_is_reported(status: Status, source: ArchiveError)
    requires
        is_status_of(status, source),
        forall|text: Seq<char>| displays_as(source, text) ==> text.len() > 0,
    ensures
        status.category() == Code::Internal,
        status.text().len() > 0,
{
}

} // verus!
