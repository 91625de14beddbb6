//! What the transport is told when a call fails.

use vstd::prelude::*;

verus! {

/// The categories of failure that the transport tells apart.
#[derive(Debug, Clone, Copy, PartialEq, Eq, Structural)]
pub enum Code {
    Cancelled,
    Unknown,
    InvalidArgument,
    DeadlineExceeded,
    NotFound,
    AlreadyExists,
    PermissionDenied,
    ResourceExhausted,
    FailedPrecondition,
    Aborted,
    OutOfRange,
    Unimplemented,
    Internal,
    Unavailable,
    DataLoss,
    Unauthenticated,
}

/// A failure as the transport reports it: a category, and a message for a
/// human reader.
#[derive(Debug, Clone)]
pub struct Status {
    code: Code,
    message: String,
}

impl Status {
    /// The category of this status.
    pub closed spec fn category(&self) -> Code {
        self.code
    }

    /// The message of this status.
    pub closed spec fn text(&self) -> Seq<char> {
        self.message@
    }

    /// A status of the given category that carries `message`.
    pub fn new(code: Code, message: String) -> (status: Self)
        ensures
            status.category() == code,
            status.text() == message@,
    {
        Status { code, message }
    }

    /// A status of the category [`Code::Internal`] that carries `message`.
    pub fn internal(message: String) -> (status: Self)
        ensures
            status.category() == Code::Internal,
            status.text() == message@,
    {
        Status::new(Code::Internal, message)
    }

    /// The category of this status.
    pub fn code(&self) -> (code: Code)
        ensures
            code == self.category(),
    {
        self.code
    }

    /// The message of this status.
    pub fn message(&self) -> (message: &str)
        ensures
            message@ == self.text(),
    {
        self.message.as_str()
    }
}

} // verus!
