//! Failures that the transport reports: a status with a category code and a
//! message, and the errors of the RPC client.

use vstd::prelude::*;
use vstd::string::StringExecFns;

verus! {

/// The category of a failure.
#[derive(Clone, Copy, Debug, PartialEq, Eq)]
pub enum UCode {
    Cancelled,
    Unknown,
    InvalidArgument,
    DeadlineExceeded,
    NotFound,
    AlreadyExists,
    PermissionDenied,
    Unauthenticated,
    ResourceExhausted,
    FailedPrecondition,
    Aborted,
    OutOfRange,
    Unimplemented,
    Internal,
    Unavailable,
    DataLoss,
}

/// A failure: its category and a message for a human reader.
#[derive(Clone, Debug, PartialEq, Eq)]
pub struct UStatus {
    pub code: UCode,
    pub message: String,
}

impl UStatus {
    /// Whether this status has the category `code` and the message `text`.
    pub open spec fn says(&self, code: UCode, text: Seq<char>) -> bool {
        self.code == code && self.message@ == text
    }

    /// A failure of the category `code` with the message `message`.
    pub fn fail_with_code(code: UCode, message: &str) -> (status: UStatus)
        ensures
            status.says(code, message@),
    {
        UStatus { code, message: String::from_str(message) }
    }
}

/// Why an RPC invocation did not yield a payload.
#[derive(Clone, Debug, PartialEq, Eq)]
pub enum RpcMapperError {
    /// The request could not be made, or no usable reply came back.
    UnexpectedError(String),
    /// The payload handed in cannot be sent.
    InvalidPayload(String),
    /// The attributes could not be put into their wire form.
    ProtobufError(String),
}

/// An error of the RPC client with its message as a sequence of characters.
pub enum RpcFault {
    Unexpected(Seq<char>),
    InvalidPayload(Seq<char>),
    Protobuf(Seq<char>),
}

impl View for RpcMapperError {
    type V = RpcFault;

    open spec fn view(&self) -> RpcFault {
        match self {
            RpcMapperError::UnexpectedError(m) => RpcFault::Unexpected(m@),
            RpcMapperError::InvalidPayload(m) => RpcFault::InvalidPayload(m@),
            RpcMapperError::ProtobufError(m) => RpcFault::Protobuf(m@),
        }
    }
}

impl RpcMapperError {
    /// An unexpected error with the message `message`.
    pub fn unexpected(message: &str) -> (e: RpcMapperError)
        ensures
            e@ == RpcFault::Unexpected(message@),
    {
        RpcMapperError::UnexpectedError(String::from_str(message))
    }

    /// An unexpected error whose message is `prefix` followed by `detail`.
    pub fn unexpected_with(prefix: &str, detail: &str) -> (e: RpcMapperError)
        ensures
            e@ == RpcFault::Unexpected(prefix@ + detail@),
    {
        RpcMapperError::UnexpectedError(String::from_str(prefix).concat(detail))
    }
}

} // verus!
