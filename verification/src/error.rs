//! gRPC statuses and the errors of the service, with the status that each
//! error is answered with.
use vstd::prelude::*;

use crate::text::{indent_lines, tuple_debug, tuple_debug_text};

verus! {

/// The gRPC status codes.
#[derive(Clone, Copy, Debug, PartialEq, Eq, Structural)]
pub enum Code {
    /// The call succeeded (code 0).
    Success,
    Cancelled,
    Unknown,
    InvalidArgument,
    DeadlineExceeded,
    NotFound,
    AlreadyExists,
    PermissionDenied,
    ResourceExhausted,
    FailedPrecondition,
    Aborted,
    OutOfRange,
    Unimplemented,
    Internal,
    Unavailable,
    DataLoss,
    Unauthenticated,
}

/// A gRPC status: a code and a message.
#[derive(Clone, Debug)]
pub struct Status {
    pub code: Code,
    pub message: String,
}

impl Status {
    /// A status with the given code and message.
    pub fn new(code: Code, message: String) -> (s: Status)
        ensures
            s.code == code,
            s.message == message,
    {
        Status { code, message }
    }

    /// An `Internal` status.
    pub fn internal(message: String) -> (s: Status)
        ensures
            s.code == Code::Internal,
            s.message == message,
    {
        Status::new(Code::Internal, message)
    }

    /// An `Unavailable` status.
    pub fn unavailable(message: String) -> (s: Status)
        ensures
            s.code == Code::Unavailable,
            s.message == message,
    {
        Status::new(Code::Unavailable, message)
    }

    /// An `InvalidArgument` status.
    pub fn invalid_argument(message: String) -> (s: Status)
        ensures
            s.code == Code::InvalidArgument,
            s.message == message,
    {
        Status::new(Code::InvalidArgument, message)
    }

    /// An `Unauthenticated` status.
    pub fn unauthenticated(message: String) -> (s: Status)
        ensures
            s.code == Code::Unauthenticated,
            s.message == message,
    {
        Status::new(Code::Unauthenticated, message)
    }
}

/// The errors of the service. Each variant holds the text of the underlying
/// error that the status mapping reads: its display text for Redis and
/// transport errors, its pretty (`{:#?}`) debug text for configuration and
/// I/O errors, and the status itself for a gRPC status.
#[derive(Clone, Debug)]
pub enum ServiceError {
    /// A configuration or environment error; holds its pretty debug text.
    ConfigError(String),
    /// A gRPC transport error; holds its display text.
    GrpcTransportError(String),
    /// A gRPC status returned by another service.
    GrpcStatus(Status),
    /// A Redis error; holds its display text.
    RedisError(String),
    /// An I/O error; holds its pretty debug text.
    Io(String),
}

/// The code of the status that answers `err`.
pub open spec fn status_code_for(err: ServiceError) -> Code {
    match err {
        ServiceError::GrpcStatus(s) => s.code,
        ServiceError::GrpcTransportError(_) => Code::Unavailable,
        _ => Code::Internal,
    }
}

/// The message of the status that answers `err`: a Redis or transport error
/// is named and followed by its display text; a configuration or I/O error
/// is written as the pretty debug text of the whole error value.
pub open spec fn status_message_for(err: ServiceError) -> Seq<char> {
    match err {
        ServiceError::GrpcStatus(s) => s.message@,
        ServiceError::RedisError(d) => "Redis hatası: "@ + d@,
        ServiceError::GrpcTransportError(d) => "gRPC bağlantı hatası: "@ + d@,
        ServiceError::ConfigError(d) => tuple_debug_text("ConfigError"@, d@),
        ServiceError::Io(d) => tuple_debug_text("Io"@, d@),
    }
}

/// Every configuration, I/O and Redis error is answered with `Internal`,
/// and every transport error with `Unavailable`, whatever their text; a
/// carried status keeps its own code.
pub proof fn lemma_status_codes(text: String, status: Status)
    ensures
        status_code_for(ServiceError::ConfigError(text)) == Code::Internal,
        status_code_for(ServiceError::Io(text)) == Code::Internal,
        status_code_for(ServiceError::RedisError(text)) == Code::Internal,
        status_code_for(ServiceError::GrpcTransportError(text)) == Code::Unavailable,
        status_code_for(ServiceError::GrpcStatus(status)) == status.code,
{
}

/// The message of a Redis or transport error is its fixed prefix followed by
/// the error's text; a configuration or I/O error is written as the
/// variant's name, an opening `(` and newline, its indented text with a
/// trailing `,` and newline, and a closing `)`; a carried status keeps its
/// own message.
pub proof fn lemma_status_messages(text: String, status: Status)
    ensures
        status_message_for(ServiceError::RedisError(text)) == "Redis hatası: "@ + text@,
        status_message_for(ServiceError::GrpcTransportError(text)) == "gRPC bağlantı hatası: "@
            + text@,
        status_message_for(ServiceError::ConfigError(text)) == "ConfigError"@ + "(\n"@
            + indent_lines(text@ + ",\n"@, true) + ")"@,
        status_message_for(ServiceError::Io(text)) == "Io"@ + "(\n"@ + indent_lines(
            text@ + ",\n"@,
            true,
        ) + ")"@,
        status_message_for(ServiceError::GrpcStatus(status)) == status.message@,
{
}

impl ServiceError {
    /// The gRPC status that answers this error. A status carried by the error
    /// is passed on unchanged.
    pub fn into_status(self) -> (s: Status)
        ensures
            s.code == status_code_for(self),
            s.message@ == status_message_for(self),
            self matches ServiceError::GrpcStatus(inner) ==> s == inner,
            self is ConfigError ==> s.code == Code::Internal,
            self is Io ==> s.code == Code::Internal,
            self is RedisError ==> s.code == Code::Internal,
            self is GrpcTransportError ==> s.code == Code::Unavailable,
    {
        match self {
            ServiceError::GrpcStatus(s) => s,
            ServiceError::RedisError(d) => {
                let mut m = String::from_str("Redis hatası: ");
                m.append(d.as_str());
                Status::internal(m)
            },
            ServiceError::GrpcTransportError(d) => {
                let mut m = String::from_str("gRPC bağlantı hatası: ");
                m.append(d.as_str());
                Status::unavailable(m)
            },
            ServiceError::ConfigError(d) => Status::internal(tuple_debug("ConfigError", d.as_str())),
            ServiceError::Io(d) => Status::internal(tuple_debug("Io", d.as_str())),
        }
    }
}

} // verus!
