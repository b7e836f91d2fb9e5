use vstd::prelude::*;

verus! {

/// The kinds of structured failure that the service reports on generation.
#[derive(Debug, Clone, Copy, PartialEq, Eq)]
pub enum ErrorKind {
    NotImplemented,
    ServiceUnavailable,
    OutOfMemory,
}

/// Every failure that an operation of the client can return.
#[derive(Debug, Clone, PartialEq, Eq)]
pub enum ClientError {
    /// A model reference string without the `owner/name` shape.
    InvalidModelIdentifier,
    /// A reply body that does not match the expected schema, or that names an
    /// error kind outside the known set.
    DecodeError,
    /// A reply whose `result` field is absent or not a string.
    ProtocolError,
    /// A non-success status on a path where no error body is read.
    RequestFailed { status: u16 },
    /// A structured failure reported by the service.
    ServiceError { kind: ErrorKind, message: String },
    /// A failure of the transport, carried through with its description.
    Transport { message: String },
}

} // verus!
