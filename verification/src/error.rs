use vstd::prelude::*;

verus! {

/// Why a transfer ended without success.
#[derive(Clone, Copy, Debug, PartialEq, Eq, Structural)]
pub enum TransferError {
    /// An empty identifier or key, or a key that is not hexadecimal text.
    InvalidInput,
    /// A key that decodes to something other than 32 bytes.
    InvalidKeyLength,
    /// The authentication tag did not verify.
    AuthenticationFailure,
    /// An envelope shorter than its nonce.
    MalformedEnvelope,
    /// The object store could not be reached, or answered with a status that
    /// the operation does not expect.
    BackendUnavailable,
    /// The object store reports that no object has the identifier.
    NotFound,
    /// The peer left, or a chunk could not be delivered, in mid transfer.
    StreamAborted,
    /// Every probed identifier was already in use.
    AllocationExhausted,
}

/// The answer classes of the buffered (HTTP-shaped) channel.
#[derive(Clone, Copy, Debug, PartialEq, Eq, Structural)]
pub enum HttpClass {
    BadRequest,
    NotFound,
    UnprocessableEntity,
    InternalServerError,
}

/// The answer classes of the streamed (RPC-shaped) channel.
#[derive(Clone, Copy, Debug, PartialEq, Eq, Structural)]
pub enum RpcClass {
    InvalidArgument,
    NotFound,
    Unauthenticated,
    Internal,
}

impl TransferError {
    /// Caller errors are those that the caller can mend by sending something
    /// else; the others are the gateway's or the object store's.
    pub open spec fn is_caller_error(self) -> bool {
        self == TransferError::InvalidInput || self == TransferError::InvalidKeyLength
            || self == TransferError::AuthenticationFailure || self
            == TransferError::MalformedEnvelope
    }

    pub open spec fn http_class_of(self) -> HttpClass {
        match self {
            TransferError::InvalidInput => HttpClass::BadRequest,
            TransferError::InvalidKeyLength => HttpClass::UnprocessableEntity,
            TransferError::AuthenticationFailure => HttpClass::BadRequest,
            TransferError::MalformedEnvelope => HttpClass::BadRequest,
            TransferError::NotFound => HttpClass::NotFound,
            TransferError::BackendUnavailable => HttpClass::InternalServerError,
            TransferError::StreamAborted => HttpClass::InternalServerError,
            TransferError::AllocationExhausted => HttpClass::InternalServerError,
        }
    }

    pub open spec fn rpc_class_of(self) -> RpcClass {
        match self {
            TransferError::InvalidInput => RpcClass::InvalidArgument,
            TransferError::InvalidKeyLength => RpcClass::InvalidArgument,
            TransferError::AuthenticationFailure => RpcClass::InvalidArgument,
            TransferError::MalformedEnvelope => RpcClass::InvalidArgument,
            TransferError::NotFound => RpcClass::NotFound,
            TransferError::BackendUnavailable => RpcClass::Internal,
            TransferError::StreamAborted => RpcClass::Internal,
            TransferError::AllocationExhausted => RpcClass::Internal,
        }
    }

    /// The class under which the buffered channel reports this error.
    pub fn http_class(self) -> (class: HttpClass)
        ensures
            class == self.http_class_of(),
            self.is_caller_error() ==> class != HttpClass::InternalServerError,
    {
        match self {
            TransferError::InvalidInput => HttpClass::BadRequest,
            TransferError::InvalidKeyLength => HttpClass::UnprocessableEntity,
            TransferError::AuthenticationFailure => HttpClass::BadRequest,
            TransferError::MalformedEnvelope => HttpClass::BadRequest,
            TransferError::NotFound => HttpClass::NotFound,
            TransferError::BackendUnavailable => HttpClass::InternalServerError,
            TransferError::StreamAborted => HttpClass::InternalServerError,
            TransferError::AllocationExhausted => HttpClass::InternalServerError,
        }
    }

    /// The class under which the streamed channel reports this error.
    pub fn rpc_class(self) -> (class: RpcClass)
        ensures
            class == self.rpc_class_of(),
            self.is_caller_error() ==> class == RpcClass::InvalidArgument,
    {
        match self {
            TransferError::InvalidInput => RpcClass::InvalidArgument,
            TransferError::InvalidKeyLength => RpcClass::InvalidArgument,
            TransferError::AuthenticationFailure => RpcClass::InvalidArgument,
            TransferError::MalformedEnvelope => RpcClass::InvalidArgument,
            TransferError::NotFound => RpcClass::NotFound,
            TransferError::BackendUnavailable => RpcClass::Internal,
            TransferError::StreamAborted => RpcClass::Internal,
            TransferError::AllocationExhausted => RpcClass::Internal,
        }
    }

    /// A short text for the caller. It is fixed for each variant, so it can
    /// hold neither key nor payload.
    pub fn message(self) -> (text: &'static str)
        ensures
            text@ == self.message_of(),
    {
        match self {
            TransferError::InvalidInput => "Invalid identifier or secret key",
            TransferError::InvalidKeyLength => "Secret key must be 32 bytes",
            TransferError::AuthenticationFailure => "Invalid secret key",
            TransferError::MalformedEnvelope => "Stored object is malformed",
            TransferError::NotFound => "File does not exist",
            TransferError::BackendUnavailable => "Object store unavailable",
            TransferError::StreamAborted => "Stream aborted",
            TransferError::AllocationExhausted => "No free identifier found",
        }
    }

    pub open spec fn message_of(self) -> Seq<char> {
        match self {
            TransferError::InvalidInput => "Invalid identifier or secret key"@,
            TransferError::InvalidKeyLength => "Secret key must be 32 bytes"@,
            TransferError::AuthenticationFailure => "Invalid secret key"@,
            TransferError::MalformedEnvelope => "Stored object is malformed"@,
            TransferError::NotFound => "File does not exist"@,
            TransferError::BackendUnavailable => "Object store unavailable"@,
            TransferError::StreamAborted => "Stream aborted"@,
            TransferError::AllocationExhausted => "No free identifier found"@,
        }
    }
}

} // verus!
