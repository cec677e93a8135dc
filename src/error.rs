use vstd::prelude::*;

use crate::text::{append_int_text, int_text};

verus! {

/// The status codes of the RPC protocol, in their conventional taxonomy.
#[derive(Clone, Copy, Debug, PartialEq, Eq, Structural)]
pub enum RpcCode {
    Success,
    Cancelled,
    Unknown,
    InvalidArgument,
    DeadlineExceeded,
    NotFound,
    AlreadyExists,
    PermissionDenied,
    ResourceExhausted,
    FailedPrecondition,
    Aborted,
    OutOfRange,
    Unimplemented,
    Internal,
    Unavailable,
    DataLoss,
    Unauthenticated,
}

/// The name under which a status code is reported.
pub open spec fn code_name(c: RpcCode) -> Seq<char> {
    match c {
        RpcCode::Success => "Ok"@,
        RpcCode::Cancelled => "Cancelled"@,
        RpcCode::Unknown => "Unknown"@,
        RpcCode::InvalidArgument => "InvalidArgument"@,
        RpcCode::DeadlineExceeded => "DeadlineExceeded"@,
        RpcCode::NotFound => "NotFound"@,
        RpcCode::AlreadyExists => "AlreadyExists"@,
        RpcCode::PermissionDenied => "PermissionDenied"@,
        RpcCode::ResourceExhausted => "ResourceExhausted"@,
        RpcCode::FailedPrecondition => "FailedPrecondition"@,
        RpcCode::Aborted => "Aborted"@,
        RpcCode::OutOfRange => "OutOfRange"@,
        RpcCode::Unimplemented => "Unimplemented"@,
        RpcCode::Internal => "Internal"@,
        RpcCode::Unavailable => "Unavailable"@,
        RpcCode::DataLoss => "DataLoss"@,
        RpcCode::Unauthenticated => "Unauthenticated"@,
    }
}

impl RpcCode {
    /// The name of this code, as `code_name` gives it.
    pub fn name(&self) -> (r: String)
        ensures
            r@ == code_name(*self),
    {
        let s = match self {
            RpcCode::Success => "Ok",
            RpcCode::Cancelled => "Cancelled",
            RpcCode::Unknown => "Unknown",
            RpcCode::InvalidArgument => "InvalidArgument",
            RpcCode::DeadlineExceeded => "DeadlineExceeded",
            RpcCode::NotFound => "NotFound",
            RpcCode::AlreadyExists => "AlreadyExists",
            RpcCode::PermissionDenied => "PermissionDenied",
            RpcCode::ResourceExhausted => "ResourceExhausted",
            RpcCode::FailedPrecondition => "FailedPrecondition",
            RpcCode::Aborted => "Aborted",
            RpcCode::OutOfRange => "OutOfRange",
            RpcCode::Unimplemented => "Unimplemented",
            RpcCode::Internal => "Internal",
            RpcCode::Unavailable => "Unavailable",
            RpcCode::DataLoss => "DataLoss",
            RpcCode::Unauthenticated => "Unauthenticated",
        };
        String::from_str(s)
    }
}

/// A failed RPC as the RPC layer reports it: a code and a message.
#[derive(Debug, Clone, PartialEq, Eq)]
pub struct RpcStatus {
    pub code: RpcCode,
    pub message: String,
}

/// The errors a caller of the client sees, whichever transport carried the call.
#[derive(Debug, Clone, PartialEq, Eq)]
pub enum BlogClientError {
    /// The resource does not exist.
    NotFound,
    /// The service refused the credentials (or their absence).
    Unauthorized(String),
    /// The caller may not touch the resource (RPC transport only; the HTTP
    /// transport reports it as `InvalidRequest` with a `Forbidden: ` prefix).
    Forbidden(String),
    /// The resource exists already (RPC transport only; the HTTP transport
    /// reports it as `InvalidRequest`).
    AlreadyExists(String),
    /// The request or its answer was not acceptable.
    InvalidRequest(String),
    /// The service could not be reached or answered with an unexpected status.
    TransportError(String),
    /// An answer did not have the expected shape.
    SerializationError(String),
}

/// The mathematical value of a `BlogClientError`: its kind and its detail text.
pub enum ClientErrorView {
    NotFound,
    Unauthorized(Seq<char>),
    Forbidden(Seq<char>),
    AlreadyExists(Seq<char>),
    InvalidRequest(Seq<char>),
    TransportError(Seq<char>),
    SerializationError(Seq<char>),
}

impl View for BlogClientError {
    type V = ClientErrorView;

    open spec fn view(&self) -> ClientErrorView {
        match self {
            BlogClientError::NotFound => ClientErrorView::NotFound,
            BlogClientError::Unauthorized(s) => ClientErrorView::Unauthorized(s@),
            BlogClientError::Forbidden(s) => ClientErrorView::Forbidden(s@),
            BlogClientError::AlreadyExists(s) => ClientErrorView::AlreadyExists(s@),
            BlogClientError::InvalidRequest(s) => ClientErrorView::InvalidRequest(s@),
            BlogClientError::TransportError(s) => ClientErrorView::TransportError(s@),
            BlogClientError::SerializationError(s) => ClientErrorView::SerializationError(s@),
        }
    }
}

/// The human-readable text of an error.
pub open spec fn error_text(e: ClientErrorView) -> Seq<char> {
    match e {
        ClientErrorView::NotFound => "Resource not found"@,
        ClientErrorView::Unauthorized(d) => "Unauthorized: "@ + d,
        ClientErrorView::Forbidden(d) => "Forbidden: "@ + d,
        ClientErrorView::AlreadyExists(d) => "Already exists: "@ + d,
        ClientErrorView::InvalidRequest(d) => "Invalid request: "@ + d,
        ClientErrorView::TransportError(d) => "Transport error: "@ + d,
        ClientErrorView::SerializationError(d) => "Serialization error: "@ + d,
    }
}

/// The unified error for a failed RPC.
pub open spec fn rpc_error(code: RpcCode, message: Seq<char>) -> ClientErrorView {
    match code {
        RpcCode::NotFound => ClientErrorView::NotFound,
        RpcCode::Unauthenticated => ClientErrorView::Unauthorized(message),
        RpcCode::AlreadyExists => ClientErrorView::AlreadyExists(message),
        RpcCode::PermissionDenied => ClientErrorView::Forbidden(message),
        _ => ClientErrorView::TransportError("gRPC "@ + code_name(code) + ": "@ + message),
    }
}

/// The unified error for an HTTP reply whose status is not the expected success.
pub open spec fn http_error(status: int, body: Seq<char>) -> ClientErrorView {
    if status == 401 {
        ClientErrorView::Unauthorized(body)
    } else if status == 404 {
        ClientErrorView::NotFound
    } else if status == 409 {
        ClientErrorView::InvalidRequest(body)
    } else if status == 403 {
        ClientErrorView::InvalidRequest("Forbidden: "@ + body)
    } else {
        ClientErrorView::TransportError("HTTP "@ + int_text(status) + ": "@ + body)
    }
}

impl BlogClientError {
    /// Whether the error says that the resource is absent.
    pub fn is_not_found(&self) -> (r: bool)
        ensures
            r == (self@ is NotFound),
    {
        match self {
            BlogClientError::NotFound => true,
            _ => false,
        }
    }

    /// Whether the error says that the credentials were refused.
    pub fn is_unauthorized(&self) -> (r: bool)
        ensures
            r == (self@ is Unauthorized),
    {
        match self {
            BlogClientError::Unauthorized(_) => true,
            _ => false,
        }
    }

    /// The human-readable text of the error.
    pub fn message(&self) -> (r: String)
        ensures
            r@ == error_text(self@),
    {
        match self {
            BlogClientError::NotFound => String::from_str("Resource not found"),
            BlogClientError::Unauthorized(d) => String::from_str("Unauthorized: ").concat(d.as_str()),
            BlogClientError::Forbidden(d) => String::from_str("Forbidden: ").concat(d.as_str()),
            BlogClientError::AlreadyExists(d) => String::from_str("Already exists: ").concat(
                d.as_str(),
            ),
            BlogClientError::InvalidRequest(d) => String::from_str("Invalid request: ").concat(
                d.as_str(),
            ),
            BlogClientError::TransportError(d) => String::from_str("Transport error: ").concat(
                d.as_str(),
            ),
            BlogClientError::SerializationError(d) => String::from_str(
                "Serialization error: ",
            ).concat(d.as_str()),
        }
    }

    /// Maps a failed RPC to the unified taxonomy.
    pub fn from_rpc_status(status: RpcStatus) -> (r: BlogClientError)
        ensures
            r@ == rpc_error(status.code, status.message@),
    {
        match status.code {
            RpcCode::NotFound => BlogClientError::NotFound,
            RpcCode::Unauthenticated => BlogClientError::Unauthorized(status.message),
            RpcCode::AlreadyExists => BlogClientError::AlreadyExists(status.message),
            RpcCode::PermissionDenied => BlogClientError::Forbidden(status.message),
            _ => {
                let mut text = String::from_str("gRPC ");
                text.append(status.code.name().as_str());
                text.append(": ");
                text.append(status.message.as_str());
                BlogClientError::TransportError(text)
            },
        }
    }

    /// Maps an HTTP reply whose status is not the expected success to the
    /// unified taxonomy; `body` is the reply's text.
    pub fn from_http_status(status: u16, body: String) -> (r: BlogClientError)
        ensures
            r@ == http_error(status as int, body@),
    {
        if status == 401 {
            BlogClientError::Unauthorized(body)
        } else if status == 404 {
            BlogClientError::NotFound
        } else if status == 409 {
            BlogClientError::InvalidRequest(body)
        } else if status == 403 {
            BlogClientError::InvalidRequest(String::from_str("Forbidden: ").concat(body.as_str()))
        } else {
            let mut text = String::from_str("HTTP ");
            append_int_text(&mut text, status as i64);
            text.append(": ");
            text.append(body.as_str());
            BlogClientError::TransportError(text)
        }
    }
}

} // verus!
