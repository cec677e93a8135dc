use vstd::prelude::*;

use crate::error::{http_error, rpc_error, ClientErrorView, RpcCode, RpcStatus};
use crate::models::ErrorResponse;
use crate::pagination::MAX_PAGE_SIZE;

verus! {

/// The failures of the blog service, before a transport reports them.
#[derive(Debug, Clone, PartialEq, Eq)]
pub enum DomainError {
    UserNotFound,
    UserAlreadyExists,
    InvalidCredentials,
    PostNotFound,
    Forbidden,
    DatabaseError(String),
    ValidationError(String),
    Unauthorized(String),
    InternalError(String),
}

/// The HTTP status the service answers with for an error.
pub open spec fn domain_status(e: DomainError) -> int {
    match e {
        DomainError::UserNotFound | DomainError::PostNotFound => 404,
        DomainError::UserAlreadyExists => 409,
        DomainError::InvalidCredentials | DomainError::Unauthorized(_) => 401,
        DomainError::Forbidden => 403,
        DomainError::ValidationError(_) => 400,
        DomainError::DatabaseError(_) | DomainError::InternalError(_) => 500,
    }
}

/// The RPC code the service answers with for an error.
pub open spec fn domain_code(e: DomainError) -> RpcCode {
    match e {
        DomainError::UserNotFound | DomainError::PostNotFound => RpcCode::NotFound,
        DomainError::UserAlreadyExists => RpcCode::AlreadyExists,
        DomainError::InvalidCredentials | DomainError::Unauthorized(_) => RpcCode::Unauthenticated,
        DomainError::Forbidden => RpcCode::PermissionDenied,
        DomainError::ValidationError(_) => RpcCode::InvalidArgument,
        DomainError::DatabaseError(_) | DomainError::InternalError(_) => RpcCode::Internal,
    }
}

/// The RPC message the service answers with for an error.
pub open spec fn domain_rpc_message(e: DomainError) -> Seq<char> {
    match e {
        DomainError::UserNotFound => "User not found"@,
        DomainError::PostNotFound => "Post not found"@,
        DomainError::UserAlreadyExists => "User already exists"@,
        DomainError::InvalidCredentials => "Invalid credentials"@,
        DomainError::Forbidden => "Forbidden"@,
        DomainError::ValidationError(m) => m@,
        DomainError::Unauthorized(m) => m@,
        DomainError::DatabaseError(m) => "Database error: "@ + m@,
        DomainError::InternalError(m) => m@,
    }
}

/// The text of an error, as the service words it.
pub open spec fn domain_text(e: DomainError) -> Seq<char> {
    match e {
        DomainError::UserNotFound => "User not found"@,
        DomainError::UserAlreadyExists => "User already exists"@,
        DomainError::InvalidCredentials => "Invalid credentials"@,
        DomainError::PostNotFound => "Post not found"@,
        DomainError::Forbidden => "Forbidden: you don't have permission to perform this action"@,
        DomainError::DatabaseError(m) => "Database error: "@ + m@,
        DomainError::ValidationError(m) => "Validation error: "@ + m@,
        DomainError::Unauthorized(m) => "Unauthorized: "@ + m@,
        DomainError::InternalError(m) => "Internal server error: "@ + m@,
    }
}

/// The `error` text of the HTTP reply for an error: its own text, except
/// that server failures do not show their detail.
pub open spec fn domain_reply_text(e: DomainError) -> Seq<char> {
    if domain_status(e) == 500 {
        "Internal server error"@
    } else {
        domain_text(e)
    }
}

impl DomainError {
    /// The text of this error.
    pub fn message(&self) -> (r: String)
        ensures
            r@ == domain_text(*self),
    {
        match self {
            DomainError::UserNotFound => String::from_str("User not found"),
            DomainError::UserAlreadyExists => String::from_str("User already exists"),
            DomainError::InvalidCredentials => String::from_str("Invalid credentials"),
            DomainError::PostNotFound => String::from_str("Post not found"),
            DomainError::Forbidden => String::from_str(
                "Forbidden: you don't have permission to perform this action",
            ),
            DomainError::DatabaseError(m) => String::from_str("Database error: ").concat(m.as_str()),
            DomainError::ValidationError(m) => String::from_str("Validation error: ").concat(
                m.as_str(),
            ),
            DomainError::Unauthorized(m) => String::from_str("Unauthorized: ").concat(m.as_str()),
            DomainError::InternalError(m) => String::from_str("Internal server error: ").concat(
                m.as_str(),
            ),
        }
    }

    /// The HTTP reply for this error: its status and the `{"error": ...}` body.
    pub fn to_error_response(&self) -> (r: (u16, ErrorResponse))
        ensures
            r.0 == domain_status(*self),
            r.1.error@ == domain_reply_text(*self),
    {
        let status = self.to_status_code();
        let error = if status == 500 {
            String::from_str("Internal server error")
        } else {
            self.message()
        };
        (status, ErrorResponse { error })
    }

    /// The HTTP status for this error.
    pub fn to_status_code(&self) -> (r: u16)
        ensures
            r == domain_status(*self),
    {
        match self {
            DomainError::UserNotFound | DomainError::PostNotFound => 404,
            DomainError::UserAlreadyExists => 409,
            DomainError::InvalidCredentials | DomainError::Unauthorized(_) => 401,
            DomainError::Forbidden => 403,
            DomainError::ValidationError(_) => 400,
            DomainError::DatabaseError(_) | DomainError::InternalError(_) => 500,
        }
    }

    /// The RPC status for this error.
    pub fn to_rpc_status(self) -> (r: RpcStatus)
        ensures
            r.code == domain_code(self),
            r.message@ == domain_rpc_message(self),
    {
        match self {
            DomainError::UserNotFound => RpcStatus {
                code: RpcCode::NotFound,
                message: String::from_str("User not found"),
            },
            DomainError::PostNotFound => RpcStatus {
                code: RpcCode::NotFound,
                message: String::from_str("Post not found"),
            },
            DomainError::UserAlreadyExists => RpcStatus {
                code: RpcCode::AlreadyExists,
                message: String::from_str("User already exists"),
            },
            DomainError::InvalidCredentials => RpcStatus {
                code: RpcCode::Unauthenticated,
                message: String::from_str("Invalid credentials"),
            },
            DomainError::Forbidden => RpcStatus {
                code: RpcCode::PermissionDenied,
                message: String::from_str("Forbidden"),
            },
            DomainError::ValidationError(m) => RpcStatus { code: RpcCode::InvalidArgument, message: m },
            DomainError::Unauthorized(m) => RpcStatus { code: RpcCode::Unauthenticated, message: m },
            DomainError::DatabaseError(m) => RpcStatus {
                code: RpcCode::Internal,
                message: String::from_str("Database error: ").concat(m.as_str()),
            },
            DomainError::InternalError(m) => RpcStatus { code: RpcCode::Internal, message: m },
        }
    }
}

/// Whether the service accepts the window `(limit, offset)` of a listing.
pub open spec fn list_window_valid(limit: int, offset: int) -> bool {
    1 <= limit <= MAX_PAGE_SIZE && offset >= 0
}

/// Checks the window of a listing: the limit must lie in `1..=100` and the
/// offset must not be negative.
pub fn check_list_window(limit: i64, offset: i64) -> (r: Result<(), DomainError>)
    ensures
        r is Ok <==> list_window_valid(limit as int, offset as int),
        r matches Err(e) ==> (e matches DomainError::ValidationError(m) && m@ == (if 1 <= limit
            <= MAX_PAGE_SIZE {
            "Offset cannot be negative"@
        } else {
            "Limit must be between 1 and 100"@
        })),
{
    if !(1 <= limit && limit <= MAX_PAGE_SIZE) {
        return Err(DomainError::ValidationError(String::from_str("Limit must be between 1 and 100")));
    }
    if offset < 0 {
        return Err(DomainError::ValidationError(String::from_str("Offset cannot be negative")));
    }
    Ok(())
}

/// Checks that the user acting on a post is its author.
pub fn check_author(author_id: i64, user_id: i64) -> (r: Result<(), DomainError>)
    ensures
        r is Ok <==> author_id == user_id,
        r matches Err(e) ==> e is Forbidden,
{
    if author_id != user_id {
        Err(DomainError::Forbidden)
    } else {
        Ok(())
    }
}

/// Both transports report a failure of the service as the same kind of
/// client error, except for the documented folds of the HTTP transport:
/// "already exists" and "forbidden" arrive there as an invalid request.
/// `body` is whatever text the HTTP reply carried.
pub proof fn lemma_transports_agree(e: DomainError, body: Seq<char>)
    ensures
        ({
            let h = http_error(domain_status(e), body);
            let g = rpc_error(domain_code(e), domain_rpc_message(e));
            &&& (h is NotFound <==> g is NotFound)
            &&& (h is Unauthorized <==> g is Unauthorized)
            &&& (h is TransportError <==> g is TransportError)
            &&& (g is AlreadyExists ==> h is InvalidRequest)
            &&& (g is Forbidden ==> h is InvalidRequest)
            &&& (h is InvalidRequest <==> (g is AlreadyExists || g is Forbidden))
        }),
{
}

} // verus!
