use blog_client::{check_author, check_list_window, DomainError, RpcCode};

#[test]
fn status_codes_of_domain_errors() {
    assert_eq!(DomainError::UserNotFound.to_status_code(), 404);
    assert_eq!(DomainError::PostNotFound.to_status_code(), 404);
    assert_eq!(DomainError::UserAlreadyExists.to_status_code(), 409);
    assert_eq!(DomainError::InvalidCredentials.to_status_code(), 401);
    assert_eq!(DomainError::Unauthorized("x".to_string()).to_status_code(), 401);
    assert_eq!(DomainError::Forbidden.to_status_code(), 403);
    assert_eq!(DomainError::ValidationError("x".to_string()).to_status_code(), 400);
    assert_eq!(DomainError::DatabaseError("x".to_string()).to_status_code(), 500);
    assert_eq!(DomainError::InternalError("x".to_string()).to_status_code(), 500);
}

#[test]
fn rpc_statuses_of_domain_errors() {
    let s = DomainError::PostNotFound.to_rpc_status();
    assert_eq!(s.code, RpcCode::NotFound);
    assert_eq!(s.message, "Post not found");
    let s = DomainError::UserAlreadyExists.to_rpc_status();
    assert_eq!(s.code, RpcCode::AlreadyExists);
    assert_eq!(s.message, "User already exists");
    let s = DomainError::Forbidden.to_rpc_status();
    assert_eq!(s.code, RpcCode::PermissionDenied);
    let s = DomainError::DatabaseError("lost".to_string()).to_rpc_status();
    assert_eq!(s.code, RpcCode::Internal);
    assert_eq!(s.message, "Database error: lost");
    let s = DomainError::ValidationError("Title cannot be empty".to_string()).to_rpc_status();
    assert_eq!(s.code, RpcCode::InvalidArgument);
    assert_eq!(s.message, "Title cannot be empty");
}

#[test]
fn list_window_checks() {
    assert_eq!(check_list_window(10, 0), Ok(()));
    assert_eq!(check_list_window(100, 5), Ok(()));
    assert_eq!(
        check_list_window(0, 0),
        Err(DomainError::ValidationError("Limit must be between 1 and 100".to_string()))
    );
    assert_eq!(
        check_list_window(101, 0),
        Err(DomainError::ValidationError("Limit must be between 1 and 100".to_string()))
    );
    assert_eq!(
        check_list_window(10, -1),
        Err(DomainError::ValidationError("Offset cannot be negative".to_string()))
    );
}

#[test]
fn only_the_author_may_change_a_post() {
    assert_eq!(check_author(7, 7), Ok(()));
    assert_eq!(check_author(7, 8), Err(DomainError::Forbidden));
}

#[test]
fn domain_error_texts() {
    assert_eq!(DomainError::UserNotFound.message(), "User not found");
    assert_eq!(
        DomainError::Forbidden.message(),
        "Forbidden: you don't have permission to perform this action"
    );
    assert_eq!(DomainError::ValidationError("x".to_string()).message(), "Validation error: x");
    assert_eq!(DomainError::InternalError("x".to_string()).message(), "Internal server error: x");
}

#[test]
fn domain_error_replies() {
    let (status, body) = DomainError::PostNotFound.to_error_response();
    assert_eq!(status, 404);
    assert_eq!(body.error, "Post not found");
    let (status, body) = DomainError::Unauthorized("Invalid token".to_string()).to_error_response();
    assert_eq!(status, 401);
    assert_eq!(body.error, "Unauthorized: Invalid token");
    let (status, body) = DomainError::DatabaseError("secret detail".to_string()).to_error_response();
    assert_eq!(status, 500);
    assert_eq!(body.error, "Internal server error");
}
