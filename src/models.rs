use vstd::prelude::*;

verus! {

/// An account as the remote service reports it.
#[derive(Debug, Clone, PartialEq, Eq)]
pub struct User {
    pub id: i64,
    pub username: String,
    pub email: String,
    pub created_at: String,
}

/// The answer to a successful register or login: the issued token and the account.
#[derive(Debug, Clone, PartialEq, Eq)]
pub struct AuthResponse {
    pub token: String,
    pub user: User,
}

/// A post as the remote service reports it.
#[derive(Debug, Clone, PartialEq, Eq)]
pub struct Post {
    pub id: i64,
    pub title: String,
    pub content: String,
    pub author_id: i64,
    pub created_at: String,
    pub updated_at: String,
}

/// One page of posts, in the shape of the HTTP API: the posts, the number
/// of posts in the store, and the window that was asked for.
#[derive(Debug, Clone, PartialEq, Eq)]
pub struct PostsResponse {
    pub posts: Vec<Post>,
    pub total: i64,
    pub limit: i64,
    pub offset: i64,
}

/// What a new account is made of.
#[derive(Debug, Clone, PartialEq, Eq)]
pub struct RegisterRequest {
    pub username: String,
    pub email: String,
    pub password: String,
}

/// The credentials of a login.
#[derive(Debug, Clone, PartialEq, Eq)]
pub struct LoginRequest {
    pub username: String,
    pub password: String,
}

/// The fields of a new post.
#[derive(Debug, Clone, PartialEq, Eq)]
pub struct CreatePostRequest {
    pub title: String,
    pub content: String,
}

/// A partial update of a post: a field left `None` is kept as it is.
#[derive(Debug, Clone, PartialEq, Eq)]
pub struct UpdatePostRequest {
    pub title: Option<String>,
    pub content: Option<String>,
}

/// The body of an error reply of the HTTP API.
#[derive(Debug, Clone, PartialEq, Eq)]
pub struct ErrorResponse {
    pub error: String,
}

} // verus!
