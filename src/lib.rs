//! Unified blog client: one façade over an HTTP API and an RPC API that
//! shares a session token between both transports and reports failures
//! in a single error taxonomy.
//!
//! The library holds every decision the client makes (which request to
//! send, how to read the reply, what happens to the session token) as
//! verified functions; sending bytes over the network is left to the
//! caller, which hands back what the remote service answered.
//!
//! Modules:
//! - `text`: decimal rendering, address joining, shortening for display;
//! - `error`: the unified error taxonomy and the two normalizers;
//! - `models`: accounts, posts and request bodies;
//! - `pagination`: `(limit, offset)` windows against RPC pages;
//! - `http`, `rpc`: the two sub-clients, each planning requests and
//!   reading replies of its protocol;
//! - `client`: the façade, with the session token and its laws;
//! - `service`: the service's error statuses and listing rules;
//! - `web`: the browser front end's request rules.

mod client;
mod error;
mod http;
mod models;
mod pagination;
mod rpc;
mod service;
mod text;
mod web;

pub use client::{
    http_issued, lemma_get_post_repeatable, lemma_login_token_is_session, lemma_rpc_listing_window,
    mismatch_error,
    missing_user_error, transport_address, transport_label, transport_url, BlogClient, Outgoing,
    OutgoingView, Reply, Transport,
};
pub use error::{
    code_name, error_text, http_error, rpc_error, BlogClientError, ClientErrorView, RpcCode,
    RpcStatus,
};
pub use http::{
    authorization_for, bearer, created_outcome, decode_outcome, delete_outcome, list_query,
    ok_outcome, outcome, token_after, HttpClient, HttpMethod, HttpReply, HttpRequest,
    HttpRequestView, RequestBody,
};
pub use models::{
    AuthResponse, CreatePostRequest, ErrorResponse, LoginRequest, Post, PostsResponse,
    RegisterRequest, UpdatePostRequest, User,
};
pub use pagination::{
    effective_limit, effective_offset, lemma_consecutive_pages_cover, lemma_page_round_trip,
    list_window, page_count, page_count_of, page_number, page_request_error, page_request_fits,
    page_window, pages_concat, posts_from_page, served_limit, served_offset, to_page_request,
    PageRequest, DEFAULT_PAGE_SIZE, MAX_PAGE_SIZE,
};
pub use rpc::{
    rpc_delete_outcome, rpc_outcome, DeletePostResponse, GrpcClient, ListPostsResponse,
    LoginResponse, RegisterResponse, RpcCall, RpcRequest, RpcRequestView,
};
pub use service::{
    check_author, check_list_window, domain_code, domain_reply_text, domain_rpc_message,
    domain_status, domain_text,
    lemma_transports_agree, list_window_valid, DomainError,
};
pub use text::{
    append_int_text, digit_char, int_text, int_to_text, join_url, join_url_text, nat_text,
    trim_end_slashes, trim_start_slashes, truncate, truncated_bytes,
};
pub use web::{api_outcome, auth_header_for, ApiClient};
