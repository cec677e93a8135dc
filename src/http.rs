use vstd::prelude::*;

use crate::error::{http_error, BlogClientError, ClientErrorView};
use crate::models::{
    AuthResponse, CreatePostRequest, LoginRequest, Post, PostsResponse, RegisterRequest,
    UpdatePostRequest,
};
use crate::text::{append_int_text, int_text, join_url, join_url_text};

verus! {

/// The methods the HTTP API uses.
#[derive(Clone, Copy, Debug, PartialEq, Eq, Structural)]
pub enum HttpMethod {
    Get,
    Post,
    Put,
    Delete,
}

/// The JSON body an HTTP request carries.
#[derive(Debug, Clone, PartialEq, Eq)]
pub enum RequestBody {
    Register(RegisterRequest),
    Login(LoginRequest),
    CreatePost(CreatePostRequest),
    UpdatePost(UpdatePostRequest),
}

/// An HTTP request to send: method, full address, the value of the
/// `Authorization` header if one is attached, and the body.
#[derive(Debug, Clone, PartialEq, Eq)]
pub struct HttpRequest {
    pub method: HttpMethod,
    pub url: String,
    pub authorization: Option<String>,
    pub body: Option<RequestBody>,
}

/// The mathematical value of an `HttpRequest`.
pub struct HttpRequestView {
    pub method: HttpMethod,
    pub url: Seq<char>,
    pub authorization: Option<Seq<char>>,
    pub body: Option<RequestBody>,
}

impl View for HttpRequest {
    type V = HttpRequestView;

    open spec fn view(&self) -> HttpRequestView {
        HttpRequestView {
            method: self.method,
            url: self.url@,
            authorization: self.authorization.deep_view(),
            body: self.body,
        }
    }
}

/// What came back for an HTTP request: the status, the body as text, and
/// the body decoded as the expected payload (or why it could not be).
pub struct HttpReply<T> {
    pub status: u16,
    pub body: String,
    pub decoded: Result<T, String>,
}

/// The value of the `Authorization` entry for a token.
pub open spec fn bearer(token: Seq<char>) -> Seq<char> {
    "Bearer "@ + token
}

/// The `Authorization` entry attached for the current token, if any.
pub open spec fn authorization_for(token: Option<Seq<char>>) -> Option<Seq<char>> {
    match token {
        Some(t) => Some(bearer(t)),
        None => None,
    }
}

/// The token held after a reply that issued `issued`: the issued token
/// (even an empty one), or the current token when none was issued.
pub open spec fn token_after(current: Option<Seq<char>>, issued: Option<Seq<char>>) -> Option<
    Seq<char>,
> {
    match issued {
        Some(t) => Some(t),
        None => current,
    }
}

/// A result with its error replaced by the error's value.
pub open spec fn outcome<T>(r: Result<T, BlogClientError>) -> Result<T, ClientErrorView> {
    match r {
        Ok(v) => Ok(v),
        Err(e) => Err(e@),
    }
}

/// The payload of a reply body, or the shape error.
pub open spec fn decode_outcome<T>(d: Result<T, String>) -> Result<T, ClientErrorView> {
    match d {
        Ok(v) => Ok(v),
        Err(m) => Err(ClientErrorView::SerializationError(m@)),
    }
}

/// The result of a reply that succeeds with status 200 or 201.
pub open spec fn created_outcome<T>(reply: HttpReply<T>) -> Result<T, ClientErrorView> {
    if reply.status == 200 || reply.status == 201 {
        decode_outcome(reply.decoded)
    } else {
        Err(http_error(reply.status as int, reply.body@))
    }
}

/// The result of a reply that succeeds with status 200 only.
pub open spec fn ok_outcome<T>(reply: HttpReply<T>) -> Result<T, ClientErrorView> {
    if reply.status == 200 {
        decode_outcome(reply.decoded)
    } else {
        Err(http_error(reply.status as int, reply.body@))
    }
}

/// The result of a delete reply: success is status 204.
pub open spec fn delete_outcome(status: u16, body: Seq<char>) -> Result<(), ClientErrorView> {
    if status == 204 {
        Ok(())
    } else {
        Err(http_error(status as int, body))
    }
}

/// The query string of a listing: the parameters that are given, in order.
pub open spec fn list_query(limit: Option<i64>, offset: Option<i64>) -> Seq<char> {
    match (limit, offset) {
        (None, None) => Seq::empty(),
        (Some(l), None) => "?limit="@ + int_text(l as int),
        (None, Some(o)) => "?offset="@ + int_text(o as int),
        (Some(l), Some(o)) => "?limit="@ + int_text(l as int) + "&offset="@ + int_text(o as int),
    }
}

fn decoded_or_error<T>(decoded: Result<T, String>) -> (r: Result<T, BlogClientError>)
    ensures
        outcome(r) == decode_outcome(decoded),
{
    match decoded {
        Ok(v) => Ok(v),
        Err(m) => Err(BlogClientError::SerializationError(m)),
    }
}

pub(crate) fn bearer_text(token: &String) -> (r: String)
    ensures
        r@ == bearer(token@),
{
    String::from_str("Bearer ").concat(token.as_str())
}

/// The HTTP side of the client: the service's base address and the token
/// it attaches to authenticated requests.
pub struct HttpClient {
    base_url: String,
    token: Option<String>,
}

impl HttpClient {
    /// The base address of the service.
    pub closed spec fn base_url_view(&self) -> Seq<char> {
        self.base_url@
    }

    /// The token this sub-client attaches, if any.
    pub closed spec fn token_view(&self) -> Option<Seq<char>> {
        self.token.deep_view()
    }

    /// A sub-client for the service at `base_url`, with no token.
    pub fn new(base_url: String) -> (r: HttpClient)
        ensures
            r.base_url_view() == base_url@,
            r.token_view() is None,
    {
        HttpClient { base_url, token: None }
    }

    /// Attaches `token` to later authenticated requests.
    pub fn set_token(&mut self, token: String)
        ensures
            final(self).token_view() == Some(token@),
            final(self).base_url_view() == old(self).base_url_view(),
    {
        self.token = Some(token);
    }

    /// Forgets the token.
    pub fn clear_token(&mut self)
        ensures
            final(self).token_view() is None,
            final(self).base_url_view() == old(self).base_url_view(),
    {
        self.token = None;
    }

    /// The base address of the service.
    pub fn url_base(&self) -> (r: String)
        ensures
            r@ == self.base_url_view(),
    {
        self.base_url.clone()
    }

    /// The token attached to authenticated requests.
    pub fn get_token(&self) -> (r: Option<&String>)
        ensures
            r.deep_view() == self.token_view(),
    {
        self.token.as_ref()
    }

    /// The `Authorization` value for the current token, if there is one.
    pub fn authorization(&self) -> (r: Option<String>)
        ensures
            r.deep_view() == authorization_for(self.token_view()),
    {
        match &self.token {
            Some(t) => Some(bearer_text(t)),
            None => None,
        }
    }

    /// The full address of `path` on the service.
    pub fn url(&self, path: &str) -> (r: String)
        ensures
            r@ == join_url(self.base_url_view(), path@),
    {
        join_url_text(self.base_url.as_str(), path)
    }

    fn url_with_id(&self, prefix: &str, id: i64) -> (r: String)
        ensures
            r@ == join_url(self.base_url_view(), prefix@ + int_text(id as int)),
    {
        let mut path = String::from_str(prefix);
        append_int_text(&mut path, id);
        self.url(path.as_str())
    }

    /// The request that registers an account.
    pub fn register_request(&self, req: RegisterRequest) -> (r: HttpRequest)
        ensures
            r@ == (HttpRequestView {
                method: HttpMethod::Post,
                url: join_url(self.base_url_view(), "/api/auth/register"@),
                authorization: None,
                body: Some(RequestBody::Register(req)),
            }),
    {
        HttpRequest {
            method: HttpMethod::Post,
            url: self.url("/api/auth/register"),
            authorization: None,
            body: Some(RequestBody::Register(req)),
        }
    }

    /// The request that logs in.
    pub fn login_request(&self, req: LoginRequest) -> (r: HttpRequest)
        ensures
            r@ == (HttpRequestView {
                method: HttpMethod::Post,
                url: join_url(self.base_url_view(), "/api/auth/login"@),
                authorization: None,
                body: Some(RequestBody::Login(req)),
            }),
    {
        HttpRequest {
            method: HttpMethod::Post,
            url: self.url("/api/auth/login"),
            authorization: None,
            body: Some(RequestBody::Login(req)),
        }
    }

    /// The request that creates a post, with the token attached if there is one.
    pub fn create_post_request(&self, title: String, content: String) -> (r: HttpRequest)
        ensures
            r@ == (HttpRequestView {
                method: HttpMethod::Post,
                url: join_url(self.base_url_view(), "/api/protected/posts"@),
                authorization: authorization_for(self.token_view()),
                body: Some(RequestBody::CreatePost(CreatePostRequest { title, content })),
            }),
    {
        HttpRequest {
            method: HttpMethod::Post,
            url: self.url("/api/protected/posts"),
            authorization: self.authorization(),
            body: Some(RequestBody::CreatePost(CreatePostRequest { title, content })),
        }
    }

    /// The request that reads a post; it carries no token.
    pub fn get_post_request(&self, id: i64) -> (r: HttpRequest)
        ensures
            r@ == (HttpRequestView {
                method: HttpMethod::Get,
                url: join_url(self.base_url_view(), "/api/posts/"@ + int_text(id as int)),
                authorization: None,
                body: None,
            }),
    {
        HttpRequest {
            method: HttpMethod::Get,
            url: self.url_with_id("/api/posts/", id),
            authorization: None,
            body: None,
        }
    }

    /// The request that updates the given fields of a post, with the token
    /// attached if there is one.
    pub fn update_post_request(&self, id: i64, title: Option<String>, content: Option<String>) -> (r:
        HttpRequest)
        ensures
            r@ == (HttpRequestView {
                method: HttpMethod::Put,
                url: join_url(self.base_url_view(), "/api/protected/posts/"@ + int_text(id as int)),
                authorization: authorization_for(self.token_view()),
                body: Some(RequestBody::UpdatePost(UpdatePostRequest { title, content })),
            }),
    {
        HttpRequest {
            method: HttpMethod::Put,
            url: self.url_with_id("/api/protected/posts/", id),
            authorization: self.authorization(),
            body: Some(RequestBody::UpdatePost(UpdatePostRequest { title, content })),
        }
    }

    /// The request that deletes a post, with the token attached if there is one.
    pub fn delete_post_request(&self, id: i64) -> (r: HttpRequest)
        ensures
            r@ == (HttpRequestView {
                method: HttpMethod::Delete,
                url: join_url(self.base_url_view(), "/api/protected/posts/"@ + int_text(id as int)),
                authorization: authorization_for(self.token_view()),
                body: None,
            }),
    {
        HttpRequest {
            method: HttpMethod::Delete,
            url: self.url_with_id("/api/protected/posts/", id),
            authorization: self.authorization(),
            body: None,
        }
    }

    /// The request that lists posts; only the parameters that are given
    /// go into the query.
    pub fn list_posts_request(&self, limit: Option<i64>, offset: Option<i64>) -> (r: HttpRequest)
        ensures
            r@ == (HttpRequestView {
                method: HttpMethod::Get,
                url: join_url(self.base_url_view(), "/api/posts"@) + list_query(limit, offset),
                authorization: None,
                body: None,
            }),
    {
        let mut url = self.url("/api/posts");
        let ghost base = url@;
        match limit {
            Some(l) => {
                url.append("?limit=");
                append_int_text(&mut url, l);
                match offset {
                    Some(o) => {
                        url.append("&offset=");
                        append_int_text(&mut url, o);
                    },
                    None => {},
                }
            },
            None => {
                match offset {
                    Some(o) => {
                        url.append("?offset=");
                        append_int_text(&mut url, o);
                    },
                    None => {},
                }
            },
        }
        assert(url@ =~= base + list_query(limit, offset));
        HttpRequest { method: HttpMethod::Get, url, authorization: None, body: None }
    }

    /// Reads the reply to a register or login. On success the issued token
    /// is attached to later requests.
    pub fn handle_auth_response(&mut self, reply: HttpReply<AuthResponse>) -> (r: Result<
        AuthResponse,
        BlogClientError,
    >)
        ensures
            outcome(r) == created_outcome(reply),
            final(self).token_view() == (match r {
                Ok(a) => Some(a.token@),
                Err(_) => old(self).token_view(),
            }),
            final(self).base_url_view() == old(self).base_url_view(),
    {
        if reply.status == 200 || reply.status == 201 {
            let r = decoded_or_error(reply.decoded);
            if let Ok(a) = &r {
                self.token = Some(a.token.clone());
            }
            r
        } else {
            Err(BlogClientError::from_http_status(reply.status, reply.body))
        }
    }

    /// Reads the reply to a create, read or update of a post.
    pub fn handle_post_response(&self, reply: HttpReply<Post>) -> (r: Result<Post, BlogClientError>)
        ensures
            outcome(r) == created_outcome(reply),
    {
        if reply.status == 200 || reply.status == 201 {
            decoded_or_error(reply.decoded)
        } else {
            Err(BlogClientError::from_http_status(reply.status, reply.body))
        }
    }

    /// Reads the reply to a delete.
    pub fn handle_delete_response(&self, status: u16, body: String) -> (r: Result<(), BlogClientError>)
        ensures
            outcome(r) == delete_outcome(status, body@),
    {
        if status == 204 {
            Ok(())
        } else {
            Err(BlogClientError::from_http_status(status, body))
        }
    }

    /// Reads the reply to a listing.
    pub fn handle_list_response(&self, reply: HttpReply<PostsResponse>) -> (r: Result<
        PostsResponse,
        BlogClientError,
    >)
        ensures
            outcome(r) == ok_outcome(reply),
    {
        if reply.status == 200 {
            decoded_or_error(reply.decoded)
        } else {
            Err(BlogClientError::from_http_status(reply.status, reply.body))
        }
    }
}

} // verus!
