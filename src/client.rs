use vstd::prelude::*;

use crate::error::{BlogClientError, ClientErrorView, RpcStatus};
use crate::http::{
    authorization_for, created_outcome, delete_outcome, list_query, ok_outcome, outcome,
    token_after, HttpClient, HttpMethod, HttpReply, HttpRequest, HttpRequestView, RequestBody,
};
use crate::models::{
    AuthResponse, CreatePostRequest, LoginRequest, Post, PostsResponse, RegisterRequest,
    UpdatePostRequest, User,
};
use crate::pagination::{
    effective_limit, effective_offset, page_number, page_request_error, page_request_fits,
    posts_from_page, served_limit, served_offset, to_page_request, PageRequest, MAX_PAGE_SIZE,
};
use crate::rpc::{
    rpc_delete_outcome, rpc_outcome, DeletePostResponse, GrpcClient, ListPostsResponse,
    LoginResponse, RegisterResponse, RpcCall, RpcRequest, RpcRequestView,
};
use crate::text::{int_text, join_url};

verus! {

/// Which API the client talks to, with the service's address.
#[derive(Debug, Clone, PartialEq)]
pub enum Transport {
    /// The HTTP API at a base address such as `http://localhost:3000`.
    Http(String),
    /// The RPC API at an address such as `http://localhost:50051`.
    Grpc(String),
}

/// The address a transport names.
pub open spec fn transport_address(t: Transport) -> Seq<char> {
    match t {
        Transport::Http(u) => u@,
        Transport::Grpc(a) => a@,
    }
}

/// The label under which a transport is shown to a user.
pub open spec fn transport_label(t: Transport) -> Seq<char> {
    match t {
        Transport::Http(u) => "HTTP: "@ + u@,
        Transport::Grpc(a) => "gRPC: "@ + a@,
    }
}

/// Shows a transport to a user: its kind and its address.
pub fn transport_url(transport: &Transport) -> (r: String)
    ensures
        r@ == transport_label(*transport),
{
    match transport {
        Transport::Http(u) => String::from_str("HTTP: ").concat(u.as_str()),
        Transport::Grpc(a) => String::from_str("gRPC: ").concat(a.as_str()),
    }
}

/// A request for whichever transport the client uses.
#[derive(Debug, Clone, PartialEq, Eq)]
pub enum Outgoing {
    Http(HttpRequest),
    Rpc(RpcRequest),
}

/// The mathematical value of an `Outgoing` request.
pub enum OutgoingView {
    Http(HttpRequestView),
    Rpc(RpcRequestView),
}

impl View for Outgoing {
    type V = OutgoingView;

    open spec fn view(&self) -> OutgoingView {
        match self {
            Outgoing::Http(h) => OutgoingView::Http(h@),
            Outgoing::Rpc(c) => OutgoingView::Rpc(c@),
        }
    }
}

/// What came back for a request: an HTTP reply whose body should decode as
/// `T`, or the result of an RPC whose answer is `R`.
pub enum Reply<T, R> {
    Http(HttpReply<T>),
    Rpc(Result<R, RpcStatus>),
}

/// The error for a reply that came from the transport the client does not use.
pub open spec fn mismatch_error() -> ClientErrorView {
    ClientErrorView::TransportError("reply does not belong to the client's transport"@)
}

fn mismatch<T>() -> (r: Result<T, BlogClientError>)
    ensures
        outcome(r) == Err::<T, ClientErrorView>(mismatch_error()),
{
    Err(BlogClientError::TransportError(String::from_str("reply does not belong to the client's transport")))
}

/// The token in an HTTP register or login reply that succeeded, if any.
pub open spec fn http_issued(h: HttpReply<AuthResponse>) -> Option<Seq<char>> {
    if h.status == 200 || h.status == 201 {
        match h.decoded {
            Ok(a) => Some(a.token@),
            Err(_) => None,
        }
    } else {
        None
    }
}

/// The error for an RPC login answer without the account: a malformed answer.
pub open spec fn missing_user_error() -> ClientErrorView {
    ClientErrorView::TransportError("No user data in response"@)
}

fn same_text(a: &String, b: &String) -> (r: bool)
    ensures
        r == (a@ == b@),
{
    *a == *b
}

enum SubClient {
    Http(HttpClient),
    Grpc(GrpcClient),
}

/// The client façade: one transport chosen at construction, and the
/// session token, mirrored into the sub-client that carries the calls.
pub struct BlogClient {
    sub: SubClient,
    token: Option<String>,
}

impl BlogClient {
    /// Whether the client uses the HTTP API.
    pub closed spec fn is_http_view(&self) -> bool {
        self.sub is Http
    }

    /// The address of the service.
    pub closed spec fn address_view(&self) -> Seq<char> {
        match self.sub {
            SubClient::Http(h) => h.base_url_view(),
            SubClient::Grpc(g) => g.address_view(),
        }
    }

    /// The session token: the one the façade holds.
    pub closed spec fn token_view(&self) -> Option<Seq<char>> {
        self.token.deep_view()
    }

    /// The copy of the session token held by the sub-client in use.
    pub closed spec fn mirror_view(&self) -> Option<Seq<char>> {
        match self.sub {
            SubClient::Http(h) => h.token_view(),
            SubClient::Grpc(g) => g.token_view(),
        }
    }

    /// The session token and its mirror agree.
    pub open spec fn wf(&self) -> bool {
        self.mirror_view() == self.token_view()
    }

    /// Same transport and address as `other`, whatever the tokens.
    pub open spec fn same_service(&self, other: &BlogClient) -> bool {
        self.is_http_view() == other.is_http_view() && self.address_view() == other.address_view()
    }

    /// The request that registers an account.
    pub open spec fn register_plan(&self, username: String, email: String, password: String) -> OutgoingView {
        let req = RegisterRequest { username, email, password };
        if self.is_http_view() {
            OutgoingView::Http(
                HttpRequestView {
                    method: HttpMethod::Post,
                    url: join_url(self.address_view(), "/api/auth/register"@),
                    authorization: None,
                    body: Some(RequestBody::Register(req)),
                },
            )
        } else {
            OutgoingView::Rpc(RpcRequestView { call: RpcCall::Register(req), authorization: None })
        }
    }

    /// The request that logs in.
    pub open spec fn login_plan(&self, username: String, password: String) -> OutgoingView {
        let req = LoginRequest { username, password };
        if self.is_http_view() {
            OutgoingView::Http(
                HttpRequestView {
                    method: HttpMethod::Post,
                    url: join_url(self.address_view(), "/api/auth/login"@),
                    authorization: None,
                    body: Some(RequestBody::Login(req)),
                },
            )
        } else {
            OutgoingView::Rpc(RpcRequestView { call: RpcCall::Login(req), authorization: None })
        }
    }

    /// The request that creates a post, carrying the session token if there is one.
    pub open spec fn create_post_plan(&self, title: String, content: String) -> OutgoingView {
        let req = CreatePostRequest { title, content };
        if self.is_http_view() {
            OutgoingView::Http(
                HttpRequestView {
                    method: HttpMethod::Post,
                    url: join_url(self.address_view(), "/api/protected/posts"@),
                    authorization: authorization_for(self.token_view()),
                    body: Some(RequestBody::CreatePost(req)),
                },
            )
        } else {
            OutgoingView::Rpc(
                RpcRequestView {
                    call: RpcCall::CreatePost(req),
                    authorization: authorization_for(self.token_view()),
                },
            )
        }
    }

    /// The request that reads a post; it never carries a token.
    pub open spec fn get_post_plan(&self, id: i64) -> OutgoingView {
        if self.is_http_view() {
            OutgoingView::Http(
                HttpRequestView {
                    method: HttpMethod::Get,
                    url: join_url(self.address_view(), "/api/posts/"@ + int_text(id as int)),
                    authorization: None,
                    body: None,
                },
            )
        } else {
            OutgoingView::Rpc(RpcRequestView { call: RpcCall::GetPost { id }, authorization: None })
        }
    }

    /// The request that updates the given fields of a post, carrying the
    /// session token if there is one.
    pub open spec fn update_post_plan(&self, id: i64, title: Option<String>, content: Option<String>) -> OutgoingView {
        let update = UpdatePostRequest { title, content };
        if self.is_http_view() {
            OutgoingView::Http(
                HttpRequestView {
                    method: HttpMethod::Put,
                    url: join_url(self.address_view(), "/api/protected/posts/"@ + int_text(id as int)),
                    authorization: authorization_for(self.token_view()),
                    body: Some(RequestBody::UpdatePost(update)),
                },
            )
        } else {
            OutgoingView::Rpc(
                RpcRequestView {
                    call: RpcCall::UpdatePost { id, update },
                    authorization: authorization_for(self.token_view()),
                },
            )
        }
    }

    /// The request that deletes a post, carrying the session token if there is one.
    pub open spec fn delete_post_plan(&self, id: i64) -> OutgoingView {
        if self.is_http_view() {
            OutgoingView::Http(
                HttpRequestView {
                    method: HttpMethod::Delete,
                    url: join_url(self.address_view(), "/api/protected/posts/"@ + int_text(id as int)),
                    authorization: authorization_for(self.token_view()),
                    body: None,
                },
            )
        } else {
            OutgoingView::Rpc(
                RpcRequestView {
                    call: RpcCall::DeletePost { id },
                    authorization: authorization_for(self.token_view()),
                },
            )
        }
    }

    /// The request that lists posts: over HTTP the window as given, over RPC
    /// the page that holds it (when it can be written as one).
    pub open spec fn list_posts_plan(&self, limit: Option<i64>, offset: Option<i64>) -> Result<
        OutgoingView,
        ClientErrorView,
    > {
        if self.is_http_view() {
            Ok(
                OutgoingView::Http(
                    HttpRequestView {
                        method: HttpMethod::Get,
                        url: join_url(self.address_view(), "/api/posts"@) + list_query(limit, offset),
                        authorization: None,
                        body: None,
                    },
                ),
            )
        } else if page_request_fits(limit, offset) {
            Ok(
                OutgoingView::Rpc(
                    RpcRequestView {
                        call: RpcCall::ListPosts(
                            PageRequest {
                                page: page_number(effective_offset(offset), effective_limit(limit)) as i32,
                                page_size: effective_limit(limit) as i32,
                            },
                        ),
                        authorization: None,
                    },
                ),
            )
        } else {
            Err(ClientErrorView::InvalidRequest(page_request_error()))
        }
    }

    /// The result of a create, read or update of a post, from its reply.
    pub open spec fn post_result(&self, reply: Reply<Post, Post>) -> Result<Post, ClientErrorView> {
        match reply {
            Reply::Http(h) => if self.is_http_view() {
                created_outcome(h)
            } else {
                Err(mismatch_error())
            },
            Reply::Rpc(x) => if self.is_http_view() {
                Err(mismatch_error())
            } else {
                rpc_outcome(x)
            },
        }
    }

    /// The result of a delete, from its reply.
    pub open spec fn delete_result(&self, reply: Reply<(), DeletePostResponse>) -> Result<
        (),
        ClientErrorView,
    > {
        match reply {
            Reply::Http(h) => if self.is_http_view() {
                delete_outcome(h.status, h.body@)
            } else {
                Err(mismatch_error())
            },
            Reply::Rpc(x) => if self.is_http_view() {
                Err(mismatch_error())
            } else {
                rpc_delete_outcome(x)
            },
        }
    }

    /// The token a register reply issues: over HTTP the token of a
    /// successful reply; the RPC register answer issues none.
    pub open spec fn issued_by_register(&self, reply: Reply<AuthResponse, RegisterResponse>) -> Option<
        Seq<char>,
    > {
        match reply {
            Reply::Http(h) => if self.is_http_view() {
                http_issued(h)
            } else {
                None
            },
            Reply::Rpc(_) => None,
        }
    }

    /// The token a login reply issues: the token of a successful reply of
    /// the client's transport (an RPC answer must report the account).
    pub open spec fn issued_by_login(&self, reply: Reply<AuthResponse, LoginResponse>) -> Option<
        Seq<char>,
    > {
        match reply {
            Reply::Http(h) => if self.is_http_view() {
                http_issued(h)
            } else {
                None
            },
            Reply::Rpc(x) => if self.is_http_view() {
                None
            } else {
                match x {
                    Ok(l) => if l.user is Some {
                        Some(l.token@)
                    } else {
                        None
                    },
                    Err(_) => None,
                }
            },
        }
    }

    /// A client for the given transport, with no session token.
    pub fn new(transport: Transport) -> (r: BlogClient)
        ensures
            r.is_http_view() == (transport is Http),
            r.address_view() == transport_address(transport),
            r.token_view() is None,
            r.wf(),
    {
        let sub = match transport {
            Transport::Http(u) => SubClient::Http(HttpClient::new(u)),
            Transport::Grpc(a) => SubClient::Grpc(GrpcClient::new(a)),
        };
        BlogClient { sub, token: None }
    }

    /// Makes `token` the session token, in the façade and in the sub-client.
    pub fn set_token(&mut self, token: String)
        ensures
            final(self).token_view() == Some(token@),
            final(self).wf(),
            final(self).same_service(old(self)),
    {
        let copy = token.clone();
        match &mut self.sub {
            SubClient::Http(h) => h.set_token(copy),
            SubClient::Grpc(g) => g.set_token(copy),
        }
        self.token = Some(token);
    }

    /// The session token.
    pub fn get_token(&self) -> (r: Option<String>)
        ensures
            r.deep_view() == self.token_view(),
    {
        match &self.token {
            Some(t) => Some(t.clone()),
            None => None,
        }
    }

    /// Forgets the session token, in the façade and in the sub-client.
    pub fn clear_token(&mut self)
        ensures
            final(self).token_view() is None,
            final(self).wf(),
            final(self).same_service(old(self)),
    {
        match &mut self.sub {
            SubClient::Http(h) => h.clear_token(),
            SubClient::Grpc(g) => g.clear_token(),
        }
        self.token = None;
    }

    /// Whether the session token and the sub-client's copy agree; every
    /// operation of the client keeps them so.
    pub fn is_consistent(&self) -> (r: bool)
        ensures
            r == self.wf(),
    {
        let mirror = match &self.sub {
            SubClient::Http(h) => h.get_token(),
            SubClient::Grpc(g) => g.get_token(),
        };
        match (mirror, &self.token) {
            (Some(a), Some(b)) => same_text(a, b),
            (None, None) => true,
            _ => false,
        }
    }

    /// Whether the client uses the HTTP API.
    pub fn is_http(&self) -> (r: bool)
        ensures
            r == self.is_http_view(),
    {
        match &self.sub {
            SubClient::Http(_) => true,
            SubClient::Grpc(_) => false,
        }
    }

    /// Whether the client uses the RPC API.
    pub fn is_grpc(&self) -> (r: bool)
        ensures
            r == !self.is_http_view(),
    {
        match &self.sub {
            SubClient::Http(_) => false,
            SubClient::Grpc(_) => true,
        }
    }

    /// The address of the service.
    pub fn transport_url(&self) -> (r: String)
        ensures
            r@ == self.address_view(),
    {
        match &self.sub {
            SubClient::Http(h) => h.url_base(),
            SubClient::Grpc(g) => g.address(),
        }
    }

    /// The request that registers an account.
    pub fn register_request(&self, username: String, email: String, password: String) -> (r: Outgoing)
        ensures
            r@ == self.register_plan(username, email, password),
    {
        let req = RegisterRequest { username, email, password };
        match &self.sub {
            SubClient::Http(h) => Outgoing::Http(h.register_request(req)),
            SubClient::Grpc(g) => Outgoing::Rpc(g.register_call(req)),
        }
    }

    /// The request that logs in.
    pub fn login_request(&self, username: String, password: String) -> (r: Outgoing)
        ensures
            r@ == self.login_plan(username, password),
    {
        let req = LoginRequest { username, password };
        match &self.sub {
            SubClient::Http(h) => Outgoing::Http(h.login_request(req)),
            SubClient::Grpc(g) => Outgoing::Rpc(g.login_call(req)),
        }
    }

    /// The request that creates a post, carrying the session token if there is one.
    pub fn create_post_request(&self, title: String, content: String) -> (r: Outgoing)
        requires
            self.wf(),
        ensures
            r@ == self.create_post_plan(title, content),
    {
        match &self.sub {
            SubClient::Http(h) => Outgoing::Http(h.create_post_request(title, content)),
            SubClient::Grpc(g) => Outgoing::Rpc(g.create_post_call(title, content)),
        }
    }

    /// The request that reads a post.
    pub fn get_post_request(&self, id: i64) -> (r: Outgoing)
        ensures
            r@ == self.get_post_plan(id),
    {
        match &self.sub {
            SubClient::Http(h) => Outgoing::Http(h.get_post_request(id)),
            SubClient::Grpc(g) => Outgoing::Rpc(g.get_post_call(id)),
        }
    }

    /// The request that updates the given fields of a post, carrying the
    /// session token if there is one.
    pub fn update_post_request(&self, id: i64, title: Option<String>, content: Option<String>) -> (r:
        Outgoing)
        requires
            self.wf(),
        ensures
            r@ == self.update_post_plan(id, title, content),
    {
        match &self.sub {
            SubClient::Http(h) => Outgoing::Http(h.update_post_request(id, title, content)),
            SubClient::Grpc(g) => Outgoing::Rpc(g.update_post_call(id, title, content)),
        }
    }

    /// The request that deletes a post, carrying the session token if there is one.
    pub fn delete_post_request(&self, id: i64) -> (r: Outgoing)
        requires
            self.wf(),
        ensures
            r@ == self.delete_post_plan(id),
    {
        match &self.sub {
            SubClient::Http(h) => Outgoing::Http(h.delete_post_request(id)),
            SubClient::Grpc(g) => Outgoing::Rpc(g.delete_post_call(id)),
        }
    }

    /// The request that lists posts. Over RPC the window becomes a page
    /// request, which fails when the window cannot be written as one.
    pub fn list_posts_request(&self, limit: Option<i64>, offset: Option<i64>) -> (r: Result<
        Outgoing,
        BlogClientError,
    >)
        ensures
            match r {
                Ok(o) => self.list_posts_plan(limit, offset) == Ok::<OutgoingView, ClientErrorView>(o@),
                Err(e) => self.list_posts_plan(limit, offset) == Err::<OutgoingView, ClientErrorView>(e@),
            },
    {
        match &self.sub {
            SubClient::Http(h) => Ok(Outgoing::Http(h.list_posts_request(limit, offset))),
            SubClient::Grpc(g) => match to_page_request(limit, offset) {
                Ok(p) => Ok(Outgoing::Rpc(g.list_posts_call(p))),
                Err(e) => Err(e),
            },
        }
    }

    /// Copies the sub-client's token into the session after an auth reply.
    fn take_sub_token(&mut self)
        ensures
            final(self).token_view() == old(self).mirror_view(),
            final(self).wf(),
            final(self).same_service(old(self)),
            final(self).sub == old(self).sub,
    {
        let t = match &self.sub {
            SubClient::Http(h) => h.get_token(),
            SubClient::Grpc(g) => g.get_token(),
        };
        let copy = match t {
            Some(s) => Some(s.clone()),
            None => None,
        };
        self.token = copy;
    }

    /// Reads the reply to a register. Over HTTP a successful reply brings
    /// the token and the account; over RPC the answer brings the account's
    /// id, the account is made of the given name and email with `created_at`
    /// as its creation time (the answer carries none), and no token is
    /// issued (the token is empty). A token that is issued becomes the
    /// session token before this returns.
    pub fn finish_register(
        &mut self,
        username: String,
        email: String,
        created_at: String,
        reply: Reply<AuthResponse, RegisterResponse>,
    ) -> (r: Result<AuthResponse, BlogClientError>)
        requires
            old(self).wf(),
        ensures
            final(self).wf(),
            final(self).same_service(old(self)),
            final(self).token_view() == token_after(
                old(self).token_view(),
                old(self).issued_by_register(reply),
            ),
            r is Err ==> final(self).token_view() == old(self).token_view()
                && final(self).mirror_view() == old(self).mirror_view(),
            match reply {
                Reply::Http(h) => if old(self).is_http_view() {
                    outcome(r) == created_outcome(h)
                } else {
                    outcome(r) == Err::<AuthResponse, ClientErrorView>(mismatch_error())
                },
                Reply::Rpc(x) => if old(self).is_http_view() {
                    outcome(r) == Err::<AuthResponse, ClientErrorView>(mismatch_error())
                } else {
                    match x {
                        Ok(resp) => r matches Ok(a) && a.token@ == Seq::<char>::empty() && a.user
                            == (User { id: resp.user_id, username, email, created_at }),
                        Err(s) => outcome(r) == Err::<AuthResponse, ClientErrorView>(
                            crate::error::rpc_error(s.code, s.message@),
                        ),
                    }
                },
            },
    {
        let is_http = self.is_http();
        match reply {
            Reply::Http(h) => {
                if !is_http {
                    return mismatch();
                }
                let r = match &mut self.sub {
                    SubClient::Http(c) => c.handle_auth_response(h),
                    SubClient::Grpc(_) => mismatch(),
                };
                self.take_sub_token();
                r
            },
            Reply::Rpc(x) => {
                if is_http {
                    return mismatch();
                }
                let r = match &self.sub {
                    SubClient::Grpc(g) => g.finish_register(x),
                    SubClient::Http(_) => mismatch(),
                };
                match r {
                    Ok(resp) => Ok(
                        AuthResponse {
                            token: String::new(),
                            user: User { id: resp.user_id, username, email, created_at },
                        },
                    ),
                    Err(e) => Err(e),
                }
            },
        }
    }

    /// Reads the reply to a login. The issued token (even an empty one)
    /// becomes the session token before this returns. Over RPC the account
    /// reported carries the given name, and an answer without the account
    /// is a transport error that leaves the session as it was.
    pub fn finish_login(&mut self, username: String, reply: Reply<AuthResponse, LoginResponse>) -> (r:
        Result<AuthResponse, BlogClientError>)
        requires
            old(self).wf(),
        ensures
            final(self).wf(),
            final(self).same_service(old(self)),
            final(self).token_view() == token_after(
                old(self).token_view(),
                old(self).issued_by_login(reply),
            ),
            r matches Ok(a) ==> old(self).issued_by_login(reply) == Some(a.token@),
            r is Err ==> final(self).token_view() == old(self).token_view()
                && final(self).mirror_view() == old(self).mirror_view(),
            match reply {
                Reply::Http(h) => if old(self).is_http_view() {
                    outcome(r) == created_outcome(h)
                } else {
                    outcome(r) == Err::<AuthResponse, ClientErrorView>(mismatch_error())
                },
                Reply::Rpc(x) => if old(self).is_http_view() {
                    outcome(r) == Err::<AuthResponse, ClientErrorView>(mismatch_error())
                } else {
                    match x {
                        Ok(l) => match l.user {
                            Some(u) => r == Ok::<AuthResponse, BlogClientError>(
                                AuthResponse {
                                    token: l.token,
                                    user: User {
                                        id: u.id,
                                        username,
                                        email: u.email,
                                        created_at: u.created_at,
                                    },
                                },
                            ),
                            None => outcome(r) == Err::<AuthResponse, ClientErrorView>(
                                missing_user_error(),
                            ),
                        },
                        Err(s) => outcome(r) == Err::<AuthResponse, ClientErrorView>(
                            crate::error::rpc_error(s.code, s.message@),
                        ),
                    }
                },
            },
    {
        let is_http = self.is_http();
        match reply {
            Reply::Http(h) => {
                if !is_http {
                    return mismatch();
                }
                let r = match &mut self.sub {
                    SubClient::Http(c) => c.handle_auth_response(h),
                    SubClient::Grpc(_) => mismatch(),
                };
                self.take_sub_token();
                r
            },
            Reply::Rpc(x) => {
                if is_http {
                    return mismatch();
                }
                let r = match &mut self.sub {
                    SubClient::Grpc(g) => g.finish_login(x),
                    SubClient::Http(_) => mismatch(),
                };
                self.take_sub_token();
                match r {
                    Ok(l) => match l.user {
                        Some(u) => Ok(
                            AuthResponse {
                                token: l.token,
                                user: User {
                                    id: u.id,
                                    username,
                                    email: u.email,
                                    created_at: u.created_at,
                                },
                            },
                        ),
                        None => Err(
                            BlogClientError::TransportError(
                                String::from_str("No user data in response"),
                            ),
                        ),
                    },
                    Err(e) => Err(e),
                }
            },
        }
    }

    /// Reads the reply to a create, read or update of a post.
    pub fn finish_post(&self, reply: Reply<Post, Post>) -> (r: Result<Post, BlogClientError>)
        ensures
            outcome(r) == self.post_result(reply),
    {
        match reply {
            Reply::Http(h) => match &self.sub {
                SubClient::Http(c) => c.handle_post_response(h),
                SubClient::Grpc(_) => mismatch(),
            },
            Reply::Rpc(x) => match &self.sub {
                SubClient::Grpc(g) => g.finish_post(x),
                SubClient::Http(_) => mismatch(),
            },
        }
    }

    /// Reads the reply to a delete.
    pub fn finish_delete(&self, reply: Reply<(), DeletePostResponse>) -> (r: Result<(), BlogClientError>)
        ensures
            outcome(r) == self.delete_result(reply),
    {
        match reply {
            Reply::Http(h) => match &self.sub {
                SubClient::Http(c) => c.handle_delete_response(h.status, h.body),
                SubClient::Grpc(_) => mismatch(),
            },
            Reply::Rpc(x) => match &self.sub {
                SubClient::Grpc(g) => g.finish_delete(x),
                SubClient::Http(_) => mismatch(),
            },
        }
    }

    /// Reads the reply to a listing of the window `(limit, offset)`. An RPC
    /// page is reshaped into the HTTP form: the total count becomes `total`
    /// and the window is the one asked for, after the defaults.
    pub fn finish_list(
        &self,
        limit: Option<i64>,
        offset: Option<i64>,
        reply: Reply<PostsResponse, ListPostsResponse>,
    ) -> (r: Result<PostsResponse, BlogClientError>)
        ensures
            match reply {
                Reply::Http(h) => if self.is_http_view() {
                    outcome(r) == ok_outcome(h)
                } else {
                    outcome(r) == Err::<PostsResponse, ClientErrorView>(mismatch_error())
                },
                Reply::Rpc(x) => if self.is_http_view() {
                    outcome(r) == Err::<PostsResponse, ClientErrorView>(mismatch_error())
                } else {
                    match x {
                        Ok(l) => r matches Ok(p) && p.posts == l.posts && p.total == l.total_count
                            && p.limit == effective_limit(limit) && p.offset == effective_offset(
                            offset,
                        ),
                        Err(s) => outcome(r) == Err::<PostsResponse, ClientErrorView>(
                            crate::error::rpc_error(s.code, s.message@),
                        ),
                    }
                },
            },
    {
        match reply {
            Reply::Http(h) => match &self.sub {
                SubClient::Http(c) => c.handle_list_response(h),
                SubClient::Grpc(_) => mismatch(),
            },
            Reply::Rpc(x) => match &self.sub {
                SubClient::Grpc(g) => match g.finish_list(x) {
                    Ok(l) => Ok(posts_from_page(l.posts, l.total_count, limit, offset)),
                    Err(e) => Err(e),
                },
                SubClient::Http(_) => mismatch(),
            },
        }
    }
}

/// Register, then login: whichever transport the client uses, once the
/// login has returned, the token it issued is the session token, and the
/// sub-client that carries the calls holds the same one. `c0`, `c1` and
/// `c2` are the client before the register, after it, and after the login;
/// `a` is what the login returned.
pub proof fn lemma_login_token_is_session(
    c0: BlogClient,
    c1: BlogClient,
    c2: BlogClient,
    register: Reply<AuthResponse, RegisterResponse>,
    login: Reply<AuthResponse, LoginResponse>,
    a: AuthResponse,
)
    requires
        c0.wf(),
        c1.wf(),
        c1.same_service(&c0),
        c1.token_view() == token_after(c0.token_view(), c0.issued_by_register(register)),
        c2.wf(),
        c2.same_service(&c1),
        c2.token_view() == token_after(c1.token_view(), c1.issued_by_login(login)),
        c1.issued_by_login(login) == Some(a.token@),
    ensures
        c2.token_view() == Some(a.token@),
        c2.mirror_view() == Some(a.token@),
        authorization_for(c2.token_view()) == Some(crate::http::bearer(a.token@)),
        c2.is_http_view() == c0.is_http_view(),
{
}

/// Reading a post twice with nothing changed in between gives the same
/// payload: the request depends on the transport, the address and the id
/// alone (never on the session), and the result depends on the answer alone.
pub proof fn lemma_get_post_repeatable(c1: BlogClient, c2: BlogClient, id: i64, reply: Reply<Post, Post>)
    requires
        c1.same_service(&c2),
    ensures
        c1.get_post_plan(id) == c2.get_post_plan(id),
        c1.post_result(reply) == c2.post_result(reply),
{
}

/// Paging through a listing over RPC: asking for the window at offset
/// `k * limit` sends page `k + 1` of `limit` items and no token, and the
/// service reads that page back as exactly the window asked for, so the
/// pages of consecutive windows follow one another with no gap or overlap.
pub proof fn lemma_rpc_listing_window(c: BlogClient, limit: i64, k: int, offset: i64)
    requires
        !c.is_http_view(),
        0 < limit <= MAX_PAGE_SIZE,
        0 <= k < i32::MAX,
        offset == k * limit,
    ensures
        c.list_posts_plan(Some(limit), Some(offset)) == Ok::<OutgoingView, ClientErrorView>(
            OutgoingView::Rpc(
                RpcRequestView {
                    call: RpcCall::ListPosts(PageRequest { page: (k + 1) as i32, page_size: limit as i32 }),
                    authorization: None,
                },
            ),
        ),
        served_limit(limit as int) == limit,
        served_offset(k + 1, limit as int) == offset,
{
    assert((k * limit) / (limit as int) == k) by (nonlinear_arith)
        requires
            0 < limit,
            0 <= k,
    ;
    assert(k * limit >= 0) by (nonlinear_arith)
        requires
            0 < limit,
            0 <= k,
    ;
    assert(page_number(offset as int, limit as int) == k + 1);
}

} // verus!
