use vstd::prelude::*;

use crate::error::{rpc_error, BlogClientError, ClientErrorView, RpcStatus};
use crate::http::{authorization_for, bearer_text, outcome};
use crate::models::{
    CreatePostRequest, LoginRequest, Post, RegisterRequest, UpdatePostRequest, User,
};
use crate::pagination::PageRequest;

verus! {

/// The operation an RPC carries, with its message.
#[derive(Debug, Clone, PartialEq, Eq)]
pub enum RpcCall {
    Register(RegisterRequest),
    Login(LoginRequest),
    CreatePost(CreatePostRequest),
    GetPost { id: i64 },
    UpdatePost { id: i64, update: UpdatePostRequest },
    DeletePost { id: i64 },
    ListPosts(PageRequest),
}

/// An RPC to send: the call and the value of the `authorization` metadata
/// entry, if one is attached.
#[derive(Debug, Clone, PartialEq, Eq)]
pub struct RpcRequest {
    pub call: RpcCall,
    pub authorization: Option<String>,
}

/// The mathematical value of an `RpcRequest`.
pub struct RpcRequestView {
    pub call: RpcCall,
    pub authorization: Option<Seq<char>>,
}

impl View for RpcRequest {
    type V = RpcRequestView;

    open spec fn view(&self) -> RpcRequestView {
        RpcRequestView { call: self.call, authorization: self.authorization.deep_view() }
    }
}

/// The answer to a successful RPC register: the new account's id; no token.
#[derive(Debug, Clone, PartialEq, Eq)]
pub struct RegisterResponse {
    pub user_id: i64,
    pub message: String,
}

/// The answer to a successful RPC login.
#[derive(Debug, Clone, PartialEq, Eq)]
pub struct LoginResponse {
    pub token: String,
    pub user: Option<User>,
}

/// The answer to an RPC delete.
#[derive(Debug, Clone, PartialEq, Eq)]
pub struct DeletePostResponse {
    pub success: bool,
    pub message: String,
}

/// One page of posts, in the shape of the RPC API.
#[derive(Debug, Clone, PartialEq, Eq)]
pub struct ListPostsResponse {
    pub posts: Vec<Post>,
    pub total_count: i32,
    pub page: i32,
    pub page_size: i32,
    pub total_pages: i32,
}

/// The result of an RPC: its answer, or its status mapped to the unified taxonomy.
pub open spec fn rpc_outcome<T>(reply: Result<T, RpcStatus>) -> Result<T, ClientErrorView> {
    match reply {
        Ok(v) => Ok(v),
        Err(s) => Err(rpc_error(s.code, s.message@)),
    }
}

/// The result of an RPC delete: an answer that reports failure is a transport error.
pub open spec fn rpc_delete_outcome(reply: Result<DeletePostResponse, RpcStatus>) -> Result<
    (),
    ClientErrorView,
> {
    match reply {
        Ok(d) => if d.success {
            Ok(())
        } else {
            Err(ClientErrorView::TransportError(d.message@))
        },
        Err(s) => Err(rpc_error(s.code, s.message@)),
    }
}

fn map_status<T>(reply: Result<T, RpcStatus>) -> (r: Result<T, BlogClientError>)
    ensures
        outcome(r) == rpc_outcome(reply),
{
    match reply {
        Ok(v) => Ok(v),
        Err(s) => Err(BlogClientError::from_rpc_status(s)),
    }
}

/// The RPC side of the client: the service's address and the token it
/// attaches to authenticated calls.
pub struct GrpcClient {
    addr: String,
    token: Option<String>,
}

impl GrpcClient {
    /// The address of the service.
    pub closed spec fn address_view(&self) -> Seq<char> {
        self.addr@
    }

    /// The token this sub-client attaches, if any.
    pub closed spec fn token_view(&self) -> Option<Seq<char>> {
        self.token.deep_view()
    }

    /// A sub-client for the service at `addr`, with no token.
    pub fn new(addr: String) -> (r: GrpcClient)
        ensures
            r.address_view() == addr@,
            r.token_view() is None,
    {
        GrpcClient { addr, token: None }
    }

    /// Attaches `token` to later authenticated calls.
    pub fn set_token(&mut self, token: String)
        ensures
            final(self).token_view() == Some(token@),
            final(self).address_view() == old(self).address_view(),
    {
        self.token = Some(token);
    }

    /// Forgets the token.
    pub fn clear_token(&mut self)
        ensures
            final(self).token_view() is None,
            final(self).address_view() == old(self).address_view(),
    {
        self.token = None;
    }

    /// The address of the service.
    pub fn address(&self) -> (r: String)
        ensures
            r@ == self.address_view(),
    {
        self.addr.clone()
    }

    /// The token attached to authenticated calls.
    pub fn get_token(&self) -> (r: Option<&String>)
        ensures
            r.deep_view() == self.token_view(),
    {
        self.token.as_ref()
    }

    /// The `authorization` metadata value for the current token, if there is one.
    pub fn authorization(&self) -> (r: Option<String>)
        ensures
            r.deep_view() == authorization_for(self.token_view()),
    {
        match &self.token {
            Some(t) => Some(bearer_text(t)),
            None => None,
        }
    }

    /// The call that registers an account.
    pub fn register_call(&self, req: RegisterRequest) -> (r: RpcRequest)
        ensures
            r@ == (RpcRequestView { call: RpcCall::Register(req), authorization: None }),
    {
        RpcRequest { call: RpcCall::Register(req), authorization: None }
    }

    /// The call that logs in.
    pub fn login_call(&self, req: LoginRequest) -> (r: RpcRequest)
        ensures
            r@ == (RpcRequestView { call: RpcCall::Login(req), authorization: None }),
    {
        RpcRequest { call: RpcCall::Login(req), authorization: None }
    }

    /// The call that creates a post, with the token attached if there is one.
    pub fn create_post_call(&self, title: String, content: String) -> (r: RpcRequest)
        ensures
            r@ == (RpcRequestView {
                call: RpcCall::CreatePost(CreatePostRequest { title, content }),
                authorization: authorization_for(self.token_view()),
            }),
    {
        RpcRequest {
            call: RpcCall::CreatePost(CreatePostRequest { title, content }),
            authorization: self.authorization(),
        }
    }

    /// The call that reads a post; it carries no token.
    pub fn get_post_call(&self, id: i64) -> (r: RpcRequest)
        ensures
            r@ == (RpcRequestView { call: RpcCall::GetPost { id }, authorization: None }),
    {
        RpcRequest { call: RpcCall::GetPost { id }, authorization: None }
    }

    /// The call that updates the given fields of a post, with the token
    /// attached if there is one.
    pub fn update_post_call(&self, id: i64, title: Option<String>, content: Option<String>) -> (r:
        RpcRequest)
        ensures
            r@ == (RpcRequestView {
                call: RpcCall::UpdatePost { id, update: UpdatePostRequest { title, content } },
                authorization: authorization_for(self.token_view()),
            }),
    {
        RpcRequest {
            call: RpcCall::UpdatePost { id, update: UpdatePostRequest { title, content } },
            authorization: self.authorization(),
        }
    }

    /// The call that deletes a post, with the token attached if there is one.
    pub fn delete_post_call(&self, id: i64) -> (r: RpcRequest)
        ensures
            r@ == (RpcRequestView {
                call: RpcCall::DeletePost { id },
                authorization: authorization_for(self.token_view()),
            }),
    {
        RpcRequest { call: RpcCall::DeletePost { id }, authorization: self.authorization() }
    }

    /// The call that lists a page of posts; it carries no token.
    pub fn list_posts_call(&self, page: PageRequest) -> (r: RpcRequest)
        ensures
            r@ == (RpcRequestView { call: RpcCall::ListPosts(page), authorization: None }),
    {
        RpcRequest { call: RpcCall::ListPosts(page), authorization: None }
    }

    /// Reads the answer to a register call.
    pub fn finish_register(&self, reply: Result<RegisterResponse, RpcStatus>) -> (r: Result<
        RegisterResponse,
        BlogClientError,
    >)
        ensures
            outcome(r) == rpc_outcome(reply),
    {
        map_status(reply)
    }

    /// Reads the answer to a login call. An answer that reports the account
    /// has its token attached to later calls; an answer without the account
    /// changes nothing.
    pub fn finish_login(&mut self, reply: Result<LoginResponse, RpcStatus>) -> (r: Result<
        LoginResponse,
        BlogClientError,
    >)
        ensures
            outcome(r) == rpc_outcome(reply),
            final(self).token_view() == (match r {
                Ok(l) => if l.user is Some {
                    Some(l.token@)
                } else {
                    old(self).token_view()
                },
                Err(_) => old(self).token_view(),
            }),
            final(self).address_view() == old(self).address_view(),
    {
        let r = map_status(reply);
        if let Ok(l) = &r {
            if l.user.is_some() {
                self.token = Some(l.token.clone());
            }
        }
        r
    }

    /// Reads the answer to a create, read or update of a post.
    pub fn finish_post(&self, reply: Result<Post, RpcStatus>) -> (r: Result<Post, BlogClientError>)
        ensures
            outcome(r) == rpc_outcome(reply),
    {
        map_status(reply)
    }

    /// Reads the answer to a delete call.
    pub fn finish_delete(&self, reply: Result<DeletePostResponse, RpcStatus>) -> (r: Result<
        (),
        BlogClientError,
    >)
        ensures
            outcome(r) == rpc_delete_outcome(reply),
    {
        match reply {
            Ok(d) => if d.success {
                Ok(())
            } else {
                Err(BlogClientError::TransportError(d.message))
            },
            Err(s) => Err(BlogClientError::from_rpc_status(s)),
        }
    }

    /// Reads the answer to a listing call.
    pub fn finish_list(&self, reply: Result<ListPostsResponse, RpcStatus>) -> (r: Result<
        ListPostsResponse,
        BlogClientError,
    >)
        ensures
            outcome(r) == rpc_outcome(reply),
    {
        map_status(reply)
    }
}

} // verus!
