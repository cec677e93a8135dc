use blog_client::{
    AuthResponse, BlogClient, BlogClientError, DeletePostResponse, HttpMethod, HttpReply,
    ListPostsResponse, LoginRequest, LoginResponse, Outgoing, PageRequest, Post, PostsResponse,
    RegisterRequest, RegisterResponse, Reply, RequestBody, RpcCall, RpcCode, RpcStatus,
    Transport, UpdatePostRequest, User, CreatePostRequest,
};

fn http_client() -> BlogClient {
    BlogClient::new(Transport::Http("http://localhost:3000/".to_string()))
}

fn grpc_client() -> BlogClient {
    BlogClient::new(Transport::Grpc("http://localhost:50051".to_string()))
}

fn user(id: i64, name: &str) -> User {
    User {
        id,
        username: name.to_string(),
        email: format!("{}@example.com", name),
        created_at: "2024-01-01T00:00:00+00:00".to_string(),
    }
}

fn post(id: i64, title: &str, content: &str, author_id: i64, updated_at: &str) -> Post {
    Post {
        id,
        title: title.to_string(),
        content: content.to_string(),
        author_id,
        created_at: "2024-01-01T00:00:00+00:00".to_string(),
        updated_at: updated_at.to_string(),
    }
}

fn http_reply<T>(status: u16, body: &str, decoded: Result<T, String>) -> HttpReply<T> {
    HttpReply { status, body: body.to_string(), decoded }
}

fn auth_ok(token: &str, u: User) -> Reply<AuthResponse, LoginResponse> {
    Reply::Http(http_reply(200, "{..}", Ok(AuthResponse { token: token.to_string(), user: u })))
}

fn http_request(o: Outgoing) -> blog_client::HttpRequest {
    match o {
        Outgoing::Http(h) => h,
        Outgoing::Rpc(_) => panic!("expected an HTTP request"),
    }
}

fn rpc_request(o: Outgoing) -> blog_client::RpcRequest {
    match o {
        Outgoing::Rpc(r) => r,
        Outgoing::Http(_) => panic!("expected an RPC request"),
    }
}

#[test]
fn transport_is_fixed_at_construction() {
    let h = http_client();
    assert!(h.is_http());
    assert!(!h.is_grpc());
    assert_eq!(h.transport_url(), "http://localhost:3000/");
    let g = grpc_client();
    assert!(g.is_grpc());
    assert!(!g.is_http());
    assert_eq!(g.transport_url(), "http://localhost:50051");
    assert_eq!(h.get_token(), None);
    assert_eq!(g.get_token(), None);
}

#[test]
fn register_request_shapes() {
    let h = http_client();
    let r = http_request(h.register_request("ann".into(), "a@x".into(), "pw".into()));
    assert_eq!(r.method, HttpMethod::Post);
    assert_eq!(r.url, "http://localhost:3000/api/auth/register");
    assert_eq!(r.authorization, None);
    assert_eq!(
        r.body,
        Some(RequestBody::Register(RegisterRequest {
            username: "ann".into(),
            email: "a@x".into(),
            password: "pw".into()
        }))
    );
    let g = grpc_client();
    let r = rpc_request(g.register_request("ann".into(), "a@x".into(), "pw".into()));
    assert_eq!(r.authorization, None);
    assert!(matches!(r.call, RpcCall::Register(_)));
}

#[test]
fn http_register_then_login_token_becomes_session() {
    let mut c = http_client();
    let reg = Reply::Http(http_reply(
        201,
        "{..}",
        Ok(AuthResponse { token: "t-register".into(), user: user(7, "ann") }),
    ));
    let a = c.finish_register("ann".into(), "ann@example.com".into(), "2024-05-01T10:00:00+00:00".into(), reg).unwrap();
    assert_eq!(a.token, "t-register");
    assert_eq!(c.get_token(), Some("t-register".to_string()));
    let login_req = http_request(c.login_request("ann".into(), "pw".into()));
    assert_eq!(login_req.url, "http://localhost:3000/api/auth/login");
    assert_eq!(
        login_req.body,
        Some(RequestBody::Login(LoginRequest { username: "ann".into(), password: "pw".into() }))
    );
    let a = c.finish_login("ann".into(), auth_ok("t-login", user(7, "ann"))).unwrap();
    assert_eq!(a.token, "t-login");
    assert_eq!(a.user, user(7, "ann"));
    assert_eq!(c.get_token(), Some("t-login".to_string()));
    let create = http_request(c.create_post_request("Hello".into(), "World".into()));
    assert_eq!(create.authorization, Some("Bearer t-login".to_string()));
}

#[test]
fn grpc_register_then_login_token_becomes_session() {
    let mut c = grpc_client();
    let reg: Reply<AuthResponse, RegisterResponse> =
        Reply::Rpc(Ok(RegisterResponse { user_id: 9, message: "User registered successfully".into() }));
    let a = c.finish_register("bob".into(), "bob@example.com".into(), "2024-05-01T10:00:00+00:00".into(), reg).unwrap();
    assert_eq!(a.token, "");
    assert_eq!(a.user.id, 9);
    assert_eq!(a.user.username, "bob");
    assert_eq!(a.user.email, "bob@example.com");
    assert_eq!(a.user.created_at, "2024-05-01T10:00:00+00:00");
    assert_eq!(c.get_token(), None);
    let login: Reply<AuthResponse, LoginResponse> = Reply::Rpc(Ok(LoginResponse {
        token: "t-rpc".into(),
        user: Some(user(9, "robert")),
    }));
    let a = c.finish_login("bob".into(), login).unwrap();
    assert_eq!(a.token, "t-rpc");
    assert_eq!(a.user.id, 9);
    assert_eq!(a.user.username, "bob");
    assert_eq!(a.user.email, "robert@example.com");
    assert_eq!(c.get_token(), Some("t-rpc".to_string()));
    let create = rpc_request(c.create_post_request("Hello".into(), "World".into()));
    assert_eq!(create.authorization, Some("Bearer t-rpc".to_string()));
}

#[test]
fn grpc_login_without_user_fails_and_leaves_session() {
    let mut c = grpc_client();
    c.set_token("before".into());
    let login: Reply<AuthResponse, LoginResponse> =
        Reply::Rpc(Ok(LoginResponse { token: "t".into(), user: None }));
    let r = c.finish_login("bob".into(), login);
    assert_eq!(r, Err(BlogClientError::TransportError("No user data in response".into())));
    assert_eq!(c.get_token(), Some("before".to_string()));
    assert!(c.is_consistent());
    let create = rpc_request(c.create_post_request("Hello".into(), "World".into()));
    assert_eq!(create.authorization, Some("Bearer before".to_string()));
    let mut fresh = grpc_client();
    let login: Reply<AuthResponse, LoginResponse> =
        Reply::Rpc(Ok(LoginResponse { token: "t".into(), user: None }));
    assert!(fresh.finish_login("bob".into(), login).is_err());
    assert_eq!(fresh.get_token(), None);
}

#[test]
fn failed_login_leaves_session_alone() {
    let mut c = http_client();
    c.set_token("old".into());
    let r = c.finish_login(
        "ann".into(),
        Reply::Http(http_reply(401, "{\"error\":\"Invalid credentials\"}", Err("n/a".into()))),
    );
    assert_eq!(r, Err(BlogClientError::Unauthorized("{\"error\":\"Invalid credentials\"}".into())));
    assert_eq!(c.get_token(), Some("old".to_string()));
    let mut g = grpc_client();
    let r = g.finish_login(
        "bob".into(),
        Reply::Rpc(Err(RpcStatus { code: RpcCode::Unauthenticated, message: "Invalid credentials".into() })),
    );
    assert!(r.unwrap_err().is_unauthorized());
    assert_eq!(g.get_token(), None);
}

#[test]
fn empty_issued_token_is_stored() {
    let mut c = http_client();
    c.set_token("old".into());
    let a = c.finish_login("ann".into(), auth_ok("", user(1, "ann"))).unwrap();
    assert_eq!(a.token, "");
    assert_eq!(c.get_token(), Some(String::new()));
    assert!(c.is_consistent());
    let create = http_request(c.create_post_request("Hello".into(), "World".into()));
    assert_eq!(create.authorization, Some("Bearer ".to_string()));
    let mut g = grpc_client();
    g.set_token("old".into());
    let login: Reply<AuthResponse, LoginResponse> =
        Reply::Rpc(Ok(LoginResponse { token: String::new(), user: Some(user(2, "bob")) }));
    assert_eq!(g.finish_login("bob".into(), login).unwrap().token, "");
    assert_eq!(g.get_token(), Some(String::new()));
}

#[test]
fn http_register_stores_issued_token() {
    let mut c = http_client();
    let reg = Reply::Http(http_reply(
        201,
        "{..}",
        Ok(AuthResponse { token: "t0".into(), user: user(3, "cy") }),
    ));
    let a = c
        .finish_register("cy".into(), "cy@example.com".into(), "unused".into(), reg)
        .unwrap();
    assert_eq!(a.user, user(3, "cy"));
    assert_eq!(c.get_token(), Some("t0".to_string()));
    let failed = Reply::Http(http_reply(409, "User already exists", Err("n/a".into())));
    let e = c
        .finish_register("cy".into(), "cy@example.com".into(), "unused".into(), failed)
        .unwrap_err();
    assert_eq!(e, BlogClientError::InvalidRequest("User already exists".into()));
    assert_eq!(c.get_token(), Some("t0".to_string()));
}

#[test]
fn undecodable_auth_reply_is_serialization_error() {
    let mut c = http_client();
    let r = c.finish_login("ann".into(), Reply::Http(http_reply(200, "nope", Err("expected value".into()))));
    assert_eq!(r, Err(BlogClientError::SerializationError("expected value".into())));
    assert_eq!(c.get_token(), None);
}

#[test]
fn set_and_clear_token() {
    let mut c = grpc_client();
    c.set_token("abc".into());
    assert_eq!(c.get_token(), Some("abc".to_string()));
    let d = rpc_request(c.delete_post_request(3));
    assert_eq!(d.authorization, Some("Bearer abc".to_string()));
    c.clear_token();
    assert_eq!(c.get_token(), None);
    let d = rpc_request(c.delete_post_request(3));
    assert_eq!(d.authorization, None);
    assert!(matches!(d.call, RpcCall::DeletePost { id: 3 }));
}

#[test]
fn create_post_while_authenticated() {
    let mut c = http_client();
    c.set_token("tok".into());
    let r = http_request(c.create_post_request("Hello".into(), "World".into()));
    assert_eq!(r.method, HttpMethod::Post);
    assert_eq!(r.url, "http://localhost:3000/api/protected/posts");
    assert_eq!(r.authorization, Some("Bearer tok".to_string()));
    assert_eq!(
        r.body,
        Some(RequestBody::CreatePost(CreatePostRequest { title: "Hello".into(), content: "World".into() }))
    );
    let created = post(1, "Hello", "World", 7, "2024-01-01T00:00:00+00:00");
    let p = c.finish_post(Reply::Http(http_reply(201, "{..}", Ok(created.clone())))).unwrap();
    assert!(p.id > 0);
    assert_eq!(p.title, "Hello");
    assert_eq!(p.content, "World");
    assert_eq!(p.author_id, 7);
    let g = grpc_client();
    let p = g.finish_post(Reply::Rpc(Ok(created.clone()))).unwrap();
    assert_eq!(p, created);
}

#[test]
fn get_post_of_missing_id_is_not_found() {
    let c = http_client();
    let r = http_request(c.get_post_request(42));
    assert_eq!(r.method, HttpMethod::Get);
    assert_eq!(r.url, "http://localhost:3000/api/posts/42");
    assert_eq!(r.authorization, None);
    let e = c.finish_post(Reply::Http(http_reply(404, "{\"error\":\"Post not found\"}", Err("n/a".into())))).unwrap_err();
    assert!(e.is_not_found());
    assert!(!matches!(e, BlogClientError::TransportError(_)));
    let g = grpc_client();
    let e = g
        .finish_post(Reply::Rpc(Err(RpcStatus { code: RpcCode::NotFound, message: "Post not found".into() })))
        .unwrap_err();
    assert_eq!(e, BlogClientError::NotFound);
}

#[test]
fn create_post_without_token_is_unauthorized() {
    let c = http_client();
    let r = http_request(c.create_post_request("Hello".into(), "World".into()));
    assert_eq!(r.authorization, None);
    let e = c.finish_post(Reply::Http(http_reply(401, "missing token", Err("n/a".into())))).unwrap_err();
    assert_eq!(e, BlogClientError::Unauthorized("missing token".into()));
    let g = grpc_client();
    let r = rpc_request(g.create_post_request("Hello".into(), "World".into()));
    assert_eq!(r.authorization, None);
    let e = g
        .finish_post(Reply::Rpc(Err(RpcStatus {
            code: RpcCode::Unauthenticated,
            message: "Missing authorization token".into(),
        })))
        .unwrap_err();
    assert!(e.is_unauthorized());
}

#[test]
fn list_posts_two_of_five() {
    let h = http_client();
    let r = http_request(h.list_posts_request(Some(2), Some(0)).unwrap());
    assert_eq!(r.url, "http://localhost:3000/api/posts?limit=2&offset=0");
    assert_eq!(r.authorization, None);
    let page = PostsResponse {
        posts: vec![post(1, "a", "a", 1, "x"), post(2, "b", "b", 1, "x")],
        total: 5,
        limit: 2,
        offset: 0,
    };
    let got = h.finish_list(Some(2), Some(0), Reply::Http(http_reply(200, "{..}", Ok(page.clone())))).unwrap();
    assert_eq!(got, page);

    let g = grpc_client();
    let r = rpc_request(g.list_posts_request(Some(2), Some(0)).unwrap());
    assert!(matches!(r.call, RpcCall::ListPosts(PageRequest { page: 1, page_size: 2 })));
    let r = rpc_request(g.list_posts_request(Some(2), Some(4)).unwrap());
    assert!(matches!(r.call, RpcCall::ListPosts(PageRequest { page: 3, page_size: 2 })));
    let answer = ListPostsResponse {
        posts: vec![post(5, "e", "e", 1, "x")],
        total_count: 5,
        page: 3,
        page_size: 2,
        total_pages: 3,
    };
    let got = g.finish_list(Some(2), Some(4), Reply::Rpc(Ok(answer))).unwrap();
    assert_eq!(got.posts.len(), 1);
    assert_eq!(got.total, 5);
    assert_eq!(got.limit, 2);
    assert_eq!(got.offset, 4);
}

#[test]
fn list_query_holds_only_given_parameters() {
    let h = http_client();
    assert_eq!(http_request(h.list_posts_request(None, None).unwrap()).url, "http://localhost:3000/api/posts");
    assert_eq!(
        http_request(h.list_posts_request(Some(5), None).unwrap()).url,
        "http://localhost:3000/api/posts?limit=5"
    );
    assert_eq!(
        http_request(h.list_posts_request(None, Some(3)).unwrap()).url,
        "http://localhost:3000/api/posts?offset=3"
    );
    let g = grpc_client();
    let r = rpc_request(g.list_posts_request(Some(2), Some(-2)).unwrap());
    assert!(matches!(r.call, RpcCall::ListPosts(PageRequest { page: 0, page_size: 2 })));
    assert_eq!(
        g.list_posts_request(Some(1), Some(i64::MAX)).unwrap_err(),
        BlogClientError::InvalidRequest("page out of range".into())
    );
}

#[test]
fn list_failure_is_normalized() {
    let h = http_client();
    let e = h
        .finish_list(None, None, Reply::Http(http_reply(400, "Limit must be between 1 and 100", Err("n/a".into()))))
        .unwrap_err();
    assert_eq!(e, BlogClientError::TransportError("HTTP 400: Limit must be between 1 and 100".into()));
}

#[test]
fn update_title_only() {
    let mut c = http_client();
    c.set_token("tok".into());
    let r = http_request(c.update_post_request(5, Some("New".into()), None));
    assert_eq!(r.method, HttpMethod::Put);
    assert_eq!(r.url, "http://localhost:3000/api/protected/posts/5");
    assert_eq!(r.authorization, Some("Bearer tok".to_string()));
    assert_eq!(
        r.body,
        Some(RequestBody::UpdatePost(UpdatePostRequest { title: Some("New".into()), content: None }))
    );
    let before = post(5, "Old", "Body", 7, "2024-01-01T00:00:00+00:00");
    let after = post(5, "New", "Body", 7, "2024-01-02T00:00:00+00:00");
    let got = c.finish_post(Reply::Http(http_reply(200, "{..}", Ok(after.clone())))).unwrap();
    assert_eq!(got.title, "New");
    assert_eq!(got.content, before.content);
    assert!(got.updated_at > before.updated_at);
    let mut g = grpc_client();
    g.set_token("tok".into());
    let r = rpc_request(g.update_post_request(5, Some("New".into()), None));
    assert_eq!(
        r.call,
        RpcCall::UpdatePost { id: 5, update: UpdatePostRequest { title: Some("New".into()), content: None } }
    );
}

#[test]
fn get_post_twice_gives_same_payload() {
    let mut c = http_client();
    let first = http_request(c.get_post_request(3));
    c.set_token("whatever".into());
    let second = http_request(c.get_post_request(3));
    assert_eq!(first, second);
    let p = post(3, "a", "b", 1, "x");
    let r1 = c.finish_post(Reply::Http(http_reply(200, "{..}", Ok(p.clone())))).unwrap();
    let r2 = c.finish_post(Reply::Http(http_reply(200, "{..}", Ok(p.clone())))).unwrap();
    assert_eq!(r1, r2);
}

#[test]
fn delete_replies() {
    let h = http_client();
    let r = http_request(h.delete_post_request(8));
    assert_eq!(r.method, HttpMethod::Delete);
    assert_eq!(r.url, "http://localhost:3000/api/protected/posts/8");
    assert_eq!(h.finish_delete(Reply::Http(http_reply(204, "", Ok(())))), Ok(()));
    assert_eq!(
        h.finish_delete(Reply::Http(http_reply(200, "", Ok(())))),
        Err(BlogClientError::TransportError("HTTP 200: ".into()))
    );
    assert_eq!(
        h.finish_delete(Reply::Http(http_reply(403, "no", Ok(())))),
        Err(BlogClientError::InvalidRequest("Forbidden: no".into()))
    );
    let g = grpc_client();
    assert_eq!(
        g.finish_delete(Reply::Rpc(Ok(DeletePostResponse { success: true, message: "Post 8 deleted".into() }))),
        Ok(())
    );
    assert_eq!(
        g.finish_delete(Reply::Rpc(Ok(DeletePostResponse { success: false, message: "nope".into() }))),
        Err(BlogClientError::TransportError("nope".into()))
    );
    assert_eq!(
        g.finish_delete(Reply::Rpc(Err(RpcStatus { code: RpcCode::PermissionDenied, message: "Forbidden".into() }))),
        Err(BlogClientError::Forbidden("Forbidden".into()))
    );
}

#[test]
fn reply_from_other_transport_is_refused() {
    let h = http_client();
    let e = h.finish_post(Reply::Rpc(Ok(post(1, "a", "b", 1, "x")))).unwrap_err();
    assert!(matches!(e, BlogClientError::TransportError(_)));
    let g = grpc_client();
    let e = g.finish_delete(Reply::Http(http_reply(204, "", Ok(())))).unwrap_err();
    assert!(matches!(e, BlogClientError::TransportError(_)));
}
