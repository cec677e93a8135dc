use blog_client::{ApiClient, ErrorResponse, HttpMethod};

#[test]
fn api_client_targets_local_service() {
    let c = ApiClient::new();
    assert_eq!(c.url("/api/posts"), "http://localhost:3000/api/posts");
    let d = ApiClient::default();
    assert_eq!(d.url("/x"), "http://localhost:3000/x");
}

#[test]
fn api_auth_header() {
    assert_eq!(ApiClient::auth_header(Some("abc".to_string())), "Bearer abc");
    assert_eq!(ApiClient::auth_header(None), "");
}

#[test]
fn api_body_rules() {
    assert_eq!(ApiClient::check_body(HttpMethod::Post, true), Ok(()));
    assert_eq!(ApiClient::check_body(HttpMethod::Get, false), Ok(()));
    assert_eq!(
        ApiClient::check_body(HttpMethod::Get, true),
        Err("Method GET cannot have body".to_string())
    );
    assert_eq!(
        ApiClient::check_body(HttpMethod::Delete, true),
        Err("Method DELETE cannot have body".to_string())
    );
}

#[test]
fn api_reads_replies() {
    let ok: Result<i32, String> =
        ApiClient::read_response(200, "5".to_string(), Ok(5), Err("no".to_string()));
    assert_eq!(ok, Ok(5));
    let bad: Result<i32, String> =
        ApiClient::read_response(201, "x".to_string(), Err("eof".to_string()), Err("no".to_string()));
    assert_eq!(bad, Err("Failed to parse response: eof".to_string()));
    let service: Result<i32, String> = ApiClient::read_response(
        401,
        "{}".to_string(),
        Err("no".to_string()),
        Ok(ErrorResponse { error: "Invalid credentials".to_string() }),
    );
    assert_eq!(service, Err("Invalid credentials".to_string()));
    let raw: Result<i32, String> = ApiClient::read_response(
        502,
        "gateway".to_string(),
        Err("no".to_string()),
        Err("no".to_string()),
    );
    assert_eq!(raw, Err("HTTP 502: gateway".to_string()));
}
