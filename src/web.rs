use vstd::prelude::*;

use crate::http::{bearer, bearer_text, HttpMethod};
use crate::models::ErrorResponse;
use crate::text::{append_int_text, int_text};

verus! {

/// The HTTP client of the browser front end: requests go to one base
/// address, with the stored token attached where a call needs it.
#[derive(Debug)]
pub struct ApiClient {
    base_url: String,
}

/// The `Authorization` value for a stored token: empty when none is stored.
pub open spec fn auth_header_for(token: Option<Seq<char>>) -> Seq<char> {
    match token {
        Some(t) => bearer(t),
        None => Seq::empty(),
    }
}

/// What a reply of the front end's requests turns into: the decoded payload
/// for a status in `200..300`; otherwise the service's own error text when
/// the body holds one, else the status and the body.
pub open spec fn api_outcome<T>(
    status: u16,
    text: Seq<char>,
    decoded: Result<T, String>,
    error_body: Result<ErrorResponse, String>,
) -> Result<T, Seq<char>> {
    if 200 <= status < 300 {
        match decoded {
            Ok(v) => Ok(v),
            Err(m) => Err("Failed to parse response: "@ + m@),
        }
    } else {
        match error_body {
            Ok(e) => Err(e.error@),
            Err(_) => Err("HTTP "@ + int_text(status as int) + ": "@ + text),
        }
    }
}

impl ApiClient {
    /// The base address requests go to.
    pub closed spec fn base_url_view(&self) -> Seq<char> {
        self.base_url@
    }

    /// A client for the service on the local machine.
    pub fn new() -> (r: ApiClient)
        ensures
            r.base_url_view() == "http://localhost:3000"@,
    {
        ApiClient { base_url: String::from_str("http://localhost:3000") }
    }

    /// The `Authorization` value for the stored token, empty when none is stored.
    pub fn auth_header(token: Option<String>) -> (r: String)
        ensures
            r@ == auth_header_for(token.deep_view()),
    {
        match token {
            Some(t) => bearer_text(&t),
            None => String::new(),
        }
    }

    /// The address of `path`: the base address followed by the path.
    pub fn url(&self, path: &str) -> (r: String)
        ensures
            r@ == self.base_url_view() + path@,
    {
        self.base_url.clone().concat(path)
    }

    /// Checks that a request may carry a body: reads and deletes may not.
    pub fn check_body(method: HttpMethod, has_body: bool) -> (r: Result<(), String>)
        ensures
            r is Ok <==> !(has_body && (method == HttpMethod::Get || method == HttpMethod::Delete)),
            r matches Err(m) ==> m@ == "Method "@ + (if method == HttpMethod::Get {
                "GET"@
            } else {
                "DELETE"@
            }) + " cannot have body"@,
    {
        if has_body {
            match method {
                HttpMethod::Get => {
                    return Err(String::from_str("Method ").concat("GET").concat(" cannot have body"));
                },
                HttpMethod::Delete => {
                    return Err(String::from_str("Method ").concat("DELETE").concat(" cannot have body"));
                },
                _ => {},
            }
        }
        Ok(())
    }

    /// Reads a reply: `text` is its body, `decoded` the body read as the
    /// expected payload, `error_body` the body read as an error reply.
    pub fn read_response<T>(
        status: u16,
        text: String,
        decoded: Result<T, String>,
        error_body: Result<ErrorResponse, String>,
    ) -> (r: Result<T, String>)
        ensures
            match r {
                Ok(v) => api_outcome(status, text@, decoded, error_body) == Ok::<T, Seq<char>>(v),
                Err(m) => api_outcome(status, text@, decoded, error_body) == Err::<T, Seq<char>>(m@),
            },
    {
        if 200 <= status && status < 300 {
            match decoded {
                Ok(v) => Ok(v),
                Err(m) => Err(String::from_str("Failed to parse response: ").concat(m.as_str())),
            }
        } else {
            match error_body {
                Ok(e) => Err(e.error),
                Err(_) => {
                    let mut m = String::from_str("HTTP ");
                    append_int_text(&mut m, status as i64);
                    m.append(": ");
                    m.append(text.as_str());
                    Err(m)
                },
            }
        }
    }
}

impl Default for ApiClient {
    fn default() -> (r: ApiClient)
        ensures
            r.base_url_view() == "http://localhost:3000"@,
    {
        ApiClient::new()
    }
}

} // verus!
