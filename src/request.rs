use vstd::prelude::*;

use crate::error::GithubError;
use crate::text::{append, decimal, decimal_string};

verus! {

/// The product name sent in the `User-Agent` header of every request.
pub const USER_AGENT: &'static str = "Github App - Rust";

/// The media type sent in the `Accept` header of every request, asking for
/// the integration preview of the API.
pub const ACCEPT: &'static str = "application/vnd.github.machine-man-preview+json";

/// The host of the REST API.
pub const API_BASE: &'static str = "https://api.github.com";

/// The HTTP methods this library uses.
#[derive(Debug, Clone, Copy, PartialEq, Eq, Structural)]
pub enum Method {
    Get,
    Post,
}

/// How a request proves who makes it.
#[derive(Debug, Clone, Copy, PartialEq, Eq, Structural)]
pub enum Scheme {
    /// As the application, with a signed assertion.
    Bearer,
    /// As an installation, with its access token.
    Token,
}

/// A request ready for the HTTP transport: method, URL, header lines and an
/// optional body.
#[derive(Debug)]
pub struct Request {
    pub method: Method,
    pub url: String,
    pub headers: Vec<String>,
    pub body: Option<Vec<u8>>,
}

pub open spec fn scheme_word(scheme: Scheme) -> Seq<char> {
    match scheme {
        Scheme::Bearer => "Bearer"@,
        Scheme::Token => "token"@,
    }
}

pub open spec fn authorization_line(scheme: Scheme, token: Seq<char>) -> Seq<char> {
    "Authorization: "@ + scheme_word(scheme) + " "@ + token
}

pub open spec fn user_agent_line() -> Seq<char> {
    "User-Agent: "@ + USER_AGENT@
}

pub open spec fn accept_line() -> Seq<char> {
    "Accept: "@ + ACCEPT@
}

/// The header lines of a request authenticated by `token` under `scheme`.
pub open spec fn header_lines(scheme: Scheme, token: Seq<char>) -> Seq<Seq<char>> {
    seq![authorization_line(scheme, token), user_agent_line(), accept_line()]
}

/// The `Authorization` header line for `token` under `scheme`.
pub fn authorization_header(scheme: Scheme, token: &str) -> (r: String)
    ensures
        r@ == authorization_line(scheme, token@),
{
    let mut s = String::new();
    append(&mut s, "Authorization: ");
    match scheme {
        Scheme::Bearer => append(&mut s, "Bearer"),
        Scheme::Token => append(&mut s, "token"),
    }
    append(&mut s, " ");
    append(&mut s, token);
    s
}

/// A request of `method` on `url`, carrying the authorization, user-agent
/// and accept headers, in that order, and `body`.
pub fn authenticated_request(
    method: Method,
    url: &str,
    scheme: Scheme,
    token: &str,
    body: Option<Vec<u8>>,
) -> (r: Request)
    ensures
        r.method == method,
        r.url@ == url@,
        r.headers@.map_values(|h: String| h@) == header_lines(scheme, token@),
        r.body == body,
{
    let mut headers: Vec<String> = Vec::new();
    headers.push(authorization_header(scheme, token));
    let mut agent = String::new();
    append(&mut agent, "User-Agent: ");
    append(&mut agent, USER_AGENT);
    headers.push(agent);
    let mut accept = String::new();
    append(&mut accept, "Accept: ");
    append(&mut accept, ACCEPT);
    headers.push(accept);
    let mut u = String::new();
    append(&mut u, url);
    let r = Request { method, url: u, headers, body };
    assert(r.headers@.map_values(|h: String| h@) =~= header_lines(scheme, token@));
    r
}

/// The body of a response with HTTP status `code`: a status outside 2xx is
/// a transport failure, reported before any attempt to decode the body.
pub fn response_body(code: u32, body: Vec<u8>) -> (r: Result<Vec<u8>, GithubError>)
    ensures
        200 <= code < 300 ==> r == Ok::<Vec<u8>, GithubError>(body),
        !(200 <= code < 300) ==> r == Err::<Vec<u8>, GithubError>(GithubError::TransportError),
{
    if 200 <= code && code < 300 {
        Ok(body)
    } else {
        Err(GithubError::TransportError)
    }
}

/// The URL listing the installations of the application.
pub fn installations_url() -> (r: String)
    ensures
        r@ == API_BASE@ + "/app/installations"@,
{
    let mut s = String::new();
    append(&mut s, API_BASE);
    append(&mut s, "/app/installations");
    s
}

/// The URL of one installation.
pub fn installation_url(installation_id: u64) -> (r: String)
    ensures
        r@ == API_BASE@ + "/app/installations/"@ + decimal(installation_id as nat),
{
    let mut s = String::new();
    append(&mut s, API_BASE);
    append(&mut s, "/app/installations/");
    let id = decimal_string(installation_id);
    append(&mut s, id.as_str());
    s
}

/// The URL of a pull request given as `owner/repo/pulls/number`.
pub fn pull_request_url(pull_request_path: &str) -> (r: String)
    ensures
        r@ == API_BASE@ + "/repos/"@ + pull_request_path@,
{
    let mut s = String::new();
    append(&mut s, API_BASE);
    append(&mut s, "/repos/");
    append(&mut s, pull_request_path);
    s
}

} // verus!
