//! One API call: where it goes, what it carries, and what its answer means.

use crate::error::Error;
use crate::error::RequestFailure;
use crate::github_api::token::AccessToken;
use vstd::prelude::*;
use vstd::string::StringExecFns;

verus! {

/// The HTTP methods the client offers.
#[derive(Debug, Clone, Copy, PartialEq, Eq)]
pub enum Method {
    Delete,
    Get,
    Head,
    Patch,
    Post,
    Put,
}

/// The media type of the stable, versioned REST API, asked for on every call.
pub const ACCEPT_MEDIA_TYPE: &'static str = "application/vnd.github.v3+json";

/// How the client names itself to the server.
pub const USER_AGENT: &'static str = "github_app_client/0.1.0";

/// The status with which the server rejects a credential.
pub const UNAUTHORIZED: u16 = 401;

/// The URL that `endpoint` resolves to against the base URL `base`, where
/// both parse.
pub uninterp spec fn joined_url(base: Seq<char>, endpoint: Seq<char>) -> Option<Seq<char>>;

/// The text that stands for `bytes` read as UTF-8, with each malformed
/// sequence replaced by U+FFFD.
pub uninterp spec fn utf8_lossy(bytes: Seq<u8>) -> Seq<char>;

/// Calls `url::Url::parse` on `base` and `url::Url::join` with `endpoint`,
/// and hands back the serialization of the result. The contract only names
/// it; there is none where either call reports a parse error.
#[verifier::external_body]
fn join_url(base: &str, endpoint: &str) -> (url: Option<String>)
    ensures
        match url {
            Some(text) => joined_url(base@, endpoint@) == Some(text@),
            None => joined_url(base@, endpoint@) is None,
        },
{
    url::Url::parse(base).ok()?.join(endpoint).ok().map(String::from)
}

/// Calls `String::from_utf8_lossy`.
#[verifier::external_body]
fn lossy_text(bytes: &[u8]) -> (text: String)
    ensures
        text@ == utf8_lossy(bytes@),
{
    String::from_utf8_lossy(bytes).into_owned()
}

/// Everything of a request but its body.
#[derive(Debug, PartialEq, Eq)]
pub struct RequestHead {
    pub method: Method,
    pub url: String,
    /// The value of the `Authorization` header.
    pub authorization: String,
    /// The value of the `Accept` header.
    pub accept: String,
    /// The value of the `User-Agent` header.
    pub user_agent: String,
}

/// The `Authorization` header value that presents `token`.
pub open spec fn bearer_header(token: Seq<char>) -> Seq<char> {
    "Bearer "@ + token
}

/// Whether `head` is the request head for `method`, `url` and `token`.
pub open spec fn is_head_for(
    head: RequestHead,
    method: Method,
    url: Seq<char>,
    token: Seq<char>,
) -> bool {
    &&& head.method == method
    &&& head.url@ == url
    &&& head.authorization@ == bearer_header(token)
    &&& head.accept@ == ACCEPT_MEDIA_TYPE@
    &&& head.user_agent@ == USER_AGENT@
}

impl RequestHead {
    /// The head of a call to `url` that presents `token`.
    pub fn new(method: Method, url: String, token: &AccessToken) -> (head: RequestHead)
        ensures
            is_head_for(head, method, url@, token@),
    {
        RequestHead {
            method,
            url,
            authorization: String::from_str("Bearer ").concat(token.as_str()),
            accept: String::from_str(ACCEPT_MEDIA_TYPE),
            user_agent: String::from_str(USER_AGENT),
        }
    }
}

/// Builds the head of a call to `endpoint`, a path relative to `base_url`,
/// authenticated with `token`.
pub fn prepare(base_url: &str, method: Method, endpoint: &str, token: &AccessToken) -> (result:
    Result<RequestHead, Error>)
    ensures
        match joined_url(base_url@, endpoint@) {
            Some(url) => match result {
                Ok(head) => is_head_for(head, method, url, token@),
                Err(_) => false,
            },
            None => result == Err::<RequestHead, Error>(Error::ParseUrl),
        },
{
    match join_url(base_url, endpoint) {
        Some(url) => Ok(RequestHead::new(method, url, token)),
        None => Err(Error::ParseUrl),
    }
}

/// What the transport hands back: the status, the final URL and the
/// untouched body.
#[derive(Debug, PartialEq, Eq)]
pub struct RawResponse {
    pub status: u16,
    pub url: String,
    pub body: Vec<u8>,
}

/// The statuses by which the server blames the request.
pub open spec fn is_client_error(status: u16) -> bool {
    400 <= status < 500
}

/// The statuses by which the server blames itself.
pub open spec fn is_server_error(status: u16) -> bool {
    500 <= status < 600
}

/// The bytes to decode: the body, or an empty JSON object where the server
/// sent none.
pub open spec fn decodable_body(body: Seq<u8>) -> Seq<u8> {
    if body.len() == 0 {
        seq![0x7bu8, 0x7du8]
    } else {
        body
    }
}

/// Whether `result` is what a response with this status, URL and body
/// resolves to: a client error with all three for a 4xx status, a server
/// error for a 5xx status, and the bytes to decode otherwise.
pub open spec fn classified(
    status: u16,
    url: Seq<char>,
    body: Seq<u8>,
    result: Result<Vec<u8>, Error>,
) -> bool {
    if is_client_error(status) {
        match result {
            Err(Error::ReceivedGitHubApiClientError { status_code, url: reported, response_body }) => {
                &&& status_code == status
                &&& reported@ == url
                &&& response_body@ == utf8_lossy(body)
            },
            _ => false,
        }
    } else if is_server_error(status) {
        result == Err::<Vec<u8>, Error>(
            Error::MakeGitHubApiRequest(RequestFailure::ServerError { status_code: status }),
        )
    } else {
        match result {
            Ok(bytes) => bytes@ == decodable_body(body),
            Err(_) => false,
        }
    }
}

/// Resolves a response to the bytes to decode or to the error it stands for.
pub fn classify(response: RawResponse) -> (result: Result<Vec<u8>, Error>)
    ensures
        classified(response.status, response.url@, response.body@, result),
{
    let RawResponse { status, url, body } = response;
    if 400 <= status && status < 500 {
        let response_body = lossy_text(body.as_slice());
        Err(Error::ReceivedGitHubApiClientError { status_code: status, url, response_body })
    } else if 500 <= status && status < 600 {
        Err(Error::MakeGitHubApiRequest(RequestFailure::ServerError { status_code: status }))
    } else if body.len() == 0 {
        let mut empty_object: Vec<u8> = Vec::new();
        empty_object.push(0x7bu8);
        empty_object.push(0x7du8);
        assert(empty_object@ =~= decodable_body(body@));
        Ok(empty_object)
    } else {
        Ok(body)
    }
}

} // verus!
