//! The transport: a client's configuration, the framing of each call, and
//! the reading of what came back.
use vstd::prelude::*;

use crate::error::SDKError;
use crate::json::{json_member, json_text, member, null_value, parse, parse_json, to_text};
use crate::url::{join_segments, joined, trim_end_slashes, trim_trailing_slashes};

verus! {

/// The service origin used when no base URL is given.
pub const DEFAULT_BASE_URL: &'static str = "https://api.rigby.host";

/// The request timeout, in seconds, that a new client starts with.
pub const REQUEST_TIMEOUT_SECS: u64 = 30;

/// The message of the error returned for an empty path.
pub const PATH_REQUIRED: &'static str = "path is required";

/// What a client is configured with.
pub struct ClientView {
    pub base_url: Seq<char>,
    pub token: Seq<char>,
    pub timeout_secs: u64,
}

/// The transport's configuration: base URL, bearer token and request timeout.
/// It is fixed once built, and every request that it frames carries the token.
#[derive(Clone)]
pub struct Client {
    base_url: String,
    token: String,
    timeout_secs: u64,
}

impl View for Client {
    type V = ClientView;

    closed spec fn view(&self) -> ClientView {
        ClientView { base_url: self.base_url@, token: self.token@, timeout_secs: self.timeout_secs }
    }
}

/// One outbound call, ready to be sent as an HTTP POST with the header
/// `Authorization: <authorization>` and the JSON text `body`.
pub struct Request {
    pub url: String,
    pub authorization: String,
    pub body: String,
}

/// What came back over HTTP: the status code and the full response text.
pub struct Response {
    pub status: u16,
    pub body: String,
}

/// The URL of a call: the base URL without trailing slashes, then `/` and
/// the joined path.
pub open spec fn request_url(base_url: Seq<char>, path: Seq<&str>) -> Seq<char> {
    trim_trailing_slashes(base_url) + "/"@ + joined(path)
}

/// The value of the `Authorization` header for a token.
pub open spec fn bearer(token: Seq<char>) -> Seq<char> {
    "Bearer "@ + token
}

/// The request body: the payload's text under the `json` key.
pub open spec fn envelope_text(payload: Seq<char>) -> Seq<char> {
    "{\"json\":"@ + payload + "}"@
}

/// The payload's JSON text; an absent payload is sent as `null`.
pub open spec fn payload_text(data: Option<serde_json::Value>) -> Seq<char> {
    match data {
        Some(v) => json_text(v),
        None => "null"@,
    }
}

/// A trailing `/` on the base URL does not change the URL of any call.
pub proof fn lemma_trailing_slash_ignored(base_url: Seq<char>, path: Seq<&str>)
    ensures
        request_url(base_url.push('/'), path) == request_url(base_url, path),
{
    assert(base_url.push('/').drop_last() =~= base_url);
}

impl Client {
    /// A client for `token`, at `base_url` or else at the default origin, with
    /// the default timeout.
    pub fn new(token: String, base_url: Option<String>) -> (r: Client)
        ensures
            r@.token == token@,
            r@.base_url == (match base_url {
                Some(b) => b@,
                None => DEFAULT_BASE_URL@,
            }),
            r@.timeout_secs == REQUEST_TIMEOUT_SECS,
    {
        let base_url = match base_url {
            Some(b) => b,
            None => String::from_str(DEFAULT_BASE_URL),
        };
        Client { base_url, token, timeout_secs: REQUEST_TIMEOUT_SECS }
    }

    /// The same client with another request timeout.
    pub fn with_timeout(self, timeout_secs: u64) -> (r: Client)
        ensures
            r@ == (ClientView { timeout_secs, ..self@ }),
    {
        Client { timeout_secs, ..self }
    }

    /// The request timeout, in seconds.
    pub fn timeout_secs(&self) -> (r: u64)
        ensures
            r == self@.timeout_secs,
    {
        self.timeout_secs
    }

    /// Frames the call of `path` with `data`. An empty path is refused before
    /// anything is sent; any other path gives the request to POST.
    pub fn request(&self, path: &[&str], data: Option<serde_json::Value>) -> (r: Result<Request, SDKError>)
        ensures
            path@.len() == 0 <==> r is Err,
            r matches Err(e) ==> e.status is None && e.body@ == PATH_REQUIRED@,
            r matches Ok(req) ==> {
                &&& req.url@ == request_url(self@.base_url, path@)
                &&& req.authorization@ == bearer(self@.token)
                &&& req.body@ == envelope_text(payload_text(data))
            },
    {
        if path.len() == 0 {
            return Err(SDKError { status: None, body: String::from_str(PATH_REQUIRED) });
        }
        let mut url = trim_end_slashes(self.base_url.as_str());
        url.append("/");
        let joined_path = join_segments(path);
        url.append(joined_path.as_str());

        let mut authorization = String::from_str("Bearer ");
        authorization.append(self.token.as_str());

        let payload = match &data {
            Some(v) => to_text(v),
            None => String::from_str("null"),
        };
        let mut body = String::from_str("{\"json\":");
        body.append(payload.as_str());
        body.append("}");
        Ok(Request { url, authorization, body })
    }
}

/// Whether an HTTP status is a success (2xx).
pub open spec fn is_success(status: u16) -> bool {
    200 <= status <= 299
}

/// A parsed success body: the member under `json` where there is one, else
/// the whole document.
pub open spec fn unwrapped(doc: serde_json::Value) -> serde_json::Value {
    match json_member(doc, "json"@) {
        Some(inner) => inner,
        None => doc,
    }
}

/// What a call returns once a success body of text `body` was parsed to
/// `doc`: the unwrapped document, or, where the body was not JSON, an error
/// with status 200 that keeps the raw text.
pub fn settle(doc: Option<serde_json::Value>, body: String) -> (r: Result<serde_json::Value, SDKError>)
    ensures
        match doc {
            None => r matches Err(e) && e.status == Some(200u16) && e.body == body,
            Some(d) => r matches Ok(v) && v == unwrapped(d),
        },
{
    match doc {
        Some(d) => match member(&d, "json") {
            Some(inner) => Ok(inner),
            None => Ok(d),
        },
        None => Err(SDKError { status: Some(200), body }),
    }
}

/// What a call returns for the outcome of its exchange: `Err(description)`
/// where the transport failed, else the response that came back.
pub fn interpret(outcome: Result<Response, String>) -> (r: Result<serde_json::Value, SDKError>)
    ensures
        match outcome {
            Err(d) => r matches Err(e) && e.status is None && e.body == d,
            Ok(resp) => if !is_success(resp.status) {
                r matches Err(e) && e.status == Some(resp.status) && e.body == resp.body
            } else if resp.body@.len() == 0 {
                r matches Ok(v) && parse_json("null"@) == Some(v)
            } else {
                match parse_json(resp.body@) {
                    None => r matches Err(e) && e.status == Some(200u16) && e.body == resp.body,
                    Some(doc) => r matches Ok(v) && v == unwrapped(doc),
                }
            },
        },
{
    match outcome {
        Err(description) => Err(SDKError { status: None, body: description }),
        Ok(resp) => {
            if resp.status < 200 || resp.status > 299 {
                return Err(SDKError { status: Some(resp.status), body: resp.body });
            }
            if resp.body.as_str().is_empty() {
                return Ok(null_value());
            }
            let doc = parse(resp.body.as_str());
            settle(doc, resp.body)
        },
    }
}

} // verus!
