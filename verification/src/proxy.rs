//! The proxy client: where a request goes and what becomes of an exchange.
//!
//! The client makes one attempt per command. It never retries, and it never
//! raises an error: whatever the exchange did is reported in the envelope.

use vstd::prelude::*;
use crate::envelope::ApiResponse;
use crate::json::{json_view, parse, parsed_json};

verus! {

/// Address of the backend that every request is sent to.
pub const BACKEND_BASE: &'static str = "http://localhost:3001";

/// Error text of an exchange whose body is not what the command expects.
pub const DECODE_FAILURE: &'static str = "error decoding response body";

/// The request methods that the commands use.
#[derive(Debug, Clone, Copy, PartialEq, Eq)]
pub enum HttpMethod {
    Get,
    Post,
}

/// One request to the backend, as a command wants it sent.
///
/// `path` is put behind [`BACKEND_BASE`] letter for letter: nothing in it is
/// escaped or checked. `body`, if present, is sent as JSON.
#[derive(Debug, PartialEq)]
pub struct ProxyRequest {
    pub method: HttpMethod,
    pub path: String,
    pub body: Option<serde_json::Value>,
}

/// The address that a request for `path` is sent to.
pub open spec fn backend_url(path: Seq<char>) -> Seq<char> {
    BACKEND_BASE@ + path
}

impl ProxyRequest {
    /// This is a `GET` request for `path`, without a body.
    pub open spec fn is_get(&self, path: Seq<char>) -> bool {
        &&& self.method == HttpMethod::Get
        &&& self.path@ == path
        &&& self.body is None
    }

    /// A `GET` request for `path`.
    pub fn get(path: String) -> (request: Self)
        ensures
            request.is_get(path@),
    {
        ProxyRequest { method: HttpMethod::Get, path, body: None }
    }

    /// A `POST` request for `path` that carries `body` as JSON.
    pub fn post(path: String, body: serde_json::Value) -> (request: Self)
        ensures
            request.method == HttpMethod::Post,
            request.path@ == path@,
            request.body == Some(body),
    {
        ProxyRequest { method: HttpMethod::Post, path, body: Some(body) }
    }

    /// The address to send this request to.
    pub fn url(&self) -> (url: String)
        ensures
            url@ == backend_url(self.path@),
    {
        let mut url = String::from_str(BACKEND_BASE);
        url.append(self.path.as_str());
        url
    }
}

/// Reads the body of a response as JSON.
///
/// Returns the value that the bytes hold, or `None` where they are not one
/// JSON text.
pub fn parse_body(body: &Vec<u8>) -> (value: Option<serde_json::Value>)
    ensures
        match value {
            Some(parsed) => parsed_json(body@) == Some(json_view(parsed)),
            None => parsed_json(body@) is None,
        },
{
    match parse(body.as_slice()) {
        Ok(parsed) => Some(parsed),
        Err(_) => None,
    }
}

/// Reports what became of an exchange.
///
/// `outcome` is `Err` with the transport's error text where the exchange
/// itself failed, `Ok(None)` where a body arrived that is not what the
/// command expects, and `Ok(Some(..))` with the decoded payload otherwise.
/// A body that cannot be decoded is reported like a failed transport, with
/// [`DECODE_FAILURE`] as its text.
pub fn settle<T>(outcome: Result<Option<T>, String>) -> (envelope: ApiResponse<T>)
    ensures
        envelope.well_formed(),
        match outcome {
            Err(message) => envelope.failed_with(message@),
            Ok(None) => envelope.failed_with(DECODE_FAILURE@),
            Ok(Some(payload)) => envelope.succeeded_with(payload),
        },
{
    match outcome {
        Err(message) => ApiResponse::fail(message),
        Ok(None) => ApiResponse::fail(String::from_str(DECODE_FAILURE)),
        Ok(Some(payload)) => ApiResponse::ok(payload),
    }
}

/// The text of a decode failure is not empty.
pub proof fn lemma_decode_failure_has_text()
    ensures
        DECODE_FAILURE@.len() > 0,
{
    reveal_strlit("error decoding response body");
}

} // verus!
