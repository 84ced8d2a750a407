//! The way of a request to the service and of the reply back.
//!
//! The host encodes, transmits and decodes. What it is to do next, and what a
//! failure along the way means, is decided here.

use vstd::pervasive::unreached;
use vstd::prelude::*;
use vstd::string::*;

use crate::error::SendError;
use crate::request::Request;
use crate::response::ResponseSummary;
use crate::text::{trim, trim_end_matches};

verus! {

/// The method of an HTTP request.
#[derive(Clone, Copy, Debug, PartialEq, Eq, Structural)]
pub enum HttpMethod {
    Post,
}

/// A header of an HTTP request.
#[derive(Debug, PartialEq, Eq)]
pub struct HttpHeader {
    pub name: String,
    pub value: String,
}

/// An HTTP request that is ready to be made.
#[derive(Debug, PartialEq, Eq)]
pub struct HttpRequest {
    pub method: HttpMethod,
    pub uri: String,
    pub headers: Vec<HttpHeader>,
    pub body: String,
}

/// The address that requests go to: the path `/responses` below the address of
/// the service, whether or not slashes follow that one.
pub open spec fn responses_uri_text(api_url: Seq<char>) -> Seq<char> {
    crate::text::without_trailing(api_url, '/') + "/responses"@
}

/// The credentials of a request: the key, without white space around it.
pub open spec fn authorization_text(api_key: Seq<char>) -> Seq<char> {
    "Bearer "@ + crate::text::trimmed(api_key)
}

impl HttpHeader {
    /// Whether this is the header `name` with the value `value`.
    pub open spec fn says(self, name: Seq<char>, value: Seq<char>) -> bool {
        self.name@ == name && self.value@ == value
    }
}

impl HttpRequest {
    /// Whether this posts `body`, as JSON, to the service at `api_url` with the
    /// credentials of `api_key`, and says nothing else.
    pub open spec fn posts(self, api_url: Seq<char>, api_key: Seq<char>, body: Seq<char>) -> bool {
        &&& self.method == HttpMethod::Post
        &&& self.uri@ == responses_uri_text(api_url)
        &&& self.headers@.len() == 2
        &&& self.headers@[0].says("Content-Type"@, "application/json"@)
        &&& self.headers@[1].says("Authorization"@, authorization_text(api_key))
        &&& self.body@ == body
    }
}

/// Whether an HTTP status stands for success.
pub open spec fn is_success(status: u16) -> bool {
    200 <= status < 300
}

/// The address that requests to the service at `api_url` go to.
pub fn responses_uri(api_url: &str) -> (uri: String)
    ensures
        uri@ == responses_uri_text(api_url@),
{
    trim_end_matches(api_url, '/').to_owned().concat("/responses")
}

/// The credentials of a request with the key `api_key`.
pub fn authorization(api_key: &str) -> (value: String)
    ensures
        value@ == authorization_text(api_key@),
{
    "Bearer ".to_string().concat(trim(api_key))
}

/// The HTTP request that carries `body` to the service.
pub fn responses_http_request(api_url: &str, api_key: &str, body: String) -> (request: HttpRequest)
    ensures
        request.posts(api_url@, api_key@, body@),
{
    HttpRequest {
        method: HttpMethod::Post,
        uri: responses_uri(api_url),
        headers: vec![
            HttpHeader {
                name: "Content-Type".to_string(),
                value: "application/json".to_string(),
            },
            HttpHeader { name: "Authorization".to_string(), value: authorization(api_key) },
        ],
        body,
    }
}

/// How far a request has come.
#[derive(Debug, PartialEq, Eq)]
pub enum SendState {
    /// The request is being encoded.
    Encoding { api_url: String, api_key: String },
    /// The HTTP request is being made up.
    Creating,
    /// The reply is awaited.
    Sending,
    /// The body of a reply with this status is being read.
    Reading { status: u16 },
    /// The body of the reply is being decoded.
    Parsing,
    /// There is nothing left to do.
    Done,
}

/// What the host did. A failure is told in words, each followed by its cause.
#[derive(Debug, PartialEq)]
pub enum SendEvent {
    /// The JSON form of the request.
    Encoded(Result<String, Vec<String>>),
    /// Whether the HTTP request could be made up.
    Created(Result<(), Vec<String>>),
    /// The status of the reply.
    Sent(Result<u16, Vec<String>>),
    /// The body of the reply.
    BodyRead(Result<String, Vec<String>>),
    /// The response that the body holds.
    Parsed(Result<ResponseSummary, Vec<String>>),
}

/// What the host is to do next.
#[derive(Debug, PartialEq)]
pub enum SendAction {
    /// Encode this request as JSON.
    Encode(Request),
    /// Make up this HTTP request.
    Create(HttpRequest),
    /// Make the HTTP request.
    Send,
    /// Read the body of the reply.
    ReadBody,
    /// Decode this body.
    Parse { body: String },
    /// Return this.
    Finish(Result<ResponseSummary, SendError>),
}

impl SendState {
    /// Whether `event` is what the state waits for.
    pub open spec fn awaits(self, event: SendEvent) -> bool {
        match (self, event) {
            (SendState::Encoding { .. }, SendEvent::Encoded(_)) => true,
            (SendState::Creating, SendEvent::Created(_)) => true,
            (SendState::Sending, SendEvent::Sent(_)) => true,
            (SendState::Reading { .. }, SendEvent::BodyRead(_)) => true,
            (SendState::Parsing, SendEvent::Parsed(_)) => true,
            _ => false,
        }
    }

    /// Whether `event` takes this state to `next` and calls for `action`.
    pub open spec fn goes(self, event: SendEvent, next: SendState, action: SendAction) -> bool {
        match (self, event) {
            (SendState::Encoding { api_url, api_key }, SendEvent::Encoded(Ok(body))) => {
                &&& next == SendState::Creating
                &&& action matches SendAction::Create(request)
                &&& request.posts(api_url@, api_key@, body@)
            },
            (SendState::Encoding { .. }, SendEvent::Encoded(Err(causes))) => {
                &&& next == SendState::Done
                &&& action == SendAction::Finish(Err(SendError::Encode { causes }))
            },
            (SendState::Creating, SendEvent::Created(Ok(_))) => {
                &&& next == SendState::Sending
                &&& action == SendAction::Send
            },
            (SendState::Creating, SendEvent::Created(Err(causes))) => {
                &&& next == SendState::Done
                &&& action == SendAction::Finish(Err(SendError::Create { causes }))
            },
            (SendState::Sending, SendEvent::Sent(Ok(status))) => {
                &&& next == SendState::Reading { status }
                &&& action == SendAction::ReadBody
            },
            (SendState::Sending, SendEvent::Sent(Err(causes))) => {
                &&& next == SendState::Done
                &&& action == SendAction::Finish(Err(SendError::Send { causes }))
            },
            (SendState::Reading { status }, SendEvent::BodyRead(Ok(body))) => if is_success(
                status,
            ) {
                &&& next == SendState::Parsing
                &&& action == (SendAction::Parse { body })
            } else {
                &&& next == SendState::Done
                &&& action == SendAction::Finish(Err(SendError::Status { status, body }))
            },
            (SendState::Reading { .. }, SendEvent::BodyRead(Err(causes))) => {
                &&& next == SendState::Done
                &&& action == SendAction::Finish(Err(SendError::ReadBody { causes }))
            },
            (SendState::Parsing, SendEvent::Parsed(Ok(response))) => {
                &&& next == SendState::Done
                &&& action == SendAction::Finish(Ok(response))
            },
            (SendState::Parsing, SendEvent::Parsed(Err(causes))) => {
                &&& next == SendState::Done
                &&& action == SendAction::Finish(Err(SendError::Parse { causes }))
            },
            _ => false,
        }
    }

    /// Whether `event` is what the state waits for.
    pub fn is_awaiting(&self, event: &SendEvent) -> (awaited: bool)
        ensures
            awaited == self.awaits(*event),
    {
        match (self, event) {
            (SendState::Encoding { .. }, SendEvent::Encoded(_)) => true,
            (SendState::Creating, SendEvent::Created(_)) => true,
            (SendState::Sending, SendEvent::Sent(_)) => true,
            (SendState::Reading { .. }, SendEvent::BodyRead(_)) => true,
            (SendState::Parsing, SendEvent::Parsed(_)) => true,
            _ => false,
        }
    }

    /// Takes notice of `event`: the state after it, and what is to be done.
    pub fn step(self, event: SendEvent) -> (result: (SendState, SendAction))
        requires
            self.awaits(event),
        ensures
            self.goes(event, result.0, result.1),
    {
        match (self, event) {
            (SendState::Encoding { api_url, api_key }, SendEvent::Encoded(Ok(body))) => (
                SendState::Creating,
                SendAction::Create(
                    responses_http_request(api_url.as_str(), api_key.as_str(), body),
                ),
            ),
            (SendState::Creating, SendEvent::Created(Ok(_))) => (
                SendState::Sending,
                SendAction::Send,
            ),
            (SendState::Sending, SendEvent::Sent(Ok(status))) => (
                SendState::Reading { status },
                SendAction::ReadBody,
            ),
            (SendState::Reading { status }, SendEvent::BodyRead(Ok(body))) => if 200 <= status
                && status < 300 {
                (SendState::Parsing, SendAction::Parse { body })
            } else {
                (SendState::Done, SendAction::Finish(Err(SendError::Status { status, body })))
            },
            (SendState::Parsing, SendEvent::Parsed(Ok(response))) => (
                SendState::Done,
                SendAction::Finish(Ok(response)),
            ),
            (_, SendEvent::Encoded(Err(causes))) => (
                SendState::Done,
                SendAction::Finish(Err(SendError::Encode { causes })),
            ),
            (_, SendEvent::Created(Err(causes))) => (
                SendState::Done,
                SendAction::Finish(Err(SendError::Create { causes })),
            ),
            (_, SendEvent::Sent(Err(causes))) => (
                SendState::Done,
                SendAction::Finish(Err(SendError::Send { causes })),
            ),
            (_, SendEvent::BodyRead(Err(causes))) => (
                SendState::Done,
                SendAction::Finish(Err(SendError::ReadBody { causes })),
            ),
            (_, SendEvent::Parsed(Err(causes))) => (
                SendState::Done,
                SendAction::Finish(Err(SendError::Parse { causes })),
            ),
            _ => unreached(),
        }
    }
}

/// Begins to send `request` to the service at `api_url` with the key `api_key`:
/// the state that its way starts in, and what is to be done.
pub fn send_responses_request(api_url: String, api_key: String, request: Request) -> (result: (
    SendState,
    SendAction,
))
    ensures
        result.0 == (SendState::Encoding { api_url, api_key }),
        result.1 == SendAction::Encode(request),
{
    (SendState::Encoding { api_url, api_key }, SendAction::Encode(request))
}

} // verus!
