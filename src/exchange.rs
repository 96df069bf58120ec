use vstd::prelude::*;

use crate::json::Json;

verus! {

/// Why an operation against the provider failed.
#[derive(Debug, PartialEq, Eq, Structural, Clone, Copy)]
pub enum ApiError {
    /// A resource client was asked for before a token was obtained.
    NotAuthenticated,
    /// The identity request could not be sent or its answer not received.
    AuthTransportError,
    /// The identity answer is not JSON or holds no `access.token.id` string.
    AuthResponseError,
    /// A compute request could not be sent or its answer not received.
    TransportError,
    /// A listing is not JSON, or lacks its array under the expected key.
    DecodeError,
    /// An element of a listing does not have the expected shape.
    PartialDecodeError,
    /// The service answered a request with a status other than success.
    RequestRejected,
}

/// The HTTP method of a request.
#[derive(Debug, PartialEq, Eq, Structural, Clone, Copy)]
pub enum Method {
    Get,
    Post,
}

/// A request to send: the caller performs it and hands back a `Reply`.
#[derive(Debug)]
pub struct ApiRequest {
    pub method: Method,
    pub url: String,
    /// The bearer token, sent in the `X-Auth-Token` header.
    pub token: Option<String>,
    /// The JSON body, if any.
    pub body: Option<Json>,
}

/// What came back for a request.
#[derive(Debug)]
pub enum Reply {
    /// The request could not be sent, or no answer was received.
    Unreachable,
    /// The service answered; `body` is `None` where the body is not JSON.
    Answered { status: u16, body: Option<Json> },
}

/// A success status, in the range 200 to 299.
pub open spec fn is_success(status: u16) -> bool {
    200 <= status <= 299
}

} // verus!
