//! The requests that the library asks its caller to send, and the replies
//! that the caller hands back.

use crate::error::ApiError;
use vstd::prelude::*;

verus! {

/// The HTTP method of a request.
#[derive(Debug, Clone, Copy, PartialEq, Eq, Structural)]
pub enum Method {
    Get,
    Post,
    Delete,
}

/// One request to the service. The body, where there is one, is a JSON
/// object written out as text.
#[derive(Debug, Clone, PartialEq, Eq)]
pub struct Request {
    pub method: Method,
    pub url: String,
    pub body: Option<String>,
}

/// A request as plain values.
pub struct RequestView {
    pub method: Method,
    pub url: Seq<char>,
    pub body: Option<Seq<char>>,
}

impl View for Request {
    type V = RequestView;

    open spec fn view(&self) -> RequestView {
        RequestView {
            method: self.method,
            url: self.url@,
            body: match self.body {
                Some(text) => Some(text@),
                None => None,
            },
        }
    }
}

/// What came back for a request: an answer with its status code and body,
/// or nothing because the request failed in transit.
#[derive(Debug, Clone, PartialEq, Eq)]
pub enum Reply {
    Status { code: u16, body: String },
    Failed { detail: String },
}

/// A status code stands for success when it lies in 200..=299.
pub open spec fn success_status(code: u16) -> bool {
    200 <= code <= 299
}

/// Whether a reply reports success: an answer with a success status.
pub open spec fn accepted(reply: Reply) -> bool {
    match reply {
        Reply::Status { code, .. } => success_status(code),
        Reply::Failed { .. } => false,
    }
}

/// The detail that a reply without success gives of its failure: the body
/// of the answer, or what is known of the failure in transit.
pub open spec fn failure_detail(reply: Reply) -> Seq<char> {
    match reply {
        Reply::Status { body, .. } => body@,
        Reply::Failed { detail } => detail@,
    }
}

impl Reply {
    /// Whether the reply reports success.
    pub fn is_success(&self) -> (r: bool)
        ensures
            r == accepted(*self),
    {
        match self {
            Reply::Status { code, .. } => 200 <= *code && *code <= 299,
            Reply::Failed { .. } => false,
        }
    }

    /// The verdict on one attempt to place or remove an object: success,
    /// or a failure that is worth another attempt.
    pub fn verdict(&self) -> (r: Result<(), ApiError>)
        ensures
            r == if accepted(*self) {
                Ok::<(), ApiError>(())
            } else {
                Err::<(), ApiError>(ApiError::TransientTransport)
            },
    {
        if self.is_success() {
            Ok(())
        } else {
            Err(ApiError::TransientTransport)
        }
    }
}

} // verus!
