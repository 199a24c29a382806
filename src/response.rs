use vstd::prelude::*;

use crate::error::ApiError;
use crate::outside::{connect_of, timeout_of};
use crate::request::Request;

verus! {

/// What the transport reported for a request that was sent.
pub enum Outcome {
    /// A response arrived, with its status code, its headers, and its body or
    /// the error met in reading it.
    Received {
        status: u16,
        headers: Vec<(String, String)>,
        body: Result<Vec<u8>, reqwest::Error>,
    },
    /// The transport failed before a response arrived.
    Failed(reqwest::Error),
}

/// The error that a response status stands for, if any. Statuses not listed
/// here, success among them, are left to the caller.
pub open spec fn status_error(status: u16) -> Option<ApiError> {
    if status == 401 {
        Some(ApiError::AuthenticationError)
    } else if status == 404 {
        Some(ApiError::NotFoundError)
    } else if status == 400 {
        Some(ApiError::InvalidRequestError)
    } else if status == 429 {
        Some(ApiError::RateLimitError)
    } else if status == 500 {
        Some(ApiError::ListenApiError)
    } else {
        None
    }
}

/// Each typed status error comes from exactly one status: 401, 404, 400, 429
/// and 500; a 200 response is no error.
pub proof fn status_classification(status: u16)
    ensures
        status_error(status) == Some(ApiError::AuthenticationError) <==> status == 401,
        status_error(status) == Some(ApiError::NotFoundError) <==> status == 404,
        status_error(status) == Some(ApiError::InvalidRequestError) <==> status == 400,
        status_error(status) == Some(ApiError::RateLimitError) <==> status == 429,
        status_error(status) == Some(ApiError::ListenApiError) <==> status == 500,
        status == 200 ==> status_error(status) is None,
{
}

/// The error that a response status stands for, if any.
pub fn classify_status(status: u16) -> (r: Option<ApiError>)
    ensures
        r == status_error(status),
{
    if status == 401 {
        Some(ApiError::AuthenticationError)
    } else if status == 404 {
        Some(ApiError::NotFoundError)
    } else if status == 400 {
        Some(ApiError::InvalidRequestError)
    } else if status == 429 {
        Some(ApiError::RateLimitError)
    } else if status == 500 {
        Some(ApiError::ListenApiError)
    } else {
        None
    }
}

/// The error for a transport failure, given whether it was a connect failure
/// and whether it was a timeout.
pub fn failure_error(connect: bool, timeout: bool, e: reqwest::Error) -> (r: ApiError)
    ensures
        connect || timeout ==> r is ApiConnectionError,
        !(connect || timeout) ==> r == ApiError::Reqwest(e),
{
    if connect || timeout {
        ApiError::ApiConnectionError
    } else {
        ApiError::Reqwest(e)
    }
}

/// The error for a transport failure: a connection error for a failed connect
/// or a timeout, the transport's own error otherwise.
pub fn classify_failure(e: reqwest::Error) -> (r: ApiError)
    ensures
        connect_of(e) || timeout_of(e) ==> r is ApiConnectionError,
        !(connect_of(e) || timeout_of(e)) ==> r == ApiError::Reqwest(e),
{
    let connect = e.is_connect();
    let timeout = e.is_timeout();
    failure_error(connect, timeout, e)
}

/// A response that no status error was found in, with the request that
/// produced it.
#[derive(Debug)]
pub struct Response {
    /// HTTP status code.
    pub status: u16,
    /// Response header names and values, in the order they arrived.
    pub headers: Vec<(String, String)>,
    /// Response body.
    pub body: Vec<u8>,
    /// The request that resulted in this response, exactly as it was sent.
    pub request: Request,
}

/// Whether the bytes parse as a JSON document.
pub uninterp spec fn json_parses(bytes: Seq<u8>) -> bool;

/// Relies on `serde_json::from_slice`: whether it succeeds depends on the bytes alone.
#[verifier::external_body]
fn parse_json(bytes: &[u8]) -> (r: Result<serde_json::Value, serde_json::Error>)
    ensures
        r is Ok <==> json_parses(bytes@),
{
    serde_json::from_slice(bytes)
}

impl Response {
    /// The body parsed as JSON.
    pub fn json(&self) -> (r: Result<serde_json::Value, ApiError>)
        ensures
            r is Ok <==> json_parses(self.body@),
            r is Err ==> r->Err_0 is Json,
    {
        match parse_json(self.body.as_slice()) {
            Ok(v) => Ok(v),
            Err(e) => Err(ApiError::Json(e)),
        }
    }
}

/// Classifies what the transport reported for `request`. A status with a
/// typed error gives that error, whether or not the body could be read. Any
/// other response is a success that keeps the status, the headers, the body
/// and the request, unless reading the body failed. A transport failure is a
/// connection error for a failed connect or a timeout, and the transport's
/// own error otherwise.
pub fn finish(request: Request, outcome: Outcome) -> (r: Result<Response, ApiError>)
    ensures
        match outcome {
            Outcome::Received { status, headers, body } => match status_error(status) {
                Some(err) => r == Err::<Response, ApiError>(err),
                None => match body {
                    Ok(b) => r is Ok && r->Ok_0.status == status && r->Ok_0.headers == headers
                        && r->Ok_0.body@ == b@ && r->Ok_0.request == request,
                    Err(e) => r == Err::<Response, ApiError>(ApiError::Reqwest(e)),
                },
            },
            Outcome::Failed(e) => {
                &&& connect_of(e) || timeout_of(e) ==> r == Err::<Response, ApiError>(
                    ApiError::ApiConnectionError,
                )
                &&& !(connect_of(e) || timeout_of(e)) ==> r == Err::<Response, ApiError>(
                    ApiError::Reqwest(e),
                )
            },
        },
{
    match outcome {
        Outcome::Received { status, headers, body } => match classify_status(status) {
            Some(err) => Err(err),
            None => match body {
                Ok(body) => Ok(Response { status, headers, body, request }),
                Err(e) => Err(ApiError::Reqwest(e)),
            },
        },
        Outcome::Failed(e) => Err(classify_failure(e)),
    }
}

} // verus!
