use vstd::prelude::*;

verus! {

/// The error type of the `reqwest` HTTP client, carried through opaquely.
#[verifier::external_type_specification]
#[verifier::external_body]
pub struct ExReqwestError(reqwest::Error);

/// The error type of `serde_json`, carried through opaquely.
#[verifier::external_type_specification]
#[verifier::external_body]
pub struct ExJsonError(serde_json::Error);

/// The JSON value type of `serde_json`, carried through opaquely.
#[verifier::external_type_specification]
#[verifier::external_body]
pub struct ExValue(serde_json::Value);

/// Whether a transport error was a failure to connect.
pub uninterp spec fn connect_of(e: reqwest::Error) -> bool;

/// Whether a transport error was a timeout.
pub uninterp spec fn timeout_of(e: reqwest::Error) -> bool;

/// Relies on `reqwest::Error::is_connect`: whether the failure was in
/// connecting, found from the error's own source chain alone.
pub assume_specification[ reqwest::Error::is_connect ](err: &reqwest::Error) -> (r: bool)
    ensures
        r == connect_of(*err),
;

/// Relies on `reqwest::Error::is_timeout`: whether the failure was a timeout,
/// found from the error's own source chain alone.
pub assume_specification[ reqwest::Error::is_timeout ](err: &reqwest::Error) -> (r: bool)
    ensures
        r == timeout_of(*err),
;

} // verus!
