//! Typed client library for the Listen Notes podcast API: endpoint context,
//! parameter encoding, request construction and outcome classification.

pub mod api;
pub mod client;
pub mod error;
pub mod outside;
pub mod params;
pub mod request;
pub mod response;

pub use api::Api;
pub use client::Client;
pub use error::ApiError;
pub use params::{decimal_text, Params, Scalar};
pub use request::{Method, Request};
pub use response::{classify_failure, classify_status, failure_error, finish, Outcome, Response};
