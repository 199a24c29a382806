use vstd::prelude::*;

verus! {

/// Errors that an API call can end in.
#[derive(Debug)]
pub enum ApiError {
    /// Wrong api key or your account is suspended.
    AuthenticationError,
    /// Fail to connect to API servers.
    ApiConnectionError,
    /// Something wrong on your end (client side errors), e.g., missing required parameters.
    InvalidRequestError,
    /// You are using FREE plan and you exceed the quota limit.
    RateLimitError,
    /// Endpoint not exist, or podcast / episode not exist.
    NotFoundError,
    /// Something wrong on our end (unexpected server errors).
    ListenApiError,
    /// Error from http client.
    Reqwest(reqwest::Error),
    /// Error from JSON creation/processing.
    Json(serde_json::Error),
}

/// Fixed description of each kind of error.
pub open spec fn error_message(e: ApiError) -> Seq<char> {
    match e {
        ApiError::AuthenticationError => "Wrong api key or your account is suspended."@,
        ApiError::ApiConnectionError => "Fail to connect to API servers."@,
        ApiError::InvalidRequestError =>
            "Something wrong on your end (client side errors), e.g., missing required parameters."@,
        ApiError::RateLimitError => "You are using FREE plan and you exceed the quota limit."@,
        ApiError::NotFoundError => "Endpoint not exist, or podcast / episode not exist."@,
        ApiError::ListenApiError => "Something wrong on our end (unexpected server errors)."@,
        ApiError::Reqwest(_) => "Error from http client."@,
        ApiError::Json(_) => "Error from JSON creation/processing."@,
    }
}

impl ApiError {
    /// Human-readable description of the error.
    pub fn message(&self) -> (r: &'static str)
        ensures
            r@ == error_message(*self),
    {
        match self {
            ApiError::AuthenticationError => "Wrong api key or your account is suspended.",
            ApiError::ApiConnectionError => "Fail to connect to API servers.",
            ApiError::InvalidRequestError =>
                "Something wrong on your end (client side errors), e.g., missing required parameters.",
            ApiError::RateLimitError => "You are using FREE plan and you exceed the quota limit.",
            ApiError::NotFoundError => "Endpoint not exist, or podcast / episode not exist.",
            ApiError::ListenApiError => "Something wrong on our end (unexpected server errors).",
            ApiError::Reqwest(_) => "Error from http client.",
            ApiError::Json(_) => "Error from JSON creation/processing.",
        }
    }
}

impl From<reqwest::Error> for ApiError {
    fn from(e: reqwest::Error) -> (r: ApiError)
        ensures
            r == ApiError::Reqwest(e),
    {
        ApiError::Reqwest(e)
    }
}

impl vstd::std_specs::convert::FromSpecImpl<reqwest::Error> for ApiError {
    open spec fn obeys_from_spec() -> bool {
        true
    }

    open spec fn from_spec(e: reqwest::Error) -> ApiError {
        ApiError::Reqwest(e)
    }
}

impl From<serde_json::Error> for ApiError {
    fn from(e: serde_json::Error) -> (r: ApiError)
        ensures
            r == ApiError::Json(e),
    {
        ApiError::Json(e)
    }
}

impl vstd::std_specs::convert::FromSpecImpl<serde_json::Error> for ApiError {
    open spec fn obeys_from_spec() -> bool {
        true
    }

    open spec fn from_spec(e: serde_json::Error) -> ApiError {
        ApiError::Json(e)
    }
}

} // verus!
