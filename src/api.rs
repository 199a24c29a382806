use vstd::prelude::*;

verus! {

/// Base URL of the production API.
pub open spec fn production_base() -> Seq<char> {
    "https://listen-api.listennotes.com/api/v2"@
}

/// Base URL of the mock API, which needs no key.
pub open spec fn mock_base() -> Seq<char> {
    "https://listen-api-test.listennotes.com/api/v2"@
}

/// API url and key context.
#[derive(Debug)]
pub enum Api {
    /// API context for the production API, with its key.
    Production(String),
    /// API context for the mock API, used for testing.
    Mock,
}

impl Api {
    /// Base URL of this context, as a sequence of characters.
    pub open spec fn base_url(&self) -> Seq<char> {
        match self {
            Api::Production(_) => production_base(),
            Api::Mock => mock_base(),
        }
    }

    /// The key that requests in this context carry, if any.
    pub open spec fn key(&self) -> Option<Seq<char>> {
        match self {
            Api::Production(k) => Some(k@),
            Api::Mock => None,
        }
    }

    /// Base URL of this context.
    pub fn url(&self) -> (r: &'static str)
        ensures
            r@ == self.base_url(),
    {
        match self {
            Api::Production(_) => "https://listen-api.listennotes.com/api/v2",
            Api::Mock => "https://listen-api-test.listennotes.com/api/v2",
        }
    }
}

} // verus!
