use vstd::prelude::*;

verus! {

/// Why a provider search failed.
#[derive(Debug, Clone, PartialEq, Eq)]
pub enum SearchError {
    InvalidQuery(String),
    Config(String),
    Auth,
    RateLimited,
    Transport(String),
    Decode(String),
    Provider(String),
}

impl SearchError {
    /// The human-readable message of the error.
    pub open spec fn message(&self) -> Seq<char> {
        match self {
            SearchError::InvalidQuery(s) => "invalid query: "@ + s@,
            SearchError::Config(s) => "provider configuration error: "@ + s@,
            SearchError::Auth => "authentication failed"@,
            SearchError::RateLimited => "rate limited"@,
            SearchError::Transport(s) => "transport error: "@ + s@,
            SearchError::Decode(s) => "provider returned invalid data: "@ + s@,
            SearchError::Provider(s) => "provider error: "@ + s@,
        }
    }

    /// The human-readable message of the error.
    #[allow(clippy::inherent_to_string)]
    pub fn to_string(&self) -> (r: String)
        ensures
            r@ == self.message(),
    {
        match self {
            SearchError::InvalidQuery(s) => crate::text::cat("invalid query: ", s.as_str()),
            SearchError::Config(s) => crate::text::cat("provider configuration error: ", s.as_str()),
            SearchError::Auth => String::from_str("authentication failed"),
            SearchError::RateLimited => String::from_str("rate limited"),
            SearchError::Transport(s) => crate::text::cat("transport error: ", s.as_str()),
            SearchError::Decode(s) => crate::text::cat(
                "provider returned invalid data: ",
                s.as_str(),
            ),
            SearchError::Provider(s) => crate::text::cat("provider error: ", s.as_str()),
        }
    }
}

} // verus!
