use vstd::prelude::*;

use crate::providers::config::{api_key_from_env, spec_api_key, EnvVarError};

verus! {

/// The Brave Search API endpoint.
pub open spec fn brave_base_url() -> Seq<char> {
    "https://api.search.brave.com/res/v1"@
}

/// Credentials and endpoint of the Brave Search API.
#[derive(Debug, Clone)]
pub struct BraveConfig {
    pub api_key: String,
    pub base_url: String,
}

impl BraveConfig {
    /// The configuration given by the value of `BRAVE_API_KEY`.
    pub fn from_env(value: Result<String, EnvVarError>) -> (r: Result<Self, EnvVarError>)
        ensures
            match r {
                Ok(c) => spec_api_key(value) == Ok::<Seq<char>, EnvVarError>(c.api_key@)
                    && c.base_url@ == brave_base_url(),
                Err(e) => spec_api_key(value) == Err::<Seq<char>, EnvVarError>(e),
            },
    {
        let api_key = api_key_from_env(value)?;
        Ok(Self { api_key, base_url: String::from_str("https://api.search.brave.com/res/v1") })
    }
}

} // verus!
