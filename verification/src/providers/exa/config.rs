use vstd::prelude::*;

use crate::providers::config::{api_key_from_env, spec_api_key, EnvVarError};

verus! {

/// The Exa API endpoint.
pub open spec fn exa_base_url() -> Seq<char> {
    "https://api.exa.ai"@
}

/// Credentials and endpoint of the Exa API.
#[derive(Debug, Clone)]
pub struct ExaConfig {
    pub api_key: String,
    pub base_url: String,
}

impl ExaConfig {
    /// The configuration given by the value of `EXA_API_KEY`.
    pub fn from_env(value: Result<String, EnvVarError>) -> (r: Result<Self, EnvVarError>)
        ensures
            match r {
                Ok(c) => spec_api_key(value) == Ok::<Seq<char>, EnvVarError>(c.api_key@)
                    && c.base_url@ == exa_base_url(),
                Err(e) => spec_api_key(value) == Err::<Seq<char>, EnvVarError>(e),
            },
    {
        let api_key = api_key_from_env(value)?;
        Ok(Self { api_key, base_url: String::from_str("https://api.exa.ai") })
    }
}

} // verus!
