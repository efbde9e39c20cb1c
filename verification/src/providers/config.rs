//! Reading a provider's API key from its environment variable.
use vstd::prelude::*;

use crate::text::{trim, trim_chars};

verus! {

/// Why an environment variable gave no usable value (as `std::env::VarError`).
#[derive(Debug, Clone, Copy, PartialEq, Eq, Structural)]
pub enum EnvVarError {
    NotPresent,
    NotUnicode,
}

/// The API key held by an environment variable's value: a missing, blank or
/// non-Unicode value configures nothing.
pub open spec fn spec_api_key(value: Result<String, EnvVarError>) -> Result<Seq<char>, EnvVarError> {
    match value {
        Ok(key) => if trim(key@).len() == 0 {
            Err(EnvVarError::NotPresent)
        } else {
            Ok(key@)
        },
        Err(e) => Err(e),
    }
}

/// The API key held by an environment variable's value.
pub fn api_key_from_env(value: Result<String, EnvVarError>) -> (r: Result<String, EnvVarError>)
    ensures
        match r {
            Ok(k) => spec_api_key(value) == Ok::<Seq<char>, EnvVarError>(k@),
            Err(e) => spec_api_key(value) == Err::<Seq<char>, EnvVarError>(e),
        },
{
    match value {
        Ok(key) => {
            let trimmed = trim_chars(key.as_str());
            if trimmed.len() == 0 {
                Err(EnvVarError::NotPresent)
            } else {
                Ok(key)
            }
        },
        Err(e) => Err(e),
    }
}

} // verus!
