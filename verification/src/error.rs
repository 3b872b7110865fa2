//! Configuration errors of the SDK.

use crate::text::concat2;
use vstd::prelude::*;

verus! {

/// Error category for configuration issues.
#[derive(Debug, Clone, PartialEq, Eq)]
pub enum ConfigError {
    /// A required setting is missing.
    MissingEnvVar(String),
    /// A setting is invalid.
    Invalid(String),
}

/// The message of a configuration error.
pub open spec fn config_error_text(e: ConfigError) -> Seq<char> {
    match e {
        ConfigError::MissingEnvVar(v) => "missing environment variable: "@ + v@,
        ConfigError::Invalid(m) => "invalid configuration: "@ + m@,
    }
}

impl ConfigError {
    /// The message of this error.
    pub fn message(&self) -> (r: String)
        ensures
            r@ == config_error_text(*self),
    {
        match self {
            ConfigError::MissingEnvVar(v) => concat2("missing environment variable: ", v.as_str()),
            ConfigError::Invalid(m) => concat2("invalid configuration: ", m.as_str()),
        }
    }
}

} // verus!
