//! Common error taxonomy shared across the library.

use vstd::prelude::*;

verus! {

/// Top-level error type for shared infrastructure and validation failures.
#[derive(Debug, PartialEq, Eq)]
pub enum CoreError {
    /// A required configuration value is missing or malformed.
    Configuration(String),
    /// An identifier failed validation.
    InvalidIdentifier(String),
    /// A secret value failed validation.
    InvalidSecret(String),
}

impl Clone for CoreError {
    fn clone(&self) -> (r: Self)
        ensures
            r == *self,
    {
        match self {
            CoreError::Configuration(m) => CoreError::Configuration(m.clone()),
            CoreError::InvalidIdentifier(m) => CoreError::InvalidIdentifier(m.clone()),
            CoreError::InvalidSecret(m) => CoreError::InvalidSecret(m.clone()),
        }
    }
}

} // verus!
