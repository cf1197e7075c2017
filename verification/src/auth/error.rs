//! Authentication and token management errors.

use crate::error::CoreError;
use vstd::prelude::*;
use vstd::string::*;

verus! {

/// Errors produced by the authentication layer.
#[derive(Debug, PartialEq, Eq)]
pub enum AuthError {
    /// Authentication client configuration is invalid.
    Configuration(String),
    /// Token validation failed.
    ValidationFailed(String),
    /// Token refresh failed.
    RefreshFailed(String),
    /// An OAuth endpoint call failed or returned an unusable response.
    OAuth {
        /// OAuth operation that failed, such as `client_credentials`.
        operation: String,
        /// Description of the failure.
        message: String,
    },
    /// A token provider could not supply a token.
    Provider {
        /// Provider operation that failed, such as `app_token`.
        operation: String,
        /// Description of the failure.
        message: String,
    },
    /// Token storage operation failed.
    Store {
        /// Store operation that failed, such as `get`.
        operation: String,
        /// Description of the failure.
        message: String,
    },
    /// A requested token could not be found.
    NotFound,
    /// A shared core invariant failed.
    Core(CoreError),
}

impl Clone for AuthError {
    fn clone(&self) -> (r: Self)
        ensures
            r == *self,
    {
        match self {
            AuthError::Configuration(m) => AuthError::Configuration(m.clone()),
            AuthError::ValidationFailed(m) => AuthError::ValidationFailed(m.clone()),
            AuthError::RefreshFailed(m) => AuthError::RefreshFailed(m.clone()),
            AuthError::OAuth { operation, message } => AuthError::OAuth {
                operation: operation.clone(),
                message: message.clone(),
            },
            AuthError::Provider { operation, message } => AuthError::Provider {
                operation: operation.clone(),
                message: message.clone(),
            },
            AuthError::Store { operation, message } => AuthError::Store {
                operation: operation.clone(),
                message: message.clone(),
            },
            AuthError::NotFound => AuthError::NotFound,
            AuthError::Core(e) => AuthError::Core(e.clone()),
        }
    }
}

impl AuthError {
    /// A configuration error with the given message.
    pub fn configuration(message: &str) -> (r: Self)
        ensures
            r matches AuthError::Configuration(m) && m@ == message@,
    {
        AuthError::Configuration(String::from_str(message))
    }

    /// An OAuth error for `operation` with the given message.
    pub fn oauth(operation: &str, message: String) -> (r: Self)
        ensures
            r matches AuthError::OAuth { operation: o, message: m } && o@ == operation@ && m@
                == message@,
    {
        AuthError::OAuth { operation: String::from_str(operation), message }
    }

    /// A provider error for `operation` with the given message.
    pub fn provider(operation: &str, message: String) -> (r: Self)
        ensures
            r matches AuthError::Provider { operation: o, message: m } && o@ == operation@ && m@
                == message@,
    {
        AuthError::Provider { operation: String::from_str(operation), message }
    }

    /// A token-store error for `operation` with the given message.
    pub fn store(operation: &str, message: String) -> (r: Self)
        ensures
            r matches AuthError::Store { operation: o, message: m } && o@ == operation@ && m@
                == message@,
    {
        AuthError::Store { operation: String::from_str(operation), message }
    }
}

impl From<CoreError> for AuthError {
    fn from(error: CoreError) -> (r: Self)
        ensures
            r == AuthError::Core(error),
    {
        AuthError::Core(error)
    }
}

impl vstd::std_specs::convert::FromSpecImpl<CoreError> for AuthError {
    open spec fn obeys_from_spec() -> bool {
        true
    }

    open spec fn from_spec(v: CoreError) -> Self {
        AuthError::Core(v)
    }
}

} // verus!
