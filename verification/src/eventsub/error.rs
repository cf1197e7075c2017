//! EventSub errors.

use crate::auth::error::AuthError;
use crate::error::CoreError;
use vstd::prelude::*;

verus! {

/// Errors produced by the EventSub runtime and optional transports.
#[derive(Clone, Debug, PartialEq, Eq)]
pub enum EventSubError {
    /// EventSub client configuration is invalid.
    Configuration(String),
    /// A duplicate message was detected by replay protection.
    DuplicateMessage(String),
    /// The incoming message timestamp is outside the permitted replay window.
    StaleTimestamp,
    /// Webhook signature verification failed.
    InvalidSignature,
    /// The replay store failed.
    Replay(String),
    /// Local dispatch failed.
    Dispatch(String),
    /// WebSocket runtime error.
    WebSocket(String),
    /// Webhook verification or extraction error.
    Webhook(String),
    /// Helix-backed management error.
    Management(String),
    /// Authentication or token acquisition failed.
    Auth(AuthError),
    /// A shared core invariant failed.
    Core(CoreError),
}

impl From<AuthError> for EventSubError {
    fn from(error: AuthError) -> (r: Self)
        ensures
            r == EventSubError::Auth(error),
    {
        EventSubError::Auth(error)
    }
}

impl vstd::std_specs::convert::FromSpecImpl<AuthError> for EventSubError {
    open spec fn obeys_from_spec() -> bool {
        true
    }

    open spec fn from_spec(v: AuthError) -> Self {
        EventSubError::Auth(v)
    }
}

impl From<CoreError> for EventSubError {
    fn from(error: CoreError) -> (r: Self)
        ensures
            r == EventSubError::Core(error),
    {
        EventSubError::Core(error)
    }
}

impl vstd::std_specs::convert::FromSpecImpl<CoreError> for EventSubError {
    open spec fn obeys_from_spec() -> bool {
        true
    }

    open spec fn from_spec(v: CoreError) -> Self {
        EventSubError::Core(v)
    }
}

} // verus!
