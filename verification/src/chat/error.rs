//! Chat domain errors.

use crate::auth::error::AuthError;
use crate::eventsub::error::EventSubError;
use crate::helix::error::HelixError;
use vstd::prelude::*;

verus! {

/// Errors produced by the transport-agnostic chat layer.
#[derive(Clone, Debug, PartialEq, Eq)]
pub enum ChatError {
    /// Chat client configuration is invalid.
    Configuration(String),
    /// A send request violates Twitch chat invariants.
    InvalidMessage(String),
    /// Message delivery failed.
    SendFailed(String),
    /// Underlying transport failed.
    Transport(String),
    /// Authentication failed.
    Auth(AuthError),
    /// Helix API interaction failed.
    Helix(HelixError),
    /// EventSub interaction failed.
    EventSub(EventSubError),
}

} // verus!
