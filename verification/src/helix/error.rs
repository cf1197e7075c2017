//! Helix client errors.

use crate::auth::error::AuthError;
use crate::error::CoreError;
use crate::text::{decimal, push_decimal};
use vstd::prelude::*;
use vstd::string::*;

verus! {

/// Errors produced by the Helix client layer.
#[derive(Clone, Debug, PartialEq, Eq)]
pub enum HelixError {
    /// Helix client configuration is invalid.
    Configuration(String),
    /// Request construction or transport failed before an API payload was decoded.
    Request(String),
    /// Twitch returned an API error response.
    Api {
        /// HTTP status code returned by Twitch.
        status: u16,
        /// Twitch `error` field, when one was present.
        error: Option<String>,
        /// Twitch `message` field, when one was present.
        message: Option<String>,
    },
    /// A success response could not be decoded into typed models.
    Decode(String),
    /// Authentication or token acquisition failed.
    Auth(AuthError),
    /// A shared core invariant failed.
    Core(CoreError),
}

impl HelixError {
    /// Creates a request error with the provided message.
    pub fn request(message: String) -> (r: Self)
        ensures
            r == HelixError::Request(message),
    {
        HelixError::Request(message)
    }

    /// Creates a decode error with the provided message.
    pub fn decode(message: String) -> (r: Self)
        ensures
            r == HelixError::Decode(message),
    {
        HelixError::Decode(message)
    }

    /// Creates an API error with the provided fields.
    pub fn api(status: u16, error: Option<String>, message: Option<String>) -> (r: Self)
        ensures
            r == (HelixError::Api { status, error, message }),
    {
        HelixError::Api { status, error, message }
    }
}

impl From<AuthError> for HelixError {
    fn from(error: AuthError) -> (r: Self)
        ensures
            r == HelixError::Auth(error),
    {
        HelixError::Auth(error)
    }
}

impl vstd::std_specs::convert::FromSpecImpl<AuthError> for HelixError {
    open spec fn obeys_from_spec() -> bool {
        true
    }

    open spec fn from_spec(v: AuthError) -> Self {
        HelixError::Auth(v)
    }
}

impl From<CoreError> for HelixError {
    fn from(error: CoreError) -> (r: Self)
        ensures
            r == HelixError::Core(error),
    {
        HelixError::Core(error)
    }
}

impl vstd::std_specs::convert::FromSpecImpl<CoreError> for HelixError {
    open spec fn obeys_from_spec() -> bool {
        true
    }

    open spec fn from_spec(v: CoreError) -> Self {
        HelixError::Core(v)
    }
}

/// The text of a Helix API error: the status, then the Twitch `error` and
/// `message` fields where present.
pub open spec fn api_error_text(status: u16, error: Option<Seq<char>>, message: Option<Seq<char>>) -> Seq<char> {
    let head = "helix API error ("@ + decimal(status as nat);
    match (error, message) {
        (Some(e), Some(m)) => head + " "@ + e + "): "@ + m,
        (None, Some(m)) => head + "): "@ + m,
        (Some(e), None) => head + "): "@ + e,
        (None, None) => head + ")"@,
    }
}

/// Renders the display text of a Helix API error.
pub fn render_api_error(status: u16, error: Option<&str>, message: Option<&str>) -> (r: String)
    ensures
        r@ == api_error_text(
            status,
            match error {
                Some(e) => Some(e@),
                None => None,
            },
            match message {
                Some(m) => Some(m@),
                None => None,
            },
        ),
{
    let mut out = String::from_str("helix API error (");
    push_decimal(&mut out, status as u64);
    match (error, message) {
        (Some(e), Some(m)) => {
            out.append(" ");
            out.append(e);
            out.append("): ");
            out.append(m);
        },
        (None, Some(m)) => {
            out.append("): ");
            out.append(m);
        },
        (Some(e), None) => {
            out.append("): ");
            out.append(e);
        },
        (None, None) => {
            out.append(")");
        },
    }
    out
}

} // verus!
