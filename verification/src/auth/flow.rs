//! OAuth flow descriptions: authorization requests and the device flow.

use crate::auth::token::UserAccessToken;
use crate::id::ClientId;
use crate::time::TimeSpan;
use vstd::prelude::*;

verus! {

/// OAuth flows supported by the library.
#[derive(Clone, Copy, Debug, PartialEq, Eq)]
pub enum OAuthFlow {
    /// Authorization code flow.
    AuthorizationCode,
    /// Client credentials flow.
    ClientCredentials,
    /// Device code flow.
    DeviceCode,
    /// Refresh flow for an existing token.
    Refresh,
    /// `/validate` flow for startup and periodic validation.
    Validate,
}

/// Authorization request parameters derived from the configured client.
#[derive(Clone, Debug, PartialEq, Eq)]
pub struct AuthorizationRequest {
    /// Twitch application client identifier.
    pub client_id: ClientId,
    /// Redirect URI for the authorization response.
    pub redirect_uri: Option<String>,
    /// Scopes requested from the user.
    pub scopes: Vec<String>,
    /// Opaque state echoed back by the authorization response.
    pub state: Option<String>,
    /// Whether the user must re-approve an earlier authorization.
    pub force_verify: bool,
    /// PKCE code challenge, when PKCE is used.
    pub pkce_challenge: Option<String>,
    /// Authorization endpoint the user is sent to.
    pub authorization_endpoint: String,
}

/// A started device authorization.
#[derive(Clone, Debug, PartialEq, Eq)]
pub struct DeviceAuthorization {
    /// Device code to poll with.
    pub device_code: String,
    /// Code the user enters at the verification URI.
    pub user_code: String,
    /// Where the user enters the code.
    pub verification_uri: String,
    /// Verification URI with the code filled in, when Twitch sends one.
    pub verification_uri_complete: Option<String>,
    /// How long the device code stays valid.
    pub expires_in: TimeSpan,
    /// How long to wait between polls.
    pub interval: TimeSpan,
    /// Scopes requested.
    pub scopes: Vec<String>,
}

/// Outcome of one device-token poll.
#[derive(Clone, Debug)]
pub enum DeviceTokenPoll {
    /// The user authorized the device; the issued token.
    Authorized(UserAccessToken),
    /// The user has not acted yet; poll again after the interval.
    Pending {
        /// Interval to wait before the next poll.
        interval: TimeSpan,
    },
    /// Polling too fast; poll again after the longer interval.
    SlowDown {
        /// Interval to wait before the next poll.
        interval: TimeSpan,
    },
    /// The user denied the authorization.
    Denied,
    /// The device code expired.
    Expired,
}

} // verus!
