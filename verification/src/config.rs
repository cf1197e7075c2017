//! Shared configuration types for Twitch API access.

use crate::id::ClientId;
use crate::secret::ClientSecret;
use vstd::prelude::*;
use vstd::string::*;

verus! {

/// Production base URL of the Twitch OAuth surface.
pub open spec fn production_oauth_base_url() -> Seq<char> {
    "https://id.twitch.tv/oauth2"@
}

/// Production base URL of the Twitch Helix API.
pub open spec fn production_helix_base_url() -> Seq<char> {
    "https://api.twitch.tv/helix"@
}

/// Shared configuration for Twitch OAuth and token validation surfaces.
#[derive(Clone, Debug)]
pub struct AuthServiceConfig {
    /// OAuth application client identifier.
    pub client_id: ClientId,
    /// OAuth application client secret.
    pub client_secret: ClientSecret,
    /// Base URL for the OAuth and validation surface.
    pub oauth_base_url: String,
}

impl AuthServiceConfig {
    /// Returns the canonical Twitch production auth configuration.
    pub fn production(client_id: ClientId, client_secret: ClientSecret) -> (r: Self)
        ensures
            r.client_id == client_id,
            r.client_secret == client_secret,
            r.oauth_base_url@ == production_oauth_base_url(),
    {
        AuthServiceConfig {
            client_id,
            client_secret,
            oauth_base_url: String::from_str("https://id.twitch.tv/oauth2"),
        }
    }
}

/// Shared configuration for Twitch Helix API access.
#[derive(Clone, Debug)]
pub struct HelixConfig {
    /// Twitch application client identifier used for `Client-Id` headers.
    pub client_id: ClientId,
    /// Base URL for the Helix API surface.
    pub api_base_url: String,
}

impl HelixConfig {
    /// Returns the canonical Twitch production Helix configuration.
    pub fn production(client_id: ClientId) -> (r: Self)
        ensures
            r.client_id == client_id,
            r.api_base_url@ == production_helix_base_url(),
    {
        HelixConfig { client_id, api_base_url: String::from_str("https://api.twitch.tv/helix") }
    }
}

/// Base configuration required to interact with Twitch services.
#[derive(Clone, Debug)]
pub struct TwitchConfig {
    /// Shared auth and token validation configuration.
    pub auth: AuthServiceConfig,
    /// Shared Helix configuration.
    pub helix: HelixConfig,
}

impl TwitchConfig {
    /// Returns the canonical Twitch production configuration: both services
    /// share the one client identifier.
    pub fn production(client_id: ClientId, client_secret: ClientSecret) -> (r: Self)
        ensures
            r.auth.client_id@ == client_id@,
            r.auth.client_secret == client_secret,
            r.auth.oauth_base_url@ == production_oauth_base_url(),
            r.helix.client_id == client_id,
            r.helix.api_base_url@ == production_helix_base_url(),
    {
        TwitchConfig {
            auth: AuthServiceConfig::production(client_id.clone(), client_secret),
            helix: HelixConfig::production(client_id),
        }
    }
}

} // verus!
