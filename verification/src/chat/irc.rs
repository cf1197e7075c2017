//! IRC compatibility transport: configuration and endpoint.

use crate::auth::error::AuthError;
use crate::id::{ChannelId, UserId};
use crate::secret::AccessToken;
use vstd::prelude::*;

verus! {

/// Twitch IRC capabilities requested during the handshake.
#[derive(Clone, Copy, Debug, PartialEq, Eq)]
pub enum IrcCapability {
    /// IRCv3 tags capability.
    Tags,
    /// Twitch commands capability.
    Commands,
    /// Twitch membership capability.
    Membership,
}

/// IRC transport configuration for Twitch chat compatibility.
#[derive(Clone, Debug)]
pub struct IrcTransportConfig {
    /// User identity used for `NICK`.
    pub user_id: UserId,
    /// OAuth access token used for `PASS`.
    pub access_token: AccessToken,
    /// Channels to join after connecting.
    pub channels: Vec<ChannelId>,
    /// Requested Twitch IRC capabilities.
    pub capabilities: Vec<IrcCapability>,
}

/// Errors produced by the IRC adapter.
#[derive(Clone, Debug, PartialEq, Eq)]
pub enum IrcError {
    /// IRC connection or reconnect failed.
    Connection(String),
    /// IRC frame parsing or normalization failed.
    Parse(String),
    /// Authentication failed.
    Auth(AuthError),
}

/// Thin IRC transport adapter.
#[derive(Clone, Debug)]
pub struct IrcTransport {
    config: IrcTransportConfig,
}

/// The Twitch IRC endpoint hostname.
pub open spec fn irc_server_host() -> Seq<char> {
    "irc.chat.twitch.tv"@
}

impl IrcTransport {
    /// The transport configuration.
    pub closed spec fn config_spec(&self) -> IrcTransportConfig {
        self.config
    }

    /// Creates a new IRC transport.
    pub fn new(config: IrcTransportConfig) -> (r: Self)
        ensures
            r.config_spec() == config,
    {
        IrcTransport { config }
    }

    /// Returns the transport configuration.
    pub fn config(&self) -> (r: &IrcTransportConfig)
        ensures
            *r == self.config_spec(),
    {
        &self.config
    }

    /// Returns the Twitch IRC endpoint hostname.
    pub fn server_host(&self) -> (r: &'static str)
        ensures
            r@ == irc_server_host(),
    {
        "irc.chat.twitch.tv"
    }
}

} // verus!
