//! WebSocket session configuration and state for EventSub.

use crate::id::SessionId;
use vstd::prelude::*;

verus! {

/// Runtime limits for EventSub WebSocket sessions.
#[derive(Clone, Copy, Debug, PartialEq, Eq)]
pub struct EventSubWebSocketConfig {
    /// Maximum enabled connections for a `(client_id, user_id)` pair.
    pub max_connections_per_identity: u8,
    /// Maximum enabled subscriptions per connection.
    pub max_enabled_subscriptions: u16,
    /// Maximum total cost per connection.
    pub max_total_cost: u8,
}

impl Default for EventSubWebSocketConfig {
    /// Twitch's limits: three connections, 300 subscriptions, total cost 10.
    fn default() -> (r: Self)
        ensures
            r.max_connections_per_identity == 3,
            r.max_enabled_subscriptions == 300,
            r.max_total_cost == 10,
    {
        EventSubWebSocketConfig {
            max_connections_per_identity: 3,
            max_enabled_subscriptions: 300,
            max_total_cost: 10,
        }
    }
}

/// Session lifecycle state for an EventSub WebSocket transport.
#[derive(Clone, Debug, PartialEq, Eq)]
pub enum WebSocketSessionState {
    /// No session is established yet.
    Idle,
    /// Session is connected and healthy.
    Connected(SessionId),
    /// Session is reconnecting to a new endpoint.
    Reconnecting(SessionId),
    /// Session was revoked by Twitch.
    Revoked(SessionId),
}

/// WebSocket transport: its limits and current session state.
#[derive(Clone, Debug)]
pub struct EventSubWebSocketClient {
    config: EventSubWebSocketConfig,
    state: WebSocketSessionState,
}

impl EventSubWebSocketClient {
    /// The configured limits.
    pub closed spec fn config_spec(&self) -> EventSubWebSocketConfig {
        self.config
    }

    /// The current session state.
    pub closed spec fn state_spec(&self) -> WebSocketSessionState {
        self.state
    }

    /// Creates a WebSocket transport with the provided limits and no session.
    pub fn new(config: EventSubWebSocketConfig) -> (r: Self)
        ensures
            r.config_spec() == config,
            r.state_spec() == WebSocketSessionState::Idle,
    {
        EventSubWebSocketClient { config, state: WebSocketSessionState::Idle }
    }

    /// Returns the configured runtime limits.
    pub fn config(&self) -> (r: EventSubWebSocketConfig)
        ensures
            r == self.config_spec(),
    {
        self.config
    }

    /// Returns the current session state.
    pub fn state(&self) -> (r: &WebSocketSessionState)
        ensures
            *r == self.state_spec(),
    {
        &self.state
    }
}

} // verus!
