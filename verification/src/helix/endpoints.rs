//! Request and response types of the `channels`, `chat`, `eventsub`,
//! `moderation` and `streams` Helix endpoint groups.

use crate::id::{BroadcasterId, MessageId, SessionId, SubscriptionId, UserId};
use vstd::prelude::*;

verus! {

/// Request for `Get Channel Information`.
#[derive(Clone, Debug, PartialEq, Eq)]
pub struct GetChannelInformationRequest {
    /// Broadcaster whose channel information should be fetched.
    pub broadcaster_id: BroadcasterId,
}

/// Request for `Send Chat Message`.
#[derive(Clone, Debug, PartialEq, Eq)]
pub struct SendChatMessageRequest {
    /// Channel whose chat room receives the message.
    pub broadcaster_id: BroadcasterId,
    /// User identity associated with the send operation.
    pub sender_id: UserId,
    /// Message body to send.
    pub message: String,
    /// Parent message identifier when the send is a reply.
    pub reply_parent_message_id: Option<MessageId>,
    /// App-token-only `for_source_only` semantic.
    pub for_source_only: Option<bool>,
}

/// Response of `Send Chat Message`.
#[derive(Clone, Debug, PartialEq, Eq)]
pub struct SendChatMessageResponse {
    /// Identifier of the accepted message when Twitch returns one.
    pub message_id: Option<MessageId>,
    /// Drop reason when the message was rejected by Twitch.
    pub dropped_reason: Option<String>,
}

impl Default for SendChatMessageResponse {
    fn default() -> (r: Self)
        ensures
            r.message_id is None,
            r.dropped_reason is None,
    {
        SendChatMessageResponse { message_id: None, dropped_reason: None }
    }
}

/// Transport configuration for EventSub subscription management.
#[derive(Clone, Debug, PartialEq, Eq)]
pub enum SubscriptionTransportConfig {
    /// WebSocket subscription transport.
    WebSocket {
        /// Session identifier of the active WebSocket connection.
        session_id: SessionId,
    },
    /// Webhook subscription transport.
    Webhook {
        /// Callback URL that Twitch will invoke.
        callback: String,
        /// Whether a webhook secret has been configured.
        secret_present: bool,
    },
}

/// Request for creating a Helix-managed EventSub subscription.
#[derive(Clone, Debug, PartialEq, Eq)]
pub struct ManageSubscriptionRequest {
    /// EventSub type string, such as `channel.chat.message`.
    pub subscription_type: String,
    /// EventSub version string.
    pub version: String,
    /// Target transport configuration.
    pub transport: SubscriptionTransportConfig,
}

/// Response of EventSub management operations.
#[derive(Clone, Debug, PartialEq, Eq)]
pub struct ManageSubscriptionResponse {
    /// Managed subscription identifier.
    pub subscription_id: SubscriptionId,
}

/// Request for a moderation action such as ban or timeout.
#[derive(Clone, Debug, PartialEq, Eq)]
pub struct ModerateUserRequest {
    /// Broadcaster in whose chat room the action applies.
    pub broadcaster_id: BroadcasterId,
    /// Moderator performing the action.
    pub moderator_id: UserId,
    /// User being moderated.
    pub user_id: UserId,
    /// Optional textual reason.
    pub reason: Option<String>,
}

/// Request for `Get Streams`.
#[derive(Clone, Debug, PartialEq, Eq)]
pub struct GetStreamsRequest {
    /// User identifiers whose streams should be inspected.
    pub user_ids: Vec<UserId>,
}

impl Default for GetStreamsRequest {
    fn default() -> (r: Self)
        ensures
            r.user_ids@.len() == 0,
    {
        GetStreamsRequest { user_ids: Vec::new() }
    }
}

} // verus!
