//! Typed EventSub models.

use crate::id::{MessageId, SessionId, SubscriptionId};
use crate::time::Timestamp;
use vstd::prelude::*;

verus! {

/// EventSub transport model.
#[derive(Clone, Debug, PartialEq, Eq)]
pub enum EventSubTransport {
    /// WebSocket transport.
    WebSocket {
        /// Active WebSocket session identifier.
        session_id: SessionId,
    },
    /// Webhook transport.
    Webhook {
        /// Callback URL.
        callback: String,
    },
}

/// Subscription status reported by Twitch.
#[derive(Clone, Copy, Debug, PartialEq, Eq)]
pub enum SubscriptionStatus {
    /// The subscription is enabled.
    Enabled,
    /// Webhook callback verification is pending.
    WebhookCallbackVerificationPending,
    /// Webhook callback verification failed.
    WebhookCallbackVerificationFailed,
    /// Notification delivery failures disabled the subscription.
    NotificationFailuresExceeded,
    /// Authorization for the subscription was revoked.
    AuthorizationRevoked,
    /// The referenced user was removed.
    UserRemoved,
}

/// Typed EventSub subscription descriptor.
#[derive(Clone, Debug, PartialEq, Eq)]
pub struct Subscription {
    /// Subscription identifier.
    pub id: SubscriptionId,
    /// EventSub type string.
    pub subscription_type: String,
    /// EventSub version string.
    pub version: String,
    /// Current subscription status.
    pub status: SubscriptionStatus,
    /// Subscription transport descriptor.
    pub transport: EventSubTransport,
}

/// Kind of EventSub message being delivered.
#[derive(Clone, Copy, Debug, PartialEq, Eq)]
pub enum EventSubMessageType {
    /// Verification challenge message.
    Challenge,
    /// Event notification message.
    Notification,
    /// Subscription revocation message.
    Revocation,
}

/// Metadata attached to an EventSub delivery.
#[derive(Clone, Debug, PartialEq, Eq)]
pub struct NotificationMetadata {
    /// Unique EventSub message identifier.
    pub message_id: MessageId,
    /// Delivery timestamp.
    pub message_timestamp: Timestamp,
    /// Kind of EventSub message.
    pub message_type: EventSubMessageType,
}

/// Typed EventSub notification.
#[derive(Clone, Debug, PartialEq, Eq)]
pub struct EventSubNotification {
    /// EventSub delivery metadata.
    pub metadata: NotificationMetadata,
    /// Subscription that originated the event.
    pub subscription: Subscription,
    /// Raw JSON payload body.
    pub payload: String,
}

} // verus!
