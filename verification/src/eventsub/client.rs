//! EventSub runtime transport selection and subscription management requests.

use vstd::prelude::*;

verus! {

/// Primary EventSub runtime transport.
#[derive(Clone, Copy, Debug, PartialEq, Eq)]
pub enum RuntimeTransport {
    /// WebSocket transport for installed and local clients.
    WebSocket,
    /// Webhook transport for server-side integrations.
    Webhook,
}

impl Default for RuntimeTransport {
    /// WebSocket is the default transport.
    fn default() -> (r: Self)
        ensures
            r == RuntimeTransport::WebSocket,
    {
        RuntimeTransport::WebSocket
    }
}

/// Local broadcast capacity of the notification dispatcher when none is
/// configured.
pub const DEFAULT_DISPATCHER_CAPACITY: usize = 64;

/// The dispatcher capacity a client is built with: the configured one, else
/// the default.
pub fn dispatcher_capacity_or_default(configured: Option<usize>) -> (r: usize)
    ensures
        r == match configured {
            Some(c) => c,
            None => DEFAULT_DISPATCHER_CAPACITY,
        },
{
    match configured {
        Some(c) => c,
        None => DEFAULT_DISPATCHER_CAPACITY,
    }
}

/// Transport-agnostic request for managing an EventSub subscription.
#[derive(Clone, Debug, PartialEq, Eq)]
pub struct SubscriptionManagementRequest {
    /// EventSub type string, such as `channel.chat.message`.
    pub subscription_type: String,
    /// EventSub version string.
    pub version: String,
}

} // verus!
