//! Transport-agnostic chat commands.

use crate::chat::error::ChatError;
use crate::id::{BroadcasterId, MessageId, UserId};
use vstd::prelude::*;
use vstd::string::*;

verus! {

/// Explicit token and delivery semantics for `Send Chat Message`.
#[derive(Clone, Debug, PartialEq, Eq)]
pub enum SendChatSemantics {
    /// User-token send semantics.
    UserToken {
        /// User sending the message.
        sender_id: UserId,
    },
    /// App-token send semantics.
    AppToken {
        /// Bot or application-associated sender identity.
        sender_id: UserId,
        /// App-token-only `for_source_only` behavior.
        for_source_only: bool,
    },
}

/// Most characters one chat message may hold.
pub const MAX_CHAT_MESSAGE_CHARS: usize = 500;

/// Message of the error for an empty chat message.
pub open spec fn empty_message_message() -> Seq<char> {
    "chat messages must not be empty"@
}

/// Message of the error for a chat message over the length limit.
pub open spec fn long_message_message() -> Seq<char> {
    "chat messages must be 500 characters or fewer"@
}

/// Transport-agnostic chat send request: the message is never empty and
/// never longer than 500 characters.
#[derive(Clone, Debug, PartialEq, Eq)]
pub struct SendChatMessage {
    /// Channel receiving the message.
    pub broadcaster_id: BroadcasterId,
    /// Message body.
    pub message: String,
    /// Reply target when replying to an earlier message.
    pub reply_parent_message_id: Option<MessageId>,
    /// Token semantics for the send operation.
    pub semantics: SendChatSemantics,
}

impl SendChatMessage {
    /// Creates and validates a send request: the message must hold between
    /// one and 500 characters.
    pub fn new(
        broadcaster_id: BroadcasterId,
        message: String,
        reply_parent_message_id: Option<MessageId>,
        semantics: SendChatSemantics,
    ) -> (r: Result<Self, ChatError>)
        ensures
            message@.len() == 0 ==> (r matches Err(ChatError::InvalidMessage(m)) && m@
                == empty_message_message()),
            message@.len() > 500 ==> (r matches Err(ChatError::InvalidMessage(m)) && m@
                == long_message_message()),
            1 <= message@.len() <= 500 ==> r == Ok::<SendChatMessage, ChatError>(
                SendChatMessage { broadcaster_id, message, reply_parent_message_id, semantics },
            ),
    {
        let count = message.as_str().unicode_len();
        if count == 0 {
            return Err(ChatError::InvalidMessage(String::from_str("chat messages must not be empty")));
        }
        if count > MAX_CHAT_MESSAGE_CHARS {
            return Err(ChatError::InvalidMessage(String::from_str("chat messages must be 500 characters or fewer")));
        }
        Ok(SendChatMessage { broadcaster_id, message, reply_parent_message_id, semantics })
    }
}

} // verus!
