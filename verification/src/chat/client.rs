//! Chat client transport selection.

use crate::chat::irc::IrcTransportConfig;
use tokio_util::sync::CancellationToken;
use vstd::prelude::*;

verus! {

/// `tokio_util::sync::CancellationToken`, carried opaquely.
#[verifier::external_type_specification]
#[verifier::external_body]
pub struct ExCancellationToken(CancellationToken);

/// `CancellationToken::new`: a fresh token. Nothing is claimed of it.
#[verifier::external_body]
fn new_cancellation_token() -> CancellationToken {
    CancellationToken::new()
}

/// `CancellationToken::clone`: a handle sharing the original's state, which
/// is the same token: it compares equal to the original and is cancelled
/// together with it.
pub assume_specification[ <CancellationToken as Clone>::clone ](token: &CancellationToken) -> (r:
    CancellationToken)
    ensures
        r == *token,
;

/// Primary runtime used to read chat messages.
#[derive(Clone, Copy, Debug, PartialEq, Eq)]
pub enum ChatReadTransport {
    /// EventSub-based chat intake.
    EventSub,
    /// Optional IRC compatibility intake.
    Irc,
}

/// Primary runtime used to write chat messages.
#[derive(Clone, Copy, Debug, PartialEq, Eq)]
pub enum ChatWriteTransport {
    /// Helix `Send Chat Message`.
    HelixSendChatMessage,
    /// IRC compatibility sending path.
    IrcCompatibility,
}

/// High-level, transport-agnostic chat client.
#[derive(Clone)]
pub struct ChatClient {
    read_transport: ChatReadTransport,
    write_transport: ChatWriteTransport,
    shutdown: CancellationToken,
    irc_transport: Option<IrcTransportConfig>,
}

impl ChatClient {
    /// The configured read transport.
    pub closed spec fn read_transport_spec(&self) -> ChatReadTransport {
        self.read_transport
    }

    /// The configured write transport.
    pub closed spec fn write_transport_spec(&self) -> ChatWriteTransport {
        self.write_transport
    }

    /// The configured IRC transport.
    pub closed spec fn irc_transport_spec(&self) -> Option<IrcTransportConfig> {
        self.irc_transport
    }

    /// Starts building a chat client.
    pub fn builder() -> (r: ChatClientBuilder)
        ensures
            r == ChatClientBuilder::default_spec(),
    {
        ChatClientBuilder::new()
    }

    /// Returns the configured primary read transport.
    pub fn read_transport(&self) -> (r: ChatReadTransport)
        ensures
            r == self.read_transport_spec(),
    {
        self.read_transport
    }

    /// Returns the configured primary write path.
    pub fn write_transport(&self) -> (r: ChatWriteTransport)
        ensures
            r == self.write_transport_spec(),
    {
        self.write_transport
    }

    /// The client's graceful shutdown token.
    pub closed spec fn shutdown_spec(&self) -> CancellationToken {
        self.shutdown
    }

    /// Returns a handle to the graceful shutdown token.
    pub fn shutdown_token(&self) -> (r: CancellationToken)
        ensures
            r == self.shutdown_spec(),
    {
        self.shutdown.clone()
    }

    /// Returns the configured IRC transport.
    pub fn irc_transport(&self) -> (r: Option<&IrcTransportConfig>)
        ensures
            r == match self.irc_transport_spec() {
                Some(c) => Some(&c),
                None => None::<&IrcTransportConfig>,
            },
    {
        match &self.irc_transport {
            Some(c) => Some(c),
            None => None,
        }
    }
}

/// Builder for [`ChatClient`].
#[derive(Clone)]
pub struct ChatClientBuilder {
    read_transport: Option<ChatReadTransport>,
    write_transport: Option<ChatWriteTransport>,
    irc_transport: Option<IrcTransportConfig>,
}

impl ChatClientBuilder {
    /// A builder with nothing selected.
    pub closed spec fn default_spec() -> ChatClientBuilder {
        ChatClientBuilder { read_transport: None, write_transport: None, irc_transport: None }
    }

    /// The selected read transport.
    pub closed spec fn read_transport_spec(&self) -> Option<ChatReadTransport> {
        self.read_transport
    }

    /// The selected write transport.
    pub closed spec fn write_transport_spec(&self) -> Option<ChatWriteTransport> {
        self.write_transport
    }

    /// The configured IRC transport.
    pub closed spec fn irc_transport_spec(&self) -> Option<IrcTransportConfig> {
        self.irc_transport
    }

    /// A builder with nothing selected.
    pub fn new() -> (r: Self)
        ensures
            r == Self::default_spec(),
    {
        ChatClientBuilder { read_transport: None, write_transport: None, irc_transport: None }
    }

    /// Selects the primary read transport.
    pub fn read_transport(self, read_transport: ChatReadTransport) -> (r: Self)
        ensures
            r.read_transport_spec() == Some(read_transport),
            r.write_transport_spec() == self.write_transport_spec(),
            r.irc_transport_spec() == self.irc_transport_spec(),
    {
        ChatClientBuilder { read_transport: Some(read_transport), ..self }
    }

    /// Selects the primary write transport.
    pub fn write_transport(self, write_transport: ChatWriteTransport) -> (r: Self)
        ensures
            r.read_transport_spec() == self.read_transport_spec(),
            r.write_transport_spec() == Some(write_transport),
            r.irc_transport_spec() == self.irc_transport_spec(),
    {
        ChatClientBuilder { write_transport: Some(write_transport), ..self }
    }

    /// Configures the optional IRC transport adapter.
    pub fn irc_transport(self, irc_transport: IrcTransportConfig) -> (r: Self)
        ensures
            r.read_transport_spec() == self.read_transport_spec(),
            r.write_transport_spec() == self.write_transport_spec(),
            r.irc_transport_spec() == Some(irc_transport),
    {
        ChatClientBuilder { irc_transport: Some(irc_transport), ..self }
    }

    /// Builds the chat client: reading defaults to EventSub and writing to
    /// Helix `Send Chat Message`.
    pub fn build(self) -> (r: ChatClient)
        ensures
            r.read_transport_spec() == match self.read_transport_spec() {
                Some(t) => t,
                None => ChatReadTransport::EventSub,
            },
            r.write_transport_spec() == match self.write_transport_spec() {
                Some(t) => t,
                None => ChatWriteTransport::HelixSendChatMessage,
            },
            r.irc_transport_spec() == self.irc_transport_spec(),
    {
        let read_transport = match self.read_transport {
            Some(t) => t,
            None => ChatReadTransport::EventSub,
        };
        let write_transport = match self.write_transport {
            Some(t) => t,
            None => ChatWriteTransport::HelixSendChatMessage,
        };
        ChatClient {
            read_transport,
            write_transport,
            shutdown: new_cancellation_token(),
            irc_transport: self.irc_transport,
        }
    }
}

impl Default for ChatClientBuilder {
    fn default() -> (r: Self)
        ensures
            r == Self::default_spec(),
    {
        Self::new()
    }
}

} // verus!
