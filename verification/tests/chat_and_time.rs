use rustitch::chat::client::{ChatClient, ChatReadTransport, ChatWriteTransport};
use rustitch::chat::command::{SendChatMessage, SendChatSemantics};
use rustitch::chat::error::ChatError;
use rustitch::chat::irc::{IrcTransport, IrcTransportConfig};
use rustitch::id::{BroadcasterId, ChannelId, UserId};
use rustitch::secret::AccessToken;
use rustitch::time::{TimeSpan, Timestamp};

fn semantics() -> SendChatSemantics {
    SendChatSemantics::UserToken { sender_id: UserId::new("user-1") }
}

#[test]
fn chat_messages_hold_one_to_five_hundred_characters() {
    let empty = SendChatMessage::new(BroadcasterId::new("b"), String::new(), None, semantics());
    assert_eq!(
        empty,
        Err(ChatError::InvalidMessage(String::from("chat messages must not be empty")))
    );

    let longest = "é".repeat(500);
    let accepted = SendChatMessage::new(BroadcasterId::new("b"), longest.clone(), None, semantics())
        .expect("500 characters are allowed");
    assert_eq!(accepted.message, longest);

    let too_long = SendChatMessage::new(BroadcasterId::new("b"), "x".repeat(501), None, semantics());
    assert_eq!(
        too_long,
        Err(ChatError::InvalidMessage(String::from(
            "chat messages must be 500 characters or fewer"
        )))
    );
}

#[test]
fn chat_client_defaults_to_eventsub_and_helix() {
    let client = ChatClient::builder().build();
    assert_eq!(client.read_transport(), ChatReadTransport::EventSub);
    assert_eq!(client.write_transport(), ChatWriteTransport::HelixSendChatMessage);
    assert!(client.irc_transport().is_none());

    let irc = IrcTransportConfig {
        user_id: UserId::new("user-1"),
        access_token: AccessToken::new("token"),
        channels: vec![ChannelId::new("chan")],
        capabilities: Vec::new(),
    };
    let chosen = ChatClient::builder()
        .read_transport(ChatReadTransport::Irc)
        .write_transport(ChatWriteTransport::IrcCompatibility)
        .irc_transport(irc.clone())
        .build();
    assert_eq!(chosen.read_transport(), ChatReadTransport::Irc);
    assert_eq!(chosen.write_transport(), ChatWriteTransport::IrcCompatibility);
    assert_eq!(chosen.irc_transport().expect("irc config").channels.len(), 1);
    assert_eq!(IrcTransport::new(irc).server_host(), "irc.chat.twitch.tv");
}

#[test]
fn spans_normalize_and_add() {
    let span = TimeSpan::new(2, 2_500_000_000);
    assert_eq!(span.as_secs(), 4);
    assert_eq!(span.subsec_nanos(), 500_000_000);
    let sum = span.checked_add(TimeSpan::new(0, 600_000_000)).expect("no overflow");
    assert_eq!(sum.as_secs(), 5);
    assert_eq!(sum.subsec_nanos(), 100_000_000);
    assert!(TimeSpan::from_secs(u64::MAX).checked_add(TimeSpan::from_secs(1)).is_none());
}

#[test]
fn timestamps_parse_rfc3339_and_count_from_the_epoch() {
    let parsed = Timestamp::parse_rfc3339("2024-01-02T03:04:05Z").expect("timestamp should parse");
    assert_eq!(parsed.unix_nanos(), 1_704_164_645 * 1_000_000_000);
    let offset = Timestamp::parse_rfc3339("2024-01-02T04:04:05.5+01:00").expect("offset parses");
    assert_eq!(offset.unix_nanos(), 1_704_164_645 * 1_000_000_000 + 500_000_000);
    assert!(Timestamp::parse_rfc3339("not-a-timestamp").is_none());
    assert_eq!(
        Timestamp::from_unix_seconds(1_710_000_000).expect("in range").unix_nanos(),
        1_710_000_000 * 1_000_000_000
    );
    let later = parsed.checked_add_span(TimeSpan::from_secs(60)).expect("in range");
    assert_eq!(later.unix_nanos() - parsed.unix_nanos(), 60 * 1_000_000_000);
    assert!(Timestamp::from_unix_nanos(i128::MAX).is_none());
    assert!(Timestamp::now().unix_nanos() > parsed.unix_nanos());
}

#[test]
fn shutdown_token_is_the_clients_own() {
    let client = ChatClient::builder().build();
    let token = client.shutdown_token();
    assert!(token == client.shutdown_token());
    token.cancel();
    assert!(client.shutdown_token().is_cancelled());
}
