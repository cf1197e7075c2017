use hmac::{Hmac, Mac};
use rustitch::eventsub::error::EventSubError;
use rustitch::eventsub::replay::{InMemoryReplayStore, ReplayStoreConfig};
use rustitch::eventsub::webhook::{
    decode_hex, decode_hex_nibble, RawHeader, WebhookHeaders, WebhookMessageType, WebhookVerifier,
};
use rustitch::id::MessageId;
use rustitch::secret::WebhookSecret;
use rustitch::time::{TimeSpan, Timestamp};
use sha2::Sha256;

const SECRET: &str = "0123456789abcdef";
const TIMESTAMP: &str = "2024-01-02T03:04:05Z";

fn text(value: &str) -> RawHeader {
    RawHeader::Text(String::from(value))
}

fn hex(bytes: &[u8]) -> String {
    bytes.iter().map(|b| format!("{b:02x}")).collect()
}

fn signature_for(message_id: &str, timestamp: &str, body: &[u8]) -> String {
    let mut mac = Hmac::<Sha256>::new_from_slice(SECRET.as_bytes()).expect("key should be accepted");
    mac.update(message_id.as_bytes());
    mac.update(timestamp.as_bytes());
    mac.update(body);
    format!("sha256={}", hex(&mac.finalize().into_bytes()))
}

fn headers(message_id: &str, timestamp: &str, signature: &str) -> WebhookHeaders {
    WebhookHeaders::from_raw_headers(
        text("notification"),
        text(message_id),
        text(timestamp),
        text(signature),
    )
    .expect("headers should be present")
}

fn webhook_verifier() -> WebhookVerifier {
    WebhookVerifier::new(WebhookSecret::new(SECRET).expect("secret should be valid"))
}

fn shortly_after_timestamp() -> Timestamp {
    Timestamp::parse_rfc3339("2024-01-02T03:05:00Z").expect("timestamp should parse")
}

#[test]
fn hex_decoding_accepts_both_cases_and_rejects_bad_input() {
    assert_eq!(decode_hex("00ffA0").expect("valid hex"), vec![0x00, 0xff, 0xa0]);
    assert_eq!(decode_hex("").expect("empty hex"), Vec::<u8>::new());
    assert_eq!(decode_hex("abc"), Err(EventSubError::InvalidSignature));
    assert_eq!(decode_hex("zz"), Err(EventSubError::InvalidSignature));
    assert_eq!(decode_hex_nibble(b'7'), Ok(7));
    assert_eq!(decode_hex_nibble(b'F'), Ok(15));
    assert_eq!(decode_hex_nibble(b'g'), Err(EventSubError::InvalidSignature));
}

#[test]
fn headers_are_read_in_order_with_exact_errors() {
    let parsed = headers("msg-1", TIMESTAMP, "sha256=00");
    assert_eq!(parsed.message_id, MessageId::new("msg-1"));
    assert_eq!(parsed.message_type, WebhookMessageType::Notification);
    assert_eq!(parsed.message_timestamp, TIMESTAMP);

    let challenge = WebhookHeaders::from_raw_headers(
        text("webhook_callback_verification"),
        text("m"),
        text("t"),
        text("s"),
    )
    .expect("challenge headers should parse");
    assert_eq!(challenge.message_type, WebhookMessageType::Challenge);

    assert_eq!(
        WebhookHeaders::from_raw_headers(RawHeader::Missing, text("m"), text("t"), text("s")),
        Err(EventSubError::Webhook(String::from(
            "missing required webhook header `Twitch-Eventsub-Message-Type`"
        )))
    );
    assert_eq!(
        WebhookHeaders::from_raw_headers(text("other"), text("m"), text("t"), text("s")),
        Err(EventSubError::Webhook(String::from("unsupported webhook message type `other`")))
    );
    assert_eq!(
        WebhookHeaders::from_raw_headers(text("revocation"), RawHeader::NotText, text("t"), text("s")),
        Err(EventSubError::Webhook(String::from(
            "invalid UTF-8 in webhook header `Twitch-Eventsub-Message-Id`"
        )))
    );
    assert_eq!(
        WebhookHeaders::from_raw_headers(text("revocation"), text("m"), text("t"), RawHeader::Missing),
        Err(EventSubError::Webhook(String::from(
            "missing required webhook header `Twitch-Eventsub-Message-Signature`"
        )))
    );
}

#[test]
fn verified_messages_carry_the_request_and_replays_are_refused() {
    let body = br#"{"subscription":{}}"#.to_vec();
    let signature = signature_for("msg-1", TIMESTAMP, &body);
    let request = headers("msg-1", TIMESTAMP, &signature);
    let checker = webhook_verifier();
    let mut store = InMemoryReplayStore::new(ReplayStoreConfig::default());
    let now = shortly_after_timestamp();

    let message = checker
        .try_verify(&mut store, &request, body.clone(), now)
        .expect("arithmetic stays in range")
        .expect("signed message should verify");
    assert_eq!(message.message_id, MessageId::new("msg-1"));
    assert_eq!(message.raw_body, body);
    assert_eq!(message.message_type, WebhookMessageType::Notification);
    assert_eq!(
        message.message_timestamp,
        Timestamp::parse_rfc3339(TIMESTAMP).expect("timestamp should parse")
    );

    let again = checker.try_verify(&mut store, &request, body, now).expect("in range");
    assert_eq!(again.err(), Some(EventSubError::DuplicateMessage(String::from("msg-1"))));
}

#[test]
fn bad_signatures_stale_and_malformed_timestamps_are_refused() {
    let body = b"payload".to_vec();
    let checker = webhook_verifier();
    let mut store = InMemoryReplayStore::new(ReplayStoreConfig::default());
    let now = shortly_after_timestamp();

    let wrong = headers("msg-2", TIMESTAMP, &signature_for("msg-2", TIMESTAMP, b"other"));
    assert_eq!(
        checker.try_verify(&mut store, &wrong, body.clone(), now).expect("in range").err(),
        Some(EventSubError::InvalidSignature)
    );
    let not_hex = headers("msg-2", TIMESTAMP, "sha256=xyz0");
    assert_eq!(
        checker.try_check(&not_hex, &body, now).expect("in range").err(),
        Some(EventSubError::InvalidSignature)
    );

    let late = Timestamp::parse_rfc3339("2024-01-02T03:20:00Z").expect("timestamp should parse");
    let signed = headers("msg-3", TIMESTAMP, &signature_for("msg-3", TIMESTAMP, &body));
    assert_eq!(
        checker.try_check(&signed, &body, late).expect("in range").err(),
        Some(EventSubError::StaleTimestamp)
    );
    let wide = checker.replay_window(TimeSpan::from_secs(60 * 60));
    assert!(wide.try_check(&signed, &body, late).expect("in range").is_ok());

    let malformed = headers("msg-4", "yesterday", "sha256=00");
    assert_eq!(
        wide.try_check(&malformed, &body, now).expect("in range").err(),
        Some(EventSubError::Webhook(String::from("webhook timestamp is not valid RFC3339")))
    );
}

#[test]
fn replay_store_forgets_expired_identifiers_and_keeps_its_bound() {
    let config = ReplayStoreConfig { max_entries: 2, ..ReplayStoreConfig::default() };
    let mut store = InMemoryReplayStore::new(config);
    let ttl = TimeSpan::from_secs(60);
    let at = |secs: i64| Timestamp::from_unix_seconds(secs).expect("timestamp should exist");
    let id = |text: &str| MessageId::new(text);

    assert_eq!(store.seen_or_insert(&id("a"), at(1_000), ttl), Ok(false));
    assert_eq!(store.seen_or_insert(&id("a"), at(1_010), ttl), Ok(true));
    assert_eq!(store.seen_or_insert(&id("a"), at(1_100), ttl), Ok(false));
    assert_eq!(store.seen_or_insert(&id("b"), at(1_101), ttl), Ok(false));
    assert_eq!(store.seen_or_insert(&id("c"), at(1_102), ttl), Ok(false));
    // "a" was the oldest of three entries over a bound of two.
    assert_eq!(store.seen_or_insert(&id("a"), at(1_103), ttl), Ok(false));
    assert_eq!(store.config().max_entries, 2);
}

#[test]
fn webhook_defaults_and_overrides() {
    let config = ReplayStoreConfig::default();
    assert_eq!(config.replay_window.as_secs(), 600);
    assert_eq!(config.message_id_ttl.as_secs(), 900);
    assert_eq!(config.max_entries, 4096);
    let checker = webhook_verifier().message_id_ttl(TimeSpan::new(1, 1_500_000_000));
    let body = b"x".to_vec();
    let request = headers("m", TIMESTAMP, &signature_for("m", TIMESTAMP, &body));
    let accepted = WebhookVerifier::accept(&request, shortly_after_timestamp(), body.clone(), false)
        .expect("unseen message is accepted");
    assert_eq!(accepted.raw_body, body);
    assert_eq!(
        WebhookVerifier::accept(&request, shortly_after_timestamp(), body, true).err(),
        Some(EventSubError::DuplicateMessage(String::from("m")))
    );
    let _ = checker;
}

#[test]
fn retention_range_matters_only_for_requests_that_reach_the_store() {
    let body = b"payload".to_vec();
    let checker = webhook_verifier().message_id_ttl(TimeSpan::from_secs(i64::MAX as u64));
    let mut store = InMemoryReplayStore::new(ReplayStoreConfig::default());
    let now = shortly_after_timestamp();

    let wrong = headers("m1", TIMESTAMP, &signature_for("m1", TIMESTAMP, b"other"));
    assert_eq!(
        checker.try_verify(&mut store, &wrong, body.clone(), now),
        Some(Err(EventSubError::InvalidSignature))
    );
    let late = Timestamp::parse_rfc3339("2024-01-02T04:00:00Z").expect("timestamp should parse");
    let signed = headers("m2", TIMESTAMP, &signature_for("m2", TIMESTAMP, &body));
    assert_eq!(
        checker.try_verify(&mut store, &signed, body.clone(), late),
        Some(Err(EventSubError::StaleTimestamp))
    );
    // A fresh, correctly signed request reaches the store, where stepping
    // back the retention would leave the range of date-times.
    assert_eq!(checker.try_verify(&mut store, &signed, body, now), None);
}
