use rustitch::auth::api::{
    poll_reply, validation_reply, PollReply, TokenResponseBody, TwitchAuthApi, ValidationReply,
};
use rustitch::helix::transport::is_success_status;
use rustitch::auth::error::AuthError;
use rustitch::auth::provider::TwitchTokenProvider;
use rustitch::eventsub::client::{dispatcher_capacity_or_default, RuntimeTransport};
use rustitch::eventsub::error::EventSubError;
use rustitch::eventsub::replay::{InMemoryReplayStore, ReplayStoreConfig};
use rustitch::eventsub::webhook::{RawHeader, WebhookHeaders, WebhookVerifier};
use rustitch::id::{ClientId, MessageId, UserId};
use rustitch::secret::{ClientSecret, RefreshToken, WebhookSecret};
use rustitch::tasks::{normalize_passthrough_args, task_command, TaskCommand};
use rustitch::time::{TimeSpan, Timestamp};

const EARLIEST_NANOS: i128 = -377_705_116_800 * 1_000_000_000;

fn provider() -> TwitchTokenProvider {
    TwitchTokenProvider::new(
        TwitchAuthApi::new(
            ClientId::new("client-1"),
            Some(ClientSecret::new("secret-1")),
            String::from("https://id.twitch.tv/oauth2"),
        ),
        vec![String::from("chat:read")],
    )
}

#[test]
fn twitch_provider_serves_only_its_own_client() {
    let provider = provider();
    let form = provider.app_token_form(&ClientId::new("client-1")).expect("own client");
    let pairs: Vec<(&str, &str)> = form.iter().map(|(k, v)| (k.as_str(), v.as_str())).collect();
    assert_eq!(
        pairs,
        vec![
            ("client_id", "client-1"),
            ("client_secret", "secret-1"),
            ("grant_type", "client_credentials"),
            ("scope", "chat:read"),
        ]
    );
    let other = AuthError::Provider {
        operation: String::from("app_token"),
        message: String::from("twitch provider is scoped to a different client_id"),
    };
    assert_eq!(provider.app_token_form(&ClientId::new("client-2")), Err(other));

    let refresh = provider
        .refresh_form(&ClientId::new("client-1"), &RefreshToken::new("refresh-token"), &Vec::new())
        .expect("own client");
    assert_eq!(refresh.len(), 4);
    assert_eq!(refresh[2], (String::from("refresh_token"), String::from("refresh-token")));
    assert!(matches!(
        provider.refresh_form(&ClientId::new("x"), &RefreshToken::new("r"), &Vec::new()),
        Err(AuthError::Provider { .. })
    ));

    assert_eq!(
        provider.user_token_refusal(&ClientId::new("client-1"), &UserId::new("user-1")),
        AuthError::Provider {
            operation: String::from("user_token"),
            message: String::from(
                "twitch provider cannot mint user tokens without an authorization-code or device-code exchange"
            ),
        }
    );
}

#[test]
fn task_commands_map_to_cargo_invocations() {
    assert_eq!(task_command("help"), TaskCommand::Help);
    assert_eq!(task_command("-h"), TaskCommand::Help);
    assert_eq!(
        task_command("check"),
        TaskCommand::Cargo(vec![String::from("check"), String::from("--workspace")])
    );
    match task_command("lint") {
        TaskCommand::Cargo(args) => {
            assert_eq!(args.join(" "), "clippy --workspace --all-targets --all-features -- -D warnings")
        }
        other => panic!("unexpected {other:?}"),
    }
    assert_eq!(task_command("feature-matrix"), TaskCommand::FeatureMatrix);
    assert_eq!(task_command("deploy"), TaskCommand::Unknown(String::from("deploy")));
    assert_eq!(
        normalize_passthrough_args(vec![String::from("--"), String::from("-q")]),
        vec![String::from("-q")]
    );
}

#[test]
fn eventsub_defaults() {
    assert_eq!(dispatcher_capacity_or_default(None), 64);
    assert_eq!(dispatcher_capacity_or_default(Some(8)), 8);
    assert_eq!(RuntimeTransport::default(), RuntimeTransport::WebSocket);
}

#[test]
fn expiries_outside_the_date_range_are_flagged() {
    let now = Timestamp::from_unix_seconds(1_000).expect("in range");
    let token = |expires_in: Option<u64>| TokenResponseBody {
        access_token: String::from("t"),
        expires_in,
        refresh_token: None,
        scope: Vec::new(),
    };
    assert!(token(None).expires_at_in_range(now));
    assert!(token(Some(3600)).expires_at_in_range(now));
    assert!(!token(Some(u64::MAX / 2)).expires_at_in_range(now));
    // Past `i64::MAX` the seconds read as a negative count: `u64::MAX` is one
    // second before `now`.
    assert!(token(Some(u64::MAX)).expires_at_in_range(now));
    assert_eq!(token(Some(u64::MAX)).expires_at(now).expect("in range").unix_nanos(), 999 * 1_000_000_000);
}

#[test]
fn time_arithmetic_leaving_the_date_range_is_reported() {
    let earliest = Timestamp::from_unix_nanos(EARLIEST_NANOS).expect("representable");
    let mut store = InMemoryReplayStore::new(ReplayStoreConfig::default());
    let id = MessageId::new("m");
    assert_eq!(store.try_seen_or_insert(&id, earliest, TimeSpan::from_secs(1)), None);
    assert_eq!(store.try_seen_or_insert(&id, earliest, TimeSpan::from_secs(0)), Some(Ok(false)));
    assert_eq!(
        store.try_seen_or_insert(&id, earliest, TimeSpan::from_secs(u64::MAX)),
        Some(Err(EventSubError::Replay(String::from("duration seconds exceed supported range"))))
    );

    let verifier = WebhookVerifier::new(WebhookSecret::new("0123456789").expect("valid secret"));
    let headers = WebhookHeaders::from_raw_headers(
        RawHeader::Text(String::from("notification")),
        RawHeader::Text(String::from("m")),
        RawHeader::Text(String::from("2024-01-02T03:04:05Z")),
        RawHeader::Text(String::from("sha256=00")),
    )
    .expect("headers");
    assert!(verifier.try_check(&headers, b"body", earliest).is_none());
    let later = Timestamp::from_unix_seconds(1_704_164_700).expect("in range");
    assert_eq!(
        verifier.try_check(&headers, b"body", later),
        Some(Err(EventSubError::InvalidSignature))
    );
    assert_eq!(verifier.current_replay_window(), TimeSpan::from_secs(600));
    assert_eq!(verifier.current_message_id_ttl(), TimeSpan::from_secs(900));
}

#[test]
fn replies_are_classified_by_status() {
    assert_eq!(validation_reply(200), ValidationReply::Valid);
    assert_eq!(validation_reply(401), ValidationReply::Invalid);
    assert_eq!(validation_reply(500), ValidationReply::Failed);
    assert_eq!(poll_reply(200), PollReply::Token);
    assert_eq!(poll_reply(400), PollReply::Pending);
    assert_eq!(poll_reply(429), PollReply::Failed);
    assert!(is_success_status(200) && is_success_status(204) && is_success_status(299));
    assert!(!is_success_status(199) && !is_success_status(300) && !is_success_status(404));
}

#[test]
fn feature_matrix_checks_each_feature_alone() {
    let rows = rustitch::tasks::feature_matrix();
    let labels: Vec<&str> = rows.iter().map(|(label, _)| label.as_str()).collect();
    assert_eq!(
        labels,
        vec!["base", "auth", "helix", "eventsub", "eventsub-manage", "eventsub-webhook", "chat", "chat-irc"]
    );
    assert_eq!(rows[0].1.join(" "), "check -p rustitch --no-default-features");
    assert_eq!(rows[5].1.join(" "), "check -p rustitch --no-default-features --features eventsub-webhook");
}
