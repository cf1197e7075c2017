use rustitch::config::{AuthServiceConfig, HelixConfig, TwitchConfig};
use rustitch::error::CoreError;
use rustitch::id::{BroadcasterId, ClientId, UserId};
use rustitch::pagination::Cursor;
use rustitch::secret::{AccessToken, ClientSecret, RefreshToken, WebhookSecret};

#[test]
fn auth_service_config_uses_production_defaults() {
    let config =
        AuthServiceConfig::production(ClientId::new("client-id"), ClientSecret::new("secret"));

    assert_eq!(config.client_id.as_str(), "client-id");
    assert_eq!(config.client_secret.expose_secret(), "secret");
    assert_eq!(config.oauth_base_url, "https://id.twitch.tv/oauth2");
}

#[test]
fn helix_config_uses_production_defaults() {
    let config = HelixConfig::production(ClientId::new("client-id"));

    assert_eq!(config.client_id.as_str(), "client-id");
    assert_eq!(config.api_base_url, "https://api.twitch.tv/helix");
}

#[test]
fn twitch_config_production_builds_service_specific_configs() {
    let config = TwitchConfig::production(ClientId::new("client-id"), ClientSecret::new("secret"));

    assert_eq!(config.auth.client_id.as_str(), "client-id");
    assert_eq!(config.auth.client_secret.expose_secret(), "secret");
    assert_eq!(config.auth.oauth_base_url, "https://id.twitch.tv/oauth2");
    assert_eq!(config.helix.client_id.as_str(), "client-id");
    assert_eq!(config.helix.api_base_url, "https://api.twitch.tv/helix");
}

#[test]
fn user_and_broadcaster_ids_convert_explicitly_without_mixing_types() {
    let user_id = UserId::new("1234");
    let broadcaster_id = user_id.to_broadcaster_id();

    assert_eq!(broadcaster_id.as_str(), "1234");
    assert_eq!(broadcaster_id.to_user_id(), user_id);
}

#[test]
fn id_wrappers_preserve_display_and_owned_values() {
    let client_id = ClientId::new("client-123");

    assert_eq!(client_id.as_str(), "client-123");
    assert_eq!(client_id.to_string(), "client-123");
    assert_eq!(client_id.clone().into_inner(), "client-123");
}

#[test]
fn broadcaster_and_user_ids_round_trip_through_from_impls() {
    let broadcaster_id = BroadcasterId::new("42");
    let user_id = UserId::from(broadcaster_id.clone());

    assert_eq!(user_id.as_str(), "42");
    assert_eq!(BroadcasterId::from(user_id), broadcaster_id);
}

#[test]
fn debug_redacts_all_secret_wrappers() {
    let access_token = AccessToken::new("access-token");
    let refresh_token = RefreshToken::new("refresh-token");
    let client_secret = ClientSecret::new("client-secret");
    let webhook_secret = WebhookSecret::new("0123456789").expect("secret should be valid");

    assert_eq!(access_token.redacted_debug(), "AccessToken(**redacted**)");
    assert_eq!(refresh_token.redacted_debug(), "RefreshToken(**redacted**)");
    assert_eq!(client_secret.redacted_debug(), "ClientSecret(**redacted**)");
    assert_eq!(webhook_secret.redacted_debug(), "WebhookSecret(**redacted**)");
    assert!(!format!("{access_token:?}").contains("access-token"));
    assert!(!format!("{webhook_secret:?}").contains("0123456789"));
}

#[test]
fn webhook_secret_accepts_boundary_lengths() {
    let min = WebhookSecret::new("0123456789").expect("minimum length secret should be valid");
    let max = WebhookSecret::new(&"a".repeat(100)).expect("maximum length secret should be valid");

    assert_eq!(min.expose_secret(), "0123456789");
    assert_eq!(max.expose_secret(), "a".repeat(100));
}

#[test]
fn webhook_secret_rejects_non_ascii_content() {
    let error = WebhookSecret::new("secr\u{ea}t-value").expect_err("non-ascii secret should fail");

    assert_eq!(
        error,
        CoreError::InvalidSecret(String::from(
            "webhook secret must contain only ASCII characters",
        ))
    );
}

#[test]
fn webhook_secret_rejects_values_outside_length_bounds() {
    let too_short = WebhookSecret::new("short").expect_err("short secret should fail");
    let too_long = WebhookSecret::new(&"a".repeat(101)).expect_err("long secret should fail");

    assert_eq!(
        too_short,
        CoreError::InvalidSecret(String::from(
            "webhook secret length must be between 10 and 100 characters",
        ))
    );
    assert_eq!(
        too_long,
        CoreError::InvalidSecret(String::from(
            "webhook secret length must be between 10 and 100 characters",
        ))
    );
}

#[test]
fn webhook_secret_checks_ascii_before_length() {
    let error = WebhookSecret::new("\u{e9}").expect_err("short non-ascii secret should fail");
    assert_eq!(
        error,
        CoreError::InvalidSecret(String::from(
            "webhook secret must contain only ASCII characters",
        ))
    );
}

#[test]
fn secrets_expose_what_they_wrap() {
    assert_eq!(AccessToken::new("a").expose_secret(), "a");
    assert_eq!(AccessToken::from_string(String::from("b")).clone().expose_secret(), "b");
    assert_eq!(RefreshToken::from_string(String::from("c")).expose_secret(), "c");
    assert_eq!(ClientSecret::from_string(String::from("d")).clone().expose_secret(), "d");
}

#[test]
fn ids_compare_by_text() {
    assert!(UserId::new("7").same_as(&UserId::from_string(String::from("7"))));
    assert!(!UserId::new("7").same_as(&UserId::new("8")));
}

#[test]
fn cursor_keeps_its_text() {
    assert_eq!(Cursor::new("abc").as_str(), "abc");
    assert_eq!(Cursor::default().as_str(), "");
}
