use rustitch::auth::api::{
    device_poll_outcome, scopes_from_repr, DeviceAuthorizationBody, ErrorBody, ScopeRepr,
    TokenResponseBody, TwitchAuthApi, ValidateResponseBody,
};
use rustitch::auth::client::AuthClient;
use rustitch::auth::error::AuthError;
use rustitch::auth::flow::{DeviceAuthorization, DeviceTokenPoll};
use rustitch::auth::provider::StaticTokenProvider;
use rustitch::auth::store::InMemoryTokenStore;
use rustitch::auth::token::{
    AppAccessToken, StoredToken, TokenKey, TokenValidation, TokenValidationStatus,
};
use rustitch::id::{ClientId, UserId};
use rustitch::secret::{AccessToken, ClientSecret, RefreshToken};
use rustitch::time::{TimeSpan, Timestamp};

fn scope_repr_of(json: &str) -> ScopeRepr {
    let value: serde_json::Value = serde_json::from_str(json).expect("json should parse");
    match value.get("scope") {
        Some(serde_json::Value::String(text)) => ScopeRepr::Text(text.clone()),
        Some(serde_json::Value::Array(items)) => ScopeRepr::List(
            items.iter().map(|item| item.as_str().expect("scope should be text").to_owned()).collect(),
        ),
        _ => ScopeRepr::Empty,
    }
}

#[test]
fn deserialize_scopes_accepts_string_and_arrays() {
    let from_string = scopes_from_repr(scope_repr_of(r#"{"scope":"chat:read chat:edit"}"#));
    let from_array = scopes_from_repr(scope_repr_of(r#"{"scope":["chat:read","chat:edit"]}"#));

    assert_eq!(from_string, vec!["chat:read", "chat:edit"]);
    assert_eq!(from_array, vec!["chat:read", "chat:edit"]);
}

#[test]
fn empty_scope_field_lists_nothing() {
    assert!(scopes_from_repr(ScopeRepr::Empty).is_empty());
    assert!(scopes_from_repr(ScopeRepr::Text(String::from("  \t "))).is_empty());
}

#[test]
fn list_for_client_filters_tokens_by_client_scope() {
    let mut store = InMemoryTokenStore::new();
    let client_a = ClientId::new("client-a");
    let client_b = ClientId::new("client-b");

    store.put(
        TokenKey::app(client_a.clone()),
        StoredToken::app(AccessToken::new("app-a"), client_a.clone(), None, Vec::new()),
    );
    store.put(
        TokenKey::user(client_b.clone(), UserId::new("user-b")),
        StoredToken::user(
            AccessToken::new("user-b"),
            None,
            client_b.clone(),
            UserId::new("user-b"),
            None,
            Vec::new(),
        ),
    );

    let tokens = store.list_for_client(&client_a);

    assert_eq!(tokens.len(), 1);
    assert_eq!(tokens[0].0, TokenKey::app(client_a));
}

#[test]
fn store_reads_back_what_was_written_and_forgets_removed_keys() {
    let mut store = InMemoryTokenStore::new();
    let client = ClientId::new("client-1");
    let key = TokenKey::user(client.clone(), UserId::new("user-1"));
    assert!(store.get(&key).is_none());

    store.put(
        key.clone(),
        StoredToken::user(
            AccessToken::new("first"),
            None,
            client.clone(),
            UserId::new("user-1"),
            None,
            Vec::new(),
        ),
    );
    store.put(
        key.clone(),
        StoredToken::user(
            AccessToken::new("second"),
            Some(RefreshToken::new("refresh")),
            client.clone(),
            UserId::new("user-1"),
            None,
            vec![String::from("chat:read")],
        ),
    );
    let stored = store.get(&key).expect("token should be stored");
    assert_eq!(stored.access_token().expose_secret(), "second");
    assert_eq!(store.list_for_client(&client).len(), 1);

    store.remove(&key);
    assert!(store.get(&key).is_none());
    assert!(store.list_for_client(&client).is_empty());
}

#[test]
fn stored_token_keys_follow_kind_and_subject() {
    let client = ClientId::new("client-1");
    let app = StoredToken::app(AccessToken::new("a"), client.clone(), None, Vec::new());
    assert_eq!(app.key().expect("app key"), TokenKey::app(client.clone()));

    let mut user = StoredToken::user(
        AccessToken::new("u"),
        None,
        client.clone(),
        UserId::new("user-9"),
        None,
        Vec::new(),
    );
    assert_eq!(user.key().expect("user key"), TokenKey::user(client.clone(), UserId::new("user-9")));
    user.subject = None;
    assert_eq!(
        user.key(),
        Err(AuthError::Store {
            operation: String::from("key"),
            message: String::from("user token has no subject"),
        })
    );
}

fn api_with_secret() -> TwitchAuthApi {
    TwitchAuthApi::new(
        ClientId::new("client-1"),
        Some(ClientSecret::new("secret-1")),
        String::from("https://id.twitch.tv/oauth2/"),
    )
}

fn pairs(form: &[(String, String)]) -> Vec<(&str, &str)> {
    form.iter().map(|(k, v)| (k.as_str(), v.as_str())).collect()
}

#[test]
fn endpoints_join_without_doubled_slashes() {
    assert_eq!(api_with_secret().endpoint("/token"), "https://id.twitch.tv/oauth2/token");
    assert_eq!(api_with_secret().endpoint("validate"), "https://id.twitch.tv/oauth2/validate");
}

#[test]
fn client_credentials_form_lists_fields_in_order() {
    let api = api_with_secret();
    let form = api
        .client_credentials_form(&vec![String::from("chat:read"), String::from("chat:edit")])
        .expect("form should build");
    assert_eq!(
        pairs(&form),
        vec![
            ("client_id", "client-1"),
            ("client_secret", "secret-1"),
            ("grant_type", "client_credentials"),
            ("scope", "chat:read chat:edit"),
        ]
    );
    let bare = api.client_credentials_form(&Vec::new()).expect("form should build");
    assert_eq!(bare.len(), 3);
}

#[test]
fn forms_need_a_client_secret() {
    let api = TwitchAuthApi::new(ClientId::new("client-1"), None, String::from("https://x"));
    assert_eq!(
        api.client_credentials_form(&Vec::new()),
        Err(AuthError::OAuth {
            operation: String::from("client_credentials"),
            message: String::from("client_secret is required"),
        })
    );
}

#[test]
fn authorization_code_and_refresh_forms() {
    let api = api_with_secret();
    let form = api
        .authorization_code_form("code-123", "http://localhost/cb", Some("verifier"))
        .expect("form should build");
    assert_eq!(
        pairs(&form),
        vec![
            ("client_id", "client-1"),
            ("client_secret", "secret-1"),
            ("code", "code-123"),
            ("grant_type", "authorization_code"),
            ("redirect_uri", "http://localhost/cb"),
            ("code_verifier", "verifier"),
        ]
    );
    let refresh = api
        .refresh_token_form(&RefreshToken::new("refresh-token"), &Vec::new())
        .expect("form should build");
    assert_eq!(
        pairs(&refresh),
        vec![
            ("client_id", "client-1"),
            ("client_secret", "secret-1"),
            ("refresh_token", "refresh-token"),
            ("grant_type", "refresh_token"),
        ]
    );
}

#[test]
fn device_forms_need_scopes_and_carry_the_device_code() {
    let api = api_with_secret();
    assert!(matches!(api.device_authorization_form(&Vec::new()), Err(AuthError::Configuration(_))));
    let form = api
        .device_authorization_form(&vec![String::from("chat:read")])
        .expect("form should build");
    assert_eq!(pairs(&form), vec![("client_id", "client-1"), ("scopes", "chat:read")]);

    let body = DeviceAuthorizationBody {
        device_code: String::from("device-code-1"),
        user_code: String::from("ABCDEFGH"),
        verification_uri: String::from("https://www.twitch.tv/activate"),
        verification_uri_complete: None,
        expires_in: 1800,
        interval: None,
    };
    let authorization = body.into_authorization(&vec![String::from("chat:read")]);
    assert_eq!(authorization.interval.as_secs(), 5);
    assert_eq!(authorization.expires_in.as_secs(), 1800);
    let poll = api.device_poll_form(&authorization);
    assert_eq!(
        pairs(&poll),
        vec![
            ("client_id", "client-1"),
            ("device_code", "device-code-1"),
            ("grant_type", "urn:ietf:params:oauth:grant-type:device_code"),
            ("scopes", "chat:read"),
        ]
    );
}

fn authorization_with_interval(secs: u64) -> DeviceAuthorization {
    DeviceAuthorization {
        device_code: String::from("device-code-1"),
        user_code: String::from("ABCDEFGH"),
        verification_uri: String::from("https://www.twitch.tv/activate"),
        verification_uri_complete: None,
        expires_in: TimeSpan::from_secs(1800),
        interval: TimeSpan::from_secs(secs),
        scopes: vec![String::from("chat:read")],
    }
}

fn error_with_message(message: &str) -> ErrorBody {
    ErrorBody { error: None, message: Some(String::from(message)), status: Some(400) }
}

#[test]
fn device_poll_outcomes_follow_the_message() {
    let authorization = authorization_with_interval(5);
    match device_poll_outcome(&authorization, &error_with_message("authorization_pending")) {
        Ok(DeviceTokenPoll::Pending { interval }) => assert_eq!(interval.as_secs(), 5),
        other => panic!("expected pending, got {other:?}"),
    }
    match device_poll_outcome(&authorization, &error_with_message("slow_down")) {
        Ok(DeviceTokenPoll::SlowDown { interval }) => assert_eq!(interval.as_secs(), 10),
        other => panic!("expected slow down, got {other:?}"),
    }
    assert!(matches!(
        device_poll_outcome(&authorization, &error_with_message("access_denied")),
        Ok(DeviceTokenPoll::Denied)
    ));
    assert!(matches!(
        device_poll_outcome(&authorization, &error_with_message("expired_token")),
        Ok(DeviceTokenPoll::Expired)
    ));
    assert!(matches!(
        device_poll_outcome(&authorization, &error_with_message("invalid device code")),
        Ok(DeviceTokenPoll::Expired)
    ));
    assert_eq!(
        device_poll_outcome(&authorization, &error_with_message("something_else")).err(),
        Some(AuthError::OAuth {
            operation: String::from("device_poll"),
            message: String::from("400: something_else"),
        })
    );
}

#[test]
fn error_bodies_render_with_status() {
    let both = ErrorBody {
        error: Some(String::from("Bad Request")),
        message: Some(String::from("missing code")),
        status: None,
    };
    assert_eq!(both.render_with_status(400), "400 Bad Request: missing code");
    let only_error = ErrorBody { error: Some(String::from("Unauthorized")), message: None, status: None };
    assert_eq!(only_error.render_with_status(401), "401: Unauthorized");
    let nothing = ErrorBody { error: None, message: None, status: None };
    assert_eq!(nothing.render_with_status(502), "unexpected HTTP status 502");
}

fn token_body(scope: Vec<String>, expires_in: Option<u64>) -> TokenResponseBody {
    TokenResponseBody {
        access_token: String::from("user-token"),
        expires_in,
        refresh_token: Some(String::from("refresh-token")),
        scope,
    }
}

fn validation_of(user: Option<&str>) -> TokenValidationStatus {
    TokenValidationStatus::Valid(TokenValidation {
        client_id: ClientId::new("client-1"),
        user_id: user.map(UserId::new),
        login: Some(String::from("user_login")),
        scopes: vec![String::from("chat:read")],
        expires_in: TimeSpan::from_secs(3600),
    })
}

#[test]
fn user_tokens_come_from_validated_responses() {
    let api = api_with_secret();
    let now = Timestamp::from_unix_seconds(1_700_000_000).expect("timestamp should exist");
    let token = api
        .user_token_from_response("authorization_code", token_body(Vec::new(), Some(3600)), validation_of(Some("user-1")), now)
        .expect("authorization code exchange should succeed");
    assert_eq!(token.access_token.expose_secret(), "user-token");
    assert_eq!(token.refresh_token.as_ref().expect("refresh token should exist").expose_secret(), "refresh-token");
    assert_eq!(token.user_id.as_str(), "user-1");
    assert_eq!(token.scopes, vec!["chat:read"]);
    assert_eq!(token.login.as_deref(), Some("user_login"));
    let expires = token.expires_at.expect("expiry should be known");
    assert_eq!(expires.unix_nanos(), (1_700_000_000i128 + 3600) * 1_000_000_000);

    let granted = api
        .user_token_from_response("refresh_token", token_body(vec![String::from("chat:edit")], None), validation_of(Some("user-1")), now)
        .expect("refresh should succeed");
    assert_eq!(granted.scopes, vec!["chat:edit"]);
    assert!(granted.expires_at.is_none());

    assert_eq!(
        api.user_token_from_response("refresh_token", token_body(Vec::new(), None), TokenValidationStatus::Invalid, now)
            .err(),
        Some(AuthError::OAuth {
            operation: String::from("refresh_token"),
            message: String::from("newly issued user token failed validation"),
        })
    );
    assert_eq!(
        api.user_token_from_response("device_poll", token_body(Vec::new(), None), validation_of(None), now).err(),
        Some(AuthError::OAuth {
            operation: String::from("device_poll"),
            message: String::from("validated user token did not include a user_id"),
        })
    );
}

#[test]
fn app_tokens_and_validations_carry_their_fields() {
    let api = api_with_secret();
    let now = Timestamp::from_unix_seconds(1_000).expect("timestamp should exist");
    let app = api.app_token_from_response(token_body(vec![String::from("chat:read")], Some(60)), now);
    assert_eq!(app.access_token.expose_secret(), "user-token");
    assert_eq!(app.client_id.as_str(), "client-1");
    assert_eq!(app.expires_at.expect("expiry").unix_nanos(), 1_060 * 1_000_000_000);

    let validation = ValidateResponseBody {
        client_id: String::from("client-1"),
        login: None,
        scopes: None,
        user_id: Some(String::from("user-22")),
        expires_in: 1200,
    }
    .into_validation();
    assert_eq!(validation.client_id.as_str(), "client-1");
    assert_eq!(validation.user_id, Some(UserId::new("user-22")));
    assert!(validation.scopes.is_empty());
    assert_eq!(validation.expires_in.as_secs(), 1200);
}

fn app_reply() -> AppAccessToken {
    AppAccessToken::new(AccessToken::new("app-token"), ClientId::new("client-1"), None, Vec::new())
}

#[test]
fn static_provider_answers_configured_responses_and_counts_requests() {
    let mut provider = StaticTokenProvider::new();
    let client = ClientId::new("client-1");
    assert_eq!(
        provider.app_token(&client).err(),
        Some(AuthError::Provider {
            operation: String::from("app_token"),
            message: String::from("no app-token response configured"),
        })
    );
    provider.set_app_token_response(client.clone(), Ok(app_reply()));
    let token = provider.app_token(&client).expect("configured");
    assert_eq!(token.access_token.expose_secret(), "app-token");
    let again = provider.app_token(&client).expect("configured responses are served repeatedly");
    assert_eq!(again.client_id, client);
    assert_eq!(provider.app_token_requests(), 3);
    assert_eq!(provider.user_token_requests(), 0);

    assert_eq!(
        provider.user_token(&client, &UserId::new("user-1")).err(),
        Some(AuthError::Provider {
            operation: String::from("user_token"),
            message: String::from("no user-token response configured"),
        })
    );
    assert_eq!(
        provider.refresh_user_token(&client, &UserId::new("user-1")).err(),
        Some(AuthError::Provider {
            operation: String::from("refresh_user_token"),
            message: String::from("no refresh response configured"),
        })
    );
    assert_eq!(provider.user_token_requests(), 1);
    assert_eq!(provider.refresh_requests(), 1);
}

#[test]
fn static_provider_answers_validations_in_queue_order() {
    let mut provider = StaticTokenProvider::new();
    let client = ClientId::new("client-1");
    let stored = StoredToken::app(AccessToken::new("app-token"), client.clone(), None, Vec::new());
    provider.push_validation_response(TokenKey::app(client.clone()), Ok(TokenValidationStatus::Invalid));
    provider.push_validation_response(
        TokenKey::app(client.clone()),
        Err(AuthError::ValidationFailed(String::from("second"))),
    );
    assert_eq!(provider.validate_token(&stored), Some(Ok(TokenValidationStatus::Invalid)));
    assert_eq!(
        provider.validate_token(&stored),
        Some(Err(AuthError::ValidationFailed(String::from("second"))))
    );
    assert_eq!(provider.validate_token(&stored), None);
    assert_eq!(provider.validation_requests(), 3);

    let user = UserId::new("user-1");
    provider.push_refresh_response(client.clone(), user.clone(), Err(AuthError::NotFound));
    assert_eq!(provider.refresh_user_token(&client, &user).err(), Some(AuthError::NotFound));
    assert!(provider.refresh_user_token(&client, &user).is_err());
}

#[test]
fn builder_allows_injected_http_client() {
    let http_client = reqwest::ClientBuilder::new()
        .redirect(reqwest::redirect::Policy::none())
        .build()
        .expect("http client should build");
    let auth = AuthClient::builder()
        .client_id(ClientId::new("client-1"))
        .http_client(http_client)
        .build()
        .expect("auth client should build");

    assert_eq!(auth.client_id().as_str(), "client-1");
    assert_eq!(auth.oauth_base_url(), "https://id.twitch.tv/oauth2");
}

#[test]
fn auth_client_builder_defaults_and_requirements() {
    assert_eq!(
        AuthClient::builder().build().err(),
        Some(AuthError::Configuration(String::from("auth client requires a client_id")))
    );
    let auth = AuthClient::builder()
        .client_id(ClientId::new("client-1"))
        .oauth_base_url(String::from("https://example.test/oauth2/"))
        .redirect_uri(String::from("http://localhost/cb"))
        .scope(String::from("chat:read"))
        .scope(String::from("chat:edit"))
        .build()
        .expect("an HTTP client is built when none is injected");
    assert_eq!(auth.redirect_uri(), Some("http://localhost/cb"));
    assert_eq!(auth.default_scopes(), &[String::from("chat:read"), String::from("chat:edit")]);
    let request = auth.authorization_request();
    assert_eq!(request.authorization_endpoint, "https://example.test/oauth2/authorize");
    assert_eq!(request.scopes.len(), 2);
    assert!(request.state.is_none() && !request.force_verify && request.pkce_challenge.is_none());
    assert_eq!(
        auth.authorization_code_form("code-1", None).err(),
        Some(AuthError::OAuth {
            operation: String::from("authorization_code"),
            message: String::from("client_secret is required"),
        })
    );
    let without_redirect = AuthClient::builder()
        .client_id(ClientId::new("client-1"))
        .client_secret(ClientSecret::new("s"))
        .build()
        .expect("builds");
    assert_eq!(
        without_redirect.authorization_code_form("code-1", None).err(),
        Some(AuthError::Configuration(String::from(
            "authorization code exchange requires a redirect_uri"
        )))
    );
}

#[test]
fn only_slow_down_lengthens_the_interval() {
    let authorization = authorization_with_interval(u64::MAX);
    match device_poll_outcome(&authorization, &error_with_message("authorization_pending")) {
        Ok(DeviceTokenPoll::Pending { interval }) => assert_eq!(interval.as_secs(), u64::MAX),
        other => panic!("expected pending, got {other:?}"),
    }
    assert!(matches!(
        device_poll_outcome(&authorization, &error_with_message("access_denied")),
        Ok(DeviceTokenPoll::Denied)
    ));
}
