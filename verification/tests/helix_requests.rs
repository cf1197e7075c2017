use rustitch::helix::client::{HelixClientConfig, HelixRequestAuth};
use rustitch::helix::error::{render_api_error, HelixError};
use rustitch::helix::transport::{
    build_url, parse_api_error, parse_rate_limit, ApiErrorPayload, ResponsePagination,
};
use rustitch::helix::users::{
    normalize_optional_text, GetUsersRequest, HelixBroadcasterType, HelixUserType,
};
use rustitch::id::{ClientId, UserId};

#[test]
fn request_preserves_query_order_by_field_type() {
    let request = GetUsersRequest::new()
        .with_user_id(UserId::new("1"))
        .and_then(|request| request.with_user_id(UserId::new("2")))
        .and_then(|request| request.with_login("foo"))
        .and_then(|request| request.with_login("bar"))
        .expect("request should be valid");

    assert_eq!(
        request.query_pairs(),
        vec![
            (String::from("id"), String::from("1")),
            (String::from("id"), String::from("2")),
            (String::from("login"), String::from("foo")),
            (String::from("login"), String::from("bar")),
        ]
    );
}

#[test]
fn request_rejects_empty_login_values() {
    let error = GetUsersRequest::new()
        .with_login("   ")
        .expect_err("whitespace-only logins must be rejected");

    assert!(matches!(error, HelixError::Request(_)));
}

#[test]
fn request_rejects_app_auth_without_filters() {
    let error = GetUsersRequest::new()
        .validate_for_auth(&HelixRequestAuth::App)
        .expect_err("empty app-auth request must be rejected");

    assert!(matches!(error, HelixError::Request(_)));
}

#[test]
fn empty_request_is_fine_for_user_auth() {
    let request = GetUsersRequest::new();
    assert!(request.is_empty());
    assert!(request.validate_for_auth(&HelixRequestAuth::User { user_id: UserId::new("1") }).is_ok());
}

#[test]
fn request_accepts_exactly_one_hundred_filters() {
    let mut request = GetUsersRequest::new();
    for index in 0..100 {
        if index % 2 == 0 {
            request.push_user_id(UserId::new(&index.to_string())).expect("within limit");
        } else {
            request.push_login(&format!("login{index}")).expect("within limit");
        }
    }
    assert_eq!(request.user_ids().len() + request.logins().len(), 100);
    let before = request.clone();
    let error = request.push_login("overflow").expect_err("limit reached");
    assert_eq!(
        error,
        HelixError::Request(String::from(
            "get users request supports at most 100 combined id and login filters"
        ))
    );
    let error = request.push_user_id(UserId::new("x")).expect_err("limit reached");
    assert!(matches!(error, HelixError::Request(_)));
    assert_eq!(request, before);
}

#[test]
fn logins_are_trimmed() {
    let request = GetUsersRequest::new().with_login("  foo\t").expect("valid login");
    assert_eq!(request.logins(), &[String::from("foo")]);
    assert_eq!(request.query_pairs(), vec![(String::from("login"), String::from("foo"))]);
}

#[test]
fn api_errors_render_every_field_combination() {
    assert_eq!(
        render_api_error(400, Some("Bad Request"), Some("missing id")),
        "helix API error (400 Bad Request): missing id"
    );
    assert_eq!(render_api_error(401, None, Some("unauthorized")), "helix API error (401): unauthorized");
    assert_eq!(render_api_error(429, Some("Too Many"), None), "helix API error (429): Too Many");
    assert_eq!(render_api_error(500, None, None), "helix API error (500)");
}

#[test]
fn api_error_bodies_map_to_api_errors() {
    let payload = ApiErrorPayload { error: Some(String::from("unknown")), message: Some(String::from("status 400")) };
    assert_eq!(
        parse_api_error(400, Some(payload), b"ignored"),
        HelixError::api(400, Some(String::from("unknown")), Some(String::from("status 400")))
    );
    assert_eq!(
        parse_api_error(502, None, b"  upstream failed \n"),
        HelixError::api(502, None, Some(String::from("upstream failed")))
    );
    assert_eq!(parse_api_error(503, None, b"   "), HelixError::api(503, None, None));
}

#[test]
fn rate_limit_headers_parse_only_when_all_valid() {
    let metadata = parse_rate_limit(Some("800"), Some("799"), Some("1710000000"))
        .expect("rate limit metadata should exist");
    assert_eq!(metadata.limit, 800);
    assert_eq!(metadata.remaining, 799);
    assert_eq!(metadata.reset_at.unix_nanos(), 1_710_000_000i128 * 1_000_000_000);
    assert!(parse_rate_limit(Some("oops"), Some("799"), Some("1710000000")).is_none());
    assert!(parse_rate_limit(Some("800"), None, Some("1710000000")).is_none());
    assert!(parse_rate_limit(Some("800"), Some("799"), Some("-1")).is_none());
}

#[test]
fn pagination_carries_cursor() {
    let info = ResponsePagination { cursor: Some(String::from("abc")) }
        .into_page_info()
        .expect("cursor present");
    assert_eq!(info.next.expect("next cursor").as_str(), "abc");
    assert!(ResponsePagination { cursor: None }.into_page_info().is_none());
}

#[test]
fn user_and_broadcaster_types_keep_unknown_values() {
    assert_eq!(HelixUserType::from_raw(String::new()), HelixUserType::Normal);
    assert_eq!(HelixUserType::from_raw(String::from("staff")), HelixUserType::Staff);
    assert_eq!(
        HelixUserType::from_raw(String::from("future_type")),
        HelixUserType::Other(String::from("future_type"))
    );
    assert_eq!(HelixBroadcasterType::from_raw(String::from("affiliate")), HelixBroadcasterType::Affiliate);
    assert_eq!(
        HelixBroadcasterType::from_raw(String::from("future_broadcaster")),
        HelixBroadcasterType::Other(String::from("future_broadcaster"))
    );
}

#[test]
fn optional_text_is_trimmed_and_blank_is_absent() {
    assert_eq!(normalize_optional_text(Some(String::from(" foo@example.com "))), Some(String::from("foo@example.com")));
    assert_eq!(normalize_optional_text(Some(String::from("   "))), None);
    assert_eq!(normalize_optional_text(None), None);
}

#[test]
fn urls_join_base_path_and_query() {
    let query = vec![
        (String::from("id"), String::from("1")),
        (String::from("login"), String::from("foo bar")),
    ];
    let url = build_url("https://api.twitch.tv/helix/", "/users", &query).expect("valid url");
    assert_eq!(url.as_str(), "https://api.twitch.tv/helix/users?id=1&login=foo+bar");
    let bare = build_url("https://api.twitch.tv/helix", "users", &[]).expect("valid url");
    assert_eq!(bare, "https://api.twitch.tv/helix/users?");
    let error = build_url("not a url", "users", &[]).expect_err("invalid base");
    match error {
        HelixError::Request(message) => assert!(message.starts_with("failed to construct helix URL: ")),
        other => panic!("unexpected error {other:?}"),
    }
}

#[test]
fn helix_config_requires_client_id() {
    let error = HelixClientConfig::from_builder_parts(None, None).expect_err("client id required");
    assert_eq!(error, HelixError::Configuration(String::from("helix client requires a client_id")));
    let config = HelixClientConfig::from_builder_parts(Some(ClientId::new("c")), None).expect("config");
    assert_eq!(config.base_url, "https://api.twitch.tv/helix");
    let config = HelixClientConfig::from_builder_parts(Some(ClientId::new("c")), Some(String::from("http://x")))
        .expect("config");
    assert_eq!(config.base_url, "http://x");
    assert_eq!(HelixClientConfig::production(ClientId::new("c")).base_url, "https://api.twitch.tv/helix");
}

#[test]
fn helix_errors_wrap_their_causes() {
    assert_eq!(HelixError::decode(String::from("bad json")), HelixError::Decode(String::from("bad json")));
    assert_eq!(HelixError::request(String::from("no route")), HelixError::Request(String::from("no route")));
    let auth = rustitch::auth::error::AuthError::NotFound;
    assert_eq!(HelixError::from(auth.clone()), HelixError::Auth(auth));
    let core = rustitch::error::CoreError::Configuration(String::from("x"));
    assert_eq!(HelixError::from(core.clone()), HelixError::Core(core));
}

#[test]
fn explicit_client_id_wins_over_fallback() {
    assert_eq!(
        HelixClientConfig::client_id_or(Some(ClientId::new("a")), Some(ClientId::new("b"))),
        Some(ClientId::new("a"))
    );
    assert_eq!(HelixClientConfig::client_id_or(None, Some(ClientId::new("b"))), Some(ClientId::new("b")));
    assert_eq!(HelixClientConfig::client_id_or(None, None), None);
}
