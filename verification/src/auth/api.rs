//! Twitch OAuth requests and responses: the form each grant sends, and what
//! each response means.

use crate::auth::error::AuthError;
use crate::auth::flow::{DeviceAuthorization, DeviceTokenPoll};
use crate::auth::token::{AppAccessToken, TokenValidation, TokenValidationStatus, UserAccessToken};
use crate::helix::users::query_view;
use crate::id::{ClientId, UserId};
use crate::secret::{AccessToken, ClientSecret, RefreshToken};
use crate::text::{
    decimal, join_strings, joined, push_decimal, split_words, string_views, url_join,
    join_url_path, words,
};
use crate::time::{in_datetime_range, TimeSpan, Timestamp};
use vstd::prelude::*;
use vstd::string::*;

verus! {

/// Scopes as sent in a form: separated by single spaces.
pub open spec fn scope_param(scopes: Seq<String>) -> Seq<char> {
    joined(string_views(scopes), " "@)
}

/// Message of the error for a grant that needs the client secret.
pub open spec fn missing_secret_message() -> Seq<char> {
    "client_secret is required"@
}

/// Twitch OAuth endpoint access for one client.
#[derive(Clone, Debug)]
pub struct TwitchAuthApi {
    client_id: ClientId,
    client_secret: Option<ClientSecret>,
    oauth_base_url: String,
}

impl TwitchAuthApi {
    /// The client the requests are made for.
    pub closed spec fn client_id_spec(&self) -> ClientId {
        self.client_id
    }

    /// The client secret's text, when one is configured.
    pub closed spec fn client_secret_spec(&self) -> Option<Seq<char>> {
        match self.client_secret {
            Some(s) => Some(s@),
            None => None,
        }
    }

    /// The base URL of the OAuth surface.
    pub closed spec fn base_url_spec(&self) -> Seq<char> {
        self.oauth_base_url@
    }

    /// Creates endpoint access for a client.
    pub fn new(client_id: ClientId, client_secret: Option<ClientSecret>, oauth_base_url: String) -> (r:
        Self)
        ensures
            r.client_id_spec() == client_id,
            r.client_secret_spec() == match client_secret {
                Some(s) => Some(s@),
                None => None::<Seq<char>>,
            },
            r.base_url_spec() == oauth_base_url@,
    {
        TwitchAuthApi { client_id, client_secret, oauth_base_url }
    }

    /// The client the requests are made for.
    pub fn client_id(&self) -> (r: &ClientId)
        ensures
            *r == self.client_id_spec(),
    {
        &self.client_id
    }

    /// The URL of the OAuth endpoint at `path`.
    pub fn endpoint(&self, path: &str) -> (r: String)
        ensures
            r@ == url_join(self.base_url_spec(), path@),
    {
        join_url_path(self.oauth_base_url.as_str(), path)
    }

    fn require_client_secret(&self, operation: &str) -> (r: Result<&ClientSecret, AuthError>)
        ensures
            match self.client_secret_spec() {
                Some(s) => r matches Ok(c) && c@ == s,
                None => r matches Err(AuthError::OAuth { operation: o, message: m }) && o@
                    == operation@ && m@ == missing_secret_message(),
            },
    {
        match &self.client_secret {
            Some(s) => Ok(s),
            None => Err(AuthError::oauth(operation, String::from_str("client_secret is required"))),
        }
    }

    /// The form of the client-credentials grant: client id and secret, the
    /// grant type, then the scopes when there are any. Fails without a
    /// client secret.
    pub fn client_credentials_form(&self, scopes: &Vec<String>) -> (r: Result<
        Vec<(String, String)>,
        AuthError,
    >)
        ensures
            match self.client_secret_spec() {
                Some(s) => r matches Ok(f) && query_view(f@) == seq![
                    ("client_id"@, self.client_id_spec()@),
                    ("client_secret"@, s),
                    ("grant_type"@, "client_credentials"@),
                ] + if scopes@.len() > 0 {
                    seq![("scope"@, scope_param(scopes@))]
                } else {
                    Seq::empty()
                },
                None => r matches Err(AuthError::OAuth { operation: o, message: m }) && o@
                    == "client_credentials"@ && m@ == missing_secret_message(),
            },
    {
        let secret = self.require_client_secret("client_credentials")?;
        let mut params: Vec<(String, String)> = Vec::new();
        params.push((String::from_str("client_id"), self.client_id.to_string()));
        params.push((String::from_str("client_secret"), String::from_str(secret.expose_secret())));
        params.push((String::from_str("grant_type"), String::from_str("client_credentials")));
        if scopes.len() > 0 {
            params.push((String::from_str("scope"), join_strings(scopes, " ")));
        }
        proof {
            let expected = seq![
                ("client_id"@, self.client_id_spec()@),
                ("client_secret"@, self.client_secret_spec()->0),
                ("grant_type"@, "client_credentials"@),
            ] + if scopes@.len() > 0 {
                seq![("scope"@, scope_param(scopes@))]
            } else {
                Seq::empty()
            };
            assert(query_view(params@) =~= expected);
        }
        Ok(params)
    }

    /// The form of the authorization-code grant: client id and secret, the
    /// code, grant type and redirect URI, then the PKCE verifier when there
    /// is one. Fails without a client secret.
    pub fn authorization_code_form(
        &self,
        code: &str,
        redirect_uri: &str,
        pkce_verifier: Option<&str>,
    ) -> (r: Result<Vec<(String, String)>, AuthError>)
        ensures
            match self.client_secret_spec() {
                Some(s) => r matches Ok(f) && query_view(f@) == seq![
                    ("client_id"@, self.client_id_spec()@),
                    ("client_secret"@, s),
                    ("code"@, code@),
                    ("grant_type"@, "authorization_code"@),
                    ("redirect_uri"@, redirect_uri@),
                ] + match pkce_verifier {
                    Some(v) => seq![("code_verifier"@, v@)],
                    None => Seq::empty(),
                },
                None => r matches Err(AuthError::OAuth { operation: o, message: m }) && o@
                    == "authorization_code"@ && m@ == missing_secret_message(),
            },
    {
        let secret = self.require_client_secret("authorization_code")?;
        let mut params: Vec<(String, String)> = Vec::new();
        params.push((String::from_str("client_id"), self.client_id.to_string()));
        params.push((String::from_str("client_secret"), String::from_str(secret.expose_secret())));
        params.push((String::from_str("code"), String::from_str(code)));
        params.push((String::from_str("grant_type"), String::from_str("authorization_code")));
        params.push((String::from_str("redirect_uri"), String::from_str(redirect_uri)));
        match pkce_verifier {
            Some(v) => {
                params.push((String::from_str("code_verifier"), String::from_str(v)));
            },
            None => {},
        }
        proof {
            let expected = seq![
                ("client_id"@, self.client_id_spec()@),
                ("client_secret"@, self.client_secret_spec()->0),
                ("code"@, code@),
                ("grant_type"@, "authorization_code"@),
                ("redirect_uri"@, redirect_uri@),
            ] + match pkce_verifier {
                Some(v) => seq![("code_verifier"@, v@)],
                None => Seq::empty(),
            };
            assert(query_view(params@) =~= expected);
        }
        Ok(params)
    }

    /// The form of the refresh grant: client id and secret, the refresh
    /// token, the grant type, then the scopes when there are any. Fails
    /// without a client secret.
    pub fn refresh_token_form(&self, refresh_token: &RefreshToken, scopes: &Vec<String>) -> (r:
        Result<Vec<(String, String)>, AuthError>)
        ensures
            match self.client_secret_spec() {
                Some(s) => r matches Ok(f) && query_view(f@) == seq![
                    ("client_id"@, self.client_id_spec()@),
                    ("client_secret"@, s),
                    ("refresh_token"@, refresh_token@),
                    ("grant_type"@, "refresh_token"@),
                ] + if scopes@.len() > 0 {
                    seq![("scope"@, scope_param(scopes@))]
                } else {
                    Seq::empty()
                },
                None => r matches Err(AuthError::OAuth { operation: o, message: m }) && o@
                    == "refresh_token"@ && m@ == missing_secret_message(),
            },
    {
        let secret = self.require_client_secret("refresh_token")?;
        let mut params: Vec<(String, String)> = Vec::new();
        params.push((String::from_str("client_id"), self.client_id.to_string()));
        params.push((String::from_str("client_secret"), String::from_str(secret.expose_secret())));
        params.push((String::from_str("refresh_token"), String::from_str(refresh_token.expose_secret())));
        params.push((String::from_str("grant_type"), String::from_str("refresh_token")));
        if scopes.len() > 0 {
            params.push((String::from_str("scope"), join_strings(scopes, " ")));
        }
        proof {
            let expected = seq![
                ("client_id"@, self.client_id_spec()@),
                ("client_secret"@, self.client_secret_spec()->0),
                ("refresh_token"@, refresh_token@),
                ("grant_type"@, "refresh_token"@),
            ] + if scopes@.len() > 0 {
                seq![("scope"@, scope_param(scopes@))]
            } else {
                Seq::empty()
            };
            assert(query_view(params@) =~= expected);
        }
        Ok(params)
    }

    /// The form that starts the device flow: client id and the scopes. At
    /// least one scope is required.
    pub fn device_authorization_form(&self, scopes: &Vec<String>) -> (r: Result<
        Vec<(String, String)>,
        AuthError,
    >)
        ensures
            scopes@.len() == 0 ==> (r matches Err(AuthError::Configuration(m)) && m@
                == "device authorization requires at least one scope"@),
            scopes@.len() > 0 ==> (r matches Ok(f) && query_view(f@) == seq![
                ("client_id"@, self.client_id_spec()@),
                ("scopes"@, scope_param(scopes@)),
            ]),
    {
        if scopes.len() == 0 {
            return Err(AuthError::configuration("device authorization requires at least one scope"));
        }
        let mut params: Vec<(String, String)> = Vec::new();
        params.push((String::from_str("client_id"), self.client_id.to_string()));
        params.push((String::from_str("scopes"), join_strings(scopes, " ")));
        assert(query_view(params@) =~= seq![
            ("client_id"@, self.client_id_spec()@),
            ("scopes"@, scope_param(scopes@)),
        ]);
        Ok(params)
    }

    /// The form of one device-token poll: client id, device code and the
    /// device grant type, then the scopes when there are any.
    pub fn device_poll_form(&self, authorization: &DeviceAuthorization) -> (r: Vec<(String, String)>)
        ensures
            query_view(r@) == seq![
                ("client_id"@, self.client_id_spec()@),
                ("device_code"@, authorization.device_code@),
                ("grant_type"@, "urn:ietf:params:oauth:grant-type:device_code"@),
            ] + if authorization.scopes@.len() > 0 {
                seq![("scopes"@, scope_param(authorization.scopes@))]
            } else {
                Seq::empty()
            },
    {
        let mut params: Vec<(String, String)> = Vec::new();
        params.push((String::from_str("client_id"), self.client_id.to_string()));
        params.push((String::from_str("device_code"), authorization.device_code.clone()));
        params.push((String::from_str("grant_type"), String::from_str("urn:ietf:params:oauth:grant-type:device_code")));
        if authorization.scopes.len() > 0 {
            params.push((String::from_str("scopes"), join_strings(&authorization.scopes, " ")));
        }
        proof {
            let expected = seq![
                ("client_id"@, self.client_id_spec()@),
                ("device_code"@, authorization.device_code@),
                ("grant_type"@, "urn:ietf:params:oauth:grant-type:device_code"@),
            ] + if authorization.scopes@.len() > 0 {
                seq![("scopes"@, scope_param(authorization.scopes@))]
            } else {
                Seq::empty()
            };
            assert(query_view(params@) =~= expected);
        }
        params
    }

    /// The app token a successful client-credentials response describes.
    pub fn app_token_from_response(&self, token: TokenResponseBody, now: Timestamp) -> (r:
        AppAccessToken)
        requires
            token.expires_in matches Some(e) ==> in_datetime_range(now.unix_nanos_spec()
                + signed_secs(e) * 1_000_000_000),
        ensures
            r.access_token@ == token.access_token@,
            r.client_id@ == self.client_id_spec()@,
            r.scopes == token.scope,
            match token.expires_in {
                Some(e) => r.expires_at matches Some(t) && t.unix_nanos_spec()
                    == now.unix_nanos_spec() + signed_secs(e) * 1_000_000_000,
                None => r.expires_at is None,
            },
    {
        let expires_at = token.expires_at(now);
        AppAccessToken::new(
            AccessToken::from_string(token.access_token),
            self.client_id.clone(),
            expires_at,
            token.scope,
        )
    }

    /// The user token a successful token response describes, once the new
    /// access token has been validated: validation must succeed and name the
    /// user, and its scopes stand in when the response listed none.
    pub fn user_token_from_response(
        &self,
        operation: &str,
        token: TokenResponseBody,
        validation: TokenValidationStatus,
        now: Timestamp,
    ) -> (r: Result<UserAccessToken, AuthError>)
        requires
            token.expires_in matches Some(e) ==> in_datetime_range(now.unix_nanos_spec()
                + signed_secs(e) * 1_000_000_000),
        ensures
            validation == TokenValidationStatus::Invalid ==> (r matches Err(
                AuthError::OAuth { operation: o, message: m },
            ) && o@ == operation@ && m@ == "newly issued user token failed validation"@),
            validation matches TokenValidationStatus::Valid(v) ==> match v.user_id {
                None => r matches Err(AuthError::OAuth { operation: o, message: m }) && o@
                    == operation@ && m@ == "validated user token did not include a user_id"@,
                Some(u) => r matches Ok(t) && t.access_token@ == token.access_token@
                    && t.user_id == u && t.client_id@ == self.client_id_spec()@ && t.login
                    == v.login && (t.scopes == if token.scope@.len() == 0 {
                    v.scopes
                } else {
                    token.scope
                }) && match token.refresh_token {
                    Some(rt) => t.refresh_token matches Some(x) && x@ == rt@,
                    None => t.refresh_token is None,
                } && match token.expires_in {
                    Some(e) => t.expires_at matches Some(x) && x.unix_nanos_spec()
                        == now.unix_nanos_spec() + signed_secs(e) * 1_000_000_000,
                    None => t.expires_at is None,
                },
            },
    {
        let expires_at = token.expires_at(now);
        let validation = match validation {
            TokenValidationStatus::Valid(v) => v,
            TokenValidationStatus::Invalid => {
                return Err(AuthError::oauth(operation, String::from_str("newly issued user token failed validation")));
            },
        };
        let user_id = match validation.user_id {
            Some(u) => u,
            None => {
                return Err(AuthError::oauth(operation, String::from_str("validated user token did not include a user_id")));
            },
        };
        let access_token = AccessToken::from_string(token.access_token);
        let refresh_token = match token.refresh_token {
            Some(rt) => Some(RefreshToken::from_string(rt)),
            None => None,
        };
        let scopes = if token.scope.len() == 0 {
            validation.scopes
        } else {
            token.scope
        };
        Ok(UserAccessToken::new(
            access_token,
            refresh_token,
            expires_at,
            user_id,
            self.client_id.clone(),
            scopes,
            validation.login,
        ))
    }
}

/// `secs` read as a signed 64-bit count, as `as i64` does: values past
/// `i64::MAX` wrap to negative.
pub open spec fn signed_secs(secs: u64) -> int {
    if secs <= i64::MAX {
        secs as int
    } else {
        secs - 0x1_0000_0000_0000_0000
    }
}

/// Body of a successful token response.
#[derive(Clone, Debug, PartialEq, Eq)]
pub struct TokenResponseBody {
    /// The issued access token.
    pub access_token: String,
    /// Seconds until expiry.
    pub expires_in: Option<u64>,
    /// The issued refresh token.
    pub refresh_token: Option<String>,
    /// Granted scopes.
    pub scope: Vec<String>,
}

impl TokenResponseBody {
    /// Whether the expiry counted from `now` lies in the range of
    /// date-times, as `expires_at` needs.
    pub fn expires_at_in_range(&self, now: Timestamp) -> (r: bool)
        ensures
            r == (self.expires_in matches Some(e) ==> in_datetime_range(now.unix_nanos_spec()
                + signed_secs(e) * 1_000_000_000)),
    {
        match self.expires_in {
            None => true,
            Some(e) => {
                let secs: i128 = if e <= 0x7FFF_FFFF_FFFF_FFFF {
                    e as i128
                } else {
                    (e as i128) - 0x1_0000_0000_0000_0000
                };
                let n: i128 = now.unix_nanos() + secs * 1_000_000_000;
                -377_705_116_800_000_000_000i128 <= n && n <= 253_402_300_799_999_999_999i128
            },
        }
    }

    /// When the token expires, counted from `now`.
    pub fn expires_at(&self, now: Timestamp) -> (r: Option<Timestamp>)
        requires
            self.expires_in matches Some(e) ==> in_datetime_range(now.unix_nanos_spec()
                + signed_secs(e) * 1_000_000_000),
        ensures
            match self.expires_in {
                Some(e) => r matches Some(t) && t.unix_nanos_spec() == now.unix_nanos_spec()
                    + signed_secs(e) * 1_000_000_000,
                None => r is None,
            },
    {
        match self.expires_in {
            None => None,
            Some(e) => {
                let secs: i128 = if e <= 0x7FFF_FFFF_FFFF_FFFF {
                    e as i128
                } else {
                    (e as i128) - 0x1_0000_0000_0000_0000
                };
                let n: i128 = now.unix_nanos() + secs * 1_000_000_000;
                Timestamp::from_unix_nanos(n)
            },
        }
    }
}

/// Body of a successful `/validate` response.
#[derive(Clone, Debug, PartialEq, Eq)]
pub struct ValidateResponseBody {
    /// Client the token was issued to.
    pub client_id: String,
    /// Login of the token's user.
    pub login: Option<String>,
    /// Granted scopes.
    pub scopes: Option<Vec<String>>,
    /// User the token belongs to.
    pub user_id: Option<String>,
    /// Seconds until expiry.
    pub expires_in: u64,
}

impl ValidateResponseBody {
    /// The validation result the body describes; absent scopes are none.
    pub fn into_validation(self) -> (r: TokenValidation)
        ensures
            r.client_id@ == self.client_id@,
            r.login == self.login,
            r.scopes@ == match self.scopes {
                Some(s) => s@,
                None => Seq::<String>::empty(),
            },
            match self.user_id {
                Some(u) => r.user_id matches Some(x) && x@ == u@,
                None => r.user_id is None,
            },
            r.expires_in.total_nanos() == self.expires_in * 1_000_000_000,
    {
        let scopes = match self.scopes {
            Some(s) => s,
            None => Vec::new(),
        };
        let user_id = match self.user_id {
            Some(u) => Some(UserId::from_string(u)),
            None => None,
        };
        TokenValidation {
            client_id: ClientId::from_string(self.client_id),
            user_id,
            login: self.login,
            scopes,
            expires_in: TimeSpan::from_secs(self.expires_in),
        }
    }
}

/// Body of a successful device authorization response.
#[derive(Clone, Debug, PartialEq, Eq)]
pub struct DeviceAuthorizationBody {
    /// Device code to poll with.
    pub device_code: String,
    /// Code the user enters.
    pub user_code: String,
    /// Where the user enters the code.
    pub verification_uri: String,
    /// Verification URI with the code filled in.
    pub verification_uri_complete: Option<String>,
    /// Seconds until the device code expires.
    pub expires_in: u64,
    /// Seconds to wait between polls.
    pub interval: Option<u64>,
}

impl DeviceAuthorizationBody {
    /// The device authorization the body describes for the requested scopes;
    /// the polling interval defaults to five seconds.
    pub fn into_authorization(self, scopes: &Vec<String>) -> (r: DeviceAuthorization)
        ensures
            r.device_code == self.device_code,
            r.user_code == self.user_code,
            r.verification_uri == self.verification_uri,
            r.verification_uri_complete == self.verification_uri_complete,
            r.expires_in.total_nanos() == self.expires_in * 1_000_000_000,
            r.interval.total_nanos() == match self.interval {
                Some(i) => i as int,
                None => 5,
            } * 1_000_000_000,
            string_views(r.scopes@) == string_views(scopes@),
    {
        let interval = match self.interval {
            Some(i) => i,
            None => 5,
        };
        let mut copied: Vec<String> = Vec::new();
        let mut i: usize = 0;
        while i < scopes.len()
            invariant
                i <= scopes.len(),
                string_views(copied@) == string_views(scopes@.take(i as int)),
            decreases scopes.len() - i,
        {
            let ghost before = copied@;
            let scope = scopes[i].clone();
            copied.push(scope);
            assert(string_views(scopes@.take(i as int + 1)) =~= string_views(scopes@.take(i as int)).push(scopes@[i as int]@));
            assert(string_views(copied@) =~= string_views(before).push(scope@));
            i = i + 1;
        }
        assert(scopes@.take(scopes.len() as int) == scopes@);
        DeviceAuthorization {
            device_code: self.device_code,
            user_code: self.user_code,
            verification_uri: self.verification_uri,
            verification_uri_complete: self.verification_uri_complete,
            expires_in: TimeSpan::from_secs(self.expires_in),
            interval: TimeSpan::from_secs(interval),
            scopes: copied,
        }
    }
}

/// Body of an OAuth error response.
#[derive(Clone, Debug, PartialEq, Eq)]
pub struct ErrorBody {
    /// Twitch `error` field.
    pub error: Option<String>,
    /// Twitch `message` field.
    pub message: Option<String>,
    /// Status the body reports.
    pub status: Option<u16>,
}

/// The text of an OAuth error: the body's own status when it names one,
/// else the response status, then the `error` and `message` fields.
pub open spec fn oauth_error_text(
    status: u16,
    error: Option<Seq<char>>,
    message: Option<Seq<char>>,
) -> Seq<char> {
    let s = decimal(status as nat);
    match (error, message) {
        (Some(e), Some(m)) => s + " "@ + e + ": "@ + m,
        (_, Some(m)) => s + ": "@ + m,
        (Some(e), None) => s + ": "@ + e,
        (None, None) => "unexpected HTTP status "@ + s,
    }
}

/// The text of an optional string.
pub open spec fn opt_view(v: Option<String>) -> Option<Seq<char>> {
    match v {
        Some(s) => Some(s@),
        None => None,
    }
}

impl ErrorBody {
    /// Renders the error for a response with the given status.
    pub fn render_with_status(&self, status: u16) -> (r: String)
        ensures
            r@ == oauth_error_text(
                match self.status {
                    Some(s) => s,
                    None => status,
                },
                opt_view(self.error),
                opt_view(self.message),
            ),
    {
        let status = match self.status {
            Some(s) => s,
            None => status,
        };
        let mut out = String::new();
        match (&self.error, &self.message) {
            (Some(e), Some(m)) => {
                push_decimal(&mut out, status as u64);
                out.append(" ");
                out.append(e.as_str());
                out.append(": ");
                out.append(m.as_str());
            },
            (_, Some(m)) => {
                push_decimal(&mut out, status as u64);
                out.append(": ");
                out.append(m.as_str());
            },
            (Some(e), None) => {
                push_decimal(&mut out, status as u64);
                out.append(": ");
                out.append(e.as_str());
            },
            (None, None) => {
                out.append("unexpected HTTP status ");
                push_decimal(&mut out, status as u64);
            },
        }
        out
    }
}

/// What a `400` response to a device-token poll means, by its `message`:
/// still pending, slow down (five seconds more), denied, expired, or an
/// error.
pub fn device_poll_outcome(authorization: &DeviceAuthorization, error: &ErrorBody) -> (r: Result<
    DeviceTokenPoll,
    AuthError,
>)
    requires
        opt_view(error.message) == Some("slow_down"@) ==> authorization.interval.whole_secs() + 5
            <= u64::MAX,
    ensures
        opt_view(error.message) == Some("authorization_pending"@) ==> (r matches Ok(
            DeviceTokenPoll::Pending { interval },
        ) && interval == authorization.interval),
        opt_view(error.message) == Some("slow_down"@) ==> (r matches Ok(
            DeviceTokenPoll::SlowDown { interval },
        ) && interval.total_nanos() == authorization.interval.total_nanos() + 5 * 1_000_000_000),
        opt_view(error.message) == Some("access_denied"@) ==> (r matches Ok(DeviceTokenPoll::Denied)),
        opt_view(error.message) == Some("expired_token"@) || opt_view(error.message) == Some(
            "invalid device code"@,
        ) ==> (r matches Ok(DeviceTokenPoll::Expired)),
        !(opt_view(error.message) == Some("authorization_pending"@) || opt_view(error.message)
            == Some("slow_down"@) || opt_view(error.message) == Some("access_denied"@)
            || opt_view(error.message) == Some("expired_token"@) || opt_view(error.message)
            == Some("invalid device code"@)) ==> (r matches Err(
            AuthError::OAuth { operation: o, message: m },
        ) && o@ == "device_poll"@ && m@ == oauth_error_text(
            match error.status {
                Some(s) => s,
                None => 400,
            },
            opt_view(error.error),
            opt_view(error.message),
        )),
{
    proof {
        reveal_strlit("authorization_pending");
        reveal_strlit("slow_down");
        reveal_strlit("access_denied");
        reveal_strlit("expired_token");
        reveal_strlit("invalid device code");
        assert("authorization_pending"@.len() == 21 && "slow_down"@.len() == 9
            && "access_denied"@.len() == 13 && "expired_token"@.len() == 13
            && "invalid device code"@.len() == 19);
        assert("access_denied"@[0] != "expired_token"@[0]);
    }
    let message = match &error.message {
        Some(m) => m.clone(),
        None => {
            return Err(AuthError::oauth("device_poll", error.render_with_status(400)));
        },
    };
    if message == String::from_str("authorization_pending") {
        Ok(DeviceTokenPoll::Pending { interval: authorization.interval })
    } else if message == String::from_str("slow_down") {
        let nanos = authorization.interval.subsec_nanos();
        assert(nanos < 1_000_000_000);
        match authorization.interval.checked_add(TimeSpan::from_secs(5)) {
            Some(interval) => Ok(DeviceTokenPoll::SlowDown { interval }),
            None => Err(AuthError::oauth("device_poll", error.render_with_status(400))),
        }
    } else if message == String::from_str("access_denied") {
        Ok(DeviceTokenPoll::Denied)
    } else if message == String::from_str("expired_token") || message == String::from_str(
        "invalid device code",
    ) {
        Ok(DeviceTokenPoll::Expired)
    } else {
        Err(AuthError::oauth("device_poll", error.render_with_status(400)))
    }
}

/// What a reply from the token validation endpoint means, by its HTTP
/// status.
#[derive(Clone, Copy, Debug, PartialEq, Eq)]
pub enum ValidationReply {
    /// `200 OK`: the body describes the valid token.
    Valid,
    /// `401 Unauthorized`: Twitch rejected the token.
    Invalid,
    /// Anything else: the request failed.
    Failed,
}

/// Classifies a reply from the token validation endpoint.
pub fn validation_reply(status: u16) -> (r: ValidationReply)
    ensures
        r == if status == 200 {
            ValidationReply::Valid
        } else if status == 401 {
            ValidationReply::Invalid
        } else {
            ValidationReply::Failed
        },
{
    if status == 200 {
        ValidationReply::Valid
    } else if status == 401 {
        ValidationReply::Invalid
    } else {
        ValidationReply::Failed
    }
}

/// What a reply to a device-token poll means, by its HTTP status.
#[derive(Clone, Copy, Debug, PartialEq, Eq)]
pub enum PollReply {
    /// `200 OK`: the body is the issued token.
    Token,
    /// `400 Bad Request`: the body's message says how the flow stands.
    Pending,
    /// Anything else: the request failed.
    Failed,
}

/// Classifies a reply to a device-token poll.
pub fn poll_reply(status: u16) -> (r: PollReply)
    ensures
        r == if status == 200 {
            PollReply::Token
        } else if status == 400 {
            PollReply::Pending
        } else {
            PollReply::Failed
        },
{
    if status == 200 {
        PollReply::Token
    } else if status == 400 {
        PollReply::Pending
    } else {
        PollReply::Failed
    }
}

/// The forms the `scope` field of a token response takes.
#[derive(Clone, Debug, PartialEq, Eq)]
pub enum ScopeRepr {
    /// A list of scopes.
    List(Vec<String>),
    /// Scopes separated by white space.
    Text(String),
    /// No value.
    Empty,
}

/// The scopes a `scope` field lists: a list as it stands, a text split at
/// white space with empty pieces dropped, and none for an empty field.
pub fn scopes_from_repr(repr: ScopeRepr) -> (r: Vec<String>)
    ensures
        match repr {
            ScopeRepr::List(v) => r@ == v@,
            ScopeRepr::Text(t) => string_views(r@) == words(t@),
            ScopeRepr::Empty => r@.len() == 0,
        },
{
    match repr {
        ScopeRepr::List(v) => v,
        ScopeRepr::Text(t) => split_words(t.as_str()),
        ScopeRepr::Empty => Vec::new(),
    }
}

} // verus!
