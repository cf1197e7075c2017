//! Token types: keys, stored tokens, issued app and user tokens, and
//! validation results.

use crate::auth::error::AuthError;
use crate::id::{ClientId, UserId};
use crate::secret::{AccessToken, RefreshToken};
use crate::text::clone_strings;
use crate::time::{TimeSpan, Timestamp};
use vstd::prelude::*;
use vstd::string::*;

verus! {

/// Identifies a stored token by owner and kind.
#[derive(Debug, PartialEq, Eq, Hash)]
pub enum TokenKey {
    /// Application token identified by client ID.
    App(ClientId),
    /// User token identified by client ID and user ID.
    User {
        /// Client the token was issued to.
        client_id: ClientId,
        /// User the token belongs to.
        user_id: UserId,
    },
}

/// What identifies a key: whether it is a user key, its client's text, and
/// its user's text (empty for app keys).
pub type KeyView = (bool, Seq<char>, Seq<char>);

impl View for TokenKey {
    type V = KeyView;

    open spec fn view(&self) -> KeyView {
        match self {
            TokenKey::App(c) => (false, c@, Seq::empty()),
            TokenKey::User { client_id, user_id } => (true, client_id@, user_id@),
        }
    }
}

impl Clone for TokenKey {
    fn clone(&self) -> (r: Self)
        ensures
            r@ == self@,
    {
        match self {
            TokenKey::App(c) => TokenKey::App(c.clone()),
            TokenKey::User { client_id, user_id } => TokenKey::User {
                client_id: client_id.clone(),
                user_id: user_id.clone(),
            },
        }
    }
}

impl TokenKey {
    /// Key of the app token of `client_id`.
    pub fn app(client_id: ClientId) -> (r: Self)
        ensures
            r@ == (false, client_id@, Seq::<char>::empty()),
    {
        TokenKey::App(client_id)
    }

    /// Key of the user token of `user_id` issued to `client_id`.
    pub fn user(client_id: ClientId, user_id: UserId) -> (r: Self)
        ensures
            r@ == (true, client_id@, user_id@),
    {
        TokenKey::User { client_id, user_id }
    }

    /// Client the keyed token was issued to.
    pub fn client_id(&self) -> (r: &ClientId)
        ensures
            r@ == self@.1,
    {
        match self {
            TokenKey::App(c) => c,
            TokenKey::User { client_id, .. } => client_id,
        }
    }

    /// Whether two keys identify the same token.
    pub fn same_key(&self, other: &TokenKey) -> (r: bool)
        ensures
            r == (self@ == other@),
    {
        match (self, other) {
            (TokenKey::App(a), TokenKey::App(b)) => a.same_as(b),
            (TokenKey::User { client_id: a, user_id: u }, TokenKey::User { client_id: b, user_id: v }) => {
                a.same_as(b) && u.same_as(v)
            },
            _ => false,
        }
    }
}

/// Token kind recognized by the auth layer.
#[derive(Clone, Copy, Debug, PartialEq, Eq)]
pub enum TokenKind {
    /// App access token.
    App,
    /// User access token.
    User,
}

/// Token persisted through the token store.
#[derive(Clone, Debug)]
pub struct StoredToken {
    /// Kind of token that was issued.
    pub kind: TokenKind,
    /// Granted OAuth scopes.
    pub scopes: Vec<String>,
    /// Access token secret.
    pub access_token: AccessToken,
    /// Refresh token secret, when refresh is supported.
    pub refresh_token: Option<RefreshToken>,
    /// Expiry timestamp, when one is known.
    pub expires_at: Option<Timestamp>,
    /// Subject that owns the token, when the token is user-bound.
    pub subject: Option<UserId>,
    /// Client identifier used when issuing the token.
    pub client_id: ClientId,
}

/// Message of the error for a user token stored without its user.
pub open spec fn subjectless_user_token_message() -> Seq<char> {
    "user token has no subject"@
}

impl StoredToken {
    /// An app token of `client_id`.
    pub fn app(
        access_token: AccessToken,
        client_id: ClientId,
        expires_at: Option<Timestamp>,
        scopes: Vec<String>,
    ) -> (r: Self)
        ensures
            r == (StoredToken {
                kind: TokenKind::App,
                scopes,
                access_token,
                refresh_token: None,
                expires_at,
                subject: None,
                client_id,
            }),
    {
        StoredToken {
            kind: TokenKind::App,
            scopes,
            access_token,
            refresh_token: None,
            expires_at,
            subject: None,
            client_id,
        }
    }

    /// A user token of `user_id` issued to `client_id`.
    pub fn user(
        access_token: AccessToken,
        refresh_token: Option<RefreshToken>,
        client_id: ClientId,
        user_id: UserId,
        expires_at: Option<Timestamp>,
        scopes: Vec<String>,
    ) -> (r: Self)
        ensures
            r == (StoredToken {
                kind: TokenKind::User,
                scopes,
                access_token,
                refresh_token,
                expires_at,
                subject: Some(user_id),
                client_id,
            }),
    {
        StoredToken {
            kind: TokenKind::User,
            scopes,
            access_token,
            refresh_token,
            expires_at,
            subject: Some(user_id),
            client_id,
        }
    }

    /// The access token secret.
    pub fn access_token(&self) -> (r: &AccessToken)
        ensures
            *r == self.access_token,
    {
        &self.access_token
    }

    /// The key the token is stored under: its client for app tokens, its
    /// client and subject for user tokens. A user token without a subject has
    /// no key.
    pub fn key(&self) -> (r: Result<TokenKey, AuthError>)
        ensures
            self.kind == TokenKind::App ==> (r matches Ok(k) && k@ == (
                false,
                self.client_id@,
                Seq::<char>::empty(),
            )),
            self.kind == TokenKind::User ==> match self.subject {
                Some(u) => r matches Ok(k) && k@ == (true, self.client_id@, u@),
                None => r matches Err(AuthError::Store { operation: o, message: m }) && o@
                    == "key"@ && m@ == subjectless_user_token_message(),
            },
    {
        match self.kind {
            TokenKind::App => Ok(TokenKey::App(self.client_id.clone())),
            TokenKind::User => match &self.subject {
                Some(u) => Ok(TokenKey::User { client_id: self.client_id.clone(), user_id: u.clone() }),
                None => Err(AuthError::store("key", String::from_str("user token has no subject"))),
            },
        }
    }
}

/// App access token returned by a provider.
#[derive(Debug)]
pub struct AppAccessToken {
    /// Access token secret.
    pub access_token: AccessToken,
    /// Expiry timestamp, when one is known.
    pub expires_at: Option<Timestamp>,
    /// Client identifier that owns the token.
    pub client_id: ClientId,
    /// Granted scopes.
    pub scopes: Vec<String>,
}

impl AppAccessToken {
    /// Assembles an app token.
    pub fn new(
        access_token: AccessToken,
        client_id: ClientId,
        expires_at: Option<Timestamp>,
        scopes: Vec<String>,
    ) -> (r: Self)
        ensures
            r == (AppAccessToken { access_token, expires_at, client_id, scopes }),
    {
        AppAccessToken { access_token, expires_at, client_id, scopes }
    }

    /// The access token secret.
    pub fn access_token(&self) -> (r: &AccessToken)
        ensures
            *r == self.access_token,
    {
        &self.access_token
    }
}

/// User access token returned by a provider.
#[derive(Debug)]
pub struct UserAccessToken {
    /// Access token secret.
    pub access_token: AccessToken,
    /// Refresh token secret, when one exists.
    pub refresh_token: Option<RefreshToken>,
    /// Expiry timestamp, when one is known.
    pub expires_at: Option<Timestamp>,
    /// User that owns the token.
    pub user_id: UserId,
    /// Client identifier the token was issued to.
    pub client_id: ClientId,
    /// Granted scopes.
    pub scopes: Vec<String>,
    /// Login of the user, when validation reported it.
    pub login: Option<String>,
}

impl UserAccessToken {
    /// Assembles a user token.
    pub fn new(
        access_token: AccessToken,
        refresh_token: Option<RefreshToken>,
        expires_at: Option<Timestamp>,
        user_id: UserId,
        client_id: ClientId,
        scopes: Vec<String>,
        login: Option<String>,
    ) -> (r: Self)
        ensures
            r == (UserAccessToken {
                access_token,
                refresh_token,
                expires_at,
                user_id,
                client_id,
                scopes,
                login,
            }),
    {
        UserAccessToken { access_token, refresh_token, expires_at, user_id, client_id, scopes, login }
    }

    /// The access token secret.
    pub fn access_token(&self) -> (r: &AccessToken)
        ensures
            *r == self.access_token,
    {
        &self.access_token
    }
}

/// What an app token holds: its secret's text, its expiry, its client's
/// text, and its scopes.
pub type AppTokenView = (Seq<char>, Option<Timestamp>, Seq<char>, Seq<String>);

impl View for AppAccessToken {
    type V = AppTokenView;

    open spec fn view(&self) -> AppTokenView {
        (self.access_token@, self.expires_at, self.client_id@, self.scopes@)
    }
}

impl Clone for AppAccessToken {
    fn clone(&self) -> (r: Self)
        ensures
            r@ == self@,
    {
        AppAccessToken {
            access_token: self.access_token.clone(),
            expires_at: self.expires_at,
            client_id: self.client_id.clone(),
            scopes: clone_strings(&self.scopes),
        }
    }
}

/// The text of an optional refresh token.
pub open spec fn refresh_text(t: Option<RefreshToken>) -> Option<Seq<char>> {
    match t {
        Some(r) => Some(r@),
        None => None,
    }
}

/// What a user token holds: its secret's text, its refresh token's text,
/// its expiry, its user's and client's texts, its scopes and its login.
pub type UserTokenView = (
    Seq<char>,
    Option<Seq<char>>,
    Option<Timestamp>,
    Seq<char>,
    Seq<char>,
    Seq<String>,
    Option<String>,
);

impl View for UserAccessToken {
    type V = UserTokenView;

    open spec fn view(&self) -> UserTokenView {
        (
            self.access_token@,
            refresh_text(self.refresh_token),
            self.expires_at,
            self.user_id@,
            self.client_id@,
            self.scopes@,
            self.login,
        )
    }
}

impl Clone for UserAccessToken {
    fn clone(&self) -> (r: Self)
        ensures
            r@ == self@,
    {
        UserAccessToken {
            access_token: self.access_token.clone(),
            refresh_token: match &self.refresh_token {
                Some(t) => Some(t.clone()),
                None => None,
            },
            expires_at: self.expires_at,
            user_id: self.user_id.clone(),
            client_id: self.client_id.clone(),
            scopes: clone_strings(&self.scopes),
            login: match &self.login {
                Some(l) => Some(l.clone()),
                None => None,
            },
        }
    }
}

/// What `/validate` reported about a valid token.
#[derive(Clone, Debug, PartialEq, Eq)]
pub struct TokenValidation {
    /// Client the token was issued to.
    pub client_id: ClientId,
    /// User the token belongs to; absent for app tokens.
    pub user_id: Option<UserId>,
    /// Login of that user.
    pub login: Option<String>,
    /// Granted scopes.
    pub scopes: Vec<String>,
    /// Time left until the token expires.
    pub expires_in: TimeSpan,
}

/// Result of validating a token.
#[derive(Clone, Debug, PartialEq, Eq)]
pub enum TokenValidationStatus {
    /// The token is valid.
    Valid(TokenValidation),
    /// Twitch rejected the token.
    Invalid,
}

} // verus!
