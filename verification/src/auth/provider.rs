//! Token providers: the Twitch-backed provider's decisions (which requests
//! it makes for which client, and what it refuses; the requests themselves
//! are sent by the caller), and a static provider that answers from
//! configured and queued responses.

use crate::auth::api::{missing_secret_message, scope_param, TwitchAuthApi};
use crate::auth::error::AuthError;
use crate::auth::table::{value_under, KeyedTable, TableEntry};
use crate::auth::token::{
    subjectless_user_token_message, AppAccessToken, KeyView, StoredToken, TokenKey, TokenKind,
    TokenValidationStatus, UserAccessToken,
};
use crate::id::{ClientId, UserId};
use crate::secret::RefreshToken;
use crate::helix::users::query_view;
use vstd::prelude::*;
use vstd::string::*;

verus! {

/// Message of the error for a request on behalf of another client.
pub open spec fn other_client_message() -> Seq<char> {
    "twitch provider is scoped to a different client_id"@
}

/// Message of the error for a user token requested without an exchange.
pub open spec fn no_user_mint_message() -> Seq<char> {
    "twitch provider cannot mint user tokens without an authorization-code or device-code exchange"@
}

/// Twitch-backed provider for client credentials, validation, and refresh,
/// scoped to the client of its OAuth endpoints.
#[derive(Clone, Debug)]
pub struct TwitchTokenProvider {
    api: TwitchAuthApi,
    default_scopes: Vec<String>,
}

impl TwitchTokenProvider {
    /// The OAuth endpoints the provider uses.
    pub closed spec fn api_spec(&self) -> TwitchAuthApi {
        self.api
    }

    /// Scopes requested for app tokens.
    pub closed spec fn default_scopes_spec(&self) -> Seq<String> {
        self.default_scopes@
    }

    /// Creates a provider over `api` requesting `default_scopes` for app
    /// tokens.
    pub fn new(api: TwitchAuthApi, default_scopes: Vec<String>) -> (r: Self)
        ensures
            r.api_spec() == api,
            r.default_scopes_spec() == default_scopes@,
    {
        TwitchTokenProvider { api, default_scopes }
    }

    /// The OAuth endpoints the provider uses.
    pub fn api(&self) -> (r: &TwitchAuthApi)
        ensures
            *r == self.api_spec(),
    {
        &self.api
    }

    /// Scopes requested for app tokens.
    pub fn default_scopes(&self) -> (r: &Vec<String>)
        ensures
            r@ == self.default_scopes_spec(),
    {
        &self.default_scopes
    }

    fn require_own_client(&self, operation: &str, client_id: &ClientId) -> (r: Result<(), AuthError>)
        ensures
            r is Ok <==> client_id@ == self.api_spec().client_id_spec()@,
            r matches Err(e) ==> (e matches AuthError::Provider { operation: o, message: m } && o@
                == operation@ && m@ == other_client_message()),
    {
        if client_id.same_as(self.api.client_id()) {
            Ok(())
        } else {
            Err(AuthError::provider(operation, String::from_str("twitch provider is scoped to a different client_id")))
        }
    }

    /// The client-credentials form an app token for `client_id` is
    /// requested with, asking for the default scopes; refused for any other
    /// client than the provider's, and without a client secret.
    pub fn app_token_form(&self, client_id: &ClientId) -> (r: Result<
        Vec<(String, String)>,
        AuthError,
    >)
        ensures
            client_id@ != self.api_spec().client_id_spec()@ ==> (r matches Err(
                AuthError::Provider { operation: o, message: m },
            ) && o@ == "app_token"@ && m@ == other_client_message()),
            client_id@ == self.api_spec().client_id_spec()@ ==> match self.api_spec().client_secret_spec() {
                Some(s) => r matches Ok(f) && query_view(f@) == seq![
                    ("client_id"@, client_id@),
                    ("client_secret"@, s),
                    ("grant_type"@, "client_credentials"@),
                ] + if self.default_scopes_spec().len() > 0 {
                    seq![("scope"@, scope_param(self.default_scopes_spec()))]
                } else {
                    Seq::empty()
                },
                None => r matches Err(AuthError::OAuth { operation: o, message: m }) && o@
                    == "client_credentials"@ && m@ == missing_secret_message(),
            },
    {
        self.require_own_client("app_token", client_id)?;
        self.api.client_credentials_form(&self.default_scopes)
    }

    /// The answer to a request for a user token: the provider cannot mint
    /// one without an authorization-code or device-code exchange, and
    /// refuses other clients first.
    pub fn user_token_refusal(&self, client_id: &ClientId, user_id: &UserId) -> (r: AuthError)
        ensures
            r matches AuthError::Provider { operation: o, message: m } && o@ == "user_token"@ && m@
                == if client_id@ == self.api_spec().client_id_spec()@ {
                no_user_mint_message()
            } else {
                other_client_message()
            },
    {
        match self.require_own_client("user_token", client_id) {
            Err(e) => e,
            Ok(()) => AuthError::provider(
                "user_token",
                String::from_str(
                    "twitch provider cannot mint user tokens without an authorization-code or device-code exchange",
                ),
            ),
        }
    }

    /// The refresh-token form a user token of `client_id` is refreshed
    /// with; refused for any other client than the provider's, and without
    /// a client secret.
    pub fn refresh_form(
        &self,
        client_id: &ClientId,
        refresh_token: &RefreshToken,
        scopes: &Vec<String>,
    ) -> (r: Result<Vec<(String, String)>, AuthError>)
        ensures
            client_id@ != self.api_spec().client_id_spec()@ ==> (r matches Err(
                AuthError::Provider { operation: o, message: m },
            ) && o@ == "refresh_user_token"@ && m@ == other_client_message()),
            client_id@ == self.api_spec().client_id_spec()@ ==> match self.api_spec().client_secret_spec() {
                Some(s) => r matches Ok(f) && query_view(f@) == seq![
                    ("client_id"@, client_id@),
                    ("client_secret"@, s),
                    ("refresh_token"@, refresh_token@),
                    ("grant_type"@, "refresh_token"@),
                ] + if scopes@.len() > 0 {
                    seq![("scope"@, scope_param(scopes@))]
                } else {
                    Seq::empty()
                },
                None => r matches Err(AuthError::OAuth { operation: o, message: m }) && o@
                    == "refresh_token"@ && m@ == missing_secret_message(),
            },
    {
        self.require_own_client("refresh_user_token", client_id)?;
        self.api.refresh_token_form(refresh_token, scopes)
    }
}

/// Message of the error for an app token without a configured response.
pub open spec fn no_app_response_message() -> Seq<char> {
    "no app-token response configured"@
}

/// Message of the error for a user token without a configured response.
pub open spec fn no_user_response_message() -> Seq<char> {
    "no user-token response configured"@
}

/// Message of the error for a refresh without a queued response.
pub open spec fn no_refresh_response_message() -> Seq<char> {
    "no refresh response configured"@
}

/// A request counter after one more request; it wraps around at the top,
/// as an atomic `fetch_add` does.
pub open spec fn next_count(n: usize) -> usize {
    if n == usize::MAX {
        0
    } else {
        (n + 1) as usize
    }
}

/// Whether `copy` answers as `original` does: the same token by its view,
/// or the same error.
pub open spec fn same_app_result(
    original: Result<AppAccessToken, AuthError>,
    copy: Result<AppAccessToken, AuthError>,
) -> bool {
    match (original, copy) {
        (Ok(a), Ok(b)) => a@ == b@,
        (Err(a), Err(b)) => a == b,
        _ => false,
    }
}

/// Whether `copy` answers as `original` does: the same token by its view,
/// or the same error.
pub open spec fn same_user_result(
    original: Result<UserAccessToken, AuthError>,
    copy: Result<UserAccessToken, AuthError>,
) -> bool {
    match (original, copy) {
        (Ok(a), Ok(b)) => a@ == b@,
        (Err(a), Err(b)) => a == b,
        _ => false,
    }
}

/// The queue stored in a table entry, empty when there is none.
pub open spec fn queue_of<T>(q: Option<Vec<T>>) -> Seq<T> {
    match q {
        Some(v) => v@,
        None => Seq::empty(),
    }
}

/// The queue without its front; an empty queue stays empty.
pub open spec fn rest_of<T>(q: Seq<T>) -> Seq<T> {
    if q.len() > 0 {
        q.drop_first()
    } else {
        q
    }
}

/// The key a stored token is looked up by: its client for app tokens, its
/// client and subject for user tokens; none for a user token without a
/// subject.
pub open spec fn stored_token_key(t: StoredToken) -> Option<KeyView> {
    match t.kind {
        TokenKind::App => Some((false, t.client_id@, Seq::<char>::empty())),
        TokenKind::User => match t.subject {
            Some(u) => Some((true, t.client_id@, u@)),
            None => None,
        },
    }
}

/// The key of the app token of client `c`.
pub open spec fn app_key(c: Seq<char>) -> KeyView {
    (false, c, Seq::<char>::empty())
}

/// The key of the user token of user `u` issued to client `c`.
pub open spec fn user_key(c: Seq<char>, u: Seq<char>) -> KeyView {
    (true, c, u)
}

fn clone_app_result(r: &Result<AppAccessToken, AuthError>) -> (c: Result<AppAccessToken, AuthError>)
    ensures
        same_app_result(*r, c),
{
    match r {
        Ok(t) => Ok(t.clone()),
        Err(e) => Err(e.clone()),
    }
}

fn clone_user_result(r: &Result<UserAccessToken, AuthError>) -> (c: Result<UserAccessToken, AuthError>)
    ensures
        same_user_result(*r, c),
{
    match r {
        Ok(t) => Ok(t.clone()),
        Err(e) => Err(e.clone()),
    }
}

/// Appends `item` to the queue under `key`.
fn push_queued<T>(table: &mut KeyedTable<Vec<T>>, key: TokenKey, item: T)
    requires
        old(table).well_formed(),
    ensures
        final(table).well_formed(),
        forall|k: KeyView| #[trigger] queue_of(value_under(final(table).entries(), k)) == if k
            == key@ {
            queue_of(value_under(old(table).entries(), k)).push(item)
        } else {
            queue_of(value_under(old(table).entries(), k))
        },
{
    let ghost before = table.entries();
    let mut queue = match table.take(&key) {
        Some(q) => q,
        None => Vec::new(),
    };
    assert(queue@ == queue_of(value_under(before, key@)));
    queue.push(item);
    table.set(key, queue);
}

/// Removes and returns the front of the queue under `key`, if there is one.
fn pop_queued<T>(table: &mut KeyedTable<Vec<T>>, key: &TokenKey) -> (r: Option<T>)
    requires
        old(table).well_formed(),
    ensures
        final(table).well_formed(),
        queue_of(value_under(old(table).entries(), key@)).len() == 0 ==> r is None,
        queue_of(value_under(old(table).entries(), key@)).len() > 0 ==> r == Some(
            queue_of(value_under(old(table).entries(), key@))[0],
        ),
        forall|k: KeyView| #[trigger] queue_of(value_under(final(table).entries(), k)) == if k
            == key@ {
            rest_of(queue_of(value_under(old(table).entries(), k)))
        } else {
            queue_of(value_under(old(table).entries(), k))
        },
{
    let ghost before = table.entries();
    match table.take(key) {
        None => {
            None
        },
        Some(mut queue) => {
            if queue.len() == 0 {
                table.set(clone_key(key), queue);
                None
            } else {
                let item = queue.remove(0);
                table.set(clone_key(key), queue);
                Some(item)
            }
        },
    }
}

fn clone_key(key: &TokenKey) -> (r: TokenKey)
    ensures
        r@ == key@,
{
    key.clone()
}

/// Static provider for tests and examples: it answers from configured app
/// and user token responses and from queues of validation and refresh
/// responses, and counts the requests it receives.
#[derive(Debug)]
pub struct StaticTokenProvider {
    app_tokens: KeyedTable<Result<AppAccessToken, AuthError>>,
    user_tokens: KeyedTable<Result<UserAccessToken, AuthError>>,
    validations: KeyedTable<Vec<Result<TokenValidationStatus, AuthError>>>,
    refreshes: KeyedTable<Vec<Result<UserAccessToken, AuthError>>>,
    app_token_requests: usize,
    user_token_requests: usize,
    validation_requests: usize,
    refresh_requests: usize,
}

impl StaticTokenProvider {
    /// No table repeats a key.
    pub closed spec fn well_formed(&self) -> bool {
        &&& self.app_tokens.well_formed()
        &&& self.user_tokens.well_formed()
        &&& self.validations.well_formed()
        &&& self.refreshes.well_formed()
    }

    /// The configured app-token response of client `c`.
    pub closed spec fn app_response(&self, c: Seq<char>) -> Option<Result<AppAccessToken, AuthError>> {
        value_under(self.app_tokens.entries(), app_key(c))
    }

    /// The configured user-token response of user `u` of client `c`.
    pub closed spec fn user_response(&self, c: Seq<char>, u: Seq<char>) -> Option<
        Result<UserAccessToken, AuthError>,
    > {
        value_under(self.user_tokens.entries(), user_key(c, u))
    }

    /// The validation responses queued for the token key `k`, front first.
    pub closed spec fn validation_queue(&self, k: KeyView) -> Seq<
        Result<TokenValidationStatus, AuthError>,
    > {
        queue_of(value_under(self.validations.entries(), k))
    }

    /// The refresh responses queued for user `u` of client `c`, front first.
    pub closed spec fn refresh_queue(&self, c: Seq<char>, u: Seq<char>) -> Seq<
        Result<UserAccessToken, AuthError>,
    > {
        queue_of(value_under(self.refreshes.entries(), user_key(c, u)))
    }

    /// The four request counters: app tokens, user tokens, validations,
    /// refreshes.
    pub closed spec fn counts(&self) -> (usize, usize, usize, usize) {
        (
            self.app_token_requests,
            self.user_token_requests,
            self.validation_requests,
            self.refresh_requests,
        )
    }

    /// The configured app and user token responses, as tables.
    pub closed spec fn token_tables(&self) -> (
        Seq<TableEntry<Result<AppAccessToken, AuthError>>>,
        Seq<TableEntry<Result<UserAccessToken, AuthError>>>,
    ) {
        (self.app_tokens.entries(), self.user_tokens.entries())
    }

    /// The queued validation and refresh responses, as tables.
    pub closed spec fn queue_tables(&self) -> (
        Seq<TableEntry<Vec<Result<TokenValidationStatus, AuthError>>>>,
        Seq<TableEntry<Vec<Result<UserAccessToken, AuthError>>>>,
    ) {
        (self.validations.entries(), self.refreshes.entries())
    }

    /// Creates an empty static provider.
    pub fn new() -> (r: Self)
        ensures
            r.well_formed(),
            forall|c: Seq<char>| #[trigger] r.app_response(c) is None,
            forall|c: Seq<char>, u: Seq<char>| #[trigger] r.user_response(c, u) is None,
            forall|k: KeyView| #[trigger] r.validation_queue(k).len() == 0,
            forall|c: Seq<char>, u: Seq<char>| #[trigger] r.refresh_queue(c, u).len() == 0,
            r.counts() == (0usize, 0usize, 0usize, 0usize),
    {
        StaticTokenProvider {
            app_tokens: KeyedTable::new(),
            user_tokens: KeyedTable::new(),
            validations: KeyedTable::new(),
            refreshes: KeyedTable::new(),
            app_token_requests: 0,
            user_token_requests: 0,
            validation_requests: 0,
            refresh_requests: 0,
        }
    }

    /// Sets the app-token response for a client.
    pub fn set_app_token_response(&mut self, client_id: ClientId, response: Result<AppAccessToken, AuthError>)
        requires
            old(self).well_formed(),
        ensures
            final(self).well_formed(),
            forall|c: Seq<char>| #[trigger] final(self).app_response(c) == if c == client_id@ {
                Some(response)
            } else {
                old(self).app_response(c)
            },
            final(self).token_tables().1 == old(self).token_tables().1,
            final(self).queue_tables() == old(self).queue_tables(),
            final(self).counts() == old(self).counts(),
    {
        let ghost c0 = client_id@;
        self.app_tokens.set(TokenKey::app(client_id), response);
        assert forall|c: Seq<char>| #[trigger] self.app_response(c) == if c == c0 {
            Some(response)
        } else {
            old(self).app_response(c)
        } by {
            assert(app_key(c) == app_key(c0) <==> c == c0);
        }
    }

    /// Sets the user-token response for a `(client_id, user_id)` pair.
    pub fn set_user_token_response(
        &mut self,
        client_id: ClientId,
        user_id: UserId,
        response: Result<UserAccessToken, AuthError>,
    )
        requires
            old(self).well_formed(),
        ensures
            final(self).well_formed(),
            forall|c: Seq<char>, u: Seq<char>| #[trigger] final(self).user_response(c, u) == if c
                == client_id@ && u == user_id@ {
                Some(response)
            } else {
                old(self).user_response(c, u)
            },
            final(self).token_tables().0 == old(self).token_tables().0,
            final(self).queue_tables() == old(self).queue_tables(),
            final(self).counts() == old(self).counts(),
    {
        let ghost c0 = client_id@;
        let ghost u0 = user_id@;
        self.user_tokens.set(TokenKey::user(client_id, user_id), response);
        assert forall|c: Seq<char>, u: Seq<char>| #[trigger] self.user_response(c, u) == if c == c0
            && u == u0 {
            Some(response)
        } else {
            old(self).user_response(c, u)
        } by {
            assert(user_key(c, u) == user_key(c0, u0) <==> (c == c0 && u == u0));
        }
    }

    /// Queues a validation response for a token key.
    pub fn push_validation_response(&mut self, key: TokenKey, response: Result<TokenValidationStatus, AuthError>)
        requires
            old(self).well_formed(),
        ensures
            final(self).well_formed(),
            forall|k: KeyView| #[trigger] final(self).validation_queue(k) == if k == key@ {
                old(self).validation_queue(k).push(response)
            } else {
                old(self).validation_queue(k)
            },
            final(self).token_tables() == old(self).token_tables(),
            final(self).queue_tables().1 == old(self).queue_tables().1,
            final(self).counts() == old(self).counts(),
    {
        push_queued(&mut self.validations, key, response);
    }

    /// Queues a refresh response for a user token.
    pub fn push_refresh_response(
        &mut self,
        client_id: ClientId,
        user_id: UserId,
        response: Result<UserAccessToken, AuthError>,
    )
        requires
            old(self).well_formed(),
        ensures
            final(self).well_formed(),
            forall|c: Seq<char>, u: Seq<char>| #[trigger] final(self).refresh_queue(c, u) == if c
                == client_id@ && u == user_id@ {
                old(self).refresh_queue(c, u).push(response)
            } else {
                old(self).refresh_queue(c, u)
            },
            final(self).token_tables() == old(self).token_tables(),
            final(self).queue_tables().0 == old(self).queue_tables().0,
            final(self).counts() == old(self).counts(),
    {
        let ghost c0 = client_id@;
        let ghost u0 = user_id@;
        push_queued(&mut self.refreshes, TokenKey::user(client_id, user_id), response);
        assert forall|c: Seq<char>, u: Seq<char>| #[trigger] self.refresh_queue(c, u) == if c == c0
            && u == u0 {
            old(self).refresh_queue(c, u).push(response)
        } else {
            old(self).refresh_queue(c, u)
        } by {
            assert(user_key(c, u) == user_key(c0, u0) <==> (c == c0 && u == u0));
        }
    }

    /// The number of app-token requests that were made.
    pub fn app_token_requests(&self) -> (r: usize)
        ensures
            r == self.counts().0,
    {
        self.app_token_requests
    }

    /// The number of user-token requests that were made.
    pub fn user_token_requests(&self) -> (r: usize)
        ensures
            r == self.counts().1,
    {
        self.user_token_requests
    }

    /// The number of validation requests that were made.
    pub fn validation_requests(&self) -> (r: usize)
        ensures
            r == self.counts().2,
    {
        self.validation_requests
    }

    /// The number of refresh requests that were made.
    pub fn refresh_requests(&self) -> (r: usize)
        ensures
            r == self.counts().3,
    {
        self.refresh_requests
    }

    /// Answers an app-token request for `client_id` with a copy of the
    /// configured response, or a provider error when none is configured.
    pub fn app_token(&mut self, client_id: &ClientId) -> (r: Result<AppAccessToken, AuthError>)
        requires
            old(self).well_formed(),
        ensures
            final(self).well_formed(),
            final(self).counts() == (
                next_count(old(self).counts().0),
                old(self).counts().1,
                old(self).counts().2,
                old(self).counts().3,
            ),
            final(self).token_tables() == old(self).token_tables(),
            final(self).queue_tables() == old(self).queue_tables(),
            match old(self).app_response(client_id@) {
                Some(configured) => same_app_result(configured, r),
                None => r matches Err(AuthError::Provider { operation: o, message: m }) && o@
                    == "app_token"@ && m@ == no_app_response_message(),
            },
    {
        self.app_token_requests = if self.app_token_requests == usize::MAX {
            0
        } else {
            self.app_token_requests + 1
        };
        let key = TokenKey::app(client_id.clone());
        match self.app_tokens.get(&key) {
            Some(configured) => clone_app_result(configured),
            None => Err(AuthError::provider("app_token", String::from_str("no app-token response configured"))),
        }
    }

    /// Answers a user-token request for `user_id` of `client_id` with a
    /// copy of the configured response, or a provider error when none is
    /// configured.
    pub fn user_token(&mut self, client_id: &ClientId, user_id: &UserId) -> (r: Result<
        UserAccessToken,
        AuthError,
    >)
        requires
            old(self).well_formed(),
        ensures
            final(self).well_formed(),
            final(self).counts() == (
                old(self).counts().0,
                next_count(old(self).counts().1),
                old(self).counts().2,
                old(self).counts().3,
            ),
            final(self).token_tables() == old(self).token_tables(),
            final(self).queue_tables() == old(self).queue_tables(),
            match old(self).user_response(client_id@, user_id@) {
                Some(configured) => same_user_result(configured, r),
                None => r matches Err(AuthError::Provider { operation: o, message: m }) && o@
                    == "user_token"@ && m@ == no_user_response_message(),
            },
    {
        self.user_token_requests = if self.user_token_requests == usize::MAX {
            0
        } else {
            self.user_token_requests + 1
        };
        let key = TokenKey::user(client_id.clone(), user_id.clone());
        match self.user_tokens.get(&key) {
            Some(configured) => clone_user_result(configured),
            None => Err(AuthError::provider("user_token", String::from_str("no user-token response configured"))),
        }
    }

    /// Answers a validation request for `token` with the front of the queue
    /// under its key, which it removes; a token without a key is refused
    /// with the key's error, and `None` means nothing is queued.
    pub fn validate_token(&mut self, token: &StoredToken) -> (r: Option<
        Result<TokenValidationStatus, AuthError>,
    >)
        requires
            old(self).well_formed(),
        ensures
            final(self).well_formed(),
            final(self).counts() == (
                old(self).counts().0,
                old(self).counts().1,
                next_count(old(self).counts().2),
                old(self).counts().3,
            ),
            final(self).token_tables() == old(self).token_tables(),
            final(self).queue_tables().1 == old(self).queue_tables().1,
            match stored_token_key(*token) {
                None => r matches Some(Err(AuthError::Store { operation: o, message: m })) && o@
                    == "key"@ && m@ == subjectless_user_token_message()
                    && final(self).queue_tables() == old(self).queue_tables(),
                Some(key) => {
                    &&& old(self).validation_queue(key).len() == 0 ==> r is None
                    &&& old(self).validation_queue(key).len() > 0 ==> r == Some(
                        old(self).validation_queue(key)[0],
                    )
                    &&& forall|k: KeyView| #[trigger] final(self).validation_queue(k) == if k
                        == key {
                        rest_of(old(self).validation_queue(k))
                    } else {
                        old(self).validation_queue(k)
                    }
                },
            },
    {
        self.validation_requests = if self.validation_requests == usize::MAX {
            0
        } else {
            self.validation_requests + 1
        };
        let key = match token.key() {
            Ok(k) => k,
            Err(e) => {
                return Some(Err(e));
            },
        };
        pop_queued(&mut self.validations, &key)
    }

    /// Answers a refresh request for `user_id` of `client_id` with the front
    /// of its queue, which it removes, or a provider error when nothing is
    /// queued.
    pub fn refresh_user_token(&mut self, client_id: &ClientId, user_id: &UserId) -> (r: Result<
        UserAccessToken,
        AuthError,
    >)
        requires
            old(self).well_formed(),
        ensures
            final(self).well_formed(),
            final(self).counts() == (
                old(self).counts().0,
                old(self).counts().1,
                old(self).counts().2,
                next_count(old(self).counts().3),
            ),
            final(self).token_tables() == old(self).token_tables(),
            final(self).queue_tables().0 == old(self).queue_tables().0,
            old(self).refresh_queue(client_id@, user_id@).len() == 0 ==> (r matches Err(
                AuthError::Provider { operation: o, message: m },
            ) && o@ == "refresh_user_token"@ && m@ == no_refresh_response_message()),
            old(self).refresh_queue(client_id@, user_id@).len() > 0 ==> r == old(
                self,
            ).refresh_queue(client_id@, user_id@)[0],
            forall|c: Seq<char>, u: Seq<char>| #[trigger] final(self).refresh_queue(c, u) == if c
                == client_id@ && u == user_id@ {
                rest_of(old(self).refresh_queue(c, u))
            } else {
                old(self).refresh_queue(c, u)
            },
    {
        self.refresh_requests = if self.refresh_requests == usize::MAX {
            0
        } else {
            self.refresh_requests + 1
        };
        let ghost c0 = client_id@;
        let ghost u0 = user_id@;
        let key = TokenKey::user(client_id.clone(), user_id.clone());
        let popped = pop_queued(&mut self.refreshes, &key);
        assert forall|c: Seq<char>, u: Seq<char>| #[trigger] self.refresh_queue(c, u) == if c == c0
            && u == u0 {
            rest_of(old(self).refresh_queue(c, u))
        } else {
            old(self).refresh_queue(c, u)
        } by {
            assert(user_key(c, u) == user_key(c0, u0) <==> (c == c0 && u == u0));
        }
        match popped {
            Some(response) => response,
            None => Err(AuthError::provider("refresh_user_token", String::from_str("no refresh response configured"))),
        }
    }
}

impl Default for StaticTokenProvider {
    /// An empty static provider.
    fn default() -> (r: Self)
        ensures
            r.well_formed(),
            forall|c: Seq<char>| #[trigger] r.app_response(c) is None,
            forall|c: Seq<char>, u: Seq<char>| #[trigger] r.user_response(c, u) is None,
            forall|k: KeyView| #[trigger] r.validation_queue(k).len() == 0,
            forall|c: Seq<char>, u: Seq<char>| #[trigger] r.refresh_queue(c, u).len() == 0,
            r.counts() == (0usize, 0usize, 0usize, 0usize),
    {
        Self::new()
    }
}

/// Queued validation responses are answered in the order they were
/// queued: with two responses queued for a key that had none, the first
/// validation of a token under that key answers the first response and the
/// next validation the second.
pub proof fn lemma_validations_answer_in_queue_order(
    empty: StaticTokenProvider,
    one: StaticTokenProvider,
    two: StaticTokenProvider,
    after_first: StaticTokenProvider,
    key: KeyView,
    first: Result<TokenValidationStatus, AuthError>,
    second: Result<TokenValidationStatus, AuthError>,
    first_answer: Option<Result<TokenValidationStatus, AuthError>>,
    second_answer: Option<Result<TokenValidationStatus, AuthError>>,
)
    requires
        empty.validation_queue(key).len() == 0,
        one.validation_queue(key) == empty.validation_queue(key).push(first),
        two.validation_queue(key) == one.validation_queue(key).push(second),
        two.validation_queue(key).len() > 0 ==> first_answer == Some(two.validation_queue(key)[0]),
        after_first.validation_queue(key) == rest_of(two.validation_queue(key)),
        after_first.validation_queue(key).len() > 0 ==> second_answer == Some(
            after_first.validation_queue(key)[0],
        ),
    ensures
        first_answer == Some(first),
        second_answer == Some(second),
        after_first.validation_queue(key).len() == 1,
{
    assert(two.validation_queue(key) =~= seq![first, second]);
    assert(after_first.validation_queue(key) =~= seq![second]);
}

} // verus!
