//! High-level authentication client configuration.

use crate::auth::api::{missing_secret_message, TwitchAuthApi};
use crate::auth::error::AuthError;
use crate::auth::flow::AuthorizationRequest;
use crate::auth::manager::ValidationPolicy;
use crate::config::{production_oauth_base_url, AuthServiceConfig};
use crate::helix::users::query_view;
use crate::id::ClientId;
use crate::secret::ClientSecret;
use crate::text::{clone_strings, trim_end_char, trim_end_matches_char};
use vstd::prelude::*;
use vstd::string::*;

verus! {

/// `reqwest::Client`, carried opaquely.
#[verifier::external_type_specification]
#[verifier::external_body]
pub struct ExHttpClient(reqwest::Client);

/// `reqwest::Client::clone`: a handle to the same connection pool. Nothing
/// is claimed of it.
pub assume_specification[ <reqwest::Client as Clone>::clone ](client: &reqwest::Client) -> reqwest::Client;

/// `reqwest::ClientBuilder::new().redirect(Policy::none()).build()`: an HTTP
/// client that does not follow redirects, or the display text of the build
/// error. Whether the build succeeds depends on the platform (TLS backend,
/// resolver configuration), so nothing is claimed of the outcome.
#[verifier::external_body]
fn build_oauth_http_client() -> (r: Result<reqwest::Client, String>) {
    reqwest::ClientBuilder::new()
        .redirect(reqwest::redirect::Policy::none())
        .build()
        .map_err(|error| error.to_string())
}

/// The text of an optional string.
pub open spec fn opt_text(v: Option<String>) -> Option<Seq<char>> {
    match v {
        Some(s) => Some(s@),
        None => None,
    }
}

/// The text of an optional secret.
pub open spec fn opt_secret_text(v: Option<ClientSecret>) -> Option<Seq<char>> {
    match v {
        Some(s) => Some(s@),
        None => None,
    }
}

/// High-level OAuth client configuration.
#[derive(Clone, Debug)]
pub struct AuthClient {
    client_id: ClientId,
    client_secret: Option<ClientSecret>,
    oauth_base_url: String,
    redirect_uri: Option<String>,
    default_scopes: Vec<String>,
    validation_policy: ValidationPolicy,
    http_client: reqwest::Client,
}

impl AuthClient {
    /// The configured client identifier.
    pub closed spec fn client_id_spec(&self) -> Seq<char> {
        self.client_id@
    }

    /// The configured client secret's text.
    pub closed spec fn client_secret_spec(&self) -> Option<Seq<char>> {
        opt_secret_text(self.client_secret)
    }

    /// The configured OAuth base URL.
    pub closed spec fn oauth_base_url_spec(&self) -> Seq<char> {
        self.oauth_base_url@
    }

    /// The configured redirect URI.
    pub closed spec fn redirect_uri_spec(&self) -> Option<Seq<char>> {
        opt_text(self.redirect_uri)
    }

    /// The configured default scopes.
    pub closed spec fn default_scopes_spec(&self) -> Seq<String> {
        self.default_scopes@
    }

    /// The configured validation policy.
    pub closed spec fn validation_policy_spec(&self) -> ValidationPolicy {
        self.validation_policy
    }

    /// Starts building a new authentication client.
    pub fn builder() -> (r: AuthClientBuilder)
        ensures
            r.is_empty(),
    {
        AuthClientBuilder::new()
    }

    /// Returns the configured Twitch application client identifier.
    pub fn client_id(&self) -> (r: &ClientId)
        ensures
            r@ == self.client_id_spec(),
    {
        &self.client_id
    }

    /// Returns the redirect URI configured for authorization code flow.
    pub fn redirect_uri(&self) -> (r: Option<&str>)
        ensures
            match r {
                Some(s) => self.redirect_uri_spec() == Some(s@),
                None => self.redirect_uri_spec() is None,
            },
    {
        match &self.redirect_uri {
            Some(s) => Some(s.as_str()),
            None => None,
        }
    }

    /// Returns the default scopes requested by this client.
    pub fn default_scopes(&self) -> (r: &[String])
        ensures
            r@ == self.default_scopes_spec(),
    {
        self.default_scopes.as_slice()
    }

    /// Returns the OAuth base URL.
    pub fn oauth_base_url(&self) -> (r: &str)
        ensures
            r@ == self.oauth_base_url_spec(),
    {
        self.oauth_base_url.as_str()
    }

    /// Returns the token validation policy.
    pub fn validation_policy(&self) -> (r: ValidationPolicy)
        ensures
            r == self.validation_policy_spec(),
    {
        self.validation_policy
    }

    /// The HTTP client used for OAuth requests.
    pub closed spec fn http_client_spec(&self) -> reqwest::Client {
        self.http_client
    }

    /// Returns the shared HTTP client used for OAuth requests.
    pub fn http_client(&self) -> (r: &reqwest::Client)
        ensures
            *r == self.http_client_spec(),
    {
        &self.http_client
    }

    /// The authorization request for the configured defaults: no state, no
    /// forced re-verification, no PKCE, and the `authorize` endpoint under
    /// the OAuth base URL.
    pub fn authorization_request(&self) -> (r: AuthorizationRequest)
        ensures
            r.client_id@ == self.client_id_spec(),
            opt_text(r.redirect_uri) == self.redirect_uri_spec(),
            r.scopes@ == self.default_scopes_spec(),
            r.state is None,
            !r.force_verify,
            r.pkce_challenge is None,
            r.authorization_endpoint@ == trim_end_char(self.oauth_base_url_spec(), '/')
                + "/authorize"@,
    {
        let mut endpoint = String::from_str(trim_end_matches_char(self.oauth_base_url.as_str(), '/'));
        endpoint.append("/authorize");
        let redirect_uri = match &self.redirect_uri {
            Some(s) => Some(s.clone()),
            None => None,
        };
        AuthorizationRequest {
            client_id: self.client_id.clone(),
            redirect_uri,
            scopes: clone_strings(&self.default_scopes),
            state: None,
            force_verify: false,
            pkce_challenge: None,
            authorization_endpoint: endpoint,
        }
    }

    /// Endpoint access with the configured client, secret and base URL.
    pub fn api(&self) -> (r: TwitchAuthApi)
        ensures
            r.client_id_spec()@ == self.client_id_spec(),
            r.client_secret_spec() == self.client_secret_spec(),
            r.base_url_spec() == self.oauth_base_url_spec(),
    {
        let secret = match &self.client_secret {
            Some(s) => Some(s.clone()),
            None => None,
        };
        TwitchAuthApi::new(self.client_id.clone(), secret, self.oauth_base_url.clone())
    }

    /// The form that exchanges an authorization code for a user token; the
    /// exchange needs a configured redirect URI and client secret.
    pub fn authorization_code_form(&self, code: &str, pkce_verifier: Option<&str>) -> (r: Result<
        Vec<(String, String)>,
        AuthError,
    >)
        ensures
            self.redirect_uri_spec() is None ==> (r matches Err(AuthError::Configuration(m)) && m@
                == "authorization code exchange requires a redirect_uri"@),
            self.redirect_uri_spec() matches Some(u) ==> match self.client_secret_spec() {
                Some(s) => r matches Ok(f) && query_view(f@) == seq![
                    ("client_id"@, self.client_id_spec()),
                    ("client_secret"@, s),
                    ("code"@, code@),
                    ("grant_type"@, "authorization_code"@),
                    ("redirect_uri"@, u),
                ] + match pkce_verifier {
                    Some(v) => seq![("code_verifier"@, v@)],
                    None => Seq::empty(),
                },
                None => r matches Err(AuthError::OAuth { operation: o, message: m }) && o@
                    == "authorization_code"@ && m@ == missing_secret_message(),
            },
    {
        let redirect_uri = match &self.redirect_uri {
            Some(u) => u,
            None => {
                return Err(AuthError::configuration("authorization code exchange requires a redirect_uri"));
            },
        };
        self.api().authorization_code_form(code, redirect_uri.as_str(), pkce_verifier)
    }
}

/// Builder for [`AuthClient`].
#[derive(Clone, Debug)]
pub struct AuthClientBuilder {
    client_id: Option<ClientId>,
    client_secret: Option<ClientSecret>,
    oauth_base_url: Option<String>,
    redirect_uri: Option<String>,
    default_scopes: Vec<String>,
    validation_policy: ValidationPolicy,
    http_client: Option<reqwest::Client>,
}

impl AuthClientBuilder {
    /// The client identifier set so far.
    pub closed spec fn client_id_spec(&self) -> Option<Seq<char>> {
        match self.client_id {
            Some(c) => Some(c@),
            None => None,
        }
    }

    /// The client secret set so far.
    pub closed spec fn client_secret_spec(&self) -> Option<Seq<char>> {
        opt_secret_text(self.client_secret)
    }

    /// The OAuth base URL set so far.
    pub closed spec fn oauth_base_url_spec(&self) -> Option<Seq<char>> {
        opt_text(self.oauth_base_url)
    }

    /// The redirect URI set so far.
    pub closed spec fn redirect_uri_spec(&self) -> Option<Seq<char>> {
        opt_text(self.redirect_uri)
    }

    /// The scopes added so far, in order.
    pub closed spec fn default_scopes_spec(&self) -> Seq<String> {
        self.default_scopes@
    }

    /// The validation policy set so far.
    pub closed spec fn validation_policy_spec(&self) -> ValidationPolicy {
        self.validation_policy
    }

    /// The injected HTTP client, if any.
    pub closed spec fn http_client_spec(&self) -> Option<reqwest::Client> {
        self.http_client
    }

    /// Whether an HTTP client was injected.
    pub open spec fn has_http_client(&self) -> bool {
        self.http_client_spec() is Some
    }

    /// Nothing set: no client id, secret, URLs, scopes or HTTP client, and the
    /// default validation policy.
    pub open spec fn is_empty(&self) -> bool {
        &&& self.client_id_spec() is None
        &&& self.client_secret_spec() is None
        &&& self.oauth_base_url_spec() is None
        &&& self.redirect_uri_spec() is None
        &&& self.default_scopes_spec() == Seq::<String>::empty()
        &&& self.validation_policy_spec().validate_on_startup
        &&& self.validation_policy_spec().revalidate_every.total_nanos() == 3600 * 1_000_000_000
        &&& !self.has_http_client()
    }

    /// A builder with nothing set.
    pub fn new() -> (r: Self)
        ensures
            r.is_empty(),
    {
        let r = AuthClientBuilder {
            client_id: None,
            client_secret: None,
            oauth_base_url: None,
            redirect_uri: None,
            default_scopes: Vec::new(),
            validation_policy: ValidationPolicy::default(),
            http_client: None,
        };
        assert(r.default_scopes_spec() =~= Seq::<String>::empty());
        r
    }

    /// Seeds the builder from a shared auth service configuration.
    pub fn service_config(self, service_config: AuthServiceConfig) -> (r: Self)
        ensures
            r.client_id_spec() == Some(service_config.client_id@),
            r.client_secret_spec() == Some(service_config.client_secret@),
            r.oauth_base_url_spec() == Some(service_config.oauth_base_url@),
            r.redirect_uri_spec() == self.redirect_uri_spec(),
            r.default_scopes_spec() == self.default_scopes_spec(),
            r.validation_policy_spec() == self.validation_policy_spec(),
            r.http_client_spec() == self.http_client_spec(),
    {
        AuthClientBuilder {
            client_id: Some(service_config.client_id),
            client_secret: Some(service_config.client_secret),
            oauth_base_url: Some(service_config.oauth_base_url),
            ..self
        }
    }

    /// Sets the Twitch application client identifier.
    pub fn client_id(self, client_id: ClientId) -> (r: Self)
        ensures
            r.client_id_spec() == Some(client_id@),
            r.client_secret_spec() == self.client_secret_spec(),
            r.oauth_base_url_spec() == self.oauth_base_url_spec(),
            r.redirect_uri_spec() == self.redirect_uri_spec(),
            r.default_scopes_spec() == self.default_scopes_spec(),
            r.validation_policy_spec() == self.validation_policy_spec(),
            r.http_client_spec() == self.http_client_spec(),
    {
        AuthClientBuilder { client_id: Some(client_id), ..self }
    }

    /// Sets the Twitch application client secret.
    pub fn client_secret(self, client_secret: ClientSecret) -> (r: Self)
        ensures
            r.client_id_spec() == self.client_id_spec(),
            r.client_secret_spec() == Some(client_secret@),
            r.oauth_base_url_spec() == self.oauth_base_url_spec(),
            r.redirect_uri_spec() == self.redirect_uri_spec(),
            r.default_scopes_spec() == self.default_scopes_spec(),
            r.validation_policy_spec() == self.validation_policy_spec(),
            r.http_client_spec() == self.http_client_spec(),
    {
        AuthClientBuilder { client_secret: Some(client_secret), ..self }
    }

    /// Overrides the OAuth base URL.
    pub fn oauth_base_url(self, oauth_base_url: String) -> (r: Self)
        ensures
            r.client_id_spec() == self.client_id_spec(),
            r.client_secret_spec() == self.client_secret_spec(),
            r.oauth_base_url_spec() == Some(oauth_base_url@),
            r.redirect_uri_spec() == self.redirect_uri_spec(),
            r.default_scopes_spec() == self.default_scopes_spec(),
            r.validation_policy_spec() == self.validation_policy_spec(),
            r.http_client_spec() == self.http_client_spec(),
    {
        AuthClientBuilder { oauth_base_url: Some(oauth_base_url), ..self }
    }

    /// Sets the redirect URI for authorization code flow.
    pub fn redirect_uri(self, redirect_uri: String) -> (r: Self)
        ensures
            r.client_id_spec() == self.client_id_spec(),
            r.client_secret_spec() == self.client_secret_spec(),
            r.oauth_base_url_spec() == self.oauth_base_url_spec(),
            r.redirect_uri_spec() == Some(redirect_uri@),
            r.default_scopes_spec() == self.default_scopes_spec(),
            r.validation_policy_spec() == self.validation_policy_spec(),
            r.http_client_spec() == self.http_client_spec(),
    {
        AuthClientBuilder { redirect_uri: Some(redirect_uri), ..self }
    }

    /// Adds a default OAuth scope after those added before.
    pub fn scope(self, scope: String) -> (r: Self)
        ensures
            r.client_id_spec() == self.client_id_spec(),
            r.client_secret_spec() == self.client_secret_spec(),
            r.oauth_base_url_spec() == self.oauth_base_url_spec(),
            r.redirect_uri_spec() == self.redirect_uri_spec(),
            r.default_scopes_spec() == self.default_scopes_spec().push(scope),
            r.validation_policy_spec() == self.validation_policy_spec(),
            r.http_client_spec() == self.http_client_spec(),
    {
        let mut builder = self;
        builder.default_scopes.push(scope);
        builder
    }

    /// Overrides the default token validation policy.
    pub fn validation_policy(self, validation_policy: ValidationPolicy) -> (r: Self)
        ensures
            r.client_id_spec() == self.client_id_spec(),
            r.client_secret_spec() == self.client_secret_spec(),
            r.oauth_base_url_spec() == self.oauth_base_url_spec(),
            r.redirect_uri_spec() == self.redirect_uri_spec(),
            r.default_scopes_spec() == self.default_scopes_spec(),
            r.validation_policy_spec() == validation_policy,
            r.http_client_spec() == self.http_client_spec(),
    {
        AuthClientBuilder { validation_policy, ..self }
    }

    /// Injects a preconfigured HTTP client.
    pub fn http_client(self, http_client: reqwest::Client) -> (r: Self)
        ensures
            r.client_id_spec() == self.client_id_spec(),
            r.client_secret_spec() == self.client_secret_spec(),
            r.oauth_base_url_spec() == self.oauth_base_url_spec(),
            r.redirect_uri_spec() == self.redirect_uri_spec(),
            r.default_scopes_spec() == self.default_scopes_spec(),
            r.validation_policy_spec() == self.validation_policy_spec(),
            r.http_client_spec() == Some(http_client),
    {
        AuthClientBuilder { http_client: Some(http_client), ..self }
    }

    /// Builds the authentication client. A client identifier is required;
    /// the OAuth base URL defaults to production; without an injected HTTP
    /// client one that follows no redirects is built, and a failure to build
    /// it is a configuration error.
    pub fn build(self) -> (r: Result<AuthClient, AuthError>)
        ensures
            self.client_id_spec() is None ==> (r matches Err(AuthError::Configuration(m)) && m@
                == "auth client requires a client_id"@),
            r matches Ok(c) ==> self.client_id_spec() == Some(c.client_id_spec())
                && c.client_secret_spec() == self.client_secret_spec() && c.oauth_base_url_spec()
                == match self.oauth_base_url_spec() {
                Some(u) => u,
                None => production_oauth_base_url(),
            } && c.redirect_uri_spec() == self.redirect_uri_spec() && c.default_scopes_spec()
                == self.default_scopes_spec() && c.validation_policy_spec()
                == self.validation_policy_spec(),
            self.client_id_spec() is Some && self.has_http_client() ==> r is Ok,
            self.http_client_spec() matches Some(h) ==> (r matches Ok(c) ==> c.http_client_spec()
                == h),
            self.client_id_spec() is Some ==> (r matches Err(AuthError::Configuration(m)) ==> exists|
                e: Seq<char>,
            | m@ == "failed to build OAuth HTTP client: "@ + e),
            r is Err ==> r matches Err(AuthError::Configuration(_)),
    {
        let client_id = match self.client_id {
            Some(c) => c,
            None => {
                return Err(AuthError::configuration("auth client requires a client_id"));
            },
        };
        let http_client = match self.http_client {
            Some(h) => h,
            None => match build_oauth_http_client() {
                Ok(h) => h,
                Err(error) => {
                    let mut m = String::from_str("failed to build OAuth HTTP client: ");
                    m.append(error.as_str());
                    return Err(AuthError::Configuration(m));
                },
            },
        };
        let oauth_base_url = match self.oauth_base_url {
            Some(u) => u,
            None => String::from_str("https://id.twitch.tv/oauth2"),
        };
        Ok(AuthClient {
            client_id,
            client_secret: self.client_secret,
            oauth_base_url,
            redirect_uri: self.redirect_uri,
            default_scopes: self.default_scopes,
            validation_policy: self.validation_policy,
            http_client,
        })
    }
}

impl Default for AuthClientBuilder {
    fn default() -> (r: Self)
        ensures
            r.is_empty(),
    {
        Self::new()
    }
}

} // verus!
