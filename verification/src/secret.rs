//! Secret wrapper types: OAuth tokens, client secrets and webhook secrets,
//! each held in a `secrecy::SecretString`.

use crate::error::CoreError;
use secrecy::{ExposeSecret, SecretString};
use vstd::prelude::*;
use vstd::string::*;

verus! {

/// A `secrecy::SecretString`, held opaquely; its text is `secret_text`.
#[verifier::external_body]
#[derive(Debug)]
pub struct SecretText {
    inner: SecretString,
}

/// The text a secret holds.
pub uninterp spec fn secret_text(secret: SecretText) -> Seq<char>;

/// `SecretString::from(String)`: the secret holds exactly the given text.
#[verifier::external_body]
fn secret_from_string(value: String) -> (r: SecretText)
    ensures
        secret_text(r) == value@,
{
    SecretText { inner: SecretString::from(value) }
}

/// `ExposeSecret::expose_secret` on a `SecretString`: the text it holds.
#[verifier::external_body]
fn secret_expose(secret: &SecretText) -> (r: &str)
    ensures
        r@ == secret_text(*secret),
{
    secret.inner.expose_secret()
}

/// `Clone::clone` on a `SecretString`: a secret holding the same text.
#[verifier::external_body]
fn secret_clone(secret: &SecretText) -> (r: SecretText)
    ensures
        secret_text(r) == secret_text(*secret),
{
    SecretText { inner: secret.inner.clone() }
}

/// Wrapped OAuth access token.
#[derive(Debug)]
pub struct AccessToken(SecretText);

/// Wrapped OAuth refresh token.
#[derive(Debug)]
pub struct RefreshToken(SecretText);

/// Wrapped Twitch application client secret.
#[derive(Debug)]
pub struct ClientSecret(SecretText);

/// Wrapped EventSub webhook secret: ASCII, 10 to 100 characters long.
#[derive(Debug)]
pub struct WebhookSecret(SecretText);

impl View for AccessToken {
    type V = Seq<char>;

    closed spec fn view(&self) -> Seq<char> {
        secret_text(self.0)
    }
}

impl View for RefreshToken {
    type V = Seq<char>;

    closed spec fn view(&self) -> Seq<char> {
        secret_text(self.0)
    }
}

impl View for ClientSecret {
    type V = Seq<char>;

    closed spec fn view(&self) -> Seq<char> {
        secret_text(self.0)
    }
}

impl View for WebhookSecret {
    type V = Seq<char>;

    closed spec fn view(&self) -> Seq<char> {
        secret_text(self.0)
    }
}

impl Clone for AccessToken {
    fn clone(&self) -> (r: Self)
        ensures
            r@ == self@,
    {
        AccessToken(secret_clone(&self.0))
    }
}

impl Clone for RefreshToken {
    fn clone(&self) -> (r: Self)
        ensures
            r@ == self@,
    {
        RefreshToken(secret_clone(&self.0))
    }
}

impl Clone for ClientSecret {
    fn clone(&self) -> (r: Self)
        ensures
            r@ == self@,
    {
        ClientSecret(secret_clone(&self.0))
    }
}

impl Clone for WebhookSecret {
    fn clone(&self) -> (r: Self)
        ensures
            r@ == self@,
    {
        WebhookSecret(secret_clone(&self.0))
    }
}

impl AccessToken {
    /// Wraps the provided secret value.
    pub fn new(value: &str) -> (r: Self)
        ensures
            r@ == value@,
    {
        AccessToken(secret_from_string(String::from_str(value)))
    }

    /// Wraps the provided owned secret value.
    pub fn from_string(value: String) -> (r: Self)
        ensures
            r@ == value@,
    {
        AccessToken(secret_from_string(value))
    }

    /// Reveals the secret value for explicit use at an I/O boundary.
    pub fn expose_secret(&self) -> (r: &str)
        ensures
            r@ == self@,
    {
        secret_expose(&self.0)
    }

    /// The redacted debug rendering, `AccessToken(**redacted**)`.
    pub fn redacted_debug(&self) -> (r: String)
        ensures
            r@ == "AccessToken(**redacted**)"@,
    {
        String::from_str("AccessToken(**redacted**)")
    }
}

impl RefreshToken {
    /// Wraps the provided secret value.
    pub fn new(value: &str) -> (r: Self)
        ensures
            r@ == value@,
    {
        RefreshToken(secret_from_string(String::from_str(value)))
    }

    /// Wraps the provided owned secret value.
    pub fn from_string(value: String) -> (r: Self)
        ensures
            r@ == value@,
    {
        RefreshToken(secret_from_string(value))
    }

    /// Reveals the secret value for explicit use at an I/O boundary.
    pub fn expose_secret(&self) -> (r: &str)
        ensures
            r@ == self@,
    {
        secret_expose(&self.0)
    }

    /// The redacted debug rendering, `RefreshToken(**redacted**)`.
    pub fn redacted_debug(&self) -> (r: String)
        ensures
            r@ == "RefreshToken(**redacted**)"@,
    {
        String::from_str("RefreshToken(**redacted**)")
    }
}

impl ClientSecret {
    /// Wraps the provided secret value.
    pub fn new(value: &str) -> (r: Self)
        ensures
            r@ == value@,
    {
        ClientSecret(secret_from_string(String::from_str(value)))
    }

    /// Wraps the provided owned secret value.
    pub fn from_string(value: String) -> (r: Self)
        ensures
            r@ == value@,
    {
        ClientSecret(secret_from_string(value))
    }

    /// Reveals the secret value for explicit use at an I/O boundary.
    pub fn expose_secret(&self) -> (r: &str)
        ensures
            r@ == self@,
    {
        secret_expose(&self.0)
    }

    /// The redacted debug rendering, `ClientSecret(**redacted**)`.
    pub fn redacted_debug(&self) -> (r: String)
        ensures
            r@ == "ClientSecret(**redacted**)"@,
    {
        String::from_str("ClientSecret(**redacted**)")
    }
}

/// Message of the error for a webhook secret with a non-ASCII character.
pub open spec fn non_ascii_secret_message() -> Seq<char> {
    "webhook secret must contain only ASCII characters"@
}

/// Message of the error for a webhook secret of the wrong length.
pub open spec fn secret_length_message() -> Seq<char> {
    "webhook secret length must be between 10 and 100 characters"@
}

/// Whether every character of `s` is ASCII.
pub open spec fn all_ascii(s: Seq<char>) -> bool {
    forall|i: int| 0 <= i < s.len() ==> (#[trigger] s[i] as u32) < 128
}

impl WebhookSecret {
    /// Validates and wraps an EventSub webhook secret.
    ///
    /// Twitch requires an ASCII secret whose length is between 10 and 100
    /// characters. The ASCII check comes first.
    pub fn new(value: &str) -> (r: Result<Self, CoreError>)
        ensures
            !all_ascii(value@) ==> (r matches Err(CoreError::InvalidSecret(m))
                && m@ == non_ascii_secret_message()),
            all_ascii(value@) && !(10 <= value@.len() <= 100) ==> (r matches Err(
                CoreError::InvalidSecret(m),
            ) && m@ == secret_length_message()),
            all_ascii(value@) && 10 <= value@.len() <= 100 ==> (r matches Ok(s) && s@ == value@),
    {
        let n = value.unicode_len();
        let mut i: usize = 0;
        while i < n
            invariant
                n == value@.len(),
                i <= n,
                forall|k: int| 0 <= k < i ==> (#[trigger] value@[k] as u32) < 128,
            decreases n - i,
        {
            let c = value.get_char(i);
            if !((c as u32) < 128) {
                return Err(CoreError::InvalidSecret(String::from_str("webhook secret must contain only ASCII characters")));
            }
            i = i + 1;
        }
        if !(10 <= n && n <= 100) {
            return Err(CoreError::InvalidSecret(String::from_str("webhook secret length must be between 10 and 100 characters")));
        }
        Ok(WebhookSecret(secret_from_string(String::from_str(value))))
    }

    /// Reveals the secret value for explicit HMAC operations.
    pub fn expose_secret(&self) -> (r: &str)
        ensures
            r@ == self@,
    {
        secret_expose(&self.0)
    }

    /// The redacted debug rendering, `WebhookSecret(**redacted**)`.
    pub fn redacted_debug(&self) -> (r: String)
        ensures
            r@ == "WebhookSecret(**redacted**)"@,
    {
        String::from_str("WebhookSecret(**redacted**)")
    }
}

} // verus!
