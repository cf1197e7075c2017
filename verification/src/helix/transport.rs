//! Helix request targets and the interpretation of Helix responses: URLs,
//! rate-limit headers, pagination, and API error bodies.

use crate::helix::error::HelixError;
use crate::helix::users::query_view;
use crate::pagination::{Cursor, PageInfo};
use crate::rate_limit::RateLimitMetadata;
use crate::text::{
    decimal, join_url_path, lemma_parse_decimal, parse_u32, parse_u32_spec, str_trim, trim_ws,
    url_join,
};
use crate::time::Timestamp;
use vstd::prelude::*;
use vstd::string::*;
use vstd::utf8::{decode_utf8, valid_utf8};

verus! {

/// What `Url::parse` on `text`, followed by appending the `query` pairs in
/// order through `query_pairs_mut`, yields: the URL's serialization, or the
/// parse error's display text.
pub uninterp spec fn url_with_query_result(
    text: Seq<char>,
    query: Seq<(Seq<char>, Seq<char>)>,
) -> Result<Seq<char>, Seq<char>>;

/// `reqwest::Url::parse`, then `query_pairs_mut().extend_pairs(query)`: the
/// named result, the URL serialized as text.
#[verifier::external_body]
fn url_with_query(text: &str, query: &[(String, String)]) -> (r: Result<String, String>)
    ensures
        match url_with_query_result(text@, query_view(query@)) {
            Ok(s) => r matches Ok(u) && u@ == s,
            Err(e) => r matches Err(m) && m@ == e,
        },
{
    let mut url = reqwest::Url::parse(text).map_err(|error| error.to_string())?;
    url.query_pairs_mut().extend_pairs(query);
    Ok(url.into())
}

/// Prefix of the error for a URL that does not parse.
pub open spec fn url_error_prefix() -> Seq<char> {
    "failed to construct helix URL: "@
}

/// Builds the URL of a Helix request, as text: the base URL and path
/// joined by one `/`, then the query pairs appended in order.
pub fn build_url(base_url: &str, path: &str, query: &[(String, String)]) -> (r: Result<
    String,
    HelixError,
>)
    ensures
        match url_with_query_result(url_join(base_url@, path@), query_view(query@)) {
            Ok(s) => r matches Ok(u) && u@ == s,
            Err(e) => r matches Err(HelixError::Request(m)) && m@ == url_error_prefix() + e,
        },
{
    let joined = join_url_path(base_url, path);
    match url_with_query(joined.as_str(), query) {
        Err(error) => {
            let mut message = String::from_str("failed to construct helix URL: ");
            message.append(error.as_str());
            Err(HelixError::Request(message))
        },
        Ok(url) => Ok(url),
    }
}

/// Whether a Helix reply succeeded: its status is in the `2xx` range.
pub fn is_success_status(status: u16) -> (r: bool)
    ensures
        r == (200 <= status <= 299),
{
    200 <= status && status <= 299
}

/// The text `String::from_utf8_lossy` decodes from `bytes`.
pub uninterp spec fn utf8_lossy_text(bytes: Seq<u8>) -> Seq<char>;

/// `String::from_utf8_lossy`, owned: the named decoding, which for valid
/// UTF-8 is the exact decoding.
#[verifier::external_body]
fn utf8_lossy(bytes: &[u8]) -> (r: String)
    ensures
        r@ == utf8_lossy_text(bytes@),
        valid_utf8(bytes@) ==> r@ == decode_utf8(bytes@),
{
    String::from_utf8_lossy(bytes).into_owned()
}

/// Body of a Helix error response, as decoded from JSON.
#[derive(Clone, Debug, PartialEq, Eq)]
pub struct ApiErrorPayload {
    /// Twitch `error` field.
    pub error: Option<String>,
    /// Twitch `message` field.
    pub message: Option<String>,
}

/// The API error of a failed Helix response: the decoded `error` and
/// `message` fields when the body is JSON, otherwise the body's text,
/// trimmed, as the message, absent when blank.
pub fn parse_api_error(status: u16, payload: Option<ApiErrorPayload>, body: &[u8]) -> (r: HelixError)
    ensures
        payload matches Some(p) ==> r == (HelixError::Api {
            status,
            error: p.error,
            message: p.message,
        }),
        payload is None && trim_ws(utf8_lossy_text(body@)).len() == 0 ==> r == (HelixError::Api {
            status,
            error: None,
            message: None,
        }),
        payload is None && trim_ws(utf8_lossy_text(body@)).len() > 0 ==> (r matches HelixError::Api {
            status: s,
            error: None,
            message: Some(m),
        } && s == status && m@ == trim_ws(utf8_lossy_text(body@))),
{
    match payload {
        Some(p) => HelixError::api(status, p.error, p.message),
        None => {
            let text = utf8_lossy(body);
            let trimmed = str_trim(text.as_str());
            let message = if trimmed.unicode_len() == 0 {
                None
            } else {
                Some(String::from_str(trimmed))
            };
            HelixError::api(status, None, message)
        },
    }
}

/// The rate-limit metadata a response's `Ratelimit-Limit`,
/// `Ratelimit-Remaining` and `Ratelimit-Reset` header texts describe.
pub open spec fn rate_limit_from_headers(
    limit: Option<Seq<char>>,
    remaining: Option<Seq<char>>,
    reset: Option<Seq<char>>,
) -> Option<(u32, u32, u32)> {
    match (limit, remaining, reset) {
        (Some(l), Some(m), Some(t)) => match (
            parse_u32_spec(l),
            parse_u32_spec(m),
            parse_u32_spec(t),
        ) {
            (Some(l), Some(m), Some(t)) => Some((l, m, t)),
            _ => None,
        },
        _ => None,
    }
}

/// The text of an optional header value.
pub open spec fn opt_text(v: Option<&str>) -> Option<Seq<char>> {
    match v {
        Some(s) => Some(s@),
        None => None,
    }
}

fn header_u32(value: Option<&str>) -> (r: Option<u32>)
    ensures
        r == match value {
            Some(s) => parse_u32_spec(s@),
            None => None,
        },
{
    match value {
        Some(s) => parse_u32(s),
        None => None,
    }
}

/// Rate-limit metadata from the texts of the three rate-limit headers; absent
/// when any header is missing or not a `u32`. The reset header counts seconds
/// since the Unix epoch.
pub fn parse_rate_limit(limit: Option<&str>, remaining: Option<&str>, reset: Option<&str>) -> (r:
    Option<RateLimitMetadata>)
    ensures
        match rate_limit_from_headers(opt_text(limit), opt_text(remaining), opt_text(reset)) {
            Some((l, m, t)) => r matches Some(md) && md.limit == l && md.remaining == m
                && md.reset_at.unix_nanos_spec() == t * 1_000_000_000,
            None => r is None,
        },
{
    let limit = header_u32(limit)?;
    let remaining = header_u32(remaining)?;
    let reset = header_u32(reset)?;
    let reset_at = Timestamp::from_unix_seconds(reset as i64)?;
    Some(RateLimitMetadata { limit, remaining, reset_at })
}

/// Pagination object of a Helix response body.
#[derive(Clone, Debug, PartialEq, Eq)]
pub struct ResponsePagination {
    /// Cursor of the next page, when there is one.
    pub cursor: Option<String>,
}

impl ResponsePagination {
    /// The page information of a response: a next-page cursor exactly when
    /// the response carried one.
    pub fn into_page_info(self) -> (r: Option<PageInfo>)
        ensures
            self.cursor is None ==> r is None,
            self.cursor matches Some(c) ==> (r matches Some(info) && info.next matches Some(n)
                && n@ == c@),
    {
        match self.cursor {
            Some(cursor) => Some(PageInfo { next: Some(Cursor::from_string(cursor)) }),
            None => None,
        }
    }
}

/// Rate-limit headers that carry decimal numbers describe exactly those
/// numbers, whatever they are (an exhausted bucket, with nothing remaining,
/// included); a missing header leaves the metadata absent.
pub proof fn lemma_rate_limit_headers(limit: u32, remaining: u32, reset: u32)
    ensures
        rate_limit_from_headers(
            Some(decimal(limit as nat)),
            Some(decimal(remaining as nat)),
            Some(decimal(reset as nat)),
        ) == Some((limit, remaining, reset)),
        forall|l: Option<Seq<char>>, m: Option<Seq<char>>, t: Option<Seq<char>>|
            (l is None || m is None || t is None) ==> #[trigger] rate_limit_from_headers(l, m, t)
                is None,
{
    lemma_parse_decimal(limit);
    lemma_parse_decimal(remaining);
    lemma_parse_decimal(reset);
}

} // verus!
