//! Webhook verification on exact raw request bytes: header extraction,
//! timestamp freshness, HMAC-SHA256 signatures, and replay suppression.

use crate::eventsub::error::EventSubError;
use crate::eventsub::replay::{
    lemma_replay_is_detected, lemma_tracked_id_is_not_accepted_again, replay_outcome,
    retain_fresh, EntryView, InMemoryReplayStore,
};
use crate::id::MessageId;
use crate::secret::WebhookSecret;
use crate::time::{min_datetime_nanos, rfc3339_unix_nanos, steps_back_in_range, TimeSpan, Timestamp};
use hmac::{Hmac, Mac};
use sha2::Sha256;
use vstd::prelude::*;
use vstd::string::*;

verus! {

/// EventSub webhook message type header.
#[derive(Clone, Copy, Debug, PartialEq, Eq)]
pub enum WebhookMessageType {
    /// Webhook callback verification challenge.
    Challenge,
    /// Event notification delivery.
    Notification,
    /// Subscription revocation.
    Revocation,
}

/// What a request's header map holds under one header name.
#[derive(Clone, Debug, PartialEq, Eq)]
pub enum RawHeader {
    /// The header is absent.
    Missing,
    /// The header is present but its value is not visible ASCII text.
    NotText,
    /// The header's text.
    Text(String),
}

/// Name of the message identifier header.
pub open spec fn message_id_header() -> Seq<char> {
    "Twitch-Eventsub-Message-Id"@
}

/// Name of the message timestamp header.
pub open spec fn message_timestamp_header() -> Seq<char> {
    "Twitch-Eventsub-Message-Timestamp"@
}

/// Name of the message type header.
pub open spec fn message_type_header() -> Seq<char> {
    "Twitch-Eventsub-Message-Type"@
}

/// Name of the signature header.
pub open spec fn message_signature_header() -> Seq<char> {
    "Twitch-Eventsub-Message-Signature"@
}

/// The text of the header named `name`, or the message of the error for a
/// missing or unreadable header.
pub open spec fn header_text_outcome(value: RawHeader, name: Seq<char>) -> Result<
    Seq<char>,
    Seq<char>,
> {
    match value {
        RawHeader::Missing => Err("missing required webhook header `"@ + name + "`"@),
        RawHeader::NotText => Err("invalid UTF-8 in webhook header `"@ + name + "`"@),
        RawHeader::Text(s) => Ok(s@),
    }
}

/// The message type a type header text names.
pub open spec fn message_type_of(text: Seq<char>) -> Option<WebhookMessageType> {
    if text == "webhook_callback_verification"@ {
        Some(WebhookMessageType::Challenge)
    } else if text == "notification"@ {
        Some(WebhookMessageType::Notification)
    } else if text == "revocation"@ {
        Some(WebhookMessageType::Revocation)
    } else {
        None
    }
}

/// The webhook headers a request carries, as message id, timestamp text,
/// message type and signature text, or the message of the first error: the
/// type header is read first, then the id, timestamp and signature headers.
pub open spec fn webhook_headers_outcome(
    message_type: RawHeader,
    message_id: RawHeader,
    message_timestamp: RawHeader,
    signature: RawHeader,
) -> Result<(Seq<char>, Seq<char>, WebhookMessageType, Seq<char>), Seq<char>> {
    match header_text_outcome(message_type, message_type_header()) {
        Err(m) => Err(m),
        Ok(t) => match message_type_of(t) {
            None => Err("unsupported webhook message type `"@ + t + "`"@),
            Some(ty) => match header_text_outcome(message_id, message_id_header()) {
                Err(m) => Err(m),
                Ok(id) => match header_text_outcome(message_timestamp, message_timestamp_header()) {
                    Err(m) => Err(m),
                    Ok(ts) => match header_text_outcome(signature, message_signature_header()) {
                        Err(m) => Err(m),
                        Ok(sig) => Ok((id, ts, ty, sig)),
                    },
                },
            },
        },
    }
}

fn header_text(value: RawHeader, name: &str) -> (r: Result<String, EventSubError>)
    ensures
        match header_text_outcome(value, name@) {
            Ok(t) => r matches Ok(s) && s@ == t,
            Err(m) => r matches Err(EventSubError::Webhook(e)) && e@ == m,
        },
{
    match value {
        RawHeader::Missing => {
            let mut m = String::from_str("missing required webhook header `");
            m.append(name);
            m.append("`");
            Err(EventSubError::Webhook(m))
        },
        RawHeader::NotText => {
            let mut m = String::from_str("invalid UTF-8 in webhook header `");
            m.append(name);
            m.append("`");
            Err(EventSubError::Webhook(m))
        },
        RawHeader::Text(s) => Ok(s),
    }
}

/// Raw webhook headers required for signature verification.
#[derive(Clone, Debug, PartialEq, Eq)]
pub struct WebhookHeaders {
    /// EventSub message identifier.
    pub message_id: MessageId,
    /// Raw RFC3339 message timestamp header.
    pub message_timestamp: String,
    /// EventSub message type header.
    pub message_type: WebhookMessageType,
    /// Raw Twitch signature header.
    pub signature: String,
}

impl WebhookHeaders {
    /// Extracts the webhook headers from what a request's header map holds
    /// under the four EventSub header names.
    pub fn from_raw_headers(
        message_type: RawHeader,
        message_id: RawHeader,
        message_timestamp: RawHeader,
        signature: RawHeader,
    ) -> (r: Result<Self, EventSubError>)
        ensures
            match webhook_headers_outcome(message_type, message_id, message_timestamp, signature) {
                Ok((id, ts, ty, sig)) => r matches Ok(h) && h.message_id@ == id
                    && h.message_timestamp@ == ts && h.message_type == ty && h.signature@ == sig,
                Err(m) => r matches Err(EventSubError::Webhook(e)) && e@ == m,
            },
    {
        proof {
            reveal_strlit("webhook_callback_verification");
            reveal_strlit("notification");
            reveal_strlit("revocation");
            assert("notification"@.len() == 12 && "revocation"@.len() == 10
                && "webhook_callback_verification"@.len() == 29);
        }
        let type_text = header_text(message_type, "Twitch-Eventsub-Message-Type")?;
        let ty = if type_text == String::from_str("webhook_callback_verification") {
            WebhookMessageType::Challenge
        } else if type_text == String::from_str("notification") {
            WebhookMessageType::Notification
        } else if type_text == String::from_str("revocation") {
            WebhookMessageType::Revocation
        } else {
            let mut m = String::from_str("unsupported webhook message type `");
            m.append(type_text.as_str());
            m.append("`");
            return Err(EventSubError::Webhook(m));
        };
        let id = header_text(message_id, "Twitch-Eventsub-Message-Id")?;
        let ts = header_text(message_timestamp, "Twitch-Eventsub-Message-Timestamp")?;
        let sig = header_text(signature, "Twitch-Eventsub-Message-Signature")?;
        Ok(WebhookHeaders {
            message_id: MessageId::from_string(id),
            message_timestamp: ts,
            message_type: ty,
            signature: sig,
        })
    }
}

/// The value of a hexadecimal digit byte.
pub open spec fn hex_value(b: u8) -> Option<u8> {
    if 48 <= b <= 57 {
        Some((b - 48) as u8)
    } else if 97 <= b <= 102 {
        Some((b - 97 + 10) as u8)
    } else if 65 <= b <= 70 {
        Some((b - 65 + 10) as u8)
    } else {
        None
    }
}

/// The bytes an even-length run of hexadecimal digits spells, high digit
/// first; `None` for odd length or any other byte.
pub open spec fn decode_hex_spec(input: Seq<u8>) -> Option<Seq<u8>>
    decreases input.len(),
{
    if input.len() % 2 != 0 {
        None
    } else if input.len() == 0 {
        Some(seq![])
    } else {
        match (
            decode_hex_spec(input.drop_last().drop_last()),
            hex_value(input[input.len() - 2]),
            hex_value(input[input.len() - 1]),
        ) {
            (Some(p), Some(h), Some(l)) => Some(p.push((h * 16 + l) as u8)),
            _ => None,
        }
    }
}

/// Decodes one hexadecimal digit; any other byte is an invalid signature.
pub fn decode_hex_nibble(value: u8) -> (r: Result<u8, EventSubError>)
    ensures
        match hex_value(value) {
            Some(v) => r == Ok::<u8, EventSubError>(v),
            None => r == Err::<u8, EventSubError>(EventSubError::InvalidSignature),
        },
{
    if 48 <= value && value <= 57 {
        Ok(value - 48)
    } else if 97 <= value && value <= 102 {
        Ok(value - 97 + 10)
    } else if 65 <= value && value <= 70 {
        Ok(value - 65 + 10)
    } else {
        Err(EventSubError::InvalidSignature)
    }
}

/// Decodes the hexadecimal text `input`; odd length or a non-digit is an
/// invalid signature.
pub fn decode_hex(input: &str) -> (r: Result<Vec<u8>, EventSubError>)
    ensures
        match decode_hex_spec(input.spec_bytes()) {
            Some(b) => r matches Ok(v) && v@ == b,
            None => r == Err::<Vec<u8>, EventSubError>(EventSubError::InvalidSignature),
        },
{
    let bytes = input.as_bytes();
    let n = bytes.len();
    if n % 2 != 0 {
        return Err(EventSubError::InvalidSignature);
    }
    let mut output: Vec<u8> = Vec::new();
    let mut i: usize = 0;
    while i < n
        invariant
            n == bytes@.len(),
            bytes@ == input.spec_bytes(),
            n % 2 == 0,
            i % 2 == 0,
            i <= n,
            decode_hex_spec(bytes@.take(i as int)) == Some(output@),
        decreases n - i,
    {
        let ghost pre = bytes@.take(i as int + 2);
        assert(pre.drop_last().drop_last() == bytes@.take(i as int));
        assert(pre[pre.len() - 2] == bytes@[i as int]);
        assert(pre[pre.len() - 1] == bytes@[i + 1]);
        let high = decode_hex_nibble(bytes[i]);
        let high = match high {
            Ok(h) => h,
            Err(e) => {
                proof {
                    assert(decode_hex_spec(pre) is None);
                    lemma_decode_hex_prefix_fails(bytes@, i as int + 2);
                }
                return Err(e);
            },
        };
        let low = decode_hex_nibble(bytes[i + 1]);
        let low = match low {
            Ok(l) => l,
            Err(e) => {
                proof {
                    assert(decode_hex_spec(pre) is None);
                    lemma_decode_hex_prefix_fails(bytes@, i as int + 2);
                }
                return Err(e);
            },
        };
        assert(high < 16 && low < 16);
        output.push(high * 16 + low);
        i = i + 2;
    }
    assert(bytes@.take(n as int) == bytes@);
    Ok(output)
}

proof fn lemma_decode_hex_prefix_fails(s: Seq<u8>, k: int)
    requires
        0 <= k <= s.len(),
        k % 2 == 0,
        s.len() % 2 == 0,
        decode_hex_spec(s.take(k)) is None,
    ensures
        decode_hex_spec(s) is None,
    decreases s.len() - k,
{
    if k < s.len() {
        let t = s.drop_last().drop_last();
        assert(t.take(k) == s.take(k));
        lemma_decode_hex_prefix_fails(t, k);
    } else {
        assert(s.take(k) == s);
    }
}

/// The HMAC-SHA256 tag of `message` under `key`.
pub uninterp spec fn hmac_sha256_tag(key: Seq<u8>, message: Seq<u8>) -> Seq<u8>;

/// HMAC-SHA256 through `hmac::Mac`: `new_from_slice` with `key` (which
/// accepts keys of every length), `update` with `message`, then
/// `verify_slice` with `tag`, a constant-time comparison. True exactly when
/// `tag` is the named tag, which is 32 bytes long.
#[verifier::external_body]
fn hmac_sha256_verify(key: &[u8], message: &[u8], tag: &[u8]) -> (ok: bool)
    ensures
        ok == (tag@ == hmac_sha256_tag(key@, message@)),
        ok ==> tag@.len() == 32,
{
    match <Hmac<Sha256> as Mac>::new_from_slice(key) {
        Ok(mut mac) => {
            mac.update(message);
            mac.verify_slice(tag).is_ok()
        },
        Err(_) => false,
    }
}

/// `s` without the leading `sha256=` it may carry.
pub open spec fn strip_sha256_prefix(s: Seq<char>) -> Seq<char> {
    if s.len() >= 7 && s.take(7) == "sha256="@ {
        s.skip(7)
    } else {
        s
    }
}

/// The bytes a webhook signature covers: message id, timestamp header text,
/// then the raw body.
pub open spec fn signed_bytes(message_id: Seq<char>, timestamp: Seq<char>, body: Seq<u8>) -> Seq<u8> {
    vstd::utf8::encode_utf8(message_id) + vstd::utf8::encode_utf8(timestamp) + body
}

/// Whether the signature header carries, as hexadecimal after an optional
/// `sha256=`, the HMAC-SHA256 tag of the signed bytes under the secret.
pub open spec fn signature_matches(
    secret: Seq<char>,
    message_id: Seq<char>,
    timestamp: Seq<char>,
    body: Seq<u8>,
    signature: Seq<char>,
) -> bool {
    match decode_hex_spec(vstd::utf8::encode_utf8(strip_sha256_prefix(signature))) {
        Some(tag) => tag == hmac_sha256_tag(
            vstd::utf8::encode_utf8(secret),
            signed_bytes(message_id, timestamp, body),
        ),
        None => false,
    }
}

fn strip_signature_prefix(signature: &str) -> (r: &str)
    ensures
        r@ == strip_sha256_prefix(signature@),
{
    let n = signature.unicode_len();
    if n >= 7 {
        let head = signature.substring_char(0, 7);
        if String::from_str(head) == String::from_str("sha256=") {
            assert(head@ == signature@.take(7));
            return signature.substring_char(7, n);
        }
    }
    signature
}

/// Result of successful webhook verification.
#[derive(Clone, Debug, PartialEq, Eq)]
pub struct VerifiedWebhookMessage {
    /// EventSub message identifier.
    pub message_id: MessageId,
    /// Parsed RFC3339 timestamp.
    pub message_timestamp: Timestamp,
    /// EventSub webhook message type.
    pub message_type: WebhookMessageType,
    /// Exact raw request body.
    pub raw_body: Vec<u8>,
}

/// Message of the error for an unparsable timestamp header.
pub open spec fn timestamp_format_message() -> Seq<char> {
    "webhook timestamp is not valid RFC3339"@
}

/// Message of the error for a replay window beyond what a date-time duration
/// holds.
pub open spec fn window_range_message() -> Seq<char> {
    "duration seconds exceed supported range"@
}

/// Verifies webhook signatures, timestamp freshness, and replay constraints.
#[derive(Clone, Debug)]
pub struct WebhookVerifier {
    secret: WebhookSecret,
    replay_window: TimeSpan,
    message_id_ttl: TimeSpan,
}

impl WebhookVerifier {
    /// The secret signatures are checked against.
    pub closed spec fn secret_spec(&self) -> Seq<char> {
        self.secret@
    }

    /// The permitted age of a message.
    pub closed spec fn replay_window_spec(&self) -> TimeSpan {
        self.replay_window
    }

    /// How long a message identifier is remembered.
    pub closed spec fn message_id_ttl_spec(&self) -> TimeSpan {
        self.message_id_ttl
    }

    /// Creates a webhook verifier with a ten-minute replay window and
    /// fifteen-minute identifier retention.
    pub fn new(secret: WebhookSecret) -> (r: Self)
        ensures
            r.secret_spec() == secret@,
            r.replay_window_spec().total_nanos() == 600 * 1_000_000_000,
            r.message_id_ttl_spec().total_nanos() == 900 * 1_000_000_000,
    {
        WebhookVerifier {
            secret,
            replay_window: TimeSpan::from_secs(10 * 60),
            message_id_ttl: TimeSpan::from_secs(15 * 60),
        }
    }

    /// Overrides the permitted replay window.
    pub fn replay_window(self, replay_window: TimeSpan) -> (r: Self)
        ensures
            r.secret_spec() == self.secret_spec(),
            r.replay_window_spec() == replay_window,
            r.message_id_ttl_spec() == self.message_id_ttl_spec(),
    {
        WebhookVerifier { replay_window, ..self }
    }

    /// Overrides message identifier retention for duplicate suppression.
    pub fn message_id_ttl(self, message_id_ttl: TimeSpan) -> (r: Self)
        ensures
            r.secret_spec() == self.secret_spec(),
            r.replay_window_spec() == self.replay_window_spec(),
            r.message_id_ttl_spec() == message_id_ttl,
    {
        WebhookVerifier { message_id_ttl, ..self }
    }

    /// The permitted age of a message.
    pub fn current_replay_window(&self) -> (r: TimeSpan)
        ensures
            r == self.replay_window_spec(),
    {
        self.replay_window
    }

    /// How long a message identifier is remembered.
    pub fn current_message_id_ttl(&self) -> (r: TimeSpan)
        ensures
            r == self.message_id_ttl_spec(),
    {
        self.message_id_ttl
    }

    fn verify_signature(&self, headers: &WebhookHeaders, raw_body: &[u8]) -> (r: Result<
        (),
        EventSubError,
    >)
        ensures
            r is Ok <==> signature_matches(
                self.secret_spec(),
                headers.message_id@,
                headers.message_timestamp@,
                raw_body@,
                headers.signature@,
            ),
            r is Err ==> r == Err::<(), EventSubError>(EventSubError::InvalidSignature),
    {
        let mut message: Vec<u8> = Vec::new();
        message.extend_from_slice(headers.message_id.as_str().as_bytes());
        message.extend_from_slice(headers.message_timestamp.as_str().as_bytes());
        message.extend_from_slice(raw_body);
        assert(message@ =~= signed_bytes(
            headers.message_id@,
            headers.message_timestamp@,
            raw_body@,
        ));
        let provided = strip_signature_prefix(headers.signature.as_str());
        let provided_bytes = decode_hex(provided)?;
        let key = self.secret.expose_secret().as_bytes();
        if hmac_sha256_verify(key, message.as_slice(), provided_bytes.as_slice()) {
            Ok(())
        } else {
            Err(EventSubError::InvalidSignature)
        }
    }

    /// Whether `check` keeps its time arithmetic inside the range of
    /// date-times: where the timestamp parses and the window's seconds fit
    /// an `i64`, the start of the window must not precede the earliest one.
    pub open spec fn check_in_range(&self, headers: WebhookHeaders, now: Timestamp) -> bool {
        rfc3339_unix_nanos(headers.message_timestamp@) is Some
            && self.replay_window_spec().whole_secs() <= i64::MAX ==> now.unix_nanos_spec()
            - self.replay_window_spec().total_nanos() >= min_datetime_nanos()
    }

    /// What `check` answers for a request at `now`.
    pub open spec fn check_answer(
        &self,
        headers: WebhookHeaders,
        raw_body: Seq<u8>,
        now: Timestamp,
        r: Result<Timestamp, EventSubError>,
    ) -> bool {
        match rfc3339_unix_nanos(headers.message_timestamp@) {
            None => r matches Err(EventSubError::Webhook(m)) && m@ == timestamp_format_message(),
            Some(p) => if self.replay_window_spec().whole_secs() > i64::MAX {
                r matches Err(EventSubError::Webhook(m)) && m@ == window_range_message()
            } else if p < now.unix_nanos_spec() - self.replay_window_spec().total_nanos() {
                r == Err::<Timestamp, EventSubError>(EventSubError::StaleTimestamp)
            } else if !signature_matches(
                self.secret_spec(),
                headers.message_id@,
                headers.message_timestamp@,
                raw_body,
                headers.signature@,
            ) {
                r == Err::<Timestamp, EventSubError>(EventSubError::InvalidSignature)
            } else {
                r matches Ok(t) && t.unix_nanos_spec() == p
            },
        }
    }

    /// Checks a webhook request up to replay suppression: the timestamp
    /// header must be RFC 3339, no older than the replay window before `now`,
    /// and the signature must match. Returns the parsed timestamp.
    pub fn check(&self, headers: &WebhookHeaders, raw_body: &[u8], now: Timestamp) -> (r: Result<
        Timestamp,
        EventSubError,
    >)
        requires
            self.check_in_range(*headers, now),
        ensures
            self.check_answer(*headers, raw_body@, now, r),
    {
        let parsed = match Timestamp::parse_rfc3339(headers.message_timestamp.as_str()) {
            Some(t) => t,
            None => {
                return Err(EventSubError::Webhook(String::from_str("webhook timestamp is not valid RFC3339")));
            },
        };
        let secs = self.replay_window.as_secs();
        if secs > 0x7FFF_FFFF_FFFF_FFFF {
            return Err(EventSubError::Webhook(String::from_str("duration seconds exceed supported range")));
        }
        let window: i128 = (secs as i128) * 1_000_000_000 + (self.replay_window.subsec_nanos() as i128);
        if parsed.unix_nanos() < now.unix_nanos() - window {
            return Err(EventSubError::StaleTimestamp);
        }
        self.verify_signature(headers, raw_body)?;
        Ok(parsed)
    }

    /// `check` wherever its time arithmetic stays inside the range of
    /// date-times, and `None` where it would leave it.
    pub fn try_check(&self, headers: &WebhookHeaders, raw_body: &[u8], now: Timestamp) -> (r:
        Option<Result<Timestamp, EventSubError>>)
        ensures
            r is None <==> !self.check_in_range(*headers, now),
            r matches Some(res) ==> self.check_answer(*headers, raw_body@, now, res),
    {
        if Timestamp::parse_rfc3339(headers.message_timestamp.as_str()).is_some() {
            if !steps_back_in_range(now, self.replay_window) {
                return None;
            }
        }
        Some(self.check(headers, raw_body, now))
    }

    /// Completes verification once the replay store has answered whether the
    /// message was already seen: a seen message is a duplicate.
    pub fn accept(
        headers: &WebhookHeaders,
        message_timestamp: Timestamp,
        raw_body: Vec<u8>,
        already_seen: bool,
    ) -> (r: Result<VerifiedWebhookMessage, EventSubError>)
        ensures
            already_seen ==> (r matches Err(EventSubError::DuplicateMessage(m)) && m@
                == headers.message_id@),
            !already_seen ==> (r matches Ok(v) && v.message_id@ == headers.message_id@
                && v.message_timestamp == message_timestamp && v.message_type
                == headers.message_type && v.raw_body@ == raw_body@),
    {
        if already_seen {
            return Err(EventSubError::DuplicateMessage(headers.message_id.to_string()));
        }
        Ok(VerifiedWebhookMessage {
            message_id: headers.message_id.clone(),
            message_timestamp,
            message_type: headers.message_type,
            raw_body,
        })
    }

    /// Whether `check` lets a request through to the replay store: the
    /// timestamp parses, the window's seconds fit an `i64`, the timestamp is
    /// inside the window before `now`, and the signature matches.
    pub open spec fn check_passes(&self, headers: WebhookHeaders, raw_body: Seq<u8>, now: Timestamp) -> bool {
        &&& rfc3339_unix_nanos(headers.message_timestamp@) is Some
        &&& self.replay_window_spec().whole_secs() <= i64::MAX
        &&& rfc3339_unix_nanos(headers.message_timestamp@)->0 >= now.unix_nanos_spec()
            - self.replay_window_spec().total_nanos()
        &&& signature_matches(
            self.secret_spec(),
            headers.message_id@,
            headers.message_timestamp@,
            raw_body,
            headers.signature@,
        )
    }

    /// Whether `verify` keeps its time arithmetic inside the range of
    /// date-times: that of `check`, and, for a request that reaches the
    /// replay store with an identifier retention whose seconds fit an
    /// `i64`, the oldest retained instant must not precede the earliest
    /// date-time.
    pub open spec fn verify_in_range(&self, headers: WebhookHeaders, raw_body: Seq<u8>, now: Timestamp) -> bool {
        &&& self.check_in_range(headers, now)
        &&& self.check_passes(headers, raw_body, now) ==> (self.message_id_ttl_spec().whole_secs()
            <= i64::MAX ==> rfc3339_unix_nanos(headers.message_timestamp@)->0
            - self.message_id_ttl_spec().total_nanos() >= min_datetime_nanos())
    }

    /// What `verify` answers for a request at `now`, given the store's
    /// entries and bound before the call and its entries after it.
    pub open spec fn verify_answer(
        &self,
        before: Seq<EntryView>,
        max_entries: int,
        headers: WebhookHeaders,
        raw_body: Seq<u8>,
        now: Timestamp,
        r: Result<VerifiedWebhookMessage, EventSubError>,
        after: Seq<EntryView>,
    ) -> bool {
        match rfc3339_unix_nanos(headers.message_timestamp@) {
            None => r matches Err(EventSubError::Webhook(m)) && m@ == timestamp_format_message()
                && after == before,
            Some(p) => if self.replay_window_spec().whole_secs() > i64::MAX {
                r matches Err(EventSubError::Webhook(m)) && m@ == window_range_message() && after
                    == before
            } else if p < now.unix_nanos_spec() - self.replay_window_spec().total_nanos() {
                r == Err::<VerifiedWebhookMessage, EventSubError>(EventSubError::StaleTimestamp)
                    && after == before
            } else if !signature_matches(
                self.secret_spec(),
                headers.message_id@,
                headers.message_timestamp@,
                raw_body,
                headers.signature@,
            ) {
                r == Err::<VerifiedWebhookMessage, EventSubError>(EventSubError::InvalidSignature)
                    && after == before
            } else if self.message_id_ttl_spec().whole_secs() > i64::MAX {
                r matches Err(EventSubError::Replay(_)) && after == before
            } else {
                exists|seen: bool|
                    replay_outcome(
                        before,
                        headers.message_id@,
                        p as int,
                        self.message_id_ttl_spec().total_nanos(),
                        max_entries,
                        seen,
                        after,
                    ) && if seen {
                        r matches Err(EventSubError::DuplicateMessage(m)) && m@
                            == headers.message_id@
                    } else {
                        r matches Ok(v) && v.message_id@ == headers.message_id@
                            && v.message_timestamp.unix_nanos_spec() == p && v.message_type
                            == headers.message_type && v.raw_body@ == raw_body
                    }
            },
        }
    }

    /// Verifies the webhook request on the exact raw body bytes against the
    /// in-memory replay store: `check`, then the store's `seen_or_insert`
    /// with the parsed timestamp and the identifier retention, then `accept`.
    pub fn verify(
        &self,
        store: &mut InMemoryReplayStore,
        headers: &WebhookHeaders,
        raw_body: Vec<u8>,
        now: Timestamp,
    ) -> (r: Result<VerifiedWebhookMessage, EventSubError>)
        requires
            old(store).well_formed(),
            self.verify_in_range(*headers, raw_body@, now),
        ensures
            final(store).well_formed(),
            final(store).config_spec() == old(store).config_spec(),
            self.verify_answer(
                old(store).entries_view(),
                old(store).config_spec().max_entries as int,
                *headers,
                raw_body@,
                now,
                r,
                final(store).entries_view(),
            ),
    {
        let parsed = self.check(headers, raw_body.as_slice(), now)?;
        let seen = store.seen_or_insert(&headers.message_id, parsed, self.message_id_ttl)?;
        Self::accept(headers, parsed, raw_body, seen)
    }

    /// `verify` wherever its time arithmetic stays inside the range of
    /// date-times, and `None`, with the store untouched, where it would
    /// leave it.
    pub fn try_verify(
        &self,
        store: &mut InMemoryReplayStore,
        headers: &WebhookHeaders,
        raw_body: Vec<u8>,
        now: Timestamp,
    ) -> (r: Option<Result<VerifiedWebhookMessage, EventSubError>>)
        requires
            old(store).well_formed(),
        ensures
            final(store).well_formed(),
            final(store).config_spec() == old(store).config_spec(),
            r is None <==> !self.verify_in_range(*headers, raw_body@, now),
            r is None ==> final(store).entries_view() == old(store).entries_view(),
            r matches Some(res) ==> self.verify_answer(
                old(store).entries_view(),
                old(store).config_spec().max_entries as int,
                *headers,
                raw_body@,
                now,
                res,
                final(store).entries_view(),
            ),
    {
        let parsed = match self.try_check(headers, raw_body.as_slice(), now) {
            None => {
                return None;
            },
            Some(Err(e)) => {
                return Some(Err(e));
            },
            Some(Ok(t)) => t,
        };
        if !steps_back_in_range(parsed, self.message_id_ttl) {
            return None;
        }
        Some(self.verify(store, headers, raw_body, now))
    }
}

/// A webhook message that verified is refused as a duplicate when it is
/// delivered again, unchanged, to the store the first verification left:
/// as long as the second delivery is still inside the replay window, the
/// store tracks at least one identifier, and accepting the first delivery
/// evicted nothing seen at the same instant or later (there was room, or
/// everything retained was older).
pub proof fn lemma_redelivery_is_duplicate(
    verifier: WebhookVerifier,
    before: Seq<EntryView>,
    middle: Seq<EntryView>,
    after: Seq<EntryView>,
    max_entries: int,
    headers: WebhookHeaders,
    raw_body: Seq<u8>,
    now: Timestamp,
    later: Timestamp,
    first: VerifiedWebhookMessage,
    second: Result<VerifiedWebhookMessage, EventSubError>,
)
    requires
        max_entries > 0,
        verifier.verify_answer(
            before,
            max_entries,
            headers,
            raw_body,
            now,
            Ok::<VerifiedWebhookMessage, EventSubError>(first),
            middle,
        ),
        first.message_timestamp.unix_nanos_spec() >= later.unix_nanos_spec()
            - verifier.replay_window_spec().total_nanos(),
        retain_fresh(
            before,
            first.message_timestamp.unix_nanos_spec() - verifier.message_id_ttl_spec().total_nanos(),
        ).len() < max_entries || forall|e: EntryView| #[trigger]
            retain_fresh(
                before,
                first.message_timestamp.unix_nanos_spec()
                    - verifier.message_id_ttl_spec().total_nanos(),
            ).contains(e) ==> e.1 < first.message_timestamp.unix_nanos_spec(),
        verifier.verify_answer(middle, max_entries, headers, raw_body, later, second, after),
    ensures
        second matches Err(EventSubError::DuplicateMessage(m)) && m@ == headers.message_id@,
{
    let p = first.message_timestamp.unix_nanos_spec();
    let ttl = verifier.message_id_ttl_spec().total_nanos();
    assert(rfc3339_unix_nanos(headers.message_timestamp@) == Some(p as i128));
    let seen2 = choose|seen: bool|
        replay_outcome(middle, headers.message_id@, p, ttl, max_entries, seen, after) && if seen {
            second matches Err(EventSubError::DuplicateMessage(m)) && m@ == headers.message_id@
        } else {
            second matches Ok(v) && v.message_id@ == headers.message_id@
                && v.message_timestamp.unix_nanos_spec() == p && v.message_type
                == headers.message_type && v.raw_body@ == raw_body
        };
    lemma_replay_is_detected(
        before,
        middle,
        after,
        headers.message_id@,
        p,
        ttl,
        p,
        ttl,
        max_entries,
        seen2,
    );
}

/// Two webhook deliveries that both verify carry different message
/// identifiers, unless the later one is so much newer that the identifier
/// retention no longer reaches back to the earlier one: provided the store
/// the later delivery meets still tracks the earlier message (no bound on
/// the store's size evicted it in between).
pub proof fn lemma_accepted_deliveries_differ(
    verifier: WebhookVerifier,
    first_before: Seq<EntryView>,
    first_after: Seq<EntryView>,
    second_before: Seq<EntryView>,
    second_after: Seq<EntryView>,
    max_entries: int,
    first_headers: WebhookHeaders,
    first_body: Seq<u8>,
    first_now: Timestamp,
    first: VerifiedWebhookMessage,
    second_headers: WebhookHeaders,
    second_body: Seq<u8>,
    second_now: Timestamp,
    second: VerifiedWebhookMessage,
)
    requires
        verifier.verify_answer(
            first_before,
            max_entries,
            first_headers,
            first_body,
            first_now,
            Ok::<VerifiedWebhookMessage, EventSubError>(first),
            first_after,
        ),
        second_before.contains(
            (first.message_id@, first.message_timestamp.unix_nanos_spec()),
        ),
        verifier.verify_answer(
            second_before,
            max_entries,
            second_headers,
            second_body,
            second_now,
            Ok::<VerifiedWebhookMessage, EventSubError>(second),
            second_after,
        ),
        second.message_timestamp.unix_nanos_spec() - verifier.message_id_ttl_spec().total_nanos()
            <= first.message_timestamp.unix_nanos_spec(),
    ensures
        second.message_id@ != first.message_id@,
{
    let p = second.message_timestamp.unix_nanos_spec();
    let ttl = verifier.message_id_ttl_spec().total_nanos();
    let seen = choose|seen: bool|
        replay_outcome(second_before, second_headers.message_id@, p, ttl, max_entries, seen, second_after)
            && if seen {
            Ok::<VerifiedWebhookMessage, EventSubError>(second) matches Err(
                EventSubError::DuplicateMessage(m),
            ) && m@ == second_headers.message_id@
        } else {
            Ok::<VerifiedWebhookMessage, EventSubError>(second) matches Ok(v) && v.message_id@
                == second_headers.message_id@ && v.message_timestamp.unix_nanos_spec() == p
                && v.message_type == second_headers.message_type && v.raw_body@ == second_body
        };
    lemma_tracked_id_is_not_accepted_again(
        second_before,
        second_after,
        first.message_id@,
        first.message_timestamp.unix_nanos_spec(),
        second_headers.message_id@,
        p,
        ttl,
        max_entries,
    );
}

/// The message-type header decides the kind of message: with every header
/// present as text, `notification` is a notification, `revocation` a
/// revocation and `webhook_callback_verification` a challenge, while the
/// identifier, timestamp and signature are the other headers' texts as
/// given.
pub proof fn lemma_message_type_header(
    message_type: RawHeader,
    message_id: RawHeader,
    message_timestamp: RawHeader,
    signature: RawHeader,
)
    requires
        message_id is Text,
        message_timestamp is Text,
        signature is Text,
    ensures
        message_type matches RawHeader::Text(t) && t@ == "notification"@ ==> webhook_headers_outcome(
            message_type,
            message_id,
            message_timestamp,
            signature,
        ) == Ok::<(Seq<char>, Seq<char>, WebhookMessageType, Seq<char>), Seq<char>>(
            (
                message_id->0@,
                message_timestamp->0@,
                WebhookMessageType::Notification,
                signature->0@,
            ),
        ),
        message_type matches RawHeader::Text(t) && t@ == "revocation"@ ==> webhook_headers_outcome(
            message_type,
            message_id,
            message_timestamp,
            signature,
        ) == Ok::<(Seq<char>, Seq<char>, WebhookMessageType, Seq<char>), Seq<char>>(
            (
                message_id->0@,
                message_timestamp->0@,
                WebhookMessageType::Revocation,
                signature->0@,
            ),
        ),
        message_type matches RawHeader::Text(t) && t@ == "webhook_callback_verification"@
            ==> webhook_headers_outcome(message_type, message_id, message_timestamp, signature)
            == Ok::<(Seq<char>, Seq<char>, WebhookMessageType, Seq<char>), Seq<char>>(
            (
                message_id->0@,
                message_timestamp->0@,
                WebhookMessageType::Challenge,
                signature->0@,
            ),
        ),
{
    reveal_strlit("notification");
    reveal_strlit("revocation");
    reveal_strlit("webhook_callback_verification");
    assert("notification"@.len() == 12 && "revocation"@.len() == 10
        && "webhook_callback_verification"@.len() == 29);
}

} // verus!
