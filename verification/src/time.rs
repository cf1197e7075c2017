//! Instants and spans of time as plain integers.
//!
//! An instant is held as nanoseconds since the Unix epoch (UTC), a span as
//! whole seconds plus sub-second nanoseconds. Instants are read from the
//! `time` crate (current time, RFC 3339 text, Unix seconds); all comparisons
//! and arithmetic on them happen here.

use vstd::prelude::*;
use time::format_description::well_known::Rfc3339;
use time::OffsetDateTime;

verus! {

/// Nanoseconds in one second.
pub const NANOS_PER_SEC: u64 = 1_000_000_000;

/// A bound on the magnitude of every instant `OffsetDateTime` can hold, in
/// nanoseconds since the Unix epoch, whatever its year range.
pub open spec fn instant_bound() -> int {
    1_000_000_000_000_000_000_000_000int
}

/// Earliest instant of the default `OffsetDateTime` range (-9999-01-01T00:00:00Z).
pub open spec fn min_datetime_nanos() -> int {
    -377_705_116_800 * 1_000_000_000
}

/// Latest instant of the default `OffsetDateTime` range (9999-12-31T23:59:59.999999999Z).
pub open spec fn max_datetime_nanos() -> int {
    253_402_300_799int * 1_000_000_000 + 999_999_999
}

/// Whether `nanos` lies in the default `OffsetDateTime` range.
pub open spec fn in_datetime_range(nanos: int) -> bool {
    min_datetime_nanos() <= nanos <= max_datetime_nanos()
}

/// A non-negative span of time with nanosecond precision.
#[derive(Clone, Copy, Debug, PartialEq, Eq, Hash)]
pub struct TimeSpan {
    secs: u64,
    nanos: u32,
}

impl TimeSpan {
    #[verifier::type_invariant]
    spec fn normalized(self) -> bool {
        self.nanos < NANOS_PER_SEC
    }

    /// Whole seconds of the span.
    pub closed spec fn whole_secs(self) -> u64 {
        self.secs
    }

    /// Nanoseconds beyond the whole seconds.
    pub closed spec fn subsec(self) -> u32 {
        self.nanos
    }

    /// Length of the span in nanoseconds.
    pub open spec fn total_nanos(self) -> int {
        self.whole_secs() * 1_000_000_000 + self.subsec()
    }

    /// A span of whole seconds.
    pub fn from_secs(secs: u64) -> (r: TimeSpan)
        ensures
            r.whole_secs() == secs,
            r.subsec() == 0,
    {
        TimeSpan { secs, nanos: 0 }
    }

    /// A span of `secs` seconds and `nanos` nanoseconds; nanoseconds of a
    /// second or more carry into the seconds.
    pub fn new(secs: u64, nanos: u32) -> (r: TimeSpan)
        requires
            secs + nanos / 1_000_000_000 <= u64::MAX,
        ensures
            r.total_nanos() == secs * 1_000_000_000 + nanos,
            r.whole_secs() == secs + nanos / 1_000_000_000,
            r.subsec() == nanos % 1_000_000_000,
    {
        let carry = (nanos / 1_000_000_000) as u64;
        TimeSpan { secs: secs + carry, nanos: nanos % 1_000_000_000 }
    }

    /// Whole seconds of the span.
    pub fn as_secs(&self) -> (r: u64)
        ensures
            r == self.whole_secs(),
    {
        self.secs
    }

    /// Nanoseconds beyond the whole seconds, always below one second.
    pub fn subsec_nanos(&self) -> (r: u32)
        ensures
            r == self.subsec(),
            r < 1_000_000_000,
    {
        proof {
            use_type_invariant(self);
        }
        self.nanos
    }

    /// The sum of two spans, or `None` where the seconds overflow.
    pub fn checked_add(self, other: TimeSpan) -> (r: Option<TimeSpan>)
        ensures
            r matches Some(s) ==> s.total_nanos() == self.total_nanos() + other.total_nanos(),
            r is None <==> self.total_nanos() + other.total_nanos() > u64::MAX * 1_000_000_000
                + 999_999_999,
    {
        proof {
            use_type_invariant(&self);
            use_type_invariant(&other);
        }
        let nanos = self.nanos + other.nanos;
        let carry: u64 = if nanos >= 1_000_000_000 { 1 } else { 0 };
        let nanos = if nanos >= 1_000_000_000 { nanos - 1_000_000_000 } else { nanos };
        match self.secs.checked_add(other.secs) {
            None => None,
            Some(s) => match s.checked_add(carry) {
                None => None,
                Some(s) => Some(TimeSpan { secs: s, nanos }),
            },
        }
    }
}

/// An instant, as nanoseconds since the Unix epoch in UTC.
#[derive(Clone, Copy, Debug, PartialEq, Eq, Hash)]
pub struct Timestamp {
    nanos: i128,
}

impl Timestamp {
    #[verifier::type_invariant]
    spec fn bounded(self) -> bool {
        -instant_bound() <= self.nanos <= instant_bound()
    }

    /// Nanoseconds since the Unix epoch.
    pub closed spec fn unix_nanos_spec(self) -> int {
        self.nanos as int
    }

    /// Nanoseconds since the Unix epoch.
    pub fn unix_nanos(&self) -> (r: i128)
        ensures
            r == self.unix_nanos_spec(),
            -instant_bound() <= r <= instant_bound(),
    {
        proof {
            use_type_invariant(self);
        }
        self.nanos
    }

    /// The instant `nanos` nanoseconds after the epoch, or `None` beyond the
    /// range any date-time can hold.
    pub fn from_unix_nanos(nanos: i128) -> (r: Option<Timestamp>)
        ensures
            r matches Some(t) ==> t.unix_nanos_spec() == nanos,
            r is None <==> !(-instant_bound() <= nanos <= instant_bound()),
    {
        let bound: i128 = 1_000_000_000_000_000_000_000_000;
        if -bound <= nanos && nanos <= bound {
            Some(Timestamp { nanos })
        } else {
            None
        }
    }

    /// The instant `secs` whole seconds after the epoch, if `OffsetDateTime`
    /// can hold it.
    pub fn from_unix_seconds(secs: i64) -> (r: Option<Timestamp>)
        ensures
            r matches Some(t) ==> t.unix_nanos_spec() == secs * 1_000_000_000,
            0 <= secs <= u32::MAX ==> r is Some,
    {
        match unix_timestamp_nanos_of(secs) {
            None => None,
            Some(n) => Timestamp::from_unix_nanos(n),
        }
    }

    /// The current time as the system clock reports it.
    pub fn now() -> (r: Timestamp)
        ensures
            -instant_bound() <= r.unix_nanos_spec() <= instant_bound(),
    {
        Timestamp { nanos: now_unix_nanos() }
    }

    /// The instant written in `text` as an RFC 3339 date-time.
    pub fn parse_rfc3339(text: &str) -> (r: Option<Timestamp>)
        ensures
            r matches Some(t) ==> (rfc3339_unix_nanos(text@) matches Some(n) && n == t.unix_nanos_spec()),
            r is None <==> rfc3339_unix_nanos(text@) is None,
    {
        match parse_rfc3339_unix_nanos(text) {
            None => None,
            Some(n) => Some(Timestamp { nanos: n }),
        }
    }

    /// The instant `span` after this one, or `None` beyond the range any
    /// date-time can hold.
    pub fn checked_add_span(&self, span: TimeSpan) -> (r: Option<Timestamp>)
        ensures
            r matches Some(t) ==> t.unix_nanos_spec() == self.unix_nanos_spec() + span.total_nanos(),
            r is None <==> self.unix_nanos_spec() + span.total_nanos() > instant_bound(),
    {
        proof {
            use_type_invariant(self);
        }
        let secs = span.as_secs();
        let sub = span.subsec_nanos();
        let n: i128 = self.nanos + (secs as i128) * 1_000_000_000 + (sub as i128);
        Timestamp::from_unix_nanos(n)
    }
}

/// What `OffsetDateTime::parse(text, &Rfc3339)` yields, as nanoseconds since
/// the Unix epoch, or `None` where the text is not an RFC 3339 date-time.
pub uninterp spec fn rfc3339_unix_nanos(text: Seq<char>) -> Option<i128>;

/// `OffsetDateTime::parse` with the RFC 3339 format, then
/// `unix_timestamp_nanos`. The result is claimed to be the named parse of the
/// text and, being an `OffsetDateTime`, to lie within the bound of any
/// date-time.
#[verifier::external_body]
fn parse_rfc3339_unix_nanos(text: &str) -> (r: Option<i128>)
    ensures
        r == rfc3339_unix_nanos(text@),
        r matches Some(n) ==> -instant_bound() <= n <= instant_bound(),
{
    OffsetDateTime::parse(text, &Rfc3339).ok().map(|t| t.unix_timestamp_nanos())
}

/// `OffsetDateTime::now_utc`, then `unix_timestamp_nanos`. Only the bound of
/// any date-time is claimed; the value depends on the clock.
#[verifier::external_body]
fn now_unix_nanos() -> (r: i128)
    ensures
        -instant_bound() <= r <= instant_bound(),
{
    OffsetDateTime::now_utc().unix_timestamp_nanos()
}

/// `OffsetDateTime::from_unix_timestamp`, then `unix_timestamp_nanos`. The
/// instant is `secs` whole seconds after the epoch; the call succeeds for
/// every timestamp from 0 through `u32::MAX`, which lies well inside the year
/// range of every feature set.
#[verifier::external_body]
fn unix_timestamp_nanos_of(secs: i64) -> (r: Option<i128>)
    ensures
        r matches Some(n) ==> n == secs * 1_000_000_000,
        0 <= secs <= u32::MAX ==> r is Some,
{
    OffsetDateTime::from_unix_timestamp(secs).ok().map(|t| t.unix_timestamp_nanos())
}

/// Whether stepping back `span` from `at` stays inside the range of
/// date-times; spans whose seconds exceed `i64::MAX` are refused before any
/// step is taken, so they count as in range.
pub(crate) fn steps_back_in_range(at: Timestamp, span: TimeSpan) -> (r: bool)
    ensures
        r == (span.whole_secs() <= i64::MAX ==> at.unix_nanos_spec() - span.total_nanos()
            >= min_datetime_nanos()),
{
    let secs = span.as_secs();
    if secs > 0x7FFF_FFFF_FFFF_FFFF {
        return true;
    }
    let length: i128 = (secs as i128) * 1_000_000_000 + (span.subsec_nanos() as i128);
    at.unix_nanos() - length >= -377_705_116_800_000_000_000i128
}

} // verus!
