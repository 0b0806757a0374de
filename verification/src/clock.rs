//! Time, randomness and date parsing taken from the `chrono`, `uuid` and `rand` crates.

use vstd::prelude::*;
use vstd::arithmetic::power::pow;
use crate::crypto::hex_lower_digit;

verus! {

/// A point in time in UTC: whole seconds since the Unix epoch and the sub-second nanoseconds.
#[derive(Debug, Clone, Copy, PartialEq, Eq, Structural)]
pub struct UtcTimestamp {
    pub secs: i64,
    pub nanos: u32,
}

/// The `%Y-%m-%d` text (UTC calendar date) of the second `secs` since the epoch, as
/// `chrono::DateTime::from_timestamp(secs, 0)` formats it; `None` outside chrono's range.
pub uninterp spec fn spec_utc_date_text(secs: i64) -> Option<Seq<char>>;

/// The `%Y-%m-%dT%H:%M:%SZ` text (UTC date and time) of the second `secs` since the epoch,
/// as chrono formats it; `None` outside chrono's range.
pub uninterp spec fn spec_utc_iso_seconds_text(secs: i64) -> Option<Seq<char>>;

/// Calls `chrono::Utc::now` and returns its seconds since the epoch and sub-second
/// nanoseconds.
///
/// Trusted: the time is whatever the clock says. Every `DateTime<Utc>` lies in chrono's
/// representable range, so its second formats as a date and as a date-time.
#[verifier::external_body]
pub(crate) fn utc_now_parts() -> (r: (i64, u32))
    ensures
        spec_utc_date_text(r.0) is Some,
        spec_utc_iso_seconds_text(r.0) is Some,
{
    let t = chrono::Utc::now();
    (t.timestamp(), t.timestamp_subsec_nanos())
}

/// Calls `chrono::DateTime::from_timestamp(secs, 0)` and formats it with `%Y-%m-%d`.
///
/// Trusted: the text depends on `secs` alone and is named `spec_utc_date_text`.
#[verifier::external_body]
pub(crate) fn utc_date_text(secs: i64) -> (r: Option<String>)
    ensures
        match r {
            Some(t) => spec_utc_date_text(secs) == Some(t@),
            None => spec_utc_date_text(secs) is None,
        },
{
    chrono::DateTime::from_timestamp(secs, 0).map(|t| t.format("%Y-%m-%d").to_string())
}

/// Calls `chrono::DateTime::from_timestamp(secs, 0)` and formats it with `%Y-%m-%dT%H:%M:%SZ`.
///
/// Trusted: the text depends on `secs` alone and is named `spec_utc_iso_seconds_text`.
#[verifier::external_body]
pub(crate) fn utc_iso_seconds_text(secs: i64) -> (r: Option<String>)
    ensures
        match r {
            Some(t) => spec_utc_iso_seconds_text(secs) == Some(t@),
            None => spec_utc_iso_seconds_text(secs) is None,
        },
{
    chrono::DateTime::from_timestamp(secs, 0).map(|t| t.format("%Y-%m-%dT%H:%M:%SZ").to_string())
}

/// What `chrono::DateTime::parse_from_rfc3339` yields for a text, converted to UTC:
/// `Some((seconds, nanoseconds))`, or `None` when the text is rejected.
pub uninterp spec fn spec_parse_rfc3339(s: Seq<char>) -> Option<(i64, u32)>;

/// What `chrono::NaiveDateTime::parse_from_str(s, "%Y-%m-%d %H:%M:%S")` yields, read as UTC.
pub uninterp spec fn spec_parse_plain_datetime(s: Seq<char>) -> Option<(i64, u32)>;

/// Calls `chrono::DateTime::parse_from_rfc3339` and converts the result to UTC.
///
/// Trusted: the result depends on the text alone and is named `spec_parse_rfc3339`.
#[verifier::external_body]
pub(crate) fn parse_rfc3339(s: &str) -> (r: Option<(i64, u32)>)
    ensures
        r == spec_parse_rfc3339(s@),
{
    chrono::DateTime::parse_from_rfc3339(s).ok().map(
        |t| (t.timestamp(), t.timestamp_subsec_nanos()),
    )
}

/// Calls `chrono::NaiveDateTime::parse_from_str` with `%Y-%m-%d %H:%M:%S` and reads the result
/// as UTC.
///
/// Trusted: the result depends on the text alone and is named `spec_parse_plain_datetime`.
#[verifier::external_body]
pub(crate) fn parse_plain_datetime(s: &str) -> (r: Option<(i64, u32)>)
    ensures
        r == spec_parse_plain_datetime(s@),
{
    chrono::NaiveDateTime::parse_from_str(s, "%Y-%m-%d %H:%M:%S").ok().map(
        |t| (t.and_utc().timestamp(), t.and_utc().timestamp_subsec_nanos()),
    )
}

/// An RFC 3339 text converted to a UTC timestamp, when chrono accepts it.
pub open spec fn rfc3339_timestamp(s: Seq<char>) -> Option<UtcTimestamp> {
    match spec_parse_rfc3339(s) {
        Some(p) => Some(UtcTimestamp { secs: p.0, nanos: p.1 }),
        None => None,
    }
}

/// A `YYYY-MM-DD HH:MM:SS` text read as UTC, when chrono accepts it.
pub open spec fn plain_timestamp(s: Seq<char>) -> Option<UtcTimestamp> {
    match spec_parse_plain_datetime(s) {
        Some(p) => Some(UtcTimestamp { secs: p.0, nanos: p.1 }),
        None => None,
    }
}

/// The UTC timestamp of an optional RFC 3339 text (`None` when absent or rejected).
pub fn optional_rfc3339(s: &Option<String>) -> (r: Option<UtcTimestamp>)
    ensures
        r == (match s {
            Some(t) => rfc3339_timestamp(t@),
            None => None,
        }),
{
    match s {
        Some(t) => match parse_rfc3339(t.as_str()) {
            Some(p) => Some(UtcTimestamp { secs: p.0, nanos: p.1 }),
            None => None,
        },
        None => None,
    }
}

/// The UTC timestamp of an optional `YYYY-MM-DD HH:MM:SS` text (`None` when absent or
/// rejected).
pub fn optional_plain_datetime(s: &Option<String>) -> (r: Option<UtcTimestamp>)
    ensures
        r == (match s {
            Some(t) => plain_timestamp(t@),
            None => None,
        }),
{
    match s {
        Some(t) => match parse_plain_datetime(t.as_str()) {
            Some(p) => Some(UtcTimestamp { secs: p.0, nanos: p.1 }),
            None => None,
        },
        None => None,
    }
}


/// Calls `rand::Rng::gen_range` on `rand::thread_rng()` over the durations `0..bound`
/// nanoseconds.
///
/// Trusted: the result is random and lies below `bound`; `gen_range` panics on an empty
/// range, which `requires` leaves out.
#[verifier::external_body]
pub(crate) fn random_nanos_below(bound: u64) -> (r: u64)
    requires
        bound > 0,
    ensures
        r < bound,
{
    rand::Rng::gen_range(
        &mut rand::thread_rng(),
        std::time::Duration::from_nanos(0)..std::time::Duration::from_nanos(bound),
    ).as_nanos() as u64
}

/// The hyphenated lower-case text of the UUID whose 128-bit value is `id`: its 32 hex digits,
/// most significant first, in groups of 8, 4, 4, 4 and 12 joined by `-`.
pub open spec fn uuid_text(id: u128) -> Seq<char> {
    Seq::new(
        36,
        |i: int|
            if i == 8 || i == 13 || i == 18 || i == 23 {
                '-'
            } else {
                let k = if i < 8 {
                    i
                } else if i < 13 {
                    i - 1
                } else if i < 18 {
                    i - 2
                } else if i < 23 {
                    i - 3
                } else {
                    i - 4
                };
                hex_lower_digit((((id as int) / pow(16, (31 - k) as nat)) % 16) as nat)
            },
    )
}

/// Calls `uuid::Uuid::from_u128` and renders it with `to_string`.
///
/// Trusted: `from_u128` takes the value's big-endian bytes, and `Display` writes the
/// hyphenated lower-case form (`format_hyphenated` in the crate's source), as `uuid_text`
/// states.
#[verifier::external_body]
pub(crate) fn uuid_text_of(id: u128) -> (s: String)
    ensures
        s@ == uuid_text(id),
{
    uuid::Uuid::from_u128(id).to_string()
}

/// Calls `uuid::Uuid::new_v4` and renders it with `to_string`.
///
/// Trusted: the value is random; its text is the hyphenated lower-case form of some 128-bit
/// value (`uuid_text`), whose version digit (index 14) is `4`, as `new_v4` sets it.
#[verifier::external_body]
pub(crate) fn random_uuid_text() -> (s: String)
    ensures
        exists|id: u128| s@ == #[trigger] uuid_text(id),
        s@[14] == '4',
{
    uuid::Uuid::new_v4().to_string()
}

} // verus!
