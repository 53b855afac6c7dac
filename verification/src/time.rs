//! Instants as milliseconds since the Unix epoch (UTC): read and written with chrono, and
//! the current one read from the system clock.

use crate::model::ImError;
use vstd::prelude::*;

verus! {

/// The instant that `chrono::DateTime::parse_from_rfc3339` reads from `s`, in
/// milliseconds since the epoch.
pub uninterp spec fn rfc3339_instant(s: Seq<char>) -> Option<i64>;

/// Calls `chrono::DateTime::parse_from_rfc3339`. Claimed: the result is the named
/// reading of the text, as milliseconds.
#[verifier::external_body]
pub fn parse_rfc3339(s: &str) -> (r: Option<i64>)
    ensures
        r == rfc3339_instant(s@),
{
    chrono::DateTime::parse_from_rfc3339(s).ok().map(|dt| dt.timestamp_millis())
}

/// Whether chrono can represent the instant `ms` milliseconds after the epoch: its
/// bounds are chrono's first and last representable instants, the last being
/// the end of the year 262142.
pub open spec fn millis_representable(ms: i64) -> bool {
    -8334601228800000 <= ms <= 8210266876799999
}

/// Calls `chrono::DateTime::from_timestamp_millis`. Claimed: it gives the same
/// instant back where chrono can represent it, and nothing otherwise.
#[verifier::external_body]
pub fn from_millis(ms: i64) -> (r: Option<i64>)
    ensures
        r is Some <==> millis_representable(ms),
        r matches Some(v) ==> v == ms,
{
    chrono::DateTime::from_timestamp_millis(ms).map(|dt| dt.timestamp_millis())
}

/// Whether chrono can represent the instant `secs` seconds after the epoch: its
/// bounds are chrono's first and last representable instants, the last being
/// the end of the year 262142.
pub open spec fn secs_representable(secs: i64) -> bool {
    -8334601228800 <= secs <= 8210266876799
}

/// Calls `chrono::DateTime::from_timestamp(secs, 0)`. Claimed: the instant, in
/// milliseconds, where chrono can represent it, and nothing otherwise.
#[verifier::external_body]
pub fn from_secs(secs: i64) -> (r: Option<i64>)
    ensures
        r is Some <==> secs_representable(secs),
        r matches Some(v) ==> v == secs * 1000,
{
    chrono::DateTime::from_timestamp(secs, 0).map(|dt| dt.timestamp_millis())
}

/// The RFC 3339 text that chrono writes for the instant `ms` (empty where chrono
/// cannot represent it).
pub uninterp spec fn rfc3339_text(ms: i64) -> Seq<char>;

/// Calls `chrono::DateTime::to_rfc3339` on the instant. Claimed: the named text.
#[verifier::external_body]
pub fn fmt_rfc3339(ms: i64) -> (r: String)
    ensures
        r@ == rfc3339_text(ms),
{
    chrono::DateTime::from_timestamp_millis(ms).map(|dt| dt.to_rfc3339()).unwrap_or_default()
}

/// The text that `chrono::DateTime::format(pattern)` writes for the UTC instant `ms`
/// (empty where chrono cannot represent it).
pub uninterp spec fn utc_text(ms: i64, pattern: Seq<char>) -> Seq<char>;

/// Whether `pattern` is one of the strftime patterns the library writes dates with:
/// each holds only specifiers chrono knows, so formatting with it cannot fail.
pub open spec fn known_pattern(pattern: Seq<char>) -> bool {
    ||| pattern == "%Y-%m-%d"@
    ||| pattern == "%Y-%m-%d %H:%M"@
    ||| pattern == "%Y-%m-%d %H:%M:%S"@
}

/// Calls `chrono::DateTime::format` on the UTC instant. Claimed: the named text. The
/// pattern is one of the library's own, since chrono's `to_string` panics on a
/// pattern with a specifier it does not know.
#[verifier::external_body]
pub fn fmt_utc(ms: i64, pattern: &str) -> (r: String)
    requires
        known_pattern(pattern@),
    ensures
        r@ == utc_text(ms, pattern@),
{
    chrono::DateTime::from_timestamp_millis(ms).map(|dt| dt.format(pattern).to_string()).unwrap_or_default()
}

/// The UTC instant that `chrono::NaiveDateTime::parse_from_str(s, pattern)` reads.
pub uninterp spec fn naive_utc_instant(s: Seq<char>, pattern: Seq<char>) -> Option<i64>;

/// Calls `chrono::NaiveDateTime::parse_from_str` and reads the result as UTC.
/// Claimed: the named instant, in milliseconds.
#[verifier::external_body]
pub fn parse_naive_utc(s: &str, pattern: &str) -> (r: Option<i64>)
    ensures
        r == naive_utc_instant(s@, pattern@),
{
    chrono::NaiveDateTime::parse_from_str(s, pattern).ok().map(|dt| dt.and_utc().timestamp_millis())
}

/// Whether an expiry `secs` seconds after `now` (milliseconds) is a representable
/// instant in milliseconds.
pub open spec fn expiry_fits(now: i64, expire_in: Option<i64>) -> bool {
    match expire_in {
        Some(secs) => i64::MIN <= now + secs * 1000 <= i64::MAX,
        None => true,
    }
}

/// The instant `secs` seconds after `now`, where a lifetime is given.
pub open spec fn expiry_at(now: i64, expire_in: Option<i64>) -> Option<i64> {
    match expire_in {
        Some(secs) => Some((now + secs * 1000) as i64),
        None => None,
    }
}

pub fn expiry(now: i64, expire_in: Option<i64>) -> (r: Option<i64>)
    requires
        expiry_fits(now, expire_in),
    ensures
        r == expiry_at(now, expire_in),
{
    match expire_in {
        Some(secs) => Some(((now as i128) + (secs as i128) * 1000) as i64),
        None => None,
    }
}

/// The expiry where it fits in milliseconds, else nothing.
pub fn expiry_checked(now: i64, expire_in: Option<i64>) -> (r: Option<Option<i64>>)
    ensures
        r is Some <==> expiry_fits(now, expire_in),
        r matches Some(x) ==> x == expiry_at(now, expire_in),
{
    match expire_in {
        Some(secs) => {
            let total = (now as i128) + (secs as i128) * 1000;
            if i64::MIN as i128 <= total && total <= i64::MAX as i128 {
                Some(Some(total as i64))
            } else {
                None
            }
        },
        None => Some(None),
    }
}

/// Reads the system clock with `std::time::SystemTime::now` and measures it from the
/// Unix epoch in milliseconds; `None` where the clock reads before the epoch or
/// beyond what an `i64` holds. Nothing is claimed of the result.
#[verifier::external_body]
pub fn now_millis() -> (r: Option<i64>) {
    std::time::SystemTime::now()
        .duration_since(std::time::UNIX_EPOCH)
        .ok()
        .and_then(|d| i64::try_from(d.as_millis()).ok())
}

/// The error for a system clock that reads before the Unix epoch.
pub fn clock_error() -> (e: ImError)
    ensures
        e matches ImError::Internal(m) && m@ == clock_error_text(),
{
    ImError::Internal("system clock before the Unix epoch".to_string())
}

pub open spec fn clock_error_text() -> Seq<char> {
    "system clock before the Unix epoch"@
}

} // verus!
