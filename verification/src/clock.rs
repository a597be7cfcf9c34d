//! Timestamps in whole seconds, and the RFC 3339 strings the inventory
//! store keeps them in. Parsing and formatting are chrono's; every rule
//! that reads a timestamp works on plain seconds and is verified here.

use vstd::prelude::*;

verus! {

/// The instant an RFC 3339 string denotes, in seconds since the Unix
/// epoch, or nothing when the string does not parse. Whether and to what
/// a string parses depends on its characters alone.
pub uninterp spec fn rfc3339_secs(s: Seq<char>) -> Option<i64>;

/// Relies on chrono's `DateTime::parse_from_rfc3339` and `timestamp`:
/// the parse is a function of the characters alone.
#[verifier::external_body]
pub fn parse_rfc3339_secs(s: &str) -> (r: Option<i64>)
    ensures
        r == rfc3339_secs(s@),
{
    match chrono::DateTime::parse_from_rfc3339(s) {
        Ok(d) => Some(d.timestamp()),
        Err(_) => None,
    }
}

/// Timestamps up to the end of year 9999 format cleanly.
pub open spec fn formats_as_rfc3339(t: int) -> bool {
    0 <= t <= 253_402_207_200
}

/// Relies on chrono's `DateTime::from_timestamp` and `to_rfc3339`: a
/// timestamp in range formats to a string that parses back to the same
/// instant.
#[verifier::external_body]
pub fn rfc3339_of_secs(secs: i64) -> (r: String)
    requires
        formats_as_rfc3339(secs as int),
    ensures
        rfc3339_secs(r@) == Some(secs),
{
    match chrono::DateTime::<chrono::Utc>::from_timestamp(secs, 0) {
        Some(d) => d.to_rfc3339(),
        None => String::new(),
    }
}

/// Relies on chrono's `Utc::now`: the current instant in milliseconds;
/// nothing is assumed of the value.
#[verifier::external_body]
fn now_unix_millis_raw() -> (r: i64) {
    chrono::Utc::now().timestamp_millis()
}

/// The current instant in milliseconds, clamped below at the epoch so the
/// result is unsigned.
pub(crate) fn now_unix_millis() -> (r: u64) {
    let t = now_unix_millis_raw();
    if t < 0 {
        0
    } else {
        t as u64
    }
}

/// A record is expired when its expiry instant lies strictly in the past.
pub open spec fn spec_expired(expiry_secs: i64, now_secs: i64) -> bool {
    expiry_secs < now_secs
}

/// Whether an expiry instant lies strictly in the past.
pub fn is_expired(expiry_secs: i64, now_secs: i64) -> (r: bool)
    ensures
        r == spec_expired(expiry_secs, now_secs),
{
    expiry_secs < now_secs
}

/// The expiry instant a duration of days from now denotes.
pub open spec fn spec_expiry_after_days(now_secs: i64, days: u32) -> int {
    now_secs + days * 86400
}

/// The expiry string for a code that lasts `days` days from `now_secs`:
/// the instant `days` whole days ahead, formatted as RFC 3339. Nothing is
/// returned when that instant does not format (a clock far out of range).
pub fn add_days_to_current_date(now_secs: i64, days: u32) -> (r: Option<String>)
    ensures
        match r {
            Some(s) => formats_as_rfc3339(spec_expiry_after_days(now_secs, days)) && rfc3339_secs(
                s@,
            ) == Some((now_secs + days * 86400) as i64),
            None => !formats_as_rfc3339(spec_expiry_after_days(now_secs, days)),
        },
{
    let target: i128 = now_secs as i128 + days as i128 * 86400;
    if 0 <= target && target <= 253_402_207_200i128 {
        Some(rfc3339_of_secs(target as i64))
    } else {
        None
    }
}

/// A broadcast message shows the expiry date only when it is at least an
/// hour and less than 180 days away.
pub open spec fn spec_show_expiration(expiry_secs: i64, now_secs: i64) -> bool {
    3600 <= expiry_secs - now_secs < 15_552_000
}

/// Whether the broadcast message should carry the expiry date.
pub fn show_expiration(expiry_secs: i64, now_secs: i64) -> (r: bool)
    ensures
        r == spec_show_expiration(expiry_secs, now_secs),
{
    let d: i128 = expiry_secs as i128 - now_secs as i128;
    3600 <= d && d < 15_552_000
}

/// A record is stale for the administrative sweep when it is expired or
/// out of stock.
pub open spec fn spec_stale(amount: u32, expiry_secs: i64, now_secs: i64) -> bool {
    spec_expired(expiry_secs, now_secs) || amount == 0
}

/// Whether the administrative sweep removes a record.
pub fn is_stale(amount: u32, expiry_secs: i64, now_secs: i64) -> (r: bool)
    ensures
        r == spec_stale(amount, expiry_secs, now_secs),
{
    expiry_secs < now_secs || amount == 0
}

} // verus!
