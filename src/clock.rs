use vstd::prelude::*;

verus! {

/// The largest number of seconds since the Unix epoch that a chrono date can
/// reach, rounded up: chrono's dates end in the year 262142.
pub const LATEST_SECONDS: i64 = 9_000_000_000_000;

/// The instant, in whole seconds since the Unix epoch, that a date-time text
/// denotes.
pub uninterp spec fn utc_seconds(s: Seq<char>) -> Option<i64>;

/// Relies on chrono's `Utc::now` and `DateTime::timestamp`: the current time in
/// whole seconds since the Unix epoch. `Utc::now` measures from the epoch with
/// `duration_since(UNIX_EPOCH)`, so the value is not negative, and a chrono
/// date-time lies before the year 262143.
#[verifier::external_body]
pub(crate) fn now_seconds() -> (r: i64)
    ensures
        0 <= r < LATEST_SECONDS,
{
    chrono::Utc::now().timestamp()
}

/// Relies on chrono's `FromStr` for `DateTime<Utc>` (relaxed RFC 3339, as in
/// API responses) and `DateTime::timestamp`: the instant in whole seconds, or
/// `None` where the text is not a date-time.
#[verifier::external_body]
pub(crate) fn parse_utc_seconds(s: &str) -> (r: Option<i64>)
    ensures
        r == utc_seconds(s@),
{
    match s.parse::<chrono::DateTime<chrono::Utc>>() {
        Ok(d) => Some(d.timestamp()),
        Err(_) => None,
    }
}

} // verus!
