//! Calendar and time-zone arithmetic behind the reminder engine.
//!
//! Instants are UTC epoch milliseconds. A naive (wall-clock) date-time is
//! represented by the epoch milliseconds it would have if it were read as UTC,
//! so the naive date is its floor division by one day and the time of day the
//! remainder. Every value the reminder engine handles has millisecond
//! precision, so this representation is exact.
use chrono::{DateTime, LocalResult, Months, NaiveDate, Offset, TimeZone, Utc};
use chrono_tz::Tz;
use vstd::prelude::*;

verus! {

/// Milliseconds in one day.
pub const DAY_MS: i64 = 86_400_000;

/// Milliseconds in one minute.
pub const MINUTE_MS: i64 = 60_000;

/// Day number (days since 1970-01-01) of chrono's `NaiveDate::MIN`, -262143-01-01.
pub const MIN_DAY: i64 = -96_465_292;

/// Day number of chrono's `NaiveDate::MAX`, 262142-12-31.
pub const MAX_DAY: i64 = 95_026_236;

/// Epoch milliseconds of chrono's `NaiveDateTime::MIN` (start of `MIN_DAY`).
pub const MIN_MS: i64 = -8_334_601_228_800_000;

/// Epoch milliseconds of the last millisecond of `MAX_DAY`.
pub const MAX_MS: i64 = 8_210_266_876_799_999;

/// Whether `ms` lies in the range chrono can represent as a date-time.
pub open spec fn ms_in_range(ms: int) -> bool {
    MIN_MS <= ms <= MAX_MS
}

/// The day number (days since 1970-01-01) of the naive date-time `ms`.
pub open spec fn day_of(ms: int) -> int {
    ms / (DAY_MS as int)
}

/// The milliseconds since midnight of the naive date-time `ms`.
pub open spec fn time_of_day(ms: int) -> int {
    ms % (DAY_MS as int)
}

/// `NaiveDate::checked_add_days(Days::new(n))` on day numbers: the date `n`
/// days later, or `None` when `n` exceeds `i32::MAX` or the result leaves
/// chrono's date range.
pub open spec fn add_days(day: int, n: int) -> Option<int> {
    if n <= i32::MAX && MIN_DAY <= day + n <= MAX_DAY {
        Some(day + n)
    } else {
        None
    }
}

/// How a wall-clock time maps to instants in a time zone.
#[derive(Debug, Clone, Copy, PartialEq, Eq)]
pub enum LocalTimeMapping {
    /// The wall-clock time occurs exactly once, at this instant.
    Single(i64),
    /// The wall-clock time occurs twice (a repeated hour); earlier instant first.
    Ambiguous(i64, i64),
    /// The wall-clock time does not occur (a skipped hour).
    Gap,
}

/// Whether `tzid` names a zone of the compiled-in IANA database (`Tz::from_str`).
pub uninterp spec fn spec_tz_known(tzid: Seq<char>) -> bool;

/// The wall-clock reading in zone `tzid` of the UTC instant `utc_ms`
/// (`DateTime::with_timezone` then `naive_local`), or `None` where that
/// reading lies outside chrono's range.
pub uninterp spec fn spec_tz_local_of_utc(tzid: Seq<char>, utc_ms: i64) -> Option<i64>;

/// How the wall-clock time `local_ms` maps to instants in zone `tzid`
/// (`TimeZone::from_local_datetime`).
pub uninterp spec fn spec_tz_utc_of_local(tzid: Seq<char>, local_ms: i64) -> LocalTimeMapping;

/// `NaiveDate::checked_add_months` on day numbers: the same day of the month
/// `months` months later, clamped to the last day of a shorter month, or
/// `None` when the result leaves chrono's date range.
pub uninterp spec fn spec_date_add_months(day: i64, months: u32) -> Option<i64>;

/// Calls `DateTime::<Utc>::from_timestamp_millis`. Its source builds the
/// date-time from the day number and time of day and fails exactly when the
/// date falls outside `NaiveDate::MIN..=NaiveDate::MAX`; the contract states
/// that range in milliseconds.
#[verifier::external_body]
pub fn utc_millis_valid(ms: i64) -> (valid: bool)
    ensures
        valid == ms_in_range(ms as int),
{
    DateTime::<Utc>::from_timestamp_millis(ms).is_some()
}

/// Calls `Tz::from_str` (the `parse` of a zone name) and reports whether it
/// succeeded. The contract names the outcome; the zone table is compiled into
/// `chrono-tz`, so it depends on the name alone.
#[verifier::external_body]
pub fn tz_is_known(tzid: &str) -> (known: bool)
    ensures
        known == spec_tz_known(tzid@),
{
    tzid.parse::<Tz>().is_ok()
}

/// Reads the UTC instant `utc_ms` on the wall clock of zone `tzid`: the
/// offset that `Tz::offset_from_utc_datetime` gives, added with
/// `NaiveDateTime::checked_add_offset`. This is what `with_timezone` followed
/// by `naive_local` computes; where `naive_local` would panic because the
/// reading leaves chrono's range, this returns `None`. The contract names the
/// result and states that a reading lies in chrono's range.
#[verifier::external_body]
pub fn tz_local_of_utc(tzid: &str, utc_ms: i64) -> (local: Option<i64>)
    requires
        spec_tz_known(tzid@),
        ms_in_range(utc_ms as int),
    ensures
        local == spec_tz_local_of_utc(tzid@, utc_ms),
        local matches Some(l) ==> ms_in_range(l as int),
{
    let tz: Tz = tzid.parse().unwrap_or(Tz::UTC);
    let utc = DateTime::<Utc>::from_timestamp_millis(utc_ms).unwrap_or_default().naive_utc();
    let offset = tz.offset_from_utc_datetime(&utc).fix();
    match utc.checked_add_offset(offset) {
        Some(naive) => Some(naive.and_utc().timestamp_millis()),
        None => None,
    }
}

/// Calls `TimeZone::from_local_datetime` of zone `tzid` on the wall-clock
/// time `local_ms` and tells its three outcomes apart, each instant as UTC
/// epoch milliseconds. The contract names the result and states that the
/// instants lie in chrono's range (they are `DateTime` values).
#[verifier::external_body]
pub fn tz_utc_of_local(tzid: &str, local_ms: i64) -> (mapping: LocalTimeMapping)
    requires
        spec_tz_known(tzid@),
        ms_in_range(local_ms as int),
    ensures
        mapping == spec_tz_utc_of_local(tzid@, local_ms),
        mapping matches LocalTimeMapping::Single(u) ==> ms_in_range(u as int),
        mapping matches LocalTimeMapping::Ambiguous(a, b) ==> ms_in_range(a as int) && ms_in_range(b as int),
{
    let tz: Tz = tzid.parse().unwrap_or(Tz::UTC);
    let naive = DateTime::<Utc>::from_timestamp_millis(local_ms).unwrap_or_default().naive_utc();
    match tz.from_local_datetime(&naive) {
        LocalResult::Single(dt) => LocalTimeMapping::Single(dt.timestamp_millis()),
        LocalResult::Ambiguous(a, b) => LocalTimeMapping::Ambiguous(a.timestamp_millis(), b.timestamp_millis()),
        LocalResult::None => LocalTimeMapping::Gap,
    }
}

/// Calls `NaiveDate::checked_add_months` on the date with day number `day`.
/// The contract names the result and states what its source shows: adding
/// zero months returns the date unchanged, and a result is a date in range.
#[verifier::external_body]
pub fn date_add_months(day: i64, months: u32) -> (res: Option<i64>)
    requires
        MIN_DAY <= day <= MAX_DAY,
    ensures
        res == spec_date_add_months(day, months),
        months == 0 ==> res == Some(day),
        res matches Some(d) ==> MIN_DAY <= d <= MAX_DAY,
{
    let date = NaiveDate::from_epoch_days(day as i32).unwrap_or_default();
    match date.checked_add_months(Months::new(months)) {
        Some(d) => Some(d.to_epoch_days() as i64),
        None => None,
    }
}

} // verus!
