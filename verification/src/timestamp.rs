//! Timestamps: milliseconds since 1970-01-01T00:00:00Z, within the span of years
//! that `chrono` can represent.

use chrono::{DateTime, NaiveDate, Utc};
use vstd::prelude::*;

verus! {

/// The first year that `chrono` represents: that of `chrono::NaiveDate::MIN`.
pub const MIN_YEAR: i32 = -262_143;

/// The last year that `chrono` represents: that of `chrono::NaiveDate::MAX`.
pub const MAX_YEAR: i32 = 262_142;

/// The first millisecond of `MIN_YEAR`.
pub const MIN_MILLIS: i64 = -8_334_601_228_800_000;

/// The last millisecond of `MAX_YEAR`.
pub const MAX_MILLIS: i64 = 8_210_266_876_799_999;

/// Leap years of the proleptic Gregorian calendar; year 0 is 1 BCE.
pub open spec fn is_leap_year(year: int) -> bool {
    year % 4 == 0 && (year % 100 != 0 || year % 400 == 0)
}

/// The number of days of a month.
pub open spec fn days_in_month(year: int, month: int) -> int {
    if month == 2 {
        if is_leap_year(year) {
            29
        } else {
            28
        }
    } else if month == 4 || month == 6 || month == 9 || month == 11 {
        30
    } else {
        31
    }
}

/// The number of leap years among the years 1 to `year - 1`, counted backwards
/// for a year before 1.
pub open spec fn leap_years_before(year: int) -> int {
    (year - 1) / 4 - (year - 1) / 100 + (year - 1) / 400
}

/// The days from 1970-01-01 to the first day of `year`.
pub open spec fn days_before_year(year: int) -> int {
    365 * (year - 1970) + leap_years_before(year) - leap_years_before(1970)
}

/// The days from the first day of `year` to the first day of its month `month`.
pub open spec fn days_before_month(year: int, month: int) -> int
    decreases month,
{
    if month <= 1 {
        0
    } else {
        days_before_month(year, month - 1) + days_in_month(year, month - 1)
    }
}

/// Whether the six numbers are a date and a time of day that exist, in a year
/// between `MIN_YEAR` and `MAX_YEAR`. There is no leap second.
pub open spec fn is_civil(year: int, month: int, day: int, hour: int, minute: int, second: int)
    -> bool {
    &&& MIN_YEAR <= year <= MAX_YEAR
    &&& 1 <= month <= 12
    &&& 1 <= day <= days_in_month(year, month)
    &&& 0 <= hour < 24
    &&& 0 <= minute < 60
    &&& 0 <= second < 60
}

/// The days from 1970-01-01 to the given date.
pub open spec fn epoch_day(year: int, month: int, day: int) -> int {
    days_before_year(year) + days_before_month(year, month) + day - 1
}

/// The milliseconds from 1970-01-01T00:00:00Z to the given second.
pub open spec fn civil_millis(year: int, month: int, day: int, hour: int, minute: int, second: int)
    -> int {
    epoch_day(year, month, day) * 86_400_000 + (hour * 3600 + minute * 60 + second) * 1000
}

/// Whether `chrono` has a `DateTime<Utc>` for this count of milliseconds.
pub open spec fn in_range(millis: int) -> bool {
    MIN_MILLIS <= millis <= MAX_MILLIS
}

/// Calls `chrono::DateTime::<Utc>::from_timestamp_millis` and reads the result back
/// with `DateTime::timestamp_millis`.
///
/// Trusted, not proved: `from_timestamp_millis` returns a value exactly where the
/// day of `millis` lies between January 1 of `MIN_YEAR` and December 31 of
/// `MAX_YEAR`, the first and the last day that `chrono::NaiveDate` holds, and
/// `timestamp_millis` gives back the count from which the value was made.
#[verifier::external_body]
fn utc_millis_checked(millis: i64) -> (r: Option<i64>)
    ensures
        r == (if in_range(millis as int) {
            Some(millis)
        } else {
            None
        }),
{
    match DateTime::<Utc>::from_timestamp_millis(millis) {
        Some(t) => Some(t.timestamp_millis()),
        None => None,
    }
}

/// Calls `chrono::NaiveDate::from_ymd_opt`, then `NaiveDate::and_hms_opt`, and reads
/// the result in UTC with `NaiveDateTime::and_utc` and `DateTime::timestamp_millis`.
///
/// Trusted, not proved: `from_ymd_opt` returns a value exactly for the days that
/// exist in the proleptic Gregorian calendar in the years from `MIN_YEAR` to
/// `MAX_YEAR`; `and_hms_opt` returns a value exactly for an hour below 24, a minute
/// below 60 and a second below 60; and `timestamp_millis` counts the milliseconds
/// since 1970-01-01T00:00:00Z, every day having 86400 seconds.
#[verifier::external_body]
fn utc_civil_to_millis(year: i32, month: u32, day: u32, hour: u32, minute: u32, second: u32) -> (r:
    Option<i64>)
    ensures
        r is Some <==> is_civil(
            year as int,
            month as int,
            day as int,
            hour as int,
            minute as int,
            second as int,
        ),
        r matches Some(millis) ==> millis == civil_millis(
            year as int,
            month as int,
            day as int,
            hour as int,
            minute as int,
            second as int,
        ),
{
    let date = NaiveDate::from_ymd_opt(year, month, day)?;
    let time = date.and_hms_opt(hour, minute, second)?;
    Some(time.and_utc().timestamp_millis())
}

/// A point in time with millisecond resolution, in UTC.
#[derive(Clone, Copy, Debug, PartialEq, Eq, Structural)]
pub struct Timestamp {
    pub(crate) millis: i64,
}

impl Timestamp {
    #[verifier::type_invariant]
    spec fn representable(self) -> bool {
        in_range(self.millis as int)
    }

    /// Milliseconds since 1970-01-01T00:00:00Z.
    pub open(crate) spec fn millis(self) -> i64 {
        self.millis
    }

    /// The timestamp at `millis` milliseconds since the epoch.
    pub open(crate) spec fn at_millis(millis: i64) -> Timestamp {
        Timestamp { millis }
    }

    /// The timestamp at `millis` milliseconds since the epoch, where `chrono` has
    /// one.
    pub fn from_millis(millis: i64) -> (r: Option<Timestamp>)
        ensures
            r == (if in_range(millis as int) {
                Some(Timestamp::at_millis(millis))
            } else {
                None
            }),
    {
        match utc_millis_checked(millis) {
            Some(m) => Some(Timestamp { millis: m }),
            None => None,
        }
    }

    /// The timestamp of a date and a time of day in UTC, where they exist.
    pub fn from_utc(year: i32, month: u32, day: u32, hour: u32, minute: u32, second: u32) -> (r:
        Option<Timestamp>)
        ensures
            r == Timestamp::spec_from_utc(
                year as int,
                month as int,
                day as int,
                hour as int,
                minute as int,
                second as int,
            ),
    {
        match utc_civil_to_millis(year, month, day, hour, minute, second) {
            Some(millis) => {
                proof {
                    lemma_civil_in_range(
                        year as int,
                        month as int,
                        day as int,
                        hour as int,
                        minute as int,
                        second as int,
                    );
                }
                Some(Timestamp { millis })
            },
            None => None,
        }
    }

    /// The timestamp of a date and a time of day in UTC, where they exist.
    pub open spec fn spec_from_utc(
        year: int,
        month: int,
        day: int,
        hour: int,
        minute: int,
        second: int,
    ) -> Option<Timestamp> {
        if is_civil(year, month, day, hour, minute, second) {
            Some(
                Timestamp::at_millis(civil_millis(year, month, day, hour, minute, second) as i64),
            )
        } else {
            None
        }
    }

    /// Milliseconds since 1970-01-01T00:00:00Z.
    pub fn to_millis(&self) -> (r: i64)
        ensures
            r == self.millis(),
            in_range(r as int),
    {
        proof {
            use_type_invariant(self);
        }
        self.millis
    }

    /// The timestamp at a count of milliseconds has that count.
    pub proof fn lemma_at_millis(millis: i64)
        ensures
            Timestamp::at_millis(millis).millis() == millis,
    {
    }

    /// Two timestamps at the same millisecond are the same timestamp.
    pub proof fn lemma_millis_determine(a: Timestamp, b: Timestamp)
        requires
            a.millis() == b.millis(),
        ensures
            a == b,
    {
    }
}

/// From one January 1 to the next there are 365 days, or 366 across a leap year.
pub proof fn lemma_year_length(year: int)
    ensures
        days_before_year(year + 1) - days_before_year(year) == (if is_leap_year(year) {
            366int
        } else {
            365int
        }),
{
    assert(year / 4 - (year - 1) / 4 == (if year % 4 == 0 {
        1int
    } else {
        0int
    }));
    assert(year / 100 - (year - 1) / 100 == (if year % 100 == 0 {
        1int
    } else {
        0int
    }));
    assert(year / 400 - (year - 1) / 400 == (if year % 400 == 0 {
        1int
    } else {
        0int
    }));
    assert(year % 100 == 0 ==> year % 4 == 0);
}

/// A later year starts no earlier.
pub proof fn lemma_year_start_monotonic(first: int, second: int)
    requires
        first <= second,
    ensures
        days_before_year(first) <= days_before_year(second),
    decreases second - first,
{
    if first < second {
        lemma_year_start_monotonic(first, second - 1);
        lemma_year_length(second - 1);
    }
}

/// A month and the months before it fit into their year.
pub proof fn lemma_days_before_month(year: int, month: int)
    requires
        1 <= month <= 12,
    ensures
        0 <= days_before_month(year, month),
        days_before_month(year, month) + days_in_month(year, month) <= (if is_leap_year(year) {
            366int
        } else {
            365int
        }),
{
    reveal_with_fuel(days_before_month, 13);
}

/// Every date and time of day that exists lies between the first millisecond of
/// `MIN_YEAR` and the last of `MAX_YEAR`: the two calls into `chrono` agree on what
/// a timestamp is.
pub proof fn lemma_civil_in_range(
    year: int,
    month: int,
    day: int,
    hour: int,
    minute: int,
    second: int,
)
    requires
        is_civil(year, month, day, hour, minute, second),
    ensures
        in_range(civil_millis(year, month, day, hour, minute, second)),
{
    lemma_days_before_month(year, month);
    lemma_year_length(year);
    lemma_year_start_monotonic(MIN_YEAR as int, year);
    lemma_year_start_monotonic(year + 1, MAX_YEAR + 1);
    lemma_range_ends();
}

/// `MIN_MILLIS` is the first millisecond of `MIN_YEAR`, and `MAX_MILLIS` the last
/// of `MAX_YEAR`: the range begins 96465292 days before 1970-01-01 and ends
/// 95026237 days after it.
pub proof fn lemma_range_ends()
    ensures
        civil_millis(MIN_YEAR as int, 1, 1, 0, 0, 0) == MIN_MILLIS,
        civil_millis(MAX_YEAR as int, 12, 31, 23, 59, 59) + 999 == MAX_MILLIS,
        days_before_year(MIN_YEAR as int) == -96_465_292,
        days_before_year(MAX_YEAR + 1) == 95_026_237,
{
    reveal_with_fuel(days_before_month, 13);
    lemma_year_length(MAX_YEAR as int);
}

} // verus!
