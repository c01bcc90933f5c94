//! Timezone-naive calendar date-and-time values.
//!
//! A timestamp here carries no timezone or offset: producers and consumers
//! agree out-of-band on the reference timezone (platform-local time is
//! assumed).

use vstd::prelude::*;

verus! {

/// Whether `y` is a leap year of the proleptic Gregorian calendar.
pub open spec fn spec_is_leap_year(y: int) -> bool {
    y % 4 == 0 && (y % 100 != 0 || y % 400 == 0)
}

/// The number of days in month `m` of year `y`.
pub open spec fn spec_days_in_month(y: int, m: int) -> int
    recommends
        1 <= m <= 12,
{
    if m == 2 {
        if spec_is_leap_year(y) {
            29
        } else {
            28
        }
    } else if m == 4 || m == 6 || m == 9 || m == 11 {
        30
    } else {
        31
    }
}

/// Whether the six fields form a valid calendar date and time-of-day:
/// a year from 0 through 9999, a real day of a real month, and a
/// time-of-day within the day.
pub open spec fn spec_valid_date_time(y: int, mo: int, d: int, h: int, mi: int, s: int) -> bool {
    &&& 0 <= y <= 9999
    &&& 1 <= mo <= 12
    &&& 1 <= d <= spec_days_in_month(y, mo)
    &&& 0 <= h < 24
    &&& 0 <= mi < 60
    &&& 0 <= s < 60
}

/// Returns whether `y` is a leap year.
pub fn is_leap_year(y: i32) -> (r: bool)
    requires
        0 <= y,
    ensures
        r == spec_is_leap_year(y as int),
{
    y % 4 == 0 && (y % 100 != 0 || y % 400 == 0)
}

/// Returns the number of days in month `m` of year `y`.
pub fn days_in_month(y: i32, m: u8) -> (r: u8)
    requires
        0 <= y,
        1 <= m <= 12,
    ensures
        r as int == spec_days_in_month(y as int, m as int),
{
    if m == 2 {
        if is_leap_year(y) {
            29
        } else {
            28
        }
    } else if m == 4 || m == 6 || m == 9 || m == 11 {
        30
    } else {
        31
    }
}

/// A calendar date and time-of-day without timezone or offset.
#[derive(Clone, Copy, PartialEq, Eq, Structural, Debug)]
pub struct DateTime {
    pub year: i32,
    pub month: u8,
    pub day: u8,
    pub hour: u8,
    pub minute: u8,
    pub second: u8,
}

impl DateTime {
    /// Well-formed: the fields name a valid calendar date and time-of-day.
    pub open spec fn wf(self) -> bool {
        spec_valid_date_time(
            self.year as int,
            self.month as int,
            self.day as int,
            self.hour as int,
            self.minute as int,
            self.second as int,
        )
    }

    /// Validates the fields and builds the value; the empty result comes
    /// exactly on fields that name no valid calendar date and time-of-day.
    pub fn new(year: i32, month: u8, day: u8, hour: u8, minute: u8, second: u8) -> (r: Option<
        DateTime,
    >)
        ensures
            r == if spec_valid_date_time(
                year as int,
                month as int,
                day as int,
                hour as int,
                minute as int,
                second as int,
            ) {
                Some(DateTime { year, month, day, hour, minute, second })
            } else {
                None::<DateTime>
            },
            r matches Some(dt) ==> dt.wf(),
    {
        if year < 0 || year > 9999 {
            return None;
        }
        if month < 1 || month > 12 {
            return None;
        }
        if day < 1 || day > days_in_month(year, month) {
            return None;
        }
        if hour >= 24 || minute >= 60 || second >= 60 {
            return None;
        }
        Some(DateTime { year, month, day, hour, minute, second })
    }
}

} // verus!
