//! Calendar dates as plain values: validity under the Gregorian
//! calendar and the weekday computation the schedule gate relies on.

use vstd::prelude::*;
use crate::error::AppError;
use crate::error::AppResult;

verus! {

/// Whether `y` is a Gregorian leap year.
pub open spec fn is_leap_year(y: int) -> bool {
    y % 4 == 0 && (y % 100 != 0 || y % 400 == 0)
}

/// The number of days of month `m` in year `y`.
pub open spec fn days_in_month(y: int, m: int) -> int {
    if m == 2 {
        if is_leap_year(y) {
            29
        } else {
            28
        }
    } else if m == 4 || m == 6 || m == 9 || m == 11 {
        30
    } else {
        31
    }
}

/// Whether year, month and day form a calendar date the engine accepts:
/// a real Gregorian date with a four-digit year.
pub open spec fn valid_ymd(y: int, m: int, d: int) -> bool {
    &&& 1 <= y <= 9999
    &&& 1 <= m <= 12
    &&& 1 <= d <= days_in_month(y, m)
}

/// Days from 0000-03-01 of the civil (Gregorian) calendar to the given
/// date, counted in eras of 400 years (146097 days each).
pub open spec fn days_from_civil_era(y: int, m: int, d: int) -> int {
    let yy = if m <= 2 {
        y - 1
    } else {
        y
    };
    let era = yy / 400;
    let yoe = yy - era * 400;
    let mp = (m + 9) % 12;
    let doy = (153 * mp + 2) / 5 + d - 1;
    let doe = yoe * 365 + yoe / 4 - yoe / 100 + doy;
    era * 146097 + doe
}

/// The weekday of a date, as days from Sunday: 0 is Sunday, 1 is
/// Monday, ..., 6 is Saturday.
pub open spec fn weekday_index_of(y: int, m: int, d: int) -> int {
    (days_from_civil_era(y, m, d) + 3) % 7
}

/// A calendar date, held as plain year, month and day numbers. The
/// surrounding program obtains today's date from the local clock and
/// hands it in here.
#[derive(Debug, Clone, Copy, PartialEq, Eq, Structural)]
pub struct Date {
    pub year: u32,
    pub month: u32,
    pub day: u32,
}

impl Date {
    /// Whether this value is a real calendar date the engine accepts.
    pub open spec fn valid(&self) -> bool {
        valid_ymd(self.year as int, self.month as int, self.day as int)
    }

    /// Builds a date after checking it against the calendar; a value
    /// that is no real date is rejected as invalid input.
    pub fn new(year: u32, month: u32, day: u32) -> (r: AppResult<Date>)
        ensures
            valid_ymd(year as int, month as int, day as int) ==> r == Ok::<Date, AppError>(
                Date { year, month, day },
            ),
            !valid_ymd(year as int, month as int, day as int) ==> (r matches Err(e) && e matches
                AppError::InvalidInput(_)),
    {
        if 1 <= year && year <= 9999 && 1 <= month && month <= 12 && 1 <= day && day
            <= days_in_month_count(year, month) {
            Ok(Date { year, month, day })
        } else {
            Err(AppError::InvalidInput("no such calendar date".to_owned()))
        }
    }

    /// The weekday of this date, as days from Sunday (0 to 6).
    pub fn weekday_index(&self) -> (r: u32)
        requires
            self.valid(),
        ensures
            r == weekday_index_of(self.year as int, self.month as int, self.day as int),
            r < 7,
    {
        let yy: u32 = if self.month <= 2 {
            self.year - 1
        } else {
            self.year
        };
        let era: u32 = yy / 400;
        let yoe: u32 = yy - era * 400;
        let mp: u32 = (self.month + 9) % 12;
        let doy: u32 = (153 * mp + 2) / 5 + self.day - 1;
        let doe: u32 = yoe * 365 + yoe / 4 - yoe / 100 + doy;
        let total: u32 = era * 146097 + doe;
        (total + 3) % 7
    }
}

/// The number of days of month `m` in year `y`.
pub fn days_in_month_count(y: u32, m: u32) -> (r: u32)
    requires
        1 <= m <= 12,
    ensures
        r == days_in_month(y as int, m as int),
{
    if m == 2 {
        if (y % 4 == 0 && y % 100 != 0) || y % 400 == 0 {
            29
        } else {
            28
        }
    } else if m == 4 || m == 6 || m == 9 || m == 11 {
        30
    } else {
        31
    }
}

} // verus!
