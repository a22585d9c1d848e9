//! The configured day of week and its match against a calendar date.

use vstd::prelude::*;
use crate::date::Date;
use crate::date::weekday_index_of;
use crate::error::AppError;
use crate::error::AppResult;

verus! {

/// One of the seven days of the week; the transfer runs only when
/// today's weekday equals the configured one.
#[derive(Debug, Clone, PartialEq, Eq, Structural)]
pub enum WeekDay {
    Sunday,
    Monday,
    Tuesday,
    Wednesday,
    Thursday,
    Friday,
    Saturday,
}

impl WeekDay {
    /// The day's number as days from Sunday: 0 is Sunday, ..., 6 is
    /// Saturday.
    pub open spec fn index_spec(&self) -> int {
        match self {
            WeekDay::Sunday => 0,
            WeekDay::Monday => 1,
            WeekDay::Tuesday => 2,
            WeekDay::Wednesday => 3,
            WeekDay::Thursday => 4,
            WeekDay::Friday => 5,
            WeekDay::Saturday => 6,
        }
    }

    /// The day's number as days from Sunday.
    pub fn index(&self) -> (r: u32)
        ensures
            r == self.index_spec(),
    {
        match self {
            WeekDay::Sunday => 0,
            WeekDay::Monday => 1,
            WeekDay::Tuesday => 2,
            WeekDay::Wednesday => 3,
            WeekDay::Thursday => 4,
            WeekDay::Friday => 5,
            WeekDay::Saturday => 6,
        }
    }

    /// Whether this configured day is the weekday of `date`.
    pub fn matches_weekday(&self, date: &Date) -> (r: bool)
        requires
            date.valid(),
        ensures
            r == (self.index_spec() == weekday_index_of(
                date.year as int,
                date.month as int,
                date.day as int,
            )),
    {
        date.weekday_index() == self.index()
    }

    /// Parses the three-letter weekday token used by the configuration.
    pub fn try_from(value: String) -> (r: AppResult<WeekDay>)
        ensures
            value@ == "Mon"@ ==> r == Ok::<WeekDay, AppError>(WeekDay::Monday),
            value@ == "Tue"@ ==> r == Ok::<WeekDay, AppError>(WeekDay::Tuesday),
            value@ == "Wed"@ ==> r == Ok::<WeekDay, AppError>(WeekDay::Wednesday),
            value@ == "Thu"@ ==> r == Ok::<WeekDay, AppError>(WeekDay::Thursday),
            value@ == "Fri"@ ==> r == Ok::<WeekDay, AppError>(WeekDay::Friday),
            value@ == "Sat"@ ==> r == Ok::<WeekDay, AppError>(WeekDay::Saturday),
            value@ == "Sun"@ ==> r == Ok::<WeekDay, AppError>(WeekDay::Sunday),
            (value@ != "Mon"@ && value@ != "Tue"@ && value@ != "Wed"@ && value@ != "Thu"@
                && value@ != "Fri"@ && value@ != "Sat"@ && value@ != "Sun"@) ==> (r matches Err(e)
                && e matches AppError::InvalidInput(_)),
    {
        proof {
            reveal_strlit("Mon");
            reveal_strlit("Tue");
            reveal_strlit("Wed");
            reveal_strlit("Thu");
            reveal_strlit("Fri");
            reveal_strlit("Sat");
            reveal_strlit("Sun");
            assert("Mon"@[0] == 'M');
            assert("Tue"@[0] == 'T');
            assert("Wed"@[0] == 'W');
            assert("Thu"@[0] == 'T');
            assert("Fri"@[0] == 'F');
            assert("Sat"@[0] == 'S');
            assert("Sun"@[0] == 'S');
            assert("Tue"@[1] == 'u');
            assert("Thu"@[1] == 'h');
            assert("Sat"@[1] == 'a');
            assert("Sun"@[1] == 'u');
        }
        if value == "Mon".to_owned() {
            Ok(WeekDay::Monday)
        } else if value == "Tue".to_owned() {
            Ok(WeekDay::Tuesday)
        } else if value == "Wed".to_owned() {
            Ok(WeekDay::Wednesday)
        } else if value == "Thu".to_owned() {
            Ok(WeekDay::Thursday)
        } else if value == "Fri".to_owned() {
            Ok(WeekDay::Friday)
        } else if value == "Sat".to_owned() {
            Ok(WeekDay::Saturday)
        } else if value == "Sun".to_owned() {
            Ok(WeekDay::Sunday)
        } else {
            Err(AppError::InvalidInput("no such weekday token".to_owned()))
        }
    }
}

} // verus!
