//! Calendar dates as a ledger writes them, and the date-times handed to the host.

use vstd::prelude::*;

verus! {

/// A date as it stands in a ledger: three numbers, not yet known to name a
/// day that exists.
#[derive(Clone, Copy, Debug, PartialEq, Eq, Structural)]
pub struct Date {
    pub year: u16,
    pub month: u8,
    pub day: u8,
}

/// A calendar day at a time of day, in a zone at a fixed offset from UTC.
#[derive(Clone, Copy, Debug, PartialEq, Eq, Structural)]
pub struct DateTime {
    pub date: Date,
    /// Seconds since midnight.
    pub second_of_day: u32,
    /// Seconds east of UTC.
    pub utc_offset: i32,
}

/// Whether `year` has a 29th of February in the proleptic Gregorian calendar.
pub open spec fn is_leap_year(year: int) -> bool {
    year % 4 == 0 && (year % 100 != 0 || year % 400 == 0)
}

/// The number of days of month `month` (1 to 12) of `year`.
pub open spec fn days_in_month(year: int, month: int) -> int {
    if month == 2 {
        if is_leap_year(year) {
            29
        } else {
            28
        }
    } else if month == 4 || month == 6 || month == 9 || month == 11 {
        30
    } else {
        31
    }
}

/// Asks `chrono::NaiveDate::from_ymd_opt` whether the three numbers name a day.
/// Trusted: chrono answers `Some` exactly for the days of the proleptic
/// Gregorian calendar, and every year a `u16` holds lies within its range.
#[verifier::external_body]
fn calendar_has(year: u16, month: u8, day: u8) -> (known: bool)
    ensures
        known == (Date { year, month, day }).is_valid(),
{
    chrono::NaiveDate::from_ymd_opt(year.into(), month.into(), day.into()).is_some()
}

impl Date {
    pub fn new(year: u16, month: u8, day: u8) -> (date: Date)
        ensures
            date == (Date { year, month, day }),
    {
        Date { year, month, day }
    }

    /// Whether this date names a day of the calendar.
    pub open spec fn is_valid(self) -> bool {
        &&& 1 <= self.month <= 12
        &&& 1 <= self.day <= days_in_month(self.year as int, self.month as int)
    }

    /// Tests whether this date names a day of the calendar.
    pub fn is_calendar_date(&self) -> (valid: bool)
        ensures
            valid == self.is_valid(),
    {
        calendar_has(self.year, self.month, self.day)
    }
}

impl DateTime {
    /// The start of `date` in UTC.
    pub open spec fn spec_midnight_utc(date: Date) -> DateTime {
        DateTime { date, second_of_day: 0, utc_offset: 0 }
    }

    /// The start of `date` in UTC.
    #[verifier::when_used_as_spec(spec_midnight_utc)]
    pub fn midnight_utc(date: Date) -> (at: DateTime)
        ensures
            at == DateTime::spec_midnight_utc(date),
    {
        DateTime { date, second_of_day: 0, utc_offset: 0 }
    }
}

} // verus!
