use chrono::{Datelike, NaiveDate};
use vstd::prelude::*;

verus! {

/// The day number that chrono gives to a year, month and day of the proleptic
/// Gregorian calendar (0001-01-01 is day 1), or `None` where no such date exists.
pub uninterp spec fn ymd_day_number(year: i32, month: u32, day: u32) -> Option<i64>;

/// The year, month and day of a day number, or `None` outside chrono's range.
pub uninterp spec fn civil_of_day_number(day_number: i32) -> Option<(i32, u32, u32)>;

/// A calendar date held as its day number, 0001-01-01 being day 1.
///
/// Due dates are derived by adding and subtracting days, so a value may fall outside
/// the range that a calendar library can print; comparisons and distances remain exact.
#[derive(Debug, Clone, Copy, PartialEq, Eq, Hash, PartialOrd, Ord)]
pub struct CalendarDate {
    pub day_number: i64,
}

/// Relies on chrono's `NaiveDate::from_ymd_opt` and `Datelike::num_days_from_ce`:
/// the day number of a valid date, `None` for an invalid one.
#[verifier::external_body]
fn day_number_of_ymd(year: i32, month: u32, day: u32) -> (r: Option<i64>)
    ensures
        r == ymd_day_number(year, month, day),
        r is Some ==> 1 <= month <= 12 && 1 <= day <= 31,
{
    NaiveDate::from_ymd_opt(year, month, day).map(|d| d.num_days_from_ce() as i64)
}

/// Relies on chrono's `NaiveDate::from_num_days_from_ce_opt`: the year, month and day
/// of a day number that fits chrono's range.
#[verifier::external_body]
fn ymd_of_day_number(day_number: i32) -> (r: Option<(i32, u32, u32)>)
    ensures
        r == civil_of_day_number(day_number),
        r matches Some((y, m, d)) ==> 1 <= m <= 12 && 1 <= d <= 31,
{
    NaiveDate::from_num_days_from_ce_opt(day_number).map(|d| (d.year(), d.month(), d.day()))
}

impl CalendarDate {
    /// The date with the given year, month and day, or `None` where the calendar has no
    /// such day.
    pub fn from_ymd(year: i32, month: u32, day: u32) -> (r: Option<CalendarDate>)
        ensures
            r matches Some(d) ==> ymd_day_number(year, month, day) == Some(d.day_number),
            r is None ==> ymd_day_number(year, month, day) is None,
    {
        match day_number_of_ymd(year, month, day) {
            Some(n) => Some(CalendarDate { day_number: n }),
            None => None,
        }
    }

    pub fn from_day_number(day_number: i64) -> (r: CalendarDate)
        ensures
            r.day_number == day_number,
    {
        CalendarDate { day_number }
    }

    /// The date `days` days later (earlier for a negative count).
    pub fn plus_days(self, days: i64) -> (r: CalendarDate)
        requires
            i64::MIN <= self.day_number + days <= i64::MAX,
        ensures
            r.day_number == self.day_number + days,
    {
        CalendarDate { day_number: self.day_number + days }
    }

    /// The date `days` days earlier.
    pub fn minus_days(self, days: i64) -> (r: CalendarDate)
        requires
            i64::MIN <= self.day_number - days <= i64::MAX,
        ensures
            r.day_number == self.day_number - days,
    {
        CalendarDate { day_number: self.day_number - days }
    }

    /// The number of days from `earlier` to `self`.
    pub fn days_since(self, earlier: CalendarDate) -> (r: i64)
        requires
            i64::MIN <= self.day_number - earlier.day_number <= i64::MAX,
        ensures
            r == self.day_number - earlier.day_number,
    {
        self.day_number - earlier.day_number
    }

    pub fn is_before(self, other: CalendarDate) -> (r: bool)
        ensures
            r == (self.day_number < other.day_number),
    {
        self.day_number < other.day_number
    }

    /// The year, month and day of this date, where chrono can name them.
    pub fn ymd(self) -> (r: Option<(i32, u32, u32)>)
        ensures
            i32::MIN <= self.day_number <= i32::MAX ==> r == civil_of_day_number(
                self.day_number as i32,
            ),
            !(i32::MIN <= self.day_number <= i32::MAX) ==> r is None,
            r matches Some((y, m, d)) ==> 1 <= m <= 12 && 1 <= d <= 31,
    {
        if i32::MIN as i64 <= self.day_number && self.day_number <= i32::MAX as i64 {
            ymd_of_day_number(self.day_number as i32)
        } else {
            None
        }
    }
}

} // verus!
