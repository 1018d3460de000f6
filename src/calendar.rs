//! Calendar dates of publication.
use vstd::prelude::*;

verus! {

/// The earliest year that `chrono::NaiveDate` represents.
pub const MIN_YEAR: i32 = -262143;

/// The latest year that `chrono::NaiveDate` represents.
pub const MAX_YEAR: i32 = 262142;

/// Whether `year` is a leap year of the proleptic Gregorian calendar.
pub open spec fn is_leap_year(year: int) -> bool {
    (year % 4 == 0 && year % 100 != 0) || year % 400 == 0
}

/// The number of days in `month` of `year`.
pub open spec fn days_in_month(year: int, month: int) -> int {
    if month == 2 {
        if is_leap_year(year) {
            29
        } else {
            28
        }
    } else if month == 4 || month == 6 || month == 9 || month == 11 {
        30
    } else {
        31
    }
}

/// Whether (`year`, `month`, `day`) names a day of the proleptic Gregorian calendar
/// within the years that `chrono::NaiveDate` represents.
pub open spec fn is_calendar_date(year: int, month: int, day: int) -> bool {
    &&& MIN_YEAR <= year <= MAX_YEAR
    &&& 1 <= month <= 12
    &&& 1 <= day <= days_in_month(year, month)
}

/// Relies on `chrono::NaiveDate::from_ymd_opt`: it returns `None` exactly when the
/// day does not exist, the month or day is out of range, or the year is outside
/// `MIN_YEAR..=MAX_YEAR`.
#[verifier::external_body]
fn chrono_accepts(year: i32, month: u32, day: u32) -> (r: bool)
    ensures
        r == is_calendar_date(year as int, month as int, day as int),
{
    chrono::NaiveDate::from_ymd_opt(year, month, day).is_some()
}

/// The day a comic was published: a calendar date with no time of day.
#[derive(Clone, Copy, Debug, PartialEq, Eq, Structural)]
pub struct ComicDate {
    pub year: i32,
    pub month: u32,
    pub day: u32,
}

impl ComicDate {
    /// Whether the date names a real day.
    pub open spec fn wf(&self) -> bool {
        is_calendar_date(self.year as int, self.month as int, self.day as int)
    }

    /// The date (`year`, `month`, `day`), or `None` where no such day exists.
    pub fn new(year: i32, month: u32, day: u32) -> (r: Option<ComicDate>)
        ensures
            r is Some <==> is_calendar_date(year as int, month as int, day as int),
            r matches Some(d) ==> d.year == year && d.month == month && d.day == day,
    {
        if chrono_accepts(year, month, day) {
            Some(ComicDate { year, month, day })
        } else {
            None
        }
    }
}

} // verus!
