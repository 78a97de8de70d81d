//! Calendar dates of the proleptic Gregorian calendar.

use chrono::{Datelike, NaiveDate};
use vstd::prelude::*;

verus! {

/// The first year of which `chrono::NaiveDate` has the days.
pub const MIN_YEAR: i32 = -262_143;

/// The last year of which `chrono::NaiveDate` has the days.
pub const MAX_YEAR: i32 = 262_142;

/// Whether `year` has a 29th of February.
pub open spec fn is_leap_year(year: int) -> bool {
    year % 4 == 0 && (year % 100 != 0 || year % 400 == 0)
}

/// The number of days of `month` in `year`; zero where there is no such month.
pub open spec fn days_in_month(year: int, month: int) -> int {
    if month == 2 {
        if is_leap_year(year) {
            29
        } else {
            28
        }
    } else if month == 4 || month == 6 || month == 9 || month == 11 {
        30
    } else if 1 <= month <= 12 {
        31
    } else {
        0
    }
}

/// Whether the calendar has the day `day` of `month` in `year`, and the year
/// lies within `MIN_YEAR` and `MAX_YEAR`.
pub open spec fn is_calendar_date(year: int, month: int, day: int) -> bool {
    &&& MIN_YEAR <= year <= MAX_YEAR
    &&& 1 <= month <= 12
    &&& 1 <= day <= days_in_month(year, month)
}

/// The year, month and day that the text of a date stands for, as
/// `chrono::NaiveDate`'s `FromStr` reads it; `None` where it reads no date.
pub uninterp spec fn parsed_date(text: Seq<char>) -> Option<(i32, u32, u32)>;

/// `chrono::NaiveDate::from_ymd_opt` gives a date exactly when the calendar
/// has that day and the year lies within `MIN_YEAR` and `MAX_YEAR`.
#[verifier::external_body]
fn calendar_has(year: i32, month: u32, day: u32) -> (has: bool)
    ensures
        has == is_calendar_date(year as int, month as int, day as int),
{
    NaiveDate::from_ymd_opt(year, month, day).is_some()
}

/// `str::parse::<chrono::NaiveDate>` reads a date from text. Which texts it
/// accepts is left to `parsed_date`; the year, month and day of a date that it
/// gives are those of a day that the calendar has.
#[verifier::external_body]
fn parse_naive_date(text: &str) -> (parts: Option<(i32, u32, u32)>)
    ensures
        parts == parsed_date(text@),
        parts matches Some(p) ==> is_calendar_date(p.0 as int, p.1 as int, p.2 as int),
{
    match text.parse::<NaiveDate>() {
        Ok(date) => Some((date.year(), date.month(), date.day())),
        Err(_) => None,
    }
}

/// A day, by year, month and day of the month.
#[derive(Clone, Copy, Debug, PartialEq, Eq, Structural)]
pub struct CalendarDate {
    pub year: i32,
    pub month: u32,
    pub day: u32,
}

impl CalendarDate {
    /// The calendar has this day.
    pub open spec fn is_valid(self) -> bool {
        is_calendar_date(self.year as int, self.month as int, self.day as int)
    }

    /// This day comes before `other`.
    pub open spec fn before(self, other: CalendarDate) -> bool {
        ||| self.year < other.year
        ||| self.year == other.year && self.month < other.month
        ||| self.year == other.year && self.month == other.month && self.day < other.day
    }

    /// The date that `text` stands for.
    pub open spec fn parsed(text: Seq<char>) -> Option<CalendarDate> {
        match parsed_date(text) {
            Some(parts) => Some(CalendarDate { year: parts.0, month: parts.1, day: parts.2 }),
            None => None,
        }
    }

    /// The given day, where the calendar has it.
    pub fn from_ymd(year: i32, month: u32, day: u32) -> (date: Option<CalendarDate>)
        ensures
            date == (if is_calendar_date(year as int, month as int, day as int) {
                Some(CalendarDate { year, month, day })
            } else {
                None
            }),
    {
        if calendar_has(year, month, day) {
            Some(CalendarDate { year, month, day })
        } else {
            None
        }
    }

    /// Reads a date from its text.
    pub fn parse(text: &str) -> (date: Option<CalendarDate>)
        ensures
            date == CalendarDate::parsed(text@),
            date matches Some(d) ==> d.is_valid(),
    {
        match parse_naive_date(text) {
            Some(parts) => Some(CalendarDate { year: parts.0, month: parts.1, day: parts.2 }),
            None => None,
        }
    }

    /// Whether this day comes before `other`.
    pub fn is_before(&self, other: &CalendarDate) -> (before: bool)
        ensures
            before == self.before(*other),
    {
        self.year < other.year || (self.year == other.year && (self.month < other.month || (
        self.month == other.month && self.day < other.day)))
    }
}

} // verus!
