//! Calendar dates, as they restrict a query and as the service reports them.
//!
//! A [`Date`] holds a year, a month and a day that exist in the proleptic
//! Gregorian calendar. Writing a date as text and reading one back are left to
//! the `time` crate.

use vstd::prelude::*;

use crate::text::digit_char;

verus! {

/// Whether a year has a 29th of February.
pub open spec fn is_leap_year(year: int) -> bool {
    year % 4 == 0 && (year % 100 != 0 || year % 400 == 0)
}

/// The number of days of a month; the month is counted from 1.
pub open spec fn days_in_month(year: int, month: int) -> int {
    if month == 2 {
        if is_leap_year(year) {
            29
        } else {
            28
        }
    } else if month == 4 || month == 6 || month == 9 || month == 11 {
        30
    } else {
        31
    }
}

/// Whether a year, a month and a day name a day of the calendar. Years run
/// from -100000 to 100000, the span that the `time` crate supports.
pub open spec fn is_calendar_date(year: int, month: int, day: int) -> bool {
    &&& -100_000 <= year <= 100_000
    &&& 1 <= month <= 12
    &&& 1 <= day <= days_in_month(year, month)
}

/// A year of at most four digits, a month and a day, written as `YYYY-MM-DD`.
pub open spec fn iso_text(year: int, month: int, day: int) -> Seq<char> {
    seq![
        digit_char(year / 1000),
        digit_char(year / 100 % 10),
        digit_char(year / 10 % 10),
        digit_char(year % 10),
        '-',
        digit_char(month / 10),
        digit_char(month % 10),
        '-',
        digit_char(day / 10),
        digit_char(day % 10),
    ]
}

/// What `time::Date::format` writes for a date under the pattern `%Y-%m-%d`.
pub uninterp spec fn time_format(year: int, month: int, day: int) -> Seq<char>;

/// A date as it is written in a query: `YYYY-MM-DD` for a year of at most four
/// digits, and what the `time` crate writes for any other year.
pub open spec fn date_text(date: Ymd) -> Seq<char> {
    if 0 <= date.year <= 9999 {
        iso_text(date.year, date.month, date.day)
    } else {
        time_format(date.year, date.month, date.day)
    }
}

/// What `time::Date::parse` reads from a text under the pattern `%F`: the
/// year, month and day of the date, or nothing where it reports an error.
pub uninterp spec fn time_parse(text: Seq<char>) -> Option<(i32, u8, u8)>;

/// What a [`Date`] stands for.
pub struct Ymd {
    pub year: int,
    pub month: int,
    pub day: int,
}

/// A day of the calendar.
#[derive(Debug, Clone, Copy, PartialEq, Eq)]
pub struct Date {
    year: i32,
    month: u8,
    day: u8,
}

impl View for Date {
    type V = Ymd;

    closed spec fn view(&self) -> Ymd {
        Ymd { year: self.year as int, month: self.month as int, day: self.day as int }
    }
}

impl Date {
    #[verifier::type_invariant]
    spec fn exists_in_calendar(self) -> bool {
        is_calendar_date(self.year as int, self.month as int, self.day as int)
    }

    /// The date that a text stands for: what the `time` crate reads from it,
    /// where that is a day of the calendar.
    pub open spec fn parsed(text: Seq<char>) -> Option<Ymd> {
        match time_parse(text) {
            Some((year, month, day)) => if is_calendar_date(
                year as int,
                month as int,
                day as int,
            ) {
                Some(Ymd { year: year as int, month: month as int, day: day as int })
            } else {
                None
            },
            None => None,
        }
    }

    /// Makes a date of a year, a month and a day, where they name a day of the
    /// calendar.
    pub fn new(year: i32, month: u8, day: u8) -> (date: Option<Date>)
        ensures
            date is Some <==> is_calendar_date(year as int, month as int, day as int),
            date is Some ==> date->0@ == (Ymd {
                year: year as int,
                month: month as int,
                day: day as int,
            }),
    {
        if year < -100_000 || year > 100_000 || month < 1 || month > 12 || day < 1 {
            return None;
        }
        let leap = year % 4 == 0 && (year % 100 != 0 || year % 400 == 0);
        let days: u8 = if month == 2 {
            if leap {
                29
            } else {
                28
            }
        } else if month == 4 || month == 6 || month == 9 || month == 11 {
            30
        } else {
            31
        };
        if day > days {
            None
        } else {
            Some(Date { year, month, day })
        }
    }

    /// The year.
    pub fn year(&self) -> (year: i32)
        ensures
            year == self@.year,
            is_calendar_date(self@.year, self@.month, self@.day),
    {
        proof {
            use_type_invariant(self);
        }
        self.year
    }

    /// The month, counted from 1.
    pub fn month(&self) -> (month: u8)
        ensures
            month == self@.month,
            is_calendar_date(self@.year, self@.month, self@.day),
    {
        proof {
            use_type_invariant(self);
        }
        self.month
    }

    /// The day of the month, counted from 1.
    pub fn day(&self) -> (day: u8)
        ensures
            day == self@.day,
            is_calendar_date(self@.year, self@.month, self@.day),
    {
        proof {
            use_type_invariant(self);
        }
        self.day
    }

    /// Writes the date as the service expects it in a query.
    pub fn format(&self) -> (text: String)
        ensures
            text@ == date_text(self@),
    {
        proof {
            use_type_invariant(self);
        }
        format_ymd(self.year, self.month, self.day)
    }

    /// Reads a date from the text of a reply.
    pub fn parse(text: &str) -> (date: Option<Date>)
        ensures
            date is Some <==> Date::parsed(text@) is Some,
            date is Some ==> Some(date->0@) == Date::parsed(text@),
    {
        match parse_ymd(text) {
            Some((year, month, day)) => Date::new(year, month, day),
            None => None,
        }
    }
}

/// Calls `time::Date::try_from_ymd` and `time::Date::format` with the pattern
/// `%Y-%m-%d`. The text depends on the three numbers alone. For a year from 0
/// to 9999 the pattern gives the year in four digits, the month in two and the
/// day in two, each filled up with zeros and with a hyphen between them.
#[verifier::external_body]
fn format_ymd(year: i32, month: u8, day: u8) -> (text: String)
    requires
        is_calendar_date(year as int, month as int, day as int),
    ensures
        text@ == time_format(year as int, month as int, day as int),
        0 <= year <= 9999 ==> text@ == iso_text(year as int, month as int, day as int),
{
    match time::Date::try_from_ymd(year, month, day) {
        Ok(date) => date.format("%Y-%m-%d"),
        Err(_) => String::new(),
    }
}

/// Calls `time::Date::parse` with the pattern `%F` and takes the date apart
/// with `time::Date::as_ymd`. What comes back depends on the text alone; an
/// error of the parser is reported as `None`.
#[verifier::external_body]
fn parse_ymd(text: &str) -> (parts: Option<(i32, u8, u8)>)
    ensures
        parts == time_parse(text@),
{
    match time::Date::parse(text, "%F") {
        Ok(date) => Some(date.as_ymd()),
        Err(_) => None,
    }
}

} // verus!
