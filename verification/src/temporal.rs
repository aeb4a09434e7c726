//! Calendar dates and date-times as plain numbers, and the calls that read
//! them from text.

use chrono::Datelike;
use chrono::Timelike;
use vstd::prelude::*;

verus! {

/// A calendar date.
#[derive(Debug, Clone, Copy, PartialEq, Eq)]
pub struct Date {
    pub year: i32,
    pub month: u32,
    pub day: u32,
}

/// A calendar date with a time of day. A `nanosecond` of 1,000,000,000 or more
/// stands for a leap second.
#[derive(Debug, Clone, Copy, PartialEq, Eq)]
pub struct DateTime {
    pub year: i32,
    pub month: u32,
    pub day: u32,
    pub hour: u32,
    pub minute: u32,
    pub second: u32,
    pub nanosecond: u32,
}

impl DeepView for Date {
    type V = Date;

    open spec fn deep_view(&self) -> Date {
        *self
    }
}

impl DeepView for DateTime {
    type V = DateTime;

    open spec fn deep_view(&self) -> DateTime {
        *self
    }
}

/// The nanoseconds of a second end below this bound, leap seconds included.
pub const NANOSECOND_BOUND: u32 = 2_000_000_000;

impl Date {
    /// The first instant of the day.
    pub open spec fn midnight_spec(self) -> DateTime {
        DateTime {
            year: self.year,
            month: self.month,
            day: self.day,
            hour: 0,
            minute: 0,
            second: 0,
            nanosecond: 0,
        }
    }

    /// The first instant of the day.
    pub fn midnight(&self) -> (date_time: DateTime)
        ensures
            date_time == self.midnight_spec(),
    {
        DateTime {
            year: self.year,
            month: self.month,
            day: self.day,
            hour: 0,
            minute: 0,
            second: 0,
            nanosecond: 0,
        }
    }
}

impl DateTime {
    /// The calendar date of the instant.
    pub open spec fn date_spec(self) -> Date {
        Date { year: self.year, month: self.month, day: self.day }
    }

    /// The instant with its nanoseconds replaced, or `None` where `nanosecond`
    /// is out of range.
    pub open spec fn with_nanosecond_spec(self, nanosecond: u32) -> Option<DateTime> {
        if nanosecond >= NANOSECOND_BOUND {
            None
        } else {
            Some(
                DateTime {
                    year: self.year,
                    month: self.month,
                    day: self.day,
                    hour: self.hour,
                    minute: self.minute,
                    second: self.second,
                    nanosecond,
                },
            )
        }
    }

    /// The calendar date of the instant.
    pub fn date(&self) -> (date: Date)
        ensures
            date == self.date_spec(),
    {
        Date { year: self.year, month: self.month, day: self.day }
    }

    /// The instant with its nanoseconds since the whole second replaced by
    /// `nanosecond`, or `None` where `nanosecond` is `NANOSECOND_BOUND` or
    /// more.
    pub fn with_nanosecond(&self, nanosecond: u32) -> (date_time: Option<DateTime>)
        ensures
            date_time == self.with_nanosecond_spec(nanosecond),
    {
        if nanosecond >= NANOSECOND_BOUND {
            None
        } else {
            Some(
                DateTime {
                    year: self.year,
                    month: self.month,
                    day: self.day,
                    hour: self.hour,
                    minute: self.minute,
                    second: self.second,
                    nanosecond,
                },
            )
        }
    }
}

/// What chrono's `NaiveDate::parse_from_str` reads from `text` under the format
/// `format`: the date's year, month and day, or `None` where it reports an
/// error.
pub uninterp spec fn chrono_date(text: Seq<char>, format: Seq<char>) -> Option<Date>;

/// What chrono's `NaiveDateTime::parse_from_str` reads from `text` under the
/// format `format`: the fields of the date-time, or `None` where it reports an
/// error.
pub uninterp spec fn chrono_date_time(text: Seq<char>, format: Seq<char>) -> Option<DateTime>;

/// Calls chrono's `NaiveDate::parse_from_str` and hands back the year, month
/// and day of the date it read. Nothing is proved of the parse itself: the
/// contract only names its result, which depends on the two texts alone.
#[verifier::external_body]
pub(crate) fn parse_naive_date(text: &str, format: &str) -> (date: Option<Date>)
    ensures
        date == chrono_date(text@, format@),
{
    match chrono::NaiveDate::parse_from_str(text, format) {
        Ok(d) => Some(Date { year: d.year(), month: d.month(), day: d.day() }),
        Err(_) => None,
    }
}

/// Calls chrono's `NaiveDateTime::parse_from_str` and hands back the fields of
/// the date-time it read. Nothing is proved of the parse itself: the contract
/// only names its result, which depends on the two texts alone.
#[verifier::external_body]
pub(crate) fn parse_naive_date_time(text: &str, format: &str) -> (date_time: Option<DateTime>)
    ensures
        date_time == chrono_date_time(text@, format@),
{
    match chrono::NaiveDateTime::parse_from_str(text, format) {
        Ok(t) => Some(
            DateTime {
                year: t.year(),
                month: t.month(),
                day: t.day(),
                hour: t.hour(),
                minute: t.minute(),
                second: t.second(),
                nanosecond: t.nanosecond(),
            },
        ),
        Err(_) => None,
    }
}

} // verus!
