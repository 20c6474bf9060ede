//! Calendar dates, read and written as `YYYY-MM-DD` by `chrono`.

use crate::text::zero_padded;
use chrono::Datelike;
use vstd::prelude::*;
use vstd::string::*;

verus! {

/// The first year that `chrono::NaiveDate` can hold.
pub const MIN_YEAR: i32 = -262_143i32;

/// The last year that `chrono::NaiveDate` can hold.
pub const MAX_YEAR: i32 = 262_142i32;

/// A date of the proleptic Gregorian calendar.
#[derive(Debug, Clone, Copy, PartialEq, Eq, Structural)]
pub struct Date {
    pub year: i32,
    pub month: u32,
    pub day: u32,
}

/// Whether a year has a 29th of February.
pub open spec fn is_leap_year(year: int) -> bool {
    year % 4 == 0 && (year % 100 != 0 || year % 400 == 0)
}

/// The number of days of a month; zero where the month is none.
pub open spec fn days_in_month(year: int, month: int) -> int {
    if month == 2 {
        if is_leap_year(year) {
            29
        } else {
            28
        }
    } else if month == 4 || month == 6 || month == 9 || month == 11 {
        30
    } else if 1 <= month <= 12 {
        31
    } else {
        0
    }
}

/// The text of a year in a date: four digits from year 0 to 9999; outside
/// that range a sign, then at least four digits.
pub open spec fn year_text(year: int) -> Seq<char> {
    if 0 <= year <= 9999 {
        zero_padded(year as nat, 4)
    } else if year < 0 {
        seq!['-'] + zero_padded((-year) as nat, 4)
    } else {
        seq!['+'] + zero_padded(year as nat, 4)
    }
}

impl View for Date {
    type V = Date;

    open spec fn view(&self) -> Date {
        *self
    }
}

impl DeepView for Date {
    type V = Date;

    open spec fn deep_view(&self) -> Date {
        *self
    }
}

impl Date {
    /// Whether the day exists, in a year that `chrono::NaiveDate` can hold.
    pub open spec fn is_valid(self) -> bool {
        &&& MIN_YEAR <= self.year <= MAX_YEAR
        &&& 1 <= self.month <= 12
        &&& 1 <= self.day <= days_in_month(self.year as int, self.month as int)
    }

    /// Whether `self` is the same day as `other` or an earlier one.
    pub open spec fn spec_le(self, other: Date) -> bool {
        self.year < other.year || (self.year == other.year && (self.month < other.month || (
        self.month == other.month && self.day <= other.day)))
    }

    /// The date as `YYYY-MM-DD`.
    pub open spec fn spec_ymd_text(self) -> Seq<char> {
        year_text(self.year as int) + seq!['-'] + zero_padded(self.month as nat, 2) + seq!['-']
            + zero_padded(self.day as nat, 2)
    }

    /// The date of a year, a month and a day, if there is such a day.
    pub fn new(year: i32, month: u32, day: u32) -> (r: Option<Date>)
        ensures
            r == (if (Date { year, month, day }).is_valid() {
                Some(Date { year, month, day })
            } else {
                None
            }),
    {
        let date = Date { year, month, day };
        if date.check_valid() {
            Some(date)
        } else {
            None
        }
    }

    /// Whether the day exists, in a year that `chrono::NaiveDate` can hold.
    pub fn check_valid(&self) -> (r: bool)
        ensures
            r == self.is_valid(),
    {
        if self.year < MIN_YEAR || self.year > MAX_YEAR || self.month < 1 || self.month > 12 {
            return false;
        }
        let leap = self.year % 4 == 0 && (self.year % 100 != 0 || self.year % 400 == 0);
        let days: u32 = if self.month == 2 {
            if leap {
                29
            } else {
                28
            }
        } else if self.month == 4 || self.month == 6 || self.month == 9 || self.month == 11 {
            30
        } else {
            31
        };
        1 <= self.day && self.day <= days
    }

    /// Whether `self` is the same day as `other` or an earlier one.
    pub fn le(&self, other: &Date) -> (r: bool)
        ensures
            r == self.spec_le(*other),
    {
        self.year < other.year || (self.year == other.year && (self.month < other.month || (
        self.month == other.month && self.day <= other.day)))
    }

    /// The date as `YYYY-MM-DD`.
    pub fn to_ymd_string(&self) -> (r: String)
        requires
            self.is_valid(),
        ensures
            r@ == self.spec_ymd_text(),
    {
        date_to_ymd_text(*self)
    }
}

/// What `NaiveDate::parse_from_str` with the format `%Y-%m-%d` makes of a
/// text.
pub uninterp spec fn ymd_text_date(text: Seq<char>) -> Option<Date>;

/// `NaiveDate::parse_from_str` with the format `%Y-%m-%d`: the parsed date by
/// its year, month and day, which are those of an existing day; nothing where
/// the parser reports an error.
#[verifier::external_body]
fn date_from_ymd_text(text: &str) -> (r: Option<Date>)
    ensures
        r == ymd_text_date(text@),
        r matches Some(date) ==> date.is_valid(),
{
    match chrono::NaiveDate::parse_from_str(text, "%Y-%m-%d") {
        Ok(d) => Some(Date { year: d.year(), month: d.month(), day: d.day() }),
        Err(_) => None,
    }
}

/// `NaiveDate::format` with the format `%Y-%m-%d`: the year in four digits
/// (signed, and longer where needed, outside 0 to 9999), the month and the
/// day in two digits each, with hyphens between them.
#[verifier::external_body]
fn date_to_ymd_text(date: Date) -> (r: String)
    requires
        date.is_valid(),
    ensures
        r@ == date.spec_ymd_text(),
{
    chrono::NaiveDate::from_ymd_opt(date.year, date.month, date.day).unwrap().format(
        "%Y-%m-%d",
    ).to_string()
}

/// The date at the start of a text: its first ten characters, read as
/// `YYYY-MM-DD`; what follows them is dropped.
pub open spec fn spec_parse_date(raw: Seq<char>) -> Option<Date> {
    if raw.len() < 10 {
        None
    } else {
        ymd_text_date(raw.subrange(0, 10))
    }
}

/// Reads the date at the start of a text: its first ten characters, read as
/// `YYYY-MM-DD`. A text of fewer than ten characters holds no date.
pub fn parse_date(raw: &str) -> (r: Option<Date>)
    ensures
        r == spec_parse_date(raw@),
        raw@.len() < 10 ==> r is None,
        r matches Some(date) ==> date.is_valid(),
{
    if raw.unicode_len() < 10 {
        None
    } else {
        date_from_ymd_text(raw.substring_char(0, 10))
    }
}

} // verus!
