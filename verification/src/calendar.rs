//! Months, years and days of the month.

use crate::decimal::{decimal_digits, parse_i32, parsed_i32, u32_to_string};
use crate::error::{Error, ParseError, ValidationError};
use vstd::prelude::*;

verus! {

/// The first year a budget can be kept for.
pub const FIRST_YEAR: u32 = 2000;

/// The year after the last one a budget can be kept for.
pub const LAST_YEAR: u32 = 2100;

/// A month of the year.
#[derive(Debug, Clone, Copy, PartialEq, Eq, Hash, Structural)]
pub enum Month {
    Jan,
    Feb,
    Mar,
    Apr,
    May,
    Jun,
    Jul,
    Aug,
    Sep,
    Oct,
    Nov,
    Dec,
}

/// A year of the common era.
#[derive(Debug, Clone, Copy, PartialEq, Eq, Hash, Structural)]
pub struct Year(pub u32);

/// A day of the month, counted from 1.
#[derive(Debug, Clone, Copy, PartialEq, Eq, Hash, Structural)]
pub struct Day(pub i32);

/// The month at place `index` of the year, counted from 0.
pub open spec fn month_at(index: int) -> Month {
    if index == 0 {
        Month::Jan
    } else if index == 1 {
        Month::Feb
    } else if index == 2 {
        Month::Mar
    } else if index == 3 {
        Month::Apr
    } else if index == 4 {
        Month::May
    } else if index == 5 {
        Month::Jun
    } else if index == 6 {
        Month::Jul
    } else if index == 7 {
        Month::Aug
    } else if index == 8 {
        Month::Sep
    } else if index == 9 {
        Month::Oct
    } else if index == 10 {
        Month::Nov
    } else {
        Month::Dec
    }
}

impl Month {
    /// The month's place in the year, counted from 0.
    pub open spec fn index(self) -> int {
        match self {
            Month::Jan => 0,
            Month::Feb => 1,
            Month::Mar => 2,
            Month::Apr => 3,
            Month::May => 4,
            Month::Jun => 5,
            Month::Jul => 6,
            Month::Aug => 7,
            Month::Sep => 8,
            Month::Oct => 9,
            Month::Nov => 10,
            Month::Dec => 11,
        }
    }

    /// The month's number in the year, counted from 1.
    pub fn id(self) -> (r: i32)
        ensures
            r == self.index() + 1,
    {
        match self {
            Month::Jan => 1,
            Month::Feb => 2,
            Month::Mar => 3,
            Month::Apr => 4,
            Month::May => 5,
            Month::Jun => 6,
            Month::Jul => 7,
            Month::Aug => 8,
            Month::Sep => 9,
            Month::Oct => 10,
            Month::Nov => 11,
            Month::Dec => 12,
        }
    }

    /// The month at place `n` of the year, counted from 0.
    pub fn from_u32(n: u32) -> (r: Option<Month>)
        ensures
            r == if n < 12 {
                Some(month_at(n as int))
            } else {
                None::<Month>
            },
            r matches Some(month) ==> month.index() == n,
    {
        match n {
            0 => Some(Month::Jan),
            1 => Some(Month::Feb),
            2 => Some(Month::Mar),
            3 => Some(Month::Apr),
            4 => Some(Month::May),
            5 => Some(Month::Jun),
            6 => Some(Month::Jul),
            7 => Some(Month::Aug),
            8 => Some(Month::Sep),
            9 => Some(Month::Oct),
            10 => Some(Month::Nov),
            11 => Some(Month::Dec),
            _ => None,
        }
    }
}

impl Year {
    /// Whether the year has a 29th of February: it is divisible by 4 and not
    /// by 100, or it is divisible by 400.
    pub open spec fn is_leap(self) -> bool {
        (self.0 % 4 == 0 && self.0 % 100 != 0) || self.0 % 400 == 0
    }

    /// Whether the year has a 29th of February.
    pub fn is_leap_year(self) -> (r: bool)
        ensures
            r == self.is_leap(),
    {
        (self.0 % 4 == 0 && self.0 % 100 != 0) || self.0 % 400 == 0
    }

    /// The year in base ten.
    pub fn to_string(&self) -> (r: String)
        ensures
            r@ == decimal_digits(self.0 as nat),
    {
        u32_to_string(self.0)
    }

    /// The year that stands `index` places after `FIRST_YEAR`, where the
    /// number of that year can be held.
    pub fn from_index(index: u32) -> (r: Option<Year>)
        ensures
            r == if FIRST_YEAR + index <= u32::MAX {
                Some(Year((FIRST_YEAR + index) as u32))
            } else {
                None::<Year>
            },
    {
        match FIRST_YEAR.checked_add(index) {
            Some(year) => Some(Year(year)),
            None => None,
        }
    }

    /// How many places after `FIRST_YEAR` the year stands; none for an
    /// earlier year.
    pub fn index(self) -> (r: Option<u32>)
        ensures
            r == if self.0 >= FIRST_YEAR {
                Some((self.0 - FIRST_YEAR) as u32)
            } else {
                None::<u32>
            },
    {
        if self.0 >= FIRST_YEAR {
            Some(self.0 - FIRST_YEAR)
        } else {
            None
        }
    }
}

/// The number of days of `month` in `year`.
pub open spec fn days_in_month(month: Month, year: Year) -> int {
    match month {
        Month::Jan | Month::Mar | Month::May | Month::Jul | Month::Aug | Month::Oct | Month::Dec => 31,
        Month::Apr | Month::Jun | Month::Sep | Month::Nov => 30,
        Month::Feb => if year.is_leap() {
            29
        } else {
            28
        },
    }
}

/// The number of the last day of `month` in `year`.
pub fn last_day(month: Month, year: Year) -> (r: i32)
    ensures
        r == days_in_month(month, year),
{
    match month {
        Month::Jan | Month::Mar | Month::May | Month::Jul | Month::Aug | Month::Oct | Month::Dec => 31,
        Month::Apr | Month::Jun | Month::Sep | Month::Nov => 30,
        Month::Feb => if year.is_leap_year() {
            29
        } else {
            28
        },
    }
}

impl Day {
    /// Whether `month` has a day `day` in `year`.
    pub open spec fn is_valid(day: int, month: Month, year: Year) -> bool {
        1 <= day <= days_in_month(month, year)
    }

    /// The day `day` of `month` in `year`, where the month has such a day.
    pub fn validate(day: i32, month: Month, year: Year) -> (r: Result<Day, ValidationError>)
        ensures
            r == if Day::is_valid(day as int, month, year) {
                Ok::<Day, ValidationError>(Day(day))
            } else {
                Err::<Day, ValidationError>(ValidationError::InvalidDay)
            },
    {
        if 1 <= day && day <= last_day(month, year) {
            Ok(Day(day))
        } else {
            Err(ValidationError::InvalidDay)
        }
    }

    /// What reading `text` as a day of `month` in `year` gives: the day, or the
    /// reason why there is none.
    pub open spec fn parsed(text: Seq<char>, month: Month, year: Year) -> Result<Day, Error> {
        match parsed_i32(text) {
            None => Err(Error::Parse(ParseError::Day)),
            Some(day) => if Day::is_valid(day as int, month, year) {
                Ok(Day(day))
            } else {
                Err(Error::Validation(ValidationError::InvalidDay))
            },
        }
    }

    /// Reads `text` as a day of `month` in `year`.
    pub fn from_string(text: &str, month: Month, year: Year) -> (r: Result<Day, Error>)
        ensures
            r == Day::parsed(text@, month, year),
    {
        match parse_i32(text) {
            None => Err(Error::Parse(ParseError::Day)),
            Some(day) => match Day::validate(day, month, year) {
                Ok(day) => Ok(day),
                Err(e) => Err(Error::Validation(e)),
            },
        }
    }
}

/// `chrono::NaiveDate`, a date of the calendar. It is carried as it is: what
/// the library reads of it, it reads through the three functions below.
#[verifier::external_type_specification]
#[verifier::external_body]
pub struct ExNaiveDate(chrono::NaiveDate);

/// `chrono::Datelike::day` on a `NaiveDate`: the day of the month. chrono
/// counts it from 1 and never gives more than 31; nothing else is claimed.
#[verifier::external_body]
fn chrono_day(date: &chrono::NaiveDate) -> (day: u32)
    ensures
        1 <= day <= 31,
{
    chrono::Datelike::day(date)
}

/// `chrono::Datelike::month` on a `NaiveDate`: the number of the month.
/// chrono counts it from 1 and never gives more than 12; nothing else is
/// claimed.
#[verifier::external_body]
fn chrono_month(date: &chrono::NaiveDate) -> (month: u32)
    ensures
        1 <= month <= 12,
{
    chrono::Datelike::month(date)
}

/// `chrono::Datelike::year` on a `NaiveDate`: the number of the year, which
/// is negative before the common era. Nothing is claimed of it.
#[verifier::external_body]
fn chrono_year(date: &chrono::NaiveDate) -> i32 {
    chrono::Datelike::year(date)
}

/// The day, the month and the year of the date that is written `day`,
/// `month`, `year`, the month counted from 1. There is none before the year
/// 0, and none where the calendar has no such date.
pub open spec fn date_of(day: u32, month: u32, year: i32) -> Option<(Day, Month, Year)> {
    if 1 <= month <= 12 && year >= 0 && Day::is_valid(
        day as int,
        month_at((month - 1) as int),
        Year(year as u32),
    ) {
        Some((Day(day as i32), month_at((month - 1) as int), Year(year as u32)))
    } else {
        None
    }
}

/// The day, the month and the year of the date that is written `day`,
/// `month`, `year`, the month counted from 1.
pub fn date_from_parts(day: u32, month: u32, year: i32) -> (r: Option<(Day, Month, Year)>)
    ensures
        r == date_of(day, month, year),
{
    if month < 1 || year < 0 || day > 31 {
        return None;
    }
    let month = match Month::from_u32(month - 1) {
        Some(month) => month,
        None => {
            return None;
        },
    };
    let year = Year(year as u32);
    match Day::validate(day as i32, month, year) {
        Ok(day) => Some((day, month, year)),
        Err(_) => None,
    }
}

/// The day, the month and the year of `date`, as chrono tells them. There is
/// none for a date before the year 0.
pub fn date_from_chrono(date: &chrono::NaiveDate) -> (r: Option<(Day, Month, Year)>)
    ensures
        r matches Some((day, month, year)) ==> Day::is_valid(day.0 as int, month, year),
{
    date_from_parts(chrono_day(date), chrono_month(date), chrono_year(date))
}

} // verus!
