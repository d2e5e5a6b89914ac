//! The trial clock: tracks the first-run date and computes the days
//! remaining in a fixed fourteen-day trial.
//!
//! Calendar arithmetic is chrono's; the library carries dates as plain
//! year, month and day values and relies on chrono through the trusted
//! wrappers below.

use vstd::prelude::*;

use chrono::Datelike;

use crate::error::Error;
use crate::store::Store;

verus! {

/// The full trial length in days.
pub const TRIAL_DAYS: i64 = 14;

/// A calendar date as plain year, month and day.
#[derive(Debug, Clone, Copy, PartialEq, Eq)]
pub struct Date {
    pub year: i32,
    pub month: u8,
    pub day: u8,
}

/// Proleptic Gregorian leap year.
pub open spec fn is_leap_year(y: int) -> bool {
    y % 4 == 0 && (y % 100 != 0 || y % 400 == 0)
}

/// The length of a month in the proleptic Gregorian calendar.
pub open spec fn days_in_month(y: int, m: int) -> int {
    if m == 2 {
        if is_leap_year(y) {
            29
        } else {
            28
        }
    } else if m == 4 || m == 6 || m == 9 || m == 11 {
        30
    } else {
        31
    }
}

/// A calendar date that exists, within the year range the calendar
/// arithmetic covers.
pub open spec fn valid_ymd(y: int, m: int, d: int) -> bool {
    &&& -262143 <= y <= 262142
    &&& 1 <= m <= 12
    &&& 1 <= d <= days_in_month(y, m)
}

impl Date {
    pub open spec fn wf(self) -> bool {
        valid_ymd(self.year as int, self.month as int, self.day as int)
    }

    /// A date checked to exist in the calendar.
    pub fn new(year: i32, month: u8, day: u8) -> (r: Option<Date>)
        ensures
            match r {
                Some(d) => d == (Date { year, month, day }) && d.wf(),
                None => !valid_ymd(year as int, month as int, day as int),
            },
    {
        if year < -262143 || year > 262142 || month < 1 || month > 12 || day < 1 {
            return None;
        }
        let leap = year % 4 == 0 && (year % 100 != 0 || year % 400 == 0);
        proof {
            assert(leap == is_leap_year(year as int));
        }
        let month_days: u8 = if month == 2 {
            if leap {
                29
            } else {
                28
            }
        } else if month == 4 || month == 6 || month == 9 || month == 11 {
            30
        } else {
            31
        };
        if day > month_days {
            None
        } else {
            Some(Date { year, month, day })
        }
    }
}

/// What parsing a calendar-date string in the year-month-day format yields:
/// the year, month and day read from it, or nothing when the string is not a
/// valid date. The result depends on the characters alone.
pub uninterp spec fn parsed_ymd(s: Seq<char>) -> Option<(int, int, int)>;

/// The position of a calendar date on a continuous day count, so that the
/// difference of two dates in whole days is the difference of their day
/// numbers.
pub uninterp spec fn day_number(y: int, m: int, d: int) -> int;

/// Relies on chrono's `NaiveDate::parse_from_str` with the `%Y-%m-%d`
/// format: the result is a function of the string alone, and a parsed
/// `NaiveDate` is always a valid calendar date within chrono's year range.
#[verifier::external_body]
fn parse_ymd(s: &str) -> (r: Option<(i32, u8, u8)>)
    ensures
        match r {
            Some(d) => parsed_ymd(s@) == Some((d.0 as int, d.1 as int, d.2 as int)) && valid_ymd(
                d.0 as int,
                d.1 as int,
                d.2 as int,
            ),
            None => parsed_ymd(s@) is None,
        },
{
    match chrono::NaiveDate::parse_from_str(s, "%Y-%m-%d") {
        Ok(d) => Some((d.year(), d.month() as u8, d.day() as u8)),
        Err(_) => None,
    }
}

/// Relies on chrono's `NaiveDate::from_ymd_opt` and `signed_duration_since`:
/// both dates are valid, so neither construction fails; the difference of
/// two dates in whole days is the difference of their day numbers; chrono's
/// dates span about half a million years, which bounds the difference.
#[verifier::external_body]
fn days_between(y0: i32, m0: u8, d0: u8, y1: i32, m1: u8, d1: u8) -> (r: i64)
    requires
        valid_ymd(y0 as int, m0 as int, d0 as int),
        valid_ymd(y1 as int, m1 as int, d1 as int),
    ensures
        r == day_number(y1 as int, m1 as int, d1 as int) - day_number(
            y0 as int,
            m0 as int,
            d0 as int,
        ),
        -200_000_000 < r < 200_000_000,
{
    let a = chrono::NaiveDate::from_ymd_opt(y0, m0 as u32, d0 as u32).expect("a valid date");
    let b = chrono::NaiveDate::from_ymd_opt(y1, m1 as u32, d1 as u32).expect("a valid date");
    b.signed_duration_since(a).num_days()
}

/// The days remaining in the trial as of the given day.
///
/// With no start date recorded, the full trial length remains. Otherwise the
/// days elapsed since the recorded start, in whole local calendar days, are
/// subtracted from the trial length; the result may be zero or negative once
/// the trial has expired. Fails with `DateParse` exactly when the stored
/// start date cannot be parsed as a calendar date.
pub fn check_trial_status(store: &Store, today: &Date) -> (r: Result<i64, Error>)
    requires
        today.wf(),
    ensures
        match store@.trial_start_date {
            None => r == Ok::<i64, Error>(TRIAL_DAYS as i64),
            Some(s) => match parsed_ymd(s) {
                Some(d) => r matches Ok(n) && n == TRIAL_DAYS - (day_number(
                    today.year as int,
                    today.month as int,
                    today.day as int,
                ) - day_number(d.0, d.1, d.2)),
                None => r matches Err(e) && e matches Error::DateParse(t) && t@ == s,
            },
        },
{
    match store.get_trial_start_date() {
        None => Ok(TRIAL_DAYS),
        Some(start) => match parse_ymd(start.as_str()) {
            Some(d) => {
                let elapsed: i64 = days_between(d.0, d.1, d.2, today.year, today.month, today.day);
                Ok(TRIAL_DAYS - elapsed)
            },
            None => Err(Error::DateParse(start)),
        },
    }
}

} // verus!
