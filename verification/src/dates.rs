//! Calendar dates and times of day as plain numbers, read from text and
//! written as text by the `chrono` crate.

use vstd::prelude::*;
use chrono::{Datelike, Timelike};
use crate::text::decimal;

verus! {

/// The first year that `chrono` has dates for.
pub const MIN_YEAR: i32 = -262143;

/// The last year that `chrono` has dates for.
pub const MAX_YEAR: i32 = 262142;

/// A day of the proleptic Gregorian calendar.
#[derive(Clone, Copy, Debug, PartialEq, Eq, Structural)]
pub struct Date {
    pub year: i32,
    pub month: u32,
    pub day: u32,
}

/// A minute of the day.
#[derive(Clone, Copy, Debug, PartialEq, Eq, Structural)]
pub struct Time {
    pub hour: u32,
    pub minute: u32,
}

/// A minute of a day.
#[derive(Clone, Copy, Debug, PartialEq, Eq, Structural)]
pub struct DateTime {
    pub date: Date,
    pub time: Time,
}

/// Whether `year` has a 29th of February.
pub open spec fn is_leap_year(year: int) -> bool {
    year % 4 == 0 && (year % 100 != 0 || year % 400 == 0)
}

/// The number of days of `month` in `year`.
pub open spec fn days_in_month(year: int, month: int) -> int
    recommends
        1 <= month <= 12,
{
    if month == 2 {
        if is_leap_year(year) {
            29
        } else {
            28
        }
    } else if month == 4 || month == 6 || month == 9 || month == 11 {
        30
    } else {
        31
    }
}

/// Whether `year` has a 29th of February.
pub fn leap_year(year: i32) -> (leap: bool)
    ensures
        leap == is_leap_year(year as int),
{
    year % 4 == 0 && (year % 100 != 0 || year % 400 == 0)
}

/// The number of days of `month` in `year`.
pub fn month_length(year: i32, month: u32) -> (days: u32)
    ensures
        days == days_in_month(year as int, month as int),
{
    if month == 2 {
        if leap_year(year) {
            29
        } else {
            28
        }
    } else if month == 4 || month == 6 || month == 9 || month == 11 {
        30
    } else {
        31
    }
}

impl Date {
    /// The day exists, in a year that `chrono` has dates for.
    pub open spec fn valid(self) -> bool {
        &&& MIN_YEAR <= self.year <= MAX_YEAR
        &&& 1 <= self.month <= 12
        &&& 1 <= self.day <= days_in_month(self.year as int, self.month as int)
    }

    /// Whether the day exists, in a year that `chrono` has dates for.
    pub fn is_valid(&self) -> (ok: bool)
        ensures
            ok == self.valid(),
    {
        MIN_YEAR <= self.year && self.year <= MAX_YEAR && 1 <= self.month && self.month <= 12 && 1
            <= self.day && self.day <= month_length(self.year, self.month)
    }

    /// The date, if the day exists in a year that `chrono` has dates for.
    pub fn new(year: i32, month: u32, day: u32) -> (made: Option<Date>)
        ensures
            made == (if (Date { year, month, day }).valid() {
                Some(Date { year, month, day })
            } else {
                None
            }),
    {
        let date = Date { year, month, day };
        if date.is_valid() {
            Some(date)
        } else {
            None
        }
    }

    /// Whether this day comes after `other`.
    pub open spec fn after(self, other: Date) -> bool {
        ||| self.year > other.year
        ||| self.year == other.year && self.month > other.month
        ||| self.year == other.year && self.month == other.month && self.day > other.day
    }
}

impl Time {
    /// The minute exists.
    pub open spec fn valid(self) -> bool {
        self.hour < 24 && self.minute < 60
    }

    /// Whether the minute exists.
    pub fn is_valid(&self) -> (ok: bool)
        ensures
            ok == self.valid(),
    {
        self.hour < 24 && self.minute < 60
    }

    /// The time, if the minute exists.
    pub fn new(hour: u32, minute: u32) -> (made: Option<Time>)
        ensures
            made == (if (Time { hour, minute }).valid() {
                Some(Time { hour, minute })
            } else {
                None
            }),
    {
        let time = Time { hour, minute };
        if time.is_valid() {
            Some(time)
        } else {
            None
        }
    }

    /// Whether this minute comes after `other` on the same day.
    pub open spec fn after(self, other: Time) -> bool {
        self.hour > other.hour || (self.hour == other.hour && self.minute > other.minute)
    }
}

/// `count` zeros.
pub open spec fn zeros(count: nat) -> Seq<char> {
    Seq::new(count, |i: int| '0')
}

/// The decimal numeral of `n`, with zeros in front where it has fewer
/// than `width` digits.
pub open spec fn padded(n: nat, width: nat) -> Seq<char> {
    let digits = decimal(n);
    if digits.len() < width {
        zeros((width - digits.len()) as nat) + digits
    } else {
        digits
    }
}

/// A year as `%Y` writes it: four digits at least, and a sign before a
/// year that is negative or has more than four digits.
pub open spec fn year_text(year: int) -> Seq<char> {
    if year < 0 {
        seq!['-'] + padded((-year) as nat, 4)
    } else if year > 9999 {
        seq!['+'] + padded(year as nat, 4)
    } else {
        padded(year as nat, 4)
    }
}

impl DateTime {
    /// The day and the minute exist.
    pub open spec fn valid(self) -> bool {
        self.date.valid() && self.time.valid()
    }

    /// Whether the day and the minute exist.
    pub fn is_valid(&self) -> (ok: bool)
        ensures
            ok == self.valid(),
    {
        self.date.is_valid() && self.time.is_valid()
    }

    /// Whether this minute comes after `other`.
    pub open spec fn after(self, other: DateTime) -> bool {
        self.date.after(other.date) || (self.date == other.date && self.time.after(other.time))
    }

    /// Whether this minute comes after `other`.
    pub fn is_after(&self, other: &DateTime) -> (later: bool)
        ensures
            later == self.after(*other),
    {
        if self.date.year != other.date.year {
            self.date.year > other.date.year
        } else if self.date.month != other.date.month {
            self.date.month > other.date.month
        } else if self.date.day != other.date.day {
            self.date.day > other.date.day
        } else if self.time.hour != other.time.hour {
            self.time.hour > other.time.hour
        } else {
            self.time.minute > other.time.minute
        }
    }

    /// The text `YYYY-MM-DD HH:MM` of this minute.
    pub open spec fn stamp(self) -> Seq<char> {
        year_text(self.date.year as int) + seq!['-'] + padded(self.date.month as nat, 2)
            + seq!['-'] + padded(self.date.day as nat, 2) + seq![' '] + padded(
            self.time.hour as nat,
            2,
        ) + seq![':'] + padded(self.time.minute as nat, 2)
    }
}

/// Why a text is no date or no time.
#[derive(Clone, Copy, Debug, PartialEq, Eq, Structural)]
pub enum FormatError {
    /// The text is no date of the form `YYYY-MM-DD`.
    BadDate,
    /// The text is no time of the form `HH:MM`.
    BadTime,
}

/// `chrono`'s own error for a text that it could not read.
#[verifier::external_type_specification]
#[verifier::external_body]
pub struct ExParseError(chrono::format::ParseError);

/// The date that `chrono` reads in `s` under the pattern `%Y-%m-%d`, or
/// `None` where it reads none.
pub uninterp spec fn date_in(s: Seq<char>) -> Option<Date>;

/// The hour and the minute that `chrono` reads in `s` under the pattern
/// `%H:%M`, or `None` where it reads none.
pub uninterp spec fn time_in(s: Seq<char>) -> Option<Time>;

/// The minute that `chrono` reads in `s` under the pattern
/// `%Y-%m-%d %H:%M`, or `None` where it reads none.
pub uninterp spec fn datetime_in(s: Seq<char>) -> Option<DateTime>;

/// Calls `chrono::NaiveDate::parse_from_str` with the pattern `%Y-%m-%d`
/// and hands back the year, the month and the day of what it read.
/// Believed of it: the same text always reads the same, and a date that
/// it hands out exists.
#[verifier::external_body]
fn read_date(s: &str) -> (r: Result<Date, chrono::format::ParseError>)
    ensures
        match r {
            Ok(date) => date_in(s@) == Some(date) && date.valid(),
            Err(_) => date_in(s@) is None,
        },
{
    match chrono::NaiveDate::parse_from_str(s, "%Y-%m-%d") {
        Ok(d) => Ok(Date { year: d.year(), month: d.month(), day: d.day() }),
        Err(e) => Err(e),
    }
}

/// Calls `chrono::NaiveTime::parse_from_str` with the pattern `%H:%M` and
/// hands back the hour and the minute of what it read. Believed of it:
/// the same text always reads the same, and a time that it hands out
/// exists.
#[verifier::external_body]
fn read_time(s: &str) -> (r: Result<Time, chrono::format::ParseError>)
    ensures
        match r {
            Ok(time) => time_in(s@) == Some(time) && time.valid(),
            Err(_) => time_in(s@) is None,
        },
{
    match chrono::NaiveTime::parse_from_str(s, "%H:%M") {
        Ok(t) => Ok(Time { hour: t.hour(), minute: t.minute() }),
        Err(e) => Err(e),
    }
}

/// Calls `chrono::NaiveDateTime::parse_from_str` with the pattern
/// `%Y-%m-%d %H:%M` and hands back the date, the hour and the minute of
/// what it read. Believed of it: the same text always reads the same,
/// and a day and a minute that it hands out exist.
#[verifier::external_body]
fn read_datetime(s: &str) -> (r: Result<DateTime, chrono::format::ParseError>)
    ensures
        match r {
            Ok(at) => datetime_in(s@) == Some(at) && at.valid(),
            Err(_) => datetime_in(s@) is None,
        },
{
    match chrono::NaiveDateTime::parse_from_str(s, "%Y-%m-%d %H:%M") {
        Ok(t) => Ok(DateTime {
            date: Date { year: t.year(), month: t.month(), day: t.day() },
            time: Time { hour: t.hour(), minute: t.minute() },
        }),
        Err(e) => Err(e),
    }
}

/// Calls `chrono::NaiveDateTime::format` with the pattern
/// `%Y-%m-%d %H:%M` on the minute `at`. Believed of it: the year is
/// written with four digits at least, signed where it is negative or
/// longer, and the month, the day, the hour and the minute with two
/// digits each.
#[verifier::external_body]
fn write_stamp(at: &DateTime) -> (s: String)
    requires
        at.valid(),
    ensures
        s@ == at.stamp(),
{
    let date = chrono::NaiveDate::from_ymd_opt(at.date.year, at.date.month, at.date.day).unwrap();
    let both = date.and_hms_opt(at.time.hour, at.time.minute, 0).unwrap();
    both.format("%Y-%m-%d %H:%M").to_string()
}

/// Calls `chrono::Local::now` and hands back the day and the minute of
/// the local time, without the seconds. Believed of it: that day and
/// that minute exist.
#[verifier::external_body]
pub(crate) fn local_now() -> (now: DateTime)
    ensures
        now.valid(),
{
    let now = chrono::Local::now().naive_local();
    DateTime {
        date: Date { year: now.year(), month: now.month(), day: now.day() },
        time: Time { hour: now.hour(), minute: now.minute() },
    }
}

/// Reads a date of the form `YYYY-MM-DD`.
pub fn validate_date(date_str: &str) -> (r: Result<Date, FormatError>)
    ensures
        r == (match date_in(date_str@) {
            Some(date) => Ok::<Date, FormatError>(date),
            None => Err(FormatError::BadDate),
        }),
        r matches Ok(date) ==> date.valid(),
{
    match read_date(date_str) {
        Ok(date) => Ok(date),
        Err(_) => Err(FormatError::BadDate),
    }
}

/// Reads a time of the form `HH:MM`.
pub fn validate_time(time_str: &str) -> (r: Result<Time, FormatError>)
    ensures
        r == (match time_in(time_str@) {
            Some(time) => Ok::<Time, FormatError>(time),
            None => Err(FormatError::BadTime),
        }),
        r matches Ok(time) ==> time.valid(),
{
    match read_time(time_str) {
        Ok(time) => Ok(time),
        Err(_) => Err(FormatError::BadTime),
    }
}

/// What [`validate_datetime`] makes of what was read in the date and in
/// the time: the date is looked at first.
pub open spec fn date_and_time(date: Option<Date>, time: Option<Time>) -> Result<
    DateTime,
    FormatError,
> {
    match (date, time) {
        (None, _) => Err(FormatError::BadDate),
        (Some(_), None) => Err(FormatError::BadTime),
        (Some(date), Some(time)) => Ok(DateTime { date, time }),
    }
}

/// Reads a date of the form `YYYY-MM-DD` and a time of the form `HH:MM`.
pub fn validate_datetime(date_str: &str, time_str: &str) -> (r: Result<DateTime, FormatError>)
    ensures
        r == date_and_time(date_in(date_str@), time_in(time_str@)),
        r matches Ok(at) ==> at.valid(),
{
    let date = match validate_date(date_str) {
        Ok(date) => date,
        Err(e) => {
            return Err(e);
        },
    };
    let time = match validate_time(time_str) {
        Ok(time) => time,
        Err(e) => {
            return Err(e);
        },
    };
    Ok(DateTime { date, time })
}

/// Reads a reminder of the form `YYYY-MM-DD HH:MM`.
pub fn read_reminder(text: &str) -> (r: Option<DateTime>)
    ensures
        r == datetime_in(text@),
        r matches Some(at) ==> at.valid(),
{
    match read_datetime(text) {
        Ok(at) => Some(at),
        Err(_) => None,
    }
}

/// Writes a minute as `YYYY-MM-DD HH:MM`.
pub fn format_datetime(dt: &DateTime) -> (s: String)
    requires
        dt.valid(),
    ensures
        s@ == dt.stamp(),
{
    write_stamp(dt)
}

} // verus!
