//! Dates: the timestamp that a task is due at, reading it from text by the
//! configured patterns, and writing it for display.
//!
//! A timestamp holds the wall-clock reading in local time together with the
//! offset from UTC that was in force, to the second. The calendar itself
//! (parsing by pattern, formatting by pattern, the local time zone) is
//! chrono's; the functions here decide which pattern applies and what a text
//! without a time of day means.

use vstd::prelude::*;
use vstd::string::*;
use std::fmt::Write;
use chrono::{Datelike, Offset, TimeZone, Timelike};
use crate::configuration::Settings;

verus! {

/// A point in time as the local wall clock shows it.
#[derive(Clone, Copy, Debug, PartialEq, Eq, Structural)]
pub struct Timestamp {
    pub year: i32,
    pub month: u32,
    pub day: u32,
    pub hour: u32,
    pub minute: u32,
    pub second: u32,
    /// Seconds that local time is ahead of UTC.
    pub offset: i32,
}

/// Whether a year of the proleptic Gregorian calendar has a 29 February.
pub open spec fn is_leap_year(year: int) -> bool {
    year % 4 == 0 && (year % 100 != 0 || year % 400 == 0)
}

/// The number of days of a month.
pub open spec fn days_in_month(year: int, month: int) -> int {
    if month == 2 {
        if is_leap_year(year) { 29 } else { 28 }
    } else if month == 4 || month == 6 || month == 9 || month == 11 {
        30
    } else {
        31
    }
}

/// Whether year, month and day name a day of the calendar.
pub open spec fn is_calendar_date(year: int, month: int, day: int) -> bool {
    1 <= month <= 12 && 1 <= day <= days_in_month(year, month)
}

impl Timestamp {
    /// The fields name a day of the calendar and a time of that day, and the
    /// offset is less than a day.
    pub open spec fn is_valid(self) -> bool {
        &&& is_calendar_date(self.year as int, self.month as int, self.day as int)
        &&& self.hour < 24
        &&& self.minute < 60
        &&& self.second < 60
        &&& -86400 < self.offset < 86400
    }

    /// The time of day is 23:59:59, which stands for "some time that day".
    pub open spec fn is_end_of_day(self) -> bool {
        self.hour == 23 && self.minute == 59 && self.second == 59
    }

    /// The wall clock shows the given day and time.
    pub open spec fn shows(self, year: int, month: int, day: int, hour: int, minute: int, second: int) -> bool {
        &&& self.year == year
        &&& self.month == month
        &&& self.day == day
        &&& self.hour == hour
        &&& self.minute == minute
        &&& self.second == second
    }
}

/// Why a text gave no date.
#[derive(Clone, Copy, Debug, PartialEq, Eq, Structural)]
pub enum DateError {
    /// The text fits neither the datetime pattern nor the date pattern.
    Unparsable,
    /// The text names a day on which the local clock never shows 23:59:59, or
    /// shows it twice.
    NoLocalTime,
}

impl DateError {
    /// The message shown to the user.
    pub fn message(&self) -> (s: String)
        ensures
            s@ == "Unable to parse date"@,
    {
        String::from_str("Unable to parse date")
    }
}

/// The day that chrono's `NaiveDate::parse_from_str` reads from a text by a
/// pattern, as year, month and day.
pub uninterp spec fn chrono_parsed_date(s: Seq<char>, fmt: Seq<char>) -> Option<(i32, u32, u32)>;

/// The text that chrono's `DateTime::format` writes for a wall-clock reading
/// with an offset, by a pattern; `None` where the fields name no time or the
/// pattern is malformed.
pub uninterp spec fn chrono_formatted(
    year: int,
    month: int,
    day: int,
    hour: int,
    minute: int,
    second: int,
    offset: int,
    fmt: Seq<char>,
) -> Option<Seq<char>>;

/// `Local::now` of chrono: the current time in the machine's time zone. Only
/// that the reading is a valid one is claimed.
#[verifier::external_body]
pub(crate) fn local_now() -> (r: Timestamp)
    ensures
        r.is_valid(),
{
    let dt = chrono::Local::now();
    Timestamp {
        year: dt.year(),
        month: dt.month(),
        day: dt.day(),
        hour: dt.hour(),
        minute: dt.minute(),
        second: dt.second(),
        offset: dt.offset().fix().local_minus_utc(),
    }
}

/// `TimeZone::datetime_from_str` of chrono on `Local`: reads a date and time
/// by a pattern and places it in the machine's time zone. The outcome depends
/// on that zone, so only the validity of a reading is claimed.
#[verifier::external_body]
#[allow(deprecated)]
pub(crate) fn local_datetime_from_str(s: &str, fmt: &str) -> (r: Option<Timestamp>)
    ensures
        r matches Some(t) ==> t.is_valid(),
{
    let dt = chrono::Local.datetime_from_str(s, fmt).ok()?;
    Some(Timestamp {
        year: dt.year(),
        month: dt.month(),
        day: dt.day(),
        hour: dt.hour(),
        minute: dt.minute(),
        second: dt.second(),
        offset: dt.offset().fix().local_minus_utc(),
    })
}

/// `NaiveDate::parse_from_str` of chrono: reads a day by a pattern. The
/// result is named, and a day that is read is a day of the calendar.
#[verifier::external_body]
fn naive_date_from_str(s: &str, fmt: &str) -> (r: Option<(i32, u32, u32)>)
    ensures
        r == chrono_parsed_date(s@, fmt@),
        r matches Some(d) ==> is_calendar_date(d.0 as int, d.1 as int, d.2 as int),
{
    let date = chrono::NaiveDate::parse_from_str(s, fmt).ok()?;
    Some((date.year(), date.month(), date.day()))
}

/// `TimeZone::from_local_datetime` of chrono on `Local`, then `single`: the
/// offset at which the machine's time zone shows a wall-clock reading.
/// `None` where the fields name no time, or the zone shows the reading never
/// or twice. Where there is an offset, the fields name a day of the calendar
/// and a time of that day, and the offset is less than a day.
#[verifier::external_body]
fn local_offset_at(year: i32, month: u32, day: u32, hour: u32, minute: u32, second: u32) -> (r: Option<i32>)
    ensures
        r matches Some(offset) ==> {
            &&& is_calendar_date(year as int, month as int, day as int)
            &&& hour < 24
            &&& minute < 60
            &&& second < 60
            &&& -86400 < offset < 86400
        },
{
    let naive = chrono::NaiveDate::from_ymd_opt(year, month, day)?.and_hms_opt(hour, minute, second)?;
    let dt = chrono::Local.from_local_datetime(&naive).single()?;
    Some(dt.offset().fix().local_minus_utc())
}

/// `DateTime::format` of chrono, written out into a string. The result is
/// named; a malformed pattern gives `None`.
#[verifier::external_body]
pub(crate) fn format_timestamp(ts: &Timestamp, fmt: &str) -> (r: Option<String>)
    ensures
        match r {
            Some(text) => chrono_formatted(
                ts.year as int,
                ts.month as int,
                ts.day as int,
                ts.hour as int,
                ts.minute as int,
                ts.second as int,
                ts.offset as int,
                fmt@,
            ) == Some(text@),
            None => chrono_formatted(
                ts.year as int,
                ts.month as int,
                ts.day as int,
                ts.hour as int,
                ts.minute as int,
                ts.second as int,
                ts.offset as int,
                fmt@,
            ) is None,
        },
{
    let zone = chrono::FixedOffset::east_opt(ts.offset)?;
    let dt = zone.with_ymd_and_hms(ts.year, ts.month, ts.day, ts.hour, ts.minute, ts.second).single()?;
    let mut text = String::new();
    write!(text, "{}", dt.format(fmt)).ok()?;
    Some(text)
}

/// The seconds from the start of 1970 in UTC to a wall-clock reading with an
/// offset, as chrono's `DateTime::timestamp` counts them; `None` where the
/// fields name no time.
pub uninterp spec fn chrono_epoch_seconds(
    year: int,
    month: int,
    day: int,
    hour: int,
    minute: int,
    second: int,
    offset: int,
) -> Option<i64>;

/// `DateTime::timestamp` of chrono, on the point in time that the fields
/// name. The result is named.
#[verifier::external_body]
pub(crate) fn epoch_seconds(ts: &Timestamp) -> (r: Option<i64>)
    ensures
        r == chrono_epoch_seconds(
            ts.year as int,
            ts.month as int,
            ts.day as int,
            ts.hour as int,
            ts.minute as int,
            ts.second as int,
            ts.offset as int,
        ),
{
    let zone = chrono::FixedOffset::east_opt(ts.offset)?;
    let dt = zone.with_ymd_and_hms(ts.year, ts.month, ts.day, ts.hour, ts.minute, ts.second).single()?;
    Some(dt.timestamp())
}

/// The point in time that a timestamp names, in seconds from the start of
/// 1970 in UTC.
pub open spec fn instant_of(ts: Timestamp) -> Option<i64> {
    chrono_epoch_seconds(
        ts.year as int,
        ts.month as int,
        ts.day as int,
        ts.hour as int,
        ts.minute as int,
        ts.second as int,
        ts.offset as int,
    )
}

/// The text that a timestamp is shown as by a pattern.
pub open spec fn shown_by(ts: Timestamp, fmt: Seq<char>) -> Option<Seq<char>> {
    chrono_formatted(
        ts.year as int,
        ts.month as int,
        ts.day as int,
        ts.hour as int,
        ts.minute as int,
        ts.second as int,
        ts.offset as int,
        fmt,
    )
}

/// The view of an optional string.
pub open spec fn text_of(s: Option<String>) -> Option<Seq<char>> {
    match s {
        Some(t) => Some(t@),
        None => None,
    }
}

/// The end of a day, given the offset that the local clock has at 23:59:59
/// on it: that reading with that offset, and nothing where there is no such
/// offset.
pub fn end_of_day_at(year: i32, month: u32, day: u32, offset: Option<i32>) -> (r: Option<Timestamp>)
    ensures
        r == match offset {
            Some(offset) => Some(
                Timestamp { year: year, month: month, day: day, hour: 23, minute: 59, second: 59, offset: offset },
            ),
            None => None,
        },
{
    match offset {
        Some(offset) => Some(
            Timestamp { year: year, month: month, day: day, hour: 23, minute: 59, second: 59, offset: offset },
        ),
        None => None,
    }
}

/// The end of a day: 23:59:59 by the local clock on that day, which stands
/// for "some time that day". `None` where the day is no day of the calendar,
/// or the local clock does not show that time exactly once on it.
pub fn end_of_day(year: i32, month: u32, day: u32) -> (r: Option<Timestamp>)
    ensures
        r matches Some(t) ==> t.is_valid() && t.shows(year as int, month as int, day as int, 23, 59, 59),
{
    let offset = local_offset_at(year, month, day, 23, 59, 59);
    end_of_day_at(year, month, day, offset)
}

/// Today at 23:59:59 local time; `None` on a day on which the local clock
/// does not show that time exactly once.
pub fn get_today() -> (r: Option<Timestamp>)
    ensures
        r matches Some(t) ==> t.is_valid() && t.is_end_of_day(),
{
    let now = local_now();
    end_of_day(now.year, now.month, now.day)
}

/// What a text means, given what the two readings of it gave: the reading
/// as date and time if there is one; else the end of the day that the text
/// names, if it names one.
pub fn choose_date(
    as_datetime: Option<Timestamp>,
    as_date: Option<(i32, u32, u32)>,
    end_of_day: Option<Timestamp>,
) -> (r: Result<Timestamp, DateError>)
    ensures
        r == match (as_datetime, as_date, end_of_day) {
            (Some(t), _, _) => Ok::<Timestamp, DateError>(t),
            (None, Some(_), Some(t)) => Ok(t),
            (None, Some(_), None) => Err(DateError::NoLocalTime),
            (None, None, _) => Err(DateError::Unparsable),
        },
{
    match as_datetime {
        Some(t) => Ok(t),
        None => match as_date {
            Some(_) => match end_of_day {
                Some(t) => Ok(t),
                None => Err(DateError::NoLocalTime),
            },
            None => Err(DateError::Unparsable),
        },
    }
}

/// Reads a date from text: first as date and time by the input datetime
/// pattern, then as a day by the input date pattern, which means 23:59:59 of
/// that day.
///
/// The local time zone decides the first reading and the offset of the
/// second, so the contract says what holds of every outcome: a result is a
/// valid timestamp; where the first reading fails, the result is the end of
/// the day that the date pattern reads; and the text is unparsable only if the
/// date pattern reads nothing.
pub fn parse_date(s: &str, settings: &Settings) -> (r: Result<Timestamp, DateError>)
    ensures
        r matches Ok(t) ==> t.is_valid(),
        r == Err::<Timestamp, DateError>(DateError::Unparsable) ==> chrono_parsed_date(
            s@,
            settings.date_formats.input_date_format@,
        ) is None,
        r == Err::<Timestamp, DateError>(DateError::NoLocalTime) ==> chrono_parsed_date(
            s@,
            settings.date_formats.input_date_format@,
        ) is Some,
{
    let as_datetime = local_datetime_from_str(s, settings.date_formats.input_datetime_format.as_str());
    let as_date = naive_date_from_str(s, settings.date_formats.input_date_format.as_str());
    let at_end = match as_date {
        Some(d) => end_of_day(d.0, d.1, d.2),
        None => None,
    };
    choose_date(as_datetime, as_date, at_end)
}

/// Whether a timestamp carries a time of day, that is, is not at 23:59:59.
pub fn date_has_time(date: &Timestamp) -> (r: bool)
    ensures
        r == !date.is_end_of_day(),
{
    !(date.hour == 23 && date.minute == 59 && date.second == 59)
}

/// The pattern by which a timestamp is shown: the date pattern at the end of
/// a day, the datetime pattern at any other time.
pub open spec fn display_pattern(dt: Timestamp, settings: Settings) -> Seq<char> {
    if dt.is_end_of_day() {
        settings.date_formats.display_date_format@
    } else {
        settings.date_formats.display_datetime_format@
    }
}

/// Writes a timestamp for display; `None` where the configured pattern is
/// malformed or the timestamp is not valid.
pub fn date_to_display_str(dt: &Timestamp, settings: &Settings) -> (r: Option<String>)
    ensures
        text_of(r) == shown_by(*dt, display_pattern(*dt, *settings)),
{
    if date_has_time(dt) {
        format_timestamp(dt, settings.date_formats.display_datetime_format.as_str())
    } else {
        format_timestamp(dt, settings.date_formats.display_date_format.as_str())
    }
}

} // verus!
