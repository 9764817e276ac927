//! Calendar dates and points in time as parameter values, and the calls
//! into `chrono` that write them.
//!
//! The wire forms are those of RFC 3339: a date is `YYYY-MM-DD`, a point in
//! time is `YYYY-MM-DDTHH:MM:SSZ`, in UTC and without a fraction of a
//! second. Years run from 0 to 9999, the years that four digits can spell.

use std::borrow::Cow;
use vstd::prelude::*;

use crate::api::params::{digit, numeral_value, ParamValue};

verus! {

/// Whether a year of the Gregorian calendar has a 29th of February.
pub open spec fn leap(year: int) -> bool {
    year % 4 == 0 && (year % 100 != 0 || year % 400 == 0)
}

/// The number of days of a month.
pub open spec fn month_days(year: int, month: int) -> int {
    if month == 2 {
        if leap(year) {
            29
        } else {
            28
        }
    } else if month == 4 || month == 6 || month == 9 || month == 11 {
        30
    } else {
        31
    }
}

/// Whether year, month and day name a day of the calendar, in a year that
/// four digits can spell.
pub open spec fn valid_date(year: int, month: int, day: int) -> bool {
    &&& 0 <= year <= 9999
    &&& 1 <= month <= 12
    &&& 1 <= day <= month_days(year, month)
}

/// Whether hour, minute and second name a second of a day.
pub open spec fn valid_time(hour: int, minute: int, second: int) -> bool {
    &&& 0 <= hour < 24
    &&& 0 <= minute < 60
    &&& 0 <= second < 60
}

/// A number below 100 in two digits.
pub open spec fn two(n: int) -> Seq<char> {
    seq![digit((n / 10) as nat), digit((n % 10) as nat)]
}

/// A number below 10000 in four digits.
pub open spec fn four(n: int) -> Seq<char> {
    two(n / 100) + two(n % 100)
}

/// The wire form of a date: `YYYY-MM-DD`.
pub open spec fn date_text(year: int, month: int, day: int) -> Seq<char> {
    four(year) + seq!['-'] + two(month) + seq!['-'] + two(day)
}

/// The wire form of a time of day: `HH:MM:SS`.
pub open spec fn time_text(hour: int, minute: int, second: int) -> Seq<char> {
    two(hour) + seq![':'] + two(minute) + seq![':'] + two(second)
}

/// The wire form of a point in time: date and time of day in UTC, with `T`
/// between them and `Z` behind.
pub open spec fn instant_text(
    year: int,
    month: int,
    day: int,
    hour: int,
    minute: int,
    second: int,
) -> Seq<char> {
    date_text(year, month, day) + seq!['T'] + time_text(hour, minute, second) + seq!['Z']
}

/// Year, month and day as a date in its wire form spells them.
pub open spec fn read_date(text: Seq<char>) -> (int, int, int) {
    (
        numeral_value(text.subrange(0, 4)) as int,
        numeral_value(text.subrange(5, 7)) as int,
        numeral_value(text.subrange(8, 10)) as int,
    )
}

/// Hour, minute and second as a time of day in its wire form spells them.
pub open spec fn read_time(text: Seq<char>) -> (int, int, int) {
    (
        numeral_value(text.subrange(0, 2)) as int,
        numeral_value(text.subrange(3, 5)) as int,
        numeral_value(text.subrange(6, 8)) as int,
    )
}

/// The date and the time of day as a point in time in its wire form spells
/// them.
pub open spec fn read_instant(text: Seq<char>) -> ((int, int, int), (int, int, int)) {
    (read_date(text.subrange(0, 10)), read_time(text.subrange(11, 19)))
}

/// Two digits spell the number that they were written for.
pub proof fn two_reads_back(n: int)
    requires
        0 <= n < 100,
    ensures
        two(n).len() == 2,
        numeral_value(two(n)) == n,
{
    let text = two(n);
    assert(numeral_value(text.drop_last().drop_last()) == 0);
    assert(numeral_value(text.drop_last()) == n / 10);
}

/// Four digits spell the number that they were written for.
pub proof fn four_reads_back(n: int)
    requires
        0 <= n < 10000,
    ensures
        four(n).len() == 4,
        numeral_value(four(n)) == n,
{
    let text = four(n);
    let high = n / 100;
    let low = n % 100;
    two_reads_back(high);
    two_reads_back(low);
    assert(text.drop_last().drop_last() =~= two(high));
    assert(numeral_value(text.drop_last()) == high * 10 + low / 10);
}

/// The wire form of a date can be read back, and the date read back has the
/// same wire form.
pub proof fn date_reads_back(year: int, month: int, day: int)
    requires
        valid_date(year, month, day),
    ensures
        date_text(year, month, day).len() == 10,
        read_date(date_text(year, month, day)) == (year, month, day),
        date_text(
            read_date(date_text(year, month, day)).0,
            read_date(date_text(year, month, day)).1,
            read_date(date_text(year, month, day)).2,
        ) == date_text(year, month, day),
{
    let text = date_text(year, month, day);
    four_reads_back(year);
    two_reads_back(month);
    two_reads_back(day);
    assert(text.subrange(0, 4) =~= four(year));
    assert(text.subrange(5, 7) =~= two(month));
    assert(text.subrange(8, 10) =~= two(day));
}

/// The wire form of a time of day can be read back.
pub proof fn time_reads_back(hour: int, minute: int, second: int)
    requires
        valid_time(hour, minute, second),
    ensures
        time_text(hour, minute, second).len() == 8,
        read_time(time_text(hour, minute, second)) == (hour, minute, second),
{
    let text = time_text(hour, minute, second);
    two_reads_back(hour);
    two_reads_back(minute);
    two_reads_back(second);
    assert(text.subrange(0, 2) =~= two(hour));
    assert(text.subrange(3, 5) =~= two(minute));
    assert(text.subrange(6, 8) =~= two(second));
}

/// The wire form of a point in time can be read back, and the point in time
/// read back has the same wire form.
pub proof fn instant_reads_back(year: int, month: int, day: int, hour: int, minute: int, second: int)
    requires
        valid_date(year, month, day),
        valid_time(hour, minute, second),
    ensures
        read_instant(instant_text(year, month, day, hour, minute, second)) == (
            (year, month, day),
            (hour, minute, second),
        ),
        ({
            let read = read_instant(instant_text(year, month, day, hour, minute, second));
            instant_text(read.0.0, read.0.1, read.0.2, read.1.0, read.1.1, read.1.2)
        }) == instant_text(year, month, day, hour, minute, second),
{
    let text = instant_text(year, month, day, hour, minute, second);
    date_reads_back(year, month, day);
    time_reads_back(hour, minute, second);
    assert(text.subrange(0, 10) =~= date_text(year, month, day));
    assert(text.subrange(11, 19) =~= time_text(hour, minute, second));
}

/// `chrono::NaiveDate::format` with the pattern `%Y-%m-%d`, on the date
/// that `chrono::NaiveDate::from_ymd_opt` makes of the three numbers: for a
/// day of the calendar in the years 0 to 9999, the year in four digits,
/// the month in two and the day in two, with hyphens between them.
#[verifier::external_body]
fn write_date(year: i32, month: u32, day: u32) -> (written: Option<String>)
    ensures
        valid_date(year as int, month as int, day as int) ==> written is Some,
        valid_date(year as int, month as int, day as int) ==> written->0@ == date_text(
            year as int,
            month as int,
            day as int,
        ),
{
    chrono::NaiveDate::from_ymd_opt(year, month, day).map(|date| date.format("%Y-%m-%d").to_string())
}

/// `chrono::DateTime::to_rfc3339_opts` with whole seconds and `Z` for UTC,
/// on the point in time that `from_ymd_opt`, `and_hms_opt` and `and_utc`
/// make of the six numbers: for a second of a day of the calendar in the
/// years 0 to 9999, the date as `write_date` gives it, `T`, hour, minute and
/// second in two digits each with colons between them, and `Z`.
#[verifier::external_body]
fn write_instant(year: i32, month: u32, day: u32, hour: u32, minute: u32, second: u32) -> (written:
    Option<String>)
    ensures
        valid_date(year as int, month as int, day as int) && valid_time(
            hour as int,
            minute as int,
            second as int,
        ) ==> written is Some,
        valid_date(year as int, month as int, day as int) && valid_time(
            hour as int,
            minute as int,
            second as int,
        ) ==> written->0@ == instant_text(
            year as int,
            month as int,
            day as int,
            hour as int,
            minute as int,
            second as int,
        ),
{
    chrono::NaiveDate::from_ymd_opt(year, month, day).and_then(
        |date| date.and_hms_opt(hour, minute, second),
    ).map(|time| time.and_utc().to_rfc3339_opts(chrono::SecondsFormat::Secs, true))
}

/// A day of the calendar.
#[derive(Debug, Clone, Copy, PartialEq, Eq)]
pub struct Date {
    year: i32,
    month: u32,
    day: u32,
}

/// Whether a year has a 29th of February.
fn is_leap(year: i32) -> (yes: bool)
    requires
        0 <= year <= 9999,
    ensures
        yes == leap(year as int),
{
    year % 4 == 0 && (year % 100 != 0 || year % 400 == 0)
}

impl Date {
    #[verifier::type_invariant]
    spec fn valid(self) -> bool {
        valid_date(self.year as int, self.month as int, self.day as int)
    }

    /// The year, from 0 to 9999.
    pub closed spec fn year(&self) -> int {
        self.year as int
    }

    /// The month, from 1 to 12.
    pub closed spec fn month(&self) -> int {
        self.month as int
    }

    /// The day of the month, from 1.
    pub closed spec fn day(&self) -> int {
        self.day as int
    }

    /// The date with the given year, month and day, if there is such a day
    /// in the calendar and its year is between 0 and 9999.
    pub fn new(year: i32, month: u32, day: u32) -> (date: Option<Self>)
        ensures
            date is Some == valid_date(year as int, month as int, day as int),
            date matches Some(d) ==> d.year() == year && d.month() == month && d.day() == day,
    {
        if year < 0 || year > 9999 || month < 1 || month > 12 || day < 1 {
            return None;
        }
        let days: u32 = if month == 2 {
            if is_leap(year) {
                29
            } else {
                28
            }
        } else if month == 4 || month == 6 || month == 9 || month == 11 {
            30
        } else {
            31
        };
        if day > days {
            return None;
        }
        Some(Date { year, month, day })
    }

    /// Year, month and day of the date: they name a day of the calendar.
    pub fn parts(&self) -> (parts: (i32, u32, u32))
        ensures
            parts.0 == self.year(),
            parts.1 == self.month(),
            parts.2 == self.day(),
            valid_date(self.year(), self.month(), self.day()),
    {
        proof {
            use_type_invariant(self);
        }
        (self.year, self.month, self.day)
    }
}

impl ParamValue<'static> for Date {
    fn as_value(&self) -> (value: Cow<'static, str>)
        ensures
            value@ == date_text(self.year(), self.month(), self.day()),
    {
        proof {
            use_type_invariant(self);
        }
        match write_date(self.year, self.month, self.day) {
            Some(written) => Cow::Owned(written),
            None => vstd::pervasive::unreached(),
        }
    }
}

/// A second of a day of the calendar, in UTC.
#[derive(Debug, Clone, Copy, PartialEq, Eq)]
pub struct Timestamp {
    date: Date,
    hour: u32,
    minute: u32,
    second: u32,
}

impl Timestamp {
    #[verifier::type_invariant]
    spec fn valid(self) -> bool {
        &&& valid_date(self.date.year as int, self.date.month as int, self.date.day as int)
        &&& valid_time(self.hour as int, self.minute as int, self.second as int)
    }

    /// The day.
    pub closed spec fn date(&self) -> Date {
        self.date
    }

    /// The hour of the day, from 0 to 23.
    pub closed spec fn hour(&self) -> int {
        self.hour as int
    }

    /// The minute of the hour, from 0 to 59.
    pub closed spec fn minute(&self) -> int {
        self.minute as int
    }

    /// The second of the minute, from 0 to 59.
    pub closed spec fn second(&self) -> int {
        self.second as int
    }

    /// The given second of the given day, if the day has such a second.
    pub fn new(date: Date, hour: u32, minute: u32, second: u32) -> (instant: Option<Self>)
        ensures
            instant is Some == valid_time(hour as int, minute as int, second as int),
            instant matches Some(t) ==> t.date() == date && t.hour() == hour && t.minute()
                == minute && t.second() == second,
    {
        if hour >= 24 || minute >= 60 || second >= 60 {
            return None;
        }
        proof {
            use_type_invariant(date);
        }
        Some(Timestamp { date, hour, minute, second })
    }

    /// The day, and hour, minute and second of the timestamp: they name a
    /// second of the day.
    pub fn parts(&self) -> (parts: (Date, u32, u32, u32))
        ensures
            parts.0 == self.date(),
            parts.1 == self.hour(),
            parts.2 == self.minute(),
            parts.3 == self.second(),
            valid_time(self.hour(), self.minute(), self.second()),
    {
        proof {
            use_type_invariant(self);
        }
        (self.date, self.hour, self.minute, self.second)
    }
}

impl ParamValue<'static> for Timestamp {
    fn as_value(&self) -> (value: Cow<'static, str>)
        ensures
            value@ == instant_text(
                self.date().year(),
                self.date().month(),
                self.date().day(),
                self.hour(),
                self.minute(),
                self.second(),
            ),
    {
        proof {
            use_type_invariant(self);
        }
        match write_instant(
            self.date.year,
            self.date.month,
            self.date.day,
            self.hour,
            self.minute,
            self.second,
        ) {
            Some(written) => Cow::Owned(written),
            None => vstd::pervasive::unreached(),
        }
    }
}

} // verus!
