//! Due dates: the calendar model, classification of the backend's raw
//! encoding, and rendering as absolute or relative text.
use vstd::prelude::*;
use chrono::{Datelike, Timelike};
use crate::text::{decimal, decimal_text, digit_char, ends_with, has_prefix, has_suffix, starts_with};

verus! {

/// Smallest year that chrono's calendar represents.
pub const MIN_YEAR: i32 = -262143;

/// Largest year that chrono's calendar represents.
pub const MAX_YEAR: i32 = 262142;

/// Suffix by which the backend marks a date without a time of day.
pub const DATE_SENTINEL: &'static str = "T00:00:00.000Z";

/// Prefix by which the backend marks a time of day without a date.
pub const TIME_SENTINEL: &'static str = "0000-00-00T";

/// A day of the proleptic Gregorian calendar.
#[derive(Clone, Copy, Debug, PartialEq, Eq, Structural)]
pub struct CalendarDate {
    pub year: i32,
    /// 1 to 12.
    pub month: u32,
    /// 1 to the length of the month.
    pub day: u32,
}

/// A time of day: seconds since midnight and the nanosecond within the
/// second, which reaches past 10^9 only during a leap second.
#[derive(Clone, Copy, Debug, PartialEq, Eq, Structural)]
pub struct TimeOfDay {
    pub secs: u32,
    pub nano: u32,
}

/// What a due date means: a day, a time of day, or both.
#[derive(Clone, Copy, Debug, PartialEq, Eq, Structural)]
pub enum TimestampType {
    Date(CalendarDate),
    Time(TimeOfDay),
    DateTime(CalendarDate, TimeOfDay),
}

/// How pressing a due date is, as a display class.
#[derive(Clone, Copy, Debug, PartialEq, Eq, Structural)]
pub enum Urgency {
    /// An absolute rendering, which carries no urgency.
    Plain,
    Overdue,
    DueNow,
    Upcoming,
}

pub open spec fn is_leap_year(y: int) -> bool {
    (y % 4 == 0 && y % 100 != 0) || y % 400 == 0
}

pub open spec fn days_in_month(y: int, m: int) -> int {
    if m == 2 {
        if is_leap_year(y) {
            29
        } else {
            28
        }
    } else if m == 4 || m == 6 || m == 9 || m == 11 {
        30
    } else {
        31
    }
}

impl CalendarDate {
    /// A real day within chrono's range.
    pub open spec fn wf(self) -> bool {
        &&& MIN_YEAR <= self.year <= MAX_YEAR
        &&& 1 <= self.month <= 12
        &&& 1 <= self.day <= days_in_month(self.year as int, self.month as int)
    }

    pub open spec fn fields(self) -> (int, int, int) {
        (self.year as int, self.month as int, self.day as int)
    }
}

impl TimeOfDay {
    /// A time chrono can hold: a leap second only in the last second of a minute.
    pub open spec fn wf(self) -> bool {
        &&& self.secs < 86_400
        &&& self.nano < 2_000_000_000
        &&& self.nano >= 1_000_000_000 ==> self.secs % 60 == 59
    }

    pub open spec fn fields(self) -> (int, int) {
        (self.secs as int, self.nano as int)
    }

    pub open spec fn hour(self) -> int {
        self.secs as int / 3600
    }

    pub open spec fn minute(self) -> int {
        (self.secs as int / 60) % 60
    }

    /// The second as shown on a clock: 60 during a leap second.
    pub open spec fn shown_second(self) -> int {
        self.secs as int % 60 + self.nano as int / 1_000_000_000
    }
}

impl TimestampType {
    pub open spec fn wf(self) -> bool {
        match self {
            TimestampType::Date(d) => d.wf(),
            TimestampType::Time(t) => t.wf(),
            TimestampType::DateTime(d, t) => d.wf() && t.wf(),
        }
    }
}

impl CalendarDate {
    /// Whether this is a real day within chrono's range.
    pub fn is_valid(&self) -> (r: bool)
        ensures
            r == self.wf(),
    {
        if self.year < MIN_YEAR || self.year > MAX_YEAR || self.month < 1 || self.month > 12
            || self.day < 1 {
            return false;
        }
        // Shifting by a multiple of 400 years keeps the leap-year rule and
        // makes the year positive.
        let shifted = (self.year as i64 + 400_000) as u64;
        let ghost y = self.year as int;
        assert((shifted as int) % 4 == y % 4 && (shifted as int) % 100 == y % 100 && (shifted as int)
            % 400 == y % 400) by {
            assert(shifted as int == y + 400 * 1000);
        }
        let leap = (shifted % 4 == 0 && shifted % 100 != 0) || shifted % 400 == 0;
        let last: u32 = if self.month == 2 {
            if leap {
                29
            } else {
                28
            }
        } else if self.month == 4 || self.month == 6 || self.month == 9 || self.month == 11 {
            30
        } else {
            31
        };
        self.day <= last
    }
}

impl TimeOfDay {
    /// Whether chrono can hold this time of day.
    pub fn is_valid(&self) -> (r: bool)
        ensures
            r == self.wf(),
    {
        self.secs < 86_400 && self.nano < 2_000_000_000 && (self.nano < 1_000_000_000 || self.secs
            % 60 == 59)
    }
}

impl TimestampType {
    /// Whether every part of this due date is valid.
    pub fn is_valid(&self) -> (r: bool)
        ensures
            r == self.wf(),
    {
        match self {
            TimestampType::Date(d) => d.is_valid(),
            TimestampType::Time(t) => t.is_valid(),
            TimestampType::DateTime(d, t) => d.is_valid() && t.is_valid(),
        }
    }
}

/// The local date and time fields (year, month, day, seconds since
/// midnight, nanosecond) that chrono reads from an RFC 3339 string, or
/// `None` where it rejects the string.
pub uninterp spec fn rfc3339_local(s: Seq<char>) -> Option<(int, int, int, int, int)>;

/// Whole days from the second date to the first, as chrono counts them.
pub uninterp spec fn calendar_days_between(a: (int, int, int), b: (int, int, int)) -> int;

/// Whole minutes from the second time of day to the first, as chrono counts
/// them (leap seconds included).
pub uninterp spec fn clock_minutes_between(a: (int, int), b: (int, int)) -> int;

/// Whole days from the second moment to the first, as chrono counts them.
pub uninterp spec fn moment_days_between(a: (int, int, int, int, int), b: (int, int, int, int, int)) -> int;

pub open spec fn moment_fields(d: CalendarDate, t: TimeOfDay) -> (int, int, int, int, int) {
    (d.year as int, d.month as int, d.day as int, t.secs as int, t.nano as int)
}

/// What a parse result stands for in the library's own types.
pub open spec fn parsed_moment(p: Option<(int, int, int, int, int)>) -> Option<(CalendarDate, TimeOfDay)> {
    match p {
        Some(v) => Some(
            (
                CalendarDate { year: v.0 as i32, month: v.1 as u32, day: v.2 as u32 },
                TimeOfDay { secs: v.3 as u32, nano: v.4 as u32 },
            ),
        ),
        None => None,
    }
}

/// Relies on chrono's `DateTime::parse_from_rfc3339` and `naive_local`: the
/// local date and time of an RFC 3339 timestamp, which chrono holds as a
/// valid date and time in its range.
#[verifier::external_body]
fn parse_local(s: &str) -> (r: Option<(CalendarDate, TimeOfDay)>)
    ensures
        r == parsed_moment(rfc3339_local(s@)),
        r matches Some(v) ==> v.0.wf() && v.1.wf() && moment_fields(v.0, v.1) == rfc3339_local(s@)->0,
{
    match chrono::DateTime::parse_from_rfc3339(s) {
        Ok(x) => {
            let local = x.naive_local();
            Some(
                (
                    CalendarDate { year: local.year(), month: local.month(), day: local.day() },
                    TimeOfDay { secs: local.num_seconds_from_midnight(), nano: local.nanosecond() },
                ),
            )
        },
        Err(_) => None,
    }
}

/// Relies on chrono's `Utc::now` and `naive_utc`: the current UTC date and
/// time, which chrono holds as a valid date and time in its range.
#[verifier::external_body]
pub(crate) fn now_utc() -> (r: (CalendarDate, TimeOfDay))
    ensures
        r.0.wf(),
        r.1.wf(),
{
    let now = chrono::Utc::now().naive_utc();
    (
        CalendarDate { year: now.year(), month: now.month(), day: now.day() },
        TimeOfDay { secs: now.num_seconds_from_midnight(), nano: now.nanosecond() },
    )
}

/// Relies on chrono's `NaiveDate` subtraction and `TimeDelta::num_days`.
#[verifier::external_body]
pub(crate) fn days_between(a: CalendarDate, b: CalendarDate) -> (r: i64)
    requires
        a.wf(),
        b.wf(),
    ensures
        r as int == calendar_days_between(a.fields(), b.fields()),
{
    let x = chrono::NaiveDate::from_ymd_opt(a.year, a.month, a.day).unwrap();
    let y = chrono::NaiveDate::from_ymd_opt(b.year, b.month, b.day).unwrap();
    (x - y).num_days()
}

/// Relies on chrono's `NaiveTime` subtraction and `TimeDelta::num_minutes`.
#[verifier::external_body]
pub(crate) fn minutes_between(a: TimeOfDay, b: TimeOfDay) -> (r: i64)
    requires
        a.wf(),
        b.wf(),
    ensures
        r as int == clock_minutes_between(a.fields(), b.fields()),
{
    let x = chrono::NaiveTime::from_num_seconds_from_midnight_opt(a.secs, a.nano).unwrap();
    let y = chrono::NaiveTime::from_num_seconds_from_midnight_opt(b.secs, b.nano).unwrap();
    (x - y).num_minutes()
}

/// Relies on chrono's `NaiveDateTime` subtraction and `TimeDelta::num_days`.
#[verifier::external_body]
pub(crate) fn moment_days(a: (CalendarDate, TimeOfDay), b: (CalendarDate, TimeOfDay)) -> (r: i64)
    requires
        a.0.wf(),
        a.1.wf(),
        b.0.wf(),
        b.1.wf(),
    ensures
        r as int == moment_days_between(moment_fields(a.0, a.1), moment_fields(b.0, b.1)),
{
    let x = chrono::NaiveDate::from_ymd_opt(a.0.year, a.0.month, a.0.day).unwrap().and_time(
        chrono::NaiveTime::from_num_seconds_from_midnight_opt(a.1.secs, a.1.nano).unwrap(),
    );
    let y = chrono::NaiveDate::from_ymd_opt(b.0.year, b.0.month, b.0.day).unwrap().and_time(
        chrono::NaiveTime::from_num_seconds_from_midnight_opt(b.1.secs, b.1.nano).unwrap(),
    );
    (x - y).num_days()
}

/// `n` in decimal, padded with zeros on the left to at least `width` digits.
pub open spec fn zero_padded(n: nat, width: nat) -> Seq<char> {
    let d = decimal(n);
    if d.len() < width {
        Seq::new((width - d.len()) as nat, |_i: int| '0') + d
    } else {
        d
    }
}

/// Two decimal digits of a number below 100.
pub open spec fn two_digits(n: int) -> Seq<char> {
    seq![digit_char((n / 10) as nat), digit_char((n % 10) as nat)]
}

/// A year as chrono's `%Y` writes it: four digits, with a sign outside 0 to 9999.
pub open spec fn year_text(y: int) -> Seq<char> {
    if 0 <= y <= 9999 {
        zero_padded(y as nat, 4)
    } else if y < 0 {
        seq!['-'] + zero_padded((-y) as nat, 4)
    } else {
        seq!['+'] + zero_padded(y as nat, 4)
    }
}

/// `YYYY-MM-DD`.
pub open spec fn iso_date(d: CalendarDate) -> Seq<char> {
    year_text(d.year as int) + seq!['-'] + two_digits(d.month as int) + seq!['-'] + two_digits(
        d.day as int,
    )
}

/// `HH:MM:SS`.
pub open spec fn clock(t: TimeOfDay) -> Seq<char> {
    two_digits(t.hour()) + seq![':'] + two_digits(t.minute()) + seq![':'] + two_digits(
        t.shown_second(),
    )
}

/// Relies on chrono's `NaiveDate::format` with `%F`: year as `%Y`, then
/// month and day as two digits, joined by `-`.
#[verifier::external_body]
pub(crate) fn date_text(d: CalendarDate) -> (r: String)
    requires
        d.wf(),
    ensures
        r@ == iso_date(d),
{
    chrono::NaiveDate::from_ymd_opt(d.year, d.month, d.day).unwrap().format("%F").to_string()
}

/// Relies on chrono's `NaiveTime::format` with `%H:%M:%S`: hour, minute and
/// second as two digits each, the second being 60 during a leap second.
#[verifier::external_body]
pub(crate) fn clock_text(t: TimeOfDay) -> (r: String)
    requires
        t.wf(),
    ensures
        r@ == clock(t),
{
    chrono::NaiveTime::from_num_seconds_from_midnight_opt(t.secs, t.nano).unwrap().format(
        "%H:%M:%S",
    ).to_string()
}

/// What a raw due-date string means, given what chrono parsed from it: a
/// day where the string ends in the date sentinel, else a time of day where
/// it starts with the time sentinel, else both; nothing where it did not parse.
pub open spec fn classify_due(raw: Seq<char>, parsed: Option<(CalendarDate, TimeOfDay)>) -> Option<TimestampType> {
    match parsed {
        None => None,
        Some(v) => if has_suffix(raw, DATE_SENTINEL@) {
            Some(TimestampType::Date(v.0))
        } else if has_prefix(raw, TIME_SENTINEL@) {
            Some(TimestampType::Time(v.1))
        } else {
            Some(TimestampType::DateTime(v.0, v.1))
        },
    }
}

/// Classifies a raw due-date string by its sentinel shape, given the local
/// date and time parsed from it.
pub fn classify(raw: &str, parsed: Option<(CalendarDate, TimeOfDay)>) -> (r: Option<TimestampType>)
    ensures
        r == classify_due(raw@, parsed),
{
    match parsed {
        None => None,
        Some(v) => if ends_with(raw, DATE_SENTINEL) {
            Some(TimestampType::Date(v.0))
        } else if starts_with(raw, TIME_SENTINEL) {
            Some(TimestampType::Time(v.1))
        } else {
            Some(TimestampType::DateTime(v.0, v.1))
        },
    }
}

/// The due date that a raw string from the backend encodes; `None` where
/// chrono does not read it as RFC 3339.
pub open spec fn due_of(raw: Seq<char>) -> Option<TimestampType> {
    classify_due(raw, parsed_moment(rfc3339_local(raw)))
}

/// Parses and classifies a raw due-date string.
pub fn parse_due(raw: &str) -> (r: Option<TimestampType>)
    ensures
        r == due_of(raw@),
        r matches Some(t) ==> t.wf(),
{
    let parsed = parse_local(raw);
    classify(raw, parsed)
}

} // verus!
