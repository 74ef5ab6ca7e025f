//! Renders due dates as short text with an urgency class, either as a
//! calendar date or relative to the present moment.
use vstd::prelude::*;
use crate::task::{Status, Task};
use crate::text::{decimal, decimal_text};
use crate::timestamps::{
    calendar_days_between, clock_minutes_between, clock_text, date_text, days_between, iso_date,
    minutes_between, moment_days, moment_days_between, moment_fields, now_utc, CalendarDate,
    TimeOfDay, TimestampType, Urgency,
};

verus! {

/// How the backend writes the (absent) date of a time of day.
pub const EPOCH_ZERO_DATE: &'static str = "0000-00-00";

/// Urgency by sign: past is overdue, zero is due now, future is upcoming.
pub open spec fn urgency_of(diff: int) -> Urgency {
    if diff < 0 {
        Urgency::Overdue
    } else if diff == 0 {
        Urgency::DueNow
    } else {
        Urgency::Upcoming
    }
}

/// Orders urgencies from most to least pressing.
pub open spec fn urgency_rank(u: Urgency) -> int {
    match u {
        Urgency::Overdue => 0,
        Urgency::DueNow => 1,
        Urgency::Upcoming => 2,
        Urgency::Plain => 3,
    }
}

/// A later due date is never more pressing than an earlier one.
pub proof fn lemma_urgency_monotonic(a: int, b: int)
    requires
        a <= b,
    ensures
        urgency_rank(urgency_of(a)) <= urgency_rank(urgency_of(b)),
{
}

/// The phrase for a difference of `d` whole days.
pub open spec fn day_phrase(d: int) -> Seq<char> {
    if d <= -14 {
        decimal((-d / 7) as nat) + " weeks ago"@
    } else if d <= -7 {
        "1 week ago"@
    } else if d <= -2 {
        decimal((-d) as nat) + " days ago"@
    } else if d == -1 {
        "yesterday"@
    } else if d == 0 {
        "today"@
    } else if d == 1 {
        "tomorrow"@
    } else if d <= 6 {
        "in "@ + decimal(d as nat) + " days"@
    } else if d <= 13 {
        "in 1 week"@
    } else {
        "in "@ + decimal((d / 7) as nat) + " weeks"@
    }
}

/// The phrase for a difference of `m` whole minutes.
pub open spec fn minute_phrase(m: int) -> Seq<char> {
    if m <= -120 {
        decimal((-m / 60) as nat) + " hours ago"@
    } else if m <= -60 {
        "1 hour ago"@
    } else if m <= -2 {
        decimal((-m) as nat) + " minutes ago"@
    } else if m == -1 {
        "1 minute ago"@
    } else if m == 0 {
        "now"@
    } else if m == 1 {
        "in 1 minute"@
    } else if m <= 59 {
        "in "@ + decimal(m as nat) + " minutes"@
    } else if m <= 119 {
        "in 1 hour"@
    } else {
        "in "@ + decimal((m / 60) as nat) + " hours"@
    }
}

pub open spec fn day_bucket(d: int) -> (Seq<char>, Urgency) {
    (day_phrase(d), urgency_of(d))
}

pub open spec fn minute_bucket(m: int) -> (Seq<char>, Urgency) {
    (minute_phrase(m), urgency_of(m))
}

/// The relative rendering of `ts` at the moment `now` (a UTC date and time).
pub open spec fn relative_spec(ts: TimestampType, now: (CalendarDate, TimeOfDay)) -> (Seq<char>, Urgency) {
    match ts {
        TimestampType::Date(d) => day_bucket(calendar_days_between(d.fields(), now.0.fields())),
        TimestampType::Time(t) => minute_bucket(clock_minutes_between(t.fields(), now.1.fields())),
        TimestampType::DateTime(d, t) => if moment_days_between(
            moment_fields(d, t),
            moment_fields(now.0, now.1),
        ) != 0 {
            day_bucket(calendar_days_between(d.fields(), now.0.fields()))
        } else {
            minute_bucket(clock_minutes_between(t.fields(), now.1.fields()))
        },
    }
}

/// The absolute rendering: the calendar date, for every shape.
pub open spec fn absolute_spec(ts: TimestampType) -> Seq<char> {
    match ts {
        TimestampType::Date(d) => iso_date(d),
        TimestampType::Time(_) => EPOCH_ZERO_DATE@,
        TimestampType::DateTime(d, _) => iso_date(d),
    }
}

fn magnitude(x: i64) -> (r: u64)
    ensures
        r as int == if x < 0 { -x } else { x as int },
{
    if x < 0 {
        (-(x as i128)) as u64
    } else {
        x as u64
    }
}

fn urgency(diff: i64) -> (r: Urgency)
    ensures
        r == urgency_of(diff as int),
{
    if diff < 0 {
        Urgency::Overdue
    } else if diff == 0 {
        Urgency::DueNow
    } else {
        Urgency::Upcoming
    }
}

fn counted(prefix: &str, n: u64, suffix: &str) -> (r: String)
    ensures
        r@ == prefix@ + decimal(n as nat) + suffix@,
{
    let mut s = String::from_str(prefix);
    let digits = decimal_text(n);
    s.append(digits.as_str());
    s.append(suffix);
    s
}

/// Buckets a difference of whole days into a phrase and an urgency.
pub fn relative_days(days: i64) -> (r: (String, Urgency))
    ensures
        r.0@ == day_phrase(days as int),
        r.1 == urgency_of(days as int),
{
    proof {
        reveal_strlit("");
    }
    let n = magnitude(days);
    let text = if days <= -14 {
        counted("", n / 7, " weeks ago")
    } else if days <= -7 {
        String::from_str("1 week ago")
    } else if days <= -2 {
        counted("", n, " days ago")
    } else if days == -1 {
        String::from_str("yesterday")
    } else if days == 0 {
        String::from_str("today")
    } else if days == 1 {
        String::from_str("tomorrow")
    } else if days <= 6 {
        counted("in ", n, " days")
    } else if days <= 13 {
        String::from_str("in 1 week")
    } else {
        counted("in ", n / 7, " weeks")
    };
    proof {
        if days <= -14 || (-2 >= days && days > -7) {
            assert(""@ + decimal(n as nat / 7) =~= decimal(n as nat / 7));
            assert(""@ + decimal(n as nat) =~= decimal(n as nat));
        }
    }
    (text, urgency(days))
}

/// Buckets a difference of whole minutes into a phrase and an urgency.
pub fn relative_minutes(minutes: i64) -> (r: (String, Urgency))
    ensures
        r.0@ == minute_phrase(minutes as int),
        r.1 == urgency_of(minutes as int),
{
    proof {
        reveal_strlit("");
    }
    let n = magnitude(minutes);
    let text = if minutes <= -120 {
        counted("", n / 60, " hours ago")
    } else if minutes <= -60 {
        String::from_str("1 hour ago")
    } else if minutes <= -2 {
        counted("", n, " minutes ago")
    } else if minutes == -1 {
        String::from_str("1 minute ago")
    } else if minutes == 0 {
        String::from_str("now")
    } else if minutes == 1 {
        String::from_str("in 1 minute")
    } else if minutes <= 59 {
        counted("in ", n, " minutes")
    } else if minutes <= 119 {
        String::from_str("in 1 hour")
    } else {
        counted("in ", n / 60, " hours")
    };
    proof {
        if minutes <= -120 || (-2 >= minutes && minutes > -60) {
            assert(""@ + decimal(n as nat / 60) =~= decimal(n as nat / 60));
            assert(""@ + decimal(n as nat) =~= decimal(n as nat));
        }
    }
    (text, urgency(minutes))
}

/// Renders `timestamp` as its calendar date (`YYYY-MM-DD`), with no urgency.
pub fn absolute(timestamp: &TimestampType) -> (r: (String, Urgency))
    requires
        timestamp.wf(),
    ensures
        r.0@ == absolute_spec(*timestamp),
        r.1 == Urgency::Plain,
{
    match timestamp {
        TimestampType::Date(date) => (date_text(*date), Urgency::Plain),
        TimestampType::Time(_) => (String::from_str(EPOCH_ZERO_DATE), Urgency::Plain),
        TimestampType::DateTime(date, _) => (date_text(*date), Urgency::Plain),
    }
}

fn relative_date(date: CalendarDate, today: CalendarDate) -> (r: (String, Urgency))
    requires
        date.wf(),
        today.wf(),
    ensures
        (r.0@, r.1) == day_bucket(calendar_days_between(date.fields(), today.fields())),
{
    relative_days(days_between(date, today))
}

fn relative_time(time: TimeOfDay, now: TimeOfDay) -> (r: (String, Urgency))
    requires
        time.wf(),
        now.wf(),
    ensures
        (r.0@, r.1) == minute_bucket(clock_minutes_between(time.fields(), now.fields())),
{
    relative_minutes(minutes_between(time, now))
}

fn relative_datetime(date: CalendarDate, time: TimeOfDay, now: (CalendarDate, TimeOfDay)) -> (r: (
    String,
    Urgency,
))
    requires
        date.wf(),
        time.wf(),
        now.0.wf(),
        now.1.wf(),
    ensures
        (r.0@, r.1) == relative_spec(TimestampType::DateTime(date, time), now),
{
    if moment_days((date, time), now) != 0 {
        relative_date(date, now.0)
    } else {
        relative_time(time, now.1)
    }
}

/// Renders `timestamp` relative to the moment `now` (UTC): by whole days
/// where they differ, else by whole minutes.
pub fn relative_to(timestamp: &TimestampType, now: (CalendarDate, TimeOfDay)) -> (r: (
    String,
    Urgency,
))
    requires
        timestamp.wf(),
        now.0.wf(),
        now.1.wf(),
    ensures
        (r.0@, r.1) == relative_spec(*timestamp, now),
{
    match timestamp {
        TimestampType::Date(date) => relative_date(*date, now.0),
        TimestampType::Time(time) => relative_time(*time, now.1),
        TimestampType::DateTime(date, time) => relative_datetime(*date, *time, now),
    }
}

/// Renders `timestamp` relative to the present moment.
pub fn relative(timestamp: &TimestampType) -> (r: (String, Urgency))
    requires
        timestamp.wf(),
    ensures
        exists|now: (CalendarDate, TimeOfDay)|
            now.0.wf() && now.1.wf() && (r.0@, r.1) == #[trigger] relative_spec(*timestamp, now),
{
    let now = now_utc();
    relative_to(timestamp, now)
}

/// How a task's due date is shown: relative while the task is open,
/// absolute otherwise; nothing where it has none.
pub fn due_label(task: &Task) -> (r: Option<(String, Urgency)>)
    requires
        task.due matches Some(d) ==> d.wf(),
    ensures
        r is None <==> task.due is None,
        r matches Some(v) ==> (task.status == Status::Todo ==> exists|now: (CalendarDate, TimeOfDay)|
            now.0.wf() && now.1.wf() && (v.0@, v.1) == #[trigger] relative_spec(task.due->0, now)),
        r matches Some(v) ==> (task.status != Status::Todo ==> v.0@ == absolute_spec(task.due->0)
            && v.1 == Urgency::Plain),
{
    match &task.due {
        None => None,
        Some(due) => match task.status {
            Status::Todo => Some(relative(due)),
            _ => Some(absolute(due)),
        },
    }
}

/// The mark shown for a status.
pub fn status_mark(status: Status) -> (r: &'static str)
    ensures
        r@ == match status {
            Status::Todo => "\u{2610}"@,
            Status::Done => "\u{2611}"@,
            Status::Unknown => "?"@,
        },
{
    match status {
        Status::Todo => "\u{2610}",
        Status::Done => "\u{2611}",
        Status::Unknown => "?",
    }
}

} // verus!
