//! The clock and the calendar, from chrono. What these calls give depends
//! on the time and on the machine's time zone: the contracts say only what
//! holds whatever they give.
use chrono::{DateTime, Local, MappedLocalTime, NaiveDate, Utc};
use vstd::prelude::*;

use crate::cli::text::{digit_char, natural_text};

verus! {

/// `DateTime::from_timestamp(secs, 0)` gives an instant: `secs` seconds
/// after 1970-01-01 00:00 UTC lie within chrono's range of dates, from
/// -262143-01-01 00:00:00 to 262142-12-31 23:59:59 UTC.
pub open spec fn representable_timestamp(secs: int) -> bool {
    -8_334_601_228_800 <= secs <= 8_210_266_876_799
}

/// `DateTime::from_timestamp_millis(millis)` gives an instant: its whole
/// seconds (rounded toward the past) are representable.
pub open spec fn representable_millis(millis: int) -> bool {
    representable_timestamp(millis / 1000)
}

/// Whether `y` is a leap year of the proleptic Gregorian calendar.
pub open spec fn leap_year(y: int) -> bool {
    y % 4 == 0 && (y % 100 != 0 || y % 400 == 0)
}

/// The number of days of month `m` of year `y`.
pub open spec fn month_length(y: int, m: int) -> int {
    if m == 2 {
        if leap_year(y) {
            29
        } else {
            28
        }
    } else if m == 4 || m == 6 || m == 9 || m == 11 {
        30
    } else {
        31
    }
}

/// The days of year `y` before the first of month `m`.
pub open spec fn days_before_month(y: int, m: int) -> int
    decreases m,
{
    if m <= 1 {
        0
    } else {
        days_before_month(y, m - 1) + month_length(y, m - 1)
    }
}

/// A date of the proleptic Gregorian calendar.
pub open spec fn valid_date(y: int, m: int, d: int) -> bool {
    1 <= m <= 12 && 1 <= d <= month_length(y, m)
}

/// The day of the date `y-m-d`, counted from 1970-01-01.
pub open spec fn epoch_day(y: int, m: int, d: int) -> int {
    let p = y - 1;
    365 * p + p / 4 - p / 100 + p / 400 + days_before_month(y, m) + d - 719_163
}

/// The instant of the calendar reading `y-m-d h:mi:s`, in seconds from
/// 1970-01-01 00:00:00 of the same calendar.
pub open spec fn civil_seconds(y: int, m: int, d: int, h: int, mi: int, s: int) -> int {
    epoch_day(y, m, d) * 86400 + h * 3600 + mi * 60 + s
}

/// A calendar reading: a date and a time of day.
pub open spec fn valid_reading(y: int, m: int, d: int, h: int, mi: int, s: int) -> bool {
    valid_date(y, m, d) && 0 <= h < 24 && 0 <= mi < 60 && 0 <= s < 60
}

/// `n` with leading zeros up to four digits.
pub open spec fn four_digits(n: nat) -> Seq<char> {
    let t = natural_text(n);
    if t.len() >= 4 {
        t
    } else {
        Seq::new((4 - t.len()) as nat, |i: int| '0') + t
    }
}

/// A year as chrono's `%Y` writes it: four digits or more, with a sign
/// outside 0 to 9999.
pub open spec fn year_text(y: int) -> Seq<char> {
    if 0 <= y <= 9999 {
        four_digits(y as nat)
    } else if y < 0 {
        seq!['-'] + four_digits((-y) as nat)
    } else {
        seq!['+'] + four_digits(y as nat)
    }
}

/// A number below 100 in two digits (`%m`, `%d`, `%H`, `%M`, `%S`).
pub open spec fn two_digits(v: int) -> Seq<char> {
    seq![digit_char(v / 10), digit_char(v % 10)]
}

/// The date `y-m-d` as `%Y-%m-%d` writes it.
pub open spec fn date_text(y: int, m: int, d: int) -> Seq<char> {
    year_text(y) + seq!['-'] + two_digits(m) + seq!['-'] + two_digits(d)
}

/// The reading `y-m-d h:mi:s` as `%Y-%m-%d %H:%M:%S` writes it.
pub open spec fn date_time_text(y: int, m: int, d: int, h: int, mi: int, s: int) -> Seq<char> {
    date_text(y, m, d) + seq![' '] + two_digits(h) + seq![':'] + two_digits(mi) + seq![':']
        + two_digits(s)
}

/// `text` is how the wall clock of some time zone reads the instant `secs`
/// (seconds from 1970-01-01 00:00:00 UTC), written in the form of
/// `pattern`: the calendar reading of `secs` plus the zone's offset from
/// UTC, which chrono keeps under a day in either direction.
pub open spec fn local_reading(secs: int, pattern: TimePattern, text: Seq<char>) -> bool {
    exists|y: int, m: int, d: int, h: int, mi: int, s: int|
        #![trigger civil_seconds(y, m, d, h, mi, s)]
        valid_reading(y, m, d, h, mi, s) && -86400 < civil_seconds(y, m, d, h, mi, s) - secs < 86400
            && text == match pattern {
            TimePattern::DateAndTime => date_time_text(y, m, d, h, mi, s),
            TimePattern::Date => date_text(y, m, d),
        }
}

/// Whether `DateTime::from_timestamp(secs, 0)` gives an instant. It gives
/// none when the day, counted from the common era, leaves `i32` (the first
/// test in its source) or the year leaves chrono's range (-262143 to 262142,
/// checked by `NaiveDate::from_num_days_from_ce_opt`).
#[verifier::external_body]
pub(crate) fn timestamp_representable(secs: i64) -> (res: bool)
    ensures
        res == representable_timestamp(secs as int),
{
    DateTime::from_timestamp(secs, 0).is_some()
}

/// Whether `DateTime::from_timestamp_millis(millis)` gives an instant.
#[verifier::external_body]
pub(crate) fn millis_representable(millis: i64) -> (res: bool)
    ensures
        res == representable_millis(millis as int),
{
    DateTime::from_timestamp_millis(millis).is_some()
}

/// `(Utc::now() - DateTime::from_timestamp(secs, 0)).num_seconds()`: the
/// whole seconds from the instant `secs` until now, rounded toward zero.
/// Nothing is stated of the value, which depends on the clock.
#[verifier::external_body]
pub(crate) fn seconds_since(secs: i64) -> (res: i64)
    requires
        representable_timestamp(secs as int),
{
    (Utc::now() - DateTime::from_timestamp(secs, 0).unwrap()).num_seconds()
}

/// The chrono formats in which the command line writes local times.
#[derive(Debug, Clone, Copy, PartialEq, Eq, Structural)]
pub enum TimePattern {
    /// `%Y-%m-%d %H:%M:%S`
    DateAndTime,
    /// `%Y-%m-%d`
    Date,
}

/// The instant `secs` in the local time zone, written in the format of
/// `pattern` (`with_timezone(&Local).format(..)`). Which time zone is
/// left open: the text is the calendar reading of `secs` shifted by some
/// offset of less than a day (a `FixedOffset` lies strictly between -86400
/// and 86400 seconds), as `%Y`, `%m`, `%d`, `%H`, `%M` and `%S` write it.
#[verifier::external_body]
pub(crate) fn local_text(secs: i64, pattern: TimePattern) -> (res: String)
    requires
        representable_timestamp(secs as int),
    ensures
        local_reading(secs as int, pattern, res@),
{
    let format = match pattern {
        TimePattern::DateAndTime => "%Y-%m-%d %H:%M:%S",
        TimePattern::Date => "%Y-%m-%d",
    };
    DateTime::from_timestamp(secs, 0).unwrap().with_timezone(&Local).format(format).to_string()
}

/// The instant `millis` in the local time zone, written in the format of
/// `pattern`. As with `local_text`, the time zone is left open: the text is
/// the reading of its whole seconds (rounded toward the past) shifted by
/// an offset of less than a day.
#[verifier::external_body]
pub(crate) fn local_text_of_millis(millis: i64, pattern: TimePattern) -> (res: String)
    requires
        representable_millis(millis as int),
    ensures
        local_reading(millis as int / 1000, pattern, res@),
{
    let format = match pattern {
        TimePattern::DateAndTime => "%Y-%m-%d %H:%M:%S",
        TimePattern::Date => "%Y-%m-%d",
    };
    DateTime::from_timestamp_millis(millis).unwrap().with_timezone(&Local).format(format).to_string()
}

/// `Utc::now().timestamp_millis()`: milliseconds since 1970-01-01 00:00 UTC.
#[verifier::external_body]
pub(crate) fn utc_now_millis() -> (res: i64) {
    Utc::now().timestamp_millis()
}

/// `Local::now().timestamp_millis()`: milliseconds since 1970-01-01 00:00 UTC.
#[verifier::external_body]
pub(crate) fn local_now_millis() -> (res: i64) {
    Local::now().timestamp_millis()
}

/// `Local::now().date_naive().to_epoch_days()`: today's date on the local
/// calendar, as days since 1970-01-01.
#[verifier::external_body]
pub(crate) fn local_today() -> (res: i32) {
    Local::now().date_naive().to_epoch_days()
}

/// The instant at which the local wall clock reads `hour:minute:second` on
/// the day `day` (days since 1970-01-01), in milliseconds since the epoch:
/// `NaiveDate::from_epoch_days(day)`, `and_hms_opt`, then
/// `and_local_timezone(Local)`. `Err(None)` when the date or the time does
/// not exist or when the time zone maps that wall clock reading to no
/// instant; `Err(Some((a, b)))` when it maps it to two, `a` and `b` written
/// with `{:?}`. The contract states only that a time of day with an hour
/// past 23, or a minute or a second past 59, gives `Err(None)`
/// (`NaiveTime::from_hms_opt` refuses it); nothing is stated of the value,
/// which depends on the time zone.
#[verifier::external_body]
pub(crate) fn local_instant_millis(day: i32, hour: u32, minute: u32, second: u32) -> (res: Result<
    i64,
    Option<(String, String)>,
>)
    ensures
        hour >= 24 || minute >= 60 || second >= 60 ==> res is Err && res->Err_0 is None,
{
    let Some(date) = NaiveDate::from_epoch_days(day) else { return Err(None) };
    let Some(at) = date.and_hms_opt(hour, minute, second) else { return Err(None) };
    match at.and_local_timezone(Local) {
        MappedLocalTime::Single(t) => Ok(t.timestamp_millis()),
        MappedLocalTime::None => Err(None),
        MappedLocalTime::Ambiguous(a, b) => Err(Some((format!("{:?}", a), format!("{:?}", b)))),
    }
}

} // verus!
