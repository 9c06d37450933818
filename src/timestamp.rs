use vstd::prelude::*;

use crate::text::{digits_of, parse_digits, split_char, split_on};

verus! {

/// A point in time with millisecond precision.
#[derive(Debug, Clone, Copy, PartialEq, Eq, Structural)]
pub struct Timestamp {
    pub year: i32,
    pub month: u32,
    pub day: u32,
    pub hour: u32,
    pub minute: u32,
    pub second: u32,
    pub millisecond: u32,
}

/// The year that log timestamps, which carry none, are read in unless the
/// caller names another.
pub const DEFAULT_YEAR: i32 = 2024;

pub open spec fn is_leap_year(y: int) -> bool {
    (y % 4 == 0 && y % 100 != 0) || y % 400 == 0
}

pub open spec fn days_in_month(y: int, m: int) -> int {
    if m == 2 {
        if is_leap_year(y) {
            29
        } else {
            28
        }
    } else if m == 4 || m == 6 || m == 9 || m == 11 {
        30
    } else {
        31
    }
}

/// The calendar has the day `d` of month `m` of year `y`.
pub open spec fn date_exists(y: int, m: int, d: int) -> bool {
    1 <= m <= 12 && 1 <= d <= days_in_month(y, m)
}

/// Relies on `chrono::NaiveDate::from_ymd_opt`, which gives a date exactly
/// when the month is 1 to 12 and the day lies within that month, for years
/// inside chrono's range (which holds 1 to 9999).
#[verifier::external_body]
fn calendar_date_exists(year: i32, month: u32, day: u32) -> (r: bool)
    requires
        1 <= year <= 9999,
    ensures
        r == date_exists(year as int, month as int, day as int),
{
    chrono::NaiveDate::from_ymd_opt(year, month, day).is_some()
}

/// Relies on `chrono::NaiveTime::from_hms_milli_opt`, which gives a time
/// exactly when the hour is below 24, the minute and second below 60 (for a
/// millisecond below 1000).
#[verifier::external_body]
fn time_of_day_exists(hour: u32, minute: u32, second: u32, milli: u32) -> (r: bool)
    requires
        milli < 1000,
    ensures
        r == (hour < 24 && minute < 60 && second < 60),
{
    chrono::NaiveTime::from_hms_milli_opt(hour, minute, second, milli).is_some()
}

/// One or two decimal digits.
pub open spec fn short_number(s: Seq<char>) -> Option<nat> {
    if s.len() <= 2 {
        digits_of(s, 10, 99)
    } else {
        None
    }
}

/// Exactly three decimal digits.
pub open spec fn millis_number(s: Seq<char>) -> Option<nat> {
    if s.len() == 3 {
        digits_of(s, 10, 999)
    } else {
        None
    }
}

/// The pieces of a timestamp text `M/D H:M:S.mmm`: month, day, hour, minute,
/// second and millisecond text, where the text has that shape.
pub open spec fn timestamp_pieces(t: Seq<char>) -> Option<Seq<Seq<char>>> {
    let halves = split_on(t, ' ');
    let md = split_on(halves[0], '/');
    let hms = split_on(halves[1], ':');
    let sf = split_on(hms[2], '.');
    if halves.len() == 2 && md.len() == 2 && hms.len() == 3 && sf.len() == 2 {
        Some(seq![md[0], md[1], hms[0], hms[1], sf[0], sf[1]])
    } else {
        None
    }
}

/// The timestamp that the text `t` writes in year `y`, where it writes a
/// time that exists.
pub open spec fn timestamp_of(t: Seq<char>, y: i32) -> Option<Timestamp> {
    match timestamp_pieces(t) {
        Some(p) => {
            if short_number(p[0]) is Some && short_number(p[1]) is Some && short_number(p[2]) is Some
                && short_number(p[3]) is Some && short_number(p[4]) is Some && millis_number(p[5])
                is Some && 1 <= y <= 9999 && date_exists(
                y as int,
                short_number(p[0]).unwrap() as int,
                short_number(p[1]).unwrap() as int,
            ) && short_number(p[2]).unwrap() < 24 && short_number(p[3]).unwrap() < 60
                && short_number(p[4]).unwrap() < 60 {
                Some(
                    Timestamp {
                        year: y,
                        month: short_number(p[0]).unwrap() as u32,
                        day: short_number(p[1]).unwrap() as u32,
                        hour: short_number(p[2]).unwrap() as u32,
                        minute: short_number(p[3]).unwrap() as u32,
                        second: short_number(p[4]).unwrap() as u32,
                        millisecond: millis_number(p[5]).unwrap() as u32,
                    },
                )
            } else {
                None
            }
        },
        None => None,
    }
}

fn short(s: &str) -> (r: Option<u32>)
    ensures
        r == (match short_number(s@) {
            Some(v) => Some(v as u32),
            None => None::<u32>,
        }),
{
    if s.unicode_len() > 2 {
        return None;
    }
    match parse_digits(s, 10, 99) {
        Some(v) => Some(v as u32),
        None => None,
    }
}

fn millis(s: &str) -> (r: Option<u32>)
    ensures
        r == (match millis_number(s@) {
            Some(v) => Some(v as u32),
            None => None::<u32>,
        }),
{
    if s.unicode_len() != 3 {
        return None;
    }
    match parse_digits(s, 10, 999) {
        Some(v) => Some(v as u32),
        None => None,
    }
}

impl Timestamp {
    /// The moment that stands for a line that carries no time.
    pub fn placeholder() -> (r: Timestamp)
        ensures
            r == (Timestamp {
                year: DEFAULT_YEAR,
                month: 1,
                day: 1,
                hour: 0,
                minute: 0,
                second: 0,
                millisecond: 0,
            }),
    {
        Timestamp {
            year: DEFAULT_YEAR,
            month: 1,
            day: 1,
            hour: 0,
            minute: 0,
            second: 0,
            millisecond: 0,
        }
    }

    /// Reads a timestamp text `M/D H:M:S.mmm` in the year `year`.
    pub fn parse(text: &str, year: i32) -> (r: Option<Timestamp>)
        ensures
            r == timestamp_of(text@, year),
    {
        let halves = split_char(text, ' ');
        if halves.len() != 2 {
            return None;
        }
        let md = split_char(halves[0], '/');
        let hms = split_char(halves[1], ':');
        if md.len() != 2 || hms.len() != 3 {
            return None;
        }
        let sf = split_char(hms[2], '.');
        if sf.len() != 2 {
            return None;
        }
        let ghost p = timestamp_pieces(text@).unwrap();
        assert(md[0]@ == p[0] && md[1]@ == p[1] && hms[0]@ == p[2] && hms[1]@ == p[3] && sf[0]@
            == p[4] && sf[1]@ == p[5]);
        let month = match short(md[0]) {
            Some(v) => v,
            None => {
                return None;
            },
        };
        let day = match short(md[1]) {
            Some(v) => v,
            None => {
                return None;
            },
        };
        let hour = match short(hms[0]) {
            Some(v) => v,
            None => {
                return None;
            },
        };
        let minute = match short(hms[1]) {
            Some(v) => v,
            None => {
                return None;
            },
        };
        let second = match short(sf[0]) {
            Some(v) => v,
            None => {
                return None;
            },
        };
        let millisecond = match millis(sf[1]) {
            Some(v) => v,
            None => {
                return None;
            },
        };
        if year < 1 || year > 9999 {
            return None;
        }
        if !calendar_date_exists(year, month, day) {
            return None;
        }
        if !time_of_day_exists(hour, minute, second, millisecond) {
            return None;
        }
        Some(Timestamp { year, month, day, hour, minute, second, millisecond })
    }
}

} // verus!
