//! Calendar dates and the conversion from a day count to a calendar date.
//!
//! A date column stores each cell as a number of days since 1970-01-01
//! (negative for earlier dates).  Decoding such a cell means recovering the
//! proleptic Gregorian year, month and day for that day count; the host
//! later builds its own local-midnight instant from those three numbers.

use vstd::prelude::*;

verus! {

/// A proleptic Gregorian calendar date: one-indexed month and day.
#[derive(Clone, Copy, PartialEq, Eq, Structural, Debug)]
pub struct CalendarDate {
    pub year: i32,
    pub month: u8,
    pub day: u8,
}

/// A year is a leap year iff it is divisible by 4 but not by 100,
/// or divisible by 400.
pub open spec fn is_leap_year(y: int) -> bool {
    y % 4 == 0 && (y % 100 != 0 || y % 400 == 0)
}

pub open spec fn days_in_month(y: int, m: int) -> int {
    if m == 2 {
        if is_leap_year(y) {
            29
        } else {
            28
        }
    } else if m == 4 || m == 6 || m == 9 || m == 11 {
        30
    } else {
        31
    }
}

/// A well-formed calendar date, within the years a date column can decode to.
pub open spec fn valid_date(y: int, m: int, d: int) -> bool {
    &&& -262143 <= y <= 262142
    &&& 1 <= m <= 12
    &&& 1 <= d <= days_in_month(y, m)
}

/// The number of days from 1970-01-01 to the date `y`-`m`-`d`, negative for
/// earlier dates.  The shifted year `yy` starts in March so that the leap
/// day is the last day of its year; `era` is a 400-year cycle of 146097
/// days; `doy` maps March..February to 0..364/365 by the five-month pattern
/// 31 30 31 30 31; 719468 is the day count of 1970-01-01 in this reckoning.
pub open spec fn days_of_date(y: int, m: int, d: int) -> int {
    let yy = if m <= 2 {
        y - 1
    } else {
        y
    };
    let era = yy / 400;
    let yoe = yy - era * 400;
    let mp = if m > 2 {
        m - 3
    } else {
        m + 9
    };
    let doy = (153 * mp + 2) / 5 + d - 1;
    let doe = yoe * 365 + yoe / 4 - yoe / 100 + doy;
    era * 146097 + doe - 719468
}

/// The day counts whose calendar date has a year between -262143 and
/// 262142: `days_of_date(-262143, 1, 1)` to `days_of_date(262142, 12, 31)`.
pub open spec fn date_in_range(days: int) -> bool {
    -96465292 <= days <= 95026236
}

/// Relies on `chrono::NaiveDate::from_num_days_from_ce_opt`, which turns a
/// day number in the proleptic Gregorian calendar — day 1 being 0001-01-01,
/// so day `days_of_date(y, m, d) + 719163` being `y`-`m`-`d` — into a date,
/// returning `None` exactly when the date falls outside chrono's year range
/// -262143..=262142; and on `chrono::Datelike`'s `year`, `month` and `day`,
/// which read the date back with the month and day one-indexed.
#[verifier::external_body]
fn civil_from_ce_days(ce: i32) -> (r: Option<(i32, u32, u32)>)
    ensures
        r is Some <==> -95746129 <= ce <= 95745399,
        r matches Some(t) ==> valid_date(t.0 as int, t.1 as int, t.2 as int)
            && days_of_date(t.0 as int, t.1 as int, t.2 as int) == ce - 719163,
{
    match chrono::NaiveDate::from_num_days_from_ce_opt(ce) {
        Some(d) => Some((chrono::Datelike::year(&d), chrono::Datelike::month(&d),
            chrono::Datelike::day(&d))),
        None => None,
    }
}

/// The calendar date `days` days after 1970-01-01 (before, for negative
/// `days`), or `None` when the year would fall outside -262143..=262142.
pub fn date_from_epoch_days(days: i32) -> (r: Option<CalendarDate>)
    ensures
        r is Some <==> date_in_range(days as int),
        r matches Some(d) ==> valid_date(d.year as int, d.month as int, d.day as int)
            && days_of_date(d.year as int, d.month as int, d.day as int) == days as int,
{
    let ce: i64 = days as i64 + 719163;
    if -95746129 <= ce && ce <= 95745399 {
        match civil_from_ce_days(ce as i32) {
            Some((y, m, d)) => Some(CalendarDate { year: y, month: m as u8, day: d as u8 }),
            None => vstd::pervasive::unreached(),
        }
    } else {
        None
    }
}

} // verus!
