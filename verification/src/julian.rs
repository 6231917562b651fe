//! The Julian Day Number of a Gregorian calendar date.

use vstd::prelude::*;

verus! {

/// Quotient of `a` by a positive `b`, rounded toward zero.
pub open spec fn trunc_div(a: int, b: int) -> int
    recommends
        b > 0,
{
    if a >= 0 {
        a / b
    } else {
        -((-a) / b)
    }
}

/// The year that a month counts under: January and February belong to the
/// year before.
pub open spec fn shifted_year(year: int, month: int) -> int {
    if month < 3 {
        year - 1
    } else {
        year
    }
}

/// The month number after the shift: January and February become months 13
/// and 14.
pub open spec fn shifted_month(month: int) -> int {
    if month < 3 {
        month + 12
    } else {
        month
    }
}

/// The Gregorian leap correction of a shifted year: `2 - c + c / 4` for its
/// century `c`, both quotients rounded toward zero.
pub open spec fn gregorian_correction(shifted_year: int) -> int {
    let century = trunc_div(shifted_year, 100);
    2 - century + trunc_div(century, 4)
}

/// The Julian Day Number of a date: the whole part of `365.25 * (y + 4716)`
/// plus the whole part of `30.6001 * (m + 1)`, plus the day and the leap
/// correction, minus 1524, for the shifted year `y` and month `m`. No field is
/// held to a range.
pub open spec fn julian_day(year: int, month: int, day: int) -> int {
    let y = shifted_year(year, month);
    let m = shifted_month(month);
    trunc_div(1461 * (y + 4716), 4) + trunc_div(306001 * (m + 1), 10000) + day
        + gregorian_correction(y) - 1524
}

/// Computes the Julian Day Number of a date. Every input gives a value.
pub fn get_julian_day(year: i32, month: i32, day: i32) -> (jdn: i64)
    ensures
        jdn == julian_day(year as int, month as int, day as int),
{
    let (y, m): (i64, i64) = if month < 3 {
        (year as i64 - 1, month as i64 + 12)
    } else {
        (year as i64, month as i64)
    };
    let century: i64 = y / 100;
    let correction: i64 = 2 - century + century / 4;
    (1461 * (y + 4716)) / 4 + (306001 * (m + 1)) / 10000 + day as i64 + correction - 1524
}

/// The day number grows by exactly as many days as the day field does.
pub proof fn lemma_julian_day_advances(year: int, month: int, day: int, days: int)
    ensures
        julian_day(year, month, day + days) == julian_day(year, month, day) + days,
{
}

} // verus!
