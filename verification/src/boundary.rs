//! The month and year that a date counts under: a month begins on its fourth
//! day, and January still belongs to the year before.

use vstd::prelude::*;

verus! {

/// Whether a day falls before the day on which its month begins.
pub open spec fn before_month_start(day: int) -> bool {
    day < 4
}

/// The month that a date counts under: the month before for a day before the
/// fourth, with month 12 before month 1 and before anything below it.
pub open spec fn effective_month(month: int, day: int) -> int {
    if before_month_start(day) {
        if month - 1 < 1 {
            12
        } else {
            month - 1
        }
    } else {
        month
    }
}

/// The year that a date counts under: the year before where the month before
/// month 1 is taken, and for the rest of month 1.
pub open spec fn effective_year(year: int, month: int, day: int) -> int {
    if before_month_start(day) {
        if month - 1 < 1 {
            year - 1
        } else {
            year
        }
    } else if month == 1 {
        year - 1
    } else {
        year
    }
}

/// Computes the year and the month that a date counts under. The year comes
/// in 64 bits, so that the year before any year can be given.
pub fn effective_year_month(year: i32, month: i32, day: i32) -> (r: (i64, i32))
    ensures
        r.0 == effective_year(year as int, month as int, day as int),
        r.1 == effective_month(month as int, day as int),
{
    if day < 4 {
        if month <= 1 {
            (year as i64 - 1, 12)
        } else {
            (year as i64, month - 1)
        }
    } else if month == 1 {
        (year as i64 - 1, month)
    } else {
        (year as i64, month)
    }
}

/// A month from 1 to 12 counts under a month from 1 to 12, whatever the day,
/// and a date counts under its own year or the one before.
pub proof fn lemma_effective_date_stays_close(year: int, month: int, day: int)
    ensures
        1 <= month <= 12 ==> 1 <= effective_month(month, day) <= 12,
        effective_year(year, month, day) == year || effective_year(year, month, day) == year - 1,
{
}

} // verus!
