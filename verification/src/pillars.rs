//! The four pillar calculators: year, month, day and double-hour.

use vstd::prelude::*;
use vstd::arithmetic::div_mod::{lemma_mod_add_multiples_vanish, lemma_sub_mod_noop};
use crate::cycle::rem_euclid;
use crate::julian::{get_julian_day, julian_day, lemma_julian_day_advances};
use crate::symbols::Pillar;

verus! {

/// Stem position of a year: `year - 4` in the cycle of ten.
pub open spec fn year_stem_index(year: int) -> int {
    (year - 4) % 10
}

/// Branch position of a year: `year - 4` in the cycle of twelve.
pub open spec fn year_branch_index(year: int) -> int {
    (year - 4) % 12
}

/// The pillar of a year.
pub open spec fn year_pillar_of(year: int) -> Pillar {
    Pillar { stem: year_stem_index(year) as usize, branch: year_branch_index(year) as usize }
}

/// Branch position of a month: month 12 has branch 0, every other month,
/// month 1 too, its own number.
pub open spec fn month_branch_index(month: int) -> int {
    if month == 12 {
        0
    } else {
        month
    }
}

/// Stem of the first month of the cycle that a year's stem starts.
pub open spec fn month_start_stem(year: int) -> int {
    (year_stem_index(year) % 5) * 2 + 2
}

/// How far a month stands from the start of the month cycle, which is
/// month 2: months 12 and 1 come last.
pub open spec fn month_offset(month: int) -> int {
    if month == 1 {
        11
    } else if month == 12 {
        10
    } else {
        month - 2
    }
}

/// Stem position of a month of a year.
pub open spec fn month_stem_index(year: int, month: int) -> int {
    (month_start_stem(year) + month_offset(month)) % 10
}

/// The pillar of a month of a year, for months 1 to 12.
pub open spec fn month_pillar_of(year: int, month: int) -> Pillar
    recommends
        1 <= month <= 12,
{
    Pillar {
        stem: month_stem_index(year, month) as usize,
        branch: month_branch_index(month) as usize,
    }
}

/// Position of a day in the cycle of sixty, from its Julian Day Number.
pub open spec fn sexagenary_number(jdn: int) -> int {
    (jdn - 8) % 60
}

/// The pillar of a date: stem and branch are both read off the date's
/// position in the cycle of sixty.
pub open spec fn day_pillar_of(year: int, month: int, day: int) -> Pillar {
    let n = sexagenary_number(julian_day(year, month, day));
    Pillar { stem: (n % 10) as usize, branch: (n % 12) as usize }
}

/// Branch position of an hour: the double-hour that it falls in. Hours 23 and
/// 0 share the first one.
pub open spec fn time_branch_index(hour: int) -> int {
    ((hour + 1) / 2) % 12
}

/// Stem position of an hour on a day whose pillar has the given stem.
pub open spec fn time_stem_index(day_stem: int, hour: int) -> int {
    ((day_stem % 5) * 2 + time_branch_index(hour)) % 10
}

/// The pillar of an hour on a day whose pillar has the given stem.
pub open spec fn time_pillar_of(day_stem: int, hour: int) -> Pillar {
    Pillar {
        stem: time_stem_index(day_stem, hour) as usize,
        branch: time_branch_index(hour) as usize,
    }
}

/// Computes the pillar of a year. Every year, negative ones too, has one.
pub fn year_pillar(year: i64) -> (p: Pillar)
    ensures
        p == year_pillar_of(year as int),
        p.wf(),
{
    // The year is reduced before the four is taken off, so that no year
    // leaves the 64-bit range.
    let stem: i64 = rem_euclid(rem_euclid(year, 10) - 4, 10);
    let branch: i64 = rem_euclid(rem_euclid(year, 12) - 4, 12);
    proof {
        lemma_sub_mod_noop(year as int, 4, 10);
        lemma_sub_mod_noop(year as int, 4, 12);
    }
    Pillar { stem: stem as usize, branch: branch as usize }
}

/// Computes the pillar of a month of a year.
pub fn month_pillar(year: i64, month: i32) -> (p: Pillar)
    requires
        1 <= month <= 12,
    ensures
        p == month_pillar_of(year as int, month as int),
        p.wf(),
{
    let year_stem: i64 = rem_euclid(rem_euclid(year, 10) - 4, 10);
    proof {
        lemma_sub_mod_noop(year as int, 4, 10);
    }
    let start_stem: i64 = (year_stem % 5) * 2 + 2;
    let (branch, offset): (i64, i64) = if month == 1 {
        (1, 11)
    } else if month == 12 {
        (0, 10)
    } else {
        (month as i64, month as i64 - 2)
    };
    let stem: i64 = rem_euclid(start_stem + offset, 10);
    Pillar { stem: stem as usize, branch: branch as usize }
}

/// Computes the pillar of a date. The date is taken as it is written: no
/// field is held to a range.
pub fn day_pillar(year: i32, month: i32, day: i32) -> (p: Pillar)
    ensures
        p == day_pillar_of(year as int, month as int, day as int),
        p.wf(),
{
    let jdn: i64 = get_julian_day(year, month, day);
    let n: i64 = rem_euclid(jdn - 8, 60);
    Pillar { stem: (n % 10) as usize, branch: (n % 12) as usize }
}

/// Computes the pillar of an hour from the stem of the day's pillar. An hour
/// outside 0 to 23 wraps around the day.
pub fn time_pillar(day_stem_index: usize, hour: i32) -> (p: Pillar)
    ensures
        p == time_pillar_of(day_stem_index as int, hour as int),
        p.wf(),
{
    // Half of the hour after, rounded down also below zero: the odd one is
    // taken off first, so that the division is exact.
    let next: i64 = hour as i64 + 1;
    let half: i64 = (next - rem_euclid(next, 2)) / 2;
    let branch: usize = rem_euclid(half, 12) as usize;
    let start_stem: usize = (day_stem_index % 5) * 2;
    let stem: usize = (start_stem + branch) % 10;
    Pillar { stem, branch }
}

/// Writes the pillar of a year.
pub fn calculate_year_pillar(year: i32) -> (s: String)
    ensures
        s@ == year_pillar_of(year as int).text(),
        s@.len() == 2,
{
    year_pillar(year as i64).render()
}

/// Writes the pillar of a month of a year.
pub fn calculate_month_pillar(year: i32, month: i32) -> (s: String)
    requires
        1 <= month <= 12,
    ensures
        s@ == month_pillar_of(year as int, month as int).text(),
        s@.len() == 2,
{
    month_pillar(year as i64, month).render()
}

/// Writes the pillar of a date, and hands out the pillar's stem position,
/// which the hour's pillar is computed from.
pub fn calculate_day_pillar(year: i32, month: i32, day: i32) -> (r: (String, usize))
    ensures
        r.0@ == day_pillar_of(year as int, month as int, day as int).text(),
        r.0@.len() == 2,
        r.1 == day_pillar_of(year as int, month as int, day as int).stem,
        r.1 < 10,
{
    let p = day_pillar(year, month, day);
    (p.render(), p.stem)
}

/// Writes the pillar of an hour from the stem of the day's pillar.
pub fn calculate_time_pillar(day_stem_index: usize, hour: i32) -> (s: String)
    ensures
        s@ == time_pillar_of(day_stem_index as int, hour as int).text(),
        s@.len() == 2,
{
    time_pillar(day_stem_index, hour).render()
}

/// Every year's pillar lies inside the two cycles.
pub proof fn lemma_year_pillar_in_cycle(year: int)
    ensures
        0 <= year_stem_index(year) <= 9,
        0 <= year_branch_index(year) <= 11,
        year_pillar_of(year).wf(),
        year_pillar_of(year).stem == year_stem_index(year),
        year_pillar_of(year).branch == year_branch_index(year),
{
}

/// For months 1 to 12, every month's pillar lies inside the two cycles and is
/// written with exactly two characters.
pub proof fn lemma_month_pillar_in_cycle(year: int, month: int)
    requires
        1 <= month <= 12,
    ensures
        0 <= month_stem_index(year, month) <= 9,
        0 <= month_branch_index(month) <= 11,
        month_pillar_of(year, month).wf(),
        month_pillar_of(year, month).text().len() == 2,
{
}

/// Stem and branch of a day's pillar are the remainders by ten and by twelve
/// of one position in the cycle of sixty, so the pillar lies inside the two
/// cycles and is the same again sixty days later.
pub proof fn lemma_day_pillar_repeats(year: int, month: int, day: int)
    ensures
        0 <= sexagenary_number(julian_day(year, month, day)) < 60,
        day_pillar_of(year, month, day).stem == sexagenary_number(julian_day(year, month, day))
            % 10,
        day_pillar_of(year, month, day).branch == sexagenary_number(julian_day(year, month, day))
            % 12,
        day_pillar_of(year, month, day).wf(),
        day_pillar_of(year, month, day + 60) == day_pillar_of(year, month, day),
{
    let jdn = julian_day(year, month, day);
    assert(julian_day(year, month, day + 60) == jdn + 60) by {
        lemma_julian_day_advances(year, month, day, 60);
    }
    assert(sexagenary_number(jdn + 60) == sexagenary_number(jdn)) by {
        lemma_mod_add_multiples_vanish(jdn - 8, 60);
    }
}

/// Every hour's pillar lies inside the two cycles, whatever stem the day has,
/// also for an hour outside 0 to 23.
pub proof fn lemma_time_pillar_in_cycle(day_stem: int, hour: int)
    ensures
        0 <= time_stem_index(day_stem, hour) <= 9,
        0 <= time_branch_index(hour) <= 11,
        time_pillar_of(day_stem, hour).wf(),
{
}

/// The two hours of a double-hour share a branch: hours `2k - 1` and `2k`
/// both have branch `k` in the cycle of twelve.
pub proof fn lemma_double_hour(k: int)
    ensures
        time_branch_index(2 * k - 1) == k % 12,
        time_branch_index(2 * k) == k % 12,
{
}

} // verus!
