//! From a date and a time, as text or as numbers, to the four pillars.

use vstd::prelude::*;
use vstd::string::*;
use crate::boundary::{effective_month, effective_year, effective_year_month};
use crate::fields::{
    field_or,
    glyphs_of,
    mark_numeric,
    numeric_runs,
    read_field,
    split_runs,
    texts,
    Glyph,
};
use crate::pillars::{
    day_pillar,
    day_pillar_of,
    month_pillar,
    month_pillar_of,
    time_pillar,
    time_pillar_of,
    year_pillar,
    year_pillar_of,
};
use crate::symbols::Pillar;

verus! {

/// The year taken where a date gives none that can be read.
pub const FALLBACK_YEAR: i32 = 2000;

/// The month taken where a date gives none that can be read.
pub const FALLBACK_MONTH: i32 = 1;

/// The day taken where a date gives none that can be read.
pub const FALLBACK_DAY: i32 = 1;

/// The hour taken where a time gives none that can be read.
pub const FALLBACK_HOUR: i32 = 12;

/// A date and an hour as they were given. No field is held to a range.
#[derive(Clone, Copy, Debug, PartialEq, Eq, Structural)]
pub struct CalendarInput {
    pub year: i32,
    pub month: i32,
    pub day: i32,
    pub hour: i32,
}

/// The pillars of the year, the month, the day and the hour.
#[derive(Clone, Copy, Debug, PartialEq, Eq, Structural)]
pub struct FourPillars {
    pub year: Pillar,
    pub month: Pillar,
    pub day: Pillar,
    pub time: Pillar,
}

/// What was asked and what was found: the two texts as they came, the four
/// pillars as text, and a line that names the two texts.
#[derive(Debug, PartialEq, Eq)]
pub struct Calculation {
    pub message: String,
    pub received_date: String,
    pub received_time: String,
    pub year_pillar: String,
    pub month_pillar: String,
    pub day_pillar: String,
    pub time_pillar: String,
}

/// The characters of each field of a `Calculation`.
pub ghost struct CalculationText {
    pub message: Seq<char>,
    pub received_date: Seq<char>,
    pub received_time: Seq<char>,
    pub year_pillar: Seq<char>,
    pub month_pillar: Seq<char>,
    pub day_pillar: Seq<char>,
    pub time_pillar: Seq<char>,
}

impl View for Calculation {
    type V = CalculationText;

    open spec fn view(&self) -> CalculationText {
        CalculationText {
            message: self.message@,
            received_date: self.received_date@,
            received_time: self.received_time@,
            year_pillar: self.year_pillar@,
            month_pillar: self.month_pillar@,
            day_pillar: self.day_pillar@,
            time_pillar: self.time_pillar@,
        }
    }
}

/// The date and hour that two marked texts give: year, month and day are the
/// first three numbers of the date, the hour is the first number of the time,
/// and a number that is missing or cannot be read is replaced by its fallback.
pub open spec fn input_of(date: Seq<Glyph>, time: Seq<Glyph>) -> CalendarInput {
    let date_runs = numeric_runs(date);
    let time_runs = numeric_runs(time);
    CalendarInput {
        year: field_or(date_runs, 0, FALLBACK_YEAR),
        month: field_or(date_runs, 1, FALLBACK_MONTH),
        day: field_or(date_runs, 2, FALLBACK_DAY),
        hour: field_or(time_runs, 0, FALLBACK_HOUR),
    }
}

/// Whether a date has pillars: the month that it counts under must be one of
/// the twelve.
pub open spec fn has_pillars(input: CalendarInput) -> bool {
    1 <= effective_month(input.month as int, input.day as int) <= 12
}

/// The four pillars of a date and hour. Year and month pillar are taken at
/// the year and month that the date counts under; the day pillar is taken at
/// the date as given, and the hour's pillar follows the day pillar's stem.
pub open spec fn pillars_of(input: CalendarInput) -> FourPillars {
    let year = effective_year(input.year as int, input.month as int, input.day as int);
    let month = effective_month(input.month as int, input.day as int);
    let day = day_pillar_of(input.year as int, input.month as int, input.day as int);
    FourPillars {
        year: year_pillar_of(year),
        month: month_pillar_of(year, month),
        day,
        time: time_pillar_of(day.stem as int, input.hour as int),
    }
}

/// The line that names the two texts.
pub open spec fn message_text(date: Seq<char>, time: Seq<char>) -> Seq<char> {
    "Fate for "@ + date + " "@ + time
}

/// What is reported for two texts that were read as `input`.
pub open spec fn calculation_of(
    date: Seq<char>,
    time: Seq<char>,
    input: CalendarInput,
) -> CalculationText {
    let pillars = pillars_of(input);
    CalculationText {
        message: message_text(date, time),
        received_date: date,
        received_time: time,
        year_pillar: pillars.year.text(),
        month_pillar: pillars.month.text(),
        day_pillar: pillars.day.text(),
        time_pillar: pillars.time.text(),
    }
}

/// Whether each of the four pillars is written with exactly two characters.
pub open spec fn two_characters_each(text: CalculationText) -> bool {
    &&& text.year_pillar.len() == 2
    &&& text.month_pillar.len() == 2
    &&& text.day_pillar.len() == 2
    &&& text.time_pillar.len() == 2
}

/// Reads the date and the hour out of two marked texts.
pub fn read_glyphs(date: &Vec<Glyph>, time: &Vec<Glyph>) -> (input: CalendarInput)
    ensures
        input == input_of(date@, time@),
{
    let date_runs = split_runs(date);
    let time_runs = split_runs(time);
    CalendarInput {
        year: read_field(&date_runs, 0, FALLBACK_YEAR),
        month: read_field(&date_runs, 1, FALLBACK_MONTH),
        day: read_field(&date_runs, 2, FALLBACK_DAY),
        hour: read_field(&time_runs, 0, FALLBACK_HOUR),
    }
}

/// Reads the date and the hour out of two texts.
pub fn read_input(date: &str, time: &str) -> (input: CalendarInput)
    ensures
        input == input_of(glyphs_of(date@), glyphs_of(time@)),
{
    let date_glyphs = mark_numeric(date);
    let time_glyphs = mark_numeric(time);
    read_glyphs(&date_glyphs, &time_glyphs)
}

/// Computes the four pillars of a date and hour, for every date that has
/// them.
pub fn four_pillars(input: &CalendarInput) -> (r: Option<FourPillars>)
    ensures
        r == if has_pillars(*input) {
            Some(pillars_of(*input))
        } else {
            None::<FourPillars>
        },
        r matches Some(p) ==> p.year.wf() && p.month.wf() && p.day.wf() && p.time.wf(),
{
    let (year, month) = effective_year_month(input.year, input.month, input.day);
    if month < 1 || month > 12 {
        return None;
    }
    let day = day_pillar(input.year, input.month, input.day);
    Some(
        FourPillars {
            year: year_pillar(year),
            month: month_pillar(year, month),
            day,
            time: time_pillar(day.stem, input.hour),
        },
    )
}

/// Writes the line that names the two texts.
pub fn write_message(date: &str, time: &str) -> (message: String)
    ensures
        message@ == message_text(date@, time@),
{
    let mut message = String::from_str("Fate for ");
    message.append(date);
    message.append(" ");
    message.append(time);
    message
}

/// Reports on a date and hour that were read out of two texts.
pub fn report(date: &str, time: &str, input: &CalendarInput) -> (r: Option<Calculation>)
    ensures
        r is Some <==> has_pillars(*input),
        r matches Some(c) ==> c@ == calculation_of(date@, time@, *input) && two_characters_each(
            c@,
        ),
{
    match four_pillars(input) {
        Some(pillars) => Some(
            Calculation {
                message: write_message(date, time),
                received_date: String::from_str(date),
                received_time: String::from_str(time),
                year_pillar: pillars.year.render(),
                month_pillar: pillars.month.render(),
                day_pillar: pillars.day.render(),
                time_pillar: pillars.time.render(),
            },
        ),
        None => None,
    }
}

/// Reads a date and a time and reports the four pillars. A number that is
/// missing or cannot be read is replaced by its fallback; there is no report
/// only where the month that the date counts under is none of the twelve.
pub fn calculate(date: &str, time: &str) -> (r: Option<Calculation>)
    ensures
        r is Some <==> has_pillars(input_of(glyphs_of(date@), glyphs_of(time@))),
        r matches Some(c) ==> c@ == calculation_of(
            date@,
            time@,
            input_of(glyphs_of(date@), glyphs_of(time@)),
        ) && two_characters_each(c@),
{
    let input = read_input(date, time);
    report(date, time, &input)
}

/// A date whose month is one of the twelve has its four pillars, whatever
/// its other fields hold.
pub proof fn lemma_twelve_months_have_pillars(input: CalendarInput)
    requires
        1 <= input.month <= 12,
    ensures
        has_pillars(input),
{
}

/// Where a date has pillars, each of the four lies inside the two cycles and
/// is written with two characters.
pub proof fn lemma_pillars_in_cycle(date: Seq<char>, time: Seq<char>, input: CalendarInput)
    requires
        has_pillars(input),
    ensures
        pillars_of(input).year.wf(),
        pillars_of(input).month.wf(),
        pillars_of(input).day.wf(),
        pillars_of(input).time.wf(),
        two_characters_each(calculation_of(date, time, input)),
{
}

/// The day pillar is taken at the date as it was given: the year and month
/// that the date counts under have no part in it.
pub proof fn lemma_day_pillar_ignores_boundary(input: CalendarInput)
    ensures
        pillars_of(input).day == day_pillar_of(
            input.year as int,
            input.month as int,
            input.day as int,
        ),
        pillars_of(input).time == time_pillar_of(
            pillars_of(input).day.stem as int,
            input.hour as int,
        ),
{
}

/// A number that a text does not hold is replaced by its fallback: the year
/// by 2000, the month by 1, the day by 1 and the hour by 12.
pub proof fn lemma_missing_numbers_fall_back(date: Seq<Glyph>, time: Seq<Glyph>)
    ensures
        numeric_runs(date).len() < 1 ==> input_of(date, time).year == 2000,
        numeric_runs(date).len() < 2 ==> input_of(date, time).month == 1,
        numeric_runs(date).len() < 3 ==> input_of(date, time).day == 1,
        numeric_runs(time).len() < 1 ==> input_of(date, time).hour == 12,
{
}

/// A date that gives no day is read with day 1 and still has its four
/// pillars, unless its month is beyond 13: on the first of a month the month
/// before counts, and that must be one of the twelve.
pub proof fn lemma_date_without_day_has_pillars(date: Seq<Glyph>, time: Seq<Glyph>)
    requires
        numeric_runs(date).len() < 3,
        input_of(date, time).month <= 13,
    ensures
        input_of(date, time).day == 1,
        has_pillars(input_of(date, time)),
{
}

} // verus!
