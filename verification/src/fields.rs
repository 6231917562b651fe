//! Reading numbers out of free text: the text is cut at every character that
//! is not numeric, and each remaining run of numeric characters is read as a
//! decimal number.

use vstd::prelude::*;
use vstd::std_specs::iter::IteratorSpec;

verus! {

/// Whether a character counts as numeric, as `char::is_numeric` decides it:
/// the decimal digits of every script, and the letter-like and other numeric
/// characters of Unicode.
pub uninterp spec fn is_numeric_char(c: char) -> bool;

/// Asks `char::is_numeric` of a character. The answer is taken as it comes;
/// nothing is claimed of which characters are numeric.
#[verifier::external_body]
fn char_is_numeric(c: char) -> (b: bool)
    ensures
        b == is_numeric_char(c),
{
    c.is_numeric()
}

/// One character of a text, as the cutting sees it.
#[derive(Clone, Copy, Debug, PartialEq, Eq, Structural)]
pub enum Glyph {
    /// A numeric character: part of a run.
    Numeric(char),
    /// Any other character: it ends a run.
    Separator,
}

/// How a character is seen.
pub open spec fn glyph_of(c: char) -> Glyph {
    if is_numeric_char(c) {
        Glyph::Numeric(c)
    } else {
        Glyph::Separator
    }
}

/// The glyphs of a text, character by character.
pub open spec fn glyphs_of(text: Seq<char>) -> Seq<Glyph> {
    Seq::new(text.len(), |i: int| glyph_of(text[i]))
}

/// The runs of a text whose first characters, `open`, are already taken into
/// a run that has not ended yet. A separator ends the open run; a run with no
/// character in it is not a run.
pub open spec fn runs_from(glyphs: Seq<Glyph>, open: Seq<char>) -> Seq<Seq<char>>
    decreases glyphs.len(),
{
    if glyphs.len() == 0 {
        closed_run(open)
    } else {
        match glyphs[0] {
            Glyph::Numeric(c) => runs_from(glyphs.drop_first(), open.push(c)),
            Glyph::Separator => closed_run(open) + runs_from(glyphs.drop_first(), Seq::empty()),
        }
    }
}

/// What an ended run adds to the runs: itself, unless it is empty.
pub open spec fn closed_run(open: Seq<char>) -> Seq<Seq<char>> {
    if open.len() > 0 {
        seq![open]
    } else {
        Seq::empty()
    }
}

/// The runs of numeric characters of a text, in the order in which they
/// stand: the pieces between separators, without the empty ones.
pub open spec fn numeric_runs(glyphs: Seq<Glyph>) -> Seq<Seq<char>> {
    runs_from(glyphs, Seq::empty())
}

/// The character sequences that a vector of runs holds.
pub open spec fn texts(runs: Seq<Vec<char>>) -> Seq<Seq<char>> {
    Seq::new(runs.len(), |i: int| runs[i]@)
}

/// Whether a character is one of the ten decimal digits `0` to `9`.
pub open spec fn is_decimal_digit(c: char) -> bool {
    '0' <= c && c <= '9'
}

/// The number that a decimal digit stands for.
pub open spec fn digit_value(c: char) -> int {
    c as int - '0' as int
}

/// Whether every character of a run is a decimal digit.
pub open spec fn all_decimal(run: Seq<char>) -> bool {
    forall|i: int| 0 <= i < run.len() ==> is_decimal_digit(#[trigger] run[i])
}

/// The number that a run of decimal digits writes, leading zeros allowed.
pub open spec fn decimal_value(digits: Seq<char>) -> int
    decreases digits.len(),
{
    if digits.len() == 0 {
        0
    } else {
        decimal_value(digits.drop_last()) * 10 + digit_value(digits.last())
    }
}

/// The number that a run is read as: its decimal value, if it is made of
/// decimal digits only and the value fits in 32 bits with a sign. A run that
/// holds any other numeric character, or writes a greater number, has none,
/// and neither has an empty one.
pub open spec fn run_value(run: Seq<char>) -> Option<i32> {
    if run.len() > 0 && all_decimal(run) && decimal_value(run) <= i32::MAX {
        Some(decimal_value(run) as i32)
    } else {
        None
    }
}

/// The number in the run at `index`, or `fallback` where there is no such run
/// or it has no value.
pub open spec fn field_or(runs: Seq<Seq<char>>, index: int, fallback: i32) -> i32 {
    if 0 <= index < runs.len() {
        match run_value(runs[index]) {
            Some(v) => v,
            None => fallback,
        }
    } else {
        fallback
    }
}

/// Tells whether a character is numeric.
pub fn mark(c: char) -> (g: Glyph)
    ensures
        g == glyph_of(c),
{
    if char_is_numeric(c) {
        Glyph::Numeric(c)
    } else {
        Glyph::Separator
    }
}

/// Marks each character of a text as numeric or not.
pub fn mark_numeric(text: &str) -> (glyphs: Vec<Glyph>)
    ensures
        glyphs@ == glyphs_of(text@),
{
    let mut glyphs: Vec<Glyph> = Vec::new();
    for c in it: text.chars()
        invariant
            it.seq() == text@,
            glyphs@.len() == it.index(),
            forall|j: int| 0 <= j < glyphs@.len() ==> glyphs@[j] == glyph_of(text@[j]),
    {
        glyphs.push(mark(c));
    }
    glyphs
}

/// Cuts a marked text into its runs of numeric characters.
pub fn split_runs(glyphs: &Vec<Glyph>) -> (runs: Vec<Vec<char>>)
    ensures
        texts(runs@) == numeric_runs(glyphs@),
{
    // `runs` holds the runs that have ended, `open` the one that has not.
    let mut runs: Vec<Vec<char>> = Vec::new();
    let mut open: Vec<char> = Vec::new();
    assert(glyphs@.skip(0) =~= glyphs@);
    for i in 0..glyphs.len()
        invariant
            texts(runs@) + runs_from(glyphs@.skip(i as int), open@) == numeric_runs(glyphs@),
    {
        let ghost ended = texts(runs@);
        let ghost rest = glyphs@.skip(i + 1);
        assert(glyphs@.skip(i as int).drop_first() =~= rest);
        match glyphs[i] {
            Glyph::Numeric(c) => {
                open.push(c);
            },
            Glyph::Separator => {
                if open.len() > 0 {
                    let ghost closed = open@;
                    runs.push(open);
                    open = Vec::new();
                    assert(texts(runs@) =~= ended + seq![closed]);
                    assert(texts(runs@) + runs_from(rest, open@) =~= ended + (seq![closed]
                        + runs_from(rest, Seq::empty())));
                } else {
                    assert(open@ =~= Seq::empty());
                }
            },
        }
    }
    if open.len() > 0 {
        let ghost ended = texts(runs@);
        let ghost closed = open@;
        runs.push(open);
        assert(texts(runs@) =~= ended + seq![closed]);
    }
    runs
}

/// Reads a run as a decimal number.
pub fn parse_decimal(run: &Vec<char>) -> (value: Option<i32>)
    ensures
        value == run_value(run@),
{
    // While `fits` holds, `acc` is the value of the digits read so far. Once
    // it fails, a character was no digit or the value has become too great,
    // and no later digit can mend that.
    let mut acc: i64 = 0;
    let mut fits: bool = true;
    for i in 0..run.len()
        invariant
            fits ==> all_decimal(run@.take(i as int)) && acc == decimal_value(run@.take(i as int))
                && 0 <= acc <= i32::MAX,
            !fits ==> !all_decimal(run@.take(i as int)) || decimal_value(run@.take(i as int))
                > i32::MAX,
    {
        let c: char = run[i];
        assert(run@.take(i + 1).drop_last() =~= run@.take(i as int));
        assert(run@.take(i + 1).last() == c);
        if '0' <= c && c <= '9' {
            if fits {
                let next: i64 = acc * 10 + (c as u32 - '0' as u32) as i64;
                if next > i32::MAX as i64 {
                    fits = false;
                } else {
                    acc = next;
                }
            }
        } else {
            fits = false;
        }
    }
    assert(run@.take(run@.len() as int) =~= run@);
    if fits && run.len() > 0 {
        Some(acc as i32)
    } else {
        None
    }
}

/// Reads the number in the run at `index`, or gives `fallback` where there is
/// no such run or it cannot be read.
pub fn read_field(runs: &Vec<Vec<char>>, index: usize, fallback: i32) -> (value: i32)
    ensures
        value == field_or(texts(runs@), index as int, fallback),
{
    if index < runs.len() {
        match parse_decimal(&runs[index]) {
            Some(v) => v,
            None => fallback,
        }
    } else {
        fallback
    }
}

/// No run is empty: separators that stand side by side, or at either end of
/// the text, leave nothing behind.
pub proof fn lemma_no_run_is_empty(glyphs: Seq<Glyph>, open: Seq<char>)
    ensures
        forall|i: int|
            0 <= i < runs_from(glyphs, open).len() ==> (#[trigger] runs_from(glyphs, open)[i]).len()
                > 0,
    decreases glyphs.len(),
{
    let runs = runs_from(glyphs, open);
    if glyphs.len() == 0 {
        assert(runs == closed_run(open));
    } else {
        match glyphs[0] {
            Glyph::Numeric(c) => {
                lemma_no_run_is_empty(glyphs.drop_first(), open.push(c));
                assert(runs == runs_from(glyphs.drop_first(), open.push(c)));
            },
            Glyph::Separator => {
                let ended = closed_run(open);
                let later = runs_from(glyphs.drop_first(), Seq::empty());
                lemma_no_run_is_empty(glyphs.drop_first(), Seq::empty());
                assert(runs == ended + later);
                assert forall|i: int| 0 <= i < runs.len() implies (#[trigger] runs[i]).len()
                    > 0 by {
                    if i >= ended.len() {
                        assert(runs[i] == later[i - ended.len()]);
                    }
                }
            },
        }
    }
}

/// A text without a numeric character has no run.
pub proof fn lemma_separators_hold_no_run(glyphs: Seq<Glyph>)
    requires
        forall|i: int| 0 <= i < glyphs.len() ==> glyphs[i] is Separator,
    ensures
        numeric_runs(glyphs).len() == 0,
    decreases glyphs.len(),
{
    if glyphs.len() > 0 {
        lemma_separators_hold_no_run(glyphs.drop_first());
    }
}

} // verus!
