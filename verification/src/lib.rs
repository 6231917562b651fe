//! Conversion of a Gregorian date and hour into the four stem-branch pillars
//! of the sexagenary calendar.

pub mod boundary;
pub mod chart;
pub mod cycle;
pub mod fields;
pub mod julian;
pub mod pillars;
pub mod symbols;
