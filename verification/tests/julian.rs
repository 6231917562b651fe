use four_pillars::cycle::rem_euclid;
use four_pillars::julian::get_julian_day;

#[test]
fn julian_day_of_the_epoch() {
    assert_eq!(get_julian_day(2000, 1, 1), 2451545);
}

#[test]
fn julian_day_of_known_dates() {
    assert_eq!(get_julian_day(1970, 1, 1), 2440588);
    assert_eq!(get_julian_day(2000, 3, 1), 2451605);
    assert_eq!(get_julian_day(2024, 2, 29), 2460370);
    assert_eq!(get_julian_day(1582, 10, 15), 2299161);
    assert_eq!(get_julian_day(0, 1, 1), 1721060);
}

#[test]
fn julian_day_counts_january_and_february_under_the_year_before() {
    // February 2000 is month 14 of 1999, March 2000 is month 3 of 2000.
    assert_eq!(get_julian_day(2000, 2, 29), 2451604);
    assert_eq!(get_julian_day(2000, 3, 1) - get_julian_day(2000, 2, 29), 1);
    assert_eq!(get_julian_day(1900, 3, 1) - get_julian_day(1900, 2, 28), 1);
}

#[test]
fn julian_day_rounds_toward_zero() {
    // 365.25 * (-5001 + 4716) is -104096.25 and the century of -5001 is -50.
    assert_eq!(get_julian_day(-5001, 5, 20), -105377);
    assert_eq!(get_julian_day(-4716, 3, 1), -1363);
    assert_eq!(get_julian_day(-4800, 1, 1), -32103);
}

#[test]
fn julian_day_takes_fields_outside_the_calendar() {
    assert_eq!(get_julian_day(2000, 13, 40), 2451950);
    assert_eq!(get_julian_day(2000, 2, 31), get_julian_day(2000, 2, 1) + 30);
}

#[test]
fn julian_day_grows_with_the_day() {
    for day in -70..70 {
        assert_eq!(
            get_julian_day(2024, 6, day + 60),
            get_julian_day(2024, 6, day) + 60
        );
    }
}

#[test]
fn julian_day_of_the_widest_fields() {
    // 784370124585 + 65713214377 + 2147483647 + (2 - 21474836 + 5368709) - 1524
    assert_eq!(get_julian_day(i32::MAX, i32::MAX, i32::MAX), 852214714960);
    // A month below 3 counts under the year before, which no longer fits in
    // 32 bits: -784366680278 - 65713213979 - 2147483648
    //   + (2 + 21474836 - 5368709) - 1524
    assert_eq!(get_julian_day(i32::MIN, i32::MIN, i32::MIN), -852211273300);
}

#[test]
fn rem_euclid_is_never_negative() {
    assert_eq!(rem_euclid(7, 10), 7);
    assert_eq!(rem_euclid(-1, 10), 9);
    assert_eq!(rem_euclid(-10, 10), 0);
    assert_eq!(rem_euclid(-11, 12), 1);
    assert_eq!(rem_euclid(0, 60), 0);
    assert_eq!(rem_euclid(i64::MIN, 10), 2);
    assert_eq!(rem_euclid(i64::MAX, 12), 7);
    for x in -100i64..100 {
        for m in 1i64..15 {
            assert_eq!(rem_euclid(x, m), x.rem_euclid(m));
        }
    }
}
