use four_pillars::boundary::effective_year_month;

#[test]
fn early_day_counts_under_the_month_before() {
    assert_eq!(effective_year_month(2000, 3, 3), (2000, 2));
    assert_eq!(effective_year_month(2024, 6, 3), (2024, 5));
    assert_eq!(effective_year_month(2024, 12, 1), (2024, 11));
    assert_eq!(effective_year_month(2024, 2, 3), (2024, 1));
}

#[test]
fn early_january_counts_under_december_of_the_year_before() {
    assert_eq!(effective_year_month(2000, 1, 3), (1999, 12));
    assert_eq!(effective_year_month(2000, 1, 1), (1999, 12));
}

#[test]
fn rest_of_january_counts_under_the_year_before() {
    assert_eq!(effective_year_month(2000, 1, 10), (1999, 1));
    assert_eq!(effective_year_month(2000, 1, 4), (1999, 1));
    assert_eq!(effective_year_month(2000, 1, 31), (1999, 1));
}

#[test]
fn later_days_keep_month_and_year() {
    assert_eq!(effective_year_month(2024, 6, 4), (2024, 6));
    assert_eq!(effective_year_month(2024, 6, 15), (2024, 6));
    assert_eq!(effective_year_month(2024, 12, 25), (2024, 12));
    assert_eq!(effective_year_month(2024, 2, 4), (2024, 2));
}

#[test]
fn months_outside_the_twelve() {
    assert_eq!(effective_year_month(2000, 0, 1), (1999, 12));
    assert_eq!(effective_year_month(2000, -5, 3), (1999, 12));
    assert_eq!(effective_year_month(2000, 13, 2), (2000, 12));
    assert_eq!(effective_year_month(2000, 13, 4), (2000, 13));
    assert_eq!(effective_year_month(2000, 0, 4), (2000, 0));
    assert_eq!(effective_year_month(2000, i32::MIN, 0), (1999, 12));
    assert_eq!(effective_year_month(2000, i32::MAX, 0), (2000, i32::MAX - 1));
}

#[test]
fn the_year_before_the_smallest_year() {
    assert_eq!(
        effective_year_month(i32::MIN, 1, 1),
        (i32::MIN as i64 - 1, 12)
    );
    assert_eq!(
        effective_year_month(i32::MIN, 1, 20),
        (i32::MIN as i64 - 1, 1)
    );
    assert_eq!(effective_year_month(i32::MAX, 5, 20), (i32::MAX as i64, 5));
}

#[test]
fn days_outside_the_month() {
    assert_eq!(effective_year_month(2024, 6, 0), (2024, 5));
    assert_eq!(effective_year_month(2024, 6, -9), (2024, 5));
    assert_eq!(effective_year_month(2024, 6, i32::MIN), (2024, 5));
    assert_eq!(effective_year_month(2024, 6, 99), (2024, 6));
}
