use logicapps_lint::shape::triggers::date::{add_years, civil_from_days};

#[test]
fn unix_epoch_date_conversion_is_stable() {
    assert_eq!(civil_from_days(0), (1970, 1, 1));
    assert_eq!(civil_from_days(20_273), (2025, 7, 4));
}

#[test]
fn add_years_clamps_leap_day() {
    assert_eq!(add_years((2024, 2, 29), 1), (2025, 2, 28));
}

#[test]
fn dates_before_the_epoch_are_converted() {
    assert_eq!(civil_from_days(-1), (1969, 12, 31));
    assert_eq!(civil_from_days(-719_468), (0, 3, 1));
}

#[test]
fn leap_days_are_converted() {
    assert_eq!(civil_from_days(11_016), (2000, 2, 29));
    assert_eq!(civil_from_days(19_782), (2024, 2, 29));
}

#[test]
fn adding_years_keeps_ordinary_days() {
    assert_eq!(add_years((2024, 2, 29), 4), (2028, 2, 29));
    assert_eq!(add_years((2025, 7, 4), 50), (2075, 7, 4));
    assert_eq!(add_years((i32::MAX, 1, 1), 1), (i32::MAX, 1, 1));
}
