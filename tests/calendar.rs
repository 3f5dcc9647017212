use prayer_times::julian_half_days;

#[test]
fn julian_date_of_fixture_day() {
    // 1911-03-11 is Julian date 2419106.5.
    assert_eq!(julian_half_days(1911, 3, 11), 4838213);
}

#[test]
fn julian_date_of_j2000_epoch_day() {
    // 2000-01-01 is Julian date 2451544.5.
    assert_eq!(julian_half_days(2000, 1, 1), 4903089);
}

#[test]
fn julian_date_early_months_count_in_previous_year() {
    // 2022-02-28 is Julian date 2459638.5, 2022-03-01 is 2459639.5.
    assert_eq!(julian_half_days(2022, 2, 28), 4919277);
    assert_eq!(julian_half_days(2022, 3, 1), 4919279);
    // 2024-02-29 is Julian date 2460369.5.
    assert_eq!(julian_half_days(2024, 2, 29), 4920739);
    assert_eq!(julian_half_days(2022, 11, 27), 2 * 2459910 + 1);
}

#[test]
fn julian_date_out_of_range_day_is_not_rejected() {
    assert_eq!(julian_half_days(2022, 1, 45), julian_half_days(2022, 2, 14));
    assert_eq!(julian_half_days(0, 1, 1) % 2, 1);
}
