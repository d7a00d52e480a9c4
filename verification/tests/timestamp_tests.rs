use dm_database_sqllog2db::timestamp::format_utc_timestamp_from_secs;

#[test]
fn epoch_start() {
    assert_eq!(format_utc_timestamp_from_secs(0), "1970-01-01 00:00:00");
}

#[test]
fn leap_day() {
    assert_eq!(format_utc_timestamp_from_secs(951_782_400), "2000-02-29 00:00:00");
}

#[test]
fn ordinary_moment() {
    assert_eq!(format_utc_timestamp_from_secs(1_700_000_000), "2023-11-14 22:13:20");
}

#[test]
fn end_of_year() {
    assert_eq!(format_utc_timestamp_from_secs(1_735_689_599), "2024-12-31 23:59:59");
}

#[test]
fn far_future_year_has_five_digits() {
    // 10000-01-01 00:00:00 UTC
    assert_eq!(format_utc_timestamp_from_secs(253_402_300_800), "10000-01-01 00:00:00");
}
