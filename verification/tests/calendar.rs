use crypnotes::calendar::{date_add_months, tz_is_known, tz_local_of_utc, tz_utc_of_local, utc_millis_valid, LocalTimeMapping, MAX_MS, MIN_MS};

#[test]
fn utc_range_matches_chrono_bounds() {
    assert!(utc_millis_valid(0));
    assert!(utc_millis_valid(MAX_MS));
    assert!(utc_millis_valid(MIN_MS));
    assert!(!utc_millis_valid(MAX_MS + 1));
    assert!(!utc_millis_valid(MIN_MS - 1));
}

#[test]
fn zone_names_are_looked_up() {
    assert!(tz_is_known("Europe/Berlin"));
    assert!(tz_is_known("UTC"));
    assert!(!tz_is_known("Europe/Atlantis"));
}

#[test]
fn zone_offsets_apply() {
    assert_eq!(tz_local_of_utc("Asia/Kolkata", 0), Some(19_800_000));
    assert_eq!(tz_local_of_utc("Asia/Tokyo", MAX_MS), None);
    assert_eq!(tz_utc_of_local("Asia/Kolkata", 19_800_000), LocalTimeMapping::Single(0));
}

#[test]
fn month_addition_clamps_day() {
    // 2024-01-31 is day 19753; 2024-02-29 is day 19782; 2025-02-28 is day 20147.
    assert_eq!(date_add_months(19_753, 1), Some(19_782));
    assert_eq!(date_add_months(19_753, 0), Some(19_753));
    assert_eq!(date_add_months(19_782, 12), Some(20_147));
    assert_eq!(date_add_months(95_026_236, 1), None);
}
