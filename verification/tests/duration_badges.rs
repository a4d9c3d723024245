use conch::util::format_duration;

#[test]
fn duration_below_threshold_has_no_badge() {
    assert_eq!(format_duration(0), None);
    assert_eq!(format_duration(50), None);
    assert_eq!(format_duration(99), None);
}

#[test]
fn duration_millis_bucket() {
    assert_eq!(format_duration(100), Some("100ms".to_string()));
    assert_eq!(format_duration(500), Some("500ms".to_string()));
    assert_eq!(format_duration(999), Some("999ms".to_string()));
}

#[test]
fn duration_seconds_bucket() {
    assert_eq!(format_duration(1000), Some("1.0s".to_string()));
    assert_eq!(format_duration(1500), Some("1.5s".to_string()));
    assert_eq!(format_duration(12345), Some("12.3s".to_string()));
}

#[test]
fn duration_seconds_round_to_nearest_tenth() {
    assert_eq!(format_duration(1949), Some("1.9s".to_string()));
    assert_eq!(format_duration(1999), Some("2.0s".to_string()));
    assert_eq!(format_duration(59999), Some("60.0s".to_string()));
}

#[test]
fn duration_seconds_ties_round_up() {
    assert_eq!(format_duration(1950), Some("2.0s".to_string()));
    assert_eq!(format_duration(1049), Some("1.0s".to_string()));
    assert_eq!(format_duration(1050), Some("1.1s".to_string()));
}

#[test]
fn duration_minutes_bucket() {
    assert_eq!(format_duration(60_000), Some("1m0s".to_string()));
    assert_eq!(format_duration(125_000), Some("2m5s".to_string()));
    assert_eq!(format_duration(3_599_999), Some("59m59s".to_string()));
}

#[test]
fn duration_hours_bucket() {
    assert_eq!(format_duration(3_600_000), Some("1h0m".to_string()));
    assert_eq!(format_duration(5_400_000), Some("1h30m".to_string()));
    assert_eq!(format_duration(90_000_000), Some("25h0m".to_string()));
}
