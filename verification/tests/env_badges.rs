use conch::env::{duration_badge, exit_code_badge, multiline_enabled, plain_enabled};

#[test]
fn exit_code_badge_iff_nonzero() {
    assert_eq!(exit_code_badge(&Some("0".to_string())), None);
    assert_eq!(exit_code_badge(&Some("1".to_string())), Some("1".to_string()));
    assert_eq!(
        exit_code_badge(&Some("130".to_string())),
        Some("130".to_string())
    );
    assert_eq!(exit_code_badge(&None), None);
}

#[test]
fn plain_toggle_recognized_values() {
    assert!(plain_enabled(&Some("1".to_string())));
    assert!(plain_enabled(&Some("true".to_string())));
    assert!(!plain_enabled(&Some("0".to_string())));
    assert!(!plain_enabled(&Some("yes".to_string())));
    assert!(!plain_enabled(&None));
}

#[test]
fn multiline_toggle_default_enabled() {
    assert!(multiline_enabled(&None));
    assert!(multiline_enabled(&Some("1".to_string())));
    assert!(multiline_enabled(&Some("yes".to_string())));
    assert!(!multiline_enabled(&Some("0".to_string())));
    assert!(!multiline_enabled(&Some("false".to_string())));
}

#[test]
fn duration_badge_filters_the_stuck_value() {
    assert_eq!(duration_badge(&Some("0823".to_string())), None);
    assert_eq!(
        duration_badge(&Some("823".to_string())),
        Some("823ms".to_string())
    );
}

#[test]
fn duration_badge_ignores_unparsable_text() {
    assert_eq!(duration_badge(&Some("abc".to_string())), None);
    assert_eq!(duration_badge(&Some("".to_string())), None);
    assert_eq!(duration_badge(&None), None);
}

#[test]
fn duration_badge_formats_buckets() {
    assert_eq!(duration_badge(&Some("50".to_string())), None);
    assert_eq!(
        duration_badge(&Some("1500".to_string())),
        Some("1.5s".to_string())
    );
    assert_eq!(
        duration_badge(&Some("125000".to_string())),
        Some("2m5s".to_string())
    );
}
