use card_server::utils::{current_timestamp, format_duration, validate_table_id};

#[test]
fn table_id_validation() {
    assert!(validate_table_id(1, 5));
    assert!(validate_table_id(5, 5));
    assert!(!validate_table_id(0, 5));
    assert!(!validate_table_id(6, 5));
    assert!(!validate_table_id(1, 0));
}

#[test]
fn durations_in_seconds() {
    assert_eq!(format_duration(0), "0s");
    assert_eq!(format_duration(7), "7s");
    assert_eq!(format_duration(59), "59s");
}

#[test]
fn durations_in_minutes() {
    assert_eq!(format_duration(60), "1m 0s");
    assert_eq!(format_duration(61), "1m 1s");
    assert_eq!(format_duration(3599), "59m 59s");
}

#[test]
fn durations_in_hours() {
    assert_eq!(format_duration(3600), "1h 0m 0s");
    assert_eq!(format_duration(3661), "1h 1m 1s");
    assert_eq!(format_duration(7325), "2h 2m 5s");
    assert_eq!(format_duration(90000), "25h 0m 0s");
}

#[test]
fn timestamp_is_after_the_epoch() {
    assert!(current_timestamp() > 0);
}
