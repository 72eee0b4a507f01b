use star::timer::{TimerData, TimerParseError};

#[test]
fn format_zero() {
    assert_eq!(TimerData::format_time_left(0), "00:00");
}

#[test]
fn format_negative_small() {
    assert_eq!(TimerData::format_time_left(-5), "-00:05");
}

#[test]
fn format_carries_minutes() {
    assert_eq!(TimerData::format_time_left(3661), "61:01");
}

#[test]
fn format_negative_carries() {
    assert_eq!(TimerData::format_time_left(-3661), "-61:01");
}

#[test]
fn format_three_digit_minutes_not_clamped() {
    assert_eq!(TimerData::format_time_left(7425), "123:45");
}

#[test]
fn format_largest_count() {
    assert_eq!(TimerData::format_time_left(i32::MAX), "35791394:07");
}

#[test]
fn format_u16_max() {
    assert_eq!(TimerData::format_time_left(65535), "1092:15");
}

#[test]
fn parse_empty_fails() {
    assert!(matches!(
        TimerData::seconds_from_str(String::new()),
        Err(TimerParseError::InvalidInput)
    ));
}

#[test]
fn parse_minutes_and_seconds() {
    assert_eq!(TimerData::seconds_from_str("12:34".to_string()), Ok(754));
}

#[test]
fn parse_seconds_only() {
    assert_eq!(TimerData::seconds_from_str("34".to_string()), Ok(34));
}

#[test]
fn parse_strips_non_digits() {
    assert_eq!(
        TimerData::seconds_from_str("ab12:3cd4".to_string()),
        TimerData::seconds_from_str("12:34".to_string())
    );
}

#[test]
fn parse_only_junk_fails() {
    assert!(matches!(
        TimerData::seconds_from_str("abc".to_string()),
        Err(TimerParseError::InvalidInput)
    ));
}

#[test]
fn parse_ignores_third_segment() {
    assert_eq!(TimerData::seconds_from_str("1:2:3".to_string()), Ok(62));
}

#[test]
fn parse_accepts_leading_zeros() {
    assert_eq!(TimerData::seconds_from_str("007:5".to_string()), Ok(425));
}

#[test]
fn parse_oversized_segment_fails() {
    assert!(matches!(
        TimerData::seconds_from_str("65536".to_string()),
        Err(TimerParseError::InvalidInput)
    ));
}

#[test]
fn parse_oversized_total_fails() {
    assert!(matches!(
        TimerData::seconds_from_str("1200:0".to_string()),
        Err(TimerParseError::InvalidInput)
    ));
}

#[test]
fn parse_empty_minutes_fails() {
    assert!(matches!(
        TimerData::seconds_from_str(":30".to_string()),
        Err(TimerParseError::InvalidInput)
    ));
}

#[test]
fn parse_empty_seconds_fails() {
    assert!(matches!(
        TimerData::seconds_from_str("5:".to_string()),
        Err(TimerParseError::InvalidInput)
    ));
}

#[test]
fn round_trip_normalizes_padding() {
    let seconds = TimerData::seconds_from_str("7:09".to_string()).unwrap();
    assert_eq!(TimerData::format_time_left(seconds as i32), "07:09");
    let seconds = TimerData::seconds_from_str("012:3".to_string()).unwrap();
    assert_eq!(TimerData::format_time_left(seconds as i32), "12:03");
    let seconds = TimerData::seconds_from_str("59".to_string()).unwrap();
    assert_eq!(TimerData::format_time_left(seconds as i32), "00:59");
}
