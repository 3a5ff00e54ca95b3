use hyprlux::shaders::shader::identity_from_keyword;
use hyprlux::utils::{decimal_text, int_in_range, shader_hash_from_path, Time, TimeOfDay};

#[test]
fn test_time_mock() {
    let time = Time::new(Some(TimeOfDay::parse("12:00").unwrap()));
    assert_eq!(time.now(), TimeOfDay::parse("12:00").unwrap());
    assert!(time.now().minute_of_day > TimeOfDay::parse("11:00").unwrap().minute_of_day);
    assert!(time.now().minute_of_day > TimeOfDay::parse("11:59").unwrap().minute_of_day);
    assert!(time.now().minute_of_day < TimeOfDay::parse("12:59").unwrap().minute_of_day);
}

#[test]
fn test_int_in_range() {
    let tests = [
        (50, 1, 100, 50),
        (50, 1, 50, 50),
        (1, 1, 100, 1),
        (150, 1, 100, 100),
        (0, 1, 100, 1),
    ];
    for (value, min, max, expected) in tests {
        assert_eq!(int_in_range(value, min, max), expected)
    }
}

#[test]
fn clock_time_is_valid() {
    let now = Time::new(None).now();
    assert!(now.minute_of_day < 1440);
}

#[test]
fn shader_hash_takes_last_segment() {
    assert_eq!(
        shader_hash_from_path("/tmp/vibrance_100".to_string()),
        Some("vibrance_100".to_string())
    );
    assert_eq!(
        shader_hash_from_path("night_3500".to_string()),
        Some("night_3500".to_string())
    );
    assert_eq!(shader_hash_from_path("/a/b/".to_string()), Some(String::new()));
}

#[test]
fn keyword_identity() {
    assert_eq!(identity_from_keyword("[[EMPTY]]".to_string()), None);
    assert_eq!(
        identity_from_keyword("/tmp/night_3500".to_string()),
        Some("night_3500".to_string())
    );
}

#[test]
fn decimal_text_values() {
    assert_eq!(decimal_text(0), "0");
    assert_eq!(decimal_text(7), "7");
    assert_eq!(decimal_text(3500), "3500");
    assert_eq!(decimal_text(-10), "-10");
    assert_eq!(decimal_text(i32::MAX), i32::MAX.to_string());
    assert_eq!(decimal_text(i32::MIN), i32::MIN.to_string());
}
