use blackbird::library::track_length_str;
use blackbird::util::seconds_to_hms_string;

#[test]
fn test_seconds_to_hms_string() {
    assert_eq!(seconds_to_hms_string(3661), "1:01:01");
    assert_eq!(seconds_to_hms_string(7323), "2:02:03");
    assert_eq!(seconds_to_hms_string(3600), "1:00:00");
    assert_eq!(seconds_to_hms_string(61), "1:01");
    assert_eq!(seconds_to_hms_string(123), "2:03");
    assert_eq!(seconds_to_hms_string(60), "1:00");
    assert_eq!(seconds_to_hms_string(0), "0:00");
    assert_eq!(seconds_to_hms_string(59), "0:59");
}

#[test]
fn hms_handles_large_values() {
    assert_eq!(seconds_to_hms_string(u32::MAX), "1193046:28:15");
    assert_eq!(seconds_to_hms_string(36000), "10:00:00");
}

#[test]
fn track_lengths() {
    assert_eq!(track_length_str(Some(125)), "2:05");
    assert_eq!(track_length_str(None), "0:00");
}
