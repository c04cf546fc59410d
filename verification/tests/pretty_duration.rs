use rspotify_cli_lib::pretty_duration::{format_duration, PrettyDuration};

#[test]
fn hour_min_sec() {
    let duration: u64 = 3661; // 1 hour, 1 minute, 1 second
    assert_eq!(duration.pretty(), "1:01:01");
}

#[test]
fn min_sec() {
    let duration: u64 = 61; // 1 minute, 1 second
    assert_eq!(duration.pretty(), "1:01");
}

#[test]
fn sec() {
    let duration: u64 = 1; // 1 second
    assert_eq!(duration.pretty(), "0:01");
}

#[test]
fn large_hour_min_sec() {
    let duration: u64 = 36610; // 10 hours, 10 minutes, 10 seconds
    assert_eq!(duration.pretty(), "10:10:10");
}

#[test]
fn large_min_sec() {
    let duration: u64 = 610; // 10 minutes, 10 seconds
    assert_eq!(duration.pretty(), "10:10");
}

#[test]
fn large_sec() {
    let duration: u64 = 10; // 10 seconds
    assert_eq!(duration.pretty(), "0:10");
}

#[test]
fn one_hour() {
    let duration: u64 = 3600; // Exactly 1 hour
    assert_eq!(duration.pretty(), "1:00:00");
}

#[test]
fn one_minute() {
    let duration: u64 = 60; // Exactly 1 minute
    assert_eq!(duration.pretty(), "1:00");
}

#[test]
fn exact_second() {
    let duration: u64 = 1; // Exactly 1 second
    assert_eq!(duration.pretty(), "0:01");
}

#[test]
fn zero() {
    let duration: u64 = 0; // 0 seconds
    assert_eq!(duration.pretty(), "0:00");
}

#[test]
fn boundaries() {
    assert_eq!(format_duration(0), "0:00");
    assert_eq!(format_duration(1), "0:01");
    assert_eq!(format_duration(59), "0:59");
    assert_eq!(format_duration(60), "1:00");
    assert_eq!(format_duration(61), "1:01");
    assert_eq!(format_duration(3599), "59:59");
    assert_eq!(format_duration(3600), "1:00:00");
    assert_eq!(format_duration(3661), "1:01:01");
    assert_eq!(format_duration(36610), "10:10:10");
}

#[test]
fn wide_hour_field() {
    assert_eq!(format_duration(360_000), "100:00:00");
    assert_eq!(format_duration(u64::MAX), "5124095576030431:00:15");
}

#[test]
fn formatting_twice_agrees() {
    for duration in [0u64, 59, 60, 3599, 3600, 86399] {
        assert_eq!(format_duration(duration), format_duration(duration));
        assert_eq!(duration.pretty(), format_duration(duration));
    }
}
