use cosmic_power_monitor::duration::format_time;
use cosmic_power_monitor::text::push_decimal;

fn decimal_string(n: u64) -> String {
    let mut s = String::new();
    push_decimal(&mut s, n);
    s
}

#[test]
fn decimal_of_small_and_large_numbers() {
    assert_eq!(decimal_string(0), "0");
    assert_eq!(decimal_string(7), "7");
    assert_eq!(decimal_string(10), "10");
    assert_eq!(decimal_string(1234567890), "1234567890");
    assert_eq!(decimal_string(u64::MAX), u64::MAX.to_string());
}

#[test]
fn push_decimal_appends() {
    let mut s = String::from("t=");
    push_decimal(&mut s, 305);
    assert_eq!(s, "t=305");
}

#[test]
fn format_time_no_time_is_empty() {
    assert_eq!(format_time(0), "");
    assert_eq!(format_time(-5), "");
    assert_eq!(format_time(i64::MIN), "");
}

#[test]
fn format_time_seconds_below_a_minute() {
    assert_eq!(format_time(1), "1s");
    assert_eq!(format_time(59), "59s");
}

#[test]
fn format_time_minutes_below_an_hour() {
    assert_eq!(format_time(60), "1m");
    assert_eq!(format_time(61), "1m");
    assert_eq!(format_time(3599), "59m");
}

#[test]
fn format_time_hours_and_minutes() {
    assert_eq!(format_time(3600), "1h 0m");
    assert_eq!(format_time(7800), "2h 10m");
    assert_eq!(format_time(7859), "2h 10m");
    assert_eq!(format_time(90000), "25h 0m");
    assert_eq!(format_time(i64::MAX), "2562047788015215h 30m");
}
