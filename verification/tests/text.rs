use welosa::text::{decimal_string, padded_integer_string};
use welosa::timecode::{beat_in_bar, formatted_time};

#[test]
fn decimal_strings() {
    assert_eq!(decimal_string(0), "0");
    assert_eq!(decimal_string(7), "7");
    assert_eq!(decimal_string(10), "10");
    assert_eq!(decimal_string(1203), "1203");
    assert_eq!(decimal_string(u64::MAX), u64::MAX.to_string());
}

#[test]
fn padded_integers_match_format() {
    for v in [-1000i64, -12, -5, -1, 0, 3, 42, 999, 12345] {
        for w in 0..5u64 {
            assert_eq!(padded_integer_string(v, w), format!("{:0w$}", v, w = w as usize));
        }
    }
    assert_eq!(padded_integer_string(i64::MIN, 3), format!("{:03}", i64::MIN));
}

#[test]
fn clock_display() {
    assert_eq!(formatted_time(1, 5, 42), "01:05:042");
    assert_eq!(formatted_time(0, 0, 0), "00:00:000");
    assert_eq!(formatted_time(123, 59, 999), "123:59:999");
    assert_eq!(formatted_time(-1, 0, 0), "-1:00:000");
}

#[test]
fn beats_count_one_to_four() {
    assert_eq!(beat_in_bar(0), 1);
    assert_eq!(beat_in_bar(3), 4);
    assert_eq!(beat_in_bar(4), 1);
    assert_eq!(beat_in_bar(9), 2);
    assert_eq!(beat_in_bar(-1), 4);
    assert_eq!(beat_in_bar(i32::MIN), 1);
}
