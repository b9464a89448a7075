use video_underlay::timing::get_ts_label;
use video_underlay::timing::normalize_reading;
use video_underlay::timing::seconds_to_label;
use video_underlay::timing::seek_bar_permille;
use video_underlay::timing::MAX_TIME_SECONDS;

#[test]
fn label_one_hour_one_minute_one_second() {
    assert_eq!(seconds_to_label(3661), "01:01:01");
}

#[test]
fn label_zero() {
    assert_eq!(seconds_to_label(0), "00:00:00");
}

#[test]
fn label_just_under_a_minute() {
    assert_eq!(seconds_to_label(59), "00:00:59");
}

#[test]
fn label_just_under_an_hour() {
    assert_eq!(seconds_to_label(3599), "00:59:59");
}

#[test]
fn label_just_under_a_day() {
    assert_eq!(seconds_to_label(86399), "23:59:59");
}

#[test]
fn label_hours_widen_past_two_digits() {
    assert_eq!(seconds_to_label(360000), "100:00:00");
    assert_eq!(seconds_to_label(359999), "99:59:59");
    assert_eq!(seconds_to_label(3600000 + 754), "1000:12:34");
}

#[test]
fn label_pattern_holds_across_values() {
    for &s in &[0i64, 1, 59, 60, 61, 3599, 3600, 3661, 86399, 86400, 359999, 360000, 987654321] {
        let label = seconds_to_label(s);
        let bytes = label.as_bytes();
        let n = bytes.len();
        assert!(n >= 8);
        assert_eq!(bytes[n - 3], b':');
        assert_eq!(bytes[n - 6], b':');
        for (i, &b) in bytes.iter().enumerate() {
            if i == n - 3 || i == n - 6 {
                continue;
            }
            assert!(b.is_ascii_digit());
        }
        let minutes: i64 = label[n - 5..n - 3].parse().unwrap();
        let seconds: i64 = label[n - 2..].parse().unwrap();
        assert!((0..60).contains(&minutes));
        assert!((0..60).contains(&seconds));
        assert_eq!(minutes, (s / 60) % 60);
        assert_eq!(seconds, s % 60);
    }
}

#[test]
fn ts_label_pairs_position_and_duration() {
    assert_eq!(get_ts_label(Some(3661), Some(7200)), "01:01:01 / 02:00:00");
}

#[test]
fn ts_label_unknown_readings_render_as_zero() {
    assert_eq!(get_ts_label(None, None), "00:00:00 / 00:00:00");
    assert_eq!(get_ts_label(None, Some(90)), "00:00:00 / 00:01:30");
    assert_eq!(get_ts_label(Some(90), None), "00:01:30 / 00:00:00");
}

#[test]
fn normalize_reading_clamps() {
    assert_eq!(normalize_reading(None), 0);
    assert_eq!(normalize_reading(Some(-5)), 0);
    assert_eq!(normalize_reading(Some(7)), 7);
    assert_eq!(normalize_reading(Some(i64::MAX)), MAX_TIME_SECONDS);
}

#[test]
fn seek_bar_ratio_values() {
    assert_eq!(seek_bar_permille(Some(50), Some(200)), 250);
    assert_eq!(seek_bar_permille(Some(1), Some(3)), 333);
    assert_eq!(seek_bar_permille(Some(200), Some(200)), 1000);
    assert_eq!(seek_bar_permille(Some(300), Some(200)), 1000);
    assert_eq!(seek_bar_permille(Some(-5), Some(200)), 0);
    assert_eq!(seek_bar_permille(None, Some(200)), 0);
    assert_eq!(seek_bar_permille(Some(50), None), 0);
    assert_eq!(seek_bar_permille(None, None), 0);
}
