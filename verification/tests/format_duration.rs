use spotify_tui::format_duration::FormatDuration;

#[test]
fn zero_is_zero_minutes() {
    assert_eq!(0i32.to_min_sec_str(), "0:00");
}

#[test]
fn seconds_are_padded() {
    assert_eq!(1000i32.to_min_sec_str(), "0:01");
    assert_eq!(61000i32.to_min_sec_str(), "1:01");
    assert_eq!(59_999i32.to_min_sec_str(), "0:59");
}

#[test]
fn two_digit_values() {
    assert_eq!(754_000i32.to_min_sec_str(), "12:34");
    assert_eq!(600_000i32.to_min_sec_str(), "10:00");
    assert_eq!(3_599_999i32.to_min_sec_str(), "59:59");
}

#[test]
fn negative_values_round_toward_zero() {
    assert_eq!((-61000i32).to_min_sec_str(), "-1:-1");
    assert_eq!((-30500i32).to_min_sec_str(), "0:-30");
    assert_eq!((-5000i32).to_min_sec_str(), "0:-5");
    assert_eq!((-999i32).to_min_sec_str(), "0:00");
    assert_eq!((-120_000i32).to_min_sec_str(), "-2:00");
}

#[test]
fn extremes() {
    assert_eq!(i32::MAX.to_min_sec_str(), "35791:23");
    assert_eq!(i32::MIN.to_min_sec_str(), "-35791:-23");
}

#[test]
fn matches_format_macro() {
    for ms in [-3_700_123i32, -60_000, -1, 0, 1, 999, 1000, 59_000, 60_000, 125_432, 7_654_321] {
        let expected = format!("{}:{:02}", ms / 60000, (ms % 60000) / 1000);
        assert_eq!(ms.to_min_sec_str(), expected);
    }
}
