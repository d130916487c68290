use spotify_tui::expiring_value::ExpiringValue;

const SECOND: u128 = 1_000_000_000;

#[test]
fn new_value_shows_itself() {
    let v = ExpiringValue::new(7u8, 5 * SECOND);
    assert_eq!(v.get(), 7);
    let s = ExpiringValue::new(String::from("abc"), 0);
    assert_eq!(s.get(), "abc");
}

#[test]
fn unset_value_shows_the_expired_value() {
    let mut v = ExpiringValue::new(1u8, 5 * SECOND);
    v.set_expired(9);
    assert_eq!(v.get(), 9);
    assert_eq!(v.value_after(0), 9);
    assert_eq!(v.value_after(10 * SECOND), 9);
}

#[test]
fn set_value_shows_until_it_expires() {
    let mut v = ExpiringValue::new(1u8, 60 * SECOND);
    v.set(5);
    v.set_expired(9);
    assert_eq!(v.get(), 5);
    assert_eq!(v.value_after(0), 5);
    assert_eq!(v.value_after(60 * SECOND - 1), 5);
    assert_eq!(v.value_after(60 * SECOND), 9);
    assert_eq!(v.value_after(1000 * SECOND), 9);
}

#[test]
fn window_below_a_millisecond() {
    let mut v = ExpiringValue::new(0u8, 1500);
    v.set(3);
    v.set_expired(4);
    assert_eq!(v.value_after(1499), 3);
    assert_eq!(v.value_after(1500), 4);
}

#[test]
fn zero_window_falls_back_at_once() {
    let mut v = ExpiringValue::new(false, 0);
    v.set(true);
    assert_eq!(v.get(), false);
    assert_eq!(v.value_after(0), false);
}

#[test]
fn set_value_expires_in_real_time() {
    let mut v = ExpiringValue::new(0u8, SECOND / 50);
    v.set(3);
    v.set_expired(4);
    let start = std::time::Instant::now();
    while start.elapsed() < std::time::Duration::from_millis(40) {}
    assert_eq!(v.get(), 4);
}
