use spotify_tui::util::DivisibleBy;

#[test]
fn floor_rounds_down_to_multiple() {
    assert_eq!(7u8.floor_to_nearest(5), 5);
    assert_eq!(10u8.floor_to_nearest(5), 10);
    assert_eq!(0u8.floor_to_nearest(2), 0);
    assert_eq!(255u8.floor_to_nearest(255), 255);
    assert_eq!(254u8.floor_to_nearest(255), 0);
    assert_eq!(99u8.floor_to_nearest(2), 98);
}

#[test]
fn ceil_rounds_up_to_multiple() {
    assert_eq!(7u8.ceil_to_nearest(5), 10);
    assert_eq!(10u8.ceil_to_nearest(5), 10);
    assert_eq!(0u8.ceil_to_nearest(2), 0);
    assert_eq!(99u8.ceil_to_nearest(2), 100);
    assert_eq!(1u8.ceil_to_nearest(255), 255);
    assert_eq!(255u8.ceil_to_nearest(1), 255);
}

#[test]
fn floor_and_ceil_bracket_the_number() {
    for step in 1usize..=20 {
        for x in 0u8..=200 {
            let f = x.floor_to_nearest(step);
            let c = x.ceil_to_nearest(step);
            assert!(f as usize % step == 0 && c as usize % step == 0);
            assert!(f <= x && x <= c);
            assert!(((x - f) as usize) < step);
            assert!(((c - x) as usize) < step);
        }
    }
}

#[test]
fn negative_numbers_round_toward_zero_and_away() {
    assert_eq!((-7i32).floor_to_nearest(5), -5);
    assert_eq!((-7i32).ceil_to_nearest(5), 0);
    assert_eq!((-10i32).floor_to_nearest(5), -10);
    assert_eq!((-10i32).ceil_to_nearest(5), -10);
    assert_eq!((-128i8).floor_to_nearest(3), -126);
    assert_eq!((-128i8).ceil_to_nearest(3), -123);
    assert_eq!(7i64.floor_to_nearest(5), 5);
    assert_eq!(7i64.ceil_to_nearest(5), 10);
}

#[test]
fn every_integer_type_matches_the_remainder_formula() {
    for step in 1u8..=13 {
        for x in -60i16..=60 {
            let s = step as i16;
            let rem = x % s;
            let floor = x - rem;
            let ceil = if rem == 0 { x } else { x + (s - rem) };
            assert_eq!((x as i8).floor_to_nearest(step as usize) as i16, floor);
            assert_eq!((x as i8).ceil_to_nearest(step as usize) as i16, ceil);
            assert_eq!(x.floor_to_nearest(step as usize), floor);
            assert_eq!(x.ceil_to_nearest(step as usize), ceil);
            assert_eq!((x as i32).floor_to_nearest(step as usize) as i16, floor);
            assert_eq!((x as i64).ceil_to_nearest(step as usize) as i16, ceil);
            assert_eq!((x as i128).floor_to_nearest(step as usize) as i16, floor);
            assert_eq!((x as isize).ceil_to_nearest(step as usize) as i16, ceil);
            if x >= 0 {
                assert_eq!((x as u16).floor_to_nearest(step as usize) as i16, floor);
                assert_eq!((x as u32).ceil_to_nearest(step as usize) as i16, ceil);
                assert_eq!((x as u64).floor_to_nearest(step as usize) as i16, floor);
                assert_eq!((x as u128).ceil_to_nearest(step as usize) as i16, ceil);
                assert_eq!((x as usize).floor_to_nearest(step as usize) as i16, floor);
            }
        }
    }
}

#[test]
fn large_values() {
    assert_eq!(u128::MAX.floor_to_nearest(2), u128::MAX - 1);
    assert_eq!(i128::MIN.floor_to_nearest(10), i128::MIN + 8);
    assert_eq!(u64::MAX.ceil_to_nearest(1), u64::MAX);
}
