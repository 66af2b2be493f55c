use desperate_dig::angle::{advance, FULL_TURN};

#[test]
fn a_second_at_half_a_turn_per_second_is_half_a_turn() {
    assert_eq!(advance(0, 180, 1000), 180_000);
}

#[test]
fn forward_turn_wraps_past_a_full_turn() {
    assert_eq!(advance(359_000, 180, 10), 800);
    assert_eq!(advance(0, 180, 2000), 0);
    assert_eq!(advance(0, 180, 2001), 180);
}

#[test]
fn backward_turn_goes_negative_and_stays_negative() {
    assert_eq!(advance(0, -180, 10), -1_800);
    assert_eq!(advance(-1_800, -180, 10), -3_600);
    assert_eq!(advance(0, -180, 2001), -180);
    assert_eq!(advance(-359_999, -180, 1), -179);
}

#[test]
fn negative_angle_turned_forward_crosses_zero() {
    assert_eq!(advance(-1_000, 180, 5), -100);
    assert_eq!(advance(-1_000, 180, 10), 800);
    assert_eq!(advance(-359_999, 1, 359_999), 0);
    assert_eq!(advance(-5, 2, 2), -1);
    assert_eq!(advance(-100, 180, 2000), 359_900);
}

#[test]
fn positive_angle_turned_backward_crosses_zero() {
    assert_eq!(advance(1_000, -180, 5), 100);
    assert_eq!(advance(1_000, -180, 10), -800);
}

#[test]
fn no_time_or_no_rate_changes_nothing() {
    assert_eq!(advance(12_345, 180, 0), 12_345);
    assert_eq!(advance(-12_345, -180, 0), -12_345);
    assert_eq!(advance(12_345, 0, 1_000_000), 12_345);
    assert_eq!(advance(-12_345, 0, u128::MAX), -12_345);
}

#[test]
fn an_angle_outside_the_wrap_range_is_wrapped() {
    assert_eq!(advance(720_001, 0, 0), 1);
    assert_eq!(advance(-720_001, 0, 0), -1);
    assert_eq!(advance(i32::MIN, 0, 0), -83_648);
}

#[test]
fn the_longest_time_and_the_fastest_rate_are_exact() {
    assert_eq!(advance(0, 180, u128::MAX), 261_900);
    assert_eq!(advance(0, -180, u128::MAX), -261_900);
    assert_eq!(advance(0, 4_294_967_295, u128::MAX), 324_225);
    assert_eq!(advance(i32::MIN, i64::MAX, u128::MAX), 265_537);
    assert_eq!(advance(i32::MAX, i64::MIN, u128::MAX), -236_993);
}

#[test]
fn every_result_lies_in_the_wrap_range() {
    let mut angle: i32 = 0;
    let mut rate: i64 = 180;
    let mut elapsed: u128 = 1;
    for _ in 0..200 {
        angle = advance(angle, rate, elapsed);
        assert!(-FULL_TURN < angle && angle < FULL_TURN);
        elapsed = elapsed * 7 + 3;
        rate = -rate;
    }
}
