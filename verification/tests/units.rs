use bevy_playground::units::{clamp, isqrt, ONE};

#[test]
fn one_is_a_billion() {
    assert_eq!(ONE, 1_000_000_000);
}

#[test]
fn clamp_keeps_what_is_within() {
    assert_eq!(clamp(5, -10, 10), 5);
    assert_eq!(clamp(-10, -10, 10), -10);
    assert_eq!(clamp(10, -10, 10), 10);
}

#[test]
fn clamp_holds_what_is_beyond() {
    assert_eq!(clamp(11, -10, 10), 10);
    assert_eq!(clamp(-11, -10, 10), -10);
    assert_eq!(clamp(i128::MAX, -10, 10), 10);
    assert_eq!(clamp(i128::MIN, -10, 10), -10);
}

#[test]
fn isqrt_of_small_numbers() {
    assert_eq!(isqrt(0), 0);
    assert_eq!(isqrt(1), 1);
    assert_eq!(isqrt(2), 1);
    assert_eq!(isqrt(3), 1);
    assert_eq!(isqrt(4), 2);
    assert_eq!(isqrt(8), 2);
    assert_eq!(isqrt(9), 3);
    assert_eq!(isqrt(99), 9);
    assert_eq!(isqrt(100), 10);
}

#[test]
fn isqrt_of_large_numbers() {
    assert_eq!(isqrt(1_000_000_000_000_000_000_000_000_000_000), 1_000_000_000_000_000);
    assert_eq!(isqrt(1 << 127), 13_043_817_825_332_782_212);
    assert_eq!(isqrt(u128::MAX), u64::MAX);
}

#[test]
fn isqrt_rounds_down() {
    let mut n: u128 = 0;
    while n < 5_000 {
        let r = isqrt(n) as u128;
        assert!(r * r <= n);
        assert!(n < (r + 1) * (r + 1));
        n += 1;
    }
}
