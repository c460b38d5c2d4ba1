use std::time::Instant;

use rustcraft::clock::{saturate_nanos, FrameStart};

fn reading(origin: &Instant) -> u64 {
    saturate_nanos(origin.elapsed().as_nanos())
}

#[test]
fn elapsed_right_after_now_is_small() {
    let origin = Instant::now();
    let start = FrameStart::now(reading(&origin));
    let first = start.elapsed(reading(&origin));
    let second = start.elapsed(reading(&origin));
    assert!(second >= first);
    assert!(second < 1_000_000_000);
}

#[test]
fn elapsed_is_the_distance_between_readings() {
    let start = FrameStart::now(1_000);
    assert_eq!(start.start_nanos(), 1_000);
    assert_eq!(start.elapsed(1_000), 0);
    assert_eq!(start.elapsed(17_667), 16_667);
    assert_eq!(start.elapsed(u64::MAX), u64::MAX - 1_000);
}

#[test]
fn reading_before_the_start_saturates_to_zero() {
    let start = FrameStart::now(5_000);
    assert_eq!(start.elapsed(4_999), 0);
    assert_eq!(start.elapsed(0), 0);
}

#[test]
fn set_now_restarts_the_frame() {
    let mut start = FrameStart::now(0);
    assert_eq!(start.elapsed(20_000_000), 20_000_000);
    start.set_now(20_000_000);
    assert_eq!(start.start_nanos(), 20_000_000);
    assert_eq!(start.elapsed(20_000_000), 0);
    assert_eq!(start.elapsed(25_000_000), 5_000_000);
}

#[test]
fn set_now_on_the_real_clock_shrinks_elapsed() {
    let origin = Instant::now();
    let mut start = FrameStart::now(reading(&origin));
    while start.elapsed(reading(&origin)) < 2_000_000 {
        std::hint::spin_loop();
    }
    let before = start.elapsed(reading(&origin));
    start.set_now(reading(&origin));
    let after = start.elapsed(reading(&origin));
    assert!(after < before);
}

#[test]
fn nanos_saturate_instead_of_wrapping() {
    assert_eq!(saturate_nanos(0), 0);
    assert_eq!(saturate_nanos(16_666_667), 16_666_667);
    assert_eq!(saturate_nanos(u64::MAX as u128), u64::MAX);
    assert_eq!(saturate_nanos(u64::MAX as u128 + 1), u64::MAX);
    assert_eq!(saturate_nanos(u128::MAX), u64::MAX);
}
