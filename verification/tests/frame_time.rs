use lag_metrics::frame_time::{ema_update, FrameTimer, DEFAULT_SMOOTHING_FACTOR};

#[test]
fn first_tick_only_seeds_the_baseline() {
    let mut t = FrameTimer::new(DEFAULT_SMOOTHING_FACTOR);
    assert_eq!(t.smoothed_frame_time(), 0);
    t.tick(1_000);
    assert_eq!(t.smoothed_frame_time(), 0);
    t.tick(1_800);
    assert_eq!(t.smoothed_frame_time(), 100);
}

#[test]
fn ema_exact_values_factor_eight() {
    assert_eq!(ema_update(0, 800, 8), 100);
    assert_eq!(ema_update(100, 800, 8), 187);
    assert_eq!(ema_update(187, 800, 8), 263);
}

#[test]
fn ema_exact_values_factor_sixteen() {
    assert_eq!(ema_update(0, 1_600, 16), 100);
    assert_eq!(ema_update(100, 1_600, 16), 193);
}

#[test]
fn ema_factor_one_takes_the_sample_unsmoothed() {
    assert_eq!(ema_update(50, 300, 1), 300);
}

#[test]
fn ema_converges_to_constant_input_from_above() {
    let mut s: u64 = 10_000;
    for _ in 0..200 {
        s = ema_update(s, 800, 8);
    }
    assert_eq!(s, 800);
}

#[test]
fn ema_converges_near_constant_input_from_below() {
    let mut s: u64 = 0;
    for _ in 0..200 {
        s = ema_update(s, 800, 8);
    }
    // From below the integer average settles within factor - 1 of the input.
    assert!(s <= 800 && s + 8 > 800);
    assert_eq!(s, 793);
}

#[test]
fn ema_distance_never_grows() {
    let target: u64 = 640;
    let mut s: u64 = 13;
    let mut last_dist = target - s;
    for _ in 0..50 {
        s = ema_update(s, target, 8);
        let d = if s >= target { s - target } else { target - s };
        assert!(d <= last_dist);
        last_dist = d;
    }
}

#[test]
fn backward_clock_counts_as_zero_delta() {
    let mut t = FrameTimer::new(8);
    t.tick(0);
    t.tick(800);
    assert_eq!(t.smoothed_frame_time(), 100);
    t.tick(400);
    assert_eq!(t.smoothed_frame_time(), 87);
}

#[test]
fn large_timestamps_do_not_overflow() {
    let mut t = FrameTimer::new(16);
    t.tick(u64::MAX - 1);
    t.tick(u64::MAX);
    assert_eq!(t.smoothed_frame_time(), 0);
    assert_eq!(ema_update(u64::MAX, u64::MAX, u64::MAX), u64::MAX);
}
