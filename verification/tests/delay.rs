use lag_metrics::delay::{DelayControl, DELAY_MS_STEP};

#[test]
fn starts_with_no_stall() {
    let d = DelayControl::new();
    assert_eq!(d.current_ms(), 0);
}

#[test]
fn decrement_saturates_at_zero() {
    let mut d = DelayControl::new();
    d.decrease();
    assert_eq!(d.current_ms(), 0);
    d.decrease();
    assert_eq!(d.current_ms(), 0);
}

#[test]
fn increases_in_fixed_steps() {
    let mut d = DelayControl::new();
    d.increase();
    assert_eq!(d.current_ms(), DELAY_MS_STEP);
    d.increase();
    assert_eq!(d.current_ms(), 2 * DELAY_MS_STEP);
    d.increase();
    assert_eq!(d.current_ms(), 3 * DELAY_MS_STEP);
}

#[test]
fn decrement_undoes_one_step() {
    let mut d = DelayControl::new();
    d.increase();
    d.increase();
    d.decrease();
    assert_eq!(d.current_ms(), DELAY_MS_STEP);
    d.decrease();
    assert_eq!(d.current_ms(), 0);
    d.decrease();
    assert_eq!(d.current_ms(), 0);
}

#[test]
fn partial_step_still_reaches_zero() {
    let mut d = DelayControl { ms: 3 };
    d.decrease();
    assert_eq!(d.current_ms(), 0);
}

#[test]
fn step_up_near_the_limit() {
    let mut d = DelayControl { ms: u32::MAX - DELAY_MS_STEP };
    d.increase();
    assert_eq!(d.current_ms(), u32::MAX);
}
