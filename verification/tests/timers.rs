use picture_frame::timer::{RedrawTimer, RotationTimer};

#[test]
fn rotation_not_due_before_interval() {
    let timer = RotationTimer::new(10, 5_000);
    assert!(!timer.due(5_000));
    assert!(!timer.due(14_999));
}

#[test]
fn rotation_due_at_the_boundary() {
    let timer = RotationTimer::new(10, 5_000);
    assert!(timer.due(15_000));
    assert!(timer.due(15_001));
    assert!(timer.due(u64::MAX));
}

#[test]
fn rotation_with_zero_interval_is_always_due() {
    let timer = RotationTimer::new(0, 77);
    assert!(timer.due(77));
    assert!(timer.due(0));
}

#[test]
fn rotation_ignores_a_clock_that_went_back() {
    let timer = RotationTimer::new(1, 10_000);
    assert!(!timer.due(0));
}

#[test]
fn rotation_with_huge_interval_is_never_due() {
    let timer = RotationTimer::new(u64::MAX, 0);
    assert!(!timer.due(u64::MAX));
    let timer = RotationTimer::new(u64::MAX / 1000 + 1, 0);
    assert!(!timer.due(u64::MAX));
}

#[test]
fn rotation_reset_moves_the_baseline() {
    let mut timer = RotationTimer::new(3600, 0);
    assert!(timer.due(3_600_000));
    timer.reset(3_600_000);
    assert_eq!(timer, RotationTimer { interval_secs: 3600, last_swap: 3_600_000 });
    assert!(!timer.due(3_600_000));
    assert!(!timer.due(7_199_999));
    assert!(timer.due(7_200_000));
}

#[test]
fn redraw_timer_arms_with_its_interval() {
    let mut timer = RedrawTimer::new(1000, 0);
    assert_eq!(timer.arm(250), 1000);
    assert_eq!(timer, RedrawTimer { interval_ms: 1000, last_fired: 250 });
    assert_eq!(timer.arm(1250), 1000);
    assert_eq!(timer.last_fired, 1250);
}
