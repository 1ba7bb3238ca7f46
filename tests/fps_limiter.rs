use rust_game::fps_limiter::{FPSLimiter, UpdatePlan, DEFAULT_FRAME_TIME_MICROS};

#[test]
fn new_limiter_aims_at_sixty_frames() {
    let l = FPSLimiter::new();
    assert_eq!(l.frame_time_prefer(), 16666);
    assert_eq!(DEFAULT_FRAME_TIME_MICROS, 16666);
    assert_eq!(l.delta_frame(), 0);
    assert_eq!(l.frame_time_sum(), 0);
}

#[test]
fn tick_frame_keeps_the_microseconds_part() {
    let mut l = FPSLimiter::new();
    l.tick_frame(1_500_250_999);
    assert_eq!(l.delta_frame(), 500_250);
    assert_eq!(l.frame_time_sum(), 500_250);
}

#[test]
fn samples_roll_over_after_five_frames() {
    let mut l = FPSLimiter::new();
    for i in 1..=5u64 {
        l.tick_frame(i * 1_000_000);
    }
    // each whole-millisecond duration contributes i * 1000 microseconds
    assert_eq!(l.frame_time_sum(), 15_000);
    l.tick_frame(100_000_000);
    assert_eq!(l.frame_time_sum(), 15_000 - 1_000 + 100_000);
}

#[test]
fn catch_up_runs_whole_steps_and_sleeps_the_rest() {
    let mut l = FPSLimiter::new();
    l.tick_frame(50_000_000);
    let plan = l.catch_up();
    assert_eq!(plan, UpdatePlan { updates: 3, sleep_nanos: 16_666_000 - 2_000 });
    let again = l.catch_up();
    assert_eq!(again, UpdatePlan { updates: 0, sleep_nanos: 16_666_000 - 2_000 });
}

#[test]
fn lag_saturates() {
    let mut l = FPSLimiter::new();
    l.tick_frame(u64::MAX);
    l.tick_frame(u64::MAX);
    let step = 16_666_000u64;
    assert_eq!(l.catch_up().updates, u64::MAX / step);
}

#[test]
fn preferred_frame_time_can_change() {
    let mut l = FPSLimiter::new();
    l.set_frame_time_prefer(1000);
    l.tick_frame(2_500_000);
    assert_eq!(l.catch_up(), UpdatePlan { updates: 2, sleep_nanos: 500_000 });
}
