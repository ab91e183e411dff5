use sprite_animation::{frame_period_nanos, AnimationConfig, FrameTimer};

#[test]
fn frame_period_is_exact_where_the_rate_divides_a_second() {
    assert_eq!(frame_period_nanos(1), 1_000_000_000);
    assert_eq!(frame_period_nanos(20), 50_000_000);
    assert_eq!(frame_period_nanos(250), 4_000_000);
}

#[test]
fn frame_period_rounds_up_to_the_next_nanosecond() {
    assert_eq!(frame_period_nanos(3), 333_333_334);
    assert_eq!(frame_period_nanos(7), 142_857_143);
    assert_eq!(frame_period_nanos(255), 3_921_569);
}

#[test]
fn frame_period_is_never_shorter_than_one_over_fps() {
    for fps in 1..=255u8 {
        let period = frame_period_nanos(fps) as u128;
        let fps = fps as u128;
        assert!(period * fps >= 1_000_000_000);
        assert!((period - 1) * fps < 1_000_000_000);
    }
}

#[test]
fn fresh_timer_has_counted_nothing() {
    let timer = FrameTimer::once(50_000_000);
    assert_eq!(timer.period_nanos(), 50_000_000);
    assert_eq!(timer.elapsed_nanos(), 0);
    assert!(!timer.is_finished());
}

#[test]
fn timer_from_fps_runs_over_one_frame_period() {
    let timer = AnimationConfig::timer_from_fps(20);
    assert_eq!(timer, FrameTimer::once(50_000_000));
    assert_eq!(timer.period_nanos(), 50_000_000);
    assert_eq!(timer.elapsed_nanos(), 0);
}

#[test]
fn tick_adds_up_elapsed_time() {
    let mut timer = FrameTimer::once(50_000_000);
    assert!(!timer.tick(10_000_000));
    assert_eq!(timer.elapsed_nanos(), 10_000_000);
    assert!(!timer.tick(15_000_000));
    assert_eq!(timer.elapsed_nanos(), 25_000_000);
    assert!(!timer.tick(0));
    assert_eq!(timer.elapsed_nanos(), 25_000_000);
    assert!(!timer.is_finished());
}

#[test]
fn tick_fires_when_the_period_is_reached_exactly() {
    let mut timer = FrameTimer::once(50_000_000);
    assert!(!timer.tick(49_999_999));
    assert!(!timer.is_finished());
    assert!(timer.tick(1));
    assert!(timer.is_finished());
    assert_eq!(timer.elapsed_nanos(), 50_000_000);
}

#[test]
fn tick_clamps_an_overshoot_to_the_period() {
    let mut timer = FrameTimer::once(50_000_000);
    assert!(timer.tick(80_000_000));
    assert_eq!(timer.elapsed_nanos(), 50_000_000);
    assert!(timer.is_finished());
}

#[test]
fn tick_fires_only_once() {
    let mut timer = FrameTimer::once(50_000_000);
    assert!(timer.tick(50_000_000));
    for _ in 0..5 {
        assert!(!timer.tick(50_000_000));
        assert!(timer.is_finished());
        assert_eq!(timer.elapsed_nanos(), 50_000_000);
    }
}

#[test]
fn tick_takes_the_longest_elapsed_time() {
    let mut timer = FrameTimer::once(1_000_000_000);
    assert!(!timer.tick(999_999_999));
    assert!(timer.tick(u64::MAX));
    assert_eq!(timer.elapsed_nanos(), 1_000_000_000);
    assert!(!timer.tick(u64::MAX));
}

#[test]
fn tick_on_the_longest_period() {
    let mut timer = FrameTimer::once(u64::MAX);
    assert!(!timer.tick(u64::MAX - 1));
    assert_eq!(timer.elapsed_nanos(), u64::MAX - 1);
    assert!(timer.tick(u64::MAX));
    assert_eq!(timer.elapsed_nanos(), u64::MAX);
}
