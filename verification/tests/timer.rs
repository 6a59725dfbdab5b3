use bevy::time::{Timer, TimerMode};
use player_animation::player::{spawn_player, AnimationTimer, ANIM_PERIOD_NANOS};
use std::time::Duration;

#[test]
fn new_timer_has_its_period_ahead() {
    let timer = AnimationTimer::new(250);
    assert_eq!(timer, AnimationTimer { period_nanos: 250, elapsed_nanos: 0 });
}

#[test]
fn animation_period_is_a_tenth_of_a_second() {
    assert_eq!(ANIM_PERIOD_NANOS, 100_000_000);
    assert_eq!(Duration::from_nanos(ANIM_PERIOD_NANOS), Duration::from_millis(100));
    assert_eq!(spawn_player().timer, AnimationTimer::new(100_000_000));
}

#[test]
fn reset_clears_the_elapsed_time_only() {
    let mut timer = AnimationTimer { period_nanos: 100, elapsed_nanos: 60 };
    timer.reset();
    assert_eq!(timer, AnimationTimer { period_nanos: 100, elapsed_nanos: 0 });
}

#[test]
fn tick_below_the_period_only_adds_up() {
    let mut timer = AnimationTimer::new(100_000_000);
    assert!(!timer.tick(16_000_000));
    assert_eq!(timer.elapsed_nanos, 16_000_000);
    assert!(!timer.tick(16_000_000));
    assert_eq!(timer.elapsed_nanos, 32_000_000);
    assert_eq!(timer.period_nanos, 100_000_000);
}

#[test]
fn tick_that_reaches_the_period_finishes_and_keeps_the_rest() {
    let mut timer = AnimationTimer { period_nanos: 100_000_000, elapsed_nanos: 90_000_000 };
    assert!(timer.tick(16_000_000));
    assert_eq!(timer, AnimationTimer { period_nanos: 100_000_000, elapsed_nanos: 6_000_000 });
}

#[test]
fn tick_onto_the_period_exactly_finishes_with_nothing_left() {
    let mut timer = AnimationTimer { period_nanos: 100, elapsed_nanos: 40 };
    assert!(timer.tick(60));
    assert_eq!(timer.elapsed_nanos, 0);
    assert!(!timer.tick(99));
    assert_eq!(timer.elapsed_nanos, 99);
    assert!(timer.tick(1));
    assert_eq!(timer.elapsed_nanos, 0);
}

#[test]
fn tick_over_several_periods_keeps_the_remainder() {
    let mut timer = AnimationTimer { period_nanos: 100, elapsed_nanos: 30 };
    assert!(timer.tick(1_000));
    assert_eq!(timer.elapsed_nanos, 30);
    assert!(timer.tick(275));
    assert_eq!(timer.elapsed_nanos, 5);
}

#[test]
fn tick_of_no_time_changes_nothing() {
    let mut timer = AnimationTimer { period_nanos: 100, elapsed_nanos: 30 };
    assert!(!timer.tick(0));
    assert_eq!(timer, AnimationTimer { period_nanos: 100, elapsed_nanos: 30 });
}

#[test]
fn timer_without_a_period_always_finishes_and_holds_no_time() {
    let mut timer = AnimationTimer { period_nanos: 0, elapsed_nanos: 0 };
    assert!(timer.tick(0));
    assert_eq!(timer.elapsed_nanos, 0);
    assert!(timer.tick(12_345));
    assert_eq!(timer.elapsed_nanos, 0);
    let mut timer = AnimationTimer { period_nanos: 0, elapsed_nanos: 77 };
    assert!(timer.tick(1));
    assert_eq!(timer.elapsed_nanos, 0);
}

#[test]
fn the_count_of_periods_wraps_in_32_bits() {
    // 2^32 periods in one tick count as none, 2^32 + 1 as one.
    let mut timer = AnimationTimer { period_nanos: 1, elapsed_nanos: 0 };
    assert!(!timer.tick(0x1_0000_0000));
    assert_eq!(timer.elapsed_nanos, 0);
    assert!(timer.tick(0x1_0000_0001));
    assert_eq!(timer.elapsed_nanos, 0);
    let mut timer = AnimationTimer { period_nanos: 3, elapsed_nanos: 2 };
    assert!(!timer.tick(3 * 0x1_0000_0000 - 1));
    assert_eq!(timer.elapsed_nanos, 1);
}

#[test]
fn the_largest_times_do_not_overflow() {
    let mut timer = AnimationTimer { period_nanos: u64::MAX, elapsed_nanos: u64::MAX };
    assert!(timer.tick(u64::MAX));
    // 2 * (2^64 - 1) = 2 * period: two periods, nothing left.
    assert_eq!(timer.elapsed_nanos, 0);
    let mut timer = AnimationTimer { period_nanos: u64::MAX, elapsed_nanos: 5 };
    assert!(!timer.tick(u64::MAX - 6));
    assert_eq!(timer.elapsed_nanos, u64::MAX - 1);
    assert!(timer.tick(3));
    assert_eq!(timer.elapsed_nanos, 2);
}

#[test]
fn ticks_agree_with_one_bevy_timer_kept_across_ticks() {
    let deltas: [u64; 12] = [
        16_666_667, 16_666_667, 33_000_000, 1, 40_000_000, 99_999_999, 100_000_000, 0,
        250_000_000, 7, 16_666_667, 1_000_000_000,
    ];
    let mut ours = AnimationTimer::new(ANIM_PERIOD_NANOS);
    let mut theirs = Timer::new(Duration::from_millis(100), TimerMode::Repeating);
    for delta in deltas {
        let finished = ours.tick(delta);
        theirs.tick(Duration::from_nanos(delta));
        assert_eq!(finished, theirs.just_finished());
        assert_eq!(u128::from(ours.elapsed_nanos), theirs.elapsed().as_nanos());
    }
    ours.reset();
    theirs.reset();
    assert_eq!(u128::from(ours.elapsed_nanos), theirs.elapsed().as_nanos());
    assert!(!ours.tick(50_000_000));
    theirs.tick(Duration::from_nanos(50_000_000));
    assert!(!theirs.just_finished());
    assert_eq!(u128::from(ours.elapsed_nanos), theirs.elapsed().as_nanos());
}
