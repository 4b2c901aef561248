use purple_cubes::timer::{Timer, TimerMode, NANOS_PER_SECOND};

const MS: u64 = 1_000_000;

#[test]
fn fresh_timer_has_not_run() {
    let timer = Timer::new(2 * NANOS_PER_SECOND, TimerMode::Repeating);
    assert_eq!(timer.duration_ns(), 2_000_000_000);
    assert_eq!(timer.elapsed_ns(), 0);
    assert_eq!(timer.mode(), TimerMode::Repeating);
    assert!(!timer.finished());
    assert!(!timer.just_finished());
    assert_eq!(timer.times_finished_this_tick(), 0);
}

#[test]
fn repeating_timer_carries_the_remainder() {
    let mut timer = Timer::new(2000 * MS, TimerMode::Repeating);
    timer.tick(1200 * MS);
    assert!(!timer.finished());
    assert!(!timer.just_finished());
    assert_eq!(timer.elapsed_ns(), 1200 * MS);
    timer.tick(1300 * MS);
    assert!(timer.finished());
    assert!(timer.just_finished());
    assert_eq!(timer.times_finished_this_tick(), 1);
    assert_eq!(timer.elapsed_ns(), 500 * MS);
}

#[test]
fn repeating_timer_is_finished_for_one_tick_only() {
    let mut timer = Timer::new(1000 * MS, TimerMode::Repeating);
    timer.tick(1000 * MS);
    assert!(timer.finished());
    assert_eq!(timer.elapsed_ns(), 0);
    timer.tick(10 * MS);
    assert!(!timer.finished());
    assert!(!timer.just_finished());
    assert_eq!(timer.elapsed_ns(), 10 * MS);
}

#[test]
fn repeating_timer_counts_every_cycle_of_a_long_tick() {
    let mut timer = Timer::new(2000 * MS, TimerMode::Repeating);
    timer.tick(7000 * MS);
    assert!(timer.just_finished());
    assert_eq!(timer.times_finished_this_tick(), 3);
    assert_eq!(timer.elapsed_ns(), 1000 * MS);
}

#[test]
fn repeating_timer_completes_one_cycle_per_duration() {
    let deltas = [300 * MS, 900 * MS, 0, 2500 * MS, 50 * MS, 4250 * MS, 1];
    let mut timer = Timer::new(1000 * MS, TimerMode::Repeating);
    let mut cycles: u128 = 0;
    let mut total: u64 = 0;
    for delta in deltas {
        timer.tick(delta);
        cycles += timer.times_finished_this_tick();
        total += delta;
        assert_eq!(timer.just_finished(), timer.times_finished_this_tick() > 0);
    }
    assert_eq!(cycles, (total / (1000 * MS)) as u128);
    assert_eq!(cycles, 8);
    assert_eq!(timer.elapsed_ns(), total % (1000 * MS));
    assert_eq!(timer.elapsed_ns(), 1);
}

#[test]
fn repeating_timer_survives_the_largest_deltas() {
    let mut timer = Timer::new(1, TimerMode::Repeating);
    timer.tick(u64::MAX);
    assert_eq!(timer.times_finished_this_tick(), u64::MAX as u128);
    assert_eq!(timer.elapsed_ns(), 0);
    let mut timer = Timer::new(u64::MAX, TimerMode::Repeating);
    timer.tick(u64::MAX - 1);
    timer.tick(u64::MAX);
    assert_eq!(timer.times_finished_this_tick(), 1);
    assert_eq!(timer.elapsed_ns(), u64::MAX - 1);
}

#[test]
fn one_shot_timer_stops_at_its_duration() {
    let mut timer = Timer::new(1000 * MS, TimerMode::OneShot);
    timer.tick(400 * MS);
    assert!(!timer.finished());
    assert_eq!(timer.elapsed_ns(), 400 * MS);
    timer.tick(1500 * MS);
    assert!(timer.finished());
    assert!(timer.just_finished());
    assert_eq!(timer.times_finished_this_tick(), 1);
    assert_eq!(timer.elapsed_ns(), 1000 * MS);
}

#[test]
fn one_shot_timer_stays_finished_until_reset() {
    let mut timer = Timer::new(1000 * MS, TimerMode::OneShot);
    timer.tick(1000 * MS);
    assert!(timer.just_finished());
    for _ in 0..5 {
        timer.tick(700 * MS);
        assert!(timer.finished());
        assert!(!timer.just_finished());
        assert_eq!(timer.times_finished_this_tick(), 0);
        assert_eq!(timer.elapsed_ns(), 1000 * MS);
    }
    timer.reset();
    assert!(!timer.finished());
    assert!(!timer.just_finished());
    assert_eq!(timer.elapsed_ns(), 0);
    assert_eq!(timer.duration_ns(), 1000 * MS);
    timer.tick(999 * MS);
    assert!(!timer.finished());
    timer.tick(MS);
    assert!(timer.finished());
}

#[test]
fn one_shot_timer_of_no_duration_finishes_at_once() {
    let mut timer = Timer::new(0, TimerMode::OneShot);
    timer.tick(0);
    assert!(timer.finished());
    assert!(timer.just_finished());
}

#[test]
fn a_tick_of_nothing_changes_nothing() {
    let mut timer = Timer::new(1000 * MS, TimerMode::Repeating);
    timer.tick(250 * MS);
    let before = timer;
    timer.tick(0);
    assert_eq!(timer, before);
}

#[test]
fn set_duration_keeps_the_elapsed_time() {
    let mut timer = Timer::new(2000 * MS, TimerMode::Repeating);
    timer.tick(1700 * MS);
    timer.set_duration(1200 * MS);
    assert_eq!(timer.duration_ns(), 1200 * MS);
    assert_eq!(timer.elapsed_ns(), 1700 * MS);
    assert!(!timer.finished());
    timer.tick(0);
    assert!(timer.finished());
    assert_eq!(timer.times_finished_this_tick(), 1);
    assert_eq!(timer.elapsed_ns(), 500 * MS);
}

#[test]
fn reset_of_a_repeating_timer_starts_the_cycle_over() {
    let mut timer = Timer::new(1000 * MS, TimerMode::Repeating);
    timer.tick(2600 * MS);
    assert_eq!(timer.times_finished_this_tick(), 2);
    timer.reset();
    assert_eq!(timer.elapsed_ns(), 0);
    assert!(!timer.finished());
    assert_eq!(timer.times_finished_this_tick(), 0);
    assert_eq!(timer.mode(), TimerMode::Repeating);
}
