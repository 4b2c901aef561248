use purple_cubes::message::{draw_pick, instruction, Message, Tier, POOL_SIZE};
use purple_cubes::spawner::{
    cube_size, draw_spawn, SpawnDraw, Spawner, FIRST_INTERVAL_NS, MAX_INTERVAL_NS, MIN_INTERVAL_NS,
};
use purple_cubes::timer::TimerMode;
use rand::rngs::StdRng;
use rand::SeedableRng;

#[test]
fn cube_size_is_a_twentieth_of_the_longer_side() {
    assert_eq!(cube_size(1280, 720), 64);
    assert_eq!(cube_size(720, 1280), 64);
    assert_eq!(cube_size(1000, 1000), 50);
    assert_eq!(cube_size(1279, 3), 63);
    assert_eq!(cube_size(19, 19), 0);
    assert_eq!(cube_size(0, 0), 0);
    assert_eq!(cube_size(u32::MAX, 1), 214_748_364);
}

#[test]
fn spawn_draw_validity() {
    let draw = SpawnDraw { purple: true, direction: 3, speed: 128, interval_ns: 1_000_000_000 };
    assert!(draw.is_wf());
    assert!(draw.is_fit(1280, 720));
    assert!(SpawnDraw { speed: 191, ..draw }.is_fit(1280, 720));
    assert!(!SpawnDraw { speed: 192, ..draw }.is_fit(1280, 720));
    assert!(!SpawnDraw { speed: 127, ..draw }.is_fit(1280, 720));
    assert!(!SpawnDraw { direction: 4, ..draw }.is_wf());
    assert!(!SpawnDraw { interval_ns: 999_999_999, ..draw }.is_wf());
    assert!(SpawnDraw { interval_ns: 1_499_999_999, ..draw }.is_wf());
    assert!(!SpawnDraw { interval_ns: 1_500_000_000, ..draw }.is_wf());
    assert!(SpawnDraw { speed: 0, ..draw }.is_fit(10, 10));
    assert!(!SpawnDraw { speed: 1, ..draw }.is_fit(10, 10));
}

#[test]
fn drawn_spawns_are_valid_and_varied() {
    let mut rng = StdRng::seed_from_u64(2023);
    let mut purple = 0;
    let mut directions = [0usize; 4];
    let mut speeds = std::collections::BTreeSet::new();
    let mut intervals = std::collections::BTreeSet::new();
    for _ in 0..2000 {
        let draw = draw_spawn(&mut rng, 1280, 720);
        assert!(draw.is_wf());
        assert!(draw.is_fit(1280, 720));
        assert!(draw.direction < 4);
        assert!(128 <= draw.speed && draw.speed < 192);
        assert!(MIN_INTERVAL_NS <= draw.interval_ns && draw.interval_ns < MAX_INTERVAL_NS);
        if draw.purple {
            purple += 1;
        }
        directions[draw.direction as usize] += 1;
        speeds.insert(draw.speed);
        intervals.insert(draw.interval_ns);
    }
    assert!(1400 < purple && purple < 1800, "about four in five are purple: {}", purple);
    for count in directions {
        assert!(300 < count && count < 700, "about one in four each: {}", count);
    }
    assert_eq!(speeds.len(), 64);
    assert!(intervals.len() > 1900);
}

#[test]
fn same_seed_gives_the_same_draws() {
    let mut first = StdRng::seed_from_u64(99);
    let mut second = StdRng::seed_from_u64(99);
    for _ in 0..50 {
        assert_eq!(draw_spawn(&mut first, 800, 600), draw_spawn(&mut second, 800, 600));
        assert_eq!(draw_pick(&mut first), draw_pick(&mut second));
    }
}

#[test]
fn cube_on_a_tiny_screen_stands_still() {
    let mut rng = StdRng::seed_from_u64(1);
    for _ in 0..20 {
        let draw = draw_spawn(&mut rng, 19, 7);
        assert_eq!(draw.speed, 0);
        assert!(draw.is_wf());
        assert!(draw.is_fit(19, 7));
    }
}

#[test]
fn smallest_screen_with_moving_cubes() {
    let mut rng = StdRng::seed_from_u64(1);
    for _ in 0..20 {
        let draw = draw_spawn(&mut rng, 20, 20);
        assert_eq!(draw.speed, 2);
    }
}

#[test]
fn picks_cover_the_whole_pool() {
    let mut rng = StdRng::seed_from_u64(5);
    let mut seen = [0usize; 3];
    for _ in 0..600 {
        let pick = draw_pick(&mut rng);
        assert!(pick < POOL_SIZE);
        seen[pick as usize] += 1;
    }
    for count in seen {
        assert!(count > 100);
    }
}

#[test]
fn tiers_split_at_five_and_twenty() {
    assert_eq!(Tier::for_score(i16::MIN), Tier::Low);
    assert_eq!(Tier::for_score(-5), Tier::Low);
    assert_eq!(Tier::for_score(4), Tier::Low);
    assert_eq!(Tier::for_score(5), Tier::Middle);
    assert_eq!(Tier::for_score(19), Tier::Middle);
    assert_eq!(Tier::for_score(20), Tier::High);
    assert_eq!(Tier::for_score(i16::MAX), Tier::High);
}

#[test]
fn every_message_has_its_words() {
    let expected = [
        (0, 0, "Forgot to read the rules? :D"),
        (0, 1, "Not really trying, are you? -_-"),
        (0, 2, "Congrats for saving your energy!"),
        (10, 0, "Great! Let's try for greater!"),
        (10, 1, "It's easy! But there's always more to achieve, right? :)"),
        (10, 2, "You're good with these purple cubes, aren't you?"),
        (25, 0, "Wow! That's amazing!"),
        (25, 1, "You're aiming for the sky!"),
        (25, 2, "Stunning! Don't forget to take a break!"),
    ];
    for (score, pick, words) in expected {
        let message = Message::for_score(score, pick);
        assert_eq!(message.pick, pick);
        assert_eq!(message.tier, Tier::for_score(score));
        assert_eq!(message.text(), words);
    }
    assert_eq!(instruction(), "Left arrow - Restart | Right arrow - Menu");
}

#[test]
fn spawner_is_due_after_two_seconds_first() {
    let mut spawner = Spawner::new();
    assert_eq!(FIRST_INTERVAL_NS, 2_000_000_000);
    assert_eq!(spawner.timer().duration_ns(), 2_000_000_000);
    assert_eq!(spawner.timer().mode(), TimerMode::Repeating);
    assert!(!spawner.due_after(1_999_999_999));
    assert!(spawner.due_after(2_000_000_000));
    assert!(!spawner.tick(1_999_999_999));
    assert!(spawner.due_after(1));
    assert!(spawner.tick(1));
    assert_eq!(spawner.timer().elapsed_ns(), 0);
    assert!(!spawner.tick(0));
}

#[test]
fn rescheduled_spawner_keeps_its_elapsed_time() {
    let mut spawner = Spawner::new();
    assert!(spawner.tick(2_300_000_000));
    assert_eq!(spawner.timer().elapsed_ns(), 300_000_000);
    spawner.reschedule(1_250_000_000);
    assert_eq!(spawner.timer().duration_ns(), 1_250_000_000);
    assert_eq!(spawner.timer().elapsed_ns(), 300_000_000);
    assert!(!spawner.tick(949_999_999));
    assert!(spawner.tick(1));
    assert_eq!(spawner.timer().elapsed_ns(), 0);
}

#[test]
fn spawner_fires_once_per_tick_however_long() {
    let mut spawner = Spawner::new();
    assert!(spawner.tick(9_000_000_000));
    assert_eq!(spawner.timer().times_finished_this_tick(), 4);
    assert_eq!(spawner.timer().elapsed_ns(), 1_000_000_000);
}
