use purple_cubes::cube::{Color, Cube, Direction, LIFETIME_NS};
use purple_cubes::input::ArrowKeys;
use purple_cubes::timer::TimerMode;

#[test]
fn draws_map_to_right_left_up_down() {
    assert_eq!(Direction::from_index(0), Direction::Right);
    assert_eq!(Direction::from_index(1), Direction::Left);
    assert_eq!(Direction::from_index(2), Direction::Up);
    assert_eq!(Direction::from_index(3), Direction::Down);
}

#[test]
fn unit_vectors_are_cardinal() {
    assert_eq!(Direction::Up.unit(), (0, 1));
    assert_eq!(Direction::Down.unit(), (0, -1));
    assert_eq!(Direction::Left.unit(), (-1, 0));
    assert_eq!(Direction::Right.unit(), (1, 0));
}

#[test]
fn colour_follows_the_draw() {
    assert_eq!(Color::from_draw(true), Color::Purple);
    assert_eq!(Color::from_draw(false), Color::NonPurple);
    assert!(Color::Purple.is_purple());
    assert!(!Color::NonPurple.is_purple());
}

#[test]
fn new_cube_sits_at_the_origin_with_a_second_to_live() {
    let cube = Cube::new(7, Direction::Left, Color::Purple, 150);
    assert_eq!(cube.id(), 7);
    assert_eq!(cube.direction(), Direction::Left);
    assert_eq!(cube.color(), Color::Purple);
    assert_eq!(cube.speed(), 150);
    assert_eq!(cube.position(), (0, 0));
    assert!(!cube.expired());
    let lifetime = cube.lifetime();
    assert_eq!(lifetime.duration_ns(), 1_000_000_000);
    assert_eq!(LIFETIME_NS, 1_000_000_000);
    assert_eq!(lifetime.elapsed_ns(), 0);
    assert_eq!(lifetime.mode(), TimerMode::OneShot);
}

#[test]
fn cube_moves_by_speed_times_delta_along_its_direction() {
    let delta = 16_000_000;
    let step = 128 * 16_000_000i128;
    let mut right = Cube::new(0, Direction::Right, Color::Purple, 128);
    right.advance(delta);
    assert_eq!(right.position(), (step, 0));
    let mut left = Cube::new(1, Direction::Left, Color::Purple, 128);
    left.advance(delta);
    assert_eq!(left.position(), (-step, 0));
    let mut up = Cube::new(2, Direction::Up, Color::NonPurple, 128);
    up.advance(delta);
    assert_eq!(up.position(), (0, step));
    let mut down = Cube::new(3, Direction::Down, Color::NonPurple, 128);
    down.advance(delta);
    assert_eq!(down.position(), (0, -step));
}

#[test]
fn cube_moves_add_up() {
    let mut cube = Cube::new(0, Direction::Up, Color::Purple, 191);
    cube.advance(250_000_000);
    cube.advance(0);
    cube.advance(750_000_000);
    assert_eq!(cube.position(), (0, 191_000_000_000));
    assert_eq!(cube.direction(), Direction::Up);
    assert_eq!(cube.color(), Color::Purple);
}

#[test]
fn cube_at_rest_stays_where_it_is() {
    let mut cube = Cube::new(0, Direction::Right, Color::Purple, 0);
    cube.advance(u64::MAX);
    assert_eq!(cube.position(), (0, 0));
}

#[test]
fn fastest_cube_can_take_the_longest_step() {
    let mut cube = Cube::new(0, Direction::Left, Color::Purple, u32::MAX);
    cube.advance(u64::MAX);
    assert_eq!(cube.position(), (-(u32::MAX as i128) * (u64::MAX as i128), 0));
}

#[test]
fn cube_at_the_edge_of_the_range_cannot_go_on() {
    let mut cube = Cube::new(0, Direction::Down, Color::Purple, u32::MAX);
    let step = (u32::MAX as i128) * (u64::MAX as i128);
    let mut taken: i128 = 0;
    while cube.can_advance(u64::MAX) {
        cube.advance(u64::MAX);
        taken += 1;
    }
    assert_eq!(taken, i128::MAX / step);
    assert_eq!(taken, 1 << 31);
    assert_eq!(cube.position(), (0, -taken * step));
    assert!(!cube.can_advance(u64::MAX));
    assert!(cube.can_advance(0));
    assert!(cube.can_advance(1));
}

#[test]
fn cube_expires_after_one_second() {
    let mut cube = Cube::new(0, Direction::Up, Color::Purple, 100);
    cube.age(999_999_999);
    assert!(!cube.expired());
    cube.age(1);
    assert!(cube.expired());
    cube.age(5);
    assert!(cube.expired());
    assert_eq!(cube.position(), (0, 0));
}

#[test]
fn keys_stand_for_their_own_direction() {
    let keys = ArrowKeys { up: true, down: false, left: false, right: true };
    assert!(keys.is_pressed(Direction::Up));
    assert!(!keys.is_pressed(Direction::Down));
    assert!(!keys.is_pressed(Direction::Left));
    assert!(keys.is_pressed(Direction::Right));
}

#[test]
fn no_keys_and_single_keys() {
    let none = ArrowKeys::none();
    for direction in [Direction::Up, Direction::Down, Direction::Left, Direction::Right] {
        assert!(!none.is_pressed(direction));
        let only = ArrowKeys::only(direction);
        for other in [Direction::Up, Direction::Down, Direction::Left, Direction::Right] {
            assert_eq!(only.is_pressed(other), other == direction);
        }
    }
}
