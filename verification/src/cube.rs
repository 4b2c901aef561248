//! The cubes: what they are, how they travel and how they age.

use crate::timer::{Timer, TimerMode, TimerModel, NANOS_PER_SECOND};
use vstd::prelude::*;

verus! {

/// How long a cube lives unless it is hit first: one second.
pub const LIFETIME_NS: u64 = NANOS_PER_SECOND;

/// The four directions of travel, and of the arrow keys.
#[derive(Clone, Copy, Debug, PartialEq, Eq, Structural)]
pub enum Direction {
    Up,
    Down,
    Left,
    Right,
}

impl Direction {
    /// The vector of the given length along this direction: up and right
    /// count as positive, down and left as negative.
    pub open spec fn along(self, distance: nat) -> (int, int) {
        match self {
            Direction::Up => (0, distance as int),
            Direction::Down => (0, -distance),
            Direction::Left => (-distance, 0),
            Direction::Right => (distance as int, 0),
        }
    }

    /// The direction that a draw of 0, 1, 2 or 3 stands for: right, left, up, down.
    pub open spec fn of_index(index: int) -> Direction {
        if index == 0 {
            Direction::Right
        } else if index == 1 {
            Direction::Left
        } else if index == 2 {
            Direction::Up
        } else {
            Direction::Down
        }
    }

    /// Turns a draw from 0 to 3 into a direction.
    pub fn from_index(index: u8) -> (direction: Direction)
        requires
            index < 4,
        ensures
            direction == Direction::of_index(index as int),
    {
        if index == 0 {
            Direction::Right
        } else if index == 1 {
            Direction::Left
        } else if index == 2 {
            Direction::Up
        } else {
            Direction::Down
        }
    }

    /// The unit vector of this direction.
    pub fn unit(self) -> (v: (i8, i8))
        ensures
            (v.0 as int, v.1 as int) == self.along(1),
    {
        match self {
            Direction::Up => (0, 1),
            Direction::Down => (0, -1),
            Direction::Left => (-1, 0),
            Direction::Right => (1, 0),
        }
    }
}

/// A cube is either purple, and then worth hitting, or it is not.
#[derive(Clone, Copy, Debug, PartialEq, Eq, Structural)]
pub enum Color {
    Purple,
    NonPurple,
}

impl Color {
    /// The colour that a draw stands for.
    pub open spec fn of_draw(purple: bool) -> Color {
        if purple {
            Color::Purple
        } else {
            Color::NonPurple
        }
    }

    /// Turns a draw into a colour.
    pub fn from_draw(purple: bool) -> (color: Color)
        ensures
            color == Color::of_draw(purple),
    {
        if purple {
            Color::Purple
        } else {
            Color::NonPurple
        }
    }

    pub fn is_purple(self) -> (p: bool)
        ensures
            p == (self is Purple),
    {
        match self {
            Color::Purple => true,
            Color::NonPurple => false,
        }
    }
}

/// Mathematical model of a [`Cube`].
pub struct CubeModel {
    /// Identity: no two live cubes share it.
    pub id: nat,
    pub direction: Direction,
    pub color: Color,
    /// Length units per second.
    pub speed: nat,
    /// Position in billionths of a length unit.
    pub x: int,
    pub y: int,
    pub lifetime: TimerModel,
}

impl CubeModel {
    /// A cube as it is spawned: at the origin, with its whole lifetime ahead.
    pub open spec fn fresh(id: nat, direction: Direction, color: Color, speed: nat) -> CubeModel {
        CubeModel {
            id,
            direction,
            color,
            speed,
            x: 0,
            y: 0,
            lifetime: TimerModel::fresh(LIFETIME_NS as nat, TimerMode::OneShot),
        }
    }

    /// The lifetime of a cube is a one-shot timer.
    pub open spec fn wf(self) -> bool {
        self.lifetime.mode is OneShot
    }

    /// Whether the position fits the machine representation.
    pub open spec fn in_range(self) -> bool {
        &&& i128::MIN <= self.x <= i128::MAX
        &&& i128::MIN <= self.y <= i128::MAX
    }

    /// The cube after travelling for `delta` nanoseconds:
    /// position += direction * speed * delta.
    pub open spec fn moved(self, delta: nat) -> CubeModel {
        let step = self.direction.along(self.speed * delta);
        CubeModel { x: self.x + step.0, y: self.y + step.1, ..self }
    }

    /// The cube with its lifetime advanced by `delta` nanoseconds.
    pub open spec fn aged(self, delta: nat) -> CubeModel {
        CubeModel { lifetime: self.lifetime.tick(delta), ..self }
    }

    /// Whether the lifetime has run out.
    pub open spec fn expired(self) -> bool {
        self.lifetime.finished
    }

    /// A cube that has only ever travelled and aged together, and is still
    /// alive: it stands where its speed and its age put it.
    pub open spec fn on_course(self) -> bool {
        &&& self.wf()
        &&& self.lifetime.duration == LIFETIME_NS
        &&& !self.lifetime.finished
        &&& self.lifetime.elapsed < LIFETIME_NS
        &&& self.speed <= u32::MAX
        &&& (self.x, self.y) == self.direction.along(self.speed * self.lifetime.elapsed)
    }
}

/// One spawned, moving, coloured cube.
#[derive(Clone, Copy, Debug, PartialEq, Eq)]
pub struct Cube {
    id: u64,
    direction: Direction,
    color: Color,
    speed: u32,
    x: i128,
    y: i128,
    lifetime: Timer,
}

impl View for Cube {
    type V = CubeModel;

    closed spec fn view(&self) -> CubeModel {
        CubeModel {
            id: self.id as nat,
            direction: self.direction,
            color: self.color,
            speed: self.speed as nat,
            x: self.x as int,
            y: self.y as int,
            lifetime: self.lifetime@,
        }
    }
}

impl Cube {
    /// A cube at the origin with a lifetime of one second.
    pub fn new(id: u64, direction: Direction, color: Color, speed: u32) -> (cube: Cube)
        ensures
            cube@ == CubeModel::fresh(id as nat, direction, color, speed as nat),
            cube@.wf(),
            cube@.on_course(),
    {
        Cube {
            id,
            direction,
            color,
            speed,
            x: 0,
            y: 0,
            lifetime: Timer::new(LIFETIME_NS, TimerMode::OneShot),
        }
    }

    pub fn id(&self) -> (id: u64)
        ensures
            id == self@.id,
    {
        self.id
    }

    pub fn direction(&self) -> (direction: Direction)
        ensures
            direction == self@.direction,
    {
        self.direction
    }

    pub fn color(&self) -> (color: Color)
        ensures
            color == self@.color,
    {
        self.color
    }

    /// Speed in length units per second.
    pub fn speed(&self) -> (speed: u32)
        ensures
            speed == self@.speed,
    {
        self.speed
    }

    /// Position, in billionths of a length unit.
    pub fn position(&self) -> (p: (i128, i128))
        ensures
            p.0 == self@.x,
            p.1 == self@.y,
    {
        (self.x, self.y)
    }

    /// The timer that counts the cube's lifetime.
    pub fn lifetime(&self) -> (timer: Timer)
        ensures
            timer@ == self@.lifetime,
    {
        self.lifetime
    }

    /// Whether the lifetime has run out.
    pub fn expired(&self) -> (e: bool)
        ensures
            e == self@.expired(),
    {
        self.lifetime.finished()
    }

    /// Whether the cube can travel for `delta_ns` nanoseconds without
    /// leaving the range of positions.
    pub fn can_advance(&self, delta_ns: u64) -> (ok: bool)
        ensures
            ok == self@.moved(delta_ns as nat).in_range(),
    {
        assert(0 <= self.speed * delta_ns <= 0x1_0000_0000_0000_0000_0000_0000) by (nonlinear_arith)
            requires
                0 <= self.speed <= 0xffff_ffff,
                0 <= delta_ns <= 0xffff_ffff_ffff_ffff,
        ;
        let step: i128 = (self.speed as i128) * (delta_ns as i128);
        match self.direction {
            Direction::Up => self.y <= 0 || step <= i128::MAX - self.y,
            Direction::Down => self.y >= 0 || step <= self.y - i128::MIN,
            Direction::Left => self.x >= 0 || step <= self.x - i128::MIN,
            Direction::Right => self.x <= 0 || step <= i128::MAX - self.x,
        }
    }

    /// Moves the cube along its direction for `delta_ns` nanoseconds.
    pub fn advance(&mut self, delta_ns: u64)
        requires
            old(self)@.moved(delta_ns as nat).in_range(),
        ensures
            final(self)@ == old(self)@.moved(delta_ns as nat),
    {
        assert(0 <= self.speed * delta_ns <= 0x1_0000_0000_0000_0000_0000_0000) by (nonlinear_arith)
            requires
                0 <= self.speed <= 0xffff_ffff,
                0 <= delta_ns <= 0xffff_ffff_ffff_ffff,
        ;
        let step: i128 = (self.speed as i128) * (delta_ns as i128);
        match self.direction {
            Direction::Up => {
                self.y = self.y + step;
            },
            Direction::Down => {
                self.y = self.y - step;
            },
            Direction::Left => {
                self.x = self.x - step;
            },
            Direction::Right => {
                self.x = self.x + step;
            },
        }
    }

    /// Advances the lifetime by `delta_ns` nanoseconds.
    pub fn age(&mut self, delta_ns: u64)
        requires
            old(self)@.wf(),
        ensures
            final(self)@ == old(self)@.aged(delta_ns as nat),
            final(self)@.wf(),
    {
        self.lifetime.tick(delta_ns);
    }
}

/// Travelling and ageing by the same delta keeps a cube on course, as long as
/// its lifetime does not run out.
pub(crate) proof fn lemma_stays_on_course(cube: CubeModel, delta: nat)
    requires
        cube.on_course(),
        !cube.aged(delta).expired(),
    ensures
        cube.moved(delta).aged(delta).on_course(),
{
    let age = cube.lifetime.elapsed;
    assert(cube.speed * (age + delta) == cube.speed * age + cube.speed * delta)
        by (nonlinear_arith);
}

/// A cube on course can travel for any delta that fits 64 bits without
/// leaving the range of positions.
pub(crate) proof fn lemma_course_in_range(cube: CubeModel, delta: nat)
    requires
        cube.on_course(),
        delta <= u64::MAX,
    ensures
        cube.moved(delta).in_range(),
{
    let age = cube.lifetime.elapsed;
    assert(0 <= cube.speed * age <= 0x1_0000_0000 * 0x4000_0000 && 0 <= cube.speed * delta
        <= 0x1_0000_0000 * 0x1_0000_0000_0000_0000) by (nonlinear_arith)
        requires
            cube.speed <= 0xffff_ffff,
            age <= 0x4000_0000,
            delta <= 0xffff_ffff_ffff_ffff,
    ;
}

} // verus!
