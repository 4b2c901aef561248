//! The spawner: an interval timer, and the draws that make a new cube.

use crate::random::{roll_range, roll_ratio};
use crate::timer::{Timer, TimerMode, TimerModel};
use vstd::prelude::*;

verus! {

/// The interval before the first cube: two seconds.
pub const FIRST_INTERVAL_NS: u64 = 2_000_000_000;

/// Every later interval is drawn from one second (included) ...
pub const MIN_INTERVAL_NS: u64 = 1_000_000_000;

/// ... to one and a half seconds (excluded).
pub const MAX_INTERVAL_NS: u64 = 1_500_000_000;

/// A cube is purple with a chance of 4 in 5.
pub const PURPLE_CHANCES: u32 = 4;

pub const PURPLE_OUT_OF: u32 = 5;

/// The side of a cube: 5% of the longer side of the screen, rounded down.
pub open spec fn cube_size_of(width: nat, height: nat) -> nat {
    if width >= height {
        width / 20
    } else {
        height / 20
    }
}

/// The side of a cube on a screen of the given size.
pub fn cube_size(width: u32, height: u32) -> (size: u32)
    ensures
        size == cube_size_of(width as nat, height as nat),
{
    if width >= height {
        width / 20
    } else {
        height / 20
    }
}

/// What is drawn for one new cube.
#[derive(Clone, Copy, Debug, PartialEq, Eq)]
pub struct SpawnDraw {
    /// Whether the cube is purple.
    pub purple: bool,
    /// Which direction it takes, from 0 to 3.
    pub direction: u8,
    /// Its speed, in length units per second.
    pub speed: u32,
    /// The interval until the next cube, in nanoseconds.
    pub interval_ns: u64,
}

impl SpawnDraw {
    /// The direction is one of four and the interval lies between one second
    /// and one and a half.
    pub open spec fn wf(self) -> bool {
        &&& self.direction < 4
        &&& MIN_INTERVAL_NS <= self.interval_ns < MAX_INTERVAL_NS
    }

    /// The speed lies between two and three cube sizes per second (the upper
    /// bound excluded). On a screen so small that the cube size is zero there
    /// is no such speed, and the cube stands still.
    pub open spec fn fits(self, width: u32, height: u32) -> bool {
        let size = cube_size_of(width as nat, height as nat);
        if size > 0 {
            2 * size <= self.speed < 3 * size
        } else {
            self.speed == 0
        }
    }

    pub fn is_wf(&self) -> (ok: bool)
        ensures
            ok == self.wf(),
    {
        self.direction < 4 && MIN_INTERVAL_NS <= self.interval_ns && self.interval_ns
            < MAX_INTERVAL_NS
    }

    pub fn is_fit(&self, width: u32, height: u32) -> (ok: bool)
        ensures
            ok == self.fits(width, height),
    {
        let size = cube_size(width, height);
        if size > 0 {
            2 * size <= self.speed && self.speed < 3 * size
        } else {
            self.speed == 0
        }
    }
}

/// Draws what a new cube needs: colour, direction, speed and the interval
/// until the next spawn. The values depend on the generator; whatever comes
/// back is well-formed and fits the screen.
pub fn draw_spawn(rng: &mut rand::rngs::StdRng, width: u32, height: u32) -> (draw: SpawnDraw)
    ensures
        draw.wf(),
        draw.fits(width, height),
{
    let purple = roll_ratio(rng, PURPLE_CHANCES, PURPLE_OUT_OF);
    let direction = roll_range(rng, 0, 4) as u8;
    let size = cube_size(width, height);
    let speed = if size > 0 {
        roll_range(rng, 2 * (size as u64), 3 * (size as u64)) as u32
    } else {
        0
    };
    let interval_ns = roll_range(rng, MIN_INTERVAL_NS, MAX_INTERVAL_NS);
    SpawnDraw { purple, direction, speed, interval_ns }
}

/// Mathematical model of a [`Spawner`]: its interval timer.
pub struct SpawnerModel {
    pub timer: TimerModel,
}

impl SpawnerModel {
    /// The timer repeats, its interval lies between one and two seconds, and
    /// less than two seconds have elapsed on it.
    pub open spec fn wf(self) -> bool {
        &&& self.timer.mode is Repeating
        &&& MIN_INTERVAL_NS <= self.timer.duration <= FIRST_INTERVAL_NS
        &&& self.timer.elapsed < FIRST_INTERVAL_NS
    }

    /// The spawner as it starts: two seconds until the first cube.
    pub open spec fn fresh() -> SpawnerModel {
        SpawnerModel { timer: TimerModel::fresh(FIRST_INTERVAL_NS as nat, TimerMode::Repeating) }
    }

    /// The spawner after `delta` more nanoseconds.
    pub open spec fn tick(self, delta: nat) -> SpawnerModel {
        SpawnerModel { timer: self.timer.tick(delta) }
    }

    /// Whether a cube is due: the last tick completed an interval.
    pub open spec fn due(self) -> bool {
        self.timer.finished
    }

    /// The spawner with another interval; the elapsed time stays.
    pub open spec fn rescheduled(self, interval: nat) -> SpawnerModel {
        SpawnerModel { timer: self.timer.with_duration(interval) }
    }
}

/// Decides when the next cube appears.
#[derive(Clone, Copy, Debug, PartialEq, Eq)]
pub struct Spawner {
    timer: Timer,
}

impl View for Spawner {
    type V = SpawnerModel;

    closed spec fn view(&self) -> SpawnerModel {
        SpawnerModel { timer: self.timer@ }
    }
}

/// A tick keeps a spawner well-formed, and when a cube is due, at least one
/// second of the time on the timer has been used up.
pub(crate) proof fn lemma_spawner_tick(spawner: SpawnerModel, delta: nat)
    requires
        spawner.wf(),
    ensures
        spawner.tick(delta).wf(),
        spawner.tick(delta).due() ==> spawner.tick(delta).timer.elapsed + MIN_INTERVAL_NS
            <= spawner.timer.elapsed + delta,
        !spawner.tick(delta).due() ==> spawner.tick(delta).timer.elapsed == spawner.timer.elapsed
            + delta,
{
    let total = spawner.timer.elapsed + delta;
    let cycle = spawner.timer.duration;
    vstd::arithmetic::div_mod::lemma_fundamental_div_mod(total as int, cycle as int);
    vstd::arithmetic::div_mod::lemma_mod_bound(total as int, cycle as int);
    if total >= cycle {
        vstd::arithmetic::div_mod::lemma_div_non_zero(total as int, cycle as int);
        assert(cycle * (total / cycle) >= cycle) by (nonlinear_arith)
            requires
                total / cycle >= 1,
                cycle >= 0,
        ;
    } else {
        vstd::arithmetic::div_mod::lemma_small_mod(total, cycle);
    }
}

impl Spawner {
    /// A spawner whose first cube is due after two seconds.
    pub fn new() -> (spawner: Spawner)
        ensures
            spawner@ == SpawnerModel::fresh(),
            spawner@.wf(),
    {
        Spawner { timer: Timer::new(FIRST_INTERVAL_NS, TimerMode::Repeating) }
    }

    /// The interval timer.
    pub fn timer(&self) -> (timer: Timer)
        ensures
            timer@ == self@.timer,
    {
        self.timer
    }

    /// Whether a tick of `delta_ns` would make a cube due.
    pub fn due_after(&self, delta_ns: u64) -> (due: bool)
        requires
            self@.wf(),
        ensures
            due == self@.tick(delta_ns as nat).due(),
    {
        let mut timer = self.timer;
        timer.tick(delta_ns);
        timer.finished()
    }

    /// Advances the interval timer and says whether a cube is due.
    pub fn tick(&mut self, delta_ns: u64) -> (due: bool)
        requires
            old(self)@.wf(),
        ensures
            final(self)@ == old(self)@.tick(delta_ns as nat),
            final(self)@.wf(),
            due == final(self)@.due(),
    {
        proof {
            lemma_spawner_tick(self@, delta_ns as nat);
        }
        self.timer.tick(delta_ns);
        self.timer.finished()
    }

    /// Sets the interval until the next cube.
    pub fn reschedule(&mut self, interval_ns: u64)
        requires
            old(self)@.wf(),
            MIN_INTERVAL_NS <= interval_ns < MAX_INTERVAL_NS,
        ensures
            final(self)@ == old(self)@.rescheduled(interval_ns as nat),
            final(self)@.wf(),
    {
        self.timer.set_duration(interval_ns);
    }
}

} // verus!
