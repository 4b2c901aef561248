//! The running score and the rules by which it changes.

use crate::cube::CubeModel;
use crate::input::ArrowKeys;
use crate::store::{fouled, hit, missed, Outcome};
use vstd::prelude::*;

verus! {

/// Points for pressing the key of a purple cube.
pub const HIT_POINTS: i16 = 1;

/// Points taken for pressing the key of a cube of the wrong colour, and for
/// letting a purple cube expire.
pub const PENALTY_POINTS: i16 = 5;

/// What a press is worth on one cube: nothing unless the cube's key was
/// pressed, then one point for a purple cube and five off for any other.
pub open spec fn press_value(cube: CubeModel, keys: ArrowKeys) -> int {
    if !keys.pressed(cube.direction) {
        0
    } else if cube.color is Purple {
        HIT_POINTS as int
    } else {
        -(PENALTY_POINTS as int)
    }
}

/// What the end of a lifetime is worth on one cube: five off if the cube has
/// expired and is purple, nothing otherwise.
pub open spec fn miss_value(cube: CubeModel) -> int {
    if cube.expired() && cube.color is Purple {
        -(PENALTY_POINTS as int)
    } else {
        0
    }
}

/// What a press is worth that resolved `hits` purple cubes and `fouls` others.
pub open spec fn press_points(hits: nat, fouls: nat) -> int {
    hits * HIT_POINTS - fouls * PENALTY_POINTS
}

/// What `misses` expired purple cubes are worth.
pub open spec fn miss_points(misses: nat) -> int {
    -(misses * PENALTY_POINTS)
}

/// The value of a press grows cube by cube: with one more cube in the store
/// it changes by exactly that cube's value, which is 1 for a purple cube whose
/// key was pressed, -5 for another cube whose key was pressed, and 0 for a
/// cube whose key was not pressed.
pub proof fn law_press_counts_each_cube(cubes: Seq<CubeModel>, cube: CubeModel, keys: ArrowKeys)
    ensures
        press_points(
            cubes.push(cube).filter(hit(keys)).len(),
            cubes.push(cube).filter(fouled(keys)).len(),
        ) == press_points(cubes.filter(hit(keys)).len(), cubes.filter(fouled(keys)).len())
            + press_value(cube, keys),
        keys.pressed(cube.direction) && cube.color is Purple ==> press_value(cube, keys) == 1,
        keys.pressed(cube.direction) && cube.color is NonPurple ==> press_value(cube, keys) == -5,
        !keys.pressed(cube.direction) ==> press_value(cube, keys) == 0,
{
    cubes.lemma_filter_len_push(hit(keys), cube);
    cubes.lemma_filter_len_push(fouled(keys), cube);
}

/// The penalty for misses grows cube by cube: one more cube changes it by
/// exactly -5 if that cube is purple and has expired, and by 0 otherwise.
pub proof fn law_miss_counts_each_cube(cubes: Seq<CubeModel>, cube: CubeModel)
    ensures
        miss_points(cubes.push(cube).filter(missed()).len()) == miss_points(
            cubes.filter(missed()).len(),
        ) + miss_value(cube),
        cube.expired() && cube.color is Purple ==> miss_value(cube) == -5,
        cube.expired() && cube.color is NonPurple ==> miss_value(cube) == 0,
        !cube.expired() ==> miss_value(cube) == 0,
{
    cubes.lemma_filter_len_push(missed(), cube);
}

/// The player's score.
#[derive(Clone, Copy, Debug, PartialEq, Eq)]
pub struct Score {
    value: i16,
}

impl View for Score {
    type V = int;

    closed spec fn view(&self) -> int {
        self.value as int
    }
}

impl Score {
    /// A score of zero.
    pub fn new() -> (score: Score)
        ensures
            score@ == 0,
    {
        Score { value: 0 }
    }

    pub fn value(&self) -> (v: i16)
        ensures
            v == self@,
    {
        self.value
    }

    /// Back to zero, for a new round.
    pub fn reset(&mut self)
        ensures
            final(self)@ == 0,
    {
        self.value = 0;
    }

    /// One point for a purple cube hit in time.
    pub fn reward(&mut self)
        requires
            old(self)@ + HIT_POINTS <= i16::MAX,
        ensures
            final(self)@ == old(self)@ + HIT_POINTS,
    {
        self.value = self.value + HIT_POINTS;
    }

    /// Five points off, for a wrong hit or a missed purple cube.
    pub fn penalize(&mut self)
        requires
            old(self)@ - PENALTY_POINTS >= i16::MIN,
        ensures
            final(self)@ == old(self)@ - PENALTY_POINTS,
    {
        self.value = self.value - PENALTY_POINTS;
    }

    /// Books a whole tick: what the presses resolved and what expired unhandled.
    pub fn settle(&mut self, outcome: Outcome, misses: usize)
        requires
            i16::MIN <= old(self)@ + press_points(outcome.hits as nat, outcome.fouls as nat)
                + miss_points(misses as nat) <= i16::MAX,
        ensures
            final(self)@ == old(self)@ + press_points(outcome.hits as nat, outcome.fouls as nat)
                + miss_points(misses as nat),
    {
        let gained: i128 = outcome.hits as i128;
        let lost: i128 = 5 * (outcome.fouls as i128) + 5 * (misses as i128);
        let total: i128 = self.value as i128 + gained - lost;
        self.value = total as i16;
    }
}

} // verus!
