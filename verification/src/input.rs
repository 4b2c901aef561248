//! What the player did during one tick.

use crate::cube::Direction;
use vstd::prelude::*;

verus! {

/// The arrow keys that went down during a tick. A key that is merely held
/// does not count: the host reports the edge only.
#[derive(Clone, Copy, Debug, PartialEq, Eq)]
pub struct ArrowKeys {
    pub up: bool,
    pub down: bool,
    pub left: bool,
    pub right: bool,
}

impl ArrowKeys {
    /// Whether the key that stands for `direction` went down: the up key for
    /// cubes that travel up, the down key for those that travel down, and so on.
    pub open spec fn pressed(self, direction: Direction) -> bool {
        match direction {
            Direction::Up => self.up,
            Direction::Down => self.down,
            Direction::Left => self.left,
            Direction::Right => self.right,
        }
    }

    /// No key at all.
    pub fn none() -> (keys: ArrowKeys)
        ensures
            keys == (ArrowKeys { up: false, down: false, left: false, right: false }),
    {
        ArrowKeys { up: false, down: false, left: false, right: false }
    }

    /// The one key that stands for `direction`.
    pub fn only(direction: Direction) -> (keys: ArrowKeys)
        ensures
            forall|d: Direction| keys.pressed(d) == (d == direction),
    {
        match direction {
            Direction::Up => ArrowKeys { up: true, down: false, left: false, right: false },
            Direction::Down => ArrowKeys { up: false, down: true, left: false, right: false },
            Direction::Left => ArrowKeys { up: false, down: false, left: true, right: false },
            Direction::Right => ArrowKeys { up: false, down: false, left: false, right: true },
        }
    }

    /// Whether the key that stands for `direction` went down.
    pub fn is_pressed(&self, direction: Direction) -> (p: bool)
        ensures
            p == self.pressed(direction),
    {
        match direction {
            Direction::Up => self.up,
            Direction::Down => self.down,
            Direction::Left => self.left,
            Direction::Right => self.right,
        }
    }
}

} // verus!
