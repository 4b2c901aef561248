//! Round simulation and scoring engine of a reaction game.
//!
//! Coloured cubes appear at a fixed point and travel outward along one of the
//! four cardinal directions. The player scores by pressing the arrow key that
//! matches a purple cube's direction before the cube's lifetime runs out.
//!
//! Time is counted in whole nanoseconds, speed in length units per second and
//! positions in billionths of a length unit, so that every step is exact.
//! Each type has a mathematical model, reached with `@`, and every function
//! states its effect over those models.
//!
//! - [`timer`]: the countdown and interval timer behind spawning, lifetimes
//!   and the length of a round.
//! - [`cube`] and [`store`]: the cubes, and the passes that move them, resolve
//!   key presses and reap the expired.
//! - [`score`]: the score and the rules by which it changes.
//! - [`spawner`] and [`message`]: when and what to spawn, and what to say
//!   when a round is over; both draw from a seedable generator.
//! - [`game`]: the state machine that ties them together, one call per tick.
//!
//! A host supplies one [`game::Input`] per frame and draws what it then
//! finds in the [`game::Game`].

pub mod cube;
pub mod game;
pub mod input;
pub mod message;
pub mod random;
pub mod score;
pub mod spawner;
pub mod store;
pub mod timer;
